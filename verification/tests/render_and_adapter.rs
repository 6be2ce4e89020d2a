//! The output renderer and the input adapter.

use sbrain_cli::adapter::{bytes_to_cells, cycles_from_u64, parse_cycles, values_to_cells};
use sbrain_cli::fault::{ConfigFault, Fault, LoadFault, ParseFault};
use sbrain_cli::render::{render_numeric, render_output, render_text, RenderMode};

#[test]
fn numeric_listing_of_empty_tape() {
    assert_eq!(render_numeric(&Vec::new()), "[]");
}

#[test]
fn numeric_listing_of_cells() {
    assert_eq!(render_numeric(&vec![1, 2, 3]), "[1, 2, 3]");
    assert_eq!(render_numeric(&vec![0]), "[0]");
    assert_eq!(render_numeric(&vec![4294967295]), "[4294967295]");
    assert_eq!(render_numeric(&vec![10, 0, 100]), "[10, 0, 100]");
}

#[test]
fn text_decoding_of_empty_tape_is_empty() {
    assert_eq!(render_text(&Vec::new()), "");
}

#[test]
fn text_decoding_is_repeatable() {
    let tape = vec![72, 105, 33];
    let once = render_text(&tape);
    let twice = render_text(&tape);
    assert_eq!(once, "Hi!");
    assert_eq!(once, twice);
}

#[test]
fn text_decoding_drops_invalid_cells() {
    // 0xD800 is a surrogate and 0x110000 is beyond the last code point:
    // both are dropped, never a fault.
    let tape = vec![72, 0xD800, 0x110000, 33];
    assert_eq!(render_output(&tape, RenderMode::Text), "H!");
}

#[test]
fn render_mode_picks_the_listing() {
    assert_eq!(render_output(&vec![7, 8], RenderMode::Numeric), "[7, 8]");
    assert_eq!(render_output(&vec![104, 105], RenderMode::Text), "hi");
}

#[test]
fn bytes_become_cells_in_order() {
    assert_eq!(bytes_to_cells(&vec![0, 1, 255]), vec![0, 1, 255]);
    assert_eq!(bytes_to_cells(&Vec::new()), Vec::<u32>::new());
}

#[test]
fn values_within_cell_width_are_accepted() {
    let r = values_to_cells(&vec![0, 7, 4294967295]);
    assert_eq!(r, Ok(vec![0, 7, 4294967295]));
}

#[test]
fn oversized_value_is_a_configuration_fault() {
    let r = values_to_cells(&vec![1, 4294967296]);
    assert_eq!(r, Err(Fault::Config(ConfigFault::CellOutOfRange)));
}

#[test]
fn cycle_flag_parses_decimal() {
    assert_eq!(parse_cycles("0"), Ok(0));
    assert_eq!(parse_cycles("123"), Ok(123));
    assert_eq!(parse_cycles("4294967295"), Ok(4294967295));
}

#[test]
fn cycle_flag_rejects_non_numerals() {
    let bad = Err(Fault::Config(ConfigFault::BadCycleCount));
    assert_eq!(parse_cycles(""), bad);
    let bad = Err(Fault::Config(ConfigFault::BadCycleCount));
    assert_eq!(parse_cycles("12x"), bad);
    let bad = Err(Fault::Config(ConfigFault::BadCycleCount));
    assert_eq!(parse_cycles("-1"), bad);
    let bad = Err(Fault::Config(ConfigFault::BadCycleCount));
    assert_eq!(parse_cycles("4294967296"), bad);
    let bad = Err(Fault::Config(ConfigFault::BadCycleCount));
    assert_eq!(parse_cycles("99999999999999999999"), bad);
}

#[test]
fn configured_cap_is_bounded_to_the_counter() {
    assert_eq!(cycles_from_u64(100), Ok(100));
    assert_eq!(cycles_from_u64(4294967295), Ok(4294967295));
    assert_eq!(
        cycles_from_u64(4294967296),
        Err(Fault::Config(ConfigFault::BadCycleCount))
    );
}

#[test]
fn fault_messages_name_the_fault() {
    assert_eq!(
        Fault::Load(LoadFault::ProgramTooLong).message(),
        "program tape exceeds the machine's tape capacity"
    );
    assert_eq!(
        Fault::Load(LoadFault::DataTooLong).message(),
        "data tape exceeds the machine's tape capacity"
    );
    assert_eq!(
        Fault::Parse(ParseFault::MissingSource).message(),
        "configuration document has no source field"
    );
    assert_eq!(
        Fault::Config(ConfigFault::BadCycleCount).message(),
        "invalid number of cycles"
    );
    assert_eq!(Fault::FileAccess(String::from("gone")).message(), "gone");
}
