//! The declarative configuration document and the config-driven front end.

use sbrain_cli::config::parse_config;
use sbrain_cli::fault::{ConfigFault, Fault, ParseFault};
use sbrain_cli::pipeline::run_config_driven;

#[test]
fn full_document_parses() {
    let doc = "input = 65 66\nsource = ,.@\nmax_runtime = 100";
    let c = parse_config(doc).unwrap();
    assert_eq!(c.input, vec![65, 66]);
    assert_eq!(c.source, ",.@");
    assert_eq!(c.max_runtime, Some(100));
}

#[test]
fn max_runtime_is_optional() {
    let doc = "input = 1\nsource = +";
    let c = parse_config(doc).unwrap();
    assert_eq!(c.input, vec![1]);
    assert_eq!(c.source, "+");
    assert_eq!(c.max_runtime, None);
}

#[test]
fn blank_lines_and_spacing_are_tolerated() {
    let doc = "   \n input =  1   2 \nsource= +++ \n\n";
    let c = parse_config(doc).unwrap();
    assert_eq!(c.input, vec![1, 2]);
    assert_eq!(c.source, "+++");
    assert_eq!(c.max_runtime, None);
}

#[test]
fn empty_input_list_is_allowed() {
    let doc = "input =\nsource = @";
    let c = parse_config(doc).unwrap();
    assert_eq!(c.input, Vec::<u64>::new());
    assert_eq!(c.source, "@");
}

#[test]
fn source_keeps_later_separators() {
    // Only the first `=` splits the line.
    let doc = "input =\nsource = a=b";
    let c = parse_config(doc).unwrap();
    assert_eq!(c.source, "a=b");
}

#[test]
fn missing_source_fails_the_parse() {
    let doc = "input = 1 2 3\nmax_runtime = 9";
    let r = parse_config(doc);
    assert_eq!(r.err().unwrap(), Fault::Parse(ParseFault::MissingSource));
}

#[test]
fn missing_input_fails_the_parse() {
    let doc = "source = +++";
    let r = parse_config(doc);
    assert_eq!(r.err().unwrap(), Fault::Parse(ParseFault::MissingInput));
}

#[test]
fn line_without_separator_fails() {
    let doc = "input 1 2\nsource = +";
    let r = parse_config(doc);
    assert_eq!(r.err().unwrap(), Fault::Parse(ParseFault::MissingSeparator));
}

#[test]
fn unknown_key_fails() {
    let doc = "inputs = 1\nsource = +";
    let r = parse_config(doc);
    assert_eq!(r.err().unwrap(), Fault::Parse(ParseFault::UnknownKey));
}

#[test]
fn duplicate_key_fails() {
    let doc = "input = 1\ninput = 2\nsource = +";
    let r = parse_config(doc);
    assert_eq!(r.err().unwrap(), Fault::Parse(ParseFault::DuplicateKey));
}

#[test]
fn duplicate_source_fails() {
    let doc = "source = +\nsource = -\ninput = 1";
    let r = parse_config(doc);
    assert_eq!(r.err().unwrap(), Fault::Parse(ParseFault::DuplicateKey));
}

#[test]
fn keys_are_case_sensitive() {
    let doc = "Input = 1\nsource = +";
    let r = parse_config(doc);
    assert_eq!(r.err().unwrap(), Fault::Parse(ParseFault::UnknownKey));
}

#[test]
fn leading_zeros_are_plain_decimal() {
    let doc = "input = 007\nsource = +\nmax_runtime = 010";
    let c = parse_config(doc).unwrap();
    assert_eq!(c.input, vec![7]);
    assert_eq!(c.max_runtime, Some(10));
}

#[test]
fn non_numeric_input_value_fails() {
    let doc = "input = 12x\nsource = +";
    let r = parse_config(doc);
    assert_eq!(r.err().unwrap(), Fault::Parse(ParseFault::BadNumber));
}

#[test]
fn oversized_numeral_fails_the_parse() {
    // Twenty digits overflow a u64 field.
    let doc = "input = 1\nsource = +\nmax_runtime = 99999999999999999999";
    let r = parse_config(doc);
    assert_eq!(r.err().unwrap(), Fault::Parse(ParseFault::BadNumber));
}

#[test]
fn config_driven_run_renders_numeric_output() {
    let doc = "input = 65\nsource = ,.@\nmax_runtime = 100";
    let (outcome, text) = run_config_driven(doc).unwrap();
    assert!(outcome.halted);
    assert_eq!(text, "[65]");
}

#[test]
fn config_driven_run_stops_on_a_parse_fault() {
    let doc = "input = 65\nmax_runtime = 100";
    let r = run_config_driven(doc);
    assert_eq!(r.err().unwrap(), Fault::Parse(ParseFault::MissingSource));
}

#[test]
fn config_driven_run_rejects_oversized_cells() {
    // 4294967296 fits the document's u64 fields but not a machine cell.
    let doc = "input = 4294967296\nsource = @";
    let r = run_config_driven(doc);
    assert_eq!(r.err().unwrap(), Fault::Config(ConfigFault::CellOutOfRange));
}

#[test]
fn config_driven_run_rejects_oversized_cap() {
    let doc = "input = 1\nsource = @\nmax_runtime = 4294967296";
    let r = run_config_driven(doc);
    assert_eq!(r.err().unwrap(), Fault::Config(ConfigFault::BadCycleCount));
}
