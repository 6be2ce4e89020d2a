//! The input adapter: externally supplied bytes or pre-parsed numeric
//! values become the machine's native cell-width input queue, and the
//! cycle-count flag becomes a cycle bound.

use vstd::prelude::*;
use vstd::string::StrSliceExecFns;

use crate::fault::{ConfigFault, Fault};
use crate::numeral::{dec_value, is_dec_numeral, parse_u64_range};

verus! {

/// Decode raw input bytes into cells, one cell per byte, in order.
pub fn bytes_to_cells(bytes: &Vec<u8>) -> (r: Vec<u32>)
    ensures
        r@ == bytes@.map_values(|b: u8| b as u32),
{
    let mut cells: Vec<u32> = Vec::new();
    let mut i: usize = 0;
    while i < bytes.len()
        invariant
            i <= bytes@.len(),
            cells@ == bytes@.take(i as int).map_values(|b: u8| b as u32),
        decreases bytes@.len() - i,
    {
        cells.push(bytes[i] as u32);
        proof {
            assert(bytes@.take(i + 1).map_values(|b: u8| b as u32) =~= bytes@.take(
                i as int,
            ).map_values(|b: u8| b as u32).push(bytes@[i as int] as u32));
        }
        i = i + 1;
    }
    proof {
        assert(bytes@.take(bytes@.len() as int) =~= bytes@);
    }
    cells
}

/// Whether every value fits the machine's cell width.
pub open spec fn all_cells_fit(values: Seq<u64>) -> bool {
    forall|i: int| 0 <= i < values.len() ==> #[trigger] values[i] <= u32::MAX
}

/// Convert pre-parsed numeric values into cells.  Succeeds exactly when
/// every value fits the machine's cell width; an oversized value is a
/// configuration fault, never a silent truncation.
pub fn values_to_cells(values: &Vec<u64>) -> (r: Result<Vec<u32>, Fault>)
    ensures
        r is Ok <==> all_cells_fit(values@),
        r is Ok ==> r.unwrap()@ == values@.map_values(|v: u64| v as u32),
        r is Err ==> r matches Err(Fault::Config(ConfigFault::CellOutOfRange)),
{
    let mut cells: Vec<u32> = Vec::new();
    let mut i: usize = 0;
    while i < values.len()
        invariant
            i <= values@.len(),
            forall|j: int| 0 <= j < i ==> #[trigger] values@[j] <= u32::MAX,
            cells@ == values@.take(i as int).map_values(|v: u64| v as u32),
        decreases values@.len() - i,
    {
        let v = values[i];
        if v > 0xFFFF_FFFF {
            return Err(Fault::Config(ConfigFault::CellOutOfRange));
        }
        cells.push(v as u32);
        proof {
            assert(values@.take(i + 1).map_values(|v: u64| v as u32) =~= values@.take(
                i as int,
            ).map_values(|v: u64| v as u32).push(values@[i as int] as u32));
        }
        i = i + 1;
    }
    proof {
        assert(values@.take(values@.len() as int) =~= values@);
    }
    Ok(cells)
}

/// Resolve the textual cycle-count flag.  Succeeds exactly when the text is
/// an unsigned decimal numeral whose value fits the cycle counter.
pub fn parse_cycles(s: &str) -> (r: Result<u32, Fault>)
    ensures
        r is Ok <==> (is_dec_numeral(s@) && dec_value(s@) <= u32::MAX),
        r is Ok ==> r.unwrap() == dec_value(s@),
        r is Err ==> r matches Err(Fault::Config(ConfigFault::BadCycleCount)),
{
    let n = s.unicode_len();
    proof {
        assert(s@.subrange(0, n as int) =~= s@);
    }
    match parse_u64_range(s, 0, n) {
        Some(v) => {
            if v <= 0xFFFF_FFFF {
                Ok(v as u32)
            } else {
                Err(Fault::Config(ConfigFault::BadCycleCount))
            }
        },
        None => Err(Fault::Config(ConfigFault::BadCycleCount)),
    }
}

/// Bound a configured runtime cap to the cycle counter's width.  Succeeds
/// exactly when the cap fits.
pub fn cycles_from_u64(v: u64) -> (r: Result<u32, Fault>)
    ensures
        r is Ok <==> v <= u32::MAX,
        r is Ok ==> r.unwrap() == v,
        r is Err ==> r matches Err(Fault::Config(ConfigFault::BadCycleCount)),
{
    if v <= 0xFFFF_FFFF {
        Ok(v as u32)
    } else {
        Err(Fault::Config(ConfigFault::BadCycleCount))
    }
}

} // verus!
