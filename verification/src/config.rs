//! The declarative configuration document of the config-driven front end.
//!
//! The document is line-oriented text.  Lines holding only spaces are
//! ignored.  Every other line is `key = value`, split at the first `=`,
//! with spaces trimmed from both key and value.  Three keys exist, each
//! allowed at most once: `source` (the program text), `input` (a
//! space-separated list of unsigned decimal numerals), and `max_runtime`
//! (one unsigned decimal numeral, the optional cycle cap).  `source` and
//! `input` are required; `max_runtime` may be absent.
//!
//! The whole grammar is stated by the spec functions below; the executable
//! parser is proved to return exactly what the grammar says.

use vstd::prelude::*;
use vstd::string::StrSliceExecFns;
use vstd::string::StringExecFns;

use crate::fault::{Fault, ParseFault};
use crate::numeral::{dec_value, is_dec_numeral, parse_u64_range};

verus! {

/// The parsed document, at the specification level.
#[verifier::ext_equal]
pub struct SpecConfig {
    /// The machine's initial input queue, absent until an `input` line.
    pub input: Option<Seq<int>>,
    /// The program source text, absent until a `source` line.
    pub source: Option<Seq<char>>,
    /// The optional cycle cap.
    pub max_runtime: Option<int>,
}

/// The parsed document: input values, source text, optional cycle cap.
pub struct Config {
    /// The machine's initial input queue, as configured values.
    pub input: Vec<u64>,
    /// The program source text.
    pub source: String,
    /// The optional cycle cap.
    pub max_runtime: Option<u64>,
}

/// The specification-level reading of a parsed document.
pub open spec fn config_view(c: Config) -> SpecConfig {
    SpecConfig {
        input: Some(c.input@.map_values(|v: u64| v as int)),
        source: Some(c.source@),
        max_runtime: (match c.max_runtime {
            Some(m) => Some(m as int),
            None => None,
        }),
    }
}

/// Index of the first occurrence of `c` in `s`, or `s.len()` if none.
pub open spec fn find_char(s: Seq<char>, c: char) -> int
    decreases s.len(),
{
    if s.len() == 0 {
        0
    } else if s[0] == c {
        0
    } else {
        1 + find_char(s.drop_first(), c)
    }
}

/// The first occurrence of a character lies within the sequence.
pub proof fn lemma_find_char_bounds(s: Seq<char>, c: char)
    ensures
        0 <= find_char(s, c) <= s.len(),
    decreases s.len(),
{
    if s.len() > 0 && s[0] != c {
        lemma_find_char_bounds(s.drop_first(), c);
    }
}

/// `s` without its leading spaces.
pub open spec fn spec_trim_left(s: Seq<char>) -> Seq<char>
    decreases s.len(),
{
    if s.len() > 0 && s[0] == ' ' {
        spec_trim_left(s.drop_first())
    } else {
        s
    }
}

/// `s` without its trailing spaces.
pub open spec fn spec_trim_right(s: Seq<char>) -> Seq<char>
    decreases s.len(),
{
    if s.len() > 0 && s.last() == ' ' {
        spec_trim_right(s.drop_last())
    } else {
        s
    }
}

/// `s` without leading and trailing spaces.
pub open spec fn spec_trimmed(s: Seq<char>) -> Seq<char> {
    spec_trim_right(spec_trim_left(s))
}

/// The characters of the key `source`.
pub open spec fn key_source() -> Seq<char> {
    seq!['s', 'o', 'u', 'r', 'c', 'e']
}

/// The characters of the key `input`.
pub open spec fn key_input() -> Seq<char> {
    seq!['i', 'n', 'p', 'u', 't']
}

/// The characters of the key `max_runtime`.
pub open spec fn key_max_runtime() -> Seq<char> {
    seq!['m', 'a', 'x', '_', 'r', 'u', 'n', 't', 'i', 'm', 'e']
}

/// The values of a space-separated list of unsigned decimal numerals, or
/// `None` if some token is not a numeral that fits a `u64`.
pub open spec fn parse_input_values(s: Seq<char>) -> Option<Seq<int>>
    decreases s.len(),
    via parse_input_values_decreases
{
    if s.len() == 0 {
        Some(Seq::empty())
    } else if s[0] == ' ' {
        parse_input_values(s.drop_first())
    } else {
        let k = find_char(s, ' ');
        if is_dec_numeral(s.take(k)) && dec_value(s.take(k)) <= u64::MAX {
            match parse_input_values(s.skip(k)) {
                Some(rest) => Some(seq![dec_value(s.take(k))] + rest),
                None => None,
            }
        } else {
            None
        }
    }
}

#[via_fn]
proof fn parse_input_values_decreases(s: Seq<char>) {
    lemma_find_char_bounds(s, ' ');
}

/// What one line does to the partly parsed document.
pub open spec fn apply_line_spec(line: Seq<char>, acc: SpecConfig) -> Result<
    SpecConfig,
    ParseFault,
> {
    if spec_trimmed(line).len() == 0 {
        Ok(acc)
    } else {
        let e = find_char(line, '=');
        if e == line.len() {
            Err(ParseFault::MissingSeparator)
        } else {
            let key = spec_trimmed(line.take(e));
            let value = spec_trimmed(line.skip(e + 1));
            if key == key_source() {
                if acc.source is Some {
                    Err(ParseFault::DuplicateKey)
                } else {
                    Ok(SpecConfig { source: Some(value), ..acc })
                }
            } else if key == key_input() {
                match parse_input_values(value) {
                    Some(vals) => if acc.input is Some {
                        Err(ParseFault::DuplicateKey)
                    } else {
                        Ok(SpecConfig { input: Some(vals), ..acc })
                    },
                    None => Err(ParseFault::BadNumber),
                }
            } else if key == key_max_runtime() {
                if is_dec_numeral(value) && dec_value(value) <= u64::MAX {
                    if acc.max_runtime is Some {
                        Err(ParseFault::DuplicateKey)
                    } else {
                        Ok(SpecConfig { max_runtime: Some(dec_value(value)), ..acc })
                    }
                } else {
                    Err(ParseFault::BadNumber)
                }
            } else {
                Err(ParseFault::UnknownKey)
            }
        }
    }
}

/// Fold all lines of the document over the partly parsed state.
pub open spec fn parse_lines_spec(s: Seq<char>, acc: SpecConfig) -> Result<SpecConfig, ParseFault>
    decreases s.len(),
    via parse_lines_spec_decreases
{
    if s.len() == 0 {
        Ok(acc)
    } else {
        let k = find_char(s, '\n');
        match apply_line_spec(s.take(k), acc) {
            Err(f) => Err(f),
            Ok(acc2) => if k == s.len() {
                Ok(acc2)
            } else {
                parse_lines_spec(s.skip(k + 1), acc2)
            },
        }
    }
}

#[via_fn]
proof fn parse_lines_spec_decreases(s: Seq<char>, acc: SpecConfig) {
    lemma_find_char_bounds(s, '\n');
}

/// What parsing the whole document yields: the folded lines, with the two
/// required fields checked at the end.
pub open spec fn spec_parse_config(s: Seq<char>) -> Result<SpecConfig, ParseFault> {
    match parse_lines_spec(
        s,
        SpecConfig { input: None, source: None, max_runtime: None },
    ) {
        Err(f) => Err(f),
        Ok(acc) => if acc.source is None {
            Err(ParseFault::MissingSource)
        } else if acc.input is None {
            Err(ParseFault::MissingInput)
        } else {
            Ok(acc)
        },
    }
}

/// Index of the first occurrence of `c` in the characters `from .. to` of
/// `s`, or `to` if none.
fn find_char_in(s: &str, from: usize, to: usize, c: char) -> (r: usize)
    requires
        from <= to <= s@.len(),
    ensures
        from <= r <= to,
        r - from == find_char(s@.subrange(from as int, to as int), c),
    decreases to - from,
{
    if from < to {
        if s.get_char(from) == c {
            return from;
        }
        let r = find_char_in(s, from + 1, to, c);
        proof {
            assert(s@.subrange(from as int, to as int).drop_first() =~= s@.subrange(
                from + 1,
                to as int,
            ));
        }
        r
    } else {
        to
    }
}

/// The bounds of the characters `from .. to` of `s` with leading and
/// trailing spaces dropped.
fn trim_in(s: &str, from: usize, to: usize) -> (r: (usize, usize))
    requires
        from <= to <= s@.len(),
    ensures
        from <= r.0 <= r.1 <= to,
        s@.subrange(r.0 as int, r.1 as int) == spec_trimmed(
            s@.subrange(from as int, to as int),
        ),
    decreases to - from,
{
    if from < to && s.get_char(from) == ' ' {
        let r = trim_in(s, from + 1, to);
        proof {
            assert(s@.subrange(from as int, to as int).drop_first() =~= s@.subrange(
                from + 1,
                to as int,
            ));
        }
        r
    } else if from < to && s.get_char(to - 1) == ' ' {
        let r = trim_in(s, from, to - 1);
        proof {
            let whole = s@.subrange(from as int, to as int);
            assert(whole[0] != ' ' || whole.len() == 0);
            assert(spec_trim_left(whole) == whole);
            assert(whole.drop_last() =~= s@.subrange(from as int, to - 1));
            let inner = s@.subrange(from as int, to - 1);
            assert(spec_trim_left(inner) == inner);
        }
        r
    } else {
        proof {
            let whole = s@.subrange(from as int, to as int);
            assert(spec_trim_left(whole) == whole);
            assert(spec_trim_right(whole) == whole);
        }
        (from, to)
    }
}

/// Whether the characters `from .. to` of `s` are exactly the keyword `kw`.
fn key_is(s: &str, from: usize, to: usize, kw: &str) -> (r: bool)
    requires
        from <= to <= s@.len(),
    ensures
        r <==> s@.subrange(from as int, to as int) == kw@,
{
    let klen = kw.unicode_len();
    if to - from != klen {
        return false;
    }
    let mut i: usize = 0;
    while i < klen
        invariant
            from <= to <= s@.len(),
            to - from == klen == kw@.len(),
            i <= klen,
            forall|j: int| 0 <= j < i ==> s@.subrange(from as int, to as int)[j] == kw@[j],
        decreases klen - i,
    {
        if s.get_char(from + i) != kw.get_char(i) {
            return false;
        }
        i = i + 1;
    }
    proof {
        assert(s@.subrange(from as int, to as int) =~= kw@);
    }
    true
}

/// Parse the characters `from .. to` of `s` as a space-separated list of
/// unsigned decimal numerals.
fn parse_list_in(s: &str, from: usize, to: usize) -> (r: Option<Vec<u64>>)
    requires
        from <= to <= s@.len(),
    ensures
        (match r {
            Some(v) => parse_input_values(s@.subrange(from as int, to as int)) == Some(
                v@.map_values(|x: u64| x as int),
            ),
            None => parse_input_values(s@.subrange(from as int, to as int)) is None,
        }),
    decreases to - from,
{
    let ghost whole = s@.subrange(from as int, to as int);
    if from == to {
        let empty: Vec<u64> = Vec::new();
        proof {
            assert(empty@.map_values(|x: u64| x as int) =~= Seq::<int>::empty());
        }
        return Some(empty);
    }
    if s.get_char(from) == ' ' {
        let r = parse_list_in(s, from + 1, to);
        proof {
            assert(whole.drop_first() =~= s@.subrange(from + 1, to as int));
        }
        return r;
    }
    let k = find_char_in(s, from, to, ' ');
    proof {
        assert(whole.take(k - from) =~= s@.subrange(from as int, k as int));
    }
    match parse_u64_range(s, from, k) {
        None => None,
        Some(v) => {
            proof {
                assert(whole.skip(k - from) =~= s@.subrange(k as int, to as int));
            }
            match parse_list_in(s, k, to) {
                None => None,
                Some(mut rest) => {
                    rest.insert(0, v);
                    proof {
                        let prev = rest@.drop_first();
                        assert(prev.map_values(|x: u64| x as int) =~= rest@.map_values(
                            |x: u64| x as int,
                        ).drop_first());
                        assert(rest@.map_values(|x: u64| x as int) =~= seq![v as int]
                            + prev.map_values(|x: u64| x as int));
                    }
                    Some(rest)
                },
            }
        },
    }
}

/// The partly parsed document, while the lines are folded.
struct Acc {
    input: Option<Vec<u64>>,
    source: Option<String>,
    max_runtime: Option<u64>,
}

/// The specification-level reading of the partly parsed document.
spec fn acc_view(a: Acc) -> SpecConfig {
    SpecConfig {
        input: (match a.input {
            Some(v) => Some(v@.map_values(|x: u64| x as int)),
            None => None,
        }),
        source: (match a.source {
            Some(ref s) => Some(s@),
            None => None,
        }),
        max_runtime: (match a.max_runtime {
            Some(m) => Some(m as int),
            None => None,
        }),
    }
}

/// Apply one line, the characters `from .. to` of `s`, to the partly
/// parsed document.
fn apply_line(s: &str, from: usize, to: usize, acc: Acc) -> (r: Result<Acc, ParseFault>)
    requires
        from <= to <= s@.len(),
    ensures
        (match r {
            Ok(a2) => apply_line_spec(s@.subrange(from as int, to as int), acc_view(acc)) == Ok::<SpecConfig, ParseFault>(
                acc_view(a2),
            ),
            Err(f) => apply_line_spec(s@.subrange(from as int, to as int), acc_view(acc)) == Err::<
                SpecConfig,
                ParseFault,
            >(f),
        }),
{
    let ghost line = s@.subrange(from as int, to as int);
    let (b0, b1) = trim_in(s, from, to);
    if b0 == b1 {
        return Ok(acc);
    }
    let e = find_char_in(s, from, to, '=');
    if e == to {
        return Err(ParseFault::MissingSeparator);
    }
    proof {
        assert(line.take(e - from) =~= s@.subrange(from as int, e as int));
        assert(line.skip(e - from + 1) =~= s@.subrange(e + 1, to as int));
    }
    let (k0, k1) = trim_in(s, from, e);
    let (v0, v1) = trim_in(s, e + 1, to);
    let ghost value = spec_trimmed(line.skip(e - from + 1));
    if key_is(s, k0, k1, "source") {
        proof {
            reveal_strlit("source");
            assert("source"@ =~= key_source());
        }
        if acc.source.is_some() {
            return Err(ParseFault::DuplicateKey);
        }
        let text = s.substring_char(v0, v1).to_owned();
        return Ok(Acc { source: Some(text), ..acc });
    }
    proof {
        reveal_strlit("source");
        assert("source"@ =~= key_source());
    }
    if key_is(s, k0, k1, "input") {
        proof {
            reveal_strlit("input");
            assert("input"@ =~= key_input());
        }
        match parse_list_in(s, v0, v1) {
            Some(vals) => {
                if acc.input.is_some() {
                    return Err(ParseFault::DuplicateKey);
                }
                return Ok(Acc { input: Some(vals), ..acc });
            },
            None => {
                return Err(ParseFault::BadNumber);
            },
        }
    }
    proof {
        reveal_strlit("input");
        assert("input"@ =~= key_input());
    }
    if key_is(s, k0, k1, "max_runtime") {
        proof {
            reveal_strlit("max_runtime");
            assert("max_runtime"@ =~= key_max_runtime());
        }
        match parse_u64_range(s, v0, v1) {
            Some(m) => {
                if acc.max_runtime.is_some() {
                    return Err(ParseFault::DuplicateKey);
                }
                return Ok(Acc { max_runtime: Some(m), ..acc });
            },
            None => {
                return Err(ParseFault::BadNumber);
            },
        }
    }
    proof {
        reveal_strlit("max_runtime");
        assert("max_runtime"@ =~= key_max_runtime());
    }
    Err(ParseFault::UnknownKey)
}

/// Fold the lines of `s` from character `from` on over the partly parsed
/// document.
fn parse_lines_in(s: &str, from: usize, len: usize, acc: Acc) -> (r: Result<Acc, ParseFault>)
    requires
        from <= len,
        len == s@.len(),
    ensures
        (match r {
            Ok(a2) => parse_lines_spec(s@.skip(from as int), acc_view(acc)) == Ok::<SpecConfig, ParseFault>(acc_view(a2)),
            Err(f) => parse_lines_spec(s@.skip(from as int), acc_view(acc)) == Err::<
                SpecConfig,
                ParseFault,
            >(f),
        }),
    decreases len - from,
{
    let ghost rest = s@.skip(from as int);
    if from == len {
        return Ok(acc);
    }
    let k = find_char_in(s, from, len, '\n');
    proof {
        assert(rest.drop_first() =~= s@.subrange(from + 1, len as int));
        lemma_find_in_skip(s@, from as int, len as int, '\n');
        assert(find_char(rest, '\n') == k - from);
        assert(rest.take(k - from) =~= s@.subrange(from as int, k as int));
    }
    match apply_line(s, from, k, acc) {
        Err(f) => Err(f),
        Ok(a2) => {
            if k == len {
                Ok(a2)
            } else {
                let r = parse_lines_in(s, k + 1, len, a2);
                proof {
                    assert(rest.skip(k - from + 1) =~= s@.skip(k + 1));
                }
                r
            }
        },
    }
}

/// `find_char` over a suffix agrees with the scan over the full sequence.
proof fn lemma_find_in_skip(s: Seq<char>, from: int, to: int, c: char)
    requires
        0 <= from <= to,
        to == s.len(),
    ensures
        find_char(s.skip(from), c) == find_char(s.subrange(from, to), c),
{
    assert(s.skip(from) =~= s.subrange(from, to));
}

/// Parse a whole configuration document.  Succeeds exactly when the
/// document obeys the grammar above and names both required fields.
pub fn parse_config(doc: &str) -> (r: Result<Config, Fault>)
    ensures
        (match r {
            Ok(c) => spec_parse_config(doc@) == Ok::<SpecConfig, ParseFault>(config_view(c)),
            Err(Fault::Parse(f)) => spec_parse_config(doc@) == Err::<SpecConfig, ParseFault>(f),
            Err(_) => false,
        }),
{
    let len = doc.unicode_len();
    let start = Acc { input: None, source: None, max_runtime: None };
    proof {
        assert(doc@.skip(0) =~= doc@);
    }
    match parse_lines_in(doc, 0, len, start) {
        Err(f) => Err(Fault::Parse(f)),
        Ok(acc) => {
            let Acc { input, source, max_runtime } = acc;
            match source {
                None => Err(Fault::Parse(ParseFault::MissingSource)),
                Some(source_text) => match input {
                    None => Err(Fault::Parse(ParseFault::MissingInput)),
                    Some(input_values) => Ok(
                        Config {
                            input: input_values,
                            source: source_text,
                            max_runtime,
                        },
                    ),
                },
            }
        },
    }
}

} // verus!
