//! Decoding of native service text. A native record carries its name and
//! display name as nul-terminated sequences of wide (16-bit) code units,
//! or no sequence at all; a missing, malformed, or empty name becomes the
//! placeholder "unknown" rather than failing the record.

use vstd::prelude::*;

verus! {

/// What decoding a sequence of wide code units yields: the decoded
/// characters, or nothing when the units are not well-formed wide text.
pub uninterp spec fn utf16_text(units: Seq<u16>) -> Option<Seq<char>>;

/// Relies on String::from_utf16: decodes wide code units, failing on
/// ill-formed input; the result depends on the code units alone.
#[verifier::external_body]
fn utf16_to_string(units: &[u16]) -> (text: Option<String>)
    ensures
        text is Some <==> utf16_text(units@) is Some,
        text matches Some(s) ==> utf16_text(units@) == Some(s@),
{
    String::from_utf16(units).ok()
}

/// The index of the first nul unit, or the length when there is none.
pub open spec fn spec_first_nul(units: Seq<u16>) -> int
    decreases units.len(),
{
    if units.len() == 0 {
        0
    } else if units[0] == 0 {
        0
    } else {
        1 + spec_first_nul(units.skip(1))
    }
}

/// The prefix of the units up to, and not including, the first nul.
pub open spec fn spec_nul_cut(units: Seq<u16>) -> Seq<u16> {
    units.take(spec_first_nul(units))
}

/// The text a native name field decodes to: the placeholder when the
/// field is absent, ill-formed, or empty, and the decoded characters
/// otherwise.
pub open spec fn spec_decoded_text(units: Option<Seq<u16>>) -> Seq<char> {
    match units {
        Option::None => "unknown"@,
        Option::Some(u) => match utf16_text(spec_nul_cut(u)) {
            Option::None => "unknown"@,
            Option::Some(t) => if t.len() == 0 {
                "unknown"@
            } else {
                t
            },
        },
    }
}

/// The view of an optional borrowed unit vector.
pub open spec fn spec_opt_units<'a>(units: Option<&'a Vec<u16>>) -> Option<Seq<u16>> {
    match units {
        Option::None => Option::None,
        Option::Some(u) => Option::Some(u@),
    }
}

/// A position scanned without finding a nul, and holding one or being the
/// end, is exactly where the first nul falls.
proof fn lemma_first_nul_at(units: Seq<u16>, position: int)
    requires
        0 <= position <= units.len(),
        forall|i: int| 0 <= i < position ==> units[i] != 0,
        position == units.len() || units[position] == 0,
    ensures
        spec_first_nul(units) == position,
    decreases position,
{
    if position == 0 {
    } else {
        assert(units[0] != 0);
        let rest = units.skip(1);
        assert forall|i: int| 0 <= i < position - 1 implies rest[i] != 0 by {
            assert(rest[i] == units[i + 1]);
        }
        if position == units.len() {
        } else {
            assert(rest[position - 1] == units[position]);
        }
        lemma_first_nul_at(rest, position - 1);
    }
}

/// Copy the units that precede the first nul.
fn cut_at_nul(units: &Vec<u16>) -> (prefix: Vec<u16>)
    ensures
        prefix@ == spec_nul_cut(units@),
{
    let length = units.len();
    let mut end: usize = 0;
    while end < length && units[end] != 0
        invariant
            length == units@.len(),
            0 <= end <= length,
            forall|i: int| 0 <= i < end ==> units@[i] != 0,
        decreases length - end,
    {
        end = end + 1;
    }
    proof {
        lemma_first_nul_at(units@, end as int);
    }
    let mut prefix: Vec<u16> = Vec::new();
    let mut i: usize = 0;
    while i < end
        invariant
            end <= units@.len(),
            0 <= i <= end,
            prefix@ =~= units@.take(i as int),
        decreases end - i,
    {
        prefix.push(units[i]);
        i = i + 1;
    }
    proof {
        assert(prefix@ =~= units@.take(end as int));
    }
    prefix
}

/// Decode a native name field: cut at the first nul, decode the wide
/// units, and substitute the placeholder for a missing, ill-formed, or
/// empty result.
pub fn decode_service_text(units: Option<&Vec<u16>>) -> (text: String)
    ensures
        text@ == spec_decoded_text(spec_opt_units(units)),
{
    match units {
        Option::None => "unknown".to_owned(),
        Option::Some(u) => {
            let prefix = cut_at_nul(u);
            match utf16_to_string(prefix.as_slice()) {
                Option::None => "unknown".to_owned(),
                Option::Some(decoded) => {
                    if decoded.as_str().is_empty() {
                        "unknown".to_owned()
                    } else {
                        decoded
                    }
                },
            }
        },
    }
}

} // verus!
