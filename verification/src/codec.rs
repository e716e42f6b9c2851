//! The identifier codec. A unit identifier is a string whose characters at
//! offsets six through twelve form a seven-digit decimal sequence number;
//! the six characters before it and anything after it are opaque and kept
//! unchanged. Boards on one panel carry consecutive sequence numbers, so
//! the codec expands a scanned identifier into the ordered list of its
//! panel siblings.

use vstd::prelude::*;

use crate::decimal::all_dec_digits;
use crate::decimal::dec_value;
use crate::decimal::is_dec_digit;
use crate::decimal::lemma_digits_roundtrip;
use crate::decimal::lemma_padded_digits_shape;
use crate::decimal::lemma_pow10_increases;
use crate::decimal::lemma_padded_digits_value;
use crate::decimal::padded_digits;
use crate::decimal::pow10;
use crate::decimal::render_padded;
use crate::error::CodecError;

verus! {

/// The smallest number that no longer fits in the seven-digit field.
pub const SEQ_FIELD_LIMIT: u32 = 10_000_000;

/// A structurally valid unit identifier: long enough to hold the sequence
/// field, and all seven field characters are decimal digits.
pub open spec fn valid_identifier(s: Seq<char>) -> bool {
    s.len() >= 13 && all_dec_digits(s.subrange(6, 13))
}

/// The numeric value of the seven-digit sequence field.
pub open spec fn seq_field(s: Seq<char>) -> nat
    recommends
        valid_identifier(s),
{
    dec_value(s.subrange(6, 13))
}

/// The identifier with its sequence field replaced by `n`, zero-padded to
/// seven digits; everything around the field is unchanged.
pub open spec fn with_seq_field(s: Seq<char>, n: nat) -> Seq<char>
    recommends
        s.len() >= 13,
        n < 10_000_000,
{
    s.subrange(0, 6) + padded_digits(n, 7) + s.subrange(13, s.len() as int)
}

/// The identifier of the board `i` places after `s` on the same panel: the
/// sequence field is advanced by `i`, the rest is unchanged.
pub open spec fn sibling(s: Seq<char>, i: nat) -> Seq<char>
    recommends
        valid_identifier(s),
        seq_field(s) + i < 10_000_000,
{
    with_seq_field(s, seq_field(s) + i)
}

/// Seven digits denote a number below ten million.
pub proof fn lemma_seq_field_bound(s: Seq<char>)
    requires
        valid_identifier(s),
    ensures
        seq_field(s) < 10_000_000,
{
    lemma_digits_roundtrip(s.subrange(6, 13));
    reveal_with_fuel(pow10, 8);
}

/// A sibling differs from its identifier only in the sequence field: it has
/// the same length, the same characters before and after the field, it is
/// itself a valid identifier, and its field reads exactly `i` more.
pub proof fn lemma_sibling_structure(s: Seq<char>, i: nat)
    requires
        valid_identifier(s),
        seq_field(s) + i < 10_000_000,
    ensures
        sibling(s, i).len() == s.len(),
        sibling(s, i).subrange(0, 6) == s.subrange(0, 6),
        sibling(s, i).subrange(13, s.len() as int) == s.subrange(13, s.len() as int),
        valid_identifier(sibling(s, i)),
        seq_field(sibling(s, i)) == seq_field(s) + i,
{
    let n = seq_field(s) + i;
    lemma_padded_digits_shape(n, 7);
    let t = sibling(s, i);
    assert(t.len() == s.len());
    assert(t.subrange(0, 6) =~= s.subrange(0, 6));
    assert(t.subrange(13, s.len() as int) =~= s.subrange(13, s.len() as int));
    assert(t.subrange(6, 13) =~= padded_digits(n, 7));
    reveal_with_fuel(pow10, 8);
    lemma_padded_digits_value(n, 7);
}

/// Advancing the sequence field by zero gives the identifier back unchanged.
pub proof fn lemma_sibling_zero(s: Seq<char>)
    requires
        valid_identifier(s),
    ensures
        sibling(s, 0) == s,
{
    lemma_digits_roundtrip(s.subrange(6, 13));
    assert(sibling(s, 0) =~= s);
}

/// Reads the seven-digit sequence field of `s`, rejecting identifiers that
/// are too short or hold a non-digit in the field.
pub fn parse_seq_field(s: &str) -> (r: Result<u32, CodecError>)
    ensures
        match r {
            Ok(v) => valid_identifier(s@) && v as nat == seq_field(s@) && v < 10_000_000,
            Err(e) => e == CodecError::MalformedIdentifier && !valid_identifier(s@),
        },
{
    let len = s.unicode_len();
    if len < 13 {
        return Err(CodecError::MalformedIdentifier);
    }
    let mut acc: u32 = 0;
    let mut i: usize = 6;
    proof {
        assert(s@.subrange(6, 6) =~= Seq::<char>::empty());
    }
    while i < 13
        invariant
            6 <= i <= 13,
            s@.len() >= 13,
            forall|j: int| 6 <= j < i ==> is_dec_digit(#[trigger] s@[j]),
            acc as nat == dec_value(s@.subrange(6, i as int)),
            (acc as nat) < pow10((i - 6) as nat),
        decreases 13 - i,
    {
        let c = s.get_char(i);
        let u = c as u32;
        if u < 48 || u > 57 {
            proof {
                assert(s@.subrange(6, 13)[i - 6] == s@[i as int]);
            }
            return Err(CodecError::MalformedIdentifier);
        }
        let d = u - 48;
        proof {
            let pre = s@.subrange(6, i as int);
            let cur = s@.subrange(6, i + 1);
            assert(cur.drop_last() =~= pre);
            assert(cur.last() == s@[i as int]);
            assert((acc as nat) * 10 + (d as nat) < 10 * pow10((i - 6) as nat)) by (nonlinear_arith)
                requires
                    (acc as nat) < pow10((i - 6) as nat),
                    d < 10,
            ;
            reveal_with_fuel(pow10, 8);
            assert(pow10((i + 1 - 6) as nat) <= pow10(7)) by {
                lemma_pow10_increases((i + 1 - 6) as nat, 7);
            }
        }
        acc = acc * 10 + d;
        i = i + 1;
    }
    proof {
        assert(s@.subrange(6, 13) =~= s@.subrange(6, i as int));
        reveal_with_fuel(pow10, 8);
    }
    Ok(acc)
}

/// Expands a scanned identifier into the ordered identifiers of all
/// `boards` boards on its panel. The scanned identifier itself is element
/// zero; element `i` advances the sequence field by `i`. Rejects an
/// identifier whose sequence field is not seven digits, and a panel whose
/// last board's sequence number would no longer fit in seven digits.
pub fn increment_sn(start: &str, boards: u8) -> (r: Result<Vec<String>, CodecError>)
    requires
        boards >= 1,
    ensures
        r is Ok <==> valid_identifier(start@) && seq_field(start@) + boards as nat - 1
            < 10_000_000,
        match r {
            Ok(ids) => {
                &&& valid_identifier(start@)
                &&& seq_field(start@) + boards as nat - 1 < 10_000_000
                &&& ids@.len() == boards as nat
                &&& ids@[0]@ == start@
                &&& forall|i: int|
                    1 <= i < boards as int ==> (#[trigger] ids@[i])@ == sibling(start@, i as nat)
            },
            Err(CodecError::MalformedIdentifier) => !valid_identifier(start@),
            Err(CodecError::SequenceOverflow) => valid_identifier(start@) && seq_field(start@)
                + boards as nat - 1 >= 10_000_000,
        },
{
    let base = match parse_seq_field(start) {
        Ok(v) => v,
        Err(e) => {
            return Err(e);
        },
    };
    let last = base + (boards - 1) as u32;
    if last >= SEQ_FIELD_LIMIT {
        return Err(CodecError::SequenceOverflow);
    }
    let len = start.unicode_len();
    let prefix = start.substring_char(0, 6);
    let suffix = start.substring_char(13, len);
    let mut ids: Vec<String> = Vec::new();
    ids.push(String::from_str(start));
    let mut i: u8 = 1;
    while i < boards
        invariant
            1 <= i <= boards,
            valid_identifier(start@),
            base as nat == seq_field(start@),
            base + boards as u32 - 1 < 10_000_000,
            prefix@ == start@.subrange(0, 6),
            suffix@ == start@.subrange(13, start@.len() as int),
            ids@.len() == i as nat,
            ids@[0]@ == start@,
            forall|j: int| 1 <= j < i as int ==> (#[trigger] ids@[j])@ == sibling(start@, j as nat),
        decreases boards - i,
    {
        let n = base + i as u32;
        proof {
            reveal_with_fuel(pow10, 8);
        }
        let field = render_padded(n, 7);
        let mut next = String::from_str(prefix);
        next.append(field.as_str());
        next.append(suffix);
        proof {
            assert(next@ =~= sibling(start@, i as nat));
        }
        ids.push(next);
        i = i + 1;
    }
    Ok(ids)
}

} // verus!
