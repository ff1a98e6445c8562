//! Parsing of the recursive size query's raw output.
//!
//! The size query reports the byte count of a path as the first
//! separator-delimited field of its output. This module extracts the first
//! field that is a well-formed decimal number fitting in a `u64`: one
//! optional leading plus sign, then one or more ASCII decimal digits.

use vstd::prelude::*;

verus! {

/// The byte that separates fields in the size-query output (a tab).
pub const FIELD_SEPARATOR: u8 = 9;

/// The byte that may optionally precede the digits of a size field (a plus
/// sign).
pub const PLUS_SIGN: u8 = 43;

/// Whether `b` is an ASCII decimal digit.
pub open spec fn is_digit(b: u8) -> bool {
    48 <= b <= 57
}

/// The value of a sequence of ASCII decimal digits, most significant first.
pub open spec fn digits_val(s: Seq<u8>) -> int
    decreases s.len(),
{
    if s.len() == 0 {
        0
    } else {
        digits_val(s.drop_last()) * 10 + (s.last() - 48)
    }
}

/// Whether every byte of `s` is an ASCII decimal digit.
pub open spec fn all_digits(s: Seq<u8>) -> bool {
    forall|i: int| 0 <= i < s.len() ==> is_digit(s[i])
}

/// The digit part of a field: the field with one optional leading plus sign
/// removed.
pub open spec fn digits_of(s: Seq<u8>) -> Seq<u8> {
    if s.len() > 0 && s[0] == PLUS_SIGN {
        s.drop_first()
    } else {
        s
    }
}

/// Whether `s` is a well-formed size field: one optional leading plus sign,
/// then one or more ASCII decimal digits whose value fits in a `u64`.
pub open spec fn is_size_field(s: Seq<u8>) -> bool {
    &&& digits_of(s).len() > 0
    &&& all_digits(digits_of(s))
    &&& digits_val(digits_of(s)) <= u64::MAX
}

/// The value of a size field: the value of its digits.
pub open spec fn field_val(s: Seq<u8>) -> int {
    digits_val(digits_of(s))
}

/// Index of the first separator at or after `start`, or `s.len()` if none.
pub open spec fn field_end(s: Seq<u8>, start: int) -> int
    decreases s.len() - start when 0 <= start <= s.len()
{
    if start == s.len() {
        start
    } else if s[start] == FIELD_SEPARATOR {
        start
    } else {
        field_end(s, start + 1)
    }
}

pub proof fn lemma_field_end(s: Seq<u8>, start: int)
    requires
        0 <= start <= s.len(),
    ensures
        start <= field_end(s, start) <= s.len(),
        field_end(s, start) < s.len() ==> s[field_end(s, start)] == FIELD_SEPARATOR,
        forall|i: int| start <= i < field_end(s, start) ==> s[i] != FIELD_SEPARATOR,
    decreases s.len() - start,
{
    if start == s.len() {
    } else if s[start] == FIELD_SEPARATOR {
    } else {
        lemma_field_end(s, start + 1);
    }
}

/// The value of the first separator-delimited field of `s`, starting at
/// `start`, that is a well-formed size field; `None` if no field is.
pub open spec fn du_parse_from(s: Seq<u8>, start: int) -> Option<int>
    decreases s.len() - start when 0 <= start <= s.len() via du_parse_from_decreases
{
    let end = field_end(s, start);
    if is_size_field(s.subrange(start, end)) {
        Some(field_val(s.subrange(start, end)))
    } else if end == s.len() {
        None
    } else {
        du_parse_from(s, end + 1)
    }
}

#[via_fn]
proof fn du_parse_from_decreases(s: Seq<u8>, start: int) {
    lemma_field_end(s, start);
}

/// The size reported by a size-query output: the value of the first
/// separator-delimited field that is a well-formed decimal number fitting in
/// a `u64`, or `None` if there is no such field.
pub open spec fn du_parse(s: Seq<u8>) -> Option<int> {
    du_parse_from(s, 0)
}

pub proof fn lemma_du_parse_in_range(s: Seq<u8>, start: int)
    requires
        0 <= start <= s.len(),
        du_parse_from(s, start) is Some,
    ensures
        0 <= du_parse_from(s, start)->Some_0 <= u64::MAX,
    decreases s.len() - start,
{
    lemma_field_end(s, start);
    let end = field_end(s, start);
    if is_size_field(s.subrange(start, end)) {
        lemma_digits_val_nonneg(digits_of(s.subrange(start, end)));
    } else if end == s.len() {
    } else {
        lemma_du_parse_in_range(s, end + 1);
    }
}

pub proof fn lemma_digits_val_nonneg(s: Seq<u8>)
    requires
        all_digits(s),
    ensures
        digits_val(s) >= 0,
    decreases s.len(),
{
    if s.len() > 0 {
        assert forall|i: int| 0 <= i < s.drop_last().len() implies is_digit(s.drop_last()[i]) by {
            assert(s.drop_last()[i] == s[i]);
        }
        lemma_digits_val_nonneg(s.drop_last());
    }
}

proof fn lemma_field_end_is(s: Seq<u8>, start: int, e: int)
    requires
        0 <= start <= e <= s.len(),
        forall|i: int| start <= i < e ==> s[i] != FIELD_SEPARATOR,
        e < s.len() ==> s[e] == FIELD_SEPARATOR,
    ensures
        field_end(s, start) == e,
    decreases e - start,
{
    if start < e {
        lemma_field_end_is(s, start + 1, e);
    }
}

/// Parse the raw output of the recursive size query: return the value of the
/// first separator-delimited field that is a decimal number fitting in a
/// `u64` — one optional leading plus sign, then digits — or `None` if no
/// field of the output is one.
pub fn du_first_number(out: &[u8]) -> (r: Option<u64>)
    ensures
        r is Some <==> du_parse(out@) is Some,
        r matches Some(v) ==> du_parse(out@) == Some(v as int),
{
    let len = out.len();
    let mut start: usize = 0;
    loop
        invariant
            0 <= start <= len,
            len == out@.len(),
            du_parse(out@) == du_parse_from(out@, start as int),
        decreases len - start,
    {
        // Step over one optional leading plus sign; the digits of the field
        // that begins at `start` begin at `dstart`.
        let dstart = if start < len && out[start] == PLUS_SIGN {
            start + 1
        } else {
            start
        };
        // Scan the digits of the field.
        let mut i = dstart;
        let mut val: u64 = 0;
        let mut ok = true;
        while i < len && out[i] != FIELD_SEPARATOR
            invariant
                len == out@.len(),
                0 <= start <= dstart <= i <= len,
                dstart <= start + 1,
                dstart == start + 1 ==> start < len && out@[start as int] == PLUS_SIGN,
                dstart == start && start < len ==> out@[start as int] != PLUS_SIGN,
                forall|j: int| dstart <= j < i ==> out@[j] != FIELD_SEPARATOR,
                ok ==> all_digits(out@.subrange(dstart as int, i as int))
                    && val == digits_val(out@.subrange(dstart as int, i as int)),
                !ok ==> !(all_digits(out@.subrange(dstart as int, i as int))
                    && digits_val(out@.subrange(dstart as int, i as int)) <= u64::MAX),
            decreases len - i,
        {
            let b = out[i];
            let ghost pre = out@.subrange(dstart as int, i as int);
            let ghost post = out@.subrange(dstart as int, i + 1 as int);
            proof {
                assert(post.drop_last() =~= pre);
                assert(post.last() == out@[i as int]);
                assert forall|j: int| 0 <= j < pre.len() && all_digits(post) implies is_digit(
                    pre[j],
                ) by {
                    assert(pre[j] == post[j]);
                }
            }
            if b < 48 || b > 57 {
                ok = false;
            } else if ok {
                let d = (b - 48) as u64;
                let m = val.checked_mul(10);
                match m {
                    Some(m10) => {
                        match m10.checked_add(d) {
                            Some(nv) => {
                                val = nv;
                            },
                            None => {
                                ok = false;
                            },
                        }
                    },
                    None => {
                        ok = false;
                    },
                }
            } else {
                proof {
                    // A prefix that is not a number cannot extend to one.
                    if all_digits(post) {
                        lemma_digits_val_nonneg(pre);
                        assert(digits_val(post) == digits_val(pre) * 10 + (post.last() - 48));
                        assert(digits_val(pre) * 10 >= digits_val(pre));
                    }
                }
            }
            i = i + 1;
        }
        let ghost field = out@.subrange(start as int, i as int);
        let ghost digits = out@.subrange(dstart as int, i as int);
        proof {
            // The whole field, sign included, holds no separator.
            assert forall|j: int| start <= j < i implies out@[j] != FIELD_SEPARATOR by {
                if j < dstart {
                    assert(out@[start as int] == PLUS_SIGN);
                }
            }
            lemma_field_end_is(out@, start as int, i as int);
            // The field's digit part is exactly the scanned range.
            if dstart == start + 1 {
                assert(field[0] == out@[start as int]);
                assert(digits_of(field) =~= digits);
            } else {
                assert(digits_of(field) =~= digits);
            }
        }
        if ok && i > dstart {
            assert(is_size_field(field));
            assert(field_val(field) == val);
            return Some(val);
        }
        assert(!is_size_field(field));
        if i == len {
            return None;
        }
        start = i + 1;
    }
}

} // verus!
