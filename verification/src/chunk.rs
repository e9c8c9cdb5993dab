//! Wire format of one streaming token chunk.
//!
//! A streaming data line carries a JSON object with a `token` string, an
//! `is_complete` flag, and optional `model_id` and `error` fields that may
//! each be a string or `null`; unrecognized fields are skipped by structure.
//! The grammar below is the crate's definition of that payload: the spec
//! functions give the meaning of a byte sequence, and the executable parser
//! is proved to return exactly what they describe.
//!
//! Positions index into the payload byte sequence; every parsing function
//! takes the position where its production starts and yields the position
//! just past it. String contents are returned unescaped, as bytes; the
//! decoder turns them into text afterwards.

use vstd::prelude::*;

verus! {

// Byte values the grammar dispatches on, by their ASCII meaning:
// 9 tab, 10 line feed, 13 carriage return, 32 space, 34 quote,
// 44 comma, 47 slash, 58 colon, 91 '[', 92 backslash, 93 ']',
// 98 'b', 102 'f', 110 'n', 114 'r', 116 't', 117 'u',
// 123 '{', 125 '}'.

/// JSON insignificant whitespace.
pub open spec fn sp_is_ws(b: u8) -> bool {
    b == 32 || b == 9 || b == 10 || b == 13
}

/// First position at or after `i` holding a non-whitespace byte (or the end).
pub open spec fn sp_skip_ws(s: Seq<u8>, i: nat) -> nat
    decreases s.len() - i,
{
    if i >= s.len() {
        i
    } else if sp_is_ws(s[i as int]) {
        sp_skip_ws(s, i + 1)
    } else {
        i
    }
}

/// Numeric value of a hexadecimal digit byte.
pub open spec fn sp_hex_val(b: u8) -> Option<nat> {
    if 48 <= b && b <= 57 {
        Some((b - 48) as nat)
    } else if 97 <= b && b <= 102 {
        Some((b - 87) as nat)
    } else if 65 <= b && b <= 70 {
        Some((b - 55) as nat)
    } else {
        None
    }
}

/// Value of the four hexadecimal digits starting at `i`.
pub open spec fn sp_hex4(s: Seq<u8>, i: nat) -> Option<nat> {
    if i + 4 <= s.len() {
        match sp_hex_val(s[i as int]) {
            None => None,
            Some(h0) => match sp_hex_val(s[i as int + 1]) {
                None => None,
                Some(h1) => match sp_hex_val(s[i as int + 2]) {
                    None => None,
                    Some(h2) => match sp_hex_val(s[i as int + 3]) {
                        None => None,
                        Some(h3) => Some(h0 * 4096 + h1 * 256 + h2 * 16 + h3),
                    },
                },
            },
        }
    } else {
        None
    }
}

/// UTF-8 encoding of a Unicode scalar value, by its range.
pub open spec fn sp_utf8_encode(cp: nat) -> Seq<u8> {
    if cp < 0x80 {
        seq![cp as u8]
    } else if cp < 0x800 {
        seq![(0xC0 + cp / 64) as u8, (0x80 + cp % 64) as u8]
    } else if cp < 0x10000 {
        seq![
            (0xE0 + cp / 4096) as u8,
            (0x80 + (cp / 64) % 64) as u8,
            (0x80 + cp % 64) as u8,
        ]
    } else {
        seq![
            (0xF0 + cp / 262144) as u8,
            (0x80 + (cp / 4096) % 64) as u8,
            (0x80 + (cp / 64) % 64) as u8,
            (0x80 + cp % 64) as u8,
        ]
    }
}

/// A `\uXXXX` escape with its four digits starting at `i`: a basic scalar
/// encodes directly, a high surrogate must be followed by `\uXXXX` holding a
/// low surrogate and the pair encodes as one scalar, and a lone low
/// surrogate is malformed.
pub open spec fn sp_unicode_escape(s: Seq<u8>, i: nat) -> Option<(Seq<u8>, nat)> {
    match sp_hex4(s, i) {
        None => None,
        Some(cp) => {
            if 0xD800 <= cp && cp < 0xDC00 {
                if i + 6 <= s.len() && s[i as int + 4] == 92 && s[i as int + 5] == 117 {
                    match sp_hex4(s, i + 6) {
                        None => None,
                        Some(lo) => {
                            if 0xDC00 <= lo && lo < 0xE000 {
                                Some((
                                    sp_utf8_encode(
                                        (0x10000 + (cp - 0xD800) * 0x400 + (lo - 0xDC00)) as nat,
                                    ),
                                    i + 10,
                                ))
                            } else {
                                None
                            }
                        },
                    }
                } else {
                    None
                }
            } else if 0xDC00 <= cp && cp < 0xE000 {
                None
            } else {
                Some((sp_utf8_encode(cp), i + 4))
            }
        },
    }
}

/// One escape sequence, starting at the byte after the backslash: the bytes
/// it denotes and the position after it.
pub open spec fn sp_escape(s: Seq<u8>, i: nat) -> Option<(Seq<u8>, nat)> {
    if i >= s.len() {
        None
    } else {
        let b = s[i as int];
        if b == 34 {
            Some((seq![34u8], i + 1))
        } else if b == 92 {
            Some((seq![92u8], i + 1))
        } else if b == 47 {
            Some((seq![47u8], i + 1))
        } else if b == 98 {
            Some((seq![8u8], i + 1))
        } else if b == 102 {
            Some((seq![12u8], i + 1))
        } else if b == 110 {
            Some((seq![10u8], i + 1))
        } else if b == 114 {
            Some((seq![13u8], i + 1))
        } else if b == 116 {
            Some((seq![9u8], i + 1))
        } else if b == 117 {
            sp_unicode_escape(s, i + 1)
        } else {
            None
        }
    }
}

/// Body of a string literal, starting just after the opening quote: the
/// unescaped bytes and the position after the closing quote. Control bytes
/// below 0x20 are not allowed unescaped.
pub open spec fn sp_string_body(s: Seq<u8>, i: nat) -> Option<(Seq<u8>, nat)>
    decreases s.len() - i,
{
    if i >= s.len() {
        None
    } else {
        let b = s[i as int];
        if b == 34 {
            Some((Seq::empty(), i + 1))
        } else if b == 92 {
            match sp_escape(s, i + 1) {
                None => None,
                Some((w, j)) => {
                    if j > i && j <= s.len() {
                        match sp_string_body(s, j) {
                            None => None,
                            Some((rest, k)) => Some((w + rest, k)),
                        }
                    } else {
                        None
                    }
                },
            }
        } else if b < 32 {
            None
        } else {
            match sp_string_body(s, i + 1) {
                None => None,
                Some((rest, k)) => Some((seq![b] + rest, k)),
            }
        }
    }
}

/// A string literal starting at `i`: its unescaped bytes and the position
/// after the closing quote.
pub open spec fn sp_parse_string(s: Seq<u8>, i: nat) -> Option<(Seq<u8>, nat)> {
    if i < s.len() && s[i as int] == 34 {
        sp_string_body(s, i + 1)
    } else {
        None
    }
}

/// The literal `true` or `false` starting at `i`.
pub open spec fn sp_parse_bool(s: Seq<u8>, i: nat) -> Option<(bool, nat)> {
    if i + 4 <= s.len() && s[i as int] == 116 && s[i as int + 1] == 114
        && s[i as int + 2] == 117 && s[i as int + 3] == 101 {
        Some((true, i + 4))
    } else if i + 5 <= s.len() && s[i as int] == 102 && s[i as int + 1] == 97
        && s[i as int + 2] == 108 && s[i as int + 3] == 115 && s[i as int + 4] == 101 {
        Some((false, i + 5))
    } else {
        None
    }
}

/// The literal `null` starting at `i`.
pub open spec fn sp_is_null(s: Seq<u8>, i: nat) -> bool {
    i + 4 <= s.len() && s[i as int] == 110 && s[i as int + 1] == 117
        && s[i as int + 2] == 108 && s[i as int + 3] == 108
}

/// End of a run of scalar bytes (a number or a keyword): the first position
/// at or after `i` holding a delimiter, a closing bracket, or whitespace.
pub open spec fn sp_scalar_end(s: Seq<u8>, i: nat) -> nat
    decreases s.len() - i,
{
    if i >= s.len() {
        i
    } else if s[i as int] == 44 || s[i as int] == 125 || s[i as int] == 93
        || sp_is_ws(s[i as int]) {
        i
    } else {
        sp_scalar_end(s, i + 1)
    }
}

/// Position after a balanced bracketed value whose opening bracket has
/// already been consumed: brackets are tracked by depth and bytes inside
/// string literals (with their escapes) do not count.
pub open spec fn sp_skip_nested(s: Seq<u8>, i: nat, depth: nat, in_str: bool, esc: bool) -> Option<
    nat,
>
    decreases s.len() - i,
{
    if i >= s.len() {
        None
    } else {
        let b = s[i as int];
        if in_str {
            if esc {
                sp_skip_nested(s, i + 1, depth, true, false)
            } else if b == 92 {
                sp_skip_nested(s, i + 1, depth, true, true)
            } else if b == 34 {
                sp_skip_nested(s, i + 1, depth, false, false)
            } else {
                sp_skip_nested(s, i + 1, depth, true, false)
            }
        } else {
            if b == 34 {
                sp_skip_nested(s, i + 1, depth, true, false)
            } else if b == 123 || b == 91 {
                sp_skip_nested(s, i + 1, depth + 1, false, false)
            } else if b == 125 || b == 93 {
                if depth == 1 {
                    Some(i + 1)
                } else {
                    sp_skip_nested(s, i + 1, (depth - 1) as nat, false, false)
                }
            } else {
                sp_skip_nested(s, i + 1, depth, false, false)
            }
        }
    }
}

/// Position after an arbitrary JSON value starting at `i`, consumed without
/// interpretation: a string, a bracketed structure, or a scalar run.
pub open spec fn sp_skip_value(s: Seq<u8>, i: nat) -> Option<nat> {
    if i >= s.len() {
        None
    } else {
        let b = s[i as int];
        if b == 34 {
            match sp_string_body(s, i + 1) {
                None => None,
                Some((_w, j)) => Some(j),
            }
        } else if b == 123 || b == 91 {
            sp_skip_nested(s, i + 1, 1, false, false)
        } else {
            let j = sp_scalar_end(s, i);
            if j > i {
                Some(j)
            } else {
                None
            }
        }
    }
}

/// A partial parse with the given bytes already accumulated in front.
pub open spec fn sp_prepend(pre: Seq<u8>, r: Option<(Seq<u8>, nat)>) -> Option<(Seq<u8>, nat)> {
    match r {
        None => None,
        Some((w, j)) => Some((pre + w, j)),
    }
}

proof fn lemma_prepend_concat(pre: Seq<u8>, mid: Seq<u8>, r: Option<(Seq<u8>, nat)>)
    ensures
        sp_prepend(pre, sp_prepend(mid, r)) == sp_prepend(pre + mid, r),
{
    match r {
        None => {},
        Some((w, j)) => {
            assert(pre + (mid + w) =~= (pre + mid) + w);
        },
    }
}

/// First position at or after `i` holding a non-whitespace byte.
fn skip_ws(s: &[u8], i: usize) -> (r: usize)
    requires
        i <= s@.len(),
    ensures
        r as nat == sp_skip_ws(s@, i as nat),
        i <= r <= s@.len(),
{
    let mut j = i;
    loop
        invariant
            i <= j <= s@.len(),
            sp_skip_ws(s@, i as nat) == sp_skip_ws(s@, j as nat),
        decreases s@.len() - j,
    {
        if j >= s.len() {
            return j;
        }
        let b = s[j];
        if b == 32 || b == 9 || b == 10 || b == 13 {
            j = j + 1;
        } else {
            return j;
        }
    }
}

/// Numeric value of a hexadecimal digit byte.
fn hex_val(b: u8) -> (r: Option<u8>)
    ensures
        match r {
            Some(v) => sp_hex_val(b) == Some(v as nat) && v < 16,
            None => sp_hex_val(b) is None,
        },
{
    if 48 <= b && b <= 57 {
        Some(b - 48)
    } else if 97 <= b && b <= 102 {
        Some(b - 87)
    } else if 65 <= b && b <= 70 {
        Some(b - 55)
    } else {
        None
    }
}

/// Value of the four hexadecimal digits starting at `i`.
fn hex4(s: &[u8], i: usize) -> (r: Option<u32>)
    requires
        i <= s@.len(),
    ensures
        match r {
            Some(v) => sp_hex4(s@, i as nat) == Some(v as nat) && v < 0x10000,
            None => sp_hex4(s@, i as nat) is None,
        },
{
    if s.len() - i < 4 {
        return None;
    }
    let h0 = match hex_val(s[i]) {
        Some(v) => v,
        None => {
            return None;
        },
    };
    let h1 = match hex_val(s[i + 1]) {
        Some(v) => v,
        None => {
            return None;
        },
    };
    let h2 = match hex_val(s[i + 2]) {
        Some(v) => v,
        None => {
            return None;
        },
    };
    let h3 = match hex_val(s[i + 3]) {
        Some(v) => v,
        None => {
            return None;
        },
    };
    Some((h0 as u32) * 4096 + (h1 as u32) * 256 + (h2 as u32) * 16 + (h3 as u32))
}

/// Append the UTF-8 encoding of a Unicode scalar value.
fn push_utf8(out: &mut Vec<u8>, cp: u32)
    requires
        cp < 0x110000,
    ensures
        final(out)@ == old(out)@ + sp_utf8_encode(cp as nat),
{
    let ghost pre = out@;
    if cp < 0x80 {
        out.push(cp as u8);
        assert(out@ =~= pre + sp_utf8_encode(cp as nat));
    } else if cp < 0x800 {
        out.push((0xC0 + cp / 64) as u8);
        out.push((0x80 + cp % 64) as u8);
        assert(out@ =~= pre + sp_utf8_encode(cp as nat));
    } else if cp < 0x10000 {
        out.push((0xE0 + cp / 4096) as u8);
        out.push((0x80 + (cp / 64) % 64) as u8);
        out.push((0x80 + cp % 64) as u8);
        assert(out@ =~= pre + sp_utf8_encode(cp as nat));
    } else {
        out.push((0xF0 + cp / 262144) as u8);
        out.push((0x80 + (cp / 4096) % 64) as u8);
        out.push((0x80 + (cp / 64) % 64) as u8);
        out.push((0x80 + cp % 64) as u8);
        assert(out@ =~= pre + sp_utf8_encode(cp as nat));
    }
}

/// Parse a string literal starting at `i`: its unescaped bytes and the
/// position after the closing quote.
#[verifier::rlimit(60)]
fn parse_string(s: &[u8], i: usize) -> (r: Option<(Vec<u8>, usize)>)
    requires
        i <= s@.len(),
    ensures
        match r {
            Some(p) => sp_parse_string(s@, i as nat) == Some((p.0@, p.1 as nat))
                && i < p.1 <= s@.len(),
            None => sp_parse_string(s@, i as nat) is None,
        },
{
    if i >= s.len() || s[i] != 34 {
        return None;
    }
    let ghost target = sp_string_body(s@, i as nat + 1);
    let mut acc: Vec<u8> = Vec::new();
    let mut j = i + 1;
    loop
        invariant
            i < j <= s@.len(),
            i < s@.len() && s@[i as int] == 34,
            target == sp_string_body(s@, i as nat + 1),
            target == sp_prepend(acc@, sp_string_body(s@, j as nat)),
        decreases s@.len() - j,
    {
        if j >= s.len() {
            return None;
        }
        let b = s[j];
        if b == 34 {
            assert(acc@ + Seq::<u8>::empty() =~= acc@);
            return Some((acc, j + 1));
        } else if b == 92 {
            if j + 1 >= s.len() {
                return None;
            }
            let ghost acc_pre = acc@;
            let e = s[j + 1];
            let ghost esc = sp_escape(s@, j as nat + 1);
            if e == 34 || e == 92 || e == 47 {
                acc.push(e);
                proof {
                    lemma_prepend_concat(acc_pre, seq![e], sp_string_body(s@, j as nat + 2));
                    assert(acc_pre + seq![e] =~= acc@);
                }
                j = j + 2;
            } else if e == 98 {
                acc.push(8);
                proof {
                    lemma_prepend_concat(acc_pre, seq![8u8], sp_string_body(s@, j as nat + 2));
                    assert(acc_pre + seq![8u8] =~= acc@);
                }
                j = j + 2;
            } else if e == 102 {
                acc.push(12);
                proof {
                    lemma_prepend_concat(acc_pre, seq![12u8], sp_string_body(s@, j as nat + 2));
                    assert(acc_pre + seq![12u8] =~= acc@);
                }
                j = j + 2;
            } else if e == 110 {
                acc.push(10);
                proof {
                    lemma_prepend_concat(acc_pre, seq![10u8], sp_string_body(s@, j as nat + 2));
                    assert(acc_pre + seq![10u8] =~= acc@);
                }
                j = j + 2;
            } else if e == 114 {
                acc.push(13);
                proof {
                    lemma_prepend_concat(acc_pre, seq![13u8], sp_string_body(s@, j as nat + 2));
                    assert(acc_pre + seq![13u8] =~= acc@);
                }
                j = j + 2;
            } else if e == 116 {
                acc.push(9);
                proof {
                    lemma_prepend_concat(acc_pre, seq![9u8], sp_string_body(s@, j as nat + 2));
                    assert(acc_pre + seq![9u8] =~= acc@);
                }
                j = j + 2;
            } else if e == 117 {
                let cp = match hex4(s, j + 2) {
                    Some(v) => v,
                    None => {
                        return None;
                    },
                };
                if 0xD800 <= cp && cp < 0xDC00 {
                    if s.len() - (j + 6) < 2 || s[j + 6] != 92 || s[j + 7] != 117 {
                        return None;
                    }
                    let lo = match hex4(s, j + 8) {
                        Some(v) => v,
                        None => {
                            return None;
                        },
                    };
                    if !(0xDC00 <= lo && lo < 0xE000) {
                        return None;
                    }
                    let scalar = 0x10000 + (cp - 0xD800) * 0x400 + (lo - 0xDC00);
                    push_utf8(&mut acc, scalar);
                    proof {
                        lemma_prepend_concat(
                            acc_pre,
                            sp_utf8_encode(scalar as nat),
                            sp_string_body(s@, j as nat + 12),
                        );
                    }
                    j = j + 12;
                } else if 0xDC00 <= cp && cp < 0xE000 {
                    return None;
                } else {
                    push_utf8(&mut acc, cp);
                    proof {
                        lemma_prepend_concat(
                            acc_pre,
                            sp_utf8_encode(cp as nat),
                            sp_string_body(s@, j as nat + 6),
                        );
                    }
                    j = j + 6;
                }
            } else {
                return None;
            }
        } else if b < 32 {
            return None;
        } else {
            let ghost acc_pre = acc@;
            acc.push(b);
            proof {
                lemma_prepend_concat(acc_pre, seq![b], sp_string_body(s@, j as nat + 1));
                assert(acc_pre + seq![b] =~= acc@);
            }
            j = j + 1;
        }
    }
}

/// End of a run of scalar bytes starting at `i`.
fn scalar_end(s: &[u8], i: usize) -> (r: usize)
    requires
        i <= s@.len(),
    ensures
        r as nat == sp_scalar_end(s@, i as nat),
        i <= r <= s@.len(),
{
    let mut j = i;
    loop
        invariant
            i <= j <= s@.len(),
            sp_scalar_end(s@, i as nat) == sp_scalar_end(s@, j as nat),
        decreases s@.len() - j,
    {
        if j >= s.len() {
            return j;
        }
        let b = s[j];
        if b == 44 || b == 125 || b == 93 || b == 32 || b == 9 || b == 10 || b == 13 {
            return j;
        }
        j = j + 1;
    }
}

/// Position after a balanced bracketed value whose opening bracket has
/// already been consumed.
fn skip_nested(s: &[u8], i: usize) -> (r: Option<usize>)
    requires
        i <= s@.len(),
    ensures
        match r {
            Some(j) => sp_skip_nested(s@, i as nat, 1, false, false) == Some(j as nat)
                && i < j <= s@.len(),
            None => sp_skip_nested(s@, i as nat, 1, false, false) is None,
        },
{
    let mut j = i;
    let mut depth: u128 = 1;
    let mut in_str = false;
    let mut esc = false;
    loop
        invariant
            i <= j <= s@.len(),
            depth >= 1,
            depth <= j - i + 1,
            esc ==> in_str,
            sp_skip_nested(s@, i as nat, 1, false, false) == sp_skip_nested(
                s@,
                j as nat,
                depth as nat,
                in_str,
                esc,
            ),
        decreases s@.len() - j,
    {
        if j >= s.len() {
            return None;
        }
        let b = s[j];
        if in_str {
            if esc {
                esc = false;
            } else if b == 92 {
                esc = true;
            } else if b == 34 {
                in_str = false;
            }
            j = j + 1;
        } else {
            if b == 34 {
                in_str = true;
                j = j + 1;
            } else if b == 123 || b == 91 {
                depth = depth + 1;
                j = j + 1;
            } else if b == 125 || b == 93 {
                if depth == 1 {
                    return Some(j + 1);
                }
                depth = depth - 1;
                j = j + 1;
            } else {
                j = j + 1;
            }
        }
    }
}

/// Position after an arbitrary JSON value starting at `i`, consumed without
/// interpretation.
fn skip_value(s: &[u8], i: usize) -> (r: Option<usize>)
    requires
        i <= s@.len(),
    ensures
        match r {
            Some(j) => sp_skip_value(s@, i as nat) == Some(j as nat) && i < j <= s@.len(),
            None => sp_skip_value(s@, i as nat) is None,
        },
{
    if i >= s.len() {
        return None;
    }
    let b = s[i];
    if b == 34 {
        match parse_string(s, i) {
            Some(p) => Some(p.1),
            None => None,
        }
    } else if b == 123 || b == 91 {
        skip_nested(s, i + 1)
    } else {
        let j = scalar_end(s, i);
        if j > i {
            Some(j)
        } else {
            None
        }
    }
}

/// The fields of a chunk object as they accumulate while its members are
/// read. The optional string fields distinguish an explicit `null`
/// (`Some(None)`) from absence (`None`), so that a duplicated field is
/// rejected either way.
pub struct ChunkFields {
    /// The `token` member, once seen.
    pub token: Option<Seq<u8>>,
    /// The `is_complete` member, once seen.
    pub is_complete: Option<bool>,
    /// The `model_id` member, once seen: its string, or `None` for `null`.
    pub model_id: Option<Option<Seq<u8>>>,
    /// The `error` member, once seen: its string, or `None` for `null`.
    pub error: Option<Option<Seq<u8>>>,
}

/// The empty accumulator: no member seen yet.
pub open spec fn sp_no_fields() -> ChunkFields {
    ChunkFields { token: None, is_complete: None, model_id: None, error: None }
}

/// The bytes of the member name `token`.
pub open spec fn sp_key_token() -> Seq<u8> {
    seq![116u8, 111u8, 107u8, 101u8, 110u8]
}

/// The bytes of the member name `is_complete`.
pub open spec fn sp_key_is_complete() -> Seq<u8> {
    seq![105u8, 115u8, 95u8, 99u8, 111u8, 109u8, 112u8, 108u8, 101u8, 116u8, 101u8]
}

/// The bytes of the member name `model_id`.
pub open spec fn sp_key_model_id() -> Seq<u8> {
    seq![109u8, 111u8, 100u8, 101u8, 108u8, 95u8, 105u8, 100u8]
}

/// The bytes of the member name `error`.
pub open spec fn sp_key_error() -> Seq<u8> {
    seq![101u8, 114u8, 114u8, 111u8, 114u8]
}

/// One member's value starting at `i`, recorded under its name: a known
/// name demands its type (`token` a string, `is_complete` a boolean, the
/// optional two a string or `null`) and must not repeat; an unknown name's
/// value is skipped by structure.
pub open spec fn sp_member_value(s: Seq<u8>, i: nat, f: ChunkFields, key: Seq<u8>) -> Option<
    (ChunkFields, nat),
> {
    if key == sp_key_token() {
        if f.token.is_some() {
            None
        } else {
            match sp_parse_string(s, i) {
                None => None,
                Some((v, j)) => Some((ChunkFields { token: Some(v), ..f }, j)),
            }
        }
    } else if key == sp_key_is_complete() {
        if f.is_complete.is_some() {
            None
        } else {
            match sp_parse_bool(s, i) {
                None => None,
                Some((v, j)) => Some((ChunkFields { is_complete: Some(v), ..f }, j)),
            }
        }
    } else if key == sp_key_model_id() {
        if f.model_id.is_some() {
            None
        } else if sp_is_null(s, i) {
            Some((ChunkFields { model_id: Some(None), ..f }, i + 4))
        } else {
            match sp_parse_string(s, i) {
                None => None,
                Some((v, j)) => Some((ChunkFields { model_id: Some(Some(v)), ..f }, j)),
            }
        }
    } else if key == sp_key_error() {
        if f.error.is_some() {
            None
        } else if sp_is_null(s, i) {
            Some((ChunkFields { error: Some(None), ..f }, i + 4))
        } else {
            match sp_parse_string(s, i) {
                None => None,
                Some((v, j)) => Some((ChunkFields { error: Some(Some(v)), ..f }, j)),
            }
        }
    } else {
        match sp_skip_value(s, i) {
            None => None,
            Some(j) => Some((f, j)),
        }
    }
}

/// One `"name": value` member starting at `i`.
pub open spec fn sp_member(s: Seq<u8>, i: nat, f: ChunkFields) -> Option<(ChunkFields, nat)> {
    match sp_parse_string(s, i) {
        None => None,
        Some((key, k1)) => {
            let k2 = sp_skip_ws(s, k1);
            if k2 < s.len() && s[k2 as int] == 58 {
                sp_member_value(s, sp_skip_ws(s, k2 + 1), f, key)
            } else {
                None
            }
        },
    }
}

/// The members of an object, starting just after its opening brace (when
/// `first` holds) or just after a separating comma: the accumulated fields
/// and the position after the closing brace.
pub open spec fn sp_members(s: Seq<u8>, i: nat, f: ChunkFields, first: bool) -> Option<
    (ChunkFields, nat),
>
    decreases s.len() - i,
{
    let j = sp_skip_ws(s, i);
    if first && j < s.len() && s[j as int] == 125 {
        Some((f, j + 1))
    } else {
        match sp_member(s, j, f) {
            None => None,
            Some((f2, k)) => {
                let m = sp_skip_ws(s, k);
                if m < s.len() && s[m as int] == 125 {
                    Some((f2, m + 1))
                } else if m < s.len() && s[m as int] == 44 {
                    if m + 1 > i {
                        sp_members(s, m + 1, f2, false)
                    } else {
                        None
                    }
                } else {
                    None
                }
            },
        }
    }
}

/// A fully decoded chunk payload: the token bytes, the completion flag, and
/// the optional model id and error strings, all still unescaped bytes.
pub struct SpecChunk {
    /// Unescaped bytes of the `token` member.
    pub token: Seq<u8>,
    /// The `is_complete` member.
    pub is_complete: bool,
    /// Unescaped bytes of the `model_id` member, absent on `null` or omission.
    pub model_id: Option<Seq<u8>>,
    /// Unescaped bytes of the `error` member, absent on `null` or omission.
    pub error: Option<Seq<u8>>,
}

/// Meaning of a whole data-line payload: one JSON object, surrounded by
/// nothing but whitespace, whose members must include `token` (a string)
/// and `is_complete` (a boolean) exactly once each.
pub open spec fn sp_chunk_payload(s: Seq<u8>) -> Option<SpecChunk> {
    let i = sp_skip_ws(s, 0);
    if i < s.len() && s[i as int] == 123 {
        match sp_members(s, i + 1, sp_no_fields(), true) {
            None => None,
            Some((f, j)) => {
                if sp_skip_ws(s, j) == s.len() {
                    match (f.token, f.is_complete) {
                        (Some(token), Some(is_complete)) => Some(
                            SpecChunk {
                                token,
                                is_complete,
                                model_id: match f.model_id {
                                    Some(m) => m,
                                    None => None,
                                },
                                error: match f.error {
                                    Some(e) => e,
                                    None => None,
                                },
                            },
                        ),
                        _ => None,
                    }
                } else {
                    None
                }
            },
        }
    } else {
        None
    }
}

/// The fields of a chunk object as the executable parser accumulates them,
/// mirroring [`ChunkFields`] with owned byte vectors.
struct FieldsAcc {
    token: Option<Vec<u8>>,
    is_complete: Option<bool>,
    model_id: Option<Option<Vec<u8>>>,
    error: Option<Option<Vec<u8>>>,
}

impl View for FieldsAcc {
    type V = ChunkFields;

    closed spec fn view(&self) -> ChunkFields {
        ChunkFields {
            token: match self.token {
                Some(v) => Some(v@),
                None => None,
            },
            is_complete: self.is_complete,
            model_id: match self.model_id {
                Some(Some(v)) => Some(Some(v@)),
                Some(None) => Some(None),
                None => None,
            },
            error: match self.error {
                Some(Some(v)) => Some(Some(v@)),
                Some(None) => Some(None),
                None => None,
            },
        }
    }
}

/// Whether the bytes spell the member name `token`.
fn key_is_token(v: &Vec<u8>) -> (r: bool)
    ensures
        r == (v@ == sp_key_token()),
{
    let r = v.len() == 5 && v[0] == 116 && v[1] == 111 && v[2] == 107 && v[3] == 101
        && v[4] == 110;
    proof {
        if r {
            assert(v@ =~= sp_key_token());
        }
    }
    r
}

/// Whether the bytes spell the member name `is_complete`.
fn key_is_is_complete(v: &Vec<u8>) -> (r: bool)
    ensures
        r == (v@ == sp_key_is_complete()),
{
    let r = v.len() == 11 && v[0] == 105 && v[1] == 115 && v[2] == 95 && v[3] == 99
        && v[4] == 111 && v[5] == 109 && v[6] == 112 && v[7] == 108 && v[8] == 101
        && v[9] == 116 && v[10] == 101;
    proof {
        if r {
            assert(v@ =~= sp_key_is_complete());
        }
    }
    r
}

/// Whether the bytes spell the member name `model_id`.
fn key_is_model_id(v: &Vec<u8>) -> (r: bool)
    ensures
        r == (v@ == sp_key_model_id()),
{
    let r = v.len() == 8 && v[0] == 109 && v[1] == 111 && v[2] == 100 && v[3] == 101
        && v[4] == 108 && v[5] == 95 && v[6] == 105 && v[7] == 100;
    proof {
        if r {
            assert(v@ =~= sp_key_model_id());
        }
    }
    r
}

/// Whether the bytes spell the member name `error`.
fn key_is_error(v: &Vec<u8>) -> (r: bool)
    ensures
        r == (v@ == sp_key_error()),
{
    let r = v.len() == 5 && v[0] == 101 && v[1] == 114 && v[2] == 114 && v[3] == 111
        && v[4] == 114;
    proof {
        if r {
            assert(v@ =~= sp_key_error());
        }
    }
    r
}

/// Whether the literal `null` starts at `i`.
fn is_null_at(s: &[u8], i: usize) -> (r: bool)
    requires
        i <= s@.len(),
    ensures
        r == sp_is_null(s@, i as nat),
{
    s.len() - i >= 4 && s[i] == 110 && s[i + 1] == 117 && s[i + 2] == 108 && s[i + 3] == 108
}

/// Parse the literal `true` or `false` starting at `i`.
fn parse_bool(s: &[u8], i: usize) -> (r: Option<(bool, usize)>)
    requires
        i <= s@.len(),
    ensures
        match r {
            Some(p) => sp_parse_bool(s@, i as nat) == Some((p.0, p.1 as nat))
                && i < p.1 <= s@.len(),
            None => sp_parse_bool(s@, i as nat) is None,
        },
{
    if s.len() - i >= 4 && s[i] == 116 && s[i + 1] == 114 && s[i + 2] == 117 && s[i + 3] == 101 {
        Some((true, i + 4))
    } else if s.len() - i >= 5 && s[i] == 102 && s[i + 1] == 97 && s[i + 2] == 108
        && s[i + 3] == 115 && s[i + 4] == 101 {
        Some((false, i + 5))
    } else {
        None
    }
}

/// Record one member's value under its name, starting at `i`.
fn member_value(s: &[u8], i: usize, f: FieldsAcc, key: &Vec<u8>) -> (r: Option<
    (FieldsAcc, usize),
>)
    requires
        i <= s@.len(),
    ensures
        match r {
            Some(p) => sp_member_value(s@, i as nat, f@, key@) == Some((p.0@, p.1 as nat))
                && i < p.1 <= s@.len(),
            None => sp_member_value(s@, i as nat, f@, key@) is None,
        },
{
    if key_is_token(key) {
        if f.token.is_some() {
            None
        } else {
            match parse_string(s, i) {
                None => None,
                Some((v, j)) => Some((FieldsAcc { token: Some(v), ..f }, j)),
            }
        }
    } else if key_is_is_complete(key) {
        if f.is_complete.is_some() {
            None
        } else {
            match parse_bool(s, i) {
                None => None,
                Some((v, j)) => Some((FieldsAcc { is_complete: Some(v), ..f }, j)),
            }
        }
    } else if key_is_model_id(key) {
        if f.model_id.is_some() {
            None
        } else if is_null_at(s, i) {
            let n = s.len();
            proof {
                assert(i as nat + 4 <= n as nat);
            }
            Some((FieldsAcc { model_id: Some(None), ..f }, i + 4))
        } else {
            match parse_string(s, i) {
                None => None,
                Some((v, j)) => Some((FieldsAcc { model_id: Some(Some(v)), ..f }, j)),
            }
        }
    } else if key_is_error(key) {
        if f.error.is_some() {
            None
        } else if is_null_at(s, i) {
            let n = s.len();
            proof {
                assert(i as nat + 4 <= n as nat);
            }
            Some((FieldsAcc { error: Some(None), ..f }, i + 4))
        } else {
            match parse_string(s, i) {
                None => None,
                Some((v, j)) => Some((FieldsAcc { error: Some(Some(v)), ..f }, j)),
            }
        }
    } else {
        match skip_value(s, i) {
            None => None,
            Some(j) => Some((f, j)),
        }
    }
}

/// Parse one `"name": value` member starting at `i`.
fn member(s: &[u8], i: usize, f: FieldsAcc) -> (r: Option<(FieldsAcc, usize)>)
    requires
        i <= s@.len(),
    ensures
        match r {
            Some(p) => sp_member(s@, i as nat, f@) == Some((p.0@, p.1 as nat))
                && i < p.1 <= s@.len(),
            None => sp_member(s@, i as nat, f@) is None,
        },
{
    let (key, k1) = match parse_string(s, i) {
        None => {
            return None;
        },
        Some(p) => p,
    };
    let k2 = skip_ws(s, k1);
    if k2 < s.len() && s[k2] == 58 {
        let k3 = skip_ws(s, k2 + 1);
        member_value(s, k3, f, &key)
    } else {
        None
    }
}

/// Parse the members of an object, starting just after its opening brace.
fn members(s: &[u8], i: usize, f: FieldsAcc) -> (r: Option<(FieldsAcc, usize)>)
    requires
        i <= s@.len(),
    ensures
        match r {
            Some(p) => sp_members(s@, i as nat, f@, true) == Some((p.0@, p.1 as nat))
                && p.1 <= s@.len(),
            None => sp_members(s@, i as nat, f@, true) is None,
        },
{
    let ghost target = sp_members(s@, i as nat, f@, true);
    let mut cur = i;
    let mut acc = f;
    let mut first = true;
    loop
        invariant
            cur <= s@.len(),
            target == sp_members(s@, i as nat, f@, true),
            target == sp_members(s@, cur as nat, acc@, first),
        decreases s@.len() - cur,
    {
        let j = skip_ws(s, cur);
        if first && j < s.len() && s[j] == 125 {
            return Some((acc, j + 1));
        }
        let (f2, k) = match member(s, j, acc) {
            None => {
                return None;
            },
            Some(p) => p,
        };
        let m = skip_ws(s, k);
        if m < s.len() && s[m] == 125 {
            return Some((f2, m + 1));
        } else if m < s.len() && s[m] == 44 {
            acc = f2;
            cur = m + 1;
            first = false;
        } else {
            return None;
        }
    }
}

/// A fully decoded chunk payload, as the executable parser returns it: the
/// token bytes still unescaped, ready for text decoding.
pub struct ChunkBytes {
    /// Unescaped bytes of the `token` member.
    pub token: Vec<u8>,
    /// The `is_complete` member.
    pub is_complete: bool,
    /// Unescaped bytes of the `model_id` member, absent on `null` or omission.
    pub model_id: Option<Vec<u8>>,
    /// Unescaped bytes of the `error` member, absent on `null` or omission.
    pub error: Option<Vec<u8>>,
}

impl View for ChunkBytes {
    type V = SpecChunk;

    open spec fn view(&self) -> SpecChunk {
        SpecChunk {
            token: self.token@,
            is_complete: self.is_complete,
            model_id: match self.model_id {
                Some(v) => Some(v@),
                None => None,
            },
            error: match self.error {
                Some(v) => Some(v@),
                None => None,
            },
        }
    }
}

/// Parse a whole data-line payload: one JSON object, surrounded by nothing
/// but whitespace, with a `token` string and an `is_complete` boolean seen
/// exactly once each.
pub fn parse_chunk(s: &[u8]) -> (r: Option<ChunkBytes>)
    ensures
        match r {
            Some(c) => sp_chunk_payload(s@) == Some(c@),
            None => sp_chunk_payload(s@) is None,
        },
{
    let i = skip_ws(s, 0);
    if !(i < s.len() && s[i] == 123) {
        return None;
    }
    let start = FieldsAcc { token: None, is_complete: None, model_id: None, error: None };
    assert(start@ == sp_no_fields());
    let (fields, j) = match members(s, i + 1, start) {
        None => {
            return None;
        },
        Some(p) => p,
    };
    if skip_ws(s, j) != s.len() {
        return None;
    }
    let token = match fields.token {
        Some(v) => v,
        None => {
            return None;
        },
    };
    let is_complete = match fields.is_complete {
        Some(v) => v,
        None => {
            return None;
        },
    };
    let model_id = match fields.model_id {
        Some(Some(v)) => Some(v),
        _ => None,
    };
    let error = match fields.error {
        Some(Some(v)) => Some(v),
        _ => None,
    };
    Some(ChunkBytes { token, is_complete, model_id, error })
}

} // verus!
