//! The grammar of an accepted request body, and a verified parser for it.
//!
//! A body is accepted when it is a JSON text whose top level is an object
//! holding exactly one member named `path` whose value is a string; other
//! members of any JSON kind may stand beside it and are ignored. The spec
//! functions below define that language byte by byte as a deterministic
//! recursive descent: each returns `None` where the input leaves the
//! grammar, and otherwise how many bytes it consumed, together with the
//! decoded text where one is produced. String escapes (`\"`, `\\`, `\/`,
//! `\b`, `\f`, `\n`, `\r`, `\t` and `\uXXXX`, with surrogate pairs) decode
//! to UTF-8 bytes; unpaired surrogates and control bytes are rejected.

use vstd::prelude::*;

verus! {

/// JSON insignificant whitespace: space, tab, line feed, carriage return.
pub open spec fn is_ws(b: u8) -> bool {
    b == 0x20 || b == 0x09 || b == 0x0a || b == 0x0d
}

/// An ASCII decimal digit.
pub open spec fn is_digit(b: u8) -> bool {
    0x30 <= b && b <= 0x39
}

/// An ASCII hexadecimal digit, either case.
pub open spec fn is_hex_digit(b: u8) -> bool {
    is_digit(b) || (0x41 <= b && b <= 0x46) || (0x61 <= b && b <= 0x66)
}

/// The numeric value of a hexadecimal digit.
pub open spec fn hex_value(b: u8) -> u32 {
    if is_digit(b) {
        (b - 0x30) as u32
    } else if 0x41 <= b && b <= 0x46 {
        (b - 0x41 + 10) as u32
    } else {
        (b - 0x61 + 10) as u32
    }
}

/// The byte that a single-character escape `\e` stands for, if `e` names one.
pub open spec fn escape_byte(e: u8) -> Option<u8> {
    if e == 0x22 {
        Some(0x22u8)
    } else if e == 0x5c {
        Some(0x5cu8)
    } else if e == 0x2f {
        Some(0x2fu8)
    } else if e == 0x62 {
        Some(0x08u8)
    } else if e == 0x66 {
        Some(0x0cu8)
    } else if e == 0x6e {
        Some(0x0au8)
    } else if e == 0x72 {
        Some(0x0du8)
    } else if e == 0x74 {
        Some(0x09u8)
    } else {
        None
    }
}

/// The code point written by a surrogate pair: a high surrogate `c0`
/// (`D800..DC00`) followed by a low surrogate `c1` (`DC00..E000`).
pub open spec fn pair_code_point(c0: u32, c1: u32) -> u32 {
    (0x10000 + (c0 - 0xd800) * 0x400 + (c1 - 0xdc00)) as u32
}

/// The UTF-8 encoding of a code point below `0x110000`.
pub open spec fn utf8_encode(cp: u32) -> Seq<u8> {
    if cp < 0x80 {
        seq![cp as u8]
    } else if cp < 0x800 {
        seq![(0xc0 + cp / 0x40) as u8, (0x80 + cp % 0x40) as u8]
    } else if cp < 0x10000 {
        seq![
            (0xe0 + cp / 0x1000) as u8,
            (0x80 + (cp / 0x40) % 0x40) as u8,
            (0x80 + cp % 0x40) as u8,
        ]
    } else {
        seq![
            (0xf0 + cp / 0x40000) as u8,
            (0x80 + (cp / 0x1000) % 0x40) as u8,
            (0x80 + (cp / 0x40) % 0x40) as u8,
            (0x80 + cp % 0x40) as u8,
        ]
    }
}

/// Four hexadecimal digits starting at `i`, as a number.
pub open spec fn sp_hex4(s: Seq<u8>, i: int) -> Option<u32> {
    if i + 4 <= s.len() && is_hex_digit(s[i]) && is_hex_digit(s[i + 1]) && is_hex_digit(s[i + 2])
        && is_hex_digit(s[i + 3]) {
        Some(
            (hex_value(s[i]) * 0x1000 + hex_value(s[i + 1]) * 0x100 + hex_value(s[i + 2]) * 0x10
                + hex_value(s[i + 3])) as u32,
        )
    } else {
        None
    }
}

/// A string body starting at `i`, just after the opening quote: the decoded
/// bytes and the count of input bytes consumed, closing quote included.
pub open spec fn sp_string_body(s: Seq<u8>, i: int) -> Option<(Seq<u8>, nat)>
    decreases s.len() - i,
{
    if i < s.len() {
        let b = s[i];
        if b == 0x22 {
            Some((Seq::empty(), 1nat))
        } else if b == 0x5c {
            if i + 1 < s.len() {
                let e = s[i + 1];
                if e == 0x75 {
                    match sp_hex4(s, i + 2) {
                        Some(c0) => if 0xd800 <= c0 && c0 < 0xdc00 {
                            if i + 8 <= s.len() && s[i + 6] == 0x5c && s[i + 7] == 0x75 {
                                match sp_hex4(s, i + 8) {
                                    Some(c1) => if 0xdc00 <= c1 && c1 < 0xe000 {
                                        match sp_string_body(s, i + 12) {
                                            Some(dn) => Some(
                                                (
                                                    utf8_encode(pair_code_point(c0, c1)) + dn.0,
                                                    (12 + dn.1) as nat,
                                                ),
                                            ),
                                            None => None,
                                        }
                                    } else {
                                        None
                                    },
                                    None => None,
                                }
                            } else {
                                None
                            }
                        } else if 0xdc00 <= c0 && c0 < 0xe000 {
                            None
                        } else {
                            match sp_string_body(s, i + 6) {
                                Some(dn) => Some((utf8_encode(c0) + dn.0, (6 + dn.1) as nat)),
                                None => None,
                            }
                        },
                        None => None,
                    }
                } else {
                    match escape_byte(e) {
                        Some(m) => match sp_string_body(s, i + 2) {
                            Some(dn) => Some((seq![m] + dn.0, (2 + dn.1) as nat)),
                            None => None,
                        },
                        None => None,
                    }
                }
            } else {
                None
            }
        } else if b < 0x20 {
            None
        } else {
            match sp_string_body(s, i + 1) {
                Some(dn) => Some((seq![b] + dn.0, (1 + dn.1) as nat)),
                None => None,
            }
        }
    } else {
        None
    }
}

/// The first position at or after `i` that does not hold a decimal digit.
pub open spec fn sp_digits_end(s: Seq<u8>, i: int) -> int
    decreases s.len() - i,
{
    if i < s.len() && is_digit(s[i]) {
        sp_digits_end(s, i + 1)
    } else {
        i
    }
}

/// The end of an optional fraction part starting at `k`; `None` on a bare dot.
pub open spec fn sp_frac_end(s: Seq<u8>, k: int) -> Option<int> {
    if k < s.len() && s[k] == 0x2e {
        if k + 1 < s.len() && is_digit(s[k + 1]) {
            Some(sp_digits_end(s, k + 1))
        } else {
            None
        }
    } else {
        Some(k)
    }
}

/// The end of an optional exponent part starting at `k`; `None` on a bare
/// marker or sign.
pub open spec fn sp_exp_end(s: Seq<u8>, k: int) -> Option<int> {
    if k < s.len() && (s[k] == 0x65 || s[k] == 0x45) {
        let j = if k + 1 < s.len() && (s[k + 1] == 0x2b || s[k + 1] == 0x2d) {
            k + 2
        } else {
            k + 1
        };
        if j < s.len() && is_digit(s[j]) {
            Some(sp_digits_end(s, j))
        } else {
            None
        }
    } else {
        Some(k)
    }
}

/// A JSON number starting at `i`: optional minus, an integer part without a
/// leading zero, optional fraction and exponent. Returns the bytes consumed.
pub open spec fn sp_number(s: Seq<u8>, i: int) -> Option<nat> {
    let j = if i < s.len() && s[i] == 0x2d {
        i + 1
    } else {
        i
    };
    if j < s.len() && is_digit(s[j]) {
        let k = if s[j] == 0x30 {
            j + 1
        } else {
            sp_digits_end(s, j)
        };
        match sp_frac_end(s, k) {
            Some(k2) => match sp_exp_end(s, k2) {
                Some(k3) => Some((k3 - i) as nat),
                None => None,
            },
            None => None,
        }
    } else {
        None
    }
}

/// Any JSON value starting at `i` (no leading whitespace): the bytes consumed.
pub open spec fn sp_value(s: Seq<u8>, i: int) -> Option<nat>
    decreases s.len() - i, 0int,
{
    if i < s.len() {
        let b = s[i];
        if b == 0x22 {
            match sp_string_body(s, i + 1) {
                Some(dn) => Some((1 + dn.1) as nat),
                None => None,
            }
        } else if b == 0x7b {
            match sp_object_rest(s, i + 1) {
                Some(n) => Some((1 + n) as nat),
                None => None,
            }
        } else if b == 0x5b {
            match sp_array_rest(s, i + 1) {
                Some(n) => Some((1 + n) as nat),
                None => None,
            }
        } else if b == 0x74 {
            if i + 4 <= s.len() && s[i + 1] == 0x72 && s[i + 2] == 0x75 && s[i + 3] == 0x65 {
                Some(4nat)
            } else {
                None
            }
        } else if b == 0x66 {
            if i + 5 <= s.len() && s[i + 1] == 0x61 && s[i + 2] == 0x6c && s[i + 3] == 0x73 && s[i
                + 4] == 0x65 {
                Some(5nat)
            } else {
                None
            }
        } else if b == 0x6e {
            if i + 4 <= s.len() && s[i + 1] == 0x75 && s[i + 2] == 0x6c && s[i + 3] == 0x6c {
                Some(4nat)
            } else {
                None
            }
        } else if b == 0x2d || is_digit(b) {
            sp_number(s, i)
        } else {
            None
        }
    } else {
        None
    }
}

/// The inside of an object just after `{`: either `}` or a first member.
pub open spec fn sp_object_rest(s: Seq<u8>, i: int) -> Option<nat>
    decreases s.len() - i, 1int,
{
    if i < s.len() {
        let b = s[i];
        if is_ws(b) {
            match sp_object_rest(s, i + 1) {
                Some(n) => Some((1 + n) as nat),
                None => None,
            }
        } else if b == 0x7d {
            Some(1nat)
        } else if b == 0x22 {
            match sp_string_body(s, i + 1) {
                Some(kn) => if i + 1 + kn.1 <= s.len() {
                    match sp_member_rest(s, i + 1 + kn.1) {
                        Some(n) => Some((1 + kn.1 + n) as nat),
                        None => None,
                    }
                } else {
                    None
                },
                None => None,
            }
        } else {
            None
        }
    } else {
        None
    }
}

/// After a member key: whitespace, then `:` and the member's value.
pub open spec fn sp_member_rest(s: Seq<u8>, i: int) -> Option<nat>
    decreases s.len() - i, 1int,
{
    if i < s.len() {
        if is_ws(s[i]) {
            match sp_member_rest(s, i + 1) {
                Some(n) => Some((1 + n) as nat),
                None => None,
            }
        } else if s[i] == 0x3a {
            match sp_member_value(s, i + 1) {
                Some(n) => Some((1 + n) as nat),
                None => None,
            }
        } else {
            None
        }
    } else {
        None
    }
}

/// After a member's `:`: whitespace, the value, then the member tail.
pub open spec fn sp_member_value(s: Seq<u8>, i: int) -> Option<nat>
    decreases s.len() - i, 2int,
{
    if i < s.len() {
        if is_ws(s[i]) {
            match sp_member_value(s, i + 1) {
                Some(n) => Some((1 + n) as nat),
                None => None,
            }
        } else {
            match sp_value(s, i) {
                Some(nv) => if 1 <= nv && i + nv <= s.len() {
                    match sp_member_tail(s, i + nv) {
                        Some(n) => Some((nv + n) as nat),
                        None => None,
                    }
                } else {
                    None
                },
                None => None,
            }
        }
    } else {
        None
    }
}

/// After a member's value: whitespace, then `}` or `,` and a further member.
pub open spec fn sp_member_tail(s: Seq<u8>, i: int) -> Option<nat>
    decreases s.len() - i, 1int,
{
    if i < s.len() {
        let b = s[i];
        if is_ws(b) {
            match sp_member_tail(s, i + 1) {
                Some(n) => Some((1 + n) as nat),
                None => None,
            }
        } else if b == 0x7d {
            Some(1nat)
        } else if b == 0x2c {
            match sp_member_key(s, i + 1) {
                Some(n) => Some((1 + n) as nat),
                None => None,
            }
        } else {
            None
        }
    } else {
        None
    }
}

/// After a `,` inside an object: whitespace, then the next member's key.
pub open spec fn sp_member_key(s: Seq<u8>, i: int) -> Option<nat>
    decreases s.len() - i, 1int,
{
    if i < s.len() {
        if is_ws(s[i]) {
            match sp_member_key(s, i + 1) {
                Some(n) => Some((1 + n) as nat),
                None => None,
            }
        } else if s[i] == 0x22 {
            match sp_string_body(s, i + 1) {
                Some(kn) => if i + 1 + kn.1 <= s.len() {
                    match sp_member_rest(s, i + 1 + kn.1) {
                        Some(n) => Some((1 + kn.1 + n) as nat),
                        None => None,
                    }
                } else {
                    None
                },
                None => None,
            }
        } else {
            None
        }
    } else {
        None
    }
}

/// The inside of an array just after `[`: either `]` or a first item.
pub open spec fn sp_array_rest(s: Seq<u8>, i: int) -> Option<nat>
    decreases s.len() - i, 2int,
{
    if i < s.len() {
        if is_ws(s[i]) {
            match sp_array_rest(s, i + 1) {
                Some(n) => Some((1 + n) as nat),
                None => None,
            }
        } else if s[i] == 0x5d {
            Some(1nat)
        } else {
            match sp_value(s, i) {
                Some(nv) => if 1 <= nv && i + nv <= s.len() {
                    match sp_item_tail(s, i + nv) {
                        Some(n) => Some((nv + n) as nat),
                        None => None,
                    }
                } else {
                    None
                },
                None => None,
            }
        }
    } else {
        None
    }
}

/// After an array item: whitespace, then `]` or `,` and a further item.
pub open spec fn sp_item_tail(s: Seq<u8>, i: int) -> Option<nat>
    decreases s.len() - i, 1int,
{
    if i < s.len() {
        let b = s[i];
        if is_ws(b) {
            match sp_item_tail(s, i + 1) {
                Some(n) => Some((1 + n) as nat),
                None => None,
            }
        } else if b == 0x5d {
            Some(1nat)
        } else if b == 0x2c {
            match sp_item(s, i + 1) {
                Some(n) => Some((1 + n) as nat),
                None => None,
            }
        } else {
            None
        }
    } else {
        None
    }
}

/// After a `,` inside an array: whitespace, then the next item's value.
pub open spec fn sp_item(s: Seq<u8>, i: int) -> Option<nat>
    decreases s.len() - i, 2int,
{
    if i < s.len() {
        if is_ws(s[i]) {
            match sp_item(s, i + 1) {
                Some(n) => Some((1 + n) as nat),
                None => None,
            }
        } else {
            match sp_value(s, i) {
                Some(nv) => if 1 <= nv && i + nv <= s.len() {
                    match sp_item_tail(s, i + nv) {
                        Some(n) => Some((nv + n) as nat),
                        None => None,
                    }
                } else {
                    None
                },
                None => None,
            }
        }
    } else {
        None
    }
}

/// The decoded bytes of the member name this library looks for: `path`.
pub open spec fn path_key() -> Seq<u8> {
    seq![0x70u8, 0x61u8, 0x74u8, 0x68u8]
}

/// The inside of the top-level object just after `{`. `acc` carries the
/// decoded `path` value seen so far; the result carries it out, with the
/// bytes consumed. A second `path` member is refused, as is one whose value
/// is not a string.
pub open spec fn sp_top_object_rest(s: Seq<u8>, i: int, acc: Option<Seq<u8>>) -> Option<
    (Option<Seq<u8>>, nat),
>
    decreases s.len() - i,
{
    if i < s.len() {
        let b = s[i];
        if is_ws(b) {
            match sp_top_object_rest(s, i + 1, acc) {
                Some(an) => Some((an.0, (1 + an.1) as nat)),
                None => None,
            }
        } else if b == 0x7d {
            Some((acc, 1nat))
        } else if b == 0x22 {
            match sp_string_body(s, i + 1) {
                Some(kn) => if i + 1 + kn.1 <= s.len() {
                    match sp_top_member_rest(s, i + 1 + kn.1, kn.0, acc) {
                        Some(an) => Some((an.0, (1 + kn.1 + an.1) as nat)),
                        None => None,
                    }
                } else {
                    None
                },
                None => None,
            }
        } else {
            None
        }
    } else {
        None
    }
}

/// After a top-level member key: whitespace, then `:` and the member's value.
pub open spec fn sp_top_member_rest(s: Seq<u8>, i: int, key: Seq<u8>, acc: Option<Seq<u8>>) -> Option<
    (Option<Seq<u8>>, nat),
>
    decreases s.len() - i,
{
    if i < s.len() {
        if is_ws(s[i]) {
            match sp_top_member_rest(s, i + 1, key, acc) {
                Some(an) => Some((an.0, (1 + an.1) as nat)),
                None => None,
            }
        } else if s[i] == 0x3a {
            match sp_top_member_value(s, i + 1, key, acc) {
                Some(an) => Some((an.0, (1 + an.1) as nat)),
                None => None,
            }
        } else {
            None
        }
    } else {
        None
    }
}

/// After a top-level member's `:`. For the `path` member the value must be a
/// string and none may have come before; any other member takes any value.
pub open spec fn sp_top_member_value(s: Seq<u8>, i: int, key: Seq<u8>, acc: Option<Seq<u8>>) -> Option<
    (Option<Seq<u8>>, nat),
>
    decreases s.len() - i,
{
    if i < s.len() {
        if is_ws(s[i]) {
            match sp_top_member_value(s, i + 1, key, acc) {
                Some(an) => Some((an.0, (1 + an.1) as nat)),
                None => None,
            }
        } else if key == path_key() {
            if acc is Some {
                None
            } else if s[i] == 0x22 {
                match sp_string_body(s, i + 1) {
                    Some(vn) => if i + 1 + vn.1 <= s.len() {
                        match sp_top_member_tail(s, i + 1 + vn.1, Some(vn.0)) {
                            Some(an) => Some((an.0, (1 + vn.1 + an.1) as nat)),
                            None => None,
                        }
                    } else {
                        None
                    },
                    None => None,
                }
            } else {
                None
            }
        } else {
            match sp_value(s, i) {
                Some(nv) => if 1 <= nv && i + nv <= s.len() {
                    match sp_top_member_tail(s, i + nv, acc) {
                        Some(an) => Some((an.0, (nv + an.1) as nat)),
                        None => None,
                    }
                } else {
                    None
                },
                None => None,
            }
        }
    } else {
        None
    }
}

/// After a top-level member's value: whitespace, then `}` or `,` and more.
pub open spec fn sp_top_member_tail(s: Seq<u8>, i: int, acc: Option<Seq<u8>>) -> Option<
    (Option<Seq<u8>>, nat),
>
    decreases s.len() - i,
{
    if i < s.len() {
        let b = s[i];
        if is_ws(b) {
            match sp_top_member_tail(s, i + 1, acc) {
                Some(an) => Some((an.0, (1 + an.1) as nat)),
                None => None,
            }
        } else if b == 0x7d {
            Some((acc, 1nat))
        } else if b == 0x2c {
            match sp_top_member_key(s, i + 1, acc) {
                Some(an) => Some((an.0, (1 + an.1) as nat)),
                None => None,
            }
        } else {
            None
        }
    } else {
        None
    }
}

/// After a `,` in the top-level object: whitespace, then the next member.
pub open spec fn sp_top_member_key(s: Seq<u8>, i: int, acc: Option<Seq<u8>>) -> Option<
    (Option<Seq<u8>>, nat),
>
    decreases s.len() - i,
{
    if i < s.len() {
        if is_ws(s[i]) {
            match sp_top_member_key(s, i + 1, acc) {
                Some(an) => Some((an.0, (1 + an.1) as nat)),
                None => None,
            }
        } else if s[i] == 0x22 {
            match sp_string_body(s, i + 1) {
                Some(kn) => if i + 1 + kn.1 <= s.len() {
                    match sp_top_member_rest(s, i + 1 + kn.1, kn.0, acc) {
                        Some(an) => Some((an.0, (1 + kn.1 + an.1) as nat)),
                        None => None,
                    }
                } else {
                    None
                },
                None => None,
            }
        } else {
            None
        }
    } else {
        None
    }
}

/// Only whitespace from `i` to the end of the input.
pub open spec fn sp_all_ws(s: Seq<u8>, i: int) -> bool
    decreases s.len() - i,
{
    if i < s.len() {
        if is_ws(s[i]) {
            sp_all_ws(s, i + 1)
        } else {
            false
        }
    } else {
        true
    }
}

/// The whole body from position `i`: whitespace, the top-level object,
/// trailing whitespace, and a `path` member must have been present.
pub open spec fn sp_body_from(s: Seq<u8>, i: int) -> Option<Seq<u8>>
    decreases s.len() - i,
{
    if i < s.len() {
        if is_ws(s[i]) {
            sp_body_from(s, i + 1)
        } else if s[i] == 0x7b {
            match sp_top_object_rest(s, i + 1, None) {
                Some(an) => if i + 1 + an.1 <= s.len() && sp_all_ws(s, i + 1 + an.1) {
                    an.0
                } else {
                    None
                },
                None => None,
            }
        } else {
            None
        }
    } else {
        None
    }
}

/// What a request body means: `Some` of the decoded `path` value when the
/// body lies in the accepted language, `None` otherwise.
pub open spec fn parsed_path(s: Seq<u8>) -> Option<Seq<u8>> {
    sp_body_from(s, 0)
}

/// The numeric value of a hexadecimal digit.
fn hex_digit_value(b: u8) -> (r: u32)
    requires
        is_hex_digit(b),
    ensures
        r == hex_value(b),
        r <= 15,
{
    if 0x30 <= b && b <= 0x39 {
        (b - 0x30) as u32
    } else if 0x41 <= b && b <= 0x46 {
        (b - 0x41) as u32 + 10
    } else {
        (b - 0x61) as u32 + 10
    }
}

/// Four hexadecimal digits starting at `i`, as a number.
fn read_hex4(s: &Vec<u8>, i: usize) -> (r: Option<u32>)
    requires
        i <= s@.len(),
    ensures
        r == sp_hex4(s@, i as int),
        (r matches Some(c) ==> c <= 0xffff),
{
    if s.len() - i >= 4 {
        let b0 = s[i];
        let b1 = s[i + 1];
        let b2 = s[i + 2];
        let b3 = s[i + 3];
        let h0 = 0x30 <= b0 && b0 <= 0x39 || 0x41 <= b0 && b0 <= 0x46 || 0x61 <= b0 && b0 <= 0x66;
        let h1 = 0x30 <= b1 && b1 <= 0x39 || 0x41 <= b1 && b1 <= 0x46 || 0x61 <= b1 && b1 <= 0x66;
        let h2 = 0x30 <= b2 && b2 <= 0x39 || 0x41 <= b2 && b2 <= 0x46 || 0x61 <= b2 && b2 <= 0x66;
        let h3 = 0x30 <= b3 && b3 <= 0x39 || 0x41 <= b3 && b3 <= 0x46 || 0x61 <= b3 && b3 <= 0x66;
        if h0 && h1 && h2 && h3 {
            Some(
                hex_digit_value(b0) * 0x1000 + hex_digit_value(b1) * 0x100 + hex_digit_value(b2)
                    * 0x10 + hex_digit_value(b3),
            )
        } else {
            None
        }
    } else {
        None
    }
}

/// Append the UTF-8 encoding of a code point.
fn utf8_push(out: &mut Vec<u8>, cp: u32)
    requires
        cp < 0x110000,
    ensures
        final(out)@ == old(out)@ + utf8_encode(cp),
{
    if cp < 0x80 {
        out.push(cp as u8);
    } else if cp < 0x800 {
        assert(cp / 0x40 < 0x20) by (nonlinear_arith)
            requires
                cp < 0x800,
        ;
        out.push((0xc0 + cp / 0x40) as u8);
        out.push((0x80 + cp % 0x40) as u8);
    } else if cp < 0x10000 {
        assert(cp / 0x1000 < 0x10) by (nonlinear_arith)
            requires
                cp < 0x10000,
        ;
        out.push((0xe0 + cp / 0x1000) as u8);
        out.push((0x80 + (cp / 0x40) % 0x40) as u8);
        out.push((0x80 + cp % 0x40) as u8);
    } else {
        assert(cp / 0x40000 < 0x8) by (nonlinear_arith)
            requires
                cp < 0x110000,
        ;
        out.push((0xf0 + cp / 0x40000) as u8);
        out.push((0x80 + (cp / 0x1000) % 0x40) as u8);
        out.push((0x80 + (cp / 0x40) % 0x40) as u8);
        out.push((0x80 + cp % 0x40) as u8);
    }
    assert(out@ =~= old(out)@ + utf8_encode(cp));
}

/// Decode a string body starting at `i`, just after the opening quote,
/// appending the decoded bytes to `out`; returns the count of input bytes
/// consumed, closing quote included.
fn decode_string_body(s: &Vec<u8>, i: usize, out: &mut Vec<u8>) -> (r: Option<usize>)
    requires
        i <= s@.len(),
    ensures
        (match sp_string_body(s@, i as int) {
            Some(dn) => r == Some(dn.1 as usize) && i + dn.1 <= s@.len() && final(out)@ == old(
                out,
            )@ + dn.0,
            None => r is None,
        }),
    decreases s@.len() - i,
{
    if i < s.len() {
        let b = s[i];
        if b == 0x22 {
            Some(1)
        } else if b == 0x5c {
            if i + 1 < s.len() {
                let e = s[i + 1];
                if e == 0x75 {
                    match read_hex4(s, i + 2) {
                        Some(c0) => {
                            if 0xd800 <= c0 && c0 < 0xdc00 {
                                if s.len() - i >= 8 && s[i + 6] == 0x5c && s[i + 7] == 0x75 {
                                    match read_hex4(s, i + 8) {
                                        Some(c1) => {
                                            if 0xdc00 <= c1 && c1 < 0xe000 {
                                                let cp = 0x10000 + (c0 - 0xd800) * 0x400 + (c1
                                                    - 0xdc00);
                                                utf8_push(out, cp);
                                                match decode_string_body(s, i + 12, out) {
                                                    Some(n) => Some(12 + n),
                                                    None => None,
                                                }
                                            } else {
                                                None
                                            }
                                        },
                                        None => None,
                                    }
                                } else {
                                    None
                                }
                            } else if 0xdc00 <= c0 && c0 < 0xe000 {
                                None
                            } else {
                                utf8_push(out, c0);
                                match decode_string_body(s, i + 6, out) {
                                    Some(n) => Some(6 + n),
                                    None => None,
                                }
                            }
                        },
                        None => None,
                    }
                } else {
                    let m: Option<u8> = if e == 0x22 {
                        Some(0x22)
                    } else if e == 0x5c {
                        Some(0x5c)
                    } else if e == 0x2f {
                        Some(0x2f)
                    } else if e == 0x62 {
                        Some(0x08)
                    } else if e == 0x66 {
                        Some(0x0c)
                    } else if e == 0x6e {
                        Some(0x0a)
                    } else if e == 0x72 {
                        Some(0x0d)
                    } else if e == 0x74 {
                        Some(0x09)
                    } else {
                        None
                    };
                    match m {
                        Some(mb) => {
                            out.push(mb);
                            match decode_string_body(s, i + 2, out) {
                                Some(n) => Some(2 + n),
                                None => None,
                            }
                        },
                        None => None,
                    }
                }
            } else {
                None
            }
        } else if b < 0x20 {
            None
        } else {
            out.push(b);
            match decode_string_body(s, i + 1, out) {
                Some(n) => Some(1 + n),
                None => None,
            }
        }
    } else {
        None
    }
}

/// The first position at or after `i` that does not hold a decimal digit.
fn scan_digits(s: &Vec<u8>, i: usize) -> (r: usize)
    requires
        i <= s@.len(),
    ensures
        r == sp_digits_end(s@, i as int),
        i <= r <= s@.len(),
    decreases s@.len() - i,
{
    if i < s.len() {
        let b = s[i];
        if 0x30 <= b && b <= 0x39 {
            scan_digits(s, i + 1)
        } else {
            i
        }
    } else {
        i
    }
}

/// A JSON number starting at `i`; returns the bytes consumed.
fn scan_number(s: &Vec<u8>, i: usize) -> (r: Option<usize>)
    requires
        i <= s@.len(),
    ensures
        (match sp_number(s@, i as int) {
            Some(n) => r == Some(n as usize) && i + n <= s@.len(),
            None => r is None,
        }),
{
    let j: usize = if i < s.len() && s[i] == 0x2d {
        i + 1
    } else {
        i
    };
    if j < s.len() {
        let b = s[j];
        if 0x30 <= b && b <= 0x39 {
            let k: usize = if b == 0x30 {
                j + 1
            } else {
                scan_digits(s, j)
            };
            let k2: usize = if k < s.len() && s[k] == 0x2e {
                if k + 1 < s.len() {
                    let d = s[k + 1];
                    if 0x30 <= d && d <= 0x39 {
                        scan_digits(s, k + 1)
                    } else {
                        return None;
                    }
                } else {
                    return None;
                }
            } else {
                k
            };
            if k2 < s.len() && (s[k2] == 0x65 || s[k2] == 0x45) {
                let j2: usize = if k2 + 1 < s.len() && (s[k2 + 1] == 0x2b || s[k2 + 1] == 0x2d) {
                    k2 + 2
                } else {
                    k2 + 1
                };
                if j2 < s.len() {
                    let d = s[j2];
                    if 0x30 <= d && d <= 0x39 {
                        let k3 = scan_digits(s, j2);
                        Some(k3 - i)
                    } else {
                        None
                    }
                } else {
                    None
                }
            } else {
                Some(k2 - i)
            }
        } else {
            None
        }
    } else {
        None
    }
}

/// Any JSON value starting at `i`; returns the bytes consumed.
fn scan_value(s: &Vec<u8>, i: usize) -> (r: Option<usize>)
    requires
        i <= s@.len(),
    ensures
        (match sp_value(s@, i as int) {
            Some(n) => r == Some(n as usize) && i + n <= s@.len(),
            None => r is None,
        }),
    decreases s@.len() - i, 0int,
{
    if i < s.len() {
        let b = s[i];
        if b == 0x22 {
            let mut scratch: Vec<u8> = Vec::new();
            match decode_string_body(s, i + 1, &mut scratch) {
                Some(n) => Some(1 + n),
                None => None,
            }
        } else if b == 0x7b {
            match scan_object_rest(s, i + 1) {
                Some(n) => Some(1 + n),
                None => None,
            }
        } else if b == 0x5b {
            match scan_array_rest(s, i + 1) {
                Some(n) => Some(1 + n),
                None => None,
            }
        } else if b == 0x74 {
            if s.len() - i >= 4 && s[i + 1] == 0x72 && s[i + 2] == 0x75 && s[i + 3] == 0x65 {
                Some(4)
            } else {
                None
            }
        } else if b == 0x66 {
            if s.len() - i >= 5 && s[i + 1] == 0x61 && s[i + 2] == 0x6c && s[i + 3] == 0x73 && s[i
                + 4] == 0x65 {
                Some(5)
            } else {
                None
            }
        } else if b == 0x6e {
            if s.len() - i >= 4 && s[i + 1] == 0x75 && s[i + 2] == 0x6c && s[i + 3] == 0x6c {
                Some(4)
            } else {
                None
            }
        } else if b == 0x2d || 0x30 <= b && b <= 0x39 {
            scan_number(s, i)
        } else {
            None
        }
    } else {
        None
    }
}

/// The inside of an object just after `{`.
fn scan_object_rest(s: &Vec<u8>, i: usize) -> (r: Option<usize>)
    requires
        i <= s@.len(),
    ensures
        (match sp_object_rest(s@, i as int) {
            Some(n) => r == Some(n as usize) && i + n <= s@.len(),
            None => r is None,
        }),
    decreases s@.len() - i, 1int,
{
    if i < s.len() {
        let b = s[i];
        if b == 0x20 || b == 0x09 || b == 0x0a || b == 0x0d {
            match scan_object_rest(s, i + 1) {
                Some(n) => Some(1 + n),
                None => None,
            }
        } else if b == 0x7d {
            Some(1)
        } else if b == 0x22 {
            let mut scratch: Vec<u8> = Vec::new();
            match decode_string_body(s, i + 1, &mut scratch) {
                Some(nk) => {
                    match scan_member_rest(s, i + 1 + nk) {
                        Some(n) => Some(1 + nk + n),
                        None => None,
                    }
                },
                None => None,
            }
        } else {
            None
        }
    } else {
        None
    }
}

/// After a member key: whitespace, then `:` and the member's value.
fn scan_member_rest(s: &Vec<u8>, i: usize) -> (r: Option<usize>)
    requires
        i <= s@.len(),
    ensures
        (match sp_member_rest(s@, i as int) {
            Some(n) => r == Some(n as usize) && i + n <= s@.len(),
            None => r is None,
        }),
    decreases s@.len() - i, 1int,
{
    if i < s.len() {
        let b = s[i];
        if b == 0x20 || b == 0x09 || b == 0x0a || b == 0x0d {
            match scan_member_rest(s, i + 1) {
                Some(n) => Some(1 + n),
                None => None,
            }
        } else if b == 0x3a {
            match scan_member_value(s, i + 1) {
                Some(n) => Some(1 + n),
                None => None,
            }
        } else {
            None
        }
    } else {
        None
    }
}

/// After a member's `:`: whitespace, the value, then the member tail.
fn scan_member_value(s: &Vec<u8>, i: usize) -> (r: Option<usize>)
    requires
        i <= s@.len(),
    ensures
        (match sp_member_value(s@, i as int) {
            Some(n) => r == Some(n as usize) && i + n <= s@.len(),
            None => r is None,
        }),
    decreases s@.len() - i, 2int,
{
    if i < s.len() {
        let b = s[i];
        if b == 0x20 || b == 0x09 || b == 0x0a || b == 0x0d {
            match scan_member_value(s, i + 1) {
                Some(n) => Some(1 + n),
                None => None,
            }
        } else {
            match scan_value(s, i) {
                Some(nv) => {
                    if 1 <= nv {
                        match scan_member_tail(s, i + nv) {
                            Some(n) => Some(nv + n),
                            None => None,
                        }
                    } else {
                        None
                    }
                },
                None => None,
            }
        }
    } else {
        None
    }
}

/// After a member's value: whitespace, then `}` or `,` and a further member.
fn scan_member_tail(s: &Vec<u8>, i: usize) -> (r: Option<usize>)
    requires
        i <= s@.len(),
    ensures
        (match sp_member_tail(s@, i as int) {
            Some(n) => r == Some(n as usize) && i + n <= s@.len(),
            None => r is None,
        }),
    decreases s@.len() - i, 1int,
{
    if i < s.len() {
        let b = s[i];
        if b == 0x20 || b == 0x09 || b == 0x0a || b == 0x0d {
            match scan_member_tail(s, i + 1) {
                Some(n) => Some(1 + n),
                None => None,
            }
        } else if b == 0x7d {
            Some(1)
        } else if b == 0x2c {
            match scan_member_key(s, i + 1) {
                Some(n) => Some(1 + n),
                None => None,
            }
        } else {
            None
        }
    } else {
        None
    }
}

/// After a `,` inside an object: whitespace, then the next member's key.
fn scan_member_key(s: &Vec<u8>, i: usize) -> (r: Option<usize>)
    requires
        i <= s@.len(),
    ensures
        (match sp_member_key(s@, i as int) {
            Some(n) => r == Some(n as usize) && i + n <= s@.len(),
            None => r is None,
        }),
    decreases s@.len() - i, 1int,
{
    if i < s.len() {
        let b = s[i];
        if b == 0x20 || b == 0x09 || b == 0x0a || b == 0x0d {
            match scan_member_key(s, i + 1) {
                Some(n) => Some(1 + n),
                None => None,
            }
        } else if b == 0x22 {
            let mut scratch: Vec<u8> = Vec::new();
            match decode_string_body(s, i + 1, &mut scratch) {
                Some(nk) => {
                    match scan_member_rest(s, i + 1 + nk) {
                        Some(n) => Some(1 + nk + n),
                        None => None,
                    }
                },
                None => None,
            }
        } else {
            None
        }
    } else {
        None
    }
}

/// The inside of an array just after `[`.
fn scan_array_rest(s: &Vec<u8>, i: usize) -> (r: Option<usize>)
    requires
        i <= s@.len(),
    ensures
        (match sp_array_rest(s@, i as int) {
            Some(n) => r == Some(n as usize) && i + n <= s@.len(),
            None => r is None,
        }),
    decreases s@.len() - i, 2int,
{
    if i < s.len() {
        let b = s[i];
        if b == 0x20 || b == 0x09 || b == 0x0a || b == 0x0d {
            match scan_array_rest(s, i + 1) {
                Some(n) => Some(1 + n),
                None => None,
            }
        } else if b == 0x5d {
            Some(1)
        } else {
            match scan_value(s, i) {
                Some(nv) => {
                    if 1 <= nv {
                        match scan_item_tail(s, i + nv) {
                            Some(n) => Some(nv + n),
                            None => None,
                        }
                    } else {
                        None
                    }
                },
                None => None,
            }
        }
    } else {
        None
    }
}

/// After an array item: whitespace, then `]` or `,` and a further item.
fn scan_item_tail(s: &Vec<u8>, i: usize) -> (r: Option<usize>)
    requires
        i <= s@.len(),
    ensures
        (match sp_item_tail(s@, i as int) {
            Some(n) => r == Some(n as usize) && i + n <= s@.len(),
            None => r is None,
        }),
    decreases s@.len() - i, 1int,
{
    if i < s.len() {
        let b = s[i];
        if b == 0x20 || b == 0x09 || b == 0x0a || b == 0x0d {
            match scan_item_tail(s, i + 1) {
                Some(n) => Some(1 + n),
                None => None,
            }
        } else if b == 0x5d {
            Some(1)
        } else if b == 0x2c {
            match scan_item(s, i + 1) {
                Some(n) => Some(1 + n),
                None => None,
            }
        } else {
            None
        }
    } else {
        None
    }
}

/// After a `,` inside an array: whitespace, then the next item's value.
fn scan_item(s: &Vec<u8>, i: usize) -> (r: Option<usize>)
    requires
        i <= s@.len(),
    ensures
        (match sp_item(s@, i as int) {
            Some(n) => r == Some(n as usize) && i + n <= s@.len(),
            None => r is None,
        }),
    decreases s@.len() - i, 2int,
{
    if i < s.len() {
        let b = s[i];
        if b == 0x20 || b == 0x09 || b == 0x0a || b == 0x0d {
            match scan_item(s, i + 1) {
                Some(n) => Some(1 + n),
                None => None,
            }
        } else {
            match scan_value(s, i) {
                Some(nv) => {
                    if 1 <= nv {
                        match scan_item_tail(s, i + nv) {
                            Some(n) => Some(nv + n),
                            None => None,
                        }
                    } else {
                        None
                    }
                },
                None => None,
            }
        }
    } else {
        None
    }
}

/// Whether the decoded bytes of a member key read `path`.
fn is_path_key(key: &Vec<u8>) -> (r: bool)
    ensures
        r == (key@ == path_key()),
{
    if key.len() == 4 {
        let r = key[0] == 0x70 && key[1] == 0x61 && key[2] == 0x74 && key[3] == 0x68;
        proof {
            if r {
                assert(key@ =~= path_key());
            }
        }
        r
    } else {
        false
    }
}

/// The inside of the top-level object just after `{`, filling `path` with
/// the decoded `path` value when one is found.
fn top_object_rest(s: &Vec<u8>, i: usize, path: &mut Option<Vec<u8>>) -> (r: Option<usize>)
    requires
        i <= s@.len(),
    ensures
        (match sp_top_object_rest(s@, i as int, opt_view(*old(path))) {
            Some(an) => r == Some(an.1 as usize) && i + an.1 <= s@.len() && opt_view(*final(path))
                == an.0,
            None => r is None,
        }),
    decreases s@.len() - i,
{
    if i < s.len() {
        let b = s[i];
        if b == 0x20 || b == 0x09 || b == 0x0a || b == 0x0d {
            match top_object_rest(s, i + 1, path) {
                Some(n) => Some(1 + n),
                None => None,
            }
        } else if b == 0x7d {
            Some(1)
        } else if b == 0x22 {
            let mut key: Vec<u8> = Vec::new();
            match decode_string_body(s, i + 1, &mut key) {
                Some(nk) => {
                    match top_member_rest(s, i + 1 + nk, &key, path) {
                        Some(n) => Some(1 + nk + n),
                        None => None,
                    }
                },
                None => None,
            }
        } else {
            None
        }
    } else {
        None
    }
}

/// After a top-level member key: whitespace, then `:` and the value.
fn top_member_rest(s: &Vec<u8>, i: usize, key: &Vec<u8>, path: &mut Option<Vec<u8>>) -> (r: Option<
    usize,
>)
    requires
        i <= s@.len(),
    ensures
        (match sp_top_member_rest(s@, i as int, key@, opt_view(*old(path))) {
            Some(an) => r == Some(an.1 as usize) && i + an.1 <= s@.len() && opt_view(*final(path))
                == an.0,
            None => r is None,
        }),
    decreases s@.len() - i,
{
    if i < s.len() {
        let b = s[i];
        if b == 0x20 || b == 0x09 || b == 0x0a || b == 0x0d {
            match top_member_rest(s, i + 1, key, path) {
                Some(n) => Some(1 + n),
                None => None,
            }
        } else if b == 0x3a {
            match top_member_value(s, i + 1, key, path) {
                Some(n) => Some(1 + n),
                None => None,
            }
        } else {
            None
        }
    } else {
        None
    }
}

/// After a top-level member's `:`: the `path` member must hold a string and
/// must not repeat; any other member may hold any value.
fn top_member_value(s: &Vec<u8>, i: usize, key: &Vec<u8>, path: &mut Option<Vec<u8>>) -> (r: Option<
    usize,
>)
    requires
        i <= s@.len(),
    ensures
        (match sp_top_member_value(s@, i as int, key@, opt_view(*old(path))) {
            Some(an) => r == Some(an.1 as usize) && i + an.1 <= s@.len() && opt_view(*final(path))
                == an.0,
            None => r is None,
        }),
    decreases s@.len() - i,
{
    if i < s.len() {
        let b = s[i];
        if b == 0x20 || b == 0x09 || b == 0x0a || b == 0x0d {
            match top_member_value(s, i + 1, key, path) {
                Some(n) => Some(1 + n),
                None => None,
            }
        } else if is_path_key(key) {
            if path.is_some() {
                None
            } else if b == 0x22 {
                let mut value: Vec<u8> = Vec::new();
                match decode_string_body(s, i + 1, &mut value) {
                    Some(nv) => {
                        *path = Some(value);
                        match top_member_tail(s, i + 1 + nv, path) {
                            Some(n) => Some(1 + nv + n),
                            None => None,
                        }
                    },
                    None => None,
                }
            } else {
                None
            }
        } else {
            match scan_value(s, i) {
                Some(nv) => {
                    if 1 <= nv {
                        match top_member_tail(s, i + nv, path) {
                            Some(n) => Some(nv + n),
                            None => None,
                        }
                    } else {
                        None
                    }
                },
                None => None,
            }
        }
    } else {
        None
    }
}

/// After a top-level member's value: whitespace, then `}` or `,` and more.
fn top_member_tail(s: &Vec<u8>, i: usize, path: &mut Option<Vec<u8>>) -> (r: Option<usize>)
    requires
        i <= s@.len(),
    ensures
        (match sp_top_member_tail(s@, i as int, opt_view(*old(path))) {
            Some(an) => r == Some(an.1 as usize) && i + an.1 <= s@.len() && opt_view(*final(path))
                == an.0,
            None => r is None,
        }),
    decreases s@.len() - i,
{
    if i < s.len() {
        let b = s[i];
        if b == 0x20 || b == 0x09 || b == 0x0a || b == 0x0d {
            match top_member_tail(s, i + 1, path) {
                Some(n) => Some(1 + n),
                None => None,
            }
        } else if b == 0x7d {
            Some(1)
        } else if b == 0x2c {
            match top_member_key(s, i + 1, path) {
                Some(n) => Some(1 + n),
                None => None,
            }
        } else {
            None
        }
    } else {
        None
    }
}

/// After a `,` in the top-level object: whitespace, then the next member.
fn top_member_key(s: &Vec<u8>, i: usize, path: &mut Option<Vec<u8>>) -> (r: Option<usize>)
    requires
        i <= s@.len(),
    ensures
        (match sp_top_member_key(s@, i as int, opt_view(*old(path))) {
            Some(an) => r == Some(an.1 as usize) && i + an.1 <= s@.len() && opt_view(*final(path))
                == an.0,
            None => r is None,
        }),
    decreases s@.len() - i,
{
    if i < s.len() {
        let b = s[i];
        if b == 0x20 || b == 0x09 || b == 0x0a || b == 0x0d {
            match top_member_key(s, i + 1, path) {
                Some(n) => Some(1 + n),
                None => None,
            }
        } else if b == 0x22 {
            let mut key: Vec<u8> = Vec::new();
            match decode_string_body(s, i + 1, &mut key) {
                Some(nk) => {
                    match top_member_rest(s, i + 1 + nk, &key, path) {
                        Some(n) => Some(1 + nk + n),
                        None => None,
                    }
                },
                None => None,
            }
        } else {
            None
        }
    } else {
        None
    }
}

/// The bytes held by an optional buffer.
pub open spec fn opt_view(o: Option<Vec<u8>>) -> Option<Seq<u8>> {
    match o {
        Some(v) => Some(v@),
        None => None,
    }
}

/// Only whitespace from `i` to the end of the input.
fn ws_only(s: &Vec<u8>, i: usize) -> (r: bool)
    requires
        i <= s@.len(),
    ensures
        r == sp_all_ws(s@, i as int),
    decreases s@.len() - i,
{
    if i < s.len() {
        let b = s[i];
        if b == 0x20 || b == 0x09 || b == 0x0a || b == 0x0d {
            ws_only(s, i + 1)
        } else {
            false
        }
    } else {
        true
    }
}

/// The whole body from position `i`.
fn parse_from(s: &Vec<u8>, i: usize) -> (r: Option<Vec<u8>>)
    requires
        i <= s@.len(),
    ensures
        (match sp_body_from(s@, i as int) {
            Some(p) => r matches Some(v) && v@ == p,
            None => r is None,
        }),
    decreases s@.len() - i,
{
    if i < s.len() {
        let b = s[i];
        if b == 0x20 || b == 0x09 || b == 0x0a || b == 0x0d {
            parse_from(s, i + 1)
        } else if b == 0x7b {
            let mut path: Option<Vec<u8>> = None;
            match top_object_rest(s, i + 1, &mut path) {
                Some(n) => {
                    if ws_only(s, i + 1 + n) {
                        path
                    } else {
                        None
                    }
                },
                None => None,
            }
        } else {
            None
        }
    } else {
        None
    }
}

/// Parse a request body: `Some` of the decoded `path` value when the body
/// lies in the accepted language, `None` otherwise.
pub fn parse_body(s: &Vec<u8>) -> (r: Option<Vec<u8>>)
    ensures
        (match parsed_path(s@) {
            Some(p) => r matches Some(v) && v@ == p,
            None => r is None,
        }),
{
    parse_from(s, 0)
}

/// A byte that stands for itself inside a JSON string: no control byte,
/// not the quote, not the backslash.
pub open spec fn plain_str_byte(b: u8) -> bool {
    0x20 <= b && b != 0x22 && b != 0x5c
}

/// Every byte of `p` stands for itself inside a JSON string.
pub open spec fn all_plain(p: Seq<u8>) -> bool {
    forall|k: int| 0 <= k < p.len() ==> plain_str_byte(#[trigger] p[k])
}

/// The canonical body naming the path `p`: `{"path":"` then `p` then `"}`.
pub open spec fn canonical_body(p: Seq<u8>) -> Seq<u8> {
    seq![0x7bu8, 0x22u8, 0x70u8, 0x61u8, 0x74u8, 0x68u8, 0x22u8, 0x3au8, 0x22u8] + p + seq![
        0x22u8,
        0x7du8,
    ]
}

/// A run of plain bytes closed by a quote reads back as itself.
proof fn lemma_plain_string_body(s: Seq<u8>, i: int, j: int)
    requires
        0 <= i <= j < s.len(),
        s[j] == 0x22,
        forall|k: int| i <= k < j ==> plain_str_byte(#[trigger] s[k]),
    ensures
        sp_string_body(s, i) == Some((s.subrange(i, j), (j - i + 1) as nat)),
    decreases j - i,
{
    if i == j {
        assert(s.subrange(i, j) =~= Seq::<u8>::empty());
    } else {
        lemma_plain_string_body(s, i + 1, j);
        assert(s.subrange(i, j) =~= seq![s[i]] + s.subrange(i + 1, j));
    }
}

/// Every canonical body lies in the accepted language, and its meaning is
/// exactly its path: `parsed_path({"path":"<p>"}) == Some(p)` for every
/// path `p` of plain string bytes.
pub proof fn lemma_canonical_body_parses(p: Seq<u8>)
    requires
        all_plain(p),
    ensures
        parsed_path(canonical_body(p)) == Some(p),
{
    let s = canonical_body(p);
    let n = p.len() as int;
    assert(s.len() == 11 + n);
    assert(s[0] == 0x7b);
    assert(s[1] == 0x22);
    assert(s[6] == 0x22);
    assert(s[7] == 0x3a);
    assert(s[8] == 0x22);
    assert(s[9 + n] == 0x22);
    assert(s[10 + n] == 0x7d);
    assert(forall|k: int| 9 <= k < 9 + n ==> #[trigger] s[k] == p[k - 9]);
    lemma_plain_string_body(s, 2, 6);
    assert(s.subrange(2, 6) =~= path_key());
    lemma_plain_string_body(s, 9, 9 + n);
    assert(s.subrange(9, 9 + n) =~= p);
    assert(sp_top_member_tail(s, 10 + n, Some(p)) == Some((Some(p), 1nat)));
    assert(sp_top_member_value(s, 8, path_key(), None) == Some((Some(p), (n + 3) as nat)));
    assert(sp_top_member_rest(s, 7, path_key(), None) == Some((Some(p), (n + 4) as nat)));
    assert(sp_top_object_rest(s, 1, None) == Some((Some(p), (n + 10) as nat)));
    assert(sp_all_ws(s, 11 + n));
    assert(sp_body_from(s, 0) == Some(p));
}

} // verus!
