//! The JSON bodies of create and update requests, parsed and checked
//! before any domain logic runs.
//!
//! The accepted grammar is stated exactly by the spec functions below:
//! one object, with whitespace allowed between tokens and nothing but
//! whitespace around it. Its `"name"` and `"description"` members —
//! each at most once, in any order — must be valued by a string or
//! `null`; any other member is read over and dropped, whatever JSON
//! value it carries. Strings decode the standard escapes
//! (`\" \\ \/ \b \f \n \r \t` and `\uXXXX`, a supplementary-plane
//! character written as a high surrogate followed by a low one); a
//! lone surrogate, a bare `\`, or a raw control character makes the
//! body malformed. A creation body must carry a non-null `"name"`.

use vstd::prelude::*;
use vstd::string::StringExecFns;
use vstd::string::StrSliceExecFns;
use crate::config::is_dec_digit;
use crate::errors::ApiError;
use crate::item::CreateItemRequest;
use crate::item::CreateModel;
use crate::item::Item;
use crate::item::UpdateItemRequest;
use crate::item::UpdateModel;
use crate::store::ItemStore;

verus! {

/// True when `c` is JSON whitespace.
pub open spec fn is_json_ws(c: char) -> bool {
    c == ' ' || c == '\t' || c == '\n' || c == '\r'
}

/// The first position at or after `i` that does not hold whitespace
/// (the length of `s` when only whitespace remains).
pub open spec fn skip_ws(s: Seq<char>, i: int) -> int
    decreases s.len() - i,
{
    if 0 <= i < s.len() && is_json_ws(s[i]) {
        skip_ws(s, i + 1)
    } else {
        i
    }
}

/// True when `c` introduces one of the single-character escapes.
pub open spec fn is_simple_escape(c: char) -> bool {
    c == '"' || c == '\\' || c == '/' || c == 'b' || c == 'f' || c == 'n' || c == 'r' || c == 't'
}

/// The character a single-character escape stands for.
pub open spec fn simple_escape_char(c: char) -> char {
    if c == 'b' {
        '\u{8}'
    } else if c == 'f' {
        '\u{c}'
    } else if c == 'n' {
        '\n'
    } else if c == 'r' {
        '\r'
    } else if c == 't' {
        '\t'
    } else {
        c
    }
}

/// True when `c` is a hexadecimal digit.
pub open spec fn is_hex_digit(c: char) -> bool {
    (48 <= c as u32 && c as u32 <= 57) || (97 <= c as u32 && c as u32 <= 102) || (65 <= c as u32
        && c as u32 <= 70)
}

/// The value of a hexadecimal digit.
pub open spec fn hex_digit_val(c: char) -> int {
    if 48 <= c as u32 && c as u32 <= 57 {
        c as u32 - 48
    } else if 97 <= c as u32 && c as u32 <= 102 {
        c as u32 - 87
    } else {
        c as u32 - 55
    }
}

/// True when the four characters at `i` are hexadecimal digits.
pub open spec fn hex4_at(s: Seq<char>, i: int) -> bool {
    is_hex_digit(s[i]) && is_hex_digit(s[i + 1]) && is_hex_digit(s[i + 2]) && is_hex_digit(
        s[i + 3],
    )
}

/// The value of the four hexadecimal digits at `i`.
pub open spec fn hex4_val(s: Seq<char>, i: int) -> int {
    hex_digit_val(s[i]) * 4096 + hex_digit_val(s[i + 1]) * 256 + hex_digit_val(s[i + 2]) * 16
        + hex_digit_val(s[i + 3])
}

/// True when `v` names a high (leading) surrogate.
pub open spec fn is_high_surrogate(v: int) -> bool {
    0xD800 <= v <= 0xDBFF
}

/// True when `v` names a low (trailing) surrogate.
pub open spec fn is_low_surrogate(v: int) -> bool {
    0xDC00 <= v <= 0xDFFF
}

/// The scalar a surrogate pair stands for.
pub open spec fn surrogate_scalar(high: int, low: int) -> int {
    0x10000 + (high - 0xD800) * 0x400 + (low - 0xDC00)
}

/// The decoded characters of a string value whose contents start at
/// `i`, and the position behind its closing quote; nothing when the
/// value holds a bare `\`, a lone surrogate, a raw control character,
/// or never closes.
pub open spec fn text_at(s: Seq<char>, i: int) -> Option<(Seq<char>, int)>
    decreases s.len() - i,
{
    if !(0 <= i < s.len()) {
        None
    } else if s[i] == '"' {
        Some((Seq::empty(), i + 1))
    } else if s[i] == '\\' {
        if i + 1 < s.len() && is_simple_escape(s[i + 1]) {
            match text_at(s, i + 2) {
                Some(t) => Some((seq![simple_escape_char(s[i + 1])] + t.0, t.1)),
                None => None,
            }
        } else if i + 5 < s.len() && s[i + 1] == 'u' && hex4_at(s, i + 2) {
            if is_high_surrogate(hex4_val(s, i + 2)) {
                if i + 11 < s.len() && s[i + 6] == '\\' && s[i + 7] == 'u' && hex4_at(s, i + 8)
                    && is_low_surrogate(hex4_val(s, i + 8)) {
                    match text_at(s, i + 12) {
                        Some(t) => Some(
                            (
                                seq![
                                    ((surrogate_scalar(hex4_val(s, i + 2), hex4_val(s, i + 8))
                                        as u32) as char)
                                ] + t.0,
                                t.1,
                            ),
                        ),
                        None => None,
                    }
                } else {
                    None
                }
            } else if is_low_surrogate(hex4_val(s, i + 2)) {
                None
            } else {
                match text_at(s, i + 6) {
                    Some(t) => Some((seq![((hex4_val(s, i + 2) as u32) as char)] + t.0, t.1)),
                    None => None,
                }
            }
        } else {
            None
        }
    } else if (s[i] as u32) < 32 {
        None
    } else {
        match text_at(s, i + 1) {
            Some(t) => Some((seq![s[i]] + t.0, t.1)),
            None => None,
        }
    }
}

/// The position behind the closing quote of a string read over without
/// decoding (inside a dropped member): escapes are checked for shape —
/// `\` plus one of the eight, or `\u` plus four hexadecimal digits —
/// but not for surrogate pairing.
pub open spec fn skip_text_end(s: Seq<char>, i: int) -> Option<int>
    decreases s.len() - i,
{
    if !(0 <= i < s.len()) {
        None
    } else if s[i] == '"' {
        Some(i + 1)
    } else if s[i] == '\\' {
        if i + 1 < s.len() && is_simple_escape(s[i + 1]) {
            skip_text_end(s, i + 2)
        } else if i + 5 < s.len() && s[i + 1] == 'u' && hex4_at(s, i + 2) {
            skip_text_end(s, i + 6)
        } else {
            None
        }
    } else if (s[i] as u32) < 32 {
        None
    } else {
        skip_text_end(s, i + 1)
    }
}

/// The first position at or after `i` that does not hold a decimal
/// digit.
pub open spec fn digits_end(s: Seq<char>, i: int) -> int
    decreases s.len() - i,
{
    if 0 <= i < s.len() && is_dec_digit(s[i]) {
        digits_end(s, i + 1)
    } else {
        i
    }
}

/// The position behind an optional exponent part starting at `j`.
pub open spec fn exp_part(s: Seq<char>, j: int) -> Option<int> {
    if 0 <= j < s.len() && (s[j] == 'e' || s[j] == 'E') {
        let k = if j + 1 < s.len() && (s[j + 1] == '+' || s[j + 1] == '-') {
            j + 2
        } else {
            j + 1
        };
        if k < s.len() && is_dec_digit(s[k]) {
            Some(digits_end(s, k))
        } else {
            None
        }
    } else {
        Some(j)
    }
}

/// The position behind a JSON number starting at `i`: an optional
/// minus, an integer part without a leading zero, an optional fraction
/// and an optional exponent.
pub open spec fn number_end(s: Seq<char>, i: int) -> Option<int> {
    let start = if 0 <= i < s.len() && s[i] == '-' {
        i + 1
    } else {
        i
    };
    if !(0 <= start < s.len() && is_dec_digit(s[start])) {
        None
    } else {
        let int_end = if s[start] == '0' {
            start + 1
        } else {
            digits_end(s, start)
        };
        if int_end < s.len() && is_dec_digit(s[int_end]) {
            None
        } else if int_end < s.len() && s[int_end] == '.' {
            if int_end + 1 < s.len() && is_dec_digit(s[int_end + 1]) {
                exp_part(s, digits_end(s, int_end + 1))
            } else {
                None
            }
        } else {
            exp_part(s, int_end)
        }
    }
}

/// The position behind one JSON value starting at `i`, read over
/// without decoding (a dropped member's value). `fuel` bounds the
/// reading; the callers hand in one unit more than the characters
/// left, which covers any value that fits in them.
pub open spec fn skip_value(s: Seq<char>, i: int, fuel: int) -> Option<int>
    decreases fuel,
{
    if fuel <= 0 {
        None
    } else if !(0 <= i < s.len()) {
        None
    } else if s[i] == '"' {
        skip_text_end(s, i + 1)
    } else if s[i] == '{' {
        skip_object_rest(s, skip_ws(s, i + 1), fuel - 1)
    } else if s[i] == '[' {
        skip_array_rest(s, skip_ws(s, i + 1), fuel - 1)
    } else if i + 4 <= s.len() && s[i] == 'n' && s[i + 1] == 'u' && s[i + 2] == 'l' && s[i + 3]
        == 'l' {
        Some(i + 4)
    } else if i + 4 <= s.len() && s[i] == 't' && s[i + 1] == 'r' && s[i + 2] == 'u' && s[i + 3]
        == 'e' {
        Some(i + 4)
    } else if i + 5 <= s.len() && s[i] == 'f' && s[i + 1] == 'a' && s[i + 2] == 'l' && s[i + 3]
        == 's' && s[i + 4] == 'e' {
        Some(i + 5)
    } else {
        number_end(s, i)
    }
}

/// The position behind the `}` closing an object whose members (or
/// closing brace) start at `i`.
pub open spec fn skip_object_rest(s: Seq<char>, i: int, fuel: int) -> Option<int>
    decreases fuel,
{
    if fuel <= 0 {
        None
    } else if !(0 <= i < s.len()) {
        None
    } else if s[i] == '}' {
        Some(i + 1)
    } else if s[i] == '"' {
        match skip_text_end(s, i + 1) {
            None => None,
            Some(key_end) => {
                let k = skip_ws(s, key_end);
                if !(k < s.len() && s[k] == ':') {
                    None
                } else {
                    match skip_value(s, skip_ws(s, k + 1), fuel - 1) {
                        None => None,
                        Some(value_end) => {
                            let e = skip_ws(s, value_end);
                            if e < s.len() && s[e] == ',' {
                                skip_object_rest(s, skip_ws(s, e + 1), fuel - 1)
                            } else if e < s.len() && s[e] == '}' {
                                Some(e + 1)
                            } else {
                                None
                            }
                        },
                    }
                }
            },
        }
    } else {
        None
    }
}

/// The position behind the `]` closing an array whose elements (or
/// closing bracket) start at `i`.
pub open spec fn skip_array_rest(s: Seq<char>, i: int, fuel: int) -> Option<int>
    decreases fuel,
{
    if fuel <= 0 {
        None
    } else if !(0 <= i < s.len()) {
        None
    } else if s[i] == ']' {
        Some(i + 1)
    } else {
        match skip_value(s, i, fuel - 1) {
            None => None,
            Some(value_end) => {
                let e = skip_ws(s, value_end);
                if e < s.len() && s[e] == ',' {
                    skip_array_rest(s, skip_ws(s, e + 1), fuel - 1)
                } else if e < s.len() && s[e] == ']' {
                    Some(e + 1)
                } else {
                    None
                }
            },
        }
    }
}

/// The member value starting at `i`: a decoded string or `null`, and
/// the position behind it; nothing when neither stands there.
pub open spec fn value_at(s: Seq<char>, i: int) -> Option<(Option<Seq<char>>, int)> {
    if 0 <= i < s.len() && s[i] == '"' {
        match text_at(s, i + 1) {
            Some(t) => Some((Some(t.0), t.1)),
            None => None,
        }
    } else if 0 <= i && i + 4 <= s.len() && s[i] == 'n' && s[i + 1] == 'u' && s[i + 2] == 'l'
        && s[i + 3] == 'l' {
        Some((None, i + 4))
    } else {
        None
    }
}

/// The object member starting at `i`: its decoded key tagged as
/// `"name"`, `"description"` or other — another member's value, any
/// JSON value, is read over and dropped — with the known member's
/// value and the position behind the member.
pub open spec fn member_at(s: Seq<char>, i: int) -> Option<(Option<bool>, Option<Seq<char>>, int)> {
    if !(0 <= i < s.len() && s[i] == '"') {
        None
    } else {
        match text_at(s, i + 1) {
            None => None,
            Some(key) => {
                let k = skip_ws(s, key.1);
                if !(k < s.len() && s[k] == ':') {
                    None
                } else {
                    let v = skip_ws(s, k + 1);
                    if key.0 == "name"@ || key.0 == "description"@ {
                        match value_at(s, v) {
                            None => None,
                            Some(value) => Some((Some(key.0 == "name"@), value.0, value.1)),
                        }
                    } else {
                        match skip_value(s, v, s.len() - v + 1) {
                            None => None,
                            Some(end) => Some((None, None, end)),
                        }
                    }
                }
            },
        }
    }
}

/// The members from `i` on, folded into the two fields carried in so
/// far: nothing on a malformed member, a known member seen twice, or a
/// list that does not end the body; a member with another key is read
/// over.
pub open spec fn members_from(
    s: Seq<char>,
    i: int,
    name_field: Option<Option<Seq<char>>>,
    description_field: Option<Option<Seq<char>>>,
    fuel: int,
) -> Option<(Option<Option<Seq<char>>>, Option<Option<Seq<char>>>)>
    decreases fuel,
{
    if fuel <= 0 {
        None
    } else {
        match member_at(s, i) {
            None => None,
            Some(m) => {
                let updated = match m.0 {
                    Some(true) => if name_field is Some {
                        None
                    } else {
                        Some((Some(m.1), description_field))
                    },
                    Some(false) => if description_field is Some {
                        None
                    } else {
                        Some((name_field, Some(m.1)))
                    },
                    None => Some((name_field, description_field)),
                };
                match updated {
                    None => None,
                    Some(acc) => {
                        let e = skip_ws(s, m.2);
                        if e < s.len() && s[e] == ',' {
                            members_from(s, skip_ws(s, e + 1), acc.0, acc.1, fuel - 1)
                        } else if e < s.len() && s[e] == '}' {
                            if skip_ws(s, e + 1) == s.len() {
                                Some(acc)
                            } else {
                                None
                            }
                        } else {
                            None
                        }
                    },
                }
            },
        }
    }
}

/// The two fields a well-formed body carries: the `"name"` member's
/// value when that member is present, and the `"description"` member's
/// likewise; nothing when the body is not one object of such members.
pub open spec fn fields_of(s: Seq<char>) -> Option<
    (Option<Option<Seq<char>>>, Option<Option<Seq<char>>>),
> {
    let i = skip_ws(s, 0);
    if !(i < s.len() && s[i] == '{') {
        None
    } else {
        let j = skip_ws(s, i + 1);
        if j < s.len() && s[j] == '}' {
            if skip_ws(s, j + 1) == s.len() {
                Some((None, None))
            } else {
                None
            }
        } else {
            members_from(s, j, None, None, s.len() as int + 1)
        }
    }
}

/// What a creation body means: its fields, provided the body is
/// well-formed and carries a non-null `"name"`.
pub open spec fn create_request_of(s: Seq<char>) -> Option<CreateModel> {
    match fields_of(s) {
        None => None,
        Some(f) => match f.0 {
            Some(Some(name)) => Some(
                CreateModel {
                    name,
                    description: match f.1 {
                        Some(d) => d,
                        None => None,
                    },
                },
            ),
            _ => None,
        },
    }
}

/// What an update body means: its fields, a `null` or absent member
/// both resolving to "keep the stored value".
pub open spec fn update_request_of(s: Seq<char>) -> Option<UpdateModel> {
    match fields_of(s) {
        None => None,
        Some(f) => Some(
            UpdateModel {
                name: match f.0 {
                    Some(v) => v,
                    None => None,
                },
                description: match f.1 {
                    Some(v) => v,
                    None => None,
                },
            },
        ),
    }
}

/// Relies on String::push: appends exactly the one character.
#[verifier::external_body]
fn push_char(s: &mut String, c: char)
    ensures
        final(s)@ == old(s)@.push(c),
{
    s.push(c);
}

/// Relies on char::from_u32: the character with the given code exactly
/// when the value is a Unicode scalar (at most 0x10FFFF and not a
/// surrogate), nothing otherwise.
#[verifier::external_body]
fn char_from_u32(v: u32) -> (r: Option<char>)
    ensures
        r == if vstd::utf8::is_scalar(v) {
            Some(v as char)
        } else {
            None::<char>
        },
{
    char::from_u32(v)
}

fn find_non_ws(s: &str, i: usize) -> (r: usize)
    requires
        i <= s@.len(),
    ensures
        r as int == skip_ws(s@, i as int),
        i <= r <= s@.len(),
    decreases s@.len() - i,
{
    let n = s.unicode_len();
    if i < n {
        let c = s.get_char(i);
        if c == ' ' || c == '\t' || c == '\n' || c == '\r' {
            return find_non_ws(s, i + 1);
        }
    }
    i
}

fn hex_digit(c: char) -> (r: Option<u32>)
    ensures
        match r {
            Some(v) => is_hex_digit(c) && v as int == hex_digit_val(c) && v < 16,
            None => !is_hex_digit(c),
        },
{
    let u = c as u32;
    if 48 <= u && u <= 57 {
        Some(u - 48)
    } else if 97 <= u && u <= 102 {
        Some(u - 87)
    } else if 65 <= u && u <= 70 {
        Some(u - 55)
    } else {
        None
    }
}

fn hex4(s: &str, i: usize) -> (r: Option<u32>)
    requires
        i + 4 <= s@.len(),
    ensures
        match r {
            Some(v) => hex4_at(s@, i as int) && v as int == hex4_val(s@, i as int) && v <= 0xFFFF,
            None => !hex4_at(s@, i as int),
        },
{
    // Establishes that the character count fits in `usize`, so the
    // index arithmetic below cannot overflow.
    let _n = s.unicode_len();
    let d0 = match hex_digit(s.get_char(i)) {
        Some(v) => v,
        None => {
            return None;
        },
    };
    let d1 = match hex_digit(s.get_char(i + 1)) {
        Some(v) => v,
        None => {
            return None;
        },
    };
    let d2 = match hex_digit(s.get_char(i + 2)) {
        Some(v) => v,
        None => {
            return None;
        },
    };
    let d3 = match hex_digit(s.get_char(i + 3)) {
        Some(v) => v,
        None => {
            return None;
        },
    };
    Some(d0 * 4096 + d1 * 256 + d2 * 16 + d3)
}

fn decode_simple_escape(e: char) -> (r: char)
    requires
        is_simple_escape(e),
    ensures
        r == simple_escape_char(e),
{
    if e == 'b' {
        '\u{8}'
    } else if e == 'f' {
        '\u{c}'
    } else if e == 'n' {
        '\n'
    } else if e == 'r' {
        '\r'
    } else if e == 't' {
        '\t'
    } else {
        e
    }
}

fn prepend_char(c: char, rest: String) -> (r: String)
    ensures
        r@ == seq![c] + rest@,
{
    let mut value = String::new();
    push_char(&mut value, c);
    value.append(rest.as_str());
    proof {
        assert(value@ =~= seq![c] + rest@);
    }
    value
}

fn parse_text(s: &str, i: usize) -> (r: Option<(String, usize)>)
    requires
        i <= s@.len(),
    ensures
        match r {
            Some(t) => text_at(s@, i as int) == Some((t.0@, t.1 as int)) && i < t.1 <= s@.len(),
            None => text_at(s@, i as int) is None,
        },
    decreases s@.len() - i,
{
    let n = s.unicode_len();
    if i >= n {
        return None;
    }
    let c = s.get_char(i);
    if c == '"' {
        return Some((String::new(), i + 1));
    }
    if c == '\\' {
        if i + 1 >= n {
            return None;
        }
        let e = s.get_char(i + 1);
        if e == '"' || e == '\\' || e == '/' || e == 'b' || e == 'f' || e == 'n' || e == 'r' || e
            == 't' {
            let decoded = decode_simple_escape(e);
            return match parse_text(s, i + 2) {
                Some(t) => Some((prepend_char(decoded, t.0), t.1)),
                None => None,
            };
        }
        if e == 'u' && n - i > 5 {
            let v = match hex4(s, i + 2) {
                Some(v) => v,
                None => {
                    return None;
                },
            };
            if 0xD800 <= v && v <= 0xDBFF {
                if n - i > 11 && s.get_char(i + 6) == '\\' && s.get_char(i + 7) == 'u' {
                    let w = match hex4(s, i + 8) {
                        Some(w) => w,
                        None => {
                            return None;
                        },
                    };
                    if 0xDC00 <= w && w <= 0xDFFF {
                        let scalar: u32 = 0x10000 + (v - 0xD800) * 0x400 + (w - 0xDC00);
                        proof {
                            assert(vstd::utf8::is_scalar(scalar));
                        }
                        let decoded = char_from_u32(scalar).unwrap();
                        return match parse_text(s, i + 12) {
                            Some(t) => Some((prepend_char(decoded, t.0), t.1)),
                            None => None,
                        };
                    }
                    return None;
                }
                return None;
            }
            if 0xDC00 <= v && v <= 0xDFFF {
                return None;
            }
            proof {
                assert(vstd::utf8::is_scalar(v));
            }
            let decoded = char_from_u32(v).unwrap();
            return match parse_text(s, i + 6) {
                Some(t) => Some((prepend_char(decoded, t.0), t.1)),
                None => None,
            };
        }
        return None;
    }
    if (c as u32) < 32 {
        return None;
    }
    match parse_text(s, i + 1) {
        Some(t) => Some((prepend_char(c, t.0), t.1)),
        None => None,
    }
}

fn skip_text_exec(s: &str, i: usize) -> (r: Option<usize>)
    requires
        i <= s@.len(),
    ensures
        match r {
            Some(j) => skip_text_end(s@, i as int) == Some(j as int) && i < j <= s@.len(),
            None => skip_text_end(s@, i as int) is None,
        },
    decreases s@.len() - i,
{
    let n = s.unicode_len();
    if i >= n {
        return None;
    }
    let c = s.get_char(i);
    if c == '"' {
        return Some(i + 1);
    }
    if c == '\\' {
        if i + 1 >= n {
            return None;
        }
        let e = s.get_char(i + 1);
        if e == '"' || e == '\\' || e == '/' || e == 'b' || e == 'f' || e == 'n' || e == 'r' || e
            == 't' {
            return skip_text_exec(s, i + 2);
        }
        if e == 'u' && n - i > 5 {
            if hex4(s, i + 2).is_some() {
                return skip_text_exec(s, i + 6);
            }
            return None;
        }
        return None;
    }
    if (c as u32) < 32 {
        return None;
    }
    skip_text_exec(s, i + 1)
}

fn scan_digits(s: &str, i: usize) -> (r: usize)
    requires
        i <= s@.len(),
    ensures
        r as int == digits_end(s@, i as int),
        i <= r <= s@.len(),
    decreases s@.len() - i,
{
    let n = s.unicode_len();
    if i < n {
        let c = s.get_char(i);
        if 48 <= c as u32 && c as u32 <= 57 {
            return scan_digits(s, i + 1);
        }
    }
    i
}

fn scan_exponent(s: &str, j: usize) -> (r: Option<usize>)
    requires
        j <= s@.len(),
    ensures
        match r {
            Some(end) => exp_part(s@, j as int) == Some(end as int) && j <= end <= s@.len(),
            None => exp_part(s@, j as int) is None,
        },
{
    let n = s.unicode_len();
    if j < n {
        let c = s.get_char(j);
        if c == 'e' || c == 'E' {
            let k: usize = if j + 1 < n {
                let sign = s.get_char(j + 1);
                if sign == '+' || sign == '-' {
                    j + 2
                } else {
                    j + 1
                }
            } else {
                j + 1
            };
            if k < n {
                let d = s.get_char(k);
                if 48 <= d as u32 && d as u32 <= 57 {
                    return Some(scan_digits(s, k));
                }
            }
            return None;
        }
    }
    Some(j)
}

fn scan_number(s: &str, i: usize) -> (r: Option<usize>)
    requires
        i <= s@.len(),
    ensures
        match r {
            Some(j) => number_end(s@, i as int) == Some(j as int) && i < j <= s@.len(),
            None => number_end(s@, i as int) is None,
        },
{
    let n = s.unicode_len();
    let start: usize = if i < n && s.get_char(i) == '-' {
        i + 1
    } else {
        i
    };
    if start >= n {
        return None;
    }
    let first = s.get_char(start);
    if !(48 <= first as u32 && first as u32 <= 57) {
        return None;
    }
    let int_end: usize = if first == '0' {
        start + 1
    } else {
        scan_digits(s, start)
    };
    if int_end < n {
        let after = s.get_char(int_end);
        if 48 <= after as u32 && after as u32 <= 57 {
            return None;
        }
    }
    if int_end < n && s.get_char(int_end) == '.' {
        if int_end + 1 < n {
            let f = s.get_char(int_end + 1);
            if 48 <= f as u32 && f as u32 <= 57 {
                return scan_exponent(s, scan_digits(s, int_end + 1));
            }
        }
        return None;
    }
    scan_exponent(s, int_end)
}

fn skip_value_end(s: &str, i: usize, fuel: usize) -> (r: Option<usize>)
    requires
        i <= s@.len(),
    ensures
        match r {
            Some(j) => skip_value(s@, i as int, fuel as int) == Some(j as int) && i < j
                <= s@.len(),
            None => skip_value(s@, i as int, fuel as int) is None,
        },
    decreases fuel,
{
    if fuel == 0 {
        return None;
    }
    let n = s.unicode_len();
    if i >= n {
        return None;
    }
    let c = s.get_char(i);
    if c == '"' {
        return skip_text_exec(s, i + 1);
    }
    if c == '{' {
        return skip_object_rest_exec(s, find_non_ws(s, i + 1), fuel - 1);
    }
    if c == '[' {
        return skip_array_rest_exec(s, find_non_ws(s, i + 1), fuel - 1);
    }
    if n - i >= 4 && c == 'n' && s.get_char(i + 1) == 'u' && s.get_char(i + 2) == 'l' && s.get_char(
        i + 3,
    ) == 'l' {
        return Some(i + 4);
    }
    if n - i >= 4 && c == 't' && s.get_char(i + 1) == 'r' && s.get_char(i + 2) == 'u' && s.get_char(
        i + 3,
    ) == 'e' {
        return Some(i + 4);
    }
    if n - i >= 5 && c == 'f' && s.get_char(i + 1) == 'a' && s.get_char(i + 2) == 'l' && s.get_char(
        i + 3,
    ) == 's' && s.get_char(i + 4) == 'e' {
        return Some(i + 5);
    }
    scan_number(s, i)
}

fn skip_object_rest_exec(s: &str, i: usize, fuel: usize) -> (r: Option<usize>)
    requires
        i <= s@.len(),
    ensures
        match r {
            Some(j) => skip_object_rest(s@, i as int, fuel as int) == Some(j as int) && i < j
                <= s@.len(),
            None => skip_object_rest(s@, i as int, fuel as int) is None,
        },
    decreases fuel,
{
    if fuel == 0 {
        return None;
    }
    let n = s.unicode_len();
    if i >= n {
        return None;
    }
    let c = s.get_char(i);
    if c == '}' {
        return Some(i + 1);
    }
    if c != '"' {
        return None;
    }
    let key_end = match skip_text_exec(s, i + 1) {
        Some(j) => j,
        None => {
            return None;
        },
    };
    let k = find_non_ws(s, key_end);
    if k >= n || s.get_char(k) != ':' {
        return None;
    }
    let value_end = match skip_value_end(s, find_non_ws(s, k + 1), fuel - 1) {
        Some(j) => j,
        None => {
            return None;
        },
    };
    let e = find_non_ws(s, value_end);
    if e < n && s.get_char(e) == ',' {
        return skip_object_rest_exec(s, find_non_ws(s, e + 1), fuel - 1);
    }
    if e < n && s.get_char(e) == '}' {
        return Some(e + 1);
    }
    None
}

fn skip_array_rest_exec(s: &str, i: usize, fuel: usize) -> (r: Option<usize>)
    requires
        i <= s@.len(),
    ensures
        match r {
            Some(j) => skip_array_rest(s@, i as int, fuel as int) == Some(j as int) && i < j
                <= s@.len(),
            None => skip_array_rest(s@, i as int, fuel as int) is None,
        },
    decreases fuel,
{
    if fuel == 0 {
        return None;
    }
    let n = s.unicode_len();
    if i >= n {
        return None;
    }
    if s.get_char(i) == ']' {
        return Some(i + 1);
    }
    let value_end = match skip_value_end(s, i, fuel - 1) {
        Some(j) => j,
        None => {
            return None;
        },
    };
    let e = find_non_ws(s, value_end);
    if e < n && s.get_char(e) == ',' {
        return skip_array_rest_exec(s, find_non_ws(s, e + 1), fuel - 1);
    }
    if e < n && s.get_char(e) == ']' {
        return Some(e + 1);
    }
    None
}

fn parse_value(s: &str, i: usize) -> (r: Option<(Option<String>, usize)>)
    requires
        i <= s@.len(),
    ensures
        match r {
            Some(v) => {
                &&& value_at(s@, i as int) == Some((v.0.deep_view(), v.1 as int))
                &&& i < v.1 <= s@.len()
            },
            None => value_at(s@, i as int) is None,
        },
{
    let n = s.unicode_len();
    if i < n && s.get_char(i) == '"' {
        return match parse_text(s, i + 1) {
            Some(t) => Some((Some(t.0), t.1)),
            None => None,
        };
    }
    if n - i >= 4 && s.get_char(i) == 'n' && s.get_char(i + 1) == 'u' && s.get_char(i + 2) == 'l'
        && s.get_char(i + 3) == 'l' {
        return Some((None, i + 4));
    }
    None
}

fn parse_member(s: &str, i: usize) -> (r: Option<(Option<bool>, Option<String>, usize)>)
    requires
        i <= s@.len(),
    ensures
        match r {
            Some(m) => {
                &&& member_at(s@, i as int) == Some((m.0, m.1.deep_view(), m.2 as int))
                &&& i < m.2 <= s@.len()
            },
            None => member_at(s@, i as int) is None,
        },
{
    let n = s.unicode_len();
    if i >= n || s.get_char(i) != '"' {
        return None;
    }
    let (key, key_end) = match parse_text(s, i + 1) {
        Some(t) => t,
        None => {
            return None;
        },
    };
    let k = find_non_ws(s, key_end);
    if k >= n || s.get_char(k) != ':' {
        return None;
    }
    let v = find_non_ws(s, k + 1);
    let is_name = key == String::from_str("name");
    let is_description = key == String::from_str("description");
    if is_name || is_description {
        match parse_value(s, v) {
            Some(value) => Some((Some(is_name), value.0, value.1)),
            None => None,
        }
    } else {
        match skip_value_end(s, v, n - v + 1) {
            Some(end) => Some((None, None, end)),
            None => None,
        }
    }
}

fn parse_members(
    s: &str,
    i: usize,
    name_field: Option<Option<String>>,
    description_field: Option<Option<String>>,
    fuel: Ghost<int>,
) -> (r: Option<(Option<Option<String>>, Option<Option<String>>)>)
    requires
        i <= s@.len(),
        fuel@ >= s@.len() - i + 1,
    ensures
        match r {
            Some(f) => members_from(
                s@,
                i as int,
                name_field.deep_view(),
                description_field.deep_view(),
                fuel@,
            ) == Some((f.0.deep_view(), f.1.deep_view())),
            None => members_from(
                s@,
                i as int,
                name_field.deep_view(),
                description_field.deep_view(),
                fuel@,
            ) is None,
        },
    decreases s@.len() - i,
{
    let m = match parse_member(s, i) {
        Some(m) => m,
        None => {
            return None;
        },
    };
    let updated: Option<(Option<Option<String>>, Option<Option<String>>)> = match m.0 {
        Some(true) => {
            if name_field.is_some() {
                None
            } else {
                Some((Some(m.1), description_field))
            }
        },
        Some(false) => {
            if description_field.is_some() {
                None
            } else {
                Some((name_field, Some(m.1)))
            }
        },
        None => Some((name_field, description_field)),
    };
    let acc = match updated {
        Some(acc) => acc,
        None => {
            return None;
        },
    };
    let n = s.unicode_len();
    let e = find_non_ws(s, m.2);
    if e < n && s.get_char(e) == ',' {
        let next = find_non_ws(s, e + 1);
        return parse_members(s, next, acc.0, acc.1, Ghost(fuel@ - 1));
    }
    if e < n && s.get_char(e) == '}' {
        if find_non_ws(s, e + 1) == n {
            return Some(acc);
        }
        return None;
    }
    None
}

fn parse_fields(s: &str) -> (r: Option<(Option<Option<String>>, Option<Option<String>>)>)
    ensures
        match r {
            Some(f) => fields_of(s@) == Some((f.0.deep_view(), f.1.deep_view())),
            None => fields_of(s@) is None,
        },
{
    let n = s.unicode_len();
    let i = find_non_ws(s, 0);
    if i >= n || s.get_char(i) != '{' {
        return None;
    }
    let j = find_non_ws(s, i + 1);
    if j < n && s.get_char(j) == '}' {
        if find_non_ws(s, j + 1) == n {
            return Some((None, None));
        }
        return None;
    }
    parse_members(s, j, None, None, Ghost(s@.len() as int + 1))
}

/// Parses a creation body. Returns the request exactly when the body
/// lies in the accepted grammar and carries a non-null name.
pub fn parse_create_request(body: &str) -> (r: Option<CreateItemRequest>)
    ensures
        match r {
            Some(request) => create_request_of(body@) == Some(request@),
            None => create_request_of(body@) is None,
        },
{
    match parse_fields(body) {
        None => None,
        Some(f) => match f.0 {
            Some(Some(name)) => {
                let description: Option<String> = match f.1 {
                    Some(d) => d,
                    None => None,
                };
                Some(CreateItemRequest { name, description })
            },
            _ => None,
        },
    }
}

/// Parses an update body. Returns the request exactly when the body
/// lies in the accepted grammar; a `null` or absent member resolves to
/// "keep the stored value".
pub fn parse_update_request(body: &str) -> (r: Option<UpdateItemRequest>)
    ensures
        match r {
            Some(request) => update_request_of(body@) == Some(request@),
            None => update_request_of(body@) is None,
        },
{
    match parse_fields(body) {
        None => None,
        Some(f) => {
            let name: Option<String> = match f.0 {
                Some(v) => v,
                None => None,
            };
            let description: Option<String> = match f.1 {
                Some(v) => v,
                None => None,
            };
            Some(UpdateItemRequest { name, description })
        },
    }
}

/// Handles creation from the raw request body: a malformed body is
/// rejected as a bad request before the domain logic runs, leaving the
/// rows untouched — no partially created row; a well-formed body is
/// created exactly as `create_item` says.
pub fn create_item_from_body(store: &mut ItemStore, body: &str, now: i64) -> (result: Result<
    Item,
    ApiError,
>)
    requires
        old(store).wf(),
        now >= old(store).last_time,
    ensures
        final(store).wf(),
        match create_request_of(body@) {
            Some(request) => ItemStore::creation_outcome(
                *old(store),
                *final(store),
                result,
                request,
                now as int,
            ),
            None => {
                &&& result matches Err(ApiError::BadRequestError(_))
                &&& final(store)@ == old(store)@
                &&& final(store).next_id == old(store).next_id
                &&& final(store).last_time == old(store).last_time
            },
        },
{
    match parse_create_request(body) {
        Some(request) => store.create_item(request, now),
        None => Err(ApiError::BadRequestError(String::from_str("malformed JSON body"))),
    }
}

/// Handles an update from the raw request body: a malformed body is
/// rejected as a bad request before the domain logic runs, leaving the
/// rows untouched; a well-formed body patches exactly as `update_item`
/// says.
pub fn update_item_from_body(store: &mut ItemStore, id: i32, body: &str, now: i64) -> (result:
    Result<Item, ApiError>)
    requires
        old(store).wf(),
        now >= old(store).last_time,
    ensures
        final(store).wf(),
        match update_request_of(body@) {
            Some(patch) => ItemStore::update_outcome(
                *old(store),
                *final(store),
                result,
                id as int,
                patch,
                now as int,
            ),
            None => {
                &&& result matches Err(ApiError::BadRequestError(_))
                &&& final(store)@ == old(store)@
                &&& final(store).next_id == old(store).next_id
                &&& final(store).last_time == old(store).last_time
            },
        },
{
    match parse_update_request(body) {
        Some(request) => store.update_item(id, &request, now),
        None => Err(ApiError::BadRequestError(String::from_str("malformed JSON body"))),
    }
}

} // verus!
