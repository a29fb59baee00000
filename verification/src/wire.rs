//! The wire format, stated mathematically.
//!
//! This module defines, as spec functions over `Seq<char>`, both sides of
//! the JSON encoding the client and the server exchange:
//!
//! - `expense_json` / `genre_json` say exactly what text the client sends
//!   for a record (field names and order fixed, strings escaped as JSON
//!   demands, integers in decimal);
//! - the `sp_*` parsers say exactly which response texts are accepted and
//!   what record each one denotes. They tolerate JSON whitespace between
//!   tokens and the escapes JSON allows in strings (`\uXXXX` for any
//!   scalar of the Basic Multilingual Plane and surrogate pairs for the
//!   planes above it), and reject everything else.
//!
//! Every executable function in [`crate::codec`] is proved to agree with
//! these definitions, and the round-trip laws in [`crate::laws`] are
//! stated and proved purely in their terms.

use vstd::prelude::*;

use crate::models::{ApiMessageV, ExpenseV, ExpenseWithIdV, GenreV, GenreWithIdV};

verus! {

// ---------------------------------------------------------------------------
// Character classes and small tables
// ---------------------------------------------------------------------------

/// JSON insignificant whitespace.
pub open spec fn is_ws_char(c: char) -> bool {
    c == ' ' || c == '\t' || c == '\n' || c == '\r'
}

/// A decimal digit.
pub open spec fn is_digit_char(c: char) -> bool {
    '0' as int <= c as int <= '9' as int
}

/// Numeric value of a decimal digit.
pub open spec fn digit_val(c: char) -> int {
    c as int - '0' as int
}

/// The decimal digit character for a value below ten.
pub open spec fn digit_char(d: int) -> char {
    if d == 0 {
        '0'
    } else if d == 1 {
        '1'
    } else if d == 2 {
        '2'
    } else if d == 3 {
        '3'
    } else if d == 4 {
        '4'
    } else if d == 5 {
        '5'
    } else if d == 6 {
        '6'
    } else if d == 7 {
        '7'
    } else if d == 8 {
        '8'
    } else {
        '9'
    }
}

/// A hexadecimal digit, upper or lower case.
pub open spec fn is_hex_char(c: char) -> bool {
    is_digit_char(c) || 'a' as int <= c as int <= 'f' as int || 'A' as int <= c as int
        <= 'F' as int
}

/// Numeric value of a hexadecimal digit.
pub open spec fn hex_val(c: char) -> int {
    if is_digit_char(c) {
        c as int - '0' as int
    } else if 'a' as int <= c as int <= 'f' as int {
        c as int - 'a' as int + 10
    } else {
        c as int - 'A' as int + 10
    }
}

/// The lower-case hexadecimal digit character for a value below sixteen.
pub open spec fn hex_char(d: int) -> char {
    if d < 10 {
        digit_char(d)
    } else if d == 10 {
        'a'
    } else if d == 11 {
        'b'
    } else if d == 12 {
        'c'
    } else if d == 13 {
        'd'
    } else if d == 14 {
        'e'
    } else {
        'f'
    }
}

/// A control character, which JSON forbids raw inside strings.
pub open spec fn is_control_char(c: char) -> bool {
    (c as int) < 0x20
}

/// A Unicode scalar value: what a `char` may hold.
pub open spec fn is_scalar_val(v: int) -> bool {
    (0 <= v < 0xD800) || (0xE000 <= v <= 0x10FFFF)
}

// ---------------------------------------------------------------------------
// Serialization
// ---------------------------------------------------------------------------

/// How one character is written inside a JSON string: itself, a two-character
/// escape for the quote, the backslash and the named control characters, or a
/// `\u00XX` escape for the remaining control characters.
pub open spec fn escape_char(c: char) -> Seq<char> {
    if c == '"' {
        seq!['\\', '"']
    } else if c == '\\' {
        seq!['\\', '\\']
    } else if c == '\u{8}' {
        seq!['\\', 'b']
    } else if c == '\t' {
        seq!['\\', 't']
    } else if c == '\n' {
        seq!['\\', 'n']
    } else if c == '\u{c}' {
        seq!['\\', 'f']
    } else if c == '\r' {
        seq!['\\', 'r']
    } else if is_control_char(c) {
        seq!['\\', 'u', '0', '0', hex_char(c as int / 16), hex_char(c as int % 16)]
    } else {
        seq![c]
    }
}

/// A whole character sequence escaped for a JSON string.
pub open spec fn escape_seq(s: Seq<char>) -> Seq<char>
    decreases s.len(),
{
    if s.len() == 0 {
        Seq::empty()
    } else {
        escape_char(s[0]) + escape_seq(s.drop_first())
    }
}

/// A JSON string token: quotes around the escaped content.
pub open spec fn json_string(s: Seq<char>) -> Seq<char> {
    seq!['"'] + escape_seq(s) + seq!['"']
}

/// The decimal digits of a non-negative integer, most significant first.
pub open spec fn dec_chars(n: int) -> Seq<char>
    decreases n,
{
    if n < 10 {
        seq![digit_char(n)]
    } else {
        dec_chars(n / 10) + seq![digit_char(n % 10)]
    }
}

/// A JSON integer token: an optional minus sign and decimal digits.
pub open spec fn int_chars(n: int) -> Seq<char> {
    if n < 0 {
        seq!['-'] + dec_chars(-n)
    } else {
        dec_chars(n)
    }
}

/// The exact text the client sends for an expense record.
pub open spec fn expense_json(e: ExpenseV) -> Seq<char> {
    "{\"date\":"@ + json_string(e.date) + ",\"genre\":"@ + json_string(e.genre)
        + ",\"amount\":"@ + int_chars(e.amount) + "}"@
}

/// The exact text the client sends for a genre record.
pub open spec fn genre_json(g: GenreV) -> Seq<char> {
    "{\"name\":"@ + json_string(g.name) + "}"@
}

// ---------------------------------------------------------------------------
// Parsing
// ---------------------------------------------------------------------------
//
// Each parser takes the remaining input and returns the parsed value with
// the input left over after it, or `None` where the input does not start
// with the expected form. `tok_*` parsers first skip insignificant
// whitespace.

/// Drops leading JSON whitespace.
pub open spec fn sp_ws(s: Seq<char>) -> Seq<char>
    decreases s.len(),
{
    if s.len() > 0 && is_ws_char(s[0]) {
        sp_ws(s.drop_first())
    } else {
        s
    }
}

/// Expects the exact text `lit` next.
pub open spec fn sp_lit(s: Seq<char>, lit: Seq<char>) -> Option<Seq<char>> {
    if lit.len() <= s.len() && s.take(lit.len() as int) == lit {
        Some(s.skip(lit.len() as int))
    } else {
        None
    }
}

/// The character a simple two-character escape stands for.
pub open spec fn unescaped_simple(e: char) -> char {
    if e == 'b' {
        '\u{8}'
    } else if e == 'f' {
        '\u{c}'
    } else if e == 'n' {
        '\n'
    } else if e == 'r' {
        '\r'
    } else if e == 't' {
        '\t'
    } else {
        e
    }
}

/// Parses the rest of a JSON string after its opening quote: the content up
/// to the closing quote, with escapes decoded. A surrogate pair of `\uXXXX`
/// escapes names one character of the planes above the Basic Multilingual
/// Plane. Raw control characters, unknown escapes, and unpaired surrogate
/// escapes are rejected.
pub open spec fn sp_string_body(s: Seq<char>) -> Option<(Seq<char>, Seq<char>)>
    decreases s.len(),
{
    if s.len() == 0 {
        None
    } else if s[0] == '"' {
        Some((Seq::empty(), s.drop_first()))
    } else if s[0] == '\\' {
        if s.len() < 2 {
            None
        } else {
            let e = s[1];
            if e == '"' || e == '\\' || e == '/' || e == 'b' || e == 'f' || e == 'n' || e == 'r'
                || e == 't' {
                match sp_string_body(s.skip(2)) {
                    Some(p) => Some((seq![unescaped_simple(e)] + p.0, p.1)),
                    None => None,
                }
            } else if e == 'u' {
                if s.len() < 6 {
                    None
                } else if !(is_hex_char(s[2]) && is_hex_char(s[3]) && is_hex_char(s[4])
                    && is_hex_char(s[5])) {
                    None
                } else {
                    let v = hex_val(s[2]) * 0x1000 + hex_val(s[3]) * 0x100 + hex_val(s[4]) * 0x10
                        + hex_val(s[5]);
                    if 0xD800 <= v < 0xDC00 {
                        // a high surrogate: only as the first half of a pair
                        if s.len() < 12 {
                            None
                        } else if !(s[6] == '\\' && s[7] == 'u' && is_hex_char(s[8])
                            && is_hex_char(s[9]) && is_hex_char(s[10]) && is_hex_char(s[11])) {
                            None
                        } else {
                            let w = hex_val(s[8]) * 0x1000 + hex_val(s[9]) * 0x100 + hex_val(
                                s[10],
                            ) * 0x10 + hex_val(s[11]);
                            if 0xDC00 <= w < 0xE000 {
                                let cp = 0x10000 + (v - 0xD800) * 0x400 + (w - 0xDC00);
                                match sp_string_body(s.skip(12)) {
                                    Some(p) => Some((seq![(cp as u32) as char] + p.0, p.1)),
                                    None => None,
                                }
                            } else {
                                None
                            }
                        }
                    } else if is_scalar_val(v) {
                        match sp_string_body(s.skip(6)) {
                            Some(p) => Some((seq![(v as u32) as char] + p.0, p.1)),
                            None => None,
                        }
                    } else {
                        None
                    }
                }
            } else {
                None
            }
        }
    } else if is_control_char(s[0]) {
        None
    } else {
        match sp_string_body(s.drop_first()) {
            Some(p) => Some((seq![s[0]] + p.0, p.1)),
            None => None,
        }
    }
}

/// Parses a whole JSON string token.
pub open spec fn sp_string(s: Seq<char>) -> Option<(Seq<char>, Seq<char>)> {
    if s.len() > 0 && s[0] == '"' {
        sp_string_body(s.drop_first())
    } else {
        None
    }
}

/// Reads a run of decimal digits into `acc`, stopping at the first
/// non-digit; rejects values that could not name a 32-bit integer.
pub open spec fn sp_digits(s: Seq<char>, acc: int) -> Option<(int, Seq<char>)>
    decreases s.len(),
{
    if s.len() > 0 && is_digit_char(s[0]) {
        let acc2 = acc * 10 + digit_val(s[0]);
        if acc2 <= 0x8000_0000 {
            sp_digits(s.drop_first(), acc2)
        } else {
            None
        }
    } else {
        Some((acc, s))
    }
}

/// Parses an unsigned decimal integer with JSON's leading-zero rule:
/// either a single zero, or a run of digits starting with a nonzero one.
pub open spec fn sp_uint(s: Seq<char>) -> Option<(int, Seq<char>)> {
    if s.len() == 0 || !is_digit_char(s[0]) {
        None
    } else if s[0] == '0' {
        Some((0, s.drop_first()))
    } else {
        sp_digits(s, 0)
    }
}

/// Parses a JSON integer that fits a 32-bit signed integer.
pub open spec fn sp_int(s: Seq<char>) -> Option<(int, Seq<char>)> {
    if s.len() > 0 && s[0] == '-' {
        match sp_uint(s.drop_first()) {
            Some(p) => if -p.0 >= -0x8000_0000 {
                Some((-p.0, p.1))
            } else {
                None
            },
            None => None,
        }
    } else {
        match sp_uint(s) {
            Some(p) => if p.0 <= 0x7FFF_FFFF {
                Some(p)
            } else {
                None
            },
            None => None,
        }
    }
}

/// Expects `lit` after optional whitespace.
pub open spec fn tok_lit(s: Seq<char>, lit: Seq<char>) -> Option<Seq<char>> {
    sp_lit(sp_ws(s), lit)
}

/// Parses a string token after optional whitespace.
pub open spec fn tok_string(s: Seq<char>) -> Option<(Seq<char>, Seq<char>)> {
    sp_string(sp_ws(s))
}

/// Parses an integer token after optional whitespace.
pub open spec fn tok_int(s: Seq<char>) -> Option<(int, Seq<char>)> {
    sp_int(sp_ws(s))
}

/// Parses one string-valued object member: the quoted key `qkey`, a colon,
/// and a string value, with whitespace allowed around each token.
pub open spec fn sp_str_field(s: Seq<char>, qkey: Seq<char>) -> Option<(Seq<char>, Seq<char>)> {
    match tok_lit(s, qkey) {
        Some(s1) => match tok_lit(s1, ":"@) {
            Some(s2) => tok_string(s2),
            None => None,
        },
        None => None,
    }
}

/// Parses one integer-valued object member.
pub open spec fn sp_int_field(s: Seq<char>, qkey: Seq<char>) -> Option<(int, Seq<char>)> {
    match tok_lit(s, qkey) {
        Some(s1) => match tok_lit(s1, ":"@) {
            Some(s2) => tok_int(s2),
            None => None,
        },
        None => None,
    }
}

/// Parses an expense object, fields in the wire order date, genre, amount.
pub open spec fn sp_expense_obj(s: Seq<char>) -> Option<(ExpenseV, Seq<char>)> {
    match tok_lit(s, "{"@) {
        None => None,
        Some(s1) => match sp_str_field(s1, "\"date\""@) {
            None => None,
            Some((date, s2)) => match tok_lit(s2, ","@) {
                None => None,
                Some(s3) => match sp_str_field(s3, "\"genre\""@) {
                    None => None,
                    Some((genre, s4)) => match tok_lit(s4, ","@) {
                        None => None,
                        Some(s5) => match sp_int_field(s5, "\"amount\""@) {
                            None => None,
                            Some((amount, s6)) => match tok_lit(s6, "}"@) {
                                None => None,
                                Some(s7) => Some((ExpenseV { date, genre, amount }, s7)),
                            },
                        },
                    },
                },
            },
        },
    }
}

/// Parses a genre object: its one field, the name.
pub open spec fn sp_genre_obj(s: Seq<char>) -> Option<(GenreV, Seq<char>)> {
    match tok_lit(s, "{"@) {
        None => None,
        Some(s1) => match sp_str_field(s1, "\"name\""@) {
            None => None,
            Some((name, s2)) => match tok_lit(s2, "}"@) {
                None => None,
                Some(s3) => Some((GenreV { name }, s3)),
            },
        },
    }
}

/// Parses an expense object carrying its server-assigned identifier,
/// fields in the wire order id, date, genre, amount.
pub open spec fn sp_expense_with_id_obj(s: Seq<char>) -> Option<(ExpenseWithIdV, Seq<char>)> {
    match tok_lit(s, "{"@) {
        None => None,
        Some(s1) => match sp_int_field(s1, "\"id\""@) {
            None => None,
            Some((id, s2)) => match tok_lit(s2, ","@) {
                None => None,
                Some(s3) => match sp_str_field(s3, "\"date\""@) {
                    None => None,
                    Some((date, s4)) => match tok_lit(s4, ","@) {
                        None => None,
                        Some(s5) => match sp_str_field(s5, "\"genre\""@) {
                            None => None,
                            Some((genre, s6)) => match tok_lit(s6, ","@) {
                                None => None,
                                Some(s7) => match sp_int_field(s7, "\"amount\""@) {
                                    None => None,
                                    Some((amount, s8)) => match tok_lit(s8, "}"@) {
                                        None => None,
                                        Some(s9) => Some(
                                            (ExpenseWithIdV { id, date, genre, amount }, s9),
                                        ),
                                    },
                                },
                            },
                        },
                    },
                },
            },
        },
    }
}

/// Parses a genre object carrying its server-assigned identifier and
/// creation timestamp, fields in the wire order id, name, created_at.
pub open spec fn sp_genre_with_id_obj(s: Seq<char>) -> Option<(GenreWithIdV, Seq<char>)> {
    match tok_lit(s, "{"@) {
        None => None,
        Some(s1) => match sp_int_field(s1, "\"id\""@) {
            None => None,
            Some((id, s2)) => match tok_lit(s2, ","@) {
                None => None,
                Some(s3) => match sp_str_field(s3, "\"name\""@) {
                    None => None,
                    Some((name, s4)) => match tok_lit(s4, ","@) {
                        None => None,
                        Some(s5) => match sp_str_field(s5, "\"created_at\""@) {
                            None => None,
                            Some((created_at, s6)) => match tok_lit(s6, "}"@) {
                                None => None,
                                Some(s7) => Some((GenreWithIdV { id, name, created_at }, s7)),
                            },
                        },
                    },
                },
            },
        },
    }
}

/// Parses a response envelope: an object whose optional `message` and
/// `error` members come in that order, either or both possibly absent.
pub open spec fn sp_api_message_obj(s: Seq<char>) -> Option<(ApiMessageV, Seq<char>)> {
    match tok_lit(s, "{"@) {
        None => None,
        Some(s1) => match tok_lit(s1, "}"@) {
            Some(s2) => Some((ApiMessageV { message: None, error: None }, s2)),
            None => match sp_str_field(s1, "\"message\""@) {
                Some((message, s2)) => match tok_lit(s2, "}"@) {
                    Some(s3) => Some((ApiMessageV { message: Some(message), error: None }, s3)),
                    None => match tok_lit(s2, ","@) {
                        None => None,
                        Some(s3) => match sp_str_field(s3, "\"error\""@) {
                            None => None,
                            Some((error, s4)) => match tok_lit(s4, "}"@) {
                                None => None,
                                Some(s5) => Some(
                                    (ApiMessageV {
                                        message: Some(message),
                                        error: Some(error),
                                    }, s5),
                                ),
                            },
                        },
                    },
                },
                None => match sp_str_field(s1, "\"error\""@) {
                    None => None,
                    Some((error, s2)) => match tok_lit(s2, "}"@) {
                        None => None,
                        Some(s3) => Some((ApiMessageV { message: None, error: Some(error) }, s3)),
                    },
                },
            },
        },
    }
}

/// Parses the items of a non-empty array of expense records, starting after
/// the first item's leading `[`, up to and including the closing `]`.
pub open spec fn sp_expense_items(s: Seq<char>) -> Option<(Seq<ExpenseWithIdV>, Seq<char>)>
    decreases s.len(),
{
    match sp_expense_with_id_obj(s) {
        None => None,
        Some((e, s1)) => match tok_lit(s1, ","@) {
            Some(s2) => if s2.len() < s.len() {
                match sp_expense_items(s2) {
                    Some(p) => Some((seq![e] + p.0, p.1)),
                    None => None,
                }
            } else {
                None
            },
            None => match tok_lit(s1, "]"@) {
                Some(s2) => Some((seq![e], s2)),
                None => None,
            },
        },
    }
}

/// Parses a JSON array of expense records.
pub open spec fn sp_expense_list(s: Seq<char>) -> Option<(Seq<ExpenseWithIdV>, Seq<char>)> {
    match tok_lit(s, "["@) {
        None => None,
        Some(s1) => match tok_lit(s1, "]"@) {
            Some(s2) => Some((Seq::empty(), s2)),
            None => sp_expense_items(s1),
        },
    }
}

/// Parses the items of a non-empty array of genre records, as
/// [`sp_expense_items`] does for expenses.
pub open spec fn sp_genre_items(s: Seq<char>) -> Option<(Seq<GenreWithIdV>, Seq<char>)>
    decreases s.len(),
{
    match sp_genre_with_id_obj(s) {
        None => None,
        Some((g, s1)) => match tok_lit(s1, ","@) {
            Some(s2) => if s2.len() < s.len() {
                match sp_genre_items(s2) {
                    Some(p) => Some((seq![g] + p.0, p.1)),
                    None => None,
                }
            } else {
                None
            },
            None => match tok_lit(s1, "]"@) {
                Some(s2) => Some((seq![g], s2)),
                None => None,
            },
        },
    }
}

/// Parses a JSON array of genre records.
pub open spec fn sp_genre_list(s: Seq<char>) -> Option<(Seq<GenreWithIdV>, Seq<char>)> {
    match tok_lit(s, "["@) {
        None => None,
        Some(s1) => match tok_lit(s1, "]"@) {
            Some(s2) => Some((Seq::empty(), s2)),
            None => sp_genre_items(s1),
        },
    }
}

// ---------------------------------------------------------------------------
// Whole response bodies
// ---------------------------------------------------------------------------

/// True when nothing but whitespace is left of `s`.
pub open spec fn only_ws(s: Seq<char>) -> bool {
    sp_ws(s).len() == 0
}

/// What a whole body must denote to be an expense record.
pub open spec fn sp_parse_expense(s: Seq<char>) -> Option<ExpenseV> {
    match sp_expense_obj(s) {
        Some((e, rest)) => if only_ws(rest) {
            Some(e)
        } else {
            None
        },
        None => None,
    }
}

/// What a whole body must denote to be a genre record.
pub open spec fn sp_parse_genre(s: Seq<char>) -> Option<GenreV> {
    match sp_genre_obj(s) {
        Some((g, rest)) => if only_ws(rest) {
            Some(g)
        } else {
            None
        },
        None => None,
    }
}

/// What a whole body must denote to be a response envelope.
pub open spec fn sp_parse_api_message(s: Seq<char>) -> Option<ApiMessageV> {
    match sp_api_message_obj(s) {
        Some((m, rest)) => if only_ws(rest) {
            Some(m)
        } else {
            None
        },
        None => None,
    }
}

/// What a whole body must denote to be a list of expense records.
pub open spec fn sp_parse_expense_list(s: Seq<char>) -> Option<Seq<ExpenseWithIdV>> {
    match sp_expense_list(s) {
        Some((l, rest)) => if only_ws(rest) {
            Some(l)
        } else {
            None
        },
        None => None,
    }
}

/// What a whole body must denote to be a list of genre records.
pub open spec fn sp_parse_genre_list(s: Seq<char>) -> Option<Seq<GenreWithIdV>> {
    match sp_genre_list(s) {
        Some((l, rest)) => if only_ws(rest) {
            Some(l)
        } else {
            None
        },
        None => None,
    }
}

} // verus!
