//! A parser for the image-search response body.
//!
//! The search endpoint answers with a JSON array of records; each record is
//! an object that must carry a `url` member whose value is a string. This
//! module defines that grammar directly over the raw bytes, as spec
//! functions, and provides a verified executable parser proved equal to
//! them.
//!
//! The grammar is a close JSON dialect: arbitrary nesting, the usual
//! escapes (`\" \\ \/ \b \f \n \r \t` and `\u` with four hex digits) inside
//! skipped strings, numbers with optional sign, fraction and exponent.
//! Member keys are compared by their raw bytes; a record must hold the
//! `url` member exactly once, and its value is required to be a string of
//! printable ASCII without escapes, so that the extracted bytes are the
//! value itself. Both restrictions are deliberate: the one record field
//! this service reads is a plain ASCII URL.
//!
//! Every `*_end` spec function takes the byte sequence and a start index
//! and yields the index one past the parsed item, or `-1` when the bytes do
//! not match the grammar there.

use vstd::prelude::*;

verus! {

/// JSON insignificant whitespace.
pub open spec fn is_ws(b: u8) -> bool {
    b == 0x20 || b == 0x09 || b == 0x0a || b == 0x0d
}

/// ASCII decimal digit.
pub open spec fn is_digit(b: u8) -> bool {
    0x30 <= b <= 0x39
}

/// ASCII hexadecimal digit.
pub open spec fn is_hex(b: u8) -> bool {
    is_digit(b) || 0x41 <= b <= 0x46 || 0x61 <= b <= 0x66
}

/// A byte that may stand unescaped inside a string.
pub open spec fn is_str_byte(b: u8) -> bool {
    b >= 0x20 && b != 0x22 && b != 0x5c
}

/// A byte allowed in a `url` value: printable ASCII, no quote, no
/// backslash.
pub open spec fn is_plain(b: u8) -> bool {
    0x20 <= b <= 0x7e && b != 0x22 && b != 0x5c
}

/// The character that may follow a backslash in a one-character escape.
pub open spec fn is_escape_char(b: u8) -> bool {
    b == 0x22 || b == 0x5c || b == 0x2f || b == 0x62 || b == 0x66 || b == 0x6e || b == 0x72
        || b == 0x74
}

/// The raw bytes of the member key `url`.
pub open spec fn url_key() -> Seq<u8> {
    seq![0x75u8, 0x72u8, 0x6cu8]
}

/// First index at or after `i` that does not hold whitespace.
pub open spec fn ws_end(s: Seq<u8>, i: int) -> int
    decreases s.len() - i,
{
    if 0 <= i < s.len() && is_ws(s[i]) {
        ws_end(s, i + 1)
    } else {
        i
    }
}

/// First index at or after `i` that does not hold a digit.
pub open spec fn digits_end(s: Seq<u8>, i: int) -> int
    decreases s.len() - i,
{
    if 0 <= i < s.len() && is_digit(s[i]) {
        digits_end(s, i + 1)
    } else {
        i
    }
}

/// End of a string whose opening quote stands just before `i`.
pub open spec fn string_tail_end(s: Seq<u8>, i: int) -> int
    decreases s.len() - i,
{
    if i < 0 || i >= s.len() {
        -1
    } else if s[i] == 0x22 {
        i + 1
    } else if s[i] == 0x5c {
        if i + 1 < s.len() && is_escape_char(s[i + 1]) {
            string_tail_end(s, i + 2)
        } else if i + 5 < s.len() && s[i + 1] == 0x75 && is_hex(s[i + 2]) && is_hex(s[i + 3])
            && is_hex(s[i + 4]) && is_hex(s[i + 5]) {
            string_tail_end(s, i + 6)
        } else {
            -1
        }
    } else if is_str_byte(s[i]) {
        string_tail_end(s, i + 1)
    } else {
        -1
    }
}

/// End of a `url` value string whose opening quote stands just before
/// `i`: only plain bytes up to the closing quote.
pub open spec fn plain_string_end(s: Seq<u8>, i: int) -> int
    decreases s.len() - i,
{
    if i < 0 || i >= s.len() {
        -1
    } else if s[i] == 0x22 {
        i + 1
    } else if is_plain(s[i]) {
        plain_string_end(s, i + 1)
    } else {
        -1
    }
}

/// End of a number starting at `i`: optional minus, digits, optional
/// fraction, optional exponent.
pub open spec fn number_end(s: Seq<u8>, i: int) -> int {
    if i < 0 || i >= s.len() {
        -1
    } else {
        let j = if s[i] == 0x2d {
            i + 1
        } else {
            i
        };
        if !(j < s.len() && is_digit(s[j])) {
            -1
        } else {
            let d = digits_end(s, j);
            let f = if d < s.len() && s[d] == 0x2e {
                if d + 1 < s.len() && is_digit(s[d + 1]) {
                    digits_end(s, d + 1)
                } else {
                    -1
                }
            } else {
                d
            };
            if f < 0 {
                -1
            } else {
                if f < s.len() && (s[f] == 0x65 || s[f] == 0x45) {
                    let g = if f + 1 < s.len() && (s[f + 1] == 0x2b || s[f + 1] == 0x2d) {
                        f + 2
                    } else {
                        f + 1
                    };
                    if g < s.len() && is_digit(s[g]) {
                        digits_end(s, g)
                    } else {
                        -1
                    }
                } else {
                    f
                }
            }
        }
    }
}

/// End of any JSON value starting exactly at `i` (no leading whitespace).
pub open spec fn value_end(s: Seq<u8>, i: int) -> int
    decreases s.len() - i, 0int,
{
    if i < 0 || i >= s.len() {
        -1
    } else if s[i] == 0x22 {  // '"'
        string_tail_end(s, i + 1)
    } else if s[i] == 0x5b {  // '['
        let j = ws_end(s, i + 1);
        if i + 1 <= j <= s.len() {
            list_end(s, j)
        } else {
            -1
        }
    } else if s[i] == 0x7b {  // '{'
        let j = ws_end(s, i + 1);
        if i + 1 <= j <= s.len() {
            membs_end(s, j)
        } else {
            -1
        }
    } else if s[i] == 0x74 {  // "true"
        if i + 3 < s.len() && s[i + 1] == 0x72 && s[i + 2] == 0x75 && s[i + 3] == 0x65 {
            i + 4
        } else {
            -1
        }
    } else if s[i] == 0x66 {  // "false"
        if i + 4 < s.len() && s[i + 1] == 0x61 && s[i + 2] == 0x6c && s[i + 3] == 0x73 && s[i + 4]
            == 0x65 {
            i + 5
        } else {
            -1
        }
    } else if s[i] == 0x6e {  // "null"
        if i + 3 < s.len() && s[i + 1] == 0x75 && s[i + 2] == 0x6c && s[i + 3] == 0x6c {
            i + 4
        } else {
            -1
        }
    } else if s[i] == 0x2d || is_digit(s[i]) {
        number_end(s, i)
    } else {
        -1
    }
}

/// End of an array's elements: `i` stands at the first element or at the
/// closing bracket, whitespace already skipped. Ends one past `]`.
pub open spec fn list_end(s: Seq<u8>, i: int) -> int
    decreases s.len() - i, 1int,
{
    if i < 0 || i >= s.len() {
        -1
    } else if s[i] == 0x5d {  // ']'
        i + 1
    } else {
        let v = value_end(s, i);
        if v <= i {
            -1
        } else {
            let k = ws_end(s, v);
            if k < v {
                -1
            } else if k < s.len() && s[k] == 0x2c {  // ','
                let n = ws_end(s, k + 1);
                if k + 1 <= n <= s.len() {
                    list_end(s, n)
                } else {
                    -1
                }
            } else if k < s.len() && s[k] == 0x5d {
                k + 1
            } else {
                -1
            }
        }
    }
}

/// End of an object's members: `i` stands at the first key or at the
/// closing brace, whitespace already skipped. Ends one past `}`.
pub open spec fn membs_end(s: Seq<u8>, i: int) -> int
    decreases s.len() - i, 1int,
{
    if i < 0 || i >= s.len() {
        -1
    } else if s[i] == 0x7d {  // '}'
        i + 1
    } else if s[i] == 0x22 {
        let ke = string_tail_end(s, i + 1);
        if ke <= i {
            -1
        } else {
            let c = ws_end(s, ke);
            if c < ke {
                -1
            } else if c < s.len() && s[c] == 0x3a {  // ':'
                let v0 = ws_end(s, c + 1);
                if !(c + 1 <= v0 <= s.len()) {
                    -1
                } else {
                    let v = value_end(s, v0);
                    if v <= v0 {
                        -1
                    } else {
                        let k = ws_end(s, v);
                        if k < v {
                            -1
                        } else if k < s.len() && s[k] == 0x2c {
                            let n = ws_end(s, k + 1);
                            if k + 1 <= n <= s.len() {
                                membs_end(s, n)
                            } else {
                                -1
                            }
                        } else if k < s.len() && s[k] == 0x7d {
                            k + 1
                        } else {
                            -1
                        }
                    }
                }
            } else {
                -1
            }
        }
    } else {
        -1
    }
}

/// Walk of one record's members, collecting the `url` value. `i` stands at
/// the first key or at the closing brace; `acc` is the value found so far
/// (a second `url` member fails the record, as a strict field reading
/// does). Yields the index one past `}` and the collected value, or `-1`
/// when the record does not match.
pub open spec fn record_membs(s: Seq<u8>, i: int, acc: Option<Seq<u8>>) -> (int, Option<Seq<u8>>)
    decreases s.len() - i, 1int,
{
    if i < 0 || i >= s.len() {
        (-1, acc)
    } else if s[i] == 0x7d {  // '}'
        (i + 1, acc)
    } else if s[i] == 0x22 {
        let ke = string_tail_end(s, i + 1);
        if ke <= i {
            (-1, acc)
        } else {
            let c = ws_end(s, ke);
            if c < ke {
                (-1, acc)
            } else if c < s.len() && s[c] == 0x3a {
                let v0 = ws_end(s, c + 1);
                if !(c + 1 <= v0 <= s.len()) {
                    (-1, acc)
                } else if s.subrange(i + 1, ke - 1) == url_key() {
                    // the url member: exactly one per record, its value a
                    // plain string
                    if acc is Some {
                        (-1, acc)
                    } else if v0 < s.len() && s[v0] == 0x22 {
                        let v = plain_string_end(s, v0 + 1);
                        if v <= v0 {
                            (-1, acc)
                        } else {
                            let got = Some(s.subrange(v0 + 1, v - 1));
                            let k = ws_end(s, v);
                            if k < v {
                                (-1, acc)
                            } else if k < s.len() && s[k] == 0x2c {
                                let n = ws_end(s, k + 1);
                                if k + 1 <= n <= s.len() {
                                    record_membs(s, n, got)
                                } else {
                                    (-1, acc)
                                }
                            } else if k < s.len() && s[k] == 0x7d {
                                (k + 1, got)
                            } else {
                                (-1, acc)
                            }
                        }
                    } else {
                        (-1, acc)
                    }
                } else {
                    let v = value_end(s, v0);
                    if v <= v0 {
                        (-1, acc)
                    } else {
                        let k = ws_end(s, v);
                        if k < v {
                            (-1, acc)
                        } else if k < s.len() && s[k] == 0x2c {
                            let n = ws_end(s, k + 1);
                            if k + 1 <= n <= s.len() {
                                record_membs(s, n, acc)
                            } else {
                                (-1, acc)
                            }
                        } else if k < s.len() && s[k] == 0x7d {
                            (k + 1, acc)
                        } else {
                            (-1, acc)
                        }
                    }
                }
            } else {
                (-1, acc)
            }
        }
    } else {
        (-1, acc)
    }
}

/// Walk of the top-level records: `i` stands at the opening brace of a
/// record. Yields the index one past the array's `]` and the records'
/// `url` values in order, or `-1` when the bytes do not match.
pub open spec fn records(s: Seq<u8>, i: int) -> (int, Seq<Seq<u8>>)
    decreases s.len() - i, 2int,
{
    if i < 0 || i >= s.len() {
        (-1, Seq::empty())
    } else if s[i] == 0x7b {  // '{'
        let j = ws_end(s, i + 1);
        if j < i + 1 {
            (-1, Seq::empty())
        } else {
            let rm = record_membs(s, j, Option::<Seq<u8>>::None);
            if rm.0 <= i || rm.1 is None {
                (-1, Seq::empty())
            } else {
                let u = rm.1.unwrap();
                let k = ws_end(s, rm.0);
                if k < rm.0 {
                    (-1, Seq::empty())
                } else if k < s.len() && s[k] == 0x2c {
                    let n = ws_end(s, k + 1);
                    if k + 1 <= n <= s.len() {
                        let rest = records(s, n);
                        if rest.0 >= 0 {
                            (rest.0, seq![u] + rest.1)
                        } else {
                            (-1, Seq::empty())
                        }
                    } else {
                        (-1, Seq::empty())
                    }
                } else if k < s.len() && s[k] == 0x5d {  // ']'
                    (k + 1, seq![u])
                } else {
                    (-1, Seq::empty())
                }
            }
        }
    } else {
        (-1, Seq::empty())
    }
}

/// The view of an optional byte buffer.
pub open spec fn opt_view(a: Option<Vec<u8>>) -> Option<Seq<u8>> {
    match a {
        Some(v) => Some(v@),
        None => None,
    }
}

fn is_ws_x(b: u8) -> (r: bool)
    ensures
        r == is_ws(b),
{
    b == 0x20 || b == 0x09 || b == 0x0a || b == 0x0d
}

fn is_digit_x(b: u8) -> (r: bool)
    ensures
        r == is_digit(b),
{
    0x30 <= b && b <= 0x39
}

fn is_hex_x(b: u8) -> (r: bool)
    ensures
        r == is_hex(b),
{
    (0x30 <= b && b <= 0x39) || (0x41 <= b && b <= 0x46) || (0x61 <= b && b <= 0x66)
}

fn is_escape_char_x(b: u8) -> (r: bool)
    ensures
        r == is_escape_char(b),
{
    b == 0x22 || b == 0x5c || b == 0x2f || b == 0x62 || b == 0x66 || b == 0x6e || b == 0x72
        || b == 0x74
}

fn ws_end_x(s: &Vec<u8>, i: usize) -> (r: usize)
    requires
        i <= s@.len(),
    ensures
        r as int == ws_end(s@, i as int),
        i <= r <= s@.len(),
    decreases s@.len() - i,
{
    if i < s.len() && is_ws_x(s[i]) {
        ws_end_x(s, i + 1)
    } else {
        i
    }
}

fn digits_end_x(s: &Vec<u8>, i: usize) -> (r: usize)
    requires
        i <= s@.len(),
    ensures
        r as int == digits_end(s@, i as int),
        i <= r <= s@.len(),
        i < s@.len() && is_digit(s@[i as int]) ==> i < r,
    decreases s@.len() - i,
{
    if i < s.len() && is_digit_x(s[i]) {
        digits_end_x(s, i + 1)
    } else {
        i
    }
}

fn string_tail_end_x(s: &Vec<u8>, i: usize) -> (r: Option<usize>)
    requires
        i <= s@.len(),
    ensures
        ({
            let e = string_tail_end(s@, i as int);
            match r {
                Some(v) => v as int == e && i < v <= s@.len(),
                None => e == -1,
            }
        }),
    decreases s@.len() - i,
{
    if i >= s.len() {
        None
    } else if s[i] == 0x22 {
        Some(i + 1)
    } else if s[i] == 0x5c {
        if s.len() - i > 1 && is_escape_char_x(s[i + 1]) {
            string_tail_end_x(s, i + 2)
        } else if s.len() - i > 5 && s[i + 1] == 0x75 && is_hex_x(s[i + 2]) && is_hex_x(s[i + 3])
            && is_hex_x(s[i + 4]) && is_hex_x(s[i + 5]) {
            string_tail_end_x(s, i + 6)
        } else {
            None
        }
    } else if s[i] >= 0x20 && s[i] != 0x22 && s[i] != 0x5c {
        string_tail_end_x(s, i + 1)
    } else {
        None
    }
}

fn plain_string_end_x(s: &Vec<u8>, i: usize) -> (r: Option<usize>)
    requires
        i <= s@.len(),
    ensures
        ({
            let e = plain_string_end(s@, i as int);
            match r {
                Some(v) => v as int == e && i < v <= s@.len(),
                None => e == -1,
            }
        }),
    decreases s@.len() - i,
{
    if i >= s.len() {
        None
    } else if s[i] == 0x22 {
        Some(i + 1)
    } else if 0x20 <= s[i] && s[i] <= 0x7e && s[i] != 0x22 && s[i] != 0x5c {
        plain_string_end_x(s, i + 1)
    } else {
        None
    }
}

fn number_end_x(s: &Vec<u8>, i: usize) -> (r: Option<usize>)
    requires
        i <= s@.len(),
    ensures
        ({
            let e = number_end(s@, i as int);
            match r {
                Some(v) => v as int == e && i < v <= s@.len(),
                None => e == -1,
            }
        }),
{
    if i >= s.len() {
        None
    } else {
        let j: usize = if s[i] == 0x2d {
            i + 1
        } else {
            i
        };
        if !(j < s.len() && is_digit_x(s[j])) {
            None
        } else {
            let d = digits_end_x(s, j);
            let f: Option<usize> = if d < s.len() && s[d] == 0x2e {
                if s.len() - d > 1 && is_digit_x(s[d + 1]) {
                    Some(digits_end_x(s, d + 1))
                } else {
                    None
                }
            } else {
                Some(d)
            };
            match f {
                None => None,
                Some(f) => {
                    if f < s.len() && (s[f] == 0x65 || s[f] == 0x45) {
                        let g: usize = if s.len() - f > 1 && (s[f + 1] == 0x2b || s[f + 1]
                            == 0x2d) {
                            f + 2
                        } else {
                            f + 1
                        };
                        if g < s.len() && is_digit_x(s[g]) {
                            Some(digits_end_x(s, g))
                        } else {
                            None
                        }
                    } else {
                        Some(f)
                    }
                },
            }
        }
    }
}

fn value_end_x(s: &Vec<u8>, i: usize) -> (r: Option<usize>)
    requires
        i <= s@.len(),
    ensures
        ({
            let e = value_end(s@, i as int);
            match r {
                Some(v) => v as int == e && i < v <= s@.len(),
                None => e == -1,
            }
        }),
    decreases s@.len() - i, 0int,
{
    if i >= s.len() {
        None
    } else if s[i] == 0x22 {
        string_tail_end_x(s, i + 1)
    } else if s[i] == 0x5b {
        let j = ws_end_x(s, i + 1);
        list_end_x(s, j)
    } else if s[i] == 0x7b {
        let j = ws_end_x(s, i + 1);
        membs_end_x(s, j)
    } else if s[i] == 0x74 {
        if s.len() - i > 3 && s[i + 1] == 0x72 && s[i + 2] == 0x75 && s[i + 3] == 0x65 {
            Some(i + 4)
        } else {
            None
        }
    } else if s[i] == 0x66 {
        if s.len() - i > 4 && s[i + 1] == 0x61 && s[i + 2] == 0x6c && s[i + 3] == 0x73 && s[i + 4]
            == 0x65 {
            Some(i + 5)
        } else {
            None
        }
    } else if s[i] == 0x6e {
        if s.len() - i > 3 && s[i + 1] == 0x75 && s[i + 2] == 0x6c && s[i + 3] == 0x6c {
            Some(i + 4)
        } else {
            None
        }
    } else if s[i] == 0x2d || is_digit_x(s[i]) {
        number_end_x(s, i)
    } else {
        None
    }
}

fn list_end_x(s: &Vec<u8>, i: usize) -> (r: Option<usize>)
    requires
        i <= s@.len(),
    ensures
        ({
            let e = list_end(s@, i as int);
            match r {
                Some(v) => v as int == e && i < v <= s@.len(),
                None => e == -1,
            }
        }),
    decreases s@.len() - i, 1int,
{
    if i >= s.len() {
        None
    } else if s[i] == 0x5d {
        Some(i + 1)
    } else {
        match value_end_x(s, i) {
            None => None,
            Some(v) => {
                let k = ws_end_x(s, v);
                if k < s.len() && s[k] == 0x2c {
                    let n = ws_end_x(s, k + 1);
                    list_end_x(s, n)
                } else if k < s.len() && s[k] == 0x5d {
                    Some(k + 1)
                } else {
                    None
                }
            },
        }
    }
}

fn membs_end_x(s: &Vec<u8>, i: usize) -> (r: Option<usize>)
    requires
        i <= s@.len(),
    ensures
        ({
            let e = membs_end(s@, i as int);
            match r {
                Some(v) => v as int == e && i < v <= s@.len(),
                None => e == -1,
            }
        }),
    decreases s@.len() - i, 1int,
{
    if i >= s.len() {
        None
    } else if s[i] == 0x7d {
        Some(i + 1)
    } else if s[i] == 0x22 {
        match string_tail_end_x(s, i + 1) {
            None => None,
            Some(ke) => {
                let c = ws_end_x(s, ke);
                if c < s.len() && s[c] == 0x3a {
                    let v0 = ws_end_x(s, c + 1);
                    match value_end_x(s, v0) {
                        None => None,
                        Some(v) => {
                            let k = ws_end_x(s, v);
                            if k < s.len() && s[k] == 0x2c {
                                let n = ws_end_x(s, k + 1);
                                membs_end_x(s, n)
                            } else if k < s.len() && s[k] == 0x7d {
                                Some(k + 1)
                            } else {
                                None
                            }
                        },
                    }
                } else {
                    None
                }
            },
        }
    } else {
        None
    }
}

/// Copies `s[a..b]`.
fn copy_range(s: &Vec<u8>, a: usize, b: usize) -> (r: Vec<u8>)
    requires
        a <= b <= s@.len(),
    ensures
        r@ == s@.subrange(a as int, b as int),
{
    let mut r: Vec<u8> = Vec::new();
    let mut k: usize = a;
    while k < b
        invariant
            a <= k <= b <= s@.len(),
            r@ == s@.subrange(a as int, k as int),
        decreases b - k,
    {
        r.push(s[k]);
        assert(s@.subrange(a as int, k as int).push(s@[k as int]) =~= s@.subrange(
            a as int,
            k + 1int,
        ));
        k = k + 1;
    }
    r
}

fn record_membs_x(s: &Vec<u8>, i: usize, acc: Option<Vec<u8>>) -> (r: (
    Option<usize>,
    Option<Vec<u8>>,
))
    requires
        i <= s@.len(),
    ensures
        ({
            let e = record_membs(s@, i as int, opt_view(acc));
            match r.0 {
                Some(v) => v as int == e.0 && i < v <= s@.len() && opt_view(r.1) == e.1,
                None => e.0 == -1,
            }
        }),
    decreases s@.len() - i, 1int,
{
    if i >= s.len() {
        (None, acc)
    } else if s[i] == 0x7d {
        (Some(i + 1), acc)
    } else if s[i] == 0x22 {
        match string_tail_end_x(s, i + 1) {
            None => (None, acc),
            Some(ke) => {
                let c = ws_end_x(s, ke);
                if c < s.len() && s[c] == 0x3a {
                    let v0 = ws_end_x(s, c + 1);
                    let key_is_url = ke - 1 - (i + 1) == 3 && s[i + 1] == 0x75 && s[i + 2] == 0x72
                        && s[i + 3] == 0x6c;
                    proof {
                        if key_is_url {
                            assert(s@.subrange(i + 1, ke - 1) =~= url_key());
                        } else {
                            assert(s@.subrange(i + 1, ke - 1) != url_key()) by {
                                if s@.subrange(i + 1, ke - 1) == url_key() {
                                    assert(s@.subrange(i + 1, ke - 1).len() == 3);
                                    assert(s@.subrange(i + 1, ke - 1)[0] == s@[i + 1]);
                                    assert(s@.subrange(i + 1, ke - 1)[1] == s@[i + 2]);
                                    assert(s@.subrange(i + 1, ke - 1)[2] == s@[i + 3]);
                                }
                            }
                        }
                    }
                    if key_is_url {
                        if acc.is_some() {
                            (None, acc)
                        } else if v0 < s.len() && s[v0] == 0x22 {
                            match plain_string_end_x(s, v0 + 1) {
                                None => (None, acc),
                                Some(v) => {
                                    let got = Some(copy_range(s, v0 + 1, v - 1));
                                    let k = ws_end_x(s, v);
                                    if k < s.len() && s[k] == 0x2c {
                                        let n = ws_end_x(s, k + 1);
                                        record_membs_x(s, n, got)
                                    } else if k < s.len() && s[k] == 0x7d {
                                        (Some(k + 1), got)
                                    } else {
                                        (None, acc)
                                    }
                                },
                            }
                        } else {
                            (None, acc)
                        }
                    } else {
                        match value_end_x(s, v0) {
                            None => (None, acc),
                            Some(v) => {
                                let k = ws_end_x(s, v);
                                if k < s.len() && s[k] == 0x2c {
                                    let n = ws_end_x(s, k + 1);
                                    record_membs_x(s, n, acc)
                                } else if k < s.len() && s[k] == 0x7d {
                                    (Some(k + 1), acc)
                                } else {
                                    (None, acc)
                                }
                            },
                        }
                    }
                } else {
                    (None, acc)
                }
            },
        }
    } else {
        (None, acc)
    }
}

fn records_x(s: &Vec<u8>, i: usize) -> (r: Option<(usize, Vec<Vec<u8>>)>)
    requires
        i <= s@.len(),
    ensures
        ({
            let e = records(s@, i as int);
            match r {
                Some(p) => p.0 as int == e.0 && i < p.0 <= s@.len() && p.1@.len() == e.1.len()
                    && (forall|k: int| 0 <= k < e.1.len() ==> p.1@[k]@ == e.1[k]),
                None => e.0 == -1,
            }
        }),
    decreases s@.len() - i, 2int,
{
    if i >= s.len() {
        None
    } else if s[i] == 0x7b {
        let j = ws_end_x(s, i + 1);
        match record_membs_x(s, j, None) {
            (None, _) => None,
            (Some(rend), url_opt) => {
                match url_opt {
                    None => None,
                    Some(u) => {
                        let k = ws_end_x(s, rend);
                        if k < s.len() && s[k] == 0x2c {
                            let n = ws_end_x(s, k + 1);
                            match records_x(s, n) {
                                None => None,
                                Some((e2, rest)) => {
                                    let ghost u0 = u@;
                                    let ghost rest0 = rest@;
                                    let mut us: Vec<Vec<u8>> = Vec::new();
                                    us.push(u);
                                    let mut t: usize = 0;
                                    while t < rest.len()
                                        invariant
                                            t <= rest0.len(),
                                            rest@ == rest0,
                                            us@.len() == t + 1,
                                            us@[0]@ == u0,
                                            forall|q: int|
                                                1 <= q <= t ==> #[trigger] us@[q]@ == rest0[q
                                                    - 1]@,
                                        decreases rest0.len() - t,
                                    {
                                        let c = copy_whole(&rest[t]);
                                        us.push(c);
                                        t = t + 1;
                                    }
                                    proof {
                                        let e = records(s@, i as int);
                                        assert(us@.len() == e.1.len());
                                        assert forall|k: int| 0 <= k < e.1.len() implies us@[k]@
                                            == e.1[k] by {
                                            if k >= 1 {
                                                assert(us@[k]@ == rest0[k - 1]@);
                                                assert(e.1[k] == records(s@, n as int).1[k - 1]);
                                            }
                                        }
                                    }
                                    Some((e2, us))
                                },
                            }
                        } else if k < s.len() && s[k] == 0x5d {
                            let mut us: Vec<Vec<u8>> = Vec::new();
                            us.push(u);
                            Some((k + 1, us))
                        } else {
                            None
                        }
                    },
                }
            },
        }
    } else {
        None
    }
}

/// Copies a byte buffer.
fn copy_whole(s: &Vec<u8>) -> (r: Vec<u8>)
    ensures
        r@ == s@,
{
    let r = copy_range(s, 0, s.len());
    assert(s@.subrange(0, s@.len() as int) =~= s@);
    r
}

/// The executable face of [`search_urls`]: the `url` values of every
/// record of the search response, in order, or `None` when the body does
/// not match the grammar.
pub fn search_urls_x(s: &Vec<u8>) -> (r: Option<Vec<Vec<u8>>>)
    ensures
        ({
            match search_urls(s@) {
                Some(us) => r matches Some(v) && v@.len() == us.len() && (forall|k: int|
                    0 <= k < us.len() ==> v@[k]@ == us[k]),
                None => r is None,
            }
        }),
{
    let i = ws_end_x(s, 0);
    if i < s.len() && s[i] == 0x5b {
        let j = ws_end_x(s, i + 1);
        if j < s.len() && s[j] == 0x5d {
            if ws_end_x(s, j + 1) == s.len() {
                Some(Vec::new())
            } else {
                None
            }
        } else {
            match records_x(s, j) {
                None => None,
                Some((e, us)) => {
                    if ws_end_x(s, e) == s.len() {
                        Some(us)
                    } else {
                        None
                    }
                },
            }
        }
    } else {
        None
    }
}

/// The url values of the whole search response: a JSON array of records,
/// nothing but whitespace around it. `None` when the body does not match
/// the grammar.
pub open spec fn search_urls(s: Seq<u8>) -> Option<Seq<Seq<u8>>> {
    let i = ws_end(s, 0);
    if 0 <= i < s.len() && s[i] == 0x5b {  // '['
        let j = ws_end(s, i + 1);
        if 0 <= j < s.len() && s[j] == 0x5d {  // ']'
            if ws_end(s, j + 1) == s.len() {
                Some(Seq::empty())
            } else {
                None
            }
        } else {
            let r = records(s, j);
            if r.0 >= 0 && ws_end(s, r.0) == s.len() {
                Some(r.1)
            } else {
                None
            }
        }
    } else {
        None
    }
}

} // verus!

