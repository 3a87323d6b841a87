use crate::error::Error;
use vstd::prelude::*;

verus! {

pub open spec fn is_hex_digit(c: char) -> bool {
    (48 <= c as u32 <= 57) || (97 <= c as u32 <= 102) || (65 <= c as u32 <= 70)
}

/// The value of one hexadecimal digit, either case.
pub open spec fn hex_val(c: char) -> int {
    if 48 <= c as u32 <= 57 {
        c as u32 - 48
    } else if 97 <= c as u32 <= 102 {
        c as u32 - 87
    } else {
        c as u32 - 55
    }
}

/// The lower-case hexadecimal digit character for a value below sixteen.
pub open spec fn hex_char(v: int) -> char {
    if v == 0 {
        '0'
    } else if v == 1 {
        '1'
    } else if v == 2 {
        '2'
    } else if v == 3 {
        '3'
    } else if v == 4 {
        '4'
    } else if v == 5 {
        '5'
    } else if v == 6 {
        '6'
    } else if v == 7 {
        '7'
    } else if v == 8 {
        '8'
    } else if v == 9 {
        '9'
    } else if v == 10 {
        'a'
    } else if v == 11 {
        'b'
    } else if v == 12 {
        'c'
    } else if v == 13 {
        'd'
    } else if v == 14 {
        'e'
    } else {
        'f'
    }
}

fn hex_digit_str(v: u8) -> (r: &'static str)
    requires
        v <= 15,
    ensures
        r@ =~= seq![hex_char(v as int)],
{
    proof {
        reveal_strlit("0");
        reveal_strlit("1");
        reveal_strlit("2");
        reveal_strlit("3");
        reveal_strlit("4");
        reveal_strlit("5");
        reveal_strlit("6");
        reveal_strlit("7");
        reveal_strlit("8");
        reveal_strlit("9");
        reveal_strlit("a");
        reveal_strlit("b");
        reveal_strlit("c");
        reveal_strlit("d");
        reveal_strlit("e");
        reveal_strlit("f");
    }
    match v {
        0 => "0",
        1 => "1",
        2 => "2",
        3 => "3",
        4 => "4",
        5 => "5",
        6 => "6",
        7 => "7",
        8 => "8",
        9 => "9",
        10 => "a",
        11 => "b",
        12 => "c",
        13 => "d",
        14 => "e",
        _ => "f",
    }
}

/// Renders bytes as lower-case hexadecimal, two digits for each byte.
///
/// The `Result` never fails; it mirrors the shape of the original service
/// interface, whose string writer reported an error channel it never used.
pub fn encode(bytes: &[u8]) -> (r: Result<String, Error>)
    ensures
        r matches Ok(s) && s@.len() == 2 * bytes@.len(),
        r matches Ok(s) ==> forall|i: int|
            0 <= i < bytes@.len() ==> s@[2 * i] == hex_char(bytes@[i] as int / 16)
                && s@[2 * i + 1] == hex_char(bytes@[i] as int % 16),
{
    let mut s = String::new();
    let n = bytes.len();
    let mut i: usize = 0;
    while i < n
        invariant
            n == bytes@.len(),
            i <= n,
            s@.len() == 2 * i,
            forall|k: int|
                0 <= k < i ==> s@[2 * k] == hex_char(bytes@[k] as int / 16) && s@[2 * k + 1] == hex_char(
                    bytes@[k] as int % 16,
                ),
        decreases n - i,
    {
        let b = bytes[i];
        s.append(hex_digit_str(b / 16));
        s.append(hex_digit_str(b % 16));
        i = i + 1;
    }
    Ok(s)
}

fn read_hex_digit(s: &str, i: usize) -> (r: Option<u8>)
    requires
        i < s@.len(),
    ensures
        match r {
            Some(v) => is_hex_digit(s@[i as int]) && v == hex_val(s@[i as int]),
            None => !is_hex_digit(s@[i as int]),
        },
{
    let c = s.get_char(i) as u32;
    if 48 <= c && c <= 57 {
        Some((c - 48) as u8)
    } else if 97 <= c && c <= 102 {
        Some((c - 87) as u8)
    } else if 65 <= c && c <= 70 {
        Some((c - 55) as u8)
    } else {
        None
    }
}

/// Reads a hexadecimal string of digit pairs back into bytes.
///
/// The string's length must be even: the original read two characters per
/// byte unconditionally.  A character outside `0-9a-fA-F` is an error.
pub fn decode(s: &str) -> (r: Result<Vec<u8>, Error>)
    requires
        s@.len() % 2 == 0,
    ensures
        r matches Ok(v) ==> {
            &&& forall|i: int| 0 <= i < s@.len() ==> is_hex_digit(s@[i])
            &&& v@.len() == s@.len() / 2
            &&& forall|j: int|
                0 <= j < v@.len() ==> v@[j] == 16 * hex_val(s@[2 * j]) + hex_val(s@[2 * j + 1])
        },
        r is Err ==> exists|i: int| 0 <= i < s@.len() && !is_hex_digit(s@[i]),
{
    let n = s.unicode_len();
    let mut v: Vec<u8> = Vec::new();
    let mut i: usize = 0;
    while i < n
        invariant
            n == s@.len(),
            n % 2 == 0,
            i <= n,
            i % 2 == 0,
            v@.len() == i / 2,
            forall|k: int| 0 <= k < i ==> is_hex_digit(s@[k]),
            forall|j: int|
                0 <= j < v@.len() ==> v@[j] == 16 * hex_val(s@[2 * j]) + hex_val(s@[2 * j + 1]),
        decreases n - i,
    {
        let hi = match read_hex_digit(s, i) {
            Some(d) => d,
            None => {
                return Err(Error::InvalidHex);
            },
        };
        let lo = match read_hex_digit(s, i + 1) {
            Some(d) => d,
            None => {
                return Err(Error::InvalidHex);
            },
        };
        v.push(16 * hi + lo);
        i = i + 2;
    }
    Ok(v)
}

} // verus!
