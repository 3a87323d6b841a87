use crate::date::digit_char;
use vstd::prelude::*;

verus! {

/// One listed company of the US ticker directory.  `cik_str` is the
/// ten-digit zero-padded central index key.
#[derive(Debug, Clone)]
pub struct Ticker {
    pub cik_str: String,
    pub ticker: String,
    pub title: String,
}

/// The ten decimal digits of `n`, most significant first, zero padded.
pub open spec fn spec_cik_digits(n: int) -> Seq<char> {
    seq![
        digit_char((n / 1000000000) % 10),
        digit_char((n / 100000000) % 10),
        digit_char((n / 10000000) % 10),
        digit_char((n / 1000000) % 10),
        digit_char((n / 100000) % 10),
        digit_char((n / 10000) % 10),
        digit_char((n / 1000) % 10),
        digit_char((n / 100) % 10),
        digit_char((n / 10) % 10),
        digit_char(n % 10),
    ]
}

/// Renders a numeric central index key as the ten-digit zero-padded
/// string the directory keys companies by.
pub fn format_cik(n: u32) -> (r: String)
    ensures
        r@ == spec_cik_digits(n as int),
        r@.len() == 10,
{
    let mut s = String::new();
    s.append(crate::date::digit_str(((n / 1000000000) % 10) as u8));
    s.append(crate::date::digit_str(((n / 100000000) % 10) as u8));
    s.append(crate::date::digit_str(((n / 10000000) % 10) as u8));
    s.append(crate::date::digit_str(((n / 1000000) % 10) as u8));
    s.append(crate::date::digit_str(((n / 100000) % 10) as u8));
    s.append(crate::date::digit_str(((n / 10000) % 10) as u8));
    s.append(crate::date::digit_str(((n / 1000) % 10) as u8));
    s.append(crate::date::digit_str(((n / 100) % 10) as u8));
    s.append(crate::date::digit_str(((n / 10) % 10) as u8));
    s.append(crate::date::digit_str((n % 10) as u8));
    proof {
        assert(s@ =~= spec_cik_digits(n as int));
    }
    s
}

} // verus!
