//! Plain text rendering of numbers, used by the human-readable forms of
//! error codes and syscall sets.

use vstd::prelude::*;
use vstd::string::StringExecFns;

verus! {

/// The single digit `d` as a character sequence, in a base up to sixteen.
pub open spec fn digit_seq(d: int) -> Seq<char> {
    if d == 0 {
        "0"@
    } else if d == 1 {
        "1"@
    } else if d == 2 {
        "2"@
    } else if d == 3 {
        "3"@
    } else if d == 4 {
        "4"@
    } else if d == 5 {
        "5"@
    } else if d == 6 {
        "6"@
    } else if d == 7 {
        "7"@
    } else if d == 8 {
        "8"@
    } else if d == 9 {
        "9"@
    } else if d == 10 {
        "a"@
    } else if d == 11 {
        "b"@
    } else if d == 12 {
        "c"@
    } else if d == 13 {
        "d"@
    } else if d == 14 {
        "e"@
    } else if d == 15 {
        "f"@
    } else {
        Seq::empty()
    }
}

/// The decimal digits of `n`, most significant first; empty for zero.
pub open spec fn dec_seq(n: int) -> Seq<char>
    decreases n,
{
    if n <= 0 {
        Seq::empty()
    } else {
        dec_seq(n / 10) + digit_seq(n % 10)
    }
}

/// The hexadecimal digits of `n`, most significant first; empty for zero.
pub open spec fn hex_seq(n: int) -> Seq<char>
    decreases n,
{
    if n <= 0 {
        Seq::empty()
    } else {
        hex_seq(n / 16) + digit_seq(n % 16)
    }
}

/// The decimal rendering of `n`: its digits, or a single zero for zero.
pub open spec fn dec_or_zero_seq(n: int) -> Seq<char> {
    if n == 0 {
        "0"@
    } else {
        dec_seq(n)
    }
}

/// A single digit as a static string.
fn digit_str(d: u64) -> (r: &'static str)
    requires
        d < 16,
    ensures
        r@ == digit_seq(d as int),
        r@.len() == 1,
{
    match d {
        0 => {
            proof {
                reveal_strlit("0");
            }
            "0"
        },
        1 => {
            proof {
                reveal_strlit("1");
            }
            "1"
        },
        2 => {
            proof {
                reveal_strlit("2");
            }
            "2"
        },
        3 => {
            proof {
                reveal_strlit("3");
            }
            "3"
        },
        4 => {
            proof {
                reveal_strlit("4");
            }
            "4"
        },
        5 => {
            proof {
                reveal_strlit("5");
            }
            "5"
        },
        6 => {
            proof {
                reveal_strlit("6");
            }
            "6"
        },
        7 => {
            proof {
                reveal_strlit("7");
            }
            "7"
        },
        8 => {
            proof {
                reveal_strlit("8");
            }
            "8"
        },
        9 => {
            proof {
                reveal_strlit("9");
            }
            "9"
        },
        10 => {
            proof {
                reveal_strlit("a");
            }
            "a"
        },
        11 => {
            proof {
                reveal_strlit("b");
            }
            "b"
        },
        12 => {
            proof {
                reveal_strlit("c");
            }
            "c"
        },
        13 => {
            proof {
                reveal_strlit("d");
            }
            "d"
        },
        14 => {
            proof {
                reveal_strlit("e");
            }
            "e"
        },
        15 => {
            proof {
                reveal_strlit("f");
            }
            "f"
        },
        _ => {
            proof {
                assert(false);
            }
            ""
        },
    }
}

/// Renders `n` in decimal; the empty string for zero.
pub fn dec_str(n: u64) -> (r: String)
    ensures
        r@ == dec_seq(n as int),
    decreases n,
{
    if n == 0 {
        String::new()
    } else {
        let mut s = dec_str(n / 10);
        s.append(digit_str(n % 10));
        s
    }
}

/// Renders `n` in hexadecimal; the empty string for zero.
pub fn hex_str(n: u64) -> (r: String)
    ensures
        r@ == hex_seq(n as int),
    decreases n,
{
    if n == 0 {
        String::new()
    } else {
        let mut s = hex_str(n / 16);
        s.append(digit_str(n % 16));
        s
    }
}

/// Renders `n` in decimal, with a single zero for zero.
pub fn dec_or_zero_str(n: u64) -> (r: String)
    ensures
        r@ == dec_or_zero_seq(n as int),
{
    if n == 0 {
        proof {
            reveal_strlit("0");
        }
        String::from_str("0")
    } else {
        dec_str(n)
    }
}

/// The decimal rendering of a signed value: a minus sign and the magnitude
/// for negatives, the plain digits otherwise.
pub open spec fn int_seq(n: int) -> Seq<char> {
    if n < 0 {
        "-"@ + dec_or_zero_seq(-n)
    } else {
        dec_or_zero_seq(n)
    }
}

/// A value with a plain text form, used where a human-readable rendering of
/// container contents is wanted.
pub trait Textual {
    /// The text form, at the specification level.
    spec fn text_seq(&self) -> Seq<char>;

    /// Renders the value as text.
    fn text_string(&self) -> (r: String)
        ensures
            r@ == self.text_seq(),
    ;
}

impl Textual for i64 {
    open spec fn text_seq(&self) -> Seq<char> {
        int_seq(*self as int)
    }

    fn text_string(&self) -> (r: String) {
        if *self < 0 {
            let magnitude: u64 = if *self == i64::MIN {
                9223372036854775808u64
            } else {
                (-*self) as u64
            };
            let mut s = String::from_str("-");
            s.append(dec_or_zero_str(magnitude).as_str());
            s
        } else {
            dec_or_zero_str(*self as u64)
        }
    }
}

impl Textual for i32 {
    open spec fn text_seq(&self) -> Seq<char> {
        int_seq(*self as int)
    }

    fn text_string(&self) -> (r: String) {
        if *self < 0 {
            let magnitude: u64 = (-(*self as i64)) as u64;
            let mut s = String::from_str("-");
            s.append(dec_or_zero_str(magnitude).as_str());
            s
        } else {
            dec_or_zero_str(*self as u64)
        }
    }
}

impl Textual for u32 {
    open spec fn text_seq(&self) -> Seq<char> {
        dec_or_zero_seq(*self as int)
    }

    fn text_string(&self) -> (r: String) {
        dec_or_zero_str(*self as u64)
    }
}

impl Textual for u64 {
    open spec fn text_seq(&self) -> Seq<char> {
        dec_or_zero_seq(*self as int)
    }

    fn text_string(&self) -> (r: String) {
        dec_or_zero_str(*self)
    }
}

} // verus!
