//! Hexadecimal digits, in capitals, as the emulator writes numbers.

use vstd::prelude::*;

verus! {

/// The hexadecimal digit of `n` (0 to 15), in capitals.
pub open spec fn hex_digit(n: int) -> char {
    if n == 0 {
        '0'
    } else if n == 1 {
        '1'
    } else if n == 2 {
        '2'
    } else if n == 3 {
        '3'
    } else if n == 4 {
        '4'
    } else if n == 5 {
        '5'
    } else if n == 6 {
        '6'
    } else if n == 7 {
        '7'
    } else if n == 8 {
        '8'
    } else if n == 9 {
        '9'
    } else if n == 10 {
        'A'
    } else if n == 11 {
        'B'
    } else if n == 12 {
        'C'
    } else if n == 13 {
        'D'
    } else if n == 14 {
        'E'
    } else {
        'F'
    }
}

pub fn hex_digit_str(n: u8) -> (r: &'static str)
    requires
        n < 16,
    ensures
        r@ == seq![hex_digit(n as int)],
{
    match n {
        0 => {
            proof {
                reveal_strlit("0");
            }
            "0"
        },
        1 => {
            proof {
                reveal_strlit("1");
            }
            "1"
        },
        2 => {
            proof {
                reveal_strlit("2");
            }
            "2"
        },
        3 => {
            proof {
                reveal_strlit("3");
            }
            "3"
        },
        4 => {
            proof {
                reveal_strlit("4");
            }
            "4"
        },
        5 => {
            proof {
                reveal_strlit("5");
            }
            "5"
        },
        6 => {
            proof {
                reveal_strlit("6");
            }
            "6"
        },
        7 => {
            proof {
                reveal_strlit("7");
            }
            "7"
        },
        8 => {
            proof {
                reveal_strlit("8");
            }
            "8"
        },
        9 => {
            proof {
                reveal_strlit("9");
            }
            "9"
        },
        10 => {
            proof {
                reveal_strlit("A");
            }
            "A"
        },
        11 => {
            proof {
                reveal_strlit("B");
            }
            "B"
        },
        12 => {
            proof {
                reveal_strlit("C");
            }
            "C"
        },
        13 => {
            proof {
                reveal_strlit("D");
            }
            "D"
        },
        14 => {
            proof {
                reveal_strlit("E");
            }
            "E"
        },
        _ => {
            proof {
                reveal_strlit("F");
            }
            "F"
        },
    }
}

/// Two hexadecimal digits.
pub open spec fn hex2(value: int) -> Seq<char> {
    seq![hex_digit(value / 16), hex_digit(value % 16)]
}

/// Four hexadecimal digits.
pub open spec fn hex4(value: int) -> Seq<char> {
    seq![hex_digit(value / 4096), hex_digit(value / 256 % 16), hex_digit(value / 16 % 16), hex_digit(value % 16)]
}

/// The value of a hexadecimal digit character (`0`-`9`, `A`-`F`).
pub open spec fn digit_value(c: char) -> int {
    if c as int <= '9' as int {
        c as int - '0' as int
    } else {
        c as int - 'A' as int + 10
    }
}

/// Digit `n` is the character `0` to `9`, or `A` to `F` from 10 on.
pub proof fn lemma_hex_digit(n: int)
    requires
        0 <= n < 16,
    ensures
        hex_digit(n) as int == if n < 10 { '0' as int + n } else { 'A' as int + n - 10 },
        digit_value(hex_digit(n)) == n,
{
}

/// The two and four digits read back, most significant first, as the value.
pub proof fn lemma_hex_value(value: int)
    requires
        0 <= value < 0x10000,
    ensures
        value < 0x100 ==> digit_value(hex2(value)[0]) * 16 + digit_value(hex2(value)[1]) == value,
        digit_value(hex4(value)[0]) * 4096 + digit_value(hex4(value)[1]) * 256 + digit_value(hex4(value)[2]) * 16
            + digit_value(hex4(value)[3]) == value,
{
    assert(0 <= value / 4096 < 16 && 0 <= value / 16 < 16 * 4096) by (nonlinear_arith)
        requires
            0 <= value < 0x10000,
    ;
    lemma_hex_digit(value / 4096);
    lemma_hex_digit(value / 256 % 16);
    lemma_hex_digit(value / 16 % 16);
    lemma_hex_digit(value % 16);
    if value < 0x100 {
        assert(value / 16 < 16) by (nonlinear_arith)
            requires
                0 <= value < 0x100,
        ;
        lemma_hex_digit(value / 16);
    }
    assert(value / 4096 * 4096 + value / 256 % 16 * 256 + value / 16 % 16 * 16 + value % 16 == value) by (nonlinear_arith)
        requires
            0 <= value,
    ;
    assert(value / 16 * 16 + value % 16 == value) by (nonlinear_arith)
        requires
            0 <= value,
    ;
}

/// Appends the two hexadecimal digits of `value`.
pub fn append_hex2(s: &mut String, value: u8)
    ensures
        final(s)@ == old(s)@ + hex2(value as int),
{
    s.append(hex_digit_str(value / 16));
    s.append(hex_digit_str(value % 16));
}

/// Appends the four hexadecimal digits of `value`.
pub fn append_hex4(s: &mut String, value: u16)
    ensures
        final(s)@ == old(s)@ + hex4(value as int),
{
    s.append(hex_digit_str((value / 4096) as u8));
    s.append(hex_digit_str((value / 256 % 16) as u8));
    s.append(hex_digit_str((value / 16 % 16) as u8));
    s.append(hex_digit_str((value % 16) as u8));
}

} // verus!
