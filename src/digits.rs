use vstd::prelude::*;

verus! {

/// The upper-case base-16 digit for `d` in `0..16`; for `d < 10` also the decimal digit.
pub open spec fn digit_char(d: int) -> char {
    seq!['0', '1', '2', '3', '4', '5', '6', '7', '8', '9', 'A', 'B', 'C', 'D', 'E', 'F'][d]
}

/// The one-character text of `digit_char(d)`.
pub(crate) fn digit_str(d: u8) -> (r: &'static str)
    requires
        d < 16,
    ensures
        r@ == seq![digit_char(d as int)],
{
    if d == 0 {
        proof {
            reveal_strlit("0");
        }
        "0"
    } else if d == 1 {
        proof {
            reveal_strlit("1");
        }
        "1"
    } else if d == 2 {
        proof {
            reveal_strlit("2");
        }
        "2"
    } else if d == 3 {
        proof {
            reveal_strlit("3");
        }
        "3"
    } else if d == 4 {
        proof {
            reveal_strlit("4");
        }
        "4"
    } else if d == 5 {
        proof {
            reveal_strlit("5");
        }
        "5"
    } else if d == 6 {
        proof {
            reveal_strlit("6");
        }
        "6"
    } else if d == 7 {
        proof {
            reveal_strlit("7");
        }
        "7"
    } else if d == 8 {
        proof {
            reveal_strlit("8");
        }
        "8"
    } else if d == 9 {
        proof {
            reveal_strlit("9");
        }
        "9"
    } else if d == 10 {
        proof {
            reveal_strlit("A");
        }
        "A"
    } else if d == 11 {
        proof {
            reveal_strlit("B");
        }
        "B"
    } else if d == 12 {
        proof {
            reveal_strlit("C");
        }
        "C"
    } else if d == 13 {
        proof {
            reveal_strlit("D");
        }
        "D"
    } else if d == 14 {
        proof {
            reveal_strlit("E");
        }
        "E"
    } else {
        proof {
            reveal_strlit("F");
        }
        "F"
    }
}

} // verus!
