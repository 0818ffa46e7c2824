use vstd::prelude::*;
use vstd::string::StringExecFns;

use crate::color::Color;
use crate::digits::{digit_char, digit_str};

verus! {

/// A number in decimal, without leading zeros.
pub open spec fn decimal(n: nat) -> Seq<char>
    decreases n,
{
    if n < 10 {
        seq![digit_char(n as int)]
    } else {
        decimal(n / 10) + seq![digit_char((n % 10) as int)]
    }
}

/// The canonical form `RGB(r, g, b)`, channels in decimal.
pub open spec fn display_string(c: Color) -> Seq<char> {
    let sep = seq![',', ' '];
    seq!['R', 'G', 'B', '('] + decimal(c.r as nat) + sep + decimal(c.g as nat) + sep + decimal(
        c.b as nat,
    ) + seq![')']
}

fn push_decimal(s: &mut String, n: u8)
    ensures
        final(s)@ == old(s)@ + decimal(n as nat),
{
    let q = n / 10;
    if q >= 10 {
        s.append(digit_str(q / 10));
        s.append(digit_str(q % 10));
    } else if q > 0 {
        s.append(digit_str(q));
    }
    s.append(digit_str(n % 10));
    proof {
        reveal_with_fuel(decimal, 3);
    }
}

impl Color {
    /// The canonical text `RGB(r, g, b)`, channels in decimal.
    pub fn to_display_string(&self) -> (s: String)
        ensures
            s@ == display_string(*self),
    {
        let mut s = String::new();
        proof {
            reveal_strlit("RGB(");
            reveal_strlit(", ");
            reveal_strlit(")");
        }
        s.append("RGB(");
        push_decimal(&mut s, self.r);
        s.append(", ");
        push_decimal(&mut s, self.g);
        s.append(", ");
        push_decimal(&mut s, self.b);
        s.append(")");
        s
    }
}

} // verus!
