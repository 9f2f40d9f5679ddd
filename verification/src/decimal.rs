use vstd::prelude::*;

verus! {

/// 2^64 as a mathematical integer.
pub open spec fn two_pow_64() -> nat {
    0x1_0000_0000_0000_0000
}

/// 2^128 as a mathematical integer.
pub open spec fn two_pow_128() -> nat {
    0x1_0000_0000_0000_0000_0000_0000_0000_0000nat
}

/// The character of a decimal digit.
pub open spec fn digit_char(d: nat) -> char {
    if d == 0 {
        '0'
    } else if d == 1 {
        '1'
    } else if d == 2 {
        '2'
    } else if d == 3 {
        '3'
    } else if d == 4 {
        '4'
    } else if d == 5 {
        '5'
    } else if d == 6 {
        '6'
    } else if d == 7 {
        '7'
    } else if d == 8 {
        '8'
    } else {
        '9'
    }
}

/// The decimal notation of `n`: no sign, no leading zeros, "0" for zero.
pub open spec fn decimal(n: nat) -> Seq<char>
    decreases n,
{
    if n < 10 {
        seq![digit_char(n)]
    } else {
        decimal(n / 10).push(digit_char(n % 10))
    }
}

/// An unsigned 256-bit integer, held as two 128-bit halves.
#[derive(Clone, Copy, Debug, PartialEq, Eq, Structural)]
pub struct U256 {
    pub high: u128,
    pub low: u128,
}

impl U256 {
    /// The number that the two halves stand for.
    pub open spec fn value(self) -> nat {
        self.high as nat * two_pow_128() + self.low as nat
    }

    /// The 256-bit integer equal to `x`.
    pub fn from_u128(x: u128) -> (r: U256)
        ensures
            r.value() == x,
    {
        U256 { high: 0, low: x }
    }

    /// Whether the number is zero.
    pub fn is_zero(&self) -> (r: bool)
        ensures
            r == (self.value() == 0),
    {
        self.high == 0 && self.low == 0
    }

    /// Whether the number is less than `x`.
    pub fn lt_u128(&self, x: u128) -> (r: bool)
        ensures
            r == (self.value() < x),
    {
        self.high == 0 && self.low < x
    }

    /// The number itself where it fits in 128 bits, else `u128::MAX`.
    pub fn saturating_u128(&self) -> (r: u128)
        ensures
            r == if self.value() <= u128::MAX { self.value() } else { u128::MAX as nat },
    {
        if self.high == 0 {
            self.low
        } else {
            u128::MAX
        }
    }

    /// Quotient and remainder of a division by ten.
    fn divmod10(&self) -> (r: (U256, u8))
        ensures
            r.1 < 10,
            r.0.value() * 10 + r.1 == self.value(),
    {
        let qh = self.high / 10;
        let r0 = self.high % 10;
        let lh = self.low / 0x1_0000_0000_0000_0000u128;
        let ll = self.low % 0x1_0000_0000_0000_0000u128;
        let t1 = r0 * 0x1_0000_0000_0000_0000u128 + lh;
        let q1 = t1 / 10;
        let r1 = t1 % 10;
        let t2 = r1 * 0x1_0000_0000_0000_0000u128 + ll;
        let q2 = t2 / 10;
        let r2 = t2 % 10;
        let ql = q1 * 0x1_0000_0000_0000_0000u128 + q2;
        let q = U256 { high: qh, low: ql };
        assert(q.value() * 10 + r2 == self.value());
        (q, r2 as u8)
    }

    /// The decimal notation of the number.
    pub fn to_decimal(&self) -> (s: String)
        ensures
            s@ == decimal(self.value()),
    {
        let (q, r) = self.divmod10();
        let mut acc = String::from_str(digit_str(r));
        let mut n = q;
        while !n.is_zero()
            invariant
                n.value() == 0 ==> decimal(self.value()) == acc@,
                n.value() != 0 ==> decimal(self.value()) == decimal(n.value()) + acc@,
            decreases n.value(),
        {
            let (q, r) = n.divmod10();
            let d = String::from_str(digit_str(r));
            proof {
                if n.value() >= 10 {
                    assert(decimal(n.value()) == decimal(q.value()).push(digit_char(r as nat)));
                    assert(decimal(q.value()).push(digit_char(r as nat)) + acc@ =~= decimal(
                        q.value(),
                    ) + (d@ + acc@));
                } else {
                    assert(q.value() == 0);
                }
            }
            acc = d.concat(acc.as_str());
            n = q;
        }
        acc
    }
}

/// The decimal notation of a 128-bit number.
pub fn u128_to_decimal(x: u128) -> (s: String)
    ensures
        s@ == decimal(x as nat),
{
    U256::from_u128(x).to_decimal()
}

/// A one-character string holding the digit `d`.
fn digit_str(d: u8) -> (s: &'static str)
    requires
        d < 10,
    ensures
        s@ == seq![digit_char(d as nat)],
{
    if d == 0 {
        proof {
            reveal_strlit("0");
        }
        "0"
    } else if d == 1 {
        proof {
            reveal_strlit("1");
        }
        "1"
    } else if d == 2 {
        proof {
            reveal_strlit("2");
        }
        "2"
    } else if d == 3 {
        proof {
            reveal_strlit("3");
        }
        "3"
    } else if d == 4 {
        proof {
            reveal_strlit("4");
        }
        "4"
    } else if d == 5 {
        proof {
            reveal_strlit("5");
        }
        "5"
    } else if d == 6 {
        proof {
            reveal_strlit("6");
        }
        "6"
    } else if d == 7 {
        proof {
            reveal_strlit("7");
        }
        "7"
    } else if d == 8 {
        proof {
            reveal_strlit("8");
        }
        "8"
    } else {
        proof {
            reveal_strlit("9");
        }
        "9"
    }
}

} // verus!
