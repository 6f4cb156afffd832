use vstd::prelude::*;

verus! {

/// The character of a decimal digit `d < 10`.
pub open spec fn digit_char(d: nat) -> char {
    if d < 10 {
        (d + 48) as char
    } else {
        '?'
    }
}

/// The decimal text of `n`: no sign, no leading zeros, "0" for zero.
pub open spec fn decimal(n: nat) -> Seq<char>
    decreases n,
{
    if n < 10 {
        seq![digit_char(n)]
    } else {
        decimal(n / 10) + seq![digit_char(n % 10)]
    }
}

/// Every byte of `s` is an ASCII digit.
pub open spec fn all_digits(s: Seq<u8>) -> bool {
    forall|i: int| 0 <= i < s.len() ==> 48 <= #[trigger] s[i] <= 57
}

/// The number that a string of ASCII digits spells, most significant first.
pub open spec fn digits_value(s: Seq<u8>) -> nat
    decreases s.len(),
{
    if s.len() == 0 {
        0
    } else {
        digits_value(s.drop_last()) * 10 + (s.last() - 48) as nat
    }
}

/// The unsigned 64-bit number that the bytes `b` spell in decimal, if any:
/// an optional `+`, then one or more ASCII digits, with a value that fits.
pub open spec fn decimal_u64(b: Seq<u8>) -> Option<u64> {
    let d = if b.len() > 0 && b[0] == 43u8 {
        b.drop_first()
    } else {
        b
    };
    if d.len() > 0 && all_digits(d) && digits_value(d) <= u64::MAX {
        Some(digits_value(d) as u64)
    } else {
        None
    }
}

fn digit_str(d: u64) -> (r: &'static str)
    requires
        d < 10,
    ensures
        r@ == seq![digit_char(d as nat)],
{
    proof {
        reveal_strlit("0");
        reveal_strlit("1");
        reveal_strlit("2");
        reveal_strlit("3");
        reveal_strlit("4");
        reveal_strlit("5");
        reveal_strlit("6");
        reveal_strlit("7");
        reveal_strlit("8");
        reveal_strlit("9");
    }
    let r = match d {
        0 => "0",
        1 => "1",
        2 => "2",
        3 => "3",
        4 => "4",
        5 => "5",
        6 => "6",
        7 => "7",
        8 => "8",
        _ => "9",
    };
    assert(r@ =~= seq![digit_char(d as nat)]);
    r
}

/// The decimal text of `n`.
pub fn to_decimal(n: u64) -> (r: String)
    ensures
        r@ == decimal(n as nat),
    decreases n,
{
    if n < 10 {
        String::from_str(digit_str(n))
    } else {
        let mut s = to_decimal(n / 10);
        s.append(digit_str(n % 10));
        s
    }
}

proof fn lemma_prefix_value_grows(s: Seq<u8>, i: int)
    requires
        all_digits(s),
        0 <= i <= s.len(),
    ensures
        digits_value(s.subrange(0, i)) <= digits_value(s),
    decreases s.len() - i,
{
    if i < s.len() {
        lemma_prefix_value_grows(s, i + 1);
        let p = s.subrange(0, i + 1);
        assert(p.drop_last() =~= s.subrange(0, i));
        assert(48 <= p.last() <= 57);
    } else {
        assert(s.subrange(0, i) =~= s);
    }
}

/// Reads an unsigned 64-bit decimal number, as `u64`'s `FromStr` does.
pub fn parse_decimal_u64(b: &[u8]) -> (r: Option<u64>)
    ensures
        r == decimal_u64(b@),
{
    let mut start: usize = 0;
    if b.len() > 0 && b[0] == 43u8 {
        start = 1;
    }
    let ghost d = if b@.len() > 0 && b@[0] == 43u8 {
        b@.drop_first()
    } else {
        b@
    };
    assert(d =~= b@.subrange(start as int, b@.len() as int));
    if start >= b.len() {
        return None;
    }
    assert(decimal_u64(b@) == if all_digits(d) && digits_value(d) <= u64::MAX {
        Some(digits_value(d) as u64)
    } else {
        None::<u64>
    });
    let mut v: u64 = 0;
    let mut i: usize = start;
    while i < b.len()
        invariant
            start <= i <= b.len(),
            d =~= b@.subrange(start as int, b@.len() as int),
            decimal_u64(b@) == if all_digits(d) && digits_value(d) <= u64::MAX {
                Some(digits_value(d) as u64)
            } else {
                None::<u64>
            },
            all_digits(d.subrange(0, i - start)),
            v as nat == digits_value(d.subrange(0, i - start)),
        decreases b.len() - i,
    {
        let c = b[i];
        let ghost p = d.subrange(0, i - start + 1);
        assert(p.drop_last() =~= d.subrange(0, i - start));
        assert(p.last() == c);
        if c < 48 || c > 57 {
            assert(!all_digits(d));
            return None;
        }
        let dv: u64 = (c - 48) as u64;
        if v > (u64::MAX - dv) / 10 {
            proof {
                assert(v * 10 + dv > u64::MAX) by (nonlinear_arith)
                    requires
                        v > (u64::MAX - dv) / 10,
                        dv <= 9,
                ;
                if all_digits(d) {
                    lemma_prefix_value_grows(d, i - start + 1);
                }
            }
            return None;
        }
        assert(v * 10 + dv <= u64::MAX) by (nonlinear_arith)
            requires
                v <= (u64::MAX - dv) / 10,
                dv <= 9,
        ;
        v = v * 10 + dv;
        i = i + 1;
        assert(all_digits(p));
    }
    assert(d.subrange(0, i - start) =~= d);
    Some(v)
}

} // verus!
