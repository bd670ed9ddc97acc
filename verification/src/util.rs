//! Small arithmetic helpers.
use vstd::prelude::*;
use vstd::string::StringExecFns;

verus! {

/// Whether `x` is a power of two.
pub open spec fn spec_is_pow2(x: u32) -> bool {
    x != 0 && x & ((x - 1) as u32) == 0
}

/// What `round_up` computes: `val + rnd - 1` with the bits of `rnd - 1` cleared.
pub open spec fn spec_round_up(val: u32, rnd: u32) -> u32 {
    ((val + rnd - 1) as u32) & !((rnd - 1) as u32)
}

/// Rounds `val` up to a multiple of `rnd`, which is meant to be a power of
/// two: the result is then the least multiple of `rnd` that is not below `val`.
pub fn round_up(val: u32, rnd: u32) -> (r: u32)
    requires
        rnd >= 1,
        val + rnd - 1 <= u32::MAX,
    ensures
        r == spec_round_up(val, rnd),
        spec_is_pow2(rnd) ==> r % rnd == 0 && val <= r < val + rnd,
{
    proof {
        lemma_round_up_pow2(val, rnd);
    }
    (val + (rnd - 1)) & !(rnd - 1)
}

/// For a power of two `rnd`, `spec_round_up(val, rnd)` is the one multiple of
/// `rnd` in `[val, val + rnd)`.
pub proof fn lemma_round_up_pow2(val: u32, rnd: u32)
    requires
        rnd >= 1,
        val + rnd - 1 <= u32::MAX,
    ensures
        spec_is_pow2(rnd) ==> spec_round_up(val, rnd) % rnd == 0 && val <= spec_round_up(val, rnd)
            < val + rnd,
{
    let m: u32 = (rnd - 1) as u32;
    let s: u32 = (val + rnd - 1) as u32;
    assert(s == val + m);
    assert(rnd == m + 1);
    assert(m < 0xffff_ffff && val <= 0xffff_ffff - m && s == val + m && rnd == m + 1 && rnd & m
        == 0 ==> (s & !m) % rnd == 0 && val <= (s & !m) && (s & !m) - val < rnd) by (bit_vector);
}


/// The character of the decimal digit `d`.
pub open spec fn spec_digit(d: nat) -> char {
    if d == 0 {
        '0'
    } else if d == 1 {
        '1'
    } else if d == 2 {
        '2'
    } else if d == 3 {
        '3'
    } else if d == 4 {
        '4'
    } else if d == 5 {
        '5'
    } else if d == 6 {
        '6'
    } else if d == 7 {
        '7'
    } else if d == 8 {
        '8'
    } else {
        '9'
    }
}

/// The decimal digits of `n`, most significant first, with no leading zero.
pub open spec fn spec_decimal(n: nat) -> Seq<char>
    decreases n,
{
    if n < 10 {
        seq![spec_digit(n)]
    } else {
        spec_decimal(n / 10).push(spec_digit(n % 10))
    }
}

/// The decimal digits of `n`, with zeros in front where they are less than four.
pub open spec fn spec_decimal_pad4(n: nat) -> Seq<char> {
    if n < 10 {
        seq!['0', '0', '0'] + spec_decimal(n)
    } else if n < 100 {
        seq!['0', '0'] + spec_decimal(n)
    } else if n < 1000 {
        seq!['0'] + spec_decimal(n)
    } else {
        spec_decimal(n)
    }
}

/// The decimal digit `d` as a string.
fn digit_str(d: u64) -> (s: &'static str)
    requires
        d < 10,
    ensures
        s@ == seq![spec_digit(d as nat)],
{
    proof {
        reveal_strlit("0");
        reveal_strlit("1");
        reveal_strlit("2");
        reveal_strlit("3");
        reveal_strlit("4");
        reveal_strlit("5");
        reveal_strlit("6");
        reveal_strlit("7");
        reveal_strlit("8");
        reveal_strlit("9");
    }
    let s = if d == 0 {
        "0"
    } else if d == 1 {
        "1"
    } else if d == 2 {
        "2"
    } else if d == 3 {
        "3"
    } else if d == 4 {
        "4"
    } else if d == 5 {
        "5"
    } else if d == 6 {
        "6"
    } else if d == 7 {
        "7"
    } else if d == 8 {
        "8"
    } else {
        "9"
    };
    assert(s@ =~= seq![spec_digit(d as nat)]);
    s
}

/// Writes `n` in decimal.
pub fn u64_to_decimal(n: u64) -> (s: String)
    ensures
        s@ == spec_decimal(n as nat),
    decreases n,
{
    if n < 10 {
        String::from_str(digit_str(n))
    } else {
        let mut s = u64_to_decimal(n / 10);
        s.append(digit_str(n % 10));
        assert(s@ =~= spec_decimal((n / 10) as nat).push(spec_digit((n % 10) as nat)));
        s
    }
}

/// Writes `n` in decimal, with zeros in front where it has less than four digits.
pub fn u32_to_decimal_pad4(n: u32) -> (s: String)
    ensures
        s@ == spec_decimal_pad4(n as nat),
{
    proof {
        reveal_strlit("000");
        reveal_strlit("00");
        reveal_strlit("0");
        reveal_strlit("");
    }
    let zeros = if n < 10 {
        "000"
    } else if n < 100 {
        "00"
    } else if n < 1000 {
        "0"
    } else {
        ""
    };
    let mut s = String::from_str(zeros);
    let digits = u64_to_decimal(n as u64);
    s.append(digits.as_str());
    assert(s@ =~= spec_decimal_pad4(n as nat));
    s
}

} // verus!
