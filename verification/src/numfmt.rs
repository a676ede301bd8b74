use vstd::prelude::*;
use vstd::string::StringExecFns;

verus! {

/// The character for one decimal digit value.
pub open spec fn digit_char(d: nat) -> char {
    if d == 0 {
        '0'
    } else if d == 1 {
        '1'
    } else if d == 2 {
        '2'
    } else if d == 3 {
        '3'
    } else if d == 4 {
        '4'
    } else if d == 5 {
        '5'
    } else if d == 6 {
        '6'
    } else if d == 7 {
        '7'
    } else if d == 8 {
        '8'
    } else {
        '9'
    }
}

/// Decimal rendering of a natural number, most significant digit first,
/// with no leading zeros (a single zero for 0).
pub open spec fn spec_dec_nat(n: nat) -> Seq<char>
    decreases n,
{
    if n < 10 {
        seq![digit_char(n)]
    } else {
        spec_dec_nat(n / 10) + seq![digit_char(n % 10)]
    }
}

/// Decimal rendering of an integer: a leading '-' for negative values.
pub open spec fn spec_dec_int(n: int) -> Seq<char> {
    if n < 0 {
        seq!['-'] + spec_dec_nat((0 - n) as nat)
    } else {
        spec_dec_nat(n as nat)
    }
}

pub open spec fn is_digit_char(c: char) -> bool {
    48 <= c as u32 <= 57
}

pub open spec fn digit_val(c: char) -> nat {
    (c as u32 - 48) as nat
}

pub open spec fn all_digits(s: Seq<char>) -> bool {
    forall|i: int| 0 <= i < s.len() ==> is_digit_char(s[i])
}

/// The numeric value of a sequence of decimal digits, most significant first.
pub open spec fn digits_val(s: Seq<char>) -> nat
    decreases s.len(),
{
    if s.len() == 0 {
        0
    } else {
        digits_val(s.drop_last()) * 10 + digit_val(s.last())
    }
}

/// What parsing a string as an `i32` yields: an optional single leading
/// '+' or '-', then one or more decimal digits, with the value in range.
pub open spec fn spec_parse_i32(s: Seq<char>) -> Option<i32> {
    if s.len() > 0 && s[0] == '-' {
        let rest = s.subrange(1, s.len() as int);
        if rest.len() > 0 && all_digits(rest) && digits_val(rest) <= 0x8000_0000 {
            Some((0 - digits_val(rest)) as i32)
        } else {
            None
        }
    } else if s.len() > 0 && s[0] == '+' {
        let rest = s.subrange(1, s.len() as int);
        if rest.len() > 0 && all_digits(rest) && digits_val(rest) <= 0x7fff_ffff {
            Some(digits_val(rest) as i32)
        } else {
            None
        }
    } else if s.len() > 0 && all_digits(s) && digits_val(s) <= 0x7fff_ffff {
        Some(digits_val(s) as i32)
    } else {
        None
    }
}

fn push_dec_u64(s: &mut String, n: u64)
    ensures
        final(s)@ == old(s)@ + spec_dec_nat(n as nat),
    decreases n,
{
    if n >= 10 {
        push_dec_u64(s, n / 10);
    }
    let d: u64 = n % 10;
    if d == 0 {
        s.append("0");
    } else if d == 1 {
        s.append("1");
    } else if d == 2 {
        s.append("2");
    } else if d == 3 {
        s.append("3");
    } else if d == 4 {
        s.append("4");
    } else if d == 5 {
        s.append("5");
    } else if d == 6 {
        s.append("6");
    } else if d == 7 {
        s.append("7");
    } else if d == 8 {
        s.append("8");
    } else {
        s.append("9");
    }
    proof {
        reveal_strlit("0");
        reveal_strlit("1");
        reveal_strlit("2");
        reveal_strlit("3");
        reveal_strlit("4");
        reveal_strlit("5");
        reveal_strlit("6");
        reveal_strlit("7");
        reveal_strlit("8");
        reveal_strlit("9");
        assert(s@ =~= old(s)@ + spec_dec_nat(n as nat));
    }
}

/// Renders an `i32` in decimal, as the store and the session cookie use it.
pub fn i32_to_string(n: i32) -> (r: String)
    ensures
        r@ == spec_dec_int(n as int),
{
    let mut s = String::new();
    if n < 0 {
        s.append("-");
        let m: i64 = 0 - (n as i64);
        push_dec_u64(&mut s, m as u64);
        proof {
            reveal_strlit("-");
            assert(s@ =~= spec_dec_int(n as int));
        }
    } else {
        push_dec_u64(&mut s, n as u64);
        proof {
            assert(s@ =~= spec_dec_int(n as int));
        }
    }
    s
}

/// Parses a string as an `i32`, exactly as `spec_parse_i32` describes.
pub fn parse_i32(s: &str) -> (r: Option<i32>)
    ensures
        r == spec_parse_i32(s@),
{
    let n = s.unicode_len();
    if n == 0 {
        return None;
    }
    let c0 = s.get_char(0);
    let neg = c0 == '-';
    let plus = c0 == '+';
    let start: usize = if neg || plus {
        1
    } else {
        0
    };
    if n == start {
        proof {
            reveal_strlit("-");
            reveal_strlit("+");
        }
        return None;
    }
    let ghost digits: Seq<char> = s@.subrange(start as int, n as int);
    proof {
        reveal_strlit("-");
        reveal_strlit("+");
        if !neg && !plus {
            assert(digits =~= s@);
        }
    }
    let mut acc: u64 = 0;
    let mut over: bool = false;
    let mut i: usize = start;
    while i < n
        invariant
            start <= i <= n,
            n == s@.len(),
            start < n,
            neg ==> start == 1 && s@[0] == '-',
            plus ==> start == 1 && s@[0] == '+',
            !neg && !plus ==> start == 0 && s@[0] != '-' && s@[0] != '+',
            digits == s@.subrange(start as int, n as int),
            all_digits(s@.subrange(start as int, i as int)),
            !over ==> acc == digits_val(s@.subrange(start as int, i as int)) && acc
                <= 0x8000_0000,
            over ==> digits_val(s@.subrange(start as int, i as int)) > 0x8000_0000,
        decreases n - i,
    {
        let c = s.get_char(i);
        let d: u32 = c as u32;
        if d < 48 || d > 57 {
            proof {
                assert(!is_digit_char(s@[i as int]));
                assert(digits[i as int - start as int] == s@[i as int]);
                assert(!all_digits(digits));
                if !neg && !plus {
                    assert(digits =~= s@);
                }
            }
            return None;
        }
        proof {
            let pref = s@.subrange(start as int, i as int);
            let pref2 = s@.subrange(start as int, i as int + 1);
            assert(pref2.drop_last() =~= pref);
            assert(pref2.last() == s@[i as int]);
            if over {
                assert(digits_val(pref2) == digits_val(pref) * 10 + digit_val(s@[i as int]));
            }
        }
        if !over {
            acc = acc * 10 + ((d - 48) as u64);
            if acc > 0x8000_0000 {
                over = true;
            }
        }
        i += 1;
    }
    proof {
        assert(s@.subrange(start as int, i as int) == digits);
    }
    if neg {
        if over {
            return None;
        }
        let v: i64 = 0 - (acc as i64);
        Some(v as i32)
    } else {
        if over || acc > 0x7fff_ffff {
            return None;
        }
        Some(acc as i32)
    }
}

proof fn lemma_digit_char_val(d: nat)
    requires
        d < 10,
    ensures
        is_digit_char(digit_char(d)),
        digit_val(digit_char(d)) == d,
{
    assert('0' as u32 == 48);
    assert('1' as u32 == 49);
    assert('2' as u32 == 50);
    assert('3' as u32 == 51);
    assert('4' as u32 == 52);
    assert('5' as u32 == 53);
    assert('6' as u32 == 54);
    assert('7' as u32 == 55);
    assert('8' as u32 == 56);
    assert('9' as u32 == 57);
}

/// A decimal rendering consists of digits and denotes the rendered value.
pub proof fn lemma_digits_val_of_dec(n: nat)
    ensures
        all_digits(spec_dec_nat(n)),
        digits_val(spec_dec_nat(n)) == n,
        spec_dec_nat(n).len() >= 1,
        is_digit_char(spec_dec_nat(n)[0]),
    decreases n,
{
    if n < 10 {
        lemma_digit_char_val(n);
        let s = spec_dec_nat(n);
        assert(s =~= seq![digit_char(n)]);
        assert(s.drop_last() =~= Seq::<char>::empty());
        assert(s.last() == digit_char(n));
        assert(digits_val(s) == digits_val(s.drop_last()) * 10 + digit_val(s.last()));
    } else {
        lemma_digits_val_of_dec(n / 10);
        lemma_digit_char_val(n % 10);
        let s = spec_dec_nat(n);
        let p = spec_dec_nat(n / 10);
        assert(s =~= p + seq![digit_char(n % 10)]);
        assert(s.drop_last() =~= p);
        assert(s.last() == digit_char(n % 10));
        assert(digits_val(s) == digits_val(p) * 10 + digit_val(digit_char(n % 10)));
    }
}

/// Parsing undoes decimal rendering: the round trip over the session cookie
/// value returns exactly the user id that was rendered into it.
pub proof fn lemma_parse_of_dec_i32(n: i32)
    ensures
        spec_parse_i32(spec_dec_int(n as int)) == Some(n),
{
    if n >= 0 {
        lemma_digits_val_of_dec(n as nat);
        let s = spec_dec_nat(n as nat);
        assert(is_digit_char(s[0]));
        assert(s[0] != '-' && s[0] != '+') by {
            assert('-' as u32 == 45 && '+' as u32 == 43);
        }
        assert(spec_parse_i32(s) == Some(n));
    } else {
        let m = (0 - n) as nat;
        lemma_digits_val_of_dec(m);
        let s = spec_dec_int(n as int);
        let rest = s.subrange(1, s.len() as int);
        assert(rest =~= spec_dec_nat(m));
        assert(s[0] == '-');
        assert(digits_val(rest) == m <= 0x8000_0000);
        assert(spec_parse_i32(s) == Some(n));
    }
}

} // verus!
