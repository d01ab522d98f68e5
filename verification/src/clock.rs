//! Minutes-and-seconds text of a number of seconds, as the tray and the
//! overlay show it: two digits at least for the minutes, a colon, two digits
//! for the seconds.
use vstd::prelude::*;

verus! {

/// The decimal digit character for `d` (`d < 10`).
pub open spec fn digit_char(d: nat) -> char {
    if d == 0 {
        '0'
    } else if d == 1 {
        '1'
    } else if d == 2 {
        '2'
    } else if d == 3 {
        '3'
    } else if d == 4 {
        '4'
    } else if d == 5 {
        '5'
    } else if d == 6 {
        '6'
    } else if d == 7 {
        '7'
    } else if d == 8 {
        '8'
    } else {
        '9'
    }
}

/// The value of a decimal digit character; `None` for any other character.
pub open spec fn digit_value(c: char) -> Option<nat> {
    if c == '0' {
        Some(0)
    } else if c == '1' {
        Some(1)
    } else if c == '2' {
        Some(2)
    } else if c == '3' {
        Some(3)
    } else if c == '4' {
        Some(4)
    } else if c == '5' {
        Some(5)
    } else if c == '6' {
        Some(6)
    } else if c == '7' {
        Some(7)
    } else if c == '8' {
        Some(8)
    } else if c == '9' {
        Some(9)
    } else {
        None
    }
}

/// The shortest decimal writing of `n`, most significant digit first.
pub open spec fn decimal(n: nat) -> Seq<char>
    decreases n,
{
    if n < 10 {
        seq![digit_char(n)]
    } else {
        decimal(n / 10).push(digit_char(n % 10))
    }
}

/// Left-pads a digit string with one zero up to width two.
pub open spec fn pad2(s: Seq<char>) -> Seq<char> {
    if s.len() < 2 {
        seq!['0'] + s
    } else {
        s
    }
}

/// `secs` written as `MM:SS`: the whole minutes, zero-padded to two digits,
/// a colon, and the remaining seconds, zero-padded to two digits.
pub open spec fn clock_text(secs: nat) -> Seq<char> {
    pad2(decimal(secs / 60)) + seq![':'] + pad2(decimal(secs % 60))
}

/// Whether every character of `s` is a decimal digit.
pub open spec fn all_digits(s: Seq<char>) -> bool {
    forall|i: int| 0 <= i < s.len() ==> (#[trigger] digit_value(s[i])) is Some
}

/// The number that a string of decimal digits denotes.
pub open spec fn digits_value(s: Seq<char>) -> nat
    decreases s.len(),
{
    if s.len() == 0 {
        0
    } else {
        digits_value(s.drop_last()) * 10 + digit_value(s.last()).unwrap_or(0)
    }
}

proof fn lemma_digit_roundtrip(d: nat)
    requires
        d < 10,
    ensures
        digit_value(digit_char(d)) == Some(d),
{
}

/// A decimal writing has one digit below ten and at least two from ten on.
pub proof fn lemma_decimal_len(n: nat)
    ensures
        n < 10 ==> decimal(n).len() == 1,
        n >= 10 ==> decimal(n).len() >= 2,
        n < 100 ==> decimal(n).len() <= 2,
    decreases n,
{
    if n >= 10 {
        lemma_decimal_len(n / 10);
    }
}

/// The decimal writing of `n` is made of digits and denotes `n`.
pub proof fn lemma_decimal_reads_back(n: nat)
    ensures
        all_digits(decimal(n)),
        digits_value(decimal(n)) == n,
    decreases n,
{
    if n < 10 {
        lemma_digit_roundtrip(n);
        let s = decimal(n);
        assert(s.drop_last() =~= Seq::<char>::empty());
        assert(digits_value(s) == digits_value(s.drop_last()) * 10 + digit_value(s.last()).unwrap_or(0));
    } else {
        lemma_decimal_reads_back(n / 10);
        lemma_digit_roundtrip(n % 10);
        let s = decimal(n);
        assert(s.drop_last() =~= decimal(n / 10));
        assert(s.last() == digit_char(n % 10));
        assert(digits_value(s) == digits_value(s.drop_last()) * 10 + digit_value(s.last()).unwrap_or(0));
        assert(n == (n / 10) * 10 + n % 10);
        assert forall|i: int| 0 <= i < s.len() implies (#[trigger] digit_value(s[i])) is Some by {
            if i < s.len() - 1 {
                assert(s[i] == decimal(n / 10)[i]);
            }
        }
    }
}

/// A leading zero changes neither the digits' nature nor their value.
pub proof fn lemma_pad2_reads_back(s: Seq<char>)
    requires
        all_digits(s),
    ensures
        all_digits(pad2(s)),
        digits_value(pad2(s)) == digits_value(s),
        s.len() >= 1 ==> pad2(s).len() >= 2,
        1 <= s.len() <= 2 ==> pad2(s).len() == 2,
{
    if s.len() < 2 {
        let p = seq!['0'] + s;
        assert forall|i: int| 0 <= i < p.len() implies (#[trigger] digit_value(p[i])) is Some by {
            if i >= 1 {
                assert(p[i] == s[i - 1]);
            }
        }
        let zero = seq!['0'];
        assert(zero.drop_last() =~= Seq::<char>::empty());
        assert(digits_value(Seq::<char>::empty()) == 0);
        assert(digits_value(zero) == digits_value(zero.drop_last()) * 10 + digit_value(zero.last()).unwrap_or(0));
        assert(digits_value(zero) == 0);
        if s.len() == 1 {
            assert(p.drop_last() =~= zero);
            assert(p.last() == s.last());
            assert(s.drop_last() =~= Seq::<char>::empty());
            assert(digits_value(p) == digits_value(p.drop_last()) * 10 + digit_value(p.last()).unwrap_or(0));
            assert(digits_value(s) == digits_value(s.drop_last()) * 10 + digit_value(s.last()).unwrap_or(0));
        } else {
            assert(p =~= zero);
        }
    }
}

/// The `MM:SS` text reads back as the number of seconds it was made from:
/// a colon three characters from the end, two digits after it for the
/// seconds (less than sixty), at least two digits before it for the minutes,
/// and minutes times sixty plus seconds gives `secs` again.
pub proof fn lemma_clock_text_reads_back(secs: nat)
    ensures
        ({
            let t = clock_text(secs);
            let minutes = t.take(t.len() - 3);
            let seconds = t.skip(t.len() - 2);
            &&& t.len() >= 5
            &&& t[t.len() - 3] == ':'
            &&& seconds.len() == 2
            &&& minutes.len() >= 2
            &&& all_digits(minutes)
            &&& all_digits(seconds)
            &&& digits_value(seconds) < 60
            &&& digits_value(minutes) * 60 + digits_value(seconds) == secs
        }),
{
    let m = secs / 60;
    let s = secs % 60;
    lemma_decimal_reads_back(m);
    lemma_decimal_reads_back(s);
    lemma_decimal_len(m);
    lemma_decimal_len(s);
    lemma_pad2_reads_back(decimal(m));
    lemma_pad2_reads_back(decimal(s));
    let pm = pad2(decimal(m));
    let ps = pad2(decimal(s));
    assert(ps.len() == 2);
    let t = clock_text(secs);
    assert(t =~= pm + seq![':'] + ps);
    assert(t.take(t.len() - 3) =~= pm);
    assert(t.skip(t.len() - 2) =~= ps);
}

/// Different numbers of seconds give different `MM:SS` texts.
pub proof fn lemma_clock_text_injective(a: nat, b: nat)
    requires
        a != b,
    ensures
        clock_text(a) != clock_text(b),
{
    lemma_clock_text_reads_back(a);
    lemma_clock_text_reads_back(b);
}

/// The one-character string of the decimal digit `d`.
fn digit_str(d: u64) -> (r: &'static str)
    requires
        d < 10,
    ensures
        r@ == seq![digit_char(d as nat)],
{
    if d == 0 {
        proof {
            reveal_strlit("0");
        }
        "0"
    } else if d == 1 {
        proof {
            reveal_strlit("1");
        }
        "1"
    } else if d == 2 {
        proof {
            reveal_strlit("2");
        }
        "2"
    } else if d == 3 {
        proof {
            reveal_strlit("3");
        }
        "3"
    } else if d == 4 {
        proof {
            reveal_strlit("4");
        }
        "4"
    } else if d == 5 {
        proof {
            reveal_strlit("5");
        }
        "5"
    } else if d == 6 {
        proof {
            reveal_strlit("6");
        }
        "6"
    } else if d == 7 {
        proof {
            reveal_strlit("7");
        }
        "7"
    } else if d == 8 {
        proof {
            reveal_strlit("8");
        }
        "8"
    } else {
        proof {
            reveal_strlit("9");
        }
        "9"
    }
}

/// Appends the decimal writing of `n` to `out`.
fn push_decimal(out: &mut String, n: u64)
    ensures
        final(out)@ == old(out)@ + decimal(n as nat),
    decreases n,
{
    if n >= 10 {
        push_decimal(out, n / 10);
    }
    out.append(digit_str(n % 10));
    proof {
        if n >= 10 {
            assert(decimal(n as nat) == decimal((n / 10) as nat).push(digit_char((n % 10) as nat)));
        }
    }
    assert(final(out)@ =~= old(out)@ + decimal(n as nat));
}

/// Appends `n` zero-padded to at least two digits.
fn push_two_digits(out: &mut String, n: u64)
    ensures
        final(out)@ == old(out)@ + pad2(decimal(n as nat)),
{
    proof {
        lemma_decimal_len(n as nat);
    }
    let ghost start = out@;
    if n < 10 {
        proof {
            reveal_strlit("0");
        }
        out.append("0");
    }
    push_decimal(out, n);
    assert(out@ =~= start + pad2(decimal(n as nat)));
}

/// Formats `secs` as `MM:SS`, as `format!("{:02}:{:02}", secs / 60, secs % 60)` does.
pub fn format_clock(secs: u64) -> (r: String)
    ensures
        r@ == clock_text(secs as nat),
{
    let mut out = String::new();
    push_two_digits(&mut out, secs / 60);
    proof {
        reveal_strlit(":");
    }
    out.append(":");
    push_two_digits(&mut out, secs % 60);
    assert(out@ =~= clock_text(secs as nat));
    out
}

} // verus!
