//! Rendering of playback positions as `minutes:seconds / minutes:seconds`.
use vstd::prelude::*;

verus! {

/// The character of a decimal digit.
pub open spec fn digit_char(d: int) -> char
    recommends
        0 <= d < 10,
{
    seq!['0', '1', '2', '3', '4', '5', '6', '7', '8', '9'][d]
}

/// The value of a decimal digit character, or `None` for any other character.
pub open spec fn digit_value(c: char) -> Option<nat> {
    if c == '0' {
        Some(0)
    } else if c == '1' {
        Some(1)
    } else if c == '2' {
        Some(2)
    } else if c == '3' {
        Some(3)
    } else if c == '4' {
        Some(4)
    } else if c == '5' {
        Some(5)
    } else if c == '6' {
        Some(6)
    } else if c == '7' {
        Some(7)
    } else if c == '8' {
        Some(8)
    } else if c == '9' {
        Some(9)
    } else {
        None
    }
}

/// The decimal notation of `n`, without leading zeros (`0` is written `"0"`).
pub open spec fn decimal(n: nat) -> Seq<char>
    decreases n,
{
    if n < 10 {
        seq![digit_char(n as int)]
    } else {
        decimal(n / 10).push(digit_char((n % 10) as int))
    }
}

/// The decimal notation of `n`, padded with zeros to at least two characters.
pub open spec fn decimal_two(n: nat) -> Seq<char> {
    if n < 10 {
        seq!['0'] + decimal(n)
    } else {
        decimal(n)
    }
}

/// Whether every character of `s` is a decimal digit.
pub open spec fn all_digits(s: Seq<char>) -> bool {
    forall|i: int| 0 <= i < s.len() ==> (#[trigger] digit_value(s[i])) is Some
}

/// The number that a sequence of decimal digits denotes.
pub open spec fn digits_value(s: Seq<char>) -> nat
    decreases s.len(),
{
    if s.len() == 0 {
        0
    } else {
        digits_value(s.drop_last()) * 10 + digit_value(s.last()).unwrap_or(0)
    }
}

/// One side of the time label: whole minutes, a colon, and the seconds
/// within the minute on two digits.
pub open spec fn minutes_seconds(seconds: nat) -> Seq<char> {
    decimal(seconds / 60) + seq![':'] + decimal_two(seconds % 60)
}

/// The label shown for a position of `seconds` in a song that lasts `total` seconds.
pub open spec fn time_label(seconds: nat, total: nat) -> Seq<char> {
    minutes_seconds(seconds) + seq![' ', '/', ' '] + minutes_seconds(total)
}

proof fn lemma_digit_roundtrip(d: int)
    requires
        0 <= d < 10,
    ensures
        digit_value(digit_char(d)) == Some(d as nat),
{
}

/// Decimal notation is made of digits, is never empty, and reads back as the
/// number it was written for.
pub proof fn lemma_decimal_roundtrip(n: nat)
    ensures
        decimal(n).len() >= 1,
        all_digits(decimal(n)),
        digits_value(decimal(n)) == n,
        (decimal(n).len() == 1) <==> n < 10,
    decreases n,
{
    if n < 10 {
        lemma_digit_roundtrip(n as int);
        assert(decimal(n).drop_last() =~= Seq::<char>::empty());
        assert(digits_value(Seq::<char>::empty()) == 0);
        assert(digits_value(decimal(n)) == digits_value(decimal(n).drop_last()) * 10 + n);
    } else {
        lemma_decimal_roundtrip(n / 10);
        lemma_digit_roundtrip((n % 10) as int);
        let s = decimal(n);
        assert(s.drop_last() =~= decimal(n / 10));
        assert(s.last() == digit_char((n % 10) as int));
        assert(digits_value(s) == (n / 10) * 10 + n % 10);
        assert forall|i: int| 0 <= i < s.len() implies (#[trigger] digit_value(s[i])) is Some by {
            if i < s.len() - 1 {
                assert(s[i] == decimal(n / 10)[i]);
            }
        }
    }
}

/// The seconds field of the label always has exactly two digits and reads
/// back as the seconds within the minute.
pub proof fn lemma_decimal_two(n: nat)
    requires
        n < 100,
    ensures
        decimal_two(n).len() == 2,
        all_digits(decimal_two(n)),
        digits_value(decimal_two(n)) == n,
{
    lemma_decimal_roundtrip(n);
    if n < 10 {
        let s = decimal_two(n);
        assert(s.drop_last() =~= seq!['0']);
        assert(seq!['0'].drop_last() =~= Seq::<char>::empty());
        assert(digit_value('0') == Some(0nat));
        assert(digits_value(Seq::<char>::empty()) == 0);
        assert(digits_value(seq!['0']) == 0);
        assert(s.last() == decimal(n)[0]);
        assert(decimal(n)[0] == digit_char(n as int));
        lemma_digit_roundtrip(n as int);
        assert forall|i: int| 0 <= i < s.len() implies (#[trigger] digit_value(s[i])) is Some by {
            if i == 1 {
                assert(s[1] == decimal(n)[0]);
            }
        }
    } else {
        lemma_decimal_roundtrip(n / 10);
        assert(n / 10 < 10);
    }
}

proof fn lemma_minutes_seconds_prefix(x: nat, y: nat, r1: Seq<char>, r2: Seq<char>)
    requires
        minutes_seconds(x) + r1 == minutes_seconds(y) + r2,
    ensures
        x == y,
        r1 == r2,
{
    let dx = decimal(x / 60);
    let dy = decimal(y / 60);
    let tx = decimal_two(x % 60);
    let ty = decimal_two(y % 60);
    let l1 = minutes_seconds(x) + r1;
    let l2 = minutes_seconds(y) + r2;
    lemma_decimal_roundtrip(x / 60);
    lemma_decimal_roundtrip(y / 60);
    lemma_decimal_two(x % 60);
    lemma_decimal_two(y % 60);
    assert(l1[dx.len() as int] == ':');
    assert(l2[dy.len() as int] == ':');
    if dx.len() < dy.len() {
        assert(l2[dx.len() as int] == dy[dx.len() as int]);
        assert(digit_value(dy[dx.len() as int]) is Some);
        assert(false);
    }
    if dy.len() < dx.len() {
        assert(l1[dy.len() as int] == dx[dy.len() as int]);
        assert(digit_value(dx[dy.len() as int]) is Some);
        assert(false);
    }
    assert(dx =~= l1.subrange(0, dx.len() as int));
    assert(dy =~= l2.subrange(0, dy.len() as int));
    assert(tx =~= l1.subrange(dx.len() + 1int, dx.len() + 3int));
    assert(ty =~= l2.subrange(dy.len() + 1int, dy.len() + 3int));
    assert(x % 60 == y % 60);
    assert(x / 60 == y / 60);
    assert(r1 =~= l1.subrange(dx.len() + 3int, l1.len() as int));
    assert(r2 =~= l2.subrange(dy.len() + 3int, l2.len() as int));
}

/// Different positions or durations always give different labels: the label
/// determines both numbers it was made from.
pub proof fn lemma_time_label_injective(seconds: nat, total: nat, seconds2: nat, total2: nat)
    requires
        time_label(seconds, total) == time_label(seconds2, total2),
    ensures
        seconds == seconds2,
        total == total2,
{
    let sep = seq![' ', '/', ' '];
    assert(time_label(seconds, total) =~= minutes_seconds(seconds) + (sep + minutes_seconds(total)));
    assert(time_label(seconds2, total2) =~= minutes_seconds(seconds2) + (sep + minutes_seconds(total2)));
    lemma_minutes_seconds_prefix(seconds, seconds2, sep + minutes_seconds(total), sep + minutes_seconds(total2));
    assert(minutes_seconds(total) =~= (sep + minutes_seconds(total)).subrange(3, 3 + minutes_seconds(total).len() as int));
    assert(minutes_seconds(total2) =~= (sep + minutes_seconds(total2)).subrange(3, 3 + minutes_seconds(total2).len() as int));
    assert(minutes_seconds(total) + Seq::<char>::empty() =~= minutes_seconds(total));
    assert(minutes_seconds(total2) + Seq::<char>::empty() =~= minutes_seconds(total2));
    lemma_minutes_seconds_prefix(total, total2, Seq::<char>::empty(), Seq::<char>::empty());
}

/// Appends the digit `d` to `s`.
fn push_digit(s: &mut String, d: u64)
    requires
        d < 10,
    ensures
        final(s)@ == old(s)@.push(digit_char(d as int)),
{
    if d == 0 {
        s.append("0");
        proof { reveal_strlit("0"); }
    } else if d == 1 {
        s.append("1");
        proof { reveal_strlit("1"); }
    } else if d == 2 {
        s.append("2");
        proof { reveal_strlit("2"); }
    } else if d == 3 {
        s.append("3");
        proof { reveal_strlit("3"); }
    } else if d == 4 {
        s.append("4");
        proof { reveal_strlit("4"); }
    } else if d == 5 {
        s.append("5");
        proof { reveal_strlit("5"); }
    } else if d == 6 {
        s.append("6");
        proof { reveal_strlit("6"); }
    } else if d == 7 {
        s.append("7");
        proof { reveal_strlit("7"); }
    } else if d == 8 {
        s.append("8");
        proof { reveal_strlit("8"); }
    } else {
        s.append("9");
        proof { reveal_strlit("9"); }
    }
    assert(final(s)@ =~= old(s)@.push(digit_char(d as int)));
}

/// Appends the decimal notation of `n` to `s`.
fn push_decimal(s: &mut String, n: u64)
    ensures
        final(s)@ == old(s)@ + decimal(n as nat),
    decreases n,
{
    if n >= 10 {
        push_decimal(s, n / 10);
    }
    push_digit(s, n % 10);
    assert(final(s)@ =~= old(s)@ + decimal(n as nat));
}

/// Appends `minutes:ss` for a count of seconds to `s`.
fn push_minutes_seconds(s: &mut String, seconds: u64)
    ensures
        final(s)@ == old(s)@ + minutes_seconds(seconds as nat),
{
    let minutes = (seconds - (seconds % 60)) / 60;
    assert(minutes == seconds / 60);
    let rest = seconds % 60;
    push_decimal(s, minutes);
    s.append(":");
    proof { reveal_strlit(":"); }
    if rest < 10 {
        s.append("0");
        proof { reveal_strlit("0"); }
    }
    push_decimal(s, rest);
    assert(final(s)@ =~= old(s)@ + minutes_seconds(seconds as nat));
}

/// Formats a playback position and a song duration, both in seconds, as
/// `"m:ss / m:ss"`.
pub fn format_time(seconds: u64, total: u64) -> (label: String)
    ensures
        label@ == time_label(seconds as nat, total as nat),
{
    let mut label = String::new();
    push_minutes_seconds(&mut label, seconds);
    label.append(" / ");
    proof { reveal_strlit(" / "); }
    push_minutes_seconds(&mut label, total);
    assert(label@ =~= time_label(seconds as nat, total as nat));
    label
}

} // verus!
