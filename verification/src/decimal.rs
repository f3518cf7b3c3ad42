use vstd::prelude::*;
use vstd::string::*;

verus! {

/// The ASCII digit for a value below ten.
pub open spec fn digit_char(d: nat) -> char {
    if d == 0 { '0' }
    else if d == 1 { '1' }
    else if d == 2 { '2' }
    else if d == 3 { '3' }
    else if d == 4 { '4' }
    else if d == 5 { '5' }
    else if d == 6 { '6' }
    else if d == 7 { '7' }
    else if d == 8 { '8' }
    else { '9' }
}

/// The decimal notation of a natural number, most significant digit first,
/// without leading zeros (zero itself is written `0`).
pub open spec fn decimal(n: nat) -> Seq<char>
    decreases n,
{
    if n < 10 {
        seq![digit_char(n)]
    } else {
        decimal(n / 10) + seq![digit_char(n % 10)]
    }
}

fn digit_str(d: u64) -> (s: &'static str)
    requires
        d < 10,
    ensures
        s@ == seq![digit_char(d as nat)],
{
    proof {
        reveal_strlit("0");
        reveal_strlit("1");
        reveal_strlit("2");
        reveal_strlit("3");
        reveal_strlit("4");
        reveal_strlit("5");
        reveal_strlit("6");
        reveal_strlit("7");
        reveal_strlit("8");
        reveal_strlit("9");
    }
    if d == 0 { "0" }
    else if d == 1 { "1" }
    else if d == 2 { "2" }
    else if d == 3 { "3" }
    else if d == 4 { "4" }
    else if d == 5 { "5" }
    else if d == 6 { "6" }
    else if d == 7 { "7" }
    else if d == 8 { "8" }
    else { "9" }
}

/// Writes `n` in decimal, as `Display` writes an unsigned integer.
pub fn decimal_string(n: u64) -> (s: String)
    ensures
        s@ == decimal(n as nat),
    decreases n,
{
    if n < 10 {
        String::from_str(digit_str(n))
    } else {
        let mut s = decimal_string(n / 10);
        s.append(digit_str(n % 10));
        s
    }
}

/// Every number has at least one digit.
pub proof fn lemma_decimal_nonempty(n: nat)
    ensures
        decimal(n).len() >= 1,
    decreases n,
{
    if n >= 10 {
        lemma_decimal_nonempty(n / 10);
    }
}

/// Different digits are different characters.
pub proof fn lemma_digit_char_injective(a: nat, b: nat)
    requires
        a < 10,
        b < 10,
        digit_char(a) == digit_char(b),
    ensures
        a == b,
{
}

/// Different numbers are written differently.
pub proof fn lemma_decimal_injective(a: nat, b: nat)
    requires
        decimal(a) == decimal(b),
    ensures
        a == b,
    decreases a,
{
    if a < 10 && b < 10 {
        assert(decimal(a)[0] == digit_char(a));
        assert(decimal(b)[0] == digit_char(b));
        lemma_digit_char_injective(a, b);
    } else if a < 10 {
        lemma_decimal_nonempty(b / 10);
    } else if b < 10 {
        lemma_decimal_nonempty(a / 10);
    } else {
        let da = decimal(a / 10);
        let db = decimal(b / 10);
        assert(decimal(a) == da + seq![digit_char(a % 10)]);
        assert(decimal(b) == db + seq![digit_char(b % 10)]);
        assert(da =~= decimal(a).drop_last());
        assert(db =~= decimal(b).drop_last());
        assert(digit_char(a % 10) == decimal(a).last());
        assert(digit_char(b % 10) == decimal(b).last());
        lemma_decimal_injective(a / 10, b / 10);
        lemma_digit_char_injective((a % 10) as nat, (b % 10) as nat);
        assert(a == 10 * (a / 10) + a % 10);
        assert(b == 10 * (b / 10) + b % 10);
    }
}


/// The value of a decimal digit character (0 for any other character).
pub open spec fn digit_value(c: char) -> nat {
    if c == '1' { 1 }
    else if c == '2' { 2 }
    else if c == '3' { 3 }
    else if c == '4' { 4 }
    else if c == '5' { 5 }
    else if c == '6' { 6 }
    else if c == '7' { 7 }
    else if c == '8' { 8 }
    else if c == '9' { 9 }
    else { 0 }
}

/// The number that a string of digits denotes, most significant first.
pub open spec fn digits_value(s: Seq<char>) -> nat
    decreases s.len(),
{
    if s.len() == 0 {
        0
    } else {
        digits_value(s.drop_last()) * 10 + digit_value(s.last())
    }
}

/// Reading the decimal notation of a number gives the number back, and it
/// has no leading zero.
pub proof fn law_decimal_reads_back(n: nat)
    ensures
        digits_value(decimal(n)) == n,
        decimal(n).len() > 1 ==> decimal(n)[0] != '0',
    decreases n,
{
    if n < 10 {
        let d = decimal(n);
        assert(d.drop_last() =~= Seq::<char>::empty());
        assert(digits_value(Seq::<char>::empty()) == 0);
        assert(digits_value(d) == digits_value(d.drop_last()) * 10 + digit_value(d.last()));
        assert(digit_value(digit_char(n)) == n);
    } else {
        law_decimal_reads_back(n / 10);
        let d = decimal(n);
        let q = decimal(n / 10);
        assert(d.drop_last() =~= q);
        assert(d.last() == digit_char((n % 10) as nat));
        assert(digit_value(digit_char((n % 10) as nat)) == n % 10);
        assert(digits_value(d) == digits_value(q) * 10 + digit_value(d.last()));
        assert(n == (n / 10) * 10 + n % 10);
        lemma_decimal_nonempty(n / 10);
        assert(d[0] == q[0]);
        if n / 10 < 10 {
            assert(n / 10 >= 1);
            assert(q[0] == digit_char(n / 10));
        } else {
            lemma_decimal_nonempty(n / 100);
            assert(q.len() > 1);
        }
    }
}

} // verus!
