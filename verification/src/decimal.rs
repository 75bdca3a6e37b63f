//! Decimal rendering of integers, as `Display` prints them.
use vstd::prelude::*;

verus! {

/// The character of a decimal digit.
pub open spec fn digit_char(d: nat) -> char
    recommends
        d < 10,
{
    if d == 0 { '0' }
    else if d == 1 { '1' }
    else if d == 2 { '2' }
    else if d == 3 { '3' }
    else if d == 4 { '4' }
    else if d == 5 { '5' }
    else if d == 6 { '6' }
    else if d == 7 { '7' }
    else if d == 8 { '8' }
    else { '9' }
}

/// The decimal digits of a natural number, most significant first, without leading zeros.
pub open spec fn digits(n: nat) -> Seq<char>
    decreases n,
{
    if n < 10 {
        seq![digit_char(n)]
    } else {
        digits(n / 10).push(digit_char(n % 10))
    }
}

/// The decimal text of an integer: a minus sign before the digits of a negative number.
pub open spec fn decimal(n: int) -> Seq<char> {
    if n < 0 {
        seq!['-'] + digits((-n) as nat)
    } else {
        digits(n as nat)
    }
}

pub open spec fn is_digit(c: char) -> bool {
    '0' <= c && c <= '9'
}

proof fn lemma_digit_char(d: nat)
    requires
        d < 10,
    ensures
        is_digit(digit_char(d)),
        forall|e: nat| e < 10 && digit_char(e) == digit_char(d) ==> e == d,
{
}

/// Every character of `digits(n)` is a digit, and there is at least one; two or more from ten on.
pub proof fn lemma_digits_shape(n: nat)
    ensures
        digits(n).len() >= 1,
        n >= 10 ==> digits(n).len() >= 2,
        forall|i: int| 0 <= i < digits(n).len() ==> is_digit(#[trigger] digits(n)[i]),
    decreases n,
{
    lemma_digit_char(n % 10);
    if n >= 10 {
        lemma_digits_shape(n / 10);
    }
}

/// Distinct natural numbers have distinct digit strings.
pub proof fn lemma_digits_injective(a: nat, b: nat)
    requires
        digits(a) == digits(b),
    ensures
        a == b,
    decreases a,
{
    lemma_digits_shape(a);
    lemma_digits_shape(b);
    lemma_digit_char(a % 10);
    lemma_digit_char(b % 10);
    if a < 10 && b < 10 {
        assert(digits(a)[0] == digit_char(a));
        assert(digits(b)[0] == digit_char(b));
        lemma_digit_char(a);
    } else if a >= 10 && b >= 10 {
        let da = digits(a / 10);
        let db = digits(b / 10);
        assert(digits(a).last() == digit_char(a % 10));
        assert(digits(b).last() == digit_char(b % 10));
        assert(a % 10 == b % 10);
        assert(da =~= digits(a).drop_last());
        assert(db =~= digits(b).drop_last());
        lemma_digits_injective(a / 10, b / 10);
        assert(a == 10 * (a / 10) + a % 10);
        assert(b == 10 * (b / 10) + b % 10);
    } else {
        assert(digits(a).len() != digits(b).len());
    }
}

/// The first character of a decimal text is a digit or a minus sign.
pub proof fn lemma_decimal_first(n: int)
    ensures
        decimal(n).len() >= 1,
        is_digit(decimal(n)[0]) || decimal(n)[0] == '-',
{
    if n < 0 {
        lemma_digits_shape((-n) as nat);
    } else {
        lemma_digits_shape(n as nat);
        assert(is_digit(digits(n as nat)[0]));
    }
}

/// Distinct integers have distinct decimal texts.
pub proof fn lemma_decimal_injective(a: int, b: int)
    requires
        decimal(a) == decimal(b),
    ensures
        a == b,
{
    if a < 0 {
        lemma_digits_shape((-a) as nat);
    } else {
        lemma_digits_shape(a as nat);
    }
    if b < 0 {
        lemma_digits_shape((-b) as nat);
    } else {
        lemma_digits_shape(b as nat);
    }
    if a < 0 && b < 0 {
        assert(digits((-a) as nat) =~= decimal(a).drop_first());
        assert(digits((-b) as nat) =~= decimal(b).drop_first());
        lemma_digits_injective((-a) as nat, (-b) as nat);
    } else if a >= 0 && b >= 0 {
        lemma_digits_injective(a as nat, b as nat);
    } else if a < 0 {
        assert(decimal(a)[0] == '-');
        assert(is_digit(decimal(b)[0]));
    } else {
        assert(decimal(b)[0] == '-');
        assert(is_digit(decimal(a)[0]));
    }
}

fn digit_str(d: u8) -> (s: &'static str)
    requires
        d < 10,
    ensures
        s@ == seq![digit_char(d as nat)],
{
    proof {
        reveal_strlit("0");
        reveal_strlit("1");
        reveal_strlit("2");
        reveal_strlit("3");
        reveal_strlit("4");
        reveal_strlit("5");
        reveal_strlit("6");
        reveal_strlit("7");
        reveal_strlit("8");
        reveal_strlit("9");
    }
    if d == 0 { "0" }
    else if d == 1 { "1" }
    else if d == 2 { "2" }
    else if d == 3 { "3" }
    else if d == 4 { "4" }
    else if d == 5 { "5" }
    else if d == 6 { "6" }
    else if d == 7 { "7" }
    else if d == 8 { "8" }
    else { "9" }
}

/// Appends the decimal digits of `n` to `out`.
pub fn push_u64(out: &mut String, n: u64)
    ensures
        final(out)@ == old(out)@ + digits(n as nat),
{
    let mut rev: Vec<u8> = Vec::new();
    let mut q: u64 = n;
    // rev holds the low digits already split off, least significant first
    while q >= 10
        invariant
            forall|i: int| 0 <= i < rev.len() ==> rev@[i] < 10,
            digits(n as nat) == digits(q as nat) + Seq::new(rev.len() as nat, |i: int| digit_char(rev@[rev.len() - 1 - i] as nat)),
        decreases q,
    {
        let d = (q % 10) as u8;
        let ghost old_rev = rev@;
        let ghost old_q = q;
        rev.push(d);
        q = q / 10;
        assert(Seq::new(rev.len() as nat, |i: int| digit_char(rev@[rev.len() - 1 - i] as nat))
            =~= seq![digit_char(d as nat)] + Seq::new(old_rev.len() as nat, |i: int| digit_char(old_rev[old_rev.len() - 1 - i] as nat)));
        assert(digits(old_q as nat) == digits(q as nat).push(digit_char(d as nat)));
        assert(digits(q as nat).push(digit_char(d as nat)) =~= digits(q as nat) + seq![digit_char(d as nat)]);
    }
    let ghost start = out@;
    out.append(digit_str(q as u8));
    let mut j: usize = rev.len();
    while j > 0
        invariant
            j <= rev.len(),
            forall|i: int| 0 <= i < rev.len() ==> rev@[i] < 10,
            digits(n as nat) == digits(q as nat) + Seq::new(rev.len() as nat, |i: int| digit_char(rev@[rev.len() - 1 - i] as nat)),
            q < 10,
            out@ == start + digits(q as nat) + Seq::new((rev.len() - j) as nat, |i: int| digit_char(rev@[rev.len() - 1 - i] as nat)),
        decreases j,
    {
        j = j - 1;
        let ghost before = out@;
        out.append(digit_str(rev[j]));
        assert(Seq::new((rev.len() - j) as nat, |i: int| digit_char(rev@[rev.len() - 1 - i] as nat))
            =~= Seq::new((rev.len() - j - 1) as nat, |i: int| digit_char(rev@[rev.len() - 1 - i] as nat)).push(digit_char(rev@[j as int] as nat)));
    }
    assert(Seq::new((rev.len() - j) as nat, |i: int| digit_char(rev@[rev.len() - 1 - i] as nat))
        =~= Seq::new(rev.len() as nat, |i: int| digit_char(rev@[rev.len() - 1 - i] as nat)));
}

/// Appends the decimal text of `n` to `out`, as `Display` prints an `i64`.
pub fn push_i64(out: &mut String, n: i64)
    ensures
        final(out)@ == old(out)@ + decimal(n as int),
{
    if n < 0 {
        proof { reveal_strlit("-"); }
        out.append("-");
        let m: u64 = ((-(n + 1)) as u64) + 1;
        push_u64(out, m);
        assert(old(out)@ + seq!['-'] + digits(m as nat) =~= old(out)@ + (seq!['-'] + digits(m as nat)));
    } else {
        push_u64(out, n as u64);
    }
}

} // verus!
