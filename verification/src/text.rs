use vstd::prelude::*;
use vstd::string::StringExecFns;

verus! {

/// Whether two string slices hold the same characters.
pub(crate) fn str_eq(a: &str, b: &str) -> (r: bool)
    ensures
        r == (a@ == b@),
{
    let x: String = a.to_owned();
    let y: String = b.to_owned();
    x == y
}

/// The separator between the components of a path on this platform
/// (`std::path::MAIN_SEPARATOR`: `/` on Unix, `\` on Windows).
#[verifier::external_body]
pub(crate) fn main_separator() -> (c: char)
    ensures
        c == '/' || c == '\\',
{
    std::path::MAIN_SEPARATOR
}

/// Appends one character at the end (std's `String::push`).
#[verifier::external_body]
pub(crate) fn push_char(s: &mut String, c: char)
    ensures
        final(s)@ == old(s)@.push(c),
{
    s.push(c)
}

/// The characters of a string slice, in order.
pub(crate) fn chars_of(s: &str) -> (v: Vec<char>)
    ensures
        v@ == s@,
{
    let mut v: Vec<char> = Vec::new();
    for c in it: s.chars()
        invariant
            v@ == it.seq().take(it.index() as int),
    {
        v.push(c);
    }
    v
}

/// The character of the decimal digit `d`.
pub open spec fn digit_char(d: nat) -> char {
    ((d + 48) as u8) as char
}

/// The decimal representation of `n`, without leading zeros.
pub open spec fn decimal_chars(n: nat) -> Seq<char>
    decreases n,
{
    if n < 10 {
        seq![digit_char(n)]
    } else {
        decimal_chars(n / 10).push(digit_char(n % 10))
    }
}

fn digit(d: u64) -> (c: char)
    requires
        d < 10,
    ensures
        c == digit_char(d as nat),
{
    let b: u8 = (d as u8) + 48;
    b as char
}

} // verus!

verus! {

/// `k` space characters.
pub open spec fn spaces(k: nat) -> Seq<char> {
    Seq::new(k, |i: int| ' ')
}

/// Ten to the power `k`.
pub open spec fn pow10(k: nat) -> nat
    decreases k,
{
    if k == 0 { 1 } else { 10 * pow10((k - 1) as nat) }
}

/// A number below `10^k` (with `k >= 1`) takes at most `k` decimal digits.
pub proof fn lemma_decimal_len_bound(n: nat, k: nat)
    requires
        k >= 1,
        n < pow10(k),
    ensures
        decimal_chars(n).len() <= k,
        decimal_chars(n).len() >= 1,
    decreases k,
{
    if n >= 10 {
        assert(k >= 2) by {
            if k == 1 {
                assert(pow10(1) == 10 * pow10(0));
            }
        }
        assert(pow10(k) == 10 * pow10((k - 1) as nat));
        lemma_decimal_len_bound(n / 10, (k - 1) as nat);
    }
}

/// Every `u64` takes between 1 and 20 decimal digits.
pub proof fn lemma_u64_decimal_len(n: u64)
    ensures
        1 <= decimal_chars(n as nat).len() <= 20,
{
    reveal_with_fuel(pow10, 21);
    assert(pow10(20) == 100000000000000000000nat);
    lemma_decimal_len_bound(n as nat, 20);
}

/// The decimal representation of `n`.
pub fn decimal_string(n: u64) -> (s: String)
    ensures
        s@ == decimal_chars(n as nat),
{
    let mut rev: Vec<char> = Vec::new();
    let ghost mut tail: Seq<char> = Seq::empty();
    let mut m = n;
    while m >= 10
        invariant
            decimal_chars(n as nat) == decimal_chars(m as nat) + tail,
            rev@.len() == tail.len(),
            forall|k: int| 0 <= k < tail.len() ==> tail[k] == #[trigger] rev@[rev@.len() - 1 - k],
        decreases m,
    {
        let d = digit(m % 10);
        proof {
            assert(decimal_chars(m as nat) == decimal_chars((m / 10) as nat).push(d));
            assert(decimal_chars((m / 10) as nat).push(d) + tail =~= decimal_chars((m / 10) as nat) + (seq![d] + tail));
            tail = seq![d] + tail;
        }
        rev.push(d);
        m = m / 10;
        assert forall|k: int| 0 <= k < tail.len() implies tail[k] == #[trigger] rev@[rev@.len() - 1 - k] by {
            if k > 0 {
                assert(rev@[rev@.len() - 1 - k] == rev@.drop_last()[rev@.drop_last().len() - 1 - (k - 1)]);
            }
        }
    }
    let mut s = String::new();
    push_char(&mut s, digit(m));
    let mut i = rev.len();
    while i > 0
        invariant
            i <= rev@.len(),
            rev@.len() == tail.len(),
            forall|k: int| 0 <= k < tail.len() ==> tail[k] == #[trigger] rev@[rev@.len() - 1 - k],
            s@ == seq![digit_char(m as nat)] + tail.take(rev@.len() - i),
        decreases i,
    {
        let c = rev[i - 1];
        assert(rev@[rev@.len() - 1 - (rev@.len() - i)] == c);
        assert(c == tail[rev@.len() - i]);
        push_char(&mut s, c);
        i = i - 1;
        assert(tail.take(rev@.len() - i) =~= tail.take(rev@.len() - i - 1).push(c));
    }
    assert(tail.take(rev@.len() as int) =~= tail);
    s
}

/// Number of decimal digits of `n` (the length of `n` printed with `{}`).
pub fn decimal_width(n: u64) -> (w: usize)
    ensures
        w as nat == decimal_chars(n as nat).len(),
        1 <= w <= 20,
{
    proof {
        lemma_u64_decimal_len(n);
    }
    let mut m = n;
    let mut w: usize = 1;
    while m >= 10
        invariant
            w + decimal_chars(m as nat).len() == 1 + decimal_chars(n as nat).len(),
            1 <= decimal_chars(m as nat).len(),
            decimal_chars(n as nat).len() <= 20,
        decreases m,
    {
        assert(decimal_chars(m as nat) == decimal_chars((m / 10) as nat).push(digit_char((m % 10) as nat)));
        m = m / 10;
        w = w + 1;
    }
    w
}

} // verus!

verus! {

/// The string of the characters `v[from..]`.
pub(crate) fn string_from(v: &Vec<char>, from: usize) -> (s: String)
    requires
        from <= v@.len(),
    ensures
        s@ == v@.subrange(from as int, v@.len() as int),
{
    let mut s = String::new();
    let n = v.len();
    let mut i = from;
    while i < n
        invariant
            n == v@.len(),
            from <= i <= n,
            s@ == v@.subrange(from as int, i as int),
        decreases n - i,
    {
        push_char(&mut s, v[i]);
        i = i + 1;
        assert(s@ =~= v@.subrange(from as int, i as int));
    }
    s
}

/// Appends the characters of `t`.
pub(crate) fn push_str(s: &mut String, t: &str)
    ensures
        final(s)@ == old(s)@ + t@,
{
    s.append(t);
}

} // verus!
