use vstd::prelude::*;

verus! {

/// The character of a decimal digit `d` (`d < 10`).
pub open spec fn digit_char(d: nat) -> char {
    (d + 48) as char
}

/// Whether `c` is one of the ASCII digits `0` to `9`.
pub open spec fn is_digit(c: char) -> bool {
    '0' <= c && c <= '9'
}

/// The decimal representation of `n`, without sign or leading zeros.
pub open spec fn decimal(n: nat) -> Seq<char>
    decreases n,
{
    if n < 10 {
        seq![digit_char(n)]
    } else {
        decimal(n / 10).push(digit_char(n % 10))
    }
}

/// The number that a sequence of decimal digits stands for.
pub open spec fn digits_value(s: Seq<char>) -> nat
    decreases s.len(),
{
    if s.len() == 0 {
        0
    } else {
        digits_value(s.drop_last()) * 10 + ((s.last() as nat) - 48) as nat
    }
}

pub open spec fn all_digits(s: Seq<char>) -> bool {
    forall|i: int| 0 <= i < s.len() ==> is_digit(#[trigger] s[i])
}

/// The digits of an unsigned number in text: one leading `+` is dropped.
pub open spec fn unsigned_digits(s: Seq<char>) -> Seq<char> {
    if s.len() > 0 && s[0] == '+' {
        s.drop_first()
    } else {
        s
    }
}

/// What reading `s` as a `u128` gives: the text is an optional `+` and then
/// at least one decimal digit, and the number fits in 128 bits.
pub open spec fn parsed_u128(s: Seq<char>) -> Option<u128> {
    let d = unsigned_digits(s);
    if d.len() > 0 && all_digits(d) && digits_value(d) <= u128::MAX {
        Some(digits_value(d) as u128)
    } else {
        None
    }
}

proof fn lemma_digits_prefix(s: Seq<char>, k: int)
    requires
        all_digits(s),
        0 <= k <= s.len(),
    ensures
        digits_value(s.take(k)) <= digits_value(s),
    decreases s.len() - k,
{
    if k < s.len() {
        let t = s.drop_last();
        assert(all_digits(t));
        lemma_digits_prefix(t, k);
        assert(t.take(k) =~= s.take(k));
        assert(digits_value(s) == digits_value(t) * 10 + ((s.last() as nat) - 48) as nat);
    } else {
        assert(s.take(k) =~= s);
    }
}

proof fn lemma_decimal_digits(n: nat)
    ensures
        decimal(n).len() > 0,
        all_digits(decimal(n)),
        digits_value(decimal(n)) == n,
    decreases n,
{
    assert(digit_char(n % 10) as nat == n % 10 + 48);
    if n >= 10 {
        lemma_decimal_digits(n / 10);
        let d = decimal(n);
        assert(d.drop_last() =~= decimal(n / 10));
        assert(d.last() == digit_char(n % 10));
        assert(digits_value(d) == digits_value(decimal(n / 10)) * 10 + n % 10);
        assert forall|i: int| 0 <= i < d.len() implies is_digit(#[trigger] d[i]) by {
            if i < d.len() - 1 {
                assert(d[i] == decimal(n / 10)[i]);
            }
        }
    } else {
        let d = decimal(n);
        assert(d.drop_last() =~= Seq::<char>::empty());
        assert(digits_value(d.drop_last()) == 0);
    }
}

/// Law: reading back the decimal representation of a number gives the
/// number: `parse_u128(&decimal_string(n)) == Some(n)`.
pub proof fn lemma_decimal_round_trip(n: u128)
    ensures
        parsed_u128(decimal(n as nat)) == Some(n),
{
    lemma_decimal_digits(n as nat);
    let d = decimal(n as nat);
    assert(is_digit(d[0]));
    assert(unsigned_digits(d) == d);
}

fn digit_text(d: u128) -> (text: &'static str)
    requires
        d < 10,
    ensures
        text@ == seq![digit_char(d as nat)],
{
    proof {
        reveal_strlit("0");
        reveal_strlit("1");
        reveal_strlit("2");
        reveal_strlit("3");
        reveal_strlit("4");
        reveal_strlit("5");
        reveal_strlit("6");
        reveal_strlit("7");
        reveal_strlit("8");
        reveal_strlit("9");
    }
    if d == 0 {
        "0"
    } else if d == 1 {
        "1"
    } else if d == 2 {
        "2"
    } else if d == 3 {
        "3"
    } else if d == 4 {
        "4"
    } else if d == 5 {
        "5"
    } else if d == 6 {
        "6"
    } else if d == 7 {
        "7"
    } else if d == 8 {
        "8"
    } else {
        "9"
    }
}

/// Appends the decimal representation of `n` to `out`.
pub fn push_decimal(out: &mut String, n: u128)
    ensures
        final(out)@ == old(out)@ + decimal(n as nat),
    decreases n,
{
    if n < 10 {
        out.append(digit_text(n));
    } else {
        push_decimal(out, n / 10);
        out.append(digit_text(n % 10));
        assert(decimal(n as nat) == decimal((n / 10) as nat).push(digit_char((n % 10) as nat)));
    }
}

/// The decimal representation of `n`, as `n.to_string()` writes it.
pub fn decimal_string(n: u128) -> (text: String)
    ensures
        text@ == decimal(n as nat),
{
    let mut out = String::new();
    push_decimal(&mut out, n);
    assert(out@ =~= decimal(n as nat));
    out
}

/// Whether two texts hold the same characters.
pub fn same_text(a: &str, b: &str) -> (same: bool)
    ensures
        same <==> a@ == b@,
{
    let n: usize = a.unicode_len();
    if n != b.unicode_len() {
        return false;
    }
    let mut i: usize = 0;
    while i < n
        invariant
            n == a@.len(),
            n == b@.len(),
            i <= n,
            forall|j: int| 0 <= j < i ==> a@[j] == b@[j],
        decreases n - i,
    {
        if a.get_char(i) != b.get_char(i) {
            return false;
        }
        i = i + 1;
    }
    assert(a@ =~= b@);
    true
}

/// Reads `text` as an unsigned 128-bit number, as `text.parse::<u128>().ok()`
/// does: an optional `+`, then decimal digits, within range.
pub fn parse_u128(text: &str) -> (value: Option<u128>)
    ensures
        value == parsed_u128(text@),
{
    let n: usize = text.unicode_len();
    let mut start: usize = 0;
    if n > 0 && text.get_char(0) == '+' {
        start = 1;
    }
    let ghost d = unsigned_digits(text@);
    assert(d =~= text@.subrange(start as int, n as int));
    if start >= n {
        return None;
    }
    let mut acc: u128 = 0;
    let mut i: usize = start;
    while i < n
        invariant
            start <= i <= n,
            n == text@.len(),
            d =~= text@.subrange(start as int, n as int),
            d == unsigned_digits(text@),
            0 < d.len(),
            forall|j: int| 0 <= j < i - start ==> is_digit(#[trigger] d[j]),
            acc as nat == digits_value(d.take(i - start)),
        decreases n - i,
    {
        let c = text.get_char(i);
        let code: u32 = c as u32;
        let ghost k = (i - start) as int;
        assert(d[k] == c);
        if code < 48 || code > 57 {
            assert(!is_digit(d[k]));
            assert(!all_digits(d));
            return None;
        }
        let digit: u128 = (code - 48) as u128;
        assert(d.take(k + 1).drop_last() =~= d.take(k));
        assert(d.take(k + 1).last() == c);
        assert(digits_value(d.take(k + 1)) == digits_value(d.take(k)) * 10 + digit);
        if acc > u128::MAX / 10 || (acc == u128::MAX / 10 && digit > u128::MAX % 10) {
            proof {
                assert(digits_value(d.take(k + 1)) > u128::MAX);
                if all_digits(d) {
                    lemma_digits_prefix(d, k + 1);
                }
            }
            return None;
        }
        acc = acc * 10 + digit;
        i = i + 1;
    }
    assert(d.take(d.len() as int) =~= d);
    assert(all_digits(d));
    Some(acc)
}

} // verus!
