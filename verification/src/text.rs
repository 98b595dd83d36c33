//! Building the textual form of IR entities in a character buffer.
use vstd::prelude::*;

verus! {

/// The ASCII digit that stands for `d` (taken modulo ten).
pub open spec fn digit_char(d: nat) -> char {
    let d = d % 10;
    if d == 0 { '0' }
    else if d == 1 { '1' }
    else if d == 2 { '2' }
    else if d == 3 { '3' }
    else if d == 4 { '4' }
    else if d == 5 { '5' }
    else if d == 6 { '6' }
    else if d == 7 { '7' }
    else if d == 8 { '8' }
    else { '9' }
}

/// The decimal notation of `n`, without leading zeros.
pub open spec fn decimal(n: nat) -> Seq<char>
    decreases n,
{
    if n < 10 {
        seq![digit_char(n)]
    } else {
        decimal(n / 10).push(digit_char(n % 10))
    }
}

/// `s` with every trailing occurrence of the separator `", "` removed.
pub open spec fn trim_separators(s: Seq<char>) -> Seq<char>
    decreases s.len(),
{
    if s.len() >= 2 && s[s.len() - 2] == ',' && s[s.len() - 1] == ' ' {
        trim_separators(s.subrange(0, s.len() - 2))
    } else {
        s
    }
}

fn digit(d: u64) -> (c: char)
    requires
        d < 10,
    ensures
        c == digit_char(d as nat),
{
    match d {
        0 => '0',
        1 => '1',
        2 => '2',
        3 => '3',
        4 => '4',
        5 => '5',
        6 => '6',
        7 => '7',
        8 => '8',
        _ => '9',
    }
}

/// Appends the decimal notation of `n` to `out`.
pub(crate) fn push_decimal(out: &mut Vec<char>, n: u64)
    ensures
        final(out)@ == old(out)@ + decimal(n as nat),
    decreases n,
{
    if n >= 10 {
        push_decimal(out, n / 10);
    }
    out.push(digit(n % 10));
    proof {
        if n < 10 {
            assert(old(out)@ + decimal(n as nat) =~= old(out)@.push(digit_char(n as nat)));
        } else {
            assert(old(out)@ + decimal(n as nat) =~= (old(out)@ + decimal((n / 10) as nat)).push(
                digit_char((n % 10) as nat),
            ));
        }
    }
}

/// Appends the characters of `s` to `out`.
pub(crate) fn push_str(out: &mut Vec<char>, s: &str)
    ensures
        final(out)@ == old(out)@ + s@,
{
    let n = s.unicode_len();
    let mut i: usize = 0;
    while i < n
        invariant
            n == s@.len(),
            i <= n,
            out@ == old(out)@ + s@.subrange(0, i as int),
        decreases n - i,
    {
        let c = s.get_char(i);
        out.push(c);
        i = i + 1;
        assert(out@ =~= old(out)@ + s@.subrange(0, i as int));
    }
    assert(s@.subrange(0, n as int) =~= s@);
}

/// Appends the characters of `s` to `out`.
pub(crate) fn push_string(out: &mut Vec<char>, s: &String)
    ensures
        final(out)@ == old(out)@ + s@,
{
    push_str(out, s.as_str());
}

/// Removes from `out` every trailing `", "` that stands after position `start`.
pub(crate) fn trim_separators_after(out: &mut Vec<char>, start: usize)
    requires
        start <= old(out)@.len(),
    ensures
        final(out)@ == old(out)@.subrange(0, start as int) + trim_separators(
            old(out)@.subrange(start as int, old(out)@.len() as int),
        ),
{
    loop
        invariant
            start <= out@.len(),
            out@.subrange(0, start as int) == old(out)@.subrange(0, start as int),
            trim_separators(out@.subrange(start as int, out@.len() as int)) == trim_separators(
                old(out)@.subrange(start as int, old(out)@.len() as int),
            ),
        decreases out@.len(),
    {
        let len = out.len();
        let ghost tail = out@.subrange(start as int, len as int);
        if len - start >= 2 && out[len - 2] == ',' && out[len - 1] == ' ' {
            out.truncate(len - 2);
            assert(tail.subrange(0, tail.len() - 2) =~= out@.subrange(start as int, out@.len() as int));
            assert(out@.subrange(0, start as int) =~= old(out)@.subrange(0, start as int));
        } else {
            assert(trim_separators(tail) == tail);
            assert(out@ =~= out@.subrange(0, start as int) + tail);
            return;
        }
    }
}

/// Gathers the characters of `chars` into a `String`.
///
/// Calls `String::from_iter`, which std documents as collecting the
/// characters in the order the iterator yields them; the contract states
/// that the string holds exactly the characters of the vector, in order.
#[verifier::external_body]
pub(crate) fn chars_into_string(chars: Vec<char>) -> (s: String)
    ensures
        s@ == chars@,
{
    String::from_iter(chars)
}

/// Appends the decimal notation of `n` to `out`.
pub(crate) fn push_decimal_usize(out: &mut Vec<char>, n: usize)
    ensures
        final(out)@ == old(out)@ + decimal(n as nat),
{
    push_decimal(out, n as u64);
}

/// Appends the decimal notation of `n` to `out`.
pub(crate) fn push_decimal_u32(out: &mut Vec<char>, n: u32)
    ensures
        final(out)@ == old(out)@ + decimal(n as nat),
{
    push_decimal(out, n as u64);
}

/// Whether `c` is one of the ASCII digits.
pub open spec fn is_digit(c: char) -> bool {
    '0' <= c && c <= '9'
}

/// The number that the digits `s` denote in decimal.
pub open spec fn digits_value(s: Seq<char>) -> nat
    decreases s.len(),
{
    if s.len() == 0 {
        0
    } else {
        digits_value(s.drop_last()) * 10 + ((s.last() as int) - ('0' as int)) as nat
    }
}

/// The decimal notation of `n` is a non-empty string of digits, without a
/// leading zero unless it is `0` itself, that denotes `n`.
pub proof fn lemma_decimal_denotes(n: nat)
    ensures
        decimal(n).len() >= 1,
        forall|i: int| 0 <= i < decimal(n).len() ==> is_digit(#[trigger] decimal(n)[i]),
        decimal(n)[0] == '0' ==> n == 0,
        digits_value(decimal(n)) == n,
    decreases n,
{
    let d = n % 10;
    assert(digit_char(d) as int - '0' as int == d);
    if n < 10 {
        assert(decimal(n).drop_last() =~= Seq::<char>::empty());
        assert(digits_value(Seq::<char>::empty()) == 0);
        assert(decimal(n).last() == digit_char(d));
        assert(digits_value(decimal(n)) == d);
    } else {
        lemma_decimal_denotes(n / 10);
        assert(decimal(n).drop_last() =~= decimal(n / 10));
        assert(decimal(n).last() == digit_char(d));
        assert(n == (n / 10) * 10 + d);
        assert(digits_value(decimal(n)) == digits_value(decimal(n / 10)) * 10 + d);
        assert(decimal(n)[0] == decimal(n / 10)[0]);
        assert forall|i: int| 0 <= i < decimal(n).len() implies is_digit(#[trigger] decimal(n)[i]) by {
            if i < decimal(n / 10).len() {
                assert(decimal(n)[i] == decimal(n / 10)[i]);
            }
        }
    }
}

/// Trimming keeps a prefix of `s` that does not end in `", "`, and what it
/// removes is `", "` repeated.
pub proof fn lemma_trim_separators(s: Seq<char>)
    ensures
        trim_separators(s).len() <= s.len(),
        s.subrange(0, trim_separators(s).len() as int) == trim_separators(s),
        !(trim_separators(s).len() >= 2 && trim_separators(s)[trim_separators(s).len() - 2] == ','
            && trim_separators(s)[trim_separators(s).len() - 1] == ' '),
        (s.len() - trim_separators(s).len()) % 2 == 0,
        forall|i: int|
            trim_separators(s).len() <= i < s.len() ==> #[trigger] s[i] == (if (i
                - trim_separators(s).len()) % 2 == 0 {
                ','
            } else {
                ' '
            }),
    decreases s.len(),
{
    if s.len() >= 2 && s[s.len() - 2] == ',' && s[s.len() - 1] == ' ' {
        let t = s.subrange(0, s.len() - 2);
        lemma_trim_separators(t);
        let r = trim_separators(t);
        assert(trim_separators(s) == r);
        assert(s.subrange(0, r.len() as int) =~= t.subrange(0, r.len() as int));
        assert forall|i: int| r.len() <= i < s.len() implies #[trigger] s[i] == (if (i - r.len())
            % 2 == 0 {
            ','
        } else {
            ' '
        }) by {
            if i < t.len() {
                assert(s[i] == t[i]);
            }
        }
    } else {
        assert(s.subrange(0, s.len() as int) =~= s);
    }
}

} // verus!
