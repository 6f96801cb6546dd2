//! Laws of the text building blocks.

use vstd::prelude::*;

use crate::text::{
    chars_of, decimal_string, digit, is_white_space, lemma_radix_digits, push_repeated,
    radix_string, radix_text, repeated, same_text, string_of, trim, white_space,
    without_leading_space, without_trailing_space, zero_padded, zero_padded_string,
};

verus! {

/// The number that a row of digits stands for.
pub open spec fn value_of(digits: Seq<char>, base: nat) -> int
    decreases digits.len(),
{
    if digits.len() == 0 {
        0
    } else {
        value_of(digits.drop_last(), base) * base + (digits.last() as int - '0' as int)
    }
}

/// The number that a row of decimal digits stands for.
pub open spec fn number(digits: Seq<char>) -> int {
    value_of(digits, 10)
}

/// A number in some base reads back as itself.
pub proof fn lemma_value(n: nat, base: nat)
    requires
        2 <= base <= 10,
    ensures
        value_of(radix_text(n, base), base) == n,
        radix_text(n, base).len() > 0,
        radix_text(n, base)[0] == '0' ==> n == 0 && radix_text(n, base).len() == 1,
    decreases n,
{
    let text = radix_text(n, base);
    if n < base {
        assert(text.drop_last() =~= Seq::empty());
        assert(value_of(text.drop_last(), base) == 0);
        assert(0 * base == 0);
    } else {
        assert(n / base < n && n / base > 0) by (nonlinear_arith)
            requires
                2 <= base <= n,
        ;
        lemma_value(n / base, base);
        let front = radix_text(n / base, base);
        assert(text.drop_last() =~= front);
        assert(n % base < base && (n / base) * base + n % base == n) by (nonlinear_arith)
            requires
                2 <= base,
        ;
        assert(text.last() == digit(n % base));
        assert(text[0] == front[0]);
    }
}

/// A number that is written down reads back as itself, in digits of its base and without a
/// leading zero.
pub proof fn numbers_read_back(n: u64, base: u64, text: String)
    requires
        2 <= base <= 10,
        call_ensures(radix_string, (n, base), text),
    ensures
        value_of(text@, base as nat) == n,
        text@.len() > 0,
        text@.len() > 1 ==> text@[0] != '0',
        forall|i: int| 0 <= i < text@.len() ==> '0' <= #[trigger] text@[i] <= '9',
{
    lemma_value(n as nat, base as nat);
    lemma_radix_digits(n as nat, base as nat);
}

/// A number in decimal reads back as itself, and two numbers that read the same are the same.
pub proof fn decimals_read_back(n: u64, text: String)
    requires
        call_ensures(decimal_string, (n,), text),
    ensures
        number(text@) == n,
        text@.len() > 1 ==> text@[0] != '0',
        forall|i: int| 0 <= i < text@.len() ==> '0' <= #[trigger] text@[i] <= '9',
{
    lemma_value(n as nat, 10);
    lemma_radix_digits(n as nat, 10);
}

/// The number of values that `k` decimal digits can tell apart.
pub open spec fn ten_to_the(k: nat) -> nat
    decreases k,
{
    if k == 0 {
        1
    } else {
        10 * ten_to_the((k - 1) as nat)
    }
}

proof fn lemma_decimal_len(n: nat, k: nat)
    requires
        k > 0,
        n < ten_to_the(k),
    ensures
        radix_text(n, 10).len() <= k,
    decreases k,
{
    if n >= 10 {
        reveal_with_fuel(ten_to_the, 2);
        assert(k > 1);
        lemma_decimal_len(n / 10, (k - 1) as nat);
    }
}

/// Zeros in front of a row of digits do not change the number that it stands for.
pub proof fn lemma_leading_zeros(k: nat, digits: Seq<char>, base: nat)
    ensures
        value_of(repeated('0', k) + digits, base) == value_of(digits, base),
    decreases digits.len(), k,
{
    let all = repeated('0', k) + digits;
    if digits.len() > 0 {
        lemma_leading_zeros(k, digits.drop_last(), base);
        assert(all.drop_last() =~= repeated('0', k) + digits.drop_last());
    } else if k > 0 {
        lemma_leading_zeros((k - 1) as nat, digits, base);
        assert(value_of(digits, base) == 0);
        assert(0 * base == 0);
        assert(all.drop_last() =~= repeated('0', (k - 1) as nat) + digits);
        assert(all.last() == '0');
    } else {
        assert(all =~= digits);
    }
}

/// A number that `width` digits can hold takes exactly that many and reads back as itself.
pub proof fn lemma_padded(n: nat, width: nat)
    requires
        width > 0,
        n < ten_to_the(width),
    ensures
        zero_padded(radix_text(n, 10), width).len() == width,
        number(zero_padded(radix_text(n, 10), width)) == n,
{
    lemma_decimal_len(n, width);
    lemma_value(n, 10);
    let text = radix_text(n, 10);
    if text.len() < width {
        lemma_leading_zeros((width - text.len()) as nat, text, 10);
    }
}

/// Padding puts nothing but zeros in front, and no more than the width asks for.
pub proof fn padding_is_zeros_in_front(text: &str, width: usize, padded: String)
    requires
        call_ensures(zero_padded_string, (text, width), padded),
    ensures
        padded@.len() == if text@.len() < width {
            width as nat
        } else {
            text@.len()
        },
        padded@.skip(padded@.len() - text@.len()) == text@,
        forall|i: int| 0 <= i < padded@.len() - text@.len() ==> (#[trigger] padded@[i]) == '0',
{
    assert(padded@.skip(padded@.len() - text@.len()) =~= text@);
}

/// White space is the tab, the line feed and the three controls behind it, the space, and beyond
/// ASCII the next line, the no-break space and the spaces and separators of their own; no
/// character that prints is.
pub proof fn printed_characters_are_no_white_space(c: char, b: bool)
    requires
        call_ensures(white_space, (c,), b),
    ensures
        '!' <= c <= '~' ==> !b,
        c <= '\u{7f}' ==> (b <==> 9 <= c as u32 <= 13 || c == ' '),
        '\u{80}' <= c <= '\u{1fff}' ==> (b <==> c as u32 == 0x85 || c as u32 == 0xa0 || c as u32
            == 0x1680),
        '\u{2000}' <= c <= '\u{200a}' ==> b,
        '\u{200b}' <= c ==> (b <==> c as u32 == 0x2028 || c as u32 == 0x2029 || c as u32 == 0x202f
            || c as u32 == 0x205f || c as u32 == 0x3000),
{
}

proof fn lemma_leading(s: Seq<char>) -> (k: int)
    ensures
        0 <= k <= s.len(),
        without_leading_space(s) == s.skip(k),
        forall|i: int| 0 <= i < k ==> is_white_space(#[trigger] s[i]),
        k < s.len() ==> !is_white_space(s[k]),
    decreases s.len(),
{
    if s.len() > 0 && is_white_space(s[0]) {
        let k = lemma_leading(s.drop_first());
        assert(s.skip(k + 1) =~= s.drop_first().skip(k));
        assert forall|i: int| 0 <= i < k + 1 implies is_white_space(#[trigger] s[i]) by {
            if i > 0 {
                assert(s[i] == s.drop_first()[i - 1]);
            }
        }
        if k + 1 < s.len() {
            assert(s[k + 1] == s.drop_first()[k]);
        }
        k + 1
    } else {
        assert(s.skip(0) =~= s);
        0
    }
}

proof fn lemma_trailing(s: Seq<char>) -> (k: int)
    ensures
        0 <= k <= s.len(),
        without_trailing_space(s) == s.take(k),
        forall|i: int| k <= i < s.len() ==> is_white_space(#[trigger] s[i]),
        k > 0 ==> !is_white_space(s[k - 1]),
    decreases s.len(),
{
    if s.len() > 0 && is_white_space(s.last()) {
        let k = lemma_trailing(s.drop_last());
        assert(s.take(k) =~= s.drop_last().take(k));
        assert forall|i: int| k <= i < s.len() implies is_white_space(#[trigger] s[i]) by {
            if i < s.len() - 1 {
                assert(s[i] == s.drop_last()[i]);
            }
        }
        if k > 0 {
            assert(s[k - 1] == s.drop_last()[k - 1]);
        }
        k
    } else {
        assert(s.take(s.len() as int) =~= s);
        s.len() as int
    }
}

/// `whole` is `text` with nothing but white space around it.
pub open spec fn is_trimmed_of(text: Seq<char>, whole: Seq<char>, from: int, to: int) -> bool {
    &&& 0 <= from <= to <= whole.len()
    &&& text == whole.subrange(from, to)
    &&& forall|i: int| 0 <= i < from || to <= i < whole.len() ==> is_white_space(#[trigger] whole[i])
}

/// Trimming takes away white space at the ends and nothing else: what is left stands in the
/// text as it is, and neither begins nor ends with white space.
pub proof fn trimming_takes_white_space_alone(s: &str, text: String)
    requires
        call_ensures(trim, (s,), text),
    ensures
        exists|from: int, to: int| #[trigger] is_trimmed_of(text@, s@, from, to),
        text@.len() > 0 ==> !is_white_space(text@[0]) && !is_white_space(text@.last()),
{
    let k = lemma_leading(s@);
    let rest = s@.skip(k);
    let m = lemma_trailing(rest);
    assert(text@ =~= s@.subrange(k, k + m));
    assert forall|i: int| 0 <= i < k || k + m <= i < s@.len() implies is_white_space(
        #[trigger] s@[i],
    ) by {
        if i >= k + m {
            assert(s@[i] == rest[i - k]);
        }
    }
    assert(is_trimmed_of(text@, s@, k, k + m));
    if m > 0 {
        assert(text@[0] == rest[0]);
        assert(text@.last() == rest[m - 1]);
    }
}

/// A text is taken apart into its characters, and characters are put together into a text.
pub proof fn texts_are_their_characters(
    text: &str,
    chars: Vec<char>,
    from: usize,
    to: usize,
    part: String,
)
    requires
        from <= to <= chars@.len(),
        call_ensures(chars_of, (text,), chars),
        call_ensures(string_of, (&chars, from, to), part),
    ensures
        chars@.len() == text@.len(),
        forall|i: int| 0 <= i < text@.len() ==> chars@[i] == text@[i],
        part@.len() == to - from,
        forall|i: int| 0 <= i < to - from ==> #[trigger] part@[i] == text@[from + i],
{
}

/// A repeated character comes behind what is there, as often as asked.
pub proof fn repetitions_come_behind(out: &mut String, c: char, n: usize)
    requires
        call_ensures(push_repeated, (out, c, n), ()),
    ensures
        final(out)@.len() == old(out)@.len() + n,
        old(out)@.is_prefix_of(final(out)@),
        forall|i: int| old(out)@.len() <= i < final(out)@.len() ==> #[trigger] final(out)@[i] == c,
{
}

/// Two texts are found the same exactly when they have the same characters.
pub proof fn same_texts_have_the_same_characters(a: &str, b: &str, same: bool)
    requires
        call_ensures(same_text, (a, b), same),
    ensures
        same <==> a@.len() == b@.len() && forall|i: int| 0 <= i < a@.len() ==> a@[i] == b@[i],
{
    if a@.len() == b@.len() && forall|i: int| 0 <= i < a@.len() ==> a@[i] == b@[i] {
        assert(a@ =~= b@);
    }
}

} // verus!
