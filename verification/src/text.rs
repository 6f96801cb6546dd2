//! Small text building blocks shared by the other modules.

use vstd::prelude::*;

verus! {

/// `String::push` appends one character.
pub assume_specification[ String::push ](s: &mut String, c: char)
    ensures
        final(s)@ == old(s)@.push(c),
;

/// The characters of `s`, in order.
pub fn chars_of(s: &str) -> (chars: Vec<char>)
    ensures
        chars@ == s@,
{
    let mut chars: Vec<char> = Vec::new();
    for c in it: s.chars()
        invariant
            it.seq() == s@,
            chars@ == s@.take(it.index() as int),
    {
        proof {
            assert(s@.take(it.index() + 1) == s@.take(it.index() as int).push(c));
        }
        chars.push(c);
    }
    proof {
        assert(s@.take(s@.len() as int) == s@);
    }
    chars
}

/// Whether two texts are the same.
pub fn same_text(a: &str, b: &str) -> (same: bool)
    ensures
        same == (a@ == b@),
{
    let left = chars_of(a);
    let right = chars_of(b);
    if left.len() != right.len() {
        return false;
    }
    for i in 0..left.len()
        invariant
            left@ == a@,
            right@ == b@,
            left@.len() == right@.len(),
            forall|j: int| 0 <= j < i ==> a@[j] == b@[j],
    {
        if left[i] != right[i] {
            proof {
                assert(a@[i as int] != b@[i as int]);
            }
            return false;
        }
    }
    proof {
        assert(a@ == b@);
    }
    true
}

/// The texts that `list` holds.
pub open spec fn texts(list: Seq<String>) -> Seq<Seq<char>> {
    Seq::new(list.len(), |i: int| list[i]@)
}

/// `c` is white space: it has the Unicode property `White_Space`.
pub open spec fn is_white_space(c: char) -> bool {
    ||| '\u{9}' <= c <= '\u{d}'
    ||| c == ' '
    ||| c == '\u{85}'
    ||| c == '\u{a0}'
    ||| c == '\u{1680}'
    ||| '\u{2000}' <= c <= '\u{200a}'
    ||| c == '\u{2028}'
    ||| c == '\u{2029}'
    ||| c == '\u{202f}'
    ||| c == '\u{205f}'
    ||| c == '\u{3000}'
}

/// `s` without the white space that it starts with.
pub open spec fn without_leading_space(s: Seq<char>) -> Seq<char>
    decreases s.len(),
{
    if s.len() > 0 && is_white_space(s[0]) {
        without_leading_space(s.drop_first())
    } else {
        s
    }
}

/// `s` without the white space that it ends in.
pub open spec fn without_trailing_space(s: Seq<char>) -> Seq<char>
    decreases s.len(),
{
    if s.len() > 0 && is_white_space(s.last()) {
        without_trailing_space(s.drop_last())
    } else {
        s
    }
}

/// `s` without the white space around it.
pub open spec fn trimmed(s: Seq<char>) -> Seq<char> {
    without_trailing_space(without_leading_space(s))
}

/// Whether `c` is white space.
pub fn white_space(c: char) -> (b: bool)
    ensures
        b == is_white_space(c),
{
    match c {
        '\u{9}'..='\u{d}' | ' ' | '\u{85}' | '\u{a0}' | '\u{1680}' => true,
        '\u{2000}'..='\u{200a}' | '\u{2028}' | '\u{2029}' | '\u{202f}' => true,
        '\u{205f}' | '\u{3000}' => true,
        _ => false,
    }
}

/// The text of the given characters.
pub fn string_of(chars: &Vec<char>, from: usize, to: usize) -> (text: String)
    requires
        from <= to <= chars@.len(),
    ensures
        text@ == chars@.subrange(from as int, to as int),
{
    let mut text = String::new();
    for i in from..to
        invariant
            from <= to <= chars@.len(),
            text@ == chars@.subrange(from as int, i as int),
    {
        text.push(chars[i]);
        proof {
            assert(chars@.subrange(from as int, i + 1) == chars@.subrange(
                from as int,
                i as int,
            ).push(chars@[i as int]));
        }
    }
    text
}

/// `s` without the white space around it.
pub fn trim(s: &str) -> (text: String)
    ensures
        text@ == trimmed(s@),
{
    let chars = chars_of(s);
    let len = chars.len();
    let mut from: usize = 0;
    proof {
        assert(chars@.skip(0) == chars@);
    }
    while from < len && white_space(chars[from])
        invariant
            from <= len,
            len == chars@.len(),
            without_leading_space(chars@) == without_leading_space(chars@.skip(from as int)),
        decreases len - from,
    {
        proof {
            assert(chars@.skip(from as int).drop_first() == chars@.skip(from + 1));
        }
        from = from + 1;
    }
    let mut to: usize = len;
    let ghost rest = chars@.skip(from as int);
    proof {
        assert(without_leading_space(chars@) == rest);
        assert(rest == chars@.subrange(from as int, to as int));
    }
    while from < to && white_space(chars[to - 1])
        invariant
            from <= to <= len,
            len == chars@.len(),
            without_trailing_space(rest) == without_trailing_space(
                chars@.subrange(from as int, to as int),
            ),
        decreases to - from,
    {
        proof {
            let now = chars@.subrange(from as int, to as int);
            assert(now.drop_last() == chars@.subrange(from as int, to - 1));
            assert(now.last() == chars@[to - 1]);
        }
        to = to - 1;
    }
    proof {
        let now = chars@.subrange(from as int, to as int);
        assert(now.len() > 0 ==> now.last() == chars@[to - 1]);
    }
    string_of(&chars, from, to)
}

/// `n` copies of `c`.
pub open spec fn repeated(c: char, n: nat) -> Seq<char> {
    Seq::new(n, |i: int| c)
}

/// Append `n` copies of `c`.
pub fn push_repeated(out: &mut String, c: char, n: usize)
    ensures
        final(out)@ == old(out)@ + repeated(c, n as nat),
{
    let ghost before = out@;
    for i in 0..n
        invariant
            out@ == before + repeated(c, i as nat),
    {
        out.push(c);
        proof {
            assert(repeated(c, (i + 1) as nat) == repeated(c, i as nat).push(c));
        }
    }
}

/// The decimal digit `d`.
pub open spec fn digit(d: nat) -> char
    recommends
        d < 10,
{
    ('0' as u32 + d) as char
}

/// `n` in base `base`, most significant digit first and without leading zeros.
pub open spec fn radix_text(n: nat, base: nat) -> Seq<char>
    recommends
        2 <= base <= 10,
    decreases n,
    when 2 <= base
{
    if n < base {
        seq![digit(n)]
    } else {
        proof {
            assert(n / base < n) by (nonlinear_arith)
                requires
                    2 <= base <= n,
            ;
        }
        radix_text(n / base, base).push(digit(n % base))
    }
}

/// Two numbers written alike in one base are the same number.
pub proof fn lemma_radix_injective(a: nat, b: nat, base: nat)
    requires
        2 <= base <= 10,
        radix_text(a, base) == radix_text(b, base),
    ensures
        a == b,
    decreases a,
{
    let s = radix_text(a, base);
    let t = radix_text(b, base);
    lemma_radix_nonempty(a / base, base);
    lemma_radix_nonempty(b / base, base);
    if a < base {
        assert(s.len() == 1);
        assert(b < base);
        assert(s[0] == digit(a) && t[0] == digit(b));
    } else {
        assert(s.len() > 1);
        assert(b >= base);
        assert(s.drop_last() == radix_text(a / base, base));
        assert(t.drop_last() == radix_text(b / base, base));
        assert(s.last() == digit(a % base) && t.last() == digit(b % base));
        assert(a / base < a) by (nonlinear_arith)
            requires
                2 <= base <= a,
        ;
        lemma_radix_injective(a / base, b / base, base);
        assert(a % base < base && b % base < base) by (nonlinear_arith)
            requires
                2 <= base,
        ;
        vstd::arithmetic::div_mod::lemma_fundamental_div_mod(a as int, base as int);
        vstd::arithmetic::div_mod::lemma_fundamental_div_mod(b as int, base as int);
    }
}

proof fn lemma_radix_nonempty(n: nat, base: nat)
    requires
        2 <= base <= 10,
    ensures
        radix_text(n, base).len() >= 1,
{
}

/// A number is written with digits alone.
pub(crate) proof fn lemma_radix_digits(n: nat, base: nat)
    requires
        2 <= base <= 10,
    ensures
        radix_text(n, base).len() > 0,
        forall|i: int|
            0 <= i < radix_text(n, base).len() ==> '0' <= #[trigger] radix_text(n, base)[i] <= '9',
    decreases n,
{
    if n >= base {
        assert(n / base < n) by (nonlinear_arith)
            requires
                2 <= base <= n,
        ;
        assert(n % base < base) by (nonlinear_arith)
            requires
                2 <= base,
        ;
        lemma_radix_digits(n / base, base);
    }
}

/// `n` in decimal.
pub open spec fn decimal(n: nat) -> Seq<char> {
    radix_text(n, 10)
}

/// `text` with zeros put in front until it is `width` characters long.
pub open spec fn zero_padded(text: Seq<char>, width: nat) -> Seq<char> {
    if text.len() < width {
        repeated('0', (width - text.len()) as nat) + text
    } else {
        text
    }
}

fn digit_char(d: u64) -> (c: char)
    requires
        d < 10,
    ensures
        c == digit(d as nat),
{
    match d {
        0 => '0',
        1 => '1',
        2 => '2',
        3 => '3',
        4 => '4',
        5 => '5',
        6 => '6',
        7 => '7',
        8 => '8',
        _ => '9',
    }
}

/// `n` in base `base`.
pub fn radix_string(n: u64, base: u64) -> (text: String)
    requires
        2 <= base <= 10,
    ensures
        text@ == radix_text(n as nat, base as nat),
    decreases n,
{
    if n < base {
        let mut text = String::new();
        text.push(digit_char(n));
        proof {
            assert(Seq::<char>::empty().push(digit(n as nat)) == seq![digit(n as nat)]);
        }
        text
    } else {
        proof {
            assert(0 < n / base < n) by (nonlinear_arith)
                requires
                    2 <= base <= n,
            ;
            assert(n % base < base) by (nonlinear_arith)
                requires
                    2 <= base,
            ;
        }
        let mut text = radix_string(n / base, base);
        text.push(digit_char(n % base));
        text
    }
}

/// `n` in decimal.
pub fn decimal_string(n: u64) -> (text: String)
    ensures
        text@ == decimal(n as nat),
{
    radix_string(n, 10)
}

/// `text` with zeros put in front until it is `width` characters long.
pub fn zero_padded_string(text: &str, width: usize) -> (padded: String)
    ensures
        padded@ == zero_padded(text@, width as nat),
{
    let chars = chars_of(text);
    let mut padded = String::new();
    if chars.len() < width {
        push_repeated(&mut padded, '0', width - chars.len());
    }
    padded.append(text);
    padded
}

} // verus!
