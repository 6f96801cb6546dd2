//! Which filter texts can be taken apart.
//!
//! tracing-subscriber reads a filter as a list of directives, separated by commas. It counts
//! positions in a directive without the white space around it, but cuts the directive with
//! that white space: behind leading white space, a cut can fall inside a character, and then
//! the reader panics. Everything here is about finding such a text beforehand.

use vstd::prelude::*;

use crate::text::{chars_of, is_white_space, white_space, without_leading_space};

verus! {

/// How many bytes a character takes in UTF-8.
pub open spec fn utf8_width(c: char) -> nat {
    if c <= '\u{7f}' {
        1
    } else if c <= '\u{7ff}' {
        2
    } else if c <= '\u{ffff}' {
        3
    } else {
        4
    }
}

/// The byte position `at` of `text` is the start of a character, or the end.
pub open spec fn is_boundary(text: Seq<char>, at: int) -> bool
    decreases text.len(),
{
    if at <= 0 || text.len() == 0 {
        at == 0
    } else {
        is_boundary(text.drop_first(), at - utf8_width(text[0]))
    }
}

/// How far the reader is with a directive.
#[derive(Debug, Clone, Copy, PartialEq, Eq)]
pub enum Reading {
    /// Before the first character.
    Start,
    /// In a level or a target.
    Target,
    /// In a span's name that starts at this byte.
    Span(u128),
    /// In a field that starts at this byte.
    Field(u128),
    /// Behind a span's fields.
    Fields,
    /// Behind a span.
    SpanEnd,
    /// Nothing is cut any more.
    Done,
}

/// The state behind the character `c` at byte `at`.
pub open spec fn read_on(reading: Reading, c: char, at: nat) -> Reading {
    match reading {
        Reading::Start => if c == '[' {
            Reading::Span((at + 1) as u128)
        } else {
            Reading::Target
        },
        Reading::Target => if c == '=' {
            Reading::Done
        } else if c == '[' {
            Reading::Span((at + 1) as u128)
        } else {
            Reading::Target
        },
        Reading::Span(_) => if c == ']' {
            Reading::SpanEnd
        } else if c == '{' {
            Reading::Field((at + 1) as u128)
        } else {
            reading
        },
        Reading::Field(_) => if c == '}' {
            Reading::Fields
        } else {
            reading
        },
        Reading::Fields => if c == ']' {
            Reading::SpanEnd
        } else {
            Reading::Done
        },
        Reading::SpanEnd => Reading::Done,
        Reading::Done => Reading::Done,
    }
}

/// The cuts that the character `c` at byte `at` makes in `directive` fall between characters.
pub open spec fn cut_fits(directive: Seq<char>, reading: Reading, c: char, at: nat) -> bool {
    match reading {
        Reading::Target => {
            &&& c == '=' || c == '[' ==> is_boundary(directive, at as int)
            &&& c == '=' ==> is_boundary(directive, at as int + 1)
        },
        Reading::Span(start) => c == ']' || c == '{' ==> is_boundary(directive, start as int)
            && is_boundary(directive, at as int),
        Reading::Field(start) => c == '}' ==> is_boundary(directive, start as int) && is_boundary(
            directive,
            at as int,
        ),
        Reading::SpanEnd => c == '=' ==> is_boundary(directive, at as int + 1),
        _ => true,
    }
}

/// So do all the cuts from byte `at` on, where `rest` is left to read.
pub open spec fn cuts_fit(
    directive: Seq<char>,
    reading: Reading,
    rest: Seq<char>,
    at: nat,
) -> bool
    decreases rest.len(),
{
    rest.len() > 0 ==> cut_fits(directive, reading, rest[0], at) && cuts_fit(
        directive,
        read_on(reading, rest[0], at),
        rest.drop_first(),
        at + utf8_width(rest[0]),
    )
}

/// Every cut of a directive falls between characters, as it does where there is no leading
/// white space.
pub open spec fn is_whole(directive: Seq<char>) -> bool {
    directive.len() > 0 && is_white_space(directive[0]) ==> cuts_fit(
        directive,
        Reading::Start,
        without_leading_space(directive),
        0,
    )
}

/// `text` up to its first comma.
pub open spec fn first_directive(text: Seq<char>) -> Seq<char>
    decreases text.len(),
{
    if text.len() == 0 || text[0] == ',' {
        Seq::empty()
    } else {
        seq![text[0]] + first_directive(text.drop_first())
    }
}

/// A text that the filter's reader can take apart. What is not one, the reader panics on or
/// rejects: it stops at the first directive that it cannot read.
pub open spec fn is_sliceable(text: Seq<char>) -> bool
    decreases text.len(),
{
    let directive = first_directive(text);
    &&& is_whole(directive)
    &&& directive.len() < text.len() ==> is_sliceable(text.skip(directive.len() as int + 1))
}

fn width_of(c: char) -> (n: u128)
    ensures
        n == utf8_width(c),
{
    if c <= '\u{7f}' {
        1
    } else if c <= '\u{7ff}' {
        2
    } else if c <= '\u{ffff}' {
        3
    } else {
        4
    }
}

fn at_boundary(chars: &Vec<char>, at: u128) -> (b: bool)
    ensures
        b == is_boundary(chars@, at as int),
{
    let mut left = at;
    proof {
        assert(chars@.skip(0) == chars@);
    }
    for i in 0..chars.len()
        invariant
            is_boundary(chars@, at as int) == is_boundary(chars@.skip(i as int), left as int),
    {
        proof {
            assert(chars@.skip(i as int).drop_first() == chars@.skip(i + 1));
        }
        let width = width_of(chars[i]);
        if left < width {
            proof {
                reveal_with_fuel(is_boundary, 2);
            }
            return left == 0;
        }
        left = left - width;
    }
    left == 0
}

fn cut_is_whole(directive: &Vec<char>, reading: Reading, c: char, at: u128) -> (b: bool)
    requires
        at < u128::MAX,
    ensures
        b == cut_fits(directive@, reading, c, at as nat),
{
    match reading {
        Reading::Target => {
            if c == '=' {
                at_boundary(directive, at) && at_boundary(directive, at + 1)
            } else if c == '[' {
                at_boundary(directive, at)
            } else {
                true
            }
        },
        Reading::Span(start) => {
            if c == ']' || c == '{' {
                at_boundary(directive, start) && at_boundary(directive, at)
            } else {
                true
            }
        },
        Reading::Field(start) => {
            if c == '}' {
                at_boundary(directive, start) && at_boundary(directive, at)
            } else {
                true
            }
        },
        Reading::SpanEnd => {
            if c == '=' {
                at_boundary(directive, at + 1)
            } else {
                true
            }
        },
        _ => true,
    }
}

fn next_reading(reading: Reading, c: char, at: u128) -> (next: Reading)
    requires
        at < u128::MAX,
    ensures
        next == read_on(reading, c, at as nat),
{
    match reading {
        Reading::Start => {
            if c == '[' {
                Reading::Span(at + 1)
            } else {
                Reading::Target
            }
        },
        Reading::Target => {
            if c == '=' {
                Reading::Done
            } else if c == '[' {
                Reading::Span(at + 1)
            } else {
                Reading::Target
            }
        },
        Reading::Span(start) => {
            if c == ']' {
                Reading::SpanEnd
            } else if c == '{' {
                Reading::Field(at + 1)
            } else {
                Reading::Span(start)
            }
        },
        Reading::Field(start) => {
            if c == '}' {
                Reading::Fields
            } else {
                Reading::Field(start)
            }
        },
        Reading::Fields => {
            if c == ']' {
                Reading::SpanEnd
            } else {
                Reading::Done
            }
        },
        Reading::SpanEnd => Reading::Done,
        Reading::Done => Reading::Done,
    }
}

fn whole(directive: &Vec<char>) -> (b: bool)
    ensures
        b == is_whole(directive@),
{
    let mut lead: usize = 0;
    proof {
        assert(directive@.skip(0) == directive@);
    }
    while lead < directive.len() && white_space(directive[lead])
        invariant
            lead <= directive.len(),
            without_leading_space(directive@) == without_leading_space(
                directive@.skip(lead as int),
            ),
            lead > 0 ==> is_white_space(directive@[0]),
        decreases directive.len() - lead,
    {
        proof {
            assert(directive@.skip(lead as int).drop_first() == directive@.skip(lead + 1));
        }
        lead = lead + 1;
    }
    if lead == 0 {
        return true;
    }
    let ghost trimmed = without_leading_space(directive@);
    proof {
        assert(trimmed == directive@.skip(lead as int));
    }
    let mut reading = Reading::Start;
    let mut at: u128 = 0;
    for i in lead..directive.len()
        invariant
            at <= 4 * (i - lead),
            0 < lead <= directive.len(),
            cuts_fit(directive@, Reading::Start, trimmed, 0) == cuts_fit(
                directive@,
                reading,
                directive@.skip(i as int),
                at as nat,
            ),
            is_white_space(directive@[0]),
            trimmed == without_leading_space(directive@),
    {
        let c = directive[i];
        proof {
            assert(directive@.skip(i as int).drop_first() == directive@.skip(i + 1));
        }
        if !cut_is_whole(directive, reading, c, at) {
            return false;
        }
        reading = next_reading(reading, c, at);
        at = at + width_of(c);
    }
    true
}

/// Whether the filter's reader can take `text` apart.
pub fn sliceable(text: &str) -> (b: bool)
    ensures
        b == is_sliceable(text@),
{
    let chars = chars_of(text);
    let mut start: usize = 0;
    let mut directive: Vec<char> = Vec::new();
    let mut i: usize = 0;
    proof {
        assert(chars@.skip(0) == chars@);
        assert(directive@ + first_directive(chars@) == first_directive(chars@));
    }
    while i < chars.len()
        invariant
            chars@ == text@,
            start <= i <= chars.len(),
            directive.len() == i - start,
            first_directive(text@.skip(start as int)) == directive@ + first_directive(
                text@.skip(i as int),
            ),
            is_sliceable(text@) == is_sliceable(text@.skip(start as int)),
        decreases chars.len() - i,
    {
        let c = chars[i];
        let ghost rest = text@.skip(i as int);
        proof {
            assert(rest.drop_first() == text@.skip(i + 1));
        }
        if c == ',' {
            proof {
                assert(first_directive(text@.skip(start as int)) == directive@);
                assert(text@.skip(start as int).skip(directive@.len() as int + 1) == text@.skip(
                    i + 1,
                ));
            }
            if !whole(&directive) {
                return false;
            }
            directive = Vec::new();
            start = i + 1;
            proof {
                let next = first_directive(text@.skip(i + 1));
                assert(directive@ + next == next);
            }
        } else {
            let ghost before = directive@;
            directive.push(c);
            proof {
                let next = first_directive(text@.skip(i + 1));
                assert(before + (seq![c] + next) == directive@ + next);
            }
        }
        i = i + 1;
    }
    proof {
        let rest = text@.skip(i as int);
        assert(rest.len() == 0);
        assert(first_directive(text@.skip(start as int)) == directive@);
        assert(directive@.len() == text@.skip(start as int).len());
    }
    whole(&directive)
}

/// A text without a comma that does not start with white space is one directive, which is
/// whole.
pub(crate) proof fn lemma_one_directive(text: Seq<char>)
    requires
        !text.contains(','),
        text.len() > 0 ==> !is_white_space(text[0]),
    ensures
        is_sliceable(text),
{
    lemma_no_comma(text);
}

proof fn lemma_no_comma(text: Seq<char>)
    requires
        !text.contains(','),
    ensures
        first_directive(text) == text,
    decreases text.len(),
{
    if text.len() > 0 {
        let rest = text.drop_first();
        assert(text.contains(text[0]));
        assert forall|i: int| 0 <= i < rest.len() implies rest[i] != ',' by {
            assert(text.contains(text[i + 1]));
        }
        lemma_no_comma(rest);
        assert(seq![text[0]] + rest == text);
    }
}

} // verus!
