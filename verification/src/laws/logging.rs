//! Laws of the log level and of the agent log's path.

use vstd::prelude::*;

use std::path::PathBuf;

use tracing_subscriber::EnvFilter;

use crate::directive::{
    cuts_fit, first_directive, is_boundary, is_sliceable, is_whole, lemma_one_directive, read_on,
    sliceable, utf8_width, Reading,
};
use crate::logging::{checked_filter, filter_directives, is_word, LoggingError};
use crate::paths::{has_parent, last_name, path_parts, path_text};
use crate::text::{is_white_space, without_leading_space};

verus! {

/// ASCII letters and digits alone.
pub open spec fn is_alphanumeric(text: Seq<char>) -> bool {
    forall|i: int|
        0 <= i < text.len() ==> ('a' <= #[trigger] text[i] <= 'z' || 'A' <= text[i] <= 'Z' || '0'
            <= text[i] <= '9')
}

/// A file in a directory: the path has a parent and ends in a name.
pub open spec fn is_file(path: PathBuf) -> bool {
    has_parent(path_parts(path)) && last_name(path_parts(path)) is Some
}

/// Every bare word is a level, and its filter is made of it; with one, the only other error is
/// that the log's path is not that of a file in a directory.
pub proof fn bare_words_are_levels(
    agent_log: PathBuf,
    level: &str,
    filter: Result<EnvFilter, LoggingError>,
)
    requires
        call_ensures(checked_filter, (&agent_log, level), filter),
        is_alphanumeric(level@),
    ensures
        filter is Ok <==> is_file(agent_log),
        filter matches Ok(made) ==> filter_directives(made) == level@,
        filter matches Err(err) ==> (err matches LoggingError::Path(text) && text@ == path_text(
            agent_log,
        )),
{
    assert(is_word(level@));
}

/// A level is judged by itself, whatever the log's path is, and before it. A level that cannot
/// be taken apart is refused, and a refusal holds what it refuses.
pub proof fn levels_are_judged_by_themselves(
    agent_log: PathBuf,
    other: PathBuf,
    level: &str,
    whole: bool,
    filter: Result<EnvFilter, LoggingError>,
    again: Result<EnvFilter, LoggingError>,
)
    requires
        call_ensures(sliceable, (level,), whole),
        call_ensures(checked_filter, (&agent_log, level), filter),
        call_ensures(checked_filter, (&other, level), again),
    ensures
        filter matches Err(LoggingError::Filter(_)) <==> again matches Err(LoggingError::Filter(_)),
        !whole ==> filter matches Err(LoggingError::Filter(_)),
        filter matches Err(LoggingError::Filter(text)) ==> text@ == level@,
        filter matches Err(LoggingError::Path(text)) ==> text@ == path_text(agent_log) && !is_file(
            agent_log,
        ),
        filter matches Ok(made) ==> is_file(agent_log) && filter_directives(made) == level@,
        !(filter matches Err(LoggingError::AlreadyInitialised)),
        !(filter matches Err(LoggingError::Open(_))),
{
}

proof fn lemma_first(a: Seq<char>, b: Seq<char>)
    requires
        !a.contains(','),
    ensures
        first_directive(a + (seq![','] + b)) == a,
    decreases a.len(),
{
    let text = a + (seq![','] + b);
    if a.len() == 0 {
        assert(text[0] == ',');
        assert(a =~= Seq::empty());
    } else {
        let rest = a.drop_first();
        assert(a.contains(a[0]));
        assert forall|i: int| 0 <= i < rest.len() implies rest[i] != ',' by {
            assert(a.contains(a[i + 1]));
        }
        lemma_first(rest, b);
        assert(text.drop_first() =~= rest + (seq![','] + b));
        assert(seq![a[0]] + rest =~= a);
    }
}

proof fn lemma_alone(a: Seq<char>)
    requires
        !a.contains(','),
    ensures
        first_directive(a) == a,
    decreases a.len(),
{
    if a.len() == 0 {
        assert(a =~= Seq::empty());
    } else {
        let rest = a.drop_first();
        assert(a.contains(a[0]));
        assert forall|i: int| 0 <= i < rest.len() implies rest[i] != ',' by {
            assert(a.contains(a[i + 1]));
        }
        lemma_alone(rest);
        assert(seq![a[0]] + rest =~= a);
    }
}

/// A list of directives can be taken apart exactly when its first directive and the list behind
/// it can.
pub proof fn lists_are_taken_apart_one_by_one(
    first: &str,
    rest: &str,
    list: &str,
    of_first: bool,
    of_rest: bool,
    of_list: bool,
)
    requires
        !first@.contains(','),
        list@ == first@ + seq![','] + rest@,
        call_ensures(sliceable, (first,), of_first),
        call_ensures(sliceable, (rest,), of_rest),
        call_ensures(sliceable, (list,), of_list),
    ensures
        of_list <==> of_first && of_rest,
{
    assert(list@ =~= first@ + (seq![','] + rest@));
    lemma_first(first@, rest@);
    lemma_alone(first@);
    assert(list@.skip(first@.len() as int + 1) =~= rest@);
}

/// A directive without white space in front can be taken apart.
pub proof fn directives_without_leading_space_are_whole(text: &str, whole: bool)
    requires
        !text@.contains(','),
        text@.len() > 0 ==> !is_white_space(text@[0]),
        call_ensures(sliceable, (text,), whole),
    ensures
        whole,
{
    lemma_one_directive(text@);
}

/// Every character of `text` takes one byte.
pub open spec fn is_ascii(text: Seq<char>) -> bool {
    forall|i: int| 0 <= i < text.len() ==> #[trigger] text[i] <= '\u{7f}'
}

proof fn lemma_ascii_boundary(text: Seq<char>, at: int)
    requires
        is_ascii(text),
        0 <= at <= text.len(),
    ensures
        is_boundary(text, at),
    decreases text.len(),
{
    if at > 0 {
        let rest = text.drop_first();
        assert(is_ascii(rest)) by {
            assert forall|i: int| 0 <= i < rest.len() implies #[trigger] rest[i] <= '\u{7f}' by {
                assert(rest[i] == text[i + 1]);
            }
        }
        assert(text[0] <= '\u{7f}');
        lemma_ascii_boundary(rest, at - 1);
    }
}

proof fn lemma_ascii_cuts(directive: Seq<char>, reading: Reading, rest: Seq<char>, at: nat)
    requires
        is_ascii(directive),
        is_ascii(rest),
        at + rest.len() <= directive.len() <= u128::MAX,
        reading matches Reading::Span(start) ==> start <= directive.len(),
        reading matches Reading::Field(start) ==> start <= directive.len(),
    ensures
        cuts_fit(directive, reading, rest, at),
    decreases rest.len(),
{
    if rest.len() > 0 {
        lemma_ascii_boundary(directive, at as int);
        lemma_ascii_boundary(directive, at as int + 1);
        if let Reading::Span(start) = reading {
            lemma_ascii_boundary(directive, start as int);
        }
        if let Reading::Field(start) = reading {
            lemma_ascii_boundary(directive, start as int);
        }
        let c = rest[0];
        assert(c <= '\u{7f}');
        assert(utf8_width(c) == 1);
        let tail = rest.drop_first();
        assert(is_ascii(tail)) by {
            assert forall|i: int| 0 <= i < tail.len() implies #[trigger] tail[i] <= '\u{7f}' by {
                assert(tail[i] == rest[i + 1]);
            }
        }
        lemma_ascii_cuts(directive, read_on(reading, c, at), tail, at + 1);
    }
}

proof fn lemma_ascii_leading(text: Seq<char>)
    requires
        is_ascii(text),
    ensures
        is_ascii(without_leading_space(text)),
        without_leading_space(text).len() <= text.len(),
    decreases text.len(),
{
    if text.len() > 0 && is_white_space(text[0]) {
        let rest = text.drop_first();
        assert(is_ascii(rest)) by {
            assert forall|i: int| 0 <= i < rest.len() implies #[trigger] rest[i] <= '\u{7f}' by {
                assert(rest[i] == text[i + 1]);
            }
        }
        lemma_ascii_leading(rest);
    }
}

proof fn lemma_ascii_first(text: Seq<char>)
    requires
        is_ascii(text),
    ensures
        is_ascii(first_directive(text)),
        first_directive(text).len() <= text.len(),
    decreases text.len(),
{
    if text.len() > 0 && text[0] != ',' {
        let rest = text.drop_first();
        assert(is_ascii(rest)) by {
            assert forall|i: int| 0 <= i < rest.len() implies #[trigger] rest[i] <= '\u{7f}' by {
                assert(rest[i] == text[i + 1]);
            }
        }
        lemma_ascii_first(rest);
        assert(text[0] <= '\u{7f}');
    }
}

proof fn lemma_ascii_sliceable(text: Seq<char>)
    requires
        is_ascii(text),
        text.len() <= u128::MAX,
    ensures
        is_sliceable(text),
    decreases text.len(),
{
    let directive = first_directive(text);
    lemma_ascii_first(text);
    lemma_ascii_leading(directive);
    lemma_ascii_cuts(directive, Reading::Start, without_leading_space(directive), 0);
    assert(is_whole(directive));
    if directive.len() < text.len() {
        let rest = text.skip(directive.len() as int + 1);
        assert(is_ascii(rest)) by {
            assert forall|i: int| 0 <= i < rest.len() implies #[trigger] rest[i] <= '\u{7f}' by {
                assert(rest[i] == text[i + directive.len() + 1]);
            }
        }
        lemma_ascii_sliceable(rest);
    }
}

/// Every ASCII text can be taken apart, with white space wherever it is: no cut falls inside a
/// character of one byte.
pub proof fn ascii_texts_are_whole(text: &str, whole: bool)
    requires
        is_ascii(text@),
        text@.len() <= u128::MAX,
        call_ensures(sliceable, (text,), whole),
    ensures
        whole,
{
    lemma_ascii_sliceable(text@);
}

/// A character takes as many bytes as it is encoded in.
pub proof fn characters_take_the_bytes_of_their_encoding(c: char)
    ensures
        vstd::utf8::encode_utf8(seq![c]).len() == utf8_width(c),
{
    reveal_with_fuel(vstd::utf8::encode_utf8, 2);
    vstd::utf8::char_is_scalar(c);
    assert(seq![c].drop_first() =~= Seq::empty());
}

/// White space, a word of letters and digits, and one character behind it.
pub open spec fn is_spaced(text: Seq<char>, space: char, word: Seq<char>, end: char) -> bool {
    &&& is_white_space(space)
    &&& is_alphanumeric(word)
    &&& text == seq![space] + word + seq![end]
}

proof fn lemma_inside(directive: Seq<char>, word: Seq<char>, end: char, at: nat)
    requires
        is_alphanumeric(word),
        end == '=' || end == '[',
        !is_boundary(directive, at + word.len() as int),
    ensures
        !cuts_fit(directive, Reading::Target, word.push(end), at),
    decreases word.len(),
{
    let rest = word.push(end);
    if word.len() > 0 {
        let tail = word.drop_first();
        assert(rest[0] == word[0]);
        assert(rest.drop_first() =~= tail.push(end));
        lemma_alphanumeric_tail(word);
        assert(utf8_width(word[0]) == 1);
        lemma_inside(directive, tail, end, at + 1);
    } else {
        assert(rest[0] == end);
    }
}

proof fn lemma_alphanumeric_tail(word: Seq<char>)
    requires
        is_alphanumeric(word),
        word.len() > 0,
    ensures
        is_alphanumeric(word.drop_first()),
{
    let tail = word.drop_first();
    assert forall|i: int| 0 <= i < tail.len() implies ('a' <= #[trigger] tail[i] <= 'z' || 'A'
        <= tail[i] <= 'Z' || '0' <= tail[i] <= '9') by {
        assert(tail[i] == word[i + 1]);
    }
}

proof fn lemma_in_span(directive: Seq<char>, start: u128, word: Seq<char>, end: char, at: nat)
    requires
        is_alphanumeric(word),
        end == ']' || end == '{',
        !is_boundary(directive, start as int),
    ensures
        !cuts_fit(directive, Reading::Span(start), word.push(end), at),
    decreases word.len(),
{
    let rest = word.push(end);
    if word.len() > 0 {
        assert(rest[0] == word[0]);
        assert(rest.drop_first() =~= word.drop_first().push(end));
        lemma_alphanumeric_tail(word);
        assert(utf8_width(word[0]) == 1);
        lemma_in_span(directive, start, word.drop_first(), end, at + 1);
    } else {
        assert(rest[0] == end);
    }
}

/// Behind one white space character of more bytes than the word that follows it has characters,
/// the end of the word is counted inside that character: where a level or a span follows, the
/// directive cannot be taken apart.
pub proof fn cuts_inside_a_character_are_found(
    space: char,
    word: Seq<char>,
    end: char,
    text: &str,
    whole: bool,
)
    requires
        is_spaced(text@, space, word, end),
        0 < word.len() < utf8_width(space),
        end == '=' || end == '[',
        call_ensures(sliceable, (text,), whole),
    ensures
        !whole,
{
    let rest = word.push(end);
    assert(text@ =~= seq![space] + rest);
    assert(text@.drop_first() =~= rest);
    assert(!is_white_space(word[0]));
    assert(rest[0] == word[0]);
    assert(without_leading_space(rest) == rest);
    assert(without_leading_space(text@) == rest);
    assert(!is_boundary(text@, word.len() as int)) by {
        reveal_with_fuel(is_boundary, 2);
        assert(text@[0] == space);
    }
    let tail = word.drop_first();
    lemma_alphanumeric_tail(word);
    assert(rest.drop_first() =~= tail.push(end));
    assert(utf8_width(word[0]) == 1);
    lemma_inside(text@, tail, end, 1);
    assert(!cuts_fit(text@, Reading::Start, rest, 0));
    assert(!text@.contains(',')) by {
        assert forall|i: int| 0 <= i < text@.len() implies text@[i] != ',' by {
            if 0 < i <= word.len() {
                assert(text@[i] == word[i - 1]);
            }
        }
    }
    lemma_alone(text@);
}

/// Behind white space of more than one byte, the name of a span that comes first begins inside
/// it: once the name ends, or its fields begin, the directive cannot be taken apart.
pub proof fn spans_inside_a_character_are_found(
    space: char,
    name: Seq<char>,
    end: char,
    text: &str,
    whole: bool,
)
    requires
        is_white_space(space),
        is_alphanumeric(name),
        end == ']' || end == '{',
        utf8_width(space) > 1,
        text@ == seq![space] + seq!['['] + name + seq![end],
        call_ensures(sliceable, (text,), whole),
    ensures
        !whole,
{
    let rest = seq!['['] + name.push(end);
    assert(text@ =~= seq![space] + rest);
    assert(text@.drop_first() =~= rest);
    assert(without_leading_space(rest) == rest);
    assert(without_leading_space(text@) == rest);
    assert(!is_boundary(text@, 1)) by {
        reveal_with_fuel(is_boundary, 2);
        assert(text@[0] == space);
    }
    assert(rest.drop_first() =~= name.push(end));
    lemma_in_span(text@, 1, name, end, 1);
    assert(read_on(Reading::Start, '[', 0) == Reading::Span(1));
    assert(!cuts_fit(text@, Reading::Start, rest, 0));
    assert(!text@.contains(',')) by {
        assert forall|i: int| 0 <= i < text@.len() implies text@[i] != ',' by {
            if 1 < i <= name.len() + 1 {
                assert(text@[i] == name[i - 2]);
            }
        }
    }
    lemma_alone(text@);
}

} // verus!
