//! Laws of command lines.

use vstd::prelude::*;

use crate::platform::winquote::{
    escaped, leading_slashes, lemma_leading_slashes, parse_command_line, quote_arg,
    quote_command_line, quoting_round_trips, scan_start, scanned, slashes_then_quote, Scan,
};
use crate::text::{repeated, texts};

verus! {

/// Neither a separator nor a quote is in `text`.
pub open spec fn is_unbroken(text: Seq<char>) -> bool {
    forall|i: int|
        0 <= i < text.len() ==> {
            let c = #[trigger] text[i];
            c != ' ' && c != '\t' && c != '\n' && c != '\u{0B}' && c != '"'
        }
}

/// No quote is in `text`.
pub open spec fn has_no_quote(text: Seq<char>) -> bool {
    forall|i: int| 0 <= i < text.len() ==> #[trigger] text[i] != '"'
}

/// An argument that is not empty and holds neither separator nor quote is written as it is.
pub proof fn unbroken_arguments_stay(arg: &str, out: String)
    requires
        call_ensures(quote_arg, (arg,), out),
        arg@.len() > 0,
        is_unbroken(arg@),
    ensures
        out@ == arg@,
{
}

proof fn lemma_no_slash_run(s: Seq<char>)
    requires
        s.len() > 0,
        has_no_quote(s),
        s.last() != '\\',
    ensures
        !slashes_then_quote(s),
    decreases s.len(),
{
    assert(s[0] != '"');
    if s[0] == '\\' {
        let rest = s.drop_first();
        assert(rest.len() > 0);
        assert forall|i: int| 0 <= i < rest.len() implies #[trigger] rest[i] != '"' by {
            assert(rest[i] == s[i + 1]);
        }
        lemma_no_slash_run(rest);
    }
}

proof fn lemma_not_escaped(s: Seq<char>)
    requires
        has_no_quote(s),
        s.len() > 0 ==> s.last() != '\\',
    ensures
        escaped(s) == s,
    decreases s.len(),
{
    if s.len() > 0 {
        let rest = s.drop_first();
        assert(s[0] != '"');
        assert forall|i: int| 0 <= i < rest.len() implies #[trigger] rest[i] != '"' by {
            assert(rest[i] == s[i + 1]);
        }
        lemma_no_slash_run(s);
        lemma_not_escaped(rest);
        assert(escaped(s) =~= seq![s[0]] + rest);
        assert(s =~= seq![s[0]] + rest);
    }
}

/// Any other argument is written in quotes, and one that holds no quote and does not end in a
/// backslash has nothing else done to it.
pub proof fn broken_arguments_are_in_quotes(arg: &str, out: String)
    requires
        call_ensures(quote_arg, (arg,), out),
        arg@.len() == 0 || !is_unbroken(arg@),
    ensures
        out@.len() >= arg@.len() + 2,
        out@[0] == '"',
        out@.last() == '"',
        has_no_quote(arg@) && (arg@.len() > 0 ==> arg@.last() != '\\') ==> out@.subrange(
            1,
            out@.len() - 1,
        ) == arg@,
{
    lemma_escaped_len(arg@);
    assert(out@ == seq!['"'] + escaped(arg@) + seq!['"']);
    if has_no_quote(arg@) && (arg@.len() > 0 ==> arg@.last() != '\\') {
        lemma_not_escaped(arg@);
        assert(out@.subrange(1, out@.len() - 1) =~= arg@);
    }
}

proof fn lemma_escaped_len(s: Seq<char>)
    ensures
        escaped(s).len() >= s.len(),
    decreases s.len(),
{
    if s.len() > 0 {
        lemma_escaped_len(s.drop_first());
    }
}

/// A command line that is made of arguments is taken apart into exactly these arguments.
pub proof fn command_lines_are_taken_apart(
    args: &[String],
    line: String,
    text: &str,
    back: Vec<String>,
)
    requires
        call_ensures(quote_command_line, (args,), line),
        call_ensures(parse_command_line, (text,), back),
        text@ == line@,
    ensures
        back@.len() == args@.len(),
        forall|i: int| 0 <= i < args@.len() ==> (#[trigger] back@[i])@ == args@[i]@,
{
    quoting_round_trips(texts(args@));
    assert(texts(back@) == texts(args@));
    assert(texts(back@).len() == back@.len());
    assert forall|i: int| 0 <= i < args@.len() implies (#[trigger] back@[i])@ == args@[i]@ by {
        assert(texts(back@)[i] == texts(args@)[i]);
    }
}

/// A command line is its arguments, each as it is written alone, with one space in between: the
/// line of one argument is that argument, and in front of a line comes an argument and a space.
pub proof fn arguments_stand_side_by_side(
    args: &[String],
    rest: &[String],
    line: String,
    rest_line: String,
    arg: &str,
    first: String,
)
    requires
        args@.len() > 0,
        rest@ == args@.drop_first(),
        call_ensures(quote_command_line, (args,), line),
        call_ensures(quote_command_line, (rest,), rest_line),
        arg@ == args@[0]@,
        call_ensures(quote_arg, (arg,), first),
    ensures
        rest@.len() == 0 ==> line@ == first@,
        rest@.len() == 0 ==> rest_line@.len() == 0,
        rest@.len() > 0 ==> line@ == first@ + seq![' '] + rest_line@,
{
    assert(texts(rest@) =~= texts(args@).drop_first());
    assert(texts(args@)[0] == args@[0]@);
}

proof fn lemma_done_in_front(s: Seq<char>, at: Scan, front: Seq<Seq<char>>)
    ensures
        scanned(s, Scan { done: front + at.done, ..at }, false) == front + scanned(s, at, false),
    decreases s.len(),
{
    lemma_leading_slashes(s);
    let moved = Scan { done: front + at.done, ..at };
    if s.len() == 0 {
        assert((front + at.done).push(at.current) =~= front + at.done.push(at.current));
    } else if (s[0] == ' ' || s[0] == '\t') && !at.in_quotes {
        if at.started {
            assert((front + at.done).push(at.current) =~= front + at.done.push(at.current));
            lemma_done_in_front(
                s.drop_first(),
                Scan {
                    done: at.done.push(at.current),
                    current: Seq::empty(),
                    started: false,
                    in_quotes: false,
                },
                front,
            );
        } else {
            lemma_done_in_front(s.drop_first(), at, front);
        }
    } else if s[0] == '\\' || s[0] == '"' {
        let n = leading_slashes(s);
        if n == s.len() || s[n as int] != '"' {
            lemma_done_in_front(
                s.skip(n as int),
                Scan { current: at.current + repeated('\\', n), started: true, ..at },
                front,
            );
        } else {
            let kept = at.current + repeated('\\', n / 2);
            if n % 2 == 1 {
                lemma_done_in_front(
                    s.skip((n + 1) as int),
                    Scan { current: kept.push('"'), started: true, ..at },
                    front,
                );
            } else {
                lemma_done_in_front(
                    s.skip((n + 1) as int),
                    Scan { current: kept, started: true, in_quotes: !at.in_quotes, ..at },
                    front,
                );
            }
        }
    } else {
        lemma_done_in_front(
            s.drop_first(),
            Scan { current: at.current.push(s[0]), started: true, ..at },
            front,
        );
    }
}

proof fn lemma_slashes_end(s: Seq<char>, end: Seq<char>)
    requires
        end.len() > 0,
        end[0] != '\\',
    ensures
        leading_slashes(s + end) == leading_slashes(s),
    decreases s.len(),
{
    if s.len() > 0 && s[0] == '\\' {
        lemma_slashes_end(s.drop_first(), end);
        assert((s + end).drop_first() =~= s.drop_first() + end);
    } else if s.len() == 0 {
        assert(s + end =~= end);
    }
}

proof fn lemma_scan_apart(a: Seq<char>, gap: char, b: Seq<char>, at: Scan)
    requires
        has_no_quote(a),
        gap == ' ' || gap == '\t',
        !at.in_quotes,
        !at.started ==> at.current.len() == 0,
    ensures
        scanned(a + (seq![gap] + b), at, false) == scanned(
            b,
            Scan {
                done: scanned(a, at, false),
                current: Seq::empty(),
                started: false,
                in_quotes: false,
            },
            false,
        ),
    decreases a.len(),
{
    let end = seq![gap] + b;
    let s = a + end;
    lemma_leading_slashes(a);
    lemma_leading_slashes(s);
    if a.len() == 0 {
        assert(s =~= end);
        assert(s.drop_first() =~= b);
        if !at.started {
            assert(at.current =~= Seq::empty());
        }
    } else {
        let rest = a.drop_first();
        assert(s[0] == a[0]);
        assert(a[0] != '"');
        assert(s.drop_first() =~= rest + end);
        assert(has_no_quote(rest)) by {
            assert forall|i: int| 0 <= i < rest.len() implies #[trigger] rest[i] != '"' by {
                assert(rest[i] == a[i + 1]);
            }
        }
        if a[0] == ' ' || a[0] == '\t' {
            if at.started {
                lemma_scan_apart(
                    rest,
                    gap,
                    b,
                    Scan {
                        done: at.done.push(at.current),
                        current: Seq::empty(),
                        started: false,
                        in_quotes: false,
                    },
                );
            } else {
                lemma_scan_apart(rest, gap, b, at);
            }
        } else if a[0] == '\\' {
            let n = leading_slashes(a);
            lemma_slashes_end(a, end);
            assert(n < s.len());
            assert(s[n as int] == if n < a.len() {
                a[n as int]
            } else {
                gap
            });
            assert(s.skip(n as int) =~= a.skip(n as int) + end);
            let after = a.skip(n as int);
            assert(has_no_quote(after)) by {
                assert forall|i: int| 0 <= i < after.len() implies #[trigger] after[i] != '"' by {
                    assert(after[i] == a[i + n]);
                }
            }
            lemma_scan_apart(
                after,
                gap,
                b,
                Scan { current: at.current + repeated('\\', n), started: true, ..at },
            );
        } else {
            lemma_scan_apart(
                rest,
                gap,
                b,
                Scan { current: at.current.push(a[0]), started: true, ..at },
            );
        }
    }
}

/// Outside quotes a space or a tab separates: behind a text without quotes, the arguments of
/// what follows the separator come behind the arguments of the text.
pub proof fn separators_separate(
    a: &str,
    gap: char,
    b: &str,
    line: &str,
    of_a: Vec<String>,
    of_b: Vec<String>,
    of_line: Vec<String>,
)
    requires
        has_no_quote(a@),
        gap == ' ' || gap == '\t',
        line@ == a@ + seq![gap] + b@,
        call_ensures(parse_command_line, (a,), of_a),
        call_ensures(parse_command_line, (b,), of_b),
        call_ensures(parse_command_line, (line,), of_line),
    ensures
        texts(of_line@) == texts(of_a@) + texts(of_b@),
{
    assert(line@ =~= a@ + (seq![gap] + b@));
    lemma_scan_apart(a@, gap, b@, scan_start());
    let front = texts(of_a@);
    lemma_done_in_front(b@, scan_start(), front);
    assert(front + Seq::<Seq<char>>::empty() =~= front);
    if a@.len() == 0 {
        assert(front =~= Seq::<Seq<char>>::empty());
        assert(Seq::<Seq<char>>::empty() + texts(of_b@) =~= texts(of_b@));
    }
}

/// Neither a space, a tab nor a quote is in `text`, and it does not end in a backslash.
pub open spec fn is_word(text: Seq<char>) -> bool {
    &&& forall|i: int|
        0 <= i < text.len() ==> {
            let c = #[trigger] text[i];
            c != ' ' && c != '\t' && c != '"'
        }
    &&& text.len() > 0 ==> text.last() != '\\'
}

proof fn lemma_scan_word(word: Seq<char>, end: Seq<char>, at: Scan)
    requires
        is_word(word),
        word.len() > 0,
    ensures
        scanned(word + end, at, false) == scanned(
            end,
            Scan { current: at.current + word, started: true, ..at },
            false,
        ),
    decreases word.len(),
{
    let s = word + end;
    let c = word[0];
    lemma_leading_slashes(s);
    lemma_leading_slashes(word);
    assert(s[0] == c);
    let n = if c == '\\' {
        leading_slashes(word)
    } else {
        1
    };
    if c == '\\' {
        assert(n < word.len()) by {
            if n == word.len() {
                assert(word[word.len() - 1] == '\\');
            }
        }
        lemma_slashes_end(word.take(n as int), word.skip(n as int) + end);
        assert(s =~= word.take(n as int) + (word.skip(n as int) + end));
        assert(word =~= word.take(n as int) + word.skip(n as int));
        lemma_slashes_end(word.take(n as int), word.skip(n as int));
        assert(leading_slashes(s) == n);
        assert(s[n as int] == word[n as int]);
        assert(repeated('\\', n) =~= word.take(n as int));
    } else {
        assert(seq![c] =~= word.take(1));
        assert(at.current.push(c) =~= at.current + word.take(1));
    }
    let rest = word.skip(n as int);
    assert(s.skip(n as int) =~= rest + end);
    assert(s.drop_first() =~= s.skip(1));
    assert(is_word(rest)) by {
        assert forall|i: int| 0 <= i < rest.len() implies {
            let c = #[trigger] rest[i];
            c != ' ' && c != '\t' && c != '"'
        } by {
            assert(rest[i] == word[i + n]);
        }
    }
    let then = Scan { current: at.current + word.take(n as int), started: true, ..at };
    assert(at.current + word =~= then.current + rest);
    if rest.len() > 0 {
        lemma_scan_word(rest, end, then);
    } else {
        assert(rest + end =~= end);
        assert(then.current =~= at.current + word);
    }
}

/// A word stands for itself.
pub proof fn words_are_arguments(word: &str, args: Vec<String>)
    requires
        is_word(word@),
        word@.len() > 0,
        call_ensures(parse_command_line, (word,), args),
    ensures
        args@.len() == 1,
        args@[0]@ == word@,
{
    let none = Seq::<char>::empty();
    lemma_scan_word(word@, none, scan_start());
    assert(word@ + none =~= word@);
    assert(none + word@ =~= word@);
    assert(texts(args@) =~= seq![word@]);
    lemma_single(args, word@);
}

proof fn lemma_run(n: nat, end: Seq<char>)
    requires
        end.len() > 0,
        end[0] != '\\',
    ensures
        leading_slashes(repeated('\\', n) + end) == n,
    decreases n,
{
    let s = repeated('\\', n) + end;
    if n > 0 {
        lemma_run((n - 1) as nat, end);
        assert(s.drop_first() =~= repeated('\\', (n - 1) as nat) + end);
    } else {
        assert(s =~= end);
    }
}

proof fn lemma_scan_odd(n: nat, back: Seq<char>, at: Scan)
    ensures
        scanned(repeated('\\', 2 * n + 1) + (seq!['"'] + back), at, false) == scanned(
            back,
            Scan {
                current: (at.current + repeated('\\', n)).push('"'),
                started: true,
                ..at
            },
            false,
        ),
{
    let end = seq!['"'] + back;
    let s = repeated('\\', 2 * n + 1) + end;
    lemma_run(2 * n + 1, end);
    assert(s[0] == '\\');
    assert(s[2 * n as int + 1] == end[0]);
    assert(s.skip(2 * n as int + 2) =~= back);
    assert((2 * n + 1) / 2 == n && (2 * n + 1) % 2 == 1);
}

proof fn lemma_scan_even(n: nat, back: Seq<char>, at: Scan)
    ensures
        scanned(repeated('\\', 2 * n) + (seq!['"'] + back), at, false) == scanned(
            back,
            Scan {
                current: at.current + repeated('\\', n),
                started: true,
                in_quotes: !at.in_quotes,
                ..at
            },
            false,
        ),
{
    let end = seq!['"'] + back;
    let s = repeated('\\', 2 * n) + end;
    lemma_run(2 * n, end);
    assert(s[0] == if n > 0 {
        '\\'
    } else {
        end[0]
    });
    assert(s[2 * n as int] == end[0]);
    assert(s.skip(2 * n as int + 1) =~= back);
    assert((2 * n) / 2 == n && (2 * n) % 2 == 0);
}

/// Where a scan is behind a word, of which there may be nothing.
spec fn behind(word: Seq<char>, at: Scan) -> Scan {
    Scan { current: at.current + word, started: at.started || word.len() > 0, ..at }
}

proof fn lemma_scan_behind(word: Seq<char>, end: Seq<char>, at: Scan)
    requires
        is_word(word),
    ensures
        scanned(word + end, at, false) == scanned(end, behind(word, at), false),
{
    if word.len() > 0 {
        lemma_scan_word(word, end, at);
    } else {
        assert(word + end =~= end);
        assert(at.current + word =~= at.current);
    }
}

proof fn lemma_single(args: Vec<String>, arg: Seq<char>)
    requires
        texts(args@) == seq![arg],
    ensures
        args@.len() == 1,
        args@[0]@ == arg,
{
    assert(texts(args@).len() == 1);
    assert(texts(args@)[0] == args@[0]@);
}

proof fn lemma_scan_end(at: Scan)
    requires
        at.started,
    ensures
        scanned(Seq::empty(), at, false) == at.done.push(at.current),
{
}

/// An odd run of backslashes in front of a quote stands for half of it, rounded down, and the
/// quote.
pub proof fn odd_runs_escape_the_quote(
    front: Seq<char>,
    n: nat,
    back: Seq<char>,
    line: &str,
    args: Vec<String>,
)
    requires
        is_word(front),
        is_word(back),
        line@ == front + repeated('\\', 2 * n + 1) + seq!['"'] + back,
        call_ensures(parse_command_line, (line,), args),
    ensures
        args@.len() == 1,
        args@[0]@ == front + repeated('\\', n) + seq!['"'] + back,
{
    let none = Seq::<char>::empty();
    let run = repeated('\\', 2 * n + 1) + (seq!['"'] + back);
    assert(line@ =~= front + run);
    lemma_scan_behind(front, run, scan_start());
    let at = behind(front, scan_start());
    lemma_scan_odd(n, back, at);
    let then = Scan { current: (at.current + repeated('\\', n)).push('"'), started: true, ..at };
    assert(back =~= back + none);
    lemma_scan_behind(back, none, then);
    lemma_scan_end(behind(back, then));
    let whole = front + repeated('\\', n) + seq!['"'] + back;
    assert(behind(back, then).current =~= whole);
    assert(scan_start().done.push(whole) =~= seq![whole]);
    lemma_single(args, whole);
}

/// An even run of backslashes in front of a quote stands for half of it, and the quote opens
/// a region that the next one closes.
pub proof fn even_runs_leave_the_quote(
    front: Seq<char>,
    n: nat,
    inner: Seq<char>,
    line: &str,
    args: Vec<String>,
)
    requires
        is_word(front),
        is_word(inner),
        line@ == front + repeated('\\', 2 * n) + seq!['"'] + inner + seq!['"'],
        call_ensures(parse_command_line, (line,), args),
    ensures
        args@.len() == 1,
        args@[0]@ == front + repeated('\\', n) + inner,
{
    let none = Seq::<char>::empty();
    let close = repeated('\\', 2 * 0) + (seq!['"'] + none);
    let run = repeated('\\', 2 * n) + (seq!['"'] + (inner + close));
    assert(line@ =~= front + run);
    lemma_scan_behind(front, run, scan_start());
    let at = behind(front, scan_start());
    lemma_scan_even(n, inner + close, at);
    let then = Scan {
        current: at.current + repeated('\\', n),
        started: true,
        in_quotes: !at.in_quotes,
        ..at
    };
    lemma_scan_behind(inner, close, then);
    let last = behind(inner, then);
    lemma_scan_even(0, none, last);
    let ended = Scan {
        current: last.current + repeated('\\', 0),
        started: true,
        in_quotes: !last.in_quotes,
        ..last
    };
    lemma_scan_end(ended);
    let whole = front + repeated('\\', n) + inner;
    assert(ended.current =~= whole);
    assert(scan_start().done.push(whole) =~= seq![whole]);
    lemma_single(args, whole);
}

} // verus!
