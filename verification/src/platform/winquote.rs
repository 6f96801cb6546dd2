//! Quoting for a Windows command line so that `CommandLineToArgvW` (and the MSVC CRT)
//! reconstruct the original arguments, together with the parser they apply.

use vstd::prelude::*;

use crate::text::{chars_of, push_repeated, repeated, texts};

verus! {

/// The characters that force an argument into quotes.
pub open spec fn is_quote_trigger(c: char) -> bool {
    c == ' ' || c == '\t' || c == '\n' || c == '\u{0B}' || c == '"'
}

/// An argument needs quotes when it is empty or holds a separator or a quote.
pub open spec fn needs_quotes(arg: Seq<char>) -> bool {
    arg.len() == 0 || exists|i: int| 0 <= i < arg.len() && is_quote_trigger(#[trigger] arg[i])
}

/// Only backslashes stand between the start of `s` and the next quote or the end of `s`.
pub open spec fn slashes_then_quote(s: Seq<char>) -> bool
    decreases s.len(),
{
    s.len() == 0 || s[0] == '"' || (s[0] == '\\' && slashes_then_quote(s.drop_first()))
}

/// How the first character of `s` is written inside quotes: a quote gets a backslash in
/// front, and a backslash is doubled when a quote (the closing one included) ends its run.
pub open spec fn escaped_first(s: Seq<char>) -> Seq<char>
    recommends
        s.len() > 0,
{
    if s[0] == '"' || (s[0] == '\\' && slashes_then_quote(s)) {
        seq!['\\', s[0]]
    } else {
        seq![s[0]]
    }
}

/// `s` as it is written between an opening and a closing quote.
pub open spec fn escaped(s: Seq<char>) -> Seq<char>
    decreases s.len(),
{
    if s.len() == 0 {
        Seq::empty()
    } else {
        escaped_first(s) + escaped(s.drop_first())
    }
}

/// One argument as it stands on the command line.
pub open spec fn quoted(arg: Seq<char>) -> Seq<char> {
    if needs_quotes(arg) {
        seq!['"'] + escaped(arg) + seq!['"']
    } else {
        arg
    }
}

/// The arguments, each quoted if it needs it, with one space between neighbours.
pub open spec fn command_line(args: Seq<Seq<char>>) -> Seq<char>
    decreases args.len(),
{
    if args.len() == 0 {
        Seq::empty()
    } else if args.len() == 1 {
        quoted(args[0])
    } else {
        quoted(args[0]) + seq![' '] + command_line(args.drop_first())
    }
}

/// A run of backslashes is doubled exactly when the run ends at a quote or at the end.
proof fn lemma_escaped_run(k: nat, rest: Seq<char>)
    requires
        rest.len() == 0 || rest[0] != '\\',
    ensures
        slashes_then_quote(repeated('\\', k) + rest) <==> (rest.len() == 0 || rest[0] == '"'),
        escaped(repeated('\\', k) + rest) == repeated(
            '\\',
            if rest.len() == 0 || rest[0] == '"' {
                2 * k
            } else {
                k
            },
        ) + escaped(rest),
    decreases k,
{
    let s = repeated('\\', k) + rest;
    if k == 0 {
        assert(s == rest);
        assert(repeated('\\', 0) + escaped(rest) == escaped(rest));
    } else {
        let fewer = (k - 1) as nat;
        lemma_escaped_run(fewer, rest);
        assert(s.drop_first() == repeated('\\', fewer) + rest);
        if rest.len() == 0 || rest[0] == '"' {
            assert(escaped(s) == seq!['\\', '\\'] + (repeated('\\', 2 * fewer) + escaped(rest)));
            assert(repeated('\\', 2 * k) == seq!['\\', '\\'] + repeated('\\', 2 * fewer));
            assert(escaped(s) == repeated('\\', 2 * k) + escaped(rest));
        } else {
            assert(escaped(s) == seq!['\\'] + (repeated('\\', fewer) + escaped(rest)));
            assert(repeated('\\', k) == seq!['\\'] + repeated('\\', fewer));
            assert(escaped(s) == repeated('\\', k) + escaped(rest));
        }
    }
}

fn wants_quotes(chars: &Vec<char>) -> (b: bool)
    ensures
        b == needs_quotes(chars@),
{
    if chars.len() == 0 {
        return true;
    }
    for i in 0..chars.len()
        invariant
            forall|j: int| 0 <= j < i ==> !is_quote_trigger(#[trigger] chars@[j]),
    {
        let c = chars[i];
        if c == ' ' || c == '\t' || c == '\n' || c == '\u{0B}' || c == '"' {
            assert(is_quote_trigger(chars@[i as int]));
            return true;
        }
    }
    false
}

/// Quote one argument if it needs it.
pub fn quote_arg(arg: &str) -> (out: String)
    ensures
        out@ == quoted(arg@),
{
    let chars = chars_of(arg);
    if !wants_quotes(&chars) {
        return arg.to_owned();
    }
    let mut out = String::new();
    out.push('"');
    let mut backslashes: usize = 0;
    proof {
        assert(chars@.skip(0) == chars@);
        assert(out@ + escaped(chars@) == seq!['"'] + escaped(chars@));
    }
    for i in 0..chars.len()
        invariant
            chars@ == arg@,
            backslashes <= i <= chars.len(),
            chars@.skip(i - backslashes) == repeated('\\', backslashes as nat) + chars@.skip(
                i as int,
            ),
            seq!['"'] + escaped(chars@) == out@ + escaped(chars@.skip(i - backslashes)),
    {
        let c = chars[i];
        let ghost k = backslashes as nat;
        let ghost rest = chars@.skip(i as int);
        let ghost before = out@;
        assert(rest.drop_first() == chars@.skip(i + 1));
        if c == '\\' {
            backslashes = backslashes + 1;
            assert(chars@.skip(i - k) == repeated('\\', k + 1) + chars@.skip(i + 1)) by {
                assert(repeated('\\', k + 1) == repeated('\\', k).push('\\'));
                assert(rest == seq!['\\'] + chars@.skip(i + 1));
                assert(repeated('\\', k) + rest == repeated('\\', k + 1) + chars@.skip(i + 1));
            }
        } else if c == '"' {
            proof {
                lemma_escaped_run(k, rest);
                assert(repeated('\\', 2 * k) == repeated('\\', k) + repeated('\\', k));
                assert(escaped(rest) == seq!['\\', '"'] + escaped(chars@.skip(i + 1)));
                assert(before + (repeated('\\', 2 * k) + (seq!['\\', '"'] + escaped(
                    chars@.skip(i + 1),
                ))) == ((before + repeated('\\', k) + repeated('\\', k)).push('\\').push('"'))
                    + escaped(chars@.skip(i + 1)));
                assert(repeated('\\', 0) + chars@.skip(i + 1) == chars@.skip(i + 1));
            }
            push_repeated(&mut out, '\\', backslashes);
            push_repeated(&mut out, '\\', backslashes);
            out.push('\\');
            out.push('"');
            backslashes = 0;
        } else {
            proof {
                lemma_escaped_run(k, rest);
                assert(escaped(rest) == seq![c] + escaped(chars@.skip(i + 1)));
                assert(before + (repeated('\\', k) + (seq![c] + escaped(chars@.skip(i + 1)))) == (
                before + repeated('\\', k)).push(c) + escaped(chars@.skip(i + 1)));
                assert(repeated('\\', 0) + chars@.skip(i + 1) == chars@.skip(i + 1));
            }
            push_repeated(&mut out, '\\', backslashes);
            out.push(c);
            backslashes = 0;
        }
    }
    let ghost k = backslashes as nat;
    let ghost before = out@;
    proof {
        let end = chars@.skip(chars@.len() as int);
        assert(end == Seq::<char>::empty());
        lemma_escaped_run(k, end);
        assert(repeated('\\', 2 * k) == repeated('\\', k) + repeated('\\', k));
        assert(before + (repeated('\\', 2 * k) + Seq::<char>::empty()) == before + repeated(
            '\\',
            k,
        ) + repeated('\\', k));
    }
    push_repeated(&mut out, '\\', backslashes);
    push_repeated(&mut out, '\\', backslashes);
    out.push('"');
    proof {
        assert(out@ == seq!['"'] + escaped(arg@) + seq!['"']);
    }
    out
}

/// Join arguments into one command-line string.
pub fn quote_command_line(args: &[String]) -> (out: String)
    ensures
        out@ == command_line(texts(args@)),
{
    let ghost all = texts(args@);
    let mut out = String::new();
    proof {
        assert(all.skip(0) == all);
        assert(out@ + command_line(all) == command_line(all));
    }
    for i in 0..args.len()
        invariant
            all == texts(args@),
            command_line(all) == out@ + if i == 0 {
                command_line(all)
            } else if i < args.len() {
                seq![' '] + command_line(all.skip(i as int))
            } else {
                Seq::<char>::empty()
            },
    {
        let ghost before = out@;
        if i > 0 {
            out.push(' ');
        }
        let arg = quote_arg(args[i].as_str());
        out.append(arg.as_str());
        proof {
            let here = all.skip(i as int);
            assert(here[0] == args@[i as int]@);
            assert(all.skip(0) == all);
            if i + 1 < args.len() {
                assert(here.drop_first() == all.skip(i + 1));
                assert(command_line(here) == quoted(here[0]) + seq![' '] + command_line(
                    all.skip(i + 1),
                ));
            } else {
                assert(command_line(here) == quoted(here[0]));
            }
            if i > 0 {
                assert(out@ == before + seq![' '] + quoted(here[0]));
            } else {
                assert(before == Seq::<char>::empty());
                assert(out@ == quoted(here[0]));
            }
            if i + 1 < args.len() {
                assert(command_line(all) == out@ + (seq![' '] + command_line(all.skip(i + 1))));
            } else {
                assert(command_line(all) == out@ + Seq::<char>::empty());
            }
        }
    }
    proof {
        assert(out@ + Seq::<char>::empty() == out@);
    }
    out
}

/// What the parser has seen so far.
pub struct Scan {
    /// Arguments that are complete.
    pub done: Seq<Seq<char>>,
    /// The text of the argument being read.
    pub current: Seq<char>,
    /// Whether an argument has been started (a lone `""` starts an empty one).
    pub started: bool,
    /// Whether the position is inside quotes.
    pub in_quotes: bool,
}

/// How many backslashes `s` begins with.
pub open spec fn leading_slashes(s: Seq<char>) -> nat
    decreases s.len(),
{
    if s.len() > 0 && s[0] == '\\' {
        1 + leading_slashes(s.drop_first())
    } else {
        0
    }
}

/// A backslash run is no longer than the text that it begins.
pub proof fn lemma_leading_slashes(s: Seq<char>)
    ensures
        leading_slashes(s) <= s.len(),
        forall|i: int| 0 <= i < leading_slashes(s) ==> s[i] == '\\',
        leading_slashes(s) < s.len() ==> s[leading_slashes(s) as int] != '\\',
    decreases s.len(),
{
    if s.len() > 0 && s[0] == '\\' {
        let rest = s.drop_first();
        lemma_leading_slashes(rest);
        assert forall|i: int| 0 <= i < leading_slashes(s) implies s[i] == '\\' by {
            if i > 0 {
                assert(s[i] == rest[i - 1]);
            }
        }
    }
}

/// The arguments that the rest `s` of a command line adds to what was scanned before it:
///
/// * outside quotes, spaces and tabs separate arguments;
/// * `2n` backslashes followed by `"` produce `n` backslashes and toggle quoting;
/// * `2n+1` backslashes followed by `"` produce `n` backslashes and a literal `"`;
/// * backslashes not followed by `"` are literal;
/// * a quote toggles quoting, and every other character stands for itself.
///
/// With `doubled` set, a quote that would close a quoted region and is followed by another
/// quote stands, together with it, for one literal quote instead.
pub open spec fn scanned(s: Seq<char>, at: Scan, doubled: bool) -> Seq<Seq<char>>
    decreases s.len(),
{
    proof {
        lemma_leading_slashes(s);
    }
    if s.len() == 0 {
        if at.started {
            at.done.push(at.current)
        } else {
            at.done
        }
    } else if (s[0] == ' ' || s[0] == '\t') && !at.in_quotes {
        scanned(
            s.drop_first(),
            if at.started {
                Scan {
                    done: at.done.push(at.current),
                    current: Seq::empty(),
                    started: false,
                    in_quotes: false,
                }
            } else {
                at
            },
            doubled,
        )
    } else if s[0] == '\\' || s[0] == '"' {
        let n = leading_slashes(s);
        if n == s.len() || s[n as int] != '"' {
            scanned(
                s.skip(n as int),
                Scan { current: at.current + repeated('\\', n), started: true, ..at },
                doubled,
            )
        } else {
            let kept = at.current + repeated('\\', n / 2);
            if n % 2 == 1 {
                scanned(
                    s.skip((n + 1) as int),
                    Scan { current: kept.push('"'), started: true, ..at },
                    doubled,
                )
            } else if doubled && at.in_quotes && n + 1 < s.len() && s[(n + 1) as int] == '"' {
                scanned(
                    s.skip((n + 2) as int),
                    Scan { current: kept.push('"'), started: true, ..at },
                    doubled,
                )
            } else {
                scanned(
                    s.skip((n + 1) as int),
                    Scan { current: kept, started: true, in_quotes: !at.in_quotes, ..at },
                    doubled,
                )
            }
        }
    } else {
        scanned(
            s.drop_first(),
            Scan { current: at.current.push(s[0]), started: true, ..at },
            doubled,
        )
    }
}

/// The state before the first character.
pub open spec fn scan_start() -> Scan {
    Scan { done: Seq::empty(), current: Seq::empty(), started: false, in_quotes: false }
}

/// The arguments of a command line, by the rules that `CommandLineToArgvW` and the MSVC CRT
/// apply to every argument after the program name, without the CRT's reading of a doubled
/// quote inside a quoted region.
pub open spec fn parsed(line: Seq<char>) -> Seq<Seq<char>> {
    scanned(line, scan_start(), false)
}

/// The arguments of a command line, with the CRT's reading of a doubled quote.
pub open spec fn parsed_with_doubled_quotes(line: Seq<char>) -> Seq<Seq<char>> {
    scanned(line, scan_start(), true)
}

/// How many backslashes stand at and after position `from`.
fn slash_run(chars: &Vec<char>, from: usize) -> (n: usize)
    requires
        from <= chars.len(),
    ensures
        n == leading_slashes(chars@.skip(from as int)),
        from + n <= chars.len(),
{
    let mut n: usize = 0;
    let ghost whole = leading_slashes(chars@.skip(from as int));
    proof {
        lemma_leading_slashes(chars@.skip(from as int));
    }
    while from + n < chars.len() && chars[from + n] == '\\'
        invariant
            from + n <= chars.len(),
            whole == n + leading_slashes(chars@.skip(from + n)),
        decreases chars.len() - from - n,
    {
        proof {
            let s = chars@.skip(from + n);
            assert(s.drop_first() == chars@.skip(from + n + 1));
        }
        n = n + 1;
    }
    n
}

/// Split a command line into its arguments.
pub fn parse_command_line(line: &str) -> (args: Vec<String>)
    ensures
        texts(args@) == parsed(line@),
{
    let chars = chars_of(line);
    let mut args: Vec<String> = Vec::new();
    let mut current = String::new();
    let mut started = false;
    let mut in_quotes = false;
    let mut i: usize = 0;
    proof {
        assert(chars@.skip(0) == chars@);
        assert(texts(args@) == Seq::<Seq<char>>::empty());
    }
    while i < chars.len()
        invariant
            chars@ == line@,
            i <= chars.len(),
            parsed(line@) == scanned(
                chars@.skip(i as int),
                Scan { done: texts(args@), current: current@, started, in_quotes },
                false,
            ),
        decreases chars.len() - i,
    {
        let c = chars[i];
        let ghost s = chars@.skip(i as int);
        proof {
            assert(s.drop_first() == chars@.skip(i + 1));
        }
        if (c == ' ' || c == '\t') && !in_quotes {
            if started {
                let ghost before = args@;
                let ghost text = current@;
                args.push(current);
                proof {
                    assert(texts(args@) == texts(before).push(text));
                }
                current = String::new();
                started = false;
            }
            i = i + 1;
        } else if c == '\\' {
            let n = slash_run(&chars, i);
            started = true;
            if i + n < chars.len() && chars[i + n] == '"' {
                push_repeated(&mut current, '\\', n / 2);
                if n % 2 == 1 {
                    current.push('"');
                } else {
                    in_quotes = !in_quotes;
                }
                proof {
                    assert(s.skip((n + 1) as int) == chars@.skip(i + n + 1));
                }
                i = i + n + 1;
            } else {
                push_repeated(&mut current, '\\', n);
                proof {
                    assert(s.skip(n as int) == chars@.skip(i + n));
                }
                i = i + n;
            }
        } else if c == '"' {
            started = true;
            in_quotes = !in_quotes;
            i = i + 1;
        } else {
            started = true;
            current.push(c);
            i = i + 1;
        }
    }
    if started {
        let ghost before = args@;
        let ghost text = current@;
        args.push(current);
        proof {
            assert(texts(args@) == texts(before).push(text));
        }
    }
    args
}

proof fn lemma_slash_count(k: nat, rest: Seq<char>)
    requires
        rest.len() == 0 || rest[0] != '\\',
    ensures
        leading_slashes(repeated('\\', k) + rest) == k,
    decreases k,
{
    let s = repeated('\\', k) + rest;
    if k == 0 {
        assert(s == rest);
    } else {
        lemma_slash_count((k - 1) as nat, rest);
        assert(s.drop_first() == repeated('\\', (k - 1) as nat) + rest);
    }
}

/// Reading a run of backslashes that a quote follows, where no second quote stands behind.
proof fn lemma_scan_slashes_quote(n: nat, after: Seq<char>, at: Scan, doubled: bool)
    requires
        n % 2 == 1 || after.len() == 0 || after[0] == ' ' || !at.in_quotes,
    ensures
        scanned(repeated('\\', n) + (seq!['"'] + after), at, doubled) == scanned(
            after,
            if n % 2 == 1 {
                Scan {
                    current: (at.current + repeated('\\', n / 2)).push('"'),
                    started: true,
                    ..at
                }
            } else {
                Scan {
                    current: at.current + repeated('\\', n / 2),
                    started: true,
                    in_quotes: !at.in_quotes,
                    ..at
                }
            },
            doubled,
        ),
{
    let rest = seq!['"'] + after;
    let s = repeated('\\', n) + rest;
    lemma_slash_count(n, rest);
    assert(s[n as int] == rest[0]);
    assert(s.skip((n + 1) as int) == after);
    if after.len() > 0 {
        assert(s[(n + 1) as int] == after[0]);
    }
}

/// Reading a run of backslashes that something other than a quote follows.
proof fn lemma_scan_slashes(n: nat, after: Seq<char>, at: Scan, doubled: bool)
    requires
        n > 0,
        after.len() == 0 || (after[0] != '"' && after[0] != '\\'),
    ensures
        scanned(repeated('\\', n) + after, at, doubled) == scanned(
            after,
            Scan { current: at.current + repeated('\\', n), started: true, ..at },
            doubled,
        ),
{
    let s = repeated('\\', n) + after;
    lemma_slash_count(n, after);
    assert(s[0] == '\\');
    if after.len() > 0 {
        assert(s[n as int] == after[0]);
    }
    assert(s.skip(n as int) == after);
}

/// The first run of backslashes of `s`, cut off.
proof fn lemma_split_run(s: Seq<char>)
    ensures
        s == repeated('\\', leading_slashes(s)) + s.skip(leading_slashes(s) as int),
        s.skip(leading_slashes(s) as int).len() == 0 || s.skip(leading_slashes(s) as int)[0]
            != '\\',
{
    lemma_leading_slashes(s);
}

/// Inside quotes, the escaped form of `s` and the closing quote read back as `s`.
proof fn lemma_scan_escaped(s: Seq<char>, tail: Seq<char>, at: Scan, doubled: bool)
    requires
        at.in_quotes,
        at.started,
        tail.len() == 0 || tail[0] == ' ',
    ensures
        scanned(escaped(s) + (seq!['"'] + tail), at, doubled) == scanned(
            tail,
            Scan { current: at.current + s, in_quotes: false, ..at },
            doubled,
        ),
    decreases s.len(),
{
    let close = seq!['"'] + tail;
    if s.len() == 0 {
        assert(escaped(s) + close == repeated('\\', 0) + close);
        lemma_scan_slashes_quote(0, tail, at, doubled);
        assert(at.current + repeated('\\', 0) == at.current + s);
    } else if s[0] == '\\' {
        let k = leading_slashes(s);
        let rest = s.skip(k as int);
        lemma_split_run(s);
        lemma_escaped_run(k, rest);
        if rest.len() == 0 {
            assert(escaped(s) + close == repeated('\\', 2 * k) + close);
            lemma_scan_slashes_quote(2 * k, tail, at, doubled);
            assert(at.current + repeated('\\', k) == at.current + s);
        } else if rest[0] == '"' {
            let after = rest.drop_first();
            let following = escaped(after) + close;
            assert(escaped(s) + close == repeated('\\', 2 * k + 1) + (seq!['"'] + following)) by {
                assert(escaped(rest) == seq!['\\', '"'] + escaped(after));
                assert(repeated('\\', 2 * k + 1) == repeated('\\', 2 * k).push('\\'));
                assert(repeated('\\', 2 * k) + (seq!['\\', '"'] + escaped(after)) + close
                    == repeated('\\', 2 * k).push('\\') + (seq!['"'] + following));
            }
            lemma_scan_slashes_quote(2 * k + 1, following, at, doubled);
            assert((2 * k + 1) / 2 == k);
            let next = Scan {
                current: (at.current + repeated('\\', k)).push('"'),
                started: true,
                ..at
            };
            lemma_scan_escaped(after, tail, next, doubled);
            assert(next.current + after == at.current + s) by {
                assert(rest == seq!['"'] + after);
            }
        } else {
            let following = escaped(rest) + close;
            assert(escaped(s) + close == repeated('\\', k) + following);
            assert(following[0] == rest[0]);
            lemma_scan_slashes(k, following, at, doubled);
            let next = Scan { current: at.current + repeated('\\', k), started: true, ..at };
            lemma_scan_escaped(rest, tail, next, doubled);
            assert(next.current + rest == at.current + s);
        }
    } else if s[0] == '"' {
        let after = s.drop_first();
        let following = escaped(after) + close;
        assert(escaped(s) + close == repeated('\\', 1) + (seq!['"'] + following));
        lemma_scan_slashes_quote(1, following, at, doubled);
        let next = Scan {
            current: (at.current + repeated('\\', 0)).push('"'),
            started: true,
            ..at
        };
        lemma_scan_escaped(after, tail, next, doubled);
        assert(next.current + after == at.current + s);
    } else {
        let after = s.drop_first();
        let following = escaped(after) + close;
        let whole = escaped(s) + close;
        assert(whole == seq![s[0]] + following);
        assert(whole.drop_first() == following);
        let next = Scan { current: at.current.push(s[0]), started: true, ..at };
        lemma_scan_escaped(after, tail, next, doubled);
        assert(next.current + after == at.current + s);
    }
}

/// Outside quotes, an argument without separators and quotes stands for itself.
proof fn lemma_scan_plain(s: Seq<char>, tail: Seq<char>, at: Scan, doubled: bool)
    requires
        !at.in_quotes,
        s.len() > 0,
        forall|i: int| 0 <= i < s.len() ==> !is_quote_trigger(#[trigger] s[i]),
        tail.len() == 0 || tail[0] == ' ',
    ensures
        scanned(s + tail, at, doubled) == scanned(
            tail,
            Scan { current: at.current + s, started: true, ..at },
            doubled,
        ),
    decreases s.len(),
{
    assert(!is_quote_trigger(s[0]));
    if s[0] == '\\' {
        let k = leading_slashes(s);
        let rest = s.skip(k as int);
        lemma_split_run(s);
        let following = rest + tail;
        assert(s + tail == repeated('\\', k) + following);
        if rest.len() > 0 {
            assert(following[0] == rest[0]);
            assert(rest[0] == s[k as int]);
        }
        lemma_scan_slashes(k, following, at, doubled);
        let next = Scan { current: at.current + repeated('\\', k), started: true, ..at };
        if rest.len() > 0 {
            assert forall|i: int| 0 <= i < rest.len() implies !is_quote_trigger(
                #[trigger] rest[i],
            ) by {
                assert(rest[i] == s[i + k]);
            }
            lemma_scan_plain(rest, tail, next, doubled);
            assert(next.current + rest == at.current + s);
        } else {
            assert(following == tail);
            assert(repeated('\\', k) == s);
        }
    } else {
        let after = s.drop_first();
        let whole = s + tail;
        assert(whole.drop_first() == after + tail);
        let next = Scan { current: at.current.push(s[0]), started: true, ..at };
        if after.len() > 0 {
            assert forall|i: int| 0 <= i < after.len() implies !is_quote_trigger(
                #[trigger] after[i],
            ) by {
                assert(after[i] == s[i + 1]);
            }
            lemma_scan_plain(after, tail, next, doubled);
            assert(next.current + after == at.current + s);
        } else {
            assert(after + tail == tail);
            assert(at.current + s == next.current);
        }
    }
}

/// A quoted argument reads back as the argument.
proof fn lemma_scan_quoted(arg: Seq<char>, tail: Seq<char>, at: Scan, doubled: bool)
    requires
        !at.in_quotes,
        !at.started,
        at.current.len() == 0,
        tail.len() == 0 || tail[0] == ' ',
    ensures
        scanned(quoted(arg) + tail, at, doubled) == scanned(
            tail,
            Scan { current: arg, started: true, ..at },
            doubled,
        ),
{
    assert(at.current + arg == arg);
    if needs_quotes(arg) {
        let whole = quoted(arg) + tail;
        let following = escaped(arg) + (seq!['"'] + tail);
        assert(whole == repeated('\\', 0) + (seq!['"'] + following));
        lemma_scan_slashes_quote(0, following, at, doubled);
        assert(at.current + repeated('\\', 0) == at.current);
        lemma_scan_escaped(arg, tail, Scan { started: true, in_quotes: true, ..at }, doubled);
    } else {
        lemma_scan_plain(arg, tail, at, doubled);
    }
}

proof fn lemma_scan_command_line(args: Seq<Seq<char>>, done: Seq<Seq<char>>, doubled: bool)
    ensures
        scanned(
            command_line(args),
            Scan { done, current: Seq::empty(), started: false, in_quotes: false },
            doubled,
        ) == done + args,
    decreases args.len(),
{
    let at = Scan { done, current: Seq::<char>::empty(), started: false, in_quotes: false };
    if args.len() == 0 {
        assert(done + args == done);
    } else {
        let first = args[0];
        let rest = args.drop_first();
        let read = Scan { current: first, started: true, ..at };
        if args.len() == 1 {
            assert(quoted(first) + Seq::<char>::empty() == quoted(first));
            lemma_scan_quoted(first, Seq::empty(), at, doubled);
            assert(done + args == done.push(first));
        } else {
            let tail = seq![' '] + command_line(rest);
            assert(command_line(args) == quoted(first) + tail);
            lemma_scan_quoted(first, tail, at, doubled);
            assert(tail.drop_first() == command_line(rest));
            lemma_scan_command_line(rest, done.push(first), doubled);
            assert(done.push(first) + rest == done + args);
        }
    }
}

/// Whatever the arguments are, the command line built from them parses back into exactly
/// them, and the two readings of a doubled quote agree on it.
pub proof fn quoting_round_trips(args: Seq<Seq<char>>)
    ensures
        parsed(command_line(args)) == args,
        parsed_with_doubled_quotes(command_line(args)) == args,
{
    lemma_scan_command_line(args, Seq::empty(), false);
    lemma_scan_command_line(args, Seq::empty(), true);
    assert(Seq::<Seq<char>>::empty() + args == args);
}

/// Two argument lists that give the same command line are the same list.
pub proof fn command_line_is_injective(a: Seq<Seq<char>>, b: Seq<Seq<char>>)
    requires
        command_line(a) == command_line(b),
    ensures
        a == b,
{
    quoting_round_trips(a);
    quoting_round_trips(b);
}

} // verus!
