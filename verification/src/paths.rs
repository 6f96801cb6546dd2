//! File paths as sequences of components.
//!
//! A path is opaque here: what is known of one is the components it holds and the text it is
//! displayed as, and both change only through the standard library's own path functions. What
//! such a function gives is a function of the paths that it is given, and has a name; a path
//! belongs to one platform, and what its text means there is that platform's business. Beside
//! each name stands what holds on every platform.

use vstd::prelude::*;

use std::path::{Path, PathBuf};

use crate::text::{chars_of, string_of};

verus! {

/// One component of a path.
pub enum PathPart {
    /// A Windows path prefix, such as a drive.
    Prefix(Seq<char>),
    /// The root directory.
    Root,
    /// A leading `.`.
    Current,
    /// `..`.
    Parent,
    /// A file or directory name. A name that is not Unicode stands here as the text that a
    /// lossy conversion gives for it.
    Name(Seq<char>),
}

/// The standard library's owned path.
#[verifier::external_type_specification]
#[verifier::external_body]
pub struct ExPathBuf(std::path::PathBuf);

/// The components that a path holds, as `Path::components` enumerates them.
pub uninterp spec fn path_parts(path: PathBuf) -> Seq<PathPart>;

/// The text that `Path::display` shows for a path.
pub uninterp spec fn path_text(path: PathBuf) -> Seq<char>;

/// The path that `PathBuf::from` makes of a text.
pub uninterp spec fn path_of(text: Seq<char>) -> PathBuf;

/// The path that `Path::parent` gives.
pub uninterp spec fn parent_of(path: PathBuf) -> Option<PathBuf>;

/// The path that `Path::join` makes of two.
pub uninterp spec fn path_joined(dir: PathBuf, path: PathBuf) -> PathBuf;

/// The path that `Path::with_file_name` gives.
pub uninterp spec fn sibling_of(path: PathBuf, name: Seq<char>) -> PathBuf;

/// What `Path::strip_prefix` leaves of a path.
pub uninterp spec fn path_behind(path: PathBuf, base: PathBuf) -> Option<PathBuf>;

/// `name` begins with a letter and a colon, as a drive does on Windows.
pub open spec fn begins_with_drive(name: Seq<char>) -> bool {
    &&& name.len() >= 2
    &&& 'a' <= name[0] <= 'z' || 'A' <= name[0] <= 'Z'
    &&& name[1] == ':'
}

/// A name that is one component on every platform: not empty, no separator, no drive, and
/// neither `.` nor `..`.
pub open spec fn is_plain_name(name: Seq<char>) -> bool {
    &&& name.len() > 0
    &&& forall|i: int| 0 <= i < name.len() ==> name[i] != '/' && name[i] != '\\'
    &&& !begins_with_drive(name)
    &&& name != seq!['.']
    &&& name != seq!['.', '.']
}

/// A name that is the end of the text where it becomes a file name beside `own`: not empty, no
/// separator, and neither `.` nor `..`. Where `own` holds a backslash, a backslash separates
/// nothing.
pub open spec fn is_name_beside(own: Option<Seq<char>>, name: Seq<char>) -> bool {
    &&& name.len() > 0
    &&& forall|i: int| 0 <= i < name.len() ==> name[i] != '/'
    &&& (own matches Some(n) && n.contains('\\')) || !name.contains('\\')
    &&& name != seq!['.']
    &&& name != seq!['.', '.']
}

/// Such a name that is one component, too: it does not begin like a drive.
pub open spec fn is_plain_beside(own: Option<Seq<char>>, name: Seq<char>) -> bool {
    is_name_beside(own, name) && !begins_with_drive(name)
}

/// `text` ends in `end`.
pub open spec fn ends_in(text: Seq<char>, end: Seq<char>) -> bool {
    end.len() <= text.len() && text.skip(text.len() - end.len()) == end
}

/// `c` separates components, on every platform or on Windows alone.
pub open spec fn is_separator(c: char) -> bool {
    c == '/' || c == '\\'
}

/// `text` begins with two separators. On Windows, those begin a network or device path, whose
/// first names are part of a prefix.
pub open spec fn begins_with_two_separators(text: Seq<char>) -> bool {
    text.len() >= 2 && is_separator(text[0]) && is_separator(text[1])
}

/// `prefix` is a drive. Every other prefix has a root behind it, written or not.
pub open spec fn is_drive(prefix: Seq<char>) -> bool {
    prefix.len() == 2 && begins_with_drive(prefix)
}

/// A list of components that says where it begins: at a root, with or without a prefix, or
/// with a prefix that has a root of its own.
pub open spec fn is_rooted(parts: Seq<PathPart>) -> bool {
    parts.len() > 0 && match parts[0] {
        PathPart::Root => true,
        PathPart::Prefix(prefix) => !is_drive(prefix) || (parts.len() > 1 && parts[1] is Root),
        _ => false,
    }
}

/// A path that begins at a root, or with a prefix that has one: it does not depend on a current
/// directory.
pub open spec fn is_absolute(path: PathBuf) -> bool {
    is_rooted(path_parts(path))
}

/// A list of components that begins with a prefix.
pub open spec fn has_prefix(parts: Seq<PathPart>) -> bool {
    parts.len() > 0 && parts[0] is Prefix
}

/// `prefix` begins with two backslashes, a question mark and a backslash: paths behind it are
/// taken as they are, and `..` is resolved when they grow.
pub open spec fn is_verbatim(prefix: Seq<char>) -> bool {
    prefix.len() >= 4 && prefix.take(4) == seq!['\\', '\\', '?', '\\']
}

/// What comes behind `prefix` does not become part of it: a drive, a share, or a device that
/// has a name. A verbatim prefix that stands for a share names the share.
pub open spec fn is_settled(prefix: Seq<char>) -> bool {
    if is_verbatim(prefix) {
        &&& prefix.len() > 4
        &&& prefix.len() >= 7 && prefix.subrange(4, 7) == seq!['U', 'N', 'C'] ==> prefix.len() > 8
            && prefix.skip(8).contains('\\')
    } else {
        prefix.len() > 0 && !is_separator(prefix.last())
    }
}

/// A list of components whose prefix, where it has one, is settled.
pub open spec fn is_settled_list(parts: Seq<PathPart>) -> bool {
    has_prefix(parts) ==> is_settled(parts[0]->Prefix_0)
}

/// `parts` as it grows: a prefix that has a root of its own gets it written down.
pub open spec fn with_root(parts: Seq<PathPart>) -> Seq<PathPart> {
    if parts.len() == 1 && is_rooted(parts) && parts[0] is Prefix {
        parts.push(PathPart::Root)
    } else {
        parts
    }
}

/// The components of `more` taken from `base`: a prefix replaces everything, a root everything
/// but a prefix, and anything else comes behind, without a leading `.`.
pub open spec fn joined_parts(base: Seq<PathPart>, more: Seq<PathPart>) -> Seq<PathPart> {
    if has_prefix(more) {
        more
    } else if more.len() > 0 && more[0] is Root {
        if has_prefix(base) {
            seq![base[0]] + more
        } else {
            more
        }
    } else if more.len() > 0 && more[0] is Current {
        with_root(base) + more.skip(1)
    } else {
        with_root(base) + more
    }
}

/// The components of `dir` joined with `path` are those of the two, as [`joined_parts`] puts
/// them together. Left out are the beginnings of a network or device path, where a name may
/// become part of a prefix, a `..` behind a verbatim prefix, and a `.` with nothing in front.
pub open spec fn joins_by_parts(dir: PathBuf, path: PathBuf) -> bool {
    let base = path_parts(dir);
    let more = path_parts(path);
    &&& is_rooted(more) || has_prefix(more) || has_prefix(base) || !begins_with_two_separators(
        path_text(dir),
    )
    &&& has_prefix(more) || is_settled_list(base)
    &&& has_prefix(base) && is_verbatim(base[0]->Prefix_0) ==> !more.contains(PathPart::Parent)
    &&& more.len() > 0 && more[0] is Current ==> base.len() > 0 && !(base.last() is Prefix)
}

/// A path to which a plain name adds a component.
pub open spec fn is_ordinary(path: PathBuf) -> bool {
    let parts = path_parts(path);
    if has_prefix(parts) {
        is_settled_list(parts)
    } else {
        !begins_with_two_separators(path_text(path))
    }
}

/// `name` can be the file name of a sibling of `path`, as one component.
pub open spec fn takes_file_name(path: PathBuf, name: Seq<char>) -> bool {
    let parts = path_parts(path);
    &&& is_plain_beside(last_name(parts), name)
    &&& is_settled_list(parts) && with_root(parts) == parts
    &&& has_prefix(parts) || last_name(parts) is Some || !begins_with_two_separators(
        path_text(path),
    )
}

/// The file name that a list of components ends in.
pub open spec fn last_name(parts: Seq<PathPart>) -> Option<Seq<char>> {
    if parts.len() == 0 {
        None
    } else {
        match parts.last() {
            PathPart::Name(name) => Some(name),
            _ => None,
        }
    }
}

/// Whether a list of components has a parent: its last component is no root and no prefix.
pub open spec fn has_parent(parts: Seq<PathPart>) -> bool {
    parts.len() > 0 && !(parts.last() is Root) && !(parts.last() is Prefix)
}

/// The components of the parent, or none at all where there is no parent.
pub open spec fn parent_parts(parts: Seq<PathPart>) -> Seq<PathPart> {
    if has_parent(parts) {
        parts.drop_last()
    } else {
        Seq::empty()
    }
}

/// `parts` with `name` as its file name: in place of the one that it has, or added.
pub open spec fn with_name(parts: Seq<PathPart>, name: Seq<char>) -> Seq<PathPart> {
    if last_name(parts) is Some {
        parts.drop_last().push(PathPart::Name(name))
    } else {
        parts.push(PathPart::Name(name))
    }
}

/// The position of the last dot of `name`, or -1.
pub open spec fn last_dot(name: Seq<char>) -> int
    decreases name.len(),
{
    if name.len() == 0 {
        -1
    } else if name.last() == '.' {
        name.len() - 1
    } else {
        last_dot(name.drop_last())
    }
}

/// The part of a file name before its last dot; all of it when the only dot, if any, comes
/// first.
pub open spec fn stem_of(name: Seq<char>) -> Seq<char> {
    if last_dot(name) > 0 {
        name.take(last_dot(name))
    } else {
        name
    }
}

/// The part of a file name after its last dot, where that dot does not come first.
pub open spec fn extension_of(name: Seq<char>) -> Option<Seq<char>> {
    if last_dot(name) > 0 {
        Some(name.skip(last_dot(name) + 1))
    } else {
        None
    }
}

/// The stem of the file name that a list of components ends in.
pub open spec fn last_stem(parts: Seq<PathPart>) -> Option<Seq<char>> {
    match last_name(parts) {
        Some(name) => Some(stem_of(name)),
        None => None,
    }
}

/// The extension of the file name that a list of components ends in.
pub open spec fn last_extension(parts: Seq<PathPart>) -> Option<Seq<char>> {
    match last_name(parts) {
        Some(name) => extension_of(name),
        None => None,
    }
}

/// The text of an absolute path with the given names, each behind a slash.
pub open spec fn absolute_text(names: Seq<Seq<char>>) -> Seq<char>
    decreases names.len(),
{
    if names.len() == 0 {
        Seq::empty()
    } else {
        absolute_text(names.drop_last()) + seq!['/'] + names.last()
    }
}

/// The components of an absolute path with the given names.
pub open spec fn absolute_parts(names: Seq<Seq<char>>) -> Seq<PathPart> {
    seq![PathPart::Root] + Seq::new(names.len(), |i: int| PathPart::Name(names[i]))
}

/// `PathBuf::clone` gives the same path.
pub assume_specification[ <PathBuf as Clone>::clone ](path: &PathBuf) -> (copy: PathBuf)
    ensures
        copy == *path,
;

/// `PathBuf::from` keeps the text it is given; an empty text has no components, a plain name
/// is one, a drive is a prefix or a name, and the slashes of an absolute path separate its
/// names on every platform. The components of any other text depend on the platform and are
/// left open.
#[verifier::external_body]
pub(crate) fn path_from(text: &str) -> (path: PathBuf)
    ensures
        path == path_of(text@),
        path_text(path) == text@,
        text@.len() == 0 ==> path_parts(path) == Seq::<PathPart>::empty(),
        is_plain_name(text@) ==> path_parts(path) == seq![PathPart::Name(text@)],
        is_drive(text@) ==> path_parts(path) == seq![PathPart::Prefix(text@)] || path_parts(path)
            == seq![PathPart::Name(text@)],
        forall|names: Seq<Seq<char>>|
            names.len() > 0 && text@ == #[trigger] absolute_text(names) && (forall|i: int|
                0 <= i < names.len() ==> is_plain_name(names[i])) ==> path_parts(path)
                == absolute_parts(names),
{
    PathBuf::from(text)
}

/// `Path::parent` drops the last component, which leaves the front of the path's text, so
/// that it begins with two separators only where the path does; a path that is empty or ends
/// in a root or a prefix has no parent.
#[verifier::external_body]
pub(crate) fn parent(path: &PathBuf) -> (parent: Option<PathBuf>)
    ensures
        parent == parent_of(*path),
        parent is Some <==> has_parent(path_parts(*path)),
        parent matches Some(dir) ==> path_parts(dir) == path_parts(*path).drop_last(),
        parent matches Some(dir) ==> begins_with_two_separators(path_text(dir))
            ==> begins_with_two_separators(path_text(*path)),
{
    path.parent().map(Path::to_path_buf)
}

/// `Path::join` takes `path` from `dir`: a path with a prefix replaces `dir`, and so does one
/// with a root where `dir` has no prefix; any other comes behind. Whatever a plain name is
/// joined to, the text ends in it, and whatever is taken from a directory with a root has one
/// or a prefix of its own.
#[verifier::external_body]
pub(crate) fn join(dir: &PathBuf, path: &PathBuf) -> (joined: PathBuf)
    ensures
        joined == path_joined(*dir, *path),
        has_prefix(path_parts(*path)) || (is_absolute(*path) && !has_prefix(path_parts(*dir)))
            ==> joined == *path,
        joins_by_parts(*dir, *path) ==> path_parts(joined) == joined_parts(
            path_parts(*dir),
            path_parts(*path),
        ),
        is_absolute(*dir) && !has_prefix(path_parts(*path)) ==> is_absolute(joined),
        is_plain_name(path_text(*path)) ==> ends_in(path_text(joined), path_text(*path)),
{
    dir.join(path)
}

/// `Path::has_root` is true of a path that begins at a root, and of one with a prefix other
/// than a drive.
#[verifier::external_body]
pub(crate) fn has_root(path: &PathBuf) -> (rooted: bool)
    ensures
        rooted == is_absolute(*path),
{
    path.has_root()
}

/// `Path::strip_prefix` gives the components of a path behind those of `base`. This is said of
/// a `base` of one component: what is left is shorter, only a path that begins with such a
/// component has something left, and one that begins with the drive that `base` is written as
/// has. Behind a drive without a root, what is left is the other components, unless they begin
/// like a drive again.
#[verifier::external_body]
pub(crate) fn strip_prefix(path: &PathBuf, base: &PathBuf) -> (rest: Option<PathBuf>)
    ensures
        rest == path_behind(*path, *base),
        path_parts(*path).len() > 0 && is_drive(path_text(*base)) && path_parts(*path)[0]
            == PathPart::Prefix(path_text(*base)) ==> rest is Some,
        path_parts(*base).len() == 1 ==> (rest matches Some(r) ==> {
            &&& path_text(r).len() < path_text(*path).len()
            &&& path_parts(*path).len() > 0
            &&& has_prefix(path_parts(*path)) == has_prefix(path_parts(*base))
        }),
        has_prefix(path_parts(*base)) && is_drive(path_text(*base)) && is_drive_relative(
            path_parts(*path),
        ) ==> (rest matches Some(r) ==> path_parts(r) == path_parts(*path).skip(1)),
{
    match path.strip_prefix(base) {
        Ok(rest) => Some(rest.to_path_buf()),
        Err(_) => None,
    }
}

/// `Path::with_file_name` replaces the file name, or adds one where there is none. This is
/// said of names that are one component there; the text ends in one that begins like a drive
/// as well. What others do depends on the platform and is left open.
#[verifier::external_body]
pub(crate) fn with_file_name(path: &PathBuf, name: &str) -> (sibling: PathBuf)
    ensures
        sibling == sibling_of(*path, name@),
        takes_file_name(*path, name@) ==> path_parts(sibling) == with_name(
            path_parts(*path),
            name@,
        ),
        is_name_beside(last_name(path_parts(*path)), name@) ==> ends_in(path_text(sibling), name@),
{
    path.with_file_name(name)
}

/// `Path::file_name` is the last component when that is a name.
#[verifier::external_body]
pub(crate) fn file_name(path: &PathBuf) -> (name: Option<String>)
    ensures
        name is Some <==> last_name(path_parts(*path)) is Some,
        name matches Some(n) ==> Some(n@) == last_name(path_parts(*path)),
{
    path.file_name().map(|name| name.to_string_lossy().into_owned())
}

/// What a separator is beside a name: where the name holds a backslash, that is none.
pub open spec fn separates_from(c: char, name: Seq<char>) -> bool {
    c == '/' || (c == '\\' && !name.contains('\\'))
}

/// `text` shows `name` between `front` and `tail` as its last component: the front is empty, a
/// drive, or ends in a separator, and the tail is made of separators and dots, a separator
/// first.
pub open spec fn shows_between(
    text: Seq<char>,
    front: Seq<char>,
    name: Seq<char>,
    tail: Seq<char>,
) -> bool {
    &&& text == front + name + tail
    &&& front.len() == 0 || is_drive(front) || separates_from(front.last(), name)
    &&& tail.len() > 0 ==> separates_from(tail[0], name)
    &&& forall|i: int|
        0 <= i < tail.len() ==> (#[trigger] tail[i]) == '.' || separates_from(tail[i], name)
}

/// `text` ends in the file name `name`, which is neither empty nor `.` nor `..`.
pub open spec fn shows_name(text: Seq<char>, name: Seq<char>) -> bool {
    &&& name.len() > 0 && name != seq!['.'] && name != seq!['.', '.']
    &&& exists|front: Seq<char>, tail: Seq<char>| #[trigger] shows_between(text, front, name, tail)
}

/// `Path::file_stem` is the file name up to its last dot, or all of it when it has no dot
/// behind its first character. A path that has one shows its file name at the end of its text.
#[verifier::external_body]
pub(crate) fn file_stem(path: &PathBuf) -> (stem: Option<String>)
    ensures
        stem is Some <==> last_stem(path_parts(*path)) is Some,
        stem matches Some(s) ==> Some(s@) == last_stem(path_parts(*path)),
        stem is Some ==> shows_name(path_text(*path), last_name(path_parts(*path))->0),
{
    path.file_stem().map(|stem| stem.to_string_lossy().into_owned())
}

/// `Path::extension` is the file name behind its last dot, where it has a dot behind its
/// first character.
#[verifier::external_body]
pub(crate) fn extension(path: &PathBuf) -> (ext: Option<String>)
    ensures
        ext is Some <==> last_extension(path_parts(*path)) is Some,
        ext matches Some(e) ==> Some(e@) == last_extension(path_parts(*path)),
{
    path.extension().map(|ext| ext.to_string_lossy().into_owned())
}

/// `Path::display` renders the path as text, a prefix first.
#[verifier::external_body]
pub(crate) fn display(path: &PathBuf) -> (text: String)
    ensures
        text@ == path_text(*path),
        has_prefix(path_parts(*path)) ==> path_parts(*path)[0]->Prefix_0.is_prefix_of(text@),
{
    path.display().to_string()
}

/// A name adds one component.
pub(crate) proof fn lemma_name_in(dir: PathBuf, file: PathBuf, name: Seq<char>)
    requires
        path_parts(file) == seq![PathPart::Name(name)],
    ensures
        is_ordinary(dir) ==> joins_by_parts(dir, file),
        joined_parts(path_parts(dir), path_parts(file)) == with_root(path_parts(dir)).push(
            PathPart::Name(name),
        ),
{
    let more = path_parts(file);
    assert(more[0] == PathPart::Name(name));
    assert(!more.contains(PathPart::Parent));
    assert(with_root(path_parts(dir)) + more == with_root(path_parts(dir)).push(
        PathPart::Name(name),
    ));
}

/// The file `name` in the directory `dir`.
pub(crate) fn join_name(dir: &PathBuf, name: &str) -> (path: PathBuf)
    ensures
        path == path_joined(*dir, path_of(name@)),
        is_plain_name(name@) && is_ordinary(*dir) ==> path_parts(path) == with_root(
            path_parts(*dir),
        ).push(PathPart::Name(name@)),
        is_plain_name(name@) ==> ends_in(path_text(path), name@),
        is_plain_name(name@) && is_absolute(*dir) ==> is_absolute(path),
{
    let file = path_from(name);
    proof {
        if is_plain_name(name@) {
            lemma_name_in(*dir, file, name@);
        }
    }
    join(dir, &file)
}

/// A drive followed by neither a root nor something that begins like a drive again.
pub open spec fn is_drive_relative(parts: Seq<PathPart>) -> bool {
    &&& has_prefix(parts) && !is_rooted(parts)
    &&& parts.len() > 1 ==> match parts[1] {
        PathPart::Prefix(_) => false,
        PathPart::Name(name) => !begins_with_drive(name),
        _ => true,
    }
}

/// `path` without the drive that it begins with, where no root follows that. Such a path
/// depends on the drive's current directory.
pub open spec fn driveless(path: PathBuf) -> PathBuf
    decreases path_text(path).len(),
{
    if is_absolute(path) || !has_prefix(path_parts(path)) {
        path
    } else {
        match path_behind(path, path_of(path_text(path).take(2))) {
            Some(rest) => if path_text(rest).len() < path_text(path).len() {
                driveless(rest)
            } else {
                path
            },
            None => path,
        }
    }
}

fn without_drive(path: &PathBuf) -> (rest: PathBuf)
    ensures
        rest == driveless(*path),
        has_prefix(path_parts(rest)) ==> is_absolute(rest),
        is_plain_name(path_text(*path)) ==> rest == *path,
        is_drive_relative(path_parts(*path)) ==> path_parts(rest) == path_parts(*path).skip(1),
    decreases path_text(*path).len(),
{
    if has_root(path) {
        return path.clone();
    }
    let text = display(path);
    let chars = chars_of(text.as_str());
    if chars.len() < 2 || chars[1] != ':' || !letter(chars[0]) {
        return path.clone();
    }
    let drive = string_of(&chars, 0, 2);
    let base = path_from(drive.as_str());
    proof {
        assert(drive@ == path_text(*path).take(2));
        if has_prefix(path_parts(*path)) {
            let prefix = path_parts(*path)[0]->Prefix_0;
            assert(prefix == drive@);
        }
    }
    match strip_prefix(path, &base) {
        Some(rest) => {
            if file_name(&base).is_some() {
                path.clone()
            } else {
                without_drive(&rest)
            }
        },
        None => path.clone(),
    }
}

fn letter(c: char) -> (b: bool)
    ensures
        b == ('a' <= c <= 'z' || 'A' <= c <= 'Z'),
{
    ('a' <= c && c <= 'z') || ('A' <= c && c <= 'Z')
}

/// `path` taken from `dir`.
pub open spec fn placed_in(dir: PathBuf, path: PathBuf) -> PathBuf {
    path_joined(dir, driveless(path))
}

/// What becomes of `path` when it is taken from `dir` as `placed`: an absolute path stays as
/// it is, but for one without a drive beside a `dir` that has one; any other comes behind
/// `dir`, without a drive of its own. So it is absolute where `dir` is.
pub open spec fn is_placed(placed: PathBuf, dir: PathBuf, path: PathBuf) -> bool {
    &&& placed == placed_in(dir, path)
    &&& is_absolute(path) && (has_prefix(path_parts(path)) || !has_prefix(path_parts(dir)))
        ==> placed == path
    &&& joins_by_parts(dir, driveless(path)) ==> path_parts(placed) == joined_parts(
        path_parts(dir),
        path_parts(driveless(path)),
    )
    &&& is_drive_relative(path_parts(path)) ==> path_parts(driveless(path)) == path_parts(
        path,
    ).skip(1)
    &&& is_absolute(dir) ==> is_absolute(placed)
    &&& is_plain_name(path_text(path)) ==> driveless(path) == path && ends_in(
        path_text(placed),
        path_text(path),
    )
}

/// Take `path` from the directory `dir`.
pub(crate) fn place_in(dir: &PathBuf, path: &PathBuf) -> (placed: PathBuf)
    ensures
        is_placed(placed, *dir, *path),
{
    let rest = without_drive(path);
    join(dir, &rest)
}

} // verus!
