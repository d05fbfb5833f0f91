//! Paths as text: absolute form, parents, and the search through ancestor
//! directories.
//!
//! A path is a `String`; what `std::path` and `normalize_path` make of it is
//! named here and used by the contracts. The names stand for the behaviour on
//! the platform the crate is compiled for.

use crate::error::IoOperation;
use crate::error::XfmtError;
use crate::snapshot::Snapshot;
use crate::text::option_text;
use crate::text::texts;
use normalize_path::NormalizePath;
use std::path::Path;
use vstd::prelude::*;
use vstd::string::*;

verus! {

/// Whether `std::path::Path::is_absolute` holds of the path.
pub uninterp spec fn path_is_absolute(path: Seq<char>) -> bool;

/// What `std::path::Path::parent` returns for the path.
pub uninterp spec fn path_parent(path: Seq<char>) -> Option<Seq<char>>;

/// What `std::path::Path::join` returns for `base` and `rest`.
pub uninterp spec fn path_joined(base: Seq<char>, rest: Seq<char>) -> Seq<char>;

/// What `std::path::Path::file_name` returns for the path.
pub uninterp spec fn path_file_name(path: Seq<char>) -> Option<Seq<char>>;

/// What `std::path::Path::file_stem` returns for the path.
pub uninterp spec fn path_file_stem(path: Seq<char>) -> Option<Seq<char>>;

/// What `normalize_path::NormalizePath::normalize` returns for the path:
/// `.` and `..` collapsed, links untouched.
pub uninterp spec fn path_normalized(path: Seq<char>) -> Seq<char>;

/// Calls `std::path::Path::is_absolute`; the result is `path_is_absolute`.
#[verifier::external_body]
pub(crate) fn is_absolute(path: &str) -> (r: bool)
    ensures
        r == path_is_absolute(path@),
{
    Path::new(path).is_absolute()
}

/// Calls `std::path::Path::parent`; the result is `path_parent`.
#[verifier::external_body]
pub(crate) fn parent_of(path: &str) -> (r: Option<String>)
    ensures
        option_text(r) == path_parent(path@),
{
    Path::new(path).parent().map(|p| p.to_string_lossy().into_owned())
}

/// Calls `std::path::Path::join`; the result is `path_joined`.
#[verifier::external_body]
pub(crate) fn join(base: &str, rest: &str) -> (r: String)
    ensures
        r@ == path_joined(base@, rest@),
{
    Path::new(base).join(rest).to_string_lossy().into_owned()
}

/// Calls `std::path::Path::file_name`; the result is `path_file_name`.
#[verifier::external_body]
pub(crate) fn file_name_of(path: &str) -> (r: Option<String>)
    ensures
        option_text(r) == path_file_name(path@),
{
    Path::new(path).file_name().map(|n| n.to_string_lossy().into_owned())
}

/// Calls `std::path::Path::file_stem`; the result is `path_file_stem`.
#[verifier::external_body]
pub(crate) fn file_stem_of(path: &str) -> (r: Option<String>)
    ensures
        option_text(r) == path_file_stem(path@),
{
    Path::new(path).file_stem().map(|n| n.to_string_lossy().into_owned())
}

/// Calls `normalize_path::NormalizePath::normalize`; the result is
/// `path_normalized`.
#[verifier::external_body]
pub(crate) fn normalize(path: &str) -> (r: String)
    ensures
        r@ == path_normalized(path@),
{
    Path::new(path).normalize().to_string_lossy().into_owned()
}

/// A part of a path, or `NotFound` where the path has no such part.
pub open spec fn part_or_not_found(part: Option<Seq<char>>) -> Result<Seq<char>, XfmtError> {
    match part {
        Some(text) => Ok(text),
        None => Err(XfmtError::NotFound),
    }
}

/// A string or an error, the string as text.
pub open spec fn result_text(r: Result<String, XfmtError>) -> Result<Seq<char>, XfmtError> {
    match r {
        Ok(text) => Ok(text@),
        Err(e) => Err(e),
    }
}

/// The parts of a path, each an error where the path has none.
pub trait PathExt {
    /// The path as text.
    spec fn path_text(&self) -> Seq<char>;

    /// The path without its last component.
    fn try_parent(&self) -> (r: Result<String, XfmtError>)
        ensures
            result_text(r) == part_or_not_found(path_parent(self.path_text())),
    ;

    /// The last component of the path.
    fn try_file_name(&self) -> (r: Result<String, XfmtError>)
        ensures
            result_text(r) == part_or_not_found(path_file_name(self.path_text())),
    ;

    /// The last component of the path without its extension.
    fn try_file_stem(&self) -> (r: Result<String, XfmtError>)
        ensures
            result_text(r) == part_or_not_found(path_file_stem(self.path_text())),
    ;
}

impl PathExt for str {
    open spec fn path_text(&self) -> Seq<char> {
        self@
    }

    fn try_parent(&self) -> (r: Result<String, XfmtError>) {
        match parent_of(self) {
            Some(path) => Ok(path),
            None => Err(XfmtError::NotFound),
        }
    }

    fn try_file_name(&self) -> (r: Result<String, XfmtError>) {
        match file_name_of(self) {
            Some(name) => Ok(name),
            None => Err(XfmtError::NotFound),
        }
    }

    fn try_file_stem(&self) -> (r: Result<String, XfmtError>) {
        match file_stem_of(self) {
            Some(stem) => Ok(stem),
            None => Err(XfmtError::NotFound),
        }
    }
}

impl PathExt for String {
    open spec fn path_text(&self) -> Seq<char> {
        self@
    }

    fn try_parent(&self) -> (r: Result<String, XfmtError>) {
        self.as_str().try_parent()
    }

    fn try_file_name(&self) -> (r: Result<String, XfmtError>) {
        self.as_str().try_file_name()
    }

    fn try_file_stem(&self) -> (r: Result<String, XfmtError>) {
        self.as_str().try_file_stem()
    }
}

/// The absolute, normalized form of `input`: itself normalized where it is
/// absolute, else joined onto the working directory and normalized. There is
/// none for a relative path without a working directory.
pub open spec fn absolute_path(input: Seq<char>, cwd: Option<Seq<char>>) -> Option<Seq<char>> {
    if path_is_absolute(input) {
        Some(path_normalized(input))
    } else {
        match cwd {
            Some(dir) => Some(path_normalized(path_joined(dir, input))),
            None => None,
        }
    }
}

/// The text of an optional string slice.
pub open spec fn slice_text(value: Option<&str>) -> Option<Seq<char>> {
    match value {
        Some(s) => Some(s@),
        None => None,
    }
}

/// Makes `input` absolute and normalizes it. A relative path is joined onto
/// the working directory first; `cwd` is `None` where that directory could not
/// be determined, which fails a relative path and no other.
pub fn path_to_absolute(input: &str, cwd: Option<&str>) -> (r: Result<String, XfmtError>)
    ensures
        match absolute_path(input@, slice_text(cwd)) {
            Some(path) => r matches Ok(p) && p@ == path,
            None => r == Err::<String, XfmtError>(XfmtError::Io(IoOperation::CurrentDir)),
        },
{
    if is_absolute(input) {
        Ok(normalize(input))
    } else {
        match cwd {
            Some(dir) => {
                let joined = join(dir, input);
                Ok(normalize(joined.as_str()))
            },
            None => Err(XfmtError::Io(IoOperation::CurrentDir)),
        }
    }
}

/// A directory and the directories above it, nearest first: the directory,
/// its parent, and so on up to one that has no parent. A parent is the path
/// without its last component; the chain also ends at a parent that is not
/// shorter than its path, so that it ends whatever the parents are.
pub open spec fn ancestors(dir: Seq<char>) -> Seq<Seq<char>>
    decreases dir.len(),
{
    match path_parent(dir) {
        Some(parent) => if parent.len() < dir.len() {
            seq![dir] + ancestors(parent)
        } else {
            seq![dir]
        },
        None => seq![dir],
    }
}

/// The parent of `path` with which the chain of ancestors goes on: `None`
/// where there is no parent, or one that is not shorter than `path`.
fn next_ancestor(path: &str) -> (r: Option<String>)
    ensures
        match path_parent(path@) {
            Some(parent) => if parent.len() < path@.len() {
                r matches Some(next) && next@ == parent
            } else {
                r is None
            },
            None => r is None,
        },
{
    match parent_of(path) {
        Some(parent) => if parent.as_str().unicode_len() < path.unicode_len() {
            Some(parent)
        } else {
            None
        },
        None => None,
    }
}

/// Lists a directory and the directories above it, nearest first.
pub fn ancestor_dirs(dir: &str) -> (r: Vec<String>)
    ensures
        texts(r@) == ancestors(dir@),
{
    let mut dirs: Vec<String> = Vec::new();
    let mut current: String = dir.to_owned();
    assert(texts(dirs@) =~= Seq::<Seq<char>>::empty());
    loop
        invariant
            texts(dirs@) + ancestors(current@) == ancestors(dir@),
        decreases current@.len(),
    {
        let ghost before = texts(dirs@);
        let next = next_ancestor(current.as_str());
        dirs.push(current);
        assert(texts(dirs@) =~= before.push(current@));
        match next {
            Some(parent) => {
                assert(texts(dirs@) + ancestors(parent@) =~= before + ancestors(current@));
                current = parent;
            },
            None => {
                assert(texts(dirs@) =~= before + ancestors(current@));
                return dirs;
            },
        }
    }
}

/// Where a file named `file_name` would lie in each of `dirs`.
pub open spec fn files_in(dirs: Seq<Seq<char>>, file_name: Seq<char>) -> Seq<Seq<char>> {
    dirs.map_values(|dir: Seq<char>| path_joined(dir, file_name))
}

/// Those of `paths` at which the snapshot holds something, in their order.
pub open spec fn present_paths(fs: Snapshot, paths: Seq<Seq<char>>) -> Seq<Seq<char>> {
    paths.filter(|path: Seq<char>| fs.present(path))
}

/// The files named `file_name` in `dir` and the directories above it, nearest
/// first.
pub open spec fn ancestor_files(fs: Snapshot, dir: Seq<char>, file_name: Seq<char>) -> Seq<
    Seq<char>,
> {
    present_paths(fs, files_in(ancestors(dir), file_name))
}

/// Where a search from `start` begins: at `start` if it is a directory, else
/// at its parent.
pub open spec fn search_root(fs: Snapshot, start: Seq<char>) -> Option<Seq<char>> {
    if fs.dir_at(start) {
        Some(start)
    } else {
        path_parent(start)
    }
}

/// The chain starts at the directory itself, and each further member is the
/// parent of the one before it.
pub proof fn lemma_ancestors_chain(dir: Seq<char>, i: int)
    requires
        0 <= i < ancestors(dir).len(),
    ensures
        ancestors(dir)[0] == dir,
        i + 1 < ancestors(dir).len() ==> path_parent(ancestors(dir)[i]) == Some(
            ancestors(dir)[i + 1],
        ),
        i + 1 == ancestors(dir).len() ==> match path_parent(ancestors(dir)[i]) {
            Some(parent) => parent.len() >= ancestors(dir)[i].len(),
            None => true,
        },
    decreases i,
{
    if i > 0 {
        let parent = path_parent(dir).unwrap();
        assert(ancestors(dir) =~= seq![dir] + ancestors(parent));
        lemma_ancestors_chain(parent, i - 1);
        assert(ancestors(dir)[i] == ancestors(parent)[i - 1]);
        if i + 1 < ancestors(dir).len() {
            assert(ancestors(dir)[i + 1] == ancestors(parent)[i]);
        }
    } else {
        match path_parent(dir) {
            Some(parent) => {
                if parent.len() < dir.len() {
                    assert(ancestors(dir) =~= seq![dir] + ancestors(parent));
                    assert(ancestors(dir)[1] == ancestors(parent)[0]);
                    assert(ancestors(parent)[0] == parent);
                }
            },
            None => {},
        }
    }
}

/// Filtering keeps the order: of two kept elements, the one that came first
/// in the sequence comes first in the result.
proof fn lemma_filter_keeps_order<A>(s: Seq<A>, pred: spec_fn(A) -> bool, k: int, j: int)
    requires
        0 <= k < j < s.len(),
        pred(s[k]),
        pred(s[j]),
    ensures
        exists|a: int, b: int|
            0 <= a < b < s.filter(pred).len() && #[trigger] s.filter(pred)[a] == s[k]
                && #[trigger] s.filter(pred)[b] == s[j],
{
    let front = s.take(j);
    let back = s.skip(j);
    assert(s =~= front + back);
    Seq::filter_distributes_over_add(front, back, pred);
    assert(front[k] == s[k]);
    front.lemma_filter_contains(pred, k);
    let a = choose|a: int| 0 <= a < front.filter(pred).len() && front.filter(pred)[a] == s[k];
    assert(back[0] == s[j]);
    back.lemma_filter_contains(pred, 0);
    let c = choose|c: int| 0 <= c < back.filter(pred).len() && back.filter(pred)[c] == s[j];
    let b = front.filter(pred).len() + c;
    assert(s.filter(pred)[a] == s[k]);
    assert(s.filter(pred)[b] == s[j]);
}

/// Where the file exists in two directories of the chain, the search returns
/// both, and the one in the nearer directory before the one in the farther.
pub proof fn lemma_nearer_match_comes_first(
    fs: Snapshot,
    dir: Seq<char>,
    file_name: Seq<char>,
    k: int,
    j: int,
)
    requires
        0 <= k < j < ancestors(dir).len(),
        fs.present(path_joined(ancestors(dir)[k], file_name)),
        fs.present(path_joined(ancestors(dir)[j], file_name)),
    ensures
        exists|a: int, b: int|
            0 <= a < b < ancestor_files(fs, dir, file_name).len() && #[trigger] ancestor_files(
                fs,
                dir,
                file_name,
            )[a] == path_joined(ancestors(dir)[k], file_name) && #[trigger] ancestor_files(
                fs,
                dir,
                file_name,
            )[b] == path_joined(ancestors(dir)[j], file_name),
{
    let paths = files_in(ancestors(dir), file_name);
    let pred = |path: Seq<char>| fs.present(path);
    assert(paths[k] == path_joined(ancestors(dir)[k], file_name));
    assert(paths[j] == path_joined(ancestors(dir)[j], file_name));
    lemma_filter_keeps_order(paths, pred, k, j);
    let found = ancestor_files(fs, dir, file_name);
    assert(found == paths.filter(pred));
    let (a, b) = choose|a: int, b: int|
        0 <= a < b < paths.filter(pred).len() && #[trigger] paths.filter(pred)[a] == paths[k]
            && #[trigger] paths.filter(pred)[b] == paths[j];
    assert(0 <= a < b < found.len() && found[a] == paths[k] && found[b] == paths[j]);
}

/// The search of `dir` is the file in `dir` itself, where there is one,
/// followed by the search of its parent.
pub proof fn lemma_ancestor_files_step(fs: Snapshot, dir: Seq<char>, file_name: Seq<char>)
    ensures
        ancestor_files(fs, dir, file_name) == present_paths(
            fs,
            seq![path_joined(dir, file_name)],
        ) + match path_parent(dir) {
            Some(parent) => if parent.len() < dir.len() {
                ancestor_files(fs, parent, file_name)
            } else {
                Seq::empty()
            },
            None => Seq::empty(),
        },
        present_paths(fs, seq![path_joined(dir, file_name)]) == if fs.present(
            path_joined(dir, file_name),
        ) {
            seq![path_joined(dir, file_name)]
        } else {
            Seq::empty()
        },
{
    let here = seq![path_joined(dir, file_name)];
    let pred = |path: Seq<char>| fs.present(path);
    assert(files_in(seq![dir], file_name) =~= here);
    assert(here =~= Seq::<Seq<char>>::empty().push(here[0]));
    Seq::<Seq<char>>::empty().lemma_filter_push(here[0], pred);
    assert(Seq::<Seq<char>>::empty().filter(pred) =~= Seq::<Seq<char>>::empty()) by {
        reveal(Seq::filter);
    }
    let above = match path_parent(dir) {
        Some(parent) => if parent.len() < dir.len() {
            ancestors(parent)
        } else {
            Seq::empty()
        },
        None => Seq::empty(),
    };
    assert(ancestors(dir) =~= seq![dir] + above);
    assert(files_in(ancestors(dir), file_name) =~= here + files_in(above, file_name));
    Seq::filter_distributes_over_add(here, files_in(above, file_name), pred);
    assert(files_in(Seq::<Seq<char>>::empty(), file_name) =~= Seq::<Seq<char>>::empty());
}

/// What a search from `start` gives: every file named `file_name` in the
/// directory where the search begins and in those above it, nearest first.
/// A start that does not exist fails the search, and so does one that is no
/// directory and has no parent.
pub open spec fn searched(fs: Snapshot, start: Seq<char>, file_name: Seq<char>) -> Result<
    Seq<Seq<char>>,
    XfmtError,
> {
    if !fs.present(start) {
        Err(XfmtError::Io(IoOperation::Metadata))
    } else {
        match search_root(fs, start) {
            Some(dir) => Ok(ancestor_files(fs, dir, file_name)),
            None => Err(XfmtError::NotFound),
        }
    }
}

/// Searches the directory of `start` and every directory above it for a file
/// named `file_name`, and returns all that exist, nearest first. The search
/// begins at `start` if it is a directory, else at its parent.
pub fn find_ancestor_file(start: &str, file_name: &str, fs: &Snapshot) -> (r: Result<
    Vec<String>,
    XfmtError,
>)
    ensures
        match searched(*fs, start@, file_name@) {
            Ok(files) => r matches Ok(found) && texts(found@) == files,
            Err(e) => r == Err::<Vec<String>, XfmtError>(e),
        },
{
    if !fs.contains(start) {
        return Err(XfmtError::Io(IoOperation::Metadata));
    }
    let mut current: String = if fs.is_dir(start) {
        start.to_owned()
    } else {
        match start.try_parent() {
            Ok(parent) => parent,
            Err(e) => {
                return Err(e);
            },
        }
    };
    let ghost root = current@;
    let mut found: Vec<String> = Vec::new();
    assert(texts(found@) =~= Seq::<Seq<char>>::empty());
    loop
        invariant
            fs.present(start@),
            search_root(*fs, start@) == Some(root),
            texts(found@) + ancestor_files(*fs, current@, file_name@) == ancestor_files(
                *fs,
                root,
                file_name@,
            ),
        decreases current@.len(),
    {
        let ghost before = texts(found@);
        proof {
            lemma_ancestor_files_step(*fs, current@, file_name@);
        }
        let possible = join(current.as_str(), file_name);
        if fs.contains(possible.as_str()) {
            found.push(possible);
            assert(texts(found@) =~= before + seq![path_joined(current@, file_name@)]);
        }
        match next_ancestor(current.as_str()) {
            Some(next) => {
                assert(texts(found@) + ancestor_files(*fs, next@, file_name@)
                    =~= before + ancestor_files(*fs, current@, file_name@));
                current = next;
            },
            None => {
                assert(texts(found@) =~= before + ancestor_files(*fs, current@, file_name@));
                return Ok(found);
            },
        }
    }
}

/// The nearest of the files that the search finds.
pub open spec fn nearest_file(fs: Snapshot, dir: Seq<char>, file_name: Seq<char>) -> Option<
    Seq<char>,
> {
    let found = ancestor_files(fs, dir, file_name);
    if found.len() > 0 {
        Some(found[0])
    } else {
        None
    }
}

/// The nearest file named `file_name` above `start`, in absolute form:
/// `Ok(None)` where no directory of the chain holds one.
pub open spec fn located(fs: Snapshot, start: Seq<char>, file_name: Seq<char>) -> Result<
    Option<Seq<char>>,
    XfmtError,
> {
    if !fs.present(start) {
        Err(XfmtError::Io(IoOperation::Metadata))
    } else {
        match search_root(fs, start) {
            None => Err(XfmtError::NotFound),
            Some(dir) => match nearest_file(fs, dir, file_name) {
                None => Ok(None),
                Some(path) => match absolute_path(path, option_text(fs.cwd)) {
                    Some(absolute) => Ok(Some(absolute)),
                    None => Err(XfmtError::Io(IoOperation::CurrentDir)),
                },
            },
        }
    }
}

/// The outcome of a search with its path as text.
pub open spec fn located_text(r: Result<Option<String>, XfmtError>) -> Result<
    Option<Seq<char>>,
    XfmtError,
> {
    match r {
        Ok(path) => Ok(option_text(path)),
        Err(e) => Err(e),
    }
}

/// Finds the nearest file named `file_name` in the directory of `start` or
/// above it, and returns its absolute path.
pub fn find_nearest(start: &str, file_name: &str, fs: &Snapshot) -> (r: Result<
    Option<String>,
    XfmtError,
>)
    ensures
        located_text(r) == located(*fs, start@, file_name@),
{
    let found = match find_ancestor_file(start, file_name, fs) {
        Ok(found) => found,
        Err(e) => {
            return Err(e);
        },
    };
    if found.len() == 0 {
        return Ok(None);
    }
    assert(texts(found@)[0] == found@[0]@);
    let cwd = match &fs.cwd {
        Some(dir) => Some(dir.as_str()),
        None => None,
    };
    match path_to_absolute(found[0].as_str(), cwd) {
        Ok(path) => Ok(Some(path)),
        Err(e) => Err(e),
    }
}

/// The first kept element is the first element that the predicate holds of.
proof fn lemma_filter_first<A>(s: Seq<A>, pred: spec_fn(A) -> bool, k: int)
    requires
        0 <= k < s.len(),
        pred(s[k]),
        forall|i: int| 0 <= i < k ==> !pred(s[i]),
    ensures
        s.filter(pred).len() > 0,
        s.filter(pred)[0] == s[k],
    decreases k,
{
    let rest = s.drop_first();
    assert(s =~= seq![s[0]] + rest);
    rest.lemma_filter_prepend(s[0], pred);
    if k > 0 {
        assert(rest[k - 1] == s[k]);
        assert forall|i: int| 0 <= i < k - 1 implies !pred(rest[i]) by {
            assert(rest[i] == s[i + 1]);
        }
        lemma_filter_first(rest, pred, k - 1);
        assert(s.filter(pred) =~= rest.filter(pred));
    }
}

/// Nothing is kept where the predicate holds of no element.
proof fn lemma_filter_none<A>(s: Seq<A>, pred: spec_fn(A) -> bool)
    requires
        forall|i: int| 0 <= i < s.len() ==> !pred(s[i]),
    ensures
        s.filter(pred).len() == 0,
{
    assert(s.all(|x: A| !pred(x)));
    s.lemma_all_neg_filter_empty(pred);
}

/// The nearest file is the one in the first directory of the chain that
/// holds one.
pub proof fn lemma_nearest_file(fs: Snapshot, dir: Seq<char>, file_name: Seq<char>, k: int)
    requires
        0 <= k < ancestors(dir).len(),
        fs.present(path_joined(ancestors(dir)[k], file_name)),
        forall|i: int| 0 <= i < k ==> !fs.present(path_joined(ancestors(dir)[i], file_name)),
    ensures
        nearest_file(fs, dir, file_name) == Some(path_joined(ancestors(dir)[k], file_name)),
{
    let paths = files_in(ancestors(dir), file_name);
    let pred = |path: Seq<char>| fs.present(path);
    assert(paths[k] == path_joined(ancestors(dir)[k], file_name));
    assert forall|i: int| 0 <= i < k implies !pred(paths[i]) by {
        assert(paths[i] == path_joined(ancestors(dir)[i], file_name));
    }
    lemma_filter_first(paths, pred, k);
    assert(ancestor_files(fs, dir, file_name) == paths.filter(pred));
}

/// There is no nearest file where no directory of the chain holds one.
pub proof fn lemma_no_nearest_file(fs: Snapshot, dir: Seq<char>, file_name: Seq<char>)
    requires
        forall|i: int|
            0 <= i < ancestors(dir).len() ==> !fs.present(
                path_joined(#[trigger] ancestors(dir)[i], file_name),
            ),
    ensures
        nearest_file(fs, dir, file_name) is None,
{
    let paths = files_in(ancestors(dir), file_name);
    let pred = |path: Seq<char>| fs.present(path);
    assert forall|i: int| 0 <= i < paths.len() implies !pred(paths[i]) by {
        assert(paths[i] == path_joined(ancestors(dir)[i], file_name));
    }
    lemma_filter_none(paths, pred);
    assert(ancestor_files(fs, dir, file_name) == paths.filter(pred));
}

} // verus!
