//! What to look at on disk before a search is made.

use crate::cargo_toml::CargoToml;
use crate::path_ext::absolute_path;
use crate::path_ext::ancestor_dirs;
use crate::path_ext::ancestors;
use crate::path_ext::join;
use crate::path_ext::parent_of;
use crate::path_ext::path_joined;
use crate::path_ext::path_parent;
use crate::path_ext::path_to_absolute;
use crate::path_ext::slice_text;
use crate::cargo_toml::edition_for;
use crate::path_ext::files_in;
use crate::path_ext::located;
use crate::path_ext::present_paths;
use crate::path_ext::search_root;
use crate::rustfmt_toml::config_for;
use crate::rustfmt_toml::RustfmtToml;
use crate::snapshot::Snapshot;
use crate::text::option_text;
use crate::text::texts;
use vstd::prelude::*;

verus! {

/// The directories that a search from `start` can visit: `start` itself, in
/// case it is a directory, and the directories from its parent upwards.
pub open spec fn search_dirs(start: Seq<char>) -> Seq<Seq<char>> {
    match path_parent(start) {
        Some(parent) => seq![start] + ancestors(parent),
        None => seq![start],
    }
}

/// The paths under which a file named `file_name` in `dir` is looked for and
/// read: the path itself, and its absolute form where it has one.
pub open spec fn name_probes(dir: Seq<char>, file_name: Seq<char>, cwd: Option<Seq<char>>) -> Seq<
    Seq<char>,
> {
    let path = path_joined(dir, file_name);
    match absolute_path(path, cwd) {
        Some(absolute) => seq![path, absolute],
        None => seq![path],
    }
}

/// The paths to look at in one directory: those of a manifest and of a
/// configuration file under either name.
pub open spec fn dir_probes(dir: Seq<char>, cwd: Option<Seq<char>>) -> Seq<Seq<char>> {
    name_probes(dir, "Cargo.toml"@, cwd) + name_probes(dir, ".rustfmt.toml"@, cwd) + name_probes(
        dir,
        "rustfmt.toml"@,
        cwd,
    )
}

/// The paths to look at in each of `dirs`, in their order.
pub open spec fn probes_in(dirs: Seq<Seq<char>>, cwd: Option<Seq<char>>) -> Seq<Seq<char>>
    decreases dirs.len(),
{
    if dirs.len() == 0 {
        Seq::empty()
    } else {
        probes_in(dirs.drop_last(), cwd) + dir_probes(dirs.last(), cwd)
    }
}

/// Every path whose state a search from `start` depends on: `start` itself,
/// then the paths to look at in each directory that the search can visit.
pub open spec fn probes(start: Seq<char>, cwd: Option<Seq<char>>) -> Seq<Seq<char>> {
    seq![start] + probes_in(search_dirs(start), cwd)
}

fn push_name_probes(paths: &mut Vec<String>, dir: &str, file_name: &str, cwd: Option<&str>)
    ensures
        texts(final(paths)@) == texts(old(paths)@) + name_probes(dir@, file_name@, slice_text(cwd)),
{
    let ghost before = texts(paths@);
    let path = join(dir, file_name);
    let absolute = path_to_absolute(path.as_str(), cwd);
    paths.push(path);
    match absolute {
        Ok(absolute) => {
            paths.push(absolute);
            assert(texts(paths@) =~= before + seq![path@, absolute@]);
        },
        Err(_) => {
            assert(texts(paths@) =~= before + seq![path@]);
        },
    }
}

/// Lists every path whose state a search from `start` depends on. A caller
/// looks at each and notes what is there in a snapshot.
pub fn probe_paths(start: &str, cwd: Option<&str>) -> (r: Vec<String>)
    ensures
        texts(r@) == probes(start@, slice_text(cwd)),
{
    let mut dirs: Vec<String> = Vec::new();
    dirs.push(start.to_owned());
    match parent_of(start) {
        Some(parent) => {
            let mut above = ancestor_dirs(parent.as_str());
            let ghost above_texts = texts(above@);
            dirs.append(&mut above);
            assert(texts(dirs@) =~= seq![start@] + above_texts);
        },
        None => {
            assert(texts(dirs@) =~= seq![start@]);
        },
    }
    let ghost all = texts(dirs@);
    let mut paths: Vec<String> = Vec::new();
    paths.push(start.to_owned());
    assert(texts(paths@) =~= seq![start@]);
    let mut index: usize = 0;
    assert(all.take(0) =~= Seq::<Seq<char>>::empty());
    assert(seq![start@] + Seq::<Seq<char>>::empty() =~= seq![start@]);
    while index < dirs.len()
        invariant
            index <= dirs.len(),
            all == texts(dirs@),
            texts(paths@) == seq![start@] + probes_in(all.take(index as int), slice_text(cwd)),
        decreases dirs.len() - index,
    {
        let ghost before = texts(paths@);
        let dir = dirs[index].as_str();
        push_name_probes(&mut paths, dir, CargoToml::file_name(), cwd);
        push_name_probes(&mut paths, dir, RustfmtToml::dotted_file_name(), cwd);
        push_name_probes(&mut paths, dir, RustfmtToml::file_name(), cwd);
        proof {
            let next = all.take(index + 1);
            assert(next.drop_last() =~= all.take(index as int));
            assert(next.last() == dirs@[index as int]@);
            assert(texts(paths@) =~= before + dir_probes(dir@, slice_text(cwd)));
            assert(texts(paths@) =~= seq![start@] + probes_in(next, slice_text(cwd)));
        }
        index += 1;
    }
    assert(all.take(index as int) =~= all);
    paths
}

/// Whether two snapshots say the same of a path.
pub open spec fn same_at(a: Snapshot, b: Snapshot, path: Seq<char>) -> bool {
    &&& a.present(path) == b.present(path)
    &&& a.dir_at(path) == b.dir_at(path)
    &&& a.text_at(path) == b.text_at(path)
}

/// Whether two snapshots have the same working directory and say the same
/// of each of `paths`.
pub open spec fn agree_on(a: Snapshot, b: Snapshot, paths: Seq<Seq<char>>) -> bool {
    &&& option_text(a.cwd) == option_text(b.cwd)
    &&& forall|path: Seq<char>| #[trigger] paths.contains(path) ==> same_at(a, b, path)
}

/// Whether `file_name` is one of the names that are searched for.
pub open spec fn searched_name(file_name: Seq<char>) -> bool {
    file_name == "Cargo.toml"@ || file_name == ".rustfmt.toml"@ || file_name == "rustfmt.toml"@
}

/// What is looked at in one of the directories is looked at in all of them.
proof fn lemma_probes_in_hold(
    dirs: Seq<Seq<char>>,
    cwd: Option<Seq<char>>,
    i: int,
    path: Seq<char>,
)
    requires
        0 <= i < dirs.len(),
        dir_probes(dirs[i], cwd).contains(path),
    ensures
        probes_in(dirs, cwd).contains(path),
    decreases dirs.len(),
{
    let front = probes_in(dirs.drop_last(), cwd);
    let back = dir_probes(dirs.last(), cwd);
    if i == dirs.len() - 1 {
        let k = choose|k: int| 0 <= k < back.len() && back[k] == path;
        assert((front + back)[front.len() + k] == path);
    } else {
        assert(dirs.drop_last()[i] == dirs[i]);
        lemma_probes_in_hold(dirs.drop_last(), cwd, i, path);
        let k = choose|k: int| 0 <= k < front.len() && front[k] == path;
        assert((front + back)[k] == path);
    }
}

/// The file of a searched name in a directory that the search can visit is
/// among the probes, and so is its absolute form.
proof fn lemma_candidate_probed(
    start: Seq<char>,
    cwd: Option<Seq<char>>,
    i: int,
    file_name: Seq<char>,
)
    requires
        0 <= i < search_dirs(start).len(),
        searched_name(file_name),
    ensures
        probes(start, cwd).contains(path_joined(search_dirs(start)[i], file_name)),
        absolute_path(path_joined(search_dirs(start)[i], file_name), cwd) matches Some(absolute)
            ==> probes(start, cwd).contains(absolute),
{
    let dir = search_dirs(start)[i];
    let path = path_joined(dir, file_name);
    let named = name_probes(dir, file_name, cwd);
    let all = dir_probes(dir, cwd);
    let first = name_probes(dir, "Cargo.toml"@, cwd);
    let second = name_probes(dir, ".rustfmt.toml"@, cwd);
    let third = name_probes(dir, "rustfmt.toml"@, cwd);
    assert(all == first + second + third);
    assert forall|k: int| 0 <= k < named.len() implies all.contains(#[trigger] named[k]) by {
        if file_name == "Cargo.toml"@ {
            assert(all[k] == named[k]);
        } else if file_name == ".rustfmt.toml"@ {
            assert(all[first.len() + k] == named[k]);
        } else {
            assert(all[first.len() + second.len() + k] == named[k]);
        }
    }
    let inner = probes_in(search_dirs(start), cwd);
    assert(named[0] == path);
    lemma_probes_in_hold(search_dirs(start), cwd, i, path);
    let k = choose|k: int| 0 <= k < inner.len() && inner[k] == path;
    assert(probes(start, cwd)[k + 1] == path);
    match absolute_path(path, cwd) {
        Some(absolute) => {
            assert(named[1] == absolute);
            lemma_probes_in_hold(search_dirs(start), cwd, i, absolute);
            let j = choose|j: int| 0 <= j < inner.len() && inner[j] == absolute;
            assert(probes(start, cwd)[j + 1] == absolute);
        },
        None => {},
    }
}

/// The directories of a search are among those it can visit.
proof fn lemma_search_visits(fs: Snapshot, start: Seq<char>, dir: Seq<char>, i: int) -> (j: int)
    requires
        search_root(fs, start) == Some(dir),
        0 <= i < ancestors(dir).len(),
    ensures
        0 <= j < search_dirs(start).len(),
        search_dirs(start)[j] == ancestors(dir)[i],
{
    if fs.dir_at(start) {
        match path_parent(start) {
            Some(parent) => {
                if parent.len() < start.len() {
                    assert(ancestors(start) =~= seq![start] + ancestors(parent));
                    assert(search_dirs(start) =~= ancestors(start));
                    i
                } else {
                    0
                }
            },
            None => 0,
        }
    } else {
        assert(search_dirs(start)[i + 1] == ancestors(dir)[i]);
        i + 1
    }
}

/// Snapshots that agree on every path keep the same paths.
proof fn lemma_present_paths_agree(a: Snapshot, b: Snapshot, paths: Seq<Seq<char>>)
    requires
        forall|i: int|
            0 <= i < paths.len() ==> a.present(#[trigger] paths[i]) == b.present(paths[i]),
    ensures
        present_paths(a, paths) == present_paths(b, paths),
    decreases paths.len(),
{
    let in_a = |path: Seq<char>| a.present(path);
    let in_b = |path: Seq<char>| b.present(path);
    reveal(Seq::filter);
    if paths.len() > 0 {
        let front = paths.drop_last();
        assert forall|i: int| 0 <= i < front.len() implies a.present(#[trigger] front[i])
            == b.present(front[i]) by {
            assert(front[i] == paths[i]);
        }
        lemma_present_paths_agree(a, b, front);
        assert(a.present(paths[paths.len() - 1]) == b.present(paths[paths.len() - 1]));
        assert(paths.filter(in_a) == paths.filter(in_b));
    } else {
        assert(paths.filter(in_a) == paths.filter(in_b));
    }
}

/// Snapshots that agree on the probes of `start` find the same file of a
/// searched name, and read the same text from it.
pub proof fn lemma_probes_locate(a: Snapshot, b: Snapshot, start: Seq<char>, file_name: Seq<char>)
    requires
        agree_on(a, b, probes(start, option_text(a.cwd))),
        searched_name(file_name),
    ensures
        located(a, start, file_name) == located(b, start, file_name),
        located(a, start, file_name) matches Ok(Some(path)) ==> a.text_at(path) == b.text_at(path),
{
    let cwd = option_text(a.cwd);
    let all = probes(start, cwd);
    assert(all[0] == start);
    assert(all.contains(start));
    assert(same_at(a, b, start));
    if a.present(start) {
        match search_root(a, start) {
            Some(dir) => {
                let paths = files_in(ancestors(dir), file_name);
                assert forall|i: int| 0 <= i < paths.len() implies a.present(#[trigger] paths[i])
                    == b.present(paths[i]) by {
                    let j = lemma_search_visits(a, start, dir, i);
                    lemma_candidate_probed(start, cwd, j, file_name);
                    assert(same_at(a, b, paths[i]));
                }
                lemma_present_paths_agree(a, b, paths);
                let found = present_paths(a, paths);
                if found.len() > 0 {
                    let keep = |path: Seq<char>| a.present(path);
                    assert(found == paths.filter(keep));
                    paths.lemma_filter_pred(keep, 0);
                    assert(paths.filter(keep).contains(found[0]));
                    paths.lemma_filter_contains_rev(keep, found[0]);
                    let i = choose|i: int| 0 <= i < paths.len() && paths[i] == found[0];
                    let j = lemma_search_visits(a, start, dir, i);
                    lemma_candidate_probed(start, cwd, j, file_name);
                    match absolute_path(found[0], cwd) {
                        Some(absolute) => {
                            assert(same_at(a, b, absolute));
                        },
                        None => {},
                    }
                }
            },
            None => {},
        }
    }
}

/// The probes suffice: snapshots that agree on the probes of `start` give
/// the same edition and the same configuration for `start`.
pub proof fn lemma_probes_suffice(a: Snapshot, b: Snapshot, start: Seq<char>)
    requires
        agree_on(a, b, probes(start, option_text(a.cwd))),
    ensures
        edition_for(a, start) == edition_for(b, start),
        config_for(a, start) == config_for(b, start),
{
    lemma_probes_locate(a, b, start, "Cargo.toml"@);
    lemma_probes_locate(a, b, start, ".rustfmt.toml"@);
    lemma_probes_locate(a, b, start, "rustfmt.toml"@);
}

} // verus!
