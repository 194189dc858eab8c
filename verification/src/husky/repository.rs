//! The computations behind the git repository operations of husky.
use vstd::prelude::*;

verus! {

/// The directory of the hooks when the git configuration names none.
pub const DEFAULT_DIRECTORY: &'static str = ".husky";

/// The git configuration key that holds the hooks directory.
pub const GIT_CONFIG_HOOKS_PATH: &'static str = "core.hooksPath";

/// The hooks directory, relative to the repository root: the one that the git
/// configuration names, or `.husky`.
pub fn hooks_directory(configured: Option<String>) -> (res: String)
    ensures
        res@ == match configured {
            Some(dir) => dir@,
            None => ".husky"@,
        },
{
    match configured {
        Some(dir) => dir,
        None => String::from_str(DEFAULT_DIRECTORY),
    }
}

/// The bits of a git file status that record a change in the index: new,
/// modified, deleted, renamed or type-changed (the five lowest bits of
/// `git2::Status`).
pub const INDEX_CHANGE_BITS: u32 = 0x1f;

/// Whether a file with this git status is staged: the index holds a change of it.
pub fn is_staged_status(status_bits: u32) -> (res: bool)
    ensures
        res == (status_bits & 0x1fu32 != 0),
{
    status_bits & INDEX_CHANGE_BITS != 0
}

/// The paths of the staged files among git status entries (status bits, path), in order.
pub open spec fn staged_paths_of(entries: Seq<(u32, String)>) -> Seq<String>
    decreases entries.len(),
{
    if entries.len() == 0 {
        Seq::empty()
    } else {
        let rest = staged_paths_of(entries.drop_last());
        if entries.last().0 & 0x1fu32 != 0 {
            rest.push(entries.last().1)
        } else {
            rest
        }
    }
}

/// A git status entry records a change in the index (its status has one of
/// the five index bits).
pub open spec fn index_changed(entry: (u32, String)) -> bool {
    entry.0 & 0x1fu32 != 0
}

/// The path of a git status entry.
pub open spec fn entry_path(entry: (u32, String)) -> String {
    entry.1
}

/// The staged paths are the paths of the entries whose status has an index
/// change (new, modified, deleted, renamed or type-changed), in order: every
/// such entry's path is there, and nothing else.
pub proof fn lemma_staged_paths_are_index_changes(entries: Seq<(u32, String)>)
    ensures
        staged_paths_of(entries) == entries.filter(|e: (u32, String)| index_changed(e)).map_values(
            |e: (u32, String)| entry_path(e),
        ),
        forall|i: int|
            0 <= i < entries.len() && #[trigger] entries[i].0 & 0x1fu32 != 0 ==> staged_paths_of(
                entries,
            ).contains(entries[i].1),
        forall|k: int|
            0 <= k < staged_paths_of(entries).len() ==> exists|i: int|
                0 <= i < entries.len() && entries[i].0 & 0x1fu32 != 0 && entries[i].1
                    == #[trigger] staged_paths_of(entries)[k],
        staged_paths_of(entries).len() <= entries.len(),
    decreases entries.len(),
{
    reveal(Seq::filter);
    let p = |e: (u32, String)| index_changed(e);
    let f = |e: (u32, String)| entry_path(e);
    if entries.len() > 0 {
        let init = entries.drop_last();
        let last = entries.last();
        lemma_staged_paths_are_index_changes(init);
        let rest = staged_paths_of(init);
        let out = staged_paths_of(entries);
        if last.0 & 0x1fu32 != 0 {
            assert(init.filter(p).push(last).map_values(f) =~= init.filter(p).map_values(f).push(
                last.1,
            ));
        }
        assert forall|i: int|
            0 <= i < entries.len() && #[trigger] entries[i].0 & 0x1fu32 != 0 implies out.contains(
                entries[i].1,
            ) by {
            if i < entries.len() - 1 {
                assert(entries[i] == init[i]);
                assert(init[i].0 & 0x1fu32 != 0);
                let k = choose|k: int| 0 <= k < rest.len() && rest[k] == init[i].1;
                assert(out[k] == rest[k]);
            } else {
                assert(out[out.len() - 1] == last.1);
            }
        }
        assert forall|k: int| 0 <= k < out.len() implies exists|i: int|
            0 <= i < entries.len() && entries[i].0 & 0x1fu32 != 0 && entries[i].1
                == #[trigger] out[k] by {
            if k < rest.len() {
                assert(out[k] == rest[k]);
                let i = choose|i: int|
                    0 <= i < init.len() && init[i].0 & 0x1fu32 != 0 && init[i].1 == #[trigger] rest[k];
                assert(entries[i] == init[i]);
            } else {
                assert(entries[entries.len() - 1] == last);
            }
        }
    } else {
        assert(entries.filter(p).map_values(f) =~= Seq::<String>::empty());
    }
}

/// The paths of the staged files among git status entries, in order: the path
/// of every entry whose status has an index change, and nothing else.
#[verifier::spinoff_prover]
pub fn staged_paths(entries: &[(u32, String)]) -> (res: Vec<String>)
    ensures
        res@ == staged_paths_of(entries@),
        res@ == entries@.filter(|e: (u32, String)| index_changed(e)).map_values(
            |e: (u32, String)| entry_path(e),
        ),
        forall|i: int|
            0 <= i < entries@.len() && #[trigger] entries@[i].0 & 0x1fu32 != 0 ==> res@.contains(
                entries@[i].1,
            ),
        forall|k: int|
            #![trigger res@[k]]
            0 <= k < res@.len() ==> exists|i: int|
                #![trigger entries@[i]]
                0 <= i < entries@.len() && entries@[i].0 & 0x1fu32 != 0 && entries@[i].1 == res@[k],
{
    let mut paths: Vec<String> = Vec::new();
    let mut i: usize = 0;
    while i < entries.len()
        invariant
            0 <= i <= entries@.len(),
            paths@ == staged_paths_of(entries@.take(i as int)),
        decreases entries@.len() - i,
    {
        assert(entries@.take(i + 1).drop_last() =~= entries@.take(i as int));
        if is_staged_status(entries[i].0) {
            paths.push(entries[i].1.clone());
        }
        i = i + 1;
    }
    assert(entries@.take(entries@.len() as int) =~= entries@);
    proof {
        lemma_staged_paths_are_index_changes(entries@);
    }
    assert forall|k: int| #![trigger paths@[k]] 0 <= k < paths@.len() implies exists|i: int|
        #![trigger entries@[i]]
        0 <= i < entries@.len() && entries@[i].0 & 0x1fu32 != 0 && entries@[i].1 == paths@[k] by {
        let i = choose|i: int|
            0 <= i < entries@.len() && entries@[i].0 & 0x1fu32 != 0 && entries@[i].1
                == #[trigger] staged_paths_of(entries@)[k];
        assert(entries@[i].1 == paths@[k]);
    }
    paths
}

} // verus!
