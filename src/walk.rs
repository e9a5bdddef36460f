use vstd::prelude::*;

use crate::decision::{copy_needed, FileMeta};
use crate::pattern::{ignored_by, IgnoreSet};

verus! {

/// What the walk does with one entry of a source directory.
#[derive(Clone, Copy, Debug, PartialEq, Eq, Structural)]
pub enum EntryAction {
    /// Ignored: not copied, not descended into, not counted.
    Skip,
    /// A directory: mirrored into the destination directory of the same name.
    Descend,
    /// A file: counted, and put through the copy decision.
    SyncFile,
}

/// The action for the entry `name` of a source directory, a directory when
/// `is_dir` holds.
pub open spec fn entry_action(patterns: Seq<Seq<char>>, name: Seq<char>, is_dir: bool) -> EntryAction {
    if ignored_by(patterns, name) {
        EntryAction::Skip
    } else if is_dir {
        EntryAction::Descend
    } else {
        EntryAction::SyncFile
    }
}

/// The action for the entry `name` (its bare name, not its path).
pub fn plan_entry(ignore: &IgnoreSet, name: &str, is_dir: bool) -> (r: EntryAction)
    ensures
        r == entry_action(ignore@, name@, is_dir),
{
    if ignore.is_ignored(name) {
        EntryAction::Skip
    } else if is_dir {
        EntryAction::Descend
    } else {
        EntryAction::SyncFile
    }
}

/// The running totals of one walk: files visited and not ignored, and of
/// those the files that were actually copied.
#[derive(Clone, Copy, Debug, PartialEq, Eq, Structural)]
pub struct SyncCounters {
    pub total_files: u64,
    pub copied_files: u64,
}

impl SyncCounters {
    pub open spec fn wf(&self) -> bool {
        self.copied_files <= self.total_files
    }

    pub fn new() -> (r: SyncCounters)
        ensures
            r.total_files == 0,
            r.copied_files == 0,
            r.wf(),
    {
        SyncCounters { total_files: 0, copied_files: 0 }
    }

    /// Whether one more file can be recorded without overflow.
    pub fn has_room(&self) -> (r: bool)
        ensures
            r == (self.total_files < u64::MAX),
    {
        self.total_files < u64::MAX
    }

    /// Records one visited file, which the decision copied when `copied`.
    pub fn record_file(&mut self, copied: bool)
        requires
            old(self).wf(),
            old(self).total_files < u64::MAX,
        ensures
            final(self).wf(),
            final(self).total_files == old(self).total_files + 1,
            final(self).copied_files == old(self).copied_files + if copied {
                1int
            } else {
                0int
            },
    {
        self.total_files = self.total_files + 1;
        if copied {
            self.copied_files = self.copied_files + 1;
        }
    }
}

/// Whether the walk reaches the source entry at `path` (its names from just
/// below the source root) as a file: every name before the last is a
/// directory that it descends into, and the last is a file that it syncs.
pub open spec fn visits_file(patterns: Seq<Seq<char>>, path: Seq<Seq<char>>) -> bool
    decreases path.len(),
{
    if path.len() == 0 {
        false
    } else if path.len() == 1 {
        entry_action(patterns, path[0], false) == EntryAction::SyncFile
    } else {
        entry_action(patterns, path[0], true) == EntryAction::Descend && visits_file(
            patterns,
            path.drop_first(),
        )
    }
}

/// Whether the walk mirrors the source directory at `path` into the
/// destination, creating it there when missing.
pub open spec fn mirrors_dir(patterns: Seq<Seq<char>>, path: Seq<Seq<char>>) -> bool
    decreases path.len(),
{
    if path.len() == 0 {
        true
    } else {
        entry_action(patterns, path[0], true) == EntryAction::Descend && mirrors_dir(
            patterns,
            path.drop_first(),
        )
    }
}

/// A file or directory whose name, or the name of any directory above it,
/// matches an ignore pattern is neither mirrored nor visited, so it is never
/// created in the destination and never counted.
pub proof fn lemma_ignored_never_reached(patterns: Seq<Seq<char>>, path: Seq<Seq<char>>, k: int)
    requires
        0 <= k < path.len(),
        ignored_by(patterns, path[k]),
    ensures
        !visits_file(patterns, path),
        !mirrors_dir(patterns, path),
    decreases path.len(),
{
    if k > 0 {
        assert(path.drop_first()[k - 1] == path[k]);
        lemma_ignored_never_reached(patterns, path.drop_first(), k - 1);
    }
}

/// Nothing below an ignored directory reaches the destination, however deep
/// and whatever its own name.
pub proof fn lemma_ignored_dir_contents_absent(
    patterns: Seq<Seq<char>>,
    dir: Seq<Seq<char>>,
    below: Seq<Seq<char>>,
)
    requires
        dir.len() > 0,
        ignored_by(patterns, dir.last()),
    ensures
        !visits_file(patterns, dir + below),
        !mirrors_dir(patterns, dir + below),
{
    assert((dir + below)[dir.len() - 1] == dir.last());
    lemma_ignored_never_reached(patterns, dir + below, dir.len() - 1);
}

/// One visited file as the copy decision sees it: the source's metadata and
/// content, and the destination's, `None` when it does not exist.
pub type FilePair = ((FileMeta, Seq<u8>), Option<(FileMeta, Seq<u8>)>);

/// How many of the visited files a run copies.
pub open spec fn copies_in_run(files: Seq<FilePair>) -> nat
    decreases files.len(),
{
    if files.len() == 0 {
        0
    } else {
        copies_in_run(files.drop_last()) + if copy_needed(files.last().0, files.last().1) {
            1nat
        } else {
            0nat
        }
    }
}

/// A file pair after the run: a copy leaves the destination with the
/// source's content, length and modification time.
pub open spec fn after_run(file: FilePair) -> FilePair {
    if copy_needed(file.0, file.1) {
        (file.0, Some(file.0))
    } else {
        file
    }
}

/// Where a run copies a file, the destination afterwards holds the source's
/// bytes.
pub proof fn lemma_copy_mirrors_content(file: FilePair)
    requires
        copy_needed(file.0, file.1),
    ensures
        after_run(file).1 matches Some(d) && d.1 == file.0 .1,
{
}

/// A second run over an unchanged source copies nothing.
pub proof fn lemma_second_run_copies_nothing(files: Seq<FilePair>)
    ensures
        copies_in_run(files.map_values(|f: FilePair| after_run(f))) == 0,
    decreases files.len(),
{
    if files.len() > 0 {
        let next = files.map_values(|f: FilePair| after_run(f));
        assert(next.drop_last() == files.drop_last().map_values(|f: FilePair| after_run(f)));
        lemma_second_run_copies_nothing(files.drop_last());
    }
}

/// Into a destination that holds none of the visited files, a run copies
/// every one of them.
pub proof fn lemma_new_files_all_copied(files: Seq<FilePair>)
    requires
        forall|i: int| 0 <= i < files.len() ==> (#[trigger] files[i]).1 is None,
    ensures
        copies_in_run(files) == files.len(),
    decreases files.len(),
{
    if files.len() > 0 {
        let init = files.drop_last();
        assert forall|i: int| 0 <= i < init.len() implies (#[trigger] init[i]).1 is None by {
            assert(init[i] == files[i]);
        }
        lemma_new_files_all_copied(init);
    }
}

} // verus!
