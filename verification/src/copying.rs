//! Copying a directory tree.
//!
//! Directories and files are known by numbers that the caller gives out; the
//! numbers of the directories entered so far, outermost first, and that of a
//! file to leave out are all that a copy has to remember.

use vstd::prelude::*;

use crate::failure::{hinted_message, path_message, IoFailure, IoFailureData, PathFailure, PathFailureData};
use crate::platform::{access_denied_hint, Platform};

verus! {

/// What precedes a directory that could not be created.
pub const MAKE_DIR_FAILED: &'static str = "创建目录失败 (";

/// What precedes a directory that could not be opened.
pub const OPEN_DIR_FAILED: &'static str = "读取目录失败 (";

/// What precedes a directory whose next entry could not be read.
pub const ENTRY_FAILED: &'static str = "读取目录项失败 (";

/// What precedes a file that could not be copied.
pub const COPY_FAILED: &'static str = "复制文件失败 (";

/// The copy of a directory is to be created.
#[derive(Debug, PartialEq, Eq)]
pub struct MakeDir {
    pub outer: Vec<u64>,
    pub dir: u64,
    pub left_out: Option<u64>,
}

/// A directory is to be opened.
#[derive(Debug, PartialEq, Eq)]
pub struct OpenDir {
    pub outer: Vec<u64>,
    pub dir: u64,
    pub left_out: Option<u64>,
}

/// The next entry of an open directory is to be read.
#[derive(Debug, PartialEq, Eq)]
pub struct NextEntry {
    pub outer: Vec<u64>,
    pub dir: u64,
    pub left_out: Option<u64>,
}

/// A file in an open directory is to be copied.
#[derive(Debug, PartialEq, Eq)]
pub struct CopyFile {
    pub outer: Vec<u64>,
    pub dir: u64,
    pub file: u64,
    pub left_out: Option<u64>,
}

/// What to do next.
#[derive(Debug, PartialEq, Eq)]
pub enum CopyStep {
    MakeDir(MakeDir),
    OpenDir(OpenDir),
    NextEntry(NextEntry),
    CopyFile(CopyFile),
    /// The whole tree has been copied.
    Done,
    /// Something failed, and the copy stops there.
    Failed(String),
}

/// What reading the next entry of a directory gave.
#[derive(Debug, PartialEq, Eq)]
pub enum Listed {
    Dir(u64),
    File(u64),
    /// There are no more entries.
    End,
    /// The entry could not be read.
    Unreadable(PathFailure),
    /// Whether the entry is a directory could not be told.
    Untyped(String),
}

/// A file that could not be copied.
#[derive(Debug, PartialEq, Eq)]
pub struct CopyFailure {
    pub from: String,
    pub to: String,
    pub failure: IoFailure,
}

/// A [`CopyStep`] with its lists and texts as sequences.
#[verifier::ext_equal]
pub enum CopyData {
    MakeDir { outer: Seq<u64>, dir: u64, left_out: Option<u64> },
    OpenDir { outer: Seq<u64>, dir: u64, left_out: Option<u64> },
    NextEntry { outer: Seq<u64>, dir: u64, left_out: Option<u64> },
    CopyFile { outer: Seq<u64>, dir: u64, file: u64, left_out: Option<u64> },
    Done,
    Failed(Seq<char>),
}

/// A [`Listed`] with its texts as character sequences.
pub enum ListedData {
    Dir(u64),
    File(u64),
    End,
    Unreadable(PathFailureData),
    Untyped(Seq<char>),
}

/// A [`CopyFailure`] with its texts as character sequences.
pub struct CopyFailureData {
    pub from: Seq<char>,
    pub to: Seq<char>,
    pub failure: IoFailureData,
}

impl View for CopyStep {
    type V = CopyData;

    open spec fn view(&self) -> CopyData {
        match self {
            CopyStep::MakeDir(s) => CopyData::MakeDir {
                outer: s.outer@,
                dir: s.dir,
                left_out: s.left_out,
            },
            CopyStep::OpenDir(s) => CopyData::OpenDir {
                outer: s.outer@,
                dir: s.dir,
                left_out: s.left_out,
            },
            CopyStep::NextEntry(s) => CopyData::NextEntry {
                outer: s.outer@,
                dir: s.dir,
                left_out: s.left_out,
            },
            CopyStep::CopyFile(s) => CopyData::CopyFile {
                outer: s.outer@,
                dir: s.dir,
                file: s.file,
                left_out: s.left_out,
            },
            CopyStep::Done => CopyData::Done,
            CopyStep::Failed(message) => CopyData::Failed(message@),
        }
    }
}

impl View for Listed {
    type V = ListedData;

    open spec fn view(&self) -> ListedData {
        match self {
            Listed::Dir(id) => ListedData::Dir(*id),
            Listed::File(id) => ListedData::File(*id),
            Listed::End => ListedData::End,
            Listed::Unreadable(failed) => ListedData::Unreadable(failed@),
            Listed::Untyped(message) => ListedData::Untyped(message@),
        }
    }
}

impl View for CopyFailure {
    type V = CopyFailureData;

    open spec fn view(&self) -> CopyFailureData {
        CopyFailureData { from: self.from@, to: self.to@, failure: self.failure@ }
    }
}

/// The outcome of copying a file.
pub open spec fn copy_outcome(outcome: Result<(), CopyFailure>) -> Result<(), CopyFailureData> {
    match outcome {
        Ok(()) => Ok(()),
        Err(failed) => Err(failed@),
    }
}

/// Reports a file that could not be copied.
pub open spec fn copy_message(platform: Platform, failed: CopyFailureData) -> Seq<char> {
    COPY_FAILED@ + failed.from + " -> "@ + failed.to + "): "@ + failed.failure.text
        + crate::platform::hint(platform, failed.failure.code)
}

/// A directory is opened once its copy has been created.
pub open spec fn after_make_dir(
    platform: Platform,
    outer: Seq<u64>,
    dir: u64,
    left_out: Option<u64>,
    outcome: Result<(), PathFailureData>,
) -> CopyData {
    match outcome {
        Ok(()) => CopyData::OpenDir { outer, dir, left_out },
        Err(failed) => CopyData::Failed(
            crate::failure::about_path_hinted(platform, MAKE_DIR_FAILED@, failed),
        ),
    }
}

/// An open directory is read from.
pub open spec fn after_open_dir(
    outer: Seq<u64>,
    dir: u64,
    left_out: Option<u64>,
    outcome: Result<(), PathFailureData>,
) -> CopyData {
    match outcome {
        Ok(()) => CopyData::NextEntry { outer, dir, left_out },
        Err(failed) => CopyData::Failed(crate::failure::about_path(OPEN_DIR_FAILED@, failed)),
    }
}

/// A directory is entered, a file is copied unless it is to be left out, and
/// at the end of a directory the one around it is gone on with.
pub open spec fn after_next_entry(
    outer: Seq<u64>,
    dir: u64,
    left_out: Option<u64>,
    listed: ListedData,
) -> CopyData {
    match listed {
        ListedData::Dir(id) => CopyData::MakeDir { outer: outer.push(dir), dir: id, left_out },
        ListedData::File(id) => if left_out == Some(id) {
            CopyData::NextEntry { outer, dir, left_out }
        } else {
            CopyData::CopyFile { outer, dir, file: id, left_out }
        },
        ListedData::End => if outer.len() == 0 {
            CopyData::Done
        } else {
            CopyData::NextEntry { outer: outer.drop_last(), dir: outer.last(), left_out }
        },
        ListedData::Unreadable(failed) => CopyData::Failed(
            crate::failure::about_path(ENTRY_FAILED@, failed),
        ),
        ListedData::Untyped(message) => CopyData::Failed(message),
    }
}

/// After a file, the directory it stands in is gone on with.
pub open spec fn after_copy_file(
    platform: Platform,
    outer: Seq<u64>,
    dir: u64,
    left_out: Option<u64>,
    outcome: Result<(), CopyFailureData>,
) -> CopyData {
    match outcome {
        Ok(()) => CopyData::NextEntry { outer, dir, left_out },
        Err(failed) => CopyData::Failed(copy_message(platform, failed)),
    }
}

/// Reports a file that could not be copied.
pub fn copy_failure(platform: Platform, failed: &CopyFailure) -> (message: String)
    ensures
        message@ == copy_message(platform, failed@),
{
    let paths = COPY_FAILED.to_owned().concat(failed.from.as_str()).concat(" -> ").concat(
        failed.to.as_str(),
    ).concat("): ");
    paths.concat(failed.failure.text.as_str()).concat(
        access_denied_hint(platform, failed.failure.code),
    )
}

/// Starts to copy the tree below the directory `root`, all of it but the file
/// `left_out`, if there is to be one.
pub fn copy_dir_all(root: u64, left_out: Option<u64>) -> (step: CopyStep)
    ensures
        step@ == (CopyData::MakeDir { outer: Seq::empty(), dir: root, left_out }),
{
    CopyStep::MakeDir(MakeDir { outer: Vec::new(), dir: root, left_out })
}

impl MakeDir {
    /// The copy of the directory has been created, or not.
    pub fn made(self, platform: Platform, outcome: Result<(), PathFailure>) -> (step: CopyStep)
        ensures
            step@ == after_make_dir(
                platform,
                self.outer@,
                self.dir,
                self.left_out,
                crate::failure::path_outcome(outcome),
            ),
    {
        match outcome {
            Ok(()) => CopyStep::OpenDir(
                OpenDir { outer: self.outer, dir: self.dir, left_out: self.left_out },
            ),
            Err(failed) => CopyStep::Failed(hinted_message(platform, MAKE_DIR_FAILED, &failed)),
        }
    }
}

impl OpenDir {
    /// The directory has been opened, or not.
    pub fn opened(self, outcome: Result<(), PathFailure>) -> (step: CopyStep)
        ensures
            step@ == after_open_dir(
                self.outer@,
                self.dir,
                self.left_out,
                crate::failure::path_outcome(outcome),
            ),
    {
        match outcome {
            Ok(()) => CopyStep::NextEntry(
                NextEntry { outer: self.outer, dir: self.dir, left_out: self.left_out },
            ),
            Err(failed) => CopyStep::Failed(path_message(OPEN_DIR_FAILED, &failed)),
        }
    }
}

impl NextEntry {
    /// The next entry has been read, or there is none.
    pub fn listed(self, listed: Listed) -> (step: CopyStep)
        ensures
            step@ == after_next_entry(self.outer@, self.dir, self.left_out, listed@),
    {
        let mut outer = self.outer;
        let left_out = self.left_out;
        match listed {
            Listed::Dir(id) => {
                outer.push(self.dir);
                CopyStep::MakeDir(MakeDir { outer, dir: id, left_out })
            },
            Listed::File(id) => {
                let skipped: bool = match left_out {
                    Some(number) => number == id,
                    None => false,
                };
                if skipped {
                    CopyStep::NextEntry(NextEntry { outer, dir: self.dir, left_out })
                } else {
                    CopyStep::CopyFile(CopyFile { outer, dir: self.dir, file: id, left_out })
                }
            },
            Listed::End => match outer.pop() {
                Some(dir) => CopyStep::NextEntry(NextEntry { outer, dir, left_out }),
                None => CopyStep::Done,
            },
            Listed::Unreadable(failed) => CopyStep::Failed(path_message(ENTRY_FAILED, &failed)),
            Listed::Untyped(message) => CopyStep::Failed(message),
        }
    }
}

impl CopyFile {
    /// The file has been copied, or not.
    pub fn copied(self, platform: Platform, outcome: Result<(), CopyFailure>) -> (step: CopyStep)
        ensures
            step@ == after_copy_file(
                platform,
                self.outer@,
                self.dir,
                self.left_out,
                copy_outcome(outcome),
            ),
    {
        match outcome {
            Ok(()) => CopyStep::NextEntry(
                NextEntry { outer: self.outer, dir: self.dir, left_out: self.left_out },
            ),
            Err(failed) => CopyStep::Failed(copy_failure(platform, &failed)),
        }
    }
}

/// What stands on the disk: a file, or a directory with its entries.
pub enum Tree {
    File(u64),
    Dir(u64, Seq<Tree>),
}

/// What a copy does to the disk. A path is made of the numbers of the
/// directories from the root on, and of the entry's own.
pub enum CopyAct {
    Make(Seq<u64>),
    Copy(Seq<u64>),
}

/// What copying a tree inside the directory `outer` comes to: a directory is
/// created before what is in it is copied into it.
pub open spec fn tree_acts(left_out: Option<u64>, outer: Seq<u64>, tree: Tree) -> Seq<CopyAct>
    decreases tree,
{
    match tree {
        Tree::File(id) => if left_out == Some(id) {
            Seq::empty()
        } else {
            seq![CopyAct::Copy(outer.push(id))]
        },
        Tree::Dir(id, entries) => seq![CopyAct::Make(outer.push(id))] + entries_acts(
            left_out,
            outer.push(id),
            entries,
        ),
    }
}

/// What copying the entries of the directory `outer` comes to, one after the other.
pub open spec fn entries_acts(
    left_out: Option<u64>,
    outer: Seq<u64>,
    entries: Seq<Tree>,
) -> Seq<CopyAct>
    decreases entries,
{
    if entries.len() == 0 {
        Seq::empty()
    } else {
        tree_acts(left_out, outer, entries[0]) + entries_acts(
            left_out,
            outer,
            entries.drop_first(),
        )
    }
}

/// A copy in a world where nothing fails: the step it is at, the entries not
/// yet read of each directory it is in, outermost first, and what it has done.
#[verifier::ext_equal]
pub struct CopyRun {
    pub step: CopyData,
    pub unread: Seq<Seq<Tree>>,
    pub acts: Seq<CopyAct>,
}

/// The run one step on.
pub open spec fn advance(platform: Platform, run: CopyRun) -> CopyRun {
    match run.step {
        CopyData::MakeDir { outer, dir, left_out } => CopyRun {
            step: after_make_dir(platform, outer, dir, left_out, Ok(())),
            acts: run.acts.push(CopyAct::Make(outer.push(dir))),
            ..run
        },
        CopyData::OpenDir { outer, dir, left_out } => CopyRun {
            step: after_open_dir(outer, dir, left_out, Ok(())),
            ..run
        },
        CopyData::NextEntry { outer, dir, left_out } => {
            let entries = run.unread.last();
            if entries.len() == 0 {
                CopyRun {
                    step: after_next_entry(outer, dir, left_out, ListedData::End),
                    unread: run.unread.drop_last(),
                    ..run
                }
            } else {
                let unread = run.unread.drop_last().push(entries.drop_first());
                match entries[0] {
                    Tree::File(id) => CopyRun {
                        step: after_next_entry(outer, dir, left_out, ListedData::File(id)),
                        unread,
                        ..run
                    },
                    Tree::Dir(id, inner) => CopyRun {
                        step: after_next_entry(outer, dir, left_out, ListedData::Dir(id)),
                        unread: unread.push(inner),
                        ..run
                    },
                }
            }
        },
        CopyData::CopyFile { outer, dir, file, left_out } => CopyRun {
            step: after_copy_file(platform, outer, dir, left_out, Ok(())),
            acts: run.acts.push(CopyAct::Copy(outer.push(dir).push(file))),
            ..run
        },
        CopyData::Done => run,
        CopyData::Failed(_) => run,
    }
}

/// The run `steps` steps on.
pub open spec fn advance_by(platform: Platform, run: CopyRun, steps: nat) -> CopyRun
    decreases steps,
{
    if steps == 0 {
        run
    } else {
        advance_by(platform, advance(platform, run), (steps - 1) as nat)
    }
}

/// How many steps the copy of a tree takes.
pub open spec fn tree_steps(left_out: Option<u64>, tree: Tree) -> nat
    decreases tree,
{
    match tree {
        Tree::File(id) => if left_out == Some(id) {
            1
        } else {
            2
        },
        Tree::Dir(_, entries) => 3 + entries_steps(left_out, entries) + 1,
    }
}

/// How many steps the copies of the entries of a directory take.
pub open spec fn entries_steps(left_out: Option<u64>, entries: Seq<Tree>) -> nat
    decreases entries,
{
    if entries.len() == 0 {
        0
    } else {
        tree_steps(left_out, entries[0]) + entries_steps(left_out, entries.drop_first())
    }
}

proof fn lemma_advance_by_sum(platform: Platform, run: CopyRun, a: nat, b: nat)
    ensures
        advance_by(platform, run, a + b) == advance_by(platform, advance_by(platform, run, a), b),
    decreases a,
{
    if a > 0 {
        lemma_advance_by_sum(platform, advance(platform, run), (a - 1) as nat, b);
    }
}

/// The path of the directory that a run reads from.
spec fn path_of(run: CopyRun) -> Seq<u64> {
    run.step->NextEntry_outer.push(run.step->NextEntry_dir)
}

/// Where a run stands that has read and copied all entries of its innermost directory.
spec fn entries_copied(run: CopyRun) -> CopyRun {
    CopyRun {
        step: run.step,
        unread: run.unread.drop_last().push(Seq::empty()),
        acts: run.acts + entries_acts(
            run.step->NextEntry_left_out,
            path_of(run),
            run.unread.last(),
        ),
    }
}

/// Where a run stands that has read and copied the next entry of its innermost directory.
spec fn entry_copied(run: CopyRun) -> CopyRun {
    CopyRun {
        step: run.step,
        unread: run.unread.drop_last().push(run.unread.last().drop_first()),
        acts: run.acts + tree_acts(
            run.step->NextEntry_left_out,
            path_of(run),
            run.unread.last()[0],
        ),
    }
}

proof fn lemma_entry(platform: Platform, run: CopyRun)
    requires
        run.step is NextEntry,
        run.unread.len() > 0,
        run.unread.last().len() > 0,
    ensures
        advance_by(
            platform,
            run,
            tree_steps(run.step->NextEntry_left_out, run.unread.last()[0]),
        ) == entry_copied(run),
    decreases run.unread.last()[0],
{
    let tree = run.unread.last()[0];
    let outer = run.step->NextEntry_outer;
    let dir = run.step->NextEntry_dir;
    let left_out = run.step->NextEntry_left_out;
    reveal_with_fuel(advance_by, 4);
    match tree {
        Tree::File(id) => {
            if left_out == Some(id) {
                assert(run.acts + tree_acts(left_out, path_of(run), tree) =~= run.acts);
                assert(advance_by(platform, run, 1) == entry_copied(run));
            } else {
                assert(run.acts.push(CopyAct::Copy(outer.push(dir).push(id))) =~= run.acts
                    + tree_acts(left_out, path_of(run), tree));
                assert(advance_by(platform, run, 2) == entry_copied(run));
            }
        },
        Tree::Dir(id, inner) => {
            let entered = advance_by(platform, run, 3);
            let unread = run.unread.drop_last().push(run.unread.last().drop_first());
            let steps = entries_steps(left_out, inner);
            assert(entered.step == CopyData::NextEntry {
                outer: outer.push(dir),
                dir: id,
                left_out,
            });
            assert(entered.unread == unread.push(inner));
            assert(entered.acts == run.acts.push(CopyAct::Make(outer.push(dir).push(id))));
            lemma_entries(platform, entered);
            let emptied = advance_by(platform, entered, steps);
            assert(emptied == entries_copied(entered));
            assert(emptied.unread =~= unread.push(Seq::empty()));
            lemma_advance_by_sum(platform, run, 3, steps);
            lemma_advance_by_sum(platform, run, 3 + steps, 1);
            let left = advance(platform, emptied);
            assert(advance_by(platform, emptied, 1) == left);
            assert(outer.push(dir).drop_last() =~= outer);
            assert(left.unread =~= unread);
            assert(left.acts =~= run.acts + tree_acts(left_out, path_of(run), tree));
            assert(left == entry_copied(run));
        },
    }
}

proof fn lemma_entries(platform: Platform, run: CopyRun)
    requires
        run.step is NextEntry,
        run.unread.len() > 0,
    ensures
        advance_by(
            platform,
            run,
            entries_steps(run.step->NextEntry_left_out, run.unread.last()),
        ) == entries_copied(run),
    decreases run.unread.last(),
{
    let entries = run.unread.last();
    let left_out = run.step->NextEntry_left_out;
    if entries.len() == 0 {
        assert(entries =~= Seq::<Tree>::empty());
        assert(run.unread.drop_last().push(Seq::empty()) =~= run.unread);
        assert(entries_copied(run) =~= run);
    } else {
        lemma_entry(platform, run);
        let next = entry_copied(run);
        assert(next.unread.last() == entries.drop_first());
        lemma_entries(platform, next);
        lemma_advance_by_sum(
            platform,
            run,
            tree_steps(left_out, entries[0]),
            entries_steps(left_out, entries.drop_first()),
        );
        assert(entries_copied(next) =~= entries_copied(run));
    }
}

/// The run of a copy of the directory `root` with the given entries, at its start.
pub open spec fn copy_start(root: u64, left_out: Option<u64>, entries: Seq<Tree>) -> CopyRun {
    CopyRun {
        step: CopyData::MakeDir { outer: Seq::empty(), dir: root, left_out },
        unread: seq![entries],
        acts: Seq::empty(),
    }
}

/// Where nothing fails, a copy comes to its end. By then it has created every
/// directory and copied every file of the tree but the one to leave out, each
/// once, at its own path, in the order in which they are read, and each
/// directory before what is in it.
pub proof fn law_copy_covers_the_tree(
    platform: Platform,
    root: u64,
    left_out: Option<u64>,
    entries: Seq<Tree>,
)
    ensures
        ({
            let tree = Tree::Dir(root, entries);
            let end = advance_by(
                platform,
                copy_start(root, left_out, entries),
                tree_steps(left_out, tree),
            );
            end.step is Done && end.acts == tree_acts(left_out, Seq::empty(), tree)
        }),
{
    let start = copy_start(root, left_out, entries);
    let steps = entries_steps(left_out, entries);
    reveal_with_fuel(advance_by, 4);
    let opened = advance_by(platform, start, 2);
    assert(opened.step == CopyData::NextEntry { outer: Seq::empty(), dir: root, left_out });
    assert(opened.acts =~= seq![CopyAct::Make(Seq::empty().push(root))]);
    lemma_entries(platform, opened);
    lemma_advance_by_sum(platform, start, 2, steps);
    let emptied = advance_by(platform, start, 2 + steps);
    lemma_advance_by_sum(platform, start, 2 + steps, 2);
    assert(emptied.acts =~= tree_acts(left_out, Seq::empty(), Tree::Dir(root, entries)));
    assert(advance(platform, emptied).step is Done);
}

/// A run only adds to what it has done.
proof fn lemma_acts_grow(platform: Platform, run: CopyRun, steps: nat)
    ensures
        run.acts.is_prefix_of(advance_by(platform, run, steps).acts),
    decreases steps,
{
    if steps > 0 {
        lemma_acts_grow(platform, advance(platform, run), (steps - 1) as nat);
    }
}

/// A copy that stops early, after whatever number of steps, has done the
/// first part of what a whole copy does, in the same order, and nothing else.
pub proof fn law_stopped_copy_is_a_first_part(
    platform: Platform,
    root: u64,
    left_out: Option<u64>,
    entries: Seq<Tree>,
    steps: nat,
)
    requires
        steps <= tree_steps(left_out, Tree::Dir(root, entries)),
    ensures
        advance_by(platform, copy_start(root, left_out, entries), steps).acts.is_prefix_of(
            tree_acts(left_out, Seq::empty(), Tree::Dir(root, entries)),
        ),
{
    let start = copy_start(root, left_out, entries);
    let left = (tree_steps(left_out, Tree::Dir(root, entries)) - steps) as nat;
    law_copy_covers_the_tree(platform, root, left_out, entries);
    lemma_advance_by_sum(platform, start, steps, left);
    lemma_acts_grow(platform, advance_by(platform, start, steps), left);
}

/// Whether no act copies the file `left_out`.
pub open spec fn spares(acts: Seq<CopyAct>, left_out: Option<u64>) -> bool {
    forall|i: int|
        0 <= i < acts.len() ==> ((#[trigger] acts[i]) matches CopyAct::Copy(path) ==> path.len() > 0
            && left_out != Some(path.last()))
}

proof fn lemma_tree_spares(left_out: Option<u64>, outer: Seq<u64>, tree: Tree)
    ensures
        spares(tree_acts(left_out, outer, tree), left_out),
    decreases tree,
{
    match tree {
        Tree::File(_) => {},
        Tree::Dir(id, entries) => {
            lemma_entries_spare(left_out, outer.push(id), entries);
        },
    }
}

proof fn lemma_entries_spare(left_out: Option<u64>, outer: Seq<u64>, entries: Seq<Tree>)
    ensures
        spares(entries_acts(left_out, outer, entries), left_out),
    decreases entries,
{
    if entries.len() > 0 {
        lemma_tree_spares(left_out, outer, entries[0]);
        lemma_entries_spare(left_out, outer, entries.drop_first());
    }
}

/// A copy, whole or stopped early, does not touch the file that it is to leave out.
pub proof fn law_left_out_file_is_not_copied(
    platform: Platform,
    root: u64,
    left_out: Option<u64>,
    entries: Seq<Tree>,
    steps: nat,
)
    requires
        steps <= tree_steps(left_out, Tree::Dir(root, entries)),
    ensures
        spares(
            advance_by(platform, copy_start(root, left_out, entries), steps).acts,
            left_out,
        ),
{
    law_stopped_copy_is_a_first_part(platform, root, left_out, entries, steps);
    lemma_tree_spares(left_out, Seq::empty(), Tree::Dir(root, entries));
    let acts = advance_by(platform, copy_start(root, left_out, entries), steps).acts;
    let all = tree_acts(left_out, Seq::empty(), Tree::Dir(root, entries));
    assert forall|i: int| 0 <= i < acts.len() implies ((#[trigger] acts[i]) matches CopyAct::Copy(
        path,
    ) ==> path.len() > 0 && left_out != Some(path.last())) by {
        assert(acts[i] == all[i]);
    }
}

/// What stands at a path of the disk.
pub enum Node {
    Dir,
    File(Seq<u8>),
}

/// The path of the entry `path` of a tree whose root stands at `base`.
pub open spec fn place_in(base: Seq<u64>, path: Seq<u64>) -> Seq<u64> {
    base + path.drop_first()
}

/// The disk once the directory `path` and those around it have been created;
/// what was there stays as it was.
pub open spec fn with_dirs(disk: Map<Seq<u64>, Node>, path: Seq<u64>) -> Map<Seq<u64>, Node> {
    Map::new(
        |p: Seq<u64>| disk.contains_key(p) || p.is_prefix_of(path),
        |p: Seq<u64>|
            if disk.contains_key(p) {
                disk[p]
            } else {
                Node::Dir
            },
    )
}

/// The disk after one act of a copy of the tree at `src` to `dst`.
pub open spec fn after_act(
    disk: Map<Seq<u64>, Node>,
    src: Seq<u64>,
    dst: Seq<u64>,
    act: CopyAct,
) -> Map<Seq<u64>, Node> {
    match act {
        CopyAct::Make(path) => with_dirs(disk, place_in(dst, path)),
        CopyAct::Copy(path) => disk.insert(place_in(dst, path), disk[place_in(src, path)]),
    }
}

/// The disk after the acts of a copy of the tree at `src` to `dst`.
pub open spec fn after_acts(
    disk: Map<Seq<u64>, Node>,
    src: Seq<u64>,
    dst: Seq<u64>,
    acts: Seq<CopyAct>,
) -> Map<Seq<u64>, Node>
    decreases acts.len(),
{
    if acts.len() == 0 {
        disk
    } else {
        after_act(after_acts(disk, src, dst, acts.drop_last()), src, dst, acts.last())
    }
}

/// Whether neither of two directories stands inside the other.
pub open spec fn apart(src: Seq<u64>, dst: Seq<u64>) -> bool {
    !src.is_prefix_of(dst) && !dst.is_prefix_of(src)
}

/// Whether one of the acts copies a file to `path`.
pub open spec fn overwritten(dst: Seq<u64>, acts: Seq<CopyAct>, path: Seq<u64>) -> bool {
    exists|i: int|
        0 <= i < acts.len() && (#[trigger] acts[i]) is Copy && place_in(dst, acts[i]->Copy_0)
            == path
}

/// Whether one of the acts creates a directory at `path` or below it.
pub open spec fn made(dst: Seq<u64>, acts: Seq<CopyAct>, path: Seq<u64>) -> bool {
    exists|i: int|
        0 <= i < acts.len() && (#[trigger] acts[i]) is Make && path.is_prefix_of(
            place_in(dst, acts[i]->Make_0),
        )
}

/// Whether the disk has every file that the acts copy.
pub open spec fn has_sources(
    disk: Map<Seq<u64>, Node>,
    src: Seq<u64>,
    acts: Seq<CopyAct>,
) -> bool {
    forall|i: int|
        0 <= i < acts.len() ==> ((#[trigger] acts[i]) matches CopyAct::Copy(path)
            ==> disk.contains_key(place_in(src, path)))
}

/// Of two directories apart, nothing stands in both.
pub proof fn lemma_apart(src: Seq<u64>, dst: Seq<u64>, path: Seq<u64>, inner: Seq<u64>)
    requires
        apart(src, dst),
        src.is_prefix_of(path),
    ensures
        !path.is_prefix_of(dst + inner),
        path != dst + inner,
{
    if path.is_prefix_of(dst + inner) || path == dst + inner {
        let whole = dst + inner;
        assert(whole.subrange(0, path.len() as int) =~= path);
        assert(src =~= path.subrange(0, src.len() as int));
        assert(src =~= whole.subrange(0, src.len() as int));
        if src.len() <= dst.len() {
            assert(src =~= dst.subrange(0, src.len() as int));
        } else {
            assert(dst =~= src.subrange(0, dst.len() as int));
        }
    }
}

/// Whatever is below `src` stays as it is.
proof fn lemma_source_stays(
    disk: Map<Seq<u64>, Node>,
    src: Seq<u64>,
    dst: Seq<u64>,
    acts: Seq<CopyAct>,
    path: Seq<u64>,
)
    requires
        apart(src, dst),
        src.is_prefix_of(path),
    ensures
        after_acts(disk, src, dst, acts).contains_key(path) == disk.contains_key(path),
        disk.contains_key(path) ==> after_acts(disk, src, dst, acts)[path] == disk[path],
    decreases acts.len(),
{
    if acts.len() > 0 {
        lemma_source_stays(disk, src, dst, acts.drop_last(), path);
        match acts.last() {
            CopyAct::Make(made) => lemma_apart(src, dst, path, made.drop_first()),
            CopyAct::Copy(copied) => lemma_apart(src, dst, path, copied.drop_first()),
        }
    }
}

/// A copy merges, whole or stopped early. What it copies from is unchanged.
/// Whatever was on the disk stays there as it was, but for files that are
/// overwritten, by the files at the same path of the tree. Every directory
/// that is created is there afterwards. Whatever is new is a copied file, or a
/// directory that was created or stands around one.
pub proof fn law_copy_merges(
    disk: Map<Seq<u64>, Node>,
    src: Seq<u64>,
    dst: Seq<u64>,
    acts: Seq<CopyAct>,
)
    requires
        apart(src, dst),
        has_sources(disk, src, acts),
    ensures
        forall|path: Seq<u64>|
            src.is_prefix_of(path) ==> #[trigger] after_acts(disk, src, dst, acts).contains_key(path)
                == disk.contains_key(path),
        forall|path: Seq<u64>|
            src.is_prefix_of(path) && disk.contains_key(path) ==> #[trigger] after_acts(
                disk,
                src,
                dst,
                acts,
            )[path] == disk[path],
        forall|path: Seq<u64>| #[trigger]
            disk.contains_key(path) && !overwritten(dst, acts, path) ==> after_acts(
                disk,
                src,
                dst,
                acts,
            ).contains_key(path) && after_acts(disk, src, dst, acts)[path] == disk[path],
        forall|i: int|
            0 <= i < acts.len() ==> ((#[trigger] acts[i]) matches CopyAct::Copy(path)
                ==> after_acts(disk, src, dst, acts).contains_key(place_in(dst, path))
                && after_acts(disk, src, dst, acts)[place_in(dst, path)] == disk[place_in(
                src,
                path,
            )]),
        forall|i: int|
            0 <= i < acts.len() ==> ((#[trigger] acts[i]) matches CopyAct::Make(path)
                ==> after_acts(disk, src, dst, acts).contains_key(place_in(dst, path))),
        forall|path: Seq<u64>| #[trigger]
            after_acts(disk, src, dst, acts).contains_key(path) && !disk.contains_key(path)
                ==> overwritten(dst, acts, path) || (made(dst, acts, path) && after_acts(
                disk,
                src,
                dst,
                acts,
            )[path] == Node::Dir),
{
    let after = after_acts(disk, src, dst, acts);
    assert forall|path: Seq<u64>| src.is_prefix_of(path) implies #[trigger] after.contains_key(path)
        == disk.contains_key(path) by {
        lemma_source_stays(disk, src, dst, acts, path);
    }
    assert forall|path: Seq<u64>|
        src.is_prefix_of(path) && disk.contains_key(path) implies #[trigger] after[path]
        == disk[path] by {
        lemma_source_stays(disk, src, dst, acts, path);
    }
    assert forall|path: Seq<u64>| #[trigger]
        disk.contains_key(path) && !overwritten(dst, acts, path) implies after.contains_key(path)
        && after[path] == disk[path] by {
        lemma_others_stay(disk, src, dst, acts, path);
    }
    lemma_acts_settle(disk, src, dst, acts);
    assert forall|i: int| 0 <= i < acts.len() implies ((#[trigger] acts[i]) matches CopyAct::Copy(
        path,
    ) ==> after.contains_key(place_in(dst, path)) && after[place_in(dst, path)] == disk[place_in(
        src,
        path,
    )]) by {
        assert(settled(after, src, dst, acts[i]));
        if acts[i] is Copy {
            let path = acts[i]->Copy_0;
            lemma_below(src, path);
            lemma_source_stays(disk, src, dst, acts, place_in(src, path));
        }
    }
    assert forall|i: int| 0 <= i < acts.len() implies ((#[trigger] acts[i]) matches CopyAct::Make(
        path,
    ) ==> after.contains_key(place_in(dst, path))) by {
        assert(settled(after, src, dst, acts[i]));
        if acts[i] is Make {
            let path = place_in(dst, acts[i]->Make_0);
            assert(path.subrange(0, path.len() as int) =~= path);
            assert(path.is_prefix_of(path));
        }
    }
    assert forall|path: Seq<u64>| #[trigger]
        after.contains_key(path) && !disk.contains_key(path) implies overwritten(dst, acts, path)
        || (made(dst, acts, path) && after[path] == Node::Dir) by {
        lemma_new_paths(disk, src, dst, acts, path);
    }
}

/// What is new on the disk.
proof fn lemma_new_paths(
    disk: Map<Seq<u64>, Node>,
    src: Seq<u64>,
    dst: Seq<u64>,
    acts: Seq<CopyAct>,
    path: Seq<u64>,
)
    requires
        after_acts(disk, src, dst, acts).contains_key(path),
        !disk.contains_key(path),
    ensures
        overwritten(dst, acts, path) || (made(dst, acts, path) && after_acts(
            disk,
            src,
            dst,
            acts,
        )[path] == Node::Dir),
    decreases acts.len(),
{
    if acts.len() > 0 {
        let rest = acts.drop_last();
        let last = acts[acts.len() - 1];
        assert(last == acts.last());
        if after_acts(disk, src, dst, rest).contains_key(path) {
            lemma_new_paths(disk, src, dst, rest, path);
            if overwritten(dst, rest, path) {
                let i = choose|i: int|
                    0 <= i < rest.len() && (#[trigger] rest[i]) is Copy && place_in(
                        dst,
                        rest[i]->Copy_0,
                    ) == path;
                assert(acts[i] == rest[i]);
            } else {
                let i = choose|i: int|
                    0 <= i < rest.len() && (#[trigger] rest[i]) is Make && path.is_prefix_of(
                        place_in(dst, rest[i]->Make_0),
                    );
                assert(acts[i] == rest[i]);
                if last is Copy && place_in(dst, last->Copy_0) == path {
                    assert(overwritten(dst, acts, path));
                }
            }
        }
    }
}

/// What stands in a tree stands below its root.
proof fn lemma_below(base: Seq<u64>, path: Seq<u64>)
    ensures
        base.is_prefix_of(place_in(base, path)),
{
    assert(place_in(base, path).subrange(0, base.len() as int) =~= base);
}

proof fn lemma_others_stay(
    disk: Map<Seq<u64>, Node>,
    src: Seq<u64>,
    dst: Seq<u64>,
    acts: Seq<CopyAct>,
    path: Seq<u64>,
)
    requires
        disk.contains_key(path),
        !overwritten(dst, acts, path),
    ensures
        after_acts(disk, src, dst, acts).contains_key(path),
        after_acts(disk, src, dst, acts)[path] == disk[path],
    decreases acts.len(),
{
    if acts.len() > 0 {
        let rest = acts.drop_last();
        if overwritten(dst, rest, path) {
            let i = choose|i: int|
                0 <= i < rest.len() && (#[trigger] rest[i]) is Copy && place_in(
                    dst,
                    rest[i]->Copy_0,
                ) == path;
            assert(acts[i] == rest[i]);
        }
        lemma_others_stay(disk, src, dst, rest, path);
        assert(acts[acts.len() - 1] == acts.last());
    }
}

/// Whether an act would change nothing.
spec fn settled(
    disk: Map<Seq<u64>, Node>,
    src: Seq<u64>,
    dst: Seq<u64>,
    act: CopyAct,
) -> bool {
    match act {
        CopyAct::Make(path) => forall|p: Seq<u64>| #[trigger]
            p.is_prefix_of(place_in(dst, path)) ==> disk.contains_key(p),
        CopyAct::Copy(path) => {
            &&& disk.contains_key(place_in(dst, path))
            &&& disk.contains_key(place_in(src, path))
            &&& disk[place_in(dst, path)] == disk[place_in(src, path)]
        },
    }
}

/// What one act has settled, another one does not unsettle.
proof fn lemma_stays_settled(
    disk: Map<Seq<u64>, Node>,
    src: Seq<u64>,
    dst: Seq<u64>,
    act: CopyAct,
    other: CopyAct,
)
    requires
        apart(src, dst),
        settled(disk, src, dst, act),
    ensures
        settled(after_act(disk, src, dst, other), src, dst, act),
{
    if act is Copy && other is Copy {
        let path = act->Copy_0;
        let copied = other->Copy_0;
        lemma_below(src, path);
        lemma_apart(src, dst, place_in(src, path), copied.drop_first());
        if place_in(dst, path) == place_in(dst, copied) {
            assert(path.drop_first() =~= place_in(dst, path).skip(dst.len() as int));
            assert(copied.drop_first() =~= place_in(dst, copied).skip(dst.len() as int));
        }
    }
}

/// The acts of a copy leave all of them settled.
proof fn lemma_acts_settle(
    disk: Map<Seq<u64>, Node>,
    src: Seq<u64>,
    dst: Seq<u64>,
    acts: Seq<CopyAct>,
)
    requires
        apart(src, dst),
        has_sources(disk, src, acts),
    ensures
        forall|i: int|
            0 <= i < acts.len() ==> settled(
                after_acts(disk, src, dst, acts),
                src,
                dst,
                #[trigger] acts[i],
            ),
    decreases acts.len(),
{
    if acts.len() > 0 {
        let rest = acts.drop_last();
        let last = acts.last();
        let before = after_acts(disk, src, dst, rest);
        assert forall|i: int| 0 <= i < rest.len() implies ((#[trigger] rest[i]) matches CopyAct::Copy(
            path,
        ) ==> disk.contains_key(place_in(src, path))) by {
            assert(rest[i] == acts[i]);
        }
        lemma_acts_settle(disk, src, dst, rest);
        assert forall|i: int| 0 <= i < acts.len() implies settled(
            after_act(before, src, dst, last),
            src,
            dst,
            #[trigger] acts[i],
        ) by {
            if i < rest.len() {
                assert(acts[i] == rest[i]);
                lemma_stays_settled(before, src, dst, acts[i], last);
            } else {
                assert(acts[i] == last);
                if last is Copy {
                    let path = last->Copy_0;
                    lemma_below(src, path);
                    lemma_source_stays(disk, src, dst, rest, place_in(src, path));
                    lemma_apart(src, dst, place_in(src, path), path.drop_first());
                }
            }
        }
    }
}

/// Acts that are settled change nothing.
proof fn lemma_settled_acts(
    disk: Map<Seq<u64>, Node>,
    src: Seq<u64>,
    dst: Seq<u64>,
    acts: Seq<CopyAct>,
)
    requires
        forall|i: int| 0 <= i < acts.len() ==> settled(disk, src, dst, #[trigger] acts[i]),
    ensures
        after_acts(disk, src, dst, acts) == disk,
    decreases acts.len(),
{
    if acts.len() > 0 {
        let rest = acts.drop_last();
        assert forall|i: int| 0 <= i < rest.len() implies settled(
            disk,
            src,
            dst,
            #[trigger] rest[i],
        ) by {
            assert(rest[i] == acts[i]);
        }
        lemma_settled_acts(disk, src, dst, rest);
        assert(settled(disk, src, dst, acts[acts.len() - 1]));
        assert(after_act(disk, src, dst, acts.last()) =~= disk);
    }
}

/// A second copy of the same tree changes nothing.
pub proof fn law_second_copy_changes_nothing(
    disk: Map<Seq<u64>, Node>,
    src: Seq<u64>,
    dst: Seq<u64>,
    acts: Seq<CopyAct>,
)
    requires
        apart(src, dst),
        has_sources(disk, src, acts),
    ensures
        after_acts(after_acts(disk, src, dst, acts), src, dst, acts) == after_acts(
            disk,
            src,
            dst,
            acts,
        ),
{
    lemma_acts_settle(disk, src, dst, acts);
    lemma_settled_acts(after_acts(disk, src, dst, acts), src, dst, acts);
}

/// A step of a copy is its place in the tree.
pub proof fn law_copy_step_data(step: CopyStep)
    ensures
        match step {
            CopyStep::MakeDir(s) => step@ == (CopyData::MakeDir {
                outer: s.outer@,
                dir: s.dir,
                left_out: s.left_out,
            }),
            CopyStep::OpenDir(s) => step@ == (CopyData::OpenDir {
                outer: s.outer@,
                dir: s.dir,
                left_out: s.left_out,
            }),
            CopyStep::NextEntry(s) => step@ == (CopyData::NextEntry {
                outer: s.outer@,
                dir: s.dir,
                left_out: s.left_out,
            }),
            CopyStep::CopyFile(s) => step@ == (CopyData::CopyFile {
                outer: s.outer@,
                dir: s.dir,
                file: s.file,
                left_out: s.left_out,
            }),
            CopyStep::Done => step@ is Done,
            CopyStep::Failed(message) => step@ == CopyData::Failed(message@),
        },
{
}

/// What was read of a directory, and what became of a file, is handed on as it is.
pub proof fn law_copy_replies(
    number: u64,
    path: String,
    from: String,
    to: String,
    text: String,
    code: Option<i32>,
)
    ensures
        Listed::Dir(number)@ == ListedData::Dir(number),
        Listed::File(number)@ == ListedData::File(number),
        Listed::End@ is End,
        Listed::Untyped(text)@ == ListedData::Untyped(text@),
        (Listed::Unreadable(PathFailure { path, failure: IoFailure { text, code } }))@
            == ListedData::Unreadable(
            (PathFailureData { path: path@, failure: IoFailureData { text: text@, code } }),
        ),
        copy_outcome(Ok(())) == Ok::<(), CopyFailureData>(()),
        copy_outcome(Err(CopyFailure { from, to, failure: IoFailure { text, code } })) == Err::<
            (),
            CopyFailureData,
        >(
            (CopyFailureData {
                from: from@,
                to: to@,
                failure: IoFailureData { text: text@, code },
            }),
        ),
{
}

/// While nothing fails, a copy goes on in the tree, whichever directory it is
/// in: a directory is opened once its copy is there, then read entry by entry.
/// A directory among its entries is entered next, below the one it stands in;
/// a file among them is copied next, unless it is the one to leave out, and
/// then the same directory is read on. At its end, the one around it is read
/// on, and at the end of the outermost one, the copy is done.
pub proof fn law_copy_goes_on(
    platform: Platform,
    outer: Seq<u64>,
    dir: u64,
    left_out: Option<u64>,
    entry: u64,
)
    ensures
        after_make_dir(platform, outer, dir, left_out, Ok(())) == (CopyData::OpenDir {
            outer,
            dir,
            left_out,
        }),
        after_open_dir(outer, dir, left_out, Ok(())) == (CopyData::NextEntry {
            outer,
            dir,
            left_out,
        }),
        after_next_entry(outer, dir, left_out, ListedData::Dir(entry)) == (CopyData::MakeDir {
            outer: outer + seq![dir],
            dir: entry,
            left_out,
        }),
        left_out != Some(entry) ==> after_next_entry(
            outer,
            dir,
            left_out,
            ListedData::File(entry),
        ) == (CopyData::CopyFile { outer, dir, file: entry, left_out }),
        left_out == Some(entry) ==> after_next_entry(
            outer,
            dir,
            left_out,
            ListedData::File(entry),
        ) == (CopyData::NextEntry { outer, dir, left_out }),
        after_copy_file(platform, outer, dir, left_out, Ok(())) == (CopyData::NextEntry {
            outer,
            dir,
            left_out,
        }),
        after_next_entry(outer + seq![dir], entry, left_out, ListedData::End)
            == (CopyData::NextEntry { outer, dir, left_out }),
        after_next_entry(Seq::empty(), dir, left_out, ListedData::End) is Done,
{
    assert(outer.push(dir) =~= outer + seq![dir]);
    assert((outer + seq![dir]).drop_last() =~= outer);
}

/// Whatever fails stops the copy, and is reported by what was tried, on which
/// path, and what the system says, all of it in full.
pub proof fn law_copy_failures_are_told(
    platform: Platform,
    outer: Seq<u64>,
    dir: u64,
    left_out: Option<u64>,
    path: Seq<char>,
    to: Seq<char>,
    text: Seq<char>,
    code: Option<i32>,
)
    ensures
        ({
            let failure = IoFailureData { text, code };
            let failed = PathFailureData { path, failure };
            let hint = if platform == Platform::Windows && code == Some(5i32) {
                "；通常是杀软拦截，或上一个 DSH 进程(node.exe)仍残留占用——请将安装目录与 %APPDATA%/com.deepseek-harness.desktop 加入杀软白名单，并在任务管理器中结束残留的 node.exe"@
            } else {
                Seq::empty()
            };
            &&& after_make_dir(platform, outer, dir, left_out, Err(failed)) == CopyData::Failed(
                "创建目录失败 ("@ + path + "): "@ + text + hint,
            )
            &&& after_open_dir(outer, dir, left_out, Err(failed)) == CopyData::Failed(
                "读取目录失败 ("@ + path + "): "@ + text,
            )
            &&& after_next_entry(outer, dir, left_out, ListedData::Unreadable(failed))
                == CopyData::Failed("读取目录项失败 ("@ + path + "): "@ + text)
            &&& after_next_entry(outer, dir, left_out, ListedData::Untyped(text))
                == CopyData::Failed(text)
            &&& after_copy_file(
                platform,
                outer,
                dir,
                left_out,
                Err(CopyFailureData { from: path, to, failure }),
            ) == CopyData::Failed(
                "复制文件失败 ("@ + path + " -> "@ + to + "): "@ + text + hint,
            )
        }),
{
    reveal_strlit("");
    assert(""@ =~= Seq::empty());
}

} // verus!
