//! Making the bundled runtime ready for use.

use vstd::prelude::*;

use crate::command::CommandLine;
use crate::copying::{
    copy_dir_all, copy_failure, CopyData, CopyFailure, CopyFailureData, CopyStep,
};
use crate::effect::{status, Effect, EffectData};
use crate::failure::{labelled, path_message, PathFailure, PathFailureData};
use crate::place::{
    node_file, pid_file, runtime_at, runtime_dir, version_file, Place, PlaceData, Root,
};
use crate::platform::Platform;
use crate::text::same_text;

verus! {

/// Reported when no bundled runtime is found.
pub const NO_BUNDLE: &'static str = "未找到内嵌运行环境，请先执行 scripts/prepare-runtime.sh";

/// What precedes the reason for which the bundled version marker cannot be read.
pub const NO_VERSION: &'static str = "内嵌运行环境缺少版本标记: ";

/// What precedes a data directory that could not be created.
pub const MAKE_PARENT_FAILED: &'static str = "创建数据目录失败 (";

/// Status line while the runtime is extracted.
pub const EXTRACTING_STATUS: &'static str = "首次启动，正在准备运行环境…";

/// The number of the bundled runtime's directory in a copy.
pub const ROOT_NUMBER: u64 = 0;

/// The number of the bundled runtime's marker in a clone or a copy.
pub const MARKER_NUMBER: u64 = 1;

/// Permissions of the runtime's executables.
pub const EXECUTABLE_MODE: u32 = 0o755;

/// Whether the bundled runtime stands in the application's resources is to be checked.
#[derive(Debug, PartialEq, Eq)]
pub struct CheckBundled {
    pub platform: Platform,
    pub debug: bool,
}

/// Whether a runtime was prepared in the source tree is to be checked.
#[derive(Debug, PartialEq, Eq)]
pub struct CheckSource {
    pub platform: Platform,
}

/// The search for the bundled runtime.
#[derive(Debug, PartialEq, Eq)]
pub enum BundleStep {
    CheckBundled(CheckBundled),
    CheckSource(CheckSource),
    /// The bundled runtime is the one inside this root.
    Found(Root),
    NotFound(String),
}

/// A [`BundleStep`] as data.
pub enum BundleData {
    CheckBundled { platform: Platform, debug: bool },
    CheckSource(Platform),
    Found(Root),
    NotFound(Seq<char>),
}

impl View for BundleStep {
    type V = BundleData;

    open spec fn view(&self) -> BundleData {
        match self {
            BundleStep::CheckBundled(s) => BundleData::CheckBundled {
                platform: s.platform,
                debug: s.debug,
            },
            BundleStep::CheckSource(s) => BundleData::CheckSource(s.platform),
            BundleStep::Found(root) => BundleData::Found(*root),
            BundleStep::NotFound(message) => BundleData::NotFound(message@),
        }
    }
}

/// The search starts in the resources, once it is known where they are.
pub open spec fn bundle_start(
    platform: Platform,
    resources: Result<(), Seq<char>>,
    debug: bool,
) -> BundleData {
    match resources {
        Ok(()) => BundleData::CheckBundled { platform, debug },
        Err(message) => BundleData::NotFound(message),
    }
}

/// Without a runtime in the resources, a debug build looks into its source tree.
pub open spec fn after_check_bundled(
    platform: Platform,
    debug: bool,
    present: bool,
) -> BundleData {
    if present {
        BundleData::Found(Root::Resources)
    } else if debug {
        BundleData::CheckSource(platform)
    } else {
        BundleData::NotFound(NO_BUNDLE@)
    }
}

/// The source tree is the last place to look at.
pub open spec fn after_check_source(present: bool) -> BundleData {
    if present {
        BundleData::Found(Root::SourceTree)
    } else {
        BundleData::NotFound(NO_BUNDLE@)
    }
}

/// Starts to search for the runtime shipped inside the application bundle:
/// `resources` says whether the bundle's resources are known. In debug builds
/// the bundle layout does not exist, so the source tree is searched too.
pub fn bundled_runtime_dir(
    platform: Platform,
    resources: Result<(), String>,
    debug: bool,
) -> (step: BundleStep)
    ensures
        step@ == bundle_start(platform, crate::failure::texted(resources), debug),
{
    match resources {
        Ok(()) => BundleStep::CheckBundled(CheckBundled { platform, debug }),
        Err(message) => BundleStep::NotFound(message),
    }
}

impl CheckBundled {
    /// The file to look for.
    pub fn file(&self) -> (place: Place)
        ensures
            place@ == crate::place::node_in(self.platform, Root::Resources),
    {
        node_file(self.platform, Root::Resources)
    }

    /// The file is there, or not.
    pub fn checked(self, present: bool) -> (step: BundleStep)
        ensures
            step@ == after_check_bundled(self.platform, self.debug, present),
    {
        if present {
            BundleStep::Found(Root::Resources)
        } else if self.debug {
            BundleStep::CheckSource(CheckSource { platform: self.platform })
        } else {
            BundleStep::NotFound(NO_BUNDLE.to_owned())
        }
    }
}

impl CheckSource {
    /// The file to look for.
    pub fn file(&self) -> (place: Place)
        ensures
            place@ == crate::place::node_in(self.platform, Root::SourceTree),
    {
        node_file(self.platform, Root::SourceTree)
    }

    /// The file is there, or not.
    pub fn checked(self, present: bool) -> (step: BundleStep)
        ensures
            step@ == after_check_source(present),
    {
        if present {
            BundleStep::Found(Root::SourceTree)
        } else {
            BundleStep::NotFound(NO_BUNDLE.to_owned())
        }
    }
}

/// How the search ends, given what it would find in either place.
pub open spec fn bundle_end(
    step: BundleData,
    in_resources: bool,
    in_source: bool,
) -> BundleData {
    match step {
        BundleData::CheckBundled { platform, debug } => match after_check_bundled(
            platform,
            debug,
            in_resources,
        ) {
            BundleData::CheckSource(_) => after_check_source(in_source),
            end => end,
        },
        BundleData::CheckSource(_) => after_check_source(in_source),
        end => end,
    }
}

/// The bundled runtime comes before the one in the source tree, which only a
/// debug build uses.
pub proof fn law_bundle_search(
    platform: Platform,
    resources: Result<(), Seq<char>>,
    debug: bool,
    in_resources: bool,
    in_source: bool,
)
    ensures
        bundle_end(bundle_start(platform, resources, debug), in_resources, in_source) == (
        match resources {
            Err(message) => BundleData::NotFound(message),
            Ok(()) => if in_resources {
                BundleData::Found(Root::Resources)
            } else if debug && in_source {
                BundleData::Found(Root::SourceTree)
            } else {
                BundleData::NotFound(NO_BUNDLE@)
            },
        }),
{
}

/// The runtime was made ready before: only its directory is to be located.
#[derive(Debug, PartialEq, Eq)]
pub struct LocateReady {}

/// The bundled runtime is to be located.
#[derive(Debug, PartialEq, Eq)]
pub struct LocateBundle {
    pub platform: Platform,
}

/// The version marker of the bundled runtime is to be read.
#[derive(Debug, PartialEq, Eq)]
pub struct ReadWanted {
    pub platform: Platform,
    /// Where the bundled runtime stands.
    pub bundle: Root,
}

/// What is to be extracted.
#[derive(Debug, PartialEq, Eq)]
pub struct Job {
    pub platform: Platform,
    /// Where the bundled runtime stands.
    pub bundle: Root,
    /// Its version.
    pub wanted: String,
}

/// The directory to extract to is to be located.
#[derive(Debug, PartialEq, Eq)]
pub struct LocateRuntime {
    pub job: Job,
}

/// The marker and the Node binary of the extracted runtime are to be looked at.
#[derive(Debug, PartialEq, Eq)]
pub struct Inspect {
    pub job: Job,
}

/// The extraction is to be announced, and the directory looked for.
#[derive(Debug, PartialEq, Eq)]
pub struct CheckOld {
    pub job: Job,
}

/// A process left over from it is to be killed and the old directory removed.
#[derive(Debug, PartialEq, Eq)]
pub struct ClearOld {
    pub job: Job,
}

/// The directory around the runtime is to be created.
#[derive(Debug, PartialEq, Eq)]
pub struct MakeParent {
    pub job: Job,
}

/// The runtime is to be cloned by the file system, but for its marker.
#[derive(Debug, PartialEq, Eq)]
pub struct CloneTree {
    pub job: Job,
}

/// The runtime is to be copied file by file, but for its marker.
#[derive(Debug, PartialEq, Eq)]
pub struct CopyTree {
    pub job: Job,
}

/// The runtime's executables are to be marked as such.
#[derive(Debug, PartialEq, Eq)]
pub struct SetModes {
    pub job: Job,
}

/// The quarantine attribute is to be taken off the runtime.
#[derive(Debug, PartialEq, Eq)]
pub struct Unquarantine {
    pub job: Job,
}

/// Everything is in place: the marker is to be written.
#[derive(Debug, PartialEq, Eq)]
pub struct WriteMarker {
    pub job: Job,
}

/// What to do next to make the runtime ready.
#[derive(Debug, PartialEq, Eq)]
pub enum RuntimeStep {
    LocateReady(LocateReady),
    LocateBundle(LocateBundle),
    ReadWanted(ReadWanted),
    LocateRuntime(LocateRuntime),
    Inspect(Inspect),
    CheckOld(CheckOld),
    ClearOld(ClearOld),
    MakeParent(MakeParent),
    CloneTree(CloneTree),
    CopyTree(CopyTree),
    SetModes(SetModes),
    Unquarantine(Unquarantine),
    WriteMarker(WriteMarker),
    /// The runtime is ready for the rest of the session.
    Ready,
    Failed(String),
}

/// A [`Job`] with its text as a character sequence.
pub struct JobData {
    pub platform: Platform,
    pub bundle: Root,
    pub wanted: Seq<char>,
}

impl View for Job {
    type V = JobData;

    open spec fn view(&self) -> JobData {
        JobData { platform: self.platform, bundle: self.bundle, wanted: self.wanted@ }
    }
}

/// A [`RuntimeStep`] with its texts as character sequences.
pub enum RuntimeData {
    LocateReady,
    LocateBundle(Platform),
    ReadWanted(Platform, Root),
    LocateRuntime(JobData),
    Inspect(JobData),
    CheckOld(JobData),
    ClearOld(JobData),
    MakeParent(JobData),
    CloneTree(JobData),
    CopyTree(JobData),
    SetModes(JobData),
    Unquarantine(JobData),
    WriteMarker(JobData),
    Ready,
    Failed(Seq<char>),
}

impl View for RuntimeStep {
    type V = RuntimeData;

    open spec fn view(&self) -> RuntimeData {
        match self {
            RuntimeStep::LocateReady(_) => RuntimeData::LocateReady,
            RuntimeStep::LocateBundle(s) => RuntimeData::LocateBundle(s.platform),
            RuntimeStep::ReadWanted(s) => RuntimeData::ReadWanted(s.platform, s.bundle),
            RuntimeStep::LocateRuntime(s) => RuntimeData::LocateRuntime(s.job@),
            RuntimeStep::Inspect(s) => RuntimeData::Inspect(s.job@),
            RuntimeStep::CheckOld(s) => RuntimeData::CheckOld(s.job@),
            RuntimeStep::ClearOld(s) => RuntimeData::ClearOld(s.job@),
            RuntimeStep::MakeParent(s) => RuntimeData::MakeParent(s.job@),
            RuntimeStep::CloneTree(s) => RuntimeData::CloneTree(s.job@),
            RuntimeStep::CopyTree(s) => RuntimeData::CopyTree(s.job@),
            RuntimeStep::SetModes(s) => RuntimeData::SetModes(s.job@),
            RuntimeStep::Unquarantine(s) => RuntimeData::Unquarantine(s.job@),
            RuntimeStep::WriteMarker(s) => RuntimeData::WriteMarker(s.job@),
            RuntimeStep::Ready => RuntimeData::Ready,
            RuntimeStep::Failed(message) => RuntimeData::Failed(message@),
        }
    }
}

/// A runtime that was made ready in this session is taken as it is.
pub open spec fn runtime_start(platform: Platform, ready: bool) -> RuntimeData {
    if ready {
        RuntimeData::LocateReady
    } else {
        RuntimeData::LocateBundle(platform)
    }
}

/// Goes on with `next`, unless something failed.
pub open spec fn or_failed(outcome: Result<(), Seq<char>>, next: RuntimeData) -> RuntimeData {
    match outcome {
        Ok(()) => next,
        Err(message) => RuntimeData::Failed(message),
    }
}

/// The wanted version is read once the bundled runtime is located.
pub open spec fn after_locate_bundle(
    platform: Platform,
    outcome: Result<Root, Seq<char>>,
) -> RuntimeData {
    match outcome {
        Ok(bundle) => RuntimeData::ReadWanted(platform, bundle),
        Err(message) => RuntimeData::Failed(message),
    }
}

/// The directory to extract to is located once the wanted version is known.
pub open spec fn after_read_wanted(
    platform: Platform,
    bundle: Root,
    outcome: Result<Seq<char>, Seq<char>>,
) -> RuntimeData {
    match outcome {
        Ok(wanted) => RuntimeData::LocateRuntime(JobData { platform, bundle, wanted }),
        Err(message) => RuntimeData::Failed(NO_VERSION@ + message),
    }
}

/// A runtime with the wanted version and a Node binary is used as it is.
pub open spec fn after_inspect(
    job: JobData,
    marker: Option<Seq<char>>,
    node_present: bool,
) -> RuntimeData {
    if marker == Some(job.wanted) && node_present {
        RuntimeData::Ready
    } else {
        RuntimeData::CheckOld(job)
    }
}

/// What is there of an old runtime goes first.
pub open spec fn after_check_old(job: JobData, present: bool) -> RuntimeData {
    if present {
        RuntimeData::ClearOld(job)
    } else {
        RuntimeData::MakeParent(job)
    }
}

/// macOS tries a clone before it copies.
pub open spec fn after_make_parent(
    job: JobData,
    outcome: Result<(), PathFailureData>,
) -> RuntimeData {
    match outcome {
        Ok(()) => if job.platform == Platform::MacOs {
            RuntimeData::CloneTree(job)
        } else {
            RuntimeData::CopyTree(job)
        },
        Err(failed) => RuntimeData::Failed(
            crate::failure::about_path(MAKE_PARENT_FAILED@, failed),
        ),
    }
}

/// What follows once the files are in place: Unix marks executables.
pub open spec fn after_files(job: JobData) -> RuntimeData {
    if job.platform == Platform::Windows {
        RuntimeData::WriteMarker(job)
    } else {
        RuntimeData::SetModes(job)
    }
}

/// A clone that did not work is made up for by a copy.
pub open spec fn after_clone(job: JobData, cloned: bool) -> RuntimeData {
    if cloned {
        after_files(job)
    } else {
        RuntimeData::CopyTree(job)
    }
}

/// macOS takes off the quarantine attribute, too.
pub open spec fn after_set_modes(job: JobData) -> RuntimeData {
    if job.platform == Platform::MacOs {
        RuntimeData::Unquarantine(job)
    } else {
        RuntimeData::WriteMarker(job)
    }
}

/// The marker completes the runtime. It is the last of the bundled files to be
/// put in place, and a failure is reported as that of a copy.
pub open spec fn after_write_marker(
    job: JobData,
    outcome: Result<(), CopyFailureData>,
) -> RuntimeData {
    match outcome {
        Ok(()) => RuntimeData::Ready,
        Err(failed) => RuntimeData::Failed(crate::copying::copy_message(job.platform, failed)),
    }
}

/// Starts to make the runtime ready: `ready` says whether that has been done
/// in this session. A marker file that holds the DSH version marks completion;
/// another version means a fresh extraction.
pub fn ensure_runtime(platform: Platform, ready: bool) -> (step: RuntimeStep)
    ensures
        step@ == runtime_start(platform, ready),
{
    if ready {
        RuntimeStep::LocateReady(LocateReady {  })
    } else {
        RuntimeStep::LocateBundle(LocateBundle { platform })
    }
}

/// What follows once the files are in place.
fn files_in_place(job: Job) -> (step: RuntimeStep)
    ensures
        step@ == after_files(job@),
{
    match job.platform {
        Platform::Windows => RuntimeStep::WriteMarker(WriteMarker { job }),
        _ => RuntimeStep::SetModes(SetModes { job }),
    }
}

impl LocateReady {
    /// The directory to locate.
    pub fn directory(&self) -> (place: Place)
        ensures
            place@ == crate::place::runtime_in(Root::AppData),
    {
        runtime_dir()
    }

    /// The directory has been located, or not.
    pub fn located(self, outcome: Result<(), String>) -> (step: RuntimeStep)
        ensures
            step@ == or_failed(crate::failure::texted(outcome), RuntimeData::Ready),
    {
        match outcome {
            Ok(()) => RuntimeStep::Ready,
            Err(message) => RuntimeStep::Failed(message),
        }
    }
}

impl LocateBundle {
    /// The bundled runtime stands inside this root, or has not been found.
    pub fn located(self, outcome: Result<Root, String>) -> (step: RuntimeStep)
        ensures
            step@ == after_locate_bundle(self.platform, crate::failure::texted(outcome)),
    {
        match outcome {
            Ok(bundle) => RuntimeStep::ReadWanted(ReadWanted { platform: self.platform, bundle }),
            Err(message) => RuntimeStep::Failed(message),
        }
    }
}

impl ReadWanted {
    /// The file to read.
    pub fn file(&self) -> (place: Place)
        ensures
            place@ == crate::place::version_in(self.bundle),
    {
        version_file(self.bundle)
    }

    /// The marker of the bundled runtime has been read, or not.
    pub fn read(self, outcome: Result<String, String>) -> (step: RuntimeStep)
        ensures
            step@ == after_read_wanted(
                self.platform,
                self.bundle,
                crate::failure::text_outcome(outcome),
            ),
    {
        match outcome {
            Ok(wanted) => {
                let job = Job { platform: self.platform, bundle: self.bundle, wanted };
                RuntimeStep::LocateRuntime(LocateRuntime { job })
            },
            Err(message) => RuntimeStep::Failed(labelled(NO_VERSION, message.as_str())),
        }
    }
}

impl LocateRuntime {
    /// The directory to locate.
    pub fn directory(&self) -> (place: Place)
        ensures
            place@ == crate::place::runtime_in(Root::AppData),
    {
        runtime_dir()
    }

    /// The directory has been located, or not.
    pub fn located(self, outcome: Result<(), String>) -> (step: RuntimeStep)
        ensures
            step@ == or_failed(crate::failure::texted(outcome), RuntimeData::Inspect(self.job@)),
    {
        match outcome {
            Ok(()) => RuntimeStep::Inspect(Inspect { job: self.job }),
            Err(message) => RuntimeStep::Failed(message),
        }
    }
}

impl Inspect {
    /// The marker to read.
    pub fn marker(&self) -> (place: Place)
        ensures
            place@ == crate::place::version_in(Root::AppData),
    {
        version_file(Root::AppData)
    }

    /// The Node binary to look for.
    pub fn node(&self) -> (place: Place)
        ensures
            place@ == crate::place::node_in(self.job.platform, Root::AppData),
    {
        node_file(self.job.platform, Root::AppData)
    }

    /// The marker, if it could be read, and whether the Node binary is there.
    pub fn inspected(self, marker: Option<String>, node_present: bool) -> (step: RuntimeStep)
        ensures
            step@ == after_inspect(self.job@, crate::failure::opt_text(marker), node_present),
    {
        let current: bool = match marker {
            Some(text) => same_text(text.as_str(), self.job.wanted.as_str()),
            None => false,
        };
        if current && node_present {
            RuntimeStep::Ready
        } else {
            RuntimeStep::CheckOld(CheckOld { job: self.job })
        }
    }
}

impl CheckOld {
    /// What to show before the directory is looked for.
    pub fn announce(&self) -> (effect: Effect)
        ensures
            effect@ == (EffectData::Emit {
                event: "boot-status"@,
                payload: "首次启动，正在准备运行环境…"@,
            }),
    {
        status(EXTRACTING_STATUS)
    }

    /// The directory to look for.
    pub fn directory(&self) -> (place: Place)
        ensures
            place@ == crate::place::runtime_in(Root::AppData),
    {
        runtime_dir()
    }

    /// The directory is there, or not.
    pub fn checked(self, present: bool) -> (step: RuntimeStep)
        ensures
            step@ == after_check_old(self.job@, present),
    {
        if present {
            RuntimeStep::ClearOld(ClearOld { job: self.job })
        } else {
            RuntimeStep::MakeParent(MakeParent { job: self.job })
        }
    }
}

impl ClearOld {
    /// The file that may record a process left over from the old runtime.
    pub fn record(&self) -> (place: Place)
        ensures
            place@ == crate::place::pid_record_in(Root::AppData),
    {
        pid_file(Root::AppData)
    }

    /// The directory to remove once that process is gone.
    pub fn directory(&self) -> (place: Place)
        ensures
            place@ == crate::place::runtime_in(Root::AppData),
    {
        runtime_dir()
    }

    /// The old directory has been removed, or not.
    pub fn removed(self, outcome: Result<(), String>) -> (step: RuntimeStep)
        ensures
            step@ == or_failed(
                crate::failure::texted(outcome),
                RuntimeData::MakeParent(self.job@),
            ),
    {
        match outcome {
            Ok(()) => RuntimeStep::MakeParent(MakeParent { job: self.job }),
            Err(message) => RuntimeStep::Failed(message),
        }
    }
}

impl MakeParent {
    /// The directory to create, with those around it.
    pub fn directory(&self) -> (place: Place)
        ensures
            place@ == crate::place::root_data(Root::AppData),
    {
        Place::at(Root::AppData)
    }

    /// The directory around the runtime is there now, or not.
    pub fn made(self, outcome: Result<(), PathFailure>) -> (step: RuntimeStep)
        ensures
            step@ == after_make_parent(self.job@, crate::failure::path_outcome(outcome)),
    {
        match outcome {
            Ok(()) => match self.job.platform {
                Platform::MacOs => RuntimeStep::CloneTree(CloneTree { job: self.job }),
                _ => RuntimeStep::CopyTree(CopyTree { job: self.job }),
            },
            Err(failed) => RuntimeStep::Failed(path_message(MAKE_PARENT_FAILED, &failed)),
        }
    }
}

impl CloneTree {
    /// The program that clones, to be given the entries to clone and then the
    /// directory to clone them into.
    pub fn command(&self) -> (command: CommandLine)
        ensures
            command@ == crate::command::bare("cp"@).arg("-Rc"@),
    {
        CommandLine::new("cp").arg("-Rc")
    }

    /// The directory whose entries to clone.
    pub fn from(&self) -> (place: Place)
        ensures
            place@ == crate::place::runtime_in(self.job.bundle),
    {
        runtime_at(self.job.bundle)
    }

    /// The entry that has [`MARKER_NUMBER`].
    pub fn marker(&self) -> (place: Place)
        ensures
            place@ == crate::place::version_in(self.job.bundle),
    {
        version_file(self.job.bundle)
    }

    /// Which of the entries to clone: all of them but the marker.
    pub fn chosen(&self, entries: Vec<u64>) -> (chosen: Vec<u64>)
        ensures
            chosen@ == entries@.filter(|n: u64| n != MARKER_NUMBER),
    {
        let mut chosen: Vec<u64> = Vec::new();
        let ghost kept = |n: u64| n != MARKER_NUMBER;
        assert(entries@.take(0).filter(kept) =~= Seq::empty()) by {
            reveal(Seq::filter);
        }
        let mut i: usize = 0;
        while i < entries.len()
            invariant
                i <= entries@.len(),
                kept == (|n: u64| n != MARKER_NUMBER),
                chosen@ == entries@.take(i as int).filter(kept),
            decreases entries@.len() - i,
        {
            assert(entries@.take(i + 1).drop_last() =~= entries@.take(i as int));
            assert(entries@.take(i + 1).filter(kept) == (if kept(entries@[i as int]) {
                entries@.take(i as int).filter(kept).push(entries@[i as int])
            } else {
                entries@.take(i as int).filter(kept)
            })) by {
                reveal(Seq::filter);
            }
            if entries[i] != MARKER_NUMBER {
                chosen.push(entries[i]);
            }
            i = i + 1;
        }
        assert(entries@.take(entries@.len() as int) =~= entries@);
        chosen
    }

    /// The directory to clone into, to be created first.
    pub fn to(&self) -> (place: Place)
        ensures
            place@ == crate::place::runtime_in(Root::AppData),
    {
        runtime_dir()
    }

    /// The clone has worked, or not.
    pub fn cloned(self, success: bool) -> (step: RuntimeStep)
        ensures
            step@ == after_clone(self.job@, success),
    {
        if success {
            files_in_place(self.job)
        } else {
            RuntimeStep::CopyTree(CopyTree { job: self.job })
        }
    }
}

impl CopyTree {
    /// The directory to copy, which has [`ROOT_NUMBER`].
    pub fn from(&self) -> (place: Place)
        ensures
            place@ == crate::place::runtime_in(self.job.bundle),
    {
        runtime_at(self.job.bundle)
    }

    /// The file that has [`MARKER_NUMBER`].
    pub fn marker(&self) -> (place: Place)
        ensures
            place@ == crate::place::version_in(self.job.bundle),
    {
        version_file(self.job.bundle)
    }

    /// The directory to copy it to.
    pub fn to(&self) -> (place: Place)
        ensures
            place@ == crate::place::runtime_in(Root::AppData),
    {
        runtime_dir()
    }

    /// Starts the copy, which leaves out the marker.
    pub fn copy(&self) -> (step: CopyStep)
        ensures
            step@ == (CopyData::MakeDir {
                outer: Seq::empty(),
                dir: ROOT_NUMBER,
                left_out: Some(MARKER_NUMBER),
            }),
    {
        copy_dir_all(ROOT_NUMBER, Some(MARKER_NUMBER))
    }

    /// The tree has been copied, or not.
    pub fn copied(self, outcome: Result<(), String>) -> (step: RuntimeStep)
        ensures
            step@ == or_failed(crate::failure::texted(outcome), after_files(self.job@)),
    {
        match outcome {
            Ok(()) => files_in_place(self.job),
            Err(message) => RuntimeStep::Failed(message),
        }
    }
}

/// The executables that stand in the runtime's directory.
pub open spec fn executables_data(platform: Platform) -> Seq<PlaceData> {
    let dir = crate::place::runtime_in(Root::AppData);
    seq![crate::place::node_in(platform, Root::AppData), dir.join("npm"@), dir.join("pnpm"@)]
}

impl SetModes {
    /// The files to give [`EXECUTABLE_MODE`]: the Node binary, and the
    /// launchers beside it, since a plain copy does not keep their mode.
    pub fn executables(&self) -> (files: Vec<Place>)
        ensures
            files@.map_values(|f: Place| f@) == executables_data(self.job.platform),
    {
        let mut files: Vec<Place> = Vec::new();
        files.push(node_file(self.job.platform, Root::AppData));
        files.push(runtime_dir().join("npm"));
        files.push(runtime_dir().join("pnpm"));
        assert(files@.map_values(|f: Place| f@) =~= executables_data(self.job.platform));
        files
    }

    /// The files have been marked, as far as that was possible.
    pub fn marked(self) -> (step: RuntimeStep)
        ensures
            step@ == after_set_modes(self.job@),
    {
        match self.job.platform {
            Platform::MacOs => RuntimeStep::Unquarantine(Unquarantine { job: self.job }),
            _ => RuntimeStep::WriteMarker(WriteMarker { job: self.job }),
        }
    }
}

impl Unquarantine {
    /// The program that takes off the attribute, to be given the directory as well.
    pub fn command(&self) -> (command: CommandLine)
        ensures
            command@ == crate::command::bare("xattr"@).arg("-dr"@).arg("com.apple.quarantine"@),
    {
        CommandLine::new("xattr").arg("-dr").arg("com.apple.quarantine")
    }

    /// The directory to take it off, with everything below.
    pub fn directory(&self) -> (place: Place)
        ensures
            place@ == crate::place::runtime_in(Root::AppData),
    {
        runtime_dir()
    }

    /// The attribute has been taken off, as far as that was possible.
    pub fn cleared(self) -> (step: RuntimeStep)
        ensures
            step@ == RuntimeData::WriteMarker(self.job@),
    {
        RuntimeStep::WriteMarker(WriteMarker { job: self.job })
    }
}

impl WriteMarker {
    /// The marker of the bundled runtime.
    pub fn from(&self) -> (place: Place)
        ensures
            place@ == crate::place::version_in(self.job.bundle),
    {
        version_file(self.job.bundle)
    }

    /// The file to write.
    pub fn to(&self) -> (place: Place)
        ensures
            place@ == crate::place::version_in(Root::AppData),
    {
        version_file(Root::AppData)
    }

    /// What to write: what the marker of the bundled runtime holds.
    pub fn contents(&self) -> (text: &str)
        ensures
            text@ == self.job@.wanted,
    {
        self.job.wanted.as_str()
    }

    /// The marker has been written, or not.
    pub fn written(self, outcome: Result<(), CopyFailure>) -> (step: RuntimeStep)
        ensures
            step@ == after_write_marker(self.job@, crate::copying::copy_outcome(outcome)),
    {
        match outcome {
            Ok(()) => RuntimeStep::Ready,
            Err(failed) => RuntimeStep::Failed(copy_failure(self.job.platform, &failed)),
        }
    }
}

/// What making the runtime ready meets: the answer to each of its questions
/// and the outcome of each of its operations.
pub struct RuntimeWorld {
    pub bundle: Result<Root, Seq<char>>,
    pub wanted: Result<Seq<char>, Seq<char>>,
    pub directory: Result<(), Seq<char>>,
    pub marker: Option<Seq<char>>,
    pub node_present: bool,
    pub old_present: bool,
    pub removal: Result<(), Seq<char>>,
    pub parent: Result<(), PathFailureData>,
    pub cloned: bool,
    pub copy: Result<(), Seq<char>>,
    pub marking: Result<(), CopyFailureData>,
}

/// The step that follows `step` in `world`.
pub open spec fn runtime_next(world: RuntimeWorld, step: RuntimeData) -> RuntimeData {
    match step {
        RuntimeData::LocateReady => or_failed(world.directory, RuntimeData::Ready),
        RuntimeData::LocateBundle(platform) => after_locate_bundle(platform, world.bundle),
        RuntimeData::ReadWanted(platform, bundle) => after_read_wanted(
            platform,
            bundle,
            world.wanted,
        ),
        RuntimeData::LocateRuntime(job) => or_failed(world.directory, RuntimeData::Inspect(job)),
        RuntimeData::Inspect(job) => after_inspect(job, world.marker, world.node_present),
        RuntimeData::CheckOld(job) => after_check_old(job, world.old_present),
        RuntimeData::ClearOld(job) => or_failed(world.removal, RuntimeData::MakeParent(job)),
        RuntimeData::MakeParent(job) => after_make_parent(job, world.parent),
        RuntimeData::CloneTree(job) => after_clone(job, world.cloned),
        RuntimeData::CopyTree(job) => or_failed(world.copy, after_files(job)),
        RuntimeData::SetModes(job) => after_set_modes(job),
        RuntimeData::Unquarantine(job) => RuntimeData::WriteMarker(job),
        RuntimeData::WriteMarker(job) => after_write_marker(job, world.marking),
        RuntimeData::Ready => RuntimeData::Ready,
        RuntimeData::Failed(message) => RuntimeData::Failed(message),
    }
}

/// How many steps may still follow.
pub open spec fn steps_left(step: RuntimeData) -> nat {
    match step {
        RuntimeData::LocateReady => 1,
        RuntimeData::LocateBundle(_) => 12,
        RuntimeData::ReadWanted(_, _) => 11,
        RuntimeData::LocateRuntime(_) => 10,
        RuntimeData::Inspect(_) => 9,
        RuntimeData::CheckOld(_) => 8,
        RuntimeData::ClearOld(_) => 7,
        RuntimeData::MakeParent(_) => 6,
        RuntimeData::CloneTree(_) => 5,
        RuntimeData::CopyTree(_) => 4,
        RuntimeData::SetModes(_) => 3,
        RuntimeData::Unquarantine(_) => 2,
        RuntimeData::WriteMarker(_) => 1,
        RuntimeData::Ready => 0,
        RuntimeData::Failed(_) => 0,
    }
}

/// The steps from `step` on, to the last one.
pub open spec fn runtime_steps(world: RuntimeWorld, step: RuntimeData) -> Seq<RuntimeData>
    decreases steps_left(step),
{
    if steps_left(step) == 0 {
        seq![step]
    } else {
        seq![step] + runtime_steps(world, runtime_next(world, step))
    }
}

/// Whether a step changes anything on the disk.
pub open spec fn changes_disk(step: RuntimeData) -> bool {
    match step {
        RuntimeData::ClearOld(_) => true,
        RuntimeData::MakeParent(_) => true,
        RuntimeData::CloneTree(_) => true,
        RuntimeData::CopyTree(_) => true,
        RuntimeData::SetModes(_) => true,
        RuntimeData::Unquarantine(_) => true,
        RuntimeData::WriteMarker(_) => true,
        _ => false,
    }
}

/// Whether the extracted runtime is the one that is wanted.
pub open spec fn up_to_date(world: RuntimeWorld) -> bool {
    world.wanted is Ok && world.marker == Some(world.wanted->Ok_0) && world.node_present
}

/// Whether the runtime can be found out about.
pub open spec fn located(world: RuntimeWorld) -> bool {
    world.bundle is Ok && world.wanted is Ok && world.directory is Ok
}

/// What is to be extracted in a world in which the runtime can be found out about.
pub open spec fn job_in(platform: Platform, world: RuntimeWorld) -> JobData {
    JobData { platform, bundle: world.bundle->Ok_0, wanted: world.wanted->Ok_0 }
}

/// The steps that find out about the runtime, if it can be found out about.
pub open spec fn inspection(platform: Platform, world: RuntimeWorld) -> Seq<RuntimeData> {
    let job = job_in(platform, world);
    seq![
        RuntimeData::LocateBundle(platform),
        RuntimeData::ReadWanted(platform, job.bundle),
        RuntimeData::LocateRuntime(job),
        RuntimeData::Inspect(job),
    ]
}

/// The steps begin with those that find out about the runtime.
proof fn lemma_inspection_first(platform: Platform, world: RuntimeWorld)
    requires
        located(world),
    ensures
        runtime_steps(world, runtime_start(platform, false)) == inspection(platform, world)
            + runtime_steps(
            world,
            after_inspect(job_in(platform, world), world.marker, world.node_present),
        ),
{
    let job = job_in(platform, world);
    let rest = runtime_steps(world, after_inspect(job, world.marker, world.node_present));
    assert(runtime_steps(world, RuntimeData::Inspect(job)) =~= seq![RuntimeData::Inspect(job)]
        + rest);
    assert(runtime_steps(world, RuntimeData::LocateRuntime(job)) =~= seq![
        RuntimeData::LocateRuntime(job),
        RuntimeData::Inspect(job),
    ] + rest);
    assert(runtime_steps(world, RuntimeData::ReadWanted(platform, job.bundle)) =~= seq![
        RuntimeData::ReadWanted(platform, job.bundle),
        RuntimeData::LocateRuntime(job),
        RuntimeData::Inspect(job),
    ] + rest);
    assert(runtime_steps(world, RuntimeData::LocateBundle(platform)) =~= inspection(platform, world)
        + rest);
}

/// A runtime that has the wanted version and its Node binary is used without
/// a change to the disk.
pub proof fn law_current_runtime_is_untouched(platform: Platform, world: RuntimeWorld)
    requires
        located(world),
        up_to_date(world),
    ensures
        runtime_steps(world, runtime_start(platform, false)) == inspection(platform, world).push(
            RuntimeData::Ready,
        ),
        forall|i: int|
            0 <= i < runtime_steps(world, runtime_start(platform, false)).len() ==> !changes_disk(
                #[trigger] runtime_steps(world, runtime_start(platform, false))[i],
            ),
{
    lemma_inspection_first(platform, world);
    assert(runtime_steps(world, RuntimeData::Ready) =~= seq![RuntimeData::Ready]);
}

/// Once ready, the runtime is not looked at again in the session.
pub proof fn law_ready_runtime_is_not_inspected(platform: Platform, world: RuntimeWorld)
    requires
        world.directory is Ok,
    ensures
        runtime_steps(world, runtime_start(platform, true)) == seq![
            RuntimeData::LocateReady,
            RuntimeData::Ready,
        ],
{
    reveal_with_fuel(runtime_steps, 3);
}

/// One step, or none.
pub open spec fn step_if(condition: bool, step: RuntimeData) -> Seq<RuntimeData> {
    if condition {
        seq![step]
    } else {
        Seq::empty()
    }
}

/// The steps of an extraction in which nothing fails, once the files are in place.
pub open spec fn finishing(job: JobData) -> Seq<RuntimeData> {
    step_if(job.platform != Platform::Windows, RuntimeData::SetModes(job)) + step_if(
        job.platform == Platform::MacOs,
        RuntimeData::Unquarantine(job),
    ) + seq![RuntimeData::WriteMarker(job), RuntimeData::Ready]
}

/// The steps that put the files in place, if nothing fails.
pub open spec fn placing(job: JobData, cloned: bool) -> Seq<RuntimeData> {
    let mac = job.platform == Platform::MacOs;
    step_if(mac, RuntimeData::CloneTree(job)) + step_if(
        !(mac && cloned),
        RuntimeData::CopyTree(job),
    )
}

/// The steps of an extraction in which nothing fails, from the announcement on.
pub open spec fn extraction(job: JobData, world: RuntimeWorld) -> Seq<RuntimeData> {
    seq![RuntimeData::CheckOld(job)] + step_if(world.old_present, RuntimeData::ClearOld(job))
        + seq![RuntimeData::MakeParent(job)] + placing(job, world.cloned) + finishing(job)
}

proof fn lemma_finishing(job: JobData, world: RuntimeWorld)
    requires
        world.marking is Ok,
    ensures
        runtime_steps(world, after_files(job)) == finishing(job),
{
    reveal_with_fuel(runtime_steps, 5);
}

proof fn lemma_placing(job: JobData, world: RuntimeWorld)
    requires
        world.parent is Ok,
        world.copy is Ok,
        world.marking is Ok,
    ensures
        runtime_steps(world, RuntimeData::MakeParent(job)) == seq![RuntimeData::MakeParent(job)]
            + placing(job, world.cloned) + finishing(job),
{
    lemma_finishing(job, world);
    let last = finishing(job);
    assert(runtime_steps(world, RuntimeData::CopyTree(job)) =~= seq![RuntimeData::CopyTree(job)]
        + last);
    assert(runtime_steps(world, RuntimeData::CloneTree(job)) =~= seq![RuntimeData::CloneTree(job)]
        + runtime_steps(world, after_clone(job, world.cloned)));
    assert(runtime_steps(world, RuntimeData::MakeParent(job)) =~= seq![RuntimeData::MakeParent(job)]
        + runtime_steps(world, after_make_parent(job, world.parent)));
}

/// A runtime of another version, or one without its Node binary, is replaced:
/// what is there is cleared away before anything is put in its place, and the
/// marker comes last.
pub proof fn law_other_runtime_is_replaced(platform: Platform, world: RuntimeWorld)
    requires
        located(world),
        !up_to_date(world),
        world.removal is Ok,
        world.parent is Ok,
        world.copy is Ok,
        world.marking is Ok,
    ensures
        runtime_steps(world, runtime_start(platform, false)) == inspection(platform, world)
            + extraction(job_in(platform, world), world),
{
    let job = job_in(platform, world);
    lemma_inspection_first(platform, world);
    lemma_placing(job, world);
    let placed = runtime_steps(world, RuntimeData::MakeParent(job));
    assert(runtime_steps(world, RuntimeData::ClearOld(job)) =~= seq![RuntimeData::ClearOld(job)]
        + placed);
    assert(runtime_steps(world, RuntimeData::CheckOld(job)) =~= extraction(job, world));
}

/// What making the runtime ready comes to: ready, or the message of the first
/// failure that stops it.
pub open spec fn runtime_outcome(platform: Platform, ready: bool, world: RuntimeWorld) -> Result<
    (),
    Seq<char>,
> {
    if ready {
        world.directory
    } else if world.bundle is Err {
        Err(world.bundle->Err_0)
    } else if world.wanted is Err {
        Err(NO_VERSION@ + world.wanted->Err_0)
    } else if world.directory is Err {
        world.directory
    } else if up_to_date(world) {
        Ok(())
    } else if world.old_present && world.removal is Err {
        world.removal
    } else if world.parent is Err {
        Err(crate::failure::about_path(MAKE_PARENT_FAILED@, world.parent->Err_0))
    } else if !(platform == Platform::MacOs && world.cloned) && world.copy is Err {
        world.copy
    } else if world.marking is Err {
        Err(crate::copying::copy_message(platform, world.marking->Err_0))
    } else {
        Ok(())
    }
}

/// Two steps that follow one another end the same.
proof fn lemma_same_end(world: RuntimeWorld, step: RuntimeData)
    ensures
        runtime_steps(world, step).len() > 0,
        runtime_steps(world, step).last() == runtime_steps(
            world,
            runtime_next(world, step),
        ).last(),
    decreases steps_left(step),
{
    if steps_left(step) > 0 {
        lemma_same_end(world, runtime_next(world, step));
    }
}

/// How the steps end once the directory around the runtime is to be created.
proof fn lemma_placing_ends(world: RuntimeWorld, job: JobData)
    ensures
        runtime_steps(world, RuntimeData::MakeParent(job)).last() == (if world.parent is Err {
            RuntimeData::Failed(
                crate::failure::about_path(MAKE_PARENT_FAILED@, world.parent->Err_0),
            )
        } else if !(job.platform == Platform::MacOs && world.cloned) && world.copy is Err {
            RuntimeData::Failed(world.copy->Err_0)
        } else {
            after_write_marker(job, world.marking)
        }),
{
    lemma_same_end(world, RuntimeData::MakeParent(job));
    lemma_same_end(world, RuntimeData::CloneTree(job));
    lemma_same_end(world, RuntimeData::CopyTree(job));
    lemma_same_end(world, RuntimeData::SetModes(job));
    lemma_same_end(world, RuntimeData::Unquarantine(job));
    lemma_same_end(world, RuntimeData::WriteMarker(job));
}

/// The steps end, and they end as [`runtime_outcome`] says.
pub proof fn law_runtime_outcome(platform: Platform, ready: bool, world: RuntimeWorld)
    ensures
        runtime_steps(world, runtime_start(platform, ready)).last() == or_failed(
            runtime_outcome(platform, ready, world),
            RuntimeData::Ready,
        ),
{
    let job = job_in(platform, world);
    lemma_same_end(world, runtime_start(platform, ready));
    lemma_same_end(world, RuntimeData::ReadWanted(platform, job.bundle));
    lemma_same_end(world, RuntimeData::LocateRuntime(job));
    lemma_same_end(world, RuntimeData::Inspect(job));
    lemma_same_end(world, RuntimeData::CheckOld(job));
    lemma_same_end(world, RuntimeData::ClearOld(job));
    lemma_placing_ends(world, job);
}

/// What is found in the directory to extract to: what the marker says, if it
/// can be read, and whether the Node binary is there.
pub struct Target {
    pub marker: Option<Seq<char>>,
    pub node_present: bool,
}

/// What the operations on that directory leave there.
pub struct Residue {
    /// After a removal that failed.
    pub uncleared: Target,
    /// Whether the Node binary is there after a clone, and after a copy.
    pub node_cloned: bool,
    pub node_copied: bool,
    /// What the marker says after it was written, or could not be.
    pub marked: Option<Seq<char>>,
}

/// What holds of what the operations leave: an absent directory holds nothing,
/// a failed removal adds nothing, and the marker says what was to be written
/// exactly if writing it did not fail.
pub open spec fn faithful(world: RuntimeWorld, residue: Residue) -> bool {
    &&& !world.old_present ==> world.marker is None && !world.node_present
    &&& residue.uncleared.marker is None || residue.uncleared.marker == world.marker
    &&& residue.uncleared.node_present ==> world.node_present
    &&& world.marking is Ok <==> residue.marked == Some(world.wanted->Ok_0)
}

/// What is found in the directory after `step` was carried out, if `target`
/// was found before it. A clone and a copy leave out the marker.
pub open spec fn target_after(
    world: RuntimeWorld,
    residue: Residue,
    step: RuntimeData,
    target: Target,
) -> Target {
    match step {
        RuntimeData::ClearOld(_) => if world.removal is Ok {
            Target { marker: None, node_present: false }
        } else {
            residue.uncleared
        },
        RuntimeData::CloneTree(_) => Target { node_present: residue.node_cloned, ..target },
        RuntimeData::CopyTree(_) => Target { node_present: residue.node_copied, ..target },
        RuntimeData::WriteMarker(_) => Target { marker: residue.marked, ..target },
        _ => target,
    }
}

/// What is found in the directory after the first `done` of the steps from `step` on.
pub open spec fn target_at(
    world: RuntimeWorld,
    residue: Residue,
    step: RuntimeData,
    target: Target,
    done: nat,
) -> Target
    decreases done,
{
    if done == 0 {
        target
    } else {
        target_at(
            world,
            residue,
            runtime_next(world, step),
            target_after(world, residue, step, target),
            (done - 1) as nat,
        )
    }
}

/// The step that the first `done` of the steps from `step` on lead to.
pub open spec fn step_at(world: RuntimeWorld, step: RuntimeData, done: nat) -> RuntimeData
    decreases done,
{
    if done == 0 {
        step
    } else {
        step_at(world, runtime_next(world, step), (done - 1) as nat)
    }
}

/// What is found in the directory before anything is done to it.
pub open spec fn target_in(world: RuntimeWorld) -> Target {
    Target { marker: world.marker, node_present: world.node_present }
}

/// Whether `step` belongs to the extraction of `job` and `target` is what may be found
/// by then: no marker that says the wanted version once the old directory is out of the way.
spec fn unfinished(
    world: RuntimeWorld,
    job: JobData,
    step: RuntimeData,
    target: Target,
) -> bool {
    match step {
        RuntimeData::LocateBundle(platform) => platform == job.platform && target == target_in(
            world,
        ),
        RuntimeData::ReadWanted(platform, bundle) => platform == job.platform && bundle
            == job.bundle && target == target_in(world),
        RuntimeData::LocateRuntime(j) => j == job && target == target_in(world),
        RuntimeData::Inspect(j) => j == job && target == target_in(world),
        RuntimeData::CheckOld(j) => j == job && target == target_in(world),
        RuntimeData::ClearOld(j) => j == job && target == target_in(world) && world.old_present,
        RuntimeData::MakeParent(j) => j == job && target.marker is None,
        RuntimeData::CloneTree(j) => j == job && target.marker is None,
        RuntimeData::CopyTree(j) => j == job && target.marker is None,
        RuntimeData::SetModes(j) => j == job && target.marker is None,
        RuntimeData::Unquarantine(j) => j == job && target.marker is None,
        RuntimeData::WriteMarker(j) => j == job && target.marker is None,
        RuntimeData::Failed(_) => after_inspect(job, target.marker, target.node_present)
            == RuntimeData::CheckOld(job) && (world.removal is Ok || !world.old_present
            ==> target.marker != Some(job.wanted)),
        RuntimeData::Ready => target.marker == Some(job.wanted),
        RuntimeData::LocateReady => false,
    }
}

proof fn lemma_unfinished(
    world: RuntimeWorld,
    residue: Residue,
    job: JobData,
    step: RuntimeData,
    target: Target,
    done: nat,
)
    requires
        located(world),
        !up_to_date(world),
        faithful(world, residue),
        job.bundle == world.bundle->Ok_0,
        job.wanted == world.wanted->Ok_0,
        unfinished(world, job, step, target),
    ensures
        unfinished(
            world,
            job,
            step_at(world, step, done),
            target_at(world, residue, step, target, done),
        ),
    decreases done,
{
    if done > 0 {
        let next = runtime_next(world, step);
        let after = target_after(world, residue, step, target);
        assert(unfinished(world, job, next, after));
        lemma_unfinished(world, residue, job, next, after, (done - 1) as nat);
    }
}

/// The marker marks completion. An extraction may stop after whatever number
/// of steps, because one of them failed or because nothing came after it: as
/// long as it is not ready, what is found in the directory makes the next one
/// extract anew. Once the old directory is out of the way, there is no marker
/// with the wanted version until the runtime is ready.
pub proof fn law_marker_marks_completion(
    platform: Platform,
    world: RuntimeWorld,
    residue: Residue,
    done: nat,
)
    requires
        located(world),
        !up_to_date(world),
        faithful(world, residue),
    ensures
        ({
            let start = runtime_start(platform, false);
            let job = job_in(platform, world);
            let step = step_at(world, start, done);
            let target = target_at(world, residue, start, target_in(world), done);
            &&& step !is Ready ==> after_inspect(job, target.marker, target.node_present)
                == RuntimeData::CheckOld(job)
            &&& step is Ready ==> target.marker == Some(job.wanted)
            &&& step is MakeParent || step is CloneTree || step is CopyTree || step is SetModes
                || step is Unquarantine || step is WriteMarker ==> target.marker != Some(
                job.wanted,
            )
            &&& step is Failed && (world.removal is Ok || !world.old_present) ==> target.marker
                != Some(job.wanted)
        }),
{
    lemma_unfinished(
        world,
        residue,
        job_in(platform, world),
        runtime_start(platform, false),
        target_in(world),
        done,
    );
}

/// A runtime that an extraction has made ready, and whose Node binary was
/// among what was extracted, is the one that is wanted the next time.
pub proof fn law_extracted_runtime_is_current(
    platform: Platform,
    world: RuntimeWorld,
    residue: Residue,
    done: nat,
)
    requires
        located(world),
        !up_to_date(world),
        faithful(world, residue),
        step_at(world, runtime_start(platform, false), done) is Ready,
    ensures
        ({
            let start = runtime_start(platform, false);
            let target = target_at(world, residue, start, target_in(world), done);
            target.node_present ==> after_inspect(
                job_in(platform, world),
                target.marker,
                target.node_present,
            ) == RuntimeData::Ready
        }),
{
    law_marker_marks_completion(platform, world, residue, done);
}

/// A step carries its platform, its bundle and its version, all of them.
pub proof fn law_runtime_step_data(step: RuntimeStep, job: Job)
    ensures
        job@ == (JobData { platform: job.platform, bundle: job.bundle, wanted: job.wanted@ }),
        match step {
            RuntimeStep::LocateReady(_) => step@ is LocateReady,
            RuntimeStep::LocateBundle(s) => step@ == RuntimeData::LocateBundle(s.platform),
            RuntimeStep::ReadWanted(s) => step@ == RuntimeData::ReadWanted(s.platform, s.bundle),
            RuntimeStep::LocateRuntime(s) => step@ == RuntimeData::LocateRuntime(s.job@),
            RuntimeStep::Inspect(s) => step@ == RuntimeData::Inspect(s.job@),
            RuntimeStep::CheckOld(s) => step@ == RuntimeData::CheckOld(s.job@),
            RuntimeStep::ClearOld(s) => step@ == RuntimeData::ClearOld(s.job@),
            RuntimeStep::MakeParent(s) => step@ == RuntimeData::MakeParent(s.job@),
            RuntimeStep::CloneTree(s) => step@ == RuntimeData::CloneTree(s.job@),
            RuntimeStep::CopyTree(s) => step@ == RuntimeData::CopyTree(s.job@),
            RuntimeStep::SetModes(s) => step@ == RuntimeData::SetModes(s.job@),
            RuntimeStep::Unquarantine(s) => step@ == RuntimeData::Unquarantine(s.job@),
            RuntimeStep::WriteMarker(s) => step@ == RuntimeData::WriteMarker(s.job@),
            RuntimeStep::Ready => step@ is Ready,
            RuntimeStep::Failed(message) => step@ == RuntimeData::Failed(message@),
        },
{
}

/// So does a step of the search for the bundle.
pub proof fn law_bundle_step_data(step: BundleStep)
    ensures
        match step {
            BundleStep::CheckBundled(s) => step@ == (BundleData::CheckBundled {
                platform: s.platform,
                debug: s.debug,
            }),
            BundleStep::CheckSource(s) => step@ == BundleData::CheckSource(s.platform),
            BundleStep::Found(root) => step@ == BundleData::Found(root),
            BundleStep::NotFound(message) => step@ == BundleData::NotFound(message@),
        },
{
}

/// The search for the bundle ends with the first place that has it: the
/// resources, then, in a debug build alone, the source tree. Where neither has
/// it, the user is told how to prepare one.
pub proof fn law_bundle_answers(platform: Platform, debug: bool, message: Seq<char>)
    ensures
        bundle_start(platform, Ok(()), debug) == (BundleData::CheckBundled { platform, debug }),
        bundle_start(platform, Err(message), debug) == BundleData::NotFound(message),
        after_check_bundled(platform, debug, true) == BundleData::Found(Root::Resources),
        after_check_bundled(platform, true, false) == BundleData::CheckSource(platform),
        after_check_bundled(platform, false, false) == BundleData::NotFound(
            "未找到内嵌运行环境，请先执行 scripts/prepare-runtime.sh"@,
        ),
        after_check_source(true) == BundleData::Found(Root::SourceTree),
        after_check_source(false) == BundleData::NotFound(
            "未找到内嵌运行环境，请先执行 scripts/prepare-runtime.sh"@,
        ),
{
}

/// Before anything is changed, the bundle, its version and the directory are
/// found out about, and what is not found is reported as it is. What is
/// extracted is kept exactly if its marker is the wanted version, character by
/// character, and its Node binary is there.
pub proof fn law_inspection_answers(
    platform: Platform,
    bundle: Root,
    wanted: Seq<char>,
    marker: Option<Seq<char>>,
    message: Seq<char>,
)
    ensures
        runtime_start(platform, false) == RuntimeData::LocateBundle(platform),
        runtime_start(platform, true) is LocateReady,
        after_locate_bundle(platform, Ok(bundle)) == RuntimeData::ReadWanted(platform, bundle),
        after_locate_bundle(platform, Err(message)) == RuntimeData::Failed(message),
        ({
            let job = JobData { platform, bundle, wanted };
            &&& after_read_wanted(platform, bundle, Ok(wanted)) == RuntimeData::LocateRuntime(job)
            &&& after_read_wanted(platform, bundle, Err(message)) == RuntimeData::Failed(
                "内嵌运行环境缺少版本标记: "@ + message,
            )
            &&& or_failed(Ok(()), RuntimeData::Inspect(job)) == RuntimeData::Inspect(job)
            &&& or_failed(Err(message), RuntimeData::Inspect(job)) == RuntimeData::Failed(message)
            &&& after_inspect(job, Some(wanted), true) is Ready
            &&& after_inspect(job, marker, false) == RuntimeData::CheckOld(job)
            &&& marker != Some(wanted) ==> after_inspect(job, marker, true)
                == RuntimeData::CheckOld(job)
        }),
{
}

/// How an extraction goes on, whatever is extracted: an old directory is
/// cleared first; macOS clones, and copies where that fails, the others copy;
/// Unix marks executables, macOS takes off the quarantine; the marker is last.
/// A failure of removing, creating, copying or marking stops it, and is told.
pub proof fn law_extraction_answers(
    job: JobData,
    next: RuntimeData,
    path: Seq<char>,
    to: Seq<char>,
    text: Seq<char>,
    code: Option<i32>,
)
    ensures
        after_check_old(job, true) == RuntimeData::ClearOld(job),
        after_check_old(job, false) == RuntimeData::MakeParent(job),
        or_failed(Ok(()), next) == next,
        or_failed(Err(text), next) == RuntimeData::Failed(text),
        job.platform == Platform::MacOs ==> after_make_parent(job, Ok(()))
            == RuntimeData::CloneTree(job),
        job.platform != Platform::MacOs ==> after_make_parent(job, Ok(()))
            == RuntimeData::CopyTree(job),
        after_clone(job, false) == RuntimeData::CopyTree(job),
        after_clone(job, true) == after_files(job),
        job.platform == Platform::Windows ==> after_files(job) == RuntimeData::WriteMarker(job),
        job.platform != Platform::Windows ==> after_files(job) == RuntimeData::SetModes(job),
        job.platform == Platform::MacOs ==> after_set_modes(job) == RuntimeData::Unquarantine(job),
        job.platform != Platform::MacOs ==> after_set_modes(job) == RuntimeData::WriteMarker(job),
        after_write_marker(job, Ok(())) is Ready,
        ({
            let failure = crate::failure::IoFailureData { text, code };
            let told = "复制文件失败 ("@ + path + " -> "@ + to + "): "@ + text;
            &&& after_make_parent(job, Err(PathFailureData { path, failure }))
                == RuntimeData::Failed("创建数据目录失败 ("@ + path + "): "@ + text)
            &&& after_write_marker(job, Err(CopyFailureData { from: path, to, failure }))
                == RuntimeData::Failed(
                if job.platform == Platform::Windows && code == Some(5i32) {
                    told + "；通常是杀软拦截，或上一个 DSH 进程(node.exe)仍残留占用——请将安装目录与 %APPDATA%/com.deepseek-harness.desktop 加入杀软白名单，并在任务管理器中结束残留的 node.exe"@
                } else {
                    told
                },
            )
        }),
{
    reveal_strlit("");
    let told = "复制文件失败 ("@ + path + " -> "@ + to + "): "@ + text;
    assert(told + ""@ =~= told);
}

/// What is marked executable is the Node binary and the two launchers, in the
/// extracted runtime, with read and execute permission for all.
pub proof fn law_executables(platform: Platform)
    ensures
        executables_data(platform).len() == 3,
        executables_data(platform)[0] == (PlaceData {
            root: Root::AppData,
            parts: seq![
                "runtime"@,
                if platform == Platform::Windows {
                    "node.exe"@
                } else {
                    "node"@
                },
            ],
        }),
        executables_data(platform)[1] == (PlaceData {
            root: Root::AppData,
            parts: seq!["runtime"@, "npm"@],
        }),
        executables_data(platform)[2] == (PlaceData {
            root: Root::AppData,
            parts: seq!["runtime"@, "pnpm"@],
        }),
        EXECUTABLE_MODE == 0o755,
{
    crate::place::law_runtime_layout(platform, Root::AppData);
    assert(seq!["runtime"@].push("npm"@) =~= seq!["runtime"@, "npm"@]);
    assert(seq!["runtime"@].push("pnpm"@) =~= seq!["runtime"@, "pnpm"@]);
}

} // verus!
