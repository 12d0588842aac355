//! Putting the market plugin into the web profile.

use vstd::prelude::*;

use crate::failure::{labelled, path_message, PathFailure, PathFailureData};
use crate::manifest::{fresh_manifest, seeded_manifest, Seeding, SeedingData};
use crate::place::{web_profile_dir, Place, PlaceData};

verus! {

/// File name of a profile's manifest.
pub const MANIFEST_FILE: &'static str = "package.json";

/// File name of a profile's patch layer.
pub const PATCH_FILE: &'static str = "cordis.patch.yml";

/// File name of a profile's pnpm settings.
pub const WORKSPACE_FILE: &'static str = "pnpm-workspace.yaml";

/// File name of the record that the market plugin was put into a profile.
pub const RECORD_FILE: &'static str = ".dsh-market-seeded";

/// What that record holds.
pub const RECORD_CONTENTS: &'static str = "dshmarket\n";

/// The empty user patch layer that DSH writes into a fresh profile.
pub const PROFILE_PATCH_TEMPLATE: &'static str =
    "# Your patch layer for this dsh profile, applied after every bundle layer:\n# a top-level YAML array of loader patch entries (id-targeted config\n# overrides, disables, and insert lists; `!!js` expressions allowed).\n[]\n";

/// The pnpm settings that DSH writes into a fresh profile, so that the
/// market's own installs behave the same here.
pub const PROFILE_PNPM_WORKSPACE: &'static str =
    "packages:\n  - .\n\nnodeLinker: hoisted\nautoInstallPeers: false\n";

/// What precedes a profile directory that could not be created.
pub const MAKE_PROFILE_FAILED: &'static str = "创建 profile 目录失败 (";

/// What precedes the reason for which the manifest could not be written.
pub const WRITE_MANIFEST_FAILED: &'static str = "写入 profile manifest 失败: ";

/// What precedes the reason for which the patch layer could not be written.
pub const WRITE_PATCH_FAILED: &'static str = "写入 cordis.patch.yml 失败: ";

/// What precedes the reason for which the pnpm settings could not be written.
pub const WRITE_WORKSPACE_FAILED: &'static str = "写入 pnpm-workspace.yaml 失败: ";

/// What precedes the reason for which the manifest could not be read.
pub const READ_MANIFEST_FAILED: &'static str = "读取 profile manifest 失败: ";

/// The manifest is to be looked for.
#[derive(Debug, PartialEq, Eq)]
pub struct CheckManifest {
    /// Whether `DSH_HOME` is set and, if so, empty.
    pub variable_is_empty: Option<bool>,
}

/// The profile's directory is to be created.
#[derive(Debug, PartialEq, Eq)]
pub struct MakeProfile {
    /// Whether `DSH_HOME` is set and, if so, empty.
    pub variable_is_empty: Option<bool>,
}

/// The manifest is to be read, and the record of the market plugin looked for.
#[derive(Debug, PartialEq, Eq)]
pub struct ReadManifest {
    /// Whether `DSH_HOME` is set and, if so, empty.
    pub variable_is_empty: Option<bool>,
}

/// The manifest is to be written.
#[derive(Debug, PartialEq, Eq)]
pub struct WriteManifest {
    /// Whether `DSH_HOME` is set and, if so, empty.
    pub variable_is_empty: Option<bool>,
    pub contents: String,
    /// Whether the profile is a fresh one, whose other files are missing too.
    pub fresh: bool,
}

/// The patch layer is to be written.
#[derive(Debug, PartialEq, Eq)]
pub struct WritePatch {
    /// Whether `DSH_HOME` is set and, if so, empty.
    pub variable_is_empty: Option<bool>,
}

/// The pnpm settings are to be written.
#[derive(Debug, PartialEq, Eq)]
pub struct WriteWorkspace {
    /// Whether `DSH_HOME` is set and, if so, empty.
    pub variable_is_empty: Option<bool>,
}

/// That the market plugin was put in is to be recorded.
#[derive(Debug, PartialEq, Eq)]
pub struct WriteRecord {
    /// Whether `DSH_HOME` is set and, if so, empty.
    pub variable_is_empty: Option<bool>,
}

/// What to do next.
#[derive(Debug, PartialEq, Eq)]
pub enum SeedStep {
    CheckManifest(CheckManifest),
    MakeProfile(MakeProfile),
    ReadManifest(ReadManifest),
    WriteManifest(WriteManifest),
    WritePatch(WritePatch),
    WriteWorkspace(WriteWorkspace),
    WriteRecord(WriteRecord),
    Done,
    Failed(String),
}

/// A [`SeedStep`] with its texts as character sequences. The optional truth
/// value says whether `DSH_HOME` is set and, if so, empty.
pub enum SeedData {
    CheckManifest(Option<bool>),
    MakeProfile(Option<bool>),
    ReadManifest(Option<bool>),
    WriteManifest { home: Option<bool>, contents: Seq<char>, fresh: bool },
    WritePatch(Option<bool>),
    WriteWorkspace(Option<bool>),
    WriteRecord(Option<bool>),
    Done,
    Failed(Seq<char>),
}

impl View for SeedStep {
    type V = SeedData;

    open spec fn view(&self) -> SeedData {
        match self {
            SeedStep::CheckManifest(s) => SeedData::CheckManifest(s.variable_is_empty),
            SeedStep::MakeProfile(s) => SeedData::MakeProfile(s.variable_is_empty),
            SeedStep::ReadManifest(s) => SeedData::ReadManifest(s.variable_is_empty),
            SeedStep::WriteManifest(s) => SeedData::WriteManifest {
                home: s.variable_is_empty,
                contents: s.contents@,
                fresh: s.fresh,
            },
            SeedStep::WritePatch(s) => SeedData::WritePatch(s.variable_is_empty),
            SeedStep::WriteWorkspace(s) => SeedData::WriteWorkspace(s.variable_is_empty),
            SeedStep::WriteRecord(s) => SeedData::WriteRecord(s.variable_is_empty),
            SeedStep::Done => SeedData::Done,
            SeedStep::Failed(message) => SeedData::Failed(message@),
        }
    }
}

/// Goes on with `next`, unless something failed.
pub open spec fn seed_or_failed(
    label: Seq<char>,
    outcome: Result<(), Seq<char>>,
    next: SeedData,
) -> SeedData {
    match outcome {
        Ok(()) => next,
        Err(message) => SeedData::Failed(label + message),
    }
}

/// The manifest is looked for once it is known where the user's home is.
pub open spec fn seed_start(
    user_home: Result<(), Seq<char>>,
    home: Option<bool>,
) -> SeedData {
    seed_or_failed(Seq::empty(), user_home, SeedData::CheckManifest(home))
}

/// A manifest that is there is read, a profile without one is made.
pub open spec fn after_check_manifest(home: Option<bool>, present: bool) -> SeedData {
    if present {
        SeedData::ReadManifest(home)
    } else {
        SeedData::MakeProfile(home)
    }
}

/// A fresh profile gets a manifest that lists the market plugin.
pub open spec fn after_make_profile(
    home: Option<bool>,
    outcome: Result<(), PathFailureData>,
) -> SeedData {
    match outcome {
        Ok(()) => SeedData::WriteManifest {
            home,
            contents: crate::json::json_pretty(crate::manifest::fresh_data()) + "\n"@,
            fresh: true,
        },
        Err(failed) => SeedData::Failed(
            crate::failure::about_path(MAKE_PROFILE_FAILED@, failed),
        ),
    }
}

/// A manifest is rewritten only where seeding gives a new text for it. One
/// that lists the market plugin is recorded if it was not yet.
pub open spec fn after_read_manifest(
    home: Option<bool>,
    outcome: Result<Seq<char>, Seq<char>>,
    seeded_before: bool,
) -> SeedData {
    match outcome {
        Ok(text) => match crate::manifest::seeding(text, seeded_before) {
            Ok(SeedingData::Rewrite(contents)) => SeedData::WriteManifest {
                home,
                contents,
                fresh: false,
            },
            Ok(SeedingData::Remember) => SeedData::WriteRecord(home),
            Ok(SeedingData::Keep) => SeedData::Done,
            Err(message) => SeedData::Failed(message),
        },
        Err(message) => SeedData::Failed(READ_MANIFEST_FAILED@ + message),
    }
}

/// A fresh profile gets its other files after the manifest. The record comes last.
pub open spec fn after_write_manifest(
    home: Option<bool>,
    fresh: bool,
    outcome: Result<(), Seq<char>>,
) -> SeedData {
    seed_or_failed(
        WRITE_MANIFEST_FAILED@,
        outcome,
        if fresh {
            SeedData::WritePatch(home)
        } else {
            SeedData::WriteRecord(home)
        },
    )
}

/// Starts to put the market plugin into the web profile: `user_home` says
/// whether the user's home directory is known, `variable_is_empty` whether
/// `DSH_HOME` is set and, if so, empty. Only a fresh profile or a manifest
/// with the default bundle list is changed. A bundle list that the user has
/// customised, or from which they removed the plugin, is left alone.
pub fn seed_dsh_market(
    user_home: Result<(), String>,
    variable_is_empty: Option<bool>,
) -> (step: SeedStep)
    ensures
        step@ == seed_start(crate::failure::texted(user_home), variable_is_empty),
{
    match user_home {
        Ok(()) => SeedStep::CheckManifest(CheckManifest { variable_is_empty }),
        Err(message) => {
            assert(Seq::empty() + message@ =~= message@);
            SeedStep::Failed(message)
        },
    }
}

/// The manifest of the web profile.
pub open spec fn manifest_place(home: Option<bool>) -> PlaceData {
    crate::place::web_profile_data(home).join(MANIFEST_FILE@)
}

/// The manifest of the web profile.
fn manifest_file(variable_is_empty: Option<bool>) -> (place: Place)
    ensures
        place@ == manifest_place(variable_is_empty),
{
    web_profile_dir(variable_is_empty).join(MANIFEST_FILE)
}

/// The record that the market plugin was put into the web profile.
pub open spec fn record_place(home: Option<bool>) -> PlaceData {
    crate::place::web_profile_data(home).join(RECORD_FILE@)
}

/// The record that the market plugin was put into the web profile.
fn record_file(variable_is_empty: Option<bool>) -> (place: Place)
    ensures
        place@ == record_place(variable_is_empty),
{
    web_profile_dir(variable_is_empty).join(RECORD_FILE)
}

impl CheckManifest {
    /// The file to look for.
    pub fn file(&self) -> (place: Place)
        ensures
            place@ == manifest_place(self.variable_is_empty),
    {
        manifest_file(self.variable_is_empty)
    }

    /// The manifest is there, or not.
    pub fn checked(self, present: bool) -> (step: SeedStep)
        ensures
            step@ == after_check_manifest(self.variable_is_empty, present),
    {
        let variable_is_empty = self.variable_is_empty;
        if present {
            SeedStep::ReadManifest(ReadManifest { variable_is_empty })
        } else {
            SeedStep::MakeProfile(MakeProfile { variable_is_empty })
        }
    }
}

impl MakeProfile {
    /// The directory to create, with those around it.
    pub fn directory(&self) -> (place: Place)
        ensures
            place@ == crate::place::web_profile_data(self.variable_is_empty),
    {
        web_profile_dir(self.variable_is_empty)
    }

    /// The directory is there now, or not.
    pub fn made(self, outcome: Result<(), PathFailure>) -> (step: SeedStep)
        ensures
            step@ == after_make_profile(
                self.variable_is_empty,
                crate::failure::path_outcome(outcome),
            ),
    {
        match outcome {
            Ok(()) => SeedStep::WriteManifest(
                WriteManifest {
                    variable_is_empty: self.variable_is_empty,
                    contents: fresh_manifest(),
                    fresh: true,
                },
            ),
            Err(failed) => SeedStep::Failed(path_message(MAKE_PROFILE_FAILED, &failed)),
        }
    }
}

impl ReadManifest {
    /// The file to read.
    pub fn file(&self) -> (place: Place)
        ensures
            place@ == manifest_place(self.variable_is_empty),
    {
        manifest_file(self.variable_is_empty)
    }

    /// The record to look for.
    pub fn record(&self) -> (place: Place)
        ensures
            place@ == record_place(self.variable_is_empty),
    {
        record_file(self.variable_is_empty)
    }

    /// The manifest has been read, or not. `seeded_before` says whether there
    /// is a record that the market plugin was put in.
    pub fn read(self, outcome: Result<String, String>, seeded_before: bool) -> (step: SeedStep)
        ensures
            step@ == after_read_manifest(
                self.variable_is_empty,
                crate::failure::text_outcome(outcome),
                seeded_before,
            ),
    {
        let variable_is_empty = self.variable_is_empty;
        match outcome {
            Ok(text) => match seeded_manifest(text.as_str(), seeded_before) {
                Ok(Seeding::Rewrite(contents)) => SeedStep::WriteManifest(
                    WriteManifest { variable_is_empty, contents, fresh: false },
                ),
                Ok(Seeding::Remember) => SeedStep::WriteRecord(WriteRecord { variable_is_empty }),
                Ok(Seeding::Keep) => SeedStep::Done,
                Err(message) => SeedStep::Failed(message),
            },
            Err(message) => SeedStep::Failed(labelled(READ_MANIFEST_FAILED, message.as_str())),
        }
    }
}

impl WriteManifest {
    /// The file to write.
    pub fn file(&self) -> (place: Place)
        ensures
            place@ == manifest_place(self.variable_is_empty),
    {
        manifest_file(self.variable_is_empty)
    }

    /// The manifest has been written, or not.
    pub fn written(self, outcome: Result<(), String>) -> (step: SeedStep)
        ensures
            step@ == after_write_manifest(
                self.variable_is_empty,
                self.fresh,
                crate::failure::texted(outcome),
            ),
    {
        match outcome {
            Ok(()) => if self.fresh {
                SeedStep::WritePatch(WritePatch { variable_is_empty: self.variable_is_empty })
            } else {
                SeedStep::WriteRecord(WriteRecord { variable_is_empty: self.variable_is_empty })
            },
            Err(message) => SeedStep::Failed(labelled(WRITE_MANIFEST_FAILED, message.as_str())),
        }
    }
}

impl WritePatch {
    /// The file to write.
    pub fn file(&self) -> (place: Place)
        ensures
            place@ == crate::place::web_profile_data(self.variable_is_empty).join(PATCH_FILE@),
    {
        web_profile_dir(self.variable_is_empty).join(PATCH_FILE)
    }

    /// What to write.
    pub fn contents(&self) -> (text: &'static str)
        ensures
            text@ == PROFILE_PATCH_TEMPLATE@,
    {
        PROFILE_PATCH_TEMPLATE
    }

    /// The patch layer has been written, or not.
    pub fn written(self, outcome: Result<(), String>) -> (step: SeedStep)
        ensures
            step@ == seed_or_failed(
                WRITE_PATCH_FAILED@,
                crate::failure::texted(outcome),
                SeedData::WriteWorkspace(self.variable_is_empty),
            ),
    {
        match outcome {
            Ok(()) => SeedStep::WriteWorkspace(
                WriteWorkspace { variable_is_empty: self.variable_is_empty },
            ),
            Err(message) => SeedStep::Failed(labelled(WRITE_PATCH_FAILED, message.as_str())),
        }
    }
}

impl WriteWorkspace {
    /// The file to write.
    pub fn file(&self) -> (place: Place)
        ensures
            place@ == crate::place::web_profile_data(self.variable_is_empty).join(
                WORKSPACE_FILE@,
            ),
    {
        web_profile_dir(self.variable_is_empty).join(WORKSPACE_FILE)
    }

    /// What to write.
    pub fn contents(&self) -> (text: &'static str)
        ensures
            text@ == PROFILE_PNPM_WORKSPACE@,
    {
        PROFILE_PNPM_WORKSPACE
    }

    /// The pnpm settings have been written, or not.
    pub fn written(self, outcome: Result<(), String>) -> (step: SeedStep)
        ensures
            step@ == seed_or_failed(
                WRITE_WORKSPACE_FAILED@,
                crate::failure::texted(outcome),
                SeedData::WriteRecord(self.variable_is_empty),
            ),
    {
        match outcome {
            Ok(()) => SeedStep::WriteRecord(
                WriteRecord { variable_is_empty: self.variable_is_empty },
            ),
            Err(message) => SeedStep::Failed(labelled(WRITE_WORKSPACE_FAILED, message.as_str())),
        }
    }
}

impl WriteRecord {
    /// The file to write.
    pub fn file(&self) -> (place: Place)
        ensures
            place@ == record_place(self.variable_is_empty),
    {
        record_file(self.variable_is_empty)
    }

    /// What to write.
    pub fn contents(&self) -> (text: &'static str)
        ensures
            text@ == RECORD_CONTENTS@,
    {
        RECORD_CONTENTS
    }

    /// The record has been written, as far as that was possible.
    pub fn recorded(self) -> (step: SeedStep)
        ensures
            step@ == SeedData::Done,
    {
        SeedStep::Done
    }
}

/// What seeding meets on the disk: the manifest's text, if it is there,
/// whether the record is there, and the outcome of each operation.
pub struct SeedWorld {
    pub manifest: Option<Result<Seq<char>, Seq<char>>>,
    pub recorded: bool,
    pub directory: Result<(), PathFailureData>,
    pub write_manifest: Result<(), Seq<char>>,
    pub write_patch: Result<(), Seq<char>>,
    pub write_workspace: Result<(), Seq<char>>,
    /// Whether the record can be written.
    pub record_writable: bool,
}

/// The step that follows `step` in `world`.
pub open spec fn seed_next(world: SeedWorld, step: SeedData) -> SeedData {
    match step {
        SeedData::CheckManifest(home) => after_check_manifest(home, world.manifest is Some),
        SeedData::MakeProfile(home) => after_make_profile(home, world.directory),
        SeedData::ReadManifest(home) => after_read_manifest(
            home,
            world.manifest->Some_0,
            world.recorded,
        ),
        SeedData::WriteManifest { home, contents: _, fresh } => after_write_manifest(
            home,
            fresh,
            world.write_manifest,
        ),
        SeedData::WritePatch(home) => seed_or_failed(
            WRITE_PATCH_FAILED@,
            world.write_patch,
            SeedData::WriteWorkspace(home),
        ),
        SeedData::WriteWorkspace(home) => seed_or_failed(
            WRITE_WORKSPACE_FAILED@,
            world.write_workspace,
            SeedData::WriteRecord(home),
        ),
        SeedData::WriteRecord(_) => SeedData::Done,
        SeedData::Done => SeedData::Done,
        SeedData::Failed(message) => SeedData::Failed(message),
    }
}

/// How many steps may still follow.
pub open spec fn seed_steps_left(step: SeedData) -> nat {
    match step {
        SeedData::CheckManifest(_) => 6,
        SeedData::MakeProfile(_) => 5,
        SeedData::ReadManifest(_) => 5,
        SeedData::WriteManifest { home: _, contents: _, fresh: _ } => 4,
        SeedData::WritePatch(_) => 3,
        SeedData::WriteWorkspace(_) => 2,
        SeedData::WriteRecord(_) => 1,
        SeedData::Done => 0,
        SeedData::Failed(_) => 0,
    }
}

/// The steps from `step` on, to the last one.
pub open spec fn seed_steps(world: SeedWorld, step: SeedData) -> Seq<SeedData>
    decreases seed_steps_left(step),
{
    if seed_steps_left(step) == 0 {
        seq![step]
    } else {
        seq![step] + seed_steps(world, seed_next(world, step))
    }
}

/// A profile without a manifest gets all its files, its manifest lists the
/// market plugin, and that is to be recorded.
pub proof fn law_fresh_profile_is_complete(world: SeedWorld, home: Option<bool>)
    requires
        world.manifest is None,
        world.directory is Ok,
        world.write_manifest is Ok,
        world.write_patch is Ok,
        world.write_workspace is Ok,
    ensures
        seed_steps(world, seed_start(Ok(()), home)) == seq![
            SeedData::CheckManifest(home),
            SeedData::MakeProfile(home),
            SeedData::WriteManifest {
                home,
                contents: crate::json::json_pretty(crate::manifest::fresh_data()) + "\n"@,
                fresh: true,
            },
            SeedData::WritePatch(home),
            SeedData::WriteWorkspace(home),
            SeedData::WriteRecord(home),
            SeedData::Done,
        ],
        crate::json::at(crate::manifest::fresh_data(), crate::manifest::bundles_path()) == Some(
            crate::json::JsonData::Array(crate::manifest::seeded_bundles()),
        ),
{
    reveal_with_fuel(seed_steps, 8);
    crate::manifest::law_fresh_manifest_is_seeded();
}

/// Whether a step changes a file of the profile that is the user's.
pub open spec fn writes(step: SeedData) -> bool {
    match step {
        SeedData::MakeProfile(_) => true,
        SeedData::WriteManifest { home: _, contents: _, fresh: _ } => true,
        SeedData::WritePatch(_) => true,
        SeedData::WriteWorkspace(_) => true,
        _ => false,
    }
}

/// Of a profile that is there, nothing of the user's is written but a manifest
/// whose bundle list is the default one and has not been seeded before, and
/// that gets the text with the market plugin in it.
pub proof fn law_kept_profile_is_left_alone(
    world: SeedWorld,
    home: Option<bool>,
    text: Seq<char>,
)
    requires
        world.manifest == Some(Ok::<Seq<char>, Seq<char>>(text)),
    ensures
        ({
            let steps = seed_steps(world, seed_start(Ok(()), home));
            match crate::json::json_parse(text) {
                Ok(data) => if !world.recorded && crate::manifest::untouched(data) {
                    &&& steps[2] == SeedData::WriteManifest {
                        home,
                        contents: crate::json::json_pretty(
                            crate::json::appended(
                                data,
                                crate::manifest::bundles_path(),
                                crate::manifest::market_entry(),
                            ),
                        ) + "\n"@,
                        fresh: false,
                    }
                    &&& forall|i: int|
                        0 <= i < steps.len() && i != 2 ==> !writes(#[trigger] steps[i])
                } else {
                    &&& steps.last() is Done
                    &&& forall|i: int| 0 <= i < steps.len() ==> !writes(#[trigger] steps[i])
                },
                Err(message) => {
                    &&& steps.last() == SeedData::Failed(crate::manifest::PARSE_FAILED@ + message)
                    &&& forall|i: int| 0 <= i < steps.len() ==> !writes(#[trigger] steps[i])
                },
            }
        }),
{
    reveal_with_fuel(seed_steps, 8);
}

/// Whether the record is there after a run in `world`.
pub open spec fn record_left(world: SeedWorld, home: Option<bool>) -> bool {
    let steps = seed_steps(world, seed_start(Ok(()), home));
    world.recorded || (world.record_writable && steps.contains(SeedData::WriteRecord(home)))
}

/// The document that a run in `world` puts into the manifest, if it does.
pub open spec fn document_written(world: SeedWorld) -> Option<crate::json::JsonData> {
    match world.manifest {
        None => Some(crate::manifest::fresh_data()),
        Some(Ok(text)) => match crate::json::json_parse(text) {
            Ok(data) => crate::manifest::seeded(data, world.recorded),
            Err(_) => None,
        },
        Some(Err(_)) => None,
    }
}

/// The text of the manifest after a run in `world` that ends well.
pub open spec fn manifest_left(world: SeedWorld) -> Seq<char> {
    match document_written(world) {
        Some(data) => crate::json::json_pretty(data) + "\n"@,
        None => world.manifest->Some_0->Ok_0,
    }
}

/// A run that puts the market plugin in, or finds it there, and ends well,
/// leaves a record, if one can be written.
pub proof fn law_seeding_is_recorded(world: SeedWorld, home: Option<bool>)
    requires
        seed_steps(world, seed_start(Ok(()), home)).last() == SeedData::Done,
        world.record_writable,
    ensures
        world.manifest is None ==> record_left(world, home),
        world.manifest matches Some(Ok(text)) ==> (crate::json::json_parse(text) matches Ok(data)
            ==> (crate::manifest::untouched(data) || crate::manifest::lists_market(data)
            ==> record_left(world, home))),
{
    lemma_good_run_writes(world, home);
    let steps = seed_steps(world, seed_start(Ok(()), home));
    assert(steps.len() >= 2 ==> steps.contains(steps[steps.len() - 2]));
}

/// What a run that ends well does: it writes what [`document_written`] says
/// and nothing else of the manifest, and comes to the record last where it
/// wrote or found the market plugin.
proof fn lemma_good_run_writes(world: SeedWorld, home: Option<bool>)
    requires
        seed_steps(world, seed_start(Ok(()), home)).last() == SeedData::Done,
    ensures
        ({
            let steps = seed_steps(world, seed_start(Ok(()), home));
            &&& world.manifest is Some ==> world.manifest->Some_0 is Ok && crate::json::json_parse(
                world.manifest->Some_0->Ok_0,
            ) is Ok
            &&& document_written(world) matches Some(data) ==> {
                &&& steps.len() > 4
                &&& steps[2] == SeedData::WriteManifest {
                    home,
                    contents: manifest_left(world),
                    fresh: world.manifest is None,
                }
                &&& steps[steps.len() - 2] == SeedData::WriteRecord(home)
            }
            &&& document_written(world) is None ==> forall|i: int|
                0 <= i < steps.len() ==> !writes(#[trigger] steps[i])
            &&& (!world.recorded && world.manifest is Some && crate::manifest::lists_market(
                crate::json::json_parse(world.manifest->Some_0->Ok_0)->Ok_0,
            )) ==> steps.len() >= 2 && steps[steps.len() - 2] == SeedData::WriteRecord(home)
        }),
{
    reveal_with_fuel(seed_steps, 8);
    if world.manifest is Some {
        assert(world.manifest->Some_0 is Ok);
    }
}

/// A second run writes nothing of the user's and ends well. Let `first` be a
/// run that ended well, and `second` one that finds what the first left. The
/// manifest has to be read at all, and the second run has to find the record,
/// or read a manifest that the first one wrote for what it is, but for
/// numbers that are no integers.
pub proof fn law_second_run_writes_nothing(
    first: SeedWorld,
    second: SeedWorld,
    home: Option<bool>,
)
    requires
        seed_steps(first, seed_start(Ok(()), home)).last() == SeedData::Done,
        second.manifest == Some(Ok::<Seq<char>, Seq<char>>(manifest_left(first))),
        second.recorded == record_left(first, home),
    ensures
        ({
            let steps = seed_steps(second, seed_start(Ok(()), home));
            crate::json::json_parse(manifest_left(first)) matches Ok(read) ==> (second.recorded || (
            document_written(first) matches Some(data) ==> crate::json::alike(read, data))) ==> {
                &&& steps.last() == SeedData::Done
                &&& forall|i: int| 0 <= i < steps.len() ==> !writes(#[trigger] steps[i])
                &&& manifest_left(second) == manifest_left(first)
            }
        }),
{
    lemma_good_run_writes(first, home);
    if crate::json::json_parse(manifest_left(first)) is Ok {
        let read = crate::json::json_parse(manifest_left(first))->Ok_0;
        if second.recorded || (document_written(first) matches Some(data) ==> crate::json::alike(
            read,
            data,
        )) {
            if !second.recorded {
                match document_written(first) {
                    Some(data) => {
                        crate::manifest::law_fresh_manifest_is_seeded();
                        if first.manifest is Some {
                            crate::manifest::law_seeding_adds_the_market(
                                crate::json::json_parse(first.manifest->Some_0->Ok_0)->Ok_0,
                            );
                        }
                        crate::manifest::lemma_alike_is_seeded(read, data);
                    },
                    None => {},
                }
            }
            assert(crate::manifest::seeded(read, second.recorded) is None);
            law_kept_profile_is_left_alone(second, home, manifest_left(first));
        }
    }
}

/// With the record in place, nothing is written to a profile that is there,
/// whatever its manifest says by then: a market plugin that the user removed
/// is not put back.
pub proof fn law_removed_market_stays_removed(
    world: SeedWorld,
    home: Option<bool>,
    text: Seq<char>,
)
    requires
        world.recorded,
        world.manifest == Some(Ok::<Seq<char>, Seq<char>>(text)),
    ensures
        seed_steps(world, seed_start(Ok(()), home)) == seq![
            SeedData::CheckManifest(home),
            SeedData::ReadManifest(home),
            match crate::json::json_parse(text) {
                Ok(_) => SeedData::Done,
                Err(message) => SeedData::Failed(crate::manifest::PARSE_FAILED@ + message),
            },
        ],
{
    reveal_with_fuel(seed_steps, 4);
}

/// A step knows which profile it is about.
pub proof fn law_seed_step_data(step: SeedStep)
    ensures
        match step {
            SeedStep::CheckManifest(s) => step@ == SeedData::CheckManifest(s.variable_is_empty),
            SeedStep::MakeProfile(s) => step@ == SeedData::MakeProfile(s.variable_is_empty),
            SeedStep::ReadManifest(s) => step@ == SeedData::ReadManifest(s.variable_is_empty),
            SeedStep::WriteManifest(s) => step@ == (SeedData::WriteManifest {
                home: s.variable_is_empty,
                contents: s.contents@,
                fresh: s.fresh,
            }),
            SeedStep::WritePatch(s) => step@ == SeedData::WritePatch(s.variable_is_empty),
            SeedStep::WriteWorkspace(s) => step@ == SeedData::WriteWorkspace(s.variable_is_empty),
            SeedStep::WriteRecord(s) => step@ == SeedData::WriteRecord(s.variable_is_empty),
            SeedStep::Done => step@ is Done,
            SeedStep::Failed(message) => step@ == SeedData::Failed(message@),
        },
{
}

/// How seeding goes on, in whichever profile: without a manifest, the
/// directory is created, then the manifest, the patch layer and the pnpm
/// settings are written; with one, it is read, and written at most. What was
/// put in is recorded last.
pub proof fn law_seeding_goes_on(home: Option<bool>)
    ensures
        seed_start(Ok(()), home) == SeedData::CheckManifest(home),
        after_check_manifest(home, true) == SeedData::ReadManifest(home),
        after_check_manifest(home, false) == SeedData::MakeProfile(home),
        after_make_profile(home, Ok(())) == (SeedData::WriteManifest {
            home,
            contents: crate::json::json_pretty(crate::manifest::fresh_data()) + "\n"@,
            fresh: true,
        }),
        after_write_manifest(home, true, Ok(())) == SeedData::WritePatch(home),
        after_write_manifest(home, false, Ok(())) == SeedData::WriteRecord(home),
        forall|label: Seq<char>, next: SeedData| #[trigger]
            seed_or_failed(label, Ok(()), next) == next,
{
}

/// What is read of a manifest decides what is done with it: rewritten with the
/// text that seeding gives, recorded, or left.
pub proof fn law_manifest_decides(
    home: Option<bool>,
    text: Seq<char>,
    seeded_before: bool,
)
    ensures
        ({
            let next = after_read_manifest(home, Ok(text), seeded_before);
            match crate::manifest::seeding(text, seeded_before) {
                Ok(SeedingData::Rewrite(new)) => next == (SeedData::WriteManifest {
                    home,
                    contents: new,
                    fresh: false,
                }),
                Ok(SeedingData::Remember) => next == SeedData::WriteRecord(home),
                Ok(SeedingData::Keep) => next is Done,
                Err(message) => next == SeedData::Failed(message),
            }
        }),
{
}

/// Whatever fails ends the seeding, and is told in full, behind what was tried.
pub proof fn law_seeding_failures_are_told(
    home: Option<bool>,
    path: Seq<char>,
    text: Seq<char>,
    code: Option<i32>,
    seeded_before: bool,
    fresh: bool,
    next: SeedData,
)
    ensures
        seed_start(Err(text), home) == SeedData::Failed(text),
        after_make_profile(
            home,
            Err(PathFailureData { path, failure: crate::failure::IoFailureData { text, code } }),
        ) == SeedData::Failed("创建 profile 目录失败 ("@ + path + "): "@ + text),
        after_read_manifest(home, Err(text), seeded_before) == SeedData::Failed(
            "读取 profile manifest 失败: "@ + text,
        ),
        after_write_manifest(home, fresh, Err(text)) == SeedData::Failed(
            "写入 profile manifest 失败: "@ + text,
        ),
        seed_or_failed(WRITE_PATCH_FAILED@, Err(text), next) == SeedData::Failed(
            "写入 cordis.patch.yml 失败: "@ + text,
        ),
        seed_or_failed(WRITE_WORKSPACE_FAILED@, Err(text), next) == SeedData::Failed(
            "写入 pnpm-workspace.yaml 失败: "@ + text,
        ),
{
    assert(Seq::<char>::empty() + text =~= text);
}

/// The files of a profile stand in its directory, under the names that DSH
/// gives them; the record stands beside them.
pub proof fn law_profile_files(home: Option<bool>)
    ensures
        ({
            let dir = crate::place::web_profile_data(home);
            &&& manifest_place(home).root == dir.root
            &&& manifest_place(home).parts == dir.parts + seq!["package.json"@]
            &&& record_place(home).root == dir.root
            &&& record_place(home).parts == dir.parts + seq![".dsh-market-seeded"@]
            &&& PATCH_FILE@ == "cordis.patch.yml"@
            &&& WORKSPACE_FILE@ == "pnpm-workspace.yaml"@
        }),
{
    let dir = crate::place::web_profile_data(home);
    assert(dir.parts.push("package.json"@) =~= dir.parts + seq!["package.json"@]);
    assert(dir.parts.push(".dsh-market-seeded"@) =~= dir.parts + seq![".dsh-market-seeded"@]);
}

/// What a fresh profile gets beside its manifest is what DSH itself writes there.
pub proof fn law_fresh_files()
    ensures
        PROFILE_PATCH_TEMPLATE@
            == "# Your patch layer for this dsh profile, applied after every bundle layer:\n# a top-level YAML array of loader patch entries (id-targeted config\n# overrides, disables, and insert lists; `!!js` expressions allowed).\n[]\n"@,
        PROFILE_PNPM_WORKSPACE@
            == "packages:\n  - .\n\nnodeLinker: hoisted\nautoInstallPeers: false\n"@,
{
}

} // verus!
