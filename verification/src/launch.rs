//! Starting the DSH process.

use vstd::prelude::*;

use crate::effect::{status, Effect, EffectData};
use crate::failure::{hinted_message, labelled, PathFailure, PathFailureData};
use crate::place::{node_file, pid_file, runtime_dir, script_file, Place, Root};
use crate::platform::Platform;
use crate::stale::pid_record;

verus! {

/// What precedes the reason for which the market plugin could not be put in.
pub const SEED_FAILED: &'static str = "预装 dsh-market 失败: ";

/// Reported when the Node binary or DSH's script is missing.
pub const INCOMPLETE: &'static str = "运行环境不完整，请重启应用以重新初始化";

/// Status line while DSH is started.
pub const STARTING_STATUS: &'static str = "正在启动 DSH 服务…";

/// What precedes the Node binary that could not be started.
pub const LAUNCH_FAILED: &'static str = "启动 DSH 失败 (";

/// Reported when the process has no output to read from.
pub const NO_STDOUT: &'static str = "stdout unavailable";

/// The runtime's directory is to be located.
#[derive(Debug, PartialEq, Eq)]
pub struct FindRuntime {
    pub platform: Platform,
}

/// The Node binary and DSH's script are to be looked for.
#[derive(Debug, PartialEq, Eq)]
pub struct CheckFiles {
    pub platform: Platform,
}

/// The start is to be announced, and the home directory located.
#[derive(Debug, PartialEq, Eq)]
pub struct FindHome {
    pub platform: Platform,
}

/// The process is to be started, in the home directory.
#[derive(Debug, PartialEq, Eq)]
pub struct Launch {
    pub platform: Platform,
}

/// The process is to be recorded in the PID file.
#[derive(Debug, PartialEq, Eq)]
pub struct RecordPid {
    pub contents: String,
}

/// The error output is to be read from now on, and so is the output, if there is one.
#[derive(Debug, PartialEq, Eq)]
pub struct TakeOutput {}

/// What to do next.
#[derive(Debug, PartialEq, Eq)]
pub enum LaunchStep {
    FindRuntime(FindRuntime),
    CheckFiles(CheckFiles),
    FindHome(FindHome),
    Launch(Launch),
    RecordPid(RecordPid),
    TakeOutput(TakeOutput),
    Running,
    Failed(String),
}

/// A [`LaunchStep`] with its texts as character sequences.
pub enum LaunchData {
    FindRuntime(Platform),
    CheckFiles(Platform),
    FindHome(Platform),
    Launch(Platform),
    RecordPid(Seq<char>),
    TakeOutput,
    Running,
    Failed(Seq<char>),
}

impl View for LaunchStep {
    type V = LaunchData;

    open spec fn view(&self) -> LaunchData {
        match self {
            LaunchStep::FindRuntime(s) => LaunchData::FindRuntime(s.platform),
            LaunchStep::CheckFiles(s) => LaunchData::CheckFiles(s.platform),
            LaunchStep::FindHome(s) => LaunchData::FindHome(s.platform),
            LaunchStep::Launch(s) => LaunchData::Launch(s.platform),
            LaunchStep::RecordPid(s) => LaunchData::RecordPid(s.contents@),
            LaunchStep::TakeOutput(_) => LaunchData::TakeOutput,
            LaunchStep::Running => LaunchData::Running,
            LaunchStep::Failed(message) => LaunchData::Failed(message@),
        }
    }
}

/// What is logged of the market plugin: a failure there does not keep DSH from starting.
pub open spec fn seed_effects(seeding: Result<(), Seq<char>>) -> Seq<EffectData> {
    match seeding {
        Ok(()) => Seq::empty(),
        Err(message) => seq![EffectData::Log(SEED_FAILED@ + message)],
    }
}

/// Goes on with `next`, unless something failed.
pub open spec fn launch_or_failed(
    outcome: Result<(), Seq<char>>,
    next: LaunchData,
) -> LaunchData {
    match outcome {
        Ok(()) => next,
        Err(message) => LaunchData::Failed(message),
    }
}

/// Both files have to be there.
pub open spec fn after_check_files(
    platform: Platform,
    node_present: bool,
    script_present: bool,
) -> LaunchData {
    if node_present && script_present {
        LaunchData::FindHome(platform)
    } else {
        LaunchData::Failed(INCOMPLETE@)
    }
}

/// A process that was started is recorded.
pub open spec fn after_launch(
    platform: Platform,
    outcome: Result<u32, PathFailureData>,
) -> LaunchData {
    match outcome {
        Ok(pid) => LaunchData::RecordPid(crate::text::decimal(pid as nat)),
        Err(failed) => LaunchData::Failed(
            crate::failure::about_path_hinted(platform, LAUNCH_FAILED@, failed),
        ),
    }
}

/// Without its output, nothing would tell when the process is ready.
pub open spec fn after_take_output(present: bool) -> LaunchData {
    if present {
        LaunchData::Running
    } else {
        LaunchData::Failed(NO_STDOUT@)
    }
}

/// The outcome of starting the process.
pub open spec fn launch_outcome(outcome: Result<u32, PathFailure>) -> Result<
    u32,
    PathFailureData,
> {
    match outcome {
        Ok(pid) => Ok(pid),
        Err(failed) => Err(failed@),
    }
}

/// Starts to start DSH, given how the market plugin fared.
pub fn spawn_dsh_web(platform: Platform, seeding: Result<(), String>) -> (start: (
    Vec<Effect>,
    LaunchStep,
))
    ensures
        crate::effect::listed(start.0) == seed_effects(crate::failure::texted(seeding)),
        start.1@ == LaunchData::FindRuntime(platform),
{
    let mut effects: Vec<Effect> = Vec::new();
    let ghost outcome = crate::failure::texted(seeding);
    match seeding {
        Ok(()) => {},
        Err(message) => effects.push(Effect::Log(labelled(SEED_FAILED, message.as_str()))),
    }
    assert(crate::effect::listed(effects) =~= seed_effects(outcome));
    (effects, LaunchStep::FindRuntime(FindRuntime { platform }))
}

impl FindRuntime {
    /// The directory to locate.
    pub fn directory(&self) -> (place: Place)
        ensures
            place@ == crate::place::runtime_in(Root::AppData),
    {
        runtime_dir()
    }

    /// The directory has been located, or not.
    pub fn located(self, outcome: Result<(), String>) -> (step: LaunchStep)
        ensures
            step@ == launch_or_failed(
                crate::failure::texted(outcome),
                LaunchData::CheckFiles(self.platform),
            ),
    {
        match outcome {
            Ok(()) => LaunchStep::CheckFiles(CheckFiles { platform: self.platform }),
            Err(message) => LaunchStep::Failed(message),
        }
    }
}

impl CheckFiles {
    /// The Node binary to look for.
    pub fn node(&self) -> (place: Place)
        ensures
            place@ == crate::place::node_in(self.platform, Root::AppData),
    {
        node_file(self.platform, Root::AppData)
    }

    /// The script to look for.
    pub fn script(&self) -> (place: Place)
        ensures
            place@ == crate::place::script_in(Root::AppData),
    {
        script_file(Root::AppData)
    }

    /// The two files are there, or not.
    pub fn checked(self, node_present: bool, script_present: bool) -> (step: LaunchStep)
        ensures
            step@ == after_check_files(self.platform, node_present, script_present),
    {
        if node_present && script_present {
            LaunchStep::FindHome(FindHome { platform: self.platform })
        } else {
            LaunchStep::Failed(INCOMPLETE.to_owned())
        }
    }
}

impl FindHome {
    /// What to show before the home directory is located.
    pub fn announce(&self) -> (effect: Effect)
        ensures
            effect@ == (EffectData::Emit {
                event: "boot-status"@,
                payload: "正在启动 DSH 服务…"@,
            }),
    {
        status(STARTING_STATUS)
    }

    /// The directory to locate.
    pub fn directory(&self) -> (place: Place)
        ensures
            place@ == crate::place::root_data(Root::Home),
    {
        Place::at(Root::Home)
    }

    /// The directory has been located, or not.
    pub fn located(self, outcome: Result<(), String>) -> (step: LaunchStep)
        ensures
            step@ == launch_or_failed(
                crate::failure::texted(outcome),
                LaunchData::Launch(self.platform),
            ),
    {
        match outcome {
            Ok(()) => LaunchStep::Launch(Launch { platform: self.platform }),
            Err(message) => LaunchStep::Failed(message),
        }
    }
}

/// What DSH is told: to serve its web interface on a port that the system
/// chooses, and not to open a browser.
pub open spec fn launch_args() -> Seq<Seq<char>> {
    seq!["web"@, "--no-open"@, "--port"@, "0"@]
}

impl Launch {
    /// The program to start.
    pub fn program(&self) -> (place: Place)
        ensures
            place@ == crate::place::node_in(self.platform, Root::AppData),
    {
        node_file(self.platform, Root::AppData)
    }

    /// Its first argument.
    pub fn script(&self) -> (place: Place)
        ensures
            place@ == crate::place::script_in(Root::AppData),
    {
        script_file(Root::AppData)
    }

    /// The directory to start it in. DSH resolves its workspace and settings
    /// against it, and a GUI application may have been given one that cannot
    /// be written to.
    pub fn directory(&self) -> (place: Place)
        ensures
            place@ == crate::place::root_data(Root::Home),
    {
        Place::at(Root::Home)
    }

    /// The arguments behind the script.
    pub fn args(&self) -> (args: Vec<String>)
        ensures
            args@.map_values(|a: String| a@) == launch_args(),
    {
        let mut args: Vec<String> = Vec::new();
        args.push("web".to_owned());
        args.push("--no-open".to_owned());
        args.push("--port".to_owned());
        args.push("0".to_owned());
        assert(args@.map_values(|a: String| a@) =~= launch_args());
        args
    }

    /// The process runs under the given number, or the Node binary could not be started.
    pub fn launched(self, outcome: Result<u32, PathFailure>) -> (step: LaunchStep)
        ensures
            step@ == after_launch(self.platform, launch_outcome(outcome)),
    {
        match outcome {
            Ok(pid) => LaunchStep::RecordPid(RecordPid { contents: pid_record(pid) }),
            Err(failed) => LaunchStep::Failed(
                hinted_message(self.platform, LAUNCH_FAILED, &failed),
            ),
        }
    }
}

impl RecordPid {
    /// The file to write the contents to.
    pub fn file(&self) -> (place: Place)
        ensures
            place@ == crate::place::pid_record_in(Root::AppData),
    {
        pid_file(Root::AppData)
    }

    /// The process has been recorded, as far as that was possible.
    pub fn recorded(self) -> (step: LaunchStep)
        ensures
            step@ == LaunchData::TakeOutput,
    {
        LaunchStep::TakeOutput(TakeOutput {  })
    }
}

impl TakeOutput {
    /// The process has an output, or not.
    pub fn taken(self, present: bool) -> (step: LaunchStep)
        ensures
            step@ == after_take_output(present),
    {
        if present {
            LaunchStep::Running
        } else {
            LaunchStep::Failed(NO_STDOUT.to_owned())
        }
    }
}

/// The outcome of each question and operation of a start.
pub struct LaunchWorld {
    pub runtime: Result<(), Seq<char>>,
    pub node_present: bool,
    pub script_present: bool,
    pub home: Result<(), Seq<char>>,
    pub process: Result<u32, PathFailureData>,
    pub output: bool,
}

/// The step that follows `step` in `world`.
pub open spec fn launch_next(world: LaunchWorld, step: LaunchData) -> LaunchData {
    match step {
        LaunchData::FindRuntime(platform) => launch_or_failed(
            world.runtime,
            LaunchData::CheckFiles(platform),
        ),
        LaunchData::CheckFiles(platform) => after_check_files(
            platform,
            world.node_present,
            world.script_present,
        ),
        LaunchData::FindHome(platform) => launch_or_failed(
            world.home,
            LaunchData::Launch(platform),
        ),
        LaunchData::Launch(platform) => after_launch(platform, world.process),
        LaunchData::RecordPid(_) => LaunchData::TakeOutput,
        LaunchData::TakeOutput => after_take_output(world.output),
        LaunchData::Running => LaunchData::Running,
        LaunchData::Failed(message) => LaunchData::Failed(message),
    }
}

/// Where a start stands after a number of steps.
pub open spec fn launch_end(world: LaunchWorld, step: LaunchData, steps: nat) -> LaunchData
    decreases steps,
{
    if steps == 0 {
        step
    } else {
        launch_end(world, launch_next(world, step), (steps - 1) as nat)
    }
}

/// A start takes six steps at most, and ends with a running process or with
/// the message of the first failure.
pub proof fn law_launch_outcome(platform: Platform, world: LaunchWorld)
    ensures
        launch_end(world, LaunchData::FindRuntime(platform), 6) == (if world.runtime is Err {
            LaunchData::Failed(world.runtime->Err_0)
        } else if !(world.node_present && world.script_present) {
            LaunchData::Failed(INCOMPLETE@)
        } else if world.home is Err {
            LaunchData::Failed(world.home->Err_0)
        } else if world.process is Err {
            LaunchData::Failed(
                crate::failure::about_path_hinted(
                    platform,
                    LAUNCH_FAILED@,
                    world.process->Err_0,
                ),
            )
        } else if !world.output {
            LaunchData::Failed(NO_STDOUT@)
        } else {
            LaunchData::Running
        }),
{
    reveal_with_fuel(launch_end, 7);
}

/// No process is started unless the runtime, its two files and the home
/// directory are there.
pub proof fn law_process_needs_its_files(platform: Platform, world: LaunchWorld, steps: nat)
    requires
        steps <= 6,
        launch_end(world, LaunchData::FindRuntime(platform), steps) is Launch,
    ensures
        world.runtime is Ok && world.node_present && world.script_present && world.home is Ok,
{
    reveal_with_fuel(launch_end, 7);
}

/// A later session that finds the record of a started process kills that process.
pub proof fn law_started_process_is_found_again(platform: Platform, pid: u32)
    ensures
        after_launch(platform, Ok(pid)) matches LaunchData::RecordPid(contents)
            && crate::stale::recorded_pid(Some(contents)) == Some(
            crate::text::decimal(pid as nat),
        ),
{
    crate::stale::law_recorded_pid_is_killed(pid);
}

/// A step knows its platform, and the record its contents.
pub proof fn law_launch_step_data(step: LaunchStep)
    ensures
        match step {
            LaunchStep::FindRuntime(s) => step@ == LaunchData::FindRuntime(s.platform),
            LaunchStep::CheckFiles(s) => step@ == LaunchData::CheckFiles(s.platform),
            LaunchStep::FindHome(s) => step@ == LaunchData::FindHome(s.platform),
            LaunchStep::Launch(s) => step@ == LaunchData::Launch(s.platform),
            LaunchStep::RecordPid(s) => step@ == LaunchData::RecordPid(s.contents@),
            LaunchStep::TakeOutput(_) => step@ is TakeOutput,
            LaunchStep::Running => step@ is Running,
            LaunchStep::Failed(message) => step@ == LaunchData::Failed(message@),
        },
{
}

/// Whatever became of the market plugin, DSH is started; what failed there is
/// logged, in full, and nothing else is.
pub proof fn law_market_failure_is_logged(message: Seq<char>)
    ensures
        seed_effects(Ok(())).len() == 0,
        seed_effects(Err(message)) == seq![
            EffectData::Log("预装 dsh-market 失败: "@ + message),
        ],
{
}

/// How a start goes on: both files have to be there, whichever the platform. A
/// process that was started is recorded by its number; without its output, the
/// start has failed. What fails is told in full.
pub proof fn law_launch_answers(
    platform: Platform,
    node_present: bool,
    script_present: bool,
    pid: u32,
    path: Seq<char>,
    text: Seq<char>,
    code: Option<i32>,
    next: LaunchData,
)
    ensures
        launch_or_failed(Ok(()), next) == next,
        launch_or_failed(Err(text), next) == LaunchData::Failed(text),
        node_present && script_present ==> after_check_files(platform, node_present, script_present)
            == LaunchData::FindHome(platform),
        !(node_present && script_present) ==> after_check_files(
            platform,
            node_present,
            script_present,
        ) == LaunchData::Failed("运行环境不完整，请重启应用以重新初始化"@),
        after_launch(platform, Ok(pid)) matches LaunchData::RecordPid(contents)
            && crate::text::value_of(contents) == pid && (contents.len() > 1 ==> contents[0] != '0')
            && forall|i: int| 0 <= i < contents.len() ==> '0' <= #[trigger] contents[i] <= '9',
        after_take_output(true) is Running,
        after_take_output(false) == LaunchData::Failed("stdout unavailable"@),
        ({
            let told = "启动 DSH 失败 ("@ + path + "): "@ + text;
            let failure = crate::failure::IoFailureData { text, code };
            after_launch(platform, Err(PathFailureData { path, failure })) == LaunchData::Failed(
                if platform == Platform::Windows && code == Some(5i32) {
                    told + "；通常是杀软拦截，或上一个 DSH 进程(node.exe)仍残留占用——请将安装目录与 %APPDATA%/com.deepseek-harness.desktop 加入杀软白名单，并在任务管理器中结束残留的 node.exe"@
                } else {
                    told
                },
            )
        }),
{
    crate::text::law_decimal_stands_for_its_number(pid as nat);
    reveal_strlit("");
    let told = "启动 DSH 失败 ("@ + path + "): "@ + text;
    assert(told + ""@ =~= told);
}

/// What became of starting the process is handed on as it is.
pub proof fn law_launch_outcomes(pid: u32, failed: PathFailure)
    ensures
        launch_outcome(Ok(pid)) == Ok::<u32, PathFailureData>(pid),
        launch_outcome(Err(failed)) == Err::<u32, PathFailureData>(failed@),
{
}

/// DSH is asked to serve its web interface on a port of the system's choice,
/// and not to open a browser.
pub proof fn law_launch_arguments()
    ensures
        launch_args() == seq!["web"@, "--no-open"@, "--port"@, "0"@],
{
}

} // verus!
