//! The commands that start, stop and watch the one DSH process.

use vstd::prelude::*;

use crate::effect::{emit, status, Effect, EffectData, DSH_ERROR, DSH_READY};
use crate::failure::labelled;

verus! {

/// What precedes the reason for which the runtime could not be made ready.
pub const RUNTIME_FAILED: &'static str = "运行环境初始化失败: ";

/// What precedes the reason for which DSH could not be started.
pub const START_FAILED: &'static str = "启动 DSH 失败: ";

/// What precedes the reason for which DSH could not be restarted.
pub const RESTART_FAILED: &'static str = "重启 DSH 失败: ";

/// What precedes the URL in the answer to a restart.
pub const RESTARTED: &'static str = "DSH 服务已重启，URL: ";

/// Status line when the application comes up.
pub const BOOT_MESSAGE: &'static str = "正在初始化…";

/// What the page is told of the process.
#[derive(Clone, Debug, PartialEq, Eq)]
pub struct DshStatus {
    pub running: bool,
    pub url: Option<String>,
}

/// The process in the slot, as far as the commands look at it.
#[derive(Debug, PartialEq, Eq)]
pub struct Held {
    /// Whether it has not exited yet.
    pub alive: bool,
    /// The URL that it serves, once that is known.
    pub url: Option<String>,
}

/// A [`Held`] with its text as a character sequence.
#[verifier::ext_equal]
pub struct HeldData {
    pub alive: bool,
    pub url: Option<Seq<char>>,
}

impl View for Held {
    type V = HeldData;

    open spec fn view(&self) -> HeldData {
        HeldData { alive: self.alive, url: crate::failure::opt_text(self.url) }
    }
}

/// What the slot holds.
pub open spec fn slot_data(slot: Option<Held>) -> Option<HeldData> {
    match slot {
        Some(held) => Some(held@),
        None => None,
    }
}

/// Whether the slot holds a process that runs.
pub open spec fn live(slot: Option<HeldData>) -> bool {
    slot is Some && slot->Some_0.alive
}

/// Reports the state of the process in the slot.
pub fn get_dsh_status(slot: Option<Held>) -> (report: DshStatus)
    ensures
        report.running == (slot is Some),
        crate::failure::opt_text(report.url) == match slot_data(slot) {
            Some(held) => held.url,
            None => None,
        },
{
    match slot {
        Some(held) => DshStatus { running: true, url: held.url },
        None => DshStatus { running: false, url: None },
    }
}

/// The end of a command: what is left to do, and what the caller gets.
#[derive(Debug, PartialEq, Eq)]
pub struct Reply {
    pub effects: Vec<Effect>,
    pub outcome: Result<(), String>,
}

/// A [`Reply`] with its texts as character sequences.
pub struct ReplyData {
    pub effects: Seq<EffectData>,
    pub outcome: Result<(), Seq<char>>,
}

impl View for Reply {
    type V = ReplyData;

    open spec fn view(&self) -> ReplyData {
        ReplyData {
            effects: crate::effect::listed(self.effects),
            outcome: crate::failure::texted(self.outcome),
        }
    }
}

/// No effect.
fn nothing() -> (effects: Vec<Effect>)
    ensures
        crate::effect::listed(effects) == Seq::<EffectData>::empty(),
{
    let effects: Vec<Effect> = Vec::new();
    assert(crate::effect::listed(effects) =~= Seq::empty());
    effects
}

/// One effect.
fn only(effect: Effect) -> (effects: Vec<Effect>)
    ensures
        crate::effect::listed(effects) == seq![effect@],
{
    let mut effects: Vec<Effect> = Vec::new();
    let ghost data = effect@;
    effects.push(effect);
    assert(crate::effect::listed(effects) =~= seq![data]);
    effects
}

/// A command that failed, with the failure in the log.
pub open spec fn logged_failure(label: Seq<char>, message: Seq<char>) -> ReplyData {
    ReplyData { effects: seq![EffectData::Log(label + message)], outcome: Err(message) }
}

/// A command that failed because the slot is out of use.
pub open spec fn silent_failure(message: Seq<char>) -> ReplyData {
    ReplyData { effects: Seq::empty(), outcome: Err(message) }
}

/// The slot is to be looked into.
#[derive(Debug, PartialEq, Eq)]
pub struct InspectSlot {}

/// Nothing runs: the slot is to be emptied, and a process spawned.
#[derive(Debug, PartialEq, Eq)]
pub struct Spawn {}

/// What to do next to start DSH.
#[derive(Debug, PartialEq, Eq)]
pub enum StartStep {
    InspectSlot(InspectSlot),
    Spawn(Spawn),
    Done(Reply),
}

/// A [`StartStep`] as data.
pub enum StartData {
    InspectSlot,
    Spawn,
    Done(ReplyData),
}

impl View for StartStep {
    type V = StartData;

    open spec fn view(&self) -> StartData {
        match self {
            StartStep::InspectSlot(_) => StartData::InspectSlot,
            StartStep::Spawn(_) => StartData::Spawn,
            StartStep::Done(reply) => StartData::Done(reply@),
        }
    }
}

/// A start needs a runtime.
pub open spec fn start_begin(runtime: Result<(), Seq<char>>) -> StartData {
    match runtime {
        Ok(()) => StartData::InspectSlot,
        Err(message) => StartData::Done(logged_failure(RUNTIME_FAILED@, message)),
    }
}

/// A running process is left alone. Its URL is announced once more, as the
/// page may have come up after the first announcement. A process that has
/// exited is replaced.
pub open spec fn after_inspect_slot(slot: Result<Option<HeldData>, Seq<char>>) -> StartData {
    match slot {
        Err(message) => StartData::Done(silent_failure(message)),
        Ok(None) => StartData::Spawn,
        Ok(Some(held)) => if !held.alive {
            StartData::Spawn
        } else {
            StartData::Done(ReplyData { effects: ready_again(held.url), outcome: Ok(()) })
        },
    }
}

/// What tells the page the URL of a running process, if it is known.
pub open spec fn ready_again(url: Option<Seq<char>>) -> Seq<EffectData> {
    match url {
        Some(u) => seq![EffectData::Emit { event: DSH_READY@, payload: u }],
        None => Seq::empty(),
    }
}

/// A process that was spawned is kept, a failure is logged.
pub open spec fn after_spawn(outcome: Result<(), Seq<char>>) -> StartData {
    match outcome {
        Ok(()) => StartData::Done(
            ReplyData { effects: seq![EffectData::KeepProcess], outcome: Ok(()) },
        ),
        Err(message) => StartData::Done(logged_failure(START_FAILED@, message)),
    }
}

/// The slot as it was found, or why it is out of use.
pub open spec fn slot_outcome(slot: Result<Option<Held>, String>) -> Result<
    Option<HeldData>,
    Seq<char>,
> {
    match slot {
        Ok(found) => Ok(slot_data(found)),
        Err(message) => Err(message@),
    }
}

/// Logs the failure of a command and hands it to the caller.
fn fail(label: &str, message: String) -> (reply: Reply)
    ensures
        reply@ == logged_failure(label@, message@),
{
    let effects = only(Effect::Log(labelled(label, message.as_str())));
    Reply { effects, outcome: Err(message) }
}

/// Starts DSH unless it is running, given whether the runtime is ready.
pub fn start_dsh_service(runtime: Result<(), String>) -> (step: StartStep)
    ensures
        step@ == start_begin(crate::failure::texted(runtime)),
{
    match runtime {
        Ok(()) => StartStep::InspectSlot(InspectSlot {  }),
        Err(message) => StartStep::Done(fail(RUNTIME_FAILED, message)),
    }
}

impl InspectSlot {
    /// The slot is locked and holds this, or is out of use.
    pub fn inspected(self, slot: Result<Option<Held>, String>) -> (step: StartStep)
        ensures
            step@ == after_inspect_slot(slot_outcome(slot)),
    {
        match slot {
            Err(message) => StartStep::Done(Reply { effects: nothing(), outcome: Err(message) }),
            Ok(None) => StartStep::Spawn(Spawn {  }),
            Ok(Some(held)) => if !held.alive {
                StartStep::Spawn(Spawn {  })
            } else {
                let effects = match held.url {
                    Some(url) => only(emit(DSH_READY, url.as_str())),
                    None => nothing(),
                };
                StartStep::Done(Reply { effects, outcome: Ok(()) })
            },
        }
    }
}

impl Spawn {
    /// What to do before a process is spawned: what has exited leaves the
    /// slot, and takes the file that recorded it along.
    pub fn prepare(&self) -> (effect: Effect)
        ensures
            effect@ == EffectData::DropProcess,
    {
        Effect::DropProcess
    }

    /// A process has been spawned, or not.
    pub fn spawned(self, outcome: Result<(), String>) -> (step: StartStep)
        ensures
            step@ == after_spawn(crate::failure::texted(outcome)),
    {
        match outcome {
            Ok(()) => StartStep::Done(
                Reply { effects: only(Effect::KeepProcess), outcome: Ok(()) },
            ),
            Err(message) => StartStep::Done(fail(START_FAILED, message)),
        }
    }
}

/// Stopping empties the slot.
pub open spec fn stop_data(lock: Result<(), Seq<char>>) -> ReplyData {
    match lock {
        Ok(()) => ReplyData { effects: seq![EffectData::DropProcess], outcome: Ok(()) },
        Err(message) => silent_failure(message),
    }
}

/// Stops DSH, given whether the slot could be locked.
pub fn stop_dsh_service(lock: Result<(), String>) -> (reply: Reply)
    ensures
        reply@ == stop_data(crate::failure::texted(lock)),
{
    match lock {
        Ok(()) => Reply { effects: only(Effect::DropProcess), outcome: Ok(()) },
        Err(message) => Reply { effects: nothing(), outcome: Err(message) },
    }
}

/// The end of a restart: what is left to do, and what the caller gets.
#[derive(Debug, PartialEq, Eq)]
pub struct RestartReply {
    pub effects: Vec<Effect>,
    pub outcome: Result<String, String>,
}

/// A [`RestartReply`] with its texts as character sequences.
pub struct RestartReplyData {
    pub effects: Seq<EffectData>,
    pub outcome: Result<Seq<char>, Seq<char>>,
}

impl View for RestartReply {
    type V = RestartReplyData;

    open spec fn view(&self) -> RestartReplyData {
        RestartReplyData {
            effects: crate::effect::listed(self.effects),
            outcome: crate::failure::text_outcome(self.outcome),
        }
    }
}

/// The slot is to be locked.
#[derive(Debug, PartialEq, Eq)]
pub struct LockSlot {}

/// The slot is to be emptied, and a process spawned.
#[derive(Debug, PartialEq, Eq)]
pub struct Respawn {}

/// What to do next to restart DSH.
#[derive(Debug, PartialEq, Eq)]
pub enum RestartStep {
    LockSlot(LockSlot),
    Respawn(Respawn),
    Done(RestartReply),
}

/// A [`RestartStep`] as data.
pub enum RestartData {
    LockSlot,
    Respawn,
    Done(RestartReplyData),
}

impl View for RestartStep {
    type V = RestartData;

    open spec fn view(&self) -> RestartData {
        match self {
            RestartStep::LockSlot(_) => RestartData::LockSlot,
            RestartStep::Respawn(_) => RestartData::Respawn,
            RestartStep::Done(reply) => RestartData::Done(reply@),
        }
    }
}

/// A restart that failed, with the failure in the log.
pub open spec fn failed_restart(label: Seq<char>, message: Seq<char>) -> RestartData {
    RestartData::Done(
        RestartReplyData {
            effects: seq![EffectData::Log(label + message)],
            outcome: Err(message),
        },
    )
}

/// A restart needs a runtime.
pub open spec fn restart_begin(runtime: Result<(), Seq<char>>) -> RestartData {
    match runtime {
        Ok(()) => RestartData::LockSlot,
        Err(message) => failed_restart(RUNTIME_FAILED@, message),
    }
}

/// Without the slot, nothing can be restarted.
pub open spec fn after_lock_slot(lock: Result<(), Seq<char>>) -> RestartData {
    match lock {
        Ok(()) => RestartData::Respawn,
        Err(message) => RestartData::Done(
            RestartReplyData { effects: Seq::empty(), outcome: Err(message) },
        ),
    }
}

/// The answer to a restart names the URL, if it is known by then.
pub open spec fn restarted(url: Option<Seq<char>>) -> Seq<char> {
    match url {
        Some(u) => RESTARTED@ + u,
        None => RESTARTED@,
    }
}

/// A process that was spawned is kept, a failure is logged.
pub open spec fn after_respawn(outcome: Result<Option<Seq<char>>, Seq<char>>) -> RestartData {
    match outcome {
        Ok(url) => RestartData::Done(
            RestartReplyData {
                effects: seq![EffectData::KeepProcess],
                outcome: Ok(restarted(url)),
            },
        ),
        Err(message) => failed_restart(RESTART_FAILED@, message),
    }
}

/// The URL known of a process that was just spawned, or why it was not.
pub open spec fn spawn_outcome(outcome: Result<Option<String>, String>) -> Result<
    Option<Seq<char>>,
    Seq<char>,
> {
    match outcome {
        Ok(url) => Ok(crate::failure::opt_text(url)),
        Err(message) => Err(message@),
    }
}

/// Logs the failure of a restart and hands it to the caller.
fn fail_restart(label: &str, message: String) -> (step: RestartStep)
    ensures
        step@ == failed_restart(label@, message@),
{
    let effects = only(Effect::Log(labelled(label, message.as_str())));
    RestartStep::Done(RestartReply { effects, outcome: Err(message) })
}

/// Restarts DSH, given whether the runtime is ready.
pub fn restart_dsh_service(runtime: Result<(), String>) -> (step: RestartStep)
    ensures
        step@ == restart_begin(crate::failure::texted(runtime)),
{
    match runtime {
        Ok(()) => RestartStep::LockSlot(LockSlot {  }),
        Err(message) => fail_restart(RUNTIME_FAILED, message),
    }
}

impl LockSlot {
    /// The slot is locked, or out of use.
    pub fn locked(self, lock: Result<(), String>) -> (step: RestartStep)
        ensures
            step@ == after_lock_slot(crate::failure::texted(lock)),
    {
        match lock {
            Ok(()) => RestartStep::Respawn(Respawn {  }),
            Err(message) => RestartStep::Done(
                RestartReply { effects: nothing(), outcome: Err(message) },
            ),
        }
    }
}

impl Respawn {
    /// What to do before a process is spawned.
    pub fn prepare(&self) -> (effect: Effect)
        ensures
            effect@ == EffectData::DropProcess,
    {
        Effect::DropProcess
    }

    /// A process has been spawned, of which this URL is known, or not.
    pub fn spawned(self, outcome: Result<Option<String>, String>) -> (step: RestartStep)
        ensures
            step@ == after_respawn(spawn_outcome(outcome)),
    {
        match outcome {
            Ok(url) => {
                let answer = match url {
                    Some(u) => labelled(RESTARTED, u.as_str()),
                    None => RESTARTED.to_owned(),
                };
                RestartStep::Done(
                    RestartReply { effects: only(Effect::KeepProcess), outcome: Ok(answer) },
                )
            },
            Err(message) => fail_restart(RESTART_FAILED, message),
        }
    }
}

/// The runtime is to be made ready.
#[derive(Debug, PartialEq, Eq)]
pub struct PrepareRuntime {}

/// Whether the slot is empty is to be checked.
#[derive(Debug, PartialEq, Eq)]
pub struct CheckSlot {}

/// The slot is empty: the first process is to be spawned.
#[derive(Debug, PartialEq, Eq)]
pub struct FirstSpawn {}

/// What to do next when the application comes up.
#[derive(Debug, PartialEq, Eq)]
pub enum BootStep {
    PrepareRuntime(PrepareRuntime),
    CheckSlot(CheckSlot),
    FirstSpawn(FirstSpawn),
    Done(Vec<Effect>),
}

/// A [`BootStep`] as data.
pub enum BootData {
    PrepareRuntime,
    CheckSlot,
    FirstSpawn,
    Done(Seq<EffectData>),
}

impl View for BootStep {
    type V = BootData;

    open spec fn view(&self) -> BootData {
        match self {
            BootStep::PrepareRuntime(_) => BootData::PrepareRuntime,
            BootStep::CheckSlot(_) => BootData::CheckSlot,
            BootStep::FirstSpawn(_) => BootData::FirstSpawn,
            BootStep::Done(effects) => BootData::Done(crate::effect::listed(*effects)),
        }
    }
}

/// A failure at boot is shown, logged and announced to the page.
pub open spec fn boot_failure(label: Seq<char>, message: Seq<char>) -> Seq<EffectData> {
    seq![
        crate::effect::status_data(message),
        EffectData::Log(label + message),
        EffectData::Emit { event: DSH_ERROR@, payload: message },
    ]
}

/// Nothing is started without a runtime.
pub open spec fn after_prepare(runtime: Result<(), Seq<char>>) -> BootData {
    match runtime {
        Ok(()) => BootData::CheckSlot,
        Err(message) => BootData::Done(boot_failure(RUNTIME_FAILED@, message)),
    }
}

/// A process that the page had started meanwhile is left alone.
pub open spec fn after_check_slot(empty: bool) -> BootData {
    if empty {
        BootData::FirstSpawn
    } else {
        BootData::Done(Seq::empty())
    }
}

/// A process that was spawned is kept.
pub open spec fn after_first_spawn(outcome: Result<(), Seq<char>>) -> BootData {
    match outcome {
        Ok(()) => BootData::Done(seq![EffectData::KeepProcess]),
        Err(message) => BootData::Done(boot_failure(START_FAILED@, message)),
    }
}

/// Shows, logs and announces a failure at boot.
fn fail_boot(label: &str, message: String) -> (step: BootStep)
    ensures
        step@ == BootData::Done(boot_failure(label@, message@)),
{
    let mut effects: Vec<Effect> = Vec::new();
    effects.push(status(message.as_str()));
    effects.push(Effect::Log(labelled(label, message.as_str())));
    effects.push(emit(DSH_ERROR, message.as_str()));
    assert(crate::effect::listed(effects) =~= boot_failure(label@, message@));
    BootStep::Done(effects)
}

/// The application comes up.
pub fn boot() -> (step: BootStep)
    ensures
        step@ == BootData::PrepareRuntime,
{
    BootStep::PrepareRuntime(PrepareRuntime {  })
}

impl PrepareRuntime {
    /// What to show before the runtime is made ready.
    pub fn announce(&self) -> (effect: Effect)
        ensures
            effect@ == (EffectData::Emit { event: "boot-status"@, payload: "正在初始化…"@ }),
    {
        status(BOOT_MESSAGE)
    }

    /// The runtime is ready, or not.
    pub fn prepared(self, runtime: Result<(), String>) -> (step: BootStep)
        ensures
            step@ == after_prepare(crate::failure::texted(runtime)),
    {
        match runtime {
            Ok(()) => BootStep::CheckSlot(CheckSlot {  }),
            Err(message) => fail_boot(RUNTIME_FAILED, message),
        }
    }
}

impl CheckSlot {
    /// The slot is empty, or not.
    pub fn checked(self, empty: bool) -> (step: BootStep)
        ensures
            step@ == after_check_slot(empty),
    {
        if empty {
            BootStep::FirstSpawn(FirstSpawn {  })
        } else {
            BootStep::Done(nothing())
        }
    }
}

impl FirstSpawn {
    /// A process has been spawned, or not.
    pub fn spawned(self, outcome: Result<(), String>) -> (step: BootStep)
        ensures
            step@ == after_first_spawn(crate::failure::texted(outcome)),
    {
        match outcome {
            Ok(()) => BootStep::Done(only(Effect::KeepProcess)),
            Err(message) => fail_boot(START_FAILED, message),
        }
    }
}

/// The slot after `effects`, where `fresh` is the URL known of the process just spawned.
pub open spec fn slot_after(
    slot: Option<HeldData>,
    effects: Seq<EffectData>,
    fresh: Option<Seq<char>>,
) -> Option<HeldData>
    decreases effects.len(),
{
    if effects.len() == 0 {
        slot
    } else {
        match effects.last() {
            EffectData::KeepProcess => Some(HeldData { alive: true, url: fresh }),
            EffectData::DropProcess => None,
            _ => slot_after(slot, effects.drop_last(), fresh),
        }
    }
}

/// The outcome of a spawn, where what is known of the process does not matter.
pub open spec fn spawn_result(spawn: Result<Option<Seq<char>>, Seq<char>>) -> Result<
    (),
    Seq<char>,
> {
    match spawn {
        Ok(_) => Ok(()),
        Err(message) => Err(message),
    }
}

/// What is known of the process that a spawn gave.
pub open spec fn fresh_url(spawn: Result<Option<Seq<char>>, Seq<char>>) -> Option<Seq<char>> {
    match spawn {
        Ok(url) => url,
        Err(_) => None,
    }
}

/// A command from its begin to its end.
pub struct ServiceRun {
    /// Whether it spawned a process, and what was in the slot at that moment.
    pub spawned_over: Option<Option<HeldData>>,
    /// Everything that was to be done, in its order.
    pub effects: Seq<EffectData>,
    /// What the caller got as an error.
    pub error: Option<Seq<char>>,
    /// The slot afterwards.
    pub slot: Option<HeldData>,
}

/// A command that ends without a spawn.
pub open spec fn quiet_run(
    slot: Option<HeldData>,
    effects: Seq<EffectData>,
    error: Option<Seq<char>>,
) -> ServiceRun {
    ServiceRun { spawned_over: None, effects, error, slot: slot_after(slot, effects, None) }
}

/// A command that empties the slot, spawns, and ends with `effects`.
pub open spec fn spawning_run(
    slot: Option<HeldData>,
    effects: Seq<EffectData>,
    error: Option<Seq<char>>,
    fresh: Option<Seq<char>>,
) -> ServiceRun {
    let emptied = slot_after(slot, seq![EffectData::DropProcess], None);
    ServiceRun {
        spawned_over: Some(emptied),
        effects: seq![EffectData::DropProcess] + effects,
        error,
        slot: slot_after(emptied, effects, fresh),
    }
}

/// A start on `slot`, if the runtime and a spawn come out as given.
pub open spec fn start_run(
    slot: Option<HeldData>,
    runtime: Result<(), Seq<char>>,
    spawn: Result<Option<Seq<char>>, Seq<char>>,
) -> ServiceRun {
    match start_begin(runtime) {
        StartData::Done(reply) => quiet_run(slot, reply.effects, reply.outcome.err()),
        _ => match after_inspect_slot(Ok(slot)) {
            StartData::Done(reply) => quiet_run(slot, reply.effects, reply.outcome.err()),
            _ => {
                let reply = after_spawn(spawn_result(spawn))->Done_0;
                spawning_run(slot, reply.effects, reply.outcome.err(), fresh_url(spawn))
            },
        },
    }
}

/// A stop on `slot`.
pub open spec fn stop_run(slot: Option<HeldData>) -> ServiceRun {
    let reply = stop_data(Ok(()));
    quiet_run(slot, reply.effects, reply.outcome.err())
}

/// A restart on `slot`, if the runtime and a spawn come out as given.
pub open spec fn restart_run(
    slot: Option<HeldData>,
    runtime: Result<(), Seq<char>>,
    spawn: Result<Option<Seq<char>>, Seq<char>>,
) -> ServiceRun {
    match restart_begin(runtime) {
        RestartData::Done(reply) => quiet_run(slot, reply.effects, reply.outcome.err()),
        _ => {
            let reply = after_respawn(spawn)->Done_0;
            spawning_run(slot, reply.effects, reply.outcome.err(), fresh_url(spawn))
        },
    }
}

/// A boot on `slot`, if the runtime and a spawn come out as given. Its caller gets nothing.
pub open spec fn boot_run(
    slot: Option<HeldData>,
    runtime: Result<(), Seq<char>>,
    spawn: Result<Option<Seq<char>>, Seq<char>>,
) -> ServiceRun {
    let (effects, spawned_over) = match after_prepare(runtime) {
        BootData::Done(effects) => (effects, None),
        _ => match after_check_slot(slot is None) {
            BootData::Done(effects) => (effects, None),
            _ => (after_first_spawn(spawn_result(spawn))->Done_0, Some(slot)),
        },
    };
    ServiceRun {
        spawned_over,
        effects: seq![crate::effect::status_data(BOOT_MESSAGE@)] + effects,
        error: None,
        slot: slot_after(slot, effects, fresh_url(spawn)),
    }
}

/// Whenever a command spawns a process, the slot is empty, so that no process
/// is lost sight of. A start and a boot do so only where none runs, and a
/// restart ends the one that runs first: one process runs at a time.
pub proof fn law_one_process_at_a_time(
    slot: Option<HeldData>,
    runtime: Result<(), Seq<char>>,
    spawn: Result<Option<Seq<char>>, Seq<char>>,
)
    ensures
        start_run(slot, runtime, spawn).spawned_over matches Some(found) ==> found is None
            && !live(slot),
        stop_run(slot).spawned_over is None,
        restart_run(slot, runtime, spawn).spawned_over matches Some(found) ==> found is None
            && restart_run(slot, runtime, spawn).effects[0] == EffectData::DropProcess,
        boot_run(slot, runtime, spawn).spawned_over matches Some(found) ==> found is None
            && !live(slot),
{
    reveal_with_fuel(slot_after, 2);
}

/// With a runtime, a start spawns exactly if nothing runs: the slot is empty,
/// or what it holds has exited. It leaves a running process in the slot
/// whenever it succeeds. Where the spawn fails, the slot is empty; without a
/// runtime, it is as it was.
pub proof fn law_start_outcome(
    slot: Option<HeldData>,
    runtime: Result<(), Seq<char>>,
    spawn: Result<Option<Seq<char>>, Seq<char>>,
)
    ensures
        ({
            let run = start_run(slot, runtime, spawn);
            &&& run.spawned_over is Some <==> runtime is Ok && !live(slot)
            &&& run.error is None <==> runtime is Ok && (live(slot) || spawn is Ok)
            &&& run.error is None ==> live(run.slot)
            &&& run.error is Some ==> run.slot == (if runtime is Err {
                slot
            } else {
                None
            })
        }),
{
    reveal_with_fuel(slot_after, 2);
}

/// A process that has exited is replaced by one that runs.
pub proof fn law_exited_process_is_replaced(
    url: Option<Seq<char>>,
    fresh: Option<Seq<char>>,
)
    ensures
        ({
            let run = start_run(Some(HeldData { alive: false, url }), Ok(()), Ok(fresh));
            &&& run.spawned_over == Some(None::<HeldData>)
            &&& run.error is None
            &&& run.slot == Some(HeldData { alive: true, url: fresh })
        }),
{
    reveal_with_fuel(slot_after, 2);
}

/// A start is idempotent: once it has succeeded, and while the process runs,
/// another one spawns nothing and leaves the slot as it is, whatever a spawn
/// would come to. It tells the page the URL again if there is one.
pub proof fn law_start_is_idempotent(
    slot: Option<HeldData>,
    first: Result<Option<Seq<char>>, Seq<char>>,
    second: Result<Option<Seq<char>>, Seq<char>>,
)
    ensures
        ({
            let once = start_run(slot, Ok(()), first);
            let twice = start_run(once.slot, Ok(()), second);
            once.error is None ==> {
                &&& live(once.slot)
                &&& twice.error is None
                &&& twice.spawned_over is None
                &&& twice.slot == once.slot
                &&& twice.effects == ready_again(once.slot->Some_0.url)
            }
        }),
{
    reveal_with_fuel(slot_after, 2);
}

/// After a stop nothing runs, and a further stop changes nothing.
pub proof fn law_stop_stops(slot: Option<HeldData>)
    ensures
        stop_run(slot).slot is None,
        stop_run(slot).error is None,
        stop_run(stop_run(slot).slot).slot == stop_run(slot).slot,
{
    reveal_with_fuel(slot_after, 2);
}

/// A restart ends the old process before it spawns a new one. One that fails
/// to spawn leaves nothing running, one without a runtime leaves the old
/// process alone.
pub proof fn law_restart_outcome(
    slot: Option<HeldData>,
    runtime: Result<(), Seq<char>>,
    spawn: Result<Option<Seq<char>>, Seq<char>>,
)
    ensures
        ({
            let run = restart_run(slot, runtime, spawn);
            &&& run.error is None <==> runtime is Ok && spawn is Ok
            &&& runtime is Ok ==> run.spawned_over == Some(None::<HeldData>)
                && run.effects[0] == EffectData::DropProcess
            &&& runtime is Ok ==> run.slot == match spawn {
                Ok(url) => Some(HeldData { alive: true, url }),
                Err(_) => None,
            }
            &&& runtime is Err ==> run.slot == slot && run.spawned_over is None
        }),
{
    reveal_with_fuel(slot_after, 2);
}

/// A boot or a start, and how the runtime and a spawn come out in it.
pub struct Visit {
    pub boot: bool,
    pub runtime: Result<(), Seq<char>>,
    pub spawn: Result<Option<Seq<char>>, Seq<char>>,
}

/// The run of a visit on `slot`.
pub open spec fn visit_run(slot: Option<HeldData>, visit: Visit) -> ServiceRun {
    if visit.boot {
        boot_run(slot, visit.runtime, visit.spawn)
    } else {
        start_run(slot, visit.runtime, visit.spawn)
    }
}

/// How many processes the visits bring up, one after the other, if none of them exits meanwhile.
pub open spec fn brought_up(slot: Option<HeldData>, visits: Seq<Visit>) -> nat
    decreases visits.len(),
{
    if visits.len() == 0 {
        0
    } else {
        let run = visit_run(slot, visits[0]);
        let rest = brought_up(run.slot, visits.drop_first());
        if run.spawned_over is Some && visits[0].spawn is Ok {
            rest + 1
        } else {
            rest
        }
    }
}

/// Whether a visit can bring up a process.
pub open spec fn able(visit: Visit) -> bool {
    visit.runtime is Ok && visit.spawn is Ok
}

/// A running process is the last that the visits see.
proof fn lemma_running_process_stays(slot: Option<HeldData>, visits: Seq<Visit>)
    requires
        live(slot),
    ensures
        brought_up(slot, visits) == 0,
    decreases visits.len(),
{
    reveal_with_fuel(slot_after, 4);
    if visits.len() > 0 {
        let visit = visits[0];
        let failure = boot_failure(RUNTIME_FAILED@, visit.runtime->Err_0);
        assert(failure.drop_last().drop_last().drop_last().len() == 0);
        assert(visit_run(slot, visit).slot == slot);
        lemma_running_process_stays(slot, visits.drop_first());
    }
}

/// However often and in whichever order the application boots and the page
/// starts DSH, one process comes up, as soon as a runtime and a spawn allow
/// for it, and no second one while it runs.
pub proof fn law_boots_and_starts_spawn_once(visits: Seq<Visit>)
    ensures
        brought_up(None, visits) == (if exists|i: int|
            0 <= i < visits.len() && able(#[trigger] visits[i]) {
            1nat
        } else {
            0nat
        }),
    decreases visits.len(),
{
    reveal_with_fuel(slot_after, 4);
    if visits.len() > 0 {
        let visit = visits[0];
        let rest = visits.drop_first();
        let run = visit_run(None, visit);
        if able(visit) {
            assert(able(visits[0]));
            assert(run.spawned_over is Some && live(run.slot));
            lemma_running_process_stays(run.slot, rest);
        } else {
            let failure = boot_failure(RUNTIME_FAILED@, visit.runtime->Err_0);
            assert(failure.drop_last().drop_last().drop_last().len() == 0);
            let failure = boot_failure(START_FAILED@, visit.spawn->Err_0);
            assert(failure.drop_last().drop_last().drop_last().len() == 0);
            assert(run.slot is None);
            law_boots_and_starts_spawn_once(rest);
            assert(forall|i: int| 0 <= i < rest.len() ==> #[trigger] rest[i] == visits[i + 1]);
            if exists|i: int| 0 <= i < visits.len() && able(#[trigger] visits[i]) {
                let i = choose|i: int| 0 <= i < visits.len() && able(#[trigger] visits[i]);
                assert(able(rest[i - 1]));
            } else if exists|i: int| 0 <= i < rest.len() && able(#[trigger] rest[i]) {
                let i = choose|i: int| 0 <= i < rest.len() && able(#[trigger] rest[i]);
                assert(able(visits[i + 1]));
            }
        }
    }
}

/// A boot that starts nothing on an empty slot says why: on the loading page,
/// in the log and to the page.
pub proof fn law_boot_reports_failures(
    runtime: Result<(), Seq<char>>,
    spawn: Result<Option<Seq<char>>, Seq<char>>,
)
    ensures
        ({
            let run = boot_run(None, runtime, spawn);
            let first = seq![crate::effect::status_data(BOOT_MESSAGE@)];
            &&& run.slot is None <==> runtime is Err || spawn is Err
            &&& runtime matches Err(message) ==> run.effects == first + boot_failure(
                RUNTIME_FAILED@,
                message,
            )
            &&& runtime is Ok ==> (spawn matches Err(message) ==> run.effects == first
                + boot_failure(START_FAILED@, message))
        }),
{
    reveal_with_fuel(slot_after, 4);
    let failure = boot_failure(RUNTIME_FAILED@, runtime->Err_0);
    assert(failure.drop_last().drop_last().drop_last().len() == 0);
    let failure = boot_failure(START_FAILED@, spawn->Err_0);
    assert(failure.drop_last().drop_last().drop_last().len() == 0);
}

/// What the slot holds is handed on as it is, and so are replies and steps.
pub proof fn law_service_data(
    held: Held,
    message: String,
    reply: Reply,
    answer: RestartReply,
)
    ensures
        held@.alive == held.alive,
        held.url matches Some(u) ==> held@.url == Some(u@),
        held.url is None ==> held@.url is None,
        slot_data(Some(held)) == Some(held@),
        slot_data(None) is None,
        slot_outcome(Ok(Some(held))) == Ok::<Option<HeldData>, Seq<char>>(Some(held@)),
        slot_outcome(Ok(None)) == Ok::<Option<HeldData>, Seq<char>>(None),
        slot_outcome(Err(message)) == Err::<Option<HeldData>, Seq<char>>(message@),
        spawn_outcome(Ok(Some(message))) == Ok::<Option<Seq<char>>, Seq<char>>(Some(message@)),
        spawn_outcome(Ok(None)) == Ok::<Option<Seq<char>>, Seq<char>>(None),
        spawn_outcome(Err(message)) == Err::<Option<Seq<char>>, Seq<char>>(message@),
        reply@.effects == reply.effects@.map_values(|e: Effect| e@),
        reply.outcome is Ok ==> reply@.outcome is Ok,
        reply.outcome matches Err(m) ==> reply@.outcome == Err::<(), Seq<char>>(m@),
        answer@.effects == answer.effects@.map_values(|e: Effect| e@),
        answer.outcome matches Ok(text) ==> answer@.outcome == Ok::<Seq<char>, Seq<char>>(text@),
        answer.outcome matches Err(m) ==> answer@.outcome == Err::<Seq<char>, Seq<char>>(m@),
        StartStep::InspectSlot(InspectSlot {  })@ is InspectSlot,
        StartStep::Spawn(Spawn {  })@ is Spawn,
        StartStep::Done(reply)@ == StartData::Done(reply@),
        RestartStep::LockSlot(LockSlot {  })@ is LockSlot,
        RestartStep::Respawn(Respawn {  })@ is Respawn,
        RestartStep::Done(answer)@ == RestartData::Done(answer@),
        BootStep::PrepareRuntime(PrepareRuntime {  })@ is PrepareRuntime,
        BootStep::CheckSlot(CheckSlot {  })@ is CheckSlot,
        BootStep::FirstSpawn(FirstSpawn {  })@ is FirstSpawn,
        BootStep::Done(reply.effects)@ == BootData::Done(
            reply.effects@.map_values(|e: Effect| e@),
        ),
{
}

/// A start on a slot whose process runs succeeds and does one thing at most:
/// whatever URL is known of the process, the page is told exactly that URL, and
/// where none is known, nothing is done.
pub proof fn law_running_process_is_announced(url: Seq<char>)
    ensures
        after_inspect_slot(Ok(Some(HeldData { alive: true, url: Some(url) }))) == StartData::Done(
            ReplyData {
                effects: seq![EffectData::Emit { event: "dsh-ready"@, payload: url }],
                outcome: Ok(()),
            },
        ),
        after_inspect_slot(Ok(Some(HeldData { alive: true, url: None }))) == StartData::Done(
            ReplyData { effects: Seq::empty(), outcome: Ok(()) },
        ),
{
}

/// A start spawns on an empty slot and on one whose process has exited,
/// whatever URL it had. A slot that is out of use ends it with the reason.
pub proof fn law_start_answers(url: Option<Seq<char>>, message: Seq<char>)
    ensures
        start_begin(Ok(())) is InspectSlot,
        after_inspect_slot(Ok(None)) is Spawn,
        after_inspect_slot(Ok(Some(HeldData { alive: false, url }))) is Spawn,
        after_inspect_slot(Err(message)) == StartData::Done(
            ReplyData { effects: Seq::empty(), outcome: Err(message) },
        ),
        after_spawn(Ok(())) == StartData::Done(
            ReplyData { effects: seq![EffectData::KeepProcess], outcome: Ok(()) },
        ),
{
}

/// Whatever keeps a command from its end, the caller gets exactly that
/// message, and the log gets it behind what was tried.
pub proof fn law_command_failures_are_told(message: Seq<char>)
    ensures
        start_begin(Err(message)) == StartData::Done(
            ReplyData {
                effects: seq![EffectData::Log("运行环境初始化失败: "@ + message)],
                outcome: Err(message),
            },
        ),
        after_spawn(Err(message)) == StartData::Done(
            ReplyData {
                effects: seq![EffectData::Log("启动 DSH 失败: "@ + message)],
                outcome: Err(message),
            },
        ),
        restart_begin(Err(message)) == RestartData::Done(
            RestartReplyData {
                effects: seq![EffectData::Log("运行环境初始化失败: "@ + message)],
                outcome: Err(message),
            },
        ),
        after_respawn(Err(message)) == RestartData::Done(
            RestartReplyData {
                effects: seq![EffectData::Log("重启 DSH 失败: "@ + message)],
                outcome: Err(message),
            },
        ),
        after_lock_slot(Err(message)) == RestartData::Done(
            RestartReplyData { effects: Seq::empty(), outcome: Err(message) },
        ),
        stop_data(Err(message)) == (ReplyData { effects: Seq::empty(), outcome: Err(message) }),
{
}

/// A stop empties the slot. A restart keeps what it spawned, and answers with
/// exactly the URL that is known of it, if there is one.
pub proof fn law_stop_and_restart_answers(url: Seq<char>)
    ensures
        stop_data(Ok(())) == (ReplyData {
            effects: seq![EffectData::DropProcess],
            outcome: Ok(()),
        }),
        restart_begin(Ok(())) is LockSlot,
        after_lock_slot(Ok(())) is Respawn,
        after_respawn(Ok(Some(url))) == RestartData::Done(
            RestartReplyData {
                effects: seq![EffectData::KeepProcess],
                outcome: Ok("DSH 服务已重启，URL: "@ + url),
            },
        ),
        after_respawn(Ok(None)) == RestartData::Done(
            RestartReplyData {
                effects: seq![EffectData::KeepProcess],
                outcome: Ok("DSH 服务已重启，URL: "@),
            },
        ),
{
}

/// A boot spawns on an empty slot alone and keeps what it spawned. Whatever
/// fails is shown as it is, logged behind what was tried, and the page is told
/// exactly that, in this order.
pub proof fn law_boot_answers(message: Seq<char>)
    ensures
        after_prepare(Ok(())) is CheckSlot,
        after_check_slot(true) is FirstSpawn,
        after_check_slot(false) == BootData::Done(Seq::empty()),
        after_first_spawn(Ok(())) == BootData::Done(seq![EffectData::KeepProcess]),
        after_prepare(Err(message)) == BootData::Done(
            seq![
                EffectData::Emit { event: "boot-status"@, payload: message },
                EffectData::Log("运行环境初始化失败: "@ + message),
                EffectData::Emit { event: "dsh-error"@, payload: message },
            ],
        ),
        after_first_spawn(Err(message)) == BootData::Done(
            seq![
                EffectData::Emit { event: "boot-status"@, payload: message },
                EffectData::Log("启动 DSH 失败: "@ + message),
                EffectData::Emit { event: "dsh-error"@, payload: message },
            ],
        ),
{
}

} // verus!
