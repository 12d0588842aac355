//! Getting rid of a DSH process that an earlier session left behind.

use vstd::prelude::*;

use crate::command::{CommandData, CommandLine};
use crate::place::{pid_file, Place, Root};
use crate::platform::Platform;
use crate::text::{decimal_text, trim};

verus! {

/// How long to wait after the kill, so that the system releases the files
/// that the dead process held.
pub const SETTLE_SECS: u64 = 1;

/// Kill the process, wait, then remove the file that recorded it.
#[derive(Debug, PartialEq, Eq)]
pub struct KillPlan {
    pub command: CommandLine,
    pub settle_secs: u64,
}

impl KillPlan {
    /// The file to remove once the process is gone.
    pub fn record(&self) -> (place: Place)
        ensures
            place@ == crate::place::pid_record_in(Root::AppData),
    {
        pid_file(Root::AppData)
    }
}

/// The process that a PID file records: none if the file cannot be read or is blank.
pub open spec fn recorded_pid(contents: Option<Seq<char>>) -> Option<Seq<char>> {
    match contents {
        Some(text) => if crate::text::trimmed(text).len() == 0 {
            None
        } else {
            Some(crate::text::trimmed(text))
        },
        None => None,
    }
}

/// The command that kills one process, and no other.
pub open spec fn kill_command_data(platform: Platform, pid: Seq<char>) -> CommandData {
    if platform == Platform::Windows {
        crate::command::bare("taskkill"@).arg("/PID"@).arg(pid).arg("/F"@)
    } else {
        crate::command::bare("kill"@).arg(pid)
    }
}

/// The command that kills one process, and no other.
fn kill_command(platform: Platform, pid: &str) -> (command: CommandLine)
    ensures
        command@ == kill_command_data(platform, pid@),
{
    match platform {
        Platform::Windows => CommandLine::new("taskkill").arg("/PID").arg(pid).arg("/F"),
        _ => CommandLine::new("kill").arg(pid),
    }
}

/// What to do about a process that an earlier session recorded in its PID
/// file. Only the recorded process is touched; without one nothing is done.
pub fn kill_stale_dsh(platform: Platform, contents: Option<String>) -> (plan: Option<KillPlan>)
    ensures
        match recorded_pid(crate::failure::opt_text(contents)) {
            Some(pid) => plan matches Some(p) && p.command@ == kill_command_data(platform, pid)
                && p.settle_secs == SETTLE_SECS,
            None => plan is None,
        },
{
    match contents {
        Some(text) => {
            let pid = trim(text.as_str());
            if pid.as_str().is_empty() {
                None
            } else {
                let command = kill_command(platform, pid.as_str());
                Some(KillPlan { command, settle_secs: SETTLE_SECS })
            }
        },
        None => None,
    }
}

/// What the PID file of a process holds.
pub fn pid_record(pid: u32) -> (text: String)
    ensures
        text@ == crate::text::decimal(pid as nat),
{
    decimal_text(pid as u64)
}

/// The process that is killed is the one that was recorded.
pub proof fn law_recorded_pid_is_killed(pid: u32)
    ensures
        recorded_pid(Some(crate::text::decimal(pid as nat))) == Some(
            crate::text::decimal(pid as nat),
        ),
{
    crate::text::lemma_decimal_is_digits(pid as nat);
}

/// The record of a process is its number, whatever white space stands around
/// it. A blank record, and none at all, record nothing.
pub proof fn law_record_is_read(before: Seq<char>, pid: Seq<char>, after: Seq<char>)
    requires
        forall|i: int|
            0 <= i < before.len() ==> crate::text::is_white_space(#[trigger] before[i]),
        forall|i: int| 0 <= i < after.len() ==> crate::text::is_white_space(#[trigger] after[i]),
        pid.len() > 0 ==> !crate::text::is_white_space(pid[0]) && !crate::text::is_white_space(
            pid.last(),
        ),
    ensures
        pid.len() > 0 ==> recorded_pid(Some(before + pid + after)) == Some(pid),
        pid.len() == 0 ==> recorded_pid(Some(before + pid + after)) is None,
        recorded_pid(None) is None,
{
    crate::text::law_trimming_leaves_the_text(before, pid, after);
}

/// Whatever the process, the command that kills it names it once, and names
/// no other: by `taskkill` on Windows, by `kill` elsewhere.
pub proof fn law_kill_names_one_process(platform: Platform, pid: Seq<char>)
    ensures
        platform == Platform::Windows ==> kill_command_data(platform, pid) == (CommandData {
            program: "taskkill"@,
            args: seq!["/PID"@, pid, "/F"@],
        }),
        platform != Platform::Windows ==> kill_command_data(platform, pid) == (CommandData {
            program: "kill"@,
            args: seq![pid],
        }),
        SETTLE_SECS == 1,
{
    let none = Seq::<Seq<char>>::empty();
    assert(none.push("/PID"@).push(pid).push("/F"@) =~= seq!["/PID"@, pid, "/F"@]);
    assert(none.push(pid) =~= seq![pid]);
}

} // verus!
