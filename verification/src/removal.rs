//! Removing a directory that others may still hold for a while.

use vstd::prelude::*;

use crate::failure::{path_message, PathFailure, PathFailureData};
use crate::platform::{access_denied_hint, Platform};

verus! {

/// How often a removal is tried: long enough to ride out a virus scanner or a
/// dying process that still holds files.
pub const REMOVE_ATTEMPTS: u32 = 10;

/// Pause between two attempts, in seconds.
pub const PAUSE_SECS: u64 = 1;

/// What precedes the path that could not be removed.
pub const REMOVE_FAILED: &'static str = "删除旧运行环境失败 (";

/// What the user can do about it.
pub const REMOVE_ADVICE: &'static str = " — 请从托盘彻底退出 DeepSeek Work 后重试";

/// A removal under way.
#[derive(Debug, PartialEq, Eq)]
pub struct Removal {
    failures: u32,
}

/// What to do after an attempt.
#[derive(Debug, PartialEq, Eq)]
pub enum RemovalStep {
    /// The directory is gone.
    Removed,
    /// Pause, then try again.
    Retry { pause_secs: u64, removal: Removal },
    /// Every attempt failed; the message reports the last failure.
    GaveUp(String),
}

/// What to do after an attempt, as data: a retry counts the failures so far.
pub enum RemovalData {
    Removed,
    Retry { pause_secs: u64, failures: nat },
    GaveUp(Seq<char>),
}

impl View for RemovalStep {
    type V = RemovalData;

    open spec fn view(&self) -> RemovalData {
        match self {
            RemovalStep::Removed => RemovalData::Removed,
            RemovalStep::Retry { pause_secs, removal } => RemovalData::Retry {
                pause_secs: *pause_secs,
                failures: removal@,
            },
            RemovalStep::GaveUp(message) => RemovalData::GaveUp(message@),
        }
    }
}

impl View for Removal {
    type V = nat;

    closed spec fn view(&self) -> nat {
        self.failures as nat
    }
}

/// Reports the failure of the last attempt.
pub open spec fn gave_up(platform: Platform, failed: PathFailureData) -> Seq<char> {
    crate::failure::about_path(REMOVE_FAILED@, failed) + REMOVE_ADVICE@ + crate::platform::hint(
        platform,
        failed.failure.code,
    )
}

/// What to do after one more attempt, with `failures` failed ones before it.
pub open spec fn after_attempt(
    platform: Platform,
    failures: nat,
    outcome: Result<(), PathFailureData>,
) -> RemovalData {
    match outcome {
        Ok(()) => RemovalData::Removed,
        Err(failed) => if failures + 1 < REMOVE_ATTEMPTS {
            RemovalData::Retry { pause_secs: PAUSE_SECS, failures: failures + 1 }
        } else {
            RemovalData::GaveUp(gave_up(platform, failed))
        },
    }
}

/// Starts to remove a directory, before any attempt.
pub fn remove_dir_all_retry() -> (removal: Removal)
    ensures
        removal@ == 0,
{
    Removal { failures: 0 }
}

impl Removal {
    #[verifier::type_invariant]
    spec fn goes_on(self) -> bool {
        self.failures < REMOVE_ATTEMPTS
    }

    /// Takes in the outcome of an attempt and says what to do next.
    pub fn attempted(self, platform: Platform, outcome: Result<(), PathFailure>) -> (step:
        RemovalStep)
        ensures
            step@ == after_attempt(platform, self@, crate::failure::path_outcome(outcome)),
    {
        proof {
            use_type_invariant(&self);
        }
        match outcome {
            Ok(()) => RemovalStep::Removed,
            Err(failed) => {
                if self.failures + 1 < REMOVE_ATTEMPTS {
                    RemovalStep::Retry {
                        pause_secs: PAUSE_SECS,
                        removal: Removal { failures: self.failures + 1 },
                    }
                } else {
                    let message = path_message(REMOVE_FAILED, &failed).concat(REMOVE_ADVICE);
                    RemovalStep::GaveUp(
                        message.concat(access_denied_hint(platform, failed.failure.code)),
                    )
                }
            },
        }
    }
}

/// How a removal ends whose attempts have the given outcomes, and how many of them it makes.
pub open spec fn removal_run(
    platform: Platform,
    failures: nat,
    outcomes: Seq<Result<(), PathFailureData>>,
) -> (nat, RemovalData)
    decreases outcomes.len(),
{
    if outcomes.len() == 0 {
        (0, RemovalData::Retry { pause_secs: PAUSE_SECS, failures })
    } else {
        match after_attempt(platform, failures, outcomes[0]) {
            RemovalData::Retry { pause_secs: _, failures: more } => {
                let rest = removal_run(platform, more, outcomes.drop_first());
                (rest.0 + 1, rest.1)
            },
            end => (1, end),
        }
    }
}

proof fn lemma_removal_run(
    platform: Platform,
    failures: nat,
    outcomes: Seq<Result<(), PathFailureData>>,
)
    requires
        failures < REMOVE_ATTEMPTS,
        failures + outcomes.len() >= REMOVE_ATTEMPTS,
    ensures
        ({
            let left = REMOVE_ATTEMPTS - failures;
            let (made, end) = removal_run(platform, failures, outcomes);
            &&& 1 <= made <= left
            &&& forall|i: int| 0 <= i < made - 1 ==> (#[trigger] outcomes[i]) is Err
            &&& match outcomes[made - 1] {
                Ok(()) => end == RemovalData::Removed,
                Err(failed) => made == left && end == RemovalData::GaveUp(
                    gave_up(platform, failed),
                ),
            }
        }),
    decreases outcomes.len(),
{
    let rest = outcomes.drop_first();
    if outcomes[0] is Err && failures + 1 < REMOVE_ATTEMPTS {
        lemma_removal_run(platform, failures + 1, rest);
        let made = removal_run(platform, failures + 1, rest).0;
        assert forall|i: int| 0 <= i < made implies (#[trigger] outcomes[i]) is Err by {
            if i > 0 {
                assert(rest[i - 1] is Err);
            }
        }
        assert(rest[made - 1] == outcomes[made as int]);
    }
}

/// A removal makes at most ten attempts. It stops at the first that succeeds;
/// where none does, it gives up after the tenth and reports that one's failure.
pub proof fn law_removal_ends(platform: Platform, outcomes: Seq<Result<(), PathFailureData>>)
    requires
        outcomes.len() >= REMOVE_ATTEMPTS,
    ensures
        ({
            let (made, end) = removal_run(platform, 0, outcomes);
            &&& 1 <= made <= REMOVE_ATTEMPTS
            &&& forall|i: int| 0 <= i < made - 1 ==> (#[trigger] outcomes[i]) is Err
            &&& match outcomes[made - 1] {
                Ok(()) => end == RemovalData::Removed,
                Err(failed) => made == REMOVE_ATTEMPTS && end == RemovalData::GaveUp(
                    gave_up(platform, failed),
                ),
            }
        }),
{
    lemma_removal_run(platform, 0, outcomes);
}

/// An attempt that succeeds ends the removal. One that fails is followed by
/// another after a second, up to the tenth; the failure of the tenth is
/// reported in full, with what the user can do about it.
pub proof fn law_attempts(
    platform: Platform,
    failures: nat,
    path: Seq<char>,
    text: Seq<char>,
    code: Option<i32>,
)
    ensures
        after_attempt(platform, failures, Ok(())) is Removed,
        ({
            let failed = PathFailureData {
                path,
                failure: crate::failure::IoFailureData { text, code },
            };
            let told = "删除旧运行环境失败 ("@ + path + "): "@ + text
                + " — 请从托盘彻底退出 DeepSeek Work 后重试"@;
            let next = after_attempt(platform, failures, Err(failed));
            &&& failures < 9 ==> next == (RemovalData::Retry {
                pause_secs: 1,
                failures: failures + 1,
            })
            &&& failures >= 9 ==> next == RemovalData::GaveUp(
                if platform == Platform::Windows && code == Some(5i32) {
                    told + "；通常是杀软拦截，或上一个 DSH 进程(node.exe)仍残留占用——请将安装目录与 %APPDATA%/com.deepseek-harness.desktop 加入杀软白名单，并在任务管理器中结束残留的 node.exe"@
                } else {
                    told
                },
            )
        }),
{
    reveal_strlit("");
    let told = "删除旧运行环境失败 ("@ + path + "): "@ + text
        + " — 请从托盘彻底退出 DeepSeek Work 后重试"@;
    assert(told + ""@ =~= told);
}

/// What to do after an attempt is what its data says, and a retry counts the failures so far.
pub proof fn law_removal_step_data(step: RemovalStep)
    ensures
        match step {
            RemovalStep::Removed => step@ is Removed,
            RemovalStep::Retry { pause_secs, removal } => step@ == (RemovalData::Retry {
                pause_secs,
                failures: removal@,
            }),
            RemovalStep::GaveUp(message) => step@ == RemovalData::GaveUp(message@),
        },
{
}

} // verus!
