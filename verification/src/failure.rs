//! Failures of input and output, and the messages that report them.

use vstd::prelude::*;

use crate::platform::{access_denied_hint, Platform};

verus! {

/// A failed operation on the disk or on a process: how the system words it, and its raw code.
#[derive(Debug, PartialEq, Eq)]
pub struct IoFailure {
    pub text: String,
    pub code: Option<i32>,
}

/// A failed operation on one path.
#[derive(Debug, PartialEq, Eq)]
pub struct PathFailure {
    pub path: String,
    pub failure: IoFailure,
}

/// An [`IoFailure`] with its text as a character sequence.
pub struct IoFailureData {
    pub text: Seq<char>,
    pub code: Option<i32>,
}

/// A [`PathFailure`] with its texts as character sequences.
pub struct PathFailureData {
    pub path: Seq<char>,
    pub failure: IoFailureData,
}

impl View for IoFailure {
    type V = IoFailureData;

    open spec fn view(&self) -> IoFailureData {
        IoFailureData { text: self.text@, code: self.code }
    }
}

impl View for PathFailure {
    type V = PathFailureData;

    open spec fn view(&self) -> PathFailureData {
        PathFailureData { path: self.path@, failure: self.failure@ }
    }
}

/// An outcome whose error is a text, with that text as a character sequence.
pub open spec fn texted<T>(outcome: Result<T, String>) -> Result<T, Seq<char>> {
    match outcome {
        Ok(value) => Ok(value),
        Err(message) => Err(message@),
    }
}

/// An optional text as a character sequence.
pub open spec fn opt_text(text: Option<String>) -> Option<Seq<char>> {
    match text {
        Some(t) => Some(t@),
        None => None,
    }
}

/// A text outcome with both texts as character sequences.
pub open spec fn text_outcome(outcome: Result<String, String>) -> Result<Seq<char>, Seq<char>> {
    match outcome {
        Ok(value) => Ok(value@),
        Err(message) => Err(message@),
    }
}

/// The outcome of an operation on one path.
pub open spec fn path_outcome(outcome: Result<(), PathFailure>) -> Result<(), PathFailureData> {
    match outcome {
        Ok(()) => Ok(()),
        Err(failed) => Err(failed@),
    }
}

/// `label`, then what went wrong.
pub fn labelled(label: &str, cause: &str) -> (message: String)
    ensures
        message@ == label@ + cause@,
{
    label.to_owned().concat(cause)
}

/// `label` of the form "what (", then the path, then what went wrong with it.
pub open spec fn about_path(label: Seq<char>, failed: PathFailureData) -> Seq<char> {
    label + failed.path + "): "@ + failed.failure.text
}

/// Reports a failed operation on a path.
pub fn path_message(label: &str, failed: &PathFailure) -> (message: String)
    ensures
        message@ == about_path(label@, failed@),
{
    label.to_owned().concat(failed.path.as_str()).concat("): ").concat(failed.failure.text.as_str())
}

/// [`about_path`], followed by the platform's hint on a denied access.
pub open spec fn about_path_hinted(
    platform: Platform,
    label: Seq<char>,
    failed: PathFailureData,
) -> Seq<char> {
    about_path(label, failed) + crate::platform::hint(platform, failed.failure.code)
}

/// Reports a failed operation on a path, with a hint where the platform has one.
pub fn hinted_message(platform: Platform, label: &str, failed: &PathFailure) -> (message: String)
    ensures
        message@ == about_path_hinted(platform, label@, failed@),
{
    path_message(label, failed).concat(access_denied_hint(platform, failed.failure.code))
}

/// Whatever an operation gave, its outcome is handed on: success with its
/// value, a failure with its whole text, its path and its code.
pub proof fn law_outcomes_are_handed_on(
    value: String,
    message: String,
    path: String,
    code: Option<i32>,
)
    ensures
        texted(Ok::<(), String>(())) == Ok::<(), Seq<char>>(()),
        texted(Err::<(), String>(message)) == Err::<(), Seq<char>>(message@),
        opt_text(Some(message)) == Some(message@),
        opt_text(None) is None,
        text_outcome(Ok(value)) == Ok::<Seq<char>, Seq<char>>(value@),
        text_outcome(Err(message)) == Err::<Seq<char>, Seq<char>>(message@),
        path_outcome(Ok(())) == Ok::<(), PathFailureData>(()),
        path_outcome(
            Err(PathFailure { path, failure: IoFailure { text: message, code } }),
        ) == Err::<(), PathFailureData>(
            (PathFailureData {
                path: path@,
                failure: IoFailureData { text: message@, code },
            }),
        ),
{
}

/// A failed operation on a path is reported by what was tried, the path and
/// what the system says, in that order and in full. On Windows, and there
/// alone, a denied access (code 5) is explained behind that.
pub proof fn law_path_failures_are_told(
    platform: Platform,
    label: Seq<char>,
    path: Seq<char>,
    text: Seq<char>,
    code: Option<i32>,
)
    ensures
        ({
            let failed = PathFailureData { path, failure: IoFailureData { text, code } };
            let told = label + path + "): "@ + text;
            &&& about_path(label, failed) == told
            &&& about_path_hinted(platform, label, failed) == (if platform == Platform::Windows
                && code == Some(5i32) {
                told + "；通常是杀软拦截，或上一个 DSH 进程(node.exe)仍残留占用——请将安装目录与 %APPDATA%/com.deepseek-harness.desktop 加入杀软白名单，并在任务管理器中结束残留的 node.exe"@
            } else {
                told
            })
        }),
{
    reveal_strlit("");
    let told = label + path + "): "@ + text;
    assert(told + ""@ =~= told);
}

} // verus!
