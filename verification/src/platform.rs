//! What differs between the operating systems the shell runs on.

use vstd::prelude::*;

verus! {

/// An operating system family the shell runs on.
#[derive(Clone, Copy, PartialEq, Eq, Structural, Debug)]
pub enum Platform {
    Windows,
    MacOs,
    /// Any Unix other than macOS.
    Unix,
}

/// File name of the bundled Node binary on Windows.
pub const NODE_EXE: &'static str = "node.exe";

/// File name of the bundled Node binary elsewhere.
pub const NODE: &'static str = "node";

/// What to tell the user after an "access denied" on Windows: the bare
/// "os error 5" does not read well, and the two usual causes are a virus
/// scanner and a leftover node.exe that still locks its image.
pub const ACCESS_DENIED_HINT: &'static str =
    "；通常是杀软拦截，或上一个 DSH 进程(node.exe)仍残留占用——请将安装目录与 %APPDATA%/com.deepseek-harness.desktop 加入杀软白名单，并在任务管理器中结束残留的 node.exe";

/// Windows' ERROR_ACCESS_DENIED.
pub const ERROR_ACCESS_DENIED: i32 = 5;

/// The bundled Node binary's name on a platform.
pub open spec fn node_bin(platform: Platform) -> Seq<char> {
    if platform == Platform::Windows {
        NODE_EXE@
    } else {
        NODE@
    }
}

/// The bundled Node binary name differs by platform.
pub fn node_bin_name(platform: Platform) -> (name: &'static str)
    ensures
        name@ == node_bin(platform),
{
    match platform {
        Platform::Windows => NODE_EXE,
        _ => NODE,
    }
}

/// The hint that follows an I/O error with the given raw OS code.
pub open spec fn hint(platform: Platform, code: Option<i32>) -> Seq<char> {
    if platform == Platform::Windows && code == Some(ERROR_ACCESS_DENIED) {
        ACCESS_DENIED_HINT@
    } else {
        ""@
    }
}

/// The hint to append to the message of an I/O error whose raw OS code is
/// `code`: empty unless Windows denied the access.
pub fn access_denied_hint(platform: Platform, code: Option<i32>) -> (text: &'static str)
    ensures
        text@ == hint(platform, code),
{
    match (platform, code) {
        (Platform::Windows, Some(c)) => if c == ERROR_ACCESS_DENIED {
            ACCESS_DENIED_HINT
        } else {
            ""
        },
        _ => "",
    }
}

/// The Node binary has a suffix on Windows, and on no other platform.
pub proof fn law_node_name(platform: Platform)
    ensures
        platform == Platform::Windows ==> node_bin(platform) == "node.exe"@,
        platform != Platform::Windows ==> node_bin(platform) == "node"@,
{
}

/// A hint is given exactly for code 5 on Windows, and it is always the same.
pub proof fn law_hint_is_for_denied_access(platform: Platform, code: Option<i32>)
    ensures
        hint(platform, code).len() > 0 <==> platform == Platform::Windows && code == Some(5i32),
        platform == Platform::Windows && code == Some(5i32) ==> hint(platform, code)
            == "；通常是杀软拦截，或上一个 DSH 进程(node.exe)仍残留占用——请将安装目录与 %APPDATA%/com.deepseek-harness.desktop 加入杀软白名单，并在任务管理器中结束残留的 node.exe"@,
{
    reveal_strlit("；通常是杀软拦截，或上一个 DSH 进程(node.exe)仍残留占用——请将安装目录与 %APPDATA%/com.deepseek-harness.desktop 加入杀软白名单，并在任务管理器中结束残留的 node.exe");
    reveal_strlit("");
}

} // verus!
