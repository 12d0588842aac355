use deepseek_work::copying::{copy_dir_all, CopyFailure, CopyStep, Listed};
use deepseek_work::effect::Effect;
use deepseek_work::failure::{IoFailure, PathFailure};
use deepseek_work::launch::{spawn_dsh_web, LaunchStep};
use deepseek_work::place::{
    dsh_home, log_file_path, node_file, pid_file, runtime_dir, script_file, version_file,
    web_profile_dir, Place, Root,
};
use deepseek_work::platform::{access_denied_hint, Platform};
use deepseek_work::removal::{remove_dir_all_retry, RemovalStep};
use deepseek_work::runtime::{
    bundled_runtime_dir, ensure_runtime, BundleStep, RuntimeStep, EXECUTABLE_MODE, MARKER_NUMBER,
    ROOT_NUMBER,
};

fn failure(path: &str, code: Option<i32>) -> PathFailure {
    PathFailure {
        path: path.to_string(),
        failure: IoFailure { text: "denied".to_string(), code },
    }
}

fn place(root: Root, parts: &[&str]) -> Place {
    Place { root, parts: parts.iter().map(|p| p.to_string()).collect() }
}

fn status(message: &str) -> Effect {
    Effect::Emit { event: "boot-status".to_string(), payload: message.to_string() }
}

#[test]
fn files_stand_where_they_should() {
    assert_eq!(runtime_dir(), place(Root::AppData, &["runtime"]));
    assert_eq!(version_file(Root::AppData), place(Root::AppData, &["runtime", "dsh-version"]));
    assert_eq!(
        node_file(Platform::Windows, Root::AppData),
        place(Root::AppData, &["runtime", "node.exe"])
    );
    assert_eq!(
        script_file(Root::AppData),
        place(Root::AppData, &["runtime", "node_modules/@deepseek-ai/dsh/lib/bin.js"])
    );
    assert_eq!(pid_file(Root::AppData), place(Root::AppData, &["runtime", "dsh.pid"]));
    assert_eq!(
        log_file_path(),
        place(Root::Home, &["deepseek-work-preview", "deepseek-work.log"])
    );
    assert_eq!(web_profile_dir(None), place(Root::Home, &[".dsh", "profiles", "web"]));
    assert_eq!(dsh_home(Some(true)), place(Root::Home, &[".dsh"]));
    assert_eq!(web_profile_dir(Some(false)), place(Root::DshHome, &["profiles", "web"]));
}

#[test]
fn bundle_is_searched_in_resources_first() {
    let none = "未找到内嵌运行环境，请先执行 scripts/prepare-runtime.sh".to_string();
    assert_eq!(
        bundled_runtime_dir(Platform::Windows, Err("no resources".to_string()), true),
        BundleStep::NotFound("no resources".to_string())
    );
    let BundleStep::CheckBundled(step) = bundled_runtime_dir(Platform::Windows, Ok(()), true) else { panic!() };
    assert_eq!(step.file(), place(Root::Resources, &["runtime", "node.exe"]));
    assert_eq!(step.checked(true), BundleStep::Found(Root::Resources));
    let BundleStep::CheckBundled(step) = bundled_runtime_dir(Platform::Windows, Ok(()), false) else { panic!() };
    assert_eq!(step.checked(false), BundleStep::NotFound(none.clone()));
    let BundleStep::CheckBundled(step) = bundled_runtime_dir(Platform::Windows, Ok(()), true) else { panic!() };
    let BundleStep::CheckSource(step) = step.checked(false) else { panic!() };
    assert_eq!(step.file(), place(Root::SourceTree, &["runtime", "node.exe"]));
    assert_eq!(step.checked(true), BundleStep::Found(Root::SourceTree));
    let BundleStep::CheckBundled(step) = bundled_runtime_dir(Platform::Windows, Ok(()), true) else { panic!() };
    let BundleStep::CheckSource(step) = step.checked(false) else { panic!() };
    assert_eq!(step.checked(false), BundleStep::NotFound(none));
}

fn inspected(platform: Platform, marker: Option<&str>, node: bool) -> RuntimeStep {
    let RuntimeStep::LocateBundle(step) = ensure_runtime(platform, false) else { panic!() };
    let RuntimeStep::ReadWanted(step) = step.located(Ok(Root::SourceTree)) else { panic!() };
    assert_eq!(step.file(), place(Root::SourceTree, &["runtime", "dsh-version"]));
    let RuntimeStep::LocateRuntime(step) = step.read(Ok("0.1.0\n".to_string())) else { panic!() };
    assert_eq!(step.directory(), runtime_dir());
    let RuntimeStep::Inspect(step) = step.located(Ok(())) else { panic!() };
    assert_eq!(step.marker(), version_file(Root::AppData));
    assert_eq!(step.node(), node_file(platform, Root::AppData));
    step.inspected(marker.map(|m| m.to_string()), node)
}

fn parent_made(platform: Platform) -> RuntimeStep {
    let RuntimeStep::CheckOld(step) = inspected(platform, None, false) else { panic!() };
    let RuntimeStep::MakeParent(step) = step.checked(false) else { panic!() };
    step.made(Ok(()))
}

#[test]
fn current_runtime_is_ready_at_once() {
    assert_eq!(inspected(Platform::Unix, Some("0.1.0\n"), true), RuntimeStep::Ready);
    let RuntimeStep::LocateReady(step) = ensure_runtime(Platform::Unix, true) else { panic!() };
    assert_eq!(step.directory(), runtime_dir());
    assert_eq!(step.located(Ok(())), RuntimeStep::Ready);
    let RuntimeStep::LocateReady(step) = ensure_runtime(Platform::Unix, true) else { panic!() };
    assert_eq!(step.located(Err("x".to_string())), RuntimeStep::Failed("x".to_string()));
}

#[test]
fn other_runtime_is_cleared_and_extracted() {
    for (marker, node) in [(None, true), (Some("0.1.0"), true), (Some("0.1.0\n"), false)] {
        let RuntimeStep::CheckOld(step) = inspected(Platform::Windows, marker, node) else {
            panic!()
        };
        assert_eq!(step.announce(), status("首次启动，正在准备运行环境…"));
        assert_eq!(step.directory(), runtime_dir());
        let RuntimeStep::ClearOld(step) = step.checked(true) else { panic!() };
        assert_eq!(step.record(), pid_file(Root::AppData));
        assert_eq!(step.directory(), runtime_dir());
        let RuntimeStep::MakeParent(step) = step.removed(Ok(())) else { panic!() };
        assert_eq!(step.directory(), place(Root::AppData, &[]));
        let RuntimeStep::CopyTree(step) = step.made(Ok(())) else { panic!() };
        assert_eq!(step.from(), place(Root::SourceTree, &["runtime"]));
        assert_eq!(step.marker(), place(Root::SourceTree, &["runtime", "dsh-version"]));
        assert_eq!(step.to(), runtime_dir());
        assert_eq!(step.copy(), copy_dir_all(ROOT_NUMBER, Some(MARKER_NUMBER)));
        let RuntimeStep::WriteMarker(step) = step.copied(Ok(())) else { panic!() };
        assert_eq!(step.from(), version_file(Root::SourceTree));
        assert_eq!(step.to(), version_file(Root::AppData));
        assert_eq!(step.contents(), "0.1.0\n");
        assert_eq!(step.written(Ok(())), RuntimeStep::Ready);
    }
}

#[test]
fn unix_marks_executables() {
    let RuntimeStep::CopyTree(step) = parent_made(Platform::Unix) else { panic!() };
    let RuntimeStep::SetModes(step) = step.copied(Ok(())) else { panic!() };
    assert_eq!(
        step.executables(),
        vec![
            place(Root::AppData, &["runtime", "node"]),
            place(Root::AppData, &["runtime", "npm"]),
            place(Root::AppData, &["runtime", "pnpm"]),
        ]
    );
    assert_eq!(EXECUTABLE_MODE, 0o755);
    let RuntimeStep::WriteMarker(step) = step.marked() else { panic!() };
    assert_eq!(step.written(Ok(())), RuntimeStep::Ready);
}

#[test]
fn failed_extraction_leaves_no_marker() {
    let RuntimeStep::CopyTree(step) = parent_made(Platform::Unix) else { panic!() };
    assert_eq!(step.copied(Err("full".to_string())), RuntimeStep::Failed("full".to_string()));
    // The Node binary was copied, the marker was not.
    assert!(matches!(inspected(Platform::Unix, None, true), RuntimeStep::CheckOld(_)));

    let RuntimeStep::CopyTree(step) = parent_made(Platform::Windows) else { panic!() };
    let RuntimeStep::WriteMarker(step) = step.copied(Ok(())) else { panic!() };
    let failed = CopyFailure {
        from: "/b/dsh-version".to_string(),
        to: "/r/dsh-version".to_string(),
        failure: IoFailure { text: "denied".to_string(), code: Some(5) },
    };
    assert_eq!(
        step.written(Err(failed)),
        RuntimeStep::Failed(format!(
            "复制文件失败 (/b/dsh-version -> /r/dsh-version): denied{}",
            access_denied_hint(Platform::Windows, Some(5))
        ))
    );
    assert!(matches!(inspected(Platform::Unix, Some("0.1"), true), RuntimeStep::CheckOld(_)));
}

#[test]
fn macos_clones_and_takes_off_the_quarantine() {
    let RuntimeStep::CloneTree(step) = parent_made(Platform::MacOs) else { panic!() };
    assert_eq!(step.command().program, "cp");
    assert_eq!(step.command().args, vec!["-Rc"]);
    assert_eq!(step.marker(), place(Root::SourceTree, &["runtime", "dsh-version"]));
    assert_eq!(step.chosen(vec![3, MARKER_NUMBER, 2]), vec![3, 2]);
    assert_eq!(step.chosen(vec![]), Vec::<u64>::new());
    assert_eq!(step.from(), place(Root::SourceTree, &["runtime"]));
    assert_eq!(step.to(), runtime_dir());
    let RuntimeStep::SetModes(step) = step.cloned(true) else { panic!() };
    let RuntimeStep::Unquarantine(step) = step.marked() else { panic!() };
    assert_eq!(step.command().program, "xattr");
    assert_eq!(step.command().args, vec!["-dr", "com.apple.quarantine"]);
    assert_eq!(step.directory(), runtime_dir());
    let RuntimeStep::WriteMarker(step) = step.cleared() else { panic!() };
    assert_eq!(step.written(Ok(())), RuntimeStep::Ready);
    let RuntimeStep::CloneTree(step) = parent_made(Platform::MacOs) else { panic!() };
    let RuntimeStep::CopyTree(step) = step.cloned(false) else { panic!() };
    let RuntimeStep::SetModes(step) = step.copied(Ok(())) else { panic!() };
    let RuntimeStep::Unquarantine(_) = step.marked() else { panic!() };
}

#[test]
fn runtime_failures_are_worded() {
    let fail = |m: &str| RuntimeStep::Failed(m.to_string());
    let RuntimeStep::LocateBundle(step) = ensure_runtime(Platform::Unix, false) else { panic!() };
    assert_eq!(step.located(Err("none".to_string())), fail("none"));
    let RuntimeStep::LocateBundle(step) = ensure_runtime(Platform::Unix, false) else { panic!() };
    let RuntimeStep::ReadWanted(step) = step.located(Ok(Root::Resources)) else { panic!() };
    assert_eq!(step.read(Err("gone".to_string())), fail("内嵌运行环境缺少版本标记: gone"));
    let RuntimeStep::LocateBundle(step) = ensure_runtime(Platform::Unix, false) else { panic!() };
    let RuntimeStep::ReadWanted(step) = step.located(Ok(Root::Resources)) else { panic!() };
    let RuntimeStep::LocateRuntime(step) = step.read(Ok("1".to_string())) else { panic!() };
    assert_eq!(step.located(Err("nowhere".to_string())), fail("nowhere"));
    let RuntimeStep::CheckOld(step) = inspected(Platform::Unix, None, false) else { panic!() };
    let RuntimeStep::ClearOld(step) = step.checked(true) else { panic!() };
    assert_eq!(step.removed(Err("locked".to_string())), fail("locked"));
    let RuntimeStep::CheckOld(step) = inspected(Platform::Unix, None, false) else { panic!() };
    let RuntimeStep::MakeParent(step) = step.checked(false) else { panic!() };
    assert_eq!(step.made(Err(failure("/d", Some(5)))), fail("创建数据目录失败 (/d): denied"));
    let RuntimeStep::CopyTree(step) = parent_made(Platform::Unix) else { panic!() };
    assert_eq!(step.copied(Err("full".to_string())), fail("full"));
}

#[test]
fn removal_stops_at_the_first_success() {
    let RemovalStep::Retry { pause_secs, removal } =
        remove_dir_all_retry().attempted(Platform::Unix, Err(failure("/r", None)))
    else {
        panic!()
    };
    assert_eq!(pause_secs, 1);
    assert_eq!(removal.attempted(Platform::Unix, Ok(())), RemovalStep::Removed);
}

#[test]
fn removal_gives_up_after_ten_attempts() {
    let mut removal = remove_dir_all_retry();
    let mut attempts = 0;
    loop {
        attempts += 1;
        match removal.attempted(Platform::Windows, Err(failure("/r", Some(5)))) {
            RemovalStep::Retry { pause_secs: _, removal: next } => removal = next,
            RemovalStep::GaveUp(message) => {
                assert_eq!(
                    message,
                    format!(
                        "删除旧运行环境失败 (/r): denied — 请从托盘彻底退出 DeepSeek Work 后重试{}",
                        access_denied_hint(Platform::Windows, Some(5))
                    )
                );
                break;
            }
            RemovalStep::Removed => panic!(),
        }
    }
    assert_eq!(attempts, 10);
}

enum Node {
    File(u64),
    Dir(u64, Vec<Node>),
}

/// Runs a copy of `root` in a world where nothing fails and lists what it does.
fn copy_acts(root: u64, left_out: Option<u64>, entries: Vec<Node>) -> Vec<String> {
    let mut acts = Vec::new();
    let mut pending: Vec<Vec<Node>> = Vec::new();
    let mut next = Some(entries);
    let mut step = copy_dir_all(root, left_out);
    loop {
        step = match step {
            CopyStep::MakeDir(s) => {
                acts.push(format!("make {:?}/{}", s.outer, s.dir));
                s.made(Platform::Unix, Ok(()))
            }
            CopyStep::OpenDir(s) => {
                let mut entries = next.take().unwrap();
                entries.reverse();
                pending.push(entries);
                s.opened(Ok(()))
            }
            CopyStep::NextEntry(s) => match pending.last_mut().unwrap().pop() {
                Some(Node::File(id)) => s.listed(Listed::File(id)),
                Some(Node::Dir(id, inner)) => {
                    next = Some(inner);
                    s.listed(Listed::Dir(id))
                }
                None => {
                    pending.pop();
                    s.listed(Listed::End)
                }
            },
            CopyStep::CopyFile(s) => {
                acts.push(format!("copy {:?}/{}/{}", s.outer, s.dir, s.file));
                s.copied(Platform::Unix, Ok(()))
            }
            CopyStep::Done => return acts,
            CopyStep::Failed(message) => panic!("{}", message),
        };
    }
}

#[test]
fn copy_covers_the_tree() {
    let tree = || {
        vec![
            Node::File(2),
            Node::Dir(3, vec![Node::Dir(4, vec![]), Node::File(5)]),
            Node::File(6),
        ]
    };
    assert_eq!(
        copy_acts(1, None, tree()),
        vec![
            "make []/1",
            "copy []/1/2",
            "make [1]/3",
            "make [1, 3]/4",
            "copy [1]/3/5",
            "copy []/1/6"
        ]
    );
    assert_eq!(
        copy_acts(1, Some(5), tree()),
        vec!["make []/1", "copy []/1/2", "make [1]/3", "make [1, 3]/4", "copy []/1/6"]
    );
    assert_eq!(copy_acts(9, None, vec![]), vec!["make []/9"]);
}

#[test]
fn copy_failures_are_worded() {
    let hint = access_denied_hint(Platform::Windows, Some(5));
    let fail = |m: String| CopyStep::Failed(m);
    let CopyStep::MakeDir(step) = copy_dir_all(1, None) else { panic!() };
    assert_eq!(
        step.made(Platform::Windows, Err(failure("/to", Some(5)))),
        fail(format!("创建目录失败 (/to): denied{}", hint))
    );
    let open = || {
        let CopyStep::MakeDir(step) = copy_dir_all(1, None) else { panic!() };
        let CopyStep::OpenDir(step) = step.made(Platform::Windows, Ok(())) else { panic!() };
        step
    };
    assert_eq!(
        open().opened(Err(failure("/from", Some(5)))),
        fail("读取目录失败 (/from): denied".to_string())
    );
    let next = || {
        let CopyStep::NextEntry(step) = open().opened(Ok(())) else { panic!() };
        step
    };
    assert_eq!(
        next().listed(Listed::Unreadable(failure("/from", Some(5)))),
        fail("读取目录项失败 (/from): denied".to_string())
    );
    assert_eq!(
        next().listed(Listed::Untyped("what".to_string())),
        fail("what".to_string())
    );
    let CopyStep::CopyFile(step) = next().listed(Listed::File(2)) else { panic!() };
    let failed = CopyFailure {
        from: "/from/f".to_string(),
        to: "/to/f".to_string(),
        failure: IoFailure { text: "denied".to_string(), code: Some(5) },
    };
    assert_eq!(
        step.copied(Platform::Windows, Err(failed)),
        fail(format!("复制文件失败 (/from/f -> /to/f): denied{}", hint))
    );
}

#[test]
fn launch_runs_to_a_recorded_process() {
    let (effects, step) = spawn_dsh_web(Platform::Unix, Ok(()));
    assert_eq!(effects, vec![]);
    let LaunchStep::FindRuntime(step) = step else { panic!() };
    assert_eq!(step.directory(), runtime_dir());
    let LaunchStep::CheckFiles(step) = step.located(Ok(())) else { panic!() };
    assert_eq!(step.node(), node_file(Platform::Unix, Root::AppData));
    assert_eq!(step.script(), script_file(Root::AppData));
    let LaunchStep::FindHome(step) = step.checked(true, true) else { panic!() };
    assert_eq!(step.announce(), status("正在启动 DSH 服务…"));
    assert_eq!(step.directory(), place(Root::Home, &[]));
    let LaunchStep::Launch(step) = step.located(Ok(())) else { panic!() };
    assert_eq!(step.program(), node_file(Platform::Unix, Root::AppData));
    assert_eq!(step.script(), script_file(Root::AppData));
    assert_eq!(step.directory(), place(Root::Home, &[]));
    assert_eq!(step.args(), vec!["web", "--no-open", "--port", "0"]);
    let LaunchStep::RecordPid(step) = step.launched(Ok(4711)) else { panic!() };
    assert_eq!(step.contents, "4711");
    assert_eq!(step.file(), pid_file(Root::AppData));
    let LaunchStep::TakeOutput(step) = step.recorded() else { panic!() };
    assert_eq!(step.taken(true), LaunchStep::Running);
}

#[test]
fn launch_goes_on_without_the_market() {
    let (effects, step) = spawn_dsh_web(Platform::Unix, Err("x".to_string()));
    assert_eq!(effects, vec![Effect::Log("预装 dsh-market 失败: x".to_string())]);
    assert!(matches!(step, LaunchStep::FindRuntime(_)));
}

#[test]
fn launch_failures_are_worded() {
    let fail = |m: &str| LaunchStep::Failed(m.to_string());
    let find = || {
        let (_, LaunchStep::FindRuntime(step)) = spawn_dsh_web(Platform::Windows, Ok(())) else {
            panic!()
        };
        step
    };
    assert_eq!(find().located(Err("a".to_string())), fail("a"));
    for (node, script) in [(false, true), (true, false), (false, false)] {
        let LaunchStep::CheckFiles(step) = find().located(Ok(())) else { panic!() };
        assert_eq!(step.checked(node, script), fail("运行环境不完整，请重启应用以重新初始化"));
    }
    let home = || {
        let LaunchStep::CheckFiles(step) = find().located(Ok(())) else { panic!() };
        let LaunchStep::FindHome(step) = step.checked(true, true) else { panic!() };
        step
    };
    assert_eq!(home().located(Err("b".to_string())), fail("b"));
    let launch = || {
        let LaunchStep::Launch(step) = home().located(Ok(())) else { panic!() };
        step
    };
    assert_eq!(
        launch().launched(Err(failure("C:\\node.exe", Some(5)))),
        LaunchStep::Failed(format!(
            "启动 DSH 失败 (C:\\node.exe): denied{}",
            access_denied_hint(Platform::Windows, Some(5))
        ))
    );
    let LaunchStep::RecordPid(step) = launch().launched(Ok(1)) else { panic!() };
    let LaunchStep::TakeOutput(step) = step.recorded() else { panic!() };
    assert_eq!(step.taken(false), fail("stdout unavailable"));
}
