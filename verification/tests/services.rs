use deepseek_work::effect::Effect;
use deepseek_work::script::{filter_script, market_allowlist_urls, market_filter_script};
use deepseek_work::service::{
    boot, get_dsh_status, restart_dsh_service, start_dsh_service, stop_dsh_service, BootStep,
    DshStatus, Held, Reply, RestartReply, RestartStep, StartStep,
};
use deepseek_work::shell::{
    close_requested, menu_event, page_load, tray_click, tray_menu, MenuEntry,
};

fn text(s: &str) -> String {
    s.to_string()
}

fn emit(event: &str, payload: &str) -> Effect {
    Effect::Emit { event: text(event), payload: text(payload) }
}

fn log(message: &str) -> Effect {
    Effect::Log(text(message))
}

#[test]
fn status_reports_the_slot() {
    assert_eq!(get_dsh_status(None), DshStatus { running: false, url: None });
    assert_eq!(
        get_dsh_status(Some(Held { alive: true, url: None })),
        DshStatus { running: true, url: None }
    );
    assert_eq!(
        get_dsh_status(Some(Held { alive: true, url: Some(text("http://a")) })),
        DshStatus { running: true, url: Some(text("http://a")) }
    );
}

#[test]
fn start_spawns_into_an_empty_slot() {
    let StartStep::InspectSlot(step) = start_dsh_service(Ok(())) else { panic!() };
    let StartStep::Spawn(step) = step.inspected(Ok(None)) else { panic!() };
    assert_eq!(step.prepare(), Effect::DropProcess);
    assert_eq!(
        step.spawned(Ok(())),
        StartStep::Done(Reply { effects: vec![Effect::KeepProcess], outcome: Ok(()) })
    );
}

#[test]
fn start_is_idempotent() {
    let StartStep::InspectSlot(step) = start_dsh_service(Ok(())) else { panic!() };
    assert_eq!(
        step.inspected(Ok(Some(Held { alive: true, url: None }))),
        StartStep::Done(Reply { effects: vec![], outcome: Ok(()) })
    );
    let StartStep::InspectSlot(step) = start_dsh_service(Ok(())) else { panic!() };
    assert_eq!(
        step.inspected(Ok(Some(Held { alive: true, url: Some(text("http://a")) }))),
        StartStep::Done(Reply { effects: vec![emit("dsh-ready", "http://a")], outcome: Ok(()) })
    );
}

#[test]
fn exited_process_is_replaced_by_a_start() {
    for url in [None, Some(text("http://old"))] {
        let StartStep::InspectSlot(step) = start_dsh_service(Ok(())) else { panic!() };
        let StartStep::Spawn(step) = step.inspected(Ok(Some(Held { alive: false, url }))) else {
            panic!()
        };
        assert_eq!(step.prepare(), Effect::DropProcess);
        assert_eq!(
            step.spawned(Ok(())),
            StartStep::Done(Reply { effects: vec![Effect::KeepProcess], outcome: Ok(()) })
        );
    }
}

#[test]
fn start_failures_are_logged_and_returned() {
    assert_eq!(
        start_dsh_service(Err(text("x"))),
        StartStep::Done(Reply {
            effects: vec![log("运行环境初始化失败: x")],
            outcome: Err(text("x"))
        })
    );
    let StartStep::InspectSlot(step) = start_dsh_service(Ok(())) else { panic!() };
    assert_eq!(
        step.inspected(Err(text("poisoned"))),
        StartStep::Done(Reply { effects: vec![], outcome: Err(text("poisoned")) })
    );
    let StartStep::InspectSlot(step) = start_dsh_service(Ok(())) else { panic!() };
    let StartStep::Spawn(step) = step.inspected(Ok(None)) else { panic!() };
    assert_eq!(
        step.spawned(Err(text("y"))),
        StartStep::Done(Reply { effects: vec![log("启动 DSH 失败: y")], outcome: Err(text("y")) })
    );
}

#[test]
fn stop_empties_the_slot() {
    assert_eq!(
        stop_dsh_service(Ok(())),
        Reply { effects: vec![Effect::DropProcess], outcome: Ok(()) }
    );
    assert_eq!(
        stop_dsh_service(Err(text("poisoned"))),
        Reply { effects: vec![], outcome: Err(text("poisoned")) }
    );
}

#[test]
fn restart_replaces_the_process() {
    let respawn = || {
        let RestartStep::LockSlot(step) = restart_dsh_service(Ok(())) else { panic!() };
        let RestartStep::Respawn(step) = step.locked(Ok(())) else { panic!() };
        step
    };
    assert_eq!(respawn().prepare(), Effect::DropProcess);
    assert_eq!(
        respawn().spawned(Ok(None)),
        RestartStep::Done(RestartReply {
            effects: vec![Effect::KeepProcess],
            outcome: Ok(text("DSH 服务已重启，URL: "))
        })
    );
    assert_eq!(
        respawn().spawned(Ok(Some(text("http://a")))),
        RestartStep::Done(RestartReply {
            effects: vec![Effect::KeepProcess],
            outcome: Ok(text("DSH 服务已重启，URL: http://a"))
        })
    );
    assert_eq!(
        respawn().spawned(Err(text("z"))),
        RestartStep::Done(RestartReply {
            effects: vec![log("重启 DSH 失败: z")],
            outcome: Err(text("z"))
        })
    );
    assert_eq!(
        restart_dsh_service(Err(text("x"))),
        RestartStep::Done(RestartReply {
            effects: vec![log("运行环境初始化失败: x")],
            outcome: Err(text("x"))
        })
    );
    let RestartStep::LockSlot(step) = restart_dsh_service(Ok(())) else { panic!() };
    assert_eq!(
        step.locked(Err(text("poisoned"))),
        RestartStep::Done(RestartReply { effects: vec![], outcome: Err(text("poisoned")) })
    );
}

#[test]
fn boot_spawns_unless_something_runs() {
    let prepare = || {
        let BootStep::PrepareRuntime(step) = boot() else { panic!() };
        step
    };
    assert_eq!(prepare().announce(), emit("boot-status", "正在初始化…"));
    let BootStep::CheckSlot(step) = prepare().prepared(Ok(())) else { panic!() };
    assert_eq!(step.checked(false), BootStep::Done(vec![]));
    let BootStep::CheckSlot(step) = prepare().prepared(Ok(())) else { panic!() };
    let BootStep::FirstSpawn(step) = step.checked(true) else { panic!() };
    assert_eq!(step.spawned(Ok(())), BootStep::Done(vec![Effect::KeepProcess]));
}

#[test]
fn boot_failures_are_shown_logged_and_announced() {
    let prepare = || {
        let BootStep::PrepareRuntime(step) = boot() else { panic!() };
        step
    };
    assert_eq!(
        prepare().prepared(Err(text("x"))),
        BootStep::Done(vec![
            emit("boot-status", "x"),
            log("运行环境初始化失败: x"),
            emit("dsh-error", "x"),
        ])
    );
    let BootStep::CheckSlot(step) = prepare().prepared(Ok(())) else { panic!() };
    let BootStep::FirstSpawn(step) = step.checked(true) else { panic!() };
    assert_eq!(
        step.spawned(Err(text("y"))),
        BootStep::Done(vec![
            emit("boot-status", "y"),
            log("启动 DSH 失败: y"),
            emit("dsh-error", "y"),
        ])
    );
}

#[test]
fn tray_menu_reads_from_top_to_bottom() {
    assert_eq!(
        tray_menu(),
        vec![
            MenuEntry::Item { id: "show", label: "显示窗口" },
            MenuEntry::Item { id: "restart", label: "重启 DSH" },
            MenuEntry::Separator,
            MenuEntry::Item { id: "quit", label: "退出" },
        ]
    );
}

#[test]
fn menu_items_act() {
    assert_eq!(menu_event("quit"), vec![Effect::DropProcess, Effect::Exit(0)]);
    assert_eq!(menu_event("show"), vec![Effect::ShowWindow, Effect::FocusWindow]);
    assert_eq!(
        menu_event("restart"),
        vec![Effect::Signal { event: text("dsh-restart-requested") }]
    );
    assert_eq!(menu_event("Quit"), vec![]);
    assert_eq!(menu_event(""), vec![]);
}

#[test]
fn window_is_brought_up_and_hidden() {
    assert_eq!(tray_click(true), vec![Effect::ShowWindow, Effect::FocusWindow]);
    assert_eq!(tray_click(false), vec![]);
    assert_eq!(close_requested(), vec![Effect::PreventClose, Effect::HideWindow]);
}

#[test]
fn script_is_run_once_a_page_is_loaded() {
    assert_eq!(page_load(true), vec![Effect::Evaluate(market_filter_script())]);
    assert_eq!(page_load(false), vec![]);
}

#[test]
fn script_lists_the_sources_and_the_timeout() {
    let script = market_filter_script();
    assert!(script.starts_with("(() => {\n  // 幂等保护"));
    assert!(script.ends_with("\n  };\n})();"));
    assert!(script.contains(
        "  const ALLOW_URLS = [\"https://raw.githubusercontent.com/hotpot-labs/awesome-dsh-industry-plugins/main/plugins.json\", \"https://cdn.jsdelivr.net/gh/hotpot-labs/awesome-dsh-industry-plugins@main/plugins.json\"];\n"
    ));
    assert!(script.contains("          const cfg = await fetchJson(u, 8000);\n"));
    assert!(script.contains("    } catch (_) {}\n  };\n"));
    assert!(script.contains("{ cache: 'no-cache', signal: ctrl.signal }"));
    assert!(script.contains(
        "data.registry.plugins = plugins.filter((p) => p && ALLOW.has(p.owner + '/' + p.name));"
    ));
    assert_eq!(script.matches('{').count(), script.matches('}').count());
    for rest in ["{{", "}}", "{urls}", "{timeout_ms}"] {
        assert!(!script.contains(rest));
    }
    assert_eq!(market_filter_script(), script);
    assert_eq!(script.lines().count(), 68);
}

#[test]
fn script_takes_any_number_of_sources() {
    assert!(filter_script(&vec![], 1).contains("ALLOW_URLS = [];"));
    assert!(filter_script(&vec![text("u")], 20).contains("ALLOW_URLS = [\"u\"];"));
    let three = filter_script(&vec![text("a"), text("b"), text("c")], 20);
    assert!(three.contains("ALLOW_URLS = [\"a\", \"b\", \"c\"];"));
    assert!(three.contains("fetchJson(u, 20)"));
    assert_eq!(market_allowlist_urls().len(), 2);
}
