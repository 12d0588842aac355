use deepseek_work::failure::{labelled, IoFailure, PathFailure};
use deepseek_work::log::{log_error, log_frontend_error, log_line};
use deepseek_work::output::{ready_url, stderr_log, OutputMonitor};
use deepseek_work::effect::Effect;
use deepseek_work::place::{pid_file, Root};
use deepseek_work::platform::{access_denied_hint, node_bin_name, Platform};
use deepseek_work::stale::{kill_stale_dsh, pid_record};
use deepseek_work::text::{decimal_text, find, same_text, token_from, trim, white_space};

fn failure(path: &str, text: &str, code: Option<i32>) -> PathFailure {
    PathFailure {
        path: path.to_string(),
        failure: IoFailure { text: text.to_string(), code },
    }
}

#[test]
fn node_binary_has_a_suffix_on_windows_only() {
    assert_eq!(node_bin_name(Platform::Windows), "node.exe");
    assert_eq!(node_bin_name(Platform::MacOs), "node");
    assert_eq!(node_bin_name(Platform::Unix), "node");
}

#[test]
fn denied_access_is_explained_on_windows_only() {
    let hint = access_denied_hint(Platform::Windows, Some(5));
    assert!(hint.starts_with("；通常是杀软拦截"));
    assert!(hint.ends_with("结束残留的 node.exe"));
    assert_eq!(access_denied_hint(Platform::Windows, Some(6)), "");
    assert_eq!(access_denied_hint(Platform::Windows, None), "");
    assert_eq!(access_denied_hint(Platform::MacOs, Some(5)), "");
    assert_eq!(access_denied_hint(Platform::Unix, Some(5)), "");
}

#[test]
fn messages_about_paths_name_path_and_cause() {
    let failed = failure("/a", "denied", Some(5));
    assert_eq!(
        deepseek_work::failure::path_message("x (", &failed),
        "x (/a): denied"
    );
    assert_eq!(
        deepseek_work::failure::hinted_message(Platform::Unix, "x (", &failed),
        "x (/a): denied"
    );
    let hinted = deepseek_work::failure::hinted_message(Platform::Windows, "x (", &failed);
    assert_eq!(
        hinted,
        format!("x (/a): denied{}", access_denied_hint(Platform::Windows, Some(5)))
    );
    assert_eq!(labelled("a: ", "b"), "a: b");
}

#[test]
fn white_space_agrees_with_the_standard_library() {
    for code in 0..0x110000u32 {
        if let Some(c) = char::from_u32(code) {
            assert_eq!(white_space(c), c.is_whitespace(), "U+{:04X}", code);
        }
    }
}

#[test]
fn trimming_agrees_with_the_standard_library() {
    for s in ["", " ", "a", " a", "a ", "\t\u{3000}中 文\u{85}\n", "a b", "\u{feff}x"] {
        assert_eq!(trim(s), s.trim());
        assert_eq!(trim(&trim(s)), trim(s));
    }
}

#[test]
fn searching_counts_characters() {
    assert_eq!(find("中文 dsh web: x", "dsh web: "), Some(3));
    assert_eq!(find("aab", "ab"), Some(1));
    assert_eq!(find("abab", "ab"), Some(0));
    assert_eq!(find("", ""), Some(0));
    assert_eq!(find("a", ""), Some(0));
    assert_eq!(find("a", "ab"), None);
    assert_eq!(find("xyz", "q"), None);
}

#[test]
fn tokens_are_separated_by_white_space() {
    assert_eq!(token_from("  one two", 0), Some("one".to_string()));
    assert_eq!(token_from("  one two", 5), Some("two".to_string()));
    assert_eq!(token_from("one", 1), Some("ne".to_string()));
    assert_eq!(token_from("one  ", 3), None);
    assert_eq!(token_from("", 0), None);
    assert!(same_text("a", "a"));
    assert!(!same_text("a", "A"));
}

#[test]
fn decimals_have_no_leading_zeros() {
    for n in [0u64, 7, 10, 1234567890, 8000, u64::MAX] {
        assert_eq!(decimal_text(n), n.to_string());
    }
}

#[test]
fn ready_line_gives_its_first_token() {
    assert_eq!(
        ready_url("dsh web: http://127.0.0.1:5173"),
        Some("http://127.0.0.1:5173".to_string())
    );
    assert_eq!(
        ready_url("dsh web: http://127.0.0.1:5173 (LAN: http://10.0.0.2:5173)"),
        Some("http://127.0.0.1:5173".to_string())
    );
    assert_eq!(
        ready_url("[info] 就绪 dsh web:   http://a dsh web: http://b"),
        Some("http://a".to_string())
    );
    assert_eq!(ready_url("dsh web:http://a"), None);
    assert_eq!(ready_url("dsh web: "), None);
    assert_eq!(ready_url("dsh web:    "), None);
    assert_eq!(ready_url("starting"), None);
    assert_eq!(ready_url(""), None);
}

#[test]
fn ready_line_is_stored_shown_and_announced() {
    let mut monitor = OutputMonitor::new();
    assert_eq!(monitor.line("booting"), vec![]);
    assert_eq!(
        monitor.line("dsh web: http://h:1 x"),
        vec![
            Effect::StoreUrl("http://h:1".to_string()),
            Effect::Navigate("http://h:1".to_string()),
            Effect::Emit { event: "dsh-ready".to_string(), payload: "http://h:1".to_string() },
            Effect::Emit {
                event: "boot-status".to_string(),
                payload: "DSH 服务已就绪".to_string()
            },
        ]
    );
    assert_eq!(monitor.line("more"), vec![]);
    assert_eq!(monitor.url, Some("http://h:1".to_string()));
    assert_eq!(monitor.closed(), vec![]);
}

#[test]
fn last_announcement_counts() {
    let mut monitor = OutputMonitor::new();
    monitor.line("dsh web: http://h:1");
    monitor.line("dsh web: http://h:2");
    monitor.line("bye");
    assert_eq!(monitor.url, Some("http://h:2".to_string()));
}

#[test]
fn early_exit_is_reported_once_the_output_ends() {
    let mut monitor = OutputMonitor::new();
    monitor.line("Error: port in use");
    monitor.line("dsh web:");
    assert_eq!(
        monitor.closed(),
        vec![
            Effect::Log("DSH 进程在未输出就绪信号前退出".to_string()),
            Effect::Emit {
                event: "dsh-error".to_string(),
                payload: "DSH 进程异常退出，详见 ~/deepseek-work-preview/deepseek-work.log".to_string()
            },
        ]
    );
}

#[test]
fn error_output_is_logged_trimmed_unless_blank() {
    assert_eq!(stderr_log("  warn: x \r"), Some("DSH stderr: warn: x".to_string()));
    assert_eq!(stderr_log(" \t "), None);
    assert_eq!(stderr_log(""), None);
}

#[test]
fn recorded_process_is_killed() {
    let plan = kill_stale_dsh(Platform::Windows, Some(" 42\n".to_string())).unwrap();
    assert_eq!(plan.command.program, "taskkill");
    assert_eq!(plan.command.args, vec!["/PID", "42", "/F"]);
    assert_eq!(plan.settle_secs, 1);
    assert_eq!(plan.record(), pid_file(Root::AppData));
    let plan = kill_stale_dsh(Platform::Unix, Some(pid_record(4294967295))).unwrap();
    assert_eq!(plan.command.program, "kill");
    assert_eq!(plan.command.args, vec!["4294967295"]);
    let plan = kill_stale_dsh(Platform::MacOs, Some("7".to_string())).unwrap();
    assert_eq!(plan.command.program, "kill");
}

#[test]
fn without_a_record_nothing_is_killed() {
    assert_eq!(kill_stale_dsh(Platform::Windows, None), None);
    assert_eq!(kill_stale_dsh(Platform::Unix, Some("".to_string())), None);
    assert_eq!(kill_stale_dsh(Platform::Unix, Some(" \n".to_string())), None);
}

#[test]
fn log_lines_carry_a_stamp() {
    assert_eq!(
        log_line("2026-01-02 03:04:05", "市场"),
        "[2026-01-02 03:04:05] 市场\n"
    );
    let line = log_error("boom");
    assert!(line.starts_with('['));
    assert!(line.ends_with("] boom\n"));
    let stamp: Vec<char> = line[1..line.len() - "] boom\n".len()].chars().collect();
    assert_eq!(stamp.len(), 19);
    for (i, c) in stamp.iter().enumerate() {
        match i {
            4 | 7 => assert_eq!(*c, '-'),
            10 => assert_eq!(*c, ' '),
            13 | 16 => assert_eq!(*c, ':'),
            _ => assert!(c.is_ascii_digit()),
        }
    }
    let year: u32 = stamp[..4].iter().collect::<String>().parse().unwrap();
    assert!(year >= 2024);
    assert_eq!(log_frontend_error("HTTP 500"), "市场过滤脚本: HTTP 500");
}
