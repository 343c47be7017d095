use companion_core::chat::{ChatCompletion, ChatMessage, ChatRole, PersistedChatState};
use companion_core::control::{autostart_requested, preferred_cjk_font_paths, AppPage, ControlPanelApp, FontPlatform};
use companion_core::diagnostics::{
    collect_diagnostics, combine_command_output, diagnostic_counts, diagnostic_paths,
    diagnostics_status, port_owner_from_output, push_path_check, AssetObservations,
    DiagnosticItem, DiagnosticObservations, DiagnosticStatus,
};
use companion_core::launcher_config::LlmConfigSummary;
use companion_core::panel::{
    ownership_label, poll_panel_process, port_probe_due, stack_status, stop_panel_process, ProcessPoll, Rgb,
    ServerPanel, ServiceId, ServiceOverview, MAX_LOG_LINES,
};

fn panel() -> ServerPanel {
    ServerPanel::new(
        ServiceId::CompanionCore,
        "companion-core",
        "sidecar",
        8787,
        "http://127.0.0.1:8787/health".to_string(),
        "cargo run --bin companion-core".to_string(),
    )
}

fn summary() -> LlmConfigSummary {
    LlmConfigSummary {
        config_file_path: "c.toml".to_string(),
        config_file_exists: false,
        base_url: None,
        model: "qwen-plus".to_string(),
        api_key_configured: false,
    }
}

fn app() -> ControlPanelApp {
    let m = ChatMessage::assistant("hello".to_string(), None);
    ControlPanelApp::new(summary(), PersistedChatState { session_id: "s".to_string(), messages: vec![m] })
}

#[test]
fn log_keeps_last_lines() {
    let mut p = panel();
    for i in 0..(MAX_LOG_LINES + 7) {
        p.push_log(format!("line {i}"));
    }
    assert_eq!(p.logs.len(), MAX_LOG_LINES);
    assert_eq!(p.logs.front().map(|s| s.as_str()), Some("line 7"));
    assert_eq!(p.logs.back().map(|s| s.as_str()), Some("line 506"));
}

#[test]
fn status_words_and_colors() {
    let mut p = panel();
    assert_eq!(p.status_label(), "Stopped");
    assert_eq!(p.status_color(), Rgb { r: 128, g: 139, b: 151 });
    p.listening = true;
    assert_eq!(p.status_label(), "External");
    p.pid = Some(1);
    assert_eq!(p.status_label(), "Online");
    assert_eq!(p.status_color(), Rgb { r: 58, g: 201, b: 131 });
    p.listening = false;
    assert_eq!(p.status_label(), "Starting");
    assert_eq!(p.status_color(), Rgb { r: 247, g: 196, b: 83 });
}

#[test]
fn stack_words() {
    let mut a = panel();
    let mut b = panel();
    assert_eq!(stack_status(&ServiceOverview::from(&a), &ServiceOverview::from(&b)).0, "Idle");
    b.listening = true;
    assert_eq!(stack_status(&ServiceOverview::from(&a), &ServiceOverview::from(&b)).0, "EXTERNAL");
    a.pid = Some(3);
    assert_eq!(stack_status(&ServiceOverview::from(&a), &ServiceOverview::from(&b)).0, "Booting");
    a.listening = true;
    b.pid = Some(4);
    let s = stack_status(&ServiceOverview::from(&a), &ServiceOverview::from(&b));
    assert_eq!((s.0, s.1), ("Running", "both managed services are available"));
    assert_eq!(ownership_label(&ServiceOverview::from(&a)), "managed");
}

#[test]
fn stopping_records_reason() {
    let mut p = panel();
    assert_eq!(stop_panel_process(&mut p), None);
    assert!(p.logs.is_empty());
    p.pid = Some(42);
    assert_eq!(stop_panel_process(&mut p), Some(42));
    assert_eq!(p.pid, None);
    assert_eq!(p.logs.back().map(|s| s.as_str()), Some("Stopping process tree PID 42"));
    assert_eq!(p.last_exit.as_deref(), Some("stopped by control panel"));
}

#[test]
fn polling_records_exit() {
    let mut p = panel();
    p.pid = Some(5);
    poll_panel_process(&mut p, ProcessPoll::Running);
    assert_eq!(p.pid, Some(5));
    poll_panel_process(&mut p, ProcessPoll::Exited("exit status: 1".to_string()));
    assert_eq!(p.pid, None);
    assert_eq!(p.last_exit.as_deref(), Some("exited with exit status: 1"));
    assert_eq!(p.logs.back().map(|s| s.as_str()), Some("Process exited with exit status: 1"));
    p.pid = Some(6);
    poll_panel_process(&mut p, ProcessPoll::Failed("denied".to_string()));
    assert_eq!(p.last_exit.as_deref(), Some("process status error: denied"));
}

fn item(status: DiagnosticStatus) -> DiagnosticItem {
    DiagnosticItem { status, label: "l".to_string(), detail: "d".to_string() }
}

#[test]
fn counts_and_headline() {
    let items = vec![item(DiagnosticStatus::Pass), item(DiagnosticStatus::Warn), item(DiagnosticStatus::Pass)];
    assert_eq!(diagnostic_counts(&items), (2, 1, 0));
    assert_eq!(diagnostics_status(&items, false), ("Warnings", Rgb { r: 247, g: 196, b: 83 }));
    assert_eq!(diagnostics_status(&[], false).0, "Not Run");
    assert_eq!(diagnostics_status(&[], true).0, "Running");
    let items = vec![item(DiagnosticStatus::Fail)];
    assert_eq!(diagnostics_status(&items, false), ("Needs Attention", Rgb { r: 236, g: 91, b: 110 }));
    let items = vec![item(DiagnosticStatus::Pass)];
    assert_eq!(diagnostics_status(&items, false).0, "Healthy");
}

#[test]
fn path_checks() {
    let mut items = Vec::new();
    push_path_check(&mut items, "Project root", "/p", true, "Expected repository root directory.");
    push_path_check(&mut items, "Python executable", "/p/py", false, "x");
    assert_eq!(items[0].status, DiagnosticStatus::Pass);
    assert_eq!(items[0].detail, "Expected repository root directory. (/p)");
    assert_eq!(items[1].status, DiagnosticStatus::Fail);
    assert_eq!(items[1].detail, "Missing: /p/py");
}

#[test]
fn command_output_combination() {
    assert_eq!(combine_command_output(" out \n", " err ", true), Ok("out; err".to_string()));
    assert_eq!(combine_command_output("out", "", false), Err("out".to_string()));
    assert_eq!(combine_command_output("", "err", true), Ok("err".to_string()));
    assert_eq!(combine_command_output(" ", "\n", false), Err("command produced no output".to_string()));
}

#[test]
fn port_owner_reading() {
    assert_eq!(port_owner_from_output(Ok(" PID=4 Name=x \n".to_string())).as_deref(), Some("PID=4 Name=x"));
    assert_eq!(port_owner_from_output(Ok("command produced no output".to_string())), None);
    assert_eq!(port_owner_from_output(Ok("  ".to_string())), None);
    assert_eq!(port_owner_from_output(Err("boom".to_string())), None);
}

#[test]
fn full_report() {
    let paths = diagnostic_paths("/p", "/p/backend/livetalking");
    assert_eq!(paths.venv_dir, "/p/.venv");
    assert_eq!(paths.model_path, "/p/backend/livetalking/models/wav2lip.pth");
    assert_eq!(paths.avatar_dir, "/p/backend/livetalking/data/avatars/wav2lip256_avatar1");
    assert_eq!(paths.coords_path, "/p/backend/livetalking/data/avatars/wav2lip256_avatar1/coords.pkl");
    let obs = DiagnosticObservations {
        project_root: "/p".to_string(),
        project_root_exists: true,
        companion_dir: "/p/services/companion-core".to_string(),
        companion_dir_exists: true,
        livetalking_dir: "/p/backend/livetalking".to_string(),
        livetalking_dir_exists: false,
        venv_dir: paths.venv_dir.clone(),
        venv_dir_exists: false,
        python_exe: "python".to_string(),
        python_exe_exists: false,
        python_version: Ok("Python 3.10.11".to_string()),
        torch_stack: Ok("torch=2.1; cuda=False; device=none".to_string()),
        livetalking_imports: Err("missing=cv2".to_string()),
        assets: AssetObservations {
            model_path: paths.model_path.clone(),
            model_size_mb: Some("415.38".to_string()),
            avatar_dir: paths.avatar_dir.clone(),
            coords_exists: true,
            full_imgs_count: Some(3),
            face_imgs_count: None,
        },
        companion_port_owner: Some("PID=10 Name=companion-core".to_string()),
        livetalking_port_owner: None,
    };
    let items = collect_diagnostics(obs);
    assert_eq!(items.len(), 12);
    assert_eq!(items[2].detail, "Missing: /p/backend/livetalking");
    assert_eq!(items[5].label, "Python version");
    assert_eq!(items[5].status, DiagnosticStatus::Pass);
    assert_eq!(items[6].status, DiagnosticStatus::Warn);
    assert_eq!(items[7].status, DiagnosticStatus::Fail);
    assert_eq!(items[8].detail, "/p/backend/livetalking/models/wav2lip.pth (415.38 MB)");
    assert_eq!(items[9].status, DiagnosticStatus::Fail);
    assert_eq!(
        items[9].detail,
        "coords=ok; full_imgs=3; face_imgs=missing; path=/p/backend/livetalking/data/avatars/wav2lip256_avatar1"
    );
    assert_eq!(items[10].label, "Port 8787");
    assert_eq!(items[10].status, DiagnosticStatus::Warn);
    assert_eq!(items[10].detail, "companion-core port is already listening: PID=10 Name=companion-core");
    assert_eq!(items[11].detail, "Available for LiveTalking.");
    assert_eq!(diagnostic_counts(&items), (5, 2, 5));
}

#[test]
fn autostart_values() {
    for v in ["1", "true", "TRUE", " yes ", "YES"] {
        assert!(autostart_requested(Some(v.to_string())), "{v}");
    }
    for v in ["0", "True", "y", ""] {
        assert!(!autostart_requested(Some(v.to_string())), "{v}");
    }
    assert!(!autostart_requested(None));
}

#[test]
fn font_paths() {
    assert_eq!(
        preferred_cjk_font_paths(FontPlatform::MacOs, None),
        vec!["/System/Library/Fonts/PingFang.ttc".to_string(), "/System/Library/Fonts/Hiragino Sans GB.ttc".to_string()]
    );
    assert_eq!(preferred_cjk_font_paths(FontPlatform::Other, None).len(), 3);
    let w = preferred_cjk_font_paths(FontPlatform::Windows, Some("/win".to_string()));
    assert_eq!(w[0], "/win/Fonts/Deng.ttf");
}

#[test]
fn opening_state() {
    let a = app();
    assert_eq!(a.current_page, AppPage::Chat);
    assert_eq!(a.companion.port, 8787);
    assert_eq!(a.livetalking.port, 8010);
    assert_eq!(a.diagnostics_message, "Diagnostics have not run yet.");
    assert_eq!(a.chat_session_id, "s");
    assert!(!a.chat_busy());
}

#[test]
fn start_flow() {
    let mut a = app();
    assert!(!a.start_service(ServiceId::CompanionCore, false, "/p/services/companion-core"));
    assert_eq!(a.last_error.as_deref(), Some("companion-core directory not found: /p/services/companion-core"));
    a.livetalking.listening = true;
    assert!(!a.start_service(ServiceId::LiveTalking, true, "/p/app.py"));
    assert_eq!(
        a.last_error.as_deref(),
        Some("port 8010 is already in use; stop the external LiveTalking process first")
    );
    assert!(a.start_service(ServiceId::CompanionCore, true, "/p"));
    assert_eq!(a.last_error, None);
    assert_eq!(a.companion.logs.back().map(|s| s.as_str()), Some("Starting: cargo run --bin companion-core"));
    a.finish_start(ServiceId::CompanionCore, Ok(99));
    assert_eq!(a.companion.pid, Some(99));
    assert_eq!(a.companion.logs.back().map(|s| s.as_str()), Some("Process started with PID 99"));
    assert!(!a.start_service(ServiceId::CompanionCore, true, "/p"));
    a.finish_start(ServiceId::LiveTalking, Err("not found".to_string()));
    assert_eq!(a.last_error.as_deref(), Some("failed to start LiveTalking: not found"));
    assert_eq!(a.stop_all(), (Some(99), None));
}

#[test]
fn diagnostics_run_once() {
    let mut a = app();
    assert!(a.run_diagnostics());
    assert!(!a.run_diagnostics());
    assert_eq!(a.diagnostics_message, "Diagnostics are running...");
    a.drain_diagnostics(vec![item(DiagnosticStatus::Pass)]);
    assert!(!a.diagnostics_running);
    assert_eq!(a.diagnostics_message, "Diagnostics completed.");
    assert_eq!(a.diagnostics.len(), 1);
}

#[test]
fn thread_keeps_last_48() {
    let mut a = app();
    for i in 0..60 {
        a.push_chat_message(ChatMessage::user(format!("m{i}")));
    }
    assert_eq!(a.chat_messages.len(), 48);
    assert_eq!(a.chat_messages[0].content, "m12");
    assert_eq!(a.chat_messages[47].content, "m59");
}

#[test]
fn sending_requires_a_running_sidecar() {
    let mut a = app();
    a.chat_input = "   ".to_string();
    assert_eq!(a.send_chat_message(), None);
    assert_eq!(a.chat_messages.len(), 1);
    a.chat_input = " hello ".to_string();
    assert_eq!(a.send_chat_message(), None);
    assert_eq!(a.chat_messages.last().unwrap().role, ChatRole::System);
    assert_eq!(a.chat_input, " hello ");
    a.companion.listening = true;
    assert_eq!(a.send_chat_message().as_deref(), Some("hello"));
    assert_eq!(a.chat_messages.last().unwrap().content, "hello");
    assert_eq!(a.chat_input, "");
    assert!(a.chat_busy());
    a.chat_input = "again".to_string();
    assert_eq!(a.send_chat_message(), None);
}

#[test]
fn replies_are_revealed() {
    let mut a = app();
    a.chat_running = true;
    a.drain_chat_results(Ok(ChatCompletion {
        reply: "abcdefghij".to_string(),
        source: "llm".to_string(),
        detail: None,
    }));
    assert!(!a.chat_running);
    let last = a.chat_messages.last().unwrap();
    assert_eq!(last.content, "abcdefghij");
    assert_eq!(last.meta.as_deref(), Some("LLM"));
    let s = a.chat_stream.unwrap();
    assert_eq!((s.message_index, s.revealed_chars, s.total_chars), (1, 0, 10));
    assert!(!a.advance_chat_stream(10));
    assert!(a.advance_chat_stream(40));
    assert_eq!(a.chat_stream.unwrap().revealed_chars, 4);
    assert!(a.advance_chat_stream(1000));
    assert!(a.chat_stream.is_none());
    assert!(!a.advance_chat_stream(1000));
}

#[test]
fn empty_reply_and_failure_notes() {
    let mut a = app();
    a.drain_chat_results(Ok(ChatCompletion { reply: " ".to_string(), source: "local".to_string(), detail: Some("d".to_string()) }));
    assert_eq!(a.chat_messages.last().unwrap().content, "No reply text returned by companion-core.");
    assert_eq!(a.chat_messages.last().unwrap().meta.as_deref(), Some("LOCAL • d"));
    a.chat_stream = None;
    a.drain_chat_results(Err("connect to companion-core failed: refused".to_string()));
    assert_eq!(a.chat_messages.last().unwrap().role, ChatRole::System);
    assert_eq!(
        a.chat_messages.last().unwrap().content,
        "Chat request failed. connect to companion-core failed: refused"
    );
}

#[test]
fn new_thread_resets() {
    let mut a = app();
    a.chat_input = "draft".to_string();
    a.reset_chat_thread();
    assert!(a.chat_session_id.starts_with("egui-chat-"));
    assert_eq!(a.chat_input, "");
    assert_eq!(a.chat_messages.len(), 1);
    assert!(a.chat_stream.is_none());
}

#[test]
fn logs_are_cleared() {
    let mut a = app();
    a.push_service_log(ServiceId::LiveTalking, "x".to_string());
    assert_eq!(a.livetalking.logs.len(), 1);
    a.clear_service_logs(ServiceId::LiveTalking);
    assert!(a.livetalking.logs.is_empty());
}

#[test]
fn long_pauses_finish_the_reveal() {
    let mut a = app();
    a.drain_chat_results(Ok(ChatCompletion { reply: "abc".to_string(), source: "llm".to_string(), detail: None }));
    assert!(a.advance_chat_stream(u64::MAX));
    assert!(a.chat_stream.is_none());
}

#[test]
fn stopping_both_records_reasons() {
    let mut a = app();
    a.finish_start(ServiceId::CompanionCore, Ok(42));
    let (c, l) = a.stop_all();
    assert_eq!((c, l), (Some(42), None));
    assert_eq!(a.companion.last_exit.as_deref(), Some("stopped by control panel"));
    assert_eq!(a.companion.logs.back().map(String::as_str), Some("Stopping process tree PID 42"));
    assert!(a.livetalking.last_exit.is_none());
}

#[test]
fn busy_thread_ignores_send_and_second_run_keeps_results() {
    let mut a = app();
    a.chat_input = "hi".to_string();
    a.chat_running = true;
    assert!(a.send_chat_message().is_none());
    assert_eq!(a.chat_input, "hi");
    assert_eq!(a.chat_messages.len(), 1);
    assert!(a.run_diagnostics());
    a.drain_diagnostics(vec![DiagnosticItem { status: DiagnosticStatus::Pass, label: "x".to_string(), detail: "y".to_string() }]);
    a.diagnostics_running = true;
    assert!(!a.run_diagnostics());
    assert_eq!(a.diagnostics.len(), 1);
}

#[test]
fn route_words_follow_readiness() {
    let local = summary().route();
    assert_eq!((local.status, local.mode, local.pill, local.banner), ("Local Fallback", "Local Fallback", "LOCAL", "LOCAL FALLBACK"));
    assert_eq!(local.color, Rgb { r: 247, g: 196, b: 83 });
    let mut ready = summary();
    ready.base_url = Some("https://x/v1".to_string());
    ready.api_key_configured = true;
    let live = ready.route();
    assert_eq!((live.status, live.mode, live.pill, live.banner), ("Configured", "Cloud Ready", "LIVE", "LIVE ROUTE"));
    assert_eq!(live.color, Rgb { r: 58, g: 201, b: 131 });
}

#[test]
fn repaint_and_probe_pacing() {
    let mut a = app();
    assert_eq!(a.repaint_interval_ms(), 500);
    a.chat_input = "typing".to_string();
    assert_eq!(a.repaint_interval_ms(), 33);
    a.current_page = AppPage::Dashboard;
    assert_eq!(a.repaint_interval_ms(), 500);
    assert!(!port_probe_due(999));
    assert!(port_probe_due(1000));
}

#[test]
fn opening_panels_and_plain_notes() {
    let mut a = app();
    assert_eq!(a.companion.description, "Persona, memory, and chat routing sidecar");
    assert_eq!(a.livetalking.description, "WebRTC digital human renderer");
    assert!(a.companion.last_exit.is_none() && a.livetalking.last_exit.is_none());
    a.chat_input = "hi".to_string();
    assert!(a.send_chat_message().is_none());
    assert!(a.chat_messages.last().unwrap().meta.is_none());
    a.drain_chat_results(Err("x".to_string()));
    assert!(a.chat_messages.last().unwrap().meta.is_none());
}
