//! The physical console: lifecycle, worker, broker and greeter.

use std::time::Duration;

use rivetlink::agent::console::broker::{
    captured_png, capture_timeout_ms, console_input, directory_acl, input_accepted, ready_state,
    socket_acl, worker_error, AllowedWorkers, WorkerGeneration,
};
use rivetlink::agent::console::lightdm::{
    account_id, check_display, greeter_authority, hook_display, is_local_x11_display,
    is_our_lightdm_worker, process_real_uid, require_root, stored_pid, valid_lightdm_authority,
    watch_step, AuthorityFile, WatchStep,
};
use rivetlink::agent::console::worker::{
    capture_response, graphical_session_state, on_request, packet_frame, packet_len,
    require_graphical_session, ConsoleInput, WorkerAction, WorkerErrorCode, WorkerRequest,
    WorkerResponse, MAX_IPC_FRAME,
};
use rivetlink::agent::console::{ConsoleObservation, ConsoleStateMachine};
use rivetlink::agent::input::InputAction;
use rivetlink::agent::session::host::{is_valid_key_code, ConsentPolicy};
use rivetlink::packets::{ConsoleInputPacket, HostConsoleState, MouseButton};
use rivetlink::sdk::lan::PtrButton;

const GDM: ConsoleObservation = ConsoleObservation {
    broker_online: true,
    gdm_active: true,
    desktop_active: false,
    desktop_locked: false,
};
const DESKTOP: ConsoleObservation = ConsoleObservation {
    broker_online: true,
    gdm_active: false,
    desktop_active: true,
    desktop_locked: false,
};

#[test]
fn boot_to_gdm_to_desktop_is_not_offline() {
    let mut machine = ConsoleStateMachine::default();
    assert_eq!(machine.observe(GDM), Some((HostConsoleState::GdmLogin, 1)));
    assert_eq!(
        machine.observe(ConsoleObservation::switching()),
        Some((HostConsoleState::SessionStarting, 2))
    );
    assert_eq!(machine.observe(DESKTOP), Some((HostConsoleState::DesktopReady, 3)));
}

#[test]
fn lock_unlock_and_logout_have_distinct_states() {
    let mut machine = ConsoleStateMachine::default();
    let _ = machine.observe(DESKTOP);
    assert_eq!(
        machine.observe(ConsoleObservation { desktop_locked: true, ..DESKTOP }),
        Some((HostConsoleState::SessionLocked, 2))
    );
    assert_eq!(machine.observe(DESKTOP), Some((HostConsoleState::DesktopReady, 3)));
    assert_eq!(
        machine.observe(ConsoleObservation::switching()),
        Some((HostConsoleState::SessionSwitching, 4))
    );
    assert_eq!(machine.observe(GDM), Some((HostConsoleState::GdmLogin, 5)));
}

#[test]
fn broker_loss_is_offline_and_recovery_returns_to_booting() {
    let mut machine = ConsoleStateMachine::default();
    let _ = machine.observe(GDM);
    assert_eq!(
        machine.observe(ConsoleObservation { broker_online: false, ..GDM }),
        Some((HostConsoleState::Offline, 2))
    );
    assert_eq!(
        machine.observe(ConsoleObservation::switching()),
        Some((HostConsoleState::Booting, 3))
    );
}

#[test]
fn unchanged_observation_does_not_restart_capture() {
    let mut machine = ConsoleStateMachine::default();
    let _ = machine.observe(GDM);
    assert_eq!(machine.observe(GDM), None);
    assert_eq!(machine.current(), (HostConsoleState::GdmLogin, 1));
}

#[test]
fn only_normalized_browser_key_codes_are_accepted() {
    assert!(is_valid_key_code("KeyA"));
    assert!(is_valid_key_code("Shift-Left"));
    assert!(!is_valid_key_code(""));
    assert!(!is_valid_key_code("password value"));
    assert!(!is_valid_key_code(&"x".repeat(65)));
}

#[test]
fn session_state_is_limited_to_graphical_worker_states() {
    for class in [None, Some("greeter"), Some("user")] {
        for user in [None, Some("gdm"), Some("jan")] {
            let state = graphical_session_state(class, user);
            let greeter = class == Some("greeter") || user == Some("gdm");
            assert!(matches!(
                state,
                HostConsoleState::GdmLogin | HostConsoleState::DesktopReady
            ));
            assert_eq!(state == HostConsoleState::GdmLogin, greeter);
        }
    }
}

#[test]
fn ipc_packets_roundtrip_with_length_prefix() {
    let body = br#"{"type":"input","event":{"type":"key","code":"Enter","down":true}}"#.to_vec();
    let framed = packet_frame(&body).unwrap();
    let header = [framed[0], framed[1], framed[2], framed[3]];
    assert_eq!(packet_len(&header, MAX_IPC_FRAME).unwrap(), body.len());
    assert_eq!(&framed[4..], &body[..]);
}

#[test]
fn large_packets_are_refused() {
    assert_eq!(packet_len(&[0, 1, 0, 0], MAX_IPC_FRAME).unwrap(), 65536);
    assert_eq!(
        packet_len(&[0, 1, 0, 1], MAX_IPC_FRAME).unwrap_err().to_string(),
        "config error: console IPC request exceeds the maximum size"
    );
}

#[test]
fn a_worker_needs_a_graphical_session() {
    assert!(require_graphical_session(true, true).is_ok());
    for (runtime, bus) in [(true, false), (false, true), (false, false)] {
        assert_eq!(
            require_graphical_session(runtime, bus).unwrap_err().to_string(),
            "config error: console worker requires the active GDM or GNOME graphical session"
        );
    }
}

#[test]
fn a_worker_answers_each_request() {
    assert!(matches!(
        on_request(WorkerRequest::Ping),
        WorkerAction::Respond(WorkerResponse::Pong)
    ));
    for (asked, given) in [(0, 1), (1, 1), (15000, 15000), (15001, 15000)] {
        match on_request(WorkerRequest::Capture { timeout_ms: asked }) {
            WorkerAction::Capture { timeout_ms } => assert_eq!(timeout_ms, given),
            other => panic!("unexpected: {other:?}"),
        }
    }
    let key = |code: &str| WorkerRequest::Input {
        event: ConsoleInput::Key { code: code.to_string(), down: true },
    };
    assert!(matches!(
        on_request(key("Enter")),
        WorkerAction::Inject(InputAction::Key { code, down: true }) if code == "Enter"
    ));
    assert!(matches!(
        on_request(key("not a key")),
        WorkerAction::Respond(WorkerResponse::Error { code: WorkerErrorCode::InvalidRequest })
    ));
    let button = ConsoleInput::PointerButton { button: PtrButton::Middle, down: false };
    assert!(matches!(
        on_request(WorkerRequest::Input { event: button }),
        WorkerAction::Inject(InputAction::Button { button: PtrButton::Middle, down: false })
    ));
    assert!(matches!(on_request(WorkerRequest::Stop), WorkerAction::Stop));
}

#[test]
fn a_worker_capture_reaches_the_broker() {
    let captured = capture_response(Some(b"PNG".to_vec()));
    assert_eq!(captured_png(captured).unwrap(), b"PNG");
    assert_eq!(
        captured_png(capture_response(None)).unwrap_err().to_string(),
        "relay connection error: the console worker could not capture the active display"
    );
    assert_eq!(
        captured_png(WorkerResponse::Pong).unwrap_err().to_string(),
        "config error: unexpected console worker capture response"
    );
    assert!(captured_png(WorkerResponse::Capture { png_b64: "?".to_string() }).is_err());
    // 12582915 bytes are more than a worker may send.
    let large = WorkerResponse::Capture { png_b64: "A".repeat(16777220) };
    assert_eq!(
        captured_png(large).unwrap_err().to_string(),
        "config error: console worker capture exceeds maximum size"
    );
}

#[test]
fn a_broker_learns_whether_input_was_accepted() {
    assert!(input_accepted(&WorkerResponse::InputAccepted).is_ok());
    assert_eq!(
        input_accepted(&WorkerResponse::Error { code: WorkerErrorCode::InvalidRequest })
            .unwrap_err()
            .to_string(),
        "relay connection error: the console worker rejected the request"
    );
    assert_eq!(
        input_accepted(&WorkerResponse::Pong).unwrap_err().to_string(),
        "config error: unexpected console worker input response"
    );
}

#[test]
fn a_worker_announces_its_state() {
    let ready = WorkerResponse::Ready { state: HostConsoleState::GdmLogin };
    assert_eq!(ready_state(&ready).unwrap(), HostConsoleState::GdmLogin);
    assert_eq!(
        ready_state(&WorkerResponse::Pong).unwrap_err().to_string(),
        "config error: console worker did not send a ready handshake"
    );
}

#[test]
fn local_worker_uid_allow_list_must_not_be_empty() {
    let error = AllowedWorkers::new(vec![]).unwrap_err();
    assert!(error.to_string().contains("allowed worker UID"));
}

#[test]
fn only_listed_workers_are_accepted() {
    let allowed = AllowedWorkers::new(vec![120, 1000]).unwrap();
    assert!(allowed.contains(120));
    assert!(allowed.contains(1000));
    assert!(!allowed.contains(0));
    assert_eq!(directory_acl(120), "u:120:x");
    assert_eq!(socket_acl(1000), "u:1000:rw");
}

#[test]
fn worker_error_is_non_sensitive() {
    let error = worker_error(WorkerErrorCode::CaptureUnavailable);
    assert!(!error.to_string().contains("password"));
    assert!(!error.to_string().contains("key"));
    assert_eq!(
        worker_error(WorkerErrorCode::NoGraphicalSession).to_string(),
        "relay connection error: the graphical console session is unavailable"
    );
}

#[test]
fn console_events_keep_their_meaning() {
    let middle = ConsoleInputPacket::PointerButton { button: MouseButton::Middle, down: true };
    assert!(matches!(
        console_input(middle),
        ConsoleInput::PointerButton { button: PtrButton::Middle, down: true }
    ));
    assert!(matches!(
        console_input(ConsoleInputPacket::Key { code: "Enter".to_string(), down: false }),
        ConsoleInput::Key { code, down: false } if code == "Enter"
    ));
    assert!(matches!(
        console_input(ConsoleInputPacket::PointerMove { x: 3, y: 4 }),
        ConsoleInput::PointerMove { x: 3, y: 4 }
    ));
    assert!(matches!(
        console_input(ConsoleInputPacket::Scroll { dx: -1, dy: 2 }),
        ConsoleInput::Scroll { dx: -1, dy: 2 }
    ));
}

#[test]
fn a_policy_bounds_the_capture_time() {
    let policy = ConsentPolicy::UnattendedConsole {
        min_capture_interval: Duration::from_secs(1),
        capture_timeout: Duration::from_millis(2500),
        max_capture_bytes: 1,
    };
    assert_eq!(capture_timeout_ms(policy), 2500);
    assert_eq!(capture_timeout_ms(ConsentPolicy::Prompt), 10000);
    let endless = ConsentPolicy::HeadlessTrustedOnly {
        min_capture_interval: Duration::from_secs(1),
        capture_timeout: Duration::MAX,
        max_capture_bytes: 1,
    };
    assert_eq!(capture_timeout_ms(endless), u64::MAX);
}

#[test]
fn a_new_worker_supersedes_the_old_one() {
    let mut workers = WorkerGeneration::new();
    assert_eq!(workers.console_state(), None);
    assert_eq!(
        workers.current().unwrap_err().to_string(),
        "relay connection error: no active graphical console worker"
    );
    assert_eq!(workers.attached(HostConsoleState::GdmLogin), 1);
    assert_eq!(workers.attached(HostConsoleState::DesktopReady), 2);
    assert_eq!(workers.console_state(), Some((HostConsoleState::DesktopReady, 2)));
    assert_eq!(workers.current().unwrap(), HostConsoleState::DesktopReady);
}

#[test]
fn accepts_only_local_x11_display_syntax() {
    assert!(is_local_x11_display(":0"));
    assert!(is_local_x11_display(":1.0"));
    assert!(!is_local_x11_display("localhost:0"));
    assert!(!is_local_x11_display("tcp/host:0"));
    assert!(!is_local_x11_display(":abc"));
}

#[test]
fn displays_are_checked_by_syntax() {
    assert!(is_local_x11_display(":1."));
    assert!(!is_local_x11_display(":"));
    assert!(!is_local_x11_display(":.0"));
    assert!(!is_local_x11_display(":0.x"));
    assert!(!is_local_x11_display(""));
    assert_eq!(hook_display(Some(":0".to_string())).unwrap(), ":0");
    assert_eq!(
        hook_display(None).unwrap_err().to_string(),
        "config error: LightDM did not provide a local X11 DISPLAY"
    );
    assert!(hook_display(Some("host:0".to_string())).is_err());
    assert!(check_display(":0").is_ok());
    assert_eq!(
        check_display("host:0").unwrap_err().to_string(),
        "config error: invalid LightDM X11 display"
    );
}

#[test]
fn extracts_the_real_uid_only() {
    assert_eq!(
        process_real_uid("Name:\tfoo\nUid:\t110\t110\t110\t110\n"),
        Some(110)
    );
    assert_eq!(process_real_uid("Name:\tfoo\n"), None);
}

#[test]
fn a_uid_must_be_a_number() {
    assert_eq!(process_real_uid("Uid:\r\nUid:\t1\n"), None);
    assert_eq!(process_real_uid("Uid: 4294967295 0"), Some(u32::MAX));
    assert_eq!(process_real_uid("Uid: 4294967296 0"), None);
    assert_eq!(process_real_uid("Uid: x"), None);
    assert_eq!(process_real_uid(""), None);
}

#[test]
fn a_greeter_is_known_by_its_environment() {
    let environment =
        b"DISPLAY=:9\0DISPLAY=:0\0XDG_SESSION_CLASS=greeter\0XAUTHORITY=/run/x=y\0\xff=bad\0";
    assert_eq!(greeter_authority(environment, ":0").as_deref(), Some("/run/x=y"));
    // The last entry of a name counts.
    assert_eq!(greeter_authority(environment, ":9"), None);
    assert_eq!(
        greeter_authority(b"DISPLAY=:0\0XDG_SESSION_CLASS=user\0XAUTHORITY=/a", ":0"),
        None
    );
    assert_eq!(greeter_authority(b"DISPLAY=:0\0XDG_SESSION_CLASS=greeter", ":0"), None);
    assert_eq!(greeter_authority(b"", ":0"), None);
}

#[test]
fn an_authority_file_must_be_safe() {
    let file = AuthorityFile { is_absolute: true, is_file: true, owner: 110, mode: 0o100600 };
    assert!(valid_lightdm_authority(&file, 110));
    assert!(!valid_lightdm_authority(&file, 111));
    for mode in [0o100620, 0o100602] {
        assert!(!valid_lightdm_authority(&AuthorityFile { mode, ..file }, 110));
    }
    assert!(!valid_lightdm_authority(&AuthorityFile { is_absolute: false, ..file }, 110));
    assert!(!valid_lightdm_authority(&AuthorityFile { is_file: false, ..file }, 110));
}

#[test]
fn only_our_own_worker_is_stopped() {
    let status = "Uid:\t110\t110\n";
    let cmdline =
        b"/usr/bin/rivet-agent\0console-worker\0--socket\0/run/rivetlink/console.sock\0";
    assert!(is_our_lightdm_worker(42, status, cmdline, 110));
    assert!(!is_our_lightdm_worker(1, status, cmdline, 110));
    assert!(!is_our_lightdm_worker(-5, status, cmdline, 110));
    assert!(!is_our_lightdm_worker(42, status, cmdline, 0));
    assert!(!is_our_lightdm_worker(42, status, b"/usr/bin/rivet-agent\0console-worker\0", 110));
    assert!(!is_our_lightdm_worker(42, "", cmdline, 110));
}

#[test]
fn numbers_of_the_system_are_read() {
    assert_eq!(stored_pid(" 42\n").unwrap(), 42);
    assert_eq!(stored_pid("-42").unwrap(), -42);
    assert_eq!(stored_pid("+42").unwrap(), 42);
    assert_eq!(stored_pid("-2147483648").unwrap(), i32::MIN);
    for bad in ["", "-", "+", "--4", "-+4", "2147483648", "4 2", "x"] {
        assert_eq!(
            stored_pid(bad).unwrap_err().to_string(),
            "config error: invalid LightDM worker PID file"
        );
    }
    assert_eq!(account_id(true, "110\n").unwrap(), 110);
    assert_eq!(
        account_id(true, "none").unwrap_err().to_string(),
        "config error: invalid LightDM account UID"
    );
    assert_eq!(
        account_id(false, "110").unwrap_err().to_string(),
        "config error: LightDM account is unavailable"
    );
    assert!(require_root(true, "0\n").is_ok());
    assert!(require_root(false, "0\n").is_err());
    assert!(require_root(true, "1000\n").is_err());
}

#[test]
fn the_watcher_waits_until_its_deadline() {
    let found = || Some("/run/x".to_string());
    assert!(matches!(watch_step(found(), true).unwrap(), WatchStep::Start(p) if p == "/run/x"));
    assert!(matches!(watch_step(None, false).unwrap(), WatchStep::Wait));
    assert_eq!(
        watch_step(None, true).unwrap_err().to_string(),
        "config error: LightDM greeter did not expose an authorized local X11 session"
    );
}
