//! Screen capture: planning, decoding and the tile stream.

use std::time::Duration;

use rivetlink::agent::capture::mutter::{
    after_direct_capture, bgrx_to_rgba, choose_monitor, console_capture_backend, diagnostic,
    encode_bgrx_png, fit_output, frame_bytes, gst_args, interval_ms, list_displays,
    monitor_target, monitors, no_frame_error, one_frame_gst_args, plan_one_frame, plan_stream,
    session_creation_inhibited, stream_result, stream_tick, ConsoleCaptureBackend, DirectCapture,
    LogicalMonitor, ModeState, MonitorState, StreamTick, FALLBACK_H, FALLBACK_W,
};
use rivetlink::agent::capture::screencast::{
    encode_tile, packed_frame, tile_differs, SendOutcome, TileEncoder, TileRect,
};
use rivetlink::agent::capture::screenshot::{
    capture_commands, captured_by_portal, captured_file, fake_capture_size, synthetic_blob,
};
use rivetlink::agent::capture::x11::{
    capture_png, check_geometry, component, decode_root_image, encode_rgba_png, read_pixel,
    visual_for_root, DepthVisuals, PixmapFormat, Visual, X11Setup, TRUE_COLOR,
};
use rivetlink::agent::cast::{
    cast_options, cursor_mode, no_node_error, step_error, steps, CastOption, SessionKind, Step,
};
use rivetlink::agent::error::AgentError;
use rivetlink::encoding::encode;
use rivetlink::packets::HostConsoleState;
use rivetlink::sdk::lan::FrameDelta;

/// The size and the RGBA pixels of a PNG.
fn decode_png(bytes: &[u8]) -> (u32, u32, Vec<u8>) {
    let mut reader = png::Decoder::new(bytes).read_info().unwrap();
    let mut pixels = vec![0; reader.output_buffer_size()];
    let info = reader.next_frame(&mut pixels).unwrap();
    assert_eq!(info.color_type, png::ColorType::Rgba);
    assert_eq!(info.bit_depth, png::BitDepth::Eight);
    (info.width, info.height, pixels)
}

fn mode(width: i32, height: i32, is_current: bool) -> ModeState {
    ModeState { width, height, is_current }
}

fn state(connector: &str, vendor: &str, product: &str, modes: Vec<ModeState>) -> MonitorState {
    MonitorState {
        connector: connector.to_string(),
        vendor: vendor.to_string(),
        product: product.to_string(),
        modes,
    }
}

fn desk() -> Vec<MonitorState> {
    vec![
        state("eDP-1", "", "", vec![]),
        state("HDMI-1", "Acme", "", vec![mode(1366, 768, false), mode(640, 480, false)]),
        state("DP-1", "Acme", "Wide", vec![mode(640, 480, false), mode(3440, 1440, true)]),
        state("DP-2", "", "", vec![mode(-1, 480, true)]),
    ]
}

fn primary(connector: &str) -> Vec<LogicalMonitor> {
    vec![
        LogicalMonitor { primary: false, connectors: vec!["eDP-1".to_string()] },
        LogicalMonitor { primary: true, connectors: vec![connector.to_string()] },
    ]
}

#[test]
fn fit_preserves_aspect_within_bounds() {
    // 21:9 ultrawide -> full width, no letterbox.
    assert_eq!(fit_output(3440, 1440), (1920, 802));
    // 16:9 at/under the box -> unchanged (even).
    assert_eq!(fit_output(1920, 1080), (1920, 1080));
    assert_eq!(fit_output(2560, 1440), (1920, 1080));
    assert_eq!(fit_output(3840, 2160), (1920, 1080));
    // Smaller than the box -> never upscaled.
    assert_eq!(fit_output(1366, 768), (1366, 768));
    // Unknown resolution -> fallback.
    assert_eq!(fit_output(0, 0), (FALLBACK_W, FALLBACK_H));
    // Always even.
    let (w, h) = fit_output(3441, 1441);
    assert_eq!((w % 2, h % 2), (0, 0));
}

#[test]
fn extreme_sources_still_fit() {
    assert_eq!(fit_output(1, 1), (2, 2));
    assert_eq!(fit_output(u32::MAX, 1), (1920, 2));
    assert_eq!(fit_output(1, u32::MAX), (2, 1080));
    assert_eq!(fit_output(1080, 1920), (606, 1080));
}

#[test]
fn one_shot_gstreamer_diagnostics_are_bounded_and_text_only() {
    assert_eq!(diagnostic(b"missing pipewiresrc\n"), "missing pipewiresrc");
}

#[test]
fn a_diagnostic_is_cut_and_made_text() {
    assert_eq!(diagnostic(&[b'x'; 5000]).len(), 4096);
    assert_eq!(diagnostic(b" \xffbad "), "\u{fffd}bad");
    assert_eq!(diagnostic(b""), "");
}

#[test]
fn recognizes_only_mutters_explicit_inhibit_error() {
    assert!(session_creation_inhibited(&AgentError::Lan(
        "Mutter ScreenCast D-Bus error: Session creation inhibited".to_string(),
    )));
    assert!(!session_creation_inhibited(&AgentError::Lan(
        "Mutter ScreenCast D-Bus error: Access denied".to_string(),
    )));
}

#[test]
fn gdm_and_locked_console_use_in_memory_remote_desktop_capture() {
    assert_eq!(
        console_capture_backend(HostConsoleState::GdmLogin).unwrap(),
        ConsoleCaptureBackend::RemoteDesktopScreenCast
    );
    assert_eq!(
        console_capture_backend(HostConsoleState::SessionLocked).unwrap(),
        ConsoleCaptureBackend::RemoteDesktopScreenCast
    );
    assert_eq!(
        console_capture_backend(HostConsoleState::DesktopReady).unwrap(),
        ConsoleCaptureBackend::DirectScreenCast
    );
}

#[test]
fn transitioning_console_states_never_fall_back_to_disk_capture() {
    for state in [
        HostConsoleState::Booting,
        HostConsoleState::SessionStarting,
        HostConsoleState::SessionSwitching,
        HostConsoleState::Offline,
    ] {
        let error = console_capture_backend(state).unwrap_err();
        assert!(error.to_string().contains("session is transitioning"));
    }
}

#[test]
fn an_inhibited_capture_is_retried() {
    let inhibited = AgentError::Lan("SESSION creation INHIBITED".to_string());
    assert!(matches!(after_direct_capture(Err(inhibited)), DirectCapture::Retry));
    let denied = AgentError::Lan("denied".to_string());
    assert!(matches!(after_direct_capture(Err(denied)), DirectCapture::Done(Err(_))));
    assert!(matches!(
        after_direct_capture(Ok(b"PNG".to_vec())),
        DirectCapture::Done(Ok(png)) if png == b"PNG"
    ));
}

#[test]
fn monitors_are_labelled_and_the_primary_comes_first() {
    let found = monitors(&desk(), &primary("DP-1"));
    let labels: Vec<&str> = found.iter().map(|m| m.label.as_str()).collect();
    assert_eq!(labels, ["DP-1 · Wide", "eDP-1", "HDMI-1 · Acme", "DP-2"]);
    let sizes: Vec<(u32, u32)> = found.iter().map(|m| (m.width, m.height)).collect();
    assert_eq!(sizes, [(3440, 1440), (0, 0), (1366, 768), (0, 480)]);

    let unsorted = monitors(&desk(), &vec![]);
    assert_eq!(unsorted[0].connector, "eDP-1");
    let displays = list_displays(&found);
    assert_eq!(displays.len(), 4);
    assert_eq!((displays[0].id, displays[0].name.as_str()), (0, "DP-1 · Wide"));
    assert_eq!(displays[3].id, 3);
}

#[test]
fn a_capture_is_planned_for_one_monitor() {
    let found = monitors(&desk(), &primary("DP-1"));
    assert_eq!(choose_monitor(None, 4), 0);
    assert_eq!(choose_monitor(Some(2), 4), 2);
    assert_eq!(choose_monitor(Some(4), 4), 0);
    assert_eq!(monitor_target(&found, Some(2)), Some(("HDMI-1".to_string(), 1366, 768)));
    assert_eq!(monitor_target(&vec![], None), None);

    let one = plan_one_frame(&found).unwrap();
    assert_eq!((one.connector.as_str(), one.width, one.height), ("DP-1", 1920, 802));
    let stream = plan_stream(&found, Some(1)).unwrap();
    assert_eq!((stream.connector.as_str(), stream.width, stream.height), ("eDP-1", 1280, 720));
    assert_eq!(
        plan_one_frame(&vec![]).unwrap_err().to_string(),
        "config error: no active GNOME monitor is available in this graphical session"
    );
    assert_eq!(
        plan_stream(&vec![], None).unwrap_err().to_string(),
        "direct-LAN error: no monitors found to share"
    );
}

#[test]
fn a_frame_must_be_countable() {
    assert_eq!(frame_bytes(1920, 1080).unwrap(), 8294400);
    assert_eq!(
        frame_bytes(usize::MAX, 2).unwrap_err().to_string(),
        "config error: virtual monitor dimensions are too large"
    );
    assert!(frame_bytes(usize::MAX / 4 + 1, 1).is_err());
}

#[test]
fn gstreamer_is_started_with_its_pipeline() {
    let pipeline = [
        "-q",
        "pipewiresrc",
        "path=42",
        "do-timestamp=true",
        "!",
        "videoscale",
        "add-borders=true",
        "!",
        "videoconvert",
        "!",
        "video/x-raw,format=BGRx,width=1920,height=802",
        "!",
        "fdsink",
        "fd=1",
        "sync=false",
    ];
    assert_eq!(gst_args(42, 1920, 802), pipeline);
    let bounded = one_frame_gst_args(42, 1920, 802, Duration::from_secs(10));
    assert_eq!(bounded[..3], ["--signal=TERM", "10s", "gst-launch-1.0"]);
    assert_eq!(bounded[3..], pipeline);
    assert_eq!(one_frame_gst_args(1, 2, 2, Duration::from_millis(10))[1], "1s");
}

#[test]
fn a_missing_frame_is_explained() {
    assert_eq!(
        no_frame_error(Duration::from_secs(3), "eof", "").to_string(),
        "config error: Mutter capture did not produce a frame within 3 seconds: eof"
    );
    assert_eq!(
        no_frame_error(Duration::ZERO, "eof", "no plugin").to_string(),
        "config error: Mutter capture did not produce a frame within 1 seconds: eof; \
         GStreamer: no plugin"
    );
}

#[test]
fn raw_pixels_become_a_png() {
    let bgrx = [3, 2, 1, 0, 6, 5, 4, 9];
    let rgba = [1, 2, 3, 255, 4, 5, 6, 255];
    assert_eq!(bgrx_to_rgba(&bgrx), rgba);
    // What does not fill a pixel is dropped.
    assert_eq!(bgrx_to_rgba(&bgrx[..6]), rgba[..4]);
    let png = encode_bgrx_png(2, 1, &bgrx).unwrap();
    assert_eq!(decode_png(&png), (2, 1, rgba.to_vec()));
    assert!(encode_bgrx_png(0, 1, &bgrx)
        .unwrap_err()
        .to_string()
        .starts_with("config error: encode headless PNG header: "));
    assert!(encode_bgrx_png(2, 2, &bgrx)
        .unwrap_err()
        .to_string()
        .starts_with("config error: encode headless PNG data: "));
}

#[test]
fn the_stream_ticks_at_its_rate() {
    assert_eq!(interval_ms(20), 50);
    assert_eq!(interval_ms(0), 1000);
    assert_eq!(interval_ms(2000), 1);
    assert_eq!(stream_tick(true, false), StreamTick::Push);
    assert_eq!(stream_tick(false, true), StreamTick::Heartbeat);
    assert_eq!(stream_tick(false, false), StreamTick::Stop);
    assert!(stream_result(true).is_ok());
    assert_eq!(
        stream_result(false).unwrap_err().to_string(),
        "direct-LAN error: screen capture produced no frames (is gst-launch-1.0 + the pipewire \
         plugin installed?)"
    );
}

#[test]
fn synthetic_blob_has_exact_size() {
    let blob = synthetic_blob(1000);
    assert_eq!(blob.len(), 1000);
}

#[test]
fn synthetic_blob_is_nonempty_pattern() {
    let blob = synthetic_blob(10);
    assert_eq!(&blob, b"RIVETLINK-");
}

#[test]
fn fake_capture_returns_blob() {
    let size = fake_capture_size(Some("2048")).unwrap();
    let bytes = synthetic_blob(size);
    assert_eq!(bytes.len(), 2048);
}

#[test]
fn a_fake_capture_has_a_default_size() {
    assert_eq!(fake_capture_size(None), None);
    assert_eq!(fake_capture_size(Some("many")), Some(600 * 1024));
    assert_eq!(fake_capture_size(Some("-1")), Some(600 * 1024));
    assert_eq!(fake_capture_size(Some("+7")), Some(7));
    assert_eq!(fake_capture_size(Some("18446744073709551616")), Some(600 * 1024));
    let blob = synthetic_blob(30);
    assert_eq!(&blob, b"RIVETLINK-FAKE-SCREENSHOT-RIVE");
}

#[test]
fn capture_tools_are_tried_in_order() {
    let commands = capture_commands("/tmp/shot.png");
    let lines: Vec<String> =
        commands.iter().map(|c| format!("{} {}", c.program, c.args.join(" "))).collect();
    assert_eq!(
        lines,
        ["grim /tmp/shot.png", "scrot -z /tmp/shot.png", "import -window root /tmp/shot.png"]
    );
    assert_eq!(captured_file(b"PNG".to_vec()).unwrap(), b"PNG");
    assert_eq!(
        captured_file(vec![]).unwrap_err().to_string(),
        "config error: capture produced no data"
    );
    assert_eq!(captured_by_portal(b"PNG".to_vec()).unwrap(), b"PNG");
    assert!(captured_by_portal(vec![]).is_err());
}

fn rgb_visual() -> Visual {
    Visual {
        visual_id: 1,
        class: TRUE_COLOR,
        red_mask: 0x00ff_0000,
        green_mask: 0x0000_ff00,
        blue_mask: 0x0000_00ff,
    }
}

#[test]
fn decodes_little_endian_bgrx_without_a_disk_screenshot() {
    let rgba = decode_root_image(&[3, 2, 1, 0], 1, 1, 32, 0, &rgb_visual()).unwrap();
    assert_eq!(rgba, vec![1, 2, 3, 255]);
}

#[test]
fn rejects_invalid_image_strides() {
    let error = decode_root_image(&[0; 3], 1, 1, 32, 0, &rgb_visual()).unwrap_err();
    assert!(error.to_string().contains("stride"));
}

#[test]
fn rows_may_be_padded() {
    // Two rows of one pixel, each padded to eight bytes.
    let bytes = [3, 2, 1, 0, 9, 9, 9, 9, 6, 5, 4, 0, 9, 9, 9, 9];
    let rgba = decode_root_image(&bytes, 1, 2, 32, 0, &rgb_visual()).unwrap();
    assert_eq!(rgba, [1, 2, 3, 255, 4, 5, 6, 255]);
    // Most significant byte first, three bytes to a pixel.
    let rgba = decode_root_image(&[1, 2, 3], 1, 1, 24, 1, &rgb_visual()).unwrap();
    assert_eq!(rgba, [1, 2, 3, 255]);
}

#[test]
fn images_of_unknown_shape_are_refused() {
    let text = |bytes: &[u8], w, h, bpp| {
        decode_root_image(bytes, w, h, bpp, 0, &rgb_visual()).unwrap_err().to_string()
    };
    assert_eq!(text(&[0; 8], 1, 1, 40), "config error: unsupported X11 root pixel format");
    assert_eq!(text(&[0; 8], 1, 1, 0), "config error: unsupported X11 root pixel format");
    assert_eq!(text(&[0; 8], 1, 0, 32), "config error: invalid X11 image stride");
    assert_eq!(text(&[0; 9], 1, 2, 32), "config error: invalid X11 image stride");
    assert_eq!(text(&[0; 8], usize::MAX, 1, 32), "config error: invalid X11 image stride");
}

#[test]
fn pixels_are_read_in_their_order() {
    assert_eq!(read_pixel(&[1, 2, 3], 0), 0x030201);
    assert_eq!(read_pixel(&[1, 2, 3], 1), 0x010203);
    assert_eq!(component(0b11111_000000_00000, 0xf800), 255);
    assert_eq!(component(0b10000_000000_00000, 0xf800), 131);
    assert_eq!(component(u32::MAX, 0), 0);
    assert_eq!(component(u32::MAX, u32::MAX), 1);
}

fn setup() -> X11Setup {
    X11Setup {
        image_byte_order: 0,
        pixmap_formats: vec![
            PixmapFormat { depth: 1, bits_per_pixel: 1 },
            PixmapFormat { depth: 24, bits_per_pixel: 32 },
        ],
        depths: vec![
            DepthVisuals { depth: 8, visuals: vec![Visual { class: 3, ..rgb_visual() }] },
            DepthVisuals { depth: 24, visuals: vec![rgb_visual()] },
        ],
    }
}

#[test]
fn a_root_window_becomes_a_png() {
    let png = capture_png(&setup(), 24, 1, 1, 1, &[3, 2, 1, 0]).unwrap();
    assert_eq!(decode_png(&png), (1, 1, vec![1, 2, 3, 255]));
    assert_eq!(visual_for_root(&setup(), 24, 1).unwrap(), rgb_visual());
    let text = |setup: &X11Setup, depth, visual| {
        capture_png(setup, depth, visual, 1, 1, &[3, 2, 1, 0]).unwrap_err().to_string()
    };
    assert_eq!(text(&setup(), 24, 7), "config error: X11 root visual is unavailable");
    assert_eq!(text(&setup(), 8, 1), "config error: unsupported X11 root visual class");
    let mut bare = setup();
    bare.pixmap_formats.clear();
    assert_eq!(text(&bare, 24, 1), "config error: X11 root pixel format is unavailable");
    assert!(encode_rgba_png(1, 1, &[])
        .unwrap_err()
        .to_string()
        .starts_with("config error: encode X11 PNG data: "));
    assert!(encode_rgba_png(0, 1, &[])
        .unwrap_err()
        .to_string()
        .starts_with("config error: encode X11 PNG header: "));
}

#[test]
fn a_screen_must_be_of_a_plausible_size() {
    assert_eq!(check_geometry(Some((1920, 1080))).unwrap(), (1920, 1080));
    assert_eq!(
        check_geometry(None).unwrap_err().to_string(),
        "config error: X11 display has no screen"
    );
    assert_eq!(
        check_geometry(Some((0, 1080))).unwrap_err().to_string(),
        "config error: X11 display has no active monitor geometry"
    );
    assert_eq!(
        check_geometry(Some((65535, 65535))).unwrap_err().to_string(),
        "config error: X11 monitor geometry is too large"
    );
}

/// A black frame of 300 by 200 pixels: three columns and two rows of tiles.
fn black() -> Vec<u8> {
    vec![0; 300 * 200 * 4]
}

fn indices(delta: &FrameDelta) -> Vec<u32> {
    delta.tiles.iter().map(|t| t.i).collect()
}

#[test]
fn the_first_frame_is_a_keyframe() {
    let mut encoder = TileEncoder::new();
    let delta = encoder.push(300, 200, black(), 80).unwrap();
    assert!(delta.keyframe);
    assert_eq!((delta.w, delta.h, delta.tile), (300, 200, 128));
    assert_eq!(indices(&delta), [0, 1, 2, 3, 4, 5]);
    assert!(encoder.queued(SendOutcome::Queued));
}

#[test]
fn only_changed_tiles_are_sent() {
    let mut encoder = TileEncoder::new();
    let _ = encoder.push(300, 200, black(), 80).unwrap();
    assert!(encoder.queued(SendOutcome::Queued));
    let mut frame = black();
    // The last pixel lies in the last tile.
    frame[300 * 200 * 4 - 4] = 255;
    let delta = encoder.push(300, 200, frame.clone(), 80).unwrap();
    assert!(!delta.keyframe);
    assert_eq!(indices(&delta), [5]);
    let corner = TileRect { fw: 300, x: 256, y: 128, w: 44, h: 72 };
    assert_eq!(delta.tiles[0].jpeg_b64, encode(&encode_tile(&frame, &corner, 80).unwrap()));
    // The frame was dropped: the change is sent again.
    assert!(encoder.queued(SendOutcome::Full));
    assert_eq!(indices(&encoder.push(300, 200, frame.clone(), 80).unwrap()), [5]);
    assert!(encoder.queued(SendOutcome::Queued));
    // Nothing changed since.
    assert!(encoder.push_after(300, 200, frame.clone(), 80, Duration::from_millis(999)).is_none());
    let idle = encoder.push_after(300, 200, frame, 80, Duration::from_secs(1)).unwrap();
    assert!(!idle.keyframe && idle.tiles.is_empty());
    assert!(!encoder.queued(SendOutcome::Closed));
}

#[test]
fn another_size_is_a_keyframe() {
    let mut encoder = TileEncoder::new();
    let _ = encoder.push(300, 200, black(), 80).unwrap();
    assert!(encoder.queued(SendOutcome::Queued));
    let delta = encoder.push(200, 300, black(), 80).unwrap();
    assert!(delta.keyframe);
    assert_eq!(indices(&delta), [0, 1, 2, 3, 4, 5]);
}

#[test]
fn a_keyframe_is_sent_regularly() {
    let mut encoder = TileEncoder::new();
    let mut keyframes = vec![];
    for n in 0..=160 {
        let pixel = vec![0; 4];
        if let Some(delta) = encoder.push_after(1, 1, pixel, 80, Duration::ZERO) {
            assert!(encoder.queued(SendOutcome::Queued));
            if delta.keyframe {
                keyframes.push(n);
            }
        }
    }
    assert_eq!(keyframes, [0, 160]);
}

#[test]
fn malformed_frames_are_skipped() {
    let mut encoder = TileEncoder::new();
    assert!(encoder.push(0, 200, black(), 80).is_none());
    assert!(encoder.push(300, 0, black(), 80).is_none());
    assert!(encoder.push(300, 201, black(), 80).is_none());
    // None of them counted as the first frame.
    assert!(encoder.push(300, 200, black(), 80).unwrap().keyframe);
}

#[test]
fn an_idle_screen_sends_heartbeats() {
    let mut encoder = TileEncoder::new();
    assert!(encoder.heartbeat_after(Duration::from_secs(5)).is_none());
    let _ = encoder.push(300, 200, black(), 80).unwrap();
    assert!(encoder.queued(SendOutcome::Queued));
    assert!(encoder.heartbeat().is_none());
    let beat = encoder.heartbeat_after(Duration::from_secs(1)).unwrap();
    assert_eq!((beat.w, beat.h, beat.tile), (300, 200, 128));
    assert!(!beat.keyframe && beat.tiles.is_empty());
    assert!(encoder.queued(SendOutcome::Queued));
}

#[test]
fn a_tile_is_compared_and_encoded_by_itself() {
    let first = TileRect { fw: 300, x: 0, y: 0, w: 128, h: 128 };
    let second = TileRect { fw: 300, x: 128, y: 0, w: 128, h: 128 };
    let mut frame = black();
    frame[128 * 4] = 1;
    assert!(!tile_differs(&frame, &black(), &first));
    assert!(tile_differs(&frame, &black(), &second));
    let jpeg = encode_tile(&frame, &first, 80).unwrap();
    assert_eq!(jpeg[..2], [0xff, 0xd8]);
    assert_eq!(jpeg[jpeg.len() - 2..], [0xff, 0xd9]);
    let empty = TileRect { fw: 300, x: 0, y: 0, w: 0, h: 1 };
    assert!(encode_tile(&frame, &empty, 80)
        .unwrap_err()
        .to_string()
        .starts_with("direct-LAN error: jpeg encode: "));
}

#[test]
fn a_frame_is_packed_to_its_size() {
    assert_eq!(packed_frame(1, 1, vec![1, 2, 3, 4, 5]), Some((1, 1, vec![1, 2, 3, 4])));
    assert_eq!(packed_frame(1, 1, vec![1, 2, 3]), None);
    assert_eq!(packed_frame(-1, 1, vec![0; 8]), None);
    assert_eq!(packed_frame(1, 0, vec![0; 8]), None);
}

#[test]
fn mutter_sessions_are_opened_in_order() {
    assert_eq!(
        steps(SessionKind::Capture),
        vec![
            Step::Connect,
            Step::CreateCast,
            Step::RecordMonitor,
            Step::Subscribe,
            Step::StartCast,
            Step::AwaitNode,
        ]
    );
    let console = steps(SessionKind::ConsoleCapture);
    let at = |step: Step| console.iter().position(|s| *s == step).unwrap();
    assert!(at(Step::StartRemoteDesktop) < at(Step::RecordMonitor));
    assert!(at(Step::Subscribe) < at(Step::StartStream));
    assert_eq!(
        steps(SessionKind::Control).last(),
        Some(&Step::StartRemoteDesktop)
    );
}

#[test]
fn mutter_options_name_the_driving_session() {
    assert!(cast_options(SessionKind::Capture, "7").is_empty());
    let console = cast_options(SessionKind::ConsoleCapture, "7");
    assert_eq!(console.len(), 2);
    assert!(matches!(&console[0], CastOption::RemoteDesktopSessionId(id) if id == "7"));
    assert!(matches!(console[1], CastOption::DisableAnimations));
    assert_eq!(cast_options(SessionKind::Control, "7").len(), 1);
    assert_eq!(cursor_mode(SessionKind::ConsoleCapture), Some(1));
    assert_eq!(cursor_mode(SessionKind::Control), None);
}

#[test]
fn mutter_errors_name_their_service() {
    let text = |kind, step| step_error(kind, step, "denied").to_string();
    assert_eq!(
        text(SessionKind::Capture, Step::CreateCast),
        "direct-LAN error: Mutter ScreenCast D-Bus error: denied"
    );
    assert_eq!(
        text(SessionKind::ConsoleCapture, Step::StartRemoteDesktop),
        "direct-LAN error: Mutter RemoteDesktop D-Bus error: denied"
    );
    assert_eq!(
        text(SessionKind::Control, Step::RecordMonitor),
        "input error: Mutter RemoteDesktop D-Bus error: denied"
    );
    assert_eq!(
        no_node_error().to_string(),
        "direct-LAN error: Mutter sent no PipeWireStreamAdded"
    );
}

#[test]
fn any_rectangle_of_a_frame_is_compared() {
    let (w, h) = (300usize, 200usize);
    let a = vec![0u8; w * h * 4];
    let mut b = a.clone();
    b[(150 * w + 250) * 4 + 2] = 1;
    let rect = |x, y, rw, rh| TileRect { fw: w, x, y, w: rw, h: rh };
    assert!(tile_differs(&a, &b, &rect(0, 0, 300, 200)));
    assert!(tile_differs(&b, &a, &rect(250, 150, 1, 1)));
    assert!(!tile_differs(&a, &b, &rect(0, 0, 250, 200)));
    assert!(!tile_differs(&a, &b, &rect(0, 0, 300, 150)));
    assert!(!tile_differs(&a, &b, &rect(250, 0, 0, 200)));
    assert!(encode_tile(&a, &rect(0, 0, 300, 200), 80).is_ok());
    let wide = TileRect { fw: 70000, x: 0, y: 0, w: 70000, h: 1 };
    assert_eq!(
        encode_tile(&vec![0; 280000], &wide, 80).unwrap_err().to_string(),
        "direct-LAN error: jpeg encode: Image dimensions must be non zero: 0x1"
    );
}

#[test]
fn a_queued_frame_renews_the_heartbeat() {
    let mut encoder = TileEncoder::new();
    let pixels = vec![7u8; 16];
    assert!(encoder.push(2, 2, pixels, 80).is_some());
    let later = std::time::Instant::now() + Duration::from_secs(3600);
    assert!(encoder.queued_at(SendOutcome::Queued, &later));
    assert!(encoder.heartbeat().is_none());
    let mut stale = TileEncoder::new();
    assert!(stale.push(2, 2, vec![7u8; 16], 80).is_some());
    assert!(stale.queued(SendOutcome::Queued));
    assert!(stale.heartbeat_after(Duration::from_secs(1)).is_some());
}

#[test]
fn tall_sources_keep_their_aspect() {
    assert_eq!(fit_output(1080, 1920), (606, 1080));
    assert_eq!(fit_output(2160, 3840), (606, 1080));
}
