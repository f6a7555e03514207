use snow_bridge::driver::{
    extra_rom_from_name, model_from_gestalt, monitor_from_id, mouse_mode_for, ExtraRomKind,
    FloppyDrives, MacModel, MacMonitor,
};
use snow_bridge::floppy::{
    floppy_load_error, floppy_on_open, floppy_on_size, load_floppy_image, FloppyAction,
};
use snow_bridge::framebuffer::{Frame, Sender, VideoCall};
use snow_bridge::input::MouseMode;
use snow_bridge::serial_bridge::{
    BridgeErrorKind, SccBridge, SerialBridgeConfig, SerialBridgeStatus,
};

fn frame(w: u16, h: u16, n: usize) -> Frame {
    Frame { width: w, height: h, data: vec![7u8; n] }
}

fn describe(calls: &[VideoCall]) -> Vec<String> {
    calls
        .iter()
        .map(|c| match c {
            VideoCall::DidOpenVideo { width, height } => format!("open {}x{}", width, height),
            VideoCall::Blit(b) => format!("blit {}", b.len()),
        })
        .collect()
}

#[test]
fn first_frame_announces_then_blits() {
    let mut s = Sender::new();
    let calls = s.tick(vec![frame(512, 342, 100)]);
    assert_eq!(describe(&calls), vec!["open 512x342", "blit 100"]);
    let calls = s.tick(vec![frame(512, 342, 100)]);
    assert_eq!(describe(&calls), vec!["blit 100"]);
}

#[test]
fn size_changes_are_announced_in_order() {
    let mut s = Sender::new();
    let calls = s.tick(vec![
        frame(512, 342, 4),
        frame(640, 480, 4),
        frame(640, 480, 0),
        frame(512, 342, 4),
    ]);
    assert_eq!(
        describe(&calls),
        vec!["open 512x342", "blit 4", "open 640x480", "blit 4", "open 512x342", "blit 4"]
    );
    assert!(s.tick(Vec::new()).is_empty());
}

#[test]
fn send_frame_empty_data_no_blit() {
    let mut s = Sender::new();
    let calls = s.send_frame(frame(0, 0, 0));
    assert!(calls.is_empty());
    let calls = s.send_frame(frame(1, 1, 0));
    assert_eq!(describe(&calls), vec!["open 1x1"]);
}

#[test]
fn floppy_steps() {
    match load_floppy_image("a\0b") {
        FloppyAction::Fail(m) => assert_eq!(m, "Floppy name contains an embedded null byte"),
        _ => panic!("expected failure"),
    }
    match load_floppy_image("disk.moof") {
        FloppyAction::Open(b) => assert_eq!(b, b"disk.moof\0".to_vec()),
        _ => panic!("expected open"),
    }
    match floppy_on_open("x.img", -2) {
        FloppyAction::Fail(m) => assert_eq!(m, "Floppy not found: x.img"),
        _ => panic!("expected failure"),
    }
    match floppy_on_open("x.img", 4) {
        FloppyAction::QuerySize(id) => assert_eq!(id, 4),
        _ => panic!("expected size query"),
    }
    let r = floppy_on_size(4, 819200);
    assert_eq!(r.disk_id, 4);
    assert_eq!(r.buffer.len(), 819200);
    assert!(r.read);
    let r = floppy_on_size(4, 0);
    assert!(r.buffer.is_empty());
    assert!(!r.read);
    assert_eq!(floppy_load_error("x.img", "bad"), "Cannot load floppy image x.img: bad");
}

#[test]
fn gestalt_table() {
    assert_eq!(model_from_gestalt(1), Some(MacModel::Early128K));
    assert_eq!(model_from_gestalt(4), Some(MacModel::Plus));
    assert_eq!(model_from_gestalt(9), Some(MacModel::SE30));
    assert_eq!(model_from_gestalt(17), Some(MacModel::Classic));
    assert_eq!(model_from_gestalt(10), None);
    assert_eq!(model_from_gestalt(0), None);
}

#[test]
fn monitor_and_extra_rom_names() {
    assert_eq!(monitor_from_id(&"HiRes14".to_string()), Some(MacMonitor::HiRes14));
    assert_eq!(monitor_from_id(&"PortraitBW".to_string()), Some(MacMonitor::PortraitBW));
    assert_eq!(monitor_from_id(&"rgb12".to_string()), None);
    assert_eq!(
        extra_rom_from_name(&"se30-video.rom".to_string()),
        Some(ExtraRomKind::SE30Video)
    );
    assert_eq!(
        extra_rom_from_name(&"mac-ii-display-card-8-24.rom".to_string()),
        Some(ExtraRomKind::MDC12)
    );
    assert_eq!(extra_rom_from_name(&"other.rom".to_string()), None);
    assert_eq!(mouse_mode_for(true), MouseMode::RelativeHw);
    assert_eq!(mouse_mode_for(false), MouseMode::Absolute);
}

#[test]
fn floppy_drives_cap_at_three() {
    let mut d = FloppyDrives::new();
    let mut used = Vec::new();
    for _ in 0..5 {
        if let Some(n) = d.free_drive() {
            used.push(n);
            d.mark_inserted();
        }
    }
    assert_eq!(used, vec![0, 1, 2]);
    assert_eq!(d.inserted(), 3);
    assert_eq!(d.free_drive(), None);
}

#[test]
fn serial_bridge_is_unsupported() {
    match SccBridge::new(&SerialBridgeConfig::Tcp(1234)) {
        Err(e) => {
            assert_eq!(e.kind, BridgeErrorKind::Unsupported);
            assert_eq!(e.message, "Serial bridges are not supported on this target");
        }
        Ok(_) => panic!("serial bridges must be refused"),
    }
    let mut b = SccBridge;
    b.write_from_scc(&[1, 2]);
    assert!(b.read_to_scc().is_empty());
    assert!(!b.poll());
    assert!(!b.is_localtalk());
    assert!(matches!(b.status(), SerialBridgeStatus::TcpListening(0)));
    assert_eq!(SerialBridgeConfig::Pty.to_display_string(), "SerialBridgeConfig");
    assert_eq!(b.status().to_display_string(), "SerialBridgeStatus");
}
