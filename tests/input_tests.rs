use snow_bridge::input::{
    clamp_i32_to_i16, clamp_i32_to_u16, HostQuery, InputAction, InputState, MouseCommand,
    MouseMode, Receiver,
};

struct FakeHost {
    lock: i32,
    button: i32,
    has_position: i32,
    x: i32,
    y: i32,
    dx: i32,
    dy: i32,
}

fn answer(h: &FakeHost, q: HostQuery) -> i32 {
    match q {
        HostQuery::AcquireLock => h.lock,
        HostQuery::ReleaseLock => 0,
        HostQuery::ButtonState => h.button,
        HostQuery::HasPosition => h.has_position,
        HostQuery::PositionX => h.x,
        HostQuery::PositionY => h.y,
        HostQuery::DeltaX => h.dx,
        HostQuery::DeltaY => h.dy,
    }
}

fn drive(mode: MouseMode, h: &FakeHost) -> (Vec<HostQuery>, Vec<MouseCommand>) {
    let rx = Receiver::new(mode);
    let mut state = InputState::Start;
    let mut reply = 0;
    let mut queries = Vec::new();
    let mut sent = Vec::new();
    for _ in 0..20 {
        let (next, action) = rx.tick(state, reply);
        state = next;
        match action {
            InputAction::Query(q) => {
                queries.push(q);
                reply = answer(h, q);
            }
            InputAction::Send(c) => {
                sent.push(c);
                reply = 0;
            }
            InputAction::Finish => return (queries, sent),
        }
    }
    panic!("input tick did not finish");
}

fn host(lock: i32, button: i32, has_position: i32, x: i32, y: i32, dx: i32, dy: i32) -> FakeHost {
    FakeHost { lock, button, has_position, x, y, dx, dy }
}

#[test]
fn absolute_mouse_clamps_position_after_button() {
    let (queries, sent) = drive(MouseMode::Absolute, &host(1, 1, 1, -5, 700000, 0, 0));
    assert_eq!(
        sent,
        vec![
            MouseCommand::Relative { relx: 0, rely: 0, btn: Some(true) },
            MouseCommand::Absolute { x: 0, y: 65535 },
        ]
    );
    assert_eq!(queries.first(), Some(&HostQuery::AcquireLock));
    assert_eq!(queries.last(), Some(&HostQuery::ReleaseLock));
}

#[test]
fn relative_mouse_zero_delta_sends_nothing() {
    let (queries, sent) = drive(MouseMode::RelativeHw, &host(1, -1, 1, 0, 0, 0, 0));
    assert!(sent.is_empty());
    assert_eq!(queries.iter().filter(|q| **q == HostQuery::ReleaseLock).count(), 1);
}

#[test]
fn relative_mouse_clamps_deltas() {
    let (_, sent) = drive(MouseMode::RelativeHw, &host(1, -1, 1, 0, 0, 100000, -100000));
    assert_eq!(sent, vec![MouseCommand::Relative { relx: 32767, rely: -32768, btn: None }]);
}

#[test]
fn relative_mouse_button_then_motion() {
    let (_, sent) = drive(MouseMode::RelativeHw, &host(1, 0, 1, 0, 0, 3, -4));
    assert_eq!(
        sent,
        vec![
            MouseCommand::Relative { relx: 0, rely: 0, btn: Some(false) },
            MouseCommand::Relative { relx: 3, rely: -4, btn: None },
        ]
    );
}

#[test]
fn lock_not_granted_skips_tick() {
    let (queries, sent) = drive(MouseMode::Absolute, &host(0, 1, 1, 10, 10, 1, 1));
    assert!(sent.is_empty());
    assert_eq!(queries, vec![HostQuery::AcquireLock]);
}

#[test]
fn disabled_mode_sends_only_button() {
    let (queries, sent) = drive(MouseMode::Disabled, &host(1, 1, 1, 10, 10, 5, 5));
    assert_eq!(sent, vec![MouseCommand::Relative { relx: 0, rely: 0, btn: Some(true) }]);
    assert!(!queries.contains(&HostQuery::PositionX));
    assert!(!queries.contains(&HostQuery::DeltaX));
    assert_eq!(queries.last(), Some(&HostQuery::ReleaseLock));
}

#[test]
fn no_position_sends_no_motion() {
    let (_, sent) = drive(MouseMode::Absolute, &host(1, -1, 0, 10, 10, 5, 5));
    assert!(sent.is_empty());
}

#[test]
fn clamp_values() {
    assert_eq!(clamp_i32_to_u16(-1), 0);
    assert_eq!(clamp_i32_to_u16(1234), 1234);
    assert_eq!(clamp_i32_to_u16(65536), 65535);
    assert_eq!(clamp_i32_to_u16(i32::MIN), 0);
    assert_eq!(clamp_i32_to_i16(i32::MIN), -32768);
    assert_eq!(clamp_i32_to_i16(i32::MAX), 32767);
    assert_eq!(clamp_i32_to_i16(-32768), -32768);
    assert_eq!(clamp_i32_to_i16(-7), -7);
}
