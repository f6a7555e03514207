//! Mouse sampling: turns host mouse state into emulator mouse commands.
//!
//! One input tick is a short exchange with the host. The embedding program
//! asks `Receiver::tick` what to do next, performs it, and hands back the
//! integer that the host answered.

use vstd::prelude::*;

verus! {

/// Which host inputs are sampled and which mouse commands are emitted.
#[derive(Clone, Copy, Debug, PartialEq, Eq, Structural)]
pub enum MouseMode {
    Disabled,
    Absolute,
    RelativeHw,
}

/// A mouse command for the emulator core.
#[derive(Clone, Copy, Debug, PartialEq, Eq)]
pub enum MouseCommand {
    Relative { relx: i16, rely: i16, btn: Option<bool> },
    Absolute { x: u16, y: u16 },
}

/// A host import that the sampler asks the embedding program to call.
#[derive(Clone, Copy, Debug, PartialEq, Eq, Structural)]
pub enum HostQuery {
    AcquireLock,
    ReleaseLock,
    ButtonState,
    HasPosition,
    PositionX,
    PositionY,
    DeltaX,
    DeltaY,
}

/// What the embedding program does next within an input tick.
#[derive(Clone, Copy, Debug, PartialEq, Eq)]
pub enum InputAction {
    /// Call the host import and hand its answer to the next step.
    Query(HostQuery),
    /// Send the command to the core; a failed send is ignored.
    Send(MouseCommand),
    /// The tick is over.
    Finish,
}

/// Where an input tick stands.
#[derive(Clone, Copy, Debug, PartialEq, Eq, Structural)]
pub enum InputState {
    Start,
    AwaitLock,
    AwaitButton,
    SentButton,
    AwaitHasPosition,
    AwaitDeltaX,
    AwaitDeltaY(i32),
    AwaitPositionX,
    AwaitPositionY(i32),
    SentMotion,
    Releasing,
    Done,
}

pub open spec fn clamp_spec(v: int, lo: int, hi: int) -> int {
    if v < lo {
        lo
    } else if v > hi {
        hi
    } else {
        v
    }
}

/// Clamps a host position to the unsigned 16-bit range.
pub fn clamp_i32_to_u16(value: i32) -> (r: u16)
    ensures
        r as int == clamp_spec(value as int, 0, 65535),
{
    if value < 0 {
        0
    } else if value > 65535 {
        65535
    } else {
        value as u16
    }
}

/// Clamps a host delta to the signed 16-bit range.
pub fn clamp_i32_to_i16(value: i32) -> (r: i16)
    ensures
        r as int == clamp_spec(value as int, -32768, 32767),
{
    if value < -32768 {
        -32768
    } else if value > 32767 {
        32767
    } else {
        value as i16
    }
}

/// The command for a button sample: a zero-motion relative update.
pub open spec fn button_command(button: i32) -> MouseCommand {
    MouseCommand::Relative { relx: 0, rely: 0, btn: Some(button != 0) }
}

pub open spec fn relative_command(dx: i32, dy: i32) -> MouseCommand {
    MouseCommand::Relative {
        relx: clamp_spec(dx as int, -32768, 32767) as i16,
        rely: clamp_spec(dy as int, -32768, 32767) as i16,
        btn: None,
    }
}

pub open spec fn absolute_command(x: i32, y: i32) -> MouseCommand {
    MouseCommand::Absolute {
        x: clamp_spec(x as int, 0, 65535) as u16,
        y: clamp_spec(y as int, 0, 65535) as u16,
    }
}

/// One transition of an input tick: the state reached and the action to
/// perform, given the host's answer to the previous action.
pub open spec fn next_step(mode: MouseMode, state: InputState, reply: i32) -> (
    InputState,
    InputAction,
) {
    match state {
        InputState::Start => (InputState::AwaitLock, InputAction::Query(HostQuery::AcquireLock)),
        InputState::AwaitLock => if reply == 0 {
            (InputState::Done, InputAction::Finish)
        } else {
            (InputState::AwaitButton, InputAction::Query(HostQuery::ButtonState))
        },
        InputState::AwaitButton => if reply > -1 {
            (InputState::SentButton, InputAction::Send(button_command(reply)))
        } else {
            (InputState::AwaitHasPosition, InputAction::Query(HostQuery::HasPosition))
        },
        InputState::SentButton => (
            InputState::AwaitHasPosition,
            InputAction::Query(HostQuery::HasPosition),
        ),
        InputState::AwaitHasPosition => if reply == 0 {
            (InputState::Releasing, InputAction::Query(HostQuery::ReleaseLock))
        } else {
            match mode {
                MouseMode::RelativeHw => (
                    InputState::AwaitDeltaX,
                    InputAction::Query(HostQuery::DeltaX),
                ),
                MouseMode::Absolute => (
                    InputState::AwaitPositionX,
                    InputAction::Query(HostQuery::PositionX),
                ),
                MouseMode::Disabled => (
                    InputState::Releasing,
                    InputAction::Query(HostQuery::ReleaseLock),
                ),
            }
        },
        InputState::AwaitDeltaX => (
            InputState::AwaitDeltaY(reply),
            InputAction::Query(HostQuery::DeltaY),
        ),
        InputState::AwaitDeltaY(dx) => if dx != 0 || reply != 0 {
            (InputState::SentMotion, InputAction::Send(relative_command(dx, reply)))
        } else {
            (InputState::Releasing, InputAction::Query(HostQuery::ReleaseLock))
        },
        InputState::AwaitPositionX => (
            InputState::AwaitPositionY(reply),
            InputAction::Query(HostQuery::PositionY),
        ),
        InputState::AwaitPositionY(x) => (
            InputState::SentMotion,
            InputAction::Send(absolute_command(x, reply)),
        ),
        InputState::SentMotion => (
            InputState::Releasing,
            InputAction::Query(HostQuery::ReleaseLock),
        ),
        InputState::Releasing => (InputState::Done, InputAction::Finish),
        InputState::Done => (InputState::Done, InputAction::Finish),
    }
}

/// The host's input state during one tick, as the imports report it while
/// the input lock is held.
pub struct HostMouse {
    pub lock: i32,
    pub button: i32,
    pub has_position: i32,
    pub x: i32,
    pub y: i32,
    pub dx: i32,
    pub dy: i32,
}

pub open spec fn answer(h: HostMouse, q: HostQuery) -> i32 {
    match q {
        HostQuery::AcquireLock => h.lock,
        HostQuery::ReleaseLock => 0,
        HostQuery::ButtonState => h.button,
        HostQuery::HasPosition => h.has_position,
        HostQuery::PositionX => h.x,
        HostQuery::PositionY => h.y,
        HostQuery::DeltaX => h.dx,
        HostQuery::DeltaY => h.dy,
    }
}

pub open spec fn reply_to(h: HostMouse, a: InputAction) -> i32 {
    match a {
        InputAction::Query(q) => answer(h, q),
        _ => 0,
    }
}

/// The actions of a tick driven against host `h` from `state`, up to and
/// including `Finish`, within `fuel` steps.
pub open spec fn run(mode: MouseMode, h: HostMouse, state: InputState, reply: i32, fuel: nat) -> Seq<
    InputAction,
>
    decreases fuel,
{
    if fuel == 0 {
        Seq::empty()
    } else {
        let (s, a) = next_step(mode, state, reply);
        if a is Finish {
            seq![a]
        } else {
            seq![a] + run(mode, h, s, reply_to(h, a), (fuel - 1) as nat)
        }
    }
}

/// The actions of a whole tick against host `h`.
pub open spec fn tick_actions(mode: MouseMode, h: HostMouse) -> Seq<InputAction> {
    run(mode, h, InputState::Start, 0, 12)
}

pub open spec fn button_actions(h: HostMouse) -> Seq<InputAction> {
    if h.button > -1 {
        seq![InputAction::Send(button_command(h.button))]
    } else {
        Seq::empty()
    }
}

pub open spec fn motion_actions(mode: MouseMode, h: HostMouse) -> Seq<InputAction> {
    if h.has_position == 0 {
        Seq::empty()
    } else {
        match mode {
            MouseMode::RelativeHw => seq![
                InputAction::Query(HostQuery::DeltaX),
                InputAction::Query(HostQuery::DeltaY),
            ] + if h.dx != 0 || h.dy != 0 {
                seq![InputAction::Send(relative_command(h.dx, h.dy))]
            } else {
                Seq::empty()
            },
            MouseMode::Absolute => seq![
                InputAction::Query(HostQuery::PositionX),
                InputAction::Query(HostQuery::PositionY),
                InputAction::Send(absolute_command(h.x, h.y)),
            ],
            MouseMode::Disabled => Seq::empty(),
        }
    }
}

/// A tick in full: lock, button sample, position sample, release.
pub open spec fn tick_plan(mode: MouseMode, h: HostMouse) -> Seq<InputAction> {
    if h.lock == 0 {
        seq![InputAction::Query(HostQuery::AcquireLock), InputAction::Finish]
    } else {
        seq![InputAction::Query(HostQuery::AcquireLock), InputAction::Query(HostQuery::ButtonState)]
            + button_actions(h) + seq![InputAction::Query(HostQuery::HasPosition)]
            + motion_actions(mode, h) + seq![
            InputAction::Query(HostQuery::ReleaseLock),
            InputAction::Finish,
        ]
    }
}

/// The commands among a sequence of actions, in order.
pub open spec fn sent_commands(a: Seq<InputAction>) -> Seq<MouseCommand>
    decreases a.len(),
{
    if a.len() == 0 {
        Seq::empty()
    } else {
        let rest = sent_commands(a.drop_first());
        match a[0] {
            InputAction::Send(c) => seq![c] + rest,
            _ => rest,
        }
    }
}

pub open spec fn button_commands(h: HostMouse) -> Seq<MouseCommand> {
    if h.button > -1 {
        seq![button_command(h.button)]
    } else {
        Seq::empty()
    }
}

pub open spec fn motion_commands(mode: MouseMode, h: HostMouse) -> Seq<MouseCommand> {
    if h.has_position == 0 {
        Seq::empty()
    } else {
        match mode {
            MouseMode::RelativeHw => if h.dx != 0 || h.dy != 0 {
                seq![relative_command(h.dx, h.dy)]
            } else {
                Seq::empty()
            },
            MouseMode::Absolute => seq![absolute_command(h.x, h.y)],
            MouseMode::Disabled => Seq::empty(),
        }
    }
}

proof fn lemma_sent_commands_add(a: Seq<InputAction>, b: Seq<InputAction>)
    ensures
        sent_commands(a + b) == sent_commands(a) + sent_commands(b),
    decreases a.len(),
{
    if a.len() == 0 {
        assert(a + b =~= b);
    } else {
        assert((a + b).drop_first() =~= a.drop_first() + b);
        lemma_sent_commands_add(a.drop_first(), b);
        assert(sent_commands(a + b) =~= sent_commands(a) + sent_commands(b));
    }
}

proof fn lemma_sent_commands_unit(a: InputAction)
    ensures
        sent_commands(seq![a]) == match a {
            InputAction::Send(c) => seq![c],
            _ => Seq::<MouseCommand>::empty(),
        },
{
    assert(seq![a].drop_first() =~= Seq::<InputAction>::empty());
    reveal_with_fuel(sent_commands, 2);
    match a {
        InputAction::Send(c) => assert(seq![c] + Seq::<MouseCommand>::empty() =~= seq![c]),
        _ => {},
    }
}

proof fn lemma_run_unfold(mode: MouseMode, h: HostMouse, state: InputState, reply: i32, fuel: nat)
    requires
        fuel > 0,
    ensures
        run(mode, h, state, reply, fuel) == ({
            let (s, a) = next_step(mode, state, reply);
            if a is Finish {
                seq![a]
            } else {
                seq![a] + run(mode, h, s, reply_to(h, a), (fuel - 1) as nat)
            }
        }),
{
}

proof fn lemma_run_from_release(mode: MouseMode, h: HostMouse, state: InputState, reply: i32, fuel: nat)
    requires
        fuel >= 2,
        next_step(mode, state, reply) == (InputState::Releasing, InputAction::Query(HostQuery::ReleaseLock)),
    ensures
        run(mode, h, state, reply, fuel) == seq![
            InputAction::Query(HostQuery::ReleaseLock),
            InputAction::Finish,
        ],
{
    lemma_run_unfold(mode, h, state, reply, fuel);
    lemma_run_unfold(mode, h, InputState::Releasing, 0, (fuel - 1) as nat);
    assert(seq![InputAction::Query(HostQuery::ReleaseLock)] + seq![InputAction::Finish] =~= seq![
        InputAction::Query(HostQuery::ReleaseLock),
        InputAction::Finish,
    ]);
}

proof fn lemma_run_from_has_position(mode: MouseMode, h: HostMouse, fuel: nat)
    requires
        fuel >= 6,
    ensures
        run(mode, h, InputState::AwaitHasPosition, h.has_position, fuel) == motion_actions(mode, h)
            + seq![InputAction::Query(HostQuery::ReleaseLock), InputAction::Finish],
{
    let tail = seq![InputAction::Query(HostQuery::ReleaseLock), InputAction::Finish];
    if h.has_position == 0 || mode == MouseMode::Disabled {
        lemma_run_from_release(mode, h, InputState::AwaitHasPosition, h.has_position, fuel);
        assert(Seq::<InputAction>::empty() + tail =~= tail);
    } else if mode == MouseMode::RelativeHw {
        lemma_run_unfold(mode, h, InputState::AwaitHasPosition, h.has_position, fuel);
        lemma_run_unfold(mode, h, InputState::AwaitDeltaX, h.dx, (fuel - 1) as nat);
        let f3 = (fuel - 2) as nat;
        if h.dx != 0 || h.dy != 0 {
            lemma_run_unfold(mode, h, InputState::AwaitDeltaY(h.dx), h.dy, f3);
            lemma_run_from_release(mode, h, InputState::SentMotion, 0, (f3 - 1) as nat);
        } else {
            lemma_run_from_release(mode, h, InputState::AwaitDeltaY(h.dx), h.dy, f3);
        }
        assert(run(mode, h, InputState::AwaitHasPosition, h.has_position, fuel) =~= motion_actions(
            mode,
            h,
        ) + tail);
    } else {
        lemma_run_unfold(mode, h, InputState::AwaitHasPosition, h.has_position, fuel);
        lemma_run_unfold(mode, h, InputState::AwaitPositionX, h.x, (fuel - 1) as nat);
        lemma_run_unfold(mode, h, InputState::AwaitPositionY(h.x), h.y, (fuel - 2) as nat);
        lemma_run_from_release(mode, h, InputState::SentMotion, 0, (fuel - 3) as nat);
        assert(run(mode, h, InputState::AwaitHasPosition, h.has_position, fuel) =~= motion_actions(
            mode,
            h,
        ) + tail);
    }
}

/// Driving `Receiver::tick` from `InputState::Start`, handing back each
/// answer of host `h`, performs exactly `tick_plan(mode, h)`: the lock is
/// taken first; when it is not granted the tick ends at once; otherwise the
/// button is sampled, then the position as the mode asks, and the lock is
/// released last.
pub proof fn lemma_tick_follows_plan(mode: MouseMode, h: HostMouse)
    ensures
        tick_actions(mode, h) == tick_plan(mode, h),
{
    lemma_run_unfold(mode, h, InputState::Start, 0, 12);
    lemma_run_unfold(mode, h, InputState::AwaitLock, h.lock, 11);
    if h.lock == 0 {
        assert(tick_actions(mode, h) =~= tick_plan(mode, h));
    } else {
        lemma_run_unfold(mode, h, InputState::AwaitButton, h.button, 10);
        if h.button > -1 {
            lemma_run_unfold(mode, h, InputState::SentButton, 0, 9);
            lemma_run_from_has_position(mode, h, 8);
        } else {
            lemma_run_from_has_position(mode, h, 9);
        }
        assert(tick_actions(mode, h) =~= tick_plan(mode, h));
    }
}

proof fn lemma_button_actions_sent(h: HostMouse)
    ensures
        sent_commands(button_actions(h)) == button_commands(h),
{
    if h.button > -1 {
        lemma_sent_commands_unit(InputAction::Send(button_command(h.button)));
    }
}

proof fn lemma_motion_actions_sent(mode: MouseMode, h: HostMouse)
    ensures
        sent_commands(motion_actions(mode, h)) == motion_commands(mode, h),
{
    let qx = InputAction::Query(HostQuery::DeltaX);
    let qy = InputAction::Query(HostQuery::DeltaY);
    let px = InputAction::Query(HostQuery::PositionX);
    let py = InputAction::Query(HostQuery::PositionY);
    lemma_sent_commands_unit(qx);
    lemma_sent_commands_unit(qy);
    lemma_sent_commands_unit(px);
    lemma_sent_commands_unit(py);
    if h.has_position != 0 {
        if mode == MouseMode::RelativeHw {
            let send = if h.dx != 0 || h.dy != 0 {
                seq![InputAction::Send(relative_command(h.dx, h.dy))]
            } else {
                Seq::empty()
            };
            lemma_sent_commands_unit(InputAction::Send(relative_command(h.dx, h.dy)));
            assert(seq![qx, qy] =~= seq![qx] + seq![qy]);
            lemma_sent_commands_add(seq![qx], seq![qy]);
            lemma_sent_commands_add(seq![qx, qy], send);
            assert(sent_commands(motion_actions(mode, h)) =~= motion_commands(mode, h));
        } else if mode == MouseMode::Absolute {
            let a = InputAction::Send(absolute_command(h.x, h.y));
            lemma_sent_commands_unit(a);
            assert(seq![px, py, a] =~= seq![px] + seq![py] + seq![a]);
            lemma_sent_commands_add(seq![px], seq![py]);
            lemma_sent_commands_add(seq![px] + seq![py], seq![a]);
            assert(sent_commands(motion_actions(mode, h)) =~= motion_commands(mode, h));
        }
    }
}

/// Within one tick the commands sent are the button update, if the host
/// had a button sample, then the motion update, if any; nothing else, and
/// nothing at all when the input lock is not granted.
pub proof fn lemma_tick_command_order(mode: MouseMode, h: HostMouse)
    ensures
        sent_commands(tick_actions(mode, h)) == if h.lock == 0 {
            Seq::<MouseCommand>::empty()
        } else {
            button_commands(h) + motion_commands(mode, h)
        },
{
    lemma_tick_follows_plan(mode, h);
    let acq = InputAction::Query(HostQuery::AcquireLock);
    let btn = InputAction::Query(HostQuery::ButtonState);
    let hp = InputAction::Query(HostQuery::HasPosition);
    let rel = InputAction::Query(HostQuery::ReleaseLock);
    let fin = InputAction::Finish;
    lemma_sent_commands_unit(acq);
    lemma_sent_commands_unit(btn);
    lemma_sent_commands_unit(hp);
    lemma_sent_commands_unit(rel);
    lemma_sent_commands_unit(fin);
    if h.lock == 0 {
        assert(seq![acq, fin] =~= seq![acq] + seq![fin]);
        lemma_sent_commands_add(seq![acq], seq![fin]);
        assert(sent_commands(tick_actions(mode, h)) =~= Seq::<MouseCommand>::empty());
    } else {
        let p1 = seq![acq] + seq![btn];
        let p2 = p1 + button_actions(h);
        let p3 = p2 + seq![hp];
        let p4 = p3 + motion_actions(mode, h);
        let p5 = p4 + (seq![rel] + seq![fin]);
        assert(seq![acq, btn] =~= p1);
        assert(seq![rel, fin] =~= seq![rel] + seq![fin]);
        assert(tick_plan(mode, h) =~= p5);
        lemma_sent_commands_add(seq![acq], seq![btn]);
        lemma_sent_commands_add(p1, button_actions(h));
        lemma_button_actions_sent(h);
        lemma_sent_commands_add(p2, seq![hp]);
        lemma_sent_commands_add(p3, motion_actions(mode, h));
        lemma_motion_actions_sent(mode, h);
        lemma_sent_commands_add(seq![rel], seq![fin]);
        lemma_sent_commands_add(p4, seq![rel] + seq![fin]);
        assert(sent_commands(tick_actions(mode, h)) =~= button_commands(h) + motion_commands(
            mode,
            h,
        ));
    }
}

/// A granted input lock is released exactly once, as the last host call of
/// the tick; a lock that was not granted is never released.
pub proof fn lemma_lock_released_once(mode: MouseMode, h: HostMouse)
    ensures
        ({
            let t = tick_actions(mode, h);
            let release = InputAction::Query(HostQuery::ReleaseLock);
            &&& t[0] == InputAction::Query(HostQuery::AcquireLock)
            &&& t.last() == InputAction::Finish
            &&& h.lock != 0 ==> t.len() >= 3 && t[t.len() - 2] == release && forall|i: int|
                0 <= i < t.len() - 2 ==> t[i] != release
            &&& h.lock == 0 ==> forall|i: int| 0 <= i < t.len() ==> t[i] != release
        }),
{
    lemma_tick_follows_plan(mode, h);
    let t = tick_actions(mode, h);
    if h.lock != 0 {
        let body = seq![InputAction::Query(HostQuery::AcquireLock), InputAction::Query(HostQuery::ButtonState)]
            + button_actions(h) + seq![InputAction::Query(HostQuery::HasPosition)]
            + motion_actions(mode, h);
        assert(t =~= body + seq![InputAction::Query(HostQuery::ReleaseLock), InputAction::Finish]);
        assert forall|i: int| 0 <= i < t.len() - 2 implies t[i] != InputAction::Query(
            HostQuery::ReleaseLock,
        ) by {
            assert(t[i] == body[i]);
        }
    }
}

/// The commands of a tick obey the mode: in `Disabled` only button
/// updates, in `RelativeHw` no absolute update, in `Absolute` no relative
/// motion (only the zero-motion button update is relative).
pub proof fn lemma_mode_gating(mode: MouseMode, h: HostMouse)
    ensures
        forall|i: int|
            #![trigger sent_commands(tick_actions(mode, h))[i]]
            0 <= i < sent_commands(tick_actions(mode, h)).len() ==> {
                let c = sent_commands(tick_actions(mode, h))[i];
                &&& mode == MouseMode::Disabled ==> c == button_command(h.button)
                &&& mode == MouseMode::RelativeHw ==> c is Relative
                &&& mode == MouseMode::Absolute ==> (c is Absolute || c == button_command(h.button))
            },
{
    lemma_tick_command_order(mode, h);
}

/// Emitted relative motion is the host delta clamped to the signed 16-bit
/// range, and emitted absolute positions are the host position clamped to
/// the unsigned 16-bit range.
pub proof fn lemma_clamping(mode: MouseMode, h: HostMouse)
    ensures
        forall|i: int|
            #![trigger sent_commands(tick_actions(mode, h))[i]]
            0 <= i < sent_commands(tick_actions(mode, h)).len() ==> match sent_commands(
                tick_actions(mode, h),
            )[i] {
                MouseCommand::Relative { relx, rely, btn } => {
                    &&& -32768 <= relx <= 32767
                    &&& -32768 <= rely <= 32767
                    &&& btn is None ==> relx == clamp_spec(h.dx as int, -32768, 32767)
                        && rely == clamp_spec(h.dy as int, -32768, 32767)
                },
                MouseCommand::Absolute { x, y } => {
                    &&& x == clamp_spec(h.x as int, 0, 65535)
                    &&& y == clamp_spec(h.y as int, 0, 65535)
                },
            },
{
    lemma_tick_command_order(mode, h);
}

/// Samples host mouse state under the host's input lock.
pub struct Receiver {
    mouse_mode: MouseMode,
}

impl Receiver {
    pub fn new(mouse_mode: MouseMode) -> (r: Self)
        ensures
            r.mode() == mouse_mode,
    {
        Receiver { mouse_mode }
    }

    pub closed spec fn mode(&self) -> MouseMode {
        self.mouse_mode
    }

    pub fn mouse_mode(&self) -> (r: MouseMode)
        ensures
            r == self.mode(),
    {
        self.mouse_mode
    }

    /// Advances an input tick by one exchange with the host. A tick starts
    /// in `InputState::Start` and ends when the action is `Finish`; `reply`
    /// is the host's answer to the previous `Query` (any value otherwise).
    pub fn tick(&self, state: InputState, reply: i32) -> (r: (InputState, InputAction))
        ensures
            r == next_step(self.mode(), state, reply),
    {
        match state {
            InputState::Start => (InputState::AwaitLock, InputAction::Query(HostQuery::AcquireLock)),
            InputState::AwaitLock => {
                if reply == 0 {
                    (InputState::Done, InputAction::Finish)
                } else {
                    (InputState::AwaitButton, InputAction::Query(HostQuery::ButtonState))
                }
            },
            InputState::AwaitButton => {
                if reply > -1 {
                    let cmd = MouseCommand::Relative { relx: 0, rely: 0, btn: Some(reply != 0) };
                    (InputState::SentButton, InputAction::Send(cmd))
                } else {
                    (InputState::AwaitHasPosition, InputAction::Query(HostQuery::HasPosition))
                }
            },
            InputState::SentButton => (
                InputState::AwaitHasPosition,
                InputAction::Query(HostQuery::HasPosition),
            ),
            InputState::AwaitHasPosition => {
                if reply == 0 {
                    (InputState::Releasing, InputAction::Query(HostQuery::ReleaseLock))
                } else {
                    match self.mouse_mode {
                        MouseMode::RelativeHw => (
                            InputState::AwaitDeltaX,
                            InputAction::Query(HostQuery::DeltaX),
                        ),
                        MouseMode::Absolute => (
                            InputState::AwaitPositionX,
                            InputAction::Query(HostQuery::PositionX),
                        ),
                        MouseMode::Disabled => (
                            InputState::Releasing,
                            InputAction::Query(HostQuery::ReleaseLock),
                        ),
                    }
                }
            },
            InputState::AwaitDeltaX => (
                InputState::AwaitDeltaY(reply),
                InputAction::Query(HostQuery::DeltaY),
            ),
            InputState::AwaitDeltaY(dx) => {
                if dx != 0 || reply != 0 {
                    let relx = clamp_i32_to_i16(dx);
                    let rely = clamp_i32_to_i16(reply);
                    let cmd = MouseCommand::Relative { relx, rely, btn: None };
                    (InputState::SentMotion, InputAction::Send(cmd))
                } else {
                    (InputState::Releasing, InputAction::Query(HostQuery::ReleaseLock))
                }
            },
            InputState::AwaitPositionX => (
                InputState::AwaitPositionY(reply),
                InputAction::Query(HostQuery::PositionY),
            ),
            InputState::AwaitPositionY(x) => {
                let cmd = MouseCommand::Absolute {
                    x: clamp_i32_to_u16(x),
                    y: clamp_i32_to_u16(reply),
                };
                (InputState::SentMotion, InputAction::Send(cmd))
            },
            InputState::SentMotion => (
                InputState::Releasing,
                InputAction::Query(HostQuery::ReleaseLock),
            ),
            InputState::Releasing => (InputState::Done, InputAction::Finish),
            InputState::Done => (InputState::Done, InputAction::Finish),
        }
    }
}

} // verus!
