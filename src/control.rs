//! The two-mode dispatch state machine that turns button events into HID
//! actions, and the fixed teardown order of the control loop.
use vstd::prelude::*;

use crate::bt::{key_code, ConsumerKey, Key, MouseButton, LEFT_SHIFT};
use crate::gui::{InputEvent, InputKey, InputType};

verus! {

/// Which table the dispatch uses.
#[derive(Debug, Clone, Copy, PartialEq, Eq, Structural)]
pub enum Mode {
    Basic,
    Mouse,
}

/// The mode that a (Back, Short) switches to.
pub open spec fn other_mode(m: Mode) -> Mode {
    match m {
        Mode::Basic => Mode::Mouse,
        Mode::Mouse => Mode::Basic,
    }
}

/// The code under which a mode is published to the renderer.
pub open spec fn mode_code(m: Mode) -> u8 {
    match m {
        Mode::Basic => 0,
        Mode::Mouse => 1,
    }
}

impl Mode {
    /// The code under which this mode is published to the renderer.
    pub fn to_code(&self) -> (r: u8)
        ensures
            r == mode_code(*self),
    {
        match self {
            Mode::Basic => 0,
            Mode::Mouse => 1,
        }
    }

    /// The mode published under a code; no mode has any other code.
    pub fn from_code(code: u8) -> (r: Option<Mode>)
        ensures
            r matches Some(m) ==> mode_code(m) == code,
            r is None <==> code > 1,
    {
        match code {
            0 => Some(Mode::Basic),
            1 => Some(Mode::Mouse),
            _ => None,
        }
    }
}

/// An action on the HID profile.
#[derive(Debug, Clone, Copy, PartialEq, Eq, Structural)]
pub enum HidAction {
    KeyPress(Key),
    KeyRelease(Key),
    ConsumerPress(ConsumerKey),
    ConsumerRelease(ConsumerKey),
    MousePress(MouseButton),
    MouseRelease(MouseButton),
    MouseMove(i8, i8),
}

/// The event is the given transition of the given key.
pub open spec fn is_event(e: InputEvent, key: InputKey, type_: InputType) -> bool {
    e.key == key && e.type_ == type_
}

/// A long press of Back ends the control loop, in either mode.
pub open spec fn exits(e: InputEvent) -> bool {
    is_event(e, InputKey::Back, InputType::Long)
}

/// A short press of Back switches mode; nothing else does.
pub open spec fn next_mode(m: Mode, e: InputEvent) -> Mode {
    if is_event(e, InputKey::Back, InputType::Short) {
        other_mode(m)
    } else {
        m
    }
}

/// The keyboard key that a Basic-mode event taps.
pub open spec fn basic_key(e: InputEvent) -> Option<Key> {
    if is_event(e, InputKey::Center, InputType::Short) {
        Some(Key::Spacebar)
    } else if is_event(e, InputKey::Center, InputType::Long) {
        Some(Key::F)
    } else if is_event(e, InputKey::Left, InputType::Short) {
        Some(Key::LeftArrow)
    } else if is_event(e, InputKey::Right, InputType::Short) {
        Some(Key::RightArrow)
    } else if is_event(e, InputKey::Left, InputType::Long) {
        Some(Key::Other(key_code(Key::Comma) | LEFT_SHIFT))
    } else if is_event(e, InputKey::Right, InputType::Long) {
        Some(Key::Other(key_code(Key::Dot) | LEFT_SHIFT))
    } else if is_event(e, InputKey::Up, InputType::Short) {
        Some(Key::Dot)
    } else if is_event(e, InputKey::Down, InputType::Short) {
        Some(Key::Comma)
    } else {
        None
    }
}

/// The consumer-control key that a Basic-mode event taps.
pub open spec fn basic_consumer_key(e: InputEvent) -> Option<ConsumerKey> {
    if is_event(e, InputKey::Up, InputType::Long) {
        Some(ConsumerKey::VolumeIncrease)
    } else if is_event(e, InputKey::Down, InputType::Long) {
        Some(ConsumerKey::VolumeDecrease)
    } else {
        None
    }
}

/// The pointer displacement that a Mouse-mode event makes: 5 on a press of
/// a direction key, 20 on each repeat while it is held.
pub open spec fn displacement(e: InputEvent) -> Option<(i8, i8)> {
    if is_event(e, InputKey::Left, InputType::Press) {
        Some((-5i8, 0i8))
    } else if is_event(e, InputKey::Right, InputType::Press) {
        Some((5i8, 0i8))
    } else if is_event(e, InputKey::Up, InputType::Press) {
        Some((0i8, -5i8))
    } else if is_event(e, InputKey::Down, InputType::Press) {
        Some((0i8, 5i8))
    } else if is_event(e, InputKey::Left, InputType::Repeat) {
        Some((-20i8, 0i8))
    } else if is_event(e, InputKey::Right, InputType::Repeat) {
        Some((20i8, 0i8))
    } else if is_event(e, InputKey::Up, InputType::Repeat) {
        Some((0i8, -20i8))
    } else if is_event(e, InputKey::Down, InputType::Repeat) {
        Some((0i8, 20i8))
    } else {
        None
    }
}

/// Press immediately followed by release.
pub open spec fn key_tap(k: Key) -> Seq<HidAction> {
    seq![HidAction::KeyPress(k), HidAction::KeyRelease(k)]
}

/// Consumer-control press immediately followed by release.
pub open spec fn consumer_tap(k: ConsumerKey) -> Seq<HidAction> {
    seq![HidAction::ConsumerPress(k), HidAction::ConsumerRelease(k)]
}

/// The HID actions that an event causes in a mode.
pub open spec fn actions_of(m: Mode, e: InputEvent) -> Seq<HidAction> {
    if exits(e) {
        seq![]
    } else {
        match m {
            Mode::Basic => match basic_key(e) {
                Some(k) => key_tap(k),
                None => match basic_consumer_key(e) {
                    Some(c) => consumer_tap(c),
                    None => seq![],
                },
            },
            Mode::Mouse => if is_event(e, InputKey::Center, InputType::Press) {
                seq![HidAction::MousePress(MouseButton::M1)]
            } else if is_event(e, InputKey::Center, InputType::Release) {
                seq![HidAction::MouseRelease(MouseButton::M1)]
            } else {
                match displacement(e) {
                    Some((dx, dy)) => seq![HidAction::MouseMove(dx, dy)],
                    None => seq![],
                }
            },
        }
    }
}

/// The events that the dispatch table lists for a mode.
pub open spec fn listed(m: Mode, e: InputEvent) -> bool {
    exits(e) || is_event(e, InputKey::Back, InputType::Short) || match m {
        Mode::Basic => basic_key(e) is Some || basic_consumer_key(e) is Some,
        Mode::Mouse => is_event(e, InputKey::Center, InputType::Press) || is_event(
            e,
            InputKey::Center,
            InputType::Release,
        ) || displacement(e) is Some,
    }
}

/// The outcome of one event.
#[derive(Debug, Clone, PartialEq, Eq)]
pub struct Step {
    /// The control loop ends.
    pub exit: bool,
    /// The mode after the event.
    pub mode: Mode,
    /// The HID actions to perform, in order.
    pub actions: Vec<HidAction>,
}

fn tap_key(actions: &mut Vec<HidAction>, k: Key)
    ensures
        final(actions)@ == old(actions)@ + key_tap(k),
{
    actions.push(HidAction::KeyPress(k));
    actions.push(HidAction::KeyRelease(k));
}

fn tap_consumer(actions: &mut Vec<HidAction>, k: ConsumerKey)
    ensures
        final(actions)@ == old(actions)@ + consumer_tap(k),
{
    actions.push(HidAction::ConsumerPress(k));
    actions.push(HidAction::ConsumerRelease(k));
}

/// The keyboard key of a Basic-mode event.
pub fn basic_key_for(e: InputEvent) -> (r: Option<Key>)
    ensures
        r == basic_key(e),
{
    match (e.key, e.type_) {
        (InputKey::Center, InputType::Short) => Some(Key::Spacebar),
        (InputKey::Center, InputType::Long) => Some(Key::F),
        (InputKey::Left, InputType::Short) => Some(Key::LeftArrow),
        (InputKey::Right, InputType::Short) => Some(Key::RightArrow),
        (InputKey::Left, InputType::Long) => Some(Key::Comma.with_mods(
            crate::bt::KeyMods { bits: LEFT_SHIFT },
        )),
        (InputKey::Right, InputType::Long) => Some(Key::Dot.with_mods(
            crate::bt::KeyMods { bits: LEFT_SHIFT },
        )),
        (InputKey::Up, InputType::Short) => Some(Key::Dot),
        (InputKey::Down, InputType::Short) => Some(Key::Comma),
        _ => None,
    }
}

/// The consumer-control key of a Basic-mode event.
pub fn basic_consumer_key_for(e: InputEvent) -> (r: Option<ConsumerKey>)
    ensures
        r == basic_consumer_key(e),
{
    match (e.key, e.type_) {
        (InputKey::Up, InputType::Long) => Some(ConsumerKey::VolumeIncrease),
        (InputKey::Down, InputType::Long) => Some(ConsumerKey::VolumeDecrease),
        _ => None,
    }
}

/// The pointer displacement of a Mouse-mode event.
pub fn displacement_for(e: InputEvent) -> (r: Option<(i8, i8)>)
    ensures
        r == displacement(e),
{
    match (e.key, e.type_) {
        (InputKey::Left, InputType::Press) => Some((-5, 0)),
        (InputKey::Right, InputType::Press) => Some((5, 0)),
        (InputKey::Up, InputType::Press) => Some((0, -5)),
        (InputKey::Down, InputType::Press) => Some((0, 5)),
        (InputKey::Left, InputType::Repeat) => Some((-20, 0)),
        (InputKey::Right, InputType::Repeat) => Some((20, 0)),
        (InputKey::Up, InputType::Repeat) => Some((0, -20)),
        (InputKey::Down, InputType::Repeat) => Some((0, 20)),
        _ => None,
    }
}

/// Dispatches one event against the current mode.
pub fn dispatch(mode: Mode, event: InputEvent) -> (r: Step)
    ensures
        r.exit == exits(event),
        r.mode == next_mode(mode, event),
        r.actions@ == actions_of(mode, event),
{
    let mut actions: Vec<HidAction> = Vec::new();
    if let (InputKey::Back, InputType::Long) = (event.key, event.type_) {
        return Step { exit: true, mode, actions };
    }
    let mut next = mode;
    if let (InputKey::Back, InputType::Short) = (event.key, event.type_) {
        next = match mode {
            Mode::Basic => Mode::Mouse,
            Mode::Mouse => Mode::Basic,
        };
    }
    match mode {
        Mode::Basic => {
            match basic_key_for(event) {
                Some(k) => tap_key(&mut actions, k),
                None => match basic_consumer_key_for(event) {
                    Some(c) => tap_consumer(&mut actions, c),
                    None => {},
                },
            }
        },
        Mode::Mouse => {
            match (event.key, event.type_) {
                (InputKey::Center, InputType::Press) => {
                    actions.push(HidAction::MousePress(MouseButton::M1));
                },
                (InputKey::Center, InputType::Release) => {
                    actions.push(HidAction::MouseRelease(MouseButton::M1));
                },
                _ => {
                    if let Some((dx, dy)) = displacement_for(event) {
                        actions.push(HidAction::MouseMove(dx, dy));
                    }
                },
            }
        },
    }
    proof {
        assert(actions@ =~= actions_of(mode, event));
    }
    Step { exit: false, mode: next, actions }
}

/// Where a run of the control loop over a sequence of events ends: the
/// mode it is left in, and the index of the event that ended the loop.
pub open spec fn run(m: Mode, events: Seq<InputEvent>) -> (Mode, Option<int>)
    decreases events.len(),
{
    if events.len() == 0 {
        (m, None)
    } else if exits(events[0]) {
        (m, Some(0))
    } else {
        let rest = run(next_mode(m, events[0]), events.drop_first());
        (
            rest.0,
            match rest.1 {
                Some(i) => Some(i + 1),
                None => None,
            },
        )
    }
}

/// Number of (Back, Short) events in a sequence.
pub open spec fn toggles(events: Seq<InputEvent>) -> nat
    decreases events.len(),
{
    if events.len() == 0 {
        0
    } else {
        (if is_event(events[0], InputKey::Back, InputType::Short) {
            1nat
        } else {
            0nat
        }) + toggles(events.drop_first())
    }
}

/// The mode reached from `m` after `n` switches.
pub open spec fn switched(m: Mode, n: nat) -> Mode {
    if n % 2 == 0 {
        m
    } else {
        other_mode(m)
    }
}

/// The events that a run consumes: up to and including the one that ended
/// it, or all of them.
pub open spec fn consumed(m: Mode, events: Seq<InputEvent>) -> Seq<InputEvent> {
    match run(m, events).1 {
        Some(i) => events.take(i + 1),
        None => events,
    }
}

/// Over any sequence of events, the loop ends exactly at the first long
/// press of Back and at no other event, and the mode it is left in is the
/// starting mode switched once for each short press of Back before that.
pub proof fn lemma_run_exit_and_mode(m: Mode, events: Seq<InputEvent>)
    ensures
        run(m, events).1 matches Some(i) ==> 0 <= i < events.len() && exits(events[i])
            && forall|j: int| 0 <= j < i ==> !exits(#[trigger] events[j]),
        run(m, events).1 is None ==> forall|j: int|
            0 <= j < events.len() ==> !exits(#[trigger] events[j]),
        run(m, events).0 == switched(m, toggles(consumed(m, events))),
    decreases events.len(),
{
    if events.len() == 0 {
    } else if exits(events[0]) {
        let c = events.take(1);
        assert(c.drop_first() =~= Seq::<InputEvent>::empty());
        assert(toggles(c) == 0) by {
            assert(c[0] == events[0]);
            reveal_with_fuel(toggles, 2);
        }
    } else {
        let e = events[0];
        let tail = events.drop_first();
        let n = next_mode(m, e);
        lemma_run_exit_and_mode(n, tail);
        match run(n, tail).1 {
            Some(i) => {
                assert forall|j: int| 0 <= j < i + 1 implies !exits(#[trigger] events[j]) by {
                    if j > 0 {
                        assert(events[j] == tail[j - 1]);
                    }
                }
                assert(events.take(i + 2).drop_first() =~= tail.take(i + 1));
            },
            None => {
                assert forall|j: int| 0 <= j < events.len() implies !exits(#[trigger] events[j]) by {
                    if j > 0 {
                        assert(events[j] == tail[j - 1]);
                    }
                }
            },
        }
        let t = toggles(consumed(n, tail));
        if is_event(e, InputKey::Back, InputType::Short) {
            assert(switched(other_mode(m), t) == switched(m, t + 1)) by {
                assert((t + 1) % 2 == 0 <==> t % 2 == 1);
            }
        }
    }
}

/// Events outside the dispatch table cause no HID action, no mode change
/// and no exit.
pub proof fn lemma_unlisted_is_noop(m: Mode, e: InputEvent)
    requires
        !listed(m, e),
    ensures
        actions_of(m, e) == Seq::<HidAction>::empty(),
        next_mode(m, e) == m,
        !exits(e),
{
}

/// Unit step of each direction key as (x, y): Left and Up negative, Right
/// and Down positive.
pub open spec fn direction(k: InputKey) -> Option<(int, int)> {
    match k {
        InputKey::Left => Some((-1, 0)),
        InputKey::Right => Some((1, 0)),
        InputKey::Up => Some((0, -1)),
        InputKey::Down => Some((0, 1)),
        _ => None,
    }
}

/// In Mouse mode, each direction key moves the pointer by exactly 5 on a
/// press and exactly 20 on a repeat, in the key's direction.
pub proof fn lemma_displacement_magnitude(k: InputKey, t: InputType)
    requires
        direction(k) is Some,
        t == InputType::Press || t == InputType::Repeat,
    ensures
        ({
            let (ux, uy) = direction(k)->0;
            let mag: int = if t == InputType::Press { 5 } else { 20 };
            actions_of(Mode::Mouse, InputEvent { type_: t, key: k }) == seq![
                HidAction::MouseMove((ux * mag) as i8, (uy * mag) as i8),
            ]
        }),
{
}

/// The control loop's state: the current mode, and whether it has ended.
pub struct Controller {
    pub mode: Mode,
    pub exited: bool,
}

impl Controller {
    /// A loop that starts in Basic mode.
    pub fn new() -> (r: Controller)
        ensures
            r.mode == Mode::Basic,
            !r.exited,
    {
        Controller { mode: Mode::Basic, exited: false }
    }

    /// Consumes one event and returns the HID actions to perform.
    pub fn handle(&mut self, event: InputEvent) -> (actions: Vec<HidAction>)
        requires
            !old(self).exited,
        ensures
            final(self).exited == exits(event),
            final(self).mode == next_mode(old(self).mode, event),
            actions@ == actions_of(old(self).mode, event),
    {
        let step = dispatch(self.mode, event);
        self.mode = step.mode;
        self.exited = step.exit;
        step.actions
    }

    /// Consumes events in order until the loop ends, and returns how many
    /// it consumed; the actions of each are dropped.
    pub fn feed(&mut self, events: &Vec<InputEvent>) -> (n: usize)
        requires
            !old(self).exited,
        ensures
            run(old(self).mode, events@).0 == final(self).mode,
            run(old(self).mode, events@).1 matches Some(i) ==> final(self).exited && n == i + 1,
            run(old(self).mode, events@).1 is None ==> !final(self).exited && n == events.len(),
    {
        let mut i: usize = 0;
        proof {
            assert(events@.skip(0) =~= events@);
            let r = run(self.mode, events@);
            if let Some(j) = r.1 {
                assert(j + 0 == j);
            }
        }
        while i < events.len()
            invariant
                0 <= i <= events.len(),
                !self.exited,
                run(old(self).mode, events@) == ({
                    let rest = run(self.mode, events@.skip(i as int));
                    (
                        rest.0,
                        match rest.1 {
                            Some(j) => Some(j + i),
                            None => None,
                        },
                    )
                }),
            decreases events.len() - i,
        {
            let e = events[i];
            proof {
                let s = events@.skip(i as int);
                assert(s[0] == e);
                assert(s.drop_first() =~= events@.skip(i + 1));
            }
            let _ = self.handle(e);
            i = i + 1;
            if self.exited {
                return i;
            }
        }
        proof {
            assert(events@.skip(i as int) =~= Seq::<InputEvent>::empty());
        }
        i
    }
}

/// A step of the fixed teardown that follows the end of the control loop.
#[derive(Debug, Clone, Copy, PartialEq, Eq, Structural)]
pub enum TeardownStep {
    DisableViewPort,
    UnsetStatusCallback,
    Disconnect,
    RestoreDefaultKeyStoragePath,
    RestoreDefaultProfile,
}

/// The teardown order: dependents before what they depend on.
pub open spec fn teardown_order() -> Seq<TeardownStep> {
    seq![
        TeardownStep::DisableViewPort,
        TeardownStep::UnsetStatusCallback,
        TeardownStep::Disconnect,
        TeardownStep::RestoreDefaultKeyStoragePath,
        TeardownStep::RestoreDefaultProfile,
    ]
}

/// The teardown steps, in the order they must run whatever event ended
/// the loop.
pub fn teardown_steps() -> (r: Vec<TeardownStep>)
    ensures
        r@ == teardown_order(),
{
    let r = vec![
        TeardownStep::DisableViewPort,
        TeardownStep::UnsetStatusCallback,
        TeardownStep::Disconnect,
        TeardownStep::RestoreDefaultKeyStoragePath,
        TeardownStep::RestoreDefaultProfile,
    ];
    proof {
        assert(r@ =~= teardown_order());
    }
    r
}

} // verus!
