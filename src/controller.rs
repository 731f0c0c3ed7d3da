//! The controller state that the listener and the window's commands share:
//! presets, pausing, bindings, the held-key guard and the cooldown between
//! moves, with the decisions taken on each key event and each command.
use crate::command::{Command, CommandError, Notification};
use crate::bindings::{action_named, Action, Bindings};
use crate::guard::{is_held, lemma_held_press_suppressed, press_model, release_model, HeldKeys};
use crate::sound::Sound;
use crate::transpose::{plan, Transposition, TranspositionModel};
use vstd::arithmetic::div_mod::{
    lemma_add_mod_noop, lemma_mod_add_multiples_vanish, lemma_mod_twice, lemma_small_mod,
};
use vstd::prelude::*;

verus! {

/// Shortest time, in milliseconds, between two accepted moves.
pub const COOLDOWN_MS: u64 = 100;

/// The mathematical state of the controller.
pub struct ControllerModel {
    pub presets: Seq<i32>,
    pub selected: int,
    pub current: i32,
    pub paused: bool,
    pub muted: bool,
    pub key_listen: bool,
    pub scroll_value: i64,
    pub last_press: Option<u64>,
    pub bindings: Bindings,
    pub held: Map<u64, bool>,
}

impl ControllerModel {
    /// There is always a preset, and the selected index names one.
    pub open spec fn wf(self) -> bool {
        &&& self.presets.len() >= 1
        &&& 0 <= self.selected < self.presets.len()
    }
}

/// The index after `index` in a circular list of `len` presets, or before it.
pub open spec fn next_index(index: int, len: int, forward: bool) -> int {
    if forward {
        (index + 1) % len
    } else {
        (index + len - 1) % len
    }
}

/// Milliseconds from `from` to `to`; none when `to` is not later.
pub open spec fn elapsed(from: u64, to: u64) -> int {
    if to >= from {
        to - from
    } else {
        0
    }
}

/// The last accepted move was less than the cooldown before `now`.
pub open spec fn cooling(m: ControllerModel, now: u64) -> bool {
    match m.last_press {
        Some(t) => elapsed(t, now) < COOLDOWN_MS,
        None => false,
    }
}

/// A move to another preset, and the transposition that carries it out.
pub struct MovedModel {
    pub index: int,
    pub sound: Sound,
    pub plan: TranspositionModel,
}

/// The key code of a binding, or zero where it is unbound. A plan only reads
/// the key of the direction it steps in, so zero is never pressed.
pub open spec fn bound_or_zero(key: Option<u64>) -> u64 {
    match key {
        Some(k) => k,
        None => 0,
    }
}

/// Reaching `target` needs a step in a direction whose key is unbound.
pub open spec fn needs_unbound_key(m: ControllerModel, target: int) -> bool {
    ||| target > m.current && m.bindings.transpose_up is None
    ||| target < m.current && m.bindings.transpose_down is None
}

/// A move through the presets, at `now`: ignored while paused, within the
/// cooldown of the last accepted move, and when reaching the new preset
/// takes a step whose key is unbound.
pub open spec fn advance_model(m: ControllerModel, forward: bool, now: u64) -> (
    ControllerModel,
    Option<MovedModel>,
) {
    let index = next_index(m.selected, m.presets.len() as int, forward);
    let target = m.presets[index];
    if m.paused || cooling(m, now) || needs_unbound_key(m, target as int) {
        (m, None)
    } else {
        (
            ControllerModel { selected: index, current: target, last_press: Some(now), ..m },
            Some(
                MovedModel {
                    index,
                    sound: if forward {
                        Sound::Next
                    } else {
                        Sound::Previous
                    },
                    plan: plan(
                        m.current as int,
                        target as int,
                        bound_or_zero(m.bindings.transpose_up),
                        bound_or_zero(m.bindings.transpose_down),
                    ),
                },
            ),
        )
    }
}

/// Advances `times.len()` times in one direction, at the given instants.
pub open spec fn advance_times(m: ControllerModel, forward: bool, times: Seq<u64>) -> ControllerModel
    decreases times.len(),
{
    if times.len() == 0 {
        m
    } else {
        advance_times(advance_model(m, forward, times[0]).0, forward, times.drop_first())
    }
}

/// An input event, with the key code of its key.
#[derive(Clone, Copy, Debug, PartialEq, Eq, Structural)]
pub enum InputEvent {
    KeyPress(u64),
    KeyRelease(u64),
    /// Any other input: mouse moves, clicks, wheel.
    Other,
}

/// The wheel delta of one scroll-down event, for a scroll amount.
pub open spec fn scroll_delta(value: i64) -> i64 {
    if value == i64::MIN {
        i64::MAX
    } else {
        (-value) as i64
    }
}

/// The reaction to an event, in the model.
pub enum ReactionModel {
    Idle,
    IdentifyKey(u64),
    PauseToggled(bool),
    Moved(MovedModel),
}

/// The work an event hands the driver, in the model.
pub struct DispatchModel {
    pub scroll: Option<i64>,
    pub reaction: ReactionModel,
}

/// No scroll and no reaction.
pub open spec fn idle() -> DispatchModel {
    DispatchModel { scroll: None, reaction: ReactionModel::Idle }
}

/// A press of a guarded key: it fires only when the key was not held, and
/// the key is held afterwards.
pub open spec fn guarded_press(m: ControllerModel, code: u64) -> (ControllerModel, bool) {
    let (held, allowed) = press_model(m.held, code);
    (ControllerModel { held, ..m }, allowed)
}

/// A press of `code` at `now`.
pub open spec fn key_press_model(m: ControllerModel, code: u64, now: u64) -> (
    ControllerModel,
    DispatchModel,
) {
    if m.key_listen {
        (m, DispatchModel { scroll: None, reaction: ReactionModel::IdentifyKey(code) })
    } else if !m.bindings.listening() {
        (m, idle())
    } else {
        let scroll = if m.bindings.scroll_down == Some(code) && !m.paused {
            Some(scroll_delta(m.scroll_value))
        } else {
            None
        };
        if m.bindings.pause == Some(code) {
            let (m1, allowed) = guarded_press(m, code);
            if allowed && m.bindings.navigation_complete() {
                (
                    ControllerModel { paused: !m.paused, ..m1 },
                    DispatchModel { scroll, reaction: ReactionModel::PauseToggled(!m.paused) },
                )
            } else {
                (m1, DispatchModel { scroll, reaction: ReactionModel::Idle })
            }
        } else if m.bindings.next_transpose == Some(code) || m.bindings.previous_transpose == Some(
            code,
        ) {
            let forward = m.bindings.next_transpose == Some(code);
            let (m1, allowed) = guarded_press(m, code);
            if allowed {
                let (m2, mv) = advance_model(m1, forward, now);
                (
                    m2,
                    DispatchModel {
                        scroll,
                        reaction: match mv {
                            Some(x) => ReactionModel::Moved(x),
                            None => ReactionModel::Idle,
                        },
                    },
                )
            } else {
                (m1, DispatchModel { scroll, reaction: ReactionModel::Idle })
            }
        } else {
            (m, DispatchModel { scroll, reaction: ReactionModel::Idle })
        }
    }
}

/// A release of `code`: it arms the guard of a pause, next or previous key.
pub open spec fn key_release_model(m: ControllerModel, code: u64) -> ControllerModel {
    if !m.key_listen && m.bindings.listening() && (m.bindings.pause == Some(code)
        || m.bindings.next_transpose == Some(code) || m.bindings.previous_transpose == Some(code)) {
        ControllerModel { held: release_model(m.held, code), ..m }
    } else {
        m
    }
}

/// What an input event at `now` does to the state, and what it asks of the
/// driver.
pub open spec fn route_model(m: ControllerModel, event: InputEvent, now: u64) -> (
    ControllerModel,
    DispatchModel,
) {
    match event {
        InputEvent::KeyPress(code) => key_press_model(m, code, now),
        InputEvent::KeyRelease(code) => (key_release_model(m, code), idle()),
        InputEvent::Other => (m, idle()),
    }
}

/// What a command does to the state, and the notification it sends.
pub open spec fn apply_model(m: ControllerModel, cmd: Command) -> (
    ControllerModel,
    Result<Option<Notification>, CommandError>,
) {
    match cmd {
        Command::Transposes(v) => if v@.len() == 0 {
            (m, Err(CommandError::EmptyPresets))
        } else {
            (
                ControllerModel { presets: v@, selected: 0, current: v@[0], ..m },
                Ok(Some(Notification::CurrentIndex(0))),
            )
        },
        Command::SelectedIndex(i) => if i >= m.presets.len() {
            (m, Err(CommandError::IndexOutOfRange))
        } else {
            (
                ControllerModel { selected: i as int, current: m.presets[i as int], ..m },
                Ok(Some(Notification::CurrentIndex(i as usize))),
            )
        },
        Command::KeyListen(b) => (ControllerModel { key_listen: b, ..m }, Ok(None)),
        Command::Bind { name, keycode } => match action_named(name@) {
            Some(a) => (
                ControllerModel { bindings: m.bindings.with_binding(a, keycode), ..m },
                Ok(None),
            ),
            None => (m, Ok(None)),
        },
        Command::Pause(b) => (
            ControllerModel { paused: b, ..m },
            Ok(Some(Notification::Paused(b))),
        ),
        Command::Muted(b) => (ControllerModel { muted: b, ..m }, Ok(None)),
        Command::Volume => (m, Ok(None)),
        Command::ScrollValue(v) => (ControllerModel { scroll_value: v, ..m }, Ok(None)),
    }
}

/// An accepted move: the preset it selects, the sound that acknowledges it
/// and the transposition that the driver is to run.
#[derive(Debug)]
pub struct Moved {
    pub index: usize,
    pub sound: Sound,
    pub plan: Transposition,
}

impl View for Moved {
    type V = MovedModel;

    open spec fn view(&self) -> MovedModel {
        MovedModel { index: self.index as int, sound: self.sound, plan: self.plan@ }
    }
}

/// The model of a move, if there was one.
pub open spec fn moved_view(r: Option<Moved>) -> Option<MovedModel> {
    match r {
        Some(mv) => Some(mv@),
        None => None,
    }
}

/// What the driver does after an event.
#[derive(Debug)]
pub enum Reaction {
    /// Nothing.
    Idle,
    /// Report the key with this code to the window, which is choosing a key.
    IdentifyKey(u64),
    /// Pausing was toggled to this value: acknowledge it and tell the window.
    PauseToggled(bool),
    /// A move through the presets: run its transposition, acknowledge it and
    /// tell the window.
    Moved(Moved),
}

/// The work an event hands the driver: a scroll, with its wheel delta, and
/// a reaction.
#[derive(Debug)]
pub struct Dispatch {
    pub scroll: Option<i64>,
    pub reaction: Reaction,
}

impl View for Dispatch {
    type V = DispatchModel;

    open spec fn view(&self) -> DispatchModel {
        DispatchModel {
            scroll: self.scroll,
            reaction: match self.reaction {
                Reaction::Idle => ReactionModel::Idle,
                Reaction::IdentifyKey(c) => ReactionModel::IdentifyKey(c),
                Reaction::PauseToggled(b) => ReactionModel::PauseToggled(b),
                Reaction::Moved(mv) => ReactionModel::Moved(mv@),
            },
        }
    }
}

/// The shared state of the controller.
pub struct Controller {
    presets: Vec<i32>,
    selected: usize,
    current: i32,
    paused: bool,
    muted: bool,
    key_listen: bool,
    scroll_value: i64,
    last_press: Option<u64>,
    bindings: Bindings,
    held: HeldKeys,
}

impl View for Controller {
    type V = ControllerModel;

    closed spec fn view(&self) -> ControllerModel {
        ControllerModel {
            presets: self.presets@,
            selected: self.selected as int,
            current: self.current,
            paused: self.paused,
            muted: self.muted,
            key_listen: self.key_listen,
            scroll_value: self.scroll_value,
            last_press: self.last_press,
            bindings: self.bindings,
            held: self.held@,
        }
    }
}

impl Controller {
    /// The state at start: one preset at zero, paused, nothing bound.
    pub fn new() -> (r: Controller)
        ensures
            r@.presets == seq![0i32],
            r@.selected == 0,
            r@.current == 0,
            r@.paused,
            !r@.muted,
            !r@.key_listen,
            r@.scroll_value == 0,
            r@.last_press is None,
            r@.bindings == Bindings::new_model(),
            r@.held == Map::<u64, bool>::empty(),
            r@.wf(),
    {
        let r = Controller {
            presets: vec![0i32],
            selected: 0,
            current: 0,
            paused: true,
            muted: false,
            key_listen: false,
            scroll_value: 0,
            last_press: None,
            bindings: Bindings::new(),
            held: HeldKeys::new(),
        };
        proof {
            assert(r.presets@ =~= seq![0i32]);
        }
        r
    }

    pub fn presets(&self) -> (r: &Vec<i32>)
        ensures
            r@ == self@.presets,
    {
        &self.presets
    }

    pub fn selected_index(&self) -> (r: usize)
        ensures
            r == self@.selected,
    {
        self.selected
    }

    /// The pitch offset last reached.
    pub fn current_transpose(&self) -> (r: i32)
        ensures
            r == self@.current,
    {
        self.current
    }

    pub fn is_paused(&self) -> (r: bool)
        ensures
            r == self@.paused,
    {
        self.paused
    }

    pub fn is_muted(&self) -> (r: bool)
        ensures
            r == self@.muted,
    {
        self.muted
    }

    pub fn is_key_listening(&self) -> (r: bool)
        ensures
            r == self@.key_listen,
    {
        self.key_listen
    }

    pub fn scroll_value(&self) -> (r: i64)
        ensures
            r == self@.scroll_value,
    {
        self.scroll_value
    }

    /// When the last move was accepted, if one was.
    pub fn last_press(&self) -> (r: Option<u64>)
        ensures
            r == self@.last_press,
    {
        self.last_press
    }

    pub fn bindings(&self) -> (r: Bindings)
        ensures
            r == self@.bindings,
    {
        self.bindings
    }

    pub fn is_key_held(&self, code: u64) -> (r: bool)
        ensures
            r == is_held(self@.held, code),
    {
        self.held.get_key_is_held_value(code)
    }

    /// Moves to the next or the previous preset, circularly, at `now` (in
    /// milliseconds of a monotonic clock).
    fn advance(&mut self, forward: bool, now: u64) -> (r: Option<Moved>)
        requires
            old(self)@.wf(),
        ensures
            final(self)@.wf(),
            (final(self)@, moved_view(r)) == advance_model(old(self)@, forward, now),
    {
        if self.paused {
            return None;
        }
        if let Some(t) = self.last_press {
            let waited: u64 = if now >= t {
                now - t
            } else {
                0
            };
            if waited < COOLDOWN_MS {
                return None;
            }
        }
        let len = self.presets.len();
        let index = if forward {
            (self.selected + 1) % len
        } else if self.selected == 0 {
            proof {
                lemma_small_mod((len - 1) as nat, len as nat);
            }
            len - 1
        } else {
            proof {
                lemma_mod_add_multiples_vanish(self.selected - 1, len as int);
                lemma_small_mod((self.selected - 1) as nat, len as nat);
            }
            self.selected - 1
        };
        assert(index == next_index(self.selected as int, len as int, forward));
        let target = self.presets[index];
        let up = match self.bindings.transpose_up {
            Some(k) => k,
            None => {
                if target > self.current {
                    return None;
                }
                0
            },
        };
        let down = match self.bindings.transpose_down {
            Some(k) => k,
            None => {
                if target < self.current {
                    return None;
                }
                0
            },
        };
        let plan = Transposition::begin(self.current, target, up, down);
        self.selected = index;
        self.current = target;
        self.last_press = Some(now);
        Some(Moved { index, sound: Sound::for_move(forward), plan })
    }

    fn press_guarded(&mut self, code: u64) -> (allowed: bool)
        requires
            old(self)@.wf(),
        ensures
            final(self)@.wf(),
            (final(self)@, allowed) == guarded_press(old(self)@, code),
    {
        self.held.press(code)
    }

    fn key_press(&mut self, code: u64, now: u64) -> (r: Dispatch)
        requires
            old(self)@.wf(),
        ensures
            final(self)@.wf(),
            (final(self)@, r@) == key_press_model(old(self)@, code, now),
    {
        if self.key_listen {
            return Dispatch { scroll: None, reaction: Reaction::IdentifyKey(code) };
        }
        let (pause, next, previous) = match (
            self.bindings.pause,
            self.bindings.next_transpose,
            self.bindings.previous_transpose,
        ) {
            (Some(p), Some(n), Some(v)) => (p, n, v),
            _ => return Dispatch { scroll: None, reaction: Reaction::Idle },
        };
        let scroll = match self.bindings.scroll_down {
            Some(s) if s == code && !self.paused => Some(
                if self.scroll_value == i64::MIN {
                    i64::MAX
                } else {
                    -self.scroll_value
                },
            ),
            _ => None,
        };
        if code == pause {
            let allowed = self.press_guarded(code);
            if allowed && self.bindings.transpose_up.is_some()
                && self.bindings.transpose_down.is_some() {
                self.paused = !self.paused;
                Dispatch { scroll, reaction: Reaction::PauseToggled(self.paused) }
            } else {
                Dispatch { scroll, reaction: Reaction::Idle }
            }
        } else if code == next || code == previous {
            let forward = code == next;
            if self.press_guarded(code) {
                let reaction = match self.advance(forward, now) {
                    Some(mv) => Reaction::Moved(mv),
                    None => Reaction::Idle,
                };
                Dispatch { scroll, reaction }
            } else {
                Dispatch { scroll, reaction: Reaction::Idle }
            }
        } else {
            Dispatch { scroll, reaction: Reaction::Idle }
        }
    }

    fn key_release(&mut self, code: u64)
        requires
            old(self)@.wf(),
        ensures
            final(self)@.wf(),
            final(self)@ == key_release_model(old(self)@, code),
    {
        if self.key_listen {
            return;
        }
        match (self.bindings.pause, self.bindings.next_transpose, self.bindings.previous_transpose) {
            (Some(p), Some(n), Some(v)) => {
                if code == p || code == n || code == v {
                    self.held.release(code);
                }
            },
            _ => {},
        }
    }

    fn route(&mut self, event: InputEvent, now: u64) -> (r: Dispatch)
        requires
            old(self)@.wf(),
        ensures
            final(self)@.wf(),
            (final(self)@, r@) == route_model(old(self)@, event, now),
    {
        match event {
            InputEvent::KeyPress(code) => self.key_press(code, now),
            InputEvent::KeyRelease(code) => {
                self.key_release(code);
                Dispatch { scroll: None, reaction: Reaction::Idle }
            },
            InputEvent::Other => Dispatch { scroll: None, reaction: Reaction::Idle },
        }
    }

    fn apply(&mut self, cmd: Command) -> (r: Result<Option<Notification>, CommandError>)
        requires
            old(self)@.wf(),
        ensures
            final(self)@.wf(),
            (final(self)@, r) == apply_model(old(self)@, cmd),
    {
        match cmd {
            Command::Transposes(v) => {
                if v.len() == 0 {
                    return Err(CommandError::EmptyPresets);
                }
                self.selected = 0;
                self.current = v[0];
                self.presets = v;
                Ok(Some(Notification::CurrentIndex(0)))
            },
            Command::SelectedIndex(i) => {
                if i >= self.presets.len() as u64 {
                    return Err(CommandError::IndexOutOfRange);
                }
                let index = i as usize;
                self.selected = index;
                self.current = self.presets[index];
                Ok(Some(Notification::CurrentIndex(index)))
            },
            Command::KeyListen(b) => {
                self.key_listen = b;
                Ok(None)
            },
            Command::Bind { name, keycode } => {
                if let Some(action) = Action::from_name(name.as_str()) {
                    self.bindings.set_binding(action, keycode);
                }
                Ok(None)
            },
            Command::Pause(b) => {
                self.paused = b;
                Ok(Some(Notification::Paused(b)))
            },
            Command::Muted(b) => {
                self.muted = b;
                Ok(None)
            },
            Command::Volume => Ok(None),
            Command::ScrollValue(v) => {
                self.scroll_value = v;
                Ok(None)
            },
        }
    }
}

/// Handles one input event at `now`: updates the state and says what the
/// driver is to do.
pub fn callback(state: &mut Controller, event: InputEvent, now: u64) -> (r: Dispatch)
    requires
        old(state)@.wf(),
    ensures
        final(state)@.wf(),
        (final(state)@, r@) == route_model(old(state)@, event, now),
{
    state.route(event, now)
}

/// Applies one command from the window, and gives the notification to send
/// back, if any.
pub fn process_event(state: &mut Controller, cmd: Command) -> (r: Result<
    Option<Notification>,
    CommandError,
>)
    requires
        old(state)@.wf(),
    ensures
        final(state)@.wf(),
        (final(state)@, r) == apply_model(old(state)@, cmd),
{
    state.apply(cmd)
}

/// The move that the next-preset key asks for.
pub fn next_transpose_bind_fn(state: &mut Controller, now: u64) -> (r: Option<Moved>)
    requires
        old(state)@.wf(),
    ensures
        final(state)@.wf(),
        (final(state)@, moved_view(r)) == advance_model(old(state)@, true, now),
{
    state.advance(true, now)
}

/// The move that the previous-preset key asks for.
pub fn previous_transpose_bind_fn(state: &mut Controller, now: u64) -> (r: Option<Moved>)
    requires
        old(state)@.wf(),
    ensures
        final(state)@.wf(),
        (final(state)@, moved_view(r)) == advance_model(old(state)@, false, now),
{
    state.advance(false, now)
}

/// The instants are in order, each at least the cooldown after the one
/// before it, the first at least the cooldown after `last`.
pub open spec fn spaced(last: Option<u64>, times: Seq<u64>) -> bool {
    &&& (last is Some && times.len() > 0 ==> times[0] >= last.unwrap() + COOLDOWN_MS)
    &&& forall|i: int| 1 <= i < times.len() ==> #[trigger] times[i] >= times[i - 1] + COOLDOWN_MS
}

/// Moving forward k times, unpaused and with the cooldown respected, moves
/// the selection k places along the circular list.
pub proof fn lemma_advance_times_forward(m: ControllerModel, times: Seq<u64>)
    requires
        m.wf(),
        !m.paused,
        m.bindings.transpose_up is Some,
        m.bindings.transpose_down is Some,
        spaced(m.last_press, times),
    ensures
        advance_times(m, true, times).wf(),
        advance_times(m, true, times).selected == (m.selected + times.len()) % (
        m.presets.len() as int),
        advance_times(m, true, times).presets == m.presets,
    decreases times.len(),
{
    let len = m.presets.len() as int;
    if times.len() == 0 {
        lemma_small_mod(m.selected as nat, len as nat);
    } else {
        let m1 = advance_model(m, true, times[0]).0;
        let rest = times.drop_first();
        assert(m1.selected == (m.selected + 1) % len);
        assert(spaced(m1.last_press, rest)) by {
            assert forall|i: int| 1 <= i < rest.len() implies #[trigger] rest[i] >= rest[i - 1]
                + COOLDOWN_MS by {
                assert(rest[i] == times[i + 1] && rest[i - 1] == times[i]);
            }
            if rest.len() > 0 {
                assert(rest[0] == times[1]);
            }
        }
        lemma_advance_times_forward(m1, rest);
        lemma_add_mod_noop(m.selected + 1, rest.len() as int, len);
        lemma_add_mod_noop((m.selected + 1) % len, rest.len() as int, len);
        lemma_mod_twice(m.selected + 1, len);
    }
}

/// Moving forward as many times as there are presets, unpaused and with the
/// cooldown respected, comes back to the preset selected at the start.
pub proof fn lemma_full_cycle_returns(m: ControllerModel, times: Seq<u64>)
    requires
        m.wf(),
        !m.paused,
        m.bindings.transpose_up is Some,
        m.bindings.transpose_down is Some,
        spaced(m.last_press, times),
        times.len() == m.presets.len(),
    ensures
        advance_times(m, true, times).selected == m.selected,
{
    let len = m.presets.len() as int;
    lemma_advance_times_forward(m, times);
    lemma_mod_add_multiples_vanish(m.selected, len);
    lemma_small_mod(m.selected as nat, len as nat);
}

/// An accepted move that has steps to take presses the key bound to the
/// direction it steps in.
pub proof fn lemma_move_presses_bound_key(m: ControllerModel, forward: bool, now: u64)
    requires
        m.wf(),
        advance_model(m, forward, now).1 is Some,
        advance_model(m, forward, now).1.unwrap().plan.remaining > 0,
    ensures
        ({
            let p = advance_model(m, forward, now).1.unwrap().plan;
            if p.current < p.target {
                m.bindings.transpose_up == Some(p.key)
            } else {
                m.bindings.transpose_down == Some(p.key)
            }
        }),
{
}

/// Of two moves less than the cooldown apart, the second is ignored: it
/// changes nothing and asks for no transposition.
pub proof fn lemma_cooldown_ignores_second(
    m: ControllerModel,
    first: bool,
    second: bool,
    t1: u64,
    t2: u64,
)
    requires
        m.wf(),
        advance_model(m, first, t1).1 is Some,
        t2 < t1 + COOLDOWN_MS,
    ensures
        advance_model(advance_model(m, first, t1).0, second, t2) == (
            advance_model(m, first, t1).0,
            None::<MovedModel>,
        ),
{
}

/// A press of a held key that is bound to pause, next or previous neither
/// toggles pausing nor moves, and leaves the state as it was.
pub proof fn lemma_held_key_fires_nothing(m: ControllerModel, code: u64, now: u64)
    requires
        is_held(m.held, code),
        m.bindings.pause == Some(code) || m.bindings.next_transpose == Some(code)
            || m.bindings.previous_transpose == Some(code),
    ensures
        !(route_model(m, InputEvent::KeyPress(code), now).1.reaction is PauseToggled),
        !(route_model(m, InputEvent::KeyPress(code), now).1.reaction is Moved),
        route_model(m, InputEvent::KeyPress(code), now).0 == m,
{
    lemma_held_press_suppressed(m.held, code);
}

/// One release of a key bound to pause, next or previous arms its guard:
/// the next press of it passes.
pub proof fn lemma_release_arms_key(m: ControllerModel, code: u64)
    requires
        !m.key_listen,
        m.bindings.listening(),
        m.bindings.pause == Some(code) || m.bindings.next_transpose == Some(code)
            || m.bindings.previous_transpose == Some(code),
    ensures
        !is_held(key_release_model(m, code).held, code),
        guarded_press(key_release_model(m, code), code).1,
{
}

} // verus!
