//! Hotkey detector: two origins, a registered global key combination and a
//! process signal, merged into one edge-triggered answer per UI tick.

use vstd::prelude::*;

verus! {

/// Milliseconds between two UI ticks.
pub const TICK_INTERVAL_MS: u64 = 50;

/// Most events that one check takes from the listener's queue; what is left
/// waits for the next check.
pub const DRAIN_LIMIT: usize = 64;

/// Marker of one UI tick.
#[derive(Debug, Clone, Copy, PartialEq, Eq, Structural)]
pub struct HotkeyTick;

/// One event of the key-combination listener.
#[derive(Debug, Clone, Copy, PartialEq, Eq, Structural)]
pub struct HotkeyEvent {
    /// Identifier of the combination that the event belongs to.
    pub id: u32,
    /// `true` for key down, `false` for key up.
    pub pressed: bool,
}

/// How the attempt to register the key combination ended.
#[derive(Debug, Clone, Copy, PartialEq, Eq, Structural)]
pub enum Registration {
    /// The combination is bound to this process under the given identifier.
    Registered { id: u32 },
    /// The operating system refused the binding.
    Denied,
    /// No listener could be created on this display protocol.
    Unavailable,
}

/// Whether an event of the listener counts as the hotkey: it must be a press,
/// and of the combination that was registered.
pub open spec fn event_matches(hotkey_id: Option<u32>, event: Option<HotkeyEvent>) -> bool {
    match (hotkey_id, event) {
        (Some(id), Some(e)) => e.pressed && e.id == id,
        _ => false,
    }
}

/// Decides whether a drained event fires the hotkey.
pub fn event_fires(hotkey_id: Option<u32>, event: Option<HotkeyEvent>) -> (fired: bool)
    ensures
        fired == event_matches(hotkey_id, event),
{
    match event {
        Some(e) => {
            if e.pressed {
                match hotkey_id {
                    Some(id) => e.id == id,
                    None => false,
                }
            } else {
                false
            }
        },
        None => false,
    }
}

/// Whether some event of those drained counts as the hotkey.
pub open spec fn any_press(hotkey_id: Option<u32>, events: Seq<HotkeyEvent>) -> bool {
    exists|i: int| 0 <= i < events.len() && event_matches(hotkey_id, Some(#[trigger] events[i]))
}

/// Decides whether the drained events fire the hotkey: one press of the
/// registered combination among them is enough, wherever it stands.
pub fn events_fire(hotkey_id: Option<u32>, events: &Vec<HotkeyEvent>) -> (fired: bool)
    ensures
        fired == any_press(hotkey_id, events@),
{
    let mut i: usize = 0;
    while i < events.len()
        invariant
            i <= events.len(),
            forall|k: int| 0 <= k < i ==> !event_matches(hotkey_id, Some(#[trigger] events@[k])),
        decreases events.len() - i,
    {
        if event_fires(hotkey_id, Some(events[i])) {
            return true;
        }
        i += 1;
    }
    false
}

/// Takes one event from the queue of `global_hotkey`, without blocking:
/// `GlobalHotKeyEvent::receiver().try_recv()`. Nothing is claimed of the
/// result: it is whatever the listener has queued, or nothing.
#[verifier::external_body]
fn poll_hotkey_event() -> (event: Option<HotkeyEvent>) {
    match global_hotkey::GlobalHotKeyEvent::receiver().try_recv() {
        Ok(e) => Some(
            HotkeyEvent {
                id: e.id,
                pressed: match e.state {
                    global_hotkey::HotKeyState::Pressed => true,
                    global_hotkey::HotKeyState::Released => false,
                },
            },
        ),
        Err(_) => None,
    }
}

/// Drains the listener's queue without blocking: the events that were
/// queued, oldest first, up to the limit of one check.
fn drain_hotkey_events() -> (events: Vec<HotkeyEvent>)
    ensures
        events@.len() <= DRAIN_LIMIT,
{
    let mut events: Vec<HotkeyEvent> = Vec::new();
    while events.len() < DRAIN_LIMIT
        invariant
            events@.len() <= DRAIN_LIMIT,
        decreases DRAIN_LIMIT - events@.len(),
    {
        match poll_hotkey_event() {
            Some(e) => {
                events.push(e);
            },
            None => {
                return events;
            },
        }
    }
    events
}

/// The detector's state: the flag that the signal listener sets, and the
/// identifier of the registered combination, if registration succeeded.
#[derive(Debug, Clone, Copy, PartialEq, Eq, Structural)]
pub struct HotkeyDetector {
    pub signal_received: bool,
    pub hotkey_id: Option<u32>,
}

impl HotkeyDetector {
    /// The identifier under which events are recognised after a registration
    /// attempt: none unless the combination was registered.
    pub open spec fn id_after(registration: Registration) -> Option<u32> {
        match registration {
            Registration::Registered { id } => Some(id),
            _ => None,
        }
    }

    /// The answer of a check that drains `events` from the listener's
    /// queue.
    pub open spec fn check_result(self, events: Seq<HotkeyEvent>) -> bool {
        self.signal_received || any_press(self.hotkey_id, events)
    }

    /// The state after a check: the signal flag is cleared.
    pub open spec fn after_check(self) -> HotkeyDetector {
        HotkeyDetector { signal_received: false, ..self }
    }

    /// The state after the signal listener saw a signal.
    pub open spec fn after_signal(self) -> HotkeyDetector {
        HotkeyDetector { signal_received: true, ..self }
    }

    /// Whether a check drains the listener's queue: only when the signal
    /// flag was clear.
    pub open spec fn drains_queue(self) -> bool {
        !self.signal_received
    }

    /// A detector on which no origin has fired and no combination is bound.
    pub fn new() -> (d: Self)
        ensures
            d == (HotkeyDetector { signal_received: false, hotkey_id: None }),
    {
        HotkeyDetector { signal_received: false, hotkey_id: None }
    }

    /// Records how registration ended. A refusal is not an error: the
    /// detector then listens to the signal alone.
    pub fn set_registration(&mut self, registration: Registration)
        ensures
            *final(self) == (HotkeyDetector {
                hotkey_id: Self::id_after(registration),
                ..*old(self)
            }),
    {
        match registration {
            Registration::Registered { id } => {
                self.hotkey_id = Some(id);
            },
            Registration::Denied => {
                self.hotkey_id = None;
            },
            Registration::Unavailable => {
                self.hotkey_id = None;
            },
        }
    }

    /// Called by the signal listener on each signal: signals that arrive
    /// before the next check merge into one.
    pub fn signal(&mut self)
        ensures
            *final(self) == old(self).after_signal(),
    {
        self.signal_received = true;
    }

    /// Reads and clears the signal flag.
    pub fn take_signal(&mut self) -> (was_set: bool)
        ensures
            was_set == old(self).signal_received,
            *final(self) == old(self).after_check(),
    {
        let was_set = self.signal_received;
        self.signal_received = false;
        was_set
    }

    /// One check, given the events that draining the listener's queue
    /// gives. The signal is looked at first; the events count only if the
    /// signal flag was clear.
    pub fn check(&mut self, events: &Vec<HotkeyEvent>) -> (fired: bool)
        ensures
            fired == old(self).check_result(events@),
            *final(self) == old(self).after_check(),
    {
        if self.take_signal() {
            true
        } else {
            events_fire(self.hotkey_id, events)
        }
    }
}

impl Default for HotkeyDetector {
    fn default() -> (d: Self)
        ensures
            d == (HotkeyDetector { signal_received: false, hotkey_id: None }),
    {
        HotkeyDetector::new()
    }
}

/// Builds the detector from the outcome of the registration attempt. Never
/// fails: without a registered combination the signal still works.
pub fn init_hotkeys(registration: Registration) -> (d: HotkeyDetector)
    ensures
        d == (HotkeyDetector {
            signal_received: false,
            hotkey_id: HotkeyDetector::id_after(registration),
        }),
{
    let mut d = HotkeyDetector::new();
    d.set_registration(registration);
    d
}

/// The check of one UI tick. A pending signal fires and is cleared, and the
/// listener's queue is left alone. Otherwise the queue is drained, and the
/// check fires if a press of the registered combination was in it; without
/// a registered combination nothing from the queue fires.
pub fn check_hotkey_pressed(detector: &mut HotkeyDetector) -> (fired: bool)
    ensures
        *final(detector) == old(detector).after_check(),
        old(detector).signal_received ==> fired,
        !old(detector).signal_received ==> exists|events: Seq<HotkeyEvent>|
            events.len() <= DRAIN_LIMIT && fired == #[trigger] any_press(
                old(detector).hotkey_id,
                events,
            ),
        !old(detector).signal_received && old(detector).hotkey_id is None ==> !fired,
{
    if detector.take_signal() {
        return true;
    }
    let events = drain_hotkey_events();
    events_fire(detector.hotkey_id, &events)
}

/// The check is edge-triggered. Whatever the first check found, a second
/// check with no signal and no event in between answers no; and the first
/// answers yes when the signal had arrived or a matching press was queued,
/// whatever was queued around it.
pub proof fn lemma_check_is_edge_triggered(d: HotkeyDetector, events: Seq<HotkeyEvent>, i: int)
    ensures
        d.signal_received ==> d.check_result(events),
        0 <= i < events.len() && event_matches(d.hotkey_id, Some(events[i])) ==> d.check_result(
            events,
        ),
        !d.after_check().check_result(Seq::empty()),
        d.after_check().after_check() == d.after_check(),
{
}

/// Signals coalesce: any number of signals before a check count as one.
pub proof fn lemma_signals_coalesce(d: HotkeyDetector, events: Seq<HotkeyEvent>)
    ensures
        d.after_signal().after_signal() == d.after_signal(),
        d.after_signal().check_result(events),
        !d.after_signal().after_check().check_result(Seq::empty()),
{
}

/// Presses coalesce: several presses drained by one check count as one.
pub proof fn lemma_presses_coalesce(d: HotkeyDetector, events: Seq<HotkeyEvent>, more: Seq<HotkeyEvent>)
    requires
        d.check_result(events),
    ensures
        d.check_result(events + more),
        d.check_result(more + events),
{
    if !d.signal_received {
        let i = choose|i: int|
            0 <= i < events.len() && event_matches(d.hotkey_id, Some(#[trigger] events[i]));
        assert((events + more)[i] == events[i]);
        assert((more + events)[more.len() + i] == events[i]);
    }
}

} // verus!
