//! Clipboard history: a bounded, most-recent-first list without duplicates,
//! and the manager that feeds it from one clipboard reading per poll.

use crate::text::{is_blank, is_blank_text};
use crate::tools::{
    opt_text, output_text, text_of_output, texts, InvocationView, ToolInvocation, ToolOutput,
};
use std::collections::VecDeque;
use vstd::prelude::*;
use vstd::std_specs::cmp::PartialEqSpecImpl;
use vstd::string::StringExecFns;

verus! {

/// Most entries that the history keeps.
pub const HISTORY_LIMIT: usize = 50;

/// Seconds between two readings of the clipboard.
pub const POLL_INTERVAL_SECS: u64 = 1;

/// One remembered clipboard content with the time it was seen, in seconds
/// since the epoch.
#[derive(Debug)]
pub struct ClipboardItem {
    pub content: String,
    pub timestamp: u64,
}

/// What an item is, as plain values.
pub struct ItemView {
    pub content: Seq<char>,
    pub timestamp: u64,
}

impl View for ClipboardItem {
    type V = ItemView;

    open spec fn view(&self) -> ItemView {
        ItemView { content: self.content@, timestamp: self.timestamp }
    }
}

impl Clone for ClipboardItem {
    fn clone(&self) -> (copy: Self)
        ensures
            copy@ == self@,
    {
        ClipboardItem { content: self.content.clone(), timestamp: self.timestamp }
    }
}

impl PartialEq for ClipboardItem {
    fn eq(&self, other: &Self) -> (same: bool) {
        self.content == other.content && self.timestamp == other.timestamp
    }
}

impl PartialEqSpecImpl for ClipboardItem {
    open spec fn obeys_eq_spec() -> bool {
        true
    }

    open spec fn eq_spec(&self, other: &Self) -> bool {
        self.content@ == other.content@ && self.timestamp == other.timestamp
    }
}

/// The items of a sequence as plain values.
pub open spec fn views(items: Seq<ClipboardItem>) -> Seq<ItemView> {
    items.map_values(|item: ClipboardItem| item@)
}

/// Position of the first entry with the given content, or the length if no
/// entry has it.
pub open spec fn first_index(items: Seq<ItemView>, content: Seq<char>) -> int
    decreases items.len(),
{
    if items.len() == 0 {
        0
    } else if items[0].content == content {
        0
    } else {
        1 + first_index(items.drop_first(), content)
    }
}

/// Whether some entry has the given content.
pub open spec fn holds_content(items: Seq<ItemView>, content: Seq<char>) -> bool {
    exists|i: int| 0 <= i < items.len() && (#[trigger] items[i]).content == content
}

/// The history after an item is recorded: an entry with the same content
/// leaves its place, the item goes to the front, and the entry at the back
/// is dropped if the limit is exceeded. An item with blank content is not
/// recorded.
pub open spec fn recorded(items: Seq<ItemView>, item: ItemView) -> Seq<ItemView> {
    if is_blank(item.content) {
        items
    } else {
        let i = first_index(items, item.content);
        let kept = if i < items.len() {
            items.remove(i)
        } else {
            items
        };
        let pushed = seq![item] + kept;
        if pushed.len() > HISTORY_LIMIT {
            pushed.drop_last()
        } else {
            pushed
        }
    }
}

/// What holds of every history: it is bounded, no content occurs twice, and
/// no content is blank.
pub open spec fn well_formed(items: Seq<ItemView>) -> bool {
    &&& items.len() <= HISTORY_LIMIT
    &&& forall|i: int, j: int|
        0 <= i < j < items.len() ==> (#[trigger] items[i]).content != (#[trigger] items[j]).content
    &&& forall|i: int| 0 <= i < items.len() ==> !is_blank((#[trigger] items[i]).content)
}

/// `first_index` is the least position with the content, and the length
/// exactly when the content is absent.
pub proof fn lemma_first_index(items: Seq<ItemView>, content: Seq<char>)
    ensures
        0 <= first_index(items, content) <= items.len(),
        forall|j: int|
            0 <= j < first_index(items, content) ==> (#[trigger] items[j]).content != content,
        first_index(items, content) < items.len() ==> items[first_index(
            items,
            content,
        )].content == content,
        first_index(items, content) < items.len() <==> holds_content(items, content),
    decreases items.len(),
{
    if items.len() > 0 && items[0].content != content {
        let rest = items.drop_first();
        lemma_first_index(rest, content);
        let k = first_index(rest, content);
        assert forall|j: int| 0 <= j < k + 1 implies (#[trigger] items[j]).content != content by {
            if j > 0 {
                assert(items[j] == rest[j - 1]);
            }
        }
        if k < rest.len() {
            assert(items[k + 1] == rest[k]);
        }
        if holds_content(items, content) {
            let i = choose|i: int| 0 <= i < items.len() && (#[trigger] items[i]).content == content;
            assert(rest[i - 1] == items[i]);
        }
    } else if items.len() > 0 {
        assert(items[0].content == content);
    }
}

/// A position is `first_index` if the content stands there and nowhere
/// before.
pub proof fn lemma_first_index_is(items: Seq<ItemView>, content: Seq<char>, i: int)
    requires
        0 <= i <= items.len(),
        forall|j: int| 0 <= j < i ==> (#[trigger] items[j]).content != content,
        i < items.len() ==> items[i].content == content,
    ensures
        first_index(items, content) == i,
{
    lemma_first_index(items, content);
    let k = first_index(items, content);
    if k < i {
        assert(items[k].content == content);
    }
}

/// Recording keeps the history well formed, and an item that is not blank
/// is at the front afterwards.
pub proof fn lemma_recorded_well_formed(items: Seq<ItemView>, item: ItemView)
    requires
        well_formed(items),
    ensures
        well_formed(recorded(items, item)),
        !is_blank(item.content) ==> recorded(items, item).len() >= 1 && recorded(items, item)[0]
            == item,
{
    if !is_blank(item.content) {
        lemma_recorded_fresh(items, item);
    }
}

proof fn lemma_recorded_fresh(items: Seq<ItemView>, item: ItemView)
    requires
        well_formed(items),
        !is_blank(item.content),
    ensures
        well_formed(recorded(items, item)),
        recorded(items, item).len() >= 1,
        recorded(items, item)[0] == item,
{
    lemma_first_index(items, item.content);
    let i = first_index(items, item.content);
    let kept = if i < items.len() {
        items.remove(i)
    } else {
        items
    };
    assert forall|k: int| 0 <= k < kept.len() implies (#[trigger] kept[k]).content
        != item.content && !is_blank(kept[k].content) && exists|m: int|
        0 <= m < items.len() && items[m] == kept[k] && (m == k || m == k + 1) && (k < i ==> m == k)
            && (k >= i ==> m == k + 1 || i == items.len()) by {
        if i < items.len() {
            if k < i {
                assert(kept[k] == items[k]);
            } else {
                assert(kept[k] == items[k + 1]);
                assert(items[i].content == item.content);
            }
        } else {
            assert(kept[k] == items[k]);
            if kept[k].content == item.content {
                assert(holds_content(items, item.content));
            }
        }
    }
    assert forall|a: int, b: int| 0 <= a < b < kept.len() implies (#[trigger] kept[a]).content != (
    #[trigger] kept[b]).content by {
        if i < items.len() {
            let ma = if a < i {
                a
            } else {
                a + 1
            };
            let mb = if b < i {
                b
            } else {
                b + 1
            };
            assert(kept[a] == items[ma]);
            assert(kept[b] == items[mb]);
        }
    }
    let pushed = seq![item] + kept;
    assert forall|a: int, b: int| 0 <= a < b < pushed.len() implies (#[trigger] pushed[a]).content
        != (#[trigger] pushed[b]).content by {
        assert(pushed[b] == kept[b - 1]);
        if a > 0 {
            assert(pushed[a] == kept[a - 1]);
        }
    }
    assert forall|a: int| 0 <= a < pushed.len() implies !is_blank((#[trigger] pushed[a]).content) by {
        if a > 0 {
            assert(pushed[a] == kept[a - 1]);
        }
    }
    assert(pushed[0] == item);
    let out = recorded(items, item);
    assert forall|a: int| 0 <= a < out.len() implies #[trigger] out[a] == pushed[a] by {}
}

/// The history never exceeds its limit.
pub proof fn lemma_recorded_is_bounded(items: Seq<ItemView>, item: ItemView)
    requires
        items.len() <= HISTORY_LIMIT,
    ensures
        recorded(items, item).len() <= HISTORY_LIMIT,
{
    lemma_first_index(items, item.content);
}

/// Recording content that the history holds moves it to the front: the
/// length stays, the new item is first, and the other entries keep their
/// order. No second entry with the content remains.
pub proof fn lemma_recorded_promotes(items: Seq<ItemView>, item: ItemView)
    requires
        well_formed(items),
        holds_content(items, item.content),
    ensures
        recorded(items, item).len() == items.len(),
        recorded(items, item) == seq![item] + items.remove(first_index(items, item.content)),
        !holds_content(items.remove(first_index(items, item.content)), item.content),
{
    lemma_first_index(items, item.content);
    let i = first_index(items, item.content);
    assert(!is_blank(items[i].content));
    let kept = items.remove(i);
    if holds_content(kept, item.content) {
        let k = choose|k: int| 0 <= k < kept.len() && (#[trigger] kept[k]).content == item.content;
        if k < i {
            assert(kept[k] == items[k]);
        } else {
            assert(kept[k] == items[k + 1]);
            assert(items[i].content == items[k + 1].content);
        }
    }
}

/// Recording new content into a full history evicts the oldest entry, the
/// one at the back.
pub proof fn lemma_recorded_evicts_oldest(items: Seq<ItemView>, item: ItemView)
    requires
        items.len() == HISTORY_LIMIT,
        !holds_content(items, item.content),
        !is_blank(item.content),
    ensures
        recorded(items, item) == seq![item] + items.drop_last(),
{
    lemma_first_index(items, item.content);
    assert(recorded(items, item) =~= seq![item] + items.drop_last());
}

/// Recording blank content changes nothing.
pub proof fn lemma_recorded_blank_is_noop(items: Seq<ItemView>, item: ItemView)
    requires
        is_blank(item.content),
    ensures
        recorded(items, item) == items,
{
}

/// The bounded, most-recent-first history.
pub struct ClipboardHistory {
    items: VecDeque<ClipboardItem>,
}

impl View for ClipboardHistory {
    type V = Seq<ItemView>;

    closed spec fn view(&self) -> Seq<ItemView> {
        views(self.items@)
    }
}

impl ClipboardHistory {
    #[verifier::type_invariant]
    spec fn inv(self) -> bool {
        well_formed(views(self.items@))
    }

    /// An empty history.
    pub fn new() -> (h: Self)
        ensures
            h@ == Seq::<ItemView>::empty(),
    {
        let items: VecDeque<ClipboardItem> = VecDeque::with_capacity(HISTORY_LIMIT);
        assert(views(items@) =~= Seq::<ItemView>::empty());
        ClipboardHistory { items }
    }

    /// Number of entries.
    pub fn len(&self) -> (n: usize)
        ensures
            n == self@.len(),
            well_formed(self@),
    {
        proof {
            use_type_invariant(self);
        }
        self.items.len()
    }

    /// Position of the entry with the given content.
    pub fn position(&self, content: &String) -> (pos: Option<usize>)
        ensures
            match pos {
                Some(i) => i < self@.len() && i == first_index(self@, content@),
                None => !holds_content(self@, content@),
            },
    {
        proof {
            lemma_first_index(self@, content@);
        }
        Self::position_in(&self.items, content)
    }

    /// Records an item at the front. Content that the history already holds
    /// is promoted, not duplicated; past the limit the oldest entry leaves;
    /// blank content is not recorded.
    pub fn record(&mut self, item: ClipboardItem)
        ensures
            final(self)@ == recorded(old(self)@, item@),
    {
        if is_blank_text(item.content.as_str()) {
            return ;
        }
        proof {
            use_type_invariant(&*self);
            lemma_recorded_well_formed(self@, item@);
            lemma_first_index(self@, item@.content);
        }
        let ghost before = self@;
        let ghost entry = item@;
        let mut items: VecDeque<ClipboardItem> = VecDeque::new();
        std::mem::swap(&mut self.items, &mut items);
        assert(views(items@) == before);
        let found = Self::position_in(&items, &item.content);
        if let Some(pos) = found {
            items.remove(pos);
        }
        let ghost kept = views(items@);
        assert(kept =~= if first_index(before, entry.content) < before.len() {
            before.remove(first_index(before, entry.content))
        } else {
            before
        });
        items.push_front(item);
        assert(views(items@) =~= seq![entry] + kept);
        if items.len() > HISTORY_LIMIT {
            items.pop_back();
        }
        assert(views(items@) =~= recorded(before, entry));
        std::mem::swap(&mut self.items, &mut items);
    }

    fn position_in(items: &VecDeque<ClipboardItem>, content: &String) -> (pos: Option<usize>)
        ensures
            match pos {
                Some(i) => i < items@.len() && i == first_index(views(items@), content@),
                None => first_index(views(items@), content@) == items@.len(),
            },
    {
        let n = items.len();
        let mut i: usize = 0;
        while i < n
            invariant
                n == items@.len(),
                i <= n,
                forall|j: int| 0 <= j < i ==> (#[trigger] views(items@)[j]).content != content@,
            decreases n - i,
        {
            if items[i].content == *content {
                proof {
                    lemma_first_index_is(views(items@), content@, i as int);
                }
                return Some(i);
            }
            i += 1;
        }
        proof {
            lemma_first_index_is(views(items@), content@, n as int);
        }
        None
    }

    /// A copy of the entries, most recent first.
    pub fn to_vec(&self) -> (copy: Vec<ClipboardItem>)
        ensures
            views(copy@) == self@,
            well_formed(self@),
    {
        proof {
            use_type_invariant(self);
        }
        let n = self.items.len();
        let mut copy: Vec<ClipboardItem> = Vec::new();
        let mut i: usize = 0;
        while i < n
            invariant
                n == self.items@.len(),
                i <= n,
                copy@.len() == i,
                forall|j: int| 0 <= j < i ==> (#[trigger] copy@[j])@ == self.items@[j]@,
            decreases n - i,
        {
            copy.push(self.items[i].clone());
            i += 1;
        }
        assert(views(copy@) =~= views(self.items@));
        copy
    }
}

/// What a manager is, as plain values.
pub struct ManagerView {
    /// The history, most recent first.
    pub history: Seq<ItemView>,
    /// The content that the last effective reading held.
    pub last_content: Seq<char>,
    /// Whether a poller is meant to run.
    pub running: bool,
    /// Whether a poller was spawned and has not yet been told to leave.
    pub poller_alive: bool,
}

impl ManagerView {
    /// Whether a reading makes the manager record something: it must have
    /// succeeded, differ from the last one recorded, and not be blank.
    pub open spec fn accepts(self, reading: Option<Seq<char>>) -> bool {
        reading matches Some(content) && content != self.last_content && !is_blank(content)
    }

    /// The manager after one reading of the clipboard at time `now`. A
    /// failed, unchanged or blank reading leaves everything as it was.
    pub open spec fn after_reading(self, reading: Option<Seq<char>>, now: u64) -> ManagerView {
        if self.accepts(reading) {
            ManagerView {
                history: recorded(
                    self.history,
                    ItemView { content: reading->Some_0, timestamp: now },
                ),
                last_content: reading->Some_0,
                running: self.running,
                poller_alive: self.poller_alive,
            }
        } else {
            self
        }
    }

    /// Whether `start` asks for a new poller: only if the manager is stopped
    /// and no poller is alive. A poller that was stopped and has not yet
    /// reached its next cycle is alive, and takes up the work again.
    pub open spec fn start_spawns(self) -> bool {
        !self.running && !self.poller_alive
    }

    /// The manager after `start`: running, with a poller alive. A manager
    /// that runs already is left as it is.
    pub open spec fn after_start(self) -> ManagerView {
        if self.running {
            self
        } else {
            ManagerView { running: true, poller_alive: true, ..self }
        }
    }

    /// The manager after `stop`.
    pub open spec fn after_stop(self) -> ManagerView {
        ManagerView { running: false, ..self }
    }

    /// The manager after a poller asked at the top of its cycle whether to
    /// go on: a poller that is told to leave is no longer alive.
    pub open spec fn after_cycle(self) -> ManagerView {
        if self.running {
            self
        } else {
            ManagerView { poller_alive: false, ..self }
        }
    }
}

/// The current time in whole seconds since the epoch, from
/// `std::time::SystemTime::now`; nothing if the clock stands before the
/// epoch. Nothing is claimed of the value.
#[verifier::external_body]
fn clock_seconds() -> (now: Option<u64>) {
    match std::time::SystemTime::now().duration_since(std::time::UNIX_EPOCH) {
        Ok(elapsed) => Some(elapsed.as_secs()),
        Err(_) => None,
    }
}

/// The time to stamp an entry with: what the clock says, or zero if it
/// stands before the epoch.
pub fn epoch_seconds(clock: Option<u64>) -> (now: u64)
    ensures
        now == match clock {
            Some(t) => t,
            None => 0,
        },
{
    match clock {
        Some(t) => t,
        None => 0,
    }
}

/// Owner of the history, of the last content seen, of the running flag and
/// of the knowledge whether a poller is alive.
pub struct ClipboardManager {
    history: ClipboardHistory,
    last_content: String,
    running: bool,
    poller_alive: bool,
}

impl View for ClipboardManager {
    type V = ManagerView;

    closed spec fn view(&self) -> ManagerView {
        ManagerView {
            history: self.history@,
            last_content: self.last_content@,
            running: self.running,
            poller_alive: self.poller_alive,
        }
    }
}

impl ClipboardManager {
    /// A stopped manager with an empty history.
    pub fn new() -> (m: Self)
        ensures
            m@ == (ManagerView {
                history: Seq::empty(),
                last_content: Seq::empty(),
                running: false,
                poller_alive: false,
            }),
    {
        ClipboardManager {
            history: ClipboardHistory::new(),
            last_content: String::new(),
            running: false,
            poller_alive: false,
        }
    }

    /// Marks the manager as running and says whether the caller must spawn
    /// a poller: only if it was stopped and no poller is alive. After a stop
    /// the poller stays alive until its next cycle; a start before that
    /// spawns none, and the poller that is there goes on.
    pub fn start(&mut self) -> (spawn: bool)
        ensures
            spawn == old(self)@.start_spawns(),
            final(self)@ == old(self)@.after_start(),
    {
        if self.running {
            return false;
        }
        self.running = true;
        if self.poller_alive {
            return false;
        }
        self.poller_alive = true;
        true
    }

    /// Marks the manager as stopped; the poller leaves at its next cycle.
    pub fn stop(&mut self)
        ensures
            final(self)@ == old(self)@.after_stop(),
    {
        self.running = false;
    }

    /// Whether a poller is meant to run.
    pub fn is_running(&self) -> (running: bool)
        ensures
            running == self@.running,
    {
        self.running
    }

    /// Asked by the poller at the top of each cycle: whether to go on. A
    /// poller that is told no must leave, and counts as gone from then on.
    pub fn should_continue(&mut self) -> (go: bool)
        ensures
            go == old(self)@.running,
            final(self)@ == old(self)@.after_cycle(),
    {
        if self.running {
            true
        } else {
            self.poller_alive = false;
            false
        }
    }

    /// A copy of the history, most recent first.
    pub fn get_history(&self) -> (copy: Vec<ClipboardItem>)
        ensures
            views(copy@) == self@.history,
            well_formed(self@.history),
    {
        self.history.to_vec()
    }

    /// One poll cycle on a reading taken at time `now`: records the content
    /// if the reading succeeded, changed and is not blank. Says whether it
    /// recorded.
    pub fn observe(&mut self, reading: Option<String>, now: u64) -> (recorded: bool)
        ensures
            recorded == old(self)@.accepts(opt_text(reading)),
            final(self)@ == old(self)@.after_reading(opt_text(reading), now),
            well_formed(final(self)@.history),
    {
        proof {
            use_type_invariant(&self.history);
        }
        match reading {
            None => false,
            Some(content) => {
                if self.last_content == content || is_blank_text(content.as_str()) {
                    false
                } else {
                    self.last_content = content.clone();
                    self.history.record(ClipboardItem { content, timestamp: now });
                    proof {
                        use_type_invariant(&self.history);
                    }
                    true
                }
            },
        }
    }

    /// One poll cycle on a reading taken now. The entry, if one is recorded,
    /// carries the time that the clock gave.
    pub fn poll(&mut self, reading: Option<String>) -> (recorded: bool)
        ensures
            recorded == old(self)@.accepts(opt_text(reading)),
            exists|now: u64| final(self)@ == old(self)@.after_reading(opt_text(reading), now),
            well_formed(final(self)@.history),
    {
        let now = epoch_seconds(clock_seconds());
        self.observe(reading, now)
    }
}

impl Default for ClipboardManager {
    fn default() -> (m: Self)
        ensures
            m@ == (ManagerView {
                history: Seq::empty(),
                last_content: Seq::empty(),
                running: false,
                poller_alive: false,
            }),
    {
        ClipboardManager::new()
    }
}

/// Starting is idempotent: a manager that runs asks for no second poller,
/// and starting it again changes nothing.
pub proof fn lemma_start_is_idempotent(m: ManagerView)
    ensures
        !m.after_start().start_spawns(),
        m.after_start().after_start() == m.after_start(),
        m.running ==> !m.start_spawns() && m.after_start() == m,
{
}

/// A stop followed at once by a start spawns no second poller: the poller
/// that was alive is still alive, and the manager runs again.
pub proof fn lemma_restart_spawns_nothing(m: ManagerView)
    requires
        m.poller_alive,
    ensures
        !m.after_stop().start_spawns(),
        m.after_stop().after_start().running,
        m.after_stop().after_start().poller_alive,
{
}

/// One thing that happens in the life of the poller.
#[derive(Debug, Clone, Copy, PartialEq, Eq, Structural)]
pub enum PollerEvent {
    /// `start` is called, and a poller is spawned if it says so.
    Start,
    /// `stop` is called.
    Stop,
    /// A poller that is alive reaches the top of its cycle and calls
    /// `should_continue`; it leaves if the answer is no.
    Cycle,
}

/// The manager together with the number of poller threads alive.
pub struct PollerState {
    pub manager: ManagerView,
    pub pollers: nat,
}

/// The life cycle after one event.
pub open spec fn poller_step(s: PollerState, e: PollerEvent) -> PollerState {
    match e {
        PollerEvent::Start => PollerState {
            manager: s.manager.after_start(),
            pollers: if s.manager.start_spawns() {
                s.pollers + 1
            } else {
                s.pollers
            },
        },
        PollerEvent::Stop => PollerState { manager: s.manager.after_stop(), pollers: s.pollers },
        PollerEvent::Cycle => if s.pollers > 0 {
            PollerState {
                manager: s.manager.after_cycle(),
                pollers: if s.manager.running {
                    s.pollers
                } else {
                    (s.pollers - 1) as nat
                },
            }
        } else {
            s
        },
    }
}

/// The life cycle after a history of events, from a new manager.
pub open spec fn poller_run(trace: Seq<PollerEvent>) -> PollerState
    decreases trace.len(),
{
    if trace.len() == 0 {
        PollerState {
            manager: ManagerView {
                history: Seq::empty(),
                last_content: Seq::empty(),
                running: false,
                poller_alive: false,
            },
            pollers: 0,
        }
    } else {
        poller_step(poller_run(trace.drop_last()), trace.last())
    }
}

/// After every history of starts, stops and cycles at most one poller is
/// alive: exactly one while the manager knows of one, which it does
/// whenever it runs, and none otherwise.
pub proof fn lemma_at_most_one_poller(trace: Seq<PollerEvent>)
    ensures
        poller_run(trace).pollers <= 1,
        poller_run(trace).pollers == 1 <==> poller_run(trace).manager.poller_alive,
        poller_run(trace).manager.running ==> poller_run(trace).manager.poller_alive,
    decreases trace.len(),
{
    if trace.len() > 0 {
        lemma_at_most_one_poller(trace.drop_last());
    }
}

/// A stop followed at once by a start, after any history, leaves the number
/// of pollers as it was: the start spawns nothing while the stopped poller
/// has not reached its next cycle.
pub proof fn lemma_stop_then_start_keeps_the_poller(trace: Seq<PollerEvent>)
    requires
        poller_run(trace).manager.running,
    ensures
        ({
            let restarted = trace.push(PollerEvent::Stop).push(PollerEvent::Start);
            &&& poller_run(restarted).pollers == poller_run(trace).pollers
            &&& poller_run(restarted).pollers == 1
            &&& poller_run(restarted).manager.running
        }),
{
    let stopped = trace.push(PollerEvent::Stop);
    let restarted = stopped.push(PollerEvent::Start);
    assert(stopped.drop_last() =~= trace);
    assert(restarted.drop_last() =~= stopped);
    assert(poller_run(stopped) == poller_step(poller_run(trace), PollerEvent::Stop));
    assert(poller_run(restarted) == poller_step(poller_run(stopped), PollerEvent::Start));
    lemma_at_most_one_poller(trace);
}

/// A blank reading is a no-op, and so is a failed or an unchanged one.
pub proof fn lemma_blank_reading_is_noop(m: ManagerView, content: Seq<char>, now: u64)
    ensures
        is_blank(content) ==> m.after_reading(Some(content), now) == m,
        m.after_reading(Some(m.last_content), now) == m,
        m.after_reading(None, now) == m,
{
}

/// Whatever is read, a well-formed history stays well formed: at most fifty
/// entries, no content twice, none blank.
pub proof fn lemma_reading_keeps_well_formed(m: ManagerView, reading: Option<Seq<char>>, now: u64)
    requires
        well_formed(m.history),
    ensures
        well_formed(m.after_reading(reading, now).history),
        m.after_reading(reading, now).history.len() <= HISTORY_LIMIT,
{
    if m.accepts(reading) {
        lemma_recorded_well_formed(
            m.history,
            ItemView { content: reading->Some_0, timestamp: now },
        );
    }
}

/// The tool that reads the clipboard at a given attempt, as plain values:
/// first `wl-paste`, then `xclip`; no third.
pub open spec fn read_tool_of(attempt: nat) -> Option<InvocationView> {
    if attempt == 0 {
        Some(InvocationView { program: "wl-paste"@, args: seq!["--no-newline"@] })
    } else if attempt == 1 {
        Some(
            InvocationView {
                program: "xclip"@,
                args: seq!["-selection"@, "clipboard"@, "-o"@],
            },
        )
    } else {
        None
    }
}

/// The tool to try at a given attempt to read the clipboard.
pub fn read_tool(attempt: usize) -> (inv: Option<ToolInvocation>)
    ensures
        crate::shell::opt_invocation(inv) == read_tool_of(attempt as nat),
{
    if attempt == 0 {
        let args = vec![String::from_str("--no-newline")];
        assert(texts(args@) =~= seq!["--no-newline"@]);
        Some(ToolInvocation { program: String::from_str("wl-paste"), args })
    } else if attempt == 1 {
        let args = vec![
            String::from_str("-selection"),
            String::from_str("clipboard"),
            String::from_str("-o"),
        ];
        assert(texts(args@) =~= seq!["-selection"@, "clipboard"@, "-o"@]);
        Some(ToolInvocation { program: String::from_str("xclip"), args })
    } else {
        None
    }
}

/// The reading that one attempt gives: the text that the tool printed, if
/// it ran, succeeded and printed valid UTF-8. Without a reading the next
/// tool is tried.
pub fn get_system_clipboard(output: Option<ToolOutput>) -> (reading: Option<String>)
    ensures
        opt_text(reading) == match output {
            Some(out) => output_text(out.success, out.stdout@),
            None => None,
        },
{
    match output {
        Some(out) => text_of_output(out),
        None => None,
    }
}

} // verus!
