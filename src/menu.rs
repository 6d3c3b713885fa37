use vstd::prelude::*;

use crate::key::{is_quit_key, Key};

verus! {

/// Number of entries in the tea menu.
pub const MENU_LEN: usize = 5;

/// Value at which a brew is complete.
pub const PROGRESS_MAX: u16 = 100;

/// Milliseconds between two steps of brewing progress.
pub const TICK_MS: u64 = 100;

/// The state of the application, as seen by contracts.
pub struct AppView {
    pub exit: bool,
    pub selected: nat,
    pub progress: nat,
    pub steeping: bool,
    pub last_tick: nat,
}

/// The application state: menu selection, brewing progress and quit flag.
///
/// Times are clock readings in milliseconds, taken from a monotonic clock
/// whose zero is when the application started.
#[derive(Debug)]
pub struct App {
    exit: bool,
    selected: usize,
    progressbar: u16,
    steeping: bool,
    last_tick: u64,
}

/// A valid state: the selection names a menu entry, progress is at most
/// complete, and a brew in flight has not yet completed.
pub open spec fn app_wf(s: AppView) -> bool {
    &&& s.selected < MENU_LEN
    &&& s.progress <= PROGRESS_MAX
    &&& s.steeping ==> s.progress < PROGRESS_MAX
}

/// The state at startup.
pub open spec fn initial_state() -> AppView {
    AppView { exit: false, selected: 0, progress: 0, steeping: false, last_tick: 0 }
}

/// Selection after moving up: one entry up, staying at the first entry.
pub open spec fn selection_up(i: nat) -> nat {
    if i > 0 { (i - 1) as nat } else { i }
}

/// Selection after moving down: one entry down, staying at the last entry.
pub open spec fn selection_down(i: nat) -> nat {
    if i + 1 < MENU_LEN { i + 1 } else { i }
}

/// The state after a key press.
pub open spec fn key_step(s: AppView, key: Key) -> AppView {
    if is_quit_key(key) {
        AppView { exit: true, ..s }
    } else {
        match key {
            Key::Up => AppView { selected: selection_up(s.selected), ..s },
            Key::Down => AppView { selected: selection_down(s.selected), ..s },
            Key::Enter => if s.steeping {
                s
            } else {
                AppView { steeping: true, progress: 0, ..s }
            },
            _ => s,
        }
    }
}

/// Whether a full tick has passed since the last progress step at time `now`.
/// A reading earlier than the last step counts as no time elapsed.
pub open spec fn tick_due(last_tick: nat, now: nat) -> bool {
    now >= last_tick + TICK_MS
}

/// The state after the clock reads `now`: while brewing, each due tick adds one
/// to the progress and restarts the tick; reaching completion ends the brew.
pub open spec fn tick_step(s: AppView, now: nat) -> AppView {
    if s.steeping && tick_due(s.last_tick, now) {
        let p = s.progress + 1;
        AppView { progress: p, steeping: p < PROGRESS_MAX, last_tick: now, ..s }
    } else {
        s
    }
}

/// One pass of the application loop: the key pressed during the poll, if any,
/// then the clock reading after it.
pub open spec fn loop_step(s: AppView, event: Option<Key>, now: nat) -> AppView {
    let k = match event {
        Some(key) => key_step(s, key),
        None => s,
    };
    tick_step(k, now)
}

/// The state after a sequence of key presses.
pub open spec fn apply_keys(s: AppView, keys: Seq<Key>) -> AppView
    decreases keys.len(),
{
    if keys.len() == 0 {
        s
    } else {
        key_step(apply_keys(s, keys.drop_last()), keys.last())
    }
}

/// The state after a sequence of clock readings.
pub open spec fn apply_ticks(s: AppView, times: Seq<nat>) -> AppView
    decreases times.len(),
{
    if times.len() == 0 {
        s
    } else {
        tick_step(apply_ticks(s, times.drop_last()), times.last())
    }
}

/// `k` clock readings, one tick apart, the first one tick after `start`.
pub open spec fn regular_ticks(start: nat, k: nat) -> Seq<nat> {
    Seq::new(k, |i: int| (start + TICK_MS * (i + 1)) as nat)
}

/// Any sequence of key presses from a valid state leaves a valid state; in
/// particular the selection always names a menu entry.
pub proof fn lemma_keys_keep_state_valid(s: AppView, keys: Seq<Key>)
    requires
        app_wf(s),
    ensures
        app_wf(apply_keys(s, keys)),
        apply_keys(s, keys).selected < MENU_LEN,
    decreases keys.len(),
{
    if keys.len() > 0 {
        lemma_keys_keep_state_valid(s, keys.drop_last());
    }
}

/// Moving up from the first entry and down from the last entry change nothing.
pub proof fn lemma_selection_clamped(s: AppView)
    requires
        app_wf(s),
    ensures
        s.selected == 0 ==> key_step(s, Key::Up) == s,
        s.selected == MENU_LEN - 1 ==> key_step(s, Key::Down) == s,
{
}

/// A quit key sets the exit flag in the pass of the loop that reads it, so the
/// loop ends there; once set, no pass of the loop clears the flag.
pub proof fn lemma_quit_ends_loop(s: AppView, event: Option<Key>, now: nat)
    requires
        app_wf(s),
    ensures
        event matches Some(key) && is_quit_key(key) ==> loop_step(s, event, now).exit,
        s.exit ==> loop_step(s, event, now).exit,
{
}

/// Enter while idle starts a brew from zero; Enter while brewing changes
/// nothing, so pressing it twice resets the progress only once.
pub proof fn lemma_enter_starts_once(s: AppView)
    requires
        app_wf(s),
    ensures
        !s.steeping ==> key_step(s, Key::Enter).steeping && key_step(s, Key::Enter).progress == 0,
        s.steeping ==> key_step(s, Key::Enter) == s,
        key_step(key_step(s, Key::Enter), Key::Enter) == key_step(s, Key::Enter),
{
}

/// Over any sequence of clock readings from a valid state, the state stays
/// valid and the progress never decreases; while no brew is in flight the
/// readings change nothing.
pub proof fn lemma_ticks_monotone(s: AppView, times: Seq<nat>)
    requires
        app_wf(s),
    ensures
        app_wf(apply_ticks(s, times)),
        apply_ticks(s, times).progress >= s.progress,
        !s.steeping ==> apply_ticks(s, times) == s,
    decreases times.len(),
{
    if times.len() > 0 {
        lemma_ticks_monotone(s, times.drop_last());
    }
}

/// While brewing, readings one tick apart add exactly one each to the
/// progress; the brew ends exactly when the progress reaches completion.
pub proof fn lemma_regular_ticks(s: AppView, k: nat)
    requires
        app_wf(s),
        s.steeping,
        s.progress + k <= PROGRESS_MAX,
    ensures
        apply_ticks(s, regular_ticks(s.last_tick, k)).progress == s.progress + k,
        apply_ticks(s, regular_ticks(s.last_tick, k)).steeping == (s.progress + k < PROGRESS_MAX),
        apply_ticks(s, regular_ticks(s.last_tick, k)).last_tick == s.last_tick + TICK_MS * k,
    decreases k,
{
    if k > 0 {
        let km1 = (k - 1) as nat;
        assert(regular_ticks(s.last_tick, k).drop_last() =~= regular_ticks(s.last_tick, km1));
        lemma_regular_ticks(s, km1);
    }
}

impl View for App {
    type V = AppView;

    closed spec fn view(&self) -> AppView {
        AppView {
            exit: self.exit,
            selected: self.selected as nat,
            progress: self.progressbar as nat,
            steeping: self.steeping,
            last_tick: self.last_tick as nat,
        }
    }
}

impl Default for App {
    fn default() -> (r: Self)
        ensures
            r@ == initial_state(),
    {
        App { exit: false, selected: 0, progressbar: 0, steeping: false, last_tick: 0 }
    }
}

impl App {
    /// Whether the state is valid.
    pub open spec fn wf(&self) -> bool {
        app_wf(self@)
    }

    /// Moves the selection one entry up; at the first entry nothing changes.
    pub fn select_previous(&mut self)
        requires
            old(self).wf(),
        ensures
            final(self)@ == (AppView { selected: selection_up(old(self)@.selected), ..old(self)@ }),
            final(self).wf(),
    {
        if self.selected > 0 {
            self.selected -= 1;
        }
    }

    /// Moves the selection one entry down; at the last entry nothing changes.
    pub fn select_next(&mut self)
        requires
            old(self).wf(),
        ensures
            final(self)@ == (AppView { selected: selection_down(old(self)@.selected), ..old(self)@ }),
            final(self).wf(),
    {
        if self.selected + 1 < MENU_LEN {
            self.selected += 1;
        }
    }

    /// Starts a brew from zero progress, unless one is already in flight.
    pub fn start_brewing(&mut self)
        requires
            old(self).wf(),
        ensures
            final(self)@ == key_step(old(self)@, Key::Enter),
            final(self).wf(),
    {
        if !self.steeping {
            self.steeping = true;
            self.progressbar = 0;
        }
    }

    /// Applies a key press: quit keys set the exit flag, Up and Down move the
    /// selection, Enter starts a brew; any other key changes nothing.
    pub fn handle_key(&mut self, key: Key)
        requires
            old(self).wf(),
        ensures
            final(self)@ == key_step(old(self)@, key),
            final(self).wf(),
    {
        match key {
            Key::Char(c) => {
                if c == 'q' || c == 'b' {
                    self.exit = true;
                }
            },
            Key::Up => self.select_previous(),
            Key::Down => self.select_next(),
            Key::Enter => self.start_brewing(),
            _ => {},
        }
    }

    /// Advances the brewing progress by one step when a full tick has passed
    /// since the last step, the clock reading `now`; completing the brew ends it.
    pub fn update_progress(&mut self, now: u64)
        requires
            old(self).wf(),
        ensures
            final(self)@ == tick_step(old(self)@, now as nat),
            final(self).wf(),
    {
        if self.steeping && now >= self.last_tick && now - self.last_tick >= TICK_MS {
            self.last_tick = now;
            self.progressbar += 1;
            if self.progressbar >= PROGRESS_MAX {
                self.steeping = false;
            }
        }
    }

    /// One pass of the application loop: applies the key pressed during the
    /// poll, if any, then the clock reading `now`. The loop runs while
    /// `exit()` is false.
    pub fn step(&mut self, event: Option<Key>, now: u64)
        requires
            old(self).wf(),
        ensures
            final(self)@ == loop_step(old(self)@, event, now as nat),
            final(self).wf(),
    {
        match event {
            Some(key) => self.handle_key(key),
            None => {},
        }
        self.update_progress(now);
    }

    /// Whether the application has been asked to quit.
    pub fn exit(&self) -> (r: bool)
        ensures
            r == self@.exit,
    {
        self.exit
    }

    /// Index of the selected menu entry.
    pub fn selected(&self) -> (r: usize)
        ensures
            r as nat == self@.selected,
    {
        self.selected
    }

    /// Brewing progress, from 0 to `PROGRESS_MAX`.
    pub fn progress(&self) -> (r: u16)
        ensures
            r as nat == self@.progress,
    {
        self.progressbar
    }

    /// Whether a brew is in flight.
    pub fn is_steeping(&self) -> (r: bool)
        ensures
            r == self@.steeping,
    {
        self.steeping
    }

    /// Clock reading of the last progress step.
    pub fn last_tick(&self) -> (r: u64)
        ensures
            r as nat == self@.last_tick,
    {
        self.last_tick
    }
}

} // verus!
