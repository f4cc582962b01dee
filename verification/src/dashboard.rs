//! The dashboard controller: the ordered module list, the focus cursor, the
//! activated-module slot, and the routing of keys and clock ticks to the two
//! engines.
//!
//! Key dispatch follows a fixed precedence: navigation, activation, the
//! pomodoro start and reset commands, then quit. Whatever the global match
//! did (quit aside), the key is additionally forwarded to the mood journal
//! whenever that module is activated; this deliberate passthrough is stated
//! explicitly by `mood_forwarded` below.

use crate::key::Key;
use crate::mood_journal::{mood_step, MoodJournal};
use crate::pomodoro::{reset_step, start_step, tick_rings, tick_step, Pomodoro, PomodoroConfig};
use crate::state::InstalledModules;
use vstd::prelude::*;

verus! {

/// The first position at or after `i` where kind `k` occurs in `s`, or the
/// length of `s` when it occurs nowhere at or after `i`.
pub open spec fn first_kind_from(s: Seq<InstalledModules>, k: InstalledModules, i: int) -> int
    decreases s.len() - i,
{
    if i < 0 || i >= s.len() {
        s.len() as int
    } else if s[i] == k {
        i
    } else {
        first_kind_from(s, k, i + 1)
    }
}

/// The catalog position of kind `k`: the first slot holding it, or slot 0 as
/// a defensive default when the catalog does not contain it.
pub open spec fn kind_index(s: Seq<InstalledModules>, k: InstalledModules) -> int {
    if first_kind_from(s, k, 0) == s.len() {
        0
    } else {
        first_kind_from(s, k, 0)
    }
}

/// Circular move of the focus cursor one slot to the left.
pub open spec fn prev_cursor(c: int, n: int) -> int {
    if c == 0 {
        n - 1
    } else {
        c - 1
    }
}

/// Circular move of the focus cursor one slot to the right.
pub open spec fn next_cursor(c: int, n: int) -> int {
    (c + 1) % n
}

/// The dashboard state: the fixed ordered module catalog, the focused slot,
/// the activated slot if any, and the two engine instances.
pub struct App {
    pub modules: Vec<InstalledModules>,
    pub cursor: usize,
    pub running: Option<usize>,
    pub pomodoro: Pomodoro,
    pub mood: MoodJournal,
}

impl App {
    /// The catalog is never empty, the cursor and any activated slot are
    /// valid positions, and the mood journal is well formed.
    pub open spec fn wf(self) -> bool {
        &&& self.modules@.len() >= 1
        &&& self.cursor < self.modules@.len()
        &&& (self.running matches Some(i) ==> i < self.modules@.len())
        &&& self.mood.wf()
    }

    /// The catalog position of the pomodoro module.
    pub open spec fn pomodoro_slot(self) -> int {
        kind_index(self.modules@, InstalledModules::Pomodoro)
    }

    /// The catalog position of the mood journal module.
    pub open spec fn mood_slot(self) -> int {
        kind_index(self.modules@, InstalledModules::MoodJournal)
    }

    /// Whether the activated module is the pomodoro timer.
    pub open spec fn pomodoro_active(self) -> bool {
        self.running matches Some(i) && i as int == self.pomodoro_slot()
    }

    /// Whether the activated module is the mood journal.
    pub open spec fn mood_active(self) -> bool {
        self.running matches Some(i) && i as int == self.mood_slot()
    }
}

/// Whether a key press reaches the mood journal's handler: every key but
/// quit is forwarded whenever the mood journal is the activated module after
/// the global action (so activation itself can begin forwarding at once),
/// even when the global match already acted on the same key.
pub open spec fn mood_forwarded(s: App, code: Key) -> bool {
    if code == Key::Char('q') {
        false
    } else if code == Key::Char('p') {
        s.cursor as int == s.mood_slot()
    } else {
        s.mood_active()
    }
}

impl App {
    /// A fresh dashboard: the fixed five-module catalog, focus on the first
    /// card, nothing activated, both engines in their initial state with the
    /// pomodoro on its default configuration.
    pub fn new(now_ms: u64) -> (r: App)
        ensures
            r.wf(),
            r.modules@ == seq![
                InstalledModules::Pomodoro,
                InstalledModules::TodoList,
                InstalledModules::HabitTracker,
                InstalledModules::TimeLogger,
                InstalledModules::MoodJournal,
            ],
            r.cursor == 0,
            r.running is None,
            r.pomodoro.config.work == crate::pomodoro::DEFAULT_WORK_MS,
            r.pomodoro.config.break_ == crate::pomodoro::DEFAULT_BREAK_MS,
            r.pomodoro.phase is Work,
            r.pomodoro.remaining == crate::pomodoro::DEFAULT_WORK_MS,
            !r.pomodoro.running,
            r.pomodoro.last_tick == now_ms,
            r.mood.cursor == 0,
            r.mood.chosen is None,
    {
        let modules = vec![
            InstalledModules::Pomodoro,
            InstalledModules::TodoList,
            InstalledModules::HabitTracker,
            InstalledModules::TimeLogger,
            InstalledModules::MoodJournal,
        ];
        proof {
            assert(modules@ =~= seq![
                InstalledModules::Pomodoro,
                InstalledModules::TodoList,
                InstalledModules::HabitTracker,
                InstalledModules::TimeLogger,
                InstalledModules::MoodJournal,
            ]);
        }
        App {
            modules,
            cursor: 0,
            running: None,
            pomodoro: Pomodoro::new(PomodoroConfig::default(), now_ms),
            mood: MoodJournal::new(),
        }
    }

    /// The catalog position of the pomodoro module, scanning from the front;
    /// slot 0 when the catalog does not contain one.
    pub fn pomodoro_idx(&self) -> (r: usize)
        ensures
            r as int == self.pomodoro_slot(),
            r as int <= self.modules@.len(),
    {
        let n = self.modules.len();
        let mut i: usize = 0;
        while i < n
            invariant
                i <= n,
                n == self.modules@.len(),
                first_kind_from(self.modules@, InstalledModules::Pomodoro, 0)
                    == first_kind_from(self.modules@, InstalledModules::Pomodoro, i as int),
            decreases n - i,
        {
            if matches!(self.modules[i], InstalledModules::Pomodoro) {
                return i;
            }
            i = i + 1;
        }
        0
    }

    /// The catalog position of the mood journal module, scanning from the
    /// front; slot 0 when the catalog does not contain one.
    pub fn mood_idx(&self) -> (r: usize)
        ensures
            r as int == self.mood_slot(),
            r as int <= self.modules@.len(),
    {
        let n = self.modules.len();
        let mut i: usize = 0;
        while i < n
            invariant
                i <= n,
                n == self.modules@.len(),
                first_kind_from(self.modules@, InstalledModules::MoodJournal, 0)
                    == first_kind_from(self.modules@, InstalledModules::MoodJournal, i as int),
            decreases n - i,
        {
            if matches!(self.modules[i], InstalledModules::MoodJournal) {
                return i;
            }
            i = i + 1;
        }
        0
    }

    /// Advance time: when the pomodoro module is activated its timer ticks
    /// to the given instant; no other module consumes ticks. Returns whether
    /// the timer crossed a phase boundary, so the caller can sound the
    /// alert.
    pub fn tick(&mut self, now_ms: u64) -> (rings: bool)
        requires
            old(self).wf(),
        ensures
            final(self).wf(),
            final(self).modules@ == old(self).modules@,
            final(self).cursor == old(self).cursor,
            final(self).running == old(self).running,
            final(self).mood == old(self).mood,
            old(self).pomodoro_active() ==> final(self).pomodoro == tick_step(
                old(self).pomodoro,
                now_ms,
            ) && rings == tick_rings(old(self).pomodoro, now_ms),
            !old(self).pomodoro_active() ==> final(self).pomodoro == old(self).pomodoro && !rings,
    {
        let p_idx = self.pomodoro_idx();
        let active = match self.running {
            Some(i) => i == p_idx,
            None => false,
        };
        if active {
            self.pomodoro.tick(now_ms)
        } else {
            false
        }
    }

    /// Route one key press. Navigation moves the focus circularly, the
    /// activation key activates the focused card, start and reset reach the
    /// pomodoro only while it is the activated module, and the quit key
    /// reports quit at once. Every key but quit is additionally forwarded to
    /// the mood journal whenever it is the activated module.
    pub fn on_key(&mut self, code: Key, now_ms: u64) -> (quit: bool)
        requires
            old(self).wf(),
        ensures
            final(self).wf(),
            final(self).modules@ == old(self).modules@,
            quit == (code == Key::Char('q')),
            code == Key::Char('q') ==> *final(self) == *old(self),
            code == Key::Char(',') ==> final(self).cursor as int == prev_cursor(
                old(self).cursor as int,
                old(self).modules@.len() as int,
            ),
            code == Key::Char('.') ==> final(self).cursor as int == next_cursor(
                old(self).cursor as int,
                old(self).modules@.len() as int,
            ),
            code != Key::Char(',') && code != Key::Char('.') ==> final(self).cursor == old(
                self,
            ).cursor,
            code == Key::Char('p') ==> final(self).running == Some(old(self).cursor),
            code != Key::Char('p') ==> final(self).running == old(self).running,
            code == Key::Char('s') && old(self).pomodoro_active() ==> final(self).pomodoro
                == start_step(old(self).pomodoro, now_ms),
            code == Key::Char('r') && old(self).pomodoro_active() ==> final(self).pomodoro
                == reset_step(old(self).pomodoro),
            !(code == Key::Char('s') && old(self).pomodoro_active()) && !(code == Key::Char('r')
                && old(self).pomodoro_active()) ==> final(self).pomodoro == old(self).pomodoro,
            mood_forwarded(*old(self), code) ==> final(self).mood == mood_step(
                old(self).mood,
                code,
            ),
            !mood_forwarded(*old(self), code) ==> final(self).mood == old(self).mood,
    {
        match code {
            Key::Char(',') => {
                if self.cursor == 0 {
                    self.cursor = self.modules.len() - 1;
                } else {
                    self.cursor = self.cursor - 1;
                }
            },
            Key::Char('.') => {
                let n = self.modules.len();
                self.cursor = (self.cursor + 1) % n;
            },
            Key::Char('p') => {
                self.running = Some(self.cursor);
            },
            Key::Char('s') => {
                let p_idx = self.pomodoro_idx();
                let active = match self.running {
                    Some(i) => i == p_idx,
                    None => false,
                };
                if active {
                    self.pomodoro.start(now_ms);
                }
            },
            Key::Char('r') => {
                let p_idx = self.pomodoro_idx();
                let active = match self.running {
                    Some(i) => i == p_idx,
                    None => false,
                };
                if active {
                    self.pomodoro.reset();
                }
            },
            Key::Char('q') => {
                return true;
            },
            _ => {},
        }
        // delegate to the mood journal while it is the activated module
        let m_idx = self.mood_idx();
        let forwarded = match self.running {
            Some(i) => i == m_idx,
            None => false,
        };
        if forwarded {
            let consumed = self.mood.handle_key(code);
            if consumed {
                return false;
            }
        }
        false
    }
}

/// The extension hook for installing a module; deliberately performs
/// nothing, kept as a documented extension point.
pub fn install_module_on_zephyr(_module: InstalledModules) {
}

/// Iterated circular Next: the cursor after pressing Next `k` times in a
/// row on a catalog of `n` slots.
pub open spec fn next_n(c: int, n: int, k: nat) -> int
    decreases k,
{
    if k == 0 {
        c
    } else {
        next_cursor(next_n(c, n, (k - 1) as nat), n)
    }
}

/// Iterated Next lands on `(c + k) % n`.
proof fn lemma_next_n_mod(c: int, n: int, k: nat)
    requires
        0 <= c < n,
    ensures
        next_n(c, n, k) == (c + k) % n,
    decreases k,
{
    if k == 0 {
        vstd::arithmetic::div_mod::lemma_small_mod(c as nat, n as nat);
    } else {
        lemma_next_n_mod(c, n, (k - 1) as nat);
        vstd::arithmetic::div_mod::lemma_add_mod_noop(c + k - 1, 1, n);
        if n == 1 {
            vstd::arithmetic::div_mod::lemma_mod_self_0(n);
        } else {
            vstd::arithmetic::div_mod::lemma_small_mod(1nat, n as nat);
        }
        vstd::arithmetic::div_mod::lemma_mod_twice(c + k - 1, n);
    }
}

/// Pressing Next as many times as there are modules walks the whole row and
/// returns the cursor to its original position.
pub proof fn lemma_next_full_cycle(c: int, n: int)
    requires
        0 <= c < n,
    ensures
        next_n(c, n, n as nat) == c,
{
    lemma_next_n_mod(c, n, n as nat);
    vstd::arithmetic::div_mod::lemma_mod_add_multiples_vanish(c, n);
    vstd::arithmetic::div_mod::lemma_small_mod(c as nat, n as nat);
}

/// Previous is the exact inverse of Next: one step left undoes one step
/// right, and the other way round, at every cursor position.
pub proof fn lemma_prev_next_inverse(c: int, n: int)
    requires
        0 <= c < n,
    ensures
        prev_cursor(next_cursor(c, n), n) == c,
        next_cursor(prev_cursor(c, n), n) == c,
{
    if c + 1 < n {
        vstd::arithmetic::div_mod::lemma_small_mod((c + 1) as nat, n as nat);
    } else {
        vstd::arithmetic::div_mod::lemma_mod_self_0(n);
    }
    if c == 0 {
        vstd::arithmetic::div_mod::lemma_mod_self_0(n);
    } else {
        vstd::arithmetic::div_mod::lemma_small_mod(c as nat, n as nat);
    }
}

} // verus!
