//! The mood journal engine: a single-choice selector over four fixed moods.
//!
//! The journal is either still selecting (a cursor over the mood row) or has
//! decided on a mood. Its key handling is stated as a spec-level transition
//! (`mood_step`, with `mood_consumed` telling whether the key was
//! recognized), and the exec handler is proved to implement it exactly.

use crate::key::Key;
use vstd::prelude::*;

verus! {

/// The four fixed moods, in cursor order.
#[derive(Clone, Copy, Debug, PartialEq, Eq, Structural)]
pub enum Mood {
    Angry,
    Sad,
    Neutral,
    Happy,
}

/// The fixed mood row, in the order the cursor walks it.
pub open spec fn all_moods() -> Seq<Mood> {
    seq![Mood::Angry, Mood::Sad, Mood::Neutral, Mood::Happy]
}

impl Mood {
    /// Every mood, in cursor order.
    pub fn all() -> (r: Vec<Mood>)
        ensures
            r@ == all_moods(),
    {
        let r = vec![Mood::Angry, Mood::Sad, Mood::Neutral, Mood::Happy];
        proof {
            assert(r@ =~= all_moods());
        }
        r
    }

    /// The display name of this mood, as a sequence of characters.
    pub open spec fn name_spec(self) -> Seq<char> {
        match self {
            Mood::Angry => "Angry"@,
            Mood::Sad => "Sad"@,
            Mood::Neutral => "Neutral"@,
            Mood::Happy => "Happy"@,
        }
    }

    /// The display name of this mood.
    pub fn name(self) -> (r: &'static str)
        ensures
            r@ == self.name_spec(),
    {
        match self {
            Mood::Angry => "Angry",
            Mood::Sad => "Sad",
            Mood::Neutral => "Neutral",
            Mood::Happy => "Happy",
        }
    }

    /// The face glyph of this mood, as a sequence of characters.
    pub open spec fn face_spec(self) -> Seq<char> {
        match self {
            Mood::Angry => "\u{1f620}"@,
            Mood::Sad => "\u{1f622}"@,
            Mood::Neutral => "\u{1f610}"@,
            Mood::Happy => "\u{1f60a}"@,
        }
    }

    /// The face glyph of this mood.
    pub fn face(self) -> (r: &'static str)
        ensures
            r@ == self.face_spec(),
    {
        match self {
            Mood::Angry => "\u{1f620}",
            Mood::Sad => "\u{1f622}",
            Mood::Neutral => "\u{1f610}",
            Mood::Happy => "\u{1f60a}",
        }
    }
}

/// The journal state: a cursor over the mood row, and the decided mood once
/// one has been chosen. While `chosen` is set the cursor is retained but no
/// longer used for selection.
pub struct MoodJournal {
    pub cursor: usize,
    pub chosen: Option<Mood>,
}

/// What one key press does to the journal.
///
/// Left and Right move the cursor circularly, and only while no mood has
/// been chosen. A digit key chooses its mood from any state, overriding a
/// prior choice and leaving the cursor alone. Enter decides on the mood
/// under the cursor unless one is already chosen. Escape unconditionally
/// returns to the initial state. Every other key changes nothing.
pub open spec fn mood_step(m: MoodJournal, code: Key) -> MoodJournal {
    match code {
        Key::Left => if m.chosen is None {
            MoodJournal {
                cursor: if m.cursor == 0 {
                    3
                } else {
                    (m.cursor - 1) as usize
                },
                chosen: m.chosen,
            }
        } else {
            m
        },
        Key::Right => if m.chosen is None {
            MoodJournal { cursor: ((m.cursor + 1) % 4) as usize, chosen: m.chosen }
        } else {
            m
        },
        Key::Char(c) => if c == '1' {
            MoodJournal { cursor: m.cursor, chosen: Some(Mood::Angry) }
        } else if c == '2' {
            MoodJournal { cursor: m.cursor, chosen: Some(Mood::Sad) }
        } else if c == '3' {
            MoodJournal { cursor: m.cursor, chosen: Some(Mood::Neutral) }
        } else if c == '4' {
            MoodJournal { cursor: m.cursor, chosen: Some(Mood::Happy) }
        } else {
            m
        },
        Key::Enter => if m.chosen is None {
            MoodJournal { cursor: m.cursor, chosen: Some(all_moods()[m.cursor as int]) }
        } else {
            m
        },
        Key::Esc => MoodJournal { cursor: 0, chosen: None },
        _ => m,
    }
}

/// Whether the journal recognizes the key: every handled key reports
/// consumed, with the one nuance that Left and Right are only handled while
/// still selecting.
pub open spec fn mood_consumed(m: MoodJournal, code: Key) -> bool {
    match code {
        Key::Left | Key::Right => m.chosen is None,
        Key::Char(c) => c == '1' || c == '2' || c == '3' || c == '4',
        Key::Enter => true,
        Key::Esc => true,
        _ => false,
    }
}

impl MoodJournal {
    /// The cursor always stays within the four-mood row.
    pub open spec fn wf(self) -> bool {
        self.cursor < 4
    }

    /// A fresh journal: selecting, cursor on the first mood, nothing chosen.
    pub fn new() -> (r: MoodJournal)
        ensures
            r.cursor == 0,
            r.chosen is None,
            r.wf(),
    {
        MoodJournal { cursor: 0, chosen: None }
    }

    /// Discard any choice and return the cursor to the first mood.
    pub fn reset(&mut self)
        ensures
            final(self).cursor == 0,
            final(self).chosen is None,
            final(self).wf(),
    {
        self.cursor = 0;
        self.chosen = None;
    }

    /// Apply one key press, reporting whether the journal recognized it.
    pub fn handle_key(&mut self, code: Key) -> (consumed: bool)
        requires
            old(self).wf(),
        ensures
            final(self).wf(),
            *final(self) == mood_step(*old(self), code),
            consumed == mood_consumed(*old(self), code),
    {
        match code {
            Key::Left => {
                if self.chosen.is_none() {
                    if self.cursor == 0 {
                        self.cursor = 3;
                    } else {
                        self.cursor = self.cursor - 1;
                    }
                    return true;
                }
            },
            Key::Right => {
                if self.chosen.is_none() {
                    self.cursor = (self.cursor + 1) % 4;
                    return true;
                }
            },
            Key::Char('1') => {
                self.chosen = Some(Mood::Angry);
                return true;
            },
            Key::Char('2') => {
                self.chosen = Some(Mood::Sad);
                return true;
            },
            Key::Char('3') => {
                self.chosen = Some(Mood::Neutral);
                return true;
            },
            Key::Char('4') => {
                self.chosen = Some(Mood::Happy);
                return true;
            },
            Key::Enter => {
                if self.chosen.is_none() {
                    let all = Mood::all();
                    self.chosen = Some(all[self.cursor]);
                }
                return true;
            },
            Key::Esc => {
                self.reset();
                return true;
            },
            _ => {},
        }
        false
    }
}

/// The journal's key-handling laws: Left and Right never touch the choice
/// and move the cursor only while nothing is chosen; a digit key chooses its
/// mood from any state without moving the cursor; Escape always restores the
/// initial state.
pub proof fn lemma_mood_journal_laws(m: MoodJournal, code: Key)
    ensures
        (code == Key::Left || code == Key::Right) && m.chosen is Some ==> mood_step(m, code) == m,
        (code == Key::Left || code == Key::Right) ==> mood_step(m, code).chosen == m.chosen,
        code == Key::Char('1') ==> mood_step(m, code) == (MoodJournal {
            cursor: m.cursor,
            chosen: Some(Mood::Angry),
        }),
        code == Key::Char('2') ==> mood_step(m, code) == (MoodJournal {
            cursor: m.cursor,
            chosen: Some(Mood::Sad),
        }),
        code == Key::Char('3') ==> mood_step(m, code) == (MoodJournal {
            cursor: m.cursor,
            chosen: Some(Mood::Neutral),
        }),
        code == Key::Char('4') ==> mood_step(m, code) == (MoodJournal {
            cursor: m.cursor,
            chosen: Some(Mood::Happy),
        }),
        code == Key::Esc ==> mood_step(m, code) == (MoodJournal { cursor: 0, chosen: None }),
{
}

} // verus!
