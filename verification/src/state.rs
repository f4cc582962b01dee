//! The module catalog: the closed set of modules a dashboard can host,
//! together with each module's static title and glyph art.

use vstd::prelude::*;

verus! {

/// The closed set of installed module kinds. The catalog is created once at
/// startup as a fixed ordered sequence and never changes afterwards.
#[derive(Clone, Copy, Debug, PartialEq, Eq, Structural)]
pub enum InstalledModules {
    Pomodoro,
    TodoList,
    HabitTracker,
    TimeLogger,
    MoodJournal,
}

/// A single focused module slot; kept as an extension point for views that
/// show exactly one module.
pub struct State {
    pub active_module: InstalledModules,
}

impl InstalledModules {
    /// The display title of this module kind, as a sequence of characters.
    pub open spec fn title_spec(self) -> Seq<char> {
        match self {
            InstalledModules::Pomodoro => "Pomodoro"@,
            InstalledModules::TodoList => "Todo List"@,
            InstalledModules::HabitTracker => "Habit Tracker"@,
            InstalledModules::TimeLogger => "Time Logger"@,
            InstalledModules::MoodJournal => "Mood Journal"@,
        }
    }

    /// The glyph art of this module kind: one sequence of characters per line.
    pub open spec fn ascii_spec(self) -> Seq<Seq<char>> {
        match self {
            InstalledModules::Pomodoro => seq!["  ____  "@, " | __ ) "@],
            InstalledModules::TodoList => seq![" [ ]"@, " [ ]"@],
            InstalledModules::HabitTracker => seq!["  /\u{203e}\u{203e}\\  "@, " (\u{2022}_\u{2022})"@],
            InstalledModules::TimeLogger => seq!["  \u{23f1} "@, "  \u{231b} "@],
            InstalledModules::MoodJournal => seq![" (\u{1d54}\u{1d25}\u{1d54}) "@],
        }
    }

    /// The static display title of this module kind.
    pub fn title(&self) -> (r: &'static str)
        ensures
            r@ == self.title_spec(),
    {
        match self {
            InstalledModules::Pomodoro => "Pomodoro",
            InstalledModules::TodoList => "Todo List",
            InstalledModules::HabitTracker => "Habit Tracker",
            InstalledModules::TimeLogger => "Time Logger",
            InstalledModules::MoodJournal => "Mood Journal",
        }
    }

    /// The static glyph art of this module kind, one entry per line.
    pub fn ascii(&self) -> (r: Vec<&'static str>)
        ensures
            r@.len() == self.ascii_spec().len(),
            forall|i: int| 0 <= i < r@.len() ==> #[trigger] r@[i]@ == self.ascii_spec()[i],
    {
        match self {
            InstalledModules::Pomodoro => vec!["  ____  ", " | __ ) "],
            InstalledModules::TodoList => vec![" [ ]", " [ ]"],
            InstalledModules::HabitTracker => vec!["  /\u{203e}\u{203e}\\  ", " (\u{2022}_\u{2022})"],
            InstalledModules::TimeLogger => vec!["  \u{23f1} ", "  \u{231b} "],
            InstalledModules::MoodJournal => vec![" (\u{1d54}\u{1d25}\u{1d54}) "],
        }
    }
}

} // verus!
