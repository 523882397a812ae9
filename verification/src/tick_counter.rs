//! A counter widget that advances once per tick while it is running, and
//! that its keys can pause, resume and reset.

use vstd::prelude::*;

use crate::events::{KeyCode, KeyPress};
use crate::layout::{Align, Rect, Region, RegionView, TextStyle};
use crate::text::{decimal, to_decimal};

verus! {

/// Whether the counter currently advances on ticks.
#[derive(Clone, Copy, PartialEq, Eq, Structural, Debug)]
pub enum Mode {
    Running,
    Paused,
}

/// A counter that increments at a regular interval. It can be paused and
/// reset.
#[derive(Debug)]
pub struct TickCounter {
    mode: Mode,
    tick_count: usize,
}

/// The mathematical value of a [`TickCounter`]: its mode and an unbounded
/// count.
pub ghost struct TickCounterView {
    pub mode: Mode,
    pub ticks: nat,
}

impl View for TickCounter {
    type V = TickCounterView;

    closed spec fn view(&self) -> TickCounterView {
        TickCounterView { mode: self.mode, ticks: self.tick_count as nat }
    }
}

/// The display label of each mode.
pub open spec fn mode_label(m: Mode) -> Seq<char> {
    match m {
        Mode::Running => "Running"@,
        Mode::Paused => "Paused"@,
    }
}

/// The text of the counter line for a count of `n`.
pub open spec fn ticks_text(n: nat) -> Seq<char> {
    "Ticks: "@ + decimal(n)
}

/// The single text region the counter draws: its count, plain and
/// left-aligned, across the whole given area.
pub open spec fn spec_render_counter(c: TickCounterView, area: Rect) -> Seq<RegionView> {
    seq![
        RegionView {
            area,
            text: ticks_text(c.ticks),
            style: TextStyle::Plain,
            align: Align::Left,
        },
    ]
}

impl TickCounter {
    /// A fresh counter: running, with a count of zero.
    pub fn new() -> (c: TickCounter)
        ensures
            c@ == (TickCounterView { mode: Mode::Running, ticks: 0 }),
    {
        TickCounter { mode: Mode::Running, tick_count: 0 }
    }

    /// The current count.
    pub fn tick_count(&self) -> (n: usize)
        ensures
            n == self@.ticks,
    {
        self.tick_count
    }

    /// Handle a key event: `r` resets the count, space toggles pause, and
    /// any other key is returned unhandled so that a parent widget may
    /// still act on it.
    pub fn handle_key_event(&mut self, event: KeyPress) -> (unhandled: Option<KeyPress>)
        ensures
            event.code == KeyCode::Char('r') ==> unhandled == None::<KeyPress> && final(self)@
                == (TickCounterView { mode: old(self)@.mode, ticks: 0 }),
            event.code == KeyCode::Char(' ') ==> unhandled == None::<KeyPress> && final(self)@
                == (TickCounterView { mode: toggled(old(self)@.mode), ticks: old(self)@.ticks }),
            event.code != KeyCode::Char('r') && event.code != KeyCode::Char(' ') ==> unhandled
                == Some(event) && final(self)@ == old(self)@,
    {
        match event.code {
            KeyCode::Char('r') => {
                self.reset();
                None
            },
            KeyCode::Char(' ') => {
                self.toggle_pause();
                None
            },
            _ => Some(event),
        }
    }

    /// Switch between running and paused, leaving the count alone.
    pub fn toggle_pause(&mut self)
        ensures
            final(self)@ == (TickCounterView {
                mode: toggled(old(self)@.mode),
                ticks: old(self)@.ticks,
            }),
    {
        self.mode = match self.mode {
            Mode::Running => Mode::Paused,
            Mode::Paused => Mode::Running,
        };
    }

    /// Advance the count by one, but only while running.
    pub fn tick(&mut self)
        requires
            old(self)@.mode == Mode::Running ==> old(self)@.ticks < usize::MAX,
        ensures
            final(self)@ == (TickCounterView {
                mode: old(self)@.mode,
                ticks: ticked(old(self)@.mode, old(self)@.ticks),
            }),
    {
        if self.mode == Mode::Running {
            self.tick_count += 1;
        }
    }

    /// Set the count back to zero, in either mode.
    pub fn reset(&mut self)
        ensures
            final(self)@ == (TickCounterView { mode: old(self)@.mode, ticks: 0 }),
    {
        self.tick_count = 0;
    }

    /// The current mode as a string, for the header of a parent widget.
    pub fn mode(&self) -> (label: String)
        ensures
            label@ == mode_label(self@.mode),
    {
        match self.mode {
            Mode::Running => String::from_str("Running"),
            Mode::Paused => String::from_str("Paused"),
        }
    }

    /// The regions this widget draws in `area`, exactly as
    /// [`spec_render_counter`] says.
    pub fn render(&self, area: Rect) -> (regions: Vec<Region>)
        ensures
            regions.deep_view() == spec_render_counter(self@, area),
    {
        let mut line = String::from_str("Ticks: ");
        let count = to_decimal(self.tick_count);
        line.append(count.as_str());
        let regions = vec![
            Region { area, text: line, style: TextStyle::Plain, align: Align::Left },
        ];
        proof {
            assert(regions.deep_view() =~= spec_render_counter(self@, area));
        }
        regions
    }
}

impl Default for TickCounter {
    /// Same as [`TickCounter::new`].
    fn default() -> (c: TickCounter)
        ensures
            c@ == (TickCounterView { mode: Mode::Running, ticks: 0 }),
    {
        TickCounter::new()
    }
}

/// The mode after one pause toggle.
pub open spec fn toggled(m: Mode) -> Mode {
    match m {
        Mode::Running => Mode::Paused,
        Mode::Paused => Mode::Running,
    }
}

/// The count after one tick in mode `m`.
pub open spec fn ticked(m: Mode, ticks: nat) -> nat {
    if m == Mode::Running {
        ticks + 1
    } else {
        ticks
    }
}

} // verus!
