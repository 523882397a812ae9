//! The application: its mode/counter state machine, the mapping from key
//! presses to actions, and the frame it draws.
//!
//! The main loop lives in the binary, because drawing and waiting for
//! events are terminal work; every decision it takes is a call into this
//! module. The loop's shape is: while [`App::is_running`], draw the regions
//! of [`App::render`], wait for one event, and hand it to
//! [`App::handle_events`].

use vstd::prelude::*;

use crate::events::{Event, KeyCode, KeyPress};
use crate::layout::{spec_vsplit3, spec_vsplit_top, vsplit3, vsplit_top, Align, Rect, Region,
    RegionView, TextStyle};
use crate::text::{lemma_line_count_le, line_count, line_count_str, to_decimal};
use crate::tick_counter::ticks_text;

verus! {

/// The application mode. It governs whether tick events advance the
/// counter and whether the main loop keeps going.
#[derive(Clone, Copy, PartialEq, Eq, Structural, Debug)]
pub enum Mode {
    /// The initial mode: ticks advance the counter.
    Running,
    /// Ticks leave the counter alone.
    Paused,
    /// The terminal mode: the main loop stops, and no event changes the
    /// state any further.
    Quitting,
}

/// What a key press asks the application to do.
#[derive(Clone, Copy, PartialEq, Eq, Structural, Debug)]
pub enum Action {
    DoNothing,
    ResetTicks,
    TogglePause,
    Exit,
}

/// The application state: the mode and the tick counter.
#[derive(Debug)]
pub struct App {
    mode: Mode,
    tick_count: usize,
}

/// The mathematical value of an [`App`]: its mode and an unbounded count.
pub ghost struct AppView {
    pub mode: Mode,
    pub ticks: nat,
}

impl View for App {
    type V = AppView;

    closed spec fn view(&self) -> AppView {
        AppView { mode: self.mode, ticks: self.tick_count as nat }
    }
}

/// The action a key press maps to: `q`, the escape key or Control+`c`
/// quit, `r` resets the counter, space toggles pause, and every other key
/// does nothing. The mapping looks only at the key, except for `c`, which
/// quits only with the Control modifier held.
pub open spec fn action_of(key: KeyPress) -> Action {
    if key.code == KeyCode::Char('q') || key.code == KeyCode::Esc {
        Action::Exit
    } else if key.code == KeyCode::Char('c') && key.control {
        Action::Exit
    } else if key.code == KeyCode::Char('r') {
        Action::ResetTicks
    } else if key.code == KeyCode::Char(' ') {
        Action::TogglePause
    } else {
        Action::DoNothing
    }
}

impl From<KeyPress> for Action {
    /// Map one key press to its action, exactly as [`action_of`] says.
    fn from(key: KeyPress) -> (action: Self) {
        match key.code {
            KeyCode::Char(c) => {
                if c == 'q' {
                    Action::Exit
                } else if c == 'c' && key.control {
                    Action::Exit
                } else if c == 'r' {
                    Action::ResetTicks
                } else if c == ' ' {
                    Action::TogglePause
                } else {
                    Action::DoNothing
                }
            },
            KeyCode::Esc => Action::Exit,
            KeyCode::Other => Action::DoNothing,
        }
    }
}

impl vstd::std_specs::convert::FromSpecImpl<KeyPress> for Action {
    open spec fn obeys_from_spec() -> bool {
        true
    }

    open spec fn from_spec(key: KeyPress) -> Action {
        action_of(key)
    }
}

/// The mode after one pause toggle: running and paused swap, quitting is
/// terminal.
pub open spec fn toggled(m: Mode) -> Mode {
    match m {
        Mode::Running => Mode::Paused,
        Mode::Paused => Mode::Running,
        Mode::Quitting => Mode::Quitting,
    }
}

/// The state after one event: quitting absorbs everything; a tick advances
/// the counter only while running; a key press acts through [`action_of`];
/// pointer and resize events change nothing.
pub open spec fn step(s: AppView, event: Event) -> AppView {
    if s.mode == Mode::Quitting {
        s
    } else {
        match event {
            Event::Tick => if s.mode == Mode::Running {
                AppView { mode: s.mode, ticks: s.ticks + 1 }
            } else {
                s
            },
            Event::KeyPress(key) => match action_of(key) {
                Action::Exit => AppView { mode: Mode::Quitting, ticks: s.ticks },
                Action::ResetTicks => AppView { mode: s.mode, ticks: 0 },
                Action::TogglePause => AppView { mode: toggled(s.mode), ticks: s.ticks },
                Action::DoNothing => s,
            },
            _ => s,
        }
    }
}

/// The state after the main loop has consumed the events of `events` in
/// order, stopping early once the mode is quitting — the loop checks
/// [`App::is_running`] before it pulls each event.
pub open spec fn main_loop(s: AppView, events: Seq<Event>) -> AppView
    decreases events.len(),
{
    if events.len() == 0 || s.mode == Mode::Quitting {
        s
    } else {
        main_loop(step(s, events[0]), events.drop_first())
    }
}

impl App {
    /// A fresh application: running, with a count of zero.
    pub fn new() -> (app: App)
        ensures
            app@ == (AppView { mode: Mode::Running, ticks: 0 }),
    {
        App { mode: Mode::Running, tick_count: 0 }
    }

    /// The current mode.
    pub fn mode(&self) -> (m: Mode)
        ensures
            m == self@.mode,
    {
        self.mode
    }

    /// The current count.
    pub fn tick_count(&self) -> (n: usize)
        ensures
            n == self@.ticks,
    {
        self.tick_count
    }

    /// Whether the main loop should keep going: true until the mode is
    /// quitting.
    pub fn is_running(&self) -> (running: bool)
        ensures
            running == (self@.mode != Mode::Quitting),
    {
        self.mode != Mode::Quitting
    }

    /// React to one event, exactly as [`step`] says. The producers never
    /// hand [`Event::Ignored`] to the application.
    pub fn handle_events(&mut self, event: Event)
        requires
            event != Event::Ignored,
            event == Event::Tick && old(self)@.mode == Mode::Running ==> old(self)@.ticks
                < usize::MAX,
        ensures
            final(self)@ == step(old(self)@, event),
    {
        if self.mode == Mode::Quitting {
            return;
        }
        match event {
            Event::Tick => self.tick(),
            Event::KeyPress(key) => match Action::from(key) {
                Action::Exit => self.quit(),
                Action::ResetTicks => self.reset_ticks(),
                Action::TogglePause => self.toggle_pause(),
                Action::DoNothing => {},
            },
            Event::Mouse => {},
            Event::Resize(_) => {},
            Event::Ignored => {},
        }
    }

    /// Advance the counter by one, but only while running.
    pub fn tick(&mut self)
        requires
            old(self)@.mode == Mode::Running ==> old(self)@.ticks < usize::MAX,
        ensures
            final(self)@ == (AppView {
                mode: old(self)@.mode,
                ticks: if old(self)@.mode == Mode::Running {
                    old(self)@.ticks + 1
                } else {
                    old(self)@.ticks
                },
            }),
    {
        if self.mode == Mode::Running {
            self.tick_count += 1;
        }
    }

    /// Set the counter back to zero, leaving the mode alone.
    pub fn reset_ticks(&mut self)
        ensures
            final(self)@ == (AppView { mode: old(self)@.mode, ticks: 0 }),
    {
        self.tick_count = 0;
    }

    /// Swap running and paused; quitting stays quitting.
    pub fn toggle_pause(&mut self)
        ensures
            final(self)@ == (AppView { mode: toggled(old(self)@.mode), ticks: old(self)@.ticks }),
    {
        self.mode = match self.mode {
            Mode::Running => Mode::Paused,
            Mode::Paused => Mode::Running,
            Mode::Quitting => Mode::Quitting,
        };
    }

    /// Enter the quitting mode, so that the main loop stops.
    pub fn quit(&mut self)
        ensures
            final(self)@ == (AppView { mode: Mode::Quitting, ticks: old(self)@.ticks }),
    {
        self.mode = Mode::Quitting;
    }
}

impl Default for App {
    /// Same as [`App::new`].
    fn default() -> (app: App)
        ensures
            app@ == (AppView { mode: Mode::Running, ticks: 0 }),
    {
        App::new()
    }
}

/// While the application is running, each tick advances the counter by
/// exactly one: after consuming `events.len()` ticks the count has grown
/// by `events.len()`, and the mode is still running. Starting from a fresh
/// state, the count after `N` ticks is `N`.
pub proof fn lemma_ticks_while_running(s: AppView, events: Seq<Event>)
    requires
        s.mode == Mode::Running,
        forall|i: int| 0 <= i < events.len() ==> events[i] == Event::Tick,
    ensures
        main_loop(s, events) == (AppView { mode: Mode::Running, ticks: s.ticks + events.len() }),
    decreases events.len(),
{
    if events.len() == 0 {
        assert(main_loop(s, events) =~= (AppView { mode: Mode::Running, ticks: s.ticks + 0 }));
    } else {
        assert(events[0] == Event::Tick);
        let s1 = AppView { mode: Mode::Running, ticks: s.ticks + 1 };
        assert(step(s, events[0]) == s1);
        assert(forall|i: int|
            0 <= i < events.drop_first().len() ==> events.drop_first()[i] == Event::Tick);
        lemma_ticks_while_running(s1, events.drop_first());
    }
}

/// While the application is paused, ticks change nothing: the counter does
/// not advance no matter how many tick events arrive.
pub proof fn lemma_ticks_while_paused(s: AppView, events: Seq<Event>)
    requires
        s.mode == Mode::Paused,
        forall|i: int| 0 <= i < events.len() ==> events[i] == Event::Tick,
    ensures
        main_loop(s, events) == s,
    decreases events.len(),
{
    if events.len() > 0 {
        assert(events[0] == Event::Tick);
        assert(step(s, events[0]) == s);
        assert(forall|i: int|
            0 <= i < events.drop_first().len() ==> events.drop_first()[i] == Event::Tick);
        lemma_ticks_while_paused(s, events.drop_first());
    }
}

/// Toggling pause twice returns the state to exactly what it was: the mode
/// comes back, and neither toggle touches the counter.
pub proof fn lemma_toggle_pause_twice(s: AppView, key: KeyPress)
    requires
        action_of(key) == Action::TogglePause,
    ensures
        step(step(s, Event::KeyPress(key)), Event::KeyPress(key)) == s,
{
}

/// Resetting sets the counter to zero from any prior value, in either of
/// the live modes, and leaves the mode as it was.
pub proof fn lemma_reset(s: AppView, key: KeyPress)
    requires
        action_of(key) == Action::ResetTicks,
        s.mode != Mode::Quitting,
    ensures
        step(s, Event::KeyPress(key)) == (AppView { mode: s.mode, ticks: 0 }),
{
}

/// The three quit bindings — `q`, the escape key, and Control+`c` — all
/// map to the exit action.
pub proof fn lemma_exit_keys(key: KeyPress)
    ensures
        key.code == KeyCode::Char('q') ==> action_of(key) == Action::Exit,
        key.code == KeyCode::Esc ==> action_of(key) == Action::Exit,
        key.code == KeyCode::Char('c') && key.control ==> action_of(key) == Action::Exit,
{
}

/// An exit key press moves the application to quitting from any mode, and
/// leaves the counter alone.
pub proof fn lemma_exit(s: AppView, key: KeyPress)
    requires
        action_of(key) == Action::Exit,
    ensures
        step(s, Event::KeyPress(key)) == (AppView { mode: Mode::Quitting, ticks: s.ticks }),
{
}

/// Quitting is terminal: once there, no single event changes the state.
pub proof fn lemma_quitting_absorbs(s: AppView, event: Event)
    requires
        s.mode == Mode::Quitting,
    ensures
        step(s, event) == s,
{
}

/// Quitting stops the loop: once there, no sequence of events changes the
/// state, because the loop pulls no more of them.
pub proof fn lemma_quitting_stops_loop(s: AppView, events: Seq<Event>)
    requires
        s.mode == Mode::Quitting,
    ensures
        main_loop(s, events) == s,
{
}

/// The counter only ever stays, grows by exactly one on a tick while
/// running, or returns to zero on a reset.
pub proof fn lemma_counter_change(s: AppView, event: Event)
    ensures
        step(s, event).ticks == s.ticks || (step(s, event).ticks == s.ticks + 1 && s.mode
            == Mode::Running && event == Event::Tick) || (step(s, event).ticks == 0 && s.mode
            != Mode::Quitting && (event matches Event::KeyPress(key) && action_of(key)
            == Action::ResetTicks)),
{
}

/// The mode only ever changes through an explicit key action: a toggle
/// swaps running and paused, an exit enters quitting, and nothing else —
/// no tick, pointer, resize or unmapped key — moves the mode at all.
pub proof fn lemma_mode_change(s: AppView, event: Event)
    ensures
        step(s, event).mode == s.mode || (s.mode != Mode::Quitting && (event matches
        Event::KeyPress(key) && (action_of(key) == Action::TogglePause || action_of(key)
            == Action::Exit))),
{
}

/// The body of the frame: a short text above the counter line.
#[derive(Debug)]
pub struct Body {
    pub text: &'static str,
    pub tick_count: usize,
}

/// The regions the body draws: its text across the top of `area`, one row
/// per line of the text, and the counter line on the row below.
pub open spec fn spec_render_body(text: Seq<char>, ticks: nat, area: Rect) -> Seq<RegionView>
    recommends
        line_count(text) <= u16::MAX,
{
    let (text_area, tick_area) = spec_vsplit_top(area, line_count(text) as u16);
    seq![
        RegionView { area: text_area, text, style: TextStyle::Plain, align: Align::Left },
        RegionView {
            area: tick_area,
            text: ticks_text(ticks),
            style: TextStyle::Plain,
            align: Align::Left,
        },
    ]
}

impl Body {
    /// A body showing `text` above a count of `tick_count`.
    pub fn new(text: &'static str, tick_count: usize) -> (body: Body)
        ensures
            body.text == text,
            body.tick_count == tick_count,
    {
        Body { text, tick_count }
    }

    /// The regions this widget draws in `area`, exactly as
    /// [`spec_render_body`] says.
    pub fn render(&self, area: Rect) -> (regions: Vec<Region>)
        requires
            line_count(self.text@) <= u16::MAX,
            area.y + area.height <= u16::MAX,
        ensures
            regions.deep_view() == spec_render_body(self.text@, self.tick_count as nat, area),
    {
        let lines = line_count_str(self.text);
        let (text_area, tick_area) = vsplit_top(area, lines as u16);
        let mut tick_line = String::from_str("Ticks: ");
        let count = to_decimal(self.tick_count);
        tick_line.append(count.as_str());
        let regions = vec![
            Region {
                area: text_area,
                text: String::from_str(self.text),
                style: TextStyle::Plain,
                align: Align::Left,
            },
            Region { area: tick_area, text: tick_line, style: TextStyle::Plain, align: Align::Left },
        ];
        proof {
            assert(regions.deep_view() =~= spec_render_body(
                self.text@,
                self.tick_count as nat,
                area,
            ));
        }
        regions
    }
}

/// The frame the application draws for state `s` in `area`: the title in
/// the header band, the body with its greeting and the counter line, and
/// the help line in the footer band.
pub open spec fn spec_render_app(s: AppView, area: Rect) -> Seq<RegionView> {
    let (header, body, footer) = spec_vsplit3(area);
    seq![
        RegionView {
            area: header,
            text: "Ratatui Template"@,
            style: TextStyle::Header,
            align: Align::Left,
        },
    ] + spec_render_body("Hello, Ratatui!"@, s.ticks, body) + seq![
        RegionView {
            area: footer,
            text: "Quit: q, Reset: r, Pause: Space"@,
            style: TextStyle::Header,
            align: Align::Left,
        },
    ]
}

impl App {
    /// The regions the application draws in `area`, exactly as
    /// [`spec_render_app`] says.
    pub fn render(&self, area: Rect) -> (regions: Vec<Region>)
        requires
            area.y + area.height <= u16::MAX,
        ensures
            regions.deep_view() == spec_render_app(self@, area),
    {
        let (header, body, footer) = vsplit3(area);
        proof {
            reveal_strlit("Hello, Ratatui!");
            lemma_line_count_le("Hello, Ratatui!"@);
        }
        let mut regions: Vec<Region> = Vec::new();
        regions.push(
            Region {
                area: header,
                text: String::from_str("Ratatui Template"),
                style: TextStyle::Header,
                align: Align::Left,
            },
        );
        let mut body_regions = Body::new("Hello, Ratatui!", self.tick_count).render(body);
        regions.append(&mut body_regions);
        regions.push(
            Region {
                area: footer,
                text: String::from_str("Quit: q, Reset: r, Pause: Space"),
                style: TextStyle::Header,
                align: Align::Left,
            },
        );
        proof {
            assert(regions.deep_view() =~= spec_render_app(self@, area));
        }
        regions
    }
}

} // verus!
