//! The root widget: a header with the title and the current mode, the tick
//! counter as the body, and a footer with the key bindings.

use vstd::prelude::*;

use crate::events::KeyPress;
use crate::layout::{hsplit2, spec_hsplit2, spec_vsplit3, vsplit3, Align, Rect, Region, RegionView,
    TextStyle};
use crate::tick_counter::{mode_label, spec_render_counter, ticked, toggled, Mode, TickCounter,
    TickCounterView};

verus! {

/// The root widget, owning the tick counter.
#[derive(Debug)]
pub struct Root {
    tick_counter: TickCounter,
}

impl View for Root {
    type V = TickCounterView;

    closed spec fn view(&self) -> TickCounterView {
        self.tick_counter@
    }
}

/// The frame the root widget draws for counter state `c` in `area`: the
/// title on the left of the header band, the mode on its right, the
/// counter line in the body band, and the help line in the footer band.
pub open spec fn spec_render_root(c: TickCounterView, area: Rect) -> Seq<RegionView> {
    let (header, body, footer) = spec_vsplit3(area);
    let (left, right) = spec_hsplit2(header);
    seq![
        RegionView {
            area: left,
            text: "Ratatui Template"@,
            style: TextStyle::Header,
            align: Align::Left,
        },
        RegionView {
            area: right,
            text: "Mode: "@ + mode_label(c.mode),
            style: TextStyle::Header,
            align: Align::Right,
        },
    ] + spec_render_counter(c, body) + seq![
        RegionView {
            area: footer,
            text: "Quit: q, Reset: r, Pause: Space"@,
            style: TextStyle::Header,
            align: Align::Left,
        },
    ]
}

impl Root {
    /// A fresh root widget with a fresh counter.
    pub fn new() -> (r: Root)
        ensures
            r@ == (TickCounterView { mode: Mode::Running, ticks: 0 }),
    {
        Root { tick_counter: TickCounter::new() }
    }

    /// Hand a key event to the tick counter; a key the counter does not
    /// handle is returned, so that the caller may treat it as a global
    /// shortcut.
    pub fn handle_key_event(&mut self, event: KeyPress) -> (unhandled: Option<KeyPress>)
        ensures
            event.code == crate::events::KeyCode::Char('r') ==> unhandled == None::<KeyPress>
                && final(self)@ == (TickCounterView { mode: old(self)@.mode, ticks: 0 }),
            event.code == crate::events::KeyCode::Char(' ') ==> unhandled == None::<KeyPress>
                && final(self)@ == (TickCounterView {
                mode: toggled(old(self)@.mode),
                ticks: old(self)@.ticks,
            }),
            event.code != crate::events::KeyCode::Char('r') && event.code
                != crate::events::KeyCode::Char(' ') ==> unhandled == Some(event) && final(self)@
                == old(self)@,
    {
        self.tick_counter.handle_key_event(event)
    }

    /// Advance the counter by one tick, if it is running.
    pub fn tick(&mut self)
        requires
            old(self)@.mode == Mode::Running ==> old(self)@.ticks < usize::MAX,
        ensures
            final(self)@ == (TickCounterView {
                mode: old(self)@.mode,
                ticks: ticked(old(self)@.mode, old(self)@.ticks),
            }),
    {
        self.tick_counter.tick();
    }

    /// The regions this widget draws in `area`, exactly as
    /// [`spec_render_root`] says.
    pub fn render(&self, area: Rect) -> (regions: Vec<Region>)
        requires
            area.x + area.width <= u16::MAX,
            area.y + area.height <= u16::MAX,
        ensures
            regions.deep_view() == spec_render_root(self@, area),
    {
        let (header, body, footer) = vsplit3(area);
        let (left, right) = hsplit2(header);

        let mut mode_line = String::from_str("Mode: ");
        let label = self.tick_counter.mode();
        mode_line.append(label.as_str());

        let mut regions: Vec<Region> = Vec::new();
        regions.push(
            Region {
                area: left,
                text: String::from_str("Ratatui Template"),
                style: TextStyle::Header,
                align: Align::Left,
            },
        );
        regions.push(
            Region { area: right, text: mode_line, style: TextStyle::Header, align: Align::Right },
        );
        let mut body_regions = self.tick_counter.render(body);
        regions.append(&mut body_regions);
        regions.push(
            Region {
                area: footer,
                text: String::from_str("Quit: q, Reset: r, Pause: Space"),
                style: TextStyle::Header,
                align: Align::Left,
            },
        );
        proof {
            assert(regions.deep_view() =~= spec_render_root(self@, area));
        }
        regions
    }
}

impl Default for Root {
    /// Same as [`Root::new`].
    fn default() -> (r: Root)
        ensures
            r@ == (TickCounterView { mode: Mode::Running, ticks: 0 }),
    {
        Root::new()
    }
}

/// The two mode labels are different texts, so frames drawn while running
/// and while paused differ: the header's mode region shows which mode the
/// application is in.
pub proof fn lemma_render_mode_distinct(c1: TickCounterView, c2: TickCounterView, area: Rect)
    requires
        c1.mode != c2.mode,
    ensures
        spec_render_root(c1, area)[1].text != spec_render_root(c2, area)[1].text,
        spec_render_root(c1, area) != spec_render_root(c2, area),
{
    reveal_strlit("Running");
    reveal_strlit("Paused");
    assert(mode_label(c1.mode).len() != mode_label(c2.mode).len());
    assert(spec_render_root(c1, area)[1].text.len() != spec_render_root(c2, area)[1].text.len());
}

} // verus!
