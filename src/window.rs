//! The kinds of window that Orbit shows, and where the floating panel is
//! placed from one showing to the next.
use vstd::prelude::*;

verus! {

/// A kind of Orbit window.
#[derive(PartialEq, Eq, Structural, Debug, Clone, Copy)]
pub enum WindowType {
    /// The main overlay.
    Main,
    /// The settings panel.
    Settings,
    /// The conversation history.
    History,
    /// The floating assistant.
    Assistant,
}

/// A position on screen in physical pixels.
#[derive(PartialEq, Eq, Structural, Debug, Clone, Copy)]
pub struct PanelPosition {
    pub x: i32,
    pub y: i32,
}

/// Where the panel goes when no position is remembered, or after a rescue.
pub const DEFAULT_PANEL_X: i32 = 300;
pub const DEFAULT_PANEL_Y: i32 = 200;

/// The largest coordinate accepted as a real panel position.
pub const PANEL_COORD_LIMIT: i32 = 10000;

/// A move of at most this many pixels on both axes is not remembered.
pub const PANEL_MOVE_THRESHOLD: i32 = 5;

/// The default panel position.
pub open spec fn default_panel() -> PanelPosition {
    PanelPosition { x: DEFAULT_PANEL_X, y: DEFAULT_PANEL_Y }
}

/// A position that a panel can really have, not a runaway coordinate.
pub open spec fn in_panel_bounds(p: PanelPosition) -> bool {
    0 <= p.x <= PANEL_COORD_LIMIT && 0 <= p.y <= PANEL_COORD_LIMIT
}

/// The distance between two coordinates.
pub open spec fn gap(a: i32, b: i32) -> int {
    if a >= b {
        a - b
    } else {
        b - a
    }
}

/// An observed position replaces the remembered one: it is in bounds, and
/// nothing is remembered yet or it moved by more than the threshold.
pub open spec fn should_remember(stored: Option<PanelPosition>, p: PanelPosition) -> bool {
    in_panel_bounds(p) && match stored {
        None => true,
        Some(s) => gap(s.x, p.x) > PANEL_MOVE_THRESHOLD || gap(s.y, p.y) > PANEL_MOVE_THRESHOLD,
    }
}

fn distance(a: i32, b: i32) -> (r: i64)
    ensures
        r == gap(a, b),
{
    if a >= b {
        a as i64 - b as i64
    } else {
        b as i64 - a as i64
    }
}

/// The panel position remembered across showings.
#[derive(Debug)]
pub struct PanelMemory {
    stored: Option<PanelPosition>,
}

impl PanelMemory {
    /// The remembered position.
    pub closed spec fn stored_spec(&self) -> Option<PanelPosition> {
        self.stored
    }

    /// A memory with no position.
    pub fn new() -> (r: Self)
        ensures
            r.stored_spec() is None,
    {
        PanelMemory { stored: None }
    }

    /// The remembered position.
    pub fn stored(&self) -> (r: Option<PanelPosition>)
        ensures
            r == self.stored_spec(),
    {
        self.stored
    }

    /// Where to show the panel: the remembered position, or the default one,
    /// which is remembered from then on.
    pub fn placement(&mut self) -> (r: PanelPosition)
        ensures
            old(self).stored_spec() matches Some(p) ==> r == p && final(self).stored_spec() == Some(p),
            old(self).stored_spec() is None ==> r == default_panel() && final(self).stored_spec() == Some(
                default_panel(),
            ),
    {
        match self.stored {
            Some(p) => p,
            None => {
                let p = PanelPosition { x: DEFAULT_PANEL_X, y: DEFAULT_PANEL_Y };
                self.stored = Some(p);
                p
            },
        }
    }

    /// Takes the position the panel was seen at. Returns whether it is now
    /// the remembered one.
    pub fn remember(&mut self, observed: PanelPosition) -> (updated: bool)
        ensures
            updated == should_remember(old(self).stored_spec(), observed),
            final(self).stored_spec() == if updated {
                Some(observed)
            } else {
                old(self).stored_spec()
            },
    {
        let in_bounds = 0 <= observed.x && observed.x <= PANEL_COORD_LIMIT && 0 <= observed.y
            && observed.y <= PANEL_COORD_LIMIT;
        if !in_bounds {
            return false;
        }
        let update = match self.stored {
            None => true,
            Some(s) => distance(s.x, observed.x) > PANEL_MOVE_THRESHOLD as i64 || distance(s.y, observed.y)
                > PANEL_MOVE_THRESHOLD as i64,
        };
        if update {
            self.stored = Some(observed);
        }
        update
    }

    /// Brings a lost panel back: it goes to the default position, which is
    /// remembered in place of the old one.
    pub fn rescue(&mut self) -> (r: PanelPosition)
        ensures
            r == default_panel(),
            final(self).stored_spec() == Some(default_panel()),
    {
        let p = PanelPosition { x: DEFAULT_PANEL_X, y: DEFAULT_PANEL_Y };
        self.stored = Some(p);
        p
    }

    /// Forgets the remembered position; the panel goes to the default one.
    pub fn reset(&mut self) -> (r: PanelPosition)
        ensures
            r == default_panel(),
            final(self).stored_spec() is None,
    {
        self.stored = None;
        PanelPosition { x: DEFAULT_PANEL_X, y: DEFAULT_PANEL_Y }
    }
}

/// Whether the overlay is pinned: a pinned overlay lets mouse events pass
/// through to the windows below it.
#[derive(Debug)]
pub struct Pinned {
    value: bool,
}

/// The label of the tray item that flips the pin: the action it would take.
pub open spec fn pin_label(pinned: bool) -> Seq<char> {
    if pinned {
        "Unpin"@
    } else {
        "Pin"@
    }
}

impl Pinned {
    /// Whether the overlay is pinned.
    pub closed spec fn value_spec(&self) -> bool {
        self.value
    }

    /// An overlay pinned or not.
    pub fn new(value: bool) -> (r: Self)
        ensures
            r.value_spec() == value,
    {
        Pinned { value }
    }

    /// Whether the overlay is pinned.
    pub fn get(&self) -> (r: bool)
        ensures
            r == self.value_spec(),
    {
        self.value
    }

    /// Pins or unpins the overlay. Returns the new label of the tray item.
    pub fn set(&mut self, value: bool) -> (label: &'static str)
        ensures
            final(self).value_spec() == value,
            label@ == pin_label(value),
    {
        self.value = value;
        if value {
            "Unpin"
        } else {
            "Pin"
        }
    }

    /// Flips the pin. Returns the new value.
    pub fn toggle(&mut self) -> (r: bool)
        ensures
            r == !old(self).value_spec(),
            final(self).value_spec() == r,
    {
        let v = !self.value;
        self.set(v);
        v
    }
}

} // verus!
