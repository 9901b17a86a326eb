//! The control surface's own settings. The engine takes its bounds as they
//! come; it is here that the lower bound is kept below the upper one.

use vstd::prelude::*;
use crate::clicker::{AutoClicker, ClickMode, ClickerView};

verus! {

/// The mathematical content of a [`ControlSurface`].
pub ghost struct ControlView {
    pub min_cps: nat,
    pub max_cps: nat,
    pub mode: ClickMode,
    /// The lowest rate that can be chosen.
    pub floor: nat,
    /// The highest rate that can be chosen.
    pub ceiling: nat,
}

impl ControlView {
    /// The bounds are apart and within the limits: `floor <= min < max <= ceiling`.
    pub open spec fn wf(self) -> bool {
        self.floor <= self.min_cps < self.max_cps <= self.ceiling
    }

    pub open spec fn initial() -> ControlView {
        ControlView { min_cps: 5, max_cps: 25, mode: ClickMode::Left, floor: 5, ceiling: 25 }
    }

    /// Whether the shared state holds the settings that the surface shows.
    pub open spec fn shown_by(self, s: ClickerView) -> bool {
        s.min_cps == self.min_cps && s.max_cps == self.max_cps && s.mode == self.mode
    }
}

/// `value` brought into `lo..=hi`.
pub open spec fn spec_clamp(value: nat, lo: nat, hi: nat) -> nat
    recommends
        lo <= hi,
{
    if value < lo {
        lo
    } else if value > hi {
        hi
    } else {
        value
    }
}

/// The settings a control panel shows and edits.
pub struct ControlSurface {
    min_cps: u32,
    max_cps: u32,
    click_mode: ClickMode,
    static_min_cps: u32,
    static_max_cps: u32,
}

impl View for ControlSurface {
    type V = ControlView;

    closed spec fn view(&self) -> ControlView {
        ControlView {
            min_cps: self.min_cps as nat,
            max_cps: self.max_cps as nat,
            mode: self.click_mode,
            floor: self.static_min_cps as nat,
            ceiling: self.static_max_cps as nat,
        }
    }
}

impl ControlSurface {
    #[verifier::type_invariant]
    closed spec fn inv(&self) -> bool {
        self@.wf()
    }

    /// The built-in settings, written through to the shared state.
    pub fn new(clicker: &mut AutoClicker) -> (surface: Self)
        ensures
            surface@ == ControlView::initial(),
            surface@.wf(),
            final(clicker)@ == (ClickerView {
                min_cps: 5,
                max_cps: 25,
                mode: ClickMode::Left,
                ..old(clicker)@
            }),
            surface@.shown_by(final(clicker)@),
    {
        let surface = ControlSurface {
            min_cps: 5,
            max_cps: 25,
            click_mode: ClickMode::Left,
            static_min_cps: 5,
            static_max_cps: 25,
        };
        clicker.set_min_cps(surface.min_cps);
        clicker.set_max_cps(surface.max_cps);
        clicker.set_click_mode(surface.click_mode);
        surface
    }

    pub fn min_cps(&self) -> (value: u32)
        ensures
            value as nat == self@.min_cps,
            self@.wf(),
    {
        proof {
            use_type_invariant(self);
        }
        self.min_cps
    }

    pub fn max_cps(&self) -> (value: u32)
        ensures
            value as nat == self@.max_cps,
            self@.wf(),
    {
        proof {
            use_type_invariant(self);
        }
        self.max_cps
    }

    pub fn click_mode(&self) -> (mode: ClickMode)
        ensures
            mode == self@.mode,
    {
        self.click_mode
    }

    /// The values the lower bound may take now: from the floor to just below
    /// the upper bound.
    pub fn min_range(&self) -> (range: (u32, u32))
        ensures
            range.0 as nat == self@.floor,
            range.1 as nat == self@.max_cps - 1,
            range.0 <= self@.min_cps <= range.1,
    {
        proof {
            use_type_invariant(self);
        }
        (self.static_min_cps, self.max_cps - 1)
    }

    /// The values the upper bound may take now: from just above the lower
    /// bound to the ceiling.
    pub fn max_range(&self) -> (range: (u32, u32))
        ensures
            range.0 as nat == self@.min_cps + 1,
            range.1 as nat == self@.ceiling,
            range.0 <= self@.max_cps <= range.1,
    {
        proof {
            use_type_invariant(self);
        }
        (self.min_cps + 1, self.static_max_cps)
    }

    /// Moves the lower bound to `proposed`, brought into the range it may
    /// take; a change is written through to the shared state. Returns whether
    /// the bound changed.
    pub fn set_min(&mut self, clicker: &mut AutoClicker, proposed: u32) -> (changed: bool)
        ensures
            final(self)@ == (ControlView {
                min_cps: spec_clamp(
                    proposed as nat,
                    old(self)@.floor,
                    (old(self)@.max_cps - 1) as nat,
                ),
                ..old(self)@
            }),
            final(self)@.wf(),
            changed == (final(self)@.min_cps != old(self)@.min_cps),
            final(clicker)@ == if changed {
                ClickerView { min_cps: final(self)@.min_cps, ..old(clicker)@ }
            } else {
                old(clicker)@
            },
            old(self)@.shown_by(old(clicker)@) ==> final(self)@.shown_by(final(clicker)@),
    {
        proof {
            use_type_invariant(&*self);
        }
        let (lo, hi) = self.min_range();
        let value: u32 = if proposed < lo {
            lo
        } else if proposed > hi {
            hi
        } else {
            proposed
        };
        let changed = value != self.min_cps;
        if changed {
            self.min_cps = value;
            clicker.set_min_cps(value);
        }
        changed
    }

    /// Moves the upper bound to `proposed`, brought into the range it may
    /// take; a change is written through to the shared state. Returns whether
    /// the bound changed.
    pub fn set_max(&mut self, clicker: &mut AutoClicker, proposed: u32) -> (changed: bool)
        ensures
            final(self)@ == (ControlView {
                max_cps: spec_clamp(proposed as nat, old(self)@.min_cps + 1, old(self)@.ceiling),
                ..old(self)@
            }),
            final(self)@.wf(),
            changed == (final(self)@.max_cps != old(self)@.max_cps),
            final(clicker)@ == if changed {
                ClickerView { max_cps: final(self)@.max_cps, ..old(clicker)@ }
            } else {
                old(clicker)@
            },
            old(self)@.shown_by(old(clicker)@) ==> final(self)@.shown_by(final(clicker)@),
    {
        proof {
            use_type_invariant(&*self);
        }
        let (lo, hi) = self.max_range();
        let value: u32 = if proposed < lo {
            lo
        } else if proposed > hi {
            hi
        } else {
            proposed
        };
        let changed = value != self.max_cps;
        if changed {
            self.max_cps = value;
            clicker.set_max_cps(value);
        }
        changed
    }

    /// Selects a click mode here and in the shared state.
    pub fn select_mode(&mut self, clicker: &mut AutoClicker, mode: ClickMode)
        ensures
            final(self)@ == (ControlView { mode: mode, ..old(self)@ }),
            final(self)@.wf(),
            final(clicker)@ == (ClickerView { mode: mode, ..old(clicker)@ }),
            old(self)@.shown_by(old(clicker)@) ==> final(self)@.shown_by(final(clicker)@),
    {
        proof {
            use_type_invariant(&*self);
        }
        self.click_mode = mode;
        clicker.set_click_mode(mode);
    }
}

/// While the shared state holds what a surface shows, every rate the engine
/// may draw lies between the two bounds, which are apart and within the
/// surface's limits.
pub proof fn lemma_surface_keeps_band_proper(surface: ControlView, s: ClickerView, cps: nat)
    requires
        surface.wf(),
        surface.shown_by(s),
        crate::engine::spec_in_band(s.min_cps, s.max_cps, cps),
    ensures
        surface.floor <= s.min_cps <= cps <= s.max_cps <= surface.ceiling,
        s.min_cps + 1 <= s.max_cps,
{
}

/// Clamping gives a value of the range, and leaves a value of the range as it is.
pub proof fn lemma_clamp_in_range(value: nat, lo: nat, hi: nat)
    requires
        lo <= hi,
    ensures
        lo <= spec_clamp(value, lo, hi) <= hi,
        lo <= value <= hi ==> spec_clamp(value, lo, hi) == value,
{
}

} // verus!
