//! The state shared by the control surface, the input observer and the click
//! engine.

use vstd::prelude::*;

verus! {

/// Which held button(s) the engine synthesizes clicks for.
#[derive(PartialEq, Eq, Structural, Clone, Copy, Debug)]
pub enum ClickMode {
    Left,
    Right,
    Both,
}

impl ClickMode {
    /// The number a mode is stored as.
    pub open spec fn spec_to_usize(self) -> usize {
        match self {
            ClickMode::Left => 0,
            ClickMode::Right => 1,
            ClickMode::Both => 2,
        }
    }

    /// The mode a stored number stands for; every number past 2 reads as `Left`.
    pub open spec fn spec_from_usize(value: usize) -> ClickMode {
        if value == 1 {
            ClickMode::Right
        } else if value == 2 {
            ClickMode::Both
        } else {
            ClickMode::Left
        }
    }

    /// Whether this mode lets the left button click.
    pub open spec fn selects_left(self) -> bool {
        self != ClickMode::Right
    }

    /// Whether this mode lets the right button click.
    pub open spec fn selects_right(self) -> bool {
        self != ClickMode::Left
    }

    pub fn to_usize(&self) -> (value: usize)
        ensures
            value == self.spec_to_usize(),
    {
        match self {
            ClickMode::Left => 0,
            ClickMode::Right => 1,
            ClickMode::Both => 2,
        }
    }

    pub fn from_usize(value: usize) -> (mode: Self)
        ensures
            mode == Self::spec_from_usize(value),
    {
        match value {
            0 => ClickMode::Left,
            1 => ClickMode::Right,
            2 => ClickMode::Both,
            _ => ClickMode::Left,
        }
    }
}

/// Storing a mode as a number and reading it back gives the same mode.
pub proof fn lemma_mode_round_trip(mode: ClickMode)
    ensures
        ClickMode::spec_from_usize(mode.spec_to_usize()) == mode,
        mode.spec_to_usize() <= 2,
{
}

/// A stored number survives the trip through a mode exactly when it is at most 2.
pub proof fn lemma_number_round_trip(value: usize)
    ensures
        ClickMode::spec_from_usize(value).spec_to_usize() == value <==> value <= 2,
{
}

/// The mathematical content of an [`AutoClicker`].
pub ghost struct ClickerView {
    pub min_cps: nat,
    pub max_cps: nat,
    pub running: bool,
    pub mode: ClickMode,
    pub left_held: bool,
    pub right_held: bool,
    pub window_title: Seq<char>,
}

impl ClickerView {
    /// The state every process starts from.
    pub open spec fn initial() -> ClickerView {
        ClickerView {
            min_cps: 5,
            max_cps: 25,
            running: false,
            mode: ClickMode::Left,
            left_held: false,
            right_held: false,
            window_title: "Auto Clicker"@,
        }
    }
}

/// The flags and bounds that the control surface, the observer and the engine
/// share.
pub struct AutoClicker {
    min_cps: u32,
    max_cps: u32,
    is_running: bool,
    click_mode: ClickMode,
    left_pressed: bool,
    right_pressed: bool,
    window_title: String,
}

impl View for AutoClicker {
    type V = ClickerView;

    closed spec fn view(&self) -> ClickerView {
        ClickerView {
            min_cps: self.min_cps as nat,
            max_cps: self.max_cps as nat,
            running: self.is_running,
            mode: self.click_mode,
            left_held: self.left_pressed,
            right_held: self.right_pressed,
            window_title: self.window_title@,
        }
    }
}

impl Default for AutoClicker {
    fn default() -> (clicker: Self)
        ensures
            clicker@ == ClickerView::initial(),
    {
        AutoClicker::new()
    }
}

impl AutoClicker {
    /// A stopped clicker with the built-in bounds, mode and window title.
    pub fn new() -> (clicker: Self)
        ensures
            clicker@ == ClickerView::initial(),
    {
        AutoClicker {
            min_cps: 5,
            max_cps: 25,
            is_running: false,
            click_mode: ClickMode::Left,
            left_pressed: false,
            right_pressed: false,
            window_title: "Auto Clicker".to_string(),
        }
    }

    /// Stores the lower bound as given; the caller keeps it below the upper one.
    pub fn set_min_cps(&mut self, value: u32)
        ensures
            final(self)@ == (ClickerView { min_cps: value as nat, ..old(self)@ }),
    {
        self.min_cps = value;
    }

    /// Stores the upper bound as given; the caller keeps it above the lower one.
    pub fn set_max_cps(&mut self, value: u32)
        ensures
            final(self)@ == (ClickerView { max_cps: value as nat, ..old(self)@ }),
    {
        self.max_cps = value;
    }

    pub fn set_click_mode(&mut self, mode: ClickMode)
        ensures
            final(self)@ == (ClickerView { mode: mode, ..old(self)@ }),
    {
        self.click_mode = mode;
    }

    /// Flips the running flag and touches nothing else.
    pub fn toggle_running(&mut self)
        ensures
            final(self)@ == (ClickerView { running: !old(self)@.running, ..old(self)@ }),
    {
        let current = self.is_running;
        self.is_running = !current;
    }

    pub fn is_running(&self) -> (running: bool)
        ensures
            running == self@.running,
    {
        self.is_running
    }

    pub fn min_cps(&self) -> (value: u32)
        ensures
            value as nat == self@.min_cps,
    {
        self.min_cps
    }

    pub fn max_cps(&self) -> (value: u32)
        ensures
            value as nat == self@.max_cps,
    {
        self.max_cps
    }

    pub fn click_mode(&self) -> (mode: ClickMode)
        ensures
            mode == self@.mode,
    {
        self.click_mode
    }

    pub fn left_pressed(&self) -> (held: bool)
        ensures
            held == self@.left_held,
    {
        self.left_pressed
    }

    pub fn right_pressed(&self) -> (held: bool)
        ensures
            held == self@.right_held,
    {
        self.right_pressed
    }

    pub fn window_title(&self) -> (title: &str)
        ensures
            title@ == self@.window_title,
    {
        self.window_title.as_str()
    }

    /// Whether `title` is this program's own window title.
    pub fn owns_window(&self, title: &str) -> (own: bool)
        ensures
            own == (title@ == self@.window_title),
    {
        let candidate = title.to_owned();
        candidate == self.window_title
    }

    /// Records the physical state of both buttons.
    pub(crate) fn set_held(&mut self, left: bool, right: bool)
        ensures
            final(self)@ == (ClickerView { left_held: left, right_held: right, ..old(self)@ }),
    {
        self.left_pressed = left;
        self.right_pressed = right;
    }
}

} // verus!
