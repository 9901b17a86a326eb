//! The click engine: what one cycle does, given the shared state, the title of
//! the window in front and the rate drawn for the cycle.

use vstd::prelude::*;
use crate::clicker::{AutoClicker, ClickMode, ClickerView};
use crate::observer::MouseButton;

verus! {

/// How long the engine sleeps, in milliseconds, before it looks again while
/// it is stopped. A shorter interval answers a toggle sooner and costs more
/// wake-ups.
pub const IDLE_INTERVAL_MS: u64 = 10;

/// How long a synthesized click keeps the button down, in milliseconds.
pub const CLICK_HOLD_MS: u64 = 1;

/// What a click is taken to cost of a cycle, in milliseconds.
pub const CLICK_OVERHEAD_MS: u64 = 2;

/// The longest delay a cycle can have: that of a rate of zero.
pub const NEVER_MS: u64 = 0xFFFF_FFFF_FFFF_FFFD;

/// One thing the engine's driver does.
#[derive(PartialEq, Eq, Structural, Clone, Copy, Debug)]
pub enum EngineAction {
    /// Synthesize a button-down event in the focused window.
    ButtonDown(MouseButton),
    /// Synthesize a button-up event in the focused window.
    ButtonUp(MouseButton),
    /// Sleep for so many milliseconds.
    Sleep(u64),
}

/// What the engine does in one cycle.
#[derive(PartialEq, Eq, Structural, Clone, Copy, Debug)]
pub struct CyclePlan {
    pub click_left: bool,
    pub click_right: bool,
    pub sleep_ms: u64,
}

/// The delay after a cycle at `cps` clicks per second, in milliseconds:
/// `floor(1000 / cps)` less the click overhead, and 0 where that would be
/// negative. A rate of zero never comes round: its delay is [`NEVER_MS`].
pub open spec fn spec_cycle_delay_ms(cps: nat) -> nat {
    if cps == 0 {
        NEVER_MS as nat
    } else if 1000nat / cps >= 2 {
        (1000nat / cps - 2) as nat
    } else {
        0
    }
}

/// Whether `cps` is a rate that a draw from the band `min..=max` may give.
/// A band with `min > max` stands for the single rate `min`.
pub open spec fn spec_in_band(min: nat, max: nat, cps: nat) -> bool {
    if min <= max {
        min <= cps <= max
    } else {
        cps == min
    }
}

/// Whether a click is synthesized for `button` this cycle: the engine runs,
/// the window in front is not the program's own, the button is held and the
/// mode selects it.
pub open spec fn spec_clicks(s: ClickerView, active_title: Seq<char>, button: MouseButton) -> bool {
    s.running && active_title != s.window_title && match button {
        MouseButton::Left => s.left_held && s.mode.selects_left(),
        MouseButton::Right => s.right_held && s.mode.selects_right(),
    }
}

/// The cycle that state `s` calls for when the window in front is titled
/// `active_title` and `cps` is the rate drawn for it. A stopped engine only
/// idles.
pub open spec fn spec_plan_cycle(s: ClickerView, active_title: Seq<char>, cps: nat) -> CyclePlan {
    CyclePlan {
        click_left: spec_clicks(s, active_title, MouseButton::Left),
        click_right: spec_clicks(s, active_title, MouseButton::Right),
        sleep_ms: if s.running {
            spec_cycle_delay_ms(cps) as u64
        } else {
            IDLE_INTERVAL_MS
        },
    }
}

/// A click of `button`: down, hold, up.
pub open spec fn spec_click_actions(button: MouseButton) -> Seq<EngineAction> {
    seq![
        EngineAction::ButtonDown(button),
        EngineAction::Sleep(CLICK_HOLD_MS),
        EngineAction::ButtonUp(button),
    ]
}

/// The actions of a plan in the order they are done: the left click if any,
/// the right click if any, then the sleep.
pub open spec fn spec_actions(plan: CyclePlan) -> Seq<EngineAction> {
    (if plan.click_left {
        spec_click_actions(MouseButton::Left)
    } else {
        Seq::empty()
    }) + (if plan.click_right {
        spec_click_actions(MouseButton::Right)
    } else {
        Seq::empty()
    }) + seq![EngineAction::Sleep(plan.sleep_ms)]
}

pub fn cycle_delay_ms(cps: u32) -> (delay: u64)
    ensures
        delay as nat == spec_cycle_delay_ms(cps as nat),
        cps > 0 ==> delay <= 998,
{
    if cps == 0 {
        NEVER_MS
    } else {
        let total_cycle_time: u64 = 1000 / (cps as u64);
        assert(total_cycle_time <= 1000) by (nonlinear_arith)
            requires
                total_cycle_time == 1000int / (cps as int),
                cps > 0,
        ;
        if total_cycle_time >= CLICK_OVERHEAD_MS {
            total_cycle_time - CLICK_OVERHEAD_MS
        } else {
            0
        }
    }
}

/// `rand::rngs::ThreadRng`, carried through as an opaque value.
#[verifier::external_type_specification]
#[verifier::external_body]
pub struct ExThreadRng(rand::rngs::ThreadRng);

/// `rand::thread_rng`: a handle to the calling thread's generator, which the
/// system seeds once per thread. Nothing is claimed of the handle. The call
/// panics where the system cannot seed the generator, which no argument
/// decides.
pub assume_specification[ rand::thread_rng ]() -> (rng: rand::rngs::ThreadRng);

/// `Rng::gen_range` on an inclusive range of `u32`. Claimed: the value lies in
/// `low..=high`. Which value it is depends on the generator and is left open;
/// that the draws are uniform is not stated. An empty range makes the call
/// panic, so `low <= high` is required.
#[verifier::external_body]
fn gen_range_inclusive(rng: &mut rand::rngs::ThreadRng, low: u32, high: u32) -> (value: u32)
    requires
        low <= high,
    ensures
        low <= value <= high,
{
    rand::Rng::gen_range(rng, low..=high)
}

/// Draws the rate of a cycle from the band `min..=max`; a band with
/// `min > max` gives `min`.
pub fn draw_cps(min: u32, max: u32) -> (cps: u32)
    ensures
        spec_in_band(min as nat, max as nat, cps as nat),
{
    if min <= max {
        let mut rng = rand::thread_rng();
        gen_range_inclusive(&mut rng, min, max)
    } else {
        min
    }
}

impl CyclePlan {
    /// The plan's actions, in order.
    pub fn actions(&self) -> (list: Vec<EngineAction>)
        ensures
            list@ == spec_actions(*self),
    {
        let mut list: Vec<EngineAction> = Vec::new();
        if self.click_left {
            list.push(EngineAction::ButtonDown(MouseButton::Left));
            list.push(EngineAction::Sleep(CLICK_HOLD_MS));
            list.push(EngineAction::ButtonUp(MouseButton::Left));
        }
        if self.click_right {
            list.push(EngineAction::ButtonDown(MouseButton::Right));
            list.push(EngineAction::Sleep(CLICK_HOLD_MS));
            list.push(EngineAction::ButtonUp(MouseButton::Right));
        }
        list.push(EngineAction::Sleep(self.sleep_ms));
        assert(list@ =~= spec_actions(*self));
        list
    }
}

impl AutoClicker {
    /// Plans one cycle for a given rate.
    pub fn plan_cycle(&self, active_title: &str, cps: u32) -> (plan: CyclePlan)
        ensures
            plan == spec_plan_cycle(self@, active_title@, cps as nat),
    {
        if !self.is_running() {
            return CyclePlan { click_left: false, click_right: false, sleep_ms: IDLE_INTERVAL_MS };
        }
        let foreign = !self.owns_window(active_title);
        let (left, right) = match self.click_mode() {
            ClickMode::Left => (self.left_pressed(), false),
            ClickMode::Right => (false, self.right_pressed()),
            ClickMode::Both => (self.left_pressed(), self.right_pressed()),
        };
        CyclePlan {
            click_left: foreign && left,
            click_right: foreign && right,
            sleep_ms: cycle_delay_ms(cps),
        }
    }

    /// Plans one cycle, drawing its rate from the bounds as they are now.
    /// While the engine is stopped no rate is drawn.
    pub fn next_cycle(&self, active_title: &str) -> (plan: CyclePlan)
        ensures
            plan.click_left == spec_clicks(self@, active_title@, MouseButton::Left),
            plan.click_right == spec_clicks(self@, active_title@, MouseButton::Right),
            !self@.running ==> plan.sleep_ms == IDLE_INTERVAL_MS,
            exists|cps: u32|
                spec_in_band(self@.min_cps, self@.max_cps, cps as nat) && plan == #[trigger] spec_plan_cycle(
                    self@,
                    active_title@,
                    cps as nat,
                ),
    {
        let cps: u32 = if self.is_running() {
            draw_cps(self.min_cps(), self.max_cps())
        } else {
            self.min_cps()
        };
        let plan = self.plan_cycle(active_title, cps);
        assert(spec_in_band(self@.min_cps, self@.max_cps, cps as nat) && plan == spec_plan_cycle(
            self@,
            active_title@,
            cps as nat,
        ));
        plan
    }
}

/// The delay is the largest whole number of milliseconds that, with the click
/// overhead added, fits into a `cps`-th of a second, wherever one fits.
pub proof fn lemma_delay_fills_period(cps: nat)
    requires
        1 <= cps <= 500,
    ensures
        (spec_cycle_delay_ms(cps) + 2) * cps <= 1000,
        1000 < (spec_cycle_delay_ms(cps) + 3) * cps,
{
    let q = 1000nat / cps;
    assert(q * cps <= 1000 < (q + 1) * cps && q >= 2) by (nonlinear_arith)
        requires
            q == 1000nat / cps,
            1 <= cps <= 500,
    ;
}

/// At rates too high for the overhead to fit the delay is 0, never negative.
pub proof fn lemma_delay_saturates(cps: nat)
    requires
        cps >= 1,
    ensures
        spec_cycle_delay_ms(cps) == 0 <==> cps > 333,
        spec_cycle_delay_ms(cps) <= 998,
{
    let q = 1000nat / cps;
    assert((q <= 2 <==> cps > 333) && q <= 1000) by (nonlinear_arith)
        requires
            q == 1000nat / cps,
            cps >= 1,
    ;
}

/// A higher rate never has a longer delay.
pub proof fn lemma_delay_monotone(slow: nat, fast: nat)
    requires
        1 <= slow <= fast,
    ensures
        spec_cycle_delay_ms(fast) <= spec_cycle_delay_ms(slow),
{
    vstd::arithmetic::div_mod::lemma_div_is_ordered_by_denominator(1000, slow as int, fast as int);
}

/// Every rate of a well-formed band lies in the band and has a delay between
/// those of the band's ends.
pub proof fn lemma_band_bounds_delay(min: nat, max: nat, cps: nat)
    requires
        1 <= min <= max,
        spec_in_band(min, max, cps),
    ensures
        min <= cps <= max,
        spec_cycle_delay_ms(max) <= spec_cycle_delay_ms(cps) <= spec_cycle_delay_ms(min),
{
    lemma_delay_monotone(min, cps);
    lemma_delay_monotone(cps, max);
}

/// While the window in front is the program's own, no cycle clicks, whatever
/// the flags, the mode and the rate.
pub proof fn lemma_own_window_never_clicked(s: ClickerView, cps: nat)
    ensures
        !spec_plan_cycle(s, s.window_title, cps).click_left,
        !spec_plan_cycle(s, s.window_title, cps).click_right,
        spec_actions(spec_plan_cycle(s, s.window_title, cps)) == seq![
            EngineAction::Sleep(spec_plan_cycle(s, s.window_title, cps).sleep_ms),
        ],
{
    let plan = spec_plan_cycle(s, s.window_title, cps);
    assert(spec_actions(plan) =~= seq![EngineAction::Sleep(plan.sleep_ms)]);
}

/// A stopped engine never clicks and sleeps the idle interval.
pub proof fn lemma_stopped_only_idles(s: ClickerView, active_title: Seq<char>, cps: nat)
    requires
        !s.running,
    ensures
        spec_plan_cycle(s, active_title, cps) == (CyclePlan {
            click_left: false,
            click_right: false,
            sleep_ms: IDLE_INTERVAL_MS,
        }),
{
}

/// A running engine in front of another window clicks exactly the held
/// buttons that the mode selects: the left one alone in `Left`, the right one
/// alone in `Right`, each of them in `Both`.
pub proof fn lemma_mode_selects_clicks(s: ClickerView, active_title: Seq<char>, cps: nat)
    requires
        s.running,
        active_title != s.window_title,
    ensures
        s.mode == ClickMode::Left ==> spec_plan_cycle(s, active_title, cps).click_left
            == s.left_held && !spec_plan_cycle(s, active_title, cps).click_right,
        s.mode == ClickMode::Right ==> spec_plan_cycle(s, active_title, cps).click_right
            == s.right_held && !spec_plan_cycle(s, active_title, cps).click_left,
        s.mode == ClickMode::Both ==> spec_plan_cycle(s, active_title, cps).click_left
            == s.left_held && spec_plan_cycle(s, active_title, cps).click_right == s.right_held,
{
}

} // verus!
