//! Debouncing a button into discrete clicks.
//!
//! Each physical button is watched by one monitor that alternates between
//! waiting for the line's active (pressed) level and waiting for its
//! inactive (released) level. A click fires exactly on the press edge: the
//! monitor then blocks on the release edge before it can fire again, so one
//! press contributes one impulse however long the button is held.
//!
//! The monitor here is the pure decision core: the embedding task suspends
//! on the line, feeds each observed level to [`ButtonMonitor::on_level`],
//! and forwards any fired impulse to the shared accumulator.

use vstd::prelude::*;

verus! {

/// The electrical level a button monitor observes on its input line.
#[derive(Clone, Copy, PartialEq, Eq, Structural, Debug)]
pub enum LineLevel {
    /// The pressed level of the line.
    Active,
    /// The released level of the line.
    Inactive,
}

/// Which edge a monitor is waiting on.
#[derive(Clone, Copy, PartialEq, Eq, Structural, Debug)]
pub enum MonitorPhase {
    /// Waiting for the line to go active; the next active level fires a click.
    WaitPress,
    /// Waiting for the line to go inactive; no level fires a click.
    WaitRelease,
}

/// The debounce state machine of one button.
pub struct ButtonMonitor {
    /// The edge currently waited on; a fresh monitor waits for a press.
    pub phase: MonitorPhase,
    /// The fixed signed impulse that one click on this button contributes.
    pub step: i32,
}

/// The phase a monitor is in after it observes one level.
pub open spec fn phase_step(phase: MonitorPhase, level: LineLevel) -> MonitorPhase {
    match (phase, level) {
        (MonitorPhase::WaitPress, LineLevel::Active) => MonitorPhase::WaitRelease,
        (MonitorPhase::WaitRelease, LineLevel::Inactive) => MonitorPhase::WaitPress,
        _ => phase,
    }
}

/// Whether observing one level fires a click: only the press edge does.
pub open spec fn fires_on(phase: MonitorPhase, level: LineLevel) -> bool {
    phase is WaitPress && level is Active
}

impl ButtonMonitor {
    /// A fresh monitor for a button contributing `step` per click.
    pub fn new(step: i32) -> (r: ButtonMonitor)
        ensures
            r.phase is WaitPress,
            r.step == step,
    {
        ButtonMonitor { phase: MonitorPhase::WaitPress, step }
    }

    /// Feed one observed line level to the monitor. Returns `Some(step)`
    /// exactly when a click fires, that is, on the press edge: the monitor
    /// was waiting for a press and the line is at its active level.
    pub fn on_level(&mut self, level: LineLevel) -> (fired: Option<i32>)
        ensures
            final(self).step == old(self).step,
            final(self).phase == phase_step(old(self).phase, level),
            fired == if fires_on(old(self).phase, level) {
                Some(old(self).step)
            } else {
                Option::<i32>::None
            },
    {
        match (self.phase, level) {
            (MonitorPhase::WaitPress, LineLevel::Active) => {
                self.phase = MonitorPhase::WaitRelease;
                Some(self.step)
            },
            (MonitorPhase::WaitRelease, LineLevel::Inactive) => {
                self.phase = MonitorPhase::WaitPress;
                None
            },
            _ => None,
        }
    }
}

/// The phase a monitor is in after it observes a whole sequence of levels.
pub open spec fn phase_after(phase: MonitorPhase, levels: Seq<LineLevel>) -> MonitorPhase
    decreases levels.len(),
{
    if levels.len() == 0 {
        phase
    } else {
        phase_step(phase_after(phase, levels.drop_last()), levels.last())
    }
}

/// How many clicks a monitor fires while observing a sequence of levels.
pub open spec fn fire_count(phase: MonitorPhase, levels: Seq<LineLevel>) -> nat
    decreases levels.len(),
{
    if levels.len() == 0 {
        0
    } else {
        fire_count(phase, levels.drop_last()) + if fires_on(
            phase_after(phase, levels.drop_last()),
            levels.last(),
        ) {
            1nat
        } else {
            0nat
        }
    }
}

/// Runs compose: a monitor observing `s` then `t` fires as often as over
/// `s` plus as often as over `t` started from where `s` left it.
pub proof fn lemma_run_compose(phase: MonitorPhase, s: Seq<LineLevel>, t: Seq<LineLevel>)
    ensures
        phase_after(phase, s + t) == phase_after(phase_after(phase, s), t),
        fire_count(phase, s + t) == fire_count(phase, s) + fire_count(phase_after(phase, s), t),
    decreases t.len(),
{
    if t.len() == 0 {
        assert(s + t =~= s);
    } else {
        lemma_run_compose(phase, s, t.drop_last());
        assert((s + t).drop_last() =~= s + t.drop_last());
        assert((s + t).last() == t.last());
    }
}

/// Debounce single-fire, held: a monitor that waits for a press and then
/// observes the active level for any positive number of observations fires
/// exactly one click, and ends up waiting for the release.
pub proof fn lemma_held_single_fire(levels: Seq<LineLevel>)
    requires
        levels.len() >= 1,
        forall|i: int| 0 <= i < levels.len() ==> levels[i] is Active,
    ensures
        fire_count(MonitorPhase::WaitPress, levels) == 1,
        phase_after(MonitorPhase::WaitPress, levels) is WaitRelease,
    decreases levels.len(),
{
    assert(levels.last() is Active);
    if levels.len() == 1 {
        assert(levels.drop_last().len() == 0);
        assert(fire_count(MonitorPhase::WaitPress, levels.drop_last()) == 0);
        assert(phase_after(MonitorPhase::WaitPress, levels.drop_last()) is WaitPress);
    } else {
        assert forall|i: int| 0 <= i < levels.drop_last().len() implies levels.drop_last()[i] is Active by {
            assert(levels.drop_last()[i] == levels[i]);
        }
        lemma_held_single_fire(levels.drop_last());
    }
}

/// A release fires nothing: a monitor waiting for the release that observes
/// the inactive level for any number of observations fires no click and ends
/// up waiting for the next press.
pub proof fn lemma_release_fires_nothing(levels: Seq<LineLevel>)
    requires
        levels.len() >= 1,
        forall|i: int| 0 <= i < levels.len() ==> levels[i] is Inactive,
    ensures
        fire_count(MonitorPhase::WaitRelease, levels) == 0,
        phase_after(MonitorPhase::WaitRelease, levels) is WaitPress,
    decreases levels.len(),
{
    assert(levels.last() is Inactive);
    if levels.len() == 1 {
        assert(levels.drop_last().len() == 0);
        assert(fire_count(MonitorPhase::WaitRelease, levels.drop_last()) == 0);
        assert(phase_after(MonitorPhase::WaitRelease, levels.drop_last()) is WaitRelease);
    } else {
        assert forall|i: int| 0 <= i < levels.drop_last().len() implies levels.drop_last()[i] is Inactive by {
            assert(levels.drop_last()[i] == levels[i]);
        }
        lemma_release_fires_nothing(levels.drop_last());
    }
}

/// Debounce single-fire, whole run: however long the button is held, then
/// released, then held again, the monitor fires exactly once per press —
/// two clicks for the two presses, wherever the run is cut off.
pub proof fn lemma_press_release_press_fires_twice(
    held: Seq<LineLevel>,
    released: Seq<LineLevel>,
    pressed_again: Seq<LineLevel>,
)
    requires
        held.len() >= 1,
        released.len() >= 1,
        pressed_again.len() >= 1,
        forall|i: int| 0 <= i < held.len() ==> held[i] is Active,
        forall|i: int| 0 <= i < released.len() ==> released[i] is Inactive,
        forall|i: int| 0 <= i < pressed_again.len() ==> pressed_again[i] is Active,
    ensures
        fire_count(MonitorPhase::WaitPress, held + released + pressed_again) == 2,
{
    lemma_held_single_fire(held);
    lemma_release_fires_nothing(released);
    lemma_held_single_fire(pressed_again);
    lemma_run_compose(MonitorPhase::WaitPress, held, released);
    lemma_run_compose(MonitorPhase::WaitPress, held + released, pressed_again);
}

} // verus!
