//! The timed toggle loop: drives one pin of a port through a deterministic
//! high/low sequence described by a schedule of (transition, hold-duration)
//! steps that repeats indefinitely. One call runs one full iteration of the
//! repeating sequence; the caller loops forever.
//!
//! Two sequencing policies are provided as configurations: a uniform toggle
//! (a 50%-duty-cycle square wave) and a patterned toggle (a blink burst
//! followed by a long pause).

use vstd::prelude::*;

use crate::bits::bit_set;
use crate::delay::delay;
use crate::port::Port;

verus! {

/// One step of a toggle schedule: whether to invert the pin's level, and
/// how many busy-wait cycles to hold afterwards.
#[derive(Clone, Copy)]
pub struct ToggleStep {
    /// Whether this step inverts the driven level.
    pub toggle: bool,
    /// The busy-wait cycle count held after the transition.
    pub hold: u32,
}

/// A sequencing policy for the toggle loop: the sequence of
/// (transition, hold-duration) steps that one full iteration performs.
pub struct ToggleSchedule {
    /// The steps of one full iteration, in order.
    pub steps: Vec<ToggleStep>,
}

/// The level a pin driven at `start` holds after the given schedule steps
/// have run: each step with a transition inverts the level.
pub open spec fn level_after(start: bool, steps: Seq<ToggleStep>) -> bool
    decreases steps.len(),
{
    if steps.len() == 0 {
        start
    } else {
        let before_last = level_after(start, steps.drop_last());
        if steps.last().toggle {
            !before_last
        } else {
            before_last
        }
    }
}

/// How many of the given schedule steps invert the level.
pub open spec fn toggle_count(steps: Seq<ToggleStep>) -> nat
    decreases steps.len(),
{
    if steps.len() == 0 {
        0
    } else {
        toggle_count(steps.drop_last()) + if steps.last().toggle {
            1nat
        } else {
            0nat
        }
    }
}

/// The hold durations of the given schedule steps, in order.
pub open spec fn holds_of(steps: Seq<ToggleStep>) -> Seq<u32> {
    steps.map_values(|step: ToggleStep| step.hold)
}

/// At most every step inverts the level: the number of transitions never
/// exceeds the number of steps.
pub proof fn lemma_toggle_count_bound(steps: Seq<ToggleStep>)
    ensures
        toggle_count(steps) <= steps.len(),
    decreases steps.len(),
{
    if steps.len() > 0 {
        lemma_toggle_count_bound(steps.drop_last());
    }
}

/// The level after a schedule depends only on the parity of its transition
/// count: an even number of toggles returns to the starting level, an odd
/// number inverts it.
pub proof fn lemma_level_after_parity(start: bool, steps: Seq<ToggleStep>)
    ensures
        level_after(start, steps) == if toggle_count(steps) % 2 == 0 {
            start
        } else {
            !start
        },
    decreases steps.len(),
{
    if steps.len() > 0 {
        lemma_level_after_parity(start, steps.drop_last());
    }
}

/// What one full iteration of the toggle loop did, as recorded by the loop:
/// each delay invocation with its duration, the level observed after each
/// step, and how many toggle invocations were made.
pub struct RunLog {
    /// The number of toggle invocations made.
    pub toggles: usize,
    /// The duration handed to each delay invocation, in order.
    pub delays: Vec<u32>,
    /// The level observed on the pin after each step, in order.
    pub levels: Vec<bool>,
}

impl ToggleSchedule {
    /// The uniform toggle policy: invert, hold a fixed duration, invert
    /// again, hold the same duration — a 50%-duty-cycle square wave.
    pub fn uniform(hold: u32) -> (schedule: Self)
        ensures
            schedule.steps@.len() == 2,
            forall|i: int|
                0 <= i < 2 ==> schedule.steps@[i].toggle && schedule.steps@[i].hold == hold,
            toggle_count(schedule.steps@) == 2,
            forall|start: bool| #[trigger] level_after(start, schedule.steps@) == start,
    {
        let mut steps: Vec<ToggleStep> = Vec::new();
        steps.push(ToggleStep { toggle: true, hold });
        steps.push(ToggleStep { toggle: true, hold });
        let schedule = ToggleSchedule { steps };
        proof {
            let s = schedule.steps@;
            let s1 = s.drop_last();
            assert(s1.drop_last().len() == 0);
            assert(toggle_count(s1.drop_last()) == 0);
            assert(s1.last() == s[0]);
            assert(toggle_count(s1) == 1);
            assert(toggle_count(s) == 2);
            assert forall|start: bool| #[trigger] level_after(start, s) == start by {
                lemma_level_after_parity(start, s);
            }
        }
        schedule
    }

    /// The patterned toggle policy: invert four times with a short hold
    /// between each, then hold through one long pause without a transition
    /// — a blink burst followed by a pause.
    pub fn patterned(short: u32, long: u32) -> (schedule: Self)
        ensures
            schedule.steps@.len() == 5,
            forall|i: int|
                0 <= i < 4 ==> schedule.steps@[i].toggle && schedule.steps@[i].hold == short,
            !schedule.steps@[4].toggle,
            schedule.steps@[4].hold == long,
            toggle_count(schedule.steps@) == 4,
            forall|start: bool| #[trigger] level_after(start, schedule.steps@) == start,
    {
        let mut steps: Vec<ToggleStep> = Vec::new();
        steps.push(ToggleStep { toggle: true, hold: short });
        steps.push(ToggleStep { toggle: true, hold: short });
        steps.push(ToggleStep { toggle: true, hold: short });
        steps.push(ToggleStep { toggle: true, hold: short });
        steps.push(ToggleStep { toggle: false, hold: long });
        let schedule = ToggleSchedule { steps };
        proof {
            let s = schedule.steps@;
            let s4 = s.drop_last();
            let s3 = s4.drop_last();
            let s2 = s3.drop_last();
            let s1 = s2.drop_last();
            assert(s1.drop_last().len() == 0);
            assert(toggle_count(s1.drop_last()) == 0);
            assert(s1.last() == s[0]);
            assert(toggle_count(s1) == 1);
            assert(s2.last() == s[1]);
            assert(toggle_count(s2) == 2);
            assert(s3.last() == s[2]);
            assert(toggle_count(s3) == 3);
            assert(s4.last() == s[3]);
            assert(toggle_count(s4) == 4);
            assert(toggle_count(s) == 4);
            assert forall|start: bool| #[trigger] level_after(start, s) == start by {
                lemma_level_after_parity(start, s);
            }
        }
        schedule
    }
}

/// Runs one full iteration of the toggle loop on one pin of a port,
/// configured as output: for each step of the schedule, a step with a
/// transition reads the pin's observed level and drives the inverted level
/// back, and every step then holds through one busy-wait delay of its
/// duration. The direction register, the external line, every other pin of
/// the output register and the bound addresses are untouched, and the pin
/// ends at the level the schedule prescribes.
pub fn run_schedule_once(port: &mut Port, pin: u8, schedule: &ToggleSchedule) -> (log: RunLog)
    requires
        pin < 8,
        bit_set(old(port)@.ddr, pin),
    ensures
        final(port)@.ddr == old(port)@.ddr,
        final(port)@.line == old(port)@.line,
        final(port)@.ddr_addr == old(port)@.ddr_addr,
        final(port)@.port_addr == old(port)@.port_addr,
        final(port)@.pin_addr == old(port)@.pin_addr,
        forall|other: u8|
            other < 8 && other != pin ==> bit_set(final(port)@.out, other) == bit_set(
                old(port)@.out,
                other,
            ),
        bit_set(final(port)@.out, pin) == level_after(
            bit_set(old(port)@.out, pin),
            schedule.steps@,
        ),
        log.toggles == toggle_count(schedule.steps@),
        log.delays@ == holds_of(schedule.steps@),
        log.levels@.len() == schedule.steps@.len(),
        forall|i: int|
            0 <= i < schedule.steps@.len() ==> log.levels@[i] == level_after(
                bit_set(old(port)@.out, pin),
                schedule.steps@.take(i + 1),
            ),
{
    let ghost orig: crate::port::PortView = port@;
    let ghost start: bool = bit_set(orig.out, pin);
    let mut log = RunLog { toggles: 0, delays: Vec::new(), levels: Vec::new() };
    let mut idx: usize = 0;
    while idx < schedule.steps.len()
        invariant
            pin < 8,
            idx <= schedule.steps@.len(),
            bit_set(orig.ddr, pin),
            start == bit_set(orig.out, pin),
            port@.ddr == orig.ddr,
            port@.line == orig.line,
            port@.ddr_addr == orig.ddr_addr,
            port@.port_addr == orig.port_addr,
            port@.pin_addr == orig.pin_addr,
            forall|other: u8|
                other < 8 && other != pin ==> bit_set(port@.out, other) == bit_set(
                    orig.out,
                    other,
                ),
            bit_set(port@.out, pin) == level_after(start, schedule.steps@.take(idx as int)),
            log.toggles as nat == toggle_count(schedule.steps@.take(idx as int)),
            log.delays@ == holds_of(schedule.steps@.take(idx as int)),
            log.levels@.len() == idx,
            forall|i: int|
                0 <= i < idx ==> log.levels@[i] == level_after(
                    start,
                    schedule.steps@.take(i + 1),
                ),
        decreases schedule.steps@.len() - idx,
    {
        proof {
            assert(schedule.steps@.take(idx as int + 1).drop_last() =~= schedule.steps@.take(
                idx as int,
            ));
            assert(schedule.steps@.take(idx as int + 1).last() == schedule.steps@[idx as int]);
            lemma_toggle_count_bound(schedule.steps@.take(idx as int));
        }
        let step = schedule.steps[idx];
        if step.toggle {
            let current = port.read_pin(pin);
            port.set_pin_state(pin, !current);
            log.toggles = log.toggles + 1;
        }
        delay(step.hold);
        log.delays.push(step.hold);
        let observed = port.read_pin(pin);
        log.levels.push(observed);
        idx = idx + 1;
        proof {
            assert(holds_of(schedule.steps@.take(idx as int)) =~= holds_of(
                schedule.steps@.take(idx as int - 1),
            ).push(step.hold));
        }
    }
    proof {
        assert(schedule.steps@.take(schedule.steps@.len() as int) =~= schedule.steps@);
    }
    log
}

} // verus!
