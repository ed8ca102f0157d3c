//! The blink loop's decision logic: once per tick it samples the shared
//! health flag and issues a pattern of line commands and waits. The loop
//! itself, the timer waits and the actual actor calls run in the surrounding
//! task; this module decides what each tick does.

use crate::led::{level_of, LedCommand, PinLevel};
use vstd::prelude::*;

verus! {

/// One instruction of the blink pattern: drive the line, or wait this many
/// milliseconds.
#[derive(Clone, Copy, PartialEq, Eq, Debug, Structural)]
pub enum BlinkStep {
    Drive(LedCommand),
    Wait(u32),
}

/// The blink loop's tick period, in milliseconds.
pub const TICK_MS: u32 = 500;

/// What one tick issues, decided by the sampled health flag: a healthy link
/// shows steady on; an unhealthy one blinks off, waits, then back on. The
/// flag is sampled once per tick, so a change between ticks is observed at
/// the next tick at the latest.
pub open spec fn tick_steps(health: bool) -> Seq<BlinkStep> {
    if health {
        seq![BlinkStep::Drive(LedCommand::On), BlinkStep::Wait(TICK_MS)]
    } else {
        seq![
            BlinkStep::Drive(LedCommand::Off),
            BlinkStep::Wait(TICK_MS),
            BlinkStep::Drive(LedCommand::On),
            BlinkStep::Wait(TICK_MS),
        ]
    }
}

/// One blink-loop tick: issue the pattern for the sampled flag value.
pub fn led_check_tick(health: bool) -> (steps: Vec<BlinkStep>)
    ensures
        steps@ == tick_steps(health),
{
    let mut steps: Vec<BlinkStep> = Vec::new();
    if health {
        steps.push(BlinkStep::Drive(LedCommand::On));
        steps.push(BlinkStep::Wait(TICK_MS));
    } else {
        steps.push(BlinkStep::Drive(LedCommand::Off));
        steps.push(BlinkStep::Wait(TICK_MS));
        steps.push(BlinkStep::Drive(LedCommand::On));
        steps.push(BlinkStep::Wait(TICK_MS));
    }
    proof {
        assert(steps@ =~= tick_steps(health));
    }
    steps
}

/// The steps issued over `n` consecutive ticks during which every sample of
/// the health flag read the same constant value.
pub open spec fn blink_trace(health: bool, n: nat) -> Seq<BlinkStep>
    decreases n,
{
    if n == 0 {
        Seq::empty()
    } else {
        tick_steps(health) + blink_trace(health, (n - 1) as nat)
    }
}

/// The line level a step leaves: a drive sets it, a wait keeps it.
pub open spec fn step_level(l: PinLevel, s: BlinkStep) -> PinLevel {
    match s {
        BlinkStep::Drive(c) => level_of(c),
        BlinkStep::Wait(_) => l,
    }
}

/// The line level after applying the steps in order, starting from `start`.
pub open spec fn level_after(start: PinLevel, steps: Seq<BlinkStep>) -> PinLevel
    decreases steps.len(),
{
    if steps.len() == 0 {
        start
    } else {
        level_after(step_level(start, steps[0]), steps.drop_first())
    }
}

/// A run of steps none of which drives the line low leaves a high line high.
proof fn lemma_no_off_stays_high(start: PinLevel, steps: Seq<BlinkStep>)
    requires
        start == PinLevel::High,
        forall|i: int| 0 <= i < steps.len() ==> steps[i] != BlinkStep::Drive(LedCommand::Off),
    ensures
        level_after(start, steps) == PinLevel::High,
    decreases steps.len(),
{
    if steps.len() > 0 {
        assert(steps[0] != BlinkStep::Drive(LedCommand::Off));
        assert(step_level(start, steps[0]) == PinLevel::High);
        assert(forall|i: int|
            0 <= i < steps.drop_first().len() ==> steps.drop_first()[i] == steps[i + 1]);
        lemma_no_off_stays_high(PinLevel::High, steps.drop_first());
    }
}

/// Steady-on law: over any interval of ticks in which the sampled flag is
/// constantly true, the issued steps repeat the steady-on tick — one turn-on
/// command and a wait per tick, never a turn-off.
pub proof fn lemma_steady_on(n: nat)
    ensures
        blink_trace(true, n).len() == 2 * n,
        forall|i: int| 0 <= i < 2 * n ==> #[trigger] blink_trace(true, n)[i] == tick_steps(true)[i
            % 2],
        forall|i: int| 0 <= i < 2 * n ==> #[trigger] blink_trace(true, n)[i] != BlinkStep::Drive(
            LedCommand::Off,
        ),
    decreases n,
{
    if n > 0 {
        lemma_steady_on((n - 1) as nat);
        let t = tick_steps(true);
        let rest = blink_trace(true, (n - 1) as nat);
        assert(blink_trace(true, n) == t + rest);
        assert forall|i: int| 0 <= i < 2 * n implies #[trigger] blink_trace(true, n)[i]
            == tick_steps(true)[i % 2] by {
            if i < 2 {
                assert((t + rest)[i] == t[i]);
                assert(i % 2 == i);
            } else {
                assert((t + rest)[i] == rest[i - 2]);
                assert(rest[i - 2] == tick_steps(true)[(i - 2) % 2]);
                assert((i - 2) % 2 == i % 2);
            }
        }
        assert(tick_steps(true)[0] != BlinkStep::Drive(LedCommand::Off));
        assert(tick_steps(true)[1] != BlinkStep::Drive(LedCommand::Off));
        assert forall|i: int| 0 <= i < 2 * n implies #[trigger] blink_trace(true, n)[i]
            != BlinkStep::Drive(LedCommand::Off) by {
            assert(blink_trace(true, n)[i] == tick_steps(true)[i % 2]);
            assert(i % 2 == 0 || i % 2 == 1);
        }
    }
}

/// Steady-on level law: during such an interval a line that starts high
/// stays continuously high — after every prefix of the issued steps the
/// level is still high.
pub proof fn lemma_steady_on_level(n: nat, i: int)
    requires
        0 <= i <= blink_trace(true, n).len(),
    ensures
        level_after(PinLevel::High, blink_trace(true, n).take(i)) == PinLevel::High,
{
    lemma_steady_on(n);
    let pre = blink_trace(true, n).take(i);
    assert forall|j: int| 0 <= j < pre.len() implies pre[j] != BlinkStep::Drive(
        LedCommand::Off,
    ) by {
        assert(pre[j] == blink_trace(true, n)[j]);
    }
    lemma_no_off_stays_high(PinLevel::High, pre);
}

/// Blink law: over any interval of ticks in which the sampled flag is
/// constantly false, the issued steps repeat the blink tick — the line is
/// driven low, held for the wait, driven high again, and held until the next
/// tick, once per tick.
pub proof fn lemma_blink_pattern(n: nat)
    ensures
        blink_trace(false, n).len() == 4 * n,
        forall|i: int| 0 <= i < 4 * n ==> #[trigger] blink_trace(false, n)[i] == tick_steps(
            false,
        )[i % 4],
    decreases n,
{
    if n > 0 {
        lemma_blink_pattern((n - 1) as nat);
        let t = tick_steps(false);
        let rest = blink_trace(false, (n - 1) as nat);
        assert(blink_trace(false, n) == t + rest);
        assert forall|i: int| 0 <= i < 4 * n implies #[trigger] blink_trace(false, n)[i]
            == tick_steps(false)[i % 4] by {
            if i < 4 {
                assert((t + rest)[i] == t[i]);
                assert(i % 4 == i);
            } else {
                assert((t + rest)[i] == rest[i - 4]);
                assert(rest[i - 4] == tick_steps(false)[(i - 4) % 4]);
                assert((i - 4) % 4 == i % 4);
            }
        }
    }
}

} // verus!
