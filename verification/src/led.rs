//! The status output line and the actor that serializes access to it.
//!
//! The physical line is owned exclusively by one actor task; every caller
//! hands its request through the actor's mailbox, so writes to the line are
//! totally ordered in arrival order and no two requests interleave.

use vstd::prelude::*;

verus! {

/// The two levels a digital output line can hold.
#[derive(Clone, Copy, PartialEq, Eq, Debug, Structural)]
pub enum PinLevel {
    Low,
    High,
}

/// A request to the status actor: drive the line high (on) or low (off).
#[derive(Clone, Copy, PartialEq, Eq, Debug, Structural)]
pub enum LedCommand {
    On,
    Off,
}

/// The level a single command drives the line to.
pub open spec fn level_of(c: LedCommand) -> PinLevel {
    match c {
        LedCommand::On => PinLevel::High,
        LedCommand::Off => PinLevel::Low,
    }
}

/// The pin-level sequence observed when commands are applied one at a time,
/// in the order given.
pub open spec fn levels_of(cmds: Seq<LedCommand>) -> Seq<PinLevel> {
    cmds.map_values(|c: LedCommand| level_of(c))
}

/// A status-output failure reported by the line's driver. The status light is
/// advisory, so callers log such a failure and carry on; nothing retries it.
#[derive(Clone, Copy, PartialEq, Eq, Debug, Structural)]
pub enum LedError {
    PinDriverFault,
}

/// The exclusively owned status output line.
pub struct Led {
    pub led1: PinLevel,
}

impl Led {
    pub fn new(led2: PinLevel) -> (led: Self)
        ensures
            led.led1 == led2,
    {
        Led { led1: led2 }
    }

    pub fn set_led2_high(&mut self) -> (r: Result<(), LedError>)
        ensures
            r is Ok,
            final(self).led1 == PinLevel::High,
    {
        self.led1 = PinLevel::High;
        Ok(())
    }

    pub fn set_led2_low(&mut self) -> (r: Result<(), LedError>)
        ensures
            r is Ok,
            final(self).led1 == PinLevel::Low,
    {
        self.led1 = PinLevel::Low;
        Ok(())
    }
}

/// The actor that owns the line. Concurrent callers append commands to the
/// mailbox; the actor applies them one at a time in arrival order and records
/// each resulting level in `trace`, so the observed level sequence is a total
/// order consistent with arrival order.
pub struct StatusActor {
    pub led: Led,
    pub pending: Vec<LedCommand>,
    pub trace: Vec<PinLevel>,
}

impl StatusActor {
    pub fn new(led: Led) -> (a: Self)
        ensures
            a.led == led,
            a.pending@ == Seq::<LedCommand>::empty(),
            a.trace@ == Seq::<PinLevel>::empty(),
    {
        StatusActor { led, pending: Vec::new(), trace: Vec::new() }
    }

    /// A caller's request arrives: it joins the mailbox behind every request
    /// that arrived before it. Nothing is applied to the line yet.
    pub fn submit(&mut self, c: LedCommand)
        ensures
            final(self).pending@ == old(self).pending@.push(c),
            final(self).led == old(self).led,
            final(self).trace@ == old(self).trace@,
    {
        self.pending.push(c);
    }

    /// The actor drains its mailbox: each queued command is applied whole
    /// before the next begins, so the trace grows by exactly the commands'
    /// effects in arrival order.
    pub fn run_pending(&mut self)
        ensures
            final(self).pending@ == Seq::<LedCommand>::empty(),
            final(self).trace@ == old(self).trace@ + levels_of(old(self).pending@),
            final(self).led.led1 == if old(self).pending@.len() == 0 {
                old(self).led.led1
            } else {
                level_of(old(self).pending@.last())
            },
    {
        let ghost orig: StatusActor = *self;
        let n: usize = self.pending.len();
        let mut i: usize = 0;
        while i < n
            invariant
                i <= n,
                n == orig.pending.len(),
                self.pending@ == orig.pending@,
                self.trace@ == orig.trace@ + levels_of(orig.pending@.subrange(0, i as int)),
                self.led.led1 == if i == 0 {
                    orig.led.led1
                } else {
                    level_of(orig.pending@[i as int - 1])
                },
            decreases n - i,
        {
            let c = self.pending[i];
            match c {
                LedCommand::On => {
                    let _ = self.led.set_led2_high();
                },
                LedCommand::Off => {
                    let _ = self.led.set_led2_low();
                },
            }
            self.trace.push(self.led.led1);
            proof {
                assert(orig.pending@.subrange(0, i + 1 as int) =~= orig.pending@.subrange(
                    0,
                    i as int,
                ).push(orig.pending@[i as int]));
                assert(levels_of(orig.pending@.subrange(0, i + 1 as int)) =~= levels_of(
                    orig.pending@.subrange(0, i as int),
                ).push(level_of(orig.pending@[i as int])));
            }
            i = i + 1;
        }
        proof {
            assert(orig.pending@.subrange(0, n as int) =~= orig.pending@);
        }
        self.pending.clear();
    }
}

/// The status actor's public face: turn the line on or off. A call delivers
/// one command through the mailbox and completes only after every command
/// that arrived earlier, and then its own, has been applied to the line.
pub trait ILed {
    fn led2_on(&mut self) -> Result<(), LedError>;

    fn led2_off(&mut self) -> Result<(), LedError>;
}

impl ILed for StatusActor {
    fn led2_on(&mut self) -> (r: Result<(), LedError>)
        ensures
            r is Ok,
            final(self).pending@ == Seq::<LedCommand>::empty(),
            final(self).trace@ == old(self).trace@ + levels_of(
                old(self).pending@.push(LedCommand::On),
            ),
            final(self).led.led1 == PinLevel::High,
    {
        self.submit(LedCommand::On);
        self.run_pending();
        Ok(())
    }

    fn led2_off(&mut self) -> (r: Result<(), LedError>)
        ensures
            r is Ok,
            final(self).pending@ == Seq::<LedCommand>::empty(),
            final(self).trace@ == old(self).trace@ + levels_of(
                old(self).pending@.push(LedCommand::Off),
            ),
            final(self).led.led1 == PinLevel::Low,
    {
        self.submit(LedCommand::Off);
        self.run_pending();
        Ok(())
    }
}

/// Serialization law: however calls interleave at the mailbox, the observed
/// pin-level sequence is exactly one level per command, each the effect of
/// the command at the same position in arrival order — no interleaving
/// within a single call.
pub proof fn lemma_levels_follow_arrival(cmds: Seq<LedCommand>)
    ensures
        levels_of(cmds).len() == cmds.len(),
        forall|i: int| 0 <= i < cmds.len() ==> #[trigger] levels_of(cmds)[i] == level_of(cmds[i]),
{
}

} // verus!
