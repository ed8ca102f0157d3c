//! The connection supervisor: the state machine that drives the radio from
//! startup through scan, connect and address assignment, publishes the
//! readiness token, and then watches link liveness forever, retrying every
//! failure at a fixed pause with no cutoff.
//!
//! The supervisor is pure decision logic. The surrounding task performs each
//! requested [`Action`] — the radio, timer and status-actor calls, all of
//! which are suspension points — and hands the outcome back as the next
//! [`Event`]. Every transient link failure is absorbed here and never
//! surfaces to the other tasks; only the health flag and the readiness
//! channel are visible outside.

use crate::channel::ReadinessChannel;
use crate::credentials::Credentials;
use vstd::prelude::*;

verus! {

/// The phase of the wireless link's lifecycle. There is no terminal phase:
/// the supervisor runs for the life of the process.
#[derive(Clone, Copy, PartialEq, Eq, Debug, Structural)]
pub enum LinkState {
    /// Credentials applied to the radio, which has not started yet.
    Idle,
    /// Enumerating visible networks (their list is diagnostic only).
    Scanning,
    /// Association with the configured network is in flight.
    Connecting,
    /// Associated; waiting for the network layer to assign an address.
    Connected,
    /// Address in hand, but the readiness slot still holds the previous
    /// token: the publish stays suspended until the consumer drains it.
    Publishing,
    /// Link established and announced; liveness is checked periodically.
    Monitoring,
    /// A transient failure was detected; a fresh scan is about to begin.
    Reconnecting,
}

/// What the environment reports back to the supervisor at its suspension
/// points.
#[derive(Clone, Copy, PartialEq, Eq, Debug, Structural)]
pub enum Event {
    /// The radio accepted the configuration and started.
    Started,
    /// The scan finished; its results have been logged.
    ScanComplete,
    /// The scan itself failed.
    ScanFailed,
    /// Association succeeded.
    ConnectSucceeded,
    /// Association failed.
    ConnectFailed,
    /// The network layer assigned an address.
    AddressObtained,
    /// The wait for an address failed; the whole attempt counts as a failed
    /// connect.
    AddressWaitFailed,
    /// The consumer drained the readiness slot.
    SlotDrained,
    /// The liveness check saw the link still up.
    LinkAlive,
    /// The liveness check saw the link down.
    LinkLost,
    /// The pause before the next scan has elapsed.
    RetryElapsed,
}

/// The outside work one step asks the environment to perform, in order.
#[derive(Clone, Copy, PartialEq, Eq, Debug, Structural)]
pub enum Action {
    /// Command the status actor to turn the line off.
    LedOff,
    /// Enumerate visible networks and log them.
    StartScan,
    /// Attempt association with the configured network.
    StartConnect,
    /// Wait for the network layer to assign an address.
    AwaitAddress,
    /// Deliver the readiness token the model slot just accepted.
    PublishToken,
    /// Query link liveness once.
    CheckLink,
    /// Pause this many milliseconds, then hand back [`Event::RetryElapsed`].
    Delay(u32),
}

/// The fixed pause between failed connect attempts; it never grows and is
/// never given up on.
pub const RETRY_DELAY_MS: u32 = 5000;

/// The period of the liveness check while monitoring.
pub const MONITOR_PERIOD_MS: u32 = 1000;

/// The connection supervisor: the credentials it was started with, the link
/// phase, the health flag it publishes for the blink loop, and the readiness
/// slot it feeds the consumer through.
pub struct Supervisor {
    pub config: Credentials,
    pub link: LinkState,
    pub health: bool,
    pub channel: ReadinessChannel,
}

/// The supervisor's transition function: the state after `e` is handled in
/// `s`. An event that cannot occur in the current phase changes nothing.
pub open spec fn next_state(s: Supervisor, e: Event) -> Supervisor {
    match (s.link, e) {
        (LinkState::Idle, Event::Started) => Supervisor {
            link: LinkState::Scanning,
            health: false,
            ..s
        },
        (LinkState::Scanning, Event::ScanComplete) => Supervisor {
            link: LinkState::Connecting,
            ..s
        },
        (LinkState::Scanning, Event::ScanFailed) => Supervisor {
            link: LinkState::Reconnecting,
            health: false,
            ..s
        },
        (LinkState::Connecting, Event::ConnectSucceeded) => Supervisor {
            link: LinkState::Connected,
            ..s
        },
        (LinkState::Connecting, Event::ConnectFailed) => Supervisor {
            link: LinkState::Reconnecting,
            health: false,
            ..s
        },
        (LinkState::Connected, Event::AddressObtained) => if !s.channel.occupied {
            Supervisor {
                link: LinkState::Monitoring,
                channel: ReadinessChannel { occupied: true },
                ..s
            }
        } else {
            Supervisor { link: LinkState::Publishing, ..s }
        },
        (LinkState::Connected, Event::AddressWaitFailed) => Supervisor {
            link: LinkState::Reconnecting,
            health: false,
            ..s
        },
        (LinkState::Publishing, Event::SlotDrained) => if !s.channel.occupied {
            Supervisor {
                link: LinkState::Monitoring,
                channel: ReadinessChannel { occupied: true },
                ..s
            }
        } else {
            s
        },
        (LinkState::Monitoring, Event::LinkAlive) => Supervisor { health: true, ..s },
        (LinkState::Monitoring, Event::LinkLost) => Supervisor {
            link: LinkState::Reconnecting,
            health: false,
            ..s
        },
        (LinkState::Reconnecting, Event::RetryElapsed) => Supervisor {
            link: LinkState::Scanning,
            health: false,
            ..s
        },
        _ => s,
    }
}

/// The outside work the supervisor requests while handling `e` in `s`.
pub open spec fn step_actions(s: Supervisor, e: Event) -> Seq<Action> {
    match (s.link, e) {
        (LinkState::Idle, Event::Started) => seq![Action::LedOff, Action::StartScan],
        (LinkState::Scanning, Event::ScanComplete) => seq![Action::StartConnect],
        (LinkState::Scanning, Event::ScanFailed) => seq![Action::Delay(RETRY_DELAY_MS)],
        (LinkState::Connecting, Event::ConnectSucceeded) => seq![Action::AwaitAddress],
        (LinkState::Connecting, Event::ConnectFailed) => seq![Action::Delay(RETRY_DELAY_MS)],
        (LinkState::Connected, Event::AddressObtained) => if !s.channel.occupied {
            seq![Action::PublishToken, Action::CheckLink]
        } else {
            Seq::empty()
        },
        (LinkState::Connected, Event::AddressWaitFailed) => seq![Action::Delay(RETRY_DELAY_MS)],
        (LinkState::Publishing, Event::SlotDrained) => if !s.channel.occupied {
            seq![Action::PublishToken, Action::CheckLink]
        } else {
            Seq::empty()
        },
        (LinkState::Monitoring, Event::LinkAlive) => seq![
            Action::Delay(MONITOR_PERIOD_MS),
            Action::CheckLink,
        ],
        (LinkState::Monitoring, Event::LinkLost) => seq![Action::LedOff],
        (LinkState::Reconnecting, Event::RetryElapsed) => seq![Action::LedOff, Action::StartScan],
        _ => Seq::empty(),
    }
}

impl Supervisor {
    /// The health flag is published only while the link is being monitored.
    pub open spec fn wf(self) -> bool {
        self.health ==> self.link is Monitoring
    }

    /// A supervisor whose credentials have just been applied to the radio:
    /// link idle, health down, readiness slot empty.
    pub fn new(config: Credentials) -> (s: Self)
        ensures
            s.link is Idle,
            !s.health,
            !s.channel.occupied,
            s.config == config,
            s.wf(),
    {
        Supervisor { config, link: LinkState::Idle, health: false, channel: ReadinessChannel::new() }
    }

    /// Handle one environment event: move to [`next_state`] and request
    /// [`step_actions`] from the environment, in order.
    pub fn step(&mut self, e: Event) -> (actions: Vec<Action>)
        ensures
            *final(self) == next_state(*old(self), e),
            actions@ == step_actions(*old(self), e),
            old(self).wf() ==> final(self).wf(),
    {
        let mut actions: Vec<Action> = Vec::new();
        match (self.link, e) {
            (LinkState::Idle, Event::Started) => {
                self.link = LinkState::Scanning;
                self.health = false;
                actions.push(Action::LedOff);
                actions.push(Action::StartScan);
            },
            (LinkState::Scanning, Event::ScanComplete) => {
                self.link = LinkState::Connecting;
                actions.push(Action::StartConnect);
            },
            (LinkState::Scanning, Event::ScanFailed) => {
                self.link = LinkState::Reconnecting;
                self.health = false;
                actions.push(Action::Delay(RETRY_DELAY_MS));
            },
            (LinkState::Connecting, Event::ConnectSucceeded) => {
                self.link = LinkState::Connected;
                actions.push(Action::AwaitAddress);
            },
            (LinkState::Connecting, Event::ConnectFailed) => {
                self.link = LinkState::Reconnecting;
                self.health = false;
                actions.push(Action::Delay(RETRY_DELAY_MS));
            },
            (LinkState::Connected, Event::AddressObtained) => {
                let accepted = self.channel.try_send();
                if accepted {
                    self.link = LinkState::Monitoring;
                    actions.push(Action::PublishToken);
                    actions.push(Action::CheckLink);
                } else {
                    self.link = LinkState::Publishing;
                }
            },
            (LinkState::Connected, Event::AddressWaitFailed) => {
                self.link = LinkState::Reconnecting;
                self.health = false;
                actions.push(Action::Delay(RETRY_DELAY_MS));
            },
            (LinkState::Publishing, Event::SlotDrained) => {
                let accepted = self.channel.try_send();
                if accepted {
                    self.link = LinkState::Monitoring;
                    actions.push(Action::PublishToken);
                    actions.push(Action::CheckLink);
                }
            },
            (LinkState::Monitoring, Event::LinkAlive) => {
                self.health = true;
                actions.push(Action::Delay(MONITOR_PERIOD_MS));
                actions.push(Action::CheckLink);
            },
            (LinkState::Monitoring, Event::LinkLost) => {
                self.link = LinkState::Reconnecting;
                self.health = false;
                actions.push(Action::LedOff);
            },
            (LinkState::Reconnecting, Event::RetryElapsed) => {
                self.link = LinkState::Scanning;
                self.health = false;
                actions.push(Action::LedOff);
                actions.push(Action::StartScan);
            },
            _ => {},
        }
        proof {
            assert(actions@ =~= step_actions(*old(self), e));
        }
        actions
    }
}

/// Health-flag law: the flag stays well-formed under every step; it is false
/// whenever the link is not being monitored; any detected failure — lost
/// link, failed scan, failed connect, failed address wait — leaves it false
/// at once; and it is up only when the most recent liveness check succeeded
/// and nothing has failed since.
pub proof fn lemma_health_flag(s: Supervisor, e: Event)
    requires
        s.wf(),
    ensures
        next_state(s, e).wf(),
        !(next_state(s, e).link is Monitoring) ==> !next_state(s, e).health,
        (s.link is Monitoring && e is LinkLost) ==> !next_state(s, e).health,
        (s.link is Connecting && e is ConnectFailed) ==> !next_state(s, e).health,
        (s.link is Scanning && e is ScanFailed) ==> !next_state(s, e).health,
        (s.link is Connected && e is AddressWaitFailed) ==> !next_state(s, e).health,
        next_state(s, e).health ==> next_state(s, e).link is Monitoring && (e is LinkAlive
            || s.health),
{
}

/// The state after a whole sequence of events is handled in order.
pub open spec fn run(s: Supervisor, events: Seq<Event>) -> Supervisor
    decreases events.len(),
{
    if events.len() == 0 {
        s
    } else {
        run(next_state(s, events[0]), events.drop_first())
    }
}

/// The health-flag invariant is not a single-step accident: it holds at the
/// end of every run, whatever events the environment delivers.
pub proof fn lemma_wf_over_run(s: Supervisor, events: Seq<Event>)
    requires
        s.wf(),
    ensures
        run(s, events).wf(),
    decreases events.len(),
{
    if events.len() > 0 {
        lemma_health_flag(s, events[0]);
        lemma_wf_over_run(next_state(s, events[0]), events.drop_first());
    }
}

/// No-token-without-connect law: over any run in which association never
/// succeeds, a supervisor that is not yet past association — its slot empty
/// and its link neither connected nor publishing — never sends a readiness
/// token, however many scans, failures and retries the run holds.
pub proof fn lemma_no_token_without_connect(s: Supervisor, events: Seq<Event>)
    requires
        !s.channel.occupied,
        !(s.link is Connected),
        !(s.link is Publishing),
        forall|i: int| 0 <= i < events.len() ==> !((#[trigger] events[i]) is ConnectSucceeded),
    ensures
        !run(s, events).channel.occupied,
    decreases events.len(),
{
    if events.len() > 0 {
        let s1 = next_state(s, events[0]);
        assert(!s1.channel.occupied && !(s1.link is Connected) && !(s1.link is Publishing));
        assert(forall|i: int|
            0 <= i < events.drop_first().len() ==> events.drop_first()[i] == events[i + 1]);
        lemma_no_token_without_connect(s1, events.drop_first());
    }
}

/// Token law: a token enters the readiness slot only at the moment an
/// address is obtained on a connected link, or when a suspended publish
/// completes after the consumer drained the slot. In particular, while
/// connect attempts keep failing no token is ever sent.
pub proof fn lemma_token_only_after_connect(s: Supervisor, e: Event)
    ensures
        next_state(s, e).channel.occupied ==> s.channel.occupied || (s.link is Connected
            && e is AddressObtained) || (s.link is Publishing && e is SlotDrained),
{
}

} // verus!
