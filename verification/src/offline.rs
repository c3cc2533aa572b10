//! The offline monitor: it holds the belief whether the host is offline,
//! which is that no route exists to a public address, and reports to the
//! tunnel when that belief flips.

use crate::net::Ipv4Addr;
use vstd::prelude::*;

verus! {

/// Errors of the offline monitor. `E` is the error of the route manager.
#[derive(Debug, PartialEq, Eq)]
pub enum Error<E> {
    /// The route manager returned an error.
    RouteManagerError(E),
}

/// The command that the monitor sends to the tunnel.
#[derive(Clone, Copy, Debug, PartialEq, Eq, Structural)]
pub enum TunnelCommand {
    /// The host went offline (`true`) or came back online (`false`).
    IsOffline(bool),
}

/// Where the loop of the monitor stands.
#[derive(Clone, Copy, Debug, PartialEq, Eq, Structural)]
pub enum MonitorStage {
    /// The next change of the routing table is awaited.
    Listening,
    /// The routing table has changed; the route lookup is under way.
    Probing,
    /// The loop has ended for good.
    Stopped,
}

/// What the driver of the monitor reports. `R` is the route that a lookup
/// finds, `E` the error of the route manager.
#[derive(Debug, PartialEq, Eq)]
pub enum MonitorEvent<R, E> {
    /// The routing table has changed. `sender_alive` says whether the
    /// sender of tunnel commands still exists.
    RouteChanged { sender_alive: bool },
    /// The lookup of the route to the public address has ended.
    Probed(Result<Option<R>, E>),
    /// There will be no more changes of the routing table.
    ListenerClosed,
}

/// What the driver of the monitor has to do next.
#[derive(Clone, Copy, Debug, PartialEq, Eq, Structural)]
pub enum MonitorAction {
    /// Await the next change of the routing table.
    AwaitChange,
    /// Look up the route to the public address.
    Probe,
    /// Send this command to the tunnel, then await the next change.
    Notify(TunnelCommand),
    /// End the loop.
    Stop,
}

/// The offline monitor: the last known offline state, and the stage of the
/// loop that keeps it up to date.
#[derive(Clone, Copy, Debug, PartialEq, Eq, Structural)]
pub struct MonitorHandle {
    /// Whether the host was offline when last looked at.
    pub is_offline: bool,
    /// Where the loop stands.
    pub stage: MonitorStage,
}

/// Whether a route lookup shows the public address to be unreachable: it
/// does if it found no route. A failed lookup shows nothing.
pub open spec fn unreachable<R, E>(lookup: Result<Option<R>, E>) -> Result<bool, Error<E>> {
    match lookup {
        Ok(route) => Ok(route is None),
        Err(error) => Err(Error::RouteManagerError(error)),
    }
}

/// The offline state that a route lookup stands for: offline if it found no
/// route, and online if it found one or failed.
pub open spec fn presumed_offline<R, E>(lookup: Result<Option<R>, E>) -> bool {
    lookup matches Ok(route) && route is None
}

/// The command that tells the tunnel of a new offline state, if it differs
/// from the last known one.
pub open spec fn transition(last_known: bool, offline: bool) -> Option<TunnelCommand> {
    if offline != last_known {
        Some(TunnelCommand::IsOffline(offline))
    } else {
        None
    }
}

/// The commands sent over a sequence of observed offline states, starting
/// from a last known one: one for each state that differs from the one
/// before it.
pub open spec fn transitions(last_known: bool, observed: Seq<bool>) -> Seq<TunnelCommand>
    decreases observed.len(),
{
    if observed.len() == 0 {
        Seq::empty()
    } else {
        let before = observed.drop_last();
        let sent = transitions(last_known, before);
        match transition(state_after(last_known, before), observed.last()) {
            Some(command) => sent.push(command),
            None => sent,
        }
    }
}

/// The last known state after a sequence of observed states.
pub open spec fn state_after(last_known: bool, observed: Seq<bool>) -> bool {
    if observed.len() == 0 {
        last_known
    } else {
        observed.last()
    }
}

/// The number of places in a sequence of observed states at which the state
/// differs from the one before it, the last known state standing before the
/// first.
pub open spec fn flips(last_known: bool, observed: Seq<bool>) -> nat
    decreases observed.len(),
{
    if observed.len() == 0 {
        0
    } else {
        let before = observed.drop_last();
        flips(last_known, before) + if observed.last() != state_after(last_known, before) {
            1nat
        } else {
            0nat
        }
    }
}

impl MonitorHandle {
    /// What the driver has to do in this state, when nothing is to be sent.
    pub open spec fn spec_pending(self) -> MonitorAction {
        match self.stage {
            MonitorStage::Listening => MonitorAction::AwaitChange,
            MonitorStage::Probing => MonitorAction::Probe,
            MonitorStage::Stopped => MonitorAction::Stop,
        }
    }

    /// The state after an event.
    ///
    /// While listening, a change of the routing table starts a lookup if
    /// the sender of tunnel commands still exists; if it does not, or if
    /// there will be no more changes, the loop ends for good. The outcome of
    /// the lookup becomes the last known state, a failed lookup counting as
    /// online. An event that the stage does not wait for changes nothing.
    pub open spec fn next<R, E>(self, event: MonitorEvent<R, E>) -> MonitorHandle {
        match (self.stage, event) {
            (MonitorStage::Listening, MonitorEvent::RouteChanged { sender_alive }) => MonitorHandle {
                is_offline: self.is_offline,
                stage: if sender_alive {
                    MonitorStage::Probing
                } else {
                    MonitorStage::Stopped
                },
            },
            (MonitorStage::Listening, MonitorEvent::ListenerClosed) => MonitorHandle {
                is_offline: self.is_offline,
                stage: MonitorStage::Stopped,
            },
            (MonitorStage::Probing, MonitorEvent::Probed(lookup)) => MonitorHandle {
                is_offline: presumed_offline(lookup),
                stage: MonitorStage::Listening,
            },
            _ => self,
        }
    }

    /// What the driver has to do after an event: send the new state if the
    /// outcome of a lookup differs from the last known one, and otherwise
    /// what the state after the event asks for.
    pub open spec fn action<R, E>(self, event: MonitorEvent<R, E>) -> MonitorAction {
        match (self.stage, event) {
            (MonitorStage::Probing, MonitorEvent::Probed(lookup)) => match transition(
                self.is_offline,
                presumed_offline(lookup),
            ) {
                Some(command) => MonitorAction::Notify(command),
                None => MonitorAction::AwaitChange,
            },
            _ => self.next(event).spec_pending(),
        }
    }

    /// The state of a monitor that listens and last saw `is_offline`.
    pub open spec fn listening(is_offline: bool) -> MonitorHandle {
        MonitorHandle { is_offline, stage: MonitorStage::Listening }
    }

    /// The state after one turn of the loop: a change of the routing table
    /// while the sender exists, then the outcome of the lookup.
    pub open spec fn after_turn<R, E>(self, lookup: Result<Option<R>, E>) -> MonitorHandle {
        self.next::<R, E>(MonitorEvent::RouteChanged { sender_alive: true }).next(
            MonitorEvent::Probed(lookup),
        )
    }

    /// The command that is sent in one turn of the loop, if one is.
    pub open spec fn sent_in_turn<R, E>(self, lookup: Result<Option<R>, E>) -> Option<
        TunnelCommand,
    > {
        match self.next::<R, E>(MonitorEvent::RouteChanged { sender_alive: true }).action(
            MonitorEvent::Probed(lookup),
        ) {
            MonitorAction::Notify(command) => Some(command),
            _ => None,
        }
    }

    /// The state after a sequence of turns, one for each lookup.
    pub open spec fn after_turns<R, E>(self, lookups: Seq<Result<Option<R>, E>>) -> MonitorHandle
        decreases lookups.len(),
    {
        if lookups.len() == 0 {
            self
        } else {
            self.after_turns(lookups.drop_last()).after_turn(lookups.last())
        }
    }

    /// The commands that are sent over a sequence of turns, in order.
    pub open spec fn sent_over<R, E>(self, lookups: Seq<Result<Option<R>, E>>) -> Seq<
        TunnelCommand,
    >
        decreases lookups.len(),
    {
        if lookups.len() == 0 {
            Seq::empty()
        } else {
            let sent = self.sent_over(lookups.drop_last());
            match self.after_turns(lookups.drop_last()).sent_in_turn(lookups.last()) {
                Some(command) => sent.push(command),
                None => sent,
            }
        }
    }

    /// What the driver has to do now, when nothing is to be sent.
    pub fn pending(&self) -> (action: MonitorAction)
        ensures
            action == self.spec_pending(),
    {
        match self.stage {
            MonitorStage::Listening => MonitorAction::AwaitChange,
            MonitorStage::Probing => MonitorAction::Probe,
            MonitorStage::Stopped => MonitorAction::Stop,
        }
    }

    /// The offline state as a fresh route lookup shows it, whatever the
    /// monitor last saw: offline if the lookup found no route, online if it
    /// found one, and online too if it failed. The monitor itself stays as
    /// it is.
    pub fn is_offline<R, E>(&mut self, lookup: Result<Option<R>, E>) -> (offline: bool)
        ensures
            offline == presumed_offline(lookup),
            *final(self) == *old(self),
    {
        match public_ip_unreachable(lookup) {
            Ok(is_offline) => is_offline,
            Err(_) => false,
        }
    }

    /// Takes an event in and says what the driver has to do next.
    pub fn step<R, E>(&mut self, event: MonitorEvent<R, E>) -> (action: MonitorAction)
        ensures
            *final(self) == old(self).next(event),
            action == old(self).action(event),
    {
        match (self.stage, event) {
            (MonitorStage::Listening, MonitorEvent::RouteChanged { sender_alive }) => {
                if sender_alive {
                    self.stage = MonitorStage::Probing;
                    MonitorAction::Probe
                } else {
                    self.stage = MonitorStage::Stopped;
                    MonitorAction::Stop
                }
            },
            (MonitorStage::Listening, MonitorEvent::ListenerClosed) => {
                self.stage = MonitorStage::Stopped;
                MonitorAction::Stop
            },
            (MonitorStage::Probing, MonitorEvent::Probed(lookup)) => {
                let new_offline_state = match public_ip_unreachable(lookup) {
                    Ok(is_offline) => is_offline,
                    Err(_) => false,
                };
                self.stage = MonitorStage::Listening;
                if new_offline_state != self.is_offline {
                    self.is_offline = new_offline_state;
                    MonitorAction::Notify(TunnelCommand::IsOffline(new_offline_state))
                } else {
                    MonitorAction::AwaitChange
                }
            },
            _ => self.pending(),
        }
    }
}

/// The public address to which a route is looked up. Any public address
/// would do.
pub fn public_internet_address() -> (address: Ipv4Addr)
    ensures
        address@ == seq![193u8, 138u8, 218u8, 78u8],
{
    Ipv4Addr::new(193, 138, 218, 78)
}

/// Whether a route lookup shows the public address to be unreachable: it
/// does if it found no route. The error of a failed lookup is handed on.
pub fn public_ip_unreachable<R, E>(lookup: Result<Option<R>, E>) -> (result: Result<bool, Error<E>>)
    ensures
        result == unreachable(lookup),
{
    match lookup {
        Ok(route) => Ok(route.is_none()),
        Err(error) => Err(Error::RouteManagerError(error)),
    }
}

/// Sets the monitor up from the first route lookup. A failed lookup fails
/// the set-up with its error; otherwise the monitor listens, and what the
/// lookup showed is its last known state.
pub fn spawn_monitor<R, E>(lookup: Result<Option<R>, E>) -> (result: Result<MonitorHandle, Error<E>>)
    ensures
        result == match unreachable(lookup) {
            Ok(is_offline) => Ok::<MonitorHandle, Error<E>>(MonitorHandle::listening(is_offline)),
            Err(error) => Err(error),
        },
{
    match public_ip_unreachable(lookup) {
        Ok(is_offline) => Ok(MonitorHandle { is_offline, stage: MonitorStage::Listening }),
        Err(error) => Err(error),
    }
}

/// A failed route lookup counts as online: the monitor's state after it is
/// online, and so is the answer of [`MonitorHandle::is_offline`]. The
/// tunnel is told so exactly if the monitor last saw the host offline.
pub proof fn lemma_error_presumes_online<R, E>(monitor: MonitorHandle, error: E)
    requires
        monitor.stage == MonitorStage::Probing,
    ensures
        !presumed_offline::<R, E>(Err(error)),
        !monitor.next::<R, E>(MonitorEvent::Probed(Err(error))).is_offline,
        monitor.action::<R, E>(MonitorEvent::Probed(Err(error))) == if monitor.is_offline {
            MonitorAction::Notify(TunnelCommand::IsOffline(false))
        } else {
            MonitorAction::AwaitChange
        },
{
}

/// One turn of the loop: a change of the routing table while the sender
/// exists, then the outcome of the lookup. The monitor listens again and
/// holds what the lookup showed; a command is sent exactly if that differs
/// from what the monitor held before, and it carries the new state.
pub proof fn lemma_turn<R, E>(monitor: MonitorHandle, lookup: Result<Option<R>, E>)
    requires
        monitor.stage == MonitorStage::Listening,
    ensures
        ({
            let probing = monitor.next::<R, E>(MonitorEvent::RouteChanged { sender_alive: true });
            &&& monitor.action::<R, E>(MonitorEvent::RouteChanged { sender_alive: true })
                == MonitorAction::Probe
            &&& probing.next(MonitorEvent::Probed(lookup)) == MonitorHandle::listening(
                presumed_offline(lookup),
            )
            &&& probing.action(MonitorEvent::Probed(lookup)) == match transition(
                monitor.is_offline,
                presumed_offline(lookup),
            ) {
                Some(command) => MonitorAction::Notify(command),
                None => MonitorAction::AwaitChange,
            }
        }),
{
}

/// Once the sender of tunnel commands is gone, or the changes have ended,
/// the loop ends for good: no event moves a stopped monitor, and it asks
/// for nothing but to stop.
pub proof fn lemma_stops_for_good<R, E>(monitor: MonitorHandle, event: MonitorEvent<R, E>)
    requires
        monitor.stage == MonitorStage::Listening,
    ensures
        monitor.next::<R, E>(MonitorEvent::RouteChanged { sender_alive: false }).stage
            == MonitorStage::Stopped,
        monitor.action::<R, E>(MonitorEvent::RouteChanged { sender_alive: false })
            == MonitorAction::Stop,
        monitor.next::<R, E>(MonitorEvent::ListenerClosed).stage == MonitorStage::Stopped,
        ({
            let stopped = monitor.next::<R, E>(MonitorEvent::RouteChanged { sender_alive: false });
            stopped.next(event) == stopped && stopped.action(event) == MonitorAction::Stop
        }),
{
}

/// The offline states that a sequence of lookups stands for.
pub open spec fn observed<R, E>(lookups: Seq<Result<Option<R>, E>>) -> Seq<bool> {
    Seq::new(lookups.len(), |i: int| presumed_offline(lookups[i]))
}

/// Over any sequence of turns, a listening monitor sends exactly the
/// transitions of the states that the lookups stand for, and ends up
/// listening with the last of them as its last known state.
pub proof fn lemma_sent_over_turns<R, E>(monitor: MonitorHandle, lookups: Seq<Result<Option<R>, E>>)
    requires
        monitor.stage == MonitorStage::Listening,
    ensures
        monitor.sent_over(lookups) == transitions(monitor.is_offline, observed(lookups)),
        monitor.after_turns(lookups) == MonitorHandle::listening(
            state_after(monitor.is_offline, observed(lookups)),
        ),
    decreases lookups.len(),
{
    if lookups.len() > 0 {
        lemma_sent_over_turns(monitor, lookups.drop_last());
        lemma_turn(monitor.after_turns(lookups.drop_last()), lookups.last());
        assert(observed(lookups).drop_last() =~= observed(lookups.drop_last()));
    }
}

/// Over any sequence of observed states, as many commands are sent as
/// there are flips, the last known state ends as the last observed one, and
/// the commands alternate: the first announces the opposite of the state
/// the monitor began with, and each one after it the opposite of the one
/// before. A state that repeats sends nothing.
pub proof fn lemma_transitions(last_known: bool, observed: Seq<bool>)
    ensures
        transitions(last_known, observed).len() == flips(last_known, observed),
        forall|j: int|
            0 <= j < transitions(last_known, observed).len() ==> #[trigger] transitions(
                last_known,
                observed,
            )[j] == TunnelCommand::IsOffline(if j % 2 == 0 {
                !last_known
            } else {
                last_known
            }),
        state_after(last_known, observed) == if flips(last_known, observed) % 2 == 0 {
            last_known
        } else {
            !last_known
        },
    decreases observed.len(),
{
    if observed.len() > 0 {
        lemma_transitions(last_known, observed.drop_last());
    }
}

} // verus!
