//! Waiting for an interface to acquire its IP interfaces.
//!
//! The wait has two halves. The watcher keeps the record of which families
//! are known to be on the interface; it learns from the change
//! notifications and from the lookups, and signals once when every family
//! asked for is there. The waiter subscribes the watcher first, then looks
//! every family up, and awaits the signal only if a lookup missed: a family
//! that arrives between the subscription and its lookup is seen by one of
//! the two, whatever the order in which they come.

use crate::channel::send_signal;
use crate::windows::{AddressFamily, NetLuid, OsError, AF_INET, AF_INET6, ERROR_NOT_FOUND};
use futures::channel::oneshot::Sender;
use vstd::prelude::*;

verus! {

/// The notification type of a changed parameter.
pub const MIB_PARAMETER_NOTIFICATION: u32 = 0;

/// The notification type of an added instance.
pub const MIB_ADD_INSTANCE: u32 = 1;

/// The notification type of a deleted instance.
pub const MIB_DELETE_INSTANCE: u32 = 2;

/// The notification type of the notification that follows registration.
pub const MIB_INITIAL_NOTIFICATION: u32 = 3;

/// What a change notification reports.
#[derive(Clone, Copy, Debug, PartialEq, Eq, Structural)]
pub enum EventKind {
    /// An IP interface was added.
    Added,
    /// An IP interface was removed.
    Removed,
    /// A parameter of an IP interface was changed.
    ParameterChanged,
    /// Anything else.
    Other,
}

/// A change notification, as the operating system delivers it: the
/// interface, the address family tag and the notification type.
#[derive(Clone, Copy, Debug, PartialEq, Eq, Structural)]
pub struct InterfaceChangeEvent {
    pub luid: NetLuid,
    pub family: u16,
    pub notification_type: u32,
}

impl EventKind {
    /// The kind that a notification type stands for.
    pub open spec fn of_notification_type(notification_type: u32) -> EventKind {
        if notification_type == MIB_ADD_INSTANCE {
            EventKind::Added
        } else if notification_type == MIB_DELETE_INSTANCE {
            EventKind::Removed
        } else if notification_type == MIB_PARAMETER_NOTIFICATION {
            EventKind::ParameterChanged
        } else {
            EventKind::Other
        }
    }
}

impl InterfaceChangeEvent {
    /// What the event reports.
    pub open spec fn spec_kind(self) -> EventKind {
        EventKind::of_notification_type(self.notification_type)
    }

    /// The event reports that an IP interface of the given family was added
    /// to the given interface.
    pub open spec fn adds(self, luid: NetLuid, family: AddressFamily) -> bool {
        &&& self.spec_kind() == EventKind::Added
        &&& self.luid == luid
        &&& self.family == family.tag()
    }

    /// What the event reports.
    pub fn kind(&self) -> (kind: EventKind)
        ensures
            kind == self.spec_kind(),
    {
        if self.notification_type == MIB_ADD_INSTANCE {
            EventKind::Added
        } else if self.notification_type == MIB_DELETE_INSTANCE {
            EventKind::Removed
        } else if self.notification_type == MIB_PARAMETER_NOTIFICATION {
            EventKind::ParameterChanged
        } else {
            EventKind::Other
        }
    }
}

/// The state of an [`InterfaceWatcher`].
pub struct WatcherView {
    /// The interface that is watched.
    pub luid: NetLuid,
    /// IPv4 is not asked for, or is known to be there.
    pub found_ipv4: bool,
    /// IPv6 is not asked for, or is known to be there.
    pub found_ipv6: bool,
    /// The watcher still holds the sender with which it signals.
    pub armed: bool,
}

/// What a watcher is told: a change notification, or that a lookup found
/// the IP interface of a family on the watched interface.
#[derive(Clone, Copy, Debug, PartialEq, Eq, Structural)]
pub enum WatcherInput {
    /// The operating system delivered this notification.
    Notification(InterfaceChangeEvent),
    /// A lookup found the IP interface of this family.
    Found(AddressFamily),
}

impl WatcherInput {
    /// The input shows that the IP interface of the family is on the
    /// interface: it is the notification of its arrival there, or a lookup
    /// that found it.
    pub open spec fn brings(self, luid: NetLuid, family: AddressFamily) -> bool {
        match self {
            WatcherInput::Notification(event) => event.adds(luid, family),
            WatcherInput::Found(found) => found == family,
        }
    }
}

impl WatcherView {
    /// Every family that was asked for is known to be there.
    pub open spec fn satisfied(self) -> bool {
        self.found_ipv4 && self.found_ipv6
    }

    /// A watcher gives its sender away only when it is satisfied.
    pub open spec fn wf(self) -> bool {
        !self.armed ==> self.satisfied()
    }

    /// The state of a new watcher: a family counts as found from the start
    /// exactly if it is not asked for.
    pub open spec fn start(luid: NetLuid, ipv4: bool, ipv6: bool) -> WatcherView {
        WatcherView { luid, found_ipv4: !ipv4, found_ipv6: !ipv6, armed: true }
    }

    /// The state after the watcher has learnt that the IP interfaces marked
    /// are there. A satisfied watcher stays as it is; any other notes what it
    /// has learnt, and gives its sender away if it is thereby satisfied.
    pub open spec fn noting(self, ipv4: bool, ipv6: bool) -> WatcherView {
        if self.satisfied() {
            self
        } else {
            let found_ipv4 = self.found_ipv4 || ipv4;
            let found_ipv6 = self.found_ipv6 || ipv6;
            WatcherView {
                luid: self.luid,
                found_ipv4,
                found_ipv6,
                armed: self.armed && !(found_ipv4 && found_ipv6),
            }
        }
    }

    /// The state after a notification. Only the arrival of an IP interface
    /// on the watched interface tells the watcher anything: that the family
    /// of the notification is there.
    pub open spec fn next(self, event: InterfaceChangeEvent) -> WatcherView {
        if event.spec_kind() != EventKind::Added || event.luid != self.luid {
            self
        } else {
            self.noting(event.family == AF_INET, event.family == AF_INET6)
        }
    }

    /// The state after a lookup has found the IP interface of a family.
    pub open spec fn found(self, family: AddressFamily) -> WatcherView {
        self.noting(family == AddressFamily::Ipv4, family == AddressFamily::Ipv6)
    }

    /// The state after an input of either kind.
    pub open spec fn apply(self, input: WatcherInput) -> WatcherView {
        match input {
            WatcherInput::Notification(event) => self.next(event),
            WatcherInput::Found(family) => self.found(family),
        }
    }

    /// The input is the one that satisfies the watcher.
    pub open spec fn signals(self, input: WatcherInput) -> bool {
        !self.satisfied() && self.apply(input).satisfied()
    }

    /// The state after a sequence of inputs, notifications and lookups in
    /// any order.
    pub open spec fn run(self, inputs: Seq<WatcherInput>) -> WatcherView
        decreases inputs.len(),
    {
        if inputs.len() == 0 {
            self
        } else {
            self.run(inputs.drop_last()).apply(inputs.last())
        }
    }

    /// How many of a sequence of inputs made the watcher signal.
    pub open spec fn signal_count(self, inputs: Seq<WatcherInput>) -> nat
        decreases inputs.len(),
    {
        if inputs.len() == 0 {
            0
        } else {
            self.signal_count(inputs.drop_last()) + if self.run(inputs.drop_last()).signals(
                inputs.last(),
            ) {
                1nat
            } else {
                0nat
            }
        }
    }
}

/// The record of what is known of the IP interfaces of the interface while
/// [`wait_for_interfaces`] waits. It is told of every change notification
/// and of every lookup that found an IP interface, and signals once, when
/// every family asked for is known to be there.
pub struct InterfaceWatcher {
    luid: NetLuid,
    found_ipv4: bool,
    found_ipv6: bool,
    tx: Option<Sender<()>>,
}

impl View for InterfaceWatcher {
    type V = WatcherView;

    closed spec fn view(&self) -> WatcherView {
        WatcherView {
            luid: self.luid,
            found_ipv4: self.found_ipv4,
            found_ipv6: self.found_ipv6,
            armed: self.tx is Some,
        }
    }
}

impl InterfaceWatcher {
    #[verifier::type_invariant]
    spec fn inv(self) -> bool {
        self@.wf()
    }

    /// A watcher of the interface `luid` that waits for the families asked
    /// for and signals through `tx`.
    pub fn new(luid: NetLuid, ipv4: bool, ipv6: bool, tx: Sender<()>) -> (watcher: InterfaceWatcher)
        ensures
            watcher@ == WatcherView::start(luid, ipv4, ipv6),
    {
        InterfaceWatcher { luid, found_ipv4: !ipv4, found_ipv6: !ipv6, tx: Some(tx) }
    }

    /// Whether every family that was asked for is known to be there.
    pub fn is_satisfied(&self) -> (satisfied: bool)
        ensures
            satisfied == self@.satisfied(),
            self@.wf(),
    {
        proof {
            use_type_invariant(self);
        }
        self.found_ipv4 && self.found_ipv6
    }

    /// Notes that the IP interfaces marked are there, and signals if the
    /// watcher is thereby satisfied.
    fn note(&mut self, ipv4: bool, ipv6: bool) -> (signalled: bool)
        ensures
            final(self)@ == old(self)@.noting(ipv4, ipv6),
            final(self)@.wf(),
            signalled == (!old(self)@.satisfied() && final(self)@.satisfied()),
            signalled ==> old(self)@.armed && !final(self)@.armed,
    {
        proof {
            use_type_invariant(&*self);
        }
        if self.found_ipv4 && self.found_ipv6 {
            return false;
        }
        let found_ipv4 = self.found_ipv4 || ipv4;
        let found_ipv6 = self.found_ipv6 || ipv6;
        if found_ipv4 && found_ipv6 {
            self.found_ipv4 = true;
            self.found_ipv6 = true;
            let mut sender: Option<Sender<()>> = None;
            core::mem::swap(&mut self.tx, &mut sender);
            if let Some(tx) = sender {
                send_signal(tx);
            }
            true
        } else {
            self.found_ipv4 = found_ipv4;
            self.found_ipv6 = found_ipv6;
            false
        }
    }

    /// Takes a change notification in. Returns whether this notification
    /// satisfied the watcher; it is then, and only then, that the watcher
    /// sends its signal and gives its sender away.
    pub fn on_notification(&mut self, event: &InterfaceChangeEvent) -> (signalled: bool)
        ensures
            final(self)@ == old(self)@.next(*event),
            final(self)@.wf(),
            signalled == old(self)@.signals(WatcherInput::Notification(*event)),
            signalled ==> old(self)@.armed && !final(self)@.armed,
    {
        proof {
            use_type_invariant(&*self);
        }
        if event.notification_type != MIB_ADD_INSTANCE {
            return false;
        }
        if event.luid.value != self.luid.value {
            return false;
        }
        self.note(event.family == AF_INET, event.family == AF_INET6)
    }

    /// Takes in that a lookup, made after the subscription, found the IP
    /// interface of `family` on the interface. Returns whether this
    /// satisfied the watcher; it is then, and only then, that the watcher
    /// sends its signal and gives its sender away.
    pub fn on_found(&mut self, family: AddressFamily) -> (signalled: bool)
        ensures
            final(self)@ == old(self)@.found(family),
            final(self)@.wf(),
            signalled == old(self)@.signals(WatcherInput::Found(family)),
            signalled ==> old(self)@.armed && !final(self)@.armed,
    {
        match family {
            AddressFamily::Ipv4 => self.note(true, false),
            AddressFamily::Ipv6 => self.note(false, true),
        }
    }
}

/// Where the waiting side of [`wait_for_interfaces`] stands.
#[derive(Clone, Copy, Debug, PartialEq, Eq)]
pub enum WaitStage {
    /// The change notifications are being subscribed to.
    Subscribing,
    /// The IP interface of this family is being looked up.
    Checking(AddressFamily),
    /// A family asked for was not found; the signal of the watcher is
    /// awaited.
    Waiting,
    /// The wait has ended with this result.
    Finished(Result<(), OsError>),
}

/// What the driver of the wait has to do next.
#[derive(Clone, Copy, Debug, PartialEq, Eq)]
pub enum WaitAction {
    /// Register the watcher for change notifications, and report the outcome
    /// as [`WaitEvent::Subscribed`].
    Subscribe,
    /// Look up the IP interface of this family on the interface, and report
    /// the outcome as [`WaitEvent::Looked`].
    Lookup(AddressFamily),
    /// Await the signal of the watcher, then report [`WaitEvent::Signalled`].
    AwaitSignal,
    /// Stop: this is the result of the wait.
    Finish(Result<(), OsError>),
}

/// What the driver of the wait reports back.
#[derive(Clone, Copy, Debug, PartialEq, Eq)]
pub enum WaitEvent {
    /// The outcome of the registration.
    Subscribed(Result<(), OsError>),
    /// The outcome of the lookup of an IP interface.
    Looked(Result<(), OsError>),
    /// The signal of the watcher has resolved.
    Signalled,
}

/// The waiting side of [`wait_for_interfaces`]: it subscribes first, then
/// looks every family asked for up and tells the watcher of each one found,
/// and waits for the watcher only if one of them was not found.
#[derive(Clone, Copy, Debug, PartialEq, Eq)]
pub struct InterfaceWaiter {
    /// Whether IPv4 is asked for.
    pub ipv4: bool,
    /// Whether IPv6 is asked for.
    pub ipv6: bool,
    /// Whether a lookup did not find its family.
    pub missing: bool,
    /// Where the wait stands.
    pub stage: WaitStage,
}

/// Whether a lookup found the IP interface: it did if it succeeded, it did
/// not if it failed with `ERROR_NOT_FOUND`, and any other failure is an
/// error of its own.
pub open spec fn entry_exists(lookup: Result<(), OsError>) -> Result<bool, OsError> {
    match lookup {
        Ok(()) => Ok(true),
        Err(error) => if error.code == ERROR_NOT_FOUND {
            Ok(false)
        } else {
            Err(error)
        },
    }
}

impl InterfaceWaiter {
    /// The stage behind the lookup of the family `after`, or behind the
    /// subscription where `after` is `None`: the lookup of the next family
    /// asked for; behind the last of them the wait for the watcher if a
    /// family was not found, and the end in success if every one was.
    pub open spec fn stage_after(self, after: Option<AddressFamily>, missing: bool) -> WaitStage {
        if after is None && self.ipv4 {
            WaitStage::Checking(AddressFamily::Ipv4)
        } else if after != Some(AddressFamily::Ipv6) && self.ipv6 {
            WaitStage::Checking(AddressFamily::Ipv6)
        } else if missing {
            WaitStage::Waiting
        } else {
            WaitStage::Finished(Ok(()))
        }
    }

    /// What the driver has to do in this state.
    pub open spec fn spec_pending(self) -> WaitAction {
        match self.stage {
            WaitStage::Subscribing => WaitAction::Subscribe,
            WaitStage::Checking(family) => WaitAction::Lookup(family),
            WaitStage::Waiting => WaitAction::AwaitSignal,
            WaitStage::Finished(result) => WaitAction::Finish(result),
        }
    }

    /// The family that the event shows to be there: the one being looked
    /// up, if the event is the outcome of that lookup and the lookup found
    /// it.
    pub open spec fn found_by(self, event: WaitEvent) -> Option<AddressFamily> {
        match (self.stage, event) {
            (WaitStage::Checking(family), WaitEvent::Looked(lookup)) => if entry_exists(lookup)
                == Ok::<bool, OsError>(true) {
                Some(family)
            } else {
                None
            },
            _ => None,
        }
    }

    /// The watcher after the event: it is told of the family that the
    /// event shows to be there, and of nothing else.
    pub open spec fn watcher_after(self, watcher: WatcherView, event: WaitEvent) -> WatcherView {
        match self.found_by(event) {
            Some(family) => watcher.found(family),
            None => watcher,
        }
    }

    /// Whether, after the event, a lookup has not found its family.
    pub open spec fn next_missing(self, event: WaitEvent) -> bool {
        match (self.stage, event) {
            (WaitStage::Checking(_), WaitEvent::Looked(lookup)) => self.missing || entry_exists(
                lookup,
            ) == Ok::<bool, OsError>(false),
            _ => self.missing,
        }
    }

    /// The stage after an event.
    ///
    /// A failed registration ends the wait with its error; after a
    /// successful one every family asked for is looked up, IPv4 first. A
    /// lookup that fails otherwise than by not finding ends the wait with
    /// its error. Behind the last lookup the wait ends in success if every
    /// family was found, and awaits the watcher if one was not. When the
    /// signal resolves the wait ends in success. An event that the stage
    /// does not wait for changes nothing.
    pub open spec fn next_stage(self, event: WaitEvent) -> WaitStage {
        match (self.stage, event) {
            (WaitStage::Subscribing, WaitEvent::Subscribed(Ok(()))) => self.stage_after(
                None,
                self.missing,
            ),
            (WaitStage::Subscribing, WaitEvent::Subscribed(Err(error))) => WaitStage::Finished(
                Err(error),
            ),
            (WaitStage::Checking(family), WaitEvent::Looked(lookup)) => match entry_exists(lookup) {
                Ok(_) => self.stage_after(Some(family), self.next_missing(event)),
                Err(error) => WaitStage::Finished(Err(error)),
            },
            (WaitStage::Waiting, WaitEvent::Signalled) => WaitStage::Finished(Ok(())),
            (stage, _) => stage,
        }
    }

    /// The state after an event.
    pub open spec fn next(self, event: WaitEvent) -> InterfaceWaiter {
        InterfaceWaiter {
            ipv4: self.ipv4,
            ipv6: self.ipv6,
            missing: self.next_missing(event),
            stage: self.next_stage(event),
        }
    }

    /// The waiter and the watcher after a sequence of events, where no
    /// notification comes in between.
    pub open spec fn run_with(self, watcher: WatcherView, events: Seq<WaitEvent>) -> (
        InterfaceWaiter,
        WatcherView,
    )
        decreases events.len(),
    {
        if events.len() == 0 {
            (self, watcher)
        } else {
            let (waiter, told) = self.run_with(watcher, events.drop_last());
            (waiter.next(events.last()), waiter.watcher_after(told, events.last()))
        }
    }

    /// The state in which a wait begins.
    pub open spec fn start(ipv4: bool, ipv6: bool) -> InterfaceWaiter {
        InterfaceWaiter { ipv4, ipv6, missing: false, stage: WaitStage::Subscribing }
    }

    /// A wait for the families asked for, before anything was done.
    pub fn new(ipv4: bool, ipv6: bool) -> (waiter: InterfaceWaiter)
        ensures
            waiter == InterfaceWaiter::start(ipv4, ipv6),
    {
        InterfaceWaiter { ipv4, ipv6, missing: false, stage: WaitStage::Subscribing }
    }

    /// What the driver has to do now.
    pub fn pending(&self) -> (action: WaitAction)
        ensures
            action == self.spec_pending(),
    {
        match self.stage {
            WaitStage::Subscribing => WaitAction::Subscribe,
            WaitStage::Checking(family) => WaitAction::Lookup(family),
            WaitStage::Waiting => WaitAction::AwaitSignal,
            WaitStage::Finished(result) => WaitAction::Finish(result),
        }
    }

    fn advance(&self, after: Option<AddressFamily>) -> (stage: WaitStage)
        ensures
            stage == self.stage_after(after, self.missing),
    {
        let past_ipv4 = after.is_some();
        let past_ipv6 = match after {
            Some(AddressFamily::Ipv6) => true,
            _ => false,
        };
        if !past_ipv4 && self.ipv4 {
            WaitStage::Checking(AddressFamily::Ipv4)
        } else if !past_ipv6 && self.ipv6 {
            WaitStage::Checking(AddressFamily::Ipv6)
        } else if self.missing {
            WaitStage::Waiting
        } else {
            WaitStage::Finished(Ok(()))
        }
    }

    /// Takes an event in and says what the driver has to do next. Where the
    /// event is a lookup that found its family, the watcher is told so; the
    /// driver therefore calls this with the watcher that the change
    /// notifications go to.
    pub fn step(&mut self, watcher: &mut InterfaceWatcher, event: WaitEvent) -> (action: WaitAction)
        ensures
            *final(self) == old(self).next(event),
            final(watcher)@ == old(self).watcher_after(old(watcher)@, event),
            final(watcher)@.wf(),
            action == final(self).spec_pending(),
    {
        proof {
            use_type_invariant(&*watcher);
        }
        match (self.stage, event) {
            (WaitStage::Subscribing, WaitEvent::Subscribed(Ok(()))) => {
                self.stage = self.advance(None);
            },
            (WaitStage::Subscribing, WaitEvent::Subscribed(Err(error))) => {
                self.stage = WaitStage::Finished(Err(error));
            },
            (WaitStage::Checking(family), WaitEvent::Looked(lookup)) => {
                match ip_interface_entry_exists(lookup) {
                    Ok(true) => {
                        watcher.on_found(family);
                        self.stage = self.advance(Some(family));
                    },
                    Ok(false) => {
                        self.missing = true;
                        self.stage = self.advance(Some(family));
                    },
                    Err(error) => {
                        self.stage = WaitStage::Finished(Err(error));
                    },
                }
            },
            (WaitStage::Waiting, WaitEvent::Signalled) => {
                self.stage = WaitStage::Finished(Ok(()));
            },
            _ => {},
        }
        self.pending()
    }
}

/// Whether a lookup found the IP interface. A lookup that failed with
/// `ERROR_NOT_FOUND` did not; any other failure is handed on.
pub fn ip_interface_entry_exists(lookup: Result<(), OsError>) -> (exists: Result<bool, OsError>)
    ensures
        exists == entry_exists(lookup),
{
    match lookup {
        Ok(()) => Ok(true),
        Err(error) => if error.raw_os_error() == ERROR_NOT_FOUND as i32 {
            Ok(false)
        } else {
            Err(error)
        },
    }
}

/// Begins to wait until the IP interfaces asked for have attached to the
/// network interface `luid`.
///
/// Returns the two halves of the wait. The watcher is to be told of every
/// change notification and signals through `tx`. The waiter tells its
/// driver to subscribe the watcher first, then to look every family asked
/// for up, and to await the signal only if one of them was not found; of
/// each family that a lookup found it tells the watcher.
pub fn wait_for_interfaces(luid: NetLuid, ipv4: bool, ipv6: bool, tx: Sender<()>) -> (halves: (
    InterfaceWatcher,
    InterfaceWaiter,
))
    ensures
        halves.0@ == WatcherView::start(luid, ipv4, ipv6),
        halves.1 == InterfaceWaiter::start(ipv4, ipv6),
{
    (InterfaceWatcher::new(luid, ipv4, ipv6, tx), InterfaceWaiter::new(ipv4, ipv6))
}

/// One of the inputs shows that the IP interface of the family is on the
/// interface.
pub open spec fn brought(inputs: Seq<WatcherInput>, luid: NetLuid, family: AddressFamily) -> bool {
    exists|i: int| 0 <= i < inputs.len() && (#[trigger] inputs[i]).brings(luid, family)
}

/// The events that the driver reports when the registration succeeds and
/// the lookups of the families asked for end as given.
pub open spec fn lookup_events(
    ipv4: bool,
    ipv6: bool,
    first: Result<(), OsError>,
    second: Result<(), OsError>,
) -> Seq<WaitEvent> {
    seq![WaitEvent::Subscribed(Ok(()))] + (if ipv4 {
        seq![WaitEvent::Looked(first)]
    } else {
        Seq::empty()
    }) + (if ipv6 {
        seq![WaitEvent::Looked(second)]
    } else {
        Seq::empty()
    })
}

/// What the lookup of a family shows: whether the family is there, if it
/// was asked for; a family not asked for counts as there.
pub open spec fn shown(asked: bool, lookup: Result<(), OsError>) -> Result<bool, OsError> {
    if asked {
        entry_exists(lookup)
    } else {
        Ok(true)
    }
}

/// An input changes a watcher only if the watcher is not yet satisfied and
/// the input shows a family to be there that is still missing. It makes the
/// watcher signal exactly if, besides, no other family is missing.
pub proof fn lemma_input_effect(watcher: WatcherView, input: WatcherInput)
    ensures
        watcher.apply(input) != watcher ==> !watcher.satisfied() && (input.brings(
            watcher.luid,
            AddressFamily::Ipv4,
        ) && !watcher.found_ipv4 || input.brings(watcher.luid, AddressFamily::Ipv6)
            && !watcher.found_ipv6),
        watcher.signals(input) <==> !watcher.satisfied() && (watcher.found_ipv4 || input.brings(
            watcher.luid,
            AddressFamily::Ipv4,
        )) && (watcher.found_ipv6 || input.brings(watcher.luid, AddressFamily::Ipv6)),
        watcher.apply(input).luid == watcher.luid,
        watcher.wf() ==> watcher.apply(input).wf(),
        watcher.satisfied() ==> watcher.apply(input) == watcher,
{
}

/// A watcher for which only IPv6 is missing signals when IPv6 is shown to
/// be on its interface, by a notification of its arrival or by a lookup,
/// and at nothing else: a notification for another interface, of another
/// kind or for IPv4 leaves it as it is.
pub proof fn lemma_waiting_for_ipv6(watcher: WatcherView, input: WatcherInput)
    requires
        watcher.found_ipv4,
        !watcher.found_ipv6,
    ensures
        watcher.signals(input) <==> input.brings(watcher.luid, AddressFamily::Ipv6),
        !input.brings(watcher.luid, AddressFamily::Ipv6) ==> watcher.apply(input) == watcher,
{
}

/// A watcher for which only IPv4 is missing signals when IPv4 is shown to
/// be on its interface, and at nothing else.
pub proof fn lemma_waiting_for_ipv4(watcher: WatcherView, input: WatcherInput)
    requires
        !watcher.found_ipv4,
        watcher.found_ipv6,
    ensures
        watcher.signals(input) <==> input.brings(watcher.luid, AddressFamily::Ipv4),
        !input.brings(watcher.luid, AddressFamily::Ipv4) ==> watcher.apply(input) == watcher,
{
}

/// After any sequence of notifications and lookups, in any order, a family
/// counts as found exactly if it did so at the start, a lookup found it, or
/// a notification reported its arrival on the watched interface.
pub proof fn lemma_found_after(watcher: WatcherView, inputs: Seq<WatcherInput>)
    ensures
        watcher.run(inputs).luid == watcher.luid,
        watcher.run(inputs).found_ipv4 == (watcher.found_ipv4 || brought(
            inputs,
            watcher.luid,
            AddressFamily::Ipv4,
        )),
        watcher.run(inputs).found_ipv6 == (watcher.found_ipv6 || brought(
            inputs,
            watcher.luid,
            AddressFamily::Ipv6,
        )),
    decreases inputs.len(),
{
    if inputs.len() > 0 {
        let before = inputs.drop_last();
        let last = inputs.last();
        lemma_found_after(watcher, before);
        lemma_brought_push(inputs, watcher.luid, AddressFamily::Ipv4);
        lemma_brought_push(inputs, watcher.luid, AddressFamily::Ipv6);
        lemma_input_effect(watcher.run(before), last);
    }
}

/// A family is shown to be there by a sequence of inputs exactly if it is
/// shown so before the last one or by the last one.
pub proof fn lemma_brought_push(inputs: Seq<WatcherInput>, luid: NetLuid, family: AddressFamily)
    requires
        inputs.len() > 0,
    ensures
        brought(inputs, luid, family) == (brought(inputs.drop_last(), luid, family)
            || inputs.last().brings(luid, family)),
{
    let before = inputs.drop_last();
    if brought(inputs, luid, family) {
        let i = choose|i: int| 0 <= i < inputs.len() && (#[trigger] inputs[i]).brings(luid, family);
        if i < before.len() {
            assert(before[i].brings(luid, family));
        }
    }
    if brought(before, luid, family) {
        let i = choose|i: int| 0 <= i < before.len() && (#[trigger] before[i]).brings(luid, family);
        assert(inputs[i].brings(luid, family));
    }
    if inputs.last().brings(luid, family) {
        assert(inputs[inputs.len() - 1].brings(luid, family));
    }
}

/// Over any sequence of notifications and lookups a watcher signals once if
/// it becomes satisfied, and never otherwise: never twice, and never if it
/// was satisfied from the start. It signals at the input that completes the
/// set, whichever kind that input is.
pub proof fn lemma_signals_once(watcher: WatcherView, inputs: Seq<WatcherInput>)
    ensures
        watcher.signal_count(inputs) == if !watcher.satisfied() && watcher.run(inputs).satisfied() {
            1nat
        } else {
            0nat
        },
        watcher.satisfied() ==> watcher.run(inputs) == watcher,
    decreases inputs.len(),
{
    if inputs.len() > 0 {
        lemma_signals_once(watcher, inputs.drop_last());
        lemma_input_effect(watcher.run(inputs.drop_last()), inputs.last());
    }
}

/// Running one event more is running the events before it and then taking
/// that event in.
pub proof fn lemma_wait_step(
    waiter: InterfaceWaiter,
    watcher: WatcherView,
    events: Seq<WaitEvent>,
    k: int,
)
    requires
        0 <= k < events.len(),
    ensures
        waiter.run_with(watcher, events.take(k + 1)) == ({
            let (before, told) = waiter.run_with(watcher, events.take(k));
            (before.next(events[k]), before.watcher_after(told, events[k]))
        }),
        waiter.run_with(watcher, events.take(0)) == (waiter, watcher),
{
    assert(events.take(k + 1).drop_last() =~= events.take(k));
}

/// A wait begins by subscribing, and looks nothing up before the
/// registration has succeeded: until then only the outcome of the
/// registration moves it, and a failed registration ends it with that
/// error. The watcher is told nothing.
pub proof fn lemma_subscribes_first(ipv4: bool, ipv6: bool, watcher: WatcherView, event: WaitEvent)
    ensures
        InterfaceWaiter::start(ipv4, ipv6).spec_pending() == WaitAction::Subscribe,
        !(event is Subscribed) ==> InterfaceWaiter::start(ipv4, ipv6).next(event)
            == InterfaceWaiter::start(ipv4, ipv6),
        event matches WaitEvent::Subscribed(Err(error)) ==> InterfaceWaiter::start(ipv4, ipv6).next(
            event,
        ).stage == WaitStage::Finished(Err(error)),
        InterfaceWaiter::start(ipv4, ipv6).watcher_after(watcher, event) == watcher,
{
}

/// What the lookups come to. After a successful registration every family
/// asked for is looked up, whether or not the one before it was found. A
/// lookup that fails otherwise than by not finding ends the wait with its
/// error. Otherwise the watcher counts as found exactly the families that
/// were not asked for or that their lookup found; the wait has ended in
/// success if that is every family, and the watcher is then satisfied; and
/// if a family is missing the wait awaits the watcher, which is not
/// satisfied yet.
pub proof fn lemma_lookups(
    luid: NetLuid,
    ipv4: bool,
    ipv6: bool,
    first: Result<(), OsError>,
    second: Result<(), OsError>,
)
    ensures
        ({
            let (waiter, watcher) = InterfaceWaiter::start(ipv4, ipv6).run_with(
                WatcherView::start(luid, ipv4, ipv6),
                lookup_events(ipv4, ipv6, first, second),
            );
            match (shown(ipv4, first), shown(ipv6, second)) {
                (Err(error), _) => waiter.stage == WaitStage::Finished(Err(error)),
                (Ok(_), Err(error)) => waiter.stage == WaitStage::Finished(Err(error)),
                (Ok(found_ipv4), Ok(found_ipv6)) => {
                    &&& watcher.luid == luid
                    &&& watcher.found_ipv4 == found_ipv4
                    &&& watcher.found_ipv6 == found_ipv6
                    &&& watcher.wf()
                    &&& waiter.stage == if found_ipv4 && found_ipv6 {
                        WaitStage::Finished(Ok(()))
                    } else {
                        WaitStage::Waiting
                    }
                },
            }
        }),
{
    let waiter = InterfaceWaiter::start(ipv4, ipv6);
    let watcher = WatcherView::start(luid, ipv4, ipv6);
    let events = lookup_events(ipv4, ipv6, first, second);
    let n = events.len() as int;
    assert(events.take(n) =~= events);
    assert(1 <= n <= 3);
    lemma_wait_step(waiter, watcher, events, 0);
    if n >= 2 {
        lemma_wait_step(waiter, watcher, events, 1);
    }
    if n >= 3 {
        lemma_wait_step(waiter, watcher, events, 2);
    }
}

/// Where the registration succeeds and every family asked for is found at
/// once, the wait ends in success without ever awaiting the watcher.
pub proof fn lemma_fast_path(luid: NetLuid, ipv4: bool, ipv6: bool)
    ensures
        ({
            let events = lookup_events(ipv4, ipv6, Ok(()), Ok(()));
            let start = InterfaceWaiter::start(ipv4, ipv6);
            let watcher = WatcherView::start(luid, ipv4, ipv6);
            &&& start.run_with(watcher, events).0.stage == WaitStage::Finished(Ok(()))
            &&& start.run_with(watcher, events).1.satisfied()
            &&& forall|k: int|
                0 <= k <= events.len() ==> (#[trigger] start.run_with(
                    watcher,
                    events.take(k),
                )).0.spec_pending() != WaitAction::AwaitSignal
        }),
{
    let start = InterfaceWaiter::start(ipv4, ipv6);
    let watcher = WatcherView::start(luid, ipv4, ipv6);
    let events = lookup_events(ipv4, ipv6, Ok(()), Ok(()));
    let n = events.len() as int;
    assert(events.take(n) =~= events);
    assert(1 <= n <= 3);
    lemma_wait_step(start, watcher, events, 0);
    if n >= 2 {
        lemma_wait_step(start, watcher, events, 1);
    }
    if n >= 3 {
        lemma_wait_step(start, watcher, events, 2);
    }
    assert forall|k: int| 0 <= k <= n implies (#[trigger] start.run_with(
        watcher,
        events.take(k),
    )).0.spec_pending() != WaitAction::AwaitSignal by {
        if k == 0 {
        } else if k == 1 {
        } else if k == 2 {
        } else {
            assert(k == 3);
        }
    }
}

/// Where both families are asked for and the lookups find just one of
/// them, the wait awaits the watcher, and the watcher signals at the first
/// input that shows the other family to be there, and at nothing before
/// it. The family that the lookup found need not arrive again.
pub proof fn lemma_found_then_arrival(
    luid: NetLuid,
    first: Result<(), OsError>,
    second: Result<(), OsError>,
    input: WatcherInput,
)
    requires
        entry_exists(first) is Ok,
        entry_exists(second) is Ok,
        entry_exists(first) != entry_exists(second),
    ensures
        ({
            let (waiter, watcher) = InterfaceWaiter::start(true, true).run_with(
                WatcherView::start(luid, true, true),
                lookup_events(true, true, first, second),
            );
            let missing = if entry_exists(first) == Ok::<bool, OsError>(true) {
                AddressFamily::Ipv6
            } else {
                AddressFamily::Ipv4
            };
            &&& waiter.spec_pending() == WaitAction::AwaitSignal
            &&& watcher.signals(input) <==> input.brings(luid, missing)
            &&& !input.brings(luid, missing) ==> watcher.apply(input) == watcher
            &&& waiter.next(WaitEvent::Signalled).stage == WaitStage::Finished(Ok(()))
        }),
{
    lemma_lookups(luid, true, true, first, second);
}

/// While the wait awaits the watcher, nothing but the signal ends it, in
/// success, and the watcher is told nothing by the waiter.
pub proof fn lemma_event_path(waiter: InterfaceWaiter, watcher: WatcherView, event: WaitEvent)
    requires
        waiter.stage == WaitStage::Waiting,
    ensures
        waiter.spec_pending() == WaitAction::AwaitSignal,
        waiter.next(WaitEvent::Signalled).stage == WaitStage::Finished(Ok(())),
        !(event is Signalled) ==> waiter.next(event) == waiter,
        waiter.watcher_after(watcher, event) == watcher,
{
}

} // verus!
