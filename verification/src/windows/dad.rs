//! Duplicate address detection: the states of a unicast address and the
//! check that waits until every address of an interface is usable.

use crate::windows::{Error, NetLuid, OsError, NO_ERROR};
use futures::channel::oneshot::Canceled;
use vstd::prelude::*;

verus! {

/// How long, in milliseconds, the addresses of an interface are given to
/// become usable.
pub const DAD_CHECK_TIMEOUT_MS: u64 = 5000;

/// How long, in milliseconds, the check sleeps between two rounds.
pub const DAD_CHECK_INTERVAL_MS: u64 = 100;

/// The raw DAD state of an address that is not valid.
pub const IP_DAD_STATE_INVALID: u32 = 0;

/// The raw DAD state of an address whose uniqueness is still being verified.
pub const IP_DAD_STATE_TENTATIVE: u32 = 1;

/// The raw DAD state of an address that was found to be in use elsewhere.
pub const IP_DAD_STATE_DUPLICATE: u32 = 2;

/// The raw DAD state of an address that should no longer be used.
pub const IP_DAD_STATE_DEPRECATED: u32 = 3;

/// The raw DAD state of an address that is usable.
pub const IP_DAD_STATE_PREFERRED: u32 = 4;

/// The DAD state of a unicast address.
#[derive(Clone, Copy, Debug, PartialEq, Eq, Structural)]
pub enum DadState {
    /// The address is not valid.
    Invalid,
    /// The uniqueness of the address is still being verified.
    Tentative,
    /// The address is in use elsewhere.
    Duplicate,
    /// The address should no longer be used.
    Deprecated,
    /// The address is usable.
    Preferred,
    /// A state code that none of the above names.
    Unknown(u32),
}

/// Handles cases where the DAD state is neither tentative nor preferred.
#[derive(Clone, Copy, Debug, PartialEq, Eq, Structural)]
pub enum DadStateError {
    /// Invalid DAD state.
    Invalid,
    /// Duplicate unicast address.
    Duplicate,
    /// Deprecated unicast address.
    Deprecated,
    /// Unknown DAD state constant.
    Unknown(u32),
}

/// What one look at an address says about its readiness.
#[derive(Clone, Copy, Debug, PartialEq, Eq, Structural)]
pub enum Readiness {
    /// The address is usable.
    Ready,
    /// The address may still become usable.
    Pending,
    /// The address will never become usable.
    Failed(DadStateError),
}

impl DadState {
    /// The state that a raw state code names.
    pub open spec fn of_raw(raw: u32) -> DadState {
        if raw == IP_DAD_STATE_INVALID {
            DadState::Invalid
        } else if raw == IP_DAD_STATE_TENTATIVE {
            DadState::Tentative
        } else if raw == IP_DAD_STATE_DUPLICATE {
            DadState::Duplicate
        } else if raw == IP_DAD_STATE_DEPRECATED {
            DadState::Deprecated
        } else if raw == IP_DAD_STATE_PREFERRED {
            DadState::Preferred
        } else {
            DadState::Unknown(raw)
        }
    }

    /// The raw code of a state.
    pub open spec fn raw(self) -> u32 {
        match self {
            DadState::Invalid => IP_DAD_STATE_INVALID,
            DadState::Tentative => IP_DAD_STATE_TENTATIVE,
            DadState::Duplicate => IP_DAD_STATE_DUPLICATE,
            DadState::Deprecated => IP_DAD_STATE_DEPRECATED,
            DadState::Preferred => IP_DAD_STATE_PREFERRED,
            DadState::Unknown(raw) => raw,
        }
    }

    /// Only a preferred address is usable, only a tentative one may still
    /// become so; every other state is final and a failure.
    pub open spec fn readiness(self) -> Readiness {
        match self {
            DadState::Preferred => Readiness::Ready,
            DadState::Tentative => Readiness::Pending,
            DadState::Invalid => Readiness::Failed(DadStateError::Invalid),
            DadState::Duplicate => Readiness::Failed(DadStateError::Duplicate),
            DadState::Deprecated => Readiness::Failed(DadStateError::Deprecated),
            DadState::Unknown(raw) => Readiness::Failed(DadStateError::Unknown(raw)),
        }
    }

    /// Names a raw state code.
    pub fn from_raw(raw: u32) -> (state: DadState)
        ensures
            state == DadState::of_raw(raw),
    {
        if raw == IP_DAD_STATE_INVALID {
            DadState::Invalid
        } else if raw == IP_DAD_STATE_TENTATIVE {
            DadState::Tentative
        } else if raw == IP_DAD_STATE_DUPLICATE {
            DadState::Duplicate
        } else if raw == IP_DAD_STATE_DEPRECATED {
            DadState::Deprecated
        } else if raw == IP_DAD_STATE_PREFERRED {
            DadState::Preferred
        } else {
            DadState::Unknown(raw)
        }
    }

    /// Whether an address in this state is usable, may become usable, or
    /// never will.
    pub fn check(self) -> (readiness: Readiness)
        ensures
            readiness == self.readiness(),
    {
        match self {
            DadState::Preferred => Readiness::Ready,
            DadState::Tentative => Readiness::Pending,
            DadState::Invalid => Readiness::Failed(DadStateError::Invalid),
            DadState::Duplicate => Readiness::Failed(DadStateError::Duplicate),
            DadState::Deprecated => Readiness::Failed(DadStateError::Deprecated),
            DadState::Unknown(raw) => Readiness::Failed(DadStateError::Unknown(raw)),
        }
    }

    /// The raw code of this state.
    pub fn to_raw(self) -> (raw: u32)
        ensures
            raw == self.raw(),
    {
        match self {
            DadState::Invalid => IP_DAD_STATE_INVALID,
            DadState::Tentative => IP_DAD_STATE_TENTATIVE,
            DadState::Duplicate => IP_DAD_STATE_DUPLICATE,
            DadState::Deprecated => IP_DAD_STATE_DEPRECATED,
            DadState::Preferred => IP_DAD_STATE_PREFERRED,
            DadState::Unknown(raw) => raw,
        }
    }
}

impl DadStateError {
    /// The error that a raw state code stands for when it is taken as a
    /// failure: the three failure states by name, every other code as
    /// unknown.
    pub open spec fn of_raw(state: u32) -> DadStateError {
        if state == IP_DAD_STATE_INVALID {
            DadStateError::Invalid
        } else if state == IP_DAD_STATE_DUPLICATE {
            DadStateError::Duplicate
        } else if state == IP_DAD_STATE_DEPRECATED {
            DadStateError::Deprecated
        } else {
            DadStateError::Unknown(state)
        }
    }
}

impl vstd::std_specs::convert::FromSpecImpl<u32> for DadStateError {
    open spec fn obeys_from_spec() -> bool {
        true
    }

    open spec fn from_spec(state: u32) -> DadStateError {
        DadStateError::of_raw(state)
    }
}

impl From<u32> for DadStateError {
    fn from(state: u32) -> (error: DadStateError) {
        if state == IP_DAD_STATE_INVALID {
            DadStateError::Invalid
        } else if state == IP_DAD_STATE_DUPLICATE {
            DadStateError::Duplicate
        } else if state == IP_DAD_STATE_DEPRECATED {
            DadStateError::Deprecated
        } else {
            DadStateError::Unknown(state)
        }
    }
}

/// A raw state code and the state it names stand for each other, and a state
/// code is a failure exactly when it is neither tentative nor preferred; the
/// failure then is the error of that code.
pub proof fn lemma_dad_state_codes(raw: u32)
    ensures
        DadState::of_raw(raw).raw() == raw,
        DadState::of_raw(raw).readiness() is Ready <==> raw == IP_DAD_STATE_PREFERRED,
        DadState::of_raw(raw).readiness() is Pending <==> raw == IP_DAD_STATE_TENTATIVE,
        raw != IP_DAD_STATE_PREFERRED && raw != IP_DAD_STATE_TENTATIVE ==> DadState::of_raw(
            raw,
        ).readiness() == Readiness::Failed(DadStateError::of_raw(raw)),
{
}

/// A row of the unicast address table, as far as the check reads it.
#[derive(Clone, Copy, Debug, PartialEq, Eq, Structural)]
pub struct UnicastAddressRow {
    /// The interface that the address is assigned to.
    pub interface_luid: NetLuid,
    /// The address family tag of the address.
    pub family: u16,
    /// The raw DAD state of the address.
    pub dad_state: u32,
}

/// Where the check stands.
#[derive(Clone, Copy, Debug, PartialEq, Eq)]
pub enum CheckStage {
    /// A round is under way. `cursor` is the position, in the list of
    /// candidates, of the address to look at next; `ready` says that no
    /// address seen in this round so far was tentative.
    Polling { cursor: usize, ready: bool },
    /// The last round found a tentative address; the check sleeps.
    Sleeping,
    /// The check has ended with this result.
    Finished(Result<(), Error>),
}

/// What the driver of the check has to do next.
#[derive(Clone, Copy, Debug, PartialEq, Eq)]
pub enum CheckAction {
    /// Query anew the row of the unicast address table at this index, and
    /// report it as [`CheckEvent::Entry`].
    Query(usize),
    /// Sleep for this many milliseconds, then report the time as
    /// [`CheckEvent::Woke`].
    Sleep(u64),
    /// Stop: this is the result of the check.
    Finish(Result<(), Error>),
}

/// What the driver of the check reports back.
#[derive(Clone, Copy, Debug, PartialEq, Eq, Structural)]
pub enum CheckEvent {
    /// A row was queried anew: the status of the query, and the raw DAD
    /// state that the row then holds.
    Entry { status: u32, dad_state: u32 },
    /// The sleep is over; `elapsed_ms` milliseconds have passed since the
    /// check began.
    Woke { elapsed_ms: u64 },
}

/// Polls the addresses of one interface until each of them is usable, one of
/// them has failed, or the deadline has passed.
///
/// The checker performs no query and reads no clock itself. It says which
/// row to query next, or how long to sleep, and is told what came of it.
pub struct AddressReadinessChecker {
    candidates: Vec<usize>,
    stage: CheckStage,
}

/// The state of an [`AddressReadinessChecker`]: the indices, in the unicast
/// address table, of the addresses under check, and the stage.
pub struct CheckerView {
    pub candidates: Seq<usize>,
    pub stage: CheckStage,
}

/// The error with which a queried row ends the check at once, if it does:
/// a query that failed, or a state that is neither tentative nor preferred.
pub open spec fn entry_failure(status: u32, dad_state: u32) -> Option<Error> {
    if status != NO_ERROR {
        Some(Error::ObtainUnicastAddress(OsError { code: crate::windows::status_code(status) as i32 }))
    } else {
        match DadState::of_raw(dad_state).readiness() {
            Readiness::Failed(error) => Some(Error::DadStateError(error)),
            _ => None,
        }
    }
}

/// Whether a queried row holds an address that is still tentative.
pub open spec fn entry_tentative(status: u32, dad_state: u32) -> bool {
    status == NO_ERROR && dad_state == IP_DAD_STATE_TENTATIVE
}

/// Whether a queried row holds an address that is usable.
pub open spec fn entry_preferred(status: u32, dad_state: u32) -> bool {
    status == NO_ERROR && dad_state == IP_DAD_STATE_PREFERRED
}

/// Whether a row belongs to the interface.
pub open spec fn on_interface(row: UnicastAddressRow, luid: NetLuid) -> bool {
    row.interface_luid.value == luid.value
}

/// `candidates` lists, in ascending order and each once, the indices of the
/// rows of `table` that belong to the interface.
pub open spec fn is_candidate_list(
    table: Seq<UnicastAddressRow>,
    luid: NetLuid,
    candidates: Seq<usize>,
) -> bool {
    &&& forall|k: int|
        0 <= k < candidates.len() ==> (#[trigger] candidates[k]) < table.len() && on_interface(
            table[candidates[k] as int],
            luid,
        )
    &&& forall|j: int, k: int|
        0 <= j < k < candidates.len() ==> (#[trigger] candidates[j]) < (#[trigger] candidates[k])
    &&& forall|i: int|
        0 <= i < table.len() && on_interface(#[trigger] table[i], luid) ==> candidates.contains(
            i as usize,
        )
}

/// Whether the table holds an address of the interface.
pub open spec fn has_address(table: Seq<UnicastAddressRow>, luid: NetLuid) -> bool {
    exists|i: int| 0 <= i < table.len() && on_interface(#[trigger] table[i], luid)
}

/// The error with which [`wait_for_addresses`] answers at once, if it does.
pub open spec fn immediate_failure(
    luid: NetLuid,
    table: Result<Seq<UnicastAddressRow>, OsError>,
) -> Option<Error> {
    match table {
        Err(error) => Some(Error::ObtainUnicastAddress(error)),
        Ok(rows) => if has_address(rows, luid) {
            None
        } else {
            Some(Error::NoUnicastAddress)
        },
    }
}

impl CheckerView {
    /// There is at least one candidate, no more than a vector can hold, and
    /// the cursor of a round points at one.
    pub open spec fn wf(self) -> bool {
        &&& 0 < self.candidates.len() <= usize::MAX
        &&& self.stage matches CheckStage::Polling { cursor, .. } ==> cursor
            < self.candidates.len()
    }

    /// What the driver has to do in this state.
    pub open spec fn pending(self) -> CheckAction {
        match self.stage {
            CheckStage::Polling { cursor, .. } => CheckAction::Query(self.candidates[cursor as int]),
            CheckStage::Sleeping => CheckAction::Sleep(DAD_CHECK_INTERVAL_MS),
            CheckStage::Finished(result) => CheckAction::Finish(result),
        }
    }

    /// The stage after an event.
    ///
    /// In a round, a row that failed ends the check with its error. Any other
    /// row moves the cursor on, and a tentative one marks the round as not
    /// ready; behind the last row the round ends, in success if it is ready
    /// and in a sleep if it is not. After the sleep a new round begins if
    /// the deadline has not passed, else the check ends in a timeout. An
    /// event that the stage does not wait for changes nothing.
    pub open spec fn next_stage(self, event: CheckEvent) -> CheckStage {
        match (self.stage, event) {
            (CheckStage::Polling { cursor, ready }, CheckEvent::Entry { status, dad_state }) => {
                match entry_failure(status, dad_state) {
                    Some(error) => CheckStage::Finished(Err(error)),
                    None => {
                        let ready = ready && !entry_tentative(status, dad_state);
                        if cursor + 1 < self.candidates.len() {
                            CheckStage::Polling { cursor: (cursor + 1) as usize, ready }
                        } else if ready {
                            CheckStage::Finished(Ok(()))
                        } else {
                            CheckStage::Sleeping
                        }
                    },
                }
            },
            (CheckStage::Sleeping, CheckEvent::Woke { elapsed_ms }) => {
                if elapsed_ms < DAD_CHECK_TIMEOUT_MS {
                    CheckStage::Polling { cursor: 0, ready: true }
                } else {
                    CheckStage::Finished(Err(Error::DeviceReadyTimeout))
                }
            },
            (stage, _) => stage,
        }
    }

    /// The state after an event.
    pub open spec fn next(self, event: CheckEvent) -> CheckerView {
        CheckerView { candidates: self.candidates, stage: self.next_stage(event) }
    }

    /// The state after a sequence of events.
    pub open spec fn run(self, events: Seq<CheckEvent>) -> CheckerView
        decreases events.len(),
    {
        if events.len() == 0 {
            self
        } else {
            self.run(events.drop_last()).next(events.last())
        }
    }

    /// The same candidates at the start of a round.
    pub open spec fn at_round_start(self) -> CheckerView {
        CheckerView { candidates: self.candidates, stage: CheckStage::Polling { cursor: 0, ready: true } }
    }
}

impl View for AddressReadinessChecker {
    type V = CheckerView;

    closed spec fn view(&self) -> CheckerView {
        CheckerView { candidates: self.candidates@, stage: self.stage }
    }
}

impl AddressReadinessChecker {
    #[verifier::type_invariant]
    spec fn inv(self) -> bool {
        self@.wf()
    }

    /// What the driver has to do now.
    pub fn pending(&self) -> (action: CheckAction)
        ensures
            self@.wf(),
            action == self@.pending(),
    {
        proof {
            use_type_invariant(self);
        }
        match self.stage {
            CheckStage::Polling { cursor, .. } => CheckAction::Query(self.candidates[cursor]),
            CheckStage::Sleeping => CheckAction::Sleep(DAD_CHECK_INTERVAL_MS),
            CheckStage::Finished(result) => CheckAction::Finish(result),
        }
    }

    /// The stage of the check.
    pub fn stage(&self) -> (stage: CheckStage)
        ensures
            stage == self@.stage,
    {
        self.stage
    }

    /// The indices, in the unicast address table, of the addresses under
    /// check.
    pub fn candidates(&self) -> (candidates: &Vec<usize>)
        ensures
            candidates@ == self@.candidates,
    {
        &self.candidates
    }

    /// Takes an event in and says what the driver has to do next.
    pub fn step(&mut self, event: CheckEvent) -> (action: CheckAction)
        ensures
            final(self)@ == old(self)@.next(event),
            final(self)@.wf(),
            action == final(self)@.pending(),
    {
        proof {
            use_type_invariant(&*self);
        }
        let count = self.candidates.len();
        let stage = match (self.stage, event) {
            (CheckStage::Polling { cursor, ready }, CheckEvent::Entry { status, dad_state }) => {
                if status != NO_ERROR {
                    CheckStage::Finished(Err(Error::ObtainUnicastAddress(OsError::from_status(status))))
                } else {
                    match DadState::from_raw(dad_state).check() {
                        Readiness::Failed(error) => CheckStage::Finished(Err(Error::DadStateError(error))),
                        readiness => {
                            let ready = ready && readiness == Readiness::Ready;
                            if cursor + 1 < count {
                                CheckStage::Polling { cursor: cursor + 1, ready }
                            } else if ready {
                                CheckStage::Finished(Ok(()))
                            } else {
                                CheckStage::Sleeping
                            }
                        },
                    }
                }
            },
            (CheckStage::Sleeping, CheckEvent::Woke { elapsed_ms }) => {
                if elapsed_ms < DAD_CHECK_TIMEOUT_MS {
                    CheckStage::Polling { cursor: 0, ready: true }
                } else {
                    CheckStage::Finished(Err(Error::DeviceReadyTimeout))
                }
            },
            (stage, _) => stage,
        };
        self.stage = stage;
        self.pending()
    }

    /// The result that the waiting side reports once the worker's one-shot
    /// signal has resolved: the worker's own result, or
    /// [`Error::UnicastSenderDropped`] where the worker went away without
    /// sending one.
    pub fn completion(received: Result<Result<(), Error>, Canceled>) -> (result: Result<(), Error>)
        ensures
            result == match received {
                Ok(result) => result,
                Err(_) => Err(Error::UnicastSenderDropped),
            },
    {
        match received {
            Ok(result) => result,
            Err(_) => Err(Error::UnicastSenderDropped),
        }
    }
}

/// Begins to wait for the addresses of an interface to become usable.
///
/// `table` is what the query of the unicast address table gave. A failed
/// query is [`Error::ObtainUnicastAddress`], and a table without any address
/// of the interface is [`Error::NoUnicastAddress`]: in both cases there is
/// no checker, so nothing is ever polled. Otherwise the checker holds the
/// rows of the interface and stands at the start of its first round.
pub fn wait_for_addresses(luid: NetLuid, table: Result<Vec<UnicastAddressRow>, OsError>) -> (result:
    Result<AddressReadinessChecker, Error>)
    ensures
        match result {
            Ok(checker) => {
                &&& table is Ok
                &&& immediate_failure(luid, Ok(table->Ok_0@)) is None
                &&& is_candidate_list(table->Ok_0@, luid, checker@.candidates)
                &&& checker@.stage == (CheckStage::Polling { cursor: 0, ready: true })
                &&& checker@.wf()
            },
            Err(error) => match table {
                Ok(rows) => immediate_failure(luid, Ok(rows@)) == Some(error),
                Err(e) => error == Error::ObtainUnicastAddress(e),
            },
        },
{
    let rows = match table {
        Ok(rows) => rows,
        Err(error) => {
            return Err(Error::ObtainUnicastAddress(error));
        },
    };
    let mut candidates: Vec<usize> = Vec::new();
    let mut i: usize = 0;
    while i < rows.len()
        invariant
            i <= rows.len(),
            is_candidate_list(rows@.take(i as int), luid, candidates@),
        decreases rows.len() - i,
    {
        let ghost before = candidates@;
        let ghost shorter = rows@.take(i as int);
        let ghost prefix = rows@.take(i as int + 1);
        if rows[i].interface_luid.value == luid.value {
            candidates.push(i);
            proof {
                assert forall|k: int| 0 <= k < candidates@.len() implies (#[trigger] candidates@[k])
                    < prefix.len() && on_interface(prefix[candidates@[k] as int], luid) by {
                    if k < before.len() {
                        assert(before[k] < shorter.len());
                        assert(prefix[before[k] as int] == shorter[before[k] as int]);
                    }
                }
                assert forall|j: int, k: int| 0 <= j < k < candidates@.len() implies (
                #[trigger] candidates@[j]) < (#[trigger] candidates@[k]) by {
                    assert(before[j] < shorter.len());
                    if k < before.len() {
                        assert(before[j] < before[k]);
                    }
                }
                assert forall|m: int| 0 <= m < prefix.len() && on_interface(
                    #[trigger] prefix[m],
                    luid,
                ) implies candidates@.contains(m as usize) by {
                    if m < i {
                        assert(on_interface(shorter[m], luid));
                        let k = choose|k: int| 0 <= k < before.len() && before[k] == m as usize;
                        assert(candidates@[k] == m as usize);
                    } else {
                        assert(candidates@[before.len() as int] == m as usize);
                    }
                }
            }
        } else {
            proof {
                assert forall|k: int| 0 <= k < candidates@.len() implies (#[trigger] candidates@[k])
                    < prefix.len() && on_interface(prefix[candidates@[k] as int], luid) by {
                    assert(before[k] < shorter.len());
                    assert(prefix[before[k] as int] == shorter[before[k] as int]);
                }
                assert forall|m: int| 0 <= m < prefix.len() && on_interface(
                    #[trigger] prefix[m],
                    luid,
                ) implies candidates@.contains(m as usize) by {
                    assert(on_interface(shorter[m], luid));
                }
            }
        }
        i += 1;
    }
    proof {
        assert(rows@.take(i as int) =~= rows@);
    }
    if candidates.len() == 0 {
        proof {
            if has_address(rows@, luid) {
                let m = choose|m: int| 0 <= m < rows@.len() && on_interface(#[trigger] rows@[m], luid);
                assert(candidates@.contains(m as usize));
            }
        }
        return Err(Error::NoUnicastAddress);
    }
    proof {
        let first = candidates@[0] as int;
        assert(0 <= first < rows@.len() && on_interface(rows@[first], luid));
    }
    Ok(AddressReadinessChecker { candidates, stage: CheckStage::Polling { cursor: 0, ready: true } })
}

impl CheckEvent {
    /// The error with which this event ends a round at once, if it does.
    pub open spec fn failure(self) -> Option<Error> {
        match self {
            CheckEvent::Entry { status, dad_state } => entry_failure(status, dad_state),
            CheckEvent::Woke { .. } => None,
        }
    }

    /// The event reports a row whose address is still tentative.
    pub open spec fn tentative(self) -> bool {
        self matches CheckEvent::Entry { status, dad_state } && entry_tentative(status, dad_state)
    }

    /// The event reports a row whose address is usable.
    pub open spec fn preferred(self) -> bool {
        self matches CheckEvent::Entry { status, dad_state } && entry_preferred(status, dad_state)
    }

    /// The event reports a row that does not end the round: its query
    /// succeeded and its address is tentative or preferred.
    pub open spec fn passes(self) -> bool {
        self is Entry && self.failure() is None
    }
}

/// None of the first `k` events reports a tentative address.
pub open spec fn none_tentative(events: Seq<CheckEvent>, k: int) -> bool {
    forall|j: int| 0 <= j < k ==> !(#[trigger] events[j]).tentative()
}

/// Each of the first `k` events reports a row that does not end the round.
pub open spec fn all_pass(events: Seq<CheckEvent>, k: int) -> bool {
    forall|j: int| 0 <= j < k ==> (#[trigger] events[j]).passes()
}

/// A row fails exactly when its query failed or its state is neither
/// tentative nor preferred. A failed query gives
/// [`Error::ObtainUnicastAddress`] with the status as its code; an invalid,
/// duplicate, deprecated or unknown state gives [`Error::DadStateError`]
/// with the error of that state.
pub proof fn lemma_entry_failure(status: u32, dad_state: u32)
    ensures
        entry_failure(status, dad_state) is None <==> entry_tentative(status, dad_state)
            || entry_preferred(status, dad_state),
        status != NO_ERROR ==> entry_failure(status, dad_state) == Some(
            Error::ObtainUnicastAddress(OsError { code: crate::windows::status_code(status) as i32 }),
        ),
        status == NO_ERROR && dad_state != IP_DAD_STATE_TENTATIVE && dad_state
            != IP_DAD_STATE_PREFERRED ==> entry_failure(status, dad_state) == Some(
            Error::DadStateError(DadStateError::of_raw(dad_state)),
        ),
{
}

/// Running one event more is running the events before it and then taking
/// that event in.
pub proof fn lemma_run_step(state: CheckerView, events: Seq<CheckEvent>, k: int)
    requires
        0 <= k < events.len(),
    ensures
        state.run(events.take(k + 1)) == state.run(events.take(k)).next(events[k]),
        state.run(events.take(0)) == state,
{
    assert(events.take(k + 1).drop_last() =~= events.take(k));
}

/// No event changes the candidates, and every event keeps a well-formed
/// state well-formed.
pub proof fn lemma_run_wf(state: CheckerView, events: Seq<CheckEvent>)
    requires
        state.wf(),
    ensures
        state.run(events).wf(),
        state.run(events).candidates == state.candidates,
    decreases events.len(),
{
    if events.len() > 0 {
        lemma_run_wf(state, events.drop_last());
    }
}

/// A check that has ended stays as it is, whatever is reported to it: it
/// never asks for another query.
pub proof fn lemma_finished_is_final(state: CheckerView, events: Seq<CheckEvent>)
    requires
        state.stage is Finished,
    ensures
        state.run(events) == state,
    decreases events.len(),
{
    if events.len() > 0 {
        lemma_finished_is_final(state, events.drop_last());
    }
}

/// In a round, as long as no row has failed and there are rows left, the
/// check is still polling: after `k` rows the cursor stands at `k`, and the
/// round is ready exactly if none of those rows was tentative.
pub proof fn lemma_round_prefix(state: CheckerView, events: Seq<CheckEvent>, k: int)
    requires
        state.wf(),
        state.stage == (CheckStage::Polling { cursor: 0, ready: true }),
        0 <= k <= events.len(),
        k < state.candidates.len(),
        all_pass(events, k),
    ensures
        state.run(events.take(k)).stage == (CheckStage::Polling {
            cursor: k as usize,
            ready: none_tentative(events, k),
        }),
        state.run(events.take(k)).candidates == state.candidates,
    decreases k,
{
    if k > 0 {
        lemma_round_prefix(state, events, k - 1);
        lemma_run_step(state, events, k - 1);
        assert(events[k - 1].passes());
        assert(none_tentative(events, k) == (none_tentative(events, k - 1) && !events[k
            - 1].tentative()));
    } else {
        assert(events.take(0) =~= Seq::<CheckEvent>::empty());
    }
}

/// A round in which every row passes ends behind its last row: in success
/// if no address was tentative, and in a sleep if one was. It ends nowhere
/// before.
pub proof fn lemma_round_without_failure(state: CheckerView, events: Seq<CheckEvent>)
    requires
        state.wf(),
        state.stage == (CheckStage::Polling { cursor: 0, ready: true }),
        events.len() == state.candidates.len(),
        all_pass(events, events.len() as int),
    ensures
        state.run(events).stage == if none_tentative(events, events.len() as int) {
            CheckStage::Finished(Ok(()))
        } else {
            CheckStage::Sleeping
        },
        forall|k: int| 0 <= k < events.len() ==> (#[trigger] state.run(events.take(k))).stage is Polling,
{
    let n = events.len() as int;
    lemma_round_prefix(state, events, n - 1);
    lemma_run_step(state, events, n - 1);
    assert(events.take(n) =~= events);
    assert(events[n - 1].passes());
    assert(none_tentative(events, n) == (none_tentative(events, n - 1) && !events[n - 1].tentative()));
    assert forall|k: int| 0 <= k < events.len() implies (#[trigger] state.run(
        events.take(k),
    )).stage is Polling by {
        lemma_round_prefix(state, events, k);
    }
}

/// Where every address is preferred, the first round ends in success, with
/// no sleep on the way.
pub proof fn lemma_all_preferred_succeeds(state: CheckerView, events: Seq<CheckEvent>)
    requires
        state.wf(),
        state.stage == (CheckStage::Polling { cursor: 0, ready: true }),
        events.len() == state.candidates.len(),
        forall|j: int| 0 <= j < events.len() ==> (#[trigger] events[j]).preferred(),
    ensures
        state.run(events).stage == CheckStage::Finished(Ok(())),
        state.run(events).pending() == CheckAction::Finish(Ok(())),
        forall|k: int| 0 <= k < events.len() ==> (#[trigger] state.run(events.take(k))).stage is Polling,
{
    assert forall|j: int| 0 <= j < events.len() implies (#[trigger] events[j]).passes() by {
        assert(events[j].preferred());
    }
    assert forall|j: int| 0 <= j < events.len() implies !(#[trigger] events[j]).tentative() by {
        assert(events[j].preferred());
    }
    lemma_round_without_failure(state, events);
}

/// Where no row fails and one address is tentative, the round does not end
/// the check: it ends in a sleep of the poll interval. What follows the
/// sleep depends on the clock alone: before the deadline another round
/// begins at the first candidate, at or past it the check ends in
/// [`Error::DeviceReadyTimeout`].
pub proof fn lemma_tentative_round_retries(
    state: CheckerView,
    events: Seq<CheckEvent>,
    tentative: int,
    elapsed_ms: u64,
)
    requires
        state.wf(),
        state.stage == (CheckStage::Polling { cursor: 0, ready: true }),
        events.len() == state.candidates.len(),
        all_pass(events, events.len() as int),
        0 <= tentative < events.len(),
        events[tentative].tentative(),
    ensures
        state.run(events).stage == CheckStage::Sleeping,
        state.run(events).pending() == CheckAction::Sleep(DAD_CHECK_INTERVAL_MS),
        elapsed_ms < DAD_CHECK_TIMEOUT_MS ==> state.run(events).next(CheckEvent::Woke { elapsed_ms })
            == state.at_round_start(),
        elapsed_ms >= DAD_CHECK_TIMEOUT_MS ==> state.run(events).next(
            CheckEvent::Woke { elapsed_ms },
        ).stage == CheckStage::Finished(Err(Error::DeviceReadyTimeout)),
{
    lemma_round_without_failure(state, events);
    lemma_run_wf(state, events);
}

/// The first row of a round that fails ends the check with its error, at
/// that row: the rows behind it are not asked for, and whatever is reported
/// afterwards changes nothing.
pub proof fn lemma_first_failure_ends_check(
    state: CheckerView,
    events: Seq<CheckEvent>,
    failed: int,
    error: Error,
)
    requires
        state.wf(),
        state.stage == (CheckStage::Polling { cursor: 0, ready: true }),
        0 <= failed < events.len(),
        failed < state.candidates.len(),
        all_pass(events, failed),
        events[failed].failure() == Some(error),
    ensures
        state.run(events.take(failed + 1)).stage == CheckStage::Finished(Err(error)),
        state.run(events).stage == CheckStage::Finished(Err(error)),
        state.run(events).pending() == CheckAction::Finish(Err(error)),
{
    lemma_round_prefix(state, events, failed);
    lemma_run_step(state, events, failed);
    let ended = state.run(events.take(failed + 1));
    lemma_run_split(state, events, failed + 1);
    lemma_finished_is_final(ended, events.skip(failed + 1));
}

/// Running a sequence of events is running its first `k` and then the rest.
pub proof fn lemma_run_split(state: CheckerView, events: Seq<CheckEvent>, k: int)
    requires
        0 <= k <= events.len(),
    ensures
        state.run(events) == state.run(events.take(k)).run(events.skip(k)),
    decreases events.len(),
{
    if k == events.len() {
        assert(events.take(k) =~= events);
        assert(events.skip(k) =~= Seq::<CheckEvent>::empty());
    } else {
        lemma_run_split(state, events.drop_last(), k);
        assert(events.drop_last().take(k) =~= events.take(k));
        assert(events.drop_last().skip(k) =~= events.skip(k).drop_last());
        assert(events.skip(k).last() == events.last());
    }
}

/// A table without any address of the interface, the empty table among
/// them, is refused with [`Error::NoUnicastAddress`], and a table that holds
/// one is not refused.
pub proof fn lemma_no_unicast_address(luid: NetLuid, table: Seq<UnicastAddressRow>)
    ensures
        immediate_failure(luid, Ok(table)) == Some(Error::NoUnicastAddress) <==> !has_address(
            table,
            luid,
        ),
        immediate_failure(luid, Ok(table)) is None <==> has_address(table, luid),
        table.len() == 0 ==> immediate_failure(luid, Ok(table)) == Some(Error::NoUnicastAddress),
{
}

} // verus!
