use futures::channel::oneshot::Canceled;
use talpid_core::windows::dad::{
    wait_for_addresses, AddressReadinessChecker, CheckAction, CheckEvent, CheckStage, DadState,
    DadStateError, Readiness, UnicastAddressRow,
};
use talpid_core::windows::{Error, NetLuid, OsError};

const TUNNEL: NetLuid = NetLuid { value: 0x0006_0000_0100_0000 };
const OTHER: NetLuid = NetLuid { value: 7 };

fn row(interface_luid: NetLuid, family: u16, dad_state: u32) -> UnicastAddressRow {
    UnicastAddressRow { interface_luid, family, dad_state }
}

fn entry(dad_state: u32) -> CheckEvent {
    CheckEvent::Entry { status: 0, dad_state }
}

fn checker_over(count: usize) -> AddressReadinessChecker {
    let table = (0..count).map(|_| row(TUNNEL, 2, 1)).collect();
    wait_for_addresses(TUNNEL, Ok(table)).unwrap()
}

#[test]
fn empty_table_has_no_unicast_address() {
    let result = wait_for_addresses(TUNNEL, Ok(Vec::new()));
    assert_eq!(result.err(), Some(Error::NoUnicastAddress));
}

#[test]
fn table_without_the_interface_has_no_unicast_address() {
    let table = vec![row(OTHER, 2, 4), row(NetLuid::new(8), 23, 4)];
    let result = wait_for_addresses(TUNNEL, Ok(table));
    assert_eq!(result.err(), Some(Error::NoUnicastAddress));
}

#[test]
fn failed_table_query_is_handed_on() {
    let result = wait_for_addresses(TUNNEL, Err(OsError { code: 87 }));
    assert_eq!(
        result.err(),
        Some(Error::ObtainUnicastAddress(OsError { code: 87 }))
    );
}

#[test]
fn candidates_are_the_rows_of_the_interface_in_order() {
    let table = vec![
        row(OTHER, 2, 4),
        row(TUNNEL, 2, 1),
        row(OTHER, 23, 4),
        row(TUNNEL, 23, 1),
        row(TUNNEL, 23, 4),
    ];
    let checker = wait_for_addresses(TUNNEL, Ok(table)).unwrap();
    assert_eq!(checker.candidates(), &vec![1, 3, 4]);
    assert_eq!(checker.stage(), CheckStage::Polling { cursor: 0, ready: true });
    assert_eq!(checker.pending(), CheckAction::Query(1));
}

#[test]
fn all_preferred_succeeds_in_the_first_round() {
    let table = vec![row(OTHER, 2, 1), row(TUNNEL, 2, 1), row(TUNNEL, 23, 1)];
    let mut checker = wait_for_addresses(TUNNEL, Ok(table)).unwrap();
    assert_eq!(checker.pending(), CheckAction::Query(1));
    assert_eq!(checker.step(entry(4)), CheckAction::Query(2));
    assert_eq!(checker.step(entry(4)), CheckAction::Finish(Ok(())));
    assert_eq!(checker.stage(), CheckStage::Finished(Ok(())));
}

#[test]
fn single_preferred_address_succeeds_at_once() {
    let mut checker = checker_over(1);
    assert_eq!(checker.step(entry(4)), CheckAction::Finish(Ok(())));
}

#[test]
fn tentative_address_makes_the_check_sleep_and_retry() {
    let mut checker = checker_over(2);
    assert_eq!(checker.step(entry(4)), CheckAction::Query(1));
    assert_eq!(checker.step(entry(1)), CheckAction::Sleep(100));
    assert_eq!(checker.stage(), CheckStage::Sleeping);
    assert_eq!(
        checker.step(CheckEvent::Woke { elapsed_ms: 100 }),
        CheckAction::Query(0)
    );
    assert_eq!(checker.step(entry(4)), CheckAction::Query(1));
    assert_eq!(checker.step(entry(4)), CheckAction::Finish(Ok(())));
}

#[test]
fn tentative_first_row_still_looks_at_the_rest() {
    let mut checker = checker_over(3);
    assert_eq!(checker.step(entry(1)), CheckAction::Query(1));
    assert_eq!(
        checker.stage(),
        CheckStage::Polling { cursor: 1, ready: false }
    );
    assert_eq!(checker.step(entry(4)), CheckAction::Query(2));
    assert_eq!(checker.step(entry(4)), CheckAction::Sleep(100));
}

#[test]
fn failure_behind_a_tentative_address_fails_at_once() {
    let mut checker = checker_over(2);
    assert_eq!(checker.step(entry(1)), CheckAction::Query(1));
    assert_eq!(
        checker.step(entry(2)),
        CheckAction::Finish(Err(Error::DadStateError(DadStateError::Duplicate)))
    );
}

#[test]
fn duplicate_deprecated_and_invalid_fail_at_once() {
    let cases = [
        (0u32, DadStateError::Invalid),
        (2, DadStateError::Duplicate),
        (3, DadStateError::Deprecated),
        (5, DadStateError::Unknown(5)),
        (u32::MAX, DadStateError::Unknown(u32::MAX)),
    ];
    for (raw, error) in cases {
        let mut checker = checker_over(3);
        let failed = CheckAction::Finish(Err(Error::DadStateError(error)));
        assert_eq!(checker.step(entry(raw)), failed);
        assert_eq!(checker.pending(), failed);
        assert_eq!(checker.step(entry(4)), failed);
        assert_eq!(checker.step(CheckEvent::Woke { elapsed_ms: 0 }), failed);
        assert_eq!(
            checker.stage(),
            CheckStage::Finished(Err(Error::DadStateError(error)))
        );
    }
}

#[test]
fn failed_query_of_a_row_fails_at_once() {
    let mut checker = checker_over(2);
    assert_eq!(checker.step(entry(4)), CheckAction::Query(1));
    assert_eq!(
        checker.step(CheckEvent::Entry { status: 1168, dad_state: 4 }),
        CheckAction::Finish(Err(Error::ObtainUnicastAddress(OsError { code: 1168 })))
    );
}

#[test]
fn all_tentative_past_the_deadline_times_out() {
    let mut checker = checker_over(2);
    let mut rounds = 0;
    let mut elapsed_ms = 0;
    loop {
        assert_eq!(checker.pending(), CheckAction::Query(0));
        assert_eq!(checker.step(entry(1)), CheckAction::Query(1));
        assert_eq!(checker.step(entry(1)), CheckAction::Sleep(100));
        rounds += 1;
        elapsed_ms += 100;
        match checker.step(CheckEvent::Woke { elapsed_ms }) {
            CheckAction::Query(0) => assert!(elapsed_ms < 5000),
            action => {
                assert_eq!(action, CheckAction::Finish(Err(Error::DeviceReadyTimeout)));
                break;
            }
        }
    }
    assert_eq!(elapsed_ms, 5000);
    assert_eq!(rounds, 50);
    assert_eq!(
        checker.step(entry(4)),
        CheckAction::Finish(Err(Error::DeviceReadyTimeout))
    );
}

#[test]
fn deadline_is_five_seconds() {
    for (elapsed_ms, expected) in [
        (0u64, CheckAction::Query(0)),
        (4999, CheckAction::Query(0)),
        (5000, CheckAction::Finish(Err(Error::DeviceReadyTimeout))),
        (5001, CheckAction::Finish(Err(Error::DeviceReadyTimeout))),
        (u64::MAX, CheckAction::Finish(Err(Error::DeviceReadyTimeout))),
    ] {
        let mut checker = checker_over(1);
        assert_eq!(checker.step(entry(1)), CheckAction::Sleep(100));
        assert_eq!(checker.step(CheckEvent::Woke { elapsed_ms }), expected);
    }
}

#[test]
fn events_out_of_turn_change_nothing() {
    let mut checker = checker_over(2);
    assert_eq!(
        checker.step(CheckEvent::Woke { elapsed_ms: 9000 }),
        CheckAction::Query(0)
    );
    assert_eq!(checker.step(entry(1)), CheckAction::Query(1));
    assert_eq!(checker.step(entry(1)), CheckAction::Sleep(100));
    assert_eq!(checker.step(entry(2)), CheckAction::Sleep(100));
    assert_eq!(checker.stage(), CheckStage::Sleeping);
}

#[test]
fn completion_of_the_worker() {
    assert_eq!(AddressReadinessChecker::completion(Ok(Ok(()))), Ok(()));
    assert_eq!(
        AddressReadinessChecker::completion(Ok(Err(Error::DeviceReadyTimeout))),
        Err(Error::DeviceReadyTimeout)
    );
    assert_eq!(
        AddressReadinessChecker::completion(Err(Canceled)),
        Err(Error::UnicastSenderDropped)
    );
}

#[test]
fn completion_of_a_dropped_sender() {
    let (tx, mut rx) = futures::channel::oneshot::channel::<Result<(), Error>>();
    drop(tx);
    let received = match rx.try_recv() {
        Ok(Some(result)) => Ok(result),
        Ok(None) => panic!("the sender is gone"),
        Err(canceled) => Err(canceled),
    };
    assert_eq!(
        AddressReadinessChecker::completion(received),
        Err(Error::UnicastSenderDropped)
    );
}

#[test]
fn dad_states_and_their_codes() {
    assert_eq!(DadState::from_raw(0), DadState::Invalid);
    assert_eq!(DadState::from_raw(1), DadState::Tentative);
    assert_eq!(DadState::from_raw(2), DadState::Duplicate);
    assert_eq!(DadState::from_raw(3), DadState::Deprecated);
    assert_eq!(DadState::from_raw(4), DadState::Preferred);
    assert_eq!(DadState::from_raw(5), DadState::Unknown(5));
    for raw in [0u32, 1, 2, 3, 4, 5, 77, u32::MAX] {
        assert_eq!(DadState::from_raw(raw).to_raw(), raw);
    }
    assert_eq!(DadState::Preferred.check(), Readiness::Ready);
    assert_eq!(DadState::Tentative.check(), Readiness::Pending);
    assert_eq!(
        DadState::Duplicate.check(),
        Readiness::Failed(DadStateError::Duplicate)
    );
    assert_eq!(
        DadState::Unknown(9).check(),
        Readiness::Failed(DadStateError::Unknown(9))
    );
}

#[test]
fn dad_state_error_from_raw_state() {
    assert_eq!(DadStateError::from(0), DadStateError::Invalid);
    assert_eq!(DadStateError::from(2), DadStateError::Duplicate);
    assert_eq!(DadStateError::from(3), DadStateError::Deprecated);
    assert_eq!(DadStateError::from(1), DadStateError::Unknown(1));
    assert_eq!(DadStateError::from(4), DadStateError::Unknown(4));
    assert_eq!(DadStateError::from(1234), DadStateError::Unknown(1234));
}
