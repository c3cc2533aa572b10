use talpid_core::net::Ipv4Addr;
use talpid_core::offline::{
    public_internet_address, public_ip_unreachable, spawn_monitor, Error, MonitorAction,
    MonitorEvent, MonitorHandle, MonitorStage, TunnelCommand,
};

type Lookup = Result<Option<u32>, &'static str>;

const ONLINE: Lookup = Ok(Some(1));
const OFFLINE: Lookup = Ok(None);
const BROKEN: Lookup = Err("route manager is down");

fn turn(monitor: &mut MonitorHandle, lookup: Lookup) -> MonitorAction {
    assert_eq!(
        monitor.step::<u32, &'static str>(MonitorEvent::RouteChanged { sender_alive: true }),
        MonitorAction::Probe
    );
    monitor.step(MonitorEvent::Probed(lookup))
}

#[test]
fn monitor_sends_one_command_per_flip() {
    let mut monitor = spawn_monitor(ONLINE).unwrap();
    let mut sent = Vec::new();
    for lookup in [ONLINE, ONLINE, OFFLINE, OFFLINE, ONLINE] {
        if let MonitorAction::Notify(command) = turn(&mut monitor, lookup) {
            sent.push(command);
        }
    }
    assert_eq!(
        sent,
        vec![TunnelCommand::IsOffline(true), TunnelCommand::IsOffline(false)]
    );
    assert!(!monitor.is_offline);
}

#[test]
fn monitor_says_exactly_when_it_sends() {
    let mut monitor = spawn_monitor(ONLINE).unwrap();
    assert_eq!(turn(&mut monitor, ONLINE), MonitorAction::AwaitChange);
    assert_eq!(turn(&mut monitor, ONLINE), MonitorAction::AwaitChange);
    assert_eq!(
        turn(&mut monitor, OFFLINE),
        MonitorAction::Notify(TunnelCommand::IsOffline(true))
    );
    assert_eq!(turn(&mut monitor, OFFLINE), MonitorAction::AwaitChange);
    assert_eq!(
        turn(&mut monitor, ONLINE),
        MonitorAction::Notify(TunnelCommand::IsOffline(false))
    );
}

#[test]
fn monitor_that_starts_offline() {
    let mut monitor = spawn_monitor::<u32, &'static str>(OFFLINE).unwrap();
    assert_eq!(
        monitor,
        MonitorHandle { is_offline: true, stage: MonitorStage::Listening }
    );
    assert_eq!(turn(&mut monitor, OFFLINE), MonitorAction::AwaitChange);
    assert_eq!(
        turn(&mut monitor, ONLINE),
        MonitorAction::Notify(TunnelCommand::IsOffline(false))
    );
}

#[test]
fn failed_first_lookup_fails_the_set_up() {
    assert_eq!(
        spawn_monitor(BROKEN),
        Err(Error::RouteManagerError("route manager is down"))
    );
}

#[test]
fn failed_lookup_counts_as_online() {
    let mut monitor = spawn_monitor(OFFLINE).unwrap();
    assert_eq!(
        turn(&mut monitor, BROKEN),
        MonitorAction::Notify(TunnelCommand::IsOffline(false))
    );
    assert!(!monitor.is_offline);
    assert_eq!(turn(&mut monitor, BROKEN), MonitorAction::AwaitChange);
    assert!(!monitor.is_offline);
}

#[test]
fn is_offline_asks_anew_and_leaves_the_monitor_alone() {
    let mut monitor = spawn_monitor(OFFLINE).unwrap();
    let before = monitor;
    assert!(!monitor.is_offline(ONLINE));
    assert!(monitor.is_offline(OFFLINE));
    assert!(!monitor.is_offline(BROKEN));
    assert_eq!(monitor, before);

    let mut monitor = spawn_monitor(ONLINE).unwrap();
    assert!(monitor.is_offline(OFFLINE));
    assert!(!monitor.is_offline(BROKEN));
    assert_eq!(monitor.pending(), MonitorAction::AwaitChange);
}

#[test]
fn monitor_stops_when_the_sender_is_gone() {
    let mut monitor = spawn_monitor(ONLINE).unwrap();
    assert_eq!(
        monitor.step::<u32, &'static str>(MonitorEvent::RouteChanged { sender_alive: false }),
        MonitorAction::Stop
    );
    assert_eq!(monitor.stage, MonitorStage::Stopped);
    assert_eq!(
        monitor.step::<u32, &'static str>(MonitorEvent::RouteChanged { sender_alive: true }),
        MonitorAction::Stop
    );
    assert_eq!(monitor.step(MonitorEvent::Probed(OFFLINE)), MonitorAction::Stop);
    assert!(!monitor.is_offline);
}

#[test]
fn monitor_stops_when_the_changes_end() {
    let mut monitor = spawn_monitor(OFFLINE).unwrap();
    assert_eq!(
        monitor.step::<u32, &'static str>(MonitorEvent::ListenerClosed),
        MonitorAction::Stop
    );
    assert_eq!(monitor.pending(), MonitorAction::Stop);
}

#[test]
fn lookup_out_of_turn_changes_nothing() {
    let mut monitor = spawn_monitor(ONLINE).unwrap();
    assert_eq!(
        monitor.step(MonitorEvent::Probed(OFFLINE)),
        MonitorAction::AwaitChange
    );
    assert!(!monitor.is_offline);
    monitor.step::<u32, &'static str>(MonitorEvent::RouteChanged { sender_alive: true });
    assert_eq!(
        monitor.step::<u32, &'static str>(MonitorEvent::RouteChanged { sender_alive: false }),
        MonitorAction::Probe
    );
    assert_eq!(monitor.stage, MonitorStage::Probing);
}

#[test]
fn unreachable_means_no_route() {
    assert_eq!(public_ip_unreachable(ONLINE), Ok(false));
    assert_eq!(public_ip_unreachable(OFFLINE), Ok(true));
    assert_eq!(
        public_ip_unreachable(BROKEN),
        Err(Error::RouteManagerError("route manager is down"))
    );
}

#[test]
fn the_public_address() {
    assert_eq!(public_internet_address(), Ipv4Addr::new(193, 138, 218, 78));
}
