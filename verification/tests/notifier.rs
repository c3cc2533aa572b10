use talpid_core::windows::notifier::Registration;
use talpid_core::windows::{
    notify_ip_interface_change, AddressFamily, IpNotifierHandle, OsError,
};

fn live(family: Option<AddressFamily>) -> IpNotifierHandle {
    let mut registration = IpNotifierHandle::new(family);
    assert_eq!(notify_ip_interface_change(&mut registration, 0), Ok(()));
    registration
}

#[test]
fn registration_is_live_on_success() {
    assert_eq!(
        live(None),
        IpNotifierHandle { family: None, state: Registration::Live }
    );
    assert_eq!(
        live(Some(AddressFamily::Ipv6)),
        IpNotifierHandle { family: Some(AddressFamily::Ipv6), state: Registration::Live }
    );
}

#[test]
fn registration_asks_for_its_family() {
    assert_eq!(IpNotifierHandle::new(None).family_tag(), 0);
    assert_eq!(IpNotifierHandle::new(Some(AddressFamily::Ipv4)).family_tag(), 2);
    assert_eq!(IpNotifierHandle::new(Some(AddressFamily::Ipv6)).family_tag(), 23);
}

#[test]
fn registration_is_live_before_it_has_returned() {
    let mut registration = IpNotifierHandle::new(None);
    assert!(registration.on_callback(false));
}

#[test]
fn registration_fails_with_the_status() {
    let mut registration = IpNotifierHandle::new(None);
    assert_eq!(
        notify_ip_interface_change(&mut registration, 87),
        Err(OsError { code: 87 })
    );
    assert_eq!(registration.state, Registration::Cancelled);
    assert!(!registration.on_callback(false));
    assert!(!registration.unregister());

    let mut registration = IpNotifierHandle::new(Some(AddressFamily::Ipv4));
    assert_eq!(
        notify_ip_interface_change(&mut registration, 0x8007_0005),
        Err(OsError { code: 0x8007_0005u32 as i32 })
    );
    assert_eq!(registration.family, Some(AddressFamily::Ipv4));
}

#[test]
fn live_registration_delivers() {
    let mut handle = live(None);
    assert!(handle.on_callback(false));
    assert!(handle.on_callback(false));
    assert_eq!(handle.state, Registration::Live);
}

#[test]
fn poisoned_lock_ends_delivery_for_good() {
    let mut handle = live(Some(AddressFamily::Ipv4));
    assert!(handle.on_callback(false));
    assert!(!handle.on_callback(true));
    assert_eq!(handle.state, Registration::Poisoned);
    assert!(!handle.on_callback(false));
    assert!(!handle.on_callback(true));
    assert_eq!(handle.state, Registration::Poisoned);
    assert_eq!(handle.family, Some(AddressFamily::Ipv4));
}

#[test]
fn release_cancels_once() {
    let mut handle = live(None);
    assert!(handle.unregister());
    assert_eq!(handle.state, Registration::Cancelled);
    assert!(!handle.unregister());
    assert!(!handle.unregister());
}

#[test]
fn nothing_is_delivered_after_release() {
    let mut handle = live(None);
    assert!(handle.on_callback(false));
    assert!(handle.unregister());
    assert!(!handle.on_callback(false));
    assert!(!handle.on_callback(true));
    assert_eq!(handle.state, Registration::Cancelled);
}

#[test]
fn poisoned_registration_is_still_cancelled() {
    let mut handle = live(None);
    assert!(!handle.on_callback(true));
    assert!(handle.unregister());
    assert!(!handle.unregister());
    assert_eq!(handle.state, Registration::Cancelled);
}
