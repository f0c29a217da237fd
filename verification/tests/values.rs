use udp_transport::timing::NANOS_PER_SEC;
use udp_transport::{Address, Mode, Timeout};

#[test]
fn octets_make_the_host_address() {
    assert_eq!(Address::from_octets(127, 0, 0, 1, 8080), Address { ip: 0x7f00_0001, port: 8080 });
    assert_eq!(Address::from_octets(0, 0, 0, 0, 0), Address { ip: 0, port: 0 });
    assert_eq!(
        Address::from_octets(255, 255, 255, 255, 65535),
        Address { ip: u32::MAX, port: u16::MAX }
    );
    assert_eq!(Address::from_octets(1, 2, 3, 4, 5).ip, 16_909_060);
}

#[test]
fn the_host_address_gives_its_octets() {
    assert_eq!(Address { ip: 0xc0a8_0164, port: 1 }.octets(), [192, 168, 1, 100]);
    assert_eq!(Address { ip: 0, port: 1 }.octets(), [0, 0, 0, 0]);
    assert_eq!(Address { ip: u32::MAX, port: 1 }.octets(), [255, 255, 255, 255]);
    let addr = Address::from_octets(10, 20, 30, 40, 50);
    assert_eq!(addr.octets(), [10, 20, 30, 40]);
    assert_eq!(addr.port, 50);
}

#[test]
fn a_timeout_is_seconds_and_a_rest() {
    let t = Timeout::new(3, 250_000_000).unwrap();
    assert_eq!(t.secs(), 3);
    assert_eq!(t.subsec_nanos(), 250_000_000);
    assert!(!t.is_zero());
    assert_eq!(NANOS_PER_SEC, 1_000_000_000);
    assert_eq!(Timeout::new(0, NANOS_PER_SEC), None);
    assert_eq!(Timeout::new(7, u32::MAX), None);
    let longest = Timeout::new(u64::MAX, NANOS_PER_SEC - 1).unwrap();
    assert_eq!(longest.secs(), u64::MAX);
    assert_eq!(longest.subsec_nanos(), 999_999_999);
}

#[test]
fn milliseconds_are_split_into_seconds_and_nanoseconds() {
    assert_eq!(Timeout::from_millis(1500), Timeout::new(1, 500_000_000).unwrap());
    assert_eq!(Timeout::from_millis(999), Timeout::new(0, 999_000_000).unwrap());
    assert_eq!(Timeout::from_millis(1000), Timeout::new(1, 0).unwrap());
    let longest = Timeout::from_millis(u64::MAX);
    assert_eq!(longest.secs(), 18_446_744_073_709_551);
    assert_eq!(longest.subsec_nanos(), 615_000_000);
}

#[test]
fn only_the_empty_timeout_is_zero() {
    assert!(Timeout::new(0, 0).unwrap().is_zero());
    assert!(Timeout::from_millis(0).is_zero());
    assert!(!Timeout::new(0, 1).unwrap().is_zero());
    assert!(!Timeout::new(1, 0).unwrap().is_zero());
}

#[test]
fn a_request_selects_a_mode() {
    assert_eq!(Mode::from_request(None), Mode::NonBlocking);
    let limit = Timeout::from_millis(30);
    assert_eq!(Mode::from_request(Some(limit)), Mode::BlockingWithTimeout(limit));
}

#[test]
fn an_accepted_request_changes_the_mode_and_a_refused_one_does_not() {
    let old = Mode::BlockingWithTimeout(Timeout::from_millis(10));
    let limit = Timeout::from_millis(20);
    assert_eq!(old.after_request(None, true), Mode::NonBlocking);
    assert_eq!(old.after_request(None, false), old);
    assert_eq!(old.after_request(Some(limit), true), Mode::BlockingWithTimeout(limit));
    assert_eq!(old.after_request(Some(limit), false), old);
    assert_eq!(Mode::NonBlocking.after_request(Some(limit), true), Mode::BlockingWithTimeout(limit));
    assert_eq!(Mode::NonBlocking.after_request(Some(limit), false), Mode::NonBlocking);
}

#[test]
fn asking_twice_for_a_mode_is_asking_once() {
    let start = Mode::BlockingWithTimeout(Timeout::from_millis(10));
    let once = start.after_request(None, true);
    assert_eq!(once.after_request(None, true), once);
    let limit = Some(Timeout::from_millis(5));
    let once = start.after_request(limit, true);
    assert_eq!(once.after_request(limit, true), once);
}
