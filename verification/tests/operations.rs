use pdeathsignal::error::Error;
use pdeathsignal::ops::{get_parent_death_signal, resolve_request, set_parent_death_signal};
use pdeathsignal::signal::{Signal, SignalInput};

#[test]
fn resolving_none_and_raw_zero_are_the_same_request() {
    assert_eq!(resolve_request(None).unwrap(), 0);
    assert_eq!(resolve_request(Some(SignalInput::Raw(0))).unwrap(), 0);
}

#[test]
fn resolving_a_signal_gives_its_number() {
    let v = resolve_request(Some(SignalInput::Existing(Signal::sigterm()))).unwrap();
    assert_eq!(v, 15);
    let w = resolve_request(Some(SignalInput::Raw(15))).unwrap();
    assert_eq!(w, 15);
}

#[test]
fn resolving_a_bad_number_names_it() {
    for v in [32, 9999, -1] {
        let err = resolve_request(Some(SignalInput::Raw(v))).unwrap_err();
        assert!(matches!(err, Error::InvalidArgument(n) if n == v));
    }
}

#[test]
fn set_then_get_round_trips_sigterm() {
    set_parent_death_signal(Some(SignalInput::Existing(Signal::sigterm()))).unwrap();
    let reported = get_parent_death_signal().unwrap().expect("a signal was installed");
    assert_eq!(reported.value(), 15);
    assert_eq!(reported.name(), "SIGTERM");
    set_parent_death_signal(None).unwrap();
}

#[test]
fn set_accepts_a_raw_catalog_number() {
    set_parent_death_signal(Some(SignalInput::Raw(1))).unwrap();
    let reported = get_parent_death_signal().unwrap().expect("a signal was installed");
    assert_eq!(reported.value(), 1);
    set_parent_death_signal(None).unwrap();
}

#[test]
fn clearing_twice_succeeds_and_leaves_nothing_registered() {
    set_parent_death_signal(None).unwrap();
    set_parent_death_signal(None).unwrap();
    assert!(get_parent_death_signal().unwrap().is_none());
}

#[test]
fn clearing_by_raw_zero_clears_like_none() {
    set_parent_death_signal(Some(SignalInput::Raw(15))).unwrap();
    set_parent_death_signal(Some(SignalInput::Raw(0))).unwrap();
    assert!(get_parent_death_signal().unwrap().is_none());
}

#[test]
fn a_bad_number_is_rejected_before_the_kernel_is_touched() {
    set_parent_death_signal(None).unwrap();
    let err = set_parent_death_signal(Some(SignalInput::Raw(9999))).unwrap_err();
    assert!(matches!(err, Error::InvalidArgument(9999)));
    assert!(get_parent_death_signal().unwrap().is_none());
}
