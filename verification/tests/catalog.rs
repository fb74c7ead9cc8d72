use pdeathsignal::error::Error;
use pdeathsignal::signal::{name_for, value_of, Signal, SignalInput};

#[test]
fn from_raw_accepts_every_catalog_number() {
    for v in 1..=31 {
        let s = Signal::from_raw(v).expect("catalog number must be accepted");
        assert_eq!(s.value(), v);
    }
}

#[test]
fn from_raw_rejects_numbers_outside_the_catalog() {
    for v in [0, 32, 64, 9999, -1, -15, i32::MIN, i32::MAX] {
        assert!(Signal::from_raw(v).is_none());
    }
}

#[test]
fn name_and_value_round_trip() {
    for v in 1..=31 {
        let name = name_for(v);
        assert_eq!(value_of(name), Some(v));
    }
}

#[test]
fn value_of_rejects_unknown_names() {
    assert_eq!(value_of(""), None);
    assert_eq!(value_of("SIGRTMIN"), None);
    assert_eq!(value_of("sigterm"), None);
    assert_eq!(value_of("SIGTERM "), None);
}

#[test]
fn names_are_the_canonical_uppercase_forms() {
    assert_eq!(name_for(1), "SIGHUP");
    assert_eq!(name_for(9), "SIGKILL");
    assert_eq!(name_for(15), "SIGTERM");
    assert_eq!(name_for(16), "SIGSTKFLT");
    assert_eq!(name_for(31), "SIGSYS");
}

#[test]
fn signal_renders_as_its_name() {
    let s = Signal::from_raw(15).unwrap();
    assert_eq!(s.name(), "SIGTERM");
    assert_eq!(s.qualified_name(), "pdeathsignal.Signal.SIGTERM");
}

#[test]
fn named_constructors_carry_their_numbers() {
    let expected: [(Signal, i32); 31] = [
        (Signal::sighup(), 1),
        (Signal::sigint(), 2),
        (Signal::sigquit(), 3),
        (Signal::sigill(), 4),
        (Signal::sigtrap(), 5),
        (Signal::sigabrt(), 6),
        (Signal::sigbus(), 7),
        (Signal::sigfpe(), 8),
        (Signal::sigkill(), 9),
        (Signal::sigusr1(), 10),
        (Signal::sigsegv(), 11),
        (Signal::sigusr2(), 12),
        (Signal::sigpipe(), 13),
        (Signal::sigalrm(), 14),
        (Signal::sigterm(), 15),
        (Signal::sigstkflt(), 16),
        (Signal::sigchld(), 17),
        (Signal::sigcont(), 18),
        (Signal::sigstop(), 19),
        (Signal::sigtstp(), 20),
        (Signal::sigttin(), 21),
        (Signal::sigttou(), 22),
        (Signal::sigurg(), 23),
        (Signal::sigxcpu(), 24),
        (Signal::sigxfsz(), 25),
        (Signal::sigvtalrm(), 26),
        (Signal::sigprof(), 27),
        (Signal::sigwinch(), 28),
        (Signal::sigio(), 29),
        (Signal::sigpwr(), 30),
        (Signal::sigsys(), 31),
    ];
    for (s, v) in expected {
        assert_eq!(s.value(), v);
        assert_eq!(s, Signal::from_raw(v).unwrap());
    }
}

#[test]
fn new_passes_an_existing_signal_through() {
    let term = Signal::sigterm();
    let again = Signal::new(SignalInput::Existing(term)).unwrap();
    assert_eq!(again, term);
}

#[test]
fn new_accepts_catalog_numbers() {
    let s = Signal::new(SignalInput::Raw(15)).unwrap();
    assert_eq!(s.value(), 15);
    assert_eq!(s.name(), "SIGTERM");
}

#[test]
fn new_rejects_bad_numbers_naming_them() {
    for v in [0, 32, 9999, -1] {
        let err = Signal::new(SignalInput::Raw(v)).unwrap_err();
        assert!(matches!(err, Error::InvalidArgument(n) if n == v));
        assert!(err.is_invalid_argument());
        assert_eq!(err.invalid_number(), Some(v));
    }
}

#[test]
fn equal_numbers_give_equal_signals() {
    for v in 1..=31 {
        let a = Signal::from_raw(v).unwrap();
        let b = Signal::from_raw(v).unwrap();
        assert_eq!(a, b);
    }
}
