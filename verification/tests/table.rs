use pdeathsignal::cache::SignalTable;
use pdeathsignal::error::Error;

#[test]
fn every_lookup_of_a_number_gives_the_identical_instance() {
    let table = SignalTable::new();
    for v in 1..=31 {
        let first = table.instance_for(v).unwrap();
        let second = table.instance_for(v).unwrap();
        assert_eq!(first, second);
        assert_eq!(first.value(), v);
    }
}

#[test]
fn independent_builds_agree_on_every_entry() {
    let one = SignalTable::new();
    let other = SignalTable::new();
    for v in 1..=31 {
        assert_eq!(one.instance_for(v).unwrap(), other.instance_for(v).unwrap());
    }
}

#[test]
fn lookup_rejects_numbers_outside_the_table() {
    let table = SignalTable::new();
    for v in [0, 32, 9999, -1] {
        let err = table.instance_for(v).unwrap_err();
        assert!(matches!(err, Error::InvalidArgument(n) if n == v));
    }
}

#[test]
fn table_entries_render_canonically() {
    let table = SignalTable::new();
    assert_eq!(table.instance_for(15).unwrap().name(), "SIGTERM");
    assert_eq!(
        table.instance_for(15).unwrap().qualified_name(),
        "pdeathsignal.Signal.SIGTERM"
    );
}
