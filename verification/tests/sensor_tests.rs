use emulator::sensor::closest_sink;

fn sinks(name: &str) -> (String, String) {
    closest_sink(&name.to_string())
}

fn first() -> (String, String) {
    ("node1".to_string(), "node2".to_string())
}

fn second() -> (String, String) {
    ("node2".to_string(), "node1".to_string())
}

#[test]
fn low_ranks_report_to_the_first_sink() {
    assert_eq!(sinks("node3"), first());
    assert_eq!(sinks("node7"), first());
    assert_eq!(sinks("node0"), first());
    assert_eq!(sinks("node007"), first());
}

#[test]
fn high_ranks_report_to_the_second_sink() {
    assert_eq!(sinks("node8"), second());
    assert_eq!(sinks("node12"), second());
    assert_eq!(sinks("node+9"), second());
    assert_eq!(sinks("node18446744073709551615"), second());
}

#[test]
fn names_without_a_number_have_the_default_rank() {
    assert_eq!(sinks("node"), first());
    assert_eq!(sinks("nodeX"), first());
    assert_eq!(sinks("node9x"), first());
    assert_eq!(sinks("node-9"), first());
    assert_eq!(sinks("node+"), first());
    assert_eq!(sinks("node++9"), first());
    assert_eq!(sinks("node 9"), first());
    assert_eq!(sinks("no"), first());
    assert_eq!(sinks(""), first());
}

#[test]
fn a_number_that_does_not_fit_has_the_default_rank() {
    assert_eq!(sinks("node18446744073709551616"), first());
    assert_eq!(sinks("node99999999999999999999999"), first());
}

#[test]
fn rank_is_read_after_four_bytes_whatever_they_are() {
    assert_eq!(sinks("abcd9"), second());
    assert_eq!(sinks("12345"), first());
    assert_eq!(sinks("12349"), second());
}
