use moby9098::outcome::classify;
use moby9098::outcome::exec;
use moby9098::outcome::exit_code;
use moby9098::outcome::spawn_failure_exit_code;
use moby9098::outcome::Termination;

#[test]
fn normal_exit_is_mirrored() {
    assert_eq!(exec(Some(0), None), 0);
    assert_eq!(exec(Some(1), None), 1);
    assert_eq!(exec(Some(42), None), 42);
    assert_eq!(exec(Some(255), None), 255);
}

#[test]
fn exit_code_takes_precedence_over_signal() {
    assert_eq!(exec(Some(3), Some(9)), 3);
    assert_eq!(exec(Some(0), Some(15)), 0);
}

#[test]
fn signal_maps_to_127_plus_signal() {
    assert_eq!(exec(None, Some(9)), 136);
    assert_eq!(exec(None, Some(15)), 142);
    assert_eq!(exec(None, Some(1)), 128);
}

#[test]
fn anomalous_termination_maps_to_127() {
    assert_eq!(exec(None, None), 127);
}

#[test]
fn classify_tags_the_raw_pair() {
    assert_eq!(classify(Some(7), None), Termination::Exited(7));
    assert_eq!(classify(Some(7), Some(9)), Termination::Exited(7));
    assert_eq!(classify(None, Some(9)), Termination::Signaled(9));
    assert_eq!(classify(None, None), Termination::Unknown);
}

#[test]
fn exit_code_of_tagged_outcome() {
    assert_eq!(exit_code(Termination::Exited(0)), 0);
    assert_eq!(exit_code(Termination::Exited(200)), 200);
    assert_eq!(exit_code(Termination::Signaled(11)), 138);
    assert_eq!(exit_code(Termination::Unknown), 127);
}

#[test]
fn spawn_failure_uses_raw_os_error_when_present() {
    assert_eq!(spawn_failure_exit_code(Some(2)), 2);
    assert_eq!(spawn_failure_exit_code(Some(13)), 13);
}

#[test]
fn spawn_failure_defaults_to_127() {
    assert_eq!(spawn_failure_exit_code(None), 127);
}

#[test]
fn exit_codes_are_deterministic() {
    assert_eq!(exec(Some(17), None), exec(Some(17), None));
    assert_eq!(exec(None, Some(2)), exec(None, Some(2)));
    assert_eq!(exec(None, None), exec(None, None));
}
