use listenfd::environ::EnvVar;
use listenfd::manager::ListenFd;
use listenfd::unix::{get_fds, Environment};

fn value(text: &str) -> EnvVar {
    EnvVar::Value(String::from(text))
}

fn nothing() -> Environment {
    Environment {
        listen_fds: EnvVar::NotPresent,
        listen_pid: EnvVar::NotPresent,
        listen_fds_first_fd: EnvVar::NotPresent,
        listen_fd: EnvVar::NotPresent,
    }
}

#[test]
fn nothing_set_offers_nothing() {
    let mut env = nothing();
    assert_eq!(get_fds(&mut env, 100), None);
    assert_eq!(env, nothing());
}

#[test]
fn row_for_this_process() {
    let mut env = nothing();
    env.listen_fds = value("2");
    env.listen_pid = value("4711");
    assert_eq!(get_fds(&mut env, 4711), Some(vec![3, 4]));
}

#[test]
fn row_for_another_process() {
    let mut env = nothing();
    env.listen_fds = value("2");
    env.listen_pid = value("4712");
    assert_eq!(get_fds(&mut env, 4711), None);
    assert_eq!(env.listen_fds, EnvVar::NotPresent);
    assert_eq!(env.listen_pid, EnvVar::NotPresent);
}

#[test]
fn row_without_process_variable() {
    let mut env = nothing();
    env.listen_fds = value("1");
    assert_eq!(get_fds(&mut env, 4711), Some(vec![3]));
}

#[test]
fn row_with_empty_process_variable() {
    let mut env = nothing();
    env.listen_fds = value("3");
    env.listen_pid = value("");
    assert_eq!(get_fds(&mut env, 1), Some(vec![3, 4, 5]));
}

#[test]
fn process_variable_that_is_no_number_closes_the_gate() {
    let mut env = nothing();
    env.listen_fds = value("1");
    env.listen_pid = value("self");
    assert_eq!(get_fds(&mut env, 1), None);

    let mut env = nothing();
    env.listen_fds = value("1");
    env.listen_pid = EnvVar::NotUnicode;
    assert_eq!(get_fds(&mut env, 1), None);

    let mut env = nothing();
    env.listen_fds = value("1");
    env.listen_pid = value(" 1");
    assert_eq!(get_fds(&mut env, 1), None);
}

#[test]
fn first_descriptor_can_be_moved() {
    let mut env = nothing();
    env.listen_fds = value("3");
    env.listen_fds_first_fd = value("10");
    assert_eq!(get_fds(&mut env, 1), Some(vec![10, 11, 12]));
    assert_eq!(env.listen_fds_first_fd, value("10"));
}

#[test]
fn first_descriptor_defaults_to_three() {
    for first in [EnvVar::NotPresent, EnvVar::NotUnicode, value(""), value("three"), value("3.0")] {
        let mut env = nothing();
        env.listen_fds = value("2");
        env.listen_fds_first_fd = first;
        assert_eq!(get_fds(&mut env, 1), Some(vec![3, 4]));
    }
}

#[test]
fn single_descriptor() {
    let mut env = nothing();
    env.listen_fd = value("7");
    assert_eq!(get_fds(&mut env, 1), Some(vec![7]));
    assert_eq!(env, nothing());
}

#[test]
fn single_descriptor_goes_before_a_row() {
    let mut env = nothing();
    env.listen_fd = value("7");
    env.listen_fds = value("2");
    env.listen_pid = value("999");
    env.listen_fds_first_fd = value("20");
    assert_eq!(get_fds(&mut env, 1), Some(vec![7]));
    assert_eq!(env.listen_fd, EnvVar::NotPresent);
    assert_eq!(env.listen_fds, value("2"));
    assert_eq!(env.listen_pid, value("999"));
    assert_eq!(env.listen_fds_first_fd, value("20"));
}

#[test]
fn malformed_single_descriptor_does_not_fire() {
    let mut env = nothing();
    env.listen_fd = value("seven");
    env.listen_fds = value("2");
    assert_eq!(get_fds(&mut env, 1), Some(vec![3, 4]));
    assert_eq!(env.listen_fd, value("seven"));

    let mut env = nothing();
    env.listen_fd = EnvVar::NotUnicode;
    assert_eq!(get_fds(&mut env, 1), None);
    assert_eq!(env.listen_fd, EnvVar::NotUnicode);
}

#[test]
fn malformed_count_does_not_fire() {
    for count in [value(""), value("two"), value("2 "), value("99999999999"), EnvVar::NotUnicode] {
        let mut env = nothing();
        env.listen_fds = count.clone();
        env.listen_pid = value("1");
        assert_eq!(get_fds(&mut env, 1), None);
        assert_eq!(env.listen_fds, count);
        assert_eq!(env.listen_pid, value("1"));
    }
}

#[test]
fn zero_count_is_an_empty_offer() {
    let mut env = nothing();
    env.listen_fds = value("0");
    assert_eq!(get_fds(&mut env, 1), Some(vec![]));
    assert_eq!(env.listen_fds, EnvVar::NotPresent);
}

#[test]
fn negative_count_is_an_empty_offer() {
    let mut env = nothing();
    env.listen_fds = value("-4");
    assert_eq!(get_fds(&mut env, 1), Some(vec![]));
}

#[test]
fn row_past_the_last_descriptor_number_is_no_offer() {
    let mut env = nothing();
    env.listen_fds = value("2");
    env.listen_fds_first_fd = value("2147483647");
    assert_eq!(get_fds(&mut env, 1), None);
    assert_eq!(env.listen_fds, EnvVar::NotPresent);

    let mut env = nothing();
    env.listen_fds = value("1");
    env.listen_fds_first_fd = value("2147483647");
    assert_eq!(get_fds(&mut env, 1), Some(vec![2147483647]));
}

#[test]
fn negative_first_descriptor_is_taken_as_it_is() {
    let mut env = nothing();
    env.listen_fds = value("3");
    env.listen_fds_first_fd = value("-1");
    assert_eq!(get_fds(&mut env, 1), Some(vec![-1, 0, 1]));
}

#[test]
fn consumed_variables_are_gone() {
    let mut env = nothing();
    env.listen_fds = value("2");
    env.listen_pid = value("5");
    env.listen_fds_first_fd = value("8");
    assert_eq!(get_fds(&mut env, 5), Some(vec![8, 9]));
    assert_eq!(env.listen_fds, EnvVar::NotPresent);
    assert_eq!(env.listen_pid, EnvVar::NotPresent);
    assert_eq!(env.listen_fds_first_fd, value("8"));
    assert_eq!(get_fds(&mut env, 5), None);
}

#[test]
fn second_read_after_single_descriptor_finds_nothing() {
    let mut env = nothing();
    env.listen_fd = value("7");
    assert_eq!(get_fds(&mut env, 5), Some(vec![7]));
    assert_eq!(get_fds(&mut env, 5), None);
}

#[test]
fn registry_has_a_slot_for_each_offered_descriptor() {
    let mut env = nothing();
    env.listen_fds = value("4");
    let lf = ListenFd::from_env(get_fds(&mut env, 1));
    assert_eq!(lf.len(), 4);

    let mut env = nothing();
    let lf = ListenFd::from_env(get_fds(&mut env, 1));
    assert_eq!(lf.len(), 0);

    let mut env = nothing();
    env.listen_fds = value("0");
    let lf = ListenFd::from_env(get_fds(&mut env, 1));
    assert_eq!(lf.len(), 0);
}

#[test]
fn variable_gives_its_text() {
    assert_eq!(value("3").as_str(), Some("3"));
    assert_eq!(value("").as_str(), Some(""));
    assert_eq!(EnvVar::NotPresent.as_str(), None);
    assert_eq!(EnvVar::NotUnicode.as_str(), None);
}
