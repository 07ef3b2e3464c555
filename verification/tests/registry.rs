use listenfd::error::{Error, ErrorKind};
use listenfd::manager::ListenFd;
use listenfd::unix::{Answers, Cloexec, Family, Probe, SockType, Step};
use listenfd::windows::FdType;

fn bound(family: Family, sock_type: SockType) -> Probe {
    Probe { is_socket: true, family: Some(family), sock_type: Some(sock_type) }
}

fn known(probe: Probe) -> Answers {
    Answers { probe: Some(probe), cloexec: Some(Cloexec { rv: 0, os_error: String::new() }) }
}

fn unknown() -> Answers {
    Answers { probe: None, cloexec: None }
}

fn registry(fds: &[i32]) -> ListenFd<i32> {
    ListenFd::from_env(Some(fds.to_vec()))
}

#[test]
fn empty_registry_has_no_slots() {
    let mut lf: ListenFd<i32> = ListenFd::empty();
    assert_eq!(lf.len(), 0);
    assert_eq!(lf.take_raw_fd(0), Ok(None));
    assert_eq!(lf.take_tcp_listener(0, &unknown()), Step::Done(Ok(None)));
    assert_eq!(lf.len(), 0);
}

#[test]
fn registry_of_no_offer_has_no_slots() {
    let mut lf: ListenFd<i32> = ListenFd::from_env(None);
    assert_eq!(lf.len(), 0);
    assert_eq!(lf.take_raw_fd(0), Ok(None));
}

#[test]
fn len_is_the_size_of_the_offer() {
    assert_eq!(registry(&[]).len(), 0);
    assert_eq!(registry(&[3]).len(), 1);
    assert_eq!(registry(&[3, 4, 5]).len(), 3);
}

#[test]
fn len_does_not_change_with_claims() {
    let mut lf = registry(&[3, 4, 5]);
    let tcp = known(bound(Family::Inet, SockType::Stream));
    assert_eq!(lf.take_tcp_listener(0, &tcp), Step::Done(Ok(Some(3))));
    assert_eq!(lf.len(), 3);
    assert!(matches!(lf.take_udp_socket(1, &tcp), Step::Done(Err(_))));
    assert_eq!(lf.len(), 3);
    assert_eq!(lf.take_raw_fd(2), Ok(Some(5)));
    assert_eq!(lf.len(), 3);
    assert_eq!(lf.take_raw_fd(7), Ok(None));
    assert_eq!(lf.len(), 3);
}

#[test]
fn claim_goes_step_by_step() {
    let mut lf = registry(&[3, 4]);
    let probe = bound(Family::Inet, SockType::Stream);
    let mut answers = unknown();
    assert_eq!(lf.take_tcp_listener(1, &answers), Step::Probe(4));
    answers.probe = Some(probe);
    assert_eq!(lf.take_tcp_listener(1, &answers), Step::SetCloexec(4));
    assert_eq!(lf.take_raw_fd(1), Ok(Some(4)));
}

#[test]
fn claim_succeeds_once() {
    let mut lf = registry(&[3, 4]);
    let tcp = known(bound(Family::Inet, SockType::Stream));
    assert_eq!(lf.take_tcp_listener(0, &tcp), Step::Done(Ok(Some(3))));
    assert_eq!(lf.take_tcp_listener(0, &tcp), Step::Done(Ok(None)));
    assert_eq!(lf.take_udp_socket(0, &tcp), Step::Done(Ok(None)));
    assert_eq!(lf.take_unix_listener(0, &unknown()), Step::Done(Ok(None)));
    assert_eq!(lf.take_unix_datagram(0, &unknown()), Step::Done(Ok(None)));
    assert_eq!(
        lf.take_custom(0, Family::Other(1), SockType::Other(2), "x", &tcp),
        Step::Done(Ok(None))
    );
    assert_eq!(lf.take_raw_fd(0), Ok(None));
    assert_eq!(lf.take_tcp_listener(1, &tcp), Step::Done(Ok(Some(4))));
}

#[test]
fn raw_claim_succeeds_once() {
    let mut lf = registry(&[3]);
    assert_eq!(lf.take_raw_fd(0), Ok(Some(3)));
    assert_eq!(lf.take_raw_fd(0), Ok(None));
    assert_eq!(
        lf.take_tcp_listener(0, &known(bound(Family::Inet, SockType::Stream))),
        Step::Done(Ok(None))
    );
}

#[test]
fn claim_past_the_last_slot_finds_nothing() {
    let mut lf = registry(&[3, 4]);
    let tcp = known(bound(Family::Inet, SockType::Stream));
    assert_eq!(lf.take_tcp_listener(2, &tcp), Step::Done(Ok(None)));
    assert_eq!(lf.take_tcp_listener(usize::MAX, &tcp), Step::Done(Ok(None)));
    assert_eq!(lf.take_unix_listener(2, &tcp), Step::Done(Ok(None)));
    assert_eq!(lf.take_udp_socket(2, &tcp), Step::Done(Ok(None)));
    assert_eq!(lf.take_unix_datagram(2, &tcp), Step::Done(Ok(None)));
    assert_eq!(lf.take_raw_fd(2), Ok(None));
    assert_eq!(lf.take_raw_fd(0), Ok(Some(3)));
    assert_eq!(lf.take_raw_fd(1), Ok(Some(4)));
}

#[test]
fn mismatch_leaves_the_slot_offered() {
    let mut lf = registry(&[3]);
    let udp = known(bound(Family::Inet, SockType::Datagram));
    assert_eq!(
        lf.take_tcp_listener(0, &udp),
        Step::Done(Err(Error {
            kind: ErrorKind::InvalidHandle,
            message: String::from("fd 3 is not a valid tcp socket"),
        }))
    );
    assert_eq!(
        lf.take_unix_datagram(0, &udp),
        Step::Done(Err(Error {
            kind: ErrorKind::InvalidHandle,
            message: String::from("fd 3 is not a valid unix datagram socket"),
        }))
    );
    assert_eq!(lf.take_udp_socket(0, &udp), Step::Done(Ok(Some(3))));
    assert_eq!(lf.take_udp_socket(0, &udp), Step::Done(Ok(None)));
}

#[test]
fn descriptor_that_is_no_socket_stays_offered() {
    let mut lf = registry(&[3]);
    let file = known(Probe { is_socket: false, family: None, sock_type: None });
    assert_eq!(
        lf.take_tcp_listener(0, &file),
        Step::Done(Err(Error {
            kind: ErrorKind::InvalidHandle,
            message: String::from("fd 3 is not a socket"),
        }))
    );
    assert_eq!(lf.take_raw_fd(0), Ok(Some(3)));
}

#[test]
fn failed_marking_leaves_the_slot_offered() {
    let mut lf = registry(&[3]);
    let probe = bound(Family::Unix, SockType::Stream);
    let refused = Answers {
        probe: Some(probe),
        cloexec: Some(Cloexec { rv: -1, os_error: String::from("denied") }),
    };
    assert_eq!(
        lf.take_unix_listener(0, &refused),
        Step::Done(Err(Error {
            kind: ErrorKind::Other,
            message: String::from("fd 3 cannot be marked as FD_CLOEXEC (denied)"),
        }))
    );
    assert_eq!(lf.take_unix_listener(0, &known(probe)), Step::Done(Ok(Some(3))));
}

#[test]
fn dual_stack_claim() {
    let mut lf = registry(&[3, 4]);
    let six = known(bound(Family::Inet6, SockType::Stream));
    assert_eq!(lf.take_tcp_listener(0, &six), Step::Done(Ok(Some(3))));
    let four = known(bound(Family::Inet, SockType::Stream));
    assert_eq!(
        lf.take_custom(1, Family::Inet6, SockType::Stream, "tcp6 socket", &four),
        Step::Done(Err(Error {
            kind: ErrorKind::InvalidHandle,
            message: String::from("fd 4 is not a valid tcp6 socket"),
        }))
    );
    assert_eq!(lf.take_tcp_listener(1, &four), Step::Done(Ok(Some(4))));
}

#[test]
fn custom_claim() {
    let mut lf = registry(&[3]);
    let seqpacket = known(bound(Family::Unix, SockType::Other(5)));
    assert_eq!(
        lf.take_unix_listener(0, &seqpacket),
        Step::Done(Err(Error {
            kind: ErrorKind::InvalidHandle,
            message: String::from("fd 3 is not a valid unix stream socket"),
        }))
    );
    assert_eq!(
        lf.take_custom(0, Family::Unix, SockType::Other(5), "unix seqpacket socket", &seqpacket),
        Step::Done(Ok(Some(3)))
    );
}

#[test]
fn with_fd_claims_what_the_function_makes() {
    let mut lf = registry(&[3, 4]);
    let made = lf.with_fd(1, |fd| Ok(format!("socket {}", fd)));
    assert_eq!(made, Ok(Some(String::from("socket 4"))));
    let again = lf.with_fd(1, |fd| Ok(format!("socket {}", fd)));
    assert_eq!(again, Ok(None));
    assert_eq!(lf.len(), 2);
}

#[test]
fn with_fd_keeps_the_handle_on_failure() {
    let mut lf = registry(&[3]);
    let refuse = |fd: i32| -> Result<i32, Error> {
        Err(Error { kind: ErrorKind::InvalidHandle, message: format!("no {}", fd) })
    };
    assert_eq!(
        lf.with_fd(0, refuse),
        Err(Error { kind: ErrorKind::InvalidHandle, message: String::from("no 3") })
    );
    assert_eq!(lf.with_fd(0, |fd| Ok(fd + 1)), Ok(Some(4)));
}

#[test]
fn with_fd_does_not_call_for_an_empty_slot() {
    let mut lf = registry(&[3]);
    assert_eq!(lf.take_raw_fd(0), Ok(Some(3)));
    let mut called = false;
    let r = lf.with_fd(0, |fd| {
        called = true;
        Ok(fd)
    });
    assert_eq!(r, Ok(None));
    assert!(!called);
    let r = lf.with_fd(9, |fd| Ok(fd));
    assert_eq!(r, Ok(None));
}

#[test]
fn socket_handles_are_claimed_once() {
    let mut lf = ListenFd::from_env(Some(vec![FdType::Socket(640), FdType::Socket(644)]));
    assert_eq!(lf.len(), 2);
    assert_eq!(lf.take_tcp_listener(0), Ok(Some(640)));
    assert_eq!(lf.take_tcp_listener(0), Ok(None));
    assert_eq!(lf.take_udp_socket(0), Ok(None));
    assert_eq!(lf.take_raw_socket(0), Ok(None));
    assert_eq!(lf.take_udp_socket(1), Ok(Some(644)));
    assert_eq!(lf.take_raw_socket(1), Ok(None));
    assert_eq!(lf.take_raw_socket(2), Ok(None));
    assert_eq!(lf.len(), 2);
}

#[test]
fn raw_socket_is_claimed_once() {
    let mut lf = ListenFd::from_env(Some(vec![FdType::Socket(700)]));
    assert_eq!(lf.take_raw_socket(0), Ok(Some(700)));
    assert_eq!(lf.take_raw_socket(0), Ok(None));
}

#[test]
fn handle_that_is_no_socket_is_refused() {
    let mut lf = ListenFd::from_env(Some(vec![FdType::Handle(88)]));
    let refused = Err(Error {
        kind: ErrorKind::InvalidHandle,
        message: String::from("handle 88 is not a socket"),
    });
    assert_eq!(lf.take_tcp_listener(0), refused);
    assert_eq!(lf.take_udp_socket(0), refused);
    assert_eq!(lf.take_raw_socket(0), refused);
    assert_eq!(lf.with_fd(0, |fd| Ok(fd)), Ok(Some(FdType::Handle(88))));
    assert_eq!(lf.take_raw_socket(0), Ok(None));
}

#[test]
fn release_hands_out_what_is_left() {
    let mut lf = registry(&[3, 4, 5, 6]);
    assert_eq!(lf.take_raw_fd(1), Ok(Some(4)));
    assert_eq!(
        lf.take_tcp_listener(3, &known(bound(Family::Inet, SockType::Stream))),
        Step::Done(Ok(Some(6)))
    );
    assert_eq!(lf.release(), vec![3, 5]);
    assert_eq!(lf.len(), 4);
    assert_eq!(lf.take_raw_fd(0), Ok(None));
    assert_eq!(lf.take_raw_fd(2), Ok(None));
    assert_eq!(lf.release(), Vec::<i32>::new());
}

#[test]
fn release_of_an_empty_registry() {
    let mut lf: ListenFd<i32> = ListenFd::empty();
    assert_eq!(lf.release(), Vec::<i32>::new());
    assert_eq!(lf.len(), 0);
}

#[test]
fn registry_is_reachable_from_the_crate_root() {
    let lf: listenfd::ListenFd<i32> = listenfd::ListenFd::from_env(Some(vec![3]));
    assert_eq!(lf.len(), 1);
    let e = listenfd::Error::new(listenfd::ErrorKind::Other, String::from("x"));
    assert_eq!(e.kind(), ErrorKind::Other);
}
