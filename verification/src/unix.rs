//! Descriptor passing on POSIX-like systems: which descriptors the
//! environment offers, and when a descriptor may become a socket of a
//! requested kind.
use crate::environ::EnvVar;
use crate::error::{result_view, Error, ErrorKind, Failure};
use crate::text::{decimal_text, i32_value, parse_i32, push_decimal};
use vstd::prelude::*;
use vstd::string::*;

verus! {

/// A descriptor number as the supervisor passed it.
pub type FdType = i32;

/// The variables through which a supervisor offers descriptors, as they were
/// read from the process environment.
#[derive(Clone, Debug, PartialEq, Eq)]
pub struct Environment {
    /// `LISTEN_FDS`: how many descriptors are offered in a row.
    pub listen_fds: EnvVar,
    /// `LISTEN_PID`: the process that the offer is meant for.
    pub listen_pid: EnvVar,
    /// `LISTEN_FDS_FIRST_FD`: the number of the first descriptor in the row.
    pub listen_fds_first_fd: EnvVar,
    /// `LISTEN_FD`: the number of the one descriptor that is offered.
    pub listen_fd: EnvVar,
}

/// The number that a variable holds. A variable that is not set, is not
/// Unicode or does not hold a decimal `i32` holds no number.
pub open spec fn number(var: EnvVar) -> Option<i32> {
    match var.text() {
        Some(t) => i32_value(t),
        None => None,
    }
}

/// Whether the offer of a row of descriptors is meant for process `pid`.
///
/// It is meant for every process where `LISTEN_PID` is not set or empty:
/// the process that set the variables need not be the one that started this
/// one. Whoever can set this process's environment can therefore make an
/// offer to it. Otherwise the variable has to hold `pid`.
pub open spec fn gate_passes(env: Environment, pid: i32) -> bool {
    match env.listen_pid {
        EnvVar::NotPresent => true,
        EnvVar::NotUnicode => false,
        EnvVar::Value(v) => v@.len() == 0 || i32_value(v@) == Some(pid),
    }
}

/// The number of the first descriptor of a row: what `LISTEN_FDS_FIRST_FD`
/// holds, and 3 where it holds no number.
pub open spec fn first_fd(env: Environment) -> i32 {
    match number(env.listen_fds_first_fd) {
        Some(first) => first,
        None => 3,
    }
}

/// The row of `count` descriptors from `first` on. It is empty where `count`
/// is not positive, and there is none where it would leave the range of
/// descriptor numbers.
pub open spec fn row(first: i32, count: i32) -> Option<Seq<FdType>> {
    if count <= 0 {
        Some(Seq::empty())
    } else if first + count - 1 <= i32::MAX {
        Some(Seq::new(count as nat, |i: int| (first + i) as i32))
    } else {
        None
    }
}

/// The descriptors that `env` offers to process `pid`, in the order in which
/// they are to be numbered from 0; `None` where it offers nothing.
///
/// One descriptor named by `LISTEN_FD` goes before a row counted by
/// `LISTEN_FDS`.
pub open spec fn offer(env: Environment, pid: i32) -> Option<Seq<FdType>> {
    match number(env.listen_fd) {
        Some(fd) => Some(seq![fd]),
        None => match number(env.listen_fds) {
            Some(count) => if gate_passes(env, pid) {
                row(first_fd(env), count)
            } else {
                None
            },
            None => None,
        },
    }
}

/// The environment after the offer in `env` was read: the variables that
/// were acted on are gone, so that a child process does not take them for
/// an offer of its own.
pub open spec fn consumed(env: Environment) -> Environment {
    if number(env.listen_fd) is Some {
        Environment { listen_fd: EnvVar::NotPresent, ..env }
    } else if number(env.listen_fds) is Some {
        Environment { listen_fds: EnvVar::NotPresent, listen_pid: EnvVar::NotPresent, ..env }
    } else {
        env
    }
}

fn read_number(var: &EnvVar) -> (r: Option<i32>)
    ensures
        r == number(*var),
{
    match var.as_str() {
        Some(s) => parse_i32(s),
        None => None,
    }
}

fn gate(env: &Environment, pid: i32) -> (r: bool)
    ensures
        r == gate_passes(*env, pid),
{
    match &env.listen_pid {
        EnvVar::NotPresent => true,
        EnvVar::NotUnicode => false,
        EnvVar::Value(v) => {
            if v.as_str().is_empty() {
                true
            } else {
                match parse_i32(v.as_str()) {
                    Some(named) => named == pid,
                    None => false,
                }
            }
        },
    }
}

fn make_row(first: i32, count: i32) -> (r: Option<Vec<FdType>>)
    ensures
        match r {
            Some(v) => row(first, count) == Some(v@),
            None => row(first, count).is_none(),
        },
{
    let mut fds: Vec<FdType> = Vec::new();
    if count <= 0 {
        return Some(fds);
    }
    if first as i64 + count as i64 - 1 > i32::MAX as i64 {
        return None;
    }
    let mut offset: i32 = 0;
    while offset < count
        invariant
            0 <= offset <= count,
            first + count - 1 <= i32::MAX,
            fds@ == Seq::new(offset as nat, |i: int| (first + i) as i32),
        decreases count - offset,
    {
        fds.push(first + offset);
        offset = offset + 1;
    }
    Some(fds)
}

/// Reads the offer in `env` for process `pid`, and removes from `env` the
/// variables that it acted on.
///
/// The caller fills `env` from the process environment before the call, and
/// afterwards removes from the process environment every variable that the
/// call has set to `NotPresent`.
pub fn get_fds(env: &mut Environment, pid: i32) -> (r: Option<Vec<FdType>>)
    ensures
        match r {
            Some(fds) => offer(*old(env), pid) == Some(fds@),
            None => offer(*old(env), pid).is_none(),
        },
        *final(env) == consumed(*old(env)),
{
    match read_number(&env.listen_fd) {
        Some(fd) => {
            env.listen_fd = EnvVar::NotPresent;
            let mut fds: Vec<FdType> = Vec::new();
            fds.push(fd);
            assert(fds@ =~= seq![fd]);
            return Some(fds);
        },
        None => {},
    }
    let count = match read_number(&env.listen_fds) {
        Some(count) => count,
        None => {
            return None;
        },
    };
    let ok = gate(env, pid);
    let first = match read_number(&env.listen_fds_first_fd) {
        Some(first) => first,
        None => 3,
    };
    env.listen_pid = EnvVar::NotPresent;
    env.listen_fds = EnvVar::NotPresent;
    if ok {
        make_row(first, count)
    } else {
        None
    }
}

/// After an offer was read, the variables that made it are gone from the
/// environment: the descriptor variable after an offer of one descriptor,
/// the count and the process variable after an offer of a row. What is left
/// does not make the same offer again, and after a row it makes none.
pub proof fn law_consumed_variables_absent(env: Environment, pid: i32)
    requires
        offer(env, pid) is Some,
    ensures
        number(env.listen_fd) is Some ==> consumed(env).listen_fd == EnvVar::NotPresent,
        number(env.listen_fd) is None ==> consumed(env).listen_fds == EnvVar::NotPresent
            && consumed(env).listen_pid == EnvVar::NotPresent && offer(consumed(env), pid) is None,
        number(consumed(env).listen_fd) is None,
{
}

/// The address family of a socket.
#[derive(Clone, Copy, Debug, PartialEq, Eq, Structural)]
pub enum Family {
    /// Internet protocol, version 4.
    Inet,
    /// Internet protocol, version 6.
    Inet6,
    /// Sockets local to the machine.
    Unix,
    /// Another family, by the number that the system has for it.
    Other(i32),
}

/// The type of a socket.
#[derive(Clone, Copy, Debug, PartialEq, Eq, Structural)]
pub enum SockType {
    /// A stream of bytes over a connection.
    Stream,
    /// Single messages.
    Datagram,
    /// Another type, by the number that the system has for it.
    Other(i32),
}

/// What the system reports of a descriptor.
#[derive(Clone, Copy, Debug, PartialEq, Eq)]
pub struct Probe {
    /// Whether the descriptor's file kind is that of a socket.
    pub is_socket: bool,
    /// The family of the address that the socket is bound to; `None` where
    /// the system could not tell.
    pub family: Option<Family>,
    /// The type of the socket; `None` where the system could not tell.
    pub sock_type: Option<SockType>,
}

/// How the attempt to keep a descriptor out of child processes ended.
#[derive(Clone, Debug, PartialEq, Eq)]
pub struct Cloexec {
    /// What the system call returned: negative where it failed.
    pub rv: i32,
    /// The system's description of the failure.
    pub os_error: String,
}

/// What the caller has learned from the system about the descriptor that a
/// claim is about.
#[derive(Clone, Debug, PartialEq, Eq)]
pub struct Answers {
    /// What the system reports of the descriptor, once it was asked.
    pub probe: Option<Probe>,
    /// How marking the descriptor ended, once that was tried.
    pub cloexec: Option<Cloexec>,
}

/// Where a claim stands.
#[derive(Debug, PartialEq, Eq)]
pub enum Step<T> {
    /// The caller is to ask the system about this descriptor, and to come
    /// back with the answer in `Answers::probe`.
    Probe(FdType),
    /// The descriptor is a socket of the requested kind. The caller is to
    /// mark it so that child processes do not inherit it, and to come back
    /// with the outcome in `Answers::cloexec`, the probe still in place.
    SetCloexec(FdType),
    /// The claim is over.
    Done(Result<T, Error>),
}

/// A `Step` with its error, if any, replaced by what the error says.
pub enum StepView<T> {
    Probe(FdType),
    SetCloexec(FdType),
    Done(Result<T, Failure>),
}

impl<T> View for Step<T> {
    type V = StepView<T>;

    open spec fn view(&self) -> StepView<T> {
        match self {
            Step::Probe(fd) => StepView::Probe(*fd),
            Step::SetCloexec(fd) => StepView::SetCloexec(*fd),
            Step::Done(r) => StepView::Done(result_view(*r)),
        }
    }
}

/// Whether a socket of which the system reports `probe` may be handed out as
/// one of family `sock_fam` and type `sock_type`.
///
/// The type has to be the requested one. The family has to be the requested
/// one too, but for one case: a socket of the version 6 family is accepted
/// where version 4 was asked for, since such a socket can serve both.
pub open spec fn accepts(probe: Probe, sock_fam: Family, sock_type: SockType) -> bool {
    &&& probe.family is Some
    &&& probe.sock_type == Some(sock_type)
    &&& (probe.family == Some(sock_fam) || (probe.family == Some(Family::Inet6) && sock_fam
        == Family::Inet))
}

/// The text of the error for a descriptor that is no socket.
pub open spec fn not_socket_text(fd: FdType) -> Seq<char> {
    "fd "@ + decimal_text(fd as int) + " is not a socket"@
}

/// The text of the error for a socket that is not of the requested kind,
/// which `hint` describes.
pub open spec fn not_valid_text(fd: FdType, hint: Seq<char>) -> Seq<char> {
    "fd "@ + decimal_text(fd as int) + " is not a valid "@ + hint
}

/// The text of the error for a descriptor that could not be marked.
pub open spec fn no_cloexec_text(fd: FdType, os_error: Seq<char>) -> Seq<char> {
    "fd "@ + decimal_text(fd as int) + " cannot be marked as FD_CLOEXEC ("@ + os_error + ")"@
}

/// The verdict on descriptor `fd`, of which the system reports `probe`, as a
/// socket of family `sock_fam` and type `sock_type`.
pub open spec fn validation(
    fd: FdType,
    probe: Probe,
    sock_fam: Family,
    sock_type: SockType,
    hint: Seq<char>,
) -> Result<FdType, Failure> {
    if !probe.is_socket {
        Err(Failure { kind: ErrorKind::InvalidHandle, message: not_socket_text(fd) })
    } else if !accepts(probe, sock_fam, sock_type) {
        Err(Failure { kind: ErrorKind::InvalidHandle, message: not_valid_text(fd, hint) })
    } else {
        Ok(fd)
    }
}

/// The verdict on the attempt to mark descriptor `fd`.
pub open spec fn marking(fd: FdType, outcome: Cloexec) -> Result<FdType, Failure> {
    if outcome.rv < 0 {
        Err(Failure { kind: ErrorKind::Other, message: no_cloexec_text(fd, outcome.os_error@) })
    } else {
        Ok(fd)
    }
}

fn family_accepted(actual: Option<Family>, sock_fam: Family) -> (r: bool)
    ensures
        r == (actual is Some && (actual == Some(sock_fam) || (actual == Some(Family::Inet6)
            && sock_fam == Family::Inet))),
{
    match actual {
        Some(family) => family == sock_fam || (family == Family::Inet6 && sock_fam
            == Family::Inet),
        None => false,
    }
}

fn type_accepted(actual: Option<SockType>, sock_type: SockType) -> (r: bool)
    ensures
        r == (actual == Some(sock_type)),
{
    match actual {
        Some(ty) => ty == sock_type,
        None => false,
    }
}

/// Decides whether descriptor `fd`, of which the system reports `probe`, is a
/// socket of family `sock_fam` and type `sock_type`. `hint` names that kind
/// in the error.
pub fn validate_socket(
    fd: FdType,
    probe: &Probe,
    sock_fam: Family,
    sock_type: SockType,
    hint: &str,
) -> (r: Result<FdType, Error>)
    ensures
        result_view(r) == validation(fd, *probe, sock_fam, sock_type, hint@),
{
    if !probe.is_socket {
        let mut message = String::from_str("fd ");
        push_decimal(&mut message, fd as i64);
        message.append(" is not a socket");
        return Err(Error::new(ErrorKind::InvalidHandle, message));
    }
    let is_valid = family_accepted(probe.family, sock_fam) && type_accepted(
        probe.sock_type,
        sock_type,
    );
    if !is_valid {
        let mut message = String::from_str("fd ");
        push_decimal(&mut message, fd as i64);
        message.append(" is not a valid ");
        message.append(hint);
        return Err(Error::new(ErrorKind::InvalidHandle, message));
    }
    Ok(fd)
}

/// Decides whether descriptor `fd` was marked so that child processes do not
/// inherit it. An unmarked descriptor is not handed out.
pub fn mark_cloexec(fd: FdType, outcome: &Cloexec) -> (r: Result<FdType, Error>)
    ensures
        result_view(r) == marking(fd, *outcome),
{
    if outcome.rv < 0 {
        let mut message = String::from_str("fd ");
        push_decimal(&mut message, fd as i64);
        message.append(" cannot be marked as FD_CLOEXEC (");
        message.append(outcome.os_error.as_str());
        message.append(")");
        return Err(Error::new(ErrorKind::Other, message));
    }
    Ok(fd)
}

/// Where the making of a socket of family `sock_fam` and type `sock_type`
/// from descriptor `fd` stands, given what the system has answered so far.
///
/// The system is asked about the descriptor first. A descriptor that is not
/// of the requested kind is refused and never marked. One that is of that
/// kind is marked next, and made into a socket only once that succeeded.
pub open spec fn making(
    fd: FdType,
    sock_fam: Family,
    sock_type: SockType,
    hint: Seq<char>,
    answers: Answers,
) -> StepView<FdType> {
    match answers.probe {
        None => StepView::Probe(fd),
        Some(probe) => match validation(fd, probe, sock_fam, sock_type, hint) {
            Err(failure) => StepView::Done(Err(failure)),
            Ok(valid) => match answers.cloexec {
                None => StepView::SetCloexec(valid),
                Some(outcome) => StepView::Done(marking(valid, outcome)),
            },
        },
    }
}

/// Says what is next in making a socket of family `sock_fam` and type
/// `sock_type` from descriptor `fd`: a question to the system, or the end.
///
/// On `Done(Ok(fd))` the caller owns the descriptor and turns it into the
/// socket value, which closes it when dropped.
pub fn make_custom(
    fd: FdType,
    sock_fam: Family,
    sock_type: SockType,
    hint: &str,
    answers: &Answers,
) -> (r: Step<FdType>)
    ensures
        r@ == making(fd, sock_fam, sock_type, hint@, *answers),
{
    let probe = match &answers.probe {
        Some(probe) => probe,
        None => {
            return Step::Probe(fd);
        },
    };
    let valid = match validate_socket(fd, probe, sock_fam, sock_type, hint) {
        Ok(valid) => valid,
        Err(e) => {
            return Step::Done(Err(e));
        },
    };
    match &answers.cloexec {
        Some(outcome) => Step::Done(mark_cloexec(valid, outcome)),
        None => Step::SetCloexec(valid),
    }
}

/// `make_custom` for a listening TCP socket.
pub fn make_tcp_listener(fd: FdType, answers: &Answers) -> (r: Step<FdType>)
    ensures
        r@ == making(fd, Family::Inet, SockType::Stream, "tcp socket"@, *answers),
{
    make_custom(fd, Family::Inet, SockType::Stream, "tcp socket", answers)
}

/// `make_custom` for a listening stream socket local to the machine.
pub fn make_unix_listener(fd: FdType, answers: &Answers) -> (r: Step<FdType>)
    ensures
        r@ == making(fd, Family::Unix, SockType::Stream, "unix stream socket"@, *answers),
{
    make_custom(fd, Family::Unix, SockType::Stream, "unix stream socket", answers)
}

/// `make_custom` for a UDP socket.
pub fn make_udp_socket(fd: FdType, answers: &Answers) -> (r: Step<FdType>)
    ensures
        r@ == making(fd, Family::Inet, SockType::Datagram, "udp socket"@, *answers),
{
    make_custom(fd, Family::Inet, SockType::Datagram, "udp socket", answers)
}

/// `make_custom` for a datagram socket local to the machine.
pub fn make_unix_datagram(fd: FdType, answers: &Answers) -> (r: Step<FdType>)
    ensures
        r@ == making(fd, Family::Unix, SockType::Datagram, "unix datagram socket"@, *answers),
{
    make_custom(fd, Family::Unix, SockType::Datagram, "unix datagram socket", answers)
}

} // verus!
