//! Socket passing on the handle-based platform: a handshake with the
//! endpoint that the supervisor advertises, which answers with serialized
//! socket descriptors.
//!
//! The exchange with the endpoint and the calls that turn a record into a
//! socket are the caller's. This module says what to send, what to do with
//! each answer, and what the offer is in the end.
use crate::environ::EnvVar;
use crate::error::{result_view, Error, ErrorKind, Failure};
use crate::text::{decimal_text, push_natural};
use uuid::Uuid;
use vstd::prelude::*;
use vstd::string::*;

verus! {

/// A socket handle of the platform.
pub type RawSocket = u64;

/// A raw handle as the supervisor passed it.
#[derive(Clone, Copy, Debug, PartialEq, Eq, Structural)]
pub enum FdType {
    /// The handle of a socket.
    Socket(RawSocket),
    /// The handle of a file or a pipe: it can never become a socket.
    Handle(u64),
}

/// The variables through which a supervisor advertises its endpoint, as they
/// were read from the process environment.
#[derive(Clone, Debug, PartialEq, Eq)]
pub struct Environment {
    /// `SYSTEMFD_SOCKET_SERVER`: the address of the endpoint.
    pub socket_server: EnvVar,
    /// `SYSTEMFD_SOCKET_SECRET`: the secret that the endpoint expects.
    pub socket_secret: EnvVar,
}

/// The 128 bits of the UUID that `text` denotes, in any of the forms that
/// the `uuid` crate reads; `None` where `text` denotes none.
pub uninterp spec fn uuid_value(text: Seq<char>) -> Option<u128>;

/// The character of the hexadecimal digit `n`, in lower case.
pub open spec fn hex_char(n: int) -> char {
    if n < 10 {
        (n + 48) as char
    } else {
        (n + 87) as char
    }
}

/// The hexadecimal digit of `id` at position `k`, counted from 0 for the
/// most significant of the 32.
pub open spec fn hex_digit(id: u128, k: int) -> int {
    ((id >> ((4 * (31 - k)) as u128)) & 0xf) as int
}

/// The usual text of a UUID: its 32 hexadecimal digits in lower case, in
/// groups of 8, 4, 4, 4 and 12 with a hyphen between them.
pub open spec fn hyphenated_text(id: u128) -> Seq<char> {
    Seq::new(
        36,
        |i: int|
            if i == 8 || i == 13 || i == 18 || i == 23 {
                '-'
            } else if i < 8 {
                hex_char(hex_digit(id, i))
            } else if i < 13 {
                hex_char(hex_digit(id, i - 1))
            } else if i < 18 {
                hex_char(hex_digit(id, i - 2))
            } else if i < 23 {
                hex_char(hex_digit(id, i - 3))
            } else {
                hex_char(hex_digit(id, i - 4))
            },
    )
}

/// Reads a UUID with `Uuid::try_parse` of the `uuid` crate and gives its
/// value as a number. Trusted: that the call gives the same value for the
/// same text, which is all that `uuid_value` stands for.
#[verifier::external_body]
fn parse_uuid(text: &str) -> (r: Option<u128>)
    ensures
        r == uuid_value(text@),
{
    match Uuid::try_parse(text) {
        Ok(id) => Some(id.as_u128()),
        Err(_) => None,
    }
}

/// Writes the UUID that `Uuid::from_u128` makes of `id` through the `Display`
/// impl of `uuid::Uuid`. Trusted: that the text is the hyphenated form in
/// lower case, most significant digit first.
#[verifier::external_body]
fn hyphenated(id: u128) -> (r: String)
    ensures
        r@ == hyphenated_text(id),
{
    Uuid::from_u128(id).to_string()
}

/// What is sent to the endpoint: the secret, a bar, and the number of this
/// process.
pub open spec fn request_text(secret: u128, pid: u32) -> Seq<char> {
    hyphenated_text(secret) + "|"@ + decimal_text(pid as int)
}

/// The text to send to the endpoint for process `pid`.
pub fn request(secret: u128, pid: u32) -> (r: String)
    ensures
        r@ == request_text(secret, pid),
{
    let mut text = hyphenated(secret);
    text.append("|");
    push_natural(&mut text, pid as u64);
    text
}

/// The text of the error for a handle that is no socket.
pub open spec fn not_socket_text(handle: u64) -> Seq<char> {
    "handle "@ + decimal_text(handle as int) + " is not a socket"@
}

/// The socket that `fd` is, or the error for a handle that is none.
pub open spec fn socket_of(fd: FdType) -> Result<RawSocket, Failure> {
    match fd {
        FdType::Socket(socket) => Ok(socket),
        FdType::Handle(handle) => Err(
            Failure { kind: ErrorKind::InvalidHandle, message: not_socket_text(handle) },
        ),
    }
}

pub(crate) fn make_socket(fd: FdType) -> (r: Result<RawSocket, Error>)
    ensures
        result_view(r) == socket_of(fd),
{
    match fd {
        FdType::Socket(socket) => Ok(socket),
        FdType::Handle(handle) => {
            let mut message = String::from_str("handle ");
            push_natural(&mut message, handle);
            message.append(" is not a socket");
            Err(Error::new(ErrorKind::InvalidHandle, message))
        },
    }
}

/// Gives the socket to make a TCP listener from. The supervisor passes
/// sockets that it has made itself, so a socket is taken as it is; a handle
/// of another kind is refused.
pub fn make_tcp_listener(fd: FdType) -> (r: Result<RawSocket, Error>)
    ensures
        result_view(r) == socket_of(fd),
{
    make_socket(fd)
}

/// Gives the socket to make a UDP socket from, as `make_tcp_listener` does.
pub fn make_udp_socket(fd: FdType) -> (r: Result<RawSocket, Error>)
    ensures
        result_view(r) == socket_of(fd),
{
    make_socket(fd)
}

/// What the caller is to do next.
#[derive(Clone, Debug, PartialEq, Eq)]
pub enum Action {
    /// Connect to the advertised endpoint, send this text, close the sending
    /// side, and read the answer to its end.
    Exchange(String),
    /// Ask the system for a socket made from this serialized descriptor.
    Duplicate(Vec<u8>),
    /// Take this socket off the completion port that it came with, so that
    /// an I/O framework can attach it to one of its own.
    Detach(RawSocket),
    /// Nothing more: this is the offer, `None` where there is none.
    Finish(Option<Vec<FdType>>),
}

/// An `Action` with each collection replaced by what it holds.
pub enum ActionView {
    Exchange(Seq<char>),
    Duplicate(Seq<u8>),
    Detach(RawSocket),
    Finish(Option<Seq<FdType>>),
}

impl View for Action {
    type V = ActionView;

    open spec fn view(&self) -> ActionView {
        match self {
            Action::Exchange(text) => ActionView::Exchange(text@),
            Action::Duplicate(record) => ActionView::Duplicate(record@),
            Action::Detach(socket) => ActionView::Detach(*socket),
            Action::Finish(Some(handles)) => ActionView::Finish(Some(handles@)),
            Action::Finish(None) => ActionView::Finish(None),
        }
    }
}

/// What came of the last action.
#[derive(Clone, Debug, PartialEq, Eq)]
pub enum Event {
    /// The exchange with the endpoint failed at some point.
    ExchangeFailed,
    /// The exchange went through, and this is all that the endpoint sent.
    Reply(Vec<u8>),
    /// The system's answer to `Duplicate`: the new socket, or 0 for none.
    Duplicated(RawSocket),
    /// The socket was taken off its completion port, or could not be: the
    /// outcome is not looked at.
    Detached,
}

/// What a handshake is waiting for.
#[derive(Clone, Copy, Debug, PartialEq, Eq, Structural)]
pub enum Stage {
    /// For the endpoint's answer.
    Exchanging,
    /// For the socket of the next record.
    Duplicating,
    /// For the last socket to be taken off its completion port.
    Detaching,
    /// For nothing: the handshake is over.
    Finished,
}

/// A handshake in progress.
pub struct Handshake {
    stage: Stage,
    record_len: usize,
    reply: Vec<u8>,
    sockets: Vec<FdType>,
}

impl Handshake {
    #[verifier::type_invariant]
    spec fn well_formed(self) -> bool {
        in_order(self@)
    }
}

/// What a `Handshake` holds.
pub struct HandshakeView {
    /// What the handshake is waiting for.
    pub stage: Stage,
    /// The length of one serialized descriptor.
    pub record_len: nat,
    /// The endpoint's answer, once it is there.
    pub reply: Seq<u8>,
    /// The sockets made so far, in the order of their records.
    pub sockets: Seq<FdType>,
}

impl View for Handshake {
    type V = HandshakeView;

    closed spec fn view(&self) -> HandshakeView {
        HandshakeView {
            stage: self.stage,
            record_len: self.record_len as nat,
            reply: self.reply@,
            sockets: self.sockets@,
        }
    }
}

/// The number of whole records in `reply`. Bytes after the last whole record
/// are not looked at.
pub open spec fn record_count(reply: Seq<u8>, record_len: nat) -> nat {
    if record_len == 0 {
        0
    } else {
        reply.len() / record_len
    }
}

/// Record number `k` of `reply`, counted from 0.
pub open spec fn record(reply: Seq<u8>, record_len: nat, k: nat) -> Seq<u8> {
    reply.subrange((k * record_len) as int, ((k + 1) * record_len) as int)
}

/// Whether the sockets in `state` are those of the first records of the
/// answer, one for each and none besides: while a socket is awaited, its
/// record is there; while one is taken off its port, it is the last made.
pub open spec fn in_order(state: HandshakeView) -> bool {
    let count = record_count(state.reply, state.record_len);
    match state.stage {
        Stage::Exchanging => state.sockets.len() == 0 && state.reply.len() == 0,
        Stage::Duplicating => state.sockets.len() < count,
        Stage::Detaching => 0 < state.sockets.len() <= count,
        Stage::Finished => state.sockets.len() == 0 && state.reply.len() == 0,
    }
}

/// A handshake that is over.
pub open spec fn halted(record_len: nat) -> HandshakeView {
    HandshakeView { stage: Stage::Finished, record_len, reply: Seq::empty(), sockets: Seq::empty() }
}

/// The end of a handshake that failed: there is no offer, whatever was
/// received or made before.
pub open spec fn failed(record_len: nat) -> (HandshakeView, ActionView) {
    (halted(record_len), ActionView::Finish(None))
}

/// What follows once `sockets` are made of the first records of `reply`:
/// the next record is to be made into a socket, or, with no record left, the
/// sockets are the offer.
pub open spec fn proceed(record_len: nat, reply: Seq<u8>, sockets: Seq<FdType>) -> (
    HandshakeView,
    ActionView,
) {
    if sockets.len() < record_count(reply, record_len) {
        (
            HandshakeView { stage: Stage::Duplicating, record_len, reply, sockets },
            ActionView::Duplicate(record(reply, record_len, sockets.len())),
        )
    } else {
        (halted(record_len), ActionView::Finish(Some(sockets)))
    }
}

/// The state after `event` and the action that it calls for.
///
/// An event that the state was not waiting for ends the handshake without
/// an offer, as every failure does.
pub open spec fn step(state: HandshakeView, event: Event) -> (HandshakeView, ActionView) {
    match (state.stage, event) {
        (Stage::Exchanging, Event::Reply(data)) => proceed(
            state.record_len,
            data@,
            Seq::empty(),
        ),
        (Stage::Duplicating, Event::Duplicated(socket)) => if socket == 0 {
            failed(state.record_len)
        } else {
            (
                HandshakeView {
                    stage: Stage::Detaching,
                    sockets: state.sockets.push(FdType::Socket(socket)),
                    ..state
                },
                ActionView::Detach(socket),
            )
        },
        (Stage::Detaching, Event::Detached) => proceed(
            state.record_len,
            state.reply,
            state.sockets,
        ),
        _ => failed(state.record_len),
    }
}

/// The endpoint's answer as it is known after `event`.
pub open spec fn answer(state: HandshakeView, event: Event) -> Seq<u8> {
    match (state.stage, event) {
        (Stage::Exchanging, Event::Reply(data)) => data@,
        _ => state.reply,
    }
}

/// The secret that `env` holds, where it holds one.
pub open spec fn secret(env: Environment) -> Option<u128> {
    match env.socket_secret.text() {
        Some(text) => uuid_value(text),
        None => None,
    }
}

/// Whether `env` advertises an endpoint to shake hands with: both variables
/// are set, the first to an address and the second to a UUID, which `secret`
/// holds.
pub open spec fn advertised(env: Environment, server_ok: bool, secret: Option<u128>) -> bool {
    &&& env.socket_server.text() is Some
    &&& server_ok
    &&& env.socket_secret.text() is Some
    &&& secret is Some
}

/// The start of the handshake: the state and the first action.
pub open spec fn start(
    env: Environment,
    server_ok: bool,
    secret: Option<u128>,
    pid: u32,
    record_len: nat,
) -> (HandshakeView, ActionView) {
    if advertised(env, server_ok, secret) && record_len > 0 {
        (
            HandshakeView {
                stage: Stage::Exchanging,
                record_len,
                reply: Seq::empty(),
                sockets: Seq::empty(),
            },
            ActionView::Exchange(request_text(secret->0, pid)),
        )
    } else {
        failed(record_len)
    }
}

/// The environment after the start of the handshake: where there is an
/// endpoint to shake hands with, both variables are gone, however the
/// handshake ends.
pub open spec fn consumed(
    env: Environment,
    server_ok: bool,
    secret: Option<u128>,
    record_len: nat,
) -> Environment {
    if advertised(env, server_ok, secret) && record_len > 0 {
        Environment { socket_server: EnvVar::NotPresent, socket_secret: EnvVar::NotPresent }
    } else {
        env
    }
}

fn halt(record_len: usize) -> (r: Handshake)
    ensures
        r@ == halted(record_len as nat),
{
    Handshake { stage: Stage::Finished, record_len, reply: Vec::new(), sockets: Vec::new() }
}

proof fn lemma_record_fits(len: int, record_len: int, k: int)
    requires
        record_len > 0,
        0 <= k < len / record_len,
    ensures
        0 <= k * record_len,
        k * record_len + record_len == (k + 1) * record_len,
        (k + 1) * record_len <= len,
{
    assert(0 <= k * record_len) by (nonlinear_arith)
        requires
            0 <= k,
            0 < record_len,
    ;
    assert(k * record_len + record_len == (k + 1) * record_len) by (nonlinear_arith);
    assert((k + 1) * record_len <= (len / record_len) * record_len) by (nonlinear_arith)
        requires
            k + 1 <= len / record_len,
            record_len > 0,
    ;
    assert((len / record_len) * record_len <= len) by (nonlinear_arith)
        requires
            record_len > 0,
    ;
}

fn copy_record(reply: &Vec<u8>, record_len: usize, k: usize) -> (r: Vec<u8>)
    requires
        record_len > 0,
        k < reply@.len() / (record_len as nat),
    ensures
        r@ == record(reply@, record_len as nat, k as nat),
{
    proof {
        lemma_record_fits(reply@.len() as int, record_len as int, k as int);
    }
    let size = reply.len();
    let from: usize = k * record_len;
    let mut out: Vec<u8> = Vec::new();
    let mut i: usize = 0;
    while i < record_len
        invariant
            i <= record_len,
            size == reply@.len(),
            from + record_len <= size,
            out@ == reply@.subrange(from as int, from + i),
        decreases record_len - i,
    {
        out.push(reply[from + i]);
        i = i + 1;
    }
    out
}

fn proceed_with(record_len: usize, reply: Vec<u8>, sockets: Vec<FdType>) -> (r: (
    Handshake,
    Action,
))
    requires
        sockets@.len() <= record_count(reply@, record_len as nat),
    ensures
        (r.0@, r.1@) == proceed(record_len as nat, reply@, sockets@),
{
    let done = sockets.len();
    if record_len > 0 && done < reply.len() / record_len {
        let record = copy_record(&reply, record_len, done);
        (Handshake { stage: Stage::Duplicating, record_len, reply, sockets }, Action::Duplicate(record))
    } else {
        (halt(record_len), Action::Finish(Some(sockets)))
    }
}

impl Handshake {
    /// Takes in what came of the last action and says what to do next.
    ///
    /// An offer is whole: it holds a socket for every record of the
    /// endpoint's answer, in their order.
    pub fn step(self, event: Event) -> (r: (Handshake, Action))
        ensures
            (r.0@, r.1@) == step(self@, event),
            r.1@ matches ActionView::Finish(Some(handles)) ==> handles.len() == record_count(
                answer(self@, event),
                self@.record_len,
            ),
    {
        proof {
            use_type_invariant(&self);
            law_offer_is_whole(self@, event);
        }
        match (self.stage, event) {
            (Stage::Exchanging, Event::Reply(data)) => proceed_with(
                self.record_len,
                data,
                Vec::new(),
            ),
            (Stage::Duplicating, Event::Duplicated(socket)) => {
                if socket == 0 {
                    (halt(self.record_len), Action::Finish(None))
                } else {
                    let mut sockets = self.sockets;
                    sockets.push(FdType::Socket(socket));
                    (
                        Handshake {
                            stage: Stage::Detaching,
                            record_len: self.record_len,
                            reply: self.reply,
                            sockets,
                        },
                        Action::Detach(socket),
                    )
                }
            },
            (Stage::Detaching, Event::Detached) => proceed_with(
                self.record_len,
                self.reply,
                self.sockets,
            ),
            _ => (halt(self.record_len), Action::Finish(None)),
        }
    }
}

/// Starts the handshake for process `pid`, given the secret that was read
/// from `SYSTEMFD_SOCKET_SECRET`, and removes from `env` the variables that
/// it acted on.
///
/// `server_ok` says whether the text of `SYSTEMFD_SOCKET_SERVER` is the
/// address of an endpoint, and `record_len` how many bytes one serialized
/// descriptor has. With a length of 0 no answer could be read, and nothing
/// is begun.
pub fn begin(
    env: &mut Environment,
    server_ok: bool,
    secret: Option<u128>,
    pid: u32,
    record_len: usize,
) -> (r: (Handshake, Action))
    ensures
        (r.0@, r.1@) == start(*old(env), server_ok, secret, pid, record_len as nat),
        *final(env) == consumed(*old(env), server_ok, secret, record_len as nat),
{
    if !server_ok || record_len == 0 {
        return (halt(record_len), Action::Finish(None));
    }
    let id = match secret {
        Some(id) => id,
        None => {
            return (halt(record_len), Action::Finish(None));
        },
    };
    match (env.socket_server.as_str(), env.socket_secret.as_str()) {
        (Some(_), Some(_)) => {},
        _ => {
            return (halt(record_len), Action::Finish(None));
        },
    }
    env.socket_server = EnvVar::NotPresent;
    env.socket_secret = EnvVar::NotPresent;
    (
        Handshake { stage: Stage::Exchanging, record_len, reply: Vec::new(), sockets: Vec::new() },
        Action::Exchange(request(id, pid)),
    )
}

/// Reads the secret from `env` and starts the handshake for process `pid`.
///
/// The caller fills `env` from the process environment before the call, and
/// afterwards removes from the process environment every variable that the
/// call has set to `NotPresent`. It then does what the action says and hands
/// the outcome to `Handshake::step`, until the action is `Finish`.
pub fn get_fds(env: &mut Environment, server_ok: bool, pid: u32, record_len: usize) -> (r: (
    Handshake,
    Action,
))
    ensures
        (r.0@, r.1@) == start(
            *old(env),
            server_ok,
            secret(*old(env)),
            pid,
            record_len as nat,
        ),
        *final(env) == consumed(*old(env), server_ok, secret(*old(env)), record_len as nat),
{
    let id = match env.socket_secret.as_str() {
        Some(text) => parse_uuid(text),
        None => None,
    };
    begin(env, server_ok, id, pid, record_len)
}

/// Every step leaves the sockets in order, and an offer is never a part of
/// what the endpoint sent: where a handshake ends in an offer, the offer
/// holds one socket for each record of the answer.
pub proof fn law_offer_is_whole(state: HandshakeView, event: Event)
    requires
        in_order(state),
    ensures
        in_order(step(state, event).0),
        step(state, event).1 matches ActionView::Finish(Some(handles)) ==> handles.len()
            == record_count(answer(state, event), state.record_len),
{
}

/// A handshake that has failed, or has ended, does not come back: whatever
/// is reported to it, it offers nothing.
pub proof fn law_finished_stays_finished(state: HandshakeView, event: Event)
    requires
        state.stage == Stage::Finished,
    ensures
        step(state, event) == failed(state.record_len),
{
}

/// Every failure ends the handshake without an offer: a failed exchange, a
/// record that the system makes no socket of, and an event out of turn.
pub proof fn law_fails_closed(state: HandshakeView, event: Event)
    requires
        event is ExchangeFailed || event == Event::Duplicated(0) || (state.stage
            == Stage::Exchanging && !(event is Reply)) || (state.stage == Stage::Duplicating && !(
        event is Duplicated)) || (state.stage == Stage::Detaching && !(event is Detached)),
    ensures
        step(state, event) == failed(state.record_len),
{
}

/// The offer that a handshake owes when the endpoint answers `reply` and the
/// system makes the socket `made[k]` of record `k`: a socket for every
/// record, in the order of the records, or no offer at all where one of them
/// could not be made.
pub open spec fn whole_offer(reply: Seq<u8>, record_len: nat, made: Seq<RawSocket>) -> Option<
    Seq<FdType>,
> {
    let count = record_count(reply, record_len);
    if forall|k: int| 0 <= k < count ==> made[k] != 0 {
        Some(Seq::new(count, |k: int| FdType::Socket(made[k])))
    } else {
        None
    }
}

/// What a handshake ends in from the point where `sockets` are made, when
/// the caller does what each action says and the system makes the socket
/// `made[k]` of record `k`.
pub open spec fn run(
    record_len: nat,
    reply: Seq<u8>,
    sockets: Seq<FdType>,
    made: Seq<RawSocket>,
) -> Option<Seq<FdType>>
    decreases record_count(reply, record_len) - sockets.len(),
{
    let (waiting, action) = proceed(record_len, reply, sockets);
    match action {
        ActionView::Duplicate(_) => {
            let (detaching, next) = step(waiting, Event::Duplicated(made[sockets.len() as int]));
            match next {
                ActionView::Detach(_) => run(record_len, reply, detaching.sockets, made),
                ActionView::Finish(offer) => offer,
                _ => None,
            }
        },
        ActionView::Finish(offer) => offer,
        _ => None,
    }
}

proof fn lemma_run(record_len: nat, reply: Seq<u8>, sockets: Seq<FdType>, made: Seq<RawSocket>)
    requires
        sockets.len() <= record_count(reply, record_len),
        sockets == Seq::new(sockets.len(), |k: int| FdType::Socket(made[k])),
        forall|k: int| 0 <= k < sockets.len() ==> made[k] != 0,
    ensures
        run(record_len, reply, sockets, made) == whole_offer(reply, record_len, made),
    decreases record_count(reply, record_len) - sockets.len(),
{
    let count = record_count(reply, record_len);
    let done = sockets.len() as int;
    if done < count {
        let waiting = proceed(record_len, reply, sockets).0;
        if made[done] == 0 {
            assert(run(record_len, reply, sockets, made).is_none());
        } else {
            let detaching = step(waiting, Event::Duplicated(made[done])).0;
            assert(detaching.sockets =~= Seq::new(
                (done + 1) as nat,
                |k: int| FdType::Socket(made[k]),
            ));
            lemma_run(record_len, reply, detaching.sockets, made);
        }
    } else {
        assert(sockets =~= Seq::new(count, |k: int| FdType::Socket(made[k])));
    }
}

/// A handshake that is carried through ends in the whole offer or in none.
///
/// Where the exchange fails there is no offer. Where the endpoint answers,
/// the records of the answer are made into sockets one after the other, each
/// taken off its port before the next is made, and the handshake ends in
/// `whole_offer`: never in a part of it.
pub proof fn law_handshake_outcome(state: HandshakeView, data: Vec<u8>, made: Seq<RawSocket>)
    requires
        state.stage == Stage::Exchanging,
    ensures
        step(state, Event::ExchangeFailed) == failed(state.record_len),
        step(state, Event::Reply(data)) == proceed(state.record_len, data@, Seq::empty()),
        run(state.record_len, data@, Seq::empty(), made) == whole_offer(
            data@,
            state.record_len,
            made,
        ),
{
    assert(Seq::<FdType>::empty() =~= Seq::new(0, |k: int| FdType::Socket(made[k])));
    lemma_run(state.record_len, data@, Seq::empty(), made);
}

/// While records are made into sockets, the step after a socket was taken
/// off its port is the one that `run` goes on with.
pub proof fn law_run_follows_steps(state: HandshakeView, socket: RawSocket)
    requires
        state.stage == Stage::Duplicating,
        socket != 0,
    ensures
        ({
            let (detaching, action) = step(state, Event::Duplicated(socket));
            &&& action == ActionView::Detach(socket)
            &&& step(detaching, Event::Detached) == proceed(
                state.record_len,
                state.reply,
                state.sockets.push(FdType::Socket(socket)),
            )
        }),
{
}

/// The handshake begins only where the environment advertises an endpoint,
/// and then both variables are gone from the environment, however the
/// handshake ends. Otherwise nothing is offered and the environment is as it
/// was.
pub proof fn law_attempt_clears(
    env: Environment,
    server_ok: bool,
    secret: Option<u128>,
    pid: u32,
    record_len: nat,
)
    ensures
        start(env, server_ok, secret, pid, record_len).1 is Exchange ==> consumed(
            env,
            server_ok,
            secret,
            record_len,
        ) == (Environment {
            socket_server: EnvVar::NotPresent,
            socket_secret: EnvVar::NotPresent,
        }),
        !(start(env, server_ok, secret, pid, record_len).1 is Exchange) ==> start(
            env,
            server_ok,
            secret,
            pid,
            record_len,
        ) == failed(record_len) && consumed(env, server_ok, secret, record_len) == env,
        in_order(start(env, server_ok, secret, pid, record_len).0),
{
}

} // verus!
