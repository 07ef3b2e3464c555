//! The registry of offered handles: who holds which handle, and that each is
//! given out at most once.
use crate::error::{result_view, Error, ErrorKind, Failure};
use crate::unix::{
    accepts, make_custom, making, not_valid_text, Answers, Cloexec, Family, FdType, Probe,
    SockType, Step, StepView,
};
use crate::windows;
use crate::windows::{socket_of, RawSocket};
use vstd::prelude::*;

verus! {

/// The handles that were offered to this process, each in a slot of its own.
///
/// A slot is numbered from 0 in the order of the offer. It holds its handle
/// until a claim on it succeeds; from then on it is empty for good. The
/// number of slots never changes. A registry is made for one thread: claims
/// change it, so whoever shares it has to take turns.
pub struct ListenFd<H> {
    fds: Vec<Option<H>>,
}

impl<H> View for ListenFd<H> {
    type V = Seq<Option<H>>;

    /// The slots in order: `Some` for a handle that is still offered, `None`
    /// for one that was claimed.
    closed spec fn view(&self) -> Seq<Option<H>> {
        self.fds@
    }
}

/// The handle that a claim on slot `idx` of `slots` finds: `None` where the
/// slot was claimed before, and where there is no slot of that number.
pub open spec fn offered_at<H>(slots: Seq<Option<H>>, idx: int) -> Option<H> {
    if 0 <= idx < slots.len() {
        slots[idx]
    } else {
        None
    }
}

/// The slots of a new registry: one for each handle of the offer, in order,
/// and none where nothing was offered.
pub open spec fn slots_of<H>(offer: Option<Seq<H>>) -> Seq<Option<H>> {
    match offer {
        Some(handles) => Seq::new(handles.len(), |i: int| Some(handles[i])),
        None => Seq::empty(),
    }
}

/// The handles that `slots` still hold, in the order of their slots.
pub open spec fn still_offered<H>(slots: Seq<Option<H>>) -> Seq<H>
    decreases slots.len(),
{
    if slots.len() == 0 {
        Seq::empty()
    } else {
        match slots.last() {
            Some(handle) => still_offered(slots.drop_last()).push(handle),
            None => still_offered(slots.drop_last()),
        }
    }
}

/// Where a claim on slot `idx` for a socket of family `sock_fam` and type
/// `sock_type` stands, given what the system has answered so far, and the
/// slots as the claim leaves them.
///
/// There is nothing to claim where the slot is empty or missing, whatever
/// kind is asked for. A slot is emptied by the step that ends the claim in
/// success, and by no other.
pub open spec fn claim(
    slots: Seq<Option<FdType>>,
    idx: int,
    sock_fam: Family,
    sock_type: SockType,
    hint: Seq<char>,
    answers: Answers,
) -> (Seq<Option<FdType>>, StepView<Option<FdType>>) {
    match offered_at(slots, idx) {
        None => (slots, StepView::Done(Ok(None))),
        Some(fd) => match making(fd, sock_fam, sock_type, hint, answers) {
            StepView::Probe(asked) => (slots, StepView::Probe(asked)),
            StepView::SetCloexec(asked) => (slots, StepView::SetCloexec(asked)),
            StepView::Done(Err(failure)) => (slots, StepView::Done(Err(failure))),
            StepView::Done(Ok(made)) => (slots.update(idx, None), StepView::Done(Ok(Some(made)))),
        },
    }
}

/// What a claim on slot `idx` without validation gives, and the slots as it
/// leaves them.
pub open spec fn raw_claim<H>(slots: Seq<Option<H>>, idx: int) -> (Seq<Option<H>>, Option<H>) {
    match offered_at(slots, idx) {
        None => (slots, None),
        Some(handle) => (slots.update(idx, None), Some(handle)),
    }
}

/// What a claim on slot `idx` for a socket gives on the handle-based
/// platform, and the slots as it leaves them. A handle that is no socket is
/// refused and stays in its slot.
pub open spec fn socket_claim(slots: Seq<Option<windows::FdType>>, idx: int) -> (
    Seq<Option<windows::FdType>>,
    Result<Option<RawSocket>, Failure>,
) {
    match offered_at(slots, idx) {
        None => (slots, Ok(None)),
        Some(fd) => match socket_of(fd) {
            Ok(socket) => (slots.update(idx, None), Ok(Some(socket))),
            Err(failure) => (slots, Err(failure)),
        },
    }
}

impl<H: Copy> ListenFd<H> {
    /// The handle that a claim on slot `idx` would find.
    pub open spec fn offered(&self, idx: int) -> Option<H> {
        offered_at(self@, idx)
    }

    /// The registry of what the environment offered: a slot for each handle
    /// of `offer`, and no slot where the supervisor offered nothing.
    pub fn from_env(offer: Option<Vec<H>>) -> (r: ListenFd<H>)
        ensures
            r@ == slots_of(
                match offer {
                    Some(handles) => Some(handles@),
                    None => None,
                },
            ),
            r@.len() == match offer {
                Some(handles) => handles@.len(),
                None => 0,
            },
    {
        match offer {
            Some(handles) => {
                let mut fds: Vec<Option<H>> = Vec::new();
                let mut i: usize = 0;
                while i < handles.len()
                    invariant
                        i <= handles.len(),
                        fds@ == Seq::new(i as nat, |k: int| Some(handles@[k])),
                    decreases handles.len() - i,
                {
                    fds.push(Some(handles[i]));
                    i = i + 1;
                }
                ListenFd { fds }
            },
            None => ListenFd::empty(),
        }
    }

    /// A registry without slots: every claim on it finds nothing.
    pub fn empty() -> (r: ListenFd<H>)
        ensures
            r@ == Seq::<Option<H>>::empty(),
    {
        ListenFd { fds: Vec::new() }
    }

    /// The number of slots, as it was when the registry was made.
    pub fn len(&self) -> (r: usize)
        ensures
            r == self@.len(),
    {
        self.fds.len()
    }

    /// Empties every slot and hands out the handles that were still offered,
    /// in the order of their slots. Whoever gives the registry up closes
    /// them, so that no descriptor is left open without an owner.
    pub fn release(&mut self) -> (r: Vec<H>)
        ensures
            r@ == still_offered(old(self)@),
            final(self)@ == Seq::new(old(self)@.len(), |i: int| None::<H>),
    {
        let n = self.fds.len();
        let mut handles: Vec<H> = Vec::new();
        let mut i: usize = 0;
        while i < n
            invariant
                i <= n,
                n == self.fds@.len(),
                n == old(self)@.len(),
                handles@ == still_offered(old(self)@.subrange(0, i as int)),
                forall|k: int| 0 <= k < i ==> self.fds@[k] is None,
                forall|k: int| i <= k < n ==> self.fds@[k] == old(self)@[k],
            decreases n - i,
        {
            assert(old(self)@.subrange(0, i + 1).drop_last() =~= old(self)@.subrange(0, i as int));
            match self.fds[i] {
                Some(handle) => {
                    handles.push(handle);
                    self.fds.set(i, None);
                },
                None => {},
            }
            i = i + 1;
        }
        assert(old(self)@.subrange(0, n as int) =~= old(self)@);
        assert(self.fds@ =~= Seq::new(old(self)@.len(), |i: int| None::<H>));
        handles
    }

    /// Claims slot `idx` for what `f` makes of its handle.
    ///
    /// Where the slot is empty or missing, `f` is not called and there is
    /// nothing to claim. Otherwise `f` is called on the handle once. What it
    /// makes is handed on and the slot is emptied; where it fails, its error
    /// is handed on and the slot keeps its handle.
    pub fn with_fd<R, F: FnOnce(H) -> Result<R, Error>>(&mut self, idx: usize, f: F) -> (r: Result<
        Option<R>,
        Error,
    >)
        requires
            old(self).offered(idx as int) matches Some(handle) ==> call_requires(f, (handle,)),
        ensures
            match old(self).offered(idx as int) {
                None => r == Ok::<Option<R>, Error>(None) && final(self)@ == old(self)@,
                Some(handle) => match r {
                    Ok(Some(made)) => call_ensures(f, (handle,), Ok(made)) && final(self)@ == old(
                        self,
                    )@.update(idx as int, None),
                    Ok(None) => false,
                    Err(e) => call_ensures(f, (handle,), Err(e)) && final(self)@ == old(self)@,
                },
            },
            final(self)@.len() == old(self)@.len(),
            r matches Ok(Some(_)) ==> final(self).offered(idx as int) is None,
            forall|k: int| old(self).offered(k) is None ==> final(self).offered(k) is None,
    {
        if idx >= self.fds.len() {
            return Ok(None);
        }
        match self.fds[idx] {
            None => Ok(None),
            Some(handle) => match f(handle) {
                Ok(made) => {
                    self.fds.set(idx, None);
                    Ok(Some(made))
                },
                Err(e) => Err(e),
            },
        }
    }
}

impl ListenFd<FdType> {
    /// Takes one step in claiming slot `idx` for a socket of family
    /// `sock_fam` and type `sock_type`, which `hint` names in errors.
    ///
    /// The caller starts with no answers, does what the step asks of it, and
    /// calls again with the answer added, until the step is `Done`. On
    /// `Done(Ok(Some(fd)))` the slot is empty and the caller owns the
    /// descriptor. In every other case the registry is as it was: after an
    /// error the same slot can be claimed for another kind.
    pub fn take_custom(
        &mut self,
        idx: usize,
        sock_fam: Family,
        sock_type: SockType,
        hint: &str,
        answers: &Answers,
    ) -> (r: Step<Option<FdType>>)
        ensures
            (final(self)@, r@) == claim(old(self)@, idx as int, sock_fam, sock_type, hint@, *answers),
            final(self)@.len() == old(self)@.len(),
    {
        if idx >= self.fds.len() {
            return Step::Done(Ok(None));
        }
        let fd = match self.fds[idx] {
            Some(fd) => fd,
            None => {
                return Step::Done(Ok(None));
            },
        };
        match make_custom(fd, sock_fam, sock_type, hint, answers) {
            Step::Probe(asked) => Step::Probe(asked),
            Step::SetCloexec(asked) => Step::SetCloexec(asked),
            Step::Done(Err(e)) => Step::Done(Err(e)),
            Step::Done(Ok(made)) => {
                self.fds.set(idx, None);
                Step::Done(Ok(Some(made)))
            },
        }
    }

    /// `take_custom` for a listening TCP socket.
    pub fn take_tcp_listener(&mut self, idx: usize, answers: &Answers) -> (r: Step<Option<FdType>>)
        ensures
            (final(self)@, r@) == claim(
                old(self)@,
                idx as int,
                Family::Inet,
                SockType::Stream,
                "tcp socket"@,
                *answers,
            ),
            final(self)@.len() == old(self)@.len(),
    {
        self.take_custom(idx, Family::Inet, SockType::Stream, "tcp socket", answers)
    }

    /// `take_custom` for a listening stream socket local to the machine.
    pub fn take_unix_listener(&mut self, idx: usize, answers: &Answers) -> (r: Step<Option<FdType>>)
        ensures
            (final(self)@, r@) == claim(
                old(self)@,
                idx as int,
                Family::Unix,
                SockType::Stream,
                "unix stream socket"@,
                *answers,
            ),
            final(self)@.len() == old(self)@.len(),
    {
        self.take_custom(idx, Family::Unix, SockType::Stream, "unix stream socket", answers)
    }

    /// `take_custom` for a UDP socket.
    pub fn take_udp_socket(&mut self, idx: usize, answers: &Answers) -> (r: Step<Option<FdType>>)
        ensures
            (final(self)@, r@) == claim(
                old(self)@,
                idx as int,
                Family::Inet,
                SockType::Datagram,
                "udp socket"@,
                *answers,
            ),
            final(self)@.len() == old(self)@.len(),
    {
        self.take_custom(idx, Family::Inet, SockType::Datagram, "udp socket", answers)
    }

    /// `take_custom` for a datagram socket local to the machine.
    pub fn take_unix_datagram(&mut self, idx: usize, answers: &Answers) -> (r: Step<Option<FdType>>)
        ensures
            (final(self)@, r@) == claim(
                old(self)@,
                idx as int,
                Family::Unix,
                SockType::Datagram,
                "unix datagram socket"@,
                *answers,
            ),
            final(self)@.len() == old(self)@.len(),
    {
        self.take_custom(idx, Family::Unix, SockType::Datagram, "unix datagram socket", answers)
    }

    /// Claims slot `idx` without asking what its descriptor is: the caller
    /// gets the number as it was offered, and the slot is empty from then on.
    pub fn take_raw_fd(&mut self, idx: usize) -> (r: Result<Option<FdType>, Error>)
        ensures
            r is Ok,
            (final(self)@, r->Ok_0) == raw_claim(old(self)@, idx as int),
            final(self)@.len() == old(self)@.len(),
    {
        let keep = |fd: FdType| -> (kept: Result<FdType, Error>)
            ensures
                kept == Ok::<FdType, Error>(fd),
            { Ok(fd) };
        self.with_fd(idx, keep)
    }
}

impl ListenFd<windows::FdType> {
    /// Claims slot `idx` for a TCP listener.
    pub fn take_tcp_listener(&mut self, idx: usize) -> (r: Result<Option<RawSocket>, Error>)
        ensures
            (final(self)@, result_view(r)) == socket_claim(old(self)@, idx as int),
            final(self)@.len() == old(self)@.len(),
    {
        self.with_fd(idx, windows::make_tcp_listener)
    }

    /// Claims slot `idx` for a UDP socket.
    pub fn take_udp_socket(&mut self, idx: usize) -> (r: Result<Option<RawSocket>, Error>)
        ensures
            (final(self)@, result_view(r)) == socket_claim(old(self)@, idx as int),
            final(self)@.len() == old(self)@.len(),
    {
        self.with_fd(idx, windows::make_udp_socket)
    }

    /// Claims slot `idx` for the socket handle as it was offered.
    pub fn take_raw_socket(&mut self, idx: usize) -> (r: Result<Option<RawSocket>, Error>)
        ensures
            (final(self)@, result_view(r)) == socket_claim(old(self)@, idx as int),
            final(self)@.len() == old(self)@.len(),
    {
        self.with_fd(idx, windows::make_socket)
    }
}

/// The number of slots is the number of handles that were offered, and no
/// claim changes it, whether it succeeds or not.
pub proof fn law_len_is_fixed(
    offer: Option<Seq<FdType>>,
    slots: Seq<Option<FdType>>,
    sockets: Seq<Option<windows::FdType>>,
    idx: int,
    sock_fam: Family,
    sock_type: SockType,
    hint: Seq<char>,
    answers: Answers,
)
    ensures
        slots_of(offer).len() == match offer {
            Some(handles) => handles.len(),
            None => 0,
        },
        claim(slots, idx, sock_fam, sock_type, hint, answers).0.len() == slots.len(),
        raw_claim(slots, idx).0.len() == slots.len(),
        socket_claim(sockets, idx).0.len() == sockets.len(),
{
}

/// Once a claim on a slot has succeeded, every later claim on that slot
/// finds nothing, whatever kind it asks for and whatever the system answers.
pub proof fn law_claimed_once(
    slots: Seq<Option<FdType>>,
    idx: int,
    sock_fam: Family,
    sock_type: SockType,
    hint: Seq<char>,
    answers: Answers,
    later_fam: Family,
    later_type: SockType,
    later_hint: Seq<char>,
    later_answers: Answers,
)
    requires
        claim(slots, idx, sock_fam, sock_type, hint, answers).1 matches StepView::Done(Ok(Some(_))),
    ensures
        ({
            let after = claim(slots, idx, sock_fam, sock_type, hint, answers).0;
            &&& offered_at(after, idx) is None
            &&& claim(after, idx, later_fam, later_type, later_hint, later_answers) == (
                after,
                StepView::<Option<FdType>>::Done(Ok(None)),
            )
            &&& raw_claim(after, idx) == (after, None::<FdType>)
        }),
{
}

/// The same holds after a claim without validation.
pub proof fn law_raw_claimed_once(
    slots: Seq<Option<FdType>>,
    idx: int,
    later_fam: Family,
    later_type: SockType,
    later_hint: Seq<char>,
    later_answers: Answers,
)
    requires
        raw_claim(slots, idx).1 is Some,
    ensures
        ({
            let after = raw_claim(slots, idx).0;
            &&& offered_at(after, idx) is None
            &&& claim(after, idx, later_fam, later_type, later_hint, later_answers) == (
                after,
                StepView::<Option<FdType>>::Done(Ok(None)),
            )
            &&& raw_claim(after, idx) == (after, None::<FdType>)
        }),
{
}

/// On the handle-based platform too, a socket is claimed once: every later
/// claim on its slot finds nothing, and a slot that is empty stays empty.
pub proof fn law_socket_claimed_once(slots: Seq<Option<windows::FdType>>, idx: int, claimed: int)
    ensures
        socket_claim(slots, idx).1 matches Ok(Some(_)) ==> socket_claim(
            socket_claim(slots, idx).0,
            idx,
        ) == (socket_claim(slots, idx).0, Ok::<Option<RawSocket>, Failure>(None)),
        offered_at(slots, claimed) is None ==> offered_at(socket_claim(slots, idx).0, claimed)
            is None,
        offered_at(slots, idx) is None ==> socket_claim(slots, idx) == (
            slots,
            Ok::<Option<RawSocket>, Failure>(None),
        ),
        socket_claim(slots, idx).1 is Err ==> socket_claim(slots, idx).0 == slots,
{
}

/// A slot that is empty stays empty through every claim, on that slot or on
/// another, and a slot that still holds its handle after a claim holds the
/// handle that it held before.
pub proof fn law_claimed_stays_claimed(
    slots: Seq<Option<FdType>>,
    idx: int,
    claimed: int,
    sock_fam: Family,
    sock_type: SockType,
    hint: Seq<char>,
    answers: Answers,
)
    ensures
        offered_at(slots, claimed) is None ==> offered_at(
            claim(slots, idx, sock_fam, sock_type, hint, answers).0,
            claimed,
        ) is None,
        offered_at(slots, claimed) is None ==> offered_at(raw_claim(slots, idx).0, claimed) is None,
        offered_at(claim(slots, idx, sock_fam, sock_type, hint, answers).0, claimed) is Some
            ==> offered_at(claim(slots, idx, sock_fam, sock_type, hint, answers).0, claimed)
            == offered_at(slots, claimed),
        offered_at(raw_claim(slots, idx).0, claimed) is Some ==> offered_at(
            raw_claim(slots, idx).0,
            claimed,
        ) == offered_at(slots, claimed),
{
}

/// A claim on a slot that was never offered, that lies past the last slot,
/// or that was claimed before finds nothing and changes nothing.
pub proof fn law_nothing_to_claim(
    slots: Seq<Option<FdType>>,
    idx: int,
    sock_fam: Family,
    sock_type: SockType,
    hint: Seq<char>,
    answers: Answers,
)
    requires
        idx >= slots.len() || offered_at(slots, idx) is None,
    ensures
        claim(slots, idx, sock_fam, sock_type, hint, answers) == (
            slots,
            StepView::<Option<FdType>>::Done(Ok(None)),
        ),
        raw_claim(slots, idx) == (slots, None::<FdType>),
{
}

/// A claim for a kind that the socket is not ends in `InvalidHandle` and
/// leaves the slot as it was. A claim for the kind that the socket is, made
/// afterwards on the same slot, succeeds, provided that the system marks the
/// descriptor.
pub proof fn law_mismatch_keeps_offer(
    slots: Seq<Option<FdType>>,
    idx: int,
    probe: Probe,
    wrong_fam: Family,
    wrong_type: SockType,
    wrong_hint: Seq<char>,
    wrong_answers: Answers,
    sock_fam: Family,
    sock_type: SockType,
    hint: Seq<char>,
    answers: Answers,
)
    requires
        offered_at(slots, idx) is Some,
        wrong_answers.probe == Some(probe),
        !accepts(probe, wrong_fam, wrong_type),
        answers.probe == Some(probe),
        probe.is_socket,
        accepts(probe, sock_fam, sock_type),
        answers.cloexec matches Some(outcome) && outcome.rv >= 0,
    ensures
        ({
            let (after, step) = claim(slots, idx, wrong_fam, wrong_type, wrong_hint, wrong_answers);
            &&& step matches StepView::Done(Err(failure)) && failure.kind == ErrorKind::InvalidHandle
            &&& after == slots
            &&& claim(after, idx, sock_fam, sock_type, hint, answers) == (
                slots.update(idx, None),
                StepView::Done(Ok(offered_at(slots, idx))),
            )
        }),
{
}

/// A claim ends within three steps, and asks the system for nothing that it
/// does not need. Without answers it asks about the descriptor in the slot.
/// With the probe it asks for the descriptor to be marked, and only where the
/// probe shows a socket of the requested kind: a descriptor that is refused
/// is never touched. With both answers it is over, and then the slot is
/// emptied exactly where the descriptor was valid and marked.
pub proof fn law_claim_ends(
    slots: Seq<Option<FdType>>,
    idx: int,
    sock_fam: Family,
    sock_type: SockType,
    hint: Seq<char>,
    probe: Probe,
    outcome: Cloexec,
)
    requires
        offered_at(slots, idx) is Some,
    ensures
        ({
            let fd = offered_at(slots, idx)->0;
            let valid = probe.is_socket && accepts(probe, sock_fam, sock_type);
            let first = claim(
                slots,
                idx,
                sock_fam,
                sock_type,
                hint,
                Answers { probe: None, cloexec: None },
            );
            let second = claim(
                slots,
                idx,
                sock_fam,
                sock_type,
                hint,
                Answers { probe: Some(probe), cloexec: None },
            );
            let third = claim(
                slots,
                idx,
                sock_fam,
                sock_type,
                hint,
                Answers { probe: Some(probe), cloexec: Some(outcome) },
            );
            &&& first == (slots, StepView::<Option<FdType>>::Probe(fd))
            &&& second.0 == slots
            &&& valid ==> second.1 == StepView::<Option<FdType>>::SetCloexec(fd)
            &&& !valid ==> second.1 == third.1 && third.0 == slots && (third.1 matches StepView::Done(
                Err(failure),
            ) && failure.kind == ErrorKind::InvalidHandle)
            &&& valid && outcome.rv >= 0 ==> third == (
                slots.update(idx, None),
                StepView::Done(Ok(Some(fd))),
            )
            &&& valid && outcome.rv < 0 ==> third.0 == slots && (third.1 matches StepView::Done(
                Err(failure),
            ) && failure.kind == ErrorKind::Other)
        }),
{
}

/// A socket of the version 6 family is handed out where the version 4 family
/// was asked for, and a socket of the version 4 family is refused where
/// version 6 was asked for.
pub proof fn law_dual_stack(
    slots: Seq<Option<FdType>>,
    idx: int,
    sock_type: SockType,
    hint: Seq<char>,
    outcome: Cloexec,
)
    requires
        offered_at(slots, idx) is Some,
        outcome.rv >= 0,
    ensures
        ({
            let six = Probe {
                is_socket: true,
                family: Some(Family::Inet6),
                sock_type: Some(sock_type),
            };
            let four = Probe {
                is_socket: true,
                family: Some(Family::Inet),
                sock_type: Some(sock_type),
            };
            &&& accepts(six, Family::Inet, sock_type)
            &&& !accepts(four, Family::Inet6, sock_type)
            &&& claim(
                slots,
                idx,
                Family::Inet,
                sock_type,
                hint,
                Answers { probe: Some(six), cloexec: Some(outcome) },
            ) == (slots.update(idx, None), StepView::Done(Ok(offered_at(slots, idx))))
            &&& claim(
                slots,
                idx,
                Family::Inet6,
                sock_type,
                hint,
                Answers { probe: Some(four), cloexec: Some(outcome) },
            ) == (
                slots,
                StepView::<Option<FdType>>::Done(
                    Err(
                        Failure {
                            kind: ErrorKind::InvalidHandle,
                            message: not_valid_text(offered_at(slots, idx)->0, hint),
                        },
                    ),
                ),
            )
        }),
{
}

} // verus!
