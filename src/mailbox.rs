use crate::tag::Tag;
use core::marker::PhantomData;
use core::time::Duration;
use vstd::prelude::*;

verus! {

/// Discriminator with which the host reports that a linked peer's death
/// signal is ready.
pub const SIGNAL: u32 = 1;

/// Discriminator with which the host reports that the wait expired.
pub const TIMEOUT: u32 = 9027;

#[verifier::external_type_specification]
#[verifier::external_body]
pub struct ExDecodeError(rmp_serde::decode::Error);

/// Represents an error while receiving a message.
#[derive(Debug)]
pub enum ReceiveError {
    /// The message was consumed but its payload did not decode as the
    /// declared type.
    DeserializationFailed(rmp_serde::decode::Error),
    /// No matching message arrived within the allotted wait.
    Timeout,
}

/// What the host's discriminator says is ready.
#[derive(Clone, Copy, Debug, PartialEq, Eq, Structural)]
pub enum Ready {
    /// A normal message whose payload can now be read.
    Normal,
    /// The death signal of a linked peer.
    Signal,
    /// Nothing: the wait expired.
    Expired,
}

pub open spec fn ready_of(discriminator: u32) -> Ready {
    if discriminator == SIGNAL {
        Ready::Signal
    } else if discriminator == TIMEOUT {
        Ready::Expired
    } else {
        Ready::Normal
    }
}

/// Classifies the discriminator that the host returned for a receive request.
pub fn ready(discriminator: u32) -> (r: Ready)
    ensures
        r == ready_of(discriminator),
{
    if discriminator == SIGNAL {
        Ready::Signal
    } else if discriminator == TIMEOUT {
        Ready::Expired
    } else {
        Ready::Normal
    }
}

/// The tag filter as the host receives it: no filter is sent as 0.
pub open spec fn wire_tag(tag: Option<Tag>) -> i64 {
    match tag {
        Some(t) => t.id,
        None => 0,
    }
}

/// The wait as the host receives it, in milliseconds: 0 blocks forever, a
/// wait under one millisecond becomes one millisecond, and a wait beyond the
/// host's range becomes the longest wait the host can express.
pub open spec fn wire_timeout(millis: Option<u128>) -> u32 {
    match millis {
        None => 0,
        Some(m) => if m == 0 {
            1
        } else if m > u32::MAX {
            u32::MAX
        } else {
            m as u32
        },
    }
}

/// Computes the tag filter to send to the host.
pub fn host_tag(tag: Option<Tag>) -> (r: i64)
    ensures
        r == wire_tag(tag),
{
    match tag {
        Some(t) => t.id(),
        None => 0,
    }
}

/// Computes the wait to send to the host from a wait of `millis` whole
/// milliseconds (`None`: no bound).
pub fn host_timeout(millis: Option<u128>) -> (r: u32)
    ensures
        r == wire_timeout(millis),
        millis.is_some() ==> r >= 1,
{
    match millis {
        None => 0,
        Some(m) => if m == 0 {
            1
        } else if m > u32::MAX as u128 {
            u32::MAX
        } else {
            m as u32
        },
    }
}

/// Relies on `Duration::as_millis`: the whole milliseconds in a duration.
#[verifier::external_body]
fn whole_millis(d: &Duration) -> (r: u128) {
    d.as_millis()
}

/// The result of a normal message whose payload decoded as `decoded`.
pub open spec fn normal_outcome<T>(decoded: Result<T, rmp_serde::decode::Error>) -> Result<T, ReceiveError> {
    match decoded {
        Ok(v) => Ok(v),
        Err(e) => Err(ReceiveError::DeserializationFailed(e)),
    }
}

/// Turns the decoding of a normal message's payload into the result of a
/// receive call.
pub fn decode_outcome<T>(decoded: Result<T, rmp_serde::decode::Error>) -> (r: Result<T, ReceiveError>)
    ensures
        r == normal_outcome(decoded),
{
    match decoded {
        Ok(v) => Ok(v),
        Err(e) => Err(ReceiveError::DeserializationFailed(e)),
    }
}

/// Whether `r` is what a non-trapping receive returns when the host,
/// asked with `args`, answered through `recv`, and the current message's
/// payload decodes through `decode`.
pub open spec fn received<T, R, D>(recv: R, args: (i64, u32), decode: D, r: Result<T, ReceiveError>) -> bool
    where
        R: FnOnce(i64, u32) -> u32,
        D: FnOnce() -> Result<T, rmp_serde::decode::Error>,
{
    exists|d: u32|
        #[trigger] call_ensures(recv, args, d) && if d == TIMEOUT {
            r == Err::<T, ReceiveError>(ReceiveError::Timeout)
        } else {
            exists|p: Result<T, rmp_serde::decode::Error>|
                #[trigger] call_ensures(decode, (), p) && r == normal_outcome(p)
        }
}

/// Whether the host, asked with `args` through `recv`, never reports a death
/// signal: the guarantee it gives to a process that does not trap.
pub open spec fn never_signals<R: FnOnce(i64, u32) -> u32>(recv: R, args: (i64, u32)) -> bool {
    forall|d: u32| #[trigger] call_ensures(recv, args, d) ==> d != SIGNAL
}

/// Mailbox of a process that does not trap the death of linked peers: such a
/// death ends the process, and never reaches the mailbox.
///
/// The handle holds no state. The host service is handed to each receive
/// call: `recv` asks the host for the next message matching a tag (0: any)
/// within a wait in milliseconds (0: no bound) and returns its discriminator,
/// `decode` decodes the payload of the message just received, and `tag_of`
/// returns the tag of the message just received.
#[derive(Debug)]
pub struct Mailbox<T> {
    _phantom: PhantomData<T>,
}

impl<T> Mailbox<T> {
    /// Creates the mailbox handle of this process for payloads of type `T`.
    ///
    /// Only process start-up should call this: the caller guarantees that the
    /// process reads its mailbox as one payload type throughout its life.
    pub fn new() -> (r: Self) {
        Mailbox { _phantom: PhantomData }
    }

    /// Gets the next message from the mailbox, blocking until one arrives.
    pub fn receive<R, D>(&self, recv: R, decode: D) -> (r: Result<T, ReceiveError>)
        where
            R: FnOnce(i64, u32) -> u32,
            D: FnOnce() -> Result<T, rmp_serde::decode::Error>,
        requires
            call_requires(recv, (0i64, 0u32)),
            never_signals(recv, (0i64, 0u32)),
            call_requires(decode, ()),
        ensures
            received(recv, (0i64, 0u32), decode, r),
    {
        self.receive_(None, None, recv, decode)
    }

    /// Same as `receive`, but waits at most `timeout` for a message.
    pub fn receive_timeout<R, D>(&self, timeout: Duration, recv: R, decode: D) -> (r: Result<T, ReceiveError>)
        where
            R: FnOnce(i64, u32) -> u32,
            D: FnOnce() -> Result<T, rmp_serde::decode::Error>,
        requires
            forall|ms: u32| ms >= 1 ==> call_requires(recv, (0i64, ms)),
            forall|ms: u32| ms >= 1 ==> never_signals(recv, (0i64, ms)),
            call_requires(decode, ()),
        ensures
            exists|millis: u128| received(recv, (0i64, #[trigger] wire_timeout(Some(millis))), decode, r),
    {
        let millis = whole_millis(&timeout);
        self.receive_(None, Some(millis), recv, decode)
    }

    /// Gets the next message from the mailbox together with the tag it was
    /// sent with, blocking until one arrives.
    pub fn receive_with_tag<R, D, G>(&self, recv: R, decode: D, tag_of: G) -> (r: Result<(T, Tag), ReceiveError>)
        where
            R: FnOnce(i64, u32) -> u32,
            D: FnOnce() -> Result<T, rmp_serde::decode::Error>,
            G: FnOnce() -> i64,
        requires
            call_requires(recv, (0i64, 0u32)),
            never_signals(recv, (0i64, 0u32)),
            call_requires(decode, ()),
            call_requires(tag_of, ()),
        ensures
            exists|d: u32|
                #[trigger] call_ensures(recv, (0i64, 0u32), d) && if d == TIMEOUT {
                    r == Err::<(T, Tag), ReceiveError>(ReceiveError::Timeout)
                } else {
                    exists|p: Result<T, rmp_serde::decode::Error>|
                        #[trigger] call_ensures(decode, (), p) && match p {
                            Ok(v) => exists|t: i64|
                                #[trigger] call_ensures(tag_of, (), t) && r == Ok::<(T, Tag), ReceiveError>((v, Tag { id: t })),
                            Err(e) => r == Err::<(T, Tag), ReceiveError>(ReceiveError::DeserializationFailed(e)),
                        }
                },
    {
        let message = match self.receive_(None, None, recv, decode) {
            Ok(m) => m,
            Err(e) => return Err(e),
        };
        let tag = tag_of();
        Ok((message, Tag::from(tag)))
    }

    /// Gets the next message carrying exactly `tag`, blocking until one
    /// arrives. Messages with other tags stay queued.
    pub fn tag_receive<R, D>(&self, tag: Tag, recv: R, decode: D) -> (r: Result<T, ReceiveError>)
        where
            R: FnOnce(i64, u32) -> u32,
            D: FnOnce() -> Result<T, rmp_serde::decode::Error>,
        requires
            call_requires(recv, (tag.id, 0u32)),
            never_signals(recv, (tag.id, 0u32)),
            call_requires(decode, ()),
        ensures
            received(recv, (tag.id, 0u32), decode, r),
    {
        self.receive_(Some(tag), None, recv, decode)
    }

    /// Same as `tag_receive`, but waits at most `timeout` for the message.
    pub fn tag_receive_timeout<R, D>(&self, tag: Tag, timeout: Duration, recv: R, decode: D) -> (r: Result<T, ReceiveError>)
        where
            R: FnOnce(i64, u32) -> u32,
            D: FnOnce() -> Result<T, rmp_serde::decode::Error>,
        requires
            forall|ms: u32| ms >= 1 ==> call_requires(recv, (tag.id, ms)),
            forall|ms: u32| ms >= 1 ==> never_signals(recv, (tag.id, ms)),
            call_requires(decode, ()),
        ensures
            exists|millis: u128| received(recv, (tag.id, #[trigger] wire_timeout(Some(millis))), decode, r),
    {
        let millis = whole_millis(&timeout);
        self.receive_(Some(tag), Some(millis), recv, decode)
    }

    /// The receive engine: asks the host once for the next message matching
    /// `tag` within `millis` milliseconds, and reads the answer.
    pub fn receive_<R, D>(&self, tag: Option<Tag>, millis: Option<u128>, recv: R, decode: D) -> (r: Result<T, ReceiveError>)
        where
            R: FnOnce(i64, u32) -> u32,
            D: FnOnce() -> Result<T, rmp_serde::decode::Error>,
        requires
            call_requires(recv, (wire_tag(tag), wire_timeout(millis))),
            never_signals(recv, (wire_tag(tag), wire_timeout(millis))),
            call_requires(decode, ()),
        ensures
            received(recv, (wire_tag(tag), wire_timeout(millis)), decode, r),
    {
        let t = host_tag(tag);
        let ms = host_timeout(millis);
        let d = recv(t, ms);
        match ready(d) {
            Ready::Expired => Err(ReceiveError::Timeout),
            Ready::Normal => {
                let p = decode();
                decode_outcome(p)
            },
            Ready::Signal => {
                proof {
                    assert(call_ensures(recv, (t, ms), d));
                }
                vstd::pervasive::unreached()
            },
        }
    }
}

/// Returned from a receive on a `LinkMailbox`: a normal outcome, or the
/// death signal of a linked peer.
#[derive(Debug)]
pub enum Message<T> {
    Normal(Result<T, ReceiveError>),
    Signal(Tag),
}

impl<T> Message<T> {
    pub open spec fn spec_is_signal(&self) -> bool {
        self is Signal
    }

    /// Returns true if the received message is a signal.
    pub fn is_signal(&self) -> (r: bool)
        ensures
            r == self.spec_is_signal(),
    {
        match self {
            Message::Normal(_) => false,
            Message::Signal(_) => true,
        }
    }

    /// Returns the normal outcome. Calling it on a signal is a broken
    /// assumption of the caller, and is ruled out.
    pub fn normal_or_unwrap(self) -> (r: Result<T, ReceiveError>)
        requires
            !self.spec_is_signal(),
        ensures
            self == Message::Normal(r),
    {
        match self {
            Message::Normal(message) => message,
            Message::Signal(_) => vstd::pervasive::unreached(),
        }
    }
}

/// Whether `r` is what a trapping receive returns when the host, asked with
/// `args`, answered through `recv`; `tag_of` gives the tag of a death signal
/// and `decode` the payload of a normal message.
pub open spec fn link_received<T, R, G, D>(recv: R, args: (i64, u32), tag_of: G, decode: D, r: Message<T>) -> bool
    where
        R: FnOnce(i64, u32) -> u32,
        G: FnOnce() -> i64,
        D: FnOnce() -> Result<T, rmp_serde::decode::Error>,
{
    exists|d: u32|
        #[trigger] call_ensures(recv, args, d) && if d == SIGNAL {
            exists|t: i64| #[trigger] call_ensures(tag_of, (), t) && r == Message::<T>::Signal(Tag { id: t })
        } else if d == TIMEOUT {
            r == Message::<T>::Normal(Err(ReceiveError::Timeout))
        } else {
            exists|p: Result<T, rmp_serde::decode::Error>|
                #[trigger] call_ensures(decode, (), p) && r == Message::Normal(normal_outcome(p))
        }
}

/// Mailbox of a process that traps the death of linked peers: such a death
/// arrives as a `Message::Signal`.
///
/// Only `TransformMailbox::catch_link_panic` makes one. The host service is
/// handed to each receive call as for `Mailbox`.
#[derive(Debug)]
pub struct LinkMailbox<T> {
    _phantom: PhantomData<T>,
}

impl<T> LinkMailbox<T> {
    pub(crate) fn new() -> (r: Self) {
        LinkMailbox { _phantom: PhantomData }
    }

    /// Gets the next message or signal, blocking until one arrives.
    pub fn receive<R, G, D>(&self, recv: R, tag_of: G, decode: D) -> (r: Message<T>)
        where
            R: FnOnce(i64, u32) -> u32,
            G: FnOnce() -> i64,
            D: FnOnce() -> Result<T, rmp_serde::decode::Error>,
        requires
            call_requires(recv, (0i64, 0u32)),
            call_requires(tag_of, ()),
            call_requires(decode, ()),
        ensures
            link_received(recv, (0i64, 0u32), tag_of, decode, r),
    {
        self.receive_(None, None, recv, tag_of, decode)
    }

    /// Same as `receive`, but waits at most `timeout`.
    pub fn receive_timeout<R, G, D>(&self, timeout: Duration, recv: R, tag_of: G, decode: D) -> (r: Message<T>)
        where
            R: FnOnce(i64, u32) -> u32,
            G: FnOnce() -> i64,
            D: FnOnce() -> Result<T, rmp_serde::decode::Error>,
        requires
            forall|ms: u32| ms >= 1 ==> call_requires(recv, (0i64, ms)),
            call_requires(tag_of, ()),
            call_requires(decode, ()),
        ensures
            exists|millis: u128| link_received(recv, (0i64, #[trigger] wire_timeout(Some(millis))), tag_of, decode, r),
    {
        let millis = whole_millis(&timeout);
        self.receive_(None, Some(millis), recv, tag_of, decode)
    }

    /// Gets the next message carrying exactly `tag`, or a signal, blocking
    /// until one arrives. Messages with other tags stay queued.
    pub fn tag_receive<R, G, D>(&self, tag: Tag, recv: R, tag_of: G, decode: D) -> (r: Message<T>)
        where
            R: FnOnce(i64, u32) -> u32,
            G: FnOnce() -> i64,
            D: FnOnce() -> Result<T, rmp_serde::decode::Error>,
        requires
            call_requires(recv, (tag.id, 0u32)),
            call_requires(tag_of, ()),
            call_requires(decode, ()),
        ensures
            link_received(recv, (tag.id, 0u32), tag_of, decode, r),
    {
        self.receive_(Some(tag), None, recv, tag_of, decode)
    }

    /// Same as `tag_receive`, but waits at most `timeout`.
    pub fn tag_receive_timeout<R, G, D>(&self, tag: Tag, timeout: Duration, recv: R, tag_of: G, decode: D) -> (r: Message<T>)
        where
            R: FnOnce(i64, u32) -> u32,
            G: FnOnce() -> i64,
            D: FnOnce() -> Result<T, rmp_serde::decode::Error>,
        requires
            forall|ms: u32| ms >= 1 ==> call_requires(recv, (tag.id, ms)),
            call_requires(tag_of, ()),
            call_requires(decode, ()),
        ensures
            exists|millis: u128| link_received(recv, (tag.id, #[trigger] wire_timeout(Some(millis))), tag_of, decode, r),
    {
        let millis = whole_millis(&timeout);
        self.receive_(Some(tag), Some(millis), recv, tag_of, decode)
    }

    /// The receive engine of a trapping process: asks the host once for the
    /// next message matching `tag` within `millis` milliseconds, and reads
    /// the answer.
    pub fn receive_<R, G, D>(&self, tag: Option<Tag>, millis: Option<u128>, recv: R, tag_of: G, decode: D) -> (r: Message<T>)
        where
            R: FnOnce(i64, u32) -> u32,
            G: FnOnce() -> i64,
            D: FnOnce() -> Result<T, rmp_serde::decode::Error>,
        requires
            call_requires(recv, (wire_tag(tag), wire_timeout(millis))),
            call_requires(tag_of, ()),
            call_requires(decode, ()),
        ensures
            link_received(recv, (wire_tag(tag), wire_timeout(millis)), tag_of, decode, r),
    {
        let t = host_tag(tag);
        let ms = host_timeout(millis);
        let d = recv(t, ms);
        match ready(d) {
            Ready::Signal => {
                let id = tag_of();
                Message::Signal(Tag::from(id))
            },
            Ready::Expired => Message::Normal(Err(ReceiveError::Timeout)),
            Ready::Normal => {
                let p = decode();
                Message::Normal(decode_outcome(p))
            },
        }
    }
}

/// A signal that was turned into a message.
#[derive(Clone, Copy, Debug)]
pub struct Signal {}

/// The process-wide link-mode flag that the host keeps.
#[derive(Clone, Copy, Debug, PartialEq, Eq, Structural)]
pub enum LinkMode {
    /// The death of a linked peer arrives as a signal message.
    Trap,
    /// The death of a linked peer ends this process.
    Terminate,
}

impl LinkMode {
    pub open spec fn spec_flag(self) -> u32 {
        match self {
            LinkMode::Trap => 0,
            LinkMode::Terminate => 1,
        }
    }

    /// The value that the host's "die when link dies" setting takes for
    /// this mode.
    pub fn flag(self) -> (r: u32)
        ensures
            r == self.spec_flag(),
    {
        match self {
            LinkMode::Trap => 0,
            LinkMode::Terminate => 1,
        }
    }
}

/// The link-mode flag after the host carries out `action` on `flag`.
pub open spec fn apply_mode(flag: LinkMode, action: Option<LinkMode>) -> LinkMode {
    match action {
        Some(m) => m,
        None => flag,
    }
}

/// The link mode that enabling trapping asks the host for, on a handle that
/// already traps (`traps`) or not.
pub open spec fn enable_trapping_action(traps: bool) -> Option<LinkMode> {
    if traps {
        None
    } else {
        Some(LinkMode::Trap)
    }
}

/// The link mode that disabling trapping asks the host for, on a handle that
/// traps (`traps`) or not.
pub open spec fn disable_trapping_action(traps: bool) -> Option<LinkMode> {
    if traps {
        Some(LinkMode::Terminate)
    } else {
        None
    }
}

/// Converts a mailbox handle into the handle of the other link mode. Each
/// method returns the new handle and the link mode that the host must be
/// set to, or `None` where the flag stays as it is.
pub trait TransformMailbox<T>: Sized {
    /// Turns the death of linked peers into signal messages.
    fn catch_link_panic(self) -> (r: (LinkMailbox<T>, Option<LinkMode>))
        ensures
            r.1 is None || r.1 == Some(LinkMode::Trap);

    /// Lets the death of a linked peer end this process.
    fn panic_if_link_panics(self) -> (r: (Mailbox<T>, Option<LinkMode>))
        ensures
            r.1 is None || r.1 == Some(LinkMode::Terminate);
}

impl<T> TransformMailbox<T> for Mailbox<T> {
    fn catch_link_panic(self) -> (r: (LinkMailbox<T>, Option<LinkMode>))
        ensures
            r.1 == enable_trapping_action(false),
    {
        (LinkMailbox::new(), Some(LinkMode::Trap))
    }

    fn panic_if_link_panics(self) -> (r: (Mailbox<T>, Option<LinkMode>))
        ensures
            r.1 == disable_trapping_action(false),
    {
        (self, None)
    }
}

impl<T> TransformMailbox<T> for LinkMailbox<T> {
    fn catch_link_panic(self) -> (r: (LinkMailbox<T>, Option<LinkMode>))
        ensures
            r.1 == enable_trapping_action(true),
    {
        (self, None)
    }

    fn panic_if_link_panics(self) -> (r: (Mailbox<T>, Option<LinkMode>))
        ensures
            r.1 == disable_trapping_action(true),
    {
        (Mailbox::new(), Some(LinkMode::Terminate))
    }
}

/// Enabling trapping on a non-trapping handle and then disabling it leaves
/// the link-mode flag as the non-trapping handle found it; converting a
/// handle into its own mode leaves the flag untouched.
pub proof fn lemma_trapping_round_trip(flag: LinkMode)
    requires
        flag == LinkMode::Terminate,
    ensures
        apply_mode(apply_mode(flag, enable_trapping_action(false)), disable_trapping_action(true)) == flag,
        forall|f: LinkMode| apply_mode(f, enable_trapping_action(true)) == f,
        forall|f: LinkMode| apply_mode(f, disable_trapping_action(false)) == f,
{
}

/// A zero wait and a wait of one millisecond ask the host for the same wait,
/// and that wait is one millisecond, never zero; so a receive with either
/// bound gives the same outcome.
pub proof fn lemma_zero_wait_rounds_up<T, R, D>(tag: i64, recv: R, decode: D, r: Result<T, ReceiveError>)
    where
        R: FnOnce(i64, u32) -> u32,
        D: FnOnce() -> Result<T, rmp_serde::decode::Error>,
    ensures
        wire_timeout(Some(0)) == 1,
        wire_timeout(Some(1)) == 1,
        received(recv, (tag, wire_timeout(Some(0))), decode, r) == received(recv, (tag, wire_timeout(Some(1))), decode, r),
{
}

} // verus!
