use std::cell::RefCell;
use std::collections::VecDeque;
use std::time::Duration;

use lunatic_mailbox::mailbox::{
    decode_outcome, host_tag, host_timeout, ready, LinkMailbox, LinkMode, Mailbox, Message,
    Ready, ReceiveError, Signal, TransformMailbox, SIGNAL, TIMEOUT,
};
use lunatic_mailbox::tag::Tag;

/// A stand-in for the host's message service: a queue of tagged entries,
/// where death signals are delivered before normal messages.
struct FakeHost {
    queue: RefCell<VecDeque<(i64, bool, Vec<u8>)>>,
    current: RefCell<(i64, Vec<u8>)>,
    asked: RefCell<Vec<(i64, u32)>>,
}

impl FakeHost {
    fn new() -> Self {
        FakeHost {
            queue: RefCell::new(VecDeque::new()),
            current: RefCell::new((0, Vec::new())),
            asked: RefCell::new(Vec::new()),
        }
    }

    fn send<P: serde::Serialize>(&self, tag: i64, payload: &P) {
        let bytes = rmp_serde::to_vec(payload).unwrap();
        self.queue.borrow_mut().push_back((tag, false, bytes));
    }

    fn peer_died(&self, tag: i64) {
        self.queue.borrow_mut().push_back((tag, true, Vec::new()));
    }

    fn receive(&self, tag: i64, timeout_ms: u32) -> u32 {
        self.asked.borrow_mut().push((tag, timeout_ms));
        let mut queue = self.queue.borrow_mut();
        let pos = queue
            .iter()
            .position(|e| e.1)
            .or_else(|| queue.iter().position(|e| tag == 0 || e.0 == tag));
        match pos {
            Some(i) => {
                let (t, signal, bytes) = queue.remove(i).unwrap();
                *self.current.borrow_mut() = (t, bytes);
                if signal {
                    SIGNAL
                } else {
                    0
                }
            }
            None => {
                assert!(timeout_ms != 0, "a blocking receive on an empty queue");
                TIMEOUT
            }
        }
    }

    fn tag(&self) -> i64 {
        self.current.borrow().0
    }

    fn decode<P: serde::de::DeserializeOwned>(&self) -> Result<P, rmp_serde::decode::Error> {
        let bytes = self.current.borrow().1.clone();
        rmp_serde::from_read(&bytes[..])
    }

    fn last_asked(&self) -> (i64, u32) {
        *self.asked.borrow().last().unwrap()
    }

    fn len(&self) -> usize {
        self.queue.borrow().len()
    }
}

fn link_mailbox<T>() -> LinkMailbox<T> {
    let (link, action) = Mailbox::<T>::new().catch_link_panic();
    assert_eq!(action, Some(LinkMode::Trap));
    link
}

#[test]
fn tagged_receive_skips_earlier_message() {
    let host = FakeHost::new();
    host.send(11, &"a".to_string());
    host.send(22, &"b".to_string());
    let mailbox: Mailbox<String> = Mailbox::new();
    let b = mailbox.tag_receive(Tag::from(22), |t, ms| host.receive(t, ms), || host.decode());
    assert_eq!(b.unwrap(), "b");
    assert_eq!(host.last_asked(), (22, 0));
    let a = mailbox.receive(|t, ms| host.receive(t, ms), || host.decode());
    assert_eq!(a.unwrap(), "a");
    assert_eq!(host.last_asked(), (0, 0));
    assert_eq!(host.len(), 0);
}

#[test]
fn zero_and_sub_millisecond_waits_become_one_millisecond() {
    let host = FakeHost::new();
    let mailbox: Mailbox<u64> = Mailbox::new();
    let r = mailbox.receive_timeout(Duration::ZERO, |t, ms| host.receive(t, ms), || host.decode());
    assert!(matches!(r, Err(ReceiveError::Timeout)));
    assert_eq!(host.last_asked(), (0, 1));
    let r = mailbox.receive_timeout(Duration::from_micros(1), |t, ms| host.receive(t, ms), || host.decode());
    assert!(matches!(r, Err(ReceiveError::Timeout)));
    assert_eq!(host.last_asked(), (0, 1));
    let r = mailbox.receive_timeout(Duration::from_millis(1), |t, ms| host.receive(t, ms), || host.decode());
    assert!(matches!(r, Err(ReceiveError::Timeout)));
    assert_eq!(host.last_asked(), (0, 1));
}

#[test]
fn timeout_is_sent_in_whole_milliseconds() {
    let host = FakeHost::new();
    let mailbox: Mailbox<u64> = Mailbox::new();
    let r = mailbox.tag_receive_timeout(
        Tag::from(5),
        Duration::from_micros(250_700),
        |t, ms| host.receive(t, ms),
        || host.decode(),
    );
    assert!(matches!(r, Err(ReceiveError::Timeout)));
    assert_eq!(host.last_asked(), (5, 250));
}

#[test]
fn host_wait_values() {
    assert_eq!(host_timeout(None), 0);
    assert_eq!(host_timeout(Some(0)), 1);
    assert_eq!(host_timeout(Some(1)), 1);
    assert_eq!(host_timeout(Some(1500)), 1500);
    assert_eq!(host_timeout(Some(u32::MAX as u128)), u32::MAX);
    assert_eq!(host_timeout(Some(1u128 << 40)), u32::MAX);
}

#[test]
fn wildcard_and_zero_tag_are_sent_alike() {
    assert_eq!(host_tag(None), 0);
    assert_eq!(host_tag(Some(Tag::from(0))), 0);
    assert_eq!(host_tag(Some(Tag::from(-9))), -9);
    assert_eq!(Tag::from(42).id(), 42);
}

#[test]
fn discriminators_are_classified() {
    assert_eq!(ready(SIGNAL), Ready::Signal);
    assert_eq!(ready(TIMEOUT), Ready::Expired);
    assert_eq!(ready(0), Ready::Normal);
    assert_eq!(ready(2), Ready::Normal);
}

#[test]
fn death_signal_leaves_queued_message() {
    let host = FakeHost::new();
    host.send(3, &17u64);
    host.peer_died(7);
    let link: LinkMailbox<u64> = link_mailbox();
    let m = link.receive(|t, ms| host.receive(t, ms), || host.tag(), || host.decode());
    assert!(m.is_signal());
    match m {
        Message::Signal(tag) => assert_eq!(tag.id(), 7),
        Message::Normal(_) => panic!("expected a signal"),
    }
    let m = link.tag_receive(Tag::from(3), |t, ms| host.receive(t, ms), || host.tag(), || host.decode());
    assert!(!m.is_signal());
    assert_eq!(m.normal_or_unwrap().unwrap(), 17);
}

#[test]
fn trapping_receive_times_out() {
    let host = FakeHost::new();
    let link: LinkMailbox<u64> = link_mailbox();
    let m = link.receive_timeout(Duration::from_millis(30), |t, ms| host.receive(t, ms), || host.tag(), || host.decode());
    assert!(matches!(m, Message::Normal(Err(ReceiveError::Timeout))));
    assert_eq!(host.last_asked(), (0, 30));
    let m = link.tag_receive_timeout(Tag::from(4), Duration::ZERO, |t, ms| host.receive(t, ms), || host.tag(), || host.decode());
    assert!(matches!(m, Message::Normal(Err(ReceiveError::Timeout))));
    assert_eq!(host.last_asked(), (4, 1));
}

#[test]
fn trapping_round_trip_restores_flag() {
    let mut flag = LinkMode::Terminate;
    let (link, action) = Mailbox::<u64>::new().catch_link_panic();
    assert_eq!(action, Some(LinkMode::Trap));
    if let Some(mode) = action {
        flag = mode;
    }
    assert_eq!(flag.flag(), 0);
    let (link, action) = link.catch_link_panic();
    assert_eq!(action, None);
    let (mailbox, action) = link.panic_if_link_panics();
    assert_eq!(action, Some(LinkMode::Terminate));
    if let Some(mode) = action {
        flag = mode;
    }
    assert_eq!(flag, LinkMode::Terminate);
    assert_eq!(flag.flag(), 1);
    let (_mailbox, action) = mailbox.panic_if_link_panics();
    assert_eq!(action, None);
}

#[test]
fn decode_failure_leaves_mailbox_usable() {
    let host = FakeHost::new();
    host.send(0, &"not a number".to_string());
    host.send(0, &99u64);
    let mailbox: Mailbox<u64> = Mailbox::new();
    let r = mailbox.receive(|t, ms| host.receive(t, ms), || host.decode());
    assert!(matches!(r, Err(ReceiveError::DeserializationFailed(_))));
    let r = mailbox.receive(|t, ms| host.receive(t, ms), || host.decode());
    assert_eq!(r.unwrap(), 99);
}

#[test]
fn trapping_decode_failure() {
    let host = FakeHost::new();
    host.send(0, &(1u8, "x".to_string()));
    let link: LinkMailbox<bool> = link_mailbox();
    let m = link.receive(|t, ms| host.receive(t, ms), || host.tag(), || host.decode());
    assert!(!m.is_signal());
    assert!(matches!(m.normal_or_unwrap(), Err(ReceiveError::DeserializationFailed(_))));
}

#[test]
fn normal_unwrap_returns_payload() {
    let m: Message<String> = Message::Normal(Ok("hello".to_string()));
    assert!(!m.is_signal());
    assert_eq!(m.normal_or_unwrap().unwrap(), "hello");
    let s: Message<String> = Message::Signal(Tag::from(8));
    assert!(s.is_signal());
}

#[test]
fn receive_with_tag_reports_sender_tag() {
    let host = FakeHost::new();
    host.send(123, &vec![1u8, 2, 3]);
    let mailbox: Mailbox<Vec<u8>> = Mailbox::new();
    let (payload, tag) = mailbox
        .receive_with_tag(|t, ms| host.receive(t, ms), || host.decode(), || host.tag())
        .unwrap();
    assert_eq!(payload, vec![1, 2, 3]);
    assert_eq!(tag, Tag::from(123));
}

#[test]
fn decode_outcome_maps_errors() {
    let ok: Result<u64, rmp_serde::decode::Error> = Ok(5);
    assert_eq!(decode_outcome(ok).unwrap(), 5);
    let bad: Result<u64, rmp_serde::decode::Error> = rmp_serde::from_slice(&[0xc1]);
    assert!(matches!(decode_outcome(bad), Err(ReceiveError::DeserializationFailed(_))));
}

#[test]
fn signal_marker_is_copy() {
    let s = Signal {};
    let t = s;
    let _ = (s, t);
}
