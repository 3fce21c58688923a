use std::cell::RefCell;
use std::rc::Rc;

use racegate::app::SystemState;
use racegate::svc::fanout::SendError;
use racegate::svc::fanout::StateSenders;
use racegate::svc::fanout::Subscriber;

/// A test sink that records every frame it is sent.
struct RecordingSubscriber {
    closed: bool,
    fail: bool,
    frames: Rc<RefCell<Vec<Vec<u8>>>>,
}

impl RecordingSubscriber {
    fn new(closed: bool, fail: bool) -> (Self, Rc<RefCell<Vec<Vec<u8>>>>) {
        let frames = Rc::new(RefCell::new(Vec::new()));
        (
            RecordingSubscriber {
                closed,
                fail,
                frames: Rc::clone(&frames),
            },
            frames,
        )
    }
}

impl Subscriber for RecordingSubscriber {
    fn is_closed(&self) -> bool {
        self.closed
    }

    fn send_binary(&mut self, data: &[u8]) -> Result<(), SendError> {
        if self.fail {
            Err(SendError)
        } else {
            self.frames.borrow_mut().push(data.to_vec());
            Ok(())
        }
    }
}

#[test]
fn test_send_reaches_every_live_subscriber() {
    let (a, a_frames) = RecordingSubscriber::new(false, false);
    let (b, b_frames) = RecordingSubscriber::new(false, false);
    let mut senders = StateSenders::new();
    senders.add(a);
    senders.add(b);
    let errs = senders.send(&SystemState::default());
    assert_eq!(errs, 0);
    assert_eq!(a_frames.borrow().len(), 1);
    assert_eq!(b_frames.borrow().len(), 1);
    let frame = a_frames.borrow()[0].clone();
    let text = String::from_utf8(frame).unwrap();
    assert!(text.starts_with("{\"time\":0,"));
}

#[test]
fn test_send_skips_closed_and_counts_failures() {
    let (closed, closed_frames) = RecordingSubscriber::new(true, false);
    let (failing, _) = RecordingSubscriber::new(false, true);
    let (live, live_frames) = RecordingSubscriber::new(false, false);
    let mut senders = StateSenders::new();
    senders.add(closed);
    senders.add(failing);
    senders.add(live);
    let errs = senders.send(&SystemState::default());
    assert_eq!(errs, 1);
    assert_eq!(closed_frames.borrow().len(), 0);
    assert_eq!(live_frames.borrow().len(), 1);
}

#[test]
fn test_cleanup_reaps_closed_subscribers() {
    let (closed, _) = RecordingSubscriber::new(true, false);
    let (live, _) = RecordingSubscriber::new(false, false);
    let mut senders = StateSenders::new();
    senders.add(closed);
    senders.add(live);
    assert_eq!(senders.len(), 2);
    senders.cleanup_closed();
    assert_eq!(senders.len(), 1);
}

#[test]
fn test_tick_without_state_only_reaps() {
    let (closed, _) = RecordingSubscriber::new(true, false);
    let (live, live_frames) = RecordingSubscriber::new(false, false);
    let mut senders = StateSenders::new();
    senders.add(closed);
    senders.add(live);
    let errs = senders.tick(None);
    assert_eq!(errs, 0);
    assert_eq!(senders.len(), 1);
    assert_eq!(live_frames.borrow().len(), 0);
    let errs = senders.tick(Some(&SystemState::default()));
    assert_eq!(errs, 0);
    assert_eq!(live_frames.borrow().len(), 1);
}
