//! Fan-out of events: every event sent to the manager is passed on to each receiver that
//! was created from it. Which events a receiver sees depends on the other threads, so
//! nothing is stated of the channels; the forwarding of one event is `forward_one`, and a
//! thread of the firmware calls it in a loop.
use vstd::prelude::*;
use std::sync::mpsc::{Receiver, Sender};
use std::sync::{Arc, Mutex};
use crate::sync::{
    channel, clone_sender, guarded_clone, guarded_push, guarded_recv, lock, mutex, send,
};

verus! {

/// Queues for event processing: one channel into the manager and one out of it for each
/// receiver.
#[verifier::reject_recursive_types(T)]
pub struct EventManager<T> {
    senders: Arc<Mutex<Vec<Sender<T>>>>,
    receiver: Arc<Mutex<Receiver<T>>>,
    sender: Sender<T>,
}

impl<T: Clone> EventManager<T> {
    /// A manager with no receivers.
    pub fn new() -> Self {
        let (sender, receiver) = channel();
        EventManager {
            senders: Arc::new(mutex(Vec::new())),
            receiver: Arc::new(mutex(receiver)),
            sender,
        }
    }

    /// A sender into the manager.
    pub fn create_sender(&self) -> Sender<T> {
        clone_sender(&self.sender)
    }

    /// A receiver of every event sent to the manager from now on.
    pub fn create_receiver(&self) -> Receiver<T> {
        let (sender, receiver) = channel();
        let mut senders = lock(&*self.senders);
        guarded_push(&mut senders, sender);
        receiver
    }

    /// Waits for the next event and passes a copy of it to each receiver, in the order in
    /// which they were created. False when the manager's channel is closed or a receiver
    /// is gone (the firmware stops forwarding then); the receivers after that one do not
    /// get the event.
    pub fn forward_one(&self) -> bool {
        let event = {
            let receiver = lock(&*self.receiver);
            match guarded_recv(&receiver) {
                Some(e) => e,
                None => return false,
            }
        };
        let guard = lock(&*self.senders);
        let senders = guarded_clone(&guard);
        let mut i: usize = 0;
        while i < senders.len()
            decreases senders.len() - i,
        {
            if send(&senders[i], event.clone()).is_err() {
                return false;
            }
            i += 1;
        }
        true
    }
}

} // verus!
