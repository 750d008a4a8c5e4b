//! Blocking, unbounded FIFO channel between threads.
use vstd::prelude::*;

use std::collections::LinkedList;
use std::sync::{Arc, Condvar, Mutex};

verus! {

/// A queue shared between threads, behind a lock, with a signal for waiting readers.
/// Other threads change its contents at any time, so nothing is stated about them.
#[derive(Debug)]
#[verifier::external_body]
#[verifier::reject_recursive_types(T)]
struct Queue<T> {
    shared: Arc<(Mutex<LinkedList<T>>, Condvar)>,
}

impl<T> Queue<T> {
    /// Relies on Arc::new, Mutex::new, Condvar::new: a fresh, empty shared queue.
    #[verifier::external_body]
    fn create() -> Queue<T> {
        Queue { shared: Arc::new((Mutex::new(LinkedList::new()), Condvar::new())) }
    }

    /// Relies on Arc::clone: a second handle to the same queue.
    #[verifier::external_body]
    fn share(&self) -> Queue<T> {
        Queue { shared: Arc::clone(&self.shared) }
    }

    /// Relies on Mutex::lock, LinkedList::push_back and Condvar::notify_one: appends
    /// under the lock and wakes one waiting reader.
    #[verifier::external_body]
    fn push_back(&self, t: T) {
        let mut list = self.shared.0.lock().unwrap();
        list.push_back(t);
        self.shared.1.notify_one();
    }

    /// Relies on Mutex::lock and LinkedList::is_empty.
    #[verifier::external_body]
    fn is_empty(&self) -> bool {
        self.shared.0.lock().unwrap().is_empty()
    }

    /// Relies on Mutex::lock and LinkedList::clear.
    #[verifier::external_body]
    fn clear(&self) {
        self.shared.0.lock().unwrap().clear();
    }

    /// Relies on Mutex::lock, Condvar::wait and LinkedList::pop_front: waits until
    /// the queue holds a value and takes the oldest.
    #[verifier::external_body]
    fn pop_front(&self) -> T {
        let mut list = self.shared.0.lock().unwrap();
        while list.is_empty() {
            list = self.shared.1.wait(list).unwrap();
        }
        list.pop_front().unwrap()
    }
}

/// The state shared by the two ends of a channel.
#[derive(Debug)]
#[verifier::reject_recursive_types(T)]
pub struct Channel<T> {
    queue: Queue<T>,
}

impl<T> Clone for Channel<T> {
    fn clone(&self) -> Self {
        Channel { queue: self.queue.share() }
    }
}

/// The sending end of a channel; it can be cloned.
#[derive(Debug)]
#[verifier::reject_recursive_types(T)]
pub struct Sender<T> {
    channel: Channel<T>,
}

impl<T> Clone for Sender<T> {
    fn clone(&self) -> Self {
        Sender { channel: self.channel.clone() }
    }
}

/// The receiving end of a channel.
#[derive(Debug)]
#[verifier::reject_recursive_types(T)]
pub struct Receiver<T> {
    channel: Channel<T>,
}

impl<T> Sender<T> {
    /// Appends `t` to the channel and wakes a waiting receiver; never blocks.
    pub fn send(&self, t: T) {
        self.channel.queue.push_back(t);
    }
}

impl<T> Receiver<T> {
    /// Whether a value is waiting.
    pub fn avaliable(&self) -> bool {
        !self.channel.queue.is_empty()
    }

    /// Drops every waiting value.
    pub fn clear(&self) {
        self.channel.queue.clear();
    }

    /// Takes the oldest value, waiting for one to be sent if there is none.
    pub fn recv(&self) -> T {
        self.channel.queue.pop_front()
    }
}

/// A new channel: the two ends of one empty queue.
pub fn channel<T>() -> (Sender<T>, Receiver<T>) {
    let channel: Channel<T> = Channel { queue: Queue::create() };
    (Sender { channel: channel.clone() }, Receiver { channel })
}

} // verus!
