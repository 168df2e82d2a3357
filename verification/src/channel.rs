//! The job channel: an unbounded first-in first-out queue of pending jobs
//! with a sending side that can be closed once.

use std::collections::VecDeque;
use vstd::prelude::*;

verus! {

/// The mathematical content of a [`JobChannel`].
pub struct ChannelView<J> {
    /// The jobs that were sent and not yet received, oldest first.
    pub pending: Seq<J>,
    /// Whether the sending side still exists.
    pub open: bool,
}

impl<J> ChannelView<J> {
    /// What a receive attempt yields on this channel.
    pub open spec fn front(self) -> Received<J> {
        if self.pending.len() > 0 {
            Received::Job(self.pending[0])
        } else if self.open {
            Received::Empty
        } else {
            Received::Closed
        }
    }

    /// The channel after a receive attempt.
    pub open spec fn after_recv(self) -> Self {
        if self.pending.len() > 0 {
            ChannelView { pending: self.pending.drop_first(), open: self.open }
        } else {
            self
        }
    }
}

/// What a receive attempt on a [`JobChannel`] yields.
pub enum Received<J> {
    /// The oldest pending job, now removed from the queue.
    Job(J),
    /// Nothing is pending and the sending side is open: the receiver has to
    /// wait.
    Empty,
    /// Nothing is pending and the sending side is closed: nothing will ever
    /// arrive.
    Closed,
}

/// An unbounded queue of jobs, received in the order in which they were sent.
pub struct JobChannel<J> {
    queue: VecDeque<J>,
    open: bool,
}

impl<J> View for JobChannel<J> {
    type V = ChannelView<J>;

    closed spec fn view(&self) -> ChannelView<J> {
        ChannelView { pending: self.queue@, open: self.open }
    }
}

impl<J> JobChannel<J> {
    /// An open channel with nothing pending.
    pub fn new() -> (channel: Self)
        ensures
            channel@.open,
            channel@.pending == Seq::<J>::empty(),
    {
        JobChannel { queue: VecDeque::new(), open: true }
    }

    /// Whether the sending side still exists.
    pub fn is_open(&self) -> (open: bool)
        ensures
            open == self@.open,
    {
        self.open
    }

    /// The number of pending jobs.
    pub fn len(&self) -> (n: usize)
        ensures
            n == self@.pending.len(),
    {
        self.queue.len()
    }

    /// Appends `job` behind every pending job. A closed channel takes
    /// nothing: it stays as it is and the job comes back in `Err`.
    pub fn send(&mut self, job: J) -> (sent: Result<(), J>)
        ensures
            old(self)@.open ==> sent == Ok::<(), J>(()) && final(self)@ == (ChannelView {
                pending: old(self)@.pending.push(job),
                open: true,
            }),
            !old(self)@.open ==> sent == Err::<(), J>(job) && final(self)@ == old(self)@,
    {
        if self.open {
            self.queue.push_back(job);
            Ok(())
        } else {
            Err(job)
        }
    }

    /// Takes the oldest pending job, if there is one. Otherwise the channel
    /// is unchanged and the result tells an open channel from a closed one.
    pub fn recv(&mut self) -> (received: Received<J>)
        ensures
            received == old(self)@.front(),
            final(self)@ == old(self)@.after_recv(),
    {
        match self.queue.pop_front() {
            Some(job) => Received::Job(job),
            None => {
                if self.open {
                    Received::Empty
                } else {
                    Received::Closed
                }
            },
        }
    }

    /// Closes the sending side. What is pending stays; closing twice changes
    /// nothing more.
    pub fn close(&mut self)
        ensures
            final(self)@ == (ChannelView { pending: old(self)@.pending, open: false }),
    {
        self.open = false;
    }
}

} // verus!
