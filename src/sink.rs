use vstd::prelude::*;

verus! {

/// Default number of clips buffered before a flush is forced.
pub const BUFFER_CAP: usize = 128;

/// Milliseconds to pause when nothing is buffered and nothing has arrived.
pub const IDLE_SLEEP_MS: u64 = 50;

/// What the single consumer does next.
pub enum SinkAction<T> {
    /// Poll the inbound channel again at once.
    Poll,
    /// Nothing buffered, nothing arrived: pause for `IDLE_SLEEP_MS`, then poll.
    Sleep,
    /// Write this batch in one transaction, then poll again.
    Flush(Vec<T>),
    /// Write this last batch in one transaction, then stop.
    FlushAndStop(Vec<T>),
    /// Stop without writing anything more.
    Stop,
}

/// The buffer of the store consumer and its flush policy: a batch is written
/// as soon as the buffer is full, when the inbound channel runs dry, and once
/// more when it closes.
pub struct Sink<T> {
    buffer: Vec<T>,
    cap: usize,
}

impl<T> Sink<T> {
    /// Items received and not yet handed out in a batch, oldest first.
    pub closed spec fn buffered(&self) -> Seq<T> {
        self.buffer@
    }

    pub closed spec fn cap_spec(&self) -> nat {
        self.cap as nat
    }

    pub closed spec fn wf(&self) -> bool {
        &&& self.cap >= 1
        &&& self.buffer@.len() < self.cap
    }

    pub fn new(cap: usize) -> (r: Sink<T>)
        requires
            cap >= 1,
        ensures
            r.wf(),
            r.cap_spec() == cap,
            r.buffered().len() < r.cap_spec(),
            r.buffered() == Seq::<T>::empty(),
    {
        Sink { buffer: Vec::new(), cap }
    }

    pub fn cap(&self) -> (r: usize)
        ensures
            r == self.cap_spec(),
    {
        self.cap
    }

    pub fn len(&self) -> (r: usize)
        ensures
            r == self.buffered().len(),
    {
        self.buffer.len()
    }

    /// Hands out everything buffered.
    fn take_all(&mut self) -> (r: Vec<T>)
        ensures
            r@ == old(self).buffer@,
            final(self).buffer@ == Seq::<T>::empty(),
            final(self).cap == old(self).cap,
    {
        let mut batch: Vec<T> = Vec::new();
        batch.append(&mut self.buffer);
        batch
    }

    /// An item arrived: it is buffered, and the buffer is flushed at once if
    /// that filled it, whatever else is waiting in the channel.
    pub fn on_received(&mut self, item: T) -> (r: SinkAction<T>)
        requires
            old(self).wf(),
        ensures
            final(self).wf(),
            final(self).cap_spec() == old(self).cap_spec(),
            final(self).buffered().len() < final(self).cap_spec(),
            old(self).buffered().len() + 1 == old(self).cap_spec() ==> {
                &&& (r matches SinkAction::Flush(batch) && batch@ == old(self).buffered().push(item))
                &&& final(self).buffered() == Seq::<T>::empty()
            },
            old(self).buffered().len() + 1 < old(self).cap_spec() ==> {
                &&& r is Poll
                &&& final(self).buffered() == old(self).buffered().push(item)
            },
    {
        self.buffer.push(item);
        if self.buffer.len() >= self.cap {
            SinkAction::Flush(self.take_all())
        } else {
            SinkAction::Poll
        }
    }

    /// The channel is empty for now: a quiet period ends the batch, if any.
    pub fn on_empty(&mut self) -> (r: SinkAction<T>)
        requires
            old(self).wf(),
        ensures
            final(self).wf(),
            final(self).cap_spec() == old(self).cap_spec(),
            final(self).buffered().len() < final(self).cap_spec(),
            final(self).buffered() == Seq::<T>::empty(),
            old(self).buffered().len() == 0 ==> r is Sleep,
            old(self).buffered().len() > 0 ==> (r matches SinkAction::Flush(batch) && batch@ == old(self).buffered()),
    {
        if self.buffer.len() == 0 {
            SinkAction::Sleep
        } else {
            SinkAction::Flush(self.take_all())
        }
    }

    /// The channel is closed for good: the rest is flushed and the consumer stops.
    pub fn on_closed(&mut self) -> (r: SinkAction<T>)
        requires
            old(self).wf(),
        ensures
            final(self).wf(),
            final(self).cap_spec() == old(self).cap_spec(),
            final(self).buffered().len() < final(self).cap_spec(),
            final(self).buffered() == Seq::<T>::empty(),
            r matches SinkAction::FlushAndStop(batch) && batch@ == old(self).buffered(),
    {
        SinkAction::FlushAndStop(self.take_all())
    }

    /// A write failed: nothing more is persisted in this run, so whatever is
    /// buffered is dropped and the consumer stops.
    pub fn on_flush_failed(&mut self) -> (r: SinkAction<T>)
        requires
            old(self).wf(),
        ensures
            final(self).wf(),
            final(self).cap_spec() == old(self).cap_spec(),
            final(self).buffered().len() < final(self).cap_spec(),
            final(self).buffered() == Seq::<T>::empty(),
            r is Stop,
    {
        self.buffer.clear();
        SinkAction::Stop
    }
}

} // verus!
