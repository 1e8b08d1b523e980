//! Latest-value broadcast channel.
//!
//! A channel has exactly one writer and a bounded number of readers, all
//! created at startup. A publish overwrites the stored value and bumps a
//! generation counter; it never blocks and never fails. A reader either
//! peeks at the current value without touching its cursor (`try_read`), or
//! takes the newest value it has not yet observed and advances its cursor
//! (`poll_change`). In the running system a reader that has seen everything
//! suspends until the next publish; here that suspension point is modelled
//! by `poll_change` returning `None`, and the task driving the loop retries
//! after the next wake-up. Values published between two observations are
//! lost by design: only the most recent one is ever delivered.
//!
//! The whole publish history is carried as a ghost sequence, so contracts
//! and lemmas can speak about which publish a delivered value came from: the
//! generation counter equals the history's length, and the stored value is
//! its last element.

use vstd::prelude::*;

verus! {

/// The bound on readers per channel; creating more fails.
pub const MAX_READERS: u8 = 3;

/// The value a non-waiting read delivers: nothing before the first publish,
/// afterwards always the most recent publish, whatever any cursor says.
pub open spec fn latest_value<T>(history: Seq<T>) -> Option<T> {
    if history.len() == 0 {
        None
    } else {
        Some(history.last())
    }
}

/// The value a waiting read delivers once resumed: the most recent publish,
/// provided at least one publish happened past the reader's cursor; `None`
/// stands for the reader still being suspended.
pub open spec fn fresh_value<T>(history: Seq<T>, cursor: nat) -> Option<T> {
    if cursor < history.len() {
        Some(history.last())
    } else {
        None
    }
}

/// Where a waiting read leaves the reader's cursor: at the generation it
/// observed, or where it was if nothing new had been published.
pub open spec fn cursor_after<T>(history: Seq<T>, cursor: nat) -> nat {
    if cursor < history.len() {
        history.len()
    } else {
        cursor
    }
}

/// A single-writer, multi-reader, latest-value-wins channel.
pub struct Channel<T: Copy> {
    value: Option<T>,
    generation: u64,
    readers: u8,
    history: Ghost<Seq<T>>,
}

/// One reader's handle: remembers the last generation it observed.
pub struct ChannelReader {
    last_seen: u64,
}

impl ChannelReader {
    /// The generation this reader has observed everything up to.
    pub closed spec fn cursor(&self) -> nat {
        self.last_seen as nat
    }
}

impl<T: Copy> Channel<T> {
    /// Every value ever published to this channel, oldest first.
    pub closed spec fn publishes(&self) -> Seq<T> {
        self.history@
    }

    /// How many reader handles have been created so far.
    pub closed spec fn readers_created(&self) -> nat {
        self.readers as nat
    }

    /// The stored value is the last publish, the generation counter is the
    /// number of publishes, and the reader bound is respected.
    pub closed spec fn wf(&self) -> bool {
        &&& self.generation == self.history@.len()
        &&& self.value == latest_value(self.history@)
        &&& self.readers <= MAX_READERS
    }

    /// A fresh channel: nothing published, no readers yet.
    pub fn new() -> (c: Channel<T>)
        ensures
            c.wf(),
            c.publishes() == Seq::<T>::empty(),
            c.readers_created() == 0,
    {
        Channel { value: None, generation: 0, readers: 0, history: Ghost(Seq::empty()) }
    }

    /// Hands out one more reader handle, with its cursor at generation zero,
    /// so that an already-published value counts as unobserved. Fails
    /// exactly when the reader bound is already reached; nothing else about
    /// the channel changes.
    pub fn add_reader(&mut self) -> (r: Option<ChannelReader>)
        requires
            old(self).wf(),
        ensures
            final(self).wf(),
            final(self).publishes() == old(self).publishes(),
            r is Some <==> old(self).readers_created() < MAX_READERS,
            r matches Some(reader) ==> {
                &&& reader.cursor() == 0
                &&& final(self).readers_created() == old(self).readers_created() + 1
            },
            r is None ==> final(self).readers_created() == old(self).readers_created(),
    {
        if self.readers < MAX_READERS {
            self.readers = self.readers + 1;
            Some(ChannelReader { last_seen: 0 })
        } else {
            None
        }
    }

    /// Overwrites the stored value and bumps the generation: the new value
    /// is appended to the publish history. Never blocks, never fails; any
    /// not-yet-observed previous value is overwritten for every reader. The
    /// one machine limit is the 64-bit generation counter, which cannot wrap.
    pub fn publish(&mut self, v: T)
        requires
            old(self).wf(),
            old(self).publishes().len() < u64::MAX,
        ensures
            final(self).wf(),
            final(self).publishes() == old(self).publishes().push(v),
            final(self).readers_created() == old(self).readers_created(),
    {
        self.value = Some(v);
        self.generation = self.generation + 1;
        self.history = Ghost(self.history@.push(v));
    }

    /// Returns the current value without waiting and without touching any
    /// cursor: `None` before the first publish, afterwards the most recent
    /// publish.
    pub fn try_read(&self) -> (r: Option<T>)
        requires
            self.wf(),
        ensures
            r == latest_value(self.publishes()),
    {
        self.value
    }

    /// One resumption of a waiting read: if anything was published past the
    /// reader's cursor, delivers the most recent value and advances the
    /// cursor to the current generation; otherwise delivers nothing and the
    /// cursor stays, which models the reader remaining suspended.
    pub fn poll_change(&self, reader: &mut ChannelReader) -> (r: Option<T>)
        requires
            self.wf(),
        ensures
            r == fresh_value(self.publishes(), old(reader).cursor()),
            final(reader).cursor() == cursor_after(self.publishes(), old(reader).cursor()),
    {
        if reader.last_seen < self.generation {
            reader.last_seen = self.generation;
            self.value
        } else {
            None
        }
    }
}

/// Channel ordering: when a waiting reader resumes, the value delivered is
/// the single most recent publish, its generation is strictly greater than
/// the reader's last observed one, and no other (intermediate) publish is
/// ever delivered; the cursor then sits at the delivering generation, so the
/// same publish is never delivered twice.
pub proof fn lemma_channel_ordering<T>(history: Seq<T>, cursor: nat)
    requires
        cursor < history.len(),
    ensures
        fresh_value(history, cursor) == Some(history.last()),
        cursor_after(history, cursor) == history.len(),
        forall|i: int| 0 <= i < history.len() - 1 ==> fresh_value(history, cursor) != Some(#[trigger] history[i]) || history[i] == history.last(),
        fresh_value(history, cursor_after(history, cursor)) == None::<T>,
{
}

/// Channel reads never deliver stale data: before any publish a non-waiting
/// read yields nothing, and after any publish it yields exactly that newest
/// value, whatever any reader's cursor says.
pub proof fn lemma_try_read_latest<T>(history: Seq<T>, v: T)
    ensures
        latest_value(Seq::<T>::empty()) == None::<T>,
        latest_value(history.push(v)) == Some(v),
{
    assert(history.push(v).last() == v);
}

/// Uplink freshness: however many publishes a reader missed while its
/// consumer was away, the first resumed read afterwards delivers the latest
/// of the missed values, never a pre-disconnect one.
pub proof fn lemma_missed_publishes_deliver_latest<T>(history: Seq<T>, missed: Seq<T>, cursor: nat)
    requires
        cursor <= history.len(),
        missed.len() > 0,
    ensures
        fresh_value(history + missed, cursor) == Some(missed.last()),
{
    assert((history + missed).len() == history.len() + missed.len());
    assert((history + missed).last() == missed.last());
}

} // verus!
