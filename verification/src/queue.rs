//! Queue management for audio sources: multiple sources played in
//! sequence, addressed by generated string ids.

use vstd::prelude::*;

verus! {

use crate::text::decimal_digits;
use crate::text::digit_chars;
use crate::text::string_from_chars;
use crate::text::chars_of;
use crate::text::vecs_equal;
use crate::types::QueueError;

/// One queued source: a file path or an in-memory buffer, with an
/// optional display title.
#[derive(Debug)]
pub struct AudioQueueItem {
    pub source_id: String,
    pub file_path: Option<String>,
    pub buffer: Option<Vec<i16>>,
    pub title: Option<String>,
}

/// The id given to the source appended at position `n`.
pub open spec fn spec_source_id(n: int) -> Seq<char> {
    "source_"@ + decimal_digits(n)
}

/// Forms the id for the source appended at position `n`.
fn make_source_id(n: usize) -> (s: String)
    ensures
        s@ == spec_source_id(n as int),
{
    let mut v = chars_of("source_");
    let ghost prefix = v@;
    let digits = digit_chars(n);
    let mut i: usize = 0;
    while i < digits.len()
        invariant
            i <= digits@.len(),
            v@ == prefix + digits@.take(i as int),
        decreases digits@.len() - i,
    {
        v.push(digits[i]);
        proof {
            assert(v@ =~= prefix + digits@.take(i + 1));
        }
        i = i + 1;
    }
    proof {
        assert(v@ =~= prefix + digits@);
    }
    string_from_chars(&v)
}

/// A field-for-field copy of a queue item.
fn clone_item(item: &AudioQueueItem) -> (r: AudioQueueItem)
    ensures
        r.source_id@ == item.source_id@,
        r.file_path is Some <==> item.file_path is Some,
        r.file_path is Some ==> r.file_path->0@ == item.file_path->0@,
        r.buffer is Some <==> item.buffer is Some,
        r.buffer is Some ==> r.buffer->0@ == item.buffer->0@,
        r.title is Some <==> item.title is Some,
        r.title is Some ==> r.title->0@ == item.title->0@,
{
    let file_path = match &item.file_path {
        Some(p) => Some(p.clone()),
        None => None,
    };
    let buffer = match &item.buffer {
        Some(b) => {
            let c = b.clone();
            proof {
                assert(c@ =~= b@);
            }
            Some(c)
        },
        None => None,
    };
    let title = match &item.title {
        Some(t) => Some(t.clone()),
        None => None,
    };
    AudioQueueItem { source_id: item.source_id.clone(), file_path, buffer, title }
}

/// A queue of audio sources that play in sequence.
pub struct AudioSourceQueue {
    sources: Vec<AudioQueueItem>,
    current_index: usize,
    playing: bool,
}

impl AudioSourceQueue {
    /// The queued items.
    pub closed spec fn spec_sources(&self) -> Seq<AudioQueueItem> {
        self.sources@
    }

    /// The play cursor.
    pub closed spec fn spec_current_index(&self) -> int {
        self.current_index as int
    }

    /// Whether the queue is marked playing.
    pub closed spec fn spec_playing(&self) -> bool {
        self.playing
    }

    /// An empty, stopped queue.
    pub fn new() -> (q: AudioSourceQueue)
        ensures
            q.spec_sources() == Seq::<AudioQueueItem>::empty(),
            q.spec_current_index() == 0,
            !q.spec_playing(),
    {
        AudioSourceQueue { sources: Vec::new(), current_index: 0, playing: false }
    }

    /// Appends a source read from a file; its id is `"source_"` followed
    /// by its position at insertion time, and that id is returned.
    pub fn add_source(&mut self, file_path: String, title: Option<String>) -> (id: String)
        ensures
            id@ == spec_source_id(old(self).spec_sources().len() as int),
            final(self).spec_sources().len() == old(self).spec_sources().len() + 1,
            final(self).spec_sources().take(old(self).spec_sources().len() as int) == old(self).spec_sources(),
            final(self).spec_sources().last().source_id@ == id@,
            final(self).spec_sources().last().file_path == Some(file_path),
            final(self).spec_sources().last().buffer is None,
            final(self).spec_sources().last().title == title,
            final(self).spec_current_index() == old(self).spec_current_index(),
            final(self).spec_playing() == old(self).spec_playing(),
    {
        let id = make_source_id(self.sources.len());
        let item = AudioQueueItem {
            source_id: id.clone(),
            file_path: Some(file_path),
            buffer: None,
            title,
        };
        self.sources.push(item);
        proof {
            assert(self.sources@.take(self.sources@.len() - 1) =~= old(self).sources@);
        }
        id
    }

    /// Appends a source holding an in-memory buffer; as `add_source`.
    pub fn add_buffer(&mut self, buffer: Vec<i16>, title: Option<String>) -> (id: String)
        ensures
            id@ == spec_source_id(old(self).spec_sources().len() as int),
            final(self).spec_sources().len() == old(self).spec_sources().len() + 1,
            final(self).spec_sources().take(old(self).spec_sources().len() as int) == old(self).spec_sources(),
            final(self).spec_sources().last().source_id@ == id@,
            final(self).spec_sources().last().file_path is None,
            final(self).spec_sources().last().buffer == Some(buffer),
            final(self).spec_sources().last().title == title,
            final(self).spec_current_index() == old(self).spec_current_index(),
            final(self).spec_playing() == old(self).spec_playing(),
    {
        let id = make_source_id(self.sources.len());
        let item = AudioQueueItem {
            source_id: id.clone(),
            file_path: None,
            buffer: Some(buffer),
            title,
        };
        self.sources.push(item);
        proof {
            assert(self.sources@.take(self.sources@.len() - 1) =~= old(self).sources@);
        }
        id
    }

    /// Removes the first source whose id matches; `SourceNotFound` when
    /// and only when none does.
    pub fn remove_source(&mut self, source_id: String) -> (r: Result<(), QueueError>)
        ensures
            (exists|p: int|
                0 <= p < old(self).spec_sources().len() && #[trigger] old(
                    self,
                ).spec_sources()[p].source_id@ == source_id@) ==> r is Ok,
            r is Ok ==> exists|p: int|
                {
                    &&& 0 <= p < old(self).spec_sources().len()
                    &&& #[trigger] old(self).spec_sources()[p].source_id@ == source_id@
                    &&& (forall|j: int| 0 <= j < p ==> old(self).spec_sources()[j].source_id@ != source_id@)
                    &&& final(self).spec_sources() == old(self).spec_sources().remove(p)
                },
            r is Err ==> r == Err::<(), QueueError>(QueueError::SourceNotFound) && *final(self)
                == *old(self) && (forall|j: int|
                0 <= j < old(self).spec_sources().len() ==> old(self).spec_sources()[j].source_id@ != source_id@),
            final(self).spec_current_index() == old(self).spec_current_index(),
            final(self).spec_playing() == old(self).spec_playing(),
    {
        let target = chars_of(source_id.as_str());
        let mut i: usize = 0;
        while i < self.sources.len()
            invariant
                i <= self.sources@.len(),
                target@ == source_id@,
                forall|j: int| 0 <= j < i ==> self.sources@[j].source_id@ != source_id@,
                *self == *old(self),
            decreases self.sources@.len() - i,
        {
            let candidate = chars_of(self.sources[i].source_id.as_str());
            if vecs_equal(&candidate, &target) {
                let _ = self.sources.remove(i);
                return Ok(());
            }
            i = i + 1;
        }
        Err(QueueError::SourceNotFound)
    }

    /// A copy of the first source whose id matches; `SourceNotFound` when
    /// and only when none does.
    pub fn get_source(&self, source_id: String) -> (r: Result<AudioQueueItem, QueueError>)
        ensures
            (exists|p: int|
                0 <= p < self.spec_sources().len() && #[trigger] self.spec_sources()[p].source_id@
                    == source_id@) ==> r is Ok,
            r is Ok ==> exists|p: int|
                {
                    &&& 0 <= p < self.spec_sources().len()
                    &&& #[trigger] self.spec_sources()[p].source_id@ == source_id@
                    &&& r->Ok_0.source_id@ == self.spec_sources()[p].source_id@
                },
            r is Err ==> r == Err::<AudioQueueItem, QueueError>(QueueError::SourceNotFound) && (
            forall|j: int|
                0 <= j < self.spec_sources().len() ==> self.spec_sources()[j].source_id@
                    != source_id@),
    {
        let target = chars_of(source_id.as_str());
        let mut i: usize = 0;
        while i < self.sources.len()
            invariant
                i <= self.sources@.len(),
                target@ == source_id@,
                forall|j: int| 0 <= j < i ==> self.sources@[j].source_id@ != source_id@,
            decreases self.sources@.len() - i,
        {
            let candidate = chars_of(self.sources[i].source_id.as_str());
            if vecs_equal(&candidate, &target) {
                return Ok(clone_item(&self.sources[i]));
            }
            i = i + 1;
        }
        Err(QueueError::SourceNotFound)
    }

    /// Copies of all queued items, in order (ids preserved).
    pub fn get_sources(&self) -> (out: Vec<AudioQueueItem>)
        ensures
            out@.len() == self.spec_sources().len(),
            forall|i: int|
                0 <= i < out@.len() ==> #[trigger] out@[i].source_id@
                    == self.spec_sources()[i].source_id@,
    {
        let mut out: Vec<AudioQueueItem> = Vec::new();
        let mut i: usize = 0;
        while i < self.sources.len()
            invariant
                i <= self.sources@.len(),
                out@.len() == i,
                forall|j: int|
                    0 <= j < i ==> #[trigger] out@[j].source_id@
                        == self.sources@[j].source_id@,
            decreases self.sources@.len() - i,
        {
            out.push(clone_item(&self.sources[i]));
            i = i + 1;
        }
        out
    }

    /// How many sources are queued.
    pub fn get_length(&self) -> (n: usize)
        ensures
            n == self.spec_sources().len(),
    {
        self.sources.len()
    }

    /// The play cursor.
    pub fn get_current_index(&self) -> (n: usize)
        ensures
            n == self.spec_current_index(),
    {
        self.current_index
    }

    /// Moves the play cursor; `IndexOutOfBounds` at or past the end.
    pub fn set_current_index(&mut self, index: usize) -> (r: Result<(), QueueError>)
        ensures
            index < old(self).spec_sources().len() ==> r == Ok::<(), QueueError>(()) && final(self).spec_current_index() == index,
            index >= old(self).spec_sources().len() ==> r == Err::<(), QueueError>(
                QueueError::IndexOutOfBounds,
            ) && *final(self) == *old(self),
            final(self).spec_sources() == old(self).spec_sources(),
            final(self).spec_playing() == old(self).spec_playing(),
    {
        if index >= self.sources.len() {
            return Err(QueueError::IndexOutOfBounds);
        }
        self.current_index = index;
        Ok(())
    }

    /// Empties the queue and rewinds it.
    pub fn clear(&mut self)
        ensures
            final(self).spec_sources() == Seq::<AudioQueueItem>::empty(),
            final(self).spec_current_index() == 0,
            !final(self).spec_playing(),
    {
        self.sources = Vec::new();
        self.current_index = 0;
        self.playing = false;
    }

    /// Whether the queue is marked playing.
    pub fn is_playing(&self) -> (r: bool)
        ensures
            r == self.spec_playing(),
    {
        self.playing
    }

    /// Marks the queue playing or stopped.
    pub fn set_playing(&mut self, playing: bool)
        ensures
            final(self).spec_playing() == playing,
            final(self).spec_sources() == old(self).spec_sources(),
            final(self).spec_current_index() == old(self).spec_current_index(),
    {
        self.playing = playing;
    }
}

/// Producer half of a source queue: pushes sources in.
pub struct SourcesQueueInput {
    queue: AudioSourceQueue,
}

impl SourcesQueueInput {
    /// The underlying queue.
    pub closed spec fn spec_queue(&self) -> AudioSourceQueue {
        self.queue
    }

    /// An empty input queue.
    pub fn new() -> (q: SourcesQueueInput)
        ensures
            q.spec_queue().spec_sources() == Seq::<AudioQueueItem>::empty(),
            q.spec_queue().spec_current_index() == 0,
    {
        SourcesQueueInput { queue: AudioSourceQueue::new() }
    }

    /// Appends a file-backed source; returns its id.
    pub fn push_file(&mut self, file_path: String) -> (id: String)
        ensures
            id@ == spec_source_id(old(self).spec_queue().spec_sources().len() as int),
            final(self).spec_queue().spec_sources().len() == old(self).spec_queue().spec_sources().len() + 1,
            final(self).spec_queue().spec_sources().last().file_path == Some(file_path),
    {
        self.queue.add_source(file_path, None)
    }

    /// Appends a buffer-backed source; returns its id.
    pub fn push_buffer(&mut self, buffer: Vec<i16>) -> (id: String)
        ensures
            id@ == spec_source_id(old(self).spec_queue().spec_sources().len() as int),
            final(self).spec_queue().spec_sources().len() == old(self).spec_queue().spec_sources().len() + 1,
            final(self).spec_queue().spec_sources().last().buffer == Some(buffer),
    {
        self.queue.add_buffer(buffer, None)
    }

    /// Sets the title of the source with the given id; `SourceNotFound`
    /// when and only when none matches.
    pub fn set_title(&mut self, source_id: String, title: String) -> (r: Result<(), QueueError>)
        ensures
            (exists|p: int|
                0 <= p < old(self).spec_queue().spec_sources().len() && #[trigger] old(
                    self,
                ).spec_queue().spec_sources()[p].source_id@ == source_id@) ==> r is Ok,
            r is Err ==> r == Err::<(), QueueError>(QueueError::SourceNotFound) && *final(self)
                == *old(self) && (forall|j: int|
                0 <= j < old(self).spec_queue().spec_sources().len() ==> old(
                    self,
                ).spec_queue().spec_sources()[j].source_id@ != source_id@),
            r is Ok ==> exists|p: int|
                {
                    &&& 0 <= p < final(self).spec_queue().spec_sources().len()
                    &&& #[trigger] final(self).spec_queue().spec_sources()[p].source_id@
                        == source_id@
                    &&& final(self).spec_queue().spec_sources()[p].title is Some
                    &&& final(self).spec_queue().spec_sources()[p].title->0@ == title@
                },
    {
        let target = chars_of(source_id.as_str());
        let mut i: usize = 0;
        while i < self.queue.sources.len()
            invariant
                i <= self.queue.sources@.len(),
                target@ == source_id@,
                *self == *old(self),
                forall|j: int|
                    0 <= j < i ==> self.queue.sources@[j].source_id@ != source_id@,
            decreases self.queue.sources@.len() - i,
        {
            let candidate = chars_of(self.queue.sources[i].source_id.as_str());
            if vecs_equal(&candidate, &target) {
                let ghost wanted_title = title@;
                let replaced = clone_item(&self.queue.sources[i]);
                let updated = AudioQueueItem {
                    source_id: replaced.source_id,
                    file_path: replaced.file_path,
                    buffer: replaced.buffer,
                    title: Some(title),
                };
                self.queue.sources.set(i, updated);
                proof {
                    assert(self.spec_queue().spec_sources()[i as int].source_id@ == source_id@);
                    assert(self.spec_queue().spec_sources()[i as int].title is Some);
                    assert(self.spec_queue().spec_sources()[i as int].title->0@ == wanted_title);
                    assert(exists|p: int|
                        0 <= p < self.spec_queue().spec_sources().len()
                            && #[trigger] self.spec_queue().spec_sources()[p].source_id@
                            == source_id@ && self.spec_queue().spec_sources()[p].title is Some
                            && self.spec_queue().spec_sources()[p].title->0@ == wanted_title);
                }
                return Ok(());
            }
            i = i + 1;
        }
        Err(QueueError::SourceNotFound)
    }
}

/// Consumer half of a source queue: reads sources out in order.
pub struct SourcesQueueOutput {
    queue: AudioSourceQueue,
}

impl SourcesQueueOutput {
    /// The underlying queue.
    pub closed spec fn spec_queue(&self) -> AudioSourceQueue {
        self.queue
    }

    /// An empty output queue.
    pub fn new() -> (q: SourcesQueueOutput)
        ensures
            q.spec_queue().spec_sources() == Seq::<AudioQueueItem>::empty(),
            q.spec_queue().spec_current_index() == 0,
    {
        SourcesQueueOutput { queue: AudioSourceQueue::new() }
    }

    /// A copy of the item at the cursor without advancing; `QueueEmpty`
    /// when the cursor is past the end.
    pub fn peek(&self) -> (r: Result<AudioQueueItem, QueueError>)
        ensures
            self.spec_queue().spec_current_index() < self.spec_queue().spec_sources().len() ==> {
                &&& r is Ok
                &&& r->Ok_0.source_id@ == self.spec_queue().spec_sources()[self.spec_queue().spec_current_index()].source_id@
            },
            self.spec_queue().spec_current_index() >= self.spec_queue().spec_sources().len()
                ==> r == Err::<AudioQueueItem, QueueError>(QueueError::QueueEmpty),
    {
        if self.queue.current_index >= self.queue.sources.len() {
            return Err(QueueError::QueueEmpty);
        }
        Ok(clone_item(&self.queue.sources[self.queue.current_index]))
    }

    /// A copy of the item at the cursor, advancing past it; `QueueEmpty`
    /// when the cursor is past the end.
    pub fn pop(&mut self) -> (r: Result<AudioQueueItem, QueueError>)
        ensures
            old(self).spec_queue().spec_current_index() < old(self).spec_queue().spec_sources().len() ==> {
                &&& r is Ok
                &&& r->Ok_0.source_id@ == old(self).spec_queue().spec_sources()[old(self).spec_queue().spec_current_index()].source_id@
                &&& final(self).spec_queue().spec_current_index() == old(self).spec_queue().spec_current_index() + 1
                &&& final(self).spec_queue().spec_sources() == old(self).spec_queue().spec_sources()
            },
            old(self).spec_queue().spec_current_index() >= old(self).spec_queue().spec_sources().len() ==> r == Err::<AudioQueueItem, QueueError>(
                QueueError::QueueEmpty,
            ) && *final(self) == *old(self),
    {
        if self.queue.current_index >= self.queue.sources.len() {
            return Err(QueueError::QueueEmpty);
        }
        let item = clone_item(&self.queue.sources[self.queue.current_index]);
        self.queue.current_index = self.queue.current_index + 1;
        Ok(item)
    }

    /// Whether an item remains at or after the cursor.
    pub fn has_next(&self) -> (r: bool)
        ensures
            r == (self.spec_queue().spec_current_index()
                < self.spec_queue().spec_sources().len()),
    {
        self.queue.current_index < self.queue.sources.len()
    }

    /// How many items remain at or after the cursor.
    pub fn get_remaining(&self) -> (n: usize)
        ensures
            self.spec_queue().spec_current_index() <= self.spec_queue().spec_sources().len()
                ==> n == self.spec_queue().spec_sources().len()
                - self.spec_queue().spec_current_index(),
            self.spec_queue().spec_current_index() > self.spec_queue().spec_sources().len()
                ==> n == 0,
    {
        if self.queue.current_index <= self.queue.sources.len() {
            self.queue.sources.len() - self.queue.current_index
        } else {
            0
        }
    }
}

/// Creates a new audio source queue.
pub fn queue() -> (q: AudioSourceQueue)
    ensures
        q.spec_sources() == Seq::<AudioQueueItem>::empty(),
        q.spec_current_index() == 0,
        !q.spec_playing(),
{
    AudioSourceQueue::new()
}

} // verus!
