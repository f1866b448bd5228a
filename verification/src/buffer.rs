//! Backend of the paging buffer: the per-cassette playback/record state
//! machine. It owns at most one resident page, tracks the play/record
//! position, and computes what the next page need is and whether the held
//! page is exhausted. Higher levels make sure it gets the `Page`s it asks
//! for and mediate with the other components.

use vstd::prelude::*;

use crate::cassette::{Cassette, CassetteId};
use crate::page::{PageId, PageRequest, PAGE_LENGTH};
use crate::pool::{Handle, Pool};

verus! {

/// Mathematical value of a [`Buffer`]: the identity of the held page, if
/// any, and the unbounded position and high-water mark.
pub ghost struct BufferModel {
    pub active: Option<PageId>,
    pub pointer: int,
    pub cassette_id: CassetteId,
    pub length: int,
    pub recording: bool,
}

/// How one `process` call with a block of `count` samples steps the model:
/// while a page is held the pointer advances and raises the high-water mark;
/// without one the samples are dropped.
pub open spec fn process_model(m: BufferModel, count: int) -> BufferModel {
    if m.active is Some {
        let pointer = m.pointer + count;
        BufferModel {
            pointer,
            length: if pointer > m.length {
                pointer
            } else {
                m.length
            },
            ..m
        }
    } else {
        m
    }
}

/// The model after a whole sequence of `process` calls with the given block
/// sizes.
pub open spec fn run_model(m: BufferModel, counts: Seq<int>) -> BufferModel
    decreases counts.len(),
{
    if counts.len() == 0 {
        m
    } else {
        run_model(process_model(m, counts.first()), counts.drop_first())
    }
}

/// Whether the held page is exhausted: a page is held and the pointer sits
/// on a page boundary.
pub open spec fn full_model(m: BufferModel) -> bool {
    m.active is Some && m.pointer % (PAGE_LENGTH as int) == 0
}

/// How one `process` call steps a held page's dirty flag: it is set while
/// recording is armed and never cleared.
pub open spec fn dirty_model(dirty: bool, recording: bool) -> bool {
    dirty || recording
}

/// The dirty flag after a whole sequence of `process` calls made while a
/// page is held, given the recording-armed flag of each call.
pub open spec fn dirty_run(dirty: bool, armed: Seq<bool>) -> bool
    decreases armed.len(),
{
    if armed.len() == 0 {
        dirty
    } else {
        dirty_run(dirty_model(dirty, armed.first()), armed.drop_first())
    }
}

/// Total number of samples across a sequence of blocks.
pub open spec fn sum(counts: Seq<int>) -> int
    decreases counts.len(),
{
    if counts.len() == 0 {
        0
    } else {
        counts.first() + sum(counts.drop_first())
    }
}

/// Internal component responsible for recording and playback.
pub struct Buffer {
    pub active_page: Option<Handle>,
    pub pointer: usize,
    pub cassette: Cassette,
    pub recording: bool,
}

impl View for Buffer {
    type V = BufferModel;

    open spec fn view(&self) -> BufferModel {
        BufferModel {
            active: match self.active_page {
                Some(handle) => Some(handle.id),
                None => None,
            },
            pointer: self.pointer as int,
            cassette_id: self.cassette.id,
            length: self.cassette.length as int,
            recording: self.recording,
        }
    }
}

impl Buffer {
    /// Index of the page wanted next: past the held page, or, when none is
    /// held, the page the pointer falls into (used for the very first
    /// request).
    pub open spec fn next_index_spec(self) -> int {
        match self.active_page {
            Some(handle) => handle.id.page_index + 1,
            None => self.pointer as int / PAGE_LENGTH as int,
        }
    }

    /// Whether the next page must be fetched from storage: its region was
    /// previously recorded iff the pointer is below the high-water mark.
    pub open spec fn wants_load_spec(self) -> bool {
        self.pointer < self.cassette.length
    }

    /// The request `next_page` issues.
    pub open spec fn next_request_spec(self) -> PageRequest {
        let id = PageId {
            cassette_id: self.cassette.id,
            page_index: self.next_index_spec() as usize,
        };
        if self.wants_load_spec() {
            PageRequest::Load(id)
        } else {
            PageRequest::Blank(id)
        }
    }

    pub fn from_cassette(cassette: Cassette) -> (buffer: Buffer)
        ensures
            buffer.active_page is None,
            buffer.pointer == 0,
            buffer.cassette == cassette,
            !buffer.recording,
    {
        Self { active_page: None, pointer: 0, cassette, recording: false }
    }

    /// What the buffer wants next: a `Load` of a previously recorded region,
    /// or a `Blank` page beyond anything ever recorded.
    pub fn next_page(&self) -> (request: PageRequest)
        requires
            self.active_page matches Some(handle) ==> handle.id.page_index < usize::MAX,
        ensures
            request == self.next_request_spec(),
            request is Load <==> self.pointer < self.cassette.length,
            request is Blank <==> self.pointer >= self.cassette.length,
            request.id_spec().cassette_id == self.cassette.id,
            request.id_spec().page_index == self.next_index_spec(),
    {
        let next_index: usize = match &self.active_page {
            Some(handle) => handle.id.page_index + 1,
            None => self.pointer / PAGE_LENGTH,
        };
        let load_next = self.pointer < self.cassette.length;
        if load_next {
            PageRequest::Load(PageId::new(self.cassette.id, next_index))
        } else {
            PageRequest::Blank(PageId::new(self.cassette.id, next_index))
        }
    }

    pub fn has_page(&self) -> (held: bool)
        ensures
            held == (self.active_page is Some),
    {
        self.active_page.is_some()
    }

    /// Installs a newly acquired page as active. Callers only do this while
    /// no page is held.
    pub fn set_page(&mut self, handle: Handle)
        requires
            old(self).active_page is None,
        ensures
            final(self).active_page == Some(handle),
            final(self).pointer == old(self).pointer,
            final(self).cassette == old(self).cassette,
            final(self).recording == old(self).recording,
    {
        self.active_page = Some(handle);
    }

    /// Forwards one audio block. While a page is held the pointer advances
    /// by the block's length, the cassette's high-water mark is raised if
    /// exceeded, and the page is marked dirty when recording is armed; with
    /// no page held the samples are dropped, the steady state while a
    /// requested page has not arrived yet.
    pub fn process(&mut self, block: &[u32], pool: &mut Pool)
        requires
            old(self).active_page is Some ==> old(self).pointer + block@.len() <= usize::MAX,
            old(self).active_page matches Some(handle) ==> old(pool).wf() && old(pool).holds(
                handle,
            ),
        ensures
            final(self)@ == process_model(old(self)@, block@.len() as int),
            final(self).cassette.length >= old(self).cassette.length,
            final(self).active_page == old(self).active_page,
            final(self).recording == old(self).recording,
            final(self).cassette.id == old(self).cassette.id,
            old(self).active_page is None ==> *final(self) == *old(self) && *final(pool) == *old(
                pool,
            ),
            old(self).active_page matches Some(handle) ==> {
                &&& final(self).pointer == old(self).pointer + block@.len()
                &&& final(pool).wf()
                &&& final(pool).holds(handle)
                &&& final(pool).page_at(handle).id == old(pool).page_at(handle).id
                &&& final(pool).page_at(handle).data == old(pool).page_at(handle).data
                &&& final(pool).page_at(handle).dirty == dirty_model(
                    old(pool).page_at(handle).dirty,
                    old(self).recording,
                )
                &&& forall|i: int|
                    0 <= i < old(pool).slots@.len() && i != handle.pool_index
                        ==> final(pool).slots@[i] == old(pool).slots@[i]
            },
    {
        match &self.active_page {
            Some(handle) => {
                self.pointer = self.pointer + block.len();
                if self.pointer > self.cassette.length {
                    self.cassette.length = self.pointer;
                }
                if self.recording {
                    pool.page_mut(handle).mark_dirty();
                }
            },
            None => {},
        }
    }

    /// Whether the held page is exhausted: the pointer sits on an exact page
    /// boundary.
    pub fn has_full_page(&self) -> (full: bool)
        ensures
            full == full_model(self@),
            full == (self.active_page is Some && self.pointer % PAGE_LENGTH == 0),
    {
        self.active_page.is_some() && self.pointer % PAGE_LENGTH == 0
    }

    /// Relinquishes and returns the active page's handle.
    pub fn take_page(&mut self) -> (handle: Handle)
        requires
            old(self).active_page is Some,
        ensures
            old(self).active_page == Some(handle),
            final(self).active_page is None,
            final(self).pointer == old(self).pointer,
            final(self).cassette == old(self).cassette,
            final(self).recording == old(self).recording,
    {
        let taken = self.active_page.take();
        match taken {
            Some(handle) => handle,
            None => vstd::pervasive::unreached(),
        }
    }

    /// Jumps to the start. Deliberately keeps the held page: the page in
    /// flight continues to be used until the normal full/swap logic requests
    /// the first page, so no in-flight work is discarded. The high-water
    /// mark does not shrink.
    pub fn reset_position(&mut self)
        ensures
            final(self).pointer == 0,
            final(self).active_page == old(self).active_page,
            final(self).cassette == old(self).cassette,
            final(self).recording == old(self).recording,
    {
        self.pointer = 0;
    }
}

/// Running the model over a sequence of blocks while a page is held keeps
/// the page and advances the pointer by exactly the total sample count.
pub proof fn lemma_run_model_accumulates(m: BufferModel, counts: Seq<int>)
    requires
        m.active is Some,
    ensures
        run_model(m, counts).active == m.active,
        run_model(m, counts).pointer == m.pointer + sum(counts),
    decreases counts.len(),
{
    if counts.len() > 0 {
        lemma_run_model_accumulates(process_model(m, counts.first()), counts.drop_first());
    }
}

/// Full-page accounting: over every sequence of `process` calls made while a
/// page is held and starting at a page boundary, the page reads as full
/// exactly when the cumulative number of processed samples is an exact
/// positive multiple of `PAGE_LENGTH`. (At zero processed samples the
/// boundary itself already reads as full, so a positive total is required.)
pub proof fn lemma_full_page_accounting(m: BufferModel, counts: Seq<int>)
    requires
        m.active is Some,
        m.pointer % (PAGE_LENGTH as int) == 0,
        sum(counts) > 0,
    ensures
        full_model(run_model(m, counts)) <==> sum(counts) % (PAGE_LENGTH as int) == 0,
{
    lemma_run_model_accumulates(m, counts);
    let total = sum(counts);
    vstd::arithmetic::div_mod::lemma_add_mod_noop(m.pointer, total, PAGE_LENGTH as int);
    vstd::arithmetic::div_mod::lemma_mod_twice(total, PAGE_LENGTH as int);
}

/// Dirty persistence: across any sequence of `process` calls made while a
/// page is held, the page ends dirty exactly when it started dirty or some
/// call was made while recording was armed. A page never written while armed
/// stays clean, and eviction then drops it without I/O.
pub proof fn lemma_dirty_persistence(dirty: bool, armed: Seq<bool>)
    ensures
        dirty_run(dirty, armed) <==> (dirty || exists|i: int| 0 <= i < armed.len() && armed[i]),
    decreases armed.len(),
{
    if armed.len() > 0 {
        let tail = armed.drop_first();
        lemma_dirty_persistence(dirty_model(dirty, armed.first()), tail);
        assert(armed.first() == armed[0]);
        if exists|j: int| 0 <= j < tail.len() && tail[j] {
            let j = choose|j: int| 0 <= j < tail.len() && tail[j];
            assert(armed[j + 1]);
        }
        if exists|i: int| 0 <= i < armed.len() && armed[i] {
            let i = choose|i: int| 0 <= i < armed.len() && armed[i];
            if i > 0 {
                assert(tail[i - 1]);
            }
        }
    }
}

} // verus!
