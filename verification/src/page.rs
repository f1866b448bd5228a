//! Blobs of data: fixed-capacity blocks of audio samples.

use vstd::prelude::*;

use crate::cassette::CassetteId;

verus! {

/// Number of samples each page holds.
pub const PAGE_LENGTH: usize = 512;

/// Unique identificator of a page: which cassette it belongs to and its
/// ordinal position within that cassette's sample stream. The page's sample
/// offset is `page_index * PAGE_LENGTH`.
#[derive(PartialEq, Eq, Structural, Clone, Copy, Debug)]
pub struct PageId {
    pub cassette_id: CassetteId,
    pub page_index: usize,
}

impl PageId {
    pub fn new(cassette_id: CassetteId, page_index: usize) -> (id: PageId)
        ensures
            id.cassette_id == cassette_id,
            id.page_index == page_index,
    {
        Self { cassette_id, page_index }
    }

    pub fn page_index(&self) -> (index: usize)
        ensures
            index == self.page_index,
    {
        self.page_index
    }
}

/// Mathematical value of a [`Page`].
pub ghost struct PageModel {
    pub id: PageId,
    pub dirty: bool,
    pub data: Seq<u32>,
}

/// Blob of data containing a part of an audio sample stream.
///
/// Samples are carried as raw 32-bit words; their numeric interpretation
/// belongs to the caller and is never inspected here. The dirty flag is set
/// the first time audio is processed into the page while recording is armed,
/// and is never cleared for the life of the page instance.
pub struct Page {
    pub id: PageId,
    pub dirty: bool,
    pub data: Vec<u32>,
}

impl View for Page {
    type V = PageModel;

    open spec fn view(&self) -> PageModel {
        PageModel { id: self.id, dirty: self.dirty, data: self.data@ }
    }
}

impl Page {
    /// A page always holds exactly `PAGE_LENGTH` samples.
    pub open spec fn wf(self) -> bool {
        self.data.len() == PAGE_LENGTH
    }

    /// Creates a blank page: all samples zero, not dirty.
    pub fn new(id: PageId) -> (page: Page)
        ensures
            page.wf(),
            page.id == id,
            !page.dirty,
            page.data@ == Seq::new(PAGE_LENGTH as nat, |i: int| 0u32),
    {
        let mut data: Vec<u32> = Vec::new();
        while data.len() < PAGE_LENGTH
            invariant
                data.len() <= PAGE_LENGTH,
                forall|i: int| 0 <= i < data.len() ==> data@[i] == 0u32,
            decreases PAGE_LENGTH - data.len(),
        {
            data.push(0u32);
        }
        proof {
            assert(data@ =~= Seq::new(PAGE_LENGTH as nat, |i: int| 0u32));
        }
        Self { id, dirty: false, data }
    }

    pub fn id(&self) -> (id: PageId)
        ensures
            id == self.id,
    {
        self.id
    }

    pub fn index(&self) -> (index: usize)
        ensures
            index == self.id.page_index,
    {
        self.id.page_index
    }

    pub fn mark_dirty(&mut self)
        ensures
            final(self).dirty,
            final(self).id == old(self).id,
            final(self).data == old(self).data,
    {
        self.dirty = true;
    }

    pub fn is_dirty(&self) -> (dirty: bool)
        ensures
            dirty == self.dirty,
    {
        self.dirty
    }
}

impl Clone for Page {
    /// Explicit value copy of a page's contents, used where two logical views
    /// of the same page are needed; ownership tickets themselves are never
    /// duplicated.
    fn clone(&self) -> (page: Page)
        ensures
            page@ == self@,
    {
        let mut data: Vec<u32> = Vec::new();
        let mut i: usize = 0;
        while i < self.data.len()
            invariant
                i <= self.data.len(),
                data@ == self.data@.take(i as int),
            decreases self.data.len() - i,
        {
            data.push(self.data[i]);
            i = i + 1;
            proof {
                assert(data@ =~= self.data@.take(i as int));
            }
        }
        proof {
            assert(data@ =~= self.data@);
        }
        Page { id: self.id, dirty: self.dirty, data }
    }
}

/// Used to request a blank or previously recorded page from the storage task.
#[derive(PartialEq, Eq, Structural, Debug)]
pub enum PageRequest {
    Load(PageId),
    Blank(PageId),
}

impl PageRequest {
    /// The identity of the requested page, whichever kind the request is.
    pub open spec fn id_spec(self) -> PageId {
        match self {
            PageRequest::Load(page_id) => page_id,
            PageRequest::Blank(page_id) => page_id,
        }
    }

    pub fn page_id(&self) -> (page_id: PageId)
        ensures
            page_id == self.id_spec(),
    {
        match self {
            PageRequest::Load(page_id) => *page_id,
            PageRequest::Blank(page_id) => *page_id,
        }
    }
}

} // verus!
