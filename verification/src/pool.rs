//! Memory pool storing `Page`s.

use vstd::prelude::*;

use crate::page::{Page, PageId, PAGE_LENGTH};

verus! {

/// Number of page slots. At most this many pages are resident system-wide at
/// any instant: one playing, one in flight to storage, one being loaded and
/// one cached first page. Asking for more is a design-capacity violation.
pub const POOL_SIZE: usize = 4;

/// How many of the given slots are occupied.
pub open spec fn count_stored(slots: Seq<Option<Page>>) -> nat
    decreases slots.len(),
{
    if slots.len() == 0 {
        0
    } else {
        count_stored(slots.drop_last()) + (if slots.last() is Some {
            1nat
        } else {
            0nat
        })
    }
}

proof fn lemma_count_stored_all_none(slots: Seq<Option<Page>>)
    requires
        forall|i: int| 0 <= i < slots.len() ==> slots[i] is None,
    ensures
        count_stored(slots) == 0,
    decreases slots.len(),
{
    if slots.len() > 0 {
        lemma_count_stored_all_none(slots.drop_last());
    }
}

proof fn lemma_count_stored_update(slots: Seq<Option<Page>>, i: int, value: Option<Page>)
    requires
        0 <= i < slots.len(),
    ensures
        count_stored(slots.update(i, value)) == count_stored(slots) - (if slots[i] is Some {
            1int
        } else {
            0int
        }) + (if value is Some {
            1int
        } else {
            0int
        }),
    decreases slots.len(),
{
    let updated = slots.update(i, value);
    if i == slots.len() - 1 {
        assert(updated.drop_last() =~= slots.drop_last());
    } else {
        assert(updated.drop_last() =~= slots.drop_last().update(i, value));
        lemma_count_stored_update(slots.drop_last(), i, value);
    }
}

/// Memory pool: a fixed arena of page slots, passed explicitly into both the
/// audio context and the storage task, so a page's contents never need to be
/// copied while it circulates between components.
pub struct Pool {
    pub slots: Vec<Option<Page>>,
}

/// Handle expresses exclusive ownership of one slot's `Page` and allows
/// access to it. It cannot be duplicated: transferring it (for instance over
/// a channel) transfers the access. It remembers the identity the page was
/// created with, which never changes while the page resides in its slot.
pub struct Handle {
    pub pool_index: usize,
    pub id: PageId,
}

impl Pool {
    /// The slot array keeps its fixed size and every resident page holds
    /// exactly `PAGE_LENGTH` samples.
    pub open spec fn wf(self) -> bool {
        &&& self.slots.len() == POOL_SIZE
        &&& forall|i: int|
            0 <= i < self.slots@.len() ==> (#[trigger] self.slots@[i] matches Some(page)
                ==> page.wf())
    }

    /// The handle refers to an occupied slot whose page carries the handle's
    /// identity.
    pub open spec fn holds(self, handle: Handle) -> bool {
        &&& handle.pool_index < self.slots@.len()
        &&& self.slots@[handle.pool_index as int] matches Some(page) && page.id == handle.id
    }

    /// The page the handle refers to.
    pub open spec fn page_at(self, handle: Handle) -> Page
        recommends
            self.holds(handle),
    {
        self.slots@[handle.pool_index as int].unwrap()
    }

    pub open spec fn stored_spec(self) -> nat {
        count_stored(self.slots@)
    }

    pub open spec fn has_free_slot(self) -> bool {
        exists|i: int| 0 <= i < self.slots@.len() && self.slots@[i] is None
    }

    /// Creates an empty pool.
    pub fn new() -> (pool: Pool)
        ensures
            pool.wf(),
            forall|i: int| 0 <= i < POOL_SIZE ==> pool.slots@[i] is None,
            pool.stored_spec() == 0,
            pool.has_free_slot(),
    {
        let mut slots: Vec<Option<Page>> = Vec::new();
        while slots.len() < POOL_SIZE
            invariant
                slots.len() <= POOL_SIZE,
                forall|i: int| 0 <= i < slots.len() ==> slots@[i] is None,
            decreases POOL_SIZE - slots.len(),
        {
            slots.push(None);
        }
        proof {
            lemma_count_stored_all_none(slots@);
            assert(slots@[0] is None);
        }
        Pool { slots }
    }

    /// Index of the first free slot.
    fn first_free_index(&self) -> (index: usize)
        requires
            self.wf(),
            self.has_free_slot(),
        ensures
            index < POOL_SIZE,
            self.slots@[index as int] is None,
            forall|j: int| 0 <= j < index ==> self.slots@[j] is Some,
    {
        let mut index: usize = 0;
        while index < POOL_SIZE
            invariant
                index <= POOL_SIZE,
                self.wf(),
                self.has_free_slot(),
                forall|j: int| 0 <= j < index ==> self.slots@[j] is Some,
            decreases POOL_SIZE - index,
        {
            if self.slots[index].is_none() {
                return index;
            }
            index = index + 1;
        }
        proof {
            let i = choose|i: int| 0 <= i < self.slots@.len() && self.slots@[i] is None;
            assert(self.slots@[i] is Some);
            assert(false);
        }
        vstd::pervasive::unreached()
    }

    /// Installs a blank page with the given identity in the first free slot
    /// and returns the ownership ticket for it. Asking with no slot free is a
    /// design-capacity violation, which the precondition rules out.
    pub fn new_page(&mut self, id: PageId) -> (handle: Handle)
        requires
            old(self).wf(),
            old(self).has_free_slot(),
        ensures
            final(self).wf(),
            final(self).holds(handle),
            handle.id == id,
            handle.pool_index < POOL_SIZE,
            old(self).slots@[handle.pool_index as int] is None,
            forall|j: int| 0 <= j < handle.pool_index ==> old(self).slots@[j] is Some,
            final(self).page_at(handle).id == id,
            !final(self).page_at(handle).dirty,
            final(self).page_at(handle).data@ == Seq::new(PAGE_LENGTH as nat, |i: int| 0u32),
            final(self).slots@ == old(self).slots@.update(
                handle.pool_index as int,
                Some(final(self).page_at(handle)),
            ),
            final(self).stored_spec() == old(self).stored_spec() + 1,
    {
        let index = self.first_free_index();
        let page = Page::new(id);
        proof {
            lemma_count_stored_update(self.slots@, index as int, Some(page));
        }
        self.slots[index] = Some(page);
        Handle { pool_index: index, id }
    }

    /// Frees the slot the handle refers to; the handle is consumed.
    pub fn drop_page(&mut self, handle: Handle)
        requires
            old(self).wf(),
            old(self).holds(handle),
        ensures
            final(self).wf(),
            final(self).slots@ == old(self).slots@.update(handle.pool_index as int, None),
            final(self).stored_spec() == old(self).stored_spec() - 1,
            final(self).has_free_slot(),
    {
        proof {
            lemma_count_stored_update(self.slots@, handle.pool_index as int, None);
        }
        self.slots[handle.pool_index] = None;
        proof {
            assert(self.slots@[handle.pool_index as int] is None);
        }
    }

    /// Removes and returns the page the handle refers to, freeing its slot;
    /// the storage task uses this once a page handed to it is persisted.
    pub fn take_page(&mut self, handle: Handle) -> (page: Page)
        requires
            old(self).wf(),
            old(self).holds(handle),
        ensures
            page == old(self).page_at(handle),
            page.id == handle.id,
            final(self).wf(),
            final(self).slots@ == old(self).slots@.update(handle.pool_index as int, None),
            final(self).stored_spec() == old(self).stored_spec() - 1,
            final(self).has_free_slot(),
    {
        proof {
            lemma_count_stored_update(self.slots@, handle.pool_index as int, None);
        }
        let slot = &mut self.slots[handle.pool_index];
        let taken = slot.take();
        proof {
            assert(self.slots@[handle.pool_index as int] is None);
        }
        match taken {
            Some(page) => page,
            None => vstd::pervasive::unreached(),
        }
    }

    /// Read access to the page the handle refers to.
    pub fn page_ref<'a>(&'a self, handle: &Handle) -> (page: &'a Page)
        requires
            self.holds(*handle),
        ensures
            *page == self.page_at(*handle),
    {
        match &self.slots[handle.pool_index] {
            Some(page) => page,
            None => vstd::pervasive::unreached(),
        }
    }

    /// Write access to the page the handle refers to. Only the single context
    /// that currently owns the handle may call this, and only before handing
    /// the handle to a channel.
    pub fn page_mut<'a>(&'a mut self, handle: &Handle) -> (page: &'a mut Page)
        requires
            old(self).holds(*handle),
        ensures
            *page == old(self).page_at(*handle),
            final(self).slots@ == old(self).slots@.update(
                handle.pool_index as int,
                Some(*final(page)),
            ),
    {
        match &mut self.slots[handle.pool_index] {
            Some(page) => page,
            None => vstd::pervasive::unreached(),
        }
    }

    /// Number of occupied slots.
    pub fn stored(&self) -> (count: usize)
        requires
            self.wf(),
        ensures
            count == self.stored_spec(),
    {
        let mut count: usize = 0;
        let mut index: usize = 0;
        while index < POOL_SIZE
            invariant
                index <= POOL_SIZE,
                count <= index,
                self.wf(),
                count == count_stored(self.slots@.take(index as int)),
            decreases POOL_SIZE - index,
        {
            let occupied = self.slots[index].is_some();
            proof {
                assert(self.slots@.take(index + 1).drop_last() =~= self.slots@.take(index as int));
                assert(self.slots@.take(index + 1).last() == self.slots@[index as int]);
            }
            if occupied {
                count = count + 1;
            }
            index = index + 1;
        }
        proof {
            assert(self.slots@.take(POOL_SIZE as int) =~= self.slots@);
        }
        count
    }
}

} // verus!
