//! Non-blocking public interface to the paging buffer, driven once per
//! audio-processing cycle. It owns one [`Buffer`], drains configuration
//! updates, completes pending page loads, forwards audio blocks, and evicts
//! a page once it fills — dispatching a persistence request when the page is
//! dirty. It also hosts a one-page cache of the cassette's first page so a
//! jump to the start is instant.

use vstd::prelude::*;

use crate::buffer::{dirty_model, full_model, process_model, Buffer};
use crate::cassette::Cassette;
use crate::channels::{
    configs, dequeue_config, dequeue_handle, enqueue_handle, enqueue_load_request, enqueue_page,
    handles, load_requests, pages,
};
use crate::config::Config;
use crate::page::{Page, PageId, PageRequest};
use crate::pool::{Handle, Pool};

verus! {

/// Whether some handle in the sequence carries the wanted page identity.
pub open spec fn has_match(entries: Seq<Handle>, id: PageId) -> bool {
    exists|i: int| 0 <= i < entries.len() && entries[i].id == id
}

/// Position of the first handle carrying the wanted page identity (the
/// sequence's length if there is none).
pub open spec fn first_match_index(entries: Seq<Handle>, id: PageId) -> int
    decreases entries.len(),
{
    if entries.len() == 0 {
        0
    } else if entries.first().id == id {
        0
    } else {
        1 + first_match_index(entries.drop_first(), id)
    }
}

proof fn lemma_first_match_at(entries: Seq<Handle>, id: PageId, k: int)
    requires
        0 <= k < entries.len(),
        entries[k].id == id,
        forall|j: int| 0 <= j < k ==> entries[j].id != id,
    ensures
        has_match(entries, id),
        first_match_index(entries, id) == k,
    decreases k,
{
    if k == 0 {
        assert(entries.first() == entries[0]);
    } else {
        let tail = entries.drop_first();
        assert(entries.first() == entries[0]);
        assert(tail[k - 1] == entries[k]);
        assert(forall|j: int| 0 <= j < k - 1 ==> tail[j] == entries[j + 1]);
        lemma_first_match_at(tail, id, k - 1);
    }
}

/// Manager is the non-blocking public interface to the paging buffer.
pub struct Manager {
    pub buffer: Option<Buffer>,
    pub page_0_cache: Option<Handle>,
}

impl Manager {
    /// The buffer, which `set_cassette` must have installed before the
    /// per-cycle entry points are driven.
    pub open spec fn buffer_spec(self) -> Buffer
        recommends
            self.buffer is Some,
    {
        self.buffer.unwrap()
    }

    /// The identity the buffer wants next.
    pub open spec fn wanted_spec(self) -> PageId {
        self.buffer_spec().next_request_spec().id_spec()
    }

    /// Whether a fresh want for the cassette's first page can be satisfied
    /// from the cache, with no channel traffic.
    pub open spec fn cache_fast_path(self) -> bool {
        self.wanted_spec().page_index == 0 && self.page_0_cache is Some
    }

    /// The handle of the page an eviction takes out of the buffer.
    pub open spec fn evicted_handle(self) -> Handle
        recommends
            self.buffer is Some,
            self.buffer_spec().active_page is Some,
    {
        self.buffer_spec().active_page.unwrap()
    }

    /// The buffer is still installed and kept its pointer, cassette and
    /// recording flag. What happened to its active page and to the page-0
    /// cache is left to the caller's own clauses.
    pub open spec fn same_but_active_page(pre: Manager, post: Manager) -> bool {
        &&& post.buffer is Some
        &&& post.buffer_spec().pointer == pre.buffer_spec().pointer
        &&& post.buffer_spec().cassette == pre.buffer_spec().cassette
        &&& post.buffer_spec().recording == pre.buffer_spec().recording
    }

    pub fn new() -> (manager: Manager)
        ensures
            manager.buffer is None,
            manager.page_0_cache is None,
    {
        Self { buffer: None, page_0_cache: None }
    }

    /// Installs a fresh buffer for the selected cassette. The page-0 cache
    /// is scoped to one cassette's life: a cached first page of another
    /// cassette is released back to the pool here, so it can never satisfy
    /// the new cassette's first want; a cache of the same cassette stays.
    pub fn set_cassette(&mut self, cassette: Cassette, pool: &mut Pool)
        requires
            old(pool).wf(),
            old(self).page_0_cache matches Some(cached) ==> old(pool).holds(cached),
        ensures
            final(self).buffer matches Some(buffer) && buffer == (Buffer { active_page: None, pointer: 0, cassette: cassette, recording: false }),
            final(pool).wf(),
            old(self).page_0_cache is None ==> final(self).page_0_cache is None && *final(pool) == *old(pool),
            old(self).page_0_cache matches Some(cached) && cached.id.cassette_id == cassette.id ==> final(self).page_0_cache == old(self).page_0_cache && *final(pool) == *old(pool),
            old(self).page_0_cache matches Some(cached) ==> (cached.id.cassette_id != cassette.id ==> final(self).page_0_cache is None && final(pool).slots@ == old(pool).slots@.update(cached.pool_index as int, None)),
    {
        let stale = match &self.page_0_cache {
            Some(cached) => cached.id.cassette_id.index != cassette.id.index,
            None => false,
        };
        if stale {
            let cached = self.page_0_cache.take();
            match cached {
                Some(handle) => pool.drop_page(handle),
                None => vstd::pervasive::unreached(),
            }
        }
        self.buffer = Some(Buffer::from_cassette(cassette));
    }

    /// Asks the buffer what it wants next and enqueues that request for the
    /// storage task. Called whenever the buffer has no active page and no
    /// request is outstanding yet, to keep the pipeline primed; enqueueing
    /// onto a full channel would be a draining-cadence violation, which the
    /// precondition rules out.
    pub fn start_loading_next_page(
        &mut self,
        load_request_queue: &mut heapless::spsc::Queue<PageRequest, 4>,
    )
        requires
            old(self).buffer is Some,
            old(self).buffer_spec().active_page matches Some(handle) ==> handle.id.page_index < usize::MAX,
            load_requests(*old(load_request_queue)).len() < 3,
        ensures
            *final(self) == *old(self),
            load_requests(*final(load_request_queue)) == load_requests(*old(load_request_queue)).push(old(self).buffer_spec().next_request_spec()),
    {
        let request = match &self.buffer {
            Some(buffer) => buffer.next_page(),
            None => vstd::pervasive::unreached(),
        };
        let result = enqueue_load_request(load_request_queue, request);
        match result {
            Ok(_) => {},
            Err(_) => {
                proof {
                    assert(false);
                }
            },
        }
    }

    /// Drains all pending configuration messages in arrival order, so the
    /// latest recording flag wins when several arrived since the last drain.
    pub fn process_configuration_updates(
        &mut self,
        config_queue: &mut heapless::spsc::Queue<Config, 4>,
    )
        requires
            old(self).buffer is Some,
        ensures
            configs(*final(config_queue)).len() == 0,
            final(self).buffer is Some,
            final(self).page_0_cache == old(self).page_0_cache,
            final(self).buffer_spec().active_page == old(self).buffer_spec().active_page,
            final(self).buffer_spec().pointer == old(self).buffer_spec().pointer,
            final(self).buffer_spec().cassette == old(self).buffer_spec().cassette,
            final(self).buffer_spec().recording == (if configs(*old(config_queue)).len() == 0 { old(self).buffer_spec().recording } else { configs(*old(config_queue)).last().recording }),
    {
        let ghost entries = configs(*config_queue);
        let ghost mut drained: int = 0;
        loop
            invariant
                self.buffer is Some,
                self.page_0_cache == old(self).page_0_cache,
                self.buffer_spec().active_page == old(self).buffer_spec().active_page,
                self.buffer_spec().pointer == old(self).buffer_spec().pointer,
                self.buffer_spec().cassette == old(self).buffer_spec().cassette,
                entries == configs(*old(config_queue)),
                0 <= drained <= entries.len(),
                configs(*config_queue) == entries.skip(drained),
                self.buffer_spec().recording == (if drained == 0 { old(self).buffer_spec().recording } else { entries[drained - 1].recording }),
            decreases entries.len() - drained,
        {
            let message = dequeue_config(config_queue);
            match message {
                Some(config) => {
                    proof {
                        assert(entries.skip(drained).first() == entries[drained]);
                        assert(entries.skip(drained).drop_first() =~= entries.skip(drained + 1));
                        drained = drained + 1;
                    }
                    match &mut self.buffer {
                        Some(buffer) => buffer.recording = config.recording,
                        None => vstd::pervasive::unreached(),
                    }
                },
                None => {
                    proof {
                        assert(configs(*config_queue).len() == 0);
                        assert(entries.skip(drained).len() == entries.len() - drained);
                        assert(drained == entries.len());
                        if entries.len() > 0 {
                            assert(entries[drained - 1] == entries.last());
                        }
                        assert(self.buffer_spec().recording == (if entries.len() == 0 { old(self).buffer_spec().recording } else { entries.last().recording }));
                    }
                    return ;
                },
            }
        }
    }

    /// Whether the buffer is still waiting for a requested page to arrive.
    pub fn is_waiting_for_page(&self) -> (waiting: bool)
        requires
            self.buffer is Some,
        ensures
            waiting == (self.buffer_spec().active_page is None),
    {
        let buffer = match &self.buffer {
            Some(buffer) => buffer,
            None => vstd::pervasive::unreached(),
        };
        !buffer.has_page()
    }

    /// Tries to satisfy the pending page need. A want for the cassette's
    /// first page is served from the cache when one is present, consuming
    /// it, with no channel traffic. Otherwise the response channel is
    /// drained until a page with the wanted identity appears; responses with
    /// any other identity are skipped over. Returns whether a page was
    /// installed.
    pub fn try_fetching_next_page(
        &mut self,
        load_response_queue: &mut heapless::spsc::Queue<Handle, 4>,
    ) -> (fetched: bool)
        requires
            old(self).buffer is Some,
            old(self).buffer_spec().active_page is None,
        ensures
            Manager::same_but_active_page(*old(self), *final(self)),
            old(self).cache_fast_path() ==> fetched && final(self).buffer_spec().active_page == old(self).page_0_cache && final(self).page_0_cache is None && handles(*final(load_response_queue)) == handles(*old(load_response_queue)),
            !old(self).cache_fast_path() ==> final(self).page_0_cache == old(self).page_0_cache && fetched == has_match(handles(*old(load_response_queue)), old(self).wanted_spec()),
            !old(self).cache_fast_path() && fetched ==> final(self).buffer_spec().active_page == Some(handles(*old(load_response_queue))[first_match_index(handles(*old(load_response_queue)), old(self).wanted_spec())]) && handles(*final(load_response_queue)) == handles(*old(load_response_queue)).skip(first_match_index(handles(*old(load_response_queue)), old(self).wanted_spec()) + 1),
            !old(self).cache_fast_path() && !fetched ==> final(self).buffer_spec().active_page is None && handles(*final(load_response_queue)).len() == 0,
    {
        let wanted = match &self.buffer {
            Some(buffer) => buffer.next_page().page_id(),
            None => vstd::pervasive::unreached(),
        };

        if wanted.page_index() == 0 {
            let cached = self.page_0_cache.take();
            match cached {
                Some(handle) => {
                    match &mut self.buffer {
                        Some(buffer) => buffer.set_page(handle),
                        None => vstd::pervasive::unreached(),
                    }
                    return true;
                },
                None => {},
            }
        }

        let ghost entries = handles(*load_response_queue);
        let ghost mut skipped: int = 0;
        loop
            invariant
                self.buffer is Some,
                self.buffer_spec().active_page is None,
                self.buffer_spec().pointer == old(self).buffer_spec().pointer,
                self.buffer_spec().cassette == old(self).buffer_spec().cassette,
                self.buffer_spec().recording == old(self).buffer_spec().recording,
                self.page_0_cache == old(self).page_0_cache,
                !old(self).cache_fast_path(),
                wanted == old(self).wanted_spec(),
                entries == handles(*old(load_response_queue)),
                0 <= skipped <= entries.len(),
                handles(*load_response_queue) == entries.skip(skipped),
                forall|j: int| 0 <= j < skipped ==> entries[j].id != wanted,
            decreases entries.len() - skipped,
        {
            let response = dequeue_handle(load_response_queue);
            match response {
                Some(handle) => {
                    proof {
                        assert(entries.skip(skipped).first() == entries[skipped]);
                        assert(entries.skip(skipped).drop_first() =~= entries.skip(skipped + 1));
                    }
                    if handle.id.cassette_id.index == wanted.cassette_id.index
                        && handle.id.page_index == wanted.page_index {
                        proof {
                            lemma_first_match_at(entries, wanted, skipped);
                        }
                        match &mut self.buffer {
                            Some(buffer) => buffer.set_page(handle),
                            None => vstd::pervasive::unreached(),
                        }
                        return true;
                    }
                    proof {
                        skipped = skipped + 1;
                    }
                },
                None => {
                    proof {
                        assert(entries.skip(skipped) =~= entries.skip(entries.len() as int));
                        assert(!has_match(entries, wanted));
                    }
                    return false;
                },
            }
        }
    }

    /// Forwards one audio block into the buffer.
    pub fn process(&mut self, block: &[u32], pool: &mut Pool)
        requires
            old(self).buffer is Some,
            old(self).buffer_spec().active_page is Some ==> old(self).buffer_spec().pointer + block@.len() <= usize::MAX,
            old(self).buffer_spec().active_page matches Some(handle) ==> old(pool).wf() && old(pool).holds(handle),
        ensures
            final(self).buffer is Some,
            final(self).page_0_cache == old(self).page_0_cache,
            final(self).buffer_spec()@ == process_model(old(self).buffer_spec()@, block@.len() as int),
            final(self).buffer_spec().active_page == old(self).buffer_spec().active_page,
            final(self).buffer_spec().recording == old(self).buffer_spec().recording,
            old(self).buffer_spec().active_page is None ==> final(self).buffer_spec() == old(self).buffer_spec() && *final(pool) == *old(pool),
            old(self).buffer_spec().active_page matches Some(handle) ==> final(pool).wf() && final(pool).holds(handle) && final(pool).page_at(handle).id == old(pool).page_at(handle).id && final(pool).page_at(handle).data == old(pool).page_at(handle).data && final(pool).page_at(handle).dirty == dirty_model(old(pool).page_at(handle).dirty, old(self).buffer_spec().recording),
    {
        match &mut self.buffer {
            Some(buffer) => buffer.process(block, pool),
            None => vstd::pervasive::unreached(),
        }
    }

    /// Whether the held page is exhausted and must be swapped.
    pub fn has_full_page(&self) -> (full: bool)
        requires
            self.buffer is Some,
        ensures
            full == full_model(self.buffer_spec()@),
    {
        let buffer = match &self.buffer {
            Some(buffer) => buffer,
            None => vstd::pervasive::unreached(),
        };
        buffer.has_full_page()
    }

    /// Takes the buffer's active page and persists it if needed: a page
    /// never written while recording was armed is simply discarded and its
    /// slot freed; a dirty first page is enqueued by value on the first-page
    /// save channel while its handle is retained as the page-0 cache; any
    /// other dirty page's handle is enqueued on the ordinary save channel,
    /// transferring slot ownership to the storage task.
    pub fn start_saving(
        &mut self,
        save_request_queue: &mut heapless::spsc::Queue<Handle, 4>,
        save_request_first_page_queue: &mut heapless::spsc::Queue<Page, 4>,
        pool: &mut Pool,
    )
        requires
            old(self).buffer is Some,
            old(self).buffer_spec().active_page is Some,
            old(pool).wf(),
            old(pool).holds(old(self).evicted_handle()),
            old(pool).page_at(old(self).evicted_handle()).dirty && old(pool).page_at(old(self).evicted_handle()).id.page_index == 0 ==> pages(*old(save_request_first_page_queue)).len() < 3,
            old(pool).page_at(old(self).evicted_handle()).dirty && old(pool).page_at(old(self).evicted_handle()).id.page_index != 0 ==> handles(*old(save_request_queue)).len() < 3,
        ensures
            Manager::same_but_active_page(*old(self), *final(self)),
            final(self).buffer_spec().active_page is None,
            !old(pool).page_at(old(self).evicted_handle()).dirty ==> handles(*final(save_request_queue)) == handles(*old(save_request_queue)) && pages(*final(save_request_first_page_queue)) == pages(*old(save_request_first_page_queue)) && final(self).page_0_cache == old(self).page_0_cache && final(pool).wf() && final(pool).slots@ == old(pool).slots@.update(old(self).evicted_handle().pool_index as int, None),
            old(pool).page_at(old(self).evicted_handle()).dirty && old(pool).page_at(old(self).evicted_handle()).id.page_index == 0 ==> *final(pool) == *old(pool) && handles(*final(save_request_queue)) == handles(*old(save_request_queue)) && final(self).page_0_cache == Some(old(self).evicted_handle()) && pages(*final(save_request_first_page_queue)).len() == pages(*old(save_request_first_page_queue)).len() + 1 && pages(*final(save_request_first_page_queue)).last()@ == old(pool).page_at(old(self).evicted_handle())@ && pages(*final(save_request_first_page_queue)).take(pages(*old(save_request_first_page_queue)).len() as int) == pages(*old(save_request_first_page_queue)),
            old(pool).page_at(old(self).evicted_handle()).dirty && old(pool).page_at(old(self).evicted_handle()).id.page_index != 0 ==> *final(pool) == *old(pool) && final(self).page_0_cache == old(self).page_0_cache && pages(*final(save_request_first_page_queue)) == pages(*old(save_request_first_page_queue)) && handles(*final(save_request_queue)) == handles(*old(save_request_queue)).push(old(self).evicted_handle()),
    {
        let handle = match &mut self.buffer {
            Some(buffer) => buffer.take_page(),
            None => vstd::pervasive::unreached(),
        };

        if pool.page_ref(&handle).is_dirty() {
            if pool.page_ref(&handle).index() == 0 {
                let copy = pool.page_ref(&handle).clone();
                let result = enqueue_page(save_request_first_page_queue, copy);
                match result {
                    Ok(_) => {},
                    Err(_) => {
                        proof {
                            assert(false);
                        }
                    },
                }
                proof {
                    assert(pages(*save_request_first_page_queue).take(pages(*old(save_request_first_page_queue)).len() as int) =~= pages(*old(save_request_first_page_queue)));
                }
                self.page_0_cache = Some(handle);
            } else {
                let result = enqueue_handle(save_request_queue, handle);
                match result {
                    Ok(_) => {},
                    Err(_) => {
                        proof {
                            assert(false);
                        }
                    },
                }
            }
        } else {
            pool.drop_page(handle);
        }
    }

    /// Jumps to the start without discarding the held page; see
    /// [`Buffer::reset_position`].
    pub fn reset_position(&mut self)
        requires
            old(self).buffer is Some,
        ensures
            final(self).buffer is Some,
            final(self).page_0_cache == old(self).page_0_cache,
            final(self).buffer_spec().pointer == 0,
            final(self).buffer_spec().active_page == old(self).buffer_spec().active_page,
            final(self).buffer_spec().cassette == old(self).buffer_spec().cassette,
            final(self).buffer_spec().recording == old(self).buffer_spec().recording,
    {
        match &mut self.buffer {
            Some(buffer) => buffer.reset_position(),
            None => vstd::pervasive::unreached(),
        }
    }
}

} // verus!
