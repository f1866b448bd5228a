//! The four bounded, non-blocking channels between the audio context, the
//! control context and the storage task, carried by `heapless` single
//! producer / single consumer queues of `N = 4` slots (which hold up to
//! `N - 1 = 3` items). Enqueue and dequeue never block; enqueueing onto a
//! full queue is a draining-cadence violation by the caller, so the callers
//! in this crate rule it out by precondition.

use vstd::prelude::*;

use crate::config::Config;
use crate::page::{Page, PageRequest};
use crate::pool::Handle;

verus! {

#[verifier::external_type_specification]
#[verifier::external_body]
#[verifier::reject_recursive_types(T)]
pub struct ExSpscQueue<T, const N: usize>(heapless::spsc::Queue<T, N>);

/// The page requests the load-request channel holds, front first.
pub uninterp spec fn load_requests(queue: heapless::spsc::Queue<PageRequest, 4>) -> Seq<
    PageRequest,
>;

/// The ownership tickets a handle channel holds, front first. Both the
/// load-response channel and the ordinary save channel carry handles.
pub uninterp spec fn handles(queue: heapless::spsc::Queue<Handle, 4>) -> Seq<Handle>;

/// The page values the first-page save channel holds, front first.
pub uninterp spec fn pages(queue: heapless::spsc::Queue<Page, 4>) -> Seq<Page>;

/// The configuration updates the configuration channel holds, front first.
pub uninterp spec fn configs(queue: heapless::spsc::Queue<Config, 4>) -> Seq<Config>;

/// Relies on heapless::spsc::Queue::enqueue: appends the item at the back
/// when fewer than `N - 1 = 3` items are held, else hands it back.
#[verifier::external_body]
pub(crate) fn enqueue_load_request(queue: &mut heapless::spsc::Queue<PageRequest, 4>, request: PageRequest) -> (result: Result<(), PageRequest>)
    ensures
        load_requests(*old(queue)).len() < 3 ==> result is Ok && load_requests(*final(queue)) == load_requests(*old(queue)).push(request),
        load_requests(*old(queue)).len() >= 3 ==> (result matches Err(returned) && returned == request) && load_requests(*final(queue)) == load_requests(*old(queue)),
{
    queue.enqueue(request)
}

/// Relies on heapless::spsc::Queue::enqueue: appends the item at the back
/// when fewer than `N - 1 = 3` items are held, else hands it back.
#[verifier::external_body]
pub(crate) fn enqueue_handle(
    queue: &mut heapless::spsc::Queue<Handle, 4>,
    handle: Handle,
) -> (result: Result<(), Handle>)
    ensures
        handles(*old(queue)).len() < 3 ==> result is Ok && handles(*final(queue)) == handles(*old(queue)).push(handle),
        handles(*old(queue)).len() >= 3 ==> (result matches Err(returned) && returned == handle) && handles(*final(queue)) == handles(*old(queue)),
{
    queue.enqueue(handle)
}

/// Relies on heapless::spsc::Queue::enqueue: appends the item at the back
/// when fewer than `N - 1 = 3` items are held, else hands it back.
#[verifier::external_body]
pub(crate) fn enqueue_page(
    queue: &mut heapless::spsc::Queue<Page, 4>,
    page: Page,
) -> (result: Result<(), Page>)
    ensures
        pages(*old(queue)).len() < 3 ==> result is Ok && pages(*final(queue)) == pages(*old(queue)).push(page),
        pages(*old(queue)).len() >= 3 ==> (result matches Err(returned) && returned == page) && pages(*final(queue)) == pages(*old(queue)),
{
    queue.enqueue(page)
}

/// Relies on heapless::spsc::Queue::dequeue: removes and returns the front
/// item, or returns nothing on an empty queue.
#[verifier::external_body]
pub(crate) fn dequeue_handle(queue: &mut heapless::spsc::Queue<Handle, 4>) -> (result: Option<
    Handle,
>)
    ensures
        handles(*old(queue)).len() == 0 ==> result is None && handles(*final(queue)) == handles(*old(queue)),
        handles(*old(queue)).len() > 0 ==> (result matches Some(front) && front == handles(*old(queue)).first()) && handles(*final(queue)) == handles(*old(queue)).drop_first(),
{
    queue.dequeue()
}

/// Relies on heapless::spsc::Queue::dequeue: removes and returns the front
/// item, or returns nothing on an empty queue.
#[verifier::external_body]
pub(crate) fn dequeue_config(queue: &mut heapless::spsc::Queue<Config, 4>) -> (result: Option<
    Config,
>)
    ensures
        configs(*old(queue)).len() == 0 ==> result is None && configs(*final(queue)) == configs(*old(queue)),
        configs(*old(queue)).len() > 0 ==> result == Some(configs(*old(queue)).first()) && configs(*final(queue)) == configs(*old(queue)).drop_first(),
{
    queue.dequeue()
}

} // verus!
