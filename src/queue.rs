use queues::IsQueue;
use queues::Queue;
use vstd::prelude::*;

verus! {

#[verifier::external_type_specification]
#[verifier::external_body]
#[verifier::reject_recursive_types(T)]
pub struct ExQueue<T: Clone>(Queue<T>);

/// The bytes in a queue, oldest first.
pub uninterp spec fn queue_items(q: Queue<u8>) -> Seq<u8>;

/// Relies on `queues::Queue::new`: a new queue holds nothing.
#[verifier::external_body]
pub(crate) fn new_queue() -> (r: Queue<u8>)
    ensures
        queue_items(r) == Seq::<u8>::empty(),
{
    Queue::new()
}

/// Relies on `IsQueue::add` for `Queue`: the byte goes to the back, and
/// adding to this unbounded queue always succeeds.
#[verifier::external_body]
pub(crate) fn queue_add(q: &mut Queue<u8>, b: u8)
    ensures
        queue_items(*final(q)) == queue_items(*old(q)).push(b),
{
    let _ = q.add(b);
}

/// Relies on `IsQueue::remove` for `Queue`: takes the oldest byte, or fails
/// on an empty queue and leaves it as it was.
#[verifier::external_body]
pub(crate) fn queue_remove(q: &mut Queue<u8>) -> (r: Option<u8>)
    ensures
        queue_items(*old(q)).len() == 0 ==> r is None && queue_items(*final(q)) == queue_items(
            *old(q),
        ),
        queue_items(*old(q)).len() > 0 ==> r == Some(queue_items(*old(q))[0]) && queue_items(
            *final(q),
        ) == queue_items(*old(q)).drop_first(),
{
    match q.remove() {
        Ok(b) => Some(b),
        Err(_) => None,
    }
}

/// Relies on `IsQueue::peek` for `Queue`: the oldest byte, or `None` on an
/// empty queue.
#[verifier::external_body]
pub(crate) fn queue_peek(q: &Queue<u8>) -> (r: Option<u8>)
    ensures
        queue_items(*q).len() == 0 ==> r is None,
        queue_items(*q).len() > 0 ==> r == Some(queue_items(*q)[0]),
{
    match q.peek() {
        Ok(b) => Some(b),
        Err(_) => None,
    }
}

/// Relies on `IsQueue::size` for `Queue`: the number of bytes held.
#[verifier::external_body]
pub(crate) fn queue_size(q: &Queue<u8>) -> (r: usize)
    ensures
        r == queue_items(*q).len(),
{
    q.size()
}

} // verus!
