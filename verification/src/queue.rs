//! The ordered sequence of messages behind the store: first in, first out.

use std::collections::VecDeque;
use vstd::prelude::*;

verus! {

/// The queue after `message` was published to `queue`.
pub open spec fn published(queue: Seq<Seq<char>>, message: Seq<char>) -> Seq<Seq<char>> {
    queue.push(message)
}

/// What one retrieval hands out of `queue`, and the queue it leaves.
pub open spec fn retrieved(queue: Seq<Seq<char>>) -> (Option<Seq<char>>, Seq<Seq<char>>) {
    if queue.len() == 0 {
        (None, queue)
    } else {
        (Some(queue[0]), queue.drop_first())
    }
}

/// The queue after each of `messages` was published to `queue`, in order.
pub open spec fn published_all(queue: Seq<Seq<char>>, messages: Seq<Seq<char>>) -> Seq<
    Seq<char>,
>
    decreases messages.len(),
{
    if messages.len() == 0 {
        queue
    } else {
        published_all(published(queue, messages[0]), messages.drop_first())
    }
}

/// What `count` retrievals in a row hand out of `queue`, and the queue they
/// leave.
pub open spec fn retrieved_many(queue: Seq<Seq<char>>, count: nat) -> (
    Seq<Option<Seq<char>>>,
    Seq<Seq<char>>,
)
    decreases count,
{
    if count == 0 {
        (Seq::empty(), queue)
    } else {
        let (first, rest) = retrieved(queue);
        let (others, left) = retrieved_many(rest, (count - 1) as nat);
        (seq![first] + others, left)
    }
}

/// Neither operation reorders what waits: publishing adds one message behind
/// the others, retrieving takes one from the front, and every other message
/// keeps its place relative to the rest.
pub proof fn lemma_order_is_kept(queue: Seq<Seq<char>>, message: Seq<char>)
    ensures
        published(queue, message).len() == queue.len() + 1,
        published(queue, message).last() == message,
        forall|i: int| 0 <= i < queue.len() ==> published(queue, message)[i] == queue[i],
        queue.len() > 0 ==> retrieved(queue).0 == Some(queue[0]),
        queue.len() > 0 ==> retrieved(queue).1.len() == queue.len() - 1,
        forall|i: int| 0 <= i < queue.len() - 1 ==> retrieved(queue).1[i] == queue[i + 1],
        queue.len() == 0 ==> retrieved(queue) == (None::<Seq<char>>, queue),
{
}

/// Publishing a batch appends it, in order, behind what the queue held.
pub proof fn lemma_published_all(queue: Seq<Seq<char>>, messages: Seq<Seq<char>>)
    ensures
        published_all(queue, messages) == queue + messages,
    decreases messages.len(),
{
    if messages.len() == 0 {
        assert(queue + messages =~= queue);
    } else {
        lemma_published_all(published(queue, messages[0]), messages.drop_first());
        assert(queue.push(messages[0]) + messages.drop_first() =~= queue + messages);
    }
}

/// Retrievals hand out the queue from its front, one message each, and
/// nothing once it is empty; what they did not reach stays in order.
pub proof fn lemma_retrieved_many(queue: Seq<Seq<char>>, count: nat)
    ensures
        retrieved_many(queue, count).0.len() == count,
        forall|i: int|
            0 <= i < count && i < queue.len() ==> #[trigger] retrieved_many(queue, count).0[i]
                == Some(queue[i]),
        forall|i: int|
            queue.len() <= i < count ==> #[trigger] retrieved_many(queue, count).0[i]
                == None::<Seq<char>>,
        count <= queue.len() ==> retrieved_many(queue, count).1 == queue.skip(count as int),
        count >= queue.len() ==> retrieved_many(queue, count).1 == Seq::<Seq<char>>::empty(),
    decreases count,
{
    if count == 0 {
        assert(queue.skip(0) =~= queue);
        if queue.len() == 0 {
            assert(queue =~= Seq::<Seq<char>>::empty());
        }
    } else {
        let (first, rest) = retrieved(queue);
        let (others, left) = retrieved_many(rest, (count - 1) as nat);
        lemma_retrieved_many(rest, (count - 1) as nat);
        let all = retrieved_many(queue, count).0;
        assert(all == seq![first] + others);
        assert forall|i: int| 0 <= i < count && i < queue.len() implies #[trigger] all[i] == Some(
            queue[i],
        ) by {
            if i > 0 {
                assert(all[i] == others[i - 1]);
                assert(rest[i - 1] == queue[i]);
            }
        }
        assert forall|i: int| queue.len() <= i < count implies #[trigger] all[i] == None::<
            Seq<char>,
        > by {
            if i > 0 {
                assert(all[i] == others[i - 1]);
            }
        }
        if queue.len() > 0 && count <= queue.len() {
            assert(rest.skip(count - 1) =~= queue.skip(count as int));
        }
    }
}

/// Round trip: after publishing `messages` to an empty queue, as many
/// retrievals hand them out in the order of their publishing, every further
/// retrieval hands out nothing, and the queue is empty again.
pub proof fn lemma_round_trip(messages: Seq<Seq<char>>, further: nat)
    ensures
        ({
            let filled = published_all(Seq::empty(), messages);
            let (handed, left) = retrieved_many(filled, messages.len() + further);
            &&& filled == messages
            &&& handed.len() == messages.len() + further
            &&& forall|i: int| 0 <= i < messages.len() ==> handed[i] == Some(messages[i])
            &&& forall|i: int|
                messages.len() <= i < messages.len() + further ==> handed[i] == None::<Seq<char>>
            &&& left == Seq::<Seq<char>>::empty()
        }),
{
    let filled = published_all(Seq::empty(), messages);
    lemma_published_all(Seq::empty(), messages);
    assert(Seq::<Seq<char>>::empty() + messages =~= messages);
    lemma_retrieved_many(filled, messages.len() + further);
}

/// Retrieving from an empty queue, however often, hands out nothing and
/// leaves the queue empty.
pub proof fn lemma_retrieve_from_empty(count: nat)
    ensures
        retrieved(Seq::empty()) == (None::<Seq<char>>, Seq::<Seq<char>>::empty()),
        retrieved_many(Seq::empty(), count).0.len() == count,
        forall|i: int|
            0 <= i < count ==> retrieved_many(Seq::empty(), count).0[i] == None::<Seq<char>>,
        retrieved_many(Seq::empty(), count).1 == Seq::<Seq<char>>::empty(),
{
    lemma_retrieved_many(Seq::empty(), count);
}

/// No message is lost or made up: what a run of retrievals hands out and what
/// it leaves are together what the queue held, in order.
pub proof fn lemma_nothing_lost(queue: Seq<Seq<char>>, count: nat)
    requires
        count <= queue.len(),
    ensures
        retrieved_many(queue, count).0.map_values(|m: Option<Seq<char>>| m.unwrap())
            + retrieved_many(queue, count).1 == queue,
{
    lemma_retrieved_many(queue, count);
    let handed = retrieved_many(queue, count).0.map_values(|m: Option<Seq<char>>| m.unwrap());
    assert(handed + retrieved_many(queue, count).1 =~= queue);
}

/// Whatever order a batch of publishes takes effect in, as many retrievals
/// from the once empty queue hand out a message each, every message of the
/// batch exactly as often as it was published, and leave the queue empty.
pub proof fn lemma_any_serialization(messages: Seq<Seq<char>>, order: Seq<Seq<char>>)
    requires
        order.to_multiset() == messages.to_multiset(),
    ensures
        ({
            let (handed, left) = retrieved_many(
                published_all(Seq::empty(), order),
                messages.len(),
            );
            &&& handed.len() == messages.len()
            &&& forall|i: int| 0 <= i < handed.len() ==> handed[i] is Some
            &&& handed.map_values(|m: Option<Seq<char>>| m.unwrap()).to_multiset()
                == messages.to_multiset()
            &&& left == Seq::<Seq<char>>::empty()
        }),
{
    vstd::seq_lib::to_multiset_len(order);
    vstd::seq_lib::to_multiset_len(messages);
    lemma_round_trip(order, 0);
    let handed = retrieved_many(published_all(Seq::empty(), order), messages.len()).0;
    assert(handed.map_values(|m: Option<Seq<char>>| m.unwrap()) =~= order);
}

/// A first-in, first-out queue of text messages.
#[derive(Debug)]
pub struct MessageQueue {
    items: VecDeque<String>,
}

impl View for MessageQueue {
    type V = Seq<Seq<char>>;

    closed spec fn view(&self) -> Seq<Seq<char>> {
        self.items.deep_view()
    }
}

impl MessageQueue {
    /// An empty queue.
    pub fn new() -> (queue: MessageQueue)
        ensures
            queue@ == Seq::<Seq<char>>::empty(),
    {
        let queue = MessageQueue { items: VecDeque::new() };
        assert(queue@ =~= Seq::<Seq<char>>::empty());
        queue
    }

    /// The number of messages waiting.
    pub fn len(&self) -> (n: usize)
        ensures
            n == self@.len(),
    {
        self.items.len()
    }

    /// Appends `message` behind the messages that wait.
    pub fn push(&mut self, message: String)
        ensures
            final(self)@ == published(old(self)@, message@),
    {
        self.items.push_back(message);
        assert(self@ =~= published(old(self)@, message@));
    }

    /// Removes the oldest message and hands it out; `None` where none waits.
    pub fn pop(&mut self) -> (message: Option<String>)
        ensures
            (match message {
                Some(text) => Some(text@),
                None => None,
            }) == retrieved(old(self)@).0,
            final(self)@ == retrieved(old(self)@).1,
    {
        let message = self.items.pop_front();
        assert(self@ =~= retrieved(old(self)@).1);
        message
    }
}

impl Default for MessageQueue {
    fn default() -> (queue: MessageQueue)
        ensures
            queue@ == Seq::<Seq<char>>::empty(),
    {
        MessageQueue::new()
    }
}

} // verus!
