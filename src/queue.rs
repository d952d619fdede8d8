use crate::item::{copy_items, ids_unique, Item, Mode};
use crate::shuffle::shuffle_items;
use vstd::prelude::*;

verus! {

/// The two items shown next, with the collection snapshot they came from.
#[derive(Debug, Clone)]
pub struct Pair {
    pub left: Item,
    pub right: Item,
    /// The whole collection, as fetched, for the side table.
    pub query: Vec<Item>,
}

/// Why no pair could be selected.
#[derive(Debug, Clone, Copy, PartialEq, Eq, Structural)]
pub enum SelectError {
    /// The collection holds fewer than two items.
    InsufficientItems,
}

/// Items still to be shown in the current round; the next one shown is the
/// last one of the sequence.
pub struct ComparisonQueue {
    items: Vec<Item>,
}

impl View for ComparisonQueue {
    type V = Seq<Item>;

    closed spec fn view(&self) -> Seq<Item> {
        self.items@
    }
}

/// `p` holds the items of `c`, each as often as `c` does, in some order.
pub open spec fn is_shuffle_of(p: Seq<Item>, c: Seq<Item>) -> bool {
    p.to_multiset() == c.to_multiset()
}

/// The queue that Round mode pops from, given a fresh shuffle of the
/// collection: an empty queue is replaced by the shuffle; a single leftover
/// item is put on top of the shuffle, so that it is shown next; a longer
/// queue stays as it is.
pub open spec fn refilled(queue: Seq<Item>, fresh: Seq<Item>) -> Seq<Item> {
    if queue.len() == 0 {
        fresh
    } else if queue.len() == 1 {
        fresh.push(queue[0])
    } else {
        queue
    }
}

/// The last item, the one before it, and what is left below them.
pub open spec fn pop_two(q: Seq<Item>) -> (Item, Item, Seq<Item>) {
    (q[q.len() - 1], q[q.len() - 2], q.take(q.len() - 2))
}

/// Left item, right item and the queue afterwards, for one selection in
/// `mode` from the queue `queue`, where `shuffled` is the collection after the
/// shuffle that the selection draws.
pub open spec fn select_spec(mode: Mode, queue: Seq<Item>, shuffled: Seq<Item>) -> (
    Item,
    Item,
    Seq<Item>,
) {
    match mode {
        Mode::Match => (pop_two(shuffled).0, pop_two(shuffled).1, queue),
        Mode::Round => pop_two(refilled(queue, shuffled)),
    }
}

impl ComparisonQueue {
    /// An empty queue, as a session starts with.
    pub fn new() -> (r: ComparisonQueue)
        ensures
            r@ == Seq::<Item>::empty(),
    {
        ComparisonQueue { items: Vec::new() }
    }

    pub fn len(&self) -> (r: usize)
        ensures
            r == self@.len(),
    {
        self.items.len()
    }

    /// The item that would be shown next, if any.
    pub fn peek(&self) -> (r: Option<&Item>)
        ensures
            self@.len() == 0 ==> r is None,
            self@.len() > 0 ==> r == Some(&self@[self@.len() - 1]),
    {
        if self.items.len() == 0 {
            None
        } else {
            Some(&self.items[self.items.len() - 1])
        }
    }

    /// Refills the queue from `fresh`, a shuffle of the collection, where the
    /// queue holds fewer than two items.
    pub fn refill(&mut self, fresh: Vec<Item>)
        ensures
            final(self)@ == refilled(old(self)@, fresh@),
    {
        let n = self.items.len();
        if n == 0 {
            self.items = fresh;
        } else if n == 1 {
            let last = self.items.pop().unwrap();
            let mut next = fresh;
            next.push(last);
            self.items = next;
        }
    }

    /// Takes the next two items off the queue.
    pub fn pop_pair(&mut self) -> (r: (Item, Item))
        requires
            old(self)@.len() >= 2,
        ensures
            (r.0, r.1, final(self)@) == pop_two(old(self)@),
    {
        let left = self.items.pop().unwrap();
        let right = self.items.pop().unwrap();
        assert(self.items@ =~= old(self)@.take(old(self)@.len() - 2));
        (left, right)
    }
}

/// The last two items of a shuffled collection, as Match mode takes them.
pub fn pick_pair(shuffled: Vec<Item>) -> (r: (Item, Item))
    requires
        shuffled@.len() >= 2,
    ensures
        r.0 == pop_two(shuffled@).0,
        r.1 == pop_two(shuffled@).1,
{
    let mut rest = shuffled;
    let left = rest.pop().unwrap();
    let right = rest.pop().unwrap();
    (left, right)
}

/// One selection in `mode`, given `shuffled`, the collection after the
/// shuffle that the selection draws. Round mode reads it only where the queue
/// holds fewer than two items.
pub fn select_with(
    mode: Mode,
    collection: &Vec<Item>,
    queue: &mut ComparisonQueue,
    shuffled: Vec<Item>,
) -> (r: Result<Pair, SelectError>)
    requires
        shuffled@.len() == collection@.len(),
    ensures
        match r {
            Ok(pair) => {
                &&& collection@.len() >= 2
                &&& pair.query@ == collection@
                &&& select_spec(mode, old(queue)@, shuffled@) == (
                    pair.left,
                    pair.right,
                    final(queue)@,
                )
            },
            Err(e) => {
                &&& collection@.len() < 2
                &&& e == SelectError::InsufficientItems
                &&& final(queue)@ == old(queue)@
            },
        },
{
    if collection.len() < 2 {
        return Err(SelectError::InsufficientItems);
    }
    let query = copy_items(collection);
    match mode {
        Mode::Match => {
            let (left, right) = pick_pair(shuffled);
            Ok(Pair { left, right, query })
        },
        Mode::Round => {
            queue.refill(shuffled);
            let (left, right) = queue.pop_pair();
            Ok(Pair { left, right, query })
        },
    }
}

/// Selects the next pair to compare from `collection` in `mode`, drawing a
/// fresh shuffle from `rng` where the mode needs one. Whatever the shuffle
/// turned out to be, the result is the selection for some reordering of
/// the collection.
pub fn select_pair(
    mode: Mode,
    collection: &Vec<Item>,
    queue: &mut ComparisonQueue,
    rng: &mut rand::rngs::StdRng,
) -> (r: Result<Pair, SelectError>)
    ensures
        match r {
            Ok(pair) => {
                &&& collection@.len() >= 2
                &&& pair.query@ == collection@
                &&& exists|p: Seq<Item>|
                    #[trigger] is_shuffle_of(p, collection@) && select_spec(
                        mode,
                        old(queue)@,
                        p,
                    ) == (pair.left, pair.right, final(queue)@)
            },
            Err(e) => {
                &&& collection@.len() < 2
                &&& e == SelectError::InsufficientItems
                &&& final(queue)@ == old(queue)@
            },
        },
{
    let mut shuffled = copy_items(collection);
    if mode == Mode::Match || queue.len() < 2 {
        shuffle_items(&mut shuffled, rng);
    }
    proof {
        broadcast use vstd::seq_lib::to_multiset_len;
        assert(shuffled@.to_multiset().len() == collection@.to_multiset().len());
    }
    let ghost p = shuffled@;
    let r = select_with(mode, collection, queue, shuffled);
    proof {
        assert(is_shuffle_of(p, collection@));
    }
    r
}

/// What `k` Round selections in a row show, in the order shown, and the queue
/// they leave, starting from the queue `q` and stopping early where it runs
/// short of two items.
pub open spec fn rounds_run(q: Seq<Item>, k: nat) -> (Seq<Item>, Seq<Item>)
    decreases k,
{
    if k == 0 || q.len() < 2 {
        (Seq::empty(), q)
    } else {
        let (left, right, rest) = pop_two(q);
        let next = rounds_run(rest, (k - 1) as nat);
        (seq![left, right] + next.0, next.1)
    }
}

proof fn lemma_shuffle_no_duplicates(p: Seq<Item>, c: Seq<Item>)
    requires
        is_shuffle_of(p, c),
        c.no_duplicates(),
    ensures
        p.no_duplicates(),
{
    c.lemma_multiset_has_no_duplicates();
    p.lemma_multiset_has_no_duplicates_conv();
}

proof fn lemma_unique_ids_no_duplicates(c: Seq<Item>)
    requires
        ids_unique(c),
    ensures
        c.no_duplicates(),
{
    assert forall|i: int, j: int| 0 <= i < c.len() && 0 <= j < c.len() && i != j implies c[i]
        != c[j] by {
        assert(c[i].id != c[j].id);
    }
}

/// Where no two items of the collection `c` share an identifier, any two
/// distinct positions of a shuffle of `c` hold items whose identifiers differ,
/// both of them items of `c`.
proof fn lemma_shuffle_positions_distinct(p: Seq<Item>, c: Seq<Item>, a: int, b: int)
    requires
        is_shuffle_of(p, c),
        ids_unique(c),
        0 <= a < p.len(),
        0 <= b < p.len(),
        a != b,
    ensures
        c.contains(p[a]),
        c.contains(p[b]),
        p[a].id != p[b].id,
{
    broadcast use vstd::seq_lib::to_multiset_contains;

    lemma_unique_ids_no_duplicates(c);
    lemma_shuffle_no_duplicates(p, c);
    assert(p.contains(p[a]));
    assert(p.contains(p[b]));
    assert(p.to_multiset().count(p[a]) > 0);
    assert(p.to_multiset().count(p[b]) > 0);
    let i = choose|i: int| 0 <= i < c.len() && c[i] == p[a];
    let j = choose|j: int| 0 <= j < c.len() && c[j] == p[b];
    assert(p[a] != p[b]);
    assert(i != j);
}

/// A selection in Match mode, or in Round mode from an empty queue, shows two
/// items of the collection; where no two items of the collection share an
/// identifier, the two identifiers differ.
pub proof fn lemma_fresh_pair_distinct(mode: Mode, queue: Seq<Item>, c: Seq<Item>, p: Seq<Item>)
    requires
        is_shuffle_of(p, c),
        c.len() >= 2,
        mode == Mode::Match || queue.len() == 0,
    ensures
        c.contains(select_spec(mode, queue, p).0),
        c.contains(select_spec(mode, queue, p).1),
        ids_unique(c) ==> select_spec(mode, queue, p).0.id != select_spec(mode, queue, p).1.id,
{
    broadcast use vstd::seq_lib::to_multiset_contains, vstd::seq_lib::to_multiset_len;

    assert(p.to_multiset().len() == c.to_multiset().len());
    let n = p.len() as int;
    assert(p.contains(p[n - 1]));
    assert(p.contains(p[n - 2]));
    assert(p.to_multiset().count(p[n - 1]) > 0);
    assert(p.to_multiset().count(p[n - 2]) > 0);
    if ids_unique(c) {
        lemma_shuffle_positions_distinct(p, c, n - 1, n - 2);
    }
}

/// A Round selection from a queue of two or more items, no two of which share
/// an identifier, shows two items of that queue with different identifiers.
/// (From a queue of one item the leftover is shown beside a fresh shuffle's
/// last item, which may be that same item.)
pub proof fn lemma_queued_pair_distinct(queue: Seq<Item>, p: Seq<Item>)
    requires
        queue.len() >= 2,
        ids_unique(queue),
    ensures
        queue.contains(select_spec(Mode::Round, queue, p).0),
        queue.contains(select_spec(Mode::Round, queue, p).1),
        select_spec(Mode::Round, queue, p).0.id != select_spec(Mode::Round, queue, p).1.id,
{
    let n = queue.len() as int;
    assert(queue[n - 1] == select_spec(Mode::Round, queue, p).0);
    assert(queue[n - 2] == select_spec(Mode::Round, queue, p).1);
}

/// Carry-over: when one item is left in the Round queue, the next selection
/// shows that item, whatever the fresh shuffle `p`; beside it comes the
/// shuffle's last item, and the rest of the shuffle stays queued.
pub proof fn lemma_round_carry_over(queue: Seq<Item>, p: Seq<Item>)
    requires
        queue.len() == 1,
        p.len() >= 1,
    ensures
        select_spec(Mode::Round, queue, p).0 == queue[0],
        select_spec(Mode::Round, queue, p).1 == p.last(),
        select_spec(Mode::Round, queue, p).2 == p.drop_last(),
{
    assert(refilled(queue, p).take(p.len() - 1) =~= p.drop_last());
}

/// Match-mode independence: in Match mode the pair depends on the shuffle
/// alone, never on the queue carried from earlier calls, and the queue is left
/// as it was.
pub proof fn lemma_match_independent(q1: Seq<Item>, q2: Seq<Item>, p: Seq<Item>)
    ensures
        select_spec(Mode::Match, q1, p).0 == select_spec(Mode::Match, q2, p).0,
        select_spec(Mode::Match, q1, p).1 == select_spec(Mode::Match, q2, p).1,
        select_spec(Mode::Match, q1, p).2 == q1,
{
}

proof fn lemma_rounds_run_shape(q: Seq<Item>, k: nat)
    requires
        2 * k <= q.len(),
    ensures
        rounds_run(q, k).0 =~= q.subrange(q.len() - 2 * k, q.len() as int).reverse(),
        rounds_run(q, k).1 =~= q.take(q.len() - 2 * k),
    decreases k,
{
    if k > 0 {
        let n = q.len() as int;
        let rest = q.take(n - 2);
        lemma_rounds_run_shape(rest, (k - 1) as nat);
        assert(rest.take(rest.len() - 2 * (k - 1)) =~= q.take(n - 2 * k));
        assert(rest.subrange(rest.len() - 2 * (k - 1), rest.len() as int) =~= q.subrange(
            n - 2 * k,
            n - 2,
        ));
    }
}

/// Round coverage: after `k` selections in a row that start a round from a
/// fresh shuffle `p` of the collection `c` (2k at most its size), the items
/// shown are the top 2k of the shuffle, in order, each shown once, and the
/// rest stays queued: shown and queued items together are the collection,
/// each item as often as in `c`. Where `c` repeats no item, none repeats.
pub proof fn lemma_round_coverage(c: Seq<Item>, p: Seq<Item>, k: nat)
    requires
        is_shuffle_of(p, c),
        2 * k <= c.len(),
    ensures
        k > 0 ==> select_spec(Mode::Round, Seq::empty(), p) == pop_two(p),
        rounds_run(p, k).0 == p.subrange(p.len() - 2 * k, p.len() as int).reverse(),
        rounds_run(p, k).1 == p.take(p.len() - 2 * k),
        (rounds_run(p, k).0 + rounds_run(p, k).1).to_multiset() == c.to_multiset(),
        c.no_duplicates() ==> (rounds_run(p, k).0 + rounds_run(p, k).1).no_duplicates(),
{
    broadcast use vstd::seq_lib::to_multiset_len;

    assert(p.to_multiset().len() == c.to_multiset().len());
    let n = p.len() as int;
    lemma_rounds_run_shape(p, k);
    let top = p.subrange(n - 2 * k, n);
    let below = p.take(n - 2 * k);
    let all = rounds_run(p, k).0 + rounds_run(p, k).1;
    top.lemma_reverse_to_multiset();
    vstd::seq_lib::lemma_multiset_commutative(top.reverse(), below);
    vstd::seq_lib::lemma_multiset_commutative(below, top);
    assert(below + top =~= p);
    assert(all.to_multiset() =~= c.to_multiset());
    if c.no_duplicates() {
        lemma_shuffle_no_duplicates(all, c);
    }
}

} // verus!
