//! A model of what the store holds, and of what each request does to it.
//!
//! The store itself is a remote service. This module states, over sets of
//! keys, what the requests of this crate ask of it, and proves what follows
//! for a whole phase: a write phase that started from a reset leaves exactly
//! the keyed pairs and their edges, and a read phase leaves everything as it
//! was.

use crate::request::is_population_plan;
use crate::request::is_sampled_read;
use crate::request::lemma_each_key_created_once;
use crate::request::views;
use crate::request::Request;
use crate::request::RequestView;
use vstd::prelude::*;
use vstd::seq_lib::lemma_fold_left_permutation;

verus! {

/// The keys of the records of each set, and the `has` edges as pairs of the
/// source `Foo`'s key and the target `Bar`'s key.
pub struct Store {
    pub foos: Set<u64>,
    pub bars: Set<u64>,
    pub edges: Set<(u64, u64)>,
}

/// What one read request returns: the keys reached forward from the `Foo` and
/// backward from the `Bar`. Either is empty when its start record is missing.
pub struct ReadResult {
    pub forward: Set<u64>,
    pub reverse: Set<u64>,
}

impl Store {
    /// The store without any record or edge.
    pub open spec fn empty() -> Store {
        Store { foos: Set::empty(), bars: Set::empty(), edges: Set::empty() }
    }

    /// The store of the steady state: for every key from 1 to `n` one `Foo`,
    /// one `Bar` and the edge between them, and nothing else.
    pub open spec fn populated(n: nat) -> Store {
        Store {
            foos: Set::new(|k: u64| 1 <= k <= n),
            bars: Set::new(|k: u64| 1 <= k <= n),
            edges: Set::new(|e: (u64, u64)| 1 <= e.0 <= n && e.1 == e.0),
        }
    }

    /// The store after `request` took effect. An edge is recorded by the keys
    /// of its ends: its target need not be there yet.
    pub open spec fn apply(self, request: RequestView) -> Store {
        match request {
            RequestView::Reset => Store::empty(),
            RequestView::CreateFoo { foo, bar_pk } => Store {
                foos: self.foos.insert(foo.pk),
                bars: self.bars,
                edges: self.edges.insert((foo.pk, bar_pk)),
            },
            RequestView::CreateBar { bar } => Store {
                foos: self.foos,
                bars: self.bars.insert(bar.pk),
                edges: self.edges,
            },
            RequestView::Read { .. } => self,
        }
    }

    /// The store after the requests of `requests` took effect one after the
    /// other.
    pub open spec fn apply_all(self, requests: Seq<RequestView>) -> Store {
        requests.fold_left(self, |s: Store, r: RequestView| s.apply(r))
    }

    /// What a read of the two keys returns.
    pub open spec fn read(self, foo_id: u64, bar_id: u64) -> ReadResult {
        ReadResult {
            forward: Set::new(|b: u64| self.foos.contains(foo_id) && self.edges.contains((foo_id, b))),
            reverse: Set::new(|a: u64| self.bars.contains(bar_id) && self.edges.contains((a, bar_id))),
        }
    }
}

/// The effect of a request that is no reset. Such effects commute.
spec fn absorb(s: Store, r: RequestView) -> Store {
    if r is Reset {
        s
    } else {
        s.apply(r)
    }
}

proof fn lemma_absorb_commutes()
    ensures
        vstd::seq_lib::commutative_foldl(|s: Store, r: RequestView| absorb(s, r)),
{
    let f = |s: Store, r: RequestView| absorb(s, r);
    assert forall|x: RequestView, y: RequestView, v: Store| #[trigger] f(f(v, x), y) == f(f(v, y), x) by {
        let a = absorb(absorb(v, x), y);
        let b = absorb(absorb(v, y), x);
        assert(a.foos =~= b.foos);
        assert(a.bars =~= b.bars);
        assert(a.edges =~= b.edges);
    }
}

/// Without a reset among them, requests take effect as `absorb` says.
proof fn lemma_apply_all_absorbs(s: Store, requests: Seq<RequestView>)
    requires
        forall|i: int| 0 <= i < requests.len() ==> !(#[trigger] requests[i] is Reset),
    ensures
        s.apply_all(requests) == requests.fold_left(s, |s: Store, r: RequestView| absorb(s, r)),
    decreases requests.len(),
{
    if requests.len() > 0 {
        lemma_apply_all_absorbs(s, requests.drop_last());
        assert(!(requests[requests.len() - 1] is Reset));
    }
}

/// Sent in the order of the plan, the requests of a population plan take the
/// empty store to the populated one.
proof fn lemma_plan_in_order(plan: Seq<RequestView>, n: nat)
    requires
        is_population_plan(plan, n),
    ensures
        Store::empty().apply_all(plan) == Store::populated(n),
    decreases n,
{
    let end = Store::empty().apply_all(plan);
    if n == 0 {
        assert(end.foos =~= Store::populated(n).foos);
        assert(end.bars =~= Store::populated(n).bars);
        assert(end.edges =~= Store::populated(n).edges);
    } else {
        let m = (n - 1) as nat;
        let shorter = plan.drop_last().drop_last();
        assert(is_population_plan(shorter, m)) by {
            assert forall|i: int| 0 <= i < m implies {
                &&& (#[trigger] shorter[2 * i]) matches RequestView::CreateFoo { foo, bar_pk }
                &&& foo.pk == i + 1
                &&& bar_pk == i + 1
                &&& shorter[2 * i + 1] matches RequestView::CreateBar { bar }
                &&& bar.pk == i + 1
            } by {
                assert(shorter[2 * i] == plan[2 * i]);
                assert(shorter[2 * i + 1] == plan[2 * i + 1]);
            }
        }
        lemma_plan_in_order(shorter, m);
        let create_foo = plan[2 * (m as int)];
        let create_bar = plan[2 * (m as int) + 1];
        assert(plan.drop_last().last() == create_foo);
        assert(plan.last() == create_bar);
        assert(end == Store::populated(m).apply(create_foo).apply(create_bar));
        assert(end.foos =~= Store::populated(n).foos);
        assert(end.bars =~= Store::populated(n).bars);
        assert(end.edges =~= Store::populated(n).edges);
    }
}

/// A reset leaves no record and no edge, whatever the store held before.
pub proof fn lemma_reset_empties(before: Store)
    ensures
        before.apply(RequestView::Reset) == Store::empty(),
        before.apply(RequestView::Reset).foos.len() == 0,
        before.apply(RequestView::Reset).bars.len() == 0,
        before.apply(RequestView::Reset).edges.len() == 0,
{
}

/// After a write phase, the store holds for every key from 1 to `n` exactly
/// one `Foo`, one `Bar` and the edge between them, and nothing with another
/// key. This holds in whatever order the requests of the plan took effect:
/// `order` is any rearrangement of the plan.
pub proof fn lemma_write_phase_populates(plan: Seq<RequestView>, order: Seq<RequestView>, n: nat)
    requires
        is_population_plan(plan, n),
        order.to_multiset() == plan.to_multiset(),
    ensures
        Store::empty().apply_all(order) == Store::populated(n),
{
    broadcast use vstd::seq_lib::group_to_multiset_ensures;

    assert forall|i: int| 0 <= i < plan.len() implies !(#[trigger] plan[i] is Reset) by {
        lemma_each_key_created_once(plan, n, i);
    }
    assert forall|i: int| 0 <= i < order.len() implies !(#[trigger] order[i] is Reset) by {
        assert(order.contains(order[i]));
        assert(order.to_multiset().count(order[i]) > 0);
        assert(plan.contains(order[i]));
    }
    lemma_apply_all_absorbs(Store::empty(), plan);
    lemma_apply_all_absorbs(Store::empty(), order);
    lemma_absorb_commutes();
    lemma_fold_left_permutation(
        order,
        plan,
        |s: Store, r: RequestView| absorb(s, r),
        Store::empty(),
    );
    lemma_plan_in_order(plan, n);
}

/// A whole write phase, reset included, takes any store to the populated one.
pub proof fn lemma_round_repopulates(
    before: Store,
    plan: Seq<RequestView>,
    order: Seq<RequestView>,
    n: nat,
)
    requires
        is_population_plan(plan, n),
        order.to_multiset() == plan.to_multiset(),
    ensures
        before.apply(RequestView::Reset).apply_all(order) == Store::populated(n),
{
    lemma_write_phase_populates(plan, order, n);
}

/// In the populated store every key from 1 to `n` is there once in either
/// set, with one edge that leaves it and one that reaches it, and no other key
/// is there at all.
pub proof fn lemma_populated_exactly(n: nat, key: u64)
    ensures
        Store::populated(n).foos.contains(key) <==> 1 <= key <= n,
        Store::populated(n).bars.contains(key) <==> 1 <= key <= n,
        forall|other: u64| Store::populated(n).edges.contains((key, other)) <==> 1 <= key <= n && other == key,
        forall|other: u64| Store::populated(n).edges.contains((other, key)) <==> 1 <= key <= n && other == key,
{
}

/// A read changes nothing: after any number of reads the store is what it was.
pub proof fn lemma_reads_change_nothing(store: Store, reads: Seq<RequestView>)
    requires
        forall|i: int| 0 <= i < reads.len() ==> !(#[trigger] reads[i]).is_mutation(),
    ensures
        store.apply_all(reads) == store,
    decreases reads.len(),
{
    if reads.len() > 0 {
        lemma_reads_change_nothing(store, reads.drop_last());
        assert(!reads[reads.len() - 1].is_mutation());
    }
}

/// The requests of a read phase, all of them sampled reads, leave the store
/// as it was: no record or edge is added or lost.
pub proof fn lemma_read_phase_is_pure(store: Store, plan: Seq<Request>)
    requires
        forall|i: int| 0 <= i < plan.len() ==> is_sampled_read(#[trigger] plan[i]@),
    ensures
        store.apply_all(views(plan)) == store,
        store.apply_all(views(plan)).foos.len() == store.foos.len(),
        store.apply_all(views(plan)).bars.len() == store.bars.len(),
        store.apply_all(views(plan)).edges.len() == store.edges.len(),
{
    assert forall|i: int| 0 <= i < views(plan).len() implies !(#[trigger] views(plan)[i]).is_mutation() by {
        assert(is_sampled_read(plan[i]@));
    }
    lemma_reads_change_nothing(store, views(plan));
}

/// A read phase can be repeated: a read returns after it what it returned
/// before it.
pub proof fn lemma_reads_repeat(store: Store, reads: Seq<RequestView>, foo_id: u64, bar_id: u64)
    requires
        forall|i: int| 0 <= i < reads.len() ==> !(#[trigger] reads[i]).is_mutation(),
    ensures
        store.apply_all(reads).read(foo_id, bar_id) == store.read(foo_id, bar_id),
        store.apply_all(reads).apply_all(reads) == store,
{
    lemma_reads_change_nothing(store, reads);
}

/// In the populated store a read of a key outside 1 to `n`, such as 0, returns
/// nothing in that direction, and a read of a key inside returns the one
/// record that shares the key.
pub proof fn lemma_read_of_populated(n: nat, foo_id: u64, bar_id: u64)
    ensures
        !(1 <= foo_id <= n) ==> Store::populated(n).read(foo_id, bar_id).forward == Set::<u64>::empty(),
        !(1 <= bar_id <= n) ==> Store::populated(n).read(foo_id, bar_id).reverse == Set::<u64>::empty(),
        1 <= foo_id <= n ==> Store::populated(n).read(foo_id, bar_id).forward == set![foo_id],
        1 <= bar_id <= n ==> Store::populated(n).read(foo_id, bar_id).reverse == set![bar_id],
{
    let r = Store::populated(n).read(foo_id, bar_id);
    if !(1 <= foo_id <= n) {
        assert(r.forward =~= Set::<u64>::empty());
    } else {
        assert(r.forward =~= set![foo_id]);
    }
    if !(1 <= bar_id <= n) {
        assert(r.reverse =~= Set::<u64>::empty());
    } else {
        assert(r.reverse =~= set![bar_id]);
    }
}

} // verus!
