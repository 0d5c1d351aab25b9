//! The requests that a run sends to the store.

use crate::dataset::is_dataset;
use crate::dataset::NUM;
use crate::random::random_u64;
use crate::record::Bar;
use crate::record::Foo;
use crate::record::RecordView;
use vstd::prelude::*;

verus! {

/// Deletes every record of both sets.
pub const RESET_STATEMENT: &'static str =
    "delete foo return none parallel; delete bar return none parallel";

/// Creates the `Foo` bound to `$foo`, then the `has` edge from it to the `Bar`
/// whose key is bound to `$bar.pk`.
pub const CREATE_FOO_STATEMENT: &'static str =
    "create foo:[$foo.pk] content $foo return none; relate foo:[$foo.pk]->has->bar:[$bar.pk] return none;";

/// Creates the `Bar` bound to `$bar`.
pub const CREATE_BAR_STATEMENT: &'static str = "create bar:[$bar.pk] content $bar return none;";

/// Follows the `has` edges forward from the `Foo` with key `$foo_id` and
/// backward from the `Bar` with key `$bar_id`, each beside the record itself.
pub const READ_STATEMENT: &'static str =
    "select (select ->has->bar from $parent) as bar, (select * from $parent) as foo from foo:[$foo_id] parallel; select (select <-has<-foo from $parent) as foo, (select * from $parent) as bar from bar:[$bar_id] parallel;";

/// One request, with the values that its statement binds.
#[derive(Debug, Clone)]
pub enum Request {
    /// Delete both record sets.
    Reset,
    /// Create `foo` and the edge from it to the `Bar` with key `bar_pk`.
    CreateFoo { foo: Foo, bar_pk: u64 },
    /// Create `bar`.
    CreateBar { bar: Bar },
    /// Traverse forward from the `Foo` with key `foo_id` and backward from the
    /// `Bar` with key `bar_id`.
    Read { foo_id: u64, bar_id: u64 },
}

/// What a request holds.
pub enum RequestView {
    Reset,
    CreateFoo { foo: RecordView, bar_pk: u64 },
    CreateBar { bar: RecordView },
    Read { foo_id: u64, bar_id: u64 },
}

impl View for Request {
    type V = RequestView;

    open spec fn view(&self) -> RequestView {
        match self {
            Request::Reset => RequestView::Reset,
            Request::CreateFoo { foo, bar_pk } => RequestView::CreateFoo { foo: foo@, bar_pk: *bar_pk },
            Request::CreateBar { bar } => RequestView::CreateBar { bar: bar@ },
            Request::Read { foo_id, bar_id } => RequestView::Read { foo_id: *foo_id, bar_id: *bar_id },
        }
    }
}

impl RequestView {
    /// The text of the statement that carries the request.
    pub open spec fn statement(self) -> Seq<char> {
        match self {
            RequestView::Reset => RESET_STATEMENT@,
            RequestView::CreateFoo { .. } => CREATE_FOO_STATEMENT@,
            RequestView::CreateBar { .. } => CREATE_BAR_STATEMENT@,
            RequestView::Read { .. } => READ_STATEMENT@,
        }
    }

    /// Whether the request changes what the store holds.
    pub open spec fn is_mutation(self) -> bool {
        !(self is Read)
    }
}

impl Request {
    /// The text of the statement that carries the request.
    pub fn statement(&self) -> (text: &'static str)
        ensures
            text@ == self@.statement(),
    {
        match self {
            Request::Reset => RESET_STATEMENT,
            Request::CreateFoo { .. } => CREATE_FOO_STATEMENT,
            Request::CreateBar { .. } => CREATE_BAR_STATEMENT,
            Request::Read { .. } => READ_STATEMENT,
        }
    }

    /// Whether the request changes what the store holds.
    pub fn is_mutation(&self) -> (m: bool)
        ensures
            m == self@.is_mutation(),
    {
        match self {
            Request::Read { .. } => false,
            _ => true,
        }
    }
}

/// The two requests that create one pair: the first creates the `Foo` and its
/// edge to the `Bar`'s key, the second creates the `Bar`.
pub fn pair_requests(foo: Foo, bar: Bar) -> (requests: (Request, Request))
    ensures
        requests.0@ == (RequestView::CreateFoo { foo: foo@, bar_pk: bar@.pk }),
        requests.1@ == (RequestView::CreateBar { bar: bar@ }),
{
    let bar_pk = bar.pk();
    (Request::CreateFoo { foo, bar_pk }, Request::CreateBar { bar })
}

/// `plan` creates the pairs of `data`: two requests for each pair, in the
/// order of `data`, as `pair_requests` makes them.
pub open spec fn is_write_plan(plan: Seq<Request>, data: Seq<(Foo, Bar)>) -> bool {
    &&& plan.len() == 2 * data.len()
    &&& forall|i: int| 0 <= i < data.len() ==> {
        &&& (#[trigger] plan[2 * i])@ == (RequestView::CreateFoo {
            foo: data[i].0@,
            bar_pk: data[i].1@.pk,
        })
        &&& plan[2 * i + 1]@ == (RequestView::CreateBar { bar: data[i].1@ })
    }
}

/// `plan` populates the store with the keys 1 to `n`: for the key `k`, the
/// request at position `2 (k - 1)` creates the `Foo` with that key and the edge
/// from it to the `Bar` with that key, and the next request creates that `Bar`.
pub open spec fn is_population_plan(plan: Seq<RequestView>, n: nat) -> bool {
    &&& plan.len() == 2 * n
    &&& forall|i: int| 0 <= i < n ==> {
        &&& (#[trigger] plan[2 * i]) matches RequestView::CreateFoo { foo, bar_pk }
        &&& foo.pk == i + 1
        &&& bar_pk == i + 1
        &&& plan[2 * i + 1] matches RequestView::CreateBar { bar }
        &&& bar.pk == i + 1
    }
}

/// A population plan creates every record once: the `Foo` with the key `k` is
/// created by the request at position `2 (k - 1)` and by no other, the `Bar`
/// with that key by the request after it and by no other, and no request
/// resets or reads.
pub proof fn lemma_each_key_created_once(plan: Seq<RequestView>, n: nat, i: int)
    requires
        is_population_plan(plan, n),
        0 <= i < plan.len(),
    ensures
        i % 2 == 0 ==> (plan[i] matches RequestView::CreateFoo { foo, bar_pk } && foo.pk == i / 2 + 1
            && bar_pk == i / 2 + 1),
        i % 2 == 1 ==> (plan[i] matches RequestView::CreateBar { bar } && bar.pk == i / 2 + 1),
        1 <= i / 2 + 1 <= n,
{
    let pair = i / 2;
    if i % 2 == 0 {
        assert(plan[2 * pair] is CreateFoo);
    } else {
        assert(plan[2 * pair + 1] is CreateBar);
    }
}

/// What the requests of `plan` hold, in order.
pub open spec fn views(plan: Seq<Request>) -> Seq<RequestView> {
    Seq::new(plan.len(), |i: int| plan[i]@)
}

/// The write plan of a data set of `n` pairs populates the store with the
/// keys 1 to `n`.
pub proof fn lemma_write_plan_populates(plan: Seq<Request>, data: Seq<(Foo, Bar)>, n: nat)
    requires
        is_write_plan(plan, data),
        is_dataset(data, n),
    ensures
        is_population_plan(views(plan), n),
{
    assert forall|i: int| 0 <= i < n implies {
        &&& (#[trigger] views(plan)[2 * i]) matches RequestView::CreateFoo { foo, bar_pk }
        &&& foo.pk == i + 1
        &&& bar_pk == i + 1
        &&& views(plan)[2 * i + 1] matches RequestView::CreateBar { bar }
        &&& bar.pk == i + 1
    } by {
        assert(plan[2 * i]@ == (RequestView::CreateFoo { foo: data[i].0@, bar_pk: data[i].1@.pk }));
        assert(data[i].0@.pk == i + 1);
    }
}

/// The requests of a write phase for the pairs of `data`.
pub fn write_plan(data: Vec<(Foo, Bar)>) -> (plan: Vec<Request>)
    ensures
        is_write_plan(plan@, data@),
{
    let mut plan: Vec<Request> = Vec::new();
    let ghost all = data@;
    for pair in it: data
        invariant
            it.seq() == all,
            is_write_plan(plan@, all.take(it.index())),
    {
        let ghost before = plan@;
        let ghost i = it.index();
        let (foo, bar) = pair;
        let (first, second) = pair_requests(foo, bar);
        plan.push(first);
        plan.push(second);
        proof {
            assert(plan@.len() == 2 * (i + 1));
            assert forall|j: int| 0 <= j < i + 1 implies {
                &&& (#[trigger] plan@[2 * j])@ == (RequestView::CreateFoo {
                    foo: all.take(i + 1)[j].0@,
                    bar_pk: all.take(i + 1)[j].1@.pk,
                })
                &&& plan@[2 * j + 1]@ == (RequestView::CreateBar { bar: all.take(i + 1)[j].1@ })
            } by {
                if j < i {
                    assert(plan@[2 * j] == before[2 * j]);
                    assert(plan@[2 * j + 1] == before[2 * j + 1]);
                    assert(all.take(i)[j] == all.take(i + 1)[j]);
                }
            }
        }
    }
    proof {
        assert(all.take(all.len() as int) =~= all);
    }
    plan
}

/// Reduces a random integer to a key below `NUM`.
pub fn sample_key(raw: u64) -> (key: u64)
    ensures
        key == raw % NUM,
        key < NUM,
{
    raw % NUM
}

/// The read request for two random integers, each reduced to a key.
pub fn read_request(raw_foo: u64, raw_bar: u64) -> (request: Request)
    ensures
        request@ == (RequestView::Read { foo_id: raw_foo % NUM, bar_id: raw_bar % NUM }),
{
    Request::Read { foo_id: sample_key(raw_foo), bar_id: sample_key(raw_bar) }
}

/// `request` is a read whose two keys lie below `NUM`.
pub open spec fn is_sampled_read(request: RequestView) -> bool {
    match request {
        RequestView::Read { foo_id, bar_id } => foo_id < NUM && bar_id < NUM,
        _ => false,
    }
}

/// A read request with two keys drawn independently.
pub fn random_read_request() -> (request: Request)
    ensures
        is_sampled_read(request@),
{
    let raw_foo = random_u64();
    let raw_bar = random_u64();
    read_request(raw_foo, raw_bar)
}

/// The requests of a read phase: `tasks` reads, each with its own two keys.
pub fn read_plan(tasks: u64) -> (plan: Vec<Request>)
    ensures
        plan@.len() == tasks,
        forall|i: int| 0 <= i < plan@.len() ==> is_sampled_read(#[trigger] plan@[i]@),
{
    let mut plan: Vec<Request> = Vec::new();
    let mut sent: u64 = 0;
    while sent < tasks
        invariant
            sent <= tasks,
            plan@.len() == sent,
            forall|i: int| 0 <= i < plan@.len() ==> is_sampled_read(#[trigger] plan@[i]@),
        decreases tasks - sent,
    {
        plan.push(random_read_request());
        sent += 1;
    }
    plan
}

} // verus!
