//! The data set of one round: keyed pairs with random contents.

use crate::random::random_bool;
use crate::random::random_string;
use crate::random::random_u64;
use crate::record::Bar;
use crate::record::Foo;
use crate::record::RecordView;
use vstd::prelude::*;

verus! {

/// The number of pairs in the data set, and the bound below which the read
/// phase draws its keys.
pub const NUM: u64 = 1000;

/// A `Foo` with every field random.
fn random_foo() -> Foo {
    let pk = random_u64();
    let str_1 = random_string();
    let str_2 = random_string();
    let str_3 = random_string();
    let paid = random_bool();
    Foo::new(pk, str_1, str_2, str_3, paid)
}

/// A `Bar` with every field random.
fn random_bar() -> Bar {
    let pk = random_u64();
    let str_1 = random_string();
    let str_2 = random_string();
    let str_3 = random_string();
    let paid = random_bool();
    Bar::new(pk, str_1, str_2, str_3, paid)
}

/// Gives both records the key `key` and leaves their other fields alone.
pub fn pair_with_key(key: u64, foo: Foo, bar: Bar) -> (pair: (Foo, Bar))
    ensures
        pair.0@ == (RecordView { pk: key, ..foo@ }),
        pair.1@ == (RecordView { pk: key, ..bar@ }),
{
    let mut foo = foo;
    let mut bar = bar;
    foo.set_pk(key);
    bar.set_pk(key);
    (foo, bar)
}

/// A pair with the key `key` and random contents.
pub fn random_pair(key: u64) -> (pair: (Foo, Bar))
    ensures
        pair.0@.pk == key,
        pair.1@.pk == key,
{
    pair_with_key(key, random_foo(), random_bar())
}

/// `data` is a data set of `n` pairs: the pair at position `i` carries the key
/// `i + 1` on both of its records.
pub open spec fn is_dataset(data: Seq<(Foo, Bar)>, n: nat) -> bool {
    &&& data.len() == n
    &&& forall|i: int| 0 <= i < data.len() ==> {
        &&& (#[trigger] data[i]).0@.pk == i + 1
        &&& data[i].1@.pk == i + 1
    }
}

/// Generates the data set of `n` pairs, keyed 1 to `n` in order, each with
/// freshly drawn contents.
pub fn generate(n: u64) -> (data: Vec<(Foo, Bar)>)
    ensures
        is_dataset(data@, n as nat),
{
    let mut data: Vec<(Foo, Bar)> = Vec::new();
    let mut key: u64 = 0;
    while key < n
        invariant
            key <= n,
            is_dataset(data@, key as nat),
        decreases n - key,
    {
        key += 1;
        data.push(random_pair(key));
    }
    data
}

} // verus!
