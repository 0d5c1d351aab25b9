//! The two record shapes of the data set.
//!
//! `Foo` and `Bar` have the same fields and live in distinct record sets. A
//! `Foo` and a `Bar` that share a key form a pair, joined in the store by one
//! `has` edge from the `Foo` to the `Bar`.

use vstd::prelude::*;

verus! {

/// What a record holds: its key, three texts and a flag.
pub struct RecordView {
    pub pk: u64,
    pub str_1: Seq<char>,
    pub str_2: Seq<char>,
    pub str_3: Seq<char>,
    pub paid: bool,
}

/// A record of the first set, the source of a `has` edge.
#[derive(Debug, Clone)]
pub struct Foo {
    pk: u64,
    str_1: String,
    str_2: String,
    str_3: String,
    paid: bool,
}

/// A record of the second set, the target of a `has` edge.
#[derive(Debug, Clone)]
pub struct Bar {
    pk: u64,
    str_1: String,
    str_2: String,
    str_3: String,
    paid: bool,
}

impl View for Foo {
    type V = RecordView;

    closed spec fn view(&self) -> RecordView {
        RecordView {
            pk: self.pk,
            str_1: self.str_1@,
            str_2: self.str_2@,
            str_3: self.str_3@,
            paid: self.paid,
        }
    }
}

impl View for Bar {
    type V = RecordView;

    closed spec fn view(&self) -> RecordView {
        RecordView {
            pk: self.pk,
            str_1: self.str_1@,
            str_2: self.str_2@,
            str_3: self.str_3@,
            paid: self.paid,
        }
    }
}

impl Foo {
    /// A record made of the given parts.
    pub fn new(pk: u64, str_1: String, str_2: String, str_3: String, paid: bool) -> (r: Foo)
        ensures
            r@ == (RecordView { pk, str_1: str_1@, str_2: str_2@, str_3: str_3@, paid }),
    {
        Foo { pk, str_1, str_2, str_3, paid }
    }

    /// The key.
    pub fn pk(&self) -> (k: u64)
        ensures
            k == self@.pk,
    {
        self.pk
    }

    /// The first text.
    pub fn str_1(&self) -> (s: &str)
        ensures
            s@ == self@.str_1,
    {
        self.str_1.as_str()
    }

    /// The second text.
    pub fn str_2(&self) -> (s: &str)
        ensures
            s@ == self@.str_2,
    {
        self.str_2.as_str()
    }

    /// The third text.
    pub fn str_3(&self) -> (s: &str)
        ensures
            s@ == self@.str_3,
    {
        self.str_3.as_str()
    }

    /// The flag.
    pub fn paid(&self) -> (p: bool)
        ensures
            p == self@.paid,
    {
        self.paid
    }

    /// Replaces the key and leaves every other field as it was.
    pub fn set_pk(&mut self, pk: u64)
        ensures
            final(self)@ == (RecordView { pk, ..old(self)@ }),
    {
        self.pk = pk;
    }
}

impl Bar {
    /// A record made of the given parts.
    pub fn new(pk: u64, str_1: String, str_2: String, str_3: String, paid: bool) -> (r: Bar)
        ensures
            r@ == (RecordView { pk, str_1: str_1@, str_2: str_2@, str_3: str_3@, paid }),
    {
        Bar { pk, str_1, str_2, str_3, paid }
    }

    /// The key.
    pub fn pk(&self) -> (k: u64)
        ensures
            k == self@.pk,
    {
        self.pk
    }

    /// The first text.
    pub fn str_1(&self) -> (s: &str)
        ensures
            s@ == self@.str_1,
    {
        self.str_1.as_str()
    }

    /// The second text.
    pub fn str_2(&self) -> (s: &str)
        ensures
            s@ == self@.str_2,
    {
        self.str_2.as_str()
    }

    /// The third text.
    pub fn str_3(&self) -> (s: &str)
        ensures
            s@ == self@.str_3,
    {
        self.str_3.as_str()
    }

    /// The flag.
    pub fn paid(&self) -> (p: bool)
        ensures
            p == self@.paid,
    {
        self.paid
    }

    /// Replaces the key and leaves every other field as it was.
    pub fn set_pk(&mut self, pk: u64)
        ensures
            final(self)@ == (RecordView { pk, ..old(self)@ }),
    {
        self.pk = pk;
    }
}

} // verus!
