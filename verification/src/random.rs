//! The source of random values.

use fake::Fake;
use fake::Faker;
use vstd::prelude::*;

verus! {

/// A random integer, from `fake::Fake::fake` on `Faker`. Nothing is claimed of
/// the value.
#[verifier::external_body]
pub(crate) fn random_u64() -> u64 {
    Faker.fake::<u64>()
}

/// A random text, from `fake::Fake::fake` on `Faker`. Nothing is claimed of
/// the value.
#[verifier::external_body]
pub(crate) fn random_string() -> String {
    Faker.fake::<String>()
}

/// A random flag, from `fake::Fake::fake` on `Faker`. Nothing is claimed of
/// the value.
#[verifier::external_body]
pub(crate) fn random_bool() -> bool {
    Faker.fake::<bool>()
}

} // verus!
