//! The configuration of a fuzzer instance, and when two of them match.

use vstd::prelude::*;
use vstd::utf8::encode_utf8;

verus! {

/// The 64-bit aHash of `bytes` under the keys `key1` and `key2`: what
/// `ahash::AHasher::new_with_keys(key1, key2)`, fed `bytes` through
/// `Hasher::write`, returns from `Hasher::finish`.
pub uninterp spec fn ahash_keyed_digest(key1: u128, key2: u128, bytes: Seq<u8>) -> u64;

/// Hashes `bytes` with an `ahash::AHasher` made by `AHasher::new_with_keys`.
///
/// Trusted: the contract claims that the hash is a function of the two keys
/// and the bytes alone. In the crate's source the keys are mixed with fixed
/// constants and no random state is read, so this holds for one build of the
/// crate; the value itself depends on the crate's version and on whether the
/// target's AES instructions were enabled at compile time, and is not stated.
#[verifier::external_body]
fn ahash_with_keys(key1: u128, key2: u128, bytes: &[u8]) -> (digest: u64)
    ensures
        digest == ahash_keyed_digest(key1, key2, bytes@),
{
    let mut hasher = ahash::AHasher::new_with_keys(key1, key2);
    core::hash::Hasher::write(&mut hasher, bytes);
    core::hash::Hasher::finish(&hasher)
}

/// The hash that identifies a configuration named `name`: aHash of its UTF-8
/// bytes under the keys zero and zero.
pub open spec fn name_hash_of(name: Seq<char>) -> u64 {
    ahash_keyed_digest(0, 0, encode_utf8(name))
}

/// Distinguishes a fuzzer by its configuration.
#[derive(Debug, Clone, Copy, PartialEq, Eq, Structural)]
pub enum EventConfig {
    /// Always assume unique setups for fuzzer configs.
    AlwaysUnique,
    /// A configuration known by the hash of its name.
    FromName {
        /// The name hash.
        name_hash: u64,
    },
    /// A configuration known by the build-time UUID of the fuzzer.
    BuildID {
        /// The build-time UUID, as its 128-bit value.
        id: u128,
    },
}

impl EventConfig {
    /// When two configurations match: both are known by the same name hash,
    /// or both by the same build id. `AlwaysUnique` matches nothing.
    pub open spec fn config_matches(self, other: EventConfig) -> bool {
        match (self, other) {
            (EventConfig::FromName { name_hash: a }, EventConfig::FromName { name_hash: b }) => a == b,
            (EventConfig::BuildID { id: a }, EventConfig::BuildID { id: b }) => a == b,
            _ => false,
        }
    }

    /// Creates a configuration from the hash of a name.
    pub fn from_name(name: &str) -> (config: EventConfig)
        ensures
            config == (EventConfig::FromName { name_hash: name_hash_of(name@) }),
            config == (EventConfig::FromName { name_hash: ahash_keyed_digest(0, 0, encode_utf8(name@)) }),
    {
        let bytes = name.as_bytes();
        EventConfig::FromName { name_hash: ahash_with_keys(0, 0, bytes) }
    }

    /// Creates a configuration from the build-time UUID of the fuzzer, given
    /// as its 128-bit value.
    pub fn from_build_id(id: u128) -> (config: EventConfig)
        ensures
            config == (EventConfig::BuildID { id }),
    {
        EventConfig::BuildID { id }
    }

    /// Whether this configuration matches `other`.
    pub fn match_with(&self, other: &EventConfig) -> (matched: bool)
        ensures
            matched == self.config_matches(*other),
    {
        match self {
            EventConfig::AlwaysUnique => false,
            EventConfig::FromName { name_hash: a } => match other {
                EventConfig::FromName { name_hash: b } => *a == *b,
                EventConfig::AlwaysUnique | EventConfig::BuildID { .. } => false,
            },
            EventConfig::BuildID { id: a } => match other {
                EventConfig::AlwaysUnique | EventConfig::FromName { .. } => false,
                EventConfig::BuildID { id: b } => *a == *b,
            },
        }
    }
}

impl<'a> From<&'a str> for EventConfig {
    /// The configuration named `name`, as [`EventConfig::from_name`] makes it.
    fn from(name: &'a str) -> (config: EventConfig) {
        EventConfig::from_name(name)
    }
}

impl<'a> vstd::std_specs::convert::FromSpecImpl<&'a str> for EventConfig {
    open spec fn obeys_from_spec() -> bool {
        true
    }

    open spec fn from_spec(name: &'a str) -> EventConfig {
        EventConfig::FromName { name_hash: name_hash_of(name@) }
    }
}

impl From<String> for EventConfig {
    /// The configuration named `name`, as [`EventConfig::from_name`] makes it.
    fn from(name: String) -> (config: EventConfig) {
        EventConfig::from_name(name.as_str())
    }
}

impl vstd::std_specs::convert::FromSpecImpl<String> for EventConfig {
    open spec fn obeys_from_spec() -> bool {
        true
    }

    open spec fn from_spec(name: String) -> EventConfig {
        EventConfig::FromName { name_hash: name_hash_of(name@) }
    }
}

/// The hash that names a configuration covers the whole name: it is the
/// aHash, under keys zero and zero, of every byte of the name's UTF-8
/// encoding; names with the same encoding get the same hash.
pub proof fn lemma_name_hash_covers_whole_name(name1: Seq<char>, name2: Seq<char>)
    ensures
        name_hash_of(name1) == ahash_keyed_digest(0, 0, encode_utf8(name1)),
        encode_utf8(name1) == encode_utf8(name2) ==> name_hash_of(name1) == name_hash_of(name2),
{
}

/// Matching is symmetric: `a` matches `b` exactly when `b` matches `a`.
pub proof fn lemma_match_symmetric(a: EventConfig, b: EventConfig)
    ensures
        a.config_matches(b) == b.config_matches(a),
{
}

/// Matching is transitive.
pub proof fn lemma_match_transitive(a: EventConfig, b: EventConfig, c: EventConfig)
    requires
        a.config_matches(b),
        b.config_matches(c),
    ensures
        a.config_matches(c),
{
}

/// A configuration matches itself unless it is `AlwaysUnique`.
pub proof fn lemma_match_reflexive(c: EventConfig)
    ensures
        c.config_matches(c) == !(c is AlwaysUnique),
{
}

/// `AlwaysUnique` matches no configuration, on either side.
pub proof fn lemma_always_unique_matches_nothing(c: EventConfig)
    ensures
        !EventConfig::AlwaysUnique.config_matches(c),
        !c.config_matches(EventConfig::AlwaysUnique),
{
}

/// Two configurations match exactly when they are equal and not `AlwaysUnique`.
pub proof fn lemma_match_is_equality(a: EventConfig, b: EventConfig)
    ensures
        a.config_matches(b) == (a == b && !(a is AlwaysUnique)),
{
}

/// Configurations made from the same name match, and a configuration made
/// from a name never matches one made from a build id.
pub proof fn lemma_same_name_matches(name1: Seq<char>, name2: Seq<char>, id: u128)
    requires
        name1 == name2,
    ensures
        (EventConfig::FromName { name_hash: name_hash_of(name1) }).config_matches(
            EventConfig::FromName { name_hash: name_hash_of(name2) },
        ),
        !(EventConfig::FromName { name_hash: name_hash_of(name1) }).config_matches(
            EventConfig::BuildID { id },
        ),
{
}

} // verus!
