//! The two persistent containers of the contract state. Both live in host
//! storage through `near_sdk::store`; the verifier sees each through two
//! values: what the container finds, and the length that its handle counts.
//!
//! A handle keeps the length itself and looks every element up in storage
//! under its prefix, so the two agree only as far as storage under the
//! prefix holds what this handle, or the handle it was restored from, has
//! put there. The contracts below are taken on trust from the source of
//! `near_sdk` and hold of every handle. They say what a call does when the
//! host lets it run to its end; a call that the host cuts short, for want
//! of gas or for a value too large to store, aborts with nothing changed.

use near_sdk::store::{IterableMap, IterableSet};
use vstd::prelude::*;
use vstd::utf8::encode_utf8;

verus! {

/// The most characters of which a text is sure to be storable.
pub const SHORT_TEXT: usize = 0x3fff_ffff;

/// A text that storage can take: one whose UTF-8 form has no more bytes than
/// a `u32` counts, which is how Borsh writes a length. No character takes
/// more than four bytes, so a text of at most `SHORT_TEXT` characters is of
/// that kind; the first half says so without the encoding.
pub open spec fn storable(text: Seq<char>) -> bool {
    text.len() <= SHORT_TEXT || encode_utf8(text).len() <= u32::MAX
}

/// The UTF-8 form of a text has at most four bytes for each character.
pub proof fn lemma_utf8_length(text: Seq<char>)
    ensures
        encode_utf8(text).len() <= 4 * text.len(),
    decreases text.len(),
{
    if text.len() > 0 {
        lemma_utf8_length(text.drop_first());
    }
}

/// Whether storage can take the text.
pub fn is_storable(text: &String) -> (fits: bool)
    ensures
        fits == storable(text@),
{
    proof {
        lemma_utf8_length(text@);
    }
    text.as_str().as_bytes().len() <= u32::MAX as usize
}

/// The allow-list of code hashes: a `near_sdk::store::IterableSet<String>`.
/// The field is public for the code that keeps the handle in the host's
/// state record; verified code reaches the set through the methods below.
#[verifier::external_body]
pub struct CodehashSet {
    pub inner: IterableSet<String>,
}

/// The registry of workers, from account name to claimed code hash: a
/// `near_sdk::store::IterableMap<String, String>`. The field is public for
/// the code that keeps the handle in the host's state record; verified code
/// reaches the map through the methods below.
#[verifier::external_body]
pub struct WorkerMap {
    pub inner: IterableMap<String, String>,
}

/// The code hashes that the set finds: those in its cache or in storage
/// under its prefix.
pub uninterp spec fn set_contents(set: CodehashSet) -> Set<Seq<char>>;

/// The length that the set's handle counts.
pub uninterp spec fn set_length(set: CodehashSet) -> nat;

/// The entries that the map finds: those in its cache or in storage under
/// its prefix.
pub uninterp spec fn map_contents(map: WorkerMap) -> Map<Seq<char>, Seq<char>>;

/// The length that the map's handle counts.
pub uninterp spec fn map_length(map: WorkerMap) -> nat;

impl CodehashSet {
    /// `IterableSet::new`: a handle over the given one-byte prefix that
    /// counts no element. It reads nothing: what the set finds is what
    /// storage holds under the prefix.
    #[verifier::external_body]
    pub(crate) fn new(prefix: u8) -> (created: CodehashSet)
        ensures
            set_length(created) == 0,
    {
        CodehashSet { inner: IterableSet::new(prefix) }
    }

    /// `IterableSet::len`: the length that the handle counts.
    #[verifier::external_body]
    pub(crate) fn len(&self) -> (count: u32)
        ensures
            count == set_length(*self),
    {
        self.inner.len()
    }

    /// `IterableSet::contains`: whether the set finds the value. The value
    /// is written in Borsh to find its storage key, which aborts for a text
    /// that is not storable: `requires` leaves that out.
    #[verifier::external_body]
    pub(crate) fn contains(&self, value: &String) -> (found: bool)
        requires
            storable(value@),
        ensures
            found == set_contents(*self).contains(value@),
    {
        self.inner.contains(value)
    }

    /// `IterableSet::insert`: returns whether the set did not find the
    /// value. A value that it finds leaves the set as it is. One that it
    /// does not find is pushed onto the element vector, which adds one to
    /// the length and panics when the `u32` would overflow, and is entered
    /// where the set will find it. The value is written in Borsh, which
    /// aborts for a text that is not storable. `requires` leaves both out.
    #[verifier::external_body]
    pub(crate) fn insert(&mut self, value: String) -> (fresh: bool)
        requires
            storable(value@),
            set_contents(*old(self)).contains(value@) || set_length(*old(self)) < u32::MAX,
        ensures
            fresh == !set_contents(*old(self)).contains(value@),
            set_contents(*final(self)) == set_contents(*old(self)).insert(value@),
            set_length(*final(self)) == set_length(*old(self)) + (if fresh { 1nat } else { 0nat }),
    {
        self.inner.insert(value)
    }
}

impl WorkerMap {
    /// `IterableMap::new`: a handle over the given one-byte prefix that
    /// counts no entry. It reads nothing: what the map finds is what storage
    /// holds under the prefix.
    #[verifier::external_body]
    pub(crate) fn new(prefix: u8) -> (created: WorkerMap)
        ensures
            map_length(created) == 0,
    {
        WorkerMap { inner: IterableMap::new(prefix) }
    }

    /// `IterableMap::len`: the length that the handle counts.
    #[verifier::external_body]
    pub(crate) fn len(&self) -> (count: u32)
        ensures
            count == map_length(*self),
    {
        self.inner.len()
    }

    /// `IterableMap::get`: the value that the map finds under the key, if it
    /// finds one. The key is written in Borsh to find its storage key, which
    /// aborts for a text that is not storable: `requires` leaves that out.
    #[verifier::external_body]
    pub(crate) fn get(&self, key: &String) -> (found: Option<&String>)
        requires
            storable(key@),
        ensures
            match found {
                Some(value) => map_contents(*self).contains_key(key@) && value@ == map_contents(
                    *self,
                )[key@],
                None => !map_contents(*self).contains_key(key@),
            },
    {
        self.inner.get(key)
    }

    /// `IterableMap::insert`: stores the value under the key and returns the
    /// value that the map found there, if it found one. A key under which it
    /// finds nothing is pushed onto the key vector, which adds one to the
    /// length and panics when the `u32` would overflow. Key and value are
    /// written in Borsh, which aborts for a text that is not storable.
    /// `requires` leaves both out.
    #[verifier::external_body]
    pub(crate) fn insert(&mut self, key: String, value: String) -> (previous: Option<String>)
        requires
            storable(key@),
            storable(value@),
            map_contents(*old(self)).contains_key(key@) || map_length(*old(self)) < u32::MAX,
        ensures
            match previous {
                Some(text) => map_contents(*old(self)).contains_key(key@) && text@ == map_contents(
                    *old(self),
                )[key@],
                None => !map_contents(*old(self)).contains_key(key@),
            },
            map_contents(*final(self)) == map_contents(*old(self)).insert(key@, value@),
            map_length(*final(self)) == map_length(*old(self)) + (if previous is None {
                1nat
            } else {
                0nat
            }),
    {
        self.inner.insert(key, value)
    }
}

} // verus!
