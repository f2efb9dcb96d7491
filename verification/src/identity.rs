//! Instance identities and the check that keeps their prefixes apart.
//!
//! An identity is a string of at least eight characters. Two identities
//! collide when their first eight characters agree: directories are named
//! after that prefix, so it has to be unique among the registered instances.

use vstd::prelude::*;
use vstd::string::*;

verus! {

/// The number of leading characters by which identities are told apart.
pub const PREFIX_LEN: usize = 8;

/// The prefix of an identity.
pub open spec fn prefix_of(id: Seq<char>) -> Seq<char> {
    id.take(PREFIX_LEN as int)
}

/// Whether an identity in `existing` has the prefix of `candidate`.
pub open spec fn prefix_taken(existing: Seq<Seq<char>>, candidate: Seq<char>) -> bool {
    exists|i: int| 0 <= i < existing.len() && prefix_of(#[trigger] existing[i]) == prefix_of(candidate)
}

/// Whether no two identities of `ids` share a prefix.
pub open spec fn distinct_prefixes(ids: Seq<Seq<char>>) -> bool {
    forall|i: int, j: int|
        0 <= i < ids.len() && 0 <= j < ids.len() && i != j ==> prefix_of(#[trigger] ids[i]) != prefix_of(
            #[trigger] ids[j],
        )
}

/// Whether `k` is the first candidate whose prefix is not taken.
pub open spec fn is_first_free(existing: Seq<Seq<char>>, candidates: Seq<Seq<char>>, k: int) -> bool {
    &&& 0 <= k < candidates.len()
    &&& !prefix_taken(existing, candidates[k])
    &&& forall|j: int| 0 <= j < k ==> prefix_taken(existing, #[trigger] candidates[j])
}

/// The identity of an instance. Its view is its string form.
#[derive(Debug)]
pub struct InstanceUuid {
    value: String,
}

impl View for InstanceUuid {
    type V = Seq<char>;

    closed spec fn view(&self) -> Seq<char> {
        self.value@
    }
}

/// The string forms of `ids`, in order.
pub open spec fn id_texts(ids: Seq<InstanceUuid>) -> Seq<Seq<char>> {
    Seq::new(ids.len(), |i: int| ids[i]@)
}

impl Clone for InstanceUuid {
    fn clone(&self) -> (copy: InstanceUuid)
        ensures
            copy@ == self@,
    {
        proof {
            use_type_invariant(self);
        }
        InstanceUuid { value: self.value.clone() }
    }
}

impl InstanceUuid {
    #[verifier::type_invariant]
    spec fn inv(self) -> bool {
        self.value@.len() >= PREFIX_LEN
    }

    /// Makes an identity of `value`, which must have eight characters or
    /// more to have a prefix.
    pub fn new(value: String) -> (id: Option<InstanceUuid>)
        ensures
            value@.len() >= PREFIX_LEN ==> id is Some && id->Some_0@ == value@,
            value@.len() < PREFIX_LEN ==> id is None,
    {
        if value.as_str().unicode_len() >= PREFIX_LEN {
            Some(InstanceUuid { value })
        } else {
            None
        }
    }

    /// The string form.
    pub fn as_str(&self) -> (s: &str)
        ensures
            s@ == self@,
            self@.len() >= PREFIX_LEN,
    {
        proof {
            use_type_invariant(self);
        }
        self.value.as_str()
    }

    /// The first eight characters of the string form.
    pub fn prefix(&self) -> (p: String)
        ensures
            p@ == prefix_of(self@),
            p@.len() == PREFIX_LEN,
    {
        proof {
            use_type_invariant(self);
        }
        let p = String::from_str(self.value.as_str().substring_char(0, PREFIX_LEN));
        p
    }

    /// Whether `self` and `other` are the same identity.
    pub fn same_as(&self, other: &InstanceUuid) -> (same: bool)
        ensures
            same == (self@ == other@),
    {
        self.value == other.value
    }

    /// Whether `self` and `other` share their prefix.
    pub fn collides_with(&self, other: &InstanceUuid) -> (collides: bool)
        ensures
            collides == (prefix_of(self@) == prefix_of(other@)),
    {
        self.prefix() == other.prefix()
    }
}

/// Whether the prefix of `candidate` is in use among `existing`.
pub fn prefix_in_use(existing: &Vec<InstanceUuid>, candidate: &InstanceUuid) -> (taken: bool)
    ensures
        taken == prefix_taken(id_texts(existing@), candidate@),
{
    let mut i: usize = 0;
    while i < existing.len()
        invariant
            i <= existing.len(),
            forall|j: int| 0 <= j < i ==> prefix_of(#[trigger] id_texts(existing@)[j]) != prefix_of(candidate@),
        decreases existing.len() - i,
    {
        if existing[i].collides_with(candidate) {
            assert(prefix_of(id_texts(existing@)[i as int]) == prefix_of(candidate@));
            return true;
        }
        i = i + 1;
    }
    false
}

/// Picks the identity of a new instance: the first of `candidates` whose
/// prefix no identity of `existing` has. The candidates are tried in order,
/// so their number bounds the retries; `None` means that every one of them
/// collided.
pub fn select_identity(existing: &Vec<InstanceUuid>, candidates: &Vec<InstanceUuid>) -> (chosen: Option<InstanceUuid>)
    ensures
        match chosen {
            Some(id) => {
                &&& !prefix_taken(id_texts(existing@), id@)
                &&& exists|k: int| #[trigger] is_first_free(id_texts(existing@), id_texts(candidates@), k) && id@ == candidates@[k]@
            },
            None => forall|k: int| 0 <= k < candidates.len() ==> prefix_taken(id_texts(existing@), #[trigger] id_texts(candidates@)[k]),
        },
{
    let mut i: usize = 0;
    while i < candidates.len()
        invariant
            i <= candidates.len(),
            forall|j: int| 0 <= j < i ==> prefix_taken(id_texts(existing@), #[trigger] id_texts(candidates@)[j]),
        decreases candidates.len() - i,
    {
        if !prefix_in_use(existing, &candidates[i]) {
            assert(is_first_free(id_texts(existing@), id_texts(candidates@), i as int));
            return Some(candidates[i].clone());
        }
        i = i + 1;
    }
    None
}

/// An identity whose prefix is not taken can join identities with distinct
/// prefixes, and their prefixes stay distinct: however many identities are
/// picked one after another by `select_identity`, no two of them collide.
pub proof fn lemma_accepted_identity_keeps_prefixes_distinct(existing: Seq<Seq<char>>, id: Seq<char>)
    requires
        distinct_prefixes(existing),
        !prefix_taken(existing, id),
    ensures
        distinct_prefixes(existing.push(id)),
{
}

} // verus!
