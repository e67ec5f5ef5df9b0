//! The paste store: a collection of paste records with two invariants,
//! kept by every operation — identifiers are unique, and the stored
//! `is_url` flag is always the classifier's verdict on the stored
//! content.  Insertion is insert-if-absent: of two insertions with the
//! same identifier, exactly one succeeds and the other reports a
//! duplicate.

use vstd::prelude::*;

use crate::classify::{is_url, spec_is_url};
use crate::models::{Paste, PasteView};
use crate::strutil::str_eq;
use crate::ServiceError;

verus! {

/// Some stored paste carries the identifier `id`.
pub open spec fn has_paste(s: Seq<PasteView>, id: Seq<char>) -> bool {
    exists|i: int| 0 <= i < s.len() && (#[trigger] s[i]).id == id
}

/// The record `p` is one of the stored pastes.
pub open spec fn stored_paste(s: Seq<PasteView>, p: PasteView) -> bool {
    exists|i: int| 0 <= i < s.len() && s[i] == p
}

/// The owner id a paste is created with, given the possibly absent
/// authenticated user id.
pub open spec fn owner_view(owner: Option<i64>) -> Option<int> {
    match owner {
        Some(id) => Some(id as int),
        None => None,
    }
}

/// Once a creation with a caller-supplied identifier has succeeded and
/// pushed its record, that identifier is taken: by the contract of
/// `insert_if_absent`, a second insertion with the same identifier —
/// and so a second creation with the same custom slug — must report a
/// duplicate and leave the store unchanged.
pub proof fn lemma_id_taken_after_insert(s: Seq<PasteView>, p: PasteView)
    ensures
        has_paste(s.push(p), p.id),
{
    assert(s.push(p)[s.len() as int].id == p.id);
}

/// The paste records, in insertion order.
pub struct PasteStore {
    pub pastes: Vec<Paste>,
}

impl View for PasteStore {
    type V = Seq<PasteView>;

    open spec fn view(&self) -> Seq<PasteView> {
        self.pastes@.map_values(|p: Paste| p@)
    }
}

impl PasteStore {
    /// The store's invariants: identifiers are unique, and every stored
    /// `is_url` flag is the classifier's verdict on the stored content.
    pub open spec fn wf(&self) -> bool {
        &&& forall|i: int, j: int|
            0 <= i < j < self@.len() ==> (#[trigger] self@[i]).id != (#[trigger] self@[j]).id
        &&& forall|i: int|
            0 <= i < self@.len() ==> (#[trigger] self@[i]).is_url == spec_is_url(self@[i].content)
    }

    /// An empty store.
    pub fn new() -> (s: Self)
        ensures
            s.wf(),
            s@ == Seq::<PasteView>::empty(),
    {
        let s = PasteStore { pastes: Vec::new() };
        proof {
            assert(s@ =~= Seq::<PasteView>::empty());
        }
        s
    }

    /// The index of the paste with the given identifier, if any.
    fn find_index(&self, id: &str) -> (r: Option<usize>)
        ensures
            match r {
                Some(i) => i < self@.len() && self@[i as int].id == id@,
                None => !has_paste(self@, id@),
            },
    {
        let n = self.pastes.len();
        for i in 0..n
            invariant
                n == self.pastes@.len(),
                forall|j: int| 0 <= j < i ==> (#[trigger] self@[j]).id != id@,
        {
            if str_eq(self.pastes[i].id.as_str(), id) {
                assert(self@[i as int].id == id@);
                return Some(i);
            }
        }
        None
    }

    /// Whether a paste with the given identifier is stored.
    pub fn contains_id(&self, id: &str) -> (r: bool)
        ensures
            r == has_paste(self@, id@),
    {
        match self.find_index(id) {
            Some(i) => {
                assert(has_paste(self@, id@));
                true
            },
            None => false,
        }
    }

    /// Insert-if-absent: when no stored paste carries `id`, a new
    /// record is appended whose `is_url` flag is the classifier's
    /// verdict on `content` and whose owner is `owner`; when one does,
    /// nothing changes and the duplicate is reported.
    pub fn insert_if_absent(&mut self, id: String, content: String, owner: Option<i64>) -> (r:
        Result<Paste, ServiceError>)
        requires
            old(self).wf(),
        ensures
            final(self).wf(),
            has_paste(old(self)@, id@) ==> r == Err::<Paste, ServiceError>(
                ServiceError::DuplicateId,
            ) && final(self)@ == old(self)@,
            !has_paste(old(self)@, id@) ==> (r matches Ok(p) && p@ == (PasteView {
                id: id@,
                content: content@,
                is_url: spec_is_url(content@),
                belongs_to: owner_view(owner),
            }) && final(self)@ == old(self)@.push(p@)),
    {
        if self.contains_id(id.as_str()) {
            return Err(ServiceError::DuplicateId);
        }
        let flagged = is_url(content.as_str());
        let record = Paste { id, content, is_url: flagged, belongs_to: owner };
        let result = record.duplicate();
        let ghost prior = self@;
        self.pastes.push(record);
        proof {
            assert(self@ =~= prior.push(result@));
            assert forall|i: int, j: int| 0 <= i < j < self@.len() implies (#[trigger] self@[i]).id
                != (#[trigger] self@[j]).id by {
                if j == self@.len() - 1 {
                    assert(!has_paste(prior, self@[j].id));
                }
            }
        }
        Ok(result)
    }

    /// The stored paste with the given identifier; absent identifiers
    /// are reported as not found.
    pub fn get(&self, id: &str) -> (r: Result<Paste, ServiceError>)
        ensures
            r is Ok <==> has_paste(self@, id@),
            r matches Ok(p) ==> p@.id == id@ && stored_paste(self@, p@),
            r is Err ==> r == Err::<Paste, ServiceError>(ServiceError::NotFound),
    {
        match self.find_index(id) {
            Some(i) => {
                let found = self.pastes[i].duplicate();
                assert(has_paste(self@, id@));
                assert(stored_paste(self@, found@));
                Ok(found)
            },
            None => Err(ServiceError::NotFound),
        }
    }

    /// Replace the content of the paste with the given identifier and
    /// recompute its classification; the identifier and the owner are
    /// unchanged.  An absent identifier is reported as not found.
    pub fn update_content(&mut self, id: &str, new_content: String) -> (r: Result<
        Paste,
        ServiceError,
    >)
        requires
            old(self).wf(),
        ensures
            final(self).wf(),
            r is Ok <==> has_paste(old(self)@, id@),
            r is Err ==> r == Err::<Paste, ServiceError>(ServiceError::NotFound) && final(self)@
                == old(self)@,
            r matches Ok(p) ==> exists|i: int|
                0 <= i < old(self)@.len() && (#[trigger] old(self)@[i]).id == id@ && p@
                    == (PasteView {
                    id: old(self)@[i].id,
                    content: new_content@,
                    is_url: spec_is_url(new_content@),
                    belongs_to: old(self)@[i].belongs_to,
                }) && final(self)@ == old(self)@.update(i, p@),
    {
        let index = match self.find_index(id) {
            Some(i) => i,
            None => {
                return Err(ServiceError::NotFound);
            },
        };
        let flagged = is_url(new_content.as_str());
        let updated = Paste {
            id: self.pastes[index].id.clone(),
            content: new_content,
            is_url: flagged,
            belongs_to: self.pastes[index].belongs_to,
        };
        let result = updated.duplicate();
        let ghost prior = self@;
        self.pastes[index] = updated;
        proof {
            assert(self@ =~= prior.update(index as int, result@));
            assert(has_paste(prior, id@));
        }
        Ok(result)
    }
}

} // verus!
