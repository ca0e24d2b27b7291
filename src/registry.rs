use crate::record::CredentialRecord;
use vstd::prelude::*;

verus! {

/// Why a registry operation did not succeed.
#[derive(Debug, Clone, Copy, PartialEq, Eq, Structural)]
pub enum RegistryError {
    /// The request payload could not be read as the expected shape.
    MalformedInput,
    /// No record is stored under the identifier.
    NotFound,
}

/// What a lookup of `id` yields when the registry's contents are `m`.
pub open spec fn lookup_result(m: Map<Seq<char>, CredentialRecord>, id: Seq<char>) -> Result<
    CredentialRecord,
    RegistryError,
> {
    if m.contains_key(id) {
        Ok(m[id])
    } else {
        Err(RegistryError::NotFound)
    }
}

/// One stored association of an identifier with its record.
struct Entry {
    identifier: String,
    record: CredentialRecord,
}

/// Identifiers are pairwise distinct, and `entries` hold exactly `model`.
spec fn holds_exactly(entries: Seq<Entry>, model: Map<Seq<char>, CredentialRecord>) -> bool {
    &&& forall|i: int, j: int|
        #![trigger entries[i], entries[j]]
        0 <= i < entries.len() && 0 <= j < entries.len() && i != j ==> entries[i].identifier@
            != entries[j].identifier@
    &&& forall|i: int|
        #![trigger entries[i]]
        0 <= i < entries.len() ==> {
            &&& model.contains_key(entries[i].identifier@)
            &&& model[entries[i].identifier@] == entries[i].record
        }
    &&& forall|k: Seq<char>|
        #![trigger model.contains_key(k)]
        model.contains_key(k) ==> exists|i: int|
            0 <= i < entries.len() && #[trigger] entries[i].identifier@ == k
}

/// The identifier-to-record store. Its contents are modelled as a map from
/// identifiers (as character sequences) to records; at most one record is
/// held per identifier, and a save replaces the record whole.
pub struct Registry {
    entries: Vec<Entry>,
    model: Ghost<Map<Seq<char>, CredentialRecord>>,
}

impl View for Registry {
    type V = Map<Seq<char>, CredentialRecord>;

    closed spec fn view(&self) -> Map<Seq<char>, CredentialRecord> {
        self.model@
    }
}

impl Registry {
    #[verifier::type_invariant]
    spec fn inv(self) -> bool {
        holds_exactly(self.entries@, self.model@)
    }

    /// An empty registry.
    pub fn new() -> (r: Registry)
        ensures
            r@ == Map::<Seq<char>, CredentialRecord>::empty(),
    {
        Registry { entries: Vec::new(), model: Ghost(Map::empty()) }
    }

    /// The index of the entry stored under `identifier`, if there is one.
    fn position(&self, identifier: &String) -> (r: Option<usize>)
        ensures
            match r {
                Some(i) => i < self.entries@.len() && self.entries@[i as int].identifier@
                    == identifier@,
                None => forall|j: int|
                    0 <= j < self.entries@.len() ==> #[trigger] self.entries@[j].identifier@
                        != identifier@,
            },
    {
        let mut i: usize = 0;
        while i < self.entries.len()
            invariant
                i <= self.entries@.len(),
                forall|j: int|
                    0 <= j < i ==> #[trigger] self.entries@[j].identifier@ != identifier@,
            decreases self.entries@.len() - i,
        {
            if self.entries[i].identifier == *identifier {
                return Some(i);
            }
            i = i + 1;
        }
        None
    }

    /// The record stored under `identifier`, or `NotFound` when there is none.
    pub fn lookup(&self, identifier: &String) -> (r: Result<&CredentialRecord, RegistryError>)
        ensures
            match r {
                Ok(rec) => lookup_result(self@, identifier@) == Ok::<
                    CredentialRecord,
                    RegistryError,
                >(*rec),
                Err(e) => lookup_result(self@, identifier@) == Err::<
                    CredentialRecord,
                    RegistryError,
                >(e),
            },
    {
        proof {
            use_type_invariant(self);
        }
        match self.position(identifier) {
            Some(i) => Ok(&self.entries[i].record),
            None => Err(RegistryError::NotFound),
        }
    }

    /// Stores `record` under `identifier`, replacing whatever was stored there.
    pub fn save(&mut self, identifier: String, record: CredentialRecord)
        ensures
            final(self)@ == old(self)@.insert(identifier@, record),
    {
        proof {
            use_type_invariant(&*self);
        }
        let pos = self.position(&identifier);
        let mut taken = Registry::new();
        std::mem::swap(self, &mut taken);
        let Registry { mut entries, model } = taken;
        let ghost old_entries = entries@;
        let ghost new_model = model@.insert(identifier@, record);
        match pos {
            Some(i) => {
                entries.set(i, Entry { identifier, record });
                assert forall|k: Seq<char>| #[trigger] new_model.contains_key(k) implies exists|
                    j: int,
                |
                    0 <= j < entries@.len() && #[trigger] entries@[j].identifier@ == k by {
                    if k != entries@[i as int].identifier@ {
                        let j = choose|j: int|
                            0 <= j < old_entries.len() && #[trigger] old_entries[j].identifier@
                                == k;
                        assert(entries@[j] == old_entries[j]);
                    }
                }
            },
            None => {
                entries.push(Entry { identifier, record });
                assert forall|k: Seq<char>| #[trigger] new_model.contains_key(k) implies exists|
                    j: int,
                |
                    0 <= j < entries@.len() && #[trigger] entries@[j].identifier@ == k by {
                    if k != identifier@ {
                        let j = choose|j: int|
                            0 <= j < old_entries.len() && #[trigger] old_entries[j].identifier@
                                == k;
                        assert(entries@[j] == old_entries[j]);
                    } else {
                        assert(entries@[old_entries.len() as int].identifier@ == k);
                    }
                }
            },
        }
        assert(holds_exactly(entries@, new_model));
        *self = Registry { entries, model: Ghost(new_model) };
    }
}

} // verus!
