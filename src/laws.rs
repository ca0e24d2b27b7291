//! Properties of the registry that relate several operations.
use crate::record::CredentialRecord;
use crate::registry::{lookup_result, RegistryError};
use vstd::prelude::*;

verus! {

/// The registry contents reached from `m` by saving each `(identifier, record)`
/// of `saves`, in order. Each save maps the old contents `c` to
/// `c.insert(identifier, record)`, as `Registry::save` ensures.
pub open spec fn after_saves(
    m: Map<Seq<char>, CredentialRecord>,
    saves: Seq<(Seq<char>, CredentialRecord)>,
) -> Map<Seq<char>, CredentialRecord>
    decreases saves.len(),
{
    if saves.len() == 0 {
        m
    } else {
        after_saves(m, saves.drop_last()).insert(saves.last().0, saves.last().1)
    }
}

/// A lookup right after a save of `record` under `id` yields `record`.
pub proof fn save_then_lookup(m: Map<Seq<char>, CredentialRecord>, id: Seq<char>, record: CredentialRecord)
    ensures
        lookup_result(m.insert(id, record), id) == Ok::<CredentialRecord, RegistryError>(record),
{
}

/// Saving `a` and then `b` under one identifier leaves `b` there: the later
/// save replaces the earlier one whole.
pub proof fn later_save_overwrites(
    m: Map<Seq<char>, CredentialRecord>,
    id: Seq<char>,
    a: CredentialRecord,
    b: CredentialRecord,
)
    ensures
        lookup_result(m.insert(id, a).insert(id, b), id) == Ok::<CredentialRecord, RegistryError>(
            b,
        ),
{
}

/// Starting from an empty registry, an identifier that no save used is not found.
pub proof fn never_saved_is_absent(saves: Seq<(Seq<char>, CredentialRecord)>, id: Seq<char>)
    requires
        forall|i: int| 0 <= i < saves.len() ==> (#[trigger] saves[i]).0 != id,
    ensures
        lookup_result(after_saves(Map::empty(), saves), id) == Err::<
            CredentialRecord,
            RegistryError,
        >(RegistryError::NotFound),
    decreases saves.len(),
{
    if saves.len() > 0 {
        let rest = saves.drop_last();
        assert forall|i: int| 0 <= i < rest.len() implies (#[trigger] rest[i]).0 != id by {
            assert(rest[i] == saves[i]);
        }
        never_saved_is_absent(rest, id);
        assert(saves[saves.len() - 1].0 != id);
    }
}

/// Saves under pairwise distinct identifiers, in whatever order they are
/// applied, each leave their own record behind.
pub proof fn distinct_saves_are_kept(
    m: Map<Seq<char>, CredentialRecord>,
    saves: Seq<(Seq<char>, CredentialRecord)>,
)
    requires
        forall|i: int, j: int|
            #![trigger saves[i], saves[j]]
            0 <= i < saves.len() && 0 <= j < saves.len() && i != j ==> saves[i].0 != saves[j].0,
    ensures
        forall|i: int|
            0 <= i < saves.len() ==> lookup_result(after_saves(m, saves), (#[trigger] saves[i]).0)
                == Ok::<CredentialRecord, RegistryError>(saves[i].1),
    decreases saves.len(),
{
    if saves.len() > 0 {
        let rest = saves.drop_last();
        let n = saves.len() - 1;
        assert forall|i: int, j: int|
            #![trigger rest[i], rest[j]]
            0 <= i < rest.len() && 0 <= j < rest.len() && i != j implies rest[i].0 != rest[j].0 by {
            assert(rest[i] == saves[i] && rest[j] == saves[j]);
        }
        distinct_saves_are_kept(m, rest);
        assert forall|i: int| 0 <= i < saves.len() implies lookup_result(
            after_saves(m, saves),
            (#[trigger] saves[i]).0,
        ) == Ok::<CredentialRecord, RegistryError>(saves[i].1) by {
            if i < n {
                assert(rest[i] == saves[i]);
                assert(saves[i].0 != saves[n].0);
            }
        }
    }
}

/// Saving the same record under the same identifier any positive number of
/// times leaves that record there.
pub proof fn repeated_save_is_idempotent(
    m: Map<Seq<char>, CredentialRecord>,
    id: Seq<char>,
    record: CredentialRecord,
    times: nat,
)
    requires
        times >= 1,
    ensures
        lookup_result(
            after_saves(m, Seq::new(times, |i: int| (id, record))),
            id,
        ) == Ok::<CredentialRecord, RegistryError>(record),
{
    let saves = Seq::new(times, |i: int| (id, record));
    assert(saves.last() == (id, record));
}

} // verus!
