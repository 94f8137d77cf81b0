//! What the flows expect of the credential store.
//!
//! The store itself is a database outside of this library. Here stands the
//! table it keeps, as a mathematical value, and what each of its three
//! operations does to that table. The flows are proved against this
//! description; the store has to live up to it.

use vstd::prelude::*;

verus! {

/// The store could not do what was asked of it: no connection was to be
/// had, the query failed, or the row held something else than a token.
#[derive(Debug, Clone, Copy, PartialEq, Eq, Structural)]
pub struct StoreFailure;

/// The rows of the store, oldest first: a feed id and the access token that
/// was stored under it.
pub type Table = Seq<(Seq<char>, Seq<char>)>;

/// Whether the table has a row for the feed id.
pub open spec fn holds(table: Table, id: Seq<char>) -> bool {
    exists|i: int| 0 <= i < table.len() && (#[trigger] table[i]).0 == id
}

/// The table after a new row was stored. Rows are only ever added: a row
/// that was there before stays as it is.
pub open spec fn put(table: Table, id: Seq<char>, token: Seq<char>) -> Table {
    table.push((id, token))
}

/// The token of the oldest row for the feed id, if there is such a row.
pub open spec fn get(table: Table, id: Seq<char>) -> Option<Seq<char>>
    decreases table.len(),
{
    if table.len() == 0 {
        None
    } else if table.first().0 == id {
        Some(table.first().1)
    } else {
        get(table.drop_first(), id)
    }
}

/// The test that tells the rows of other feed ids from those of `id`.
pub open spec fn is_other(id: Seq<char>) -> spec_fn((Seq<char>, Seq<char>)) -> bool {
    |row: (Seq<char>, Seq<char>)| row.0 != id
}

/// The table after every row for the feed id was deleted.
pub open spec fn delete(table: Table, id: Seq<char>) -> Table {
    table.filter(is_other(id))
}

/// A feed id has a token exactly if the table has a row for it.
pub proof fn lemma_get_finds_held(table: Table, id: Seq<char>)
    ensures
        get(table, id) is Some <==> holds(table, id),
    decreases table.len(),
{
    if table.len() > 0 && table.first().0 != id {
        let rest = table.drop_first();
        lemma_get_finds_held(rest, id);
        if holds(table, id) {
            let i = choose|i: int| 0 <= i < table.len() && (#[trigger] table[i]).0 == id;
            assert(rest[i - 1].0 == id);
        }
    }
}

/// Storing a row changes nothing for a feed id that already has one, and
/// nothing for any other feed id.
pub proof fn lemma_put_keeps_older_rows(
    table: Table,
    id: Seq<char>,
    token: Seq<char>,
    other: Seq<char>,
)
    requires
        other != id || holds(table, id),
    ensures
        get(put(table, id, token), other) == get(table, other),
    decreases table.len(),
{
    let stored = put(table, id, token);
    if table.len() == 0 {
        assert(get(stored.drop_first(), other) is None);
    } else if table.first().0 != other {
        let rest = table.drop_first();
        assert(stored.drop_first() =~= put(rest, id, token));
        if other == id {
            let i = choose|i: int| 0 <= i < table.len() && (#[trigger] table[i]).0 == id;
            assert(rest[i - 1].0 == id);
        }
        lemma_put_keeps_older_rows(rest, id, token, other);
    }
}

/// A token stored under a feed id that had none is the token found under it.
pub proof fn lemma_put_then_get(table: Table, id: Seq<char>, token: Seq<char>)
    requires
        !holds(table, id),
    ensures
        get(put(table, id, token), id) == Some(token),
    decreases table.len(),
{
    if table.len() > 0 {
        let rest = table.drop_first();
        assert(put(table, id, token).drop_first() =~= put(rest, id, token));
        assert forall|i: int| 0 <= i < rest.len() implies (#[trigger] rest[i]).0 != id by {}
        lemma_put_then_get(rest, id, token);
    }
}

/// After a feed id was deleted the table has no row for it.
pub proof fn lemma_delete_then_get(table: Table, id: Seq<char>)
    ensures
        !holds(delete(table, id), id),
        get(delete(table, id), id) is None,
{
    let keep = is_other(id);
    let left = delete(table, id);
    assert forall|i: int| 0 <= i < left.len() implies (#[trigger] left[i]).0 != id by {
        table.lemma_filter_pred(keep, i);
    }
    lemma_get_finds_held(left, id);
}

/// Deleting a feed id that the table has no row for leaves the table as it
/// is.
pub proof fn lemma_delete_absent(table: Table, id: Seq<char>)
    requires
        !holds(table, id),
    ensures
        delete(table, id) == table,
    decreases table.len(),
{
    reveal(Seq::filter);
    if table.len() > 0 {
        let rest = table.drop_last();
        assert forall|i: int| 0 <= i < rest.len() implies (#[trigger] rest[i]).0 != id by {}
        lemma_delete_absent(rest, id);
    }
}

/// Deleting one feed id changes nothing for any other.
pub proof fn lemma_delete_keeps_others(table: Table, id: Seq<char>, other: Seq<char>)
    requires
        other != id,
    ensures
        get(delete(table, id), other) == get(table, other),
    decreases table.len(),
{
    let keep = is_other(id);
    reveal_with_fuel(Seq::filter, 2);
    if table.len() > 0 {
        let rest = table.drop_first();
        lemma_delete_keeps_others(rest, id, other);
        assert(table =~= seq![table.first()] + rest);
        Seq::filter_distributes_over_add(seq![table.first()], rest, keep);
        if keep(table.first()) {
            assert(delete(table, id).drop_first() =~= delete(rest, id));
        }
    }
}

/// One change of the table.
pub ghost enum Change {
    /// A row was stored.
    Put { id: Seq<char>, token: Seq<char> },
    /// The rows of a feed id were deleted.
    Delete { id: Seq<char> },
}

/// The table after one change.
pub open spec fn apply(table: Table, change: Change) -> Table {
    match change {
        Change::Put { id, token } => put(table, id, token),
        Change::Delete { id } => delete(table, id),
    }
}

/// The table after a run of changes, first to last.
pub open spec fn apply_all(table: Table, changes: Seq<Change>) -> Table
    decreases changes.len(),
{
    if changes.len() == 0 {
        table
    } else {
        apply_all(apply(table, changes.first()), changes.drop_first())
    }
}

/// Whether a run of changes never deletes the feed id.
pub open spec fn never_deletes(changes: Seq<Change>, id: Seq<char>) -> bool {
    forall|i: int| 0 <= i < changes.len() ==> #[trigger] changes[i] != (Change::Delete { id })
}

/// Whether a run of changes never stores a row for the feed id.
pub open spec fn never_puts(changes: Seq<Change>, id: Seq<char>) -> bool {
    forall|i: int|
        0 <= i < changes.len() ==> !(#[trigger] changes[i] matches Change::Put { id: stored, .. }
            && stored == id)
}

/// The token of a feed id stays what it is for as long as the feed id is
/// not deleted, whatever else is stored or deleted.
pub proof fn lemma_token_stays(table: Table, id: Seq<char>, changes: Seq<Change>)
    requires
        holds(table, id),
        never_deletes(changes, id),
    ensures
        get(apply_all(table, changes), id) == get(table, id),
    decreases changes.len(),
{
    if changes.len() > 0 {
        let next = apply(table, changes.first());
        let rest = changes.drop_first();
        match changes.first() {
            Change::Put { id: stored, token } => {
                lemma_put_keeps_older_rows(table, stored, token, id);
            },
            Change::Delete { id: deleted } => {
                lemma_delete_keeps_others(table, deleted, id);
            },
        }
        lemma_get_finds_held(table, id);
        lemma_get_finds_held(next, id);
        assert(never_deletes(rest, id)) by {
            assert forall|i: int| 0 <= i < rest.len() implies #[trigger] rest[i] != (Change::Delete {
                id,
            }) by {}
        }
        lemma_token_stays(next, id, rest);
    }
}

/// A feed id without a row stays without one for as long as none is stored
/// for it, whatever else is stored or deleted.
pub proof fn lemma_absence_stays(table: Table, id: Seq<char>, changes: Seq<Change>)
    requires
        !holds(table, id),
        never_puts(changes, id),
    ensures
        get(apply_all(table, changes), id) is None,
    decreases changes.len(),
{
    lemma_get_finds_held(table, id);
    if changes.len() > 0 {
        let next = apply(table, changes.first());
        let rest = changes.drop_first();
        match changes.first() {
            Change::Put { id: stored, token } => {
                lemma_put_keeps_older_rows(table, stored, token, id);
            },
            Change::Delete { id: deleted } => {
                if deleted == id {
                    lemma_delete_then_get(table, id);
                } else {
                    lemma_delete_keeps_others(table, deleted, id);
                }
            },
        }
        lemma_get_finds_held(next, id);
        assert(never_puts(rest, id)) by {
            assert forall|i: int| 0 <= i < rest.len() implies !(#[trigger] rest[i] matches Change::Put {
                id: stored,
                ..
            } && stored == id) by {}
        }
        lemma_absence_stays(next, id, rest);
    }
}

} // verus!
