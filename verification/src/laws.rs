//! Laws of the library, stated and proved over the models that the
//! operations' contracts speak of.

use vstd::prelude::*;
use crate::item::apply_patch;
use crate::item::ItemModel;
use crate::item::UpdateModel;
use crate::store::has_id;
use crate::store::index_of_id;
use crate::store::row_with_id;
use crate::store::ItemStore;

verus! {

/// Law: the listing is ordered by ascending id. In a well-formed store
/// every earlier row carries the smaller id, and `get_items` returns
/// the rows in exactly that order.
pub proof fn lemma_rows_ordered_by_id(store: ItemStore)
    requires
        store.wf(),
    ensures
        forall|i: int, j: int|
            0 <= i < j < store@.len() ==> (#[trigger] store@[i]).id < (#[trigger] store@[j]).id,
{
}

/// Law: a patch that omits the name leaves the name unchanged, and one
/// stamped strictly later moves `updated_at` strictly past its prior
/// value; `id` and `created_at` are kept by every patch.
pub proof fn lemma_patch_keeps_omitted_name(row: ItemModel, patch: UpdateModel, now: int)
    requires
        patch.name is None,
        now > row.updated_at,
    ensures
        apply_patch(row, patch, now).name == row.name,
        apply_patch(row, patch, now).updated_at > row.updated_at,
        apply_patch(row, patch, now).id == row.id,
        apply_patch(row, patch, now).created_at == row.created_at,
{
}

/// Law (round trip): where no existing row collides with its id, a row
/// just appended is exactly the row that a lookup of its id finds — so
/// the object a fetch returns right after creation is the object the
/// creation returned.
pub proof fn lemma_created_row_found(rows: Seq<ItemModel>, row: ItemModel)
    requires
        forall|i: int| 0 <= i < rows.len() ==> (#[trigger] rows[i]).id != row.id,
    ensures
        has_id(rows.push(row), row.id),
        row_with_id(rows.push(row), row.id) == row,
{
    let t = rows.push(row);
    assert(t[rows.len() as int] == row);
    assert(has_id(t, row.id));
    let k = index_of_id(t, row.id);
    assert(0 <= k < t.len() && t[k].id == row.id);
    if k != rows.len() as int {
        assert(t[k] == rows[k]);
    }
}

/// Law (observably idempotent delete): removing a row from a run of
/// rows with strictly ascending ids leaves no row carrying its id, so
/// a later lookup of the same id — or a second delete — answers "not
/// found".
pub proof fn lemma_deleted_id_absent(rows: Seq<ItemModel>, at: int)
    requires
        forall|i: int, j: int|
            0 <= i < j < rows.len() ==> (#[trigger] rows[i]).id < (#[trigger] rows[j]).id,
        0 <= at < rows.len(),
    ensures
        !has_id(rows.remove(at), rows[at].id),
{
    let t = rows.remove(at);
    assert forall|j: int| 0 <= j < t.len() implies (#[trigger] t[j]).id != rows[at].id by {
        if j < at {
            assert(t[j] == rows[j]);
        } else {
            assert(t[j] == rows[j + 1]);
        }
    }
}

} // verus!
