//! The store of items: the semantics of the single `items` table. Each
//! request handler's decision logic — assign the next id on insert,
//! answer "not found" for an absent id, patch only the supplied fields,
//! keep the listing ordered by id — is a verified operation here.

use vstd::prelude::*;
use vstd::string::StringExecFns;
use crate::errors::ApiError;
use crate::item::apply_patch;
use crate::item::CreateItemRequest;
use crate::item::CreateModel;
use crate::item::Item;
use crate::item::ItemModel;
use crate::item::UpdateItemRequest;
use crate::item::UpdateModel;

verus! {

/// The models of a sequence of items.
pub open spec fn models(items: Seq<Item>) -> Seq<ItemModel> {
    items.map_values(|item: Item| item@)
}

/// True when some row of `rows` carries `id`.
pub open spec fn has_id(rows: Seq<ItemModel>, id: int) -> bool {
    exists|i: int| 0 <= i < rows.len() && (#[trigger] rows[i]).id == id
}

/// The position of the row of `rows` carrying `id` (meaningful when
/// such a row exists and ids are unique).
pub open spec fn index_of_id(rows: Seq<ItemModel>, id: int) -> int {
    choose|i: int| 0 <= i < rows.len() && (#[trigger] rows[i]).id == id
}

/// The row of `rows` carrying `id`.
pub open spec fn row_with_id(rows: Seq<ItemModel>, id: int) -> ItemModel {
    rows[index_of_id(rows, id)]
}

/// The store behind the handlers: the rows of the `items` table in id
/// order, the next id the store will assign, and the latest timestamp
/// it has written (the stamps a monotone clock hands in never run
/// backwards past it).
pub struct ItemStore {
    pub items: Vec<Item>,
    pub next_id: i32,
    pub last_time: i64,
}

impl View for ItemStore {
    type V = Seq<ItemModel>;

    open spec fn view(&self) -> Seq<ItemModel> {
        models(self.items@)
    }
}

impl ItemStore {
    /// Well-formedness: ids are at least 1, strictly ascending along
    /// the rows, and all below `next_id`; every row has
    /// `created_at <= updated_at`, and no timestamp lies after
    /// `last_time`.
    pub open spec fn wf(&self) -> bool {
        &&& 1 <= self.next_id
        &&& forall|i: int| 0 <= i < self@.len() ==> {
            &&& 1 <= (#[trigger] self@[i]).id < self.next_id
            &&& self@[i].created_at <= self@[i].updated_at
            &&& self@[i].updated_at <= self.last_time as int
        }
        &&& forall|i: int, j: int|
            0 <= i < j < self@.len() ==> (#[trigger] self@[i]).id < (#[trigger] self@[j]).id
    }

    /// An empty store, as the idempotent schema creation leaves a
    /// fresh database: no rows, ids to be assigned from 1.
    pub fn new() -> (store: ItemStore)
        ensures
            store.wf(),
            store@.len() == 0,
            store.next_id == 1,
            store.last_time == i64::MIN,
    {
        ItemStore { items: Vec::new(), next_id: 1, last_time: i64::MIN }
    }

    /// What a creation leaves behind: on success, a row carrying the
    /// next free id — colliding with no existing id — the request's
    /// fields and both timestamps set to `now`, appended behind the
    /// existing rows and returned; on failure (only when the id space
    /// is exhausted, the one storage failure this store can produce),
    /// the rows unchanged.
    pub open spec fn creation_outcome(
        pre: ItemStore,
        post: ItemStore,
        result: Result<Item, ApiError>,
        request: CreateModel,
        now: int,
    ) -> bool {
        match result {
            Ok(item) => {
                &&& item@.id == pre.next_id as int
                &&& 1 <= item@.id
                &&& item@.name == request.name
                &&& item@.description == request.description
                &&& item@.created_at == now
                &&& item@.updated_at == now
                &&& post@ == pre@.push(item@)
                &&& post.next_id == pre.next_id + 1
                &&& post.last_time == now
                &&& forall|i: int| 0 <= i < pre@.len() ==> (#[trigger] pre@[i]).id != item@.id
            },
            Err(e) => {
                &&& e matches ApiError::DatabaseError(_)
                &&& pre.next_id == i32::MAX
                &&& post@ == pre@
                &&& post.next_id == pre.next_id
                &&& post.last_time == pre.last_time
            },
        }
    }

    /// Handles creation: inserts a row carrying the next free id, the
    /// request's fields and both timestamps set to `now`, and returns
    /// the stored row. Fails only when the id space is exhausted,
    /// leaving the rows unchanged.
    pub fn create_item(&mut self, request: CreateItemRequest, now: i64) -> (result: Result<
        Item,
        ApiError,
    >)
        requires
            old(self).wf(),
            now >= old(self).last_time,
        ensures
            final(self).wf(),
            Self::creation_outcome(*old(self), *final(self), result, request@, now as int),
    {
        if self.next_id == i32::MAX {
            return Err(ApiError::DatabaseError(String::from_str("id space exhausted")));
        }
        let id = self.next_id;
        let item = Item {
            id,
            name: request.name,
            description: request.description,
            created_at: now,
            updated_at: now,
        };
        let stored = item.duplicate();
        self.items.push(stored);
        self.next_id = id + 1;
        self.last_time = now;
        proof {
            assert(self@ =~= old(self)@.push(item@));
        }
        Ok(item)
    }

    /// Handles a single-row lookup: the row carrying `id` when one is
    /// present, nothing when the id is absent.
    pub fn get_item(&self, id: i32) -> (result: Option<Item>)
        requires
            self.wf(),
        ensures
            match result {
                Some(item) => {
                    &&& has_id(self@, id as int)
                    &&& item@ == row_with_id(self@, id as int)
                    &&& item@.id == id as int
                },
                None => !has_id(self@, id as int),
            },
    {
        let n = self.items.len();
        let mut i: usize = 0;
        while i < n
            invariant
                self.wf(),
                0 <= i <= n,
                n == self.items@.len(),
                forall|j: int| 0 <= j < i ==> (#[trigger] self@[j]).id != id as int,
            decreases n - i,
        {
            if self.items[i].id == id {
                let found = self.items[i].duplicate();
                proof {
                    assert(has_id(self@, id as int));
                    let k = index_of_id(self@, id as int);
                    assert(0 <= k < self@.len() && self@[k].id == id as int);
                    if k != i as int {
                        assert(self@[k].id != self@[i as int].id);
                    }
                }
                return Some(found);
            }
            i += 1;
        }
        None
    }

    /// What an update leaves behind: when a row carried `id`, that row
    /// — and only that row — patched as `apply_patch` says and returned
    /// in full; when no row carried `id`, a "not found" answer and the
    /// rows unchanged.
    pub open spec fn update_outcome(
        pre: ItemStore,
        post: ItemStore,
        result: Result<Item, ApiError>,
        id: int,
        patch: UpdateModel,
        now: int,
    ) -> bool {
        &&& post.next_id == pre.next_id
        &&& match result {
            Ok(item) => {
                &&& has_id(pre@, id)
                &&& item@ == apply_patch(row_with_id(pre@, id), patch, now)
                &&& post@ == pre@.update(index_of_id(pre@, id), item@)
                &&& post.last_time == now
            },
            Err(e) => {
                &&& e == ApiError::NotFoundError
                &&& !has_id(pre@, id)
                &&& post@ == pre@
                &&& post.last_time == pre.last_time
            },
        }
    }

    /// Handles an update: when a row carries `id`, replaces exactly the
    /// supplied fields, keeps `id` and `created_at`, sets `updated_at`
    /// to `now`, and returns the full updated row; answers "not found",
    /// changing nothing, when the id is absent.
    pub fn update_item(&mut self, id: i32, request: &UpdateItemRequest, now: i64) -> (result:
        Result<Item, ApiError>)
        requires
            old(self).wf(),
            now >= old(self).last_time,
        ensures
            final(self).wf(),
            Self::update_outcome(*old(self), *final(self), result, id as int, request@, now as int),
    {
        let n = self.items.len();
        let mut i: usize = 0;
        while i < n
            invariant
                *self == *old(self),
                self.wf(),
                now >= self.last_time,
                0 <= i <= n,
                n == self.items@.len(),
                forall|j: int| 0 <= j < i ==> (#[trigger] self@[j]).id != id as int,
            decreases n - i,
        {
            if self.items[i].id == id {
                proof {
                    assert(has_id(self@, id as int));
                    let k = index_of_id(self@, id as int);
                    assert(0 <= k < self@.len() && self@[k].id == id as int);
                    if k != i as int {
                        assert(self@[k].id != self@[i as int].id);
                    }
                }
                let old_row = self.items.remove(i);
                let new_name: String = match &request.name {
                    Some(n) => n.clone(),
                    None => old_row.name,
                };
                let new_description: Option<String> = match &request.description {
                    Some(d) => Some(d.clone()),
                    None => old_row.description,
                };
                let patched = Item {
                    id: old_row.id,
                    name: new_name,
                    description: new_description,
                    created_at: old_row.created_at,
                    updated_at: now,
                };
                let out = patched.duplicate();
                self.items.insert(i, patched);
                self.last_time = now;
                proof {
                    assert(self@ =~= old(self)@.update(i as int, out@));
                }
                return Ok(out);
            }
            i += 1;
        }
        Err(ApiError::NotFoundError)
    }

    /// Handles a delete: when a row carries `id`, removes exactly that
    /// row — after which no row carries `id` any more — and answers
    /// "not found", changing nothing, when the id is absent.
    pub fn delete_item(&mut self, id: i32) -> (result: Result<(), ApiError>)
        requires
            old(self).wf(),
        ensures
            final(self).wf(),
            final(self).next_id == old(self).next_id,
            final(self).last_time == old(self).last_time,
            match result {
                Ok(_) => {
                    &&& has_id(old(self)@, id as int)
                    &&& final(self)@ == old(self)@.remove(index_of_id(old(self)@, id as int))
                    &&& !has_id(final(self)@, id as int)
                },
                Err(e) => {
                    &&& e == ApiError::NotFoundError
                    &&& !has_id(old(self)@, id as int)
                    &&& final(self)@ == old(self)@
                },
            },
    {
        let n = self.items.len();
        let mut i: usize = 0;
        while i < n
            invariant
                *self == *old(self),
                self.wf(),
                0 <= i <= n,
                n == self.items@.len(),
                forall|j: int| 0 <= j < i ==> (#[trigger] self@[j]).id != id as int,
            decreases n - i,
        {
            if self.items[i].id == id {
                proof {
                    assert(has_id(self@, id as int));
                    let k = index_of_id(self@, id as int);
                    assert(0 <= k < self@.len() && self@[k].id == id as int);
                    if k != i as int {
                        assert(self@[k].id != self@[i as int].id);
                    }
                }
                self.items.remove(i);
                proof {
                    assert(self@ =~= old(self)@.remove(i as int));
                    assert forall|j: int| 0 <= j < self@.len() implies (#[trigger] self@[j]).id
                        != id as int by {
                        if j < i as int {
                            assert(self@[j] == old(self)@[j]);
                        } else {
                            assert(self@[j] == old(self)@[j + 1]);
                            assert(old(self)@[i as int].id < old(self)@[j + 1].id);
                        }
                    }
                }
                return Ok(());
            }
            i += 1;
        }
        Err(ApiError::NotFoundError)
    }

    /// Handles the listing: copies of all rows, in store order — which
    /// well-formedness keeps ascending by id.
    pub fn get_items(&self) -> (rows: Vec<Item>)
        requires
            self.wf(),
        ensures
            models(rows@) == self@,
    {
        let mut rows: Vec<Item> = Vec::new();
        let n = self.items.len();
        let mut i: usize = 0;
        while i < n
            invariant
                0 <= i <= n,
                n == self.items@.len(),
                rows@.len() == i,
                forall|j: int| 0 <= j < i ==> (#[trigger] rows@[j])@ == self@[j],
            decreases n - i,
        {
            rows.push(self.items[i].duplicate());
            i += 1;
        }
        proof {
            assert(models(rows@) =~= self@);
        }
        rows
    }
}

} // verus!
