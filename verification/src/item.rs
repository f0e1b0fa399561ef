//! The item entity and the two request shapes that carry its mutable
//! fields, together with their mathematical models.

use vstd::prelude::*;

verus! {

/// The mathematical value of an `Item`: its fields as plain values,
/// with text as character sequences and timestamps as integers.
pub ghost struct ItemModel {
    pub id: int,
    pub name: Seq<char>,
    pub description: Option<Seq<char>>,
    pub created_at: int,
    pub updated_at: int,
}

/// The sole persisted entity. Timestamps count microseconds since the
/// Unix epoch.
#[derive(Debug)]
pub struct Item {
    pub id: i32,
    pub name: String,
    pub description: Option<String>,
    pub created_at: i64,
    pub updated_at: i64,
}

impl View for Item {
    type V = ItemModel;

    open spec fn view(&self) -> ItemModel {
        ItemModel {
            id: self.id as int,
            name: self.name@,
            description: self.description.deep_view(),
            created_at: self.created_at as int,
            updated_at: self.updated_at as int,
        }
    }
}

/// The creation request: a required name and an optional description.
pub struct CreateItemRequest {
    pub name: String,
    pub description: Option<String>,
}

/// The model of a creation request.
pub ghost struct CreateModel {
    pub name: Seq<char>,
    pub description: Option<Seq<char>>,
}

impl View for CreateItemRequest {
    type V = CreateModel;

    open spec fn view(&self) -> CreateModel {
        CreateModel { name: self.name@, description: self.description.deep_view() }
    }
}

/// The update request: both fields optional, with patch semantics —
/// an omitted field keeps the stored value.
pub struct UpdateItemRequest {
    pub name: Option<String>,
    pub description: Option<String>,
}

/// The model of an update request.
pub ghost struct UpdateModel {
    pub name: Option<Seq<char>>,
    pub description: Option<Seq<char>>,
}

impl View for UpdateItemRequest {
    type V = UpdateModel;

    open spec fn view(&self) -> UpdateModel {
        UpdateModel { name: self.name.deep_view(), description: self.description.deep_view() }
    }
}

/// Patch semantics: a field present in the request replaces the stored
/// value and an absent field keeps it; `updated_at` is set to `now`,
/// while `id` and `created_at` are kept.
pub open spec fn apply_patch(row: ItemModel, patch: UpdateModel, now: int) -> ItemModel {
    ItemModel {
        id: row.id,
        name: match patch.name {
            Some(n) => n,
            None => row.name,
        },
        description: match patch.description {
            Some(d) => Some(d),
            None => row.description,
        },
        created_at: row.created_at,
        updated_at: now,
    }
}

/// Relies on `chrono::Utc::now`, read out with
/// `DateTime::timestamp_micros`: the current wall-clock time as
/// microseconds since the Unix epoch. Nothing is assumed of the value.
#[verifier::external_body]
pub(crate) fn now_micros() -> i64 {
    chrono::Utc::now().timestamp_micros()
}

/// An exact copy of an optional piece of text, with the same view.
fn clone_opt_string(text: &Option<String>) -> (r: Option<String>)
    ensures
        r.deep_view() == text.deep_view(),
{
    match text {
        Some(s) => Some(s.clone()),
        None => None,
    }
}

impl Item {
    /// A fresh item as the creation path shapes it before the store
    /// assigns an id: id zero, both timestamps the same current
    /// instant.
    pub fn new(name: String, description: Option<String>) -> (item: Item)
        ensures
            item@.id == 0,
            item@.name == name@,
            item@.description == description.deep_view(),
            item@.created_at == item@.updated_at,
    {
        let now = now_micros();
        Item { id: 0, name, description, created_at: now, updated_at: now }
    }

    /// An exact copy: same id, text and timestamps.
    pub fn duplicate(&self) -> (r: Item)
        ensures
            r@ == self@,
    {
        Item {
            id: self.id,
            name: self.name.clone(),
            description: clone_opt_string(&self.description),
            created_at: self.created_at,
            updated_at: self.updated_at,
        }
    }
}

} // verus!
