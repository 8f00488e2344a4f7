use vstd::prelude::*;

use crate::ids::{Oid, Uid};
use crate::props::{pv_opt_eq, PropValueType, PropertyType};

verus! {

/// A persisted custom property: a typed field declared on one task.
/// `value` is `None` while the property is declared but unset. `options`
/// is the configured allowed-options set for selection payloads, when one
/// is configured.
#[derive(Debug)]
pub struct PropValueModel {
    pub prop_id: Oid,
    pub task_id: Oid,
    pub prop_name: String,
    pub value: Option<PropValueType>,
    pub prop_type: PropertyType,
    pub options: Option<Vec<String>>,
}

/// Equality on optional option sets, element by element.
pub open spec fn opts_eq(a: Option<Vec<String>>, b: Option<Vec<String>>) -> bool {
    match (a, b) {
        (Option::None, Option::None) => true,
        (Option::Some(x), Option::Some(y)) => x@ == y@,
        _ => false,
    }
}

/// Two property records carry the same data.
pub open spec fn pvm_eq(a: PropValueModel, b: PropValueModel) -> bool {
    &&& a.prop_id == b.prop_id
    &&& a.task_id == b.task_id
    &&& a.prop_name == b.prop_name
    &&& pv_opt_eq(a.value, b.value)
    &&& a.prop_type == b.prop_type
    &&& opts_eq(a.options, b.options)
}

impl Clone for PropValueModel {
    /// Cloning preserves every field of the record.
    fn clone(&self) -> (r: Self)
        ensures
            pvm_eq(*self, r),
    {
        let value = match &self.value {
            Option::Some(v) => Option::Some(v.clone()),
            Option::None => Option::None,
        };
        let options = match &self.options {
            Option::Some(o) => {
                let c = o.clone();
                proof {
                    assert(c@ =~= o@);
                }
                Option::Some(c)
            },
            Option::None => Option::None,
        };
        PropValueModel {
            prop_id: self.prop_id,
            task_id: self.task_id,
            prop_name: self.prop_name.clone(),
            value,
            prop_type: self.prop_type,
            options,
        }
    }
}

/// A category row from the relational store, referenced by tasks and never
/// embedded in them.
#[derive(Debug)]
pub struct CategoryModel {
    pub id: Oid,
    pub name: String,
    pub color: String,
}

impl Clone for CategoryModel {
    /// Cloning preserves every field of the row.
    fn clone(&self) -> (r: Self)
        ensures
            r == *self,
    {
        CategoryModel { id: self.id, name: self.name.clone(), color: self.color.clone() }
    }
}

/// An ordered content fragment belonging to one task; the position within
/// the store's sequence is its display order.
#[derive(Debug)]
pub struct BlockModel {
    pub id: Oid,
    pub task_id: Oid,
    pub content: String,
}

impl Clone for BlockModel {
    /// Cloning preserves every field of the block.
    fn clone(&self) -> (r: Self)
        ensures
            r == *self,
    {
        BlockModel { id: self.id, task_id: self.task_id, content: self.content.clone() }
    }
}

/// One message of a task's chat thread.
#[derive(Debug)]
pub struct MsgModel {
    pub id: Oid,
    pub content: String,
    pub created_at: i64,
}

impl Clone for MsgModel {
    /// Cloning preserves every field of the message.
    fn clone(&self) -> (r: Self)
        ensures
            r == *self,
    {
        MsgModel { id: self.id, content: self.content.clone(), created_at: self.created_at }
    }
}

/// The kind of discussion attached to a task.
#[derive(Clone, Copy, PartialEq, Eq, Structural, Debug)]
pub enum ChatType {
    Task,
    Free,
}

/// A task's optional chat thread: its kind and its messages in order.
#[derive(Debug)]
pub struct ChatThreadModel {
    pub chat_type: ChatType,
    pub msgs: Vec<MsgModel>,
}

/// Two threads carry the same kind and the same messages in the same order.
pub open spec fn thread_eq(a: ChatThreadModel, b: ChatThreadModel) -> bool {
    a.chat_type == b.chat_type && a.msgs@ == b.msgs@
}

/// A task record: identity, ownership, hierarchy pointer and timestamps.
/// Dates are day numbers; instants are milliseconds since the epoch.
#[derive(Debug)]
pub struct TaskModel {
    pub id: Oid,
    pub user: Uid,
    pub title: String,
    pub start_date: Option<i64>,
    pub due_at: Option<i64>,
    pub category_id: Oid,
    pub parent_id: Option<Oid>,
    pub created_at: i64,
    pub updated_at: i64,
}

impl Clone for TaskModel {
    /// Cloning preserves every field of the record.
    fn clone(&self) -> (r: Self)
        ensures
            r == *self,
    {
        TaskModel {
            id: self.id,
            user: self.user,
            title: self.title.clone(),
            start_date: self.start_date,
            due_at: self.due_at,
            category_id: self.category_id,
            parent_id: self.parent_id,
            created_at: self.created_at,
            updated_at: self.updated_at,
        }
    }
}

/// A free-standing note; plain single-entity data with no aggregation.
#[derive(Debug)]
#[allow(non_snake_case)]
pub struct NoteModel {
    pub id: Oid,
    pub user: Uid,
    pub title: String,
    pub content: String,
    pub category: Option<String>,
    pub published: Option<bool>,
    pub createdAt: i64,
    pub updatedAt: i64,
}

} // verus!
