use vstd::prelude::*;

use crate::ids::{oid_hex, oid_to_hex, Oid, Uid};
use crate::model::{BlockModel, ChatType, MsgModel, PropValueModel};
use crate::props::{pv_opt_eq, PropValueType, PropertyType};

verus! {

/// A plain status/message envelope.
#[derive(Debug)]
pub struct GenericResponse {
    pub status: String,
    pub message: String,
}

/// One property as it is serialized at the boundary: the identifier as an
/// opaque hexadecimal string, the value present only when materialized.
#[allow(non_snake_case)]
#[derive(Debug)]
pub struct PropValueRes {
    pub id: String,
    pub prop_name: String,
    pub value: Option<PropValueType>,
    pub prop_type: PropertyType,
}

/// The response carries exactly the record's data, its id rendered in hex.
pub open spec fn res_matches_prop(r: PropValueRes, p: PropValueModel) -> bool {
    &&& r.id@ == oid_hex(p.prop_id)
    &&& r.prop_name == p.prop_name
    &&& pv_opt_eq(r.value, p.value)
    &&& r.prop_type == p.prop_type
}

impl PropValueRes {
    /// The boundary view of one stored property record.
    pub fn from_model(prop_v: &PropValueModel) -> (r: Self)
        ensures
            res_matches_prop(r, *prop_v),
    {
        let value = match &prop_v.value {
            Option::Some(v) => Option::Some(v.clone()),
            Option::None => Option::None,
        };
        PropValueRes {
            id: oid_to_hex(&prop_v.prop_id),
            prop_name: prop_v.prop_name.clone(),
            value,
            prop_type: prop_v.prop_type,
        }
    }
}

/// A request to declare one property on a task.
#[derive(Debug)]
pub struct CreatePropValueReq {
    pub prop_id: Oid,
    pub prop_name: String,
    pub value: PropValueType,
    pub prop_type: PropertyType,
}

/// A request to patch one property; a field is changed where the request
/// holds a value.
#[derive(Debug)]
pub struct UpdatePropValueReq {
    pub user: Uid,
    pub name: Option<String>,
    pub value: Option<Vec<String>>,
    pub prop_type: Option<PropertyType>,
}

/// One property, wrapped for a single-entity response.
#[allow(non_snake_case)]
#[derive(Debug)]
pub struct PropValueData {
    pub propV: PropValueRes,
}

/// A single-property response envelope.
#[derive(Debug)]
pub struct SinglePropValueRes {
    pub status: &'static str,
    pub data: PropValueData,
}

/// A property-list response envelope.
#[allow(non_snake_case)]
#[derive(Debug)]
pub struct PropValueListRes {
    pub status: &'static str,
    pub results: usize,
    pub propVs: Vec<PropValueRes>,
}

/// One task's assembled view: its own record's data, its category's name
/// and color, its resolved properties (with the ids of corrupt ones listed
/// apart), its blocks in display order, its subtasks to a bounded depth,
/// and its chat thread when it has one.
#[derive(Debug)]
pub struct TaskResponse {
    pub id: String,
    pub user: Uid,
    pub title: String,
    pub start_date: Option<i64>,
    pub due_at: Option<i64>,
    pub category_id: Oid,
    pub category_color: String,
    pub category_name: String,
    pub properties: Vec<PropValueRes>,
    pub corrupt_properties: Vec<Oid>,
    pub blocks: Vec<BlockModel>,
    pub subtasks: Vec<TaskResponse>,
    pub parent_id: Option<Oid>,
    pub chat_type: ChatType,
    pub chat_messages: Option<Vec<MsgModel>>,
    pub created_at: i64,
    pub updated_at: i64,
}

/// One task view, wrapped for a single-entity response.
#[derive(Debug)]
pub struct TaskData {
    pub task: TaskResponse,
}

/// A single-task response envelope.
#[derive(Debug)]
pub struct SingleTaskResponse {
    pub status: &'static str,
    pub data: TaskData,
}

/// A task-list response envelope.
#[derive(Debug)]
pub struct TaskListResponse {
    pub status: &'static str,
    pub results: usize,
    pub tasks: Vec<TaskResponse>,
}

} // verus!
