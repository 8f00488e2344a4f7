use vstd::prelude::*;

use crate::ids::Oid;
use crate::model::{pvm_eq, BlockModel, CategoryModel, ChatThreadModel, PropValueModel};
use crate::props::{shape_ok, tag_of, validate_against, PropValueType, PropertyType,
    ValidationError};

verus! {

/// The first category row with the given id, scanning front to back.
pub open spec fn find_cat(s: Seq<CategoryModel>, id: Oid) -> Option<CategoryModel>
    decreases s.len(),
{
    if s.len() == 0 {
        Option::None
    } else if s[0].id == id {
        Option::Some(s[0])
    } else {
        find_cat(s.skip(1), id)
    }
}

/// The first property row with the given id, scanning front to back.
pub open spec fn find_prop(s: Seq<PropValueModel>, id: Oid) -> Option<PropValueModel>
    decreases s.len(),
{
    if s.len() == 0 {
        Option::None
    } else if s[0].prop_id == id {
        Option::Some(s[0])
    } else {
        find_prop(s.skip(1), id)
    }
}

/// The property rows owned by one task, in stored order.
pub open spec fn props_for(s: Seq<PropValueModel>, task_id: Oid) -> Seq<PropValueModel>
    decreases s.len(),
{
    if s.len() == 0 {
        Seq::empty()
    } else {
        let rest = props_for(s.drop_last(), task_id);
        if s.last().task_id == task_id {
            rest.push(s.last())
        } else {
            rest
        }
    }
}

/// The property rows that survive deleting one task: every row not owned by it.
pub open spec fn props_without_task(s: Seq<PropValueModel>, task_id: Oid) -> Seq<PropValueModel>
    decreases s.len(),
{
    if s.len() == 0 {
        Seq::empty()
    } else {
        let rest = props_without_task(s.drop_last(), task_id);
        if s.last().task_id == task_id {
            rest
        } else {
            rest.push(s.last())
        }
    }
}

/// The block rows belonging to one task, in stored (display) order.
pub open spec fn blocks_for(s: Seq<BlockModel>, task_id: Oid) -> Seq<BlockModel>
    decreases s.len(),
{
    if s.len() == 0 {
        Seq::empty()
    } else {
        let rest = blocks_for(s.drop_last(), task_id);
        if s.last().task_id == task_id {
            rest.push(s.last())
        } else {
            rest
        }
    }
}

/// The block rows that survive deleting one task.
pub open spec fn blocks_without_task(s: Seq<BlockModel>, task_id: Oid) -> Seq<BlockModel>
    decreases s.len(),
{
    if s.len() == 0 {
        Seq::empty()
    } else {
        let rest = blocks_without_task(s.drop_last(), task_id);
        if s.last().task_id == task_id {
            rest
        } else {
            rest.push(s.last())
        }
    }
}

/// Element-by-element data equality of two property row sequences.
pub open spec fn pvm_seq_eq(a: Seq<PropValueModel>, b: Seq<PropValueModel>) -> bool {
    a.len() == b.len() && forall|i: int| 0 <= i < a.len() ==> #[trigger] pvm_eq(a[i], b[i])
}

/// A stored value (when set) is legal for the row's declared type and
/// configured option set.
pub open spec fn prop_value_ok(p: PropValueModel) -> bool {
    match p.value {
        Option::None => true,
        Option::Some(v) => tag_of(v) == p.prop_type && shape_ok(v, p.options),
    }
}

/// Why a property store command was rejected.
#[derive(Clone, Copy, PartialEq, Eq, Structural, Debug)]
pub enum PropError {
    TypeMismatch,
    ShapeError,
    DuplicateId,
    NotFound,
}

/// The declared type a patch leaves on a row.
pub open spec fn patched_type(p: PropValueModel, new_type: Option<PropertyType>) -> PropertyType {
    match new_type {
        Option::Some(t) => t,
        Option::None => p.prop_type,
    }
}

/// The row a property patch produces: name and type replaced where given;
/// a type change clears a value that the patch does not itself replace.
pub open spec fn apply_prop_patch(
    p: PropValueModel,
    name: Option<String>,
    value: Option<PropValueType>,
    new_type: Option<PropertyType>,
) -> PropValueModel {
    PropValueModel {
        prop_name: match name {
            Option::Some(n) => n,
            Option::None => p.prop_name,
        },
        prop_type: patched_type(p, new_type),
        value: match value {
            Option::Some(v) => Option::Some(v),
            Option::None => if patched_type(p, new_type) == p.prop_type {
                p.value
            } else {
                Option::None
            },
        },
        ..p
    }
}

/// A patch's replacement value (when given) is legal for the type the patch
/// leaves on the row, under the row's configured option set.
pub open spec fn prop_patch_valid(
    p: PropValueModel,
    value: Option<PropValueType>,
    new_type: Option<PropertyType>,
) -> bool {
    match value {
        Option::Some(v) => tag_of(v) == patched_type(p, new_type) && shape_ok(v, p.options),
        Option::None => true,
    }
}

/// The relational store's category rows, as one snapshot.
pub struct CategoryStore {
    rows: Vec<CategoryModel>,
}

impl View for CategoryStore {
    type V = Seq<CategoryModel>;

    closed spec fn view(&self) -> Seq<CategoryModel> {
        self.rows@
    }
}

impl CategoryStore {
    /// An empty store.
    pub fn new() -> (r: Self)
        ensures
            r@ == Seq::<CategoryModel>::empty(),
    {
        CategoryStore { rows: Vec::new() }
    }

    /// A store holding the given rows, as found at rest.
    pub fn from_rows(rows: Vec<CategoryModel>) -> (r: Self)
        ensures
            r@ == rows@,
    {
        CategoryStore { rows }
    }

    /// The category with the given id, if any.
    pub fn get(&self, id: Oid) -> (r: Option<&CategoryModel>)
        ensures
            match r {
                Option::Some(c) => find_cat(self@, id) == Option::Some(*c),
                Option::None => find_cat(self@, id) is None,
            },
    {
        let ghost s = self@;
        proof {
            assert(s.skip(0) =~= s);
        }
        let mut i: usize = 0;
        while i < self.rows.len()
            invariant
                0 <= i <= s.len(),
                s == self@,
                self@ == self.rows@,
                find_cat(s, id) == find_cat(s.skip(i as int), id),
            decreases s.len() - i,
        {
            if self.rows[i].id == id {
                return Some(&self.rows[i]);
            }
            proof {
                assert(s.skip(i as int).skip(1) =~= s.skip(i as int + 1));
            }
            i += 1;
        }
        None
    }
}

/// The document store's property rows, as one snapshot.
pub struct PropertyStore {
    rows: Vec<PropValueModel>,
}

impl View for PropertyStore {
    type V = Seq<PropValueModel>;

    closed spec fn view(&self) -> Seq<PropValueModel> {
        self.rows@
    }
}

impl PropertyStore {
    /// An empty store.
    pub fn new() -> (r: Self)
        ensures
            r@ == Seq::<PropValueModel>::empty(),
    {
        PropertyStore { rows: Vec::new() }
    }

    /// A store holding the given rows, as found at rest: no validation is
    /// applied, so rows written by other parties may carry corrupt values.
    pub fn from_rows(rows: Vec<PropValueModel>) -> (r: Self)
        ensures
            r@ == rows@,
    {
        PropertyStore { rows }
    }

    /// All rows, in stored order.
    pub fn rows(&self) -> (r: &Vec<PropValueModel>)
        ensures
            r@ == self@,
    {
        &self.rows
    }

    /// The rows owned by one task, in stored order.
    pub fn list_for_task(&self, task_id: Oid) -> (r: Vec<PropValueModel>)
        ensures
            pvm_seq_eq(r@, props_for(self@, task_id)),
    {
        let ghost s = self@;
        let mut out: Vec<PropValueModel> = Vec::new();
        let mut i: usize = 0;
        while i < self.rows.len()
            invariant
                0 <= i <= s.len(),
                s == self@,
                self@ == self.rows@,
                pvm_seq_eq(out@, props_for(s.take(i as int), task_id)),
            decreases s.len() - i,
        {
            proof {
                assert(s.take(i as int + 1).drop_last() =~= s.take(i as int));
                assert(s.take(i as int + 1).last() == s[i as int]);
            }
            if self.rows[i].task_id == task_id {
                out.push(self.rows[i].clone());
            }
            i += 1;
        }
        proof {
            assert(s.take(s.len() as int) =~= s);
        }
        out
    }

    /// Validates and then persists one new row: the row is appended exactly
    /// when its id is fresh and its value (if set) is legal for its declared
    /// type and option set; nothing is written on failure.
    pub fn create(&mut self, p: PropValueModel) -> (r: Result<(), PropError>)
        ensures
            r matches Ok(_) <==> (find_prop(old(self)@, p.prop_id) is None && prop_value_ok(p)),
            r matches Ok(_) ==> final(self)@ == old(self)@.push(p),
            r matches Err(_) ==> final(self)@ == old(self)@,
            find_prop(old(self)@, p.prop_id) is Some ==> r == Err::<(), PropError>(
                PropError::DuplicateId,
            ),
            find_prop(old(self)@, p.prop_id) is None && !prop_value_ok(p) ==> (match p.value {
                Option::Some(v) => r == (if tag_of(v) != p.prop_type {
                    Err::<(), PropError>(PropError::TypeMismatch)
                } else {
                    Err::<(), PropError>(PropError::ShapeError)
                }),
                Option::None => false,
            }),
    {
        if self.index_of(p.prop_id).is_some() {
            return Err(PropError::DuplicateId);
        }
        match &p.value {
            Option::Some(v) => {
                match validate_against(p.prop_type, v, &p.options) {
                    Err(ValidationError::TypeMismatch) => {
                        return Err(PropError::TypeMismatch);
                    },
                    Err(ValidationError::ShapeError) => {
                        return Err(PropError::ShapeError);
                    },
                    Ok(_) => {},
                }
            },
            Option::None => {},
        }
        self.rows.push(p);
        Ok(())
    }

    /// The position of the row with the given id, if any.
    fn index_of(&self, id: Oid) -> (r: Option<usize>)
        ensures
            match r {
                Option::Some(k) => 0 <= k < self@.len() && self@[k as int].prop_id == id
                    && find_prop(self@, id) == Option::Some(self@[k as int]),
                Option::None => find_prop(self@, id) is None,
            },
    {
        let ghost s = self@;
        proof {
            assert(s.skip(0) =~= s);
        }
        let mut i: usize = 0;
        while i < self.rows.len()
            invariant
                0 <= i <= s.len(),
                s == self@,
                self@ == self.rows@,
                find_prop(s, id) == find_prop(s.skip(i as int), id),
            decreases s.len() - i,
        {
            if self.rows[i].prop_id == id {
                return Some(i);
            }
            proof {
                assert(s.skip(i as int).skip(1) =~= s.skip(i as int + 1));
            }
            i += 1;
        }
        None
    }

    /// Patches one row: name, value and declared type may each change. A
    /// type change clears a value the patch does not replace; a replacement
    /// value is validated against the type the patch leaves, and the whole
    /// update fails with nothing written when it is illegal.
    pub fn update(
        &mut self,
        id: Oid,
        name: Option<String>,
        value: Option<PropValueType>,
        new_type: Option<PropertyType>,
    ) -> (r: Result<(), PropError>)
        ensures
            r matches Err(_) ==> final(self)@ == old(self)@,
            r == Err::<(), PropError>(PropError::NotFound) <==> find_prop(old(self)@, id) is None,
            (match find_prop(old(self)@, id) {
                Option::Some(p) => {
                    &&& (r matches Ok(_) <==> prop_patch_valid(p, value, new_type))
                    &&& (!prop_patch_valid(p, value, new_type) ==> (match value {
                        Option::Some(v) => r == (if tag_of(v) != patched_type(p, new_type) {
                            Err::<(), PropError>(PropError::TypeMismatch)
                        } else {
                            Err::<(), PropError>(PropError::ShapeError)
                        }),
                        Option::None => false,
                    }))
                },
                Option::None => true,
            }),
            r matches Ok(_) ==> exists|k: int|
                0 <= k < old(self)@.len() && old(self)@[k].prop_id == id && final(self)@ == old(
                    self,
                )@.update(k, apply_prop_patch(old(self)@[k], name, value, new_type)),
    {
        let k = match self.index_of(id) {
            Option::Some(k) => k,
            Option::None => {
                return Err(PropError::NotFound);
            },
        };
        let eff_type = match &new_type {
            Option::Some(t) => *t,
            Option::None => self.rows[k].prop_type,
        };
        match &value {
            Option::Some(v) => {
                match validate_against(eff_type, v, &self.rows[k].options) {
                    Err(ValidationError::TypeMismatch) => {
                        return Err(PropError::TypeMismatch);
                    },
                    Err(ValidationError::ShapeError) => {
                        return Err(PropError::ShapeError);
                    },
                    Ok(_) => {},
                }
            },
            Option::None => {},
        }
        let row = &mut self.rows[k];
        match name {
            Option::Some(n) => {
                row.prop_name = n;
            },
            Option::None => {},
        }
        match new_type {
            Option::Some(t) => {
                if t != row.prop_type {
                    row.value = Option::None;
                    row.prop_type = t;
                }
            },
            Option::None => {},
        }
        match value {
            Option::Some(v) => {
                row.value = Option::Some(v);
            },
            Option::None => {},
        }
        Ok(())
    }

    /// Removes the row with the given id; the other rows keep their order.
    pub fn delete(&mut self, id: Oid) -> (r: Result<(), PropError>)
        ensures
            r matches Ok(_) <==> find_prop(old(self)@, id) is Some,
            r matches Err(_) ==> final(self)@ == old(self)@,
            r == Err::<(), PropError>(PropError::NotFound) <==> find_prop(old(self)@, id) is None,
            r matches Ok(_) ==> exists|k: int|
                0 <= k < old(self)@.len() && old(self)@[k].prop_id == id && final(self)@ == old(
                    self,
                )@.remove(k),
    {
        match self.index_of(id) {
            Option::Some(k) => {
                self.rows.remove(k);
                Ok(())
            },
            Option::None => Err(PropError::NotFound),
        }
    }

    /// Removes every row owned by one task; used when the task is deleted.
    pub fn delete_for_task(&mut self, task_id: Oid)
        ensures
            pvm_seq_eq(final(self)@, props_without_task(old(self)@, task_id)),
    {
        let ghost s = self@;
        let mut out: Vec<PropValueModel> = Vec::new();
        let mut i: usize = 0;
        while i < self.rows.len()
            invariant
                0 <= i <= s.len(),
                s == self.rows@,
                pvm_seq_eq(out@, props_without_task(s.take(i as int), task_id)),
            decreases s.len() - i,
        {
            proof {
                assert(s.take(i as int + 1).drop_last() =~= s.take(i as int));
                assert(s.take(i as int + 1).last() == s[i as int]);
            }
            if self.rows[i].task_id != task_id {
                out.push(self.rows[i].clone());
            }
            i += 1;
        }
        proof {
            assert(s.take(s.len() as int) =~= s);
        }
        self.rows = out;
    }
}

/// The document store's content blocks, as one snapshot; stored order is
/// display order.
pub struct BlockStore {
    rows: Vec<BlockModel>,
}

impl View for BlockStore {
    type V = Seq<BlockModel>;

    closed spec fn view(&self) -> Seq<BlockModel> {
        self.rows@
    }
}

impl BlockStore {
    /// An empty store.
    pub fn new() -> (r: Self)
        ensures
            r@ == Seq::<BlockModel>::empty(),
    {
        BlockStore { rows: Vec::new() }
    }

    /// A store holding the given blocks, as found at rest.
    pub fn from_rows(rows: Vec<BlockModel>) -> (r: Self)
        ensures
            r@ == rows@,
    {
        BlockStore { rows }
    }

    /// All blocks, in stored order.
    pub fn rows(&self) -> (r: &Vec<BlockModel>)
        ensures
            r@ == self@,
    {
        &self.rows
    }

    /// The blocks of one task, preserving stored order.
    pub fn list_for_task(&self, task_id: Oid) -> (r: Vec<BlockModel>)
        ensures
            r@ == blocks_for(self@, task_id),
    {
        let ghost s = self@;
        let mut out: Vec<BlockModel> = Vec::new();
        let mut i: usize = 0;
        while i < self.rows.len()
            invariant
                0 <= i <= s.len(),
                s == self.rows@,
                out@ == blocks_for(s.take(i as int), task_id),
            decreases s.len() - i,
        {
            proof {
                assert(s.take(i as int + 1).drop_last() =~= s.take(i as int));
                assert(s.take(i as int + 1).last() == s[i as int]);
            }
            if self.rows[i].task_id == task_id {
                out.push(self.rows[i].clone());
            }
            i += 1;
        }
        proof {
            assert(s.take(s.len() as int) =~= s);
        }
        out
    }

    /// Removes every block of one task; used when the task is deleted.
    pub fn delete_for_task(&mut self, task_id: Oid)
        ensures
            final(self)@ == blocks_without_task(old(self)@, task_id),
    {
        let ghost s = self@;
        let mut out: Vec<BlockModel> = Vec::new();
        let mut i: usize = 0;
        while i < self.rows.len()
            invariant
                0 <= i <= s.len(),
                s == self.rows@,
                out@ == blocks_without_task(s.take(i as int), task_id),
            decreases s.len() - i,
        {
            proof {
                assert(s.take(i as int + 1).drop_last() =~= s.take(i as int));
                assert(s.take(i as int + 1).last() == s[i as int]);
            }
            if self.rows[i].task_id != task_id {
                out.push(self.rows[i].clone());
            }
            i += 1;
        }
        proof {
            assert(s.take(s.len() as int) =~= s);
        }
        self.rows = out;
    }
}

/// One task's chat thread, keyed by the task's id.
pub struct ChatEntry {
    pub task_id: Oid,
    pub thread: ChatThreadModel,
}

/// The first chat entry for the given task, scanning front to back.
pub open spec fn find_chat(s: Seq<ChatEntry>, task_id: Oid) -> Option<ChatEntry>
    decreases s.len(),
{
    if s.len() == 0 {
        Option::None
    } else if s[0].task_id == task_id {
        Option::Some(s[0])
    } else {
        find_chat(s.skip(1), task_id)
    }
}

/// The chat threads attached to tasks, as one snapshot.
pub struct ChatStore {
    rows: Vec<ChatEntry>,
}

impl View for ChatStore {
    type V = Seq<ChatEntry>;

    closed spec fn view(&self) -> Seq<ChatEntry> {
        self.rows@
    }
}

impl ChatStore {
    /// An empty store.
    pub fn new() -> (r: Self)
        ensures
            r@ == Seq::<ChatEntry>::empty(),
    {
        ChatStore { rows: Vec::new() }
    }

    /// A store holding the given entries, as found at rest.
    pub fn from_rows(rows: Vec<ChatEntry>) -> (r: Self)
        ensures
            r@ == rows@,
    {
        ChatStore { rows }
    }

    /// The thread of one task, if it has one; absence is a valid state.
    pub fn get_for_task(&self, task_id: Oid) -> (r: Option<&ChatThreadModel>)
        ensures
            match r {
                Option::Some(th) => (match find_chat(self@, task_id) {
                    Option::Some(e) => *th == e.thread,
                    Option::None => false,
                }),
                Option::None => find_chat(self@, task_id) is None,
            },
    {
        let ghost s = self@;
        proof {
            assert(s.skip(0) =~= s);
        }
        let mut i: usize = 0;
        while i < self.rows.len()
            invariant
                0 <= i <= s.len(),
                s == self.rows@,
                find_chat(s, task_id) == find_chat(s.skip(i as int), task_id),
            decreases s.len() - i,
        {
            if self.rows[i].task_id == task_id {
                return Some(&self.rows[i].thread);
            }
            proof {
                assert(s.skip(i as int).skip(1) =~= s.skip(i as int + 1));
            }
            i += 1;
        }
        None
    }
}

} // verus!
