use vstd::prelude::*;

use crate::ids::Oid;
use crate::model::TaskModel;
use crate::stores::{blocks_without_task, props_without_task, pvm_seq_eq, BlockStore,
    PropertyStore};

verus! {

/// Why a repository command was rejected.
#[derive(Clone, Copy, PartialEq, Eq, Structural, Debug)]
pub enum RepoError {
    NotFound,
    CycleDetected,
    DuplicateId,
}

/// The first task record with the given id, scanning front to back.
pub open spec fn find_task(s: Seq<TaskModel>, id: Oid) -> Option<TaskModel>
    decreases s.len(),
{
    if s.len() == 0 {
        Option::None
    } else if s[0].id == id {
        Option::Some(s[0])
    } else {
        find_task(s.skip(1), id)
    }
}

/// The direct subtasks of one task, in stored (creation) order.
pub open spec fn children_spec(s: Seq<TaskModel>, id: Oid) -> Seq<TaskModel>
    decreases s.len(),
{
    if s.len() == 0 {
        Seq::empty()
    } else {
        let rest = children_spec(s.drop_last(), id);
        if s.last().parent_id == Option::Some(id) {
            rest.push(s.last())
        } else {
            rest
        }
    }
}

/// One record after a parent is deleted: a child of the deleted task is
/// detached, every other record is untouched.
pub open spec fn detach1(t: TaskModel, id: Oid) -> TaskModel {
    if t.parent_id == Option::Some(id) {
        TaskModel { parent_id: Option::None, ..t }
    } else {
        t
    }
}

/// Every record after a parent is deleted: children detached, order kept.
pub open spec fn detach_all(s: Seq<TaskModel>, id: Oid) -> Seq<TaskModel> {
    Seq::new(s.len(), |i: int| detach1(s[i], id))
}

/// Where a walk up the ancestor chain ends.
#[derive(Clone, Copy, PartialEq, Eq, Structural, Debug)]
pub enum AncestorEnd {
    /// The sought task occurred on the chain.
    Target,
    /// The chain ended (a record without a parent, or a dangling pointer)
    /// without meeting the sought task.
    Root,
    /// The walk used up its step budget: the chain is longer than any
    /// acyclic chain over the store could be.
    Bound,
}

/// Walks parent pointers from `from`, looking for `target`, for at most
/// `fuel` steps.
pub open spec fn walk_ancestors(s: Seq<TaskModel>, from: Oid, target: Oid, fuel: nat) -> AncestorEnd
    decreases fuel,
{
    if from == target {
        AncestorEnd::Target
    } else if fuel == 0 {
        AncestorEnd::Bound
    } else {
        match find_task(s, from) {
            Option::None => AncestorEnd::Root,
            Option::Some(t) => match t.parent_id {
                Option::None => AncestorEnd::Root,
                Option::Some(p) => walk_ancestors(s, p, target, (fuel - 1) as nat),
            },
        }
    }
}

/// A scan that finds nothing means no record carries the sought id.
pub proof fn lemma_find_task_none(s: Seq<TaskModel>, id: Oid)
    requires
        find_task(s, id) is None,
    ensures
        forall|k: int| 0 <= k < s.len() ==> s[k].id != id,
    decreases s.len(),
{
    if s.len() > 0 {
        lemma_find_task_none(s.skip(1), id);
        assert forall|k: int| 0 <= k < s.len() implies s[k].id != id by {
            if k > 0 {
                assert(s.skip(1)[k - 1] == s[k]);
            }
        }
    }
}

/// Under pairwise-distinct ids, the scan finds exactly the record that
/// carries the sought id, wherever it stands.
pub proof fn lemma_find_task_at(s: Seq<TaskModel>, id: Oid, k: int)
    requires
        0 <= k < s.len(),
        s[k].id == id,
        forall|i: int, j: int| 0 <= i < j < s.len() ==> s[i].id != s[j].id,
    ensures
        find_task(s, id) == Option::Some(s[k]),
    decreases s.len(),
{
    if k == 0 {
    } else {
        assert(s[0].id != s[k].id);
        let s1 = s.skip(1);
        assert(s1[k - 1] == s[k]);
        assert forall|i: int, j: int| 0 <= i < j < s1.len() implies s1[i].id != s1[j].id by {
            assert(s1[i] == s[i + 1]);
            assert(s1[j] == s[j + 1]);
        }
        lemma_find_task_at(s1, id, k - 1);
    }
}

/// Every listed subtask is one of the store's records.
pub proof fn lemma_children_in(s: Seq<TaskModel>, id: Oid, i: int)
    requires
        0 <= i < children_spec(s, id).len(),
    ensures
        exists|k: int| 0 <= k < s.len() && s[k] == children_spec(s, id)[i],
    decreases s.len(),
{
    let cs = children_spec(s, id);
    let rest = children_spec(s.drop_last(), id);
    if s.last().parent_id == Option::Some(id) && i == rest.len() {
        assert(cs[i] == s.last());
        assert(s[s.len() - 1] == cs[i]);
    } else {
        lemma_children_in(s.drop_last(), id, i);
        let k = choose|k: int|
            0 <= k < s.drop_last().len() && s.drop_last()[k] == children_spec(
                s.drop_last(),
                id,
            )[i];
        assert(s[k] == cs[i]);
    }
}

/// A partial update of one task record; a field is changed where the patch
/// holds a value and kept where it holds none.
pub struct TaskPatch {
    pub title: Option<String>,
    pub start_date: Option<i64>,
    pub due_at: Option<i64>,
    pub category_id: Option<Oid>,
}

/// The record a patch produces; `now` becomes its update instant.
pub open spec fn apply_task_patch(t: TaskModel, patch: TaskPatch, now: i64) -> TaskModel {
    TaskModel {
        title: match patch.title {
            Option::Some(x) => x,
            Option::None => t.title,
        },
        start_date: match patch.start_date {
            Option::Some(x) => Option::Some(x),
            Option::None => t.start_date,
        },
        due_at: match patch.due_at {
            Option::Some(x) => Option::Some(x),
            Option::None => t.due_at,
        },
        category_id: match patch.category_id {
            Option::Some(x) => x,
            Option::None => t.category_id,
        },
        updated_at: now,
        ..t
    }
}

/// A new task's parent pointer, when present, must name an existing record
/// of the same owner.
pub open spec fn parent_ok(s: Seq<TaskModel>, t: TaskModel) -> bool {
    match t.parent_id {
        Option::None => true,
        Option::Some(p) => match find_task(s, p) {
            Option::Some(pt) => pt.user == t.user,
            Option::None => false,
        },
    }
}

/// The task records of the document store, as one snapshot.
pub struct TaskRepository {
    tasks: Vec<TaskModel>,
}

impl View for TaskRepository {
    type V = Seq<TaskModel>;

    closed spec fn view(&self) -> Seq<TaskModel> {
        self.tasks@
    }
}

impl TaskRepository {
    /// Ids are pairwise distinct.
    pub open spec fn wf(&self) -> bool {
        forall|i: int, j: int| 0 <= i < j < self@.len() ==> self@[i].id != self@[j].id
    }

    /// An empty repository.
    pub fn new() -> (r: Self)
        ensures
            r@ == Seq::<TaskModel>::empty(),
    {
        TaskRepository { tasks: Vec::new() }
    }

    /// A repository holding the given records, as found at rest.
    pub fn from_records(records: Vec<TaskModel>) -> (r: Self)
        ensures
            r@ == records@,
    {
        TaskRepository { tasks: records }
    }

    /// All records, in stored order.
    pub fn records(&self) -> (r: &Vec<TaskModel>)
        ensures
            r@ == self@,
    {
        &self.tasks
    }

    /// The position of the record with the given id, if any.
    fn index_of(&self, id: Oid) -> (r: Option<usize>)
        ensures
            match r {
                Option::Some(k) => 0 <= k < self@.len() && self@[k as int].id == id && find_task(
                    self@,
                    id,
                ) == Option::Some(self@[k as int]),
                Option::None => find_task(self@, id) is None,
            },
    {
        let ghost s = self@;
        proof {
            assert(s.skip(0) =~= s);
        }
        let mut i: usize = 0;
        while i < self.tasks.len()
            invariant
                0 <= i <= s.len(),
                s == self.tasks@,
                find_task(s, id) == find_task(s.skip(i as int), id),
            decreases s.len() - i,
        {
            if self.tasks[i].id == id {
                return Some(i);
            }
            proof {
                assert(s.skip(i as int).skip(1) =~= s.skip(i as int + 1));
            }
            i += 1;
        }
        None
    }

    /// The record with the given id, if any.
    pub fn get(&self, id: Oid) -> (r: Option<&TaskModel>)
        ensures
            match r {
                Option::Some(t) => find_task(self@, id) == Option::Some(*t) && t.id == id,
                Option::None => find_task(self@, id) is None,
            },
    {
        match self.index_of(id) {
            Option::Some(k) => Some(&self.tasks[k]),
            Option::None => None,
        }
    }

    /// The direct subtasks of one task, in stored (creation) order.
    pub fn children_of(&self, id: Oid) -> (r: Vec<TaskModel>)
        ensures
            r@ == children_spec(self@, id),
    {
        let ghost s = self@;
        let mut out: Vec<TaskModel> = Vec::new();
        let mut i: usize = 0;
        while i < self.tasks.len()
            invariant
                0 <= i <= s.len(),
                s == self.tasks@,
                out@ == children_spec(s.take(i as int), id),
            decreases s.len() - i,
        {
            proof {
                assert(s.take(i as int + 1).drop_last() =~= s.take(i as int));
                assert(s.take(i as int + 1).last() == s[i as int]);
            }
            let is_child = match self.tasks[i].parent_id {
                Option::Some(p) => p == id,
                Option::None => false,
            };
            if is_child {
                out.push(self.tasks[i].clone());
            }
            i += 1;
        }
        proof {
            assert(s.take(s.len() as int) =~= s);
        }
        out
    }

    /// Persists one new record: appended exactly when its id is fresh and
    /// its parent pointer (if any) names an existing record of the same
    /// owner; nothing is written on failure.
    pub fn create(&mut self, t: TaskModel) -> (r: Result<(), RepoError>)
        ensures
            r matches Ok(_) <==> (find_task(old(self)@, t.id) is None && parent_ok(old(self)@, t)),
            r matches Ok(_) ==> final(self)@ == old(self)@.push(t),
            r matches Err(_) ==> final(self)@ == old(self)@,
            find_task(old(self)@, t.id) is Some ==> r == Err::<(), RepoError>(
                RepoError::DuplicateId,
            ),
            find_task(old(self)@, t.id) is None && !parent_ok(old(self)@, t) ==> r == Err::<
                (),
                RepoError,
            >(RepoError::NotFound),
            old(self).wf() ==> final(self).wf(),
    {
        if self.index_of(t.id).is_some() {
            return Err(RepoError::DuplicateId);
        }
        match t.parent_id {
            Option::Some(p) => {
                match self.get(p) {
                    Option::Some(pt) => {
                        if !(pt.user == t.user) {
                            return Err(RepoError::NotFound);
                        }
                    },
                    Option::None => {
                        return Err(RepoError::NotFound);
                    },
                }
            },
            Option::None => {},
        }
        self.tasks.push(t);
        proof {
            if old(self).wf() {
                lemma_find_task_none(old(self)@, t.id);
                assert forall|i: int, j: int| 0 <= i < j < self@.len() implies self@[i].id
                    != self@[j].id by {
                    if j == old(self)@.len() {
                        assert(self@[j] == t);
                        assert(self@[i] == old(self)@[i]);
                    }
                }
            }
        }
        Ok(())
    }

    /// Patches one record; `now` becomes its update instant. Fails with
    /// `NotFound`, writing nothing, when the id does not resolve.
    pub fn update(&mut self, id: Oid, patch: TaskPatch, now: i64) -> (r: Result<(), RepoError>)
        ensures
            r matches Ok(_) <==> find_task(old(self)@, id) is Some,
            r matches Err(_) ==> final(self)@ == old(self)@,
            r == Err::<(), RepoError>(RepoError::NotFound) <==> find_task(old(self)@, id) is None,
            r matches Ok(_) ==> exists|k: int|
                0 <= k < old(self)@.len() && old(self)@[k].id == id && final(self)@ == old(
                    self,
                )@.update(k, apply_task_patch(old(self)@[k], patch, now)),
            old(self).wf() ==> final(self).wf(),
    {
        let k = match self.index_of(id) {
            Option::Some(k) => k,
            Option::None => {
                return Err(RepoError::NotFound);
            },
        };
        let TaskPatch { title, start_date, due_at, category_id } = patch;
        let row = &mut self.tasks[k];
        match title {
            Option::Some(x) => {
                row.title = x;
            },
            Option::None => {},
        }
        match start_date {
            Option::Some(x) => {
                row.start_date = Option::Some(x);
            },
            Option::None => {},
        }
        match due_at {
            Option::Some(x) => {
                row.due_at = Option::Some(x);
            },
            Option::None => {},
        }
        match category_id {
            Option::Some(x) => {
                row.category_id = x;
            },
            Option::None => {},
        }
        row.updated_at = now;
        proof {
            if old(self).wf() {
                assert forall|i: int, j: int| 0 <= i < j < self@.len() implies self@[i].id
                    != self@[j].id by {
                    assert(self@[i].id == old(self)@[i].id);
                    assert(self@[j].id == old(self)@[j].id);
                }
            }
        }
        Ok(())
    }

    /// Deletes one task: its record is removed, its properties and blocks
    /// are removed with it, and its direct subtasks are detached (their
    /// parent pointer cleared), not deleted — data preservation over
    /// cascading deletion.
    pub fn delete(&mut self, id: Oid, props: &mut PropertyStore, blocks: &mut BlockStore) -> (r:
        Result<(), RepoError>)
        ensures
            r matches Ok(_) <==> find_task(old(self)@, id) is Some,
            r matches Err(_) ==> final(self)@ == old(self)@ && final(props)@ == old(props)@
                && final(blocks)@ == old(blocks)@,
            r == Err::<(), RepoError>(RepoError::NotFound) <==> find_task(old(self)@, id) is None,
            r matches Ok(_) ==> exists|k: int|
                0 <= k < old(self)@.len() && old(self)@[k].id == id && final(self)@ == detach_all(
                    old(self)@.remove(k),
                    id,
                ),
            r matches Ok(_) ==> pvm_seq_eq(final(props)@, props_without_task(old(props)@, id))
                && final(blocks)@ == blocks_without_task(old(blocks)@, id),
            old(self).wf() ==> final(self).wf(),
    {
        let k = match self.index_of(id) {
            Option::Some(k) => k,
            Option::None => {
                return Err(RepoError::NotFound);
            },
        };
        self.tasks.remove(k);
        let ghost mid = self.tasks@;
        let mut j: usize = 0;
        while j < self.tasks.len()
            invariant
                0 <= j <= mid.len(),
                self.tasks@.len() == mid.len(),
                forall|x: int| 0 <= x < j ==> self.tasks@[x] == detach1(mid[x], id),
                forall|x: int| j <= x < mid.len() ==> self.tasks@[x] == mid[x],
            decreases mid.len() - j,
        {
            let is_child = match self.tasks[j].parent_id {
                Option::Some(p) => p == id,
                Option::None => false,
            };
            if is_child {
                let mut t = self.tasks[j].clone();
                t.parent_id = Option::None;
                self.tasks[j] = t;
            }
            j += 1;
        }
        proof {
            assert(self.tasks@ =~= detach_all(mid, id));
            if old(self).wf() {
                old(self)@.remove_ensures(k as int);
                assert(mid == old(self)@.remove(k as int));
                assert forall|i: int, j: int| 0 <= i < j < self@.len() implies self@[i].id
                    != self@[j].id by {
                    assert(self@[i].id == mid[i].id);
                    assert(self@[j].id == mid[j].id);
                    if j < k {
                        assert(mid[i] == old(self)@[i]);
                        assert(mid[j] == old(self)@[j]);
                    } else if i < k {
                        assert(mid[i] == old(self)@[i]);
                        assert(mid[j] == old(self)@[j + 1]);
                    } else {
                        assert(mid[i] == old(self)@[i + 1]);
                        assert(mid[j] == old(self)@[j + 1]);
                    }
                }
            }
        }
        props.delete_for_task(id);
        blocks.delete_for_task(id);
        Ok(())
    }

    /// Walks parent pointers from `from`, looking for `target`, for at most
    /// `fuel` steps.
    fn walk_exec(&self, from: Oid, target: Oid, fuel: usize) -> (r: AncestorEnd)
        ensures
            r == walk_ancestors(self@, from, target, fuel as nat),
        decreases fuel,
    {
        if from == target {
            return AncestorEnd::Target;
        }
        if fuel == 0 {
            return AncestorEnd::Bound;
        }
        match self.get(from) {
            Option::None => AncestorEnd::Root,
            Option::Some(t) => match t.parent_id {
                Option::None => AncestorEnd::Root,
                Option::Some(p) => self.walk_exec(p, target, fuel - 1),
            },
        }
    }

    /// Re-parents one task. Before anything is written, the new parent's
    /// ancestor chain is walked for at most as many steps as the store holds
    /// records: the move is refused with `CycleDetected` when the task
    /// occurs on that chain (so the task would become its own ancestor), or
    /// when the chain outruns the budget, which no acyclic hierarchy can.
    pub fn set_parent(&mut self, task_id: Oid, new_parent_id: Oid) -> (r: Result<(), RepoError>)
        ensures
            r matches Err(_) ==> final(self)@ == old(self)@,
            find_task(old(self)@, task_id) is None ==> r == Err::<(), RepoError>(
                RepoError::NotFound,
            ),
            (match (find_task(old(self)@, task_id), find_task(old(self)@, new_parent_id)) {
                (Option::Some(t), Option::Some(pt)) => {
                    &&& (pt.user != t.user ==> r == Err::<(), RepoError>(RepoError::NotFound))
                    &&& (pt.user == t.user ==> {
                        let verdict = walk_ancestors(
                            old(self)@,
                            new_parent_id,
                            task_id,
                            old(self)@.len() as nat,
                        );
                        &&& (verdict != AncestorEnd::Root ==> r == Err::<(), RepoError>(
                            RepoError::CycleDetected,
                        ))
                        &&& (verdict == AncestorEnd::Root ==> r matches Ok(_))
                    })
                },
                (Option::Some(t), Option::None) => r == Err::<(), RepoError>(RepoError::NotFound),
                _ => true,
            }),
            r matches Ok(_) ==> exists|k: int|
                0 <= k < old(self)@.len() && old(self)@[k].id == task_id && final(self)@ == old(
                    self,
                )@.update(
                    k,
                    (TaskModel { parent_id: Option::Some(new_parent_id), ..old(self)@[k] }),
                ),
            old(self).wf() ==> final(self).wf(),
    {
        let k = match self.index_of(task_id) {
            Option::Some(k) => k,
            Option::None => {
                return Err(RepoError::NotFound);
            },
        };
        match self.get(new_parent_id) {
            Option::Some(pt) => {
                if !(pt.user == self.tasks[k].user) {
                    return Err(RepoError::NotFound);
                }
            },
            Option::None => {
                return Err(RepoError::NotFound);
            },
        }
        match self.walk_exec(new_parent_id, task_id, self.tasks.len()) {
            AncestorEnd::Root => {
                let mut t = self.tasks[k].clone();
                t.parent_id = Option::Some(new_parent_id);
                self.tasks[k] = t;
                proof {
                    if old(self).wf() {
                        assert forall|i: int, j: int| 0 <= i < j < self@.len() implies self@[i].id
                            != self@[j].id by {
                            assert(self@[i].id == old(self)@[i].id);
                            assert(self@[j].id == old(self)@[j].id);
                        }
                    }
                }
                Ok(())
            },
            _ => Err(RepoError::CycleDetected),
        }
    }
}

} // verus!
