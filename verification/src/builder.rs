use vstd::prelude::*;

use crate::dto::{res_matches_prop, PropValueRes, TaskResponse};
use crate::ids::{oid_hex, oid_to_hex, Oid, Uid};
use crate::model::{BlockModel, CategoryModel, ChatType, MsgModel, PropValueModel, TaskModel};
use crate::props::validate_against;
use crate::repo::{children_spec, find_task, lemma_children_in, lemma_find_task_at, TaskRepository};
use crate::stores::{blocks_for, find_cat, find_chat, props_for, prop_value_ok, BlockStore,
    CategoryStore, ChatEntry, ChatStore, PropertyStore};

verus! {

/// Why an aggregate build failed as a whole.
#[derive(Clone, Copy, PartialEq, Eq, Structural, Debug)]
pub enum BuildError {
    /// The root task is absent, or is not owned by the requesting user.
    NotFound,
    /// The task's category id does not resolve: a cross-store integrity
    /// fault, surfaced rather than papered over with a default.
    DanglingReference,
    /// A transient backing-store failure; raised only by I/O-backed store
    /// adapters, never by in-memory snapshots.
    StoreUnavailable,
}

/// A child may be expanded rather than stubbed: there is expansion budget
/// left, the child has the same owner, and its category resolves.
pub open spec fn expandable(cats: Seq<CategoryModel>, c: TaskModel, user: Uid, depth: nat) -> bool {
    depth > 0 && c.user == user && find_cat(cats, c.category_id) is Some
}

/// An identity stub: the child record's own fields, with nothing fetched
/// for it — no category data, no properties, no blocks, no chat, no
/// further subtasks.
pub open spec fn is_stub_of(r: TaskResponse, t: TaskModel) -> bool {
    &&& r.id@ == oid_hex(t.id)
    &&& r.user == t.user
    &&& r.title == t.title
    &&& r.start_date == t.start_date
    &&& r.due_at == t.due_at
    &&& r.category_id == t.category_id
    &&& r.category_color@ == Seq::<char>::empty()
    &&& r.category_name@ == Seq::<char>::empty()
    &&& r.properties@.len() == 0
    &&& r.corrupt_properties@.len() == 0
    &&& r.blocks@.len() == 0
    &&& r.subtasks@.len() == 0
    &&& r.parent_id == t.parent_id
    &&& r.chat_type == ChatType::Task
    &&& r.chat_messages is None
    &&& r.created_at == t.created_at
    &&& r.updated_at == t.updated_at
}

/// The resolved and the corrupt properties a row sequence yields: rows with
/// a legal (or no) value appear resolved, in order; a row whose stored
/// value fails validation contributes its id to the corrupt list instead of
/// aborting anything.
pub open spec fn props_res_match(
    res: Seq<PropValueRes>,
    corrupt: Seq<Oid>,
    ps: Seq<PropValueModel>,
) -> bool
    decreases ps.len(),
{
    if ps.len() == 0 {
        res.len() == 0 && corrupt.len() == 0
    } else {
        let p = ps.last();
        if prop_value_ok(p) {
            res.len() > 0 && res_matches_prop(res.last(), p) && props_res_match(
                res.drop_last(),
                corrupt,
                ps.drop_last(),
            )
        } else {
            corrupt.len() > 0 && corrupt.last() == p.prop_id && props_res_match(
                res,
                corrupt.drop_last(),
                ps.drop_last(),
            )
        }
    }
}

/// The chat fields of a view reflect the store: the thread's kind and
/// messages where one exists; no messages and the default kind where none
/// does — absence is a valid state, not an error.
pub open spec fn chat_view_ok(
    chats: Seq<ChatEntry>,
    task_id: Oid,
    chat_type: ChatType,
    msgs: Option<Vec<MsgModel>>,
) -> bool {
    match find_chat(chats, task_id) {
        Option::Some(e) => chat_type == e.thread.chat_type && (match msgs {
            Option::Some(m) => m@ == e.thread.msgs@,
            Option::None => false,
        }),
        Option::None => chat_type == ChatType::Task && msgs is None,
    }
}

/// The view `r` is the full aggregate of task `t` at the given expansion
/// depth: the record's own fields, its category's name and color, its
/// properties split into resolved and corrupt, its blocks in stored order,
/// its chat fields, and one view per direct subtask — expanded one level
/// shallower where the budget and the child's own data allow, an identity
/// stub otherwise.
pub open spec fn is_built(
    tasks: Seq<TaskModel>,
    cats: Seq<CategoryModel>,
    props: Seq<PropValueModel>,
    blocks: Seq<BlockModel>,
    chats: Seq<ChatEntry>,
    t: TaskModel,
    user: Uid,
    depth: nat,
    r: TaskResponse,
) -> bool
    decreases depth, 1int,
{
    &&& r.id@ == oid_hex(t.id)
    &&& r.user == t.user
    &&& r.title == t.title
    &&& r.start_date == t.start_date
    &&& r.due_at == t.due_at
    &&& r.category_id == t.category_id
    &&& (match find_cat(cats, t.category_id) {
        Option::Some(c) => r.category_name == c.name && r.category_color == c.color,
        Option::None => false,
    })
    &&& props_res_match(r.properties@, r.corrupt_properties@, props_for(props, t.id))
    &&& r.blocks@ == blocks_for(blocks, t.id)
    &&& chat_view_ok(chats, t.id, r.chat_type, r.chat_messages)
    &&& r.parent_id == t.parent_id
    &&& r.created_at == t.created_at
    &&& r.updated_at == t.updated_at
    &&& r.subtasks@.len() == children_spec(tasks, t.id).len()
    &&& (forall|i: int|
        0 <= i < children_spec(tasks, t.id).len() ==> sub_ok(
            tasks,
            cats,
            props,
            blocks,
            chats,
            #[trigger] children_spec(tasks, t.id)[i],
            user,
            depth,
            r.subtasks@[i],
        ))
}

/// One subtask's place in a view built at depth `depth`: the full aggregate
/// one level shallower where the child can be expanded, its identity stub
/// otherwise.
pub open spec fn sub_ok(
    tasks: Seq<TaskModel>,
    cats: Seq<CategoryModel>,
    props: Seq<PropValueModel>,
    blocks: Seq<BlockModel>,
    chats: Seq<ChatEntry>,
    c: TaskModel,
    user: Uid,
    depth: nat,
    r: TaskResponse,
) -> bool
    decreases depth, 0int,
{
    if expandable(cats, c, user, depth) {
        is_built(tasks, cats, props, blocks, chats, c, user, (depth - 1) as nat, r)
    } else {
        is_stub_of(r, c)
    }
}

/// Splits one task's property rows into resolved responses and the ids of
/// rows whose stored value fails validation against its own declared type.
fn resolve_props(rows: &Vec<PropValueModel>, task_id: Oid) -> (r: (Vec<PropValueRes>, Vec<Oid>))
    ensures
        props_res_match(r.0@, r.1@, props_for(rows@, task_id)),
{
    let ghost s = rows@;
    let mut res: Vec<PropValueRes> = Vec::new();
    let mut corrupt: Vec<Oid> = Vec::new();
    let mut i: usize = 0;
    while i < rows.len()
        invariant
            0 <= i <= s.len(),
            s == rows@,
            props_res_match(res@, corrupt@, props_for(s.take(i as int), task_id)),
        decreases s.len() - i,
    {
        proof {
            assert(s.take(i as int + 1).drop_last() =~= s.take(i as int));
            assert(s.take(i as int + 1).last() == s[i as int]);
        }
        if rows[i].task_id == task_id {
            proof {
                let pf = props_for(s.take(i as int), task_id);
                assert(props_for(s.take(i as int + 1), task_id) =~= pf.push(s[i as int]));
                assert(pf.push(s[i as int]).drop_last() =~= pf);
            }
            let ok = match &rows[i].value {
                Option::Some(v) => validate_against(rows[i].prop_type, v, &rows[i].options)
                    .is_ok(),
                Option::None => true,
            };
            if ok {
                let ghost old_res = res@;
                res.push(PropValueRes::from_model(&rows[i]));
                proof {
                    assert(res@.drop_last() =~= old_res);
                }
            } else {
                let ghost old_corrupt = corrupt@;
                corrupt.push(rows[i].prop_id);
                proof {
                    assert(corrupt@.drop_last() =~= old_corrupt);
                }
            }
        }
        i += 1;
    }
    proof {
        assert(s.take(s.len() as int) =~= s);
    }
    (res, corrupt)
}

/// The identity stub for one task record.
fn stub_of(t: &TaskModel) -> (r: TaskResponse)
    ensures
        is_stub_of(r, *t),
{
    TaskResponse {
        id: oid_to_hex(&t.id),
        user: t.user,
        title: t.title.clone(),
        start_date: t.start_date,
        due_at: t.due_at,
        category_id: t.category_id,
        category_color: String::new(),
        category_name: String::new(),
        properties: Vec::new(),
        corrupt_properties: Vec::new(),
        blocks: Vec::new(),
        subtasks: Vec::new(),
        parent_id: t.parent_id,
        chat_type: ChatType::Task,
        chat_messages: Option::None,
        created_at: t.created_at,
        updated_at: t.updated_at,
    }
}

/// A copy of a message list, element by element.
fn clone_msgs(v: &Vec<MsgModel>) -> (r: Vec<MsgModel>)
    ensures
        r@ == v@,
{
    let mut out: Vec<MsgModel> = Vec::new();
    let mut i: usize = 0;
    while i < v.len()
        invariant
            0 <= i <= v@.len(),
            out@ == v@.take(i as int),
        decreases v@.len() - i,
    {
        proof {
            assert(v@.take(i as int + 1).drop_last() =~= v@.take(i as int));
            assert(v@.take(i as int + 1).last() == v@[i as int]);
        }
        out.push(v[i].clone());
        i += 1;
    }
    proof {
        assert(v@.take(v@.len() as int) =~= v@);
    }
    out
}

/// Assembles one task's full view for the requesting user.
///
/// The root fetch, the ownership check and the category fetch are fatal:
/// an absent or foreign task is `NotFound`, an unresolvable category id is
/// `DanglingReference`. Everything else is per item: a corrupt property is
/// listed by id next to the rest of the view, and a subtask that cannot be
/// expanded (no budget left, foreign owner, or its own category dangling)
/// is returned as an identity stub.
pub fn build(
    repo: &TaskRepository,
    cats: &CategoryStore,
    props: &PropertyStore,
    blocks: &BlockStore,
    chats: &ChatStore,
    task_id: Oid,
    user_id: Uid,
    depth_limit: u32,
) -> (r: Result<TaskResponse, BuildError>)
    requires
        repo.wf(),
    ensures
        (r matches Ok(_)) <==> (match find_task(repo@, task_id) {
            Option::Some(t) => t.user == user_id && find_cat(cats@, t.category_id) is Some,
            Option::None => false,
        }),
        r == Err::<TaskResponse, BuildError>(BuildError::NotFound) <==> !(match find_task(
            repo@,
            task_id,
        ) {
            Option::Some(t) => t.user == user_id,
            Option::None => false,
        }),
        r == Err::<TaskResponse, BuildError>(BuildError::DanglingReference) <==> (match find_task(
            repo@,
            task_id,
        ) {
            Option::Some(t) => t.user == user_id && find_cat(cats@, t.category_id) is None,
            Option::None => false,
        }),
        (match (r, find_task(repo@, task_id)) {
            (Result::Ok(v), Option::Some(t)) => is_built(
                repo@,
                cats@,
                props@,
                blocks@,
                chats@,
                t,
                user_id,
                depth_limit as nat,
                v,
            ),
            (Result::Ok(v), Option::None) => false,
            _ => true,
        }),
    decreases depth_limit,
{
    let t = match repo.get(task_id) {
        Option::Some(t) => t,
        Option::None => {
            return Err(BuildError::NotFound);
        },
    };
    if !(t.user == user_id) {
        return Err(BuildError::NotFound);
    }
    let cat = match cats.get(t.category_id) {
        Option::Some(c) => c,
        Option::None => {
            return Err(BuildError::DanglingReference);
        },
    };
    let (properties, corrupt_properties) = resolve_props(props.rows(), task_id);
    let block_list = blocks.list_for_task(task_id);
    let (chat_type, chat_messages) = match chats.get_for_task(task_id) {
        Option::Some(th) => (th.chat_type, Option::Some(clone_msgs(&th.msgs))),
        Option::None => (ChatType::Task, Option::None),
    };
    let kids = repo.children_of(task_id);
    let mut subtasks: Vec<TaskResponse> = Vec::new();
    let mut j: usize = 0;
    while j < kids.len()
        invariant
            repo.wf(),
            0 <= j <= kids@.len(),
            kids@ == children_spec(repo@, task_id),
            subtasks@.len() == j,
            forall|x: int|
                0 <= x < j ==> sub_ok(
                    repo@,
                    cats@,
                    props@,
                    blocks@,
                    chats@,
                    kids@[x],
                    user_id,
                    depth_limit as nat,
                    subtasks@[x],
                ),
        decreases kids@.len() - j,
    {
        proof {
            lemma_children_in(repo@, task_id, j as int);
            let k = choose|k: int|
                0 <= k < repo@.len() && repo@[k] == children_spec(repo@, task_id)[j as int];
            lemma_find_task_at(repo@, kids@[j as int].id, k);
        }
        if depth_limit > 0 {
            match build(repo, cats, props, blocks, chats, kids[j].id, user_id, depth_limit - 1) {
                Result::Ok(v) => subtasks.push(v),
                Result::Err(_) => subtasks.push(stub_of(&kids[j])),
            }
        } else {
            subtasks.push(stub_of(&kids[j]));
        }
        j += 1;
    }
    Ok(
        TaskResponse {
            id: oid_to_hex(&t.id),
            user: t.user,
            title: t.title.clone(),
            start_date: t.start_date,
            due_at: t.due_at,
            category_id: t.category_id,
            category_color: cat.color.clone(),
            category_name: cat.name.clone(),
            properties,
            corrupt_properties,
            blocks: block_list,
            subtasks,
            parent_id: t.parent_id,
            chat_type,
            chat_messages,
            created_at: t.created_at,
            updated_at: t.updated_at,
        },
    )
}

/// Assembles one task's view at the default expansion depth: one level of
/// subtasks expanded, the level below stubbed.
pub fn build_default(
    repo: &TaskRepository,
    cats: &CategoryStore,
    props: &PropertyStore,
    blocks: &BlockStore,
    chats: &ChatStore,
    task_id: Oid,
    user_id: Uid,
) -> (r: Result<TaskResponse, BuildError>)
    requires
        repo.wf(),
    ensures
        (r matches Ok(_)) <==> (match find_task(repo@, task_id) {
            Option::Some(t) => t.user == user_id && find_cat(cats@, t.category_id) is Some,
            Option::None => false,
        }),
        r == Err::<TaskResponse, BuildError>(BuildError::NotFound) <==> !(match find_task(
            repo@,
            task_id,
        ) {
            Option::Some(t) => t.user == user_id,
            Option::None => false,
        }),
        r == Err::<TaskResponse, BuildError>(BuildError::DanglingReference) <==> (match find_task(
            repo@,
            task_id,
        ) {
            Option::Some(t) => t.user == user_id && find_cat(cats@, t.category_id) is None,
            Option::None => false,
        }),
        (match (r, find_task(repo@, task_id)) {
            (Result::Ok(v), Option::Some(t)) => is_built(
                repo@,
                cats@,
                props@,
                blocks@,
                chats@,
                t,
                user_id,
                1,
                v,
            ),
            (Result::Ok(v), Option::None) => false,
            _ => true,
        }),
{
    build(repo, cats, props, blocks, chats, task_id, user_id, 1)
}

} // verus!
