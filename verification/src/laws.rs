use vstd::prelude::*;

use crate::builder::{expandable, is_built, is_stub_of, props_res_match, sub_ok};
use crate::dto::{PropValueRes, TaskResponse};
use crate::ids::{Oid, Uid};
use crate::model::{BlockModel, CategoryModel, ChatType, PropValueModel, TaskModel};
use crate::props::{pv_opt_eq, PropValueType};
use crate::repo::children_spec;
use crate::stores::{blocks_for, find_chat, props_for, ChatEntry};

verus! {

/// A task with no properties, no blocks, no chat thread and no subtasks
/// builds to a view with empty collections and no chat messages.
pub proof fn lemma_build_empty(
    tasks: Seq<TaskModel>,
    cats: Seq<CategoryModel>,
    props: Seq<PropValueModel>,
    blocks: Seq<BlockModel>,
    chats: Seq<ChatEntry>,
    t: TaskModel,
    user: Uid,
    depth: nat,
    r: TaskResponse,
)
    requires
        is_built(tasks, cats, props, blocks, chats, t, user, depth, r),
        props_for(props, t.id).len() == 0,
        blocks_for(blocks, t.id).len() == 0,
        find_chat(chats, t.id) is None,
        children_spec(tasks, t.id).len() == 0,
    ensures
        r.properties@.len() == 0,
        r.corrupt_properties@.len() == 0,
        r.blocks@.len() == 0,
        r.subtasks@.len() == 0,
        r.chat_type == ChatType::Task,
        r.chat_messages is None,
{
    assert(props_for(props, t.id) =~= Seq::<PropValueModel>::empty());
}

/// At expansion depth zero every subtask of a built view is an identity
/// stub of the corresponding child record: nothing is fetched for it.
pub proof fn lemma_depth_zero_stubs(
    tasks: Seq<TaskModel>,
    cats: Seq<CategoryModel>,
    props: Seq<PropValueModel>,
    blocks: Seq<BlockModel>,
    chats: Seq<ChatEntry>,
    t: TaskModel,
    user: Uid,
    r: TaskResponse,
    i: int,
)
    requires
        is_built(tasks, cats, props, blocks, chats, t, user, 0, r),
        0 <= i < children_spec(tasks, t.id).len(),
    ensures
        is_stub_of(r.subtasks@[i], children_spec(tasks, t.id)[i]),
{
    assert(sub_ok(tasks, cats, props, blocks, chats, children_spec(tasks, t.id)[i], user, 0, r.subtasks@[i]));
}

/// At a positive expansion depth, a subtask whose record can be expanded
/// (same owner, category resolving) is itself a full aggregate one level
/// shallower; applying this twice shows that depth two expands two levels
/// and stubs the third.
pub proof fn lemma_expanded_subtask(
    tasks: Seq<TaskModel>,
    cats: Seq<CategoryModel>,
    props: Seq<PropValueModel>,
    blocks: Seq<BlockModel>,
    chats: Seq<ChatEntry>,
    t: TaskModel,
    user: Uid,
    depth: nat,
    r: TaskResponse,
    i: int,
)
    requires
        is_built(tasks, cats, props, blocks, chats, t, user, depth, r),
        0 <= i < children_spec(tasks, t.id).len(),
        expandable(cats, children_spec(tasks, t.id)[i], user, depth),
    ensures
        is_built(
            tasks,
            cats,
            props,
            blocks,
            chats,
            children_spec(tasks, t.id)[i],
            user,
            (depth - 1) as nat,
            r.subtasks@[i],
        ),
{
    assert(sub_ok(tasks, cats, props, blocks, chats, children_spec(tasks, t.id)[i], user, depth, r.subtasks@[i]));
}

/// Two resolved property responses carry the same data.
pub open spec fn prop_res_equiv(a: PropValueRes, b: PropValueRes) -> bool {
    &&& a.id@ == b.id@
    &&& a.prop_name == b.prop_name
    &&& pv_opt_eq(a.value, b.value)
    &&& a.prop_type == b.prop_type
}

/// Two views agree on every observable field; subtask views agree
/// recursively, to the given nesting bound.
pub open spec fn resp_equiv(a: TaskResponse, b: TaskResponse, fuel: nat) -> bool
    decreases fuel,
{
    &&& a.id@ == b.id@
    &&& a.user == b.user
    &&& a.title == b.title
    &&& a.start_date == b.start_date
    &&& a.due_at == b.due_at
    &&& a.category_id == b.category_id
    &&& a.category_color@ == b.category_color@
    &&& a.category_name@ == b.category_name@
    &&& a.properties@.len() == b.properties@.len()
    &&& (forall|i: int|
        0 <= i < a.properties@.len() ==> prop_res_equiv(#[trigger] a.properties@[i], b.properties@[i]))
    &&& a.corrupt_properties@ == b.corrupt_properties@
    &&& a.blocks@ == b.blocks@
    &&& a.parent_id == b.parent_id
    &&& a.chat_type == b.chat_type
    &&& (match (a.chat_messages, b.chat_messages) {
        (Option::None, Option::None) => true,
        (Option::Some(x), Option::Some(y)) => x@ == y@,
        _ => false,
    })
    &&& a.created_at == b.created_at
    &&& a.updated_at == b.updated_at
    &&& a.subtasks@.len() == b.subtasks@.len()
    &&& (if fuel == 0 {
        a.subtasks@.len() == 0
    } else {
        forall|i: int|
            0 <= i < a.subtasks@.len() ==> resp_equiv(
                #[trigger] a.subtasks@[i],
                b.subtasks@[i],
                (fuel - 1) as nat,
            )
    })
}

/// Two identity stubs of the same record agree at any nesting bound.
pub proof fn lemma_stub_equiv(a: TaskResponse, b: TaskResponse, c: TaskModel, fuel: nat)
    requires
        is_stub_of(a, c),
        is_stub_of(b, c),
    ensures
        resp_equiv(a, b, fuel),
{
    assert(a.corrupt_properties@ =~= b.corrupt_properties@);
    assert(a.blocks@ =~= b.blocks@);
}

/// A value joined to the same stored value on both sides is the same value.
proof fn lemma_pv_opt_eq_join(
    a: Option<PropValueType>,
    b: Option<PropValueType>,
    p: Option<PropValueType>,
)
    requires
        pv_opt_eq(a, p),
        pv_opt_eq(b, p),
    ensures
        pv_opt_eq(a, b),
{
}

/// The split of one row sequence into resolved and corrupt properties is
/// unique: any two splits agree element by element.
pub proof fn lemma_props_res_unique(
    res1: Seq<PropValueRes>,
    cor1: Seq<Oid>,
    res2: Seq<PropValueRes>,
    cor2: Seq<Oid>,
    ps: Seq<PropValueModel>,
)
    requires
        props_res_match(res1, cor1, ps),
        props_res_match(res2, cor2, ps),
    ensures
        res1.len() == res2.len(),
        cor1 == cor2,
        forall|i: int| 0 <= i < res1.len() ==> prop_res_equiv(#[trigger] res1[i], res2[i]),
    decreases ps.len(),
{
    if ps.len() == 0 {
        assert(cor1 =~= cor2);
    } else {
        let p = ps.last();
        if crate::stores::prop_value_ok(p) {
            lemma_props_res_unique(res1.drop_last(), cor1, res2.drop_last(), cor2, ps.drop_last());
            lemma_pv_opt_eq_join(res1.last().value, res2.last().value, p.value);
            assert forall|i: int| 0 <= i < res1.len() implies prop_res_equiv(
                #[trigger] res1[i],
                res2[i],
            ) by {
                if i < res1.len() - 1 {
                    assert(res1.drop_last()[i] == res1[i]);
                    assert(res2.drop_last()[i] == res2[i]);
                    assert(prop_res_equiv(res1.drop_last()[i], res2.drop_last()[i]));
                }
            }
        } else {
            lemma_props_res_unique(res1, cor1.drop_last(), res2, cor2.drop_last(), ps.drop_last());
            assert(cor1.drop_last() == cor2.drop_last());
            assert(cor1.len() == cor2.len());
            assert forall|i: int| 0 <= i < cor1.len() implies cor1[i] == cor2[i] by {
                if i < cor1.len() - 1 {
                    assert(cor1.drop_last()[i] == cor1[i]);
                    assert(cor2.drop_last()[i] == cor2[i]);
                } else {
                    assert(cor1[i] == cor1.last());
                    assert(cor2[i] == cor2.last());
                }
            }
            assert(cor1 =~= cor2);
        }
    }
}

/// Builds are deterministic: any two aggregates of the same task, for the
/// same user at the same depth, over the same store snapshots, agree on
/// every observable field — so concurrent builds with no intervening writes
/// return the same view.
pub proof fn lemma_build_deterministic(
    tasks: Seq<TaskModel>,
    cats: Seq<CategoryModel>,
    props: Seq<PropValueModel>,
    blocks: Seq<BlockModel>,
    chats: Seq<ChatEntry>,
    t: TaskModel,
    user: Uid,
    depth: nat,
    r1: TaskResponse,
    r2: TaskResponse,
)
    requires
        is_built(tasks, cats, props, blocks, chats, t, user, depth, r1),
        is_built(tasks, cats, props, blocks, chats, t, user, depth, r2),
    ensures
        resp_equiv(r1, r2, depth + 1),
    decreases depth,
{
    lemma_props_res_unique(
        r1.properties@,
        r1.corrupt_properties@,
        r2.properties@,
        r2.corrupt_properties@,
        props_for(props, t.id),
    );
    let kids = children_spec(tasks, t.id);
    assert forall|i: int| 0 <= i < r1.subtasks@.len() implies resp_equiv(
        #[trigger] r1.subtasks@[i],
        r2.subtasks@[i],
        depth,
    ) by {
        assert(sub_ok(tasks, cats, props, blocks, chats, kids[i], user, depth, r1.subtasks@[i]));
        assert(sub_ok(tasks, cats, props, blocks, chats, kids[i], user, depth, r2.subtasks@[i]));
        if expandable(cats, kids[i], user, depth) {
            lemma_build_deterministic(
                tasks,
                cats,
                props,
                blocks,
                chats,
                kids[i],
                user,
                (depth - 1) as nat,
                r1.subtasks@[i],
                r2.subtasks@[i],
            );
        } else {
            lemma_stub_equiv(r1.subtasks@[i], r2.subtasks@[i], kids[i], depth);
        }
    }
}

} // verus!
