use tootodo::builder::{build, build_default, BuildError};
use tootodo::dto::PropValueRes;
use tootodo::ids::{Oid, Uid};
use tootodo::model::{BlockModel, CategoryModel, ChatThreadModel, ChatType, MsgModel,
    PropValueModel, TaskModel};
use tootodo::props::{validate, validate_against, PropValueType, PropertyType, ValidationError};
use tootodo::repo::{RepoError, TaskPatch, TaskRepository};
use tootodo::stores::{BlockStore, CategoryStore, ChatEntry, ChatStore, PropError, PropertyStore};

fn oid(n: u64) -> Oid {
    Oid { hi: 0, lo: n }
}

fn uid(n: u64) -> Uid {
    Uid { hi: 0, lo: n }
}

fn task(id: u64, user: u64, cat: u64, parent: Option<u64>) -> TaskModel {
    TaskModel {
        id: oid(id),
        user: uid(user),
        title: format!("task-{}", id),
        start_date: Some(19000),
        due_at: Some(1700000000000),
        category_id: oid(cat),
        parent_id: parent.map(oid),
        created_at: 1000 + id as i64,
        updated_at: 1000 + id as i64,
    }
}

fn category(id: u64) -> CategoryModel {
    CategoryModel { id: oid(id), name: format!("cat-{}", id), color: String::from("#a1b2c3") }
}

fn prop(id: u64, task: u64, ty: PropertyType, value: Option<PropValueType>) -> PropValueModel {
    PropValueModel {
        prop_id: oid(id),
        task_id: oid(task),
        prop_name: format!("prop-{}", id),
        value,
        prop_type: ty,
        options: None,
    }
}

fn block(id: u64, task: u64, content: &str) -> BlockModel {
    BlockModel { id: oid(id), task_id: oid(task), content: String::from(content) }
}

#[test]
fn validate_accepts_matching_pairs() {
    assert!(validate(PropertyType::Text, &PropValueType::Text(String::from("hi"))).is_ok());
    assert!(validate(PropertyType::Number, &PropValueType::Number(42)).is_ok());
    assert!(validate(PropertyType::Date, &PropValueType::Date(19751)).is_ok());
    assert!(validate(PropertyType::Select, &PropValueType::Select(String::from("x"))).is_ok());
    assert!(validate(
        PropertyType::MultiSelect,
        &PropValueType::MultiSelect(vec![String::from("a")])
    )
    .is_ok());
    assert!(validate(PropertyType::Checkbox, &PropValueType::Checkbox(true)).is_ok());
}

#[test]
fn validate_rejects_mismatched_pairs() {
    let cases: Vec<(PropertyType, PropValueType)> = vec![
        (PropertyType::Text, PropValueType::Number(1)),
        (PropertyType::Number, PropValueType::Text(String::from("1"))),
        (PropertyType::Date, PropValueType::Checkbox(false)),
        (PropertyType::Select, PropValueType::MultiSelect(vec![])),
        (PropertyType::MultiSelect, PropValueType::Select(String::from("a"))),
        (PropertyType::Checkbox, PropValueType::Date(0)),
    ];
    for (ty, v) in cases {
        assert_eq!(validate(ty, &v), Err(ValidationError::TypeMismatch));
    }
}

#[test]
fn validate_against_checks_option_set() {
    let opts = Some(vec![String::from("red"), String::from("blue")]);
    assert!(validate_against(
        PropertyType::Select,
        &PropValueType::Select(String::from("red")),
        &opts
    )
    .is_ok());
    assert_eq!(
        validate_against(PropertyType::Select, &PropValueType::Select(String::from("green")), &opts),
        Err(ValidationError::ShapeError)
    );
    assert!(validate_against(
        PropertyType::MultiSelect,
        &PropValueType::MultiSelect(vec![String::from("blue"), String::from("red")]),
        &opts
    )
    .is_ok());
    assert_eq!(
        validate_against(
            PropertyType::MultiSelect,
            &PropValueType::MultiSelect(vec![String::from("blue"), String::from("green")]),
            &opts
        ),
        Err(ValidationError::ShapeError)
    );
    // No configured set: any payload of the right tag passes.
    assert!(validate_against(PropertyType::Select, &PropValueType::Select(String::from("any")), &None)
        .is_ok());
}

#[test]
fn from_model_renders_id_as_hex() {
    let p = prop(2, 9, PropertyType::Number, Some(PropValueType::Number(7)));
    let mut with_hi = p;
    with_hi.prop_id = Oid { hi: 1, lo: 2 };
    let res = PropValueRes::from_model(&with_hi);
    assert_eq!(res.id, "000000010000000000000002");
    assert_eq!(res.prop_name, "prop-2");
    assert!(matches!(res.value, Some(PropValueType::Number(7))));
    assert_eq!(res.prop_type, PropertyType::Number);
}

#[test]
fn build_empty_task_returns_empty_view() {
    let repo = TaskRepository::from_records(vec![task(1, 7, 100, None)]);
    let cats = CategoryStore::from_rows(vec![category(100)]);
    let props = PropertyStore::new();
    let blocks = BlockStore::new();
    let chats = ChatStore::new();
    let view = build(&repo, &cats, &props, &blocks, &chats, oid(1), uid(7), 1).unwrap();
    assert_eq!(view.id, "000000000000000000000001");
    assert_eq!(view.title, "task-1");
    assert_eq!(view.category_name, "cat-100");
    assert_eq!(view.category_color, "#a1b2c3");
    assert!(view.properties.is_empty());
    assert!(view.corrupt_properties.is_empty());
    assert!(view.blocks.is_empty());
    assert!(view.subtasks.is_empty());
    assert!(view.chat_messages.is_none());
    assert_eq!(view.chat_type, ChatType::Task);
}

#[test]
fn build_dangling_category_fails() {
    let repo = TaskRepository::from_records(vec![task(1, 7, 100, None)]);
    let cats = CategoryStore::new();
    let props = PropertyStore::new();
    let blocks = BlockStore::new();
    let chats = ChatStore::new();
    let r = build(&repo, &cats, &props, &blocks, &chats, oid(1), uid(7), 1);
    assert_eq!(r.unwrap_err(), BuildError::DanglingReference);
}

#[test]
fn build_enforces_ownership() {
    let repo = TaskRepository::from_records(vec![task(1, 7, 100, None)]);
    let cats = CategoryStore::from_rows(vec![category(100)]);
    let props = PropertyStore::new();
    let blocks = BlockStore::new();
    let chats = ChatStore::new();
    let wrong_user = build(&repo, &cats, &props, &blocks, &chats, oid(1), uid(8), 1);
    assert_eq!(wrong_user.unwrap_err(), BuildError::NotFound);
    let absent = build(&repo, &cats, &props, &blocks, &chats, oid(2), uid(7), 1);
    assert_eq!(absent.unwrap_err(), BuildError::NotFound);
}

#[test]
fn build_collects_corrupt_properties() {
    let repo = TaskRepository::from_records(vec![task(1, 7, 100, None)]);
    let cats = CategoryStore::from_rows(vec![category(100)]);
    // A Text property holding a Number payload, at rest: corrupt.
    let props = PropertyStore::from_rows(vec![
        prop(10, 1, PropertyType::Text, Some(PropValueType::Number(5))),
        prop(11, 1, PropertyType::Checkbox, Some(PropValueType::Checkbox(true))),
        prop(12, 1, PropertyType::Date, None),
    ]);
    let blocks = BlockStore::new();
    let chats = ChatStore::new();
    let view = build(&repo, &cats, &props, &blocks, &chats, oid(1), uid(7), 1).unwrap();
    assert_eq!(view.properties.len(), 2);
    assert_eq!(view.properties[0].prop_name, "prop-11");
    assert_eq!(view.properties[1].prop_name, "prop-12");
    assert!(view.properties[1].value.is_none());
    assert_eq!(view.corrupt_properties, vec![oid(10)]);
}

#[test]
fn build_preserves_block_order() {
    let repo = TaskRepository::from_records(vec![task(1, 7, 100, None), task(2, 7, 100, None)]);
    let cats = CategoryStore::from_rows(vec![category(100)]);
    let props = PropertyStore::new();
    let blocks = BlockStore::from_rows(vec![
        block(20, 1, "first"),
        block(21, 2, "other task"),
        block(22, 1, "second"),
        block(23, 1, "third"),
    ]);
    let chats = ChatStore::new();
    let view = build(&repo, &cats, &props, &blocks, &chats, oid(1), uid(7), 1).unwrap();
    let contents: Vec<&str> = view.blocks.iter().map(|b| b.content.as_str()).collect();
    assert_eq!(contents, vec!["first", "second", "third"]);
}

#[test]
fn build_resolves_chat_thread() {
    let repo = TaskRepository::from_records(vec![task(1, 7, 100, None)]);
    let cats = CategoryStore::from_rows(vec![category(100)]);
    let props = PropertyStore::new();
    let blocks = BlockStore::new();
    let chats = ChatStore::from_rows(vec![ChatEntry {
        task_id: oid(1),
        thread: ChatThreadModel {
            chat_type: ChatType::Free,
            msgs: vec![MsgModel { id: oid(30), content: String::from("hello"), created_at: 5 }],
        },
    }]);
    let view = build(&repo, &cats, &props, &blocks, &chats, oid(1), uid(7), 1).unwrap();
    assert_eq!(view.chat_type, ChatType::Free);
    let msgs = view.chat_messages.unwrap();
    assert_eq!(msgs.len(), 1);
    assert_eq!(msgs[0].content, "hello");
}

#[test]
fn set_parent_detects_cycle_chain_1() {
    let mut repo = TaskRepository::from_records(vec![task(1, 7, 100, None), task(2, 7, 100, Some(1))]);
    // 2 is a child of 1: making 2 the parent of 1 closes a cycle.
    assert_eq!(repo.set_parent(oid(1), oid(2)), Err(RepoError::CycleDetected));
}

#[test]
fn set_parent_detects_cycle_chain_2() {
    let mut repo = TaskRepository::from_records(vec![
        task(1, 7, 100, None),
        task(2, 7, 100, Some(1)),
        task(3, 7, 100, Some(2)),
    ]);
    assert_eq!(repo.set_parent(oid(1), oid(3)), Err(RepoError::CycleDetected));
}

#[test]
fn set_parent_detects_cycle_chain_5() {
    let mut repo = TaskRepository::from_records(vec![
        task(1, 7, 100, None),
        task(2, 7, 100, Some(1)),
        task(3, 7, 100, Some(2)),
        task(4, 7, 100, Some(3)),
        task(5, 7, 100, Some(4)),
        task(6, 7, 100, Some(5)),
    ]);
    assert_eq!(repo.set_parent(oid(1), oid(6)), Err(RepoError::CycleDetected));
}

#[test]
fn set_parent_refuses_corrupt_chain() {
    // Records at rest already form a cycle between 1 and 2: any walk up
    // from them outruns the budget, so re-parenting onto them is refused.
    let mut repo = TaskRepository::from_records(vec![
        task(1, 7, 100, Some(2)),
        task(2, 7, 100, Some(1)),
        task(3, 7, 100, None),
    ]);
    assert_eq!(repo.set_parent(oid(3), oid(1)), Err(RepoError::CycleDetected));
}

#[test]
fn set_parent_rejects_self() {
    let mut repo = TaskRepository::from_records(vec![task(1, 7, 100, None)]);
    assert_eq!(repo.set_parent(oid(1), oid(1)), Err(RepoError::CycleDetected));
}

#[test]
fn set_parent_moves_task() {
    let mut repo = TaskRepository::from_records(vec![
        task(1, 7, 100, None),
        task(2, 7, 100, None),
        task(3, 7, 100, Some(1)),
    ]);
    assert_eq!(repo.set_parent(oid(3), oid(2)), Ok(()));
    assert_eq!(repo.get(oid(3)).unwrap().parent_id, Some(oid(2)));
    // A sibling move that creates no cycle still works after the first.
    assert_eq!(repo.set_parent(oid(2), oid(1)), Ok(()));
    assert_eq!(repo.get(oid(2)).unwrap().parent_id, Some(oid(1)));
    // But closing the loop from the top is refused.
    assert_eq!(repo.set_parent(oid(1), oid(3)), Err(RepoError::CycleDetected));
}

#[test]
fn delete_cascades_and_detaches() {
    let mut repo = TaskRepository::from_records(vec![task(1, 7, 100, None), task(2, 7, 100, Some(1))]);
    let mut props = PropertyStore::from_rows(vec![
        prop(10, 1, PropertyType::Number, Some(PropValueType::Number(1))),
        prop(11, 1, PropertyType::Checkbox, None),
        prop(12, 2, PropertyType::Text, Some(PropValueType::Text(String::from("keep")))),
    ]);
    let mut blocks = BlockStore::from_rows(vec![block(20, 1, "gone"), block(21, 2, "kept")]);
    assert_eq!(repo.delete(oid(1), &mut props, &mut blocks), Ok(()));
    // Both properties and the block of task 1 are removed; task 2's survive.
    assert!(props.list_for_task(oid(1)).is_empty());
    assert_eq!(props.list_for_task(oid(2)).len(), 1);
    assert!(blocks.list_for_task(oid(1)).is_empty());
    assert_eq!(blocks.list_for_task(oid(2)).len(), 1);
    // The subtask stays queryable, detached.
    let orphan = repo.get(oid(2)).unwrap();
    assert_eq!(orphan.parent_id, None);
    assert!(repo.get(oid(1)).is_none());
}

#[test]
fn delete_missing_task_fails() {
    let mut repo = TaskRepository::from_records(vec![task(1, 7, 100, None)]);
    let mut props = PropertyStore::new();
    let mut blocks = BlockStore::new();
    assert_eq!(repo.delete(oid(9), &mut props, &mut blocks), Err(RepoError::NotFound));
    assert!(repo.get(oid(1)).is_some());
}

#[test]
fn depth_zero_returns_identity_stubs() {
    let repo = TaskRepository::from_records(vec![task(1, 7, 100, None), task(2, 7, 100, Some(1))]);
    let cats = CategoryStore::from_rows(vec![category(100)]);
    let props =
        PropertyStore::from_rows(vec![prop(10, 2, PropertyType::Number, Some(PropValueType::Number(3)))]);
    let blocks = BlockStore::from_rows(vec![block(20, 2, "child content")]);
    let chats = ChatStore::new();
    let view = build(&repo, &cats, &props, &blocks, &chats, oid(1), uid(7), 0).unwrap();
    assert_eq!(view.subtasks.len(), 1);
    let stub = &view.subtasks[0];
    assert_eq!(stub.id, "000000000000000000000002");
    assert_eq!(stub.title, "task-2");
    // Identity only: nothing fetched for the stub.
    assert!(stub.properties.is_empty());
    assert!(stub.blocks.is_empty());
    assert!(stub.subtasks.is_empty());
    assert_eq!(stub.category_name, "");
    assert!(stub.chat_messages.is_none());
}

#[test]
fn depth_two_expands_two_levels_and_stubs_the_third() {
    let repo = TaskRepository::from_records(vec![
        task(1, 7, 100, None),
        task(2, 7, 100, Some(1)),
        task(3, 7, 100, Some(2)),
        task(4, 7, 100, Some(3)),
    ]);
    let cats = CategoryStore::from_rows(vec![category(100)]);
    let props = PropertyStore::new();
    let blocks = BlockStore::from_rows(vec![block(20, 4, "deep content")]);
    let chats = ChatStore::new();
    let view = build(&repo, &cats, &props, &blocks, &chats, oid(1), uid(7), 2).unwrap();
    let level1 = &view.subtasks[0];
    assert_eq!(level1.title, "task-2");
    assert_eq!(level1.category_name, "cat-100"); // fully expanded
    let level2 = &level1.subtasks[0];
    assert_eq!(level2.title, "task-3");
    assert_eq!(level2.category_name, "cat-100"); // fully expanded
    let level3 = &level2.subtasks[0];
    assert_eq!(level3.title, "task-4");
    assert_eq!(level3.category_name, ""); // stubbed
    assert!(level3.blocks.is_empty()); // its block is not fetched
    assert!(level3.subtasks.is_empty());
}

#[test]
fn default_depth_expands_one_level() {
    let repo = TaskRepository::from_records(vec![
        task(1, 7, 100, None),
        task(2, 7, 100, Some(1)),
        task(3, 7, 100, Some(2)),
    ]);
    let cats = CategoryStore::from_rows(vec![category(100)]);
    let props = PropertyStore::new();
    let blocks = BlockStore::new();
    let chats = ChatStore::new();
    let view = build_default(&repo, &cats, &props, &blocks, &chats, oid(1), uid(7)).unwrap();
    assert_eq!(view.subtasks[0].category_name, "cat-100");
    assert_eq!(view.subtasks[0].subtasks[0].category_name, "");
}

#[test]
fn repeated_builds_agree() {
    let repo = TaskRepository::from_records(vec![task(1, 7, 100, None), task(2, 7, 100, Some(1))]);
    let cats = CategoryStore::from_rows(vec![category(100)]);
    let props = PropertyStore::from_rows(vec![
        prop(10, 1, PropertyType::Select, Some(PropValueType::Select(String::from("red")))),
        prop(11, 1, PropertyType::Text, Some(PropValueType::Number(9))),
    ]);
    let blocks = BlockStore::from_rows(vec![block(20, 1, "alpha"), block(21, 1, "beta")]);
    let chats = ChatStore::new();
    let a = build(&repo, &cats, &props, &blocks, &chats, oid(1), uid(7), 1).unwrap();
    let b = build(&repo, &cats, &props, &blocks, &chats, oid(1), uid(7), 1).unwrap();
    assert_eq!(a.id, b.id);
    assert_eq!(a.title, b.title);
    assert_eq!(a.category_name, b.category_name);
    assert_eq!(a.properties.len(), b.properties.len());
    for (x, y) in a.properties.iter().zip(b.properties.iter()) {
        assert_eq!(x.id, y.id);
        assert_eq!(x.prop_name, y.prop_name);
    }
    assert_eq!(a.corrupt_properties, b.corrupt_properties);
    assert_eq!(a.blocks.len(), b.blocks.len());
    for (x, y) in a.blocks.iter().zip(b.blocks.iter()) {
        assert_eq!(x.content, y.content);
    }
    assert_eq!(a.subtasks.len(), b.subtasks.len());
    assert_eq!(a.subtasks[0].id, b.subtasks[0].id);
    assert_eq!(a.subtasks[0].title, b.subtasks[0].title);
}

#[test]
fn property_store_validates_writes() {
    let mut store = PropertyStore::new();
    assert_eq!(
        store.create(prop(1, 9, PropertyType::Number, Some(PropValueType::Number(5)))),
        Ok(())
    );
    // Same id again: refused.
    assert_eq!(
        store.create(prop(1, 9, PropertyType::Number, None)),
        Err(PropError::DuplicateId)
    );
    // Mismatched tag: refused, nothing written.
    assert_eq!(
        store.create(prop(2, 9, PropertyType::Text, Some(PropValueType::Number(5)))),
        Err(PropError::TypeMismatch)
    );
    // Right tag, payload outside the configured option set: refused too.
    let mut outside = prop(3, 9, PropertyType::Select, Some(PropValueType::Select(String::from("green"))));
    outside.options = Some(vec![String::from("red"), String::from("blue")]);
    assert_eq!(store.create(outside), Err(PropError::ShapeError));
    assert_eq!(store.list_for_task(oid(9)).len(), 1);
}

#[test]
fn property_update_type_change_clears_value() {
    let mut store = PropertyStore::new();
    store
        .create(prop(1, 9, PropertyType::Number, Some(PropValueType::Number(5))))
        .unwrap();
    // Changing the declared type without a replacement value clears it.
    assert_eq!(store.update(oid(1), None, None, Some(PropertyType::Text)), Ok(()));
    let rows = store.list_for_task(oid(9));
    assert_eq!(rows[0].prop_type, PropertyType::Text);
    assert!(rows[0].value.is_none());
    // A replacement value is validated against the type the patch leaves.
    assert_eq!(
        store.update(oid(1), None, Some(PropValueType::Number(3)), None),
        Err(PropError::TypeMismatch)
    );
    let rows = store.list_for_task(oid(9));
    assert!(rows[0].value.is_none());
    assert_eq!(
        store.update(
            oid(1),
            Some(String::from("renamed")),
            Some(PropValueType::Text(String::from("ok"))),
            None
        ),
        Ok(())
    );
    let rows = store.list_for_task(oid(9));
    assert_eq!(rows[0].prop_name, "renamed");
    assert!(matches!(&rows[0].value, Some(PropValueType::Text(s)) if s == "ok"));
    // Unknown id.
    assert_eq!(store.update(oid(99), None, None, None), Err(PropError::NotFound));
}

#[test]
fn repository_create_checks_parent() {
    let mut repo = TaskRepository::from_records(vec![task(1, 7, 100, None)]);
    // Parent of another user: refused.
    assert_eq!(repo.create(task(2, 8, 100, Some(1))), Err(RepoError::NotFound));
    // Missing parent: refused.
    assert_eq!(repo.create(task(2, 7, 100, Some(9))), Err(RepoError::NotFound));
    // Duplicate id: refused.
    assert_eq!(repo.create(task(1, 7, 100, None)), Err(RepoError::DuplicateId));
    assert_eq!(repo.create(task(2, 7, 100, Some(1))), Ok(()));
    assert_eq!(repo.children_of(oid(1)).len(), 1);
}

#[test]
fn repository_update_patches_fields() {
    let mut repo = TaskRepository::from_records(vec![task(1, 7, 100, None)]);
    let patch = TaskPatch {
        title: Some(String::from("new title")),
        start_date: None,
        due_at: Some(123456),
        category_id: Some(oid(200)),
    };
    assert_eq!(repo.update(oid(1), patch, 9999), Ok(()));
    let t = repo.get(oid(1)).unwrap();
    assert_eq!(t.title, "new title");
    assert_eq!(t.start_date, Some(19000));
    assert_eq!(t.due_at, Some(123456));
    assert_eq!(t.category_id, oid(200));
    assert_eq!(t.updated_at, 9999);
}

#[test]
fn children_keep_creation_order() {
    let repo = TaskRepository::from_records(vec![
        task(1, 7, 100, None),
        task(3, 7, 100, Some(1)),
        task(2, 7, 100, Some(1)),
        task(4, 7, 100, None),
    ]);
    let kids = repo.children_of(oid(1));
    assert_eq!(kids.len(), 2);
    assert_eq!(kids[0].id, oid(3));
    assert_eq!(kids[1].id, oid(2));
}
