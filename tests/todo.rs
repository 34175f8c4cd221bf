use zero2prod::field::TitleField;
use zero2prod::store::{ServiceError, Store};
use zero2prod::todo::{
    default_as_true, default_as_very_high, delete_todo_by_id, get_todo_by_id, get_todos, insert_todo,
    update_todo_by_id, NewTodo, UpdateTodo,
};

fn title(s: &str) -> TitleField {
    TitleField::parse(s.to_string()).ok().expect("accepted")
}

fn new_todo(name: &str, group: i32) -> NewTodo {
    NewTodo { title: title(name), activity_group_id: group, is_active: None, priority: None }
}

fn no_change() -> UpdateTodo {
    UpdateTodo { title: None, activity_group_id: None, is_active: None, priority: None }
}

#[test]
fn defaults_are_true_and_very_high() {
    assert!(default_as_true());
    assert_eq!(default_as_very_high(), "very-high");
}

#[test]
fn created_todo_is_fetched_back() {
    let mut pool = Store::new();
    let form = NewTodo {
        title: title("Milk"),
        activity_group_id: 4,
        is_active: Some(false),
        priority: Some("low".to_string()),
    };
    let created = insert_todo(&mut pool, &form, "t0".to_string()).expect("created");
    assert_eq!(created.id, 1);
    assert_eq!(created.created_at, "t0");
    assert_eq!(created.updated_at, Some("t0".to_string()));
    let fetched = get_todo_by_id(created.id, &pool).expect("found");
    assert_eq!(fetched.title, "Milk");
    assert_eq!(fetched.activity_group_id, 4);
    assert_eq!(fetched.is_active, Some(false));
    assert_eq!(fetched.priority, Some("low".to_string()));
    assert_eq!(fetched.created_at, created.created_at);
    assert_eq!(fetched.updated_at, created.updated_at);
}

#[test]
fn todo_defaults_when_omitted() {
    let mut pool = Store::new();
    let t = insert_todo(&mut pool, &new_todo("Bread", 1), "t0".to_string()).expect("created");
    assert_eq!(t.priority, Some("very-high".to_string()));
    assert_eq!(t.is_active, Some(true));
    let f = get_todo_by_id(t.id, &pool).expect("found");
    assert_eq!(f.priority, Some("very-high".to_string()));
    assert_eq!(f.is_active, Some(true));
}

#[test]
fn missing_todo_is_not_found() {
    let mut pool = Store::new();
    assert!(matches!(get_todo_by_id(3, &pool), Err(ServiceError::NotFound)));
    assert!(matches!(update_todo_by_id(3, &mut pool, &no_change(), "t".to_string()), Err(ServiceError::NotFound)));
    assert_eq!(delete_todo_by_id(3, &mut pool), Err(ServiceError::NotFound));
}

#[test]
fn todo_delete_twice() {
    let mut pool = Store::new();
    let t = insert_todo(&mut pool, &new_todo("x", 1), "t0".to_string()).expect("created");
    assert_eq!(delete_todo_by_id(t.id, &mut pool), Ok(()));
    assert_eq!(delete_todo_by_id(t.id, &mut pool), Err(ServiceError::NotFound));
}

#[test]
fn todo_update_single_fields() {
    let mut pool = Store::new();
    let t = insert_todo(&mut pool, &new_todo("orig", 2), "t0".to_string()).expect("created");

    let u = update_todo_by_id(t.id, &mut pool, &UpdateTodo { title: Some("renamed".to_string()), ..no_change() }, "t1".to_string())
        .expect("updated");
    assert_eq!(u.title, "renamed");
    assert_eq!(u.activity_group_id, 2);
    assert_eq!(u.is_active, Some(true));
    assert_eq!(u.priority, Some("very-high".to_string()));
    assert_eq!(u.created_at, "t0");
    assert_eq!(u.updated_at, Some("t1".to_string()));

    let u = update_todo_by_id(t.id, &mut pool, &UpdateTodo { activity_group_id: Some(9), ..no_change() }, "t2".to_string())
        .expect("updated");
    assert_eq!((u.title.as_str(), u.activity_group_id), ("renamed", 9));
    assert_eq!(u.is_active, Some(true));
    assert_eq!(u.priority, Some("very-high".to_string()));
    assert_eq!(u.updated_at, Some("t2".to_string()));

    let u = update_todo_by_id(t.id, &mut pool, &UpdateTodo { is_active: Some(false), ..no_change() }, "t3".to_string())
        .expect("updated");
    assert_eq!(u.is_active, Some(false));
    assert_eq!(u.priority, Some("very-high".to_string()));
    assert_eq!(u.updated_at, Some("t3".to_string()));

    let u = update_todo_by_id(t.id, &mut pool, &UpdateTodo { priority: Some("low".to_string()), ..no_change() }, "t4".to_string())
        .expect("updated");
    assert_eq!(u.priority, Some("low".to_string()));
    assert_eq!((u.title.as_str(), u.activity_group_id, u.is_active), ("renamed", 9, Some(false)));
    assert_eq!(u.updated_at, Some("t4".to_string()));

    let f = get_todo_by_id(t.id, &pool).expect("found");
    assert_eq!(f.priority, Some("low".to_string()));
    assert_eq!(f.updated_at, Some("t4".to_string()));
}

#[test]
fn todo_update_with_nothing_refreshes_time() {
    let mut pool = Store::new();
    let t = insert_todo(&mut pool, &new_todo("x", 1), "t0".to_string()).expect("created");
    let u = update_todo_by_id(t.id, &mut pool, &no_change(), "t9".to_string()).expect("updated");
    assert_eq!(u.title, "x");
    assert_eq!((u.activity_group_id, u.is_active), (1, Some(true)));
    assert_eq!(u.priority, Some("very-high".to_string()));
    assert_eq!(u.created_at, "t0");
    assert_eq!(u.updated_at, Some("t9".to_string()));
}

#[test]
fn todo_list_filters_by_activity() {
    let mut pool = Store::new();
    for (name, group) in [("a", 1), ("b", 2), ("c", 1), ("d", 3)] {
        insert_todo(&mut pool, &new_todo(name, group), "t0".to_string()).expect("created");
    }
    let ones = get_todos(Some(1), &pool).expect("listed");
    let names: Vec<&str> = ones.iter().map(|t| t.title.as_str()).collect();
    assert_eq!(names, vec!["a", "c"]);
    assert!(ones.iter().all(|t| t.activity_group_id == 1));
    assert!(get_todos(Some(7), &pool).expect("listed").is_empty());
    let all = get_todos(None, &pool).expect("listed");
    let names: Vec<&str> = all.iter().map(|t| t.title.as_str()).collect();
    assert_eq!(names, vec!["a", "b", "c", "d"]);
}
