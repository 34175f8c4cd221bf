use zero2prod::routes::{
    activity_create, activity_destroy, activity_detail, activity_list, activity_update, health_check, todo_create,
    todo_destroy, todo_detail, todo_list, todo_update, ActivityForm, Body, Reply, TodoForm,
};
use zero2prod::store::Store;
use zero2prod::todo::{default_as_true, default_as_very_high, UpdateTodo};

fn message<T>(r: &Reply<T>) -> (String, String) {
    match &r.body {
        Body::Message(m) => (m.status.clone(), m.message.clone()),
        _ => panic!("expected an envelope without data"),
    }
}

fn data<T>(r: Reply<T>) -> T {
    match r.body {
        Body::Data(d) => {
            assert_eq!(d.status, "Success");
            assert_eq!(d.message, "Success");
            d.data
        }
        _ => panic!("expected an envelope with data"),
    }
}

fn activity_form(title: &str, email: Option<&str>) -> ActivityForm {
    ActivityForm { title: title.to_string(), email: email.map(|e| e.to_string()) }
}

fn todo_form(title: &str, group: Option<i32>) -> TodoForm {
    TodoForm {
        title: title.to_string(),
        activity_group_id: group,
        priority: default_as_very_high(),
        is_active: default_as_true(),
    }
}

#[test]
fn health_check_is_empty_ok() {
    let r = health_check();
    assert_eq!(r.status_code, 200);
    assert!(matches!(r.body, Body::Empty));
}

#[test]
fn blank_title_is_bad_request() {
    let mut pool = Store::new();
    let r = activity_create(activity_form("  ", None), "t0".to_string(), &mut pool);
    assert_eq!(r.status_code, 400);
    assert_eq!(message(&r), ("Bad Request".to_string(), "title cannot be null".to_string()));
    let r = todo_create(todo_form("", Some(1)), "t0".to_string(), &mut pool);
    assert_eq!(r.status_code, 400);
    assert_eq!(message(&r), ("Bad Request".to_string(), "title cannot be null".to_string()));
    assert!(data(activity_list(&pool)).is_empty());
    assert!(data(todo_list(None, &pool)).is_empty());
}

#[test]
fn missing_group_is_bad_request() {
    let mut pool = Store::new();
    let r = todo_create(todo_form("x", None), "t0".to_string(), &mut pool);
    assert_eq!(r.status_code, 400);
    assert_eq!(message(&r), ("Bad Request".to_string(), "activity_group_id cannot be null".to_string()));
}

#[test]
fn activity_routes_round_trip() {
    let mut pool = Store::new();
    let r = activity_create(activity_form("Work", Some("w@x.y")), "t0".to_string(), &mut pool);
    assert_eq!(r.status_code, 201);
    let a = data(r);
    assert_eq!((a.created_at.as_str(), a.updated_at.as_deref()), ("t0", Some("t0")));
    let r = activity_detail(a.id, &pool);
    assert_eq!(r.status_code, 200);
    let f = data(r);
    assert_eq!((f.title.as_str(), f.email.as_deref()), ("Work", Some("w@x.y")));

    let r = activity_update(a.id, activity_form("Play", None), "t1".to_string(), &mut pool);
    assert_eq!(r.status_code, 200);
    let u = data(r);
    assert_eq!((u.title.as_str(), u.email.as_deref()), ("Play", Some("w@x.y")));
    assert_eq!((u.created_at.as_str(), u.updated_at.as_deref()), ("t0", Some("t1")));

    let r = activity_update(a.id, activity_form(" ", None), "t1".to_string(), &mut pool);
    assert_eq!(r.status_code, 400);

    let r = activity_destroy(a.id, &mut pool);
    assert_eq!(r.status_code, 200);
    let r = activity_destroy(a.id, &mut pool);
    assert_eq!(r.status_code, 404);
    assert_eq!(message(&r), ("Not Found".to_string(), format!("Activity with ID {} Not Found", a.id)));
}

#[test]
fn unknown_ids_are_not_found() {
    let mut pool = Store::new();
    let r = activity_detail(42, &pool);
    assert_eq!(r.status_code, 404);
    assert_eq!(message(&r), ("Not Found".to_string(), "Activity with ID 42 Not Found".to_string()));
    let r = activity_update(-3, activity_form("x", None), "t1".to_string(), &mut pool);
    assert_eq!(r.status_code, 404);
    assert_eq!(message(&r).1, "Activity with ID -3 Not Found");
    let r = todo_detail(0, &pool);
    assert_eq!(r.status_code, 404);
    assert_eq!(message(&r), ("Not Found".to_string(), "Todo with ID 0 Not Found".to_string()));
    let none = UpdateTodo { title: None, activity_group_id: None, is_active: None, priority: None };
    let r = todo_update(2147483647, none, "t1".to_string(), &mut pool);
    assert_eq!(r.status_code, 404);
    assert_eq!(message(&r).1, "Todo with ID 2147483647 Not Found");
    let r = todo_destroy(-2147483648, &mut pool);
    assert_eq!(r.status_code, 404);
    assert_eq!(message(&r).1, "Todo with ID -2147483648 Not Found");
}

#[test]
fn todo_routes_round_trip() {
    let mut pool = Store::new();
    let r = todo_create(todo_form("Milk", Some(5)), "t0".to_string(), &mut pool);
    assert_eq!(r.status_code, 201);
    let t = data(r);
    assert_eq!(t.priority, Some("very-high".to_string()));
    assert_eq!(t.is_active, Some(true));
    assert_eq!(t.activity_group_id, 5);
    todo_create(todo_form("Eggs", Some(6)), "t0".to_string(), &mut pool);

    let listed = data(todo_list(Some(5), &pool));
    assert_eq!(listed.len(), 1);
    assert_eq!(listed[0].title, "Milk");
    assert_eq!(data(todo_list(None, &pool)).len(), 2);

    let form = UpdateTodo { title: None, activity_group_id: None, is_active: Some(false), priority: None };
    let r = todo_update(t.id, form, "t1".to_string(), &mut pool);
    assert_eq!(r.status_code, 200);
    let u = data(r);
    assert_eq!((u.title.as_str(), u.is_active), ("Milk", Some(false)));
    assert_eq!(u.updated_at, Some("t1".to_string()));

    let r = todo_detail(t.id, &pool);
    assert_eq!(data(r).is_active, Some(false));

    assert_eq!(todo_destroy(t.id, &mut pool).status_code, 200);
    assert_eq!(todo_destroy(t.id, &mut pool).status_code, 404);
}
