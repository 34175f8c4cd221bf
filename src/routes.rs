use vstd::prelude::*;
use vstd::string::StringExecFns;
use crate::activity::{
    Activity, ActivityView, NewActivity, UpdateActivity, activity_index, activity_updated,
    activity_views, delete_activity_by_id, get_activities, get_activity_by_id, has_activity,
    insert_activity, update_activity_by_id,
};
use crate::field::{Response, ResponseWithData, TitleField, decimal_text, i32_text, is_blank, opt_view};
use crate::store::Store;
use crate::todo::{
    NewTodo, Todo, TodoRowView, UpdateTodo, flag_column, delete_todo_by_id, get_todo_by_id, get_todos, has_todo,
    insert_todo, listed_todos, update_todo_by_id, todo_index, todo_of_row, todo_updated, todo_views,
};

verus! {

/// The payload of a successful delete: an empty object.
#[derive(Clone, Copy, Debug, PartialEq, Eq, Structural)]
pub struct EmptyObject {}

/// What goes back in a reply: nothing, an envelope, or an envelope with a payload.
pub enum Body<T> {
    Empty,
    Message(Response),
    Data(ResponseWithData<T>),
}

/// An HTTP status code with the body that goes with it.
pub struct Reply<T> {
    pub status_code: u16,
    pub body: Body<T>,
}

/// The fields of a request that creates or updates an activity.
pub struct ActivityForm {
    pub title: String,
    pub email: Option<String>,
}

/// The fields of a request that creates a todo item. An absent priority or
/// flag is filled in with its default before it gets here.
pub struct TodoForm {
    pub title: String,
    pub activity_group_id: Option<i32>,
    pub priority: String,
    pub is_active: bool,
}

/// A reply of `code` whose envelope is the success one around a payload that
/// satisfies `holds`.
pub open spec fn is_data_reply<T>(r: Reply<T>, code: u16, holds: spec_fn(T) -> bool) -> bool {
    &&& r.status_code == code
    &&& r.body matches Body::Data(d)
    &&& d.status@ == "Success"@
    &&& d.message@ == "Success"@
    &&& holds(d.data)
}

/// A reply of `code` with the envelope `{status, message}`.
pub open spec fn is_message_reply<T>(r: Reply<T>, code: u16, status: Seq<char>, message: Seq<char>) -> bool {
    &&& r.status_code == code
    &&& r.body matches Body::Message(m)
    &&& m.status@ == status
    &&& m.message@ == message
}

/// A reply of `code` with no body.
pub open spec fn is_empty_reply<T>(r: Reply<T>, code: u16) -> bool {
    r.status_code == code && r.body is Empty
}

/// The row that creating an activity from `form` adds under `id`.
pub open spec fn activity_form_row(id: i32, form: ActivityForm, now: Seq<char>) -> ActivityView {
    ActivityView {
        id: id,
        title: form.title@,
        email: opt_view(form.email),
        created_at: now,
        updated_at: Some(now),
    }
}

/// The row that creating a todo item from `form` adds under `id`.
pub open spec fn todo_form_row(id: i32, form: TodoForm, now: Seq<char>) -> TodoRowView {
    TodoRowView {
        id: id,
        title: form.title@,
        priority: form.priority@,
        activity_group_id: form.activity_group_id.unwrap(),
        is_active: flag_column(form.is_active),
        created_at: now,
        updated_at: Some(now),
        deleted_at: None,
    }
}

pub open spec fn activity_not_found_text(id: i32) -> Seq<char> {
    "Activity with ID "@ + decimal_text(id as int) + " Not Found"@
}

pub open spec fn todo_not_found_text(id: i32) -> Seq<char> {
    "Todo with ID "@ + decimal_text(id as int) + " Not Found"@
}

pub open spec fn title_rejection_text() -> Seq<char> {
    "title cannot be null"@
}

pub open spec fn group_rejection_text() -> Seq<char> {
    "activity_group_id cannot be null"@
}

fn activity_not_found(id: i32) -> (r: Response)
    ensures
        r.status@ == "Not Found"@,
        r.message@ == activity_not_found_text(id),
{
    let digits = i32_text(id);
    let message = String::from_str("Activity with ID ").concat(digits.as_str()).concat(" Not Found");
    Response::not_found(message)
}

fn todo_not_found(id: i32) -> (r: Response)
    ensures
        r.status@ == "Not Found"@,
        r.message@ == todo_not_found_text(id),
{
    let digits = i32_text(id);
    let message = String::from_str("Todo with ID ").concat(digits.as_str()).concat(" Not Found");
    Response::not_found(message)
}

/// The liveness probe: 200 with an empty body, whatever the store holds.
pub fn health_check() -> (r: Reply<EmptyObject>)
    ensures
        is_empty_reply(r, 200),
{
    Reply { status_code: 200, body: Body::Empty }
}

/// The greeting for `name`, or for the world when no name is given.
pub fn greet(name: Option<&str>) -> (r: String)
    ensures
        r@ == "Hello "@ + (if let Some(n) = name { n@ } else { "World"@ }) + "!"@,
{
    let who = match name {
        Some(n) => n,
        None => "World",
    };
    String::from_str("Hello ").concat(who).concat("!")
}

/// Every activity, in the success envelope.
pub fn activity_list(pool: &Store) -> (r: Reply<Vec<Activity>>)
    ensures
        is_data_reply(r, 200, |v: Vec<Activity>| activity_views(v@) == pool.activity_rows()),
{
    match get_activities(pool) {
        Ok(data) => Reply { status_code: 200, body: Body::Data(ResponseWithData::success(data)) },
        Err(_) => Reply { status_code: 500, body: Body::Empty },
    }
}

/// Creates an activity stamped with `now`: 400 when the title is blank, 201
/// with the new row, or 500 when the store can give no more ids.
pub fn activity_create(form: ActivityForm, now: String, pool: &mut Store) -> (r: Reply<Activity>)
    requires
        old(pool).wf(),
    ensures
        final(pool).wf(),
        final(pool).todos_unchanged(old(pool)),
        is_blank(form.title@) ==> is_message_reply(r, 400, "Bad Request"@, title_rejection_text())
            && final(pool).activities_unchanged(old(pool)),
        !is_blank(form.title@) && old(pool).last_activity() == i32::MAX ==> is_empty_reply(r, 500)
            && final(pool).activities_unchanged(old(pool)),
        !is_blank(form.title@) && old(pool).last_activity() < i32::MAX ==> is_data_reply(
            r,
            201,
            |a: Activity|
                {
                    let row = activity_form_row((old(pool).last_activity() + 1) as i32, form, now@);
                    &&& a@ == row
                    &&& final(pool).activity_rows() == old(pool).activity_rows().push(row)
                    &&& final(pool).last_activity() == row.id
                },
        ),
{
    let title = match TitleField::parse(form.title) {
        Ok(title) => title,
        Err(_) => {
            return Reply { status_code: 400, body: Body::Message(Response::bad_request("title cannot be null")) };
        },
    };
    let activity = NewActivity { title, email: form.email };
    match insert_activity(pool, &activity, now) {
        Ok(data) => Reply { status_code: 201, body: Body::Data(ResponseWithData::success(data)) },
        Err(_) => Reply { status_code: 500, body: Body::Empty },
    }
}

/// One activity: 200 with it, or 404 when no activity has the id.
pub fn activity_detail(activity_id: i32, pool: &Store) -> (r: Reply<Activity>)
    requires
        pool.wf(),
    ensures
        has_activity(pool.activity_rows(), activity_id) ==> is_data_reply(
            r,
            200,
            |a: Activity| a@ == pool.activity_rows()[activity_index(pool.activity_rows(), activity_id)],
        ),
        !has_activity(pool.activity_rows(), activity_id) ==> is_message_reply(
            r,
            404,
            "Not Found"@,
            activity_not_found_text(activity_id),
        ),
{
    match get_activity_by_id(activity_id, pool) {
        Ok(data) => Reply { status_code: 200, body: Body::Data(ResponseWithData::success(data)) },
        Err(_) => Reply { status_code: 404, body: Body::Message(activity_not_found(activity_id)) },
    }
}

/// Updates an activity and stamps it with `now`: 400 when the title is
/// blank, 200 with the updated row, or 404 when no activity has the id.
pub fn activity_update(activity_id: i32, form: ActivityForm, now: String, pool: &mut Store) -> (r: Reply<Activity>)
    requires
        old(pool).wf(),
    ensures
        final(pool).wf(),
        final(pool).todos_unchanged(old(pool)),
        final(pool).last_activity() == old(pool).last_activity(),
        is_blank(form.title@) ==> is_message_reply(r, 400, "Bad Request"@, title_rejection_text())
            && final(pool).activity_rows() == old(pool).activity_rows(),
        !is_blank(form.title@) && !has_activity(old(pool).activity_rows(), activity_id) ==> is_message_reply(
            r,
            404,
            "Not Found"@,
            activity_not_found_text(activity_id),
        ) && final(pool).activity_rows() == old(pool).activity_rows(),
        !is_blank(form.title@) && has_activity(old(pool).activity_rows(), activity_id) ==> is_data_reply(
            r,
            200,
            |a: Activity|
                {
                    let rows = old(pool).activity_rows();
                    let k = activity_index(rows, activity_id);
                    &&& a@ == activity_updated(rows[k], form.title@, opt_view(form.email), now@)
                    &&& final(pool).activity_rows() == rows.update(k, a@)
                },
        ),
{
    let title = match TitleField::parse(form.title) {
        Ok(title) => title,
        Err(_) => {
            return Reply { status_code: 400, body: Body::Message(Response::bad_request("title cannot be null")) };
        },
    };
    let activity = UpdateActivity { title, email: form.email };
    match update_activity_by_id(activity_id, pool, &activity, now) {
        Ok(data) => Reply { status_code: 200, body: Body::Data(ResponseWithData::success(data)) },
        Err(_) => Reply { status_code: 404, body: Body::Message(activity_not_found(activity_id)) },
    }
}

/// Deletes an activity: 200 with an empty object, or 404 when no activity
/// has the id.
pub fn activity_destroy(activity_id: i32, pool: &mut Store) -> (r: Reply<EmptyObject>)
    requires
        old(pool).wf(),
    ensures
        final(pool).wf(),
        final(pool).todos_unchanged(old(pool)),
        final(pool).last_activity() == old(pool).last_activity(),
        has_activity(old(pool).activity_rows(), activity_id) ==> is_data_reply(r, 200, |d: EmptyObject| true)
            && final(pool).activity_rows() == old(pool).activity_rows().remove(
            activity_index(old(pool).activity_rows(), activity_id),
        ),
        !has_activity(old(pool).activity_rows(), activity_id) ==> is_message_reply(
            r,
            404,
            "Not Found"@,
            activity_not_found_text(activity_id),
        ) && final(pool).activity_rows() == old(pool).activity_rows(),
{
    match delete_activity_by_id(activity_id, pool) {
        Ok(()) => Reply { status_code: 200, body: Body::Data(ResponseWithData::success(EmptyObject {})) },
        Err(_) => Reply { status_code: 404, body: Body::Message(activity_not_found(activity_id)) },
    }
}

/// The todo items of one activity, or all of them, in the success envelope.
pub fn todo_list(activity_group_id: Option<i32>, pool: &Store) -> (r: Reply<Vec<Todo>>)
    ensures
        is_data_reply(
            r,
            200,
            |v: Vec<Todo>| todo_views(v@) == listed_todos(pool.todo_rows(), activity_group_id),
        ),
{
    match get_todos(activity_group_id, pool) {
        Ok(data) => Reply { status_code: 200, body: Body::Data(ResponseWithData::success(data)) },
        Err(_) => Reply { status_code: 500, body: Body::Empty },
    }
}

/// Creates a todo item stamped with `now`: 400 when the title is blank or
/// the activity is missing, 201 with the new item, or 500 when the store can
/// give no more ids.
pub fn todo_create(form: TodoForm, now: String, pool: &mut Store) -> (r: Reply<Todo>)
    requires
        old(pool).wf(),
    ensures
        final(pool).wf(),
        final(pool).activities_unchanged(old(pool)),
        is_blank(form.title@) ==> is_message_reply(r, 400, "Bad Request"@, title_rejection_text())
            && final(pool).todos_unchanged(old(pool)),
        !is_blank(form.title@) && form.activity_group_id is None ==> is_message_reply(
            r,
            400,
            "Bad Request"@,
            group_rejection_text(),
        ) && final(pool).todos_unchanged(old(pool)),
        !is_blank(form.title@) && form.activity_group_id is Some && old(pool).last_todo() == i32::MAX
            ==> is_empty_reply(r, 500) && final(pool).todos_unchanged(old(pool)),
        !is_blank(form.title@) && form.activity_group_id is Some && old(pool).last_todo() < i32::MAX
            ==> is_data_reply(
            r,
            201,
            |t: Todo|
                {
                    let row = todo_form_row((old(pool).last_todo() + 1) as i32, form, now@);
                    &&& t@ == todo_of_row(row)
                    &&& final(pool).todo_rows() == old(pool).todo_rows().push(row)
                    &&& final(pool).last_todo() == row.id
                },
        ),
{
    let title = match TitleField::parse(form.title) {
        Ok(title) => title,
        Err(_) => {
            return Reply { status_code: 400, body: Body::Message(Response::bad_request("title cannot be null")) };
        },
    };
    let activity_group_id = match form.activity_group_id {
        Some(g) => g,
        None => {
            return Reply {
                status_code: 400,
                body: Body::Message(Response::bad_request("activity_group_id cannot be null")),
            };
        },
    };
    let todo = NewTodo { title, activity_group_id, priority: Some(form.priority), is_active: Some(form.is_active) };
    match insert_todo(pool, &todo, now) {
        Ok(data) => Reply { status_code: 201, body: Body::Data(ResponseWithData::success(data)) },
        Err(_) => Reply { status_code: 500, body: Body::Empty },
    }
}

/// One todo item: 200 with it, or 404 when no item has the id.
pub fn todo_detail(todo_id: i32, pool: &Store) -> (r: Reply<Todo>)
    requires
        pool.wf(),
    ensures
        has_todo(pool.todo_rows(), todo_id) ==> is_data_reply(
            r,
            200,
            |t: Todo| t@ == todo_of_row(pool.todo_rows()[todo_index(pool.todo_rows(), todo_id)]),
        ),
        !has_todo(pool.todo_rows(), todo_id) ==> is_message_reply(
            r,
            404,
            "Not Found"@,
            todo_not_found_text(todo_id),
        ),
{
    match get_todo_by_id(todo_id, pool) {
        Ok(data) => Reply { status_code: 200, body: Body::Data(ResponseWithData::success(data)) },
        Err(_) => Reply { status_code: 404, body: Body::Message(todo_not_found(todo_id)) },
    }
}

/// Updates the given fields of a todo item and stamps it with `now`: 200
/// with the updated item, or 404 when no item has the id.
pub fn todo_update(todo_id: i32, form: UpdateTodo, now: String, pool: &mut Store) -> (r: Reply<Todo>)
    requires
        old(pool).wf(),
    ensures
        final(pool).wf(),
        final(pool).activities_unchanged(old(pool)),
        final(pool).last_todo() == old(pool).last_todo(),
        !has_todo(old(pool).todo_rows(), todo_id) ==> is_message_reply(
            r,
            404,
            "Not Found"@,
            todo_not_found_text(todo_id),
        ) && final(pool).todo_rows() == old(pool).todo_rows(),
        has_todo(old(pool).todo_rows(), todo_id) ==> is_data_reply(
            r,
            200,
            |t: Todo|
                {
                    let rows = old(pool).todo_rows();
                    let k = todo_index(rows, todo_id);
                    let row = todo_updated(rows[k], form, now@);
                    &&& t@ == todo_of_row(row)
                    &&& final(pool).todo_rows() == rows.update(k, row)
                },
        ),
{
    match update_todo_by_id(todo_id, pool, &form, now) {
        Ok(data) => Reply { status_code: 200, body: Body::Data(ResponseWithData::success(data)) },
        Err(_) => Reply { status_code: 404, body: Body::Message(todo_not_found(todo_id)) },
    }
}

/// Deletes a todo item: 200 with an empty object, or 404 when no item has
/// the id.
pub fn todo_destroy(todo_id: i32, pool: &mut Store) -> (r: Reply<EmptyObject>)
    requires
        old(pool).wf(),
    ensures
        final(pool).wf(),
        final(pool).activities_unchanged(old(pool)),
        final(pool).last_todo() == old(pool).last_todo(),
        has_todo(old(pool).todo_rows(), todo_id) ==> is_data_reply(r, 200, |d: EmptyObject| true)
            && final(pool).todo_rows() == old(pool).todo_rows().remove(
            todo_index(old(pool).todo_rows(), todo_id),
        ),
        !has_todo(old(pool).todo_rows(), todo_id) ==> is_message_reply(
            r,
            404,
            "Not Found"@,
            todo_not_found_text(todo_id),
        ) && final(pool).todo_rows() == old(pool).todo_rows(),
{
    match delete_todo_by_id(todo_id, pool) {
        Ok(()) => Reply { status_code: 200, body: Body::Data(ResponseWithData::success(EmptyObject {})) },
        Err(_) => Reply { status_code: 404, body: Body::Message(todo_not_found(todo_id)) },
    }
}

} // verus!
