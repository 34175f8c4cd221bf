use vstd::prelude::*;
use vstd::string::StringExecFns;
use crate::field::{TitleField, copy_text, copy_opt_text, opt_view, title_text};
use crate::store::{Store, ServiceError};

verus! {

/// The flag a todo item gets when it is created without one.
pub fn default_as_true() -> (r: bool)
    ensures
        r,
{
    true
}

/// The priority a todo item gets when it is created without one.
pub fn default_as_very_high() -> (r: String)
    ensures
        r@ == "very-high"@,
{
    String::from_str("very-high")
}

/// A todo item as the service hands it out.
pub struct Todo {
    pub id: i32,
    pub title: String,
    pub priority: Option<String>,
    pub activity_group_id: i32,
    pub is_active: Option<bool>,
    pub created_at: String,
    pub updated_at: Option<String>,
}

/// The mathematical value of a [`Todo`].
pub struct TodoView {
    pub id: i32,
    pub title: Seq<char>,
    pub priority: Option<Seq<char>>,
    pub activity_group_id: i32,
    pub is_active: Option<bool>,
    pub created_at: Seq<char>,
    pub updated_at: Option<Seq<char>>,
}

impl View for Todo {
    type V = TodoView;

    open spec fn view(&self) -> TodoView {
        TodoView {
            id: self.id,
            title: self.title@,
            priority: opt_view(self.priority),
            activity_group_id: self.activity_group_id,
            is_active: self.is_active,
            created_at: self.created_at@,
            updated_at: opt_view(self.updated_at),
        }
    }
}

/// A row of the todo table.
pub struct TodoTable {
    pub id: i32,
    pub title: String,
    pub priority: String,
    pub activity_group_id: i32,
    pub is_active: i8,
    pub created_at: String,
    pub updated_at: Option<String>,
    pub deleted_at: Option<String>,
}

/// The mathematical value of a [`TodoTable`] row.
pub struct TodoRowView {
    pub id: i32,
    pub title: Seq<char>,
    pub priority: Seq<char>,
    pub activity_group_id: i32,
    pub is_active: i8,
    pub created_at: Seq<char>,
    pub updated_at: Option<Seq<char>>,
    pub deleted_at: Option<Seq<char>>,
}

impl View for TodoTable {
    type V = TodoRowView;

    open spec fn view(&self) -> TodoRowView {
        TodoRowView {
            id: self.id,
            title: self.title@,
            priority: self.priority@,
            activity_group_id: self.activity_group_id,
            is_active: self.is_active,
            created_at: self.created_at@,
            updated_at: opt_view(self.updated_at),
            deleted_at: opt_view(self.deleted_at),
        }
    }
}

impl TodoTable {
    fn duplicate(&self) -> (r: TodoTable)
        ensures
            r@ == self@,
    {
        TodoTable {
            id: self.id,
            title: copy_text(&self.title),
            priority: copy_text(&self.priority),
            activity_group_id: self.activity_group_id,
            is_active: self.is_active,
            created_at: copy_text(&self.created_at),
            updated_at: copy_opt_text(&self.updated_at),
            deleted_at: copy_opt_text(&self.deleted_at),
        }
    }
}

/// What a new todo item is made of.
pub struct NewTodo {
    pub title: TitleField,
    pub activity_group_id: i32,
    pub is_active: Option<bool>,
    pub priority: Option<String>,
}

/// What an update of a todo item sets: each field that is given.
pub struct UpdateTodo {
    pub title: Option<String>,
    pub activity_group_id: Option<i32>,
    pub is_active: Option<bool>,
    pub priority: Option<String>,
}

/// The values of a sequence of rows.
pub open spec fn todo_row_views(s: Seq<TodoTable>) -> Seq<TodoRowView> {
    s.map_values(|t: TodoTable| t@)
}

/// The values of a sequence of todo items.
pub open spec fn todo_views(s: Seq<Todo>) -> Seq<TodoView> {
    s.map_values(|t: Todo| t@)
}

/// The column value that stands for a flag.
pub open spec fn flag_column(b: bool) -> i8 {
    if b {
        1
    } else {
        0
    }
}

/// How a row is shown: the flag as a boolean, priority and flag always present.
pub open spec fn todo_of_row(row: TodoRowView) -> TodoView {
    TodoView {
        id: row.id,
        title: row.title,
        priority: Some(row.priority),
        activity_group_id: row.activity_group_id,
        is_active: Some(row.is_active != 0),
        created_at: row.created_at,
        updated_at: row.updated_at,
    }
}

/// The row that an insert adds: an absent priority is `"very-high"`, an
/// absent flag is set.
pub open spec fn new_todo_row(id: i32, form: NewTodo, now: Seq<char>) -> TodoRowView {
    TodoRowView {
        id: id,
        title: form.title@,
        priority: match form.priority {
            Some(p) => p@,
            None => "very-high"@,
        },
        activity_group_id: form.activity_group_id,
        is_active: match form.is_active {
            Some(b) => flag_column(b),
            None => flag_column(true),
        },
        created_at: now,
        updated_at: Some(now),
        deleted_at: None,
    }
}

/// The row that an update leaves: each field that is given replaces the
/// column, the others keep their values, and the update time is `now`.
pub open spec fn todo_updated(row: TodoRowView, form: UpdateTodo, now: Seq<char>) -> TodoRowView {
    TodoRowView {
        title: match form.title {
            Some(t) => t@,
            None => row.title,
        },
        activity_group_id: match form.activity_group_id {
            Some(g) => g,
            None => row.activity_group_id,
        },
        is_active: match form.is_active {
            Some(b) => flag_column(b),
            None => row.is_active,
        },
        priority: match form.priority {
            Some(p) => p@,
            None => row.priority,
        },
        updated_at: Some(now),
        ..row
    }
}

/// Whether a row passes the activity filter of a listing.
pub open spec fn todo_selected(row: TodoRowView, activity_group_id: Option<i32>) -> bool {
    match activity_group_id {
        Some(g) => row.activity_group_id == g,
        None => true,
    }
}

/// The todo items a listing returns: the rows that pass the filter, in the
/// store's order.
pub open spec fn listed_todos(rows: Seq<TodoRowView>, activity_group_id: Option<i32>) -> Seq<TodoView>
    decreases rows.len(),
{
    if rows.len() == 0 {
        Seq::empty()
    } else {
        let prev = listed_todos(rows.drop_last(), activity_group_id);
        if todo_selected(rows.last(), activity_group_id) {
            prev.push(todo_of_row(rows.last()))
        } else {
            prev
        }
    }
}

pub open spec fn has_todo(rows: Seq<TodoRowView>, id: i32) -> bool {
    exists|k: int| 0 <= k < rows.len() && (#[trigger] rows[k]).id == id
}

/// Where the row with the given id stands; meaningful when there is one.
pub open spec fn todo_index(rows: Seq<TodoRowView>, id: i32) -> int {
    choose|k: int| 0 <= k < rows.len() && (#[trigger] rows[k]).id == id
}

pub open spec fn todo_rows_wf(rows: Seq<TodoRowView>, last: i32) -> bool {
    &&& 0 <= last
    &&& forall|k: int| 0 <= k < rows.len() ==> 1 <= (#[trigger] rows[k]).id <= last
    &&& forall|j: int, k: int|
        0 <= j < rows.len() && 0 <= k < rows.len() && j != k ==> (#[trigger] rows[j]).id != (
        #[trigger] rows[k]).id
}

/// In rows whose ids are unique, the row at a position holding `id` is the one
/// that `todo_index` names.
pub proof fn lemma_todo_index_unique(rows: Seq<TodoRowView>, last: i32, k: int)
    requires
        todo_rows_wf(rows, last),
        0 <= k < rows.len(),
    ensures
        has_todo(rows, rows[k].id),
        todo_index(rows, rows[k].id) == k,
{
    let id = rows[k].id;
    assert(has_todo(rows, id));
    let c = todo_index(rows, id);
    assert(rows[c].id == id);
}

fn todo_position(rows: &Vec<TodoTable>, id: i32) -> (r: Option<usize>)
    ensures
        r matches Some(k) ==> k < rows@.len() && rows@[k as int].id == id,
        r is None ==> forall|k: int| 0 <= k < rows@.len() ==> (#[trigger] rows@[k]).id != id,
{
    let mut i: usize = 0;
    while i < rows.len()
        invariant
            i <= rows@.len(),
            forall|k: int| 0 <= k < i ==> (#[trigger] rows@[k]).id != id,
        decreases rows@.len() - i,
    {
        if rows[i].id == id {
            return Some(i);
        }
        i = i + 1;
    }
    None
}

fn todo_from_row(row: &TodoTable) -> (r: Todo)
    ensures
        r@ == todo_of_row(row@),
{
    Todo {
        id: row.id,
        title: copy_text(&row.title),
        priority: Some(copy_text(&row.priority)),
        activity_group_id: row.activity_group_id,
        is_active: Some(row.is_active != 0),
        created_at: copy_text(&row.created_at),
        updated_at: copy_opt_text(&row.updated_at),
    }
}

fn flag_value(b: bool) -> (r: i8)
    ensures
        r == flag_column(b),
{
    if b {
        1
    } else {
        0
    }
}

} // verus!

verus! {

/// The todo items of one activity, or all of them, in the store's order.
pub fn get_todos(activity_group_id: Option<i32>, pool: &Store) -> (r: Result<Vec<Todo>, ServiceError>)
    ensures
        r matches Ok(v) && todo_views(v@) == listed_todos(pool.todo_rows(), activity_group_id),
{
    let mut out: Vec<Todo> = Vec::new();
    let mut i: usize = 0;
    while i < pool.todos.len()
        invariant
            i <= pool.todos@.len(),
            todo_views(out@) == listed_todos(pool.todo_rows().subrange(0, i as int), activity_group_id),
        decreases pool.todos@.len() - i,
    {
        let ghost prev = out@;
        let row = &pool.todos[i];
        let keep = match activity_group_id {
            Some(g) => row.activity_group_id == g,
            None => true,
        };
        if keep {
            out.push(todo_from_row(row));
        }
        proof {
            let rows = pool.todo_rows().subrange(0, i + 1);
            assert(rows.drop_last() =~= pool.todo_rows().subrange(0, i as int));
            assert(rows.last() == pool.todos@[i as int]@);
            if keep {
                assert(todo_views(out@) =~= todo_views(prev).push(todo_of_row(rows.last())));
            }
        }
        i = i + 1;
    }
    assert(pool.todo_rows().subrange(0, i as int) =~= pool.todo_rows());
    Ok(out)
}

pub fn get_todo_by_id(todo_id: i32, pool: &Store) -> (r: Result<Todo, ServiceError>)
    requires
        pool.wf(),
    ensures
        r is Ok <==> has_todo(pool.todo_rows(), todo_id),
        r matches Ok(t) ==> t@ == todo_of_row(pool.todo_rows()[todo_index(pool.todo_rows(), todo_id)]),
        r matches Err(e) ==> e == ServiceError::NotFound,
{
    match todo_position(&pool.todos, todo_id) {
        Some(k) => {
            proof {
                lemma_todo_index_unique(pool.todo_rows(), pool.last_todo(), k as int);
            }
            Ok(todo_from_row(&pool.todos[k]))
        },
        None => {
            assert(!has_todo(pool.todo_rows(), todo_id));
            Err(ServiceError::NotFound)
        },
    }
}

/// Inserts a todo item stamped with `now`, under the next id.
pub fn insert_todo(pool: &mut Store, form: &NewTodo, now: String) -> (r: Result<Todo, ServiceError>)
    requires
        old(pool).wf(),
    ensures
        final(pool).wf(),
        final(pool).activities_unchanged(old(pool)),
        r is Err <==> old(pool).last_todo() == i32::MAX,
        r matches Err(e) ==> e == ServiceError::IdsExhausted && final(pool).todo_rows() == old(pool).todo_rows()
            && final(pool).last_todo() == old(pool).last_todo(),
        r matches Ok(t) ==> {
            let row = new_todo_row((old(pool).last_todo() + 1) as i32, *form, now@);
            &&& t@ == todo_of_row(row)
            &&& final(pool).todo_rows() == old(pool).todo_rows().push(row)
            &&& final(pool).last_todo() == row.id
        },
{
    if pool.last_todo_id == i32::MAX {
        return Err(ServiceError::IdsExhausted);
    }
    let id = pool.last_todo_id + 1;
    let priority = match &form.priority {
        Some(p) => copy_text(p),
        None => default_as_very_high(),
    };
    let is_active = match form.is_active {
        Some(b) => b,
        None => default_as_true(),
    };
    let row = TodoTable {
        id,
        title: title_text(&form.title),
        priority,
        activity_group_id: form.activity_group_id,
        is_active: flag_value(is_active),
        created_at: copy_text(&now),
        updated_at: Some(now),
        deleted_at: None,
    };
    let out = todo_from_row(&row);
    let ghost before = pool.todos@;
    let ghost added = row@;
    pool.todos.push(row);
    pool.last_todo_id = id;
    proof {
        assert(todo_row_views(pool.todos@) =~= todo_row_views(before).push(added));
    }
    Ok(out)
}

/// Applies the given fields of `form` to the todo item with the given id, in
/// one step, and stamps it with `now`. Every given field is written together
/// with the others' current values, so no other change to the row can land
/// between them; the update time is refreshed even when no field is given.
pub fn update_todo_by_id(todo_id: i32, pool: &mut Store, form: &UpdateTodo, now: String) -> (r: Result<Todo, ServiceError>)
    requires
        old(pool).wf(),
    ensures
        final(pool).wf(),
        final(pool).activities_unchanged(old(pool)),
        final(pool).last_todo() == old(pool).last_todo(),
        r is Ok <==> has_todo(old(pool).todo_rows(), todo_id),
        r matches Err(e) ==> e == ServiceError::NotFound && final(pool).todo_rows() == old(pool).todo_rows(),
        r matches Ok(t) ==> {
            let rows = old(pool).todo_rows();
            let k = todo_index(rows, todo_id);
            let row = todo_updated(rows[k], *form, now@);
            &&& t@ == todo_of_row(row)
            &&& final(pool).todo_rows() == rows.update(k, row)
        },
{
    match todo_position(&pool.todos, todo_id) {
        Some(k) => {
            proof {
                lemma_todo_index_unique(pool.todo_rows(), pool.last_todo(), k as int);
            }
            let mut row = pool.todos[k].duplicate();
            match &form.title {
                Some(t) => {
                    row.title = copy_text(t);
                },
                None => {},
            }
            match form.activity_group_id {
                Some(g) => {
                    row.activity_group_id = g;
                },
                None => {},
            }
            match form.is_active {
                Some(b) => {
                    row.is_active = flag_value(b);
                },
                None => {},
            }
            match &form.priority {
                Some(p) => {
                    row.priority = copy_text(p);
                },
                None => {},
            }
            row.updated_at = Some(now);
            let out = todo_from_row(&row);
            let ghost before = pool.todos@;
            let ghost changed = row@;
            pool.todos.set(k, row);
            proof {
                assert(todo_row_views(pool.todos@) =~= todo_row_views(before).update(k as int, changed));
            }
            Ok(out)
        },
        None => {
            assert(!has_todo(pool.todo_rows(), todo_id));
            Err(ServiceError::NotFound)
        },
    }
}

/// Deletes the todo item with the given id, after checking that there is one.
pub fn delete_todo_by_id(todo_id: i32, pool: &mut Store) -> (r: Result<(), ServiceError>)
    requires
        old(pool).wf(),
    ensures
        final(pool).wf(),
        final(pool).activities_unchanged(old(pool)),
        final(pool).last_todo() == old(pool).last_todo(),
        r is Ok <==> has_todo(old(pool).todo_rows(), todo_id),
        r matches Err(e) ==> e == ServiceError::NotFound && final(pool).todo_rows() == old(pool).todo_rows(),
        r is Ok ==> final(pool).todo_rows() == old(pool).todo_rows().remove(
            todo_index(old(pool).todo_rows(), todo_id),
        ),
{
    match todo_position(&pool.todos, todo_id) {
        Some(k) => {
            proof {
                lemma_todo_index_unique(pool.todo_rows(), pool.last_todo(), k as int);
            }
            let ghost before = pool.todos@;
            let _removed = pool.todos.remove(k);
            proof {
                assert(todo_row_views(pool.todos@) =~= todo_row_views(before).remove(k as int));
            }
            Ok(())
        },
        None => {
            assert(!has_todo(pool.todo_rows(), todo_id));
            Err(ServiceError::NotFound)
        },
    }
}

} // verus!

verus! {

/// Creating a todo item and then fetching it by the id it was given shows
/// the row that was created, with its creation time.
pub proof fn lemma_created_todo_is_found(rows: Seq<TodoRowView>, last: i32, form: NewTodo, now: Seq<char>)
    requires
        todo_rows_wf(rows, last),
        last < i32::MAX,
    ensures
        ({
            let created = new_todo_row((last + 1) as i32, form, now);
            let next = rows.push(created);
            &&& has_todo(next, created.id)
            &&& todo_of_row(next[todo_index(next, created.id)]) == todo_of_row(created)
            &&& todo_of_row(created).title == form.title@
            &&& todo_of_row(created).activity_group_id == form.activity_group_id
            &&& todo_of_row(created).created_at == now
        }),
{
    let created = new_todo_row((last + 1) as i32, form, now);
    let next = rows.push(created);
    assert(todo_rows_wf(next, created.id));
    lemma_todo_index_unique(next, created.id, rows.len() as int);
}

/// A todo item created without a priority has priority `"very-high"`; one
/// created without a flag is active. Given ones are kept.
pub proof fn lemma_new_todo_defaults(id: i32, form: NewTodo, now: Seq<char>)
    ensures
        form.priority is None ==> todo_of_row(new_todo_row(id, form, now)).priority == Some("very-high"@),
        form.is_active is None ==> todo_of_row(new_todo_row(id, form, now)).is_active == Some(true),
        form.priority matches Some(p) ==> todo_of_row(new_todo_row(id, form, now)).priority == Some(p@),
        form.is_active matches Some(b) ==> todo_of_row(new_todo_row(id, form, now)).is_active == Some(b),
{
}

/// Once a todo item is deleted, no row holds its id: deleting it again fails
/// with not-found.
pub proof fn lemma_deleted_todo_is_gone(rows: Seq<TodoRowView>, last: i32, id: i32)
    requires
        todo_rows_wf(rows, last),
        has_todo(rows, id),
    ensures
        !has_todo(rows.remove(todo_index(rows, id)), id),
{
    let k = todo_index(rows, id);
    let rest = rows.remove(k);
    if has_todo(rest, id) {
        let j = choose|j: int| 0 <= j < rest.len() && (#[trigger] rest[j]).id == id;
        if j < k {
            assert(rows[j].id == id);
        } else {
            assert(rows[j + 1].id == id);
        }
    }
}

/// An update changes exactly the fields it gives and refreshes the update
/// time; every field it leaves out keeps its value, as do the id and the
/// creation time.
pub proof fn lemma_todo_update_fields(row: TodoRowView, form: UpdateTodo, now: Seq<char>)
    ensures
        ({
            let shown = todo_of_row(todo_updated(row, form, now));
            let before = todo_of_row(row);
            &&& shown.id == before.id
            &&& shown.created_at == before.created_at
            &&& shown.updated_at == Some(now)
            &&& shown.title == (if let Some(t) = form.title { t@ } else { before.title })
            &&& shown.activity_group_id == (if let Some(g) = form.activity_group_id { g } else { before.activity_group_id })
            &&& shown.is_active == (if form.is_active is Some { form.is_active } else { before.is_active })
            &&& shown.priority == (if let Some(p) = form.priority { Some(p@) } else { before.priority })
        }),
{
}

/// A listing filtered by an activity holds only that activity's todo items;
/// an unfiltered listing holds every row, in order.
pub proof fn lemma_listed_todos_filter(rows: Seq<TodoRowView>, activity_group_id: Option<i32>)
    ensures
        activity_group_id matches Some(g) ==> forall|i: int|
            0 <= i < listed_todos(rows, activity_group_id).len() ==> (#[trigger] listed_todos(rows, activity_group_id)[i]).activity_group_id == g,
        activity_group_id is None ==> listed_todos(rows, activity_group_id) == rows.map_values(|row: TodoRowView| todo_of_row(row)),
    decreases rows.len(),
{
    if rows.len() > 0 {
        lemma_listed_todos_filter(rows.drop_last(), activity_group_id);
        if activity_group_id is None {
            assert(listed_todos(rows, activity_group_id) =~= rows.map_values(|row: TodoRowView| todo_of_row(row)));
        }
    } else {
        if activity_group_id is None {
            assert(listed_todos(rows, activity_group_id) =~= rows.map_values(|row: TodoRowView| todo_of_row(row)));
        }
    }
}

} // verus!
