use vstd::prelude::*;
use crate::field::{TitleField, copy_text, copy_opt_text, opt_view, title_text};
use crate::store::{Store, ServiceError};

verus! {

/// An activity as the service hands it out.
pub struct Activity {
    pub id: i32,
    pub title: String,
    pub email: Option<String>,
    pub created_at: String,
    pub updated_at: Option<String>,
}

/// The mathematical value of an [`Activity`].
pub struct ActivityView {
    pub id: i32,
    pub title: Seq<char>,
    pub email: Option<Seq<char>>,
    pub created_at: Seq<char>,
    pub updated_at: Option<Seq<char>>,
}

impl View for Activity {
    type V = ActivityView;

    open spec fn view(&self) -> ActivityView {
        ActivityView {
            id: self.id,
            title: self.title@,
            email: opt_view(self.email),
            created_at: self.created_at@,
            updated_at: opt_view(self.updated_at),
        }
    }
}

impl Activity {
    fn duplicate(&self) -> (r: Activity)
        ensures
            r@ == self@,
    {
        Activity {
            id: self.id,
            title: copy_text(&self.title),
            email: copy_opt_text(&self.email),
            created_at: copy_text(&self.created_at),
            updated_at: copy_opt_text(&self.updated_at),
        }
    }
}

/// What a new activity is made of.
pub struct NewActivity {
    pub title: TitleField,
    pub email: Option<String>,
}

/// What an update of an activity sets.
pub struct UpdateActivity {
    pub title: TitleField,
    pub email: Option<String>,
}

/// The values of a sequence of activities.
pub open spec fn activity_views(s: Seq<Activity>) -> Seq<ActivityView> {
    s.map_values(|a: Activity| a@)
}

pub open spec fn has_activity(rows: Seq<ActivityView>, id: i32) -> bool {
    exists|k: int| 0 <= k < rows.len() && (#[trigger] rows[k]).id == id
}

/// Where the row with the given id stands; meaningful when there is one.
pub open spec fn activity_index(rows: Seq<ActivityView>, id: i32) -> int {
    choose|k: int| 0 <= k < rows.len() && (#[trigger] rows[k]).id == id
}

pub open spec fn activity_rows_wf(rows: Seq<ActivityView>, last: i32) -> bool {
    &&& 0 <= last
    &&& forall|k: int| 0 <= k < rows.len() ==> 1 <= (#[trigger] rows[k]).id <= last
    &&& forall|j: int, k: int|
        0 <= j < rows.len() && 0 <= k < rows.len() && j != k ==> (#[trigger] rows[j]).id != (
        #[trigger] rows[k]).id
}

/// The row that an update leaves: the title always replaced, the email only
/// when one is given, and the update time set to `now`.
pub open spec fn activity_updated(
    row: ActivityView,
    title: Seq<char>,
    email: Option<Seq<char>>,
    now: Seq<char>,
) -> ActivityView {
    ActivityView {
        title: title,
        email: if email is Some { email } else { row.email },
        updated_at: Some(now),
        ..row
    }
}

/// The row that an insert adds.
pub open spec fn new_activity_row(id: i32, form: NewActivity, now: Seq<char>) -> ActivityView {
    ActivityView {
        id: id,
        title: form.title@,
        email: opt_view(form.email),
        created_at: now,
        updated_at: Some(now),
    }
}

/// In rows whose ids are unique, the row at a position holding `id` is the one
/// that `activity_index` names.
pub proof fn lemma_activity_index_unique(rows: Seq<ActivityView>, last: i32, k: int)
    requires
        activity_rows_wf(rows, last),
        0 <= k < rows.len(),
    ensures
        has_activity(rows, rows[k].id),
        activity_index(rows, rows[k].id) == k,
{
    let id = rows[k].id;
    assert(has_activity(rows, id));
    let c = activity_index(rows, id);
    assert(rows[c].id == id);
}

fn activity_position(rows: &Vec<Activity>, id: i32) -> (r: Option<usize>)
    ensures
        r matches Some(k) ==> k < rows@.len() && rows@[k as int].id == id,
        r is None ==> forall|k: int| 0 <= k < rows@.len() ==> (#[trigger] rows@[k]).id != id,
{
    let mut i: usize = 0;
    while i < rows.len()
        invariant
            i <= rows@.len(),
            forall|k: int| 0 <= k < i ==> (#[trigger] rows@[k]).id != id,
        decreases rows@.len() - i,
    {
        if rows[i].id == id {
            return Some(i);
        }
        i = i + 1;
    }
    None
}

/// Every activity, in the order the store keeps them.
pub fn get_activities(pool: &Store) -> (r: Result<Vec<Activity>, ServiceError>)
    ensures
        r matches Ok(v) && activity_views(v@) == pool.activity_rows(),
{
    let mut out: Vec<Activity> = Vec::new();
    let mut i: usize = 0;
    while i < pool.activities.len()
        invariant
            i <= pool.activities@.len(),
            out@.len() == i,
            activity_views(out@) == pool.activity_rows().subrange(0, i as int),
        decreases pool.activities@.len() - i,
    {
        let a = pool.activities[i].duplicate();
        let ghost prev = out@;
        out.push(a);
        proof {
            assert(activity_views(prev) =~= pool.activity_rows().subrange(0, i as int));
            assert(out@ == prev.push(a));
            assert(activity_views(out@) =~= pool.activity_rows().subrange(0, i + 1));
        }
        i = i + 1;
    }
    assert(pool.activity_rows().subrange(0, i as int) =~= pool.activity_rows());
    Ok(out)
}

pub fn get_activity_by_id(activity_id: i32, pool: &Store) -> (r: Result<Activity, ServiceError>)
    requires
        pool.wf(),
    ensures
        r is Ok <==> has_activity(pool.activity_rows(), activity_id),
        r matches Ok(a) ==> a@ == pool.activity_rows()[activity_index(pool.activity_rows(), activity_id)],
        r matches Err(e) ==> e == ServiceError::NotFound,
{
    match activity_position(&pool.activities, activity_id) {
        Some(k) => {
            proof {
                lemma_activity_index_unique(pool.activity_rows(), pool.last_activity(), k as int);
            }
            Ok(pool.activities[k].duplicate())
        },
        None => {
            assert(!has_activity(pool.activity_rows(), activity_id));
            Err(ServiceError::NotFound)
        },
    }
}

} // verus!

verus! {

/// Inserts an activity stamped with `now`, under the next id.
pub fn insert_activity(pool: &mut Store, form: &NewActivity, now: String) -> (r: Result<Activity, ServiceError>)
    requires
        old(pool).wf(),
    ensures
        final(pool).wf(),
        final(pool).todos_unchanged(old(pool)),
        r is Err <==> old(pool).last_activity() == i32::MAX,
        r matches Err(e) ==> e == ServiceError::IdsExhausted && final(pool).activity_rows() == old(pool).activity_rows()
            && final(pool).last_activity() == old(pool).last_activity(),
        r matches Ok(a) ==> {
            &&& a.id == old(pool).last_activity() + 1
            &&& a@ == new_activity_row(a.id, *form, now@)
            &&& final(pool).activity_rows() == old(pool).activity_rows().push(a@)
            &&& final(pool).last_activity() == a.id
        },
{
    if pool.last_activity_id == i32::MAX {
        return Err(ServiceError::IdsExhausted);
    }
    let id = pool.last_activity_id + 1;
    let row = Activity {
        id,
        title: title_text(&form.title),
        email: copy_opt_text(&form.email),
        created_at: copy_text(&now),
        updated_at: Some(now),
    };
    let out = row.duplicate();
    let ghost before = pool.activities@;
    pool.activities.push(row);
    pool.last_activity_id = id;
    proof {
        assert(activity_views(pool.activities@) =~= activity_views(before).push(out@));
    }
    Ok(out)
}

/// Sets the title, and the email when one is given, of the activity with
/// the given id, and stamps it with `now`.
pub fn update_activity_by_id(activity_id: i32, pool: &mut Store, form: &UpdateActivity, now: String) -> (r: Result<Activity, ServiceError>)
    requires
        old(pool).wf(),
    ensures
        final(pool).wf(),
        final(pool).todos_unchanged(old(pool)),
        final(pool).last_activity() == old(pool).last_activity(),
        r is Ok <==> has_activity(old(pool).activity_rows(), activity_id),
        r matches Err(e) ==> e == ServiceError::NotFound && final(pool).activity_rows() == old(pool).activity_rows(),
        r matches Ok(a) ==> {
            let rows = old(pool).activity_rows();
            let k = activity_index(rows, activity_id);
            &&& a@ == activity_updated(rows[k], form.title@, opt_view(form.email), now@)
            &&& final(pool).activity_rows() == rows.update(k, a@)
        },
{
    match activity_position(&pool.activities, activity_id) {
        Some(k) => {
            proof {
                lemma_activity_index_unique(pool.activity_rows(), pool.last_activity(), k as int);
            }
            let mut row = pool.activities[k].duplicate();
            row.title = title_text(&form.title);
            match &form.email {
                Some(e) => {
                    row.email = Some(copy_text(e));
                },
                None => {},
            }
            row.updated_at = Some(now);
            let out = row.duplicate();
            let ghost before = pool.activities@;
            pool.activities.set(k, row);
            proof {
                assert(activity_views(pool.activities@) =~= activity_views(before).update(k as int, out@));
            }
            Ok(out)
        },
        None => {
            assert(!has_activity(pool.activity_rows(), activity_id));
            Err(ServiceError::NotFound)
        },
    }
}

/// Deletes the activity with the given id, after checking that there is one.
pub fn delete_activity_by_id(activity_id: i32, pool: &mut Store) -> (r: Result<(), ServiceError>)
    requires
        old(pool).wf(),
    ensures
        final(pool).wf(),
        final(pool).todos_unchanged(old(pool)),
        final(pool).last_activity() == old(pool).last_activity(),
        r is Ok <==> has_activity(old(pool).activity_rows(), activity_id),
        r matches Err(e) ==> e == ServiceError::NotFound && final(pool).activity_rows() == old(pool).activity_rows(),
        r is Ok ==> final(pool).activity_rows() == old(pool).activity_rows().remove(
            activity_index(old(pool).activity_rows(), activity_id),
        ),
{
    match activity_position(&pool.activities, activity_id) {
        Some(k) => {
            proof {
                lemma_activity_index_unique(pool.activity_rows(), pool.last_activity(), k as int);
            }
            let ghost before = pool.activities@;
            let _removed = pool.activities.remove(k);
            proof {
                assert(activity_views(pool.activities@) =~= activity_views(before).remove(k as int));
            }
            Ok(())
        },
        None => {
            assert(!has_activity(pool.activity_rows(), activity_id));
            Err(ServiceError::NotFound)
        },
    }
}

/// Creating an activity and then fetching it by the id it was given finds
/// exactly the row that was created.
pub proof fn lemma_created_activity_is_found(rows: Seq<ActivityView>, last: i32, created: ActivityView)
    requires
        activity_rows_wf(rows, last),
        last < i32::MAX,
        created.id == last + 1,
    ensures
        has_activity(rows.push(created), created.id),
        rows.push(created)[activity_index(rows.push(created), created.id)] == created,
{
    let next = rows.push(created);
    assert(activity_rows_wf(next, created.id));
    lemma_activity_index_unique(next, created.id, rows.len() as int);
}

/// Once an activity is deleted, no row holds its id: deleting it again fails
/// with not-found.
pub proof fn lemma_deleted_activity_is_gone(rows: Seq<ActivityView>, last: i32, id: i32)
    requires
        activity_rows_wf(rows, last),
        has_activity(rows, id),
    ensures
        !has_activity(rows.remove(activity_index(rows, id)), id),
{
    let k = activity_index(rows, id);
    let rest = rows.remove(k);
    if has_activity(rest, id) {
        let j = choose|j: int| 0 <= j < rest.len() && (#[trigger] rest[j]).id == id;
        if j < k {
            assert(rows[j].id == id);
        } else {
            assert(rows[j + 1].id == id);
        }
    }
}

/// An update that gives only a title keeps the email; one that gives both
/// sets both. Either way the update time is refreshed.
pub proof fn lemma_activity_update_fields(row: ActivityView, title: Seq<char>, email: Option<Seq<char>>, now: Seq<char>)
    ensures
        activity_updated(row, title, email, now).title == title,
        email is None ==> activity_updated(row, title, email, now).email == row.email,
        email is Some ==> activity_updated(row, title, email, now).email == email,
        activity_updated(row, title, email, now).id == row.id,
        activity_updated(row, title, email, now).created_at == row.created_at,
        activity_updated(row, title, email, now).updated_at == Some(now),
{
}

} // verus!
