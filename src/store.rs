use vstd::prelude::*;
use crate::activity::{Activity, ActivityView, activity_rows_wf, activity_views};
use crate::todo::{TodoTable, TodoRowView, todo_rows_wf, todo_row_views};

verus! {

/// Why a store operation did not succeed.
#[derive(Clone, Copy, Debug, PartialEq, Eq, Structural)]
pub enum ServiceError {
    /// No row has the requested id.
    NotFound,
    /// Every id an auto-increment column can hold has been handed out.
    IdsExhausted,
}

/// The two tables: activities and todo items, each with the last id it gave out.
pub struct Store {
    pub(crate) activities: Vec<Activity>,
    pub(crate) todos: Vec<TodoTable>,
    pub(crate) last_activity_id: i32,
    pub(crate) last_todo_id: i32,
}

impl Store {
    /// The activity rows, in the order the store keeps them.
    pub open(crate) spec fn activity_rows(&self) -> Seq<ActivityView> {
        activity_views(self.activities@)
    }

    /// The todo rows, in the order the store keeps them.
    pub open(crate) spec fn todo_rows(&self) -> Seq<TodoRowView> {
        todo_row_views(self.todos@)
    }

    pub open(crate) spec fn last_activity(&self) -> i32 {
        self.last_activity_id
    }

    pub open(crate) spec fn last_todo(&self) -> i32 {
        self.last_todo_id
    }

    /// The todo table is as it was in `other`.
    pub open spec fn todos_unchanged(&self, other: &Store) -> bool {
        self.todo_rows() == other.todo_rows() && self.last_todo() == other.last_todo()
    }

    /// The activity table is as it was in `other`.
    pub open spec fn activities_unchanged(&self, other: &Store) -> bool {
        self.activity_rows() == other.activity_rows() && self.last_activity() == other.last_activity()
    }

    /// Ids are unique in each table and none exceeds the last one given out.
    pub open spec fn wf(&self) -> bool {
        &&& activity_rows_wf(self.activity_rows(), self.last_activity())
        &&& todo_rows_wf(self.todo_rows(), self.last_todo())
    }

    pub fn new() -> (s: Store)
        ensures
            s.wf(),
            s.activity_rows().len() == 0,
            s.todo_rows().len() == 0,
            s.last_activity() == 0,
            s.last_todo() == 0,
    {
        Store { activities: Vec::new(), todos: Vec::new(), last_activity_id: 0, last_todo_id: 0 }
    }
}

} // verus!
