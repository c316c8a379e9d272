//! The board: every readable task of a scan, sorted into its lane.

use crate::task::{Column, Task, TaskView};
use vstd::prelude::*;

verus! {

/// One document of a scan of the store.
#[derive(Clone, Debug, PartialEq)]
pub enum Record {
    /// A document that reads as a task.
    Read(Task),
    /// A document that could not be read as a task.
    Unreadable,
}

impl View for Record {
    type V = Option<TaskView>;

    open spec fn view(&self) -> Option<TaskView> {
        match self {
            Record::Read(task) => Some(task@),
            Record::Unreadable => None,
        }
    }
}

impl DeepView for Record {
    type V = Option<TaskView>;

    open spec fn deep_view(&self) -> Option<TaskView> {
        self@
    }
}

/// The tasks of the board, lane by lane.
#[derive(Clone, Debug, PartialEq)]
pub struct TasksResponse {
    pub todo: Vec<Task>,
    pub active: Vec<Task>,
    pub completed: Vec<Task>,
}

/// A board as a value.
pub struct BoardView {
    pub todo: Seq<TaskView>,
    pub active: Seq<TaskView>,
    pub completed: Seq<TaskView>,
}

impl View for TasksResponse {
    type V = BoardView;

    open spec fn view(&self) -> BoardView {
        BoardView {
            todo: self.todo.deep_view(),
            active: self.active.deep_view(),
            completed: self.completed.deep_view(),
        }
    }
}

/// The tasks of a scan that could be read, in the order of the scan.
pub open spec fn readable(records: Seq<Option<TaskView>>) -> Seq<TaskView> {
    records.filter_map(|record: Option<TaskView>| record)
}

/// The test that a task passes when its column name refers to `column`.
pub open spec fn in_lane(column: Column) -> spec_fn(TaskView) -> bool {
    |task: TaskView| Column::of(task.column) == Some(column)
}

/// The tasks of one lane: those whose column name refers to it, in the
/// order in which `tasks` has them.
pub open spec fn lane(tasks: Seq<TaskView>, column: Column) -> Seq<TaskView> {
    tasks.filter(in_lane(column))
}

/// The board that shows `tasks`: each lane with its own tasks. A task whose
/// column name refers to no lane is on none of them.
pub open spec fn board_of(tasks: Seq<TaskView>) -> BoardView {
    BoardView {
        todo: lane(tasks, Column::Todo),
        active: lane(tasks, Column::Active),
        completed: lane(tasks, Column::Completed),
    }
}

/// The board after one more task: the task comes last in the lane that its
/// column name refers to, and the board stays as it is when the name refers
/// to none.
pub open spec fn placed(board: BoardView, task: TaskView) -> BoardView {
    match Column::of(task.column) {
        Some(Column::Todo) => BoardView { todo: board.todo.push(task), ..board },
        Some(Column::Active) => BoardView { active: board.active.push(task), ..board },
        Some(Column::Completed) => BoardView { completed: board.completed.push(task), ..board },
        None => board,
    }
}

/// The board after one more record of a scan: an unreadable record changes
/// nothing.
pub open spec fn recorded(board: BoardView, record: Option<TaskView>) -> BoardView {
    match record {
        Some(task) => placed(board, task),
        None => board,
    }
}

/// Showing one more task is placing it on the board of the others.
pub proof fn lemma_board_of_push(tasks: Seq<TaskView>, task: TaskView)
    ensures
        board_of(tasks.push(task)) == placed(board_of(tasks), task),
{
    reveal(Seq::filter);
    assert(tasks.push(task).drop_last() =~= tasks);
}

/// Reading one more record is recording it on the board of the others.
pub proof fn lemma_readable_push(records: Seq<Option<TaskView>>, record: Option<TaskView>)
    ensures
        board_of(readable(records.push(record))) == recorded(board_of(readable(records)), record),
{
    assert(records.push(record).drop_last() =~= records);
    match record {
        Some(task) => {
            assert(readable(records.push(record)) =~= readable(records).push(task));
            lemma_board_of_push(readable(records), task);
        },
        None => {},
    }
}

proof fn lemma_deep_view_push(before: Seq<Task>, after: Seq<Task>, task: Task)
    requires
        after == before.push(task),
    ensures
        Seq::new(after.len(), |i: int| after[i].deep_view()) == Seq::new(
            before.len(),
            |i: int| before[i].deep_view(),
        ).push(task@),
{
    assert(Seq::new(after.len(), |i: int| after[i].deep_view()) =~= Seq::new(
        before.len(),
        |i: int| before[i].deep_view(),
    ).push(task@));
}

impl TasksResponse {
    /// A board without tasks.
    pub fn new() -> (board: TasksResponse)
        ensures
            board@ == board_of(Seq::empty()),
    {
        let board = TasksResponse { todo: Vec::new(), active: Vec::new(), completed: Vec::new() };
        proof {
            reveal(Seq::filter);
            assert(board@.todo =~= Seq::empty());
            assert(board@.active =~= Seq::empty());
            assert(board@.completed =~= Seq::empty());
        }
        board
    }

    /// Puts `task` last in the lane that its column name refers to. A task
    /// whose column name refers to no lane is dropped.
    pub fn place(&mut self, task: Task)
        ensures
            final(self)@ == placed(old(self)@, task@),
    {
        match Column::recognize(task.column.as_str()) {
            Some(Column::Todo) => {
                self.todo.push(task);
                proof {
                    lemma_deep_view_push(old(self).todo@, self.todo@, task);
                }
            },
            Some(Column::Active) => {
                self.active.push(task);
                proof {
                    lemma_deep_view_push(old(self).active@, self.active@, task);
                }
            },
            Some(Column::Completed) => {
                self.completed.push(task);
                proof {
                    lemma_deep_view_push(old(self).completed@, self.completed@, task);
                }
            },
            None => {},
        }
    }
}

/// Sorts the readable tasks of a scan into their lanes, in the order of the
/// scan. Unreadable records are skipped.
pub fn group_tasks(records: Vec<Record>) -> (board: TasksResponse)
    ensures
        board@ == board_of(readable(records.deep_view())),
{
    let ghost all = records.deep_view();
    let mut board = TasksResponse::new();
    for record in iter: records
        invariant
            iter.seq().len() == all.len(),
            forall|k: int| 0 <= k < all.len() ==> (#[trigger] iter.seq()[k])@ == all[k],
            board@ == board_of(readable(all.take(iter.index()))),
    {
        proof {
            let k = iter.index();
            assert(all.take(k + 1) =~= all.take(k).push(all[k]));
            lemma_readable_push(all.take(k), all[k]);
        }
        match record {
            Record::Read(task) => {
                board.place(task);
            },
            Record::Unreadable => {},
        }
    }
    proof {
        assert(all.take(all.len() as int) =~= all);
    }
    board
}

/// A lane holds exactly the tasks whose column name refers to it: nothing
/// that `tasks` lacks, and nothing that belongs to another lane or to none.
pub proof fn lemma_lane_members(tasks: Seq<TaskView>, column: Column, task: TaskView)
    ensures
        lane(tasks, column).contains(task) <==> tasks.contains(task) && Column::of(task.column)
            == Some(column),
{
    let kept = lane(tasks, column);
    if kept.contains(task) {
        let i = choose|i: int| 0 <= i < kept.len() && kept[i] == task;
        tasks.lemma_filter_pred(in_lane(column), i);
        tasks.lemma_filter_contains_rev(in_lane(column), task);
    }
    if tasks.contains(task) && Column::of(task.column) == Some(column) {
        let i = choose|i: int| 0 <= i < tasks.len() && tasks[i] == task;
        tasks.lemma_filter_contains(in_lane(column), i);
    }
}

/// The readable tasks of a scan are exactly the tasks of its records that
/// could be read.
pub proof fn lemma_readable_members(records: Seq<Option<TaskView>>, task: TaskView)
    ensures
        readable(records).contains(task) <==> records.contains(Some(task)),
    decreases records.len(),
{
    if records.len() > 0 {
        let rest = records.drop_last();
        let last = records.last();
        lemma_readable_members(rest, task);
        assert(rest.push(last) =~= records);
        let shown = readable(rest);
        if rest.contains(Some(task)) {
            let i = choose|i: int| 0 <= i < rest.len() && rest[i] == Some(task);
            assert(records[i] == Some(task));
        }
        if records.contains(Some(task)) && last != Some(task) {
            let i = choose|i: int| 0 <= i < records.len() && records[i] == Some(task);
            assert(rest[i] == Some(task));
        }
        match last {
            Some(other) => {
                assert(readable(records) =~= shown.push(other));
                if shown.contains(task) {
                    let i = choose|i: int| 0 <= i < shown.len() && shown[i] == task;
                    assert(shown.push(other)[i] == task);
                }
                if other == task {
                    assert(shown.push(other)[shown.len() as int] == task);
                    assert(records[records.len() - 1] == Some(task));
                }
                if readable(records).contains(task) && other != task {
                    let i = choose|i: int|
                        0 <= i < readable(records).len() && readable(records)[i] == task;
                    assert(shown[i] == task);
                }
            },
            None => {},
        }
    }
}

/// A task whose column name refers to no lane is on no lane of the board,
/// whatever else the scan holds.
pub proof fn lemma_unrecognized_column_is_unlisted(
    records: Seq<Option<TaskView>>,
    task: TaskView,
)
    requires
        Column::of(task.column) is None,
    ensures
        !board_of(readable(records)).todo.contains(task),
        !board_of(readable(records)).active.contains(task),
        !board_of(readable(records)).completed.contains(task),
{
    lemma_lane_members(readable(records), Column::Todo, task);
    lemma_lane_members(readable(records), Column::Active, task);
    lemma_lane_members(readable(records), Column::Completed, task);
}

/// A task is on the lane that its column name refers to exactly when the
/// scan holds it, and it is never on another lane.
pub proof fn lemma_listed_in_own_lane_only(
    records: Seq<Option<TaskView>>,
    task: TaskView,
    column: Column,
)
    requires
        Column::of(task.column) == Some(column),
    ensures
        lane(readable(records), column).contains(task) <==> records.contains(Some(task)),
        forall|other: Column|
            other != column ==> !(#[trigger] lane(readable(records), other)).contains(task),
{
    lemma_readable_members(records, task);
    lemma_lane_members(readable(records), column, task);
    assert forall|other: Column| other != column implies !(#[trigger] lane(
        readable(records),
        other,
    )).contains(task) by {
        lemma_lane_members(readable(records), other, task);
    }
}

/// A scan that lacks a task shows it on no lane.
pub proof fn lemma_absent_task_is_unlisted(records: Seq<Option<TaskView>>, task: TaskView)
    requires
        !records.contains(Some(task)),
    ensures
        !board_of(readable(records)).todo.contains(task),
        !board_of(readable(records)).active.contains(task),
        !board_of(readable(records)).completed.contains(task),
{
    lemma_readable_members(records, task);
    lemma_lane_members(readable(records), Column::Todo, task);
    lemma_lane_members(readable(records), Column::Active, task);
    lemma_lane_members(readable(records), Column::Completed, task);
}

} // verus!
