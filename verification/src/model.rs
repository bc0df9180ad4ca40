//! Tasks and their classification into review buckets.
//!
//! A task carries its scheduling state and a review date written as
//! `YYYY-MM-DD`. `classify` partitions a snapshot of tasks, relative to one
//! fixed date, into three buckets: `delay` (overdue: even the grace window
//! has passed), `today` (the review date has passed but the grace window
//! has not), and `week` (the review date falls strictly within the next
//! seven days). All comparisons are at day granularity and each bucket
//! keeps the input order.

use crate::date::{parse_date, parse_date_spec, Date};
use vstd::prelude::*;

verus! {

/// One reviewable task, as the store keeps it. `review_date` is a
/// `YYYY-MM-DD` string; `duration` is the grace window in days during
/// which the task still counts as due rather than overdue; `efactor` is
/// the easiness factor in hundredths; `deleted` is 0 for an active task
/// and a timestamp after soft deletion (classification never reads it).
#[derive(Debug)]
pub struct Task {
    pub id: i64,
    pub task: String,
    pub last_date: String,
    pub review_date: String,
    pub duration: i64,
    pub repetitions: i64,
    pub efactor: u64,
    pub tip: String,
    pub deleted: i64,
}

/// The value of a task: its fields as mathematical values.
pub struct TaskView {
    pub id: int,
    pub task: Seq<char>,
    pub last_date: Seq<char>,
    pub review_date: Seq<char>,
    pub duration: int,
    pub repetitions: int,
    pub efactor: int,
    pub tip: Seq<char>,
    pub deleted: int,
}

impl View for Task {
    type V = TaskView;

    open spec fn view(&self) -> TaskView {
        TaskView {
            id: self.id as int,
            task: self.task@,
            last_date: self.last_date@,
            review_date: self.review_date@,
            duration: self.duration as int,
            repetitions: self.repetitions as int,
            efactor: self.efactor as int,
            tip: self.tip@,
            deleted: self.deleted as int,
        }
    }
}

impl Clone for Task {
    /// A clone has the same value.
    fn clone(&self) -> (r: Self)
        ensures
            r@ == self@,
    {
        Task {
            id: self.id,
            task: self.task.clone(),
            last_date: self.last_date.clone(),
            review_date: self.review_date.clone(),
            duration: self.duration,
            repetitions: self.repetitions,
            efactor: self.efactor,
            tip: self.tip.clone(),
            deleted: self.deleted,
        }
    }
}

/// The values of a task sequence.
pub open spec fn task_views(ts: Seq<Task>) -> Seq<TaskView> {
    ts.map_values(|t: Task| t@)
}

/// The task's review date is a well-formed calendar date.
pub open spec fn date_ok(tv: TaskView) -> bool {
    parse_date_spec(tv.review_date) is Some
}

/// Day index of the task's review date (meaningful only under `date_ok`).
pub open spec fn review_day(tv: TaskView) -> int {
    match parse_date_spec(tv.review_date) {
        Some(d) => d.day_number_spec(),
        None => 0,
    }
}

/// Day index after which the task is overdue: the review day plus the
/// grace window.
pub open spec fn due_day(tv: TaskView) -> int {
    review_day(tv) + tv.duration
}

/// Even the grace window has passed.
pub open spec fn is_overdue(tv: TaskView, now_day: int) -> bool {
    date_ok(tv) && due_day(tv) < now_day
}

/// Not overdue, and the review date falls strictly between today and a
/// week from today.
pub open spec fn is_due_this_week(tv: TaskView, now_day: int) -> bool {
    date_ok(tv) && !(due_day(tv) < now_day) && review_day(tv) > now_day && review_day(tv) < now_day
        + 7
}

/// Not overdue, and the review date has passed while the grace window has
/// not: the task is still due today.
pub open spec fn is_due_today(tv: TaskView, now_day: int) -> bool {
    date_ok(tv) && !(due_day(tv) < now_day) && due_day(tv) > now_day && review_day(tv) < now_day
}

/// The three buckets of `classify`, in the store's own field names:
/// `delay` holds the overdue tasks, `today` the tasks still inside their
/// grace window, `week` the tasks due within the next seven days.
#[derive(Debug)]
pub struct FetchTask {
    pub delay: Vec<Task>,
    pub today: Vec<Task>,
    pub week: Vec<Task>,
}

impl Default for FetchTask {
    /// Three empty buckets.
    fn default() -> (r: Self)
        ensures
            r.delay@.len() == 0,
            r.today@.len() == 0,
            r.week@.len() == 0,
    {
        FetchTask { delay: Vec::new(), today: Vec::new(), week: Vec::new() }
    }
}

/// The buckets hold exactly the tasks that their predicates pick out of
/// the snapshot `tvs`, in input order.
pub open spec fn buckets_match(tvs: Seq<TaskView>, now_day: int, f: FetchTask) -> bool {
    &&& task_views(f.delay@) == tvs.filter(|tv: TaskView| is_overdue(tv, now_day))
    &&& task_views(f.week@) == tvs.filter(|tv: TaskView| is_due_this_week(tv, now_day))
    &&& task_views(f.today@) == tvs.filter(|tv: TaskView| is_due_today(tv, now_day))
}

/// `k` is the position of the first task whose review date does not parse.
pub open spec fn first_unparsable(tvs: Seq<TaskView>, k: int) -> bool {
    &&& 0 <= k < tvs.len()
    &&& !date_ok(tvs[k])
    &&& forall|j: int| 0 <= j < k ==> date_ok(#[trigger] tvs[j])
}

/// Error of `classify`: the review date of task `id` is not a valid
/// `YYYY-MM-DD` date.
#[derive(Clone, Copy, PartialEq, Eq, Structural, Debug)]
pub struct DateParseError {
    pub id: i64,
}

/// Mapping to values commutes with appending a task.
proof fn lemma_task_views_push(s: Seq<Task>, t: Task)
    ensures
        task_views(s.push(t)) == task_views(s).push(t@),
{
    assert(task_views(s.push(t)) =~= task_views(s).push(t@));
}

/// Classification of two equal snapshots agrees: any two results that
/// satisfy `buckets_match` for the same task values and the same date hold
/// the same task values in every bucket. With `classify`'s postcondition
/// this says that classification is deterministic and idempotent: bucket
/// membership depends only on the task values, the given date and the
/// input order, so classifying the same list twice yields equal buckets.
pub proof fn lemma_classify_deterministic(
    tvs: Seq<TaskView>,
    now_day: int,
    f1: FetchTask,
    f2: FetchTask,
)
    requires
        buckets_match(tvs, now_day, f1),
        buckets_match(tvs, now_day, f2),
    ensures
        task_views(f1.delay@) == task_views(f2.delay@),
        task_views(f1.week@) == task_views(f2.week@),
        task_views(f1.today@) == task_views(f2.today@),
{
}

/// An overdue task lies in no other bucket: the `delay` predicate excludes
/// the `week` and `today` predicates.
pub proof fn lemma_overdue_excludes_other_buckets(tv: TaskView, now_day: int)
    ensures
        is_overdue(tv, now_day) ==> !is_due_this_week(tv, now_day) && !is_due_today(tv, now_day),
{
}

/// Partition a snapshot of tasks into the three buckets, relative to the
/// date `now`.
///
/// Succeeds exactly when every task's `review_date` is a valid
/// `YYYY-MM-DD` date; otherwise reports the id of the first task in input
/// order whose date is not, and classifies nothing. On success each bucket
/// holds, in input order, exactly the tasks its predicate picks out:
/// overdue tasks in `delay`, tasks inside their grace window in `today`,
/// tasks whose review date falls strictly within the next seven days in
/// `week`. An overdue task appears only in `delay`; a task due later than
/// a week from `now` appears nowhere.
pub fn classify(tasks: &Vec<Task>, now: &Date) -> (r: Result<FetchTask, DateParseError>)
    ensures
        r is Ok <==> (forall|k: int|
            0 <= k < tasks@.len() ==> date_ok(#[trigger] task_views(tasks@)[k])),
        r matches Ok(f) ==> buckets_match(task_views(tasks@), now.day_number_spec(), f),
        r matches Err(e) ==> exists|k: int|
            first_unparsable(task_views(tasks@), k) && e.id == task_views(tasks@)[k].id,
{
    let ghost tvs = task_views(tasks@);
    let ghost nd = now.day_number_spec();
    let now_day: i128 = now.day_number() as i128;
    let week_cutoff: i128 = now_day + 7;
    let mut fetch = FetchTask::default();
    proof {
        reveal(Seq::filter);
        assert(task_views(fetch.delay@) =~= tvs.take(0));
        assert(task_views(fetch.week@) =~= tvs.take(0));
        assert(task_views(fetch.today@) =~= tvs.take(0));
    }
    let mut idx: usize = 0;
    while idx < tasks.len()
        invariant
            idx <= tasks@.len(),
            tvs == task_views(tasks@),
            tvs.len() == tasks@.len(),
            now_day == nd,
            week_cutoff == nd + 7,
            forall|j: int| 0 <= j < idx ==> date_ok(#[trigger] tvs[j]),
            buckets_match(tvs.take(idx as int), nd, fetch),
        decreases tasks@.len() - idx,
    {
        let t = &tasks[idx];
        let parsed = parse_date(t.review_date.as_str());
        match parsed {
            None => {
                proof {
                    assert(!date_ok(tvs[idx as int]));
                    assert(first_unparsable(tvs, idx as int));
                }
                return Err(DateParseError { id: t.id });
            },
            Some(d) => {
                let rday: i128 = d.day_number() as i128;
                let due: i128 = rday + (t.duration as i128);
                proof {
                    assert(tvs.take(idx + 1).drop_last() =~= tvs.take(idx as int));
                    assert(tvs.take(idx + 1).last() == tvs[idx as int]);
                }
                if due < now_day {
                    let tc = t.clone();
                    proof {
                        lemma_task_views_push(fetch.delay@, tc);
                    }
                    fetch.delay.push(tc);
                } else {
                    if rday > now_day && rday < week_cutoff {
                        let tc = t.clone();
                        proof {
                            lemma_task_views_push(fetch.week@, tc);
                        }
                        fetch.week.push(tc);
                    }
                    if due > now_day && rday < now_day {
                        let tc = t.clone();
                        proof {
                            lemma_task_views_push(fetch.today@, tc);
                        }
                        fetch.today.push(tc);
                    }
                }
                proof {
                    reveal(Seq::filter);
                    assert(buckets_match(tvs.take(idx + 1), nd, fetch));
                }
                idx = idx + 1;
            },
        }
    }
    proof {
        assert(tvs.take(tasks@.len() as int) =~= tvs);
    }
    Ok(fetch)
}

/// Status of a store or command reply.
#[derive(Clone, Copy, PartialEq, Eq, Structural, Debug)]
pub enum ResponseStatus {
    Success,
    Failed,
}

/// A reply handed back to the caller of a command: a status, a message,
/// and the payload when there is one.
#[derive(Debug)]
pub struct Response<T> {
    pub status: ResponseStatus,
    pub msg: String,
    pub info: Option<T>,
}

/// Wrap a command's outcome as a reply. Never fails; the `Result` is the
/// shape the command layer expects.
pub fn wrap_response<T>(status: ResponseStatus, msg: String, info: Option<T>) -> (r: Result<
    Response<T>,
    (),
>)
    ensures
        r matches Ok(resp) && resp.status == status && resp.msg == msg && resp.info == info,
{
    Ok(Response { status, msg, info })
}

} // verus!
