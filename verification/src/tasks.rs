//! The task executor: cancellable background runs of user scripts.
//!
//! A task is one invocation of a named script against an instance. The
//! executor allocates process-unique task ids, tracks which tasks are
//! still running, and records a terminal exit status exactly once per
//! task. The script itself runs in the sandboxed runtime outside the
//! library; the runtime calls [`MacroExecutor::checkpoint`] at every
//! cooperative point (typically while the script blocks on an event or a
//! command), so an abort requested at any moment — including right after
//! spawn, before the script took its first step — takes effect at the
//! next checkpoint and never later than the task's completion. The
//! executor never touches the instances or their command channels: a task
//! ending, failing or being aborted leaves every instance operation as
//! usable as before.

use vstd::prelude::*;

use crate::errors::{Error, ErrorKind};
use crate::events::{Event, EventInner, InstanceEventKind};
use crate::players::MinecraftJavaPlayer;

verus! {

/// One task: its process-unique id, the script's name, and when it was
/// spawned.
#[derive(Clone, Debug)]
pub struct TaskEntry {
    pub pid: i64,
    pub name: String,
    pub creation_time: i64,
}

/// How a task ended, with the completion time.
#[derive(Clone, Copy, Debug, PartialEq, Eq, Structural)]
pub enum MacroExitStatus {
    Success { time: i64 },
    Failure { time: i64 },
    Aborted { time: i64 },
}

impl MacroExitStatus {
    /// When the task completed.
    pub fn time(&self) -> (r: i64)
        ensures
            r == (match *self {
                MacroExitStatus::Success { time } => time,
                MacroExitStatus::Failure { time } => time,
                MacroExitStatus::Aborted { time } => time,
            }),
    {
        match self {
            MacroExitStatus::Success { time } => *time,
            MacroExitStatus::Failure { time } => *time,
            MacroExitStatus::Aborted { time } => *time,
        }
    }
}

/// A completed task and how it ended.
#[derive(Clone, Debug)]
pub struct HistoryEntry {
    pub task: TaskEntry,
    pub exit_status: MacroExitStatus,
}

/// The executor's record of one task.
pub struct TaskRecord {
    pub entry: TaskEntry,
    pub abort_requested: bool,
    pub exit: Option<MacroExitStatus>,
}

/// The first task with this id.
pub open spec fn find_task(ts: Seq<TaskRecord>, pid: i64) -> Option<int>
    decreases ts.len(),
{
    if ts.len() == 0 {
        None
    } else if ts[0].entry.pid == pid {
        Some(0)
    } else {
        match find_task(ts.drop_first(), pid) {
            Some(i) => Some(i + 1),
            None => None,
        }
    }
}

/// The status a task table reports for an id: `None` for an unknown id,
/// `Some(None)` while running, `Some(Some(status))` once completed.
pub open spec fn task_status(ts: Seq<TaskRecord>, pid: i64) -> Option<Option<MacroExitStatus>> {
    match find_task(ts, pid) {
        None => None,
        Some(i) => Some(ts[i].exit),
    }
}

/// What a successful abort request does to the task table: the one task
/// is marked, a completed task stays as it is, and nothing else moves.
pub open spec fn abort_effect(pre: Seq<TaskRecord>, post: Seq<TaskRecord>, pid: i64) -> bool {
    match find_task(pre, pid) {
        None => false,
        Some(i) => {
            &&& post.len() == pre.len()
            &&& forall|k: int| 0 <= k < pre.len() && k != i ==> post[k] == pre[k]
            &&& (pre[i].exit is Some ==> post[i] == pre[i])
            &&& (pre[i].exit is None ==> post[i] == (TaskRecord { abort_requested: true, ..pre[i] }))
        },
    }
}

/// What one cooperative checkpoint does: a running task whose abort was
/// requested completes as `Aborted` at the checkpoint's time and is told
/// to stop; any other task is untouched.
pub open spec fn checkpoint_effect(
    pre: Seq<TaskRecord>,
    post: Seq<TaskRecord>,
    pid: i64,
    now: i64,
    stop: bool,
) -> bool {
    match find_task(pre, pid) {
        None => false,
        Some(i) => {
            &&& post.len() == pre.len()
            &&& forall|k: int| 0 <= k < pre.len() && k != i ==> post[k] == pre[k]
            &&& (pre[i].exit is Some ==> post[i] == pre[i] && stop)
            &&& (pre[i].exit is None && pre[i].abort_requested ==> post[i] == (TaskRecord {
                exit: Some(MacroExitStatus::Aborted { time: now }),
                ..pre[i]
            }) && stop)
            &&& (pre[i].exit is None && !pre[i].abort_requested ==> post[i] == pre[i] && !stop)
        },
    }
}

/// The running tasks' entries, oldest spawn first.
pub open spec fn running_entries(ts: Seq<TaskRecord>) -> Seq<TaskEntry>
    decreases ts.len(),
{
    if ts.len() == 0 {
        Seq::empty()
    } else {
        running_entries(ts.drop_last()) + (if ts.last().exit is None {
            seq![ts.last().entry]
        } else {
            Seq::empty()
        })
    }
}

/// The records' creation times never decrease in spawn order — true
/// whenever the caller's clock is monotone.
pub open spec fn spawn_times_ordered(ts: Seq<TaskRecord>) -> bool {
    forall|k: int, l: int|
        #![trigger ts[k].entry.creation_time, ts[l].entry.creation_time]
        0 <= k < l < ts.len() ==> ts[k].entry.creation_time <= ts[l].entry.creation_time
}

/// The completions' times never decrease in completion order — true
/// whenever the caller's clock is monotone.
pub open spec fn completion_times_ordered(hs: Seq<HistoryEntry>) -> bool {
    forall|k: int, l: int|
        #![trigger hs[k].exit_status, hs[l].exit_status]
        0 <= k < l < hs.len() ==> status_time(hs[k].exit_status) <= status_time(hs[l].exit_status)
}

/// When a task completed.
pub open spec fn status_time(s: MacroExitStatus) -> i64 {
    match s {
        MacroExitStatus::Success { time } => time,
        MacroExitStatus::Failure { time } => time,
        MacroExitStatus::Aborted { time } => time,
    }
}

/// The running slice of a time-ordered table is itself time-ordered, and
/// bounded by the table's last creation time.
proof fn lemma_running_entries_sorted(ts: Seq<TaskRecord>)
    requires
        spawn_times_ordered(ts),
    ensures
        forall|k: int, l: int|
            #![trigger running_entries(ts)[k].creation_time, running_entries(ts)[l].creation_time]
            0 <= k < l < running_entries(ts).len() ==> running_entries(ts)[k].creation_time
                <= running_entries(ts)[l].creation_time,
        forall|k: int|
            0 <= k < running_entries(ts).len() && ts.len() > 0
                ==> #[trigger] running_entries(ts)[k].creation_time <= ts.last().entry.creation_time,
    decreases ts.len(),
{
    if ts.len() > 0 {
        let head = ts.drop_last();
        assert(spawn_times_ordered(head)) by {
            assert(forall|k: int, l: int|
                #![trigger head[k].entry.creation_time, head[l].entry.creation_time]
                0 <= k < l < head.len() ==> ts[k].entry.creation_time
                    <= ts[l].entry.creation_time && head[k] == ts[k] && head[l] == ts[l]);
        }
        lemma_running_entries_sorted(head);
        let re = running_entries(ts);
        let re_head = running_entries(head);
        assert forall|k: int|
            0 <= k < re.len() && ts.len() > 0 implies #[trigger] re[k].creation_time
            <= ts.last().entry.creation_time by {
            if k < re_head.len() {
                assert(re[k] == re_head[k]);
                if head.len() > 0 {
                    assert(re_head[k].creation_time <= head.last().entry.creation_time);
                    assert(head.last() == ts[ts.len() - 2]);
                    assert(ts[ts.len() - 2].entry.creation_time <= ts.last().entry.creation_time);
                }
            } else {
                assert(re[k] == ts.last().entry);
            }
        }
        assert forall|k: int, l: int|
            #![trigger re[k].creation_time, re[l].creation_time]
            0 <= k < l < re.len() implies re[k].creation_time <= re[l].creation_time by {
            if l < re_head.len() {
                assert(re[k] == re_head[k] && re[l] == re_head[l]);
            } else {
                assert(re[l] == ts.last().entry);
                assert(re[k] == re_head[k]);
                if head.len() > 0 {
                    assert(re_head[k].creation_time <= head.last().entry.creation_time);
                    assert(head.last() == ts[ts.len() - 2]);
                    assert(ts[ts.len() - 2].entry.creation_time <= ts.last().entry.creation_time);
                }
            }
        }
    }
}

/// The executor.
pub struct MacroExecutor {
    next_pid: i64,
    tasks: Vec<TaskRecord>,
    finished: Vec<HistoryEntry>,
}

impl MacroExecutor {
    /// The task table, in spawn order.
    pub closed spec fn tasks_view(&self) -> Seq<TaskRecord> {
        self.tasks@
    }

    /// The completed tasks, in completion order.
    pub closed spec fn finished_view(&self) -> Seq<HistoryEntry> {
        self.finished@
    }

    /// The id the next spawn will receive.
    pub closed spec fn next_id(&self) -> int {
        self.next_pid as int
    }

    /// Ids are unique and below the allocator's next id.
    pub closed spec fn wf(&self) -> bool {
        &&& forall|k: int|
            0 <= k < self.tasks@.len() ==> (#[trigger] self.tasks@[k]).entry.pid < self.next_pid
        &&& forall|k: int, l: int|
            #![trigger self.tasks@[k], self.tasks@[l]]
            0 <= k < l < self.tasks@.len() ==> self.tasks@[k].entry.pid != self.tasks@[l].entry.pid
    }

    pub fn new() -> (r: MacroExecutor)
        ensures
            r.wf(),
            r.tasks_view() == Seq::<TaskRecord>::empty(),
            r.finished_view() == Seq::<HistoryEntry>::empty(),
    {
        MacroExecutor { next_pid: 1, tasks: Vec::new(), finished: Vec::new() }
    }

    fn find_task_index(&self, pid: i64) -> (r: Option<usize>)
        ensures
            match r {
                Some(i) => find_task(self.tasks_view(), pid) == Some(i as int) && i
                    < self.tasks_view().len(),
                None => find_task(self.tasks_view(), pid) is None,
            },
    {
        let mut k: usize = 0;
        while k < self.tasks.len()
            invariant
                k <= self.tasks@.len(),
                forall|j: int| 0 <= j < k ==> (#[trigger] self.tasks@[j]).entry.pid != pid,
            decreases self.tasks@.len() - k,
        {
            if self.tasks[k].entry.pid == pid {
                proof {
                    lemma_find_task_at(self.tasks@, pid, k as int);
                }
                return Some(k);
            }
            k = k + 1;
        }
        proof {
            lemma_find_task_none(self.tasks@, pid);
        }
        None
    }

    /// Record a new task and hand back its fresh id. The task counts as
    /// running from this moment; execution itself is the runtime's.
    pub fn spawn(&mut self, name: String, now: i64) -> (r: Result<i64, Error>)
        requires
            old(self).wf(),
        ensures
            final(self).wf(),
            final(self).finished_view() == old(self).finished_view(),
            match r {
                Ok(pid) => {
                    &&& pid == old(self).next_id()
                    &&& final(self).next_id() == old(self).next_id() + 1
                    &&& find_task(old(self).tasks_view(), pid) is None
                    &&& final(self).tasks_view().len() == old(self).tasks_view().len() + 1
                    &&& final(self).tasks_view().subrange(0, old(self).tasks_view().len() as int)
                        == old(self).tasks_view()
                    &&& ({
                        let t = final(self).tasks_view().last();
                        &&& t.entry.pid == pid
                        &&& t.entry.name == name
                        &&& t.entry.creation_time == now
                        &&& !t.abort_requested
                        &&& t.exit is None
                    })
                },
                Err(e) => {
                    &&& old(self).next_id() == i64::MAX
                    &&& e.kind == ErrorKind::TaskFailure
                    &&& *final(self) == *old(self)
                },
            },
    {
        if self.next_pid == i64::MAX {
            return Err(
                Error::new(ErrorKind::TaskFailure, "Task id space exhausted".to_owned()),
            );
        }
        let pid = self.next_pid;
        self.next_pid = self.next_pid + 1;
        let ghost pre = self.tasks@;
        self.tasks.push(
            TaskRecord {
                entry: TaskEntry { pid, name, creation_time: now },
                abort_requested: false,
                exit: None,
            },
        );
        proof {
            let post = self.tasks@;
            assert(post.subrange(0, pre.len() as int) =~= pre);
            lemma_find_task_none(pre, pid);
            assert forall|k: int, l: int|
                #![trigger post[k], post[l]]
                0 <= k < l < post.len() implies post[k].entry.pid != post[l].entry.pid by {
                if l < pre.len() {
                    assert(post[k] == pre[k] && post[l] == pre[l]);
                } else {
                    assert(post[k] == pre[k]);
                }
            }
        }
        Ok(pid)
    }

    /// Request cancellation. Safe at any point in the task's life: a task
    /// that already completed is left alone; a running one is marked and
    /// will stop at its next cooperative checkpoint. Unknown ids are an
    /// error.
    pub fn abort_macro(&mut self, pid: i64) -> (r: Result<(), Error>)
        requires
            old(self).wf(),
        ensures
            final(self).wf(),
            final(self).finished_view() == old(self).finished_view(),
            match r {
                Ok(_) => abort_effect(old(self).tasks_view(), final(self).tasks_view(), pid),
                Err(e) => {
                    &&& e.kind == ErrorKind::NotFound
                    &&& find_task(old(self).tasks_view(), pid) is None
                    &&& *final(self) == *old(self)
                },
            },
    {
        let i = match self.find_task_index(pid) {
            None => {
                return Err(
                    Error::new(ErrorKind::NotFound, "No task with this id".to_owned()),
                );
            },
            Some(i) => i,
        };
        if self.tasks[i].exit.is_some() {
            proof {
                assert(self.tasks@ =~= old(self).tasks@);
            }
            return Ok(());
        }
        let ghost pre = self.tasks@;
        let entry = TaskEntry {
            pid: self.tasks[i].entry.pid,
            name: self.tasks[i].entry.name.clone(),
            creation_time: self.tasks[i].entry.creation_time,
        };
        let exit = self.tasks[i].exit;
        self.tasks.set(i, TaskRecord { entry, abort_requested: true, exit });
        proof {
            assert(self.tasks@[i as int].entry == pre[i as int].entry);
            assert(self.tasks@[i as int] == (TaskRecord {
                abort_requested: true,
                ..pre[i as int]
            }));
            assert forall|k: int, l: int|
                #![trigger self.tasks@[k], self.tasks@[l]]
                0 <= k < l < self.tasks@.len() implies self.tasks@[k].entry.pid
                != self.tasks@[l].entry.pid by {
                assert(pre[k].entry.pid != pre[l].entry.pid);
            }
        }
        Ok(())
    }

    /// One cooperative checkpoint, reached by the running script. Returns
    /// whether the task must stop: `true` exactly when an abort was
    /// requested (the task is then recorded as `Aborted` at this time) or
    /// the task is already completed. Unknown ids are an error.
    pub fn checkpoint(&mut self, pid: i64, now: i64) -> (r: Result<bool, Error>)
        requires
            old(self).wf(),
        ensures
            final(self).wf(),
            match r {
                Ok(stop) => {
                    &&& checkpoint_effect(
                        old(self).tasks_view(),
                        final(self).tasks_view(),
                        pid,
                        now,
                        stop,
                    )
                    &&& ({
                        let i = find_task(old(self).tasks_view(), pid).unwrap();
                        let t = old(self).tasks_view()[i];
                        if t.exit is None && t.abort_requested {
                            &&& final(self).finished_view().len() == old(
                                self,
                            ).finished_view().len() + 1
                            &&& final(self).finished_view().subrange(
                                0,
                                old(self).finished_view().len() as int,
                            ) == old(self).finished_view()
                            &&& ({
                                let h = final(self).finished_view().last();
                                &&& h.task.pid == pid
                                &&& h.exit_status == MacroExitStatus::Aborted { time: now }
                            })
                        } else {
                            final(self).finished_view() == old(self).finished_view()
                        }
                    })
                },
                Err(e) => {
                    &&& e.kind == ErrorKind::NotFound
                    &&& find_task(old(self).tasks_view(), pid) is None
                    &&& *final(self) == *old(self)
                },
            },
    {
        let i = match self.find_task_index(pid) {
            None => {
                return Err(
                    Error::new(ErrorKind::NotFound, "No task with this id".to_owned()),
                );
            },
            Some(i) => i,
        };
        if self.tasks[i].exit.is_some() {
            proof {
                assert(self.tasks@ =~= old(self).tasks@);
            }
            return Ok(true);
        }
        if !self.tasks[i].abort_requested {
            proof {
                assert(self.tasks@ =~= old(self).tasks@);
            }
            return Ok(false);
        }
        let ghost pre = self.tasks@;
        let entry = TaskEntry {
            pid: self.tasks[i].entry.pid,
            name: self.tasks[i].entry.name.clone(),
            creation_time: self.tasks[i].entry.creation_time,
        };
        let hist_entry = TaskEntry {
            pid: entry.pid,
            name: entry.name.clone(),
            creation_time: entry.creation_time,
        };
        let status = MacroExitStatus::Aborted { time: now };
        self.tasks.set(
            i,
            TaskRecord { entry, abort_requested: true, exit: Some(status) },
        );
        self.finished.push(HistoryEntry { task: hist_entry, exit_status: status });
        proof {
            lemma_find_task_props(pre, pid);
            assert(pre[i as int].entry.pid == pid);
            assert(self.tasks@[i as int].entry == pre[i as int].entry);
            assert(pre[i as int].abort_requested);
            assert(self.tasks@[i as int] == (TaskRecord {
                exit: Some(MacroExitStatus::Aborted { time: now }),
                ..pre[i as int]
            }));
            assert(self.finished@.subrange(0, old(self).finished@.len() as int) =~= old(
                self,
            ).finished@);
            assert forall|k: int, l: int|
                #![trigger self.tasks@[k], self.tasks@[l]]
                0 <= k < l < self.tasks@.len() implies self.tasks@[k].entry.pid
                != self.tasks@[l].entry.pid by {
                assert(pre[k].entry.pid != pre[l].entry.pid);
            }
        }
        Ok(true)
    }

    /// Record how a task's script run ended. A task completes exactly
    /// once: a second completion is refused with `Conflict`. Unknown ids
    /// are an error.
    pub fn finish(&mut self, pid: i64, success: bool, now: i64) -> (r: Result<(), Error>)
        requires
            old(self).wf(),
        ensures
            final(self).wf(),
            match r {
                Ok(_) => ({
                    let i = find_task(old(self).tasks_view(), pid).unwrap();
                    let t = old(self).tasks_view()[i];
                    let status = if success {
                        MacroExitStatus::Success { time: now }
                    } else {
                        MacroExitStatus::Failure { time: now }
                    };
                    &&& find_task(old(self).tasks_view(), pid) is Some
                    &&& t.exit is None
                    &&& final(self).tasks_view().len() == old(self).tasks_view().len()
                    &&& ({
                        let post_tasks = final(self).tasks_view();
                        forall|k: int|
                            0 <= k < old(self).tasks_view().len() && k != i
                                ==> #[trigger] post_tasks[k] == old(self).tasks_view()[k]
                    })
                    &&& final(self).tasks_view()[i] == (TaskRecord { exit: Some(status), ..t })
                    &&& final(self).finished_view().len() == old(self).finished_view().len() + 1
                    &&& final(self).finished_view().subrange(
                        0,
                        old(self).finished_view().len() as int,
                    ) == old(self).finished_view()
                    &&& ({
                        let h = final(self).finished_view().last();
                        &&& h.task.pid == pid
                        &&& h.exit_status == status
                    })
                }),
                Err(e) => {
                    &&& *final(self) == *old(self)
                    &&& (find_task(old(self).tasks_view(), pid) is None ==> e.kind
                        == ErrorKind::NotFound)
                    &&& (find_task(old(self).tasks_view(), pid) matches Some(i) ==> old(
                        self,
                    ).tasks_view()[i].exit is Some && e.kind == ErrorKind::Conflict)
                },
            },
    {
        let i = match self.find_task_index(pid) {
            None => {
                return Err(
                    Error::new(ErrorKind::NotFound, "No task with this id".to_owned()),
                );
            },
            Some(i) => i,
        };
        if self.tasks[i].exit.is_some() {
            return Err(
                Error::new(ErrorKind::Conflict, "Task already completed".to_owned()),
            );
        }
        let ghost pre = self.tasks@;
        let entry = TaskEntry {
            pid: self.tasks[i].entry.pid,
            name: self.tasks[i].entry.name.clone(),
            creation_time: self.tasks[i].entry.creation_time,
        };
        let hist_entry = TaskEntry {
            pid: entry.pid,
            name: entry.name.clone(),
            creation_time: entry.creation_time,
        };
        let aborted = self.tasks[i].abort_requested;
        let status = if success {
            MacroExitStatus::Success { time: now }
        } else {
            MacroExitStatus::Failure { time: now }
        };
        self.tasks.set(i, TaskRecord { entry, abort_requested: aborted, exit: Some(status) });
        self.finished.push(HistoryEntry { task: hist_entry, exit_status: status });
        proof {
            lemma_find_task_props(pre, pid);
            assert(pre[i as int].entry.pid == pid);
            assert(self.tasks@[i as int].entry == pre[i as int].entry);
            assert(self.tasks@[i as int] == (TaskRecord { exit: Some(status), ..pre[i as int] }));
            assert(self.finished@.subrange(0, old(self).finished@.len() as int) =~= old(
                self,
            ).finished@);
            assert forall|k: int, l: int|
                #![trigger self.tasks@[k], self.tasks@[l]]
                0 <= k < l < self.tasks@.len() implies self.tasks@[k].entry.pid
                != self.tasks@[l].entry.pid by {
                assert(pre[k].entry.pid != pre[l].entry.pid);
            }
        }
        Ok(())
    }

    /// A task's status: `None` while it runs, its exit status once done.
    /// Unknown ids are an error.
    pub fn get_macro_status(&self, pid: i64) -> (r: Result<Option<MacroExitStatus>, Error>)
        ensures
            match r {
                Ok(s) => task_status(self.tasks_view(), pid) == Some(s),
                Err(e) => {
                    &&& e.kind == ErrorKind::NotFound
                    &&& task_status(self.tasks_view(), pid) is None
                },
            },
    {
        match self.find_task_index(pid) {
            None => Err(Error::new(ErrorKind::NotFound, "No task with this id".to_owned())),
            Some(i) => Ok(self.tasks[i].exit),
        }
    }

    /// The running tasks, in spawn order (creation-time order whenever the
    /// caller's clock is monotone).
    pub fn get_task_list(&self) -> (r: Vec<TaskEntry>)
        ensures
            r@ == running_entries(self.tasks_view()),
            spawn_times_ordered(self.tasks_view()) ==> forall|k: int, l: int|
                #![trigger r@[k].creation_time, r@[l].creation_time]
                0 <= k < l < r@.len() ==> r@[k].creation_time <= r@[l].creation_time,
    {
        proof {
            if spawn_times_ordered(self.tasks_view()) {
                lemma_running_entries_sorted(self.tasks_view());
            }
        }
        let mut out: Vec<TaskEntry> = Vec::new();
        let mut k: usize = 0;
        proof {
            assert(self.tasks@.subrange(0, 0).len() == 0);
        }
        while k < self.tasks.len()
            invariant
                k <= self.tasks@.len(),
                out@ == running_entries(self.tasks@.subrange(0, k as int)),
            decreases self.tasks@.len() - k,
        {
            proof {
                let cur = self.tasks@.subrange(0, k as int + 1);
                assert(cur.drop_last() =~= self.tasks@.subrange(0, k as int));
                assert(cur.last() == self.tasks@[k as int]);
            }
            if self.tasks[k].exit.is_none() {
                out.push(
                    TaskEntry {
                        pid: self.tasks[k].entry.pid,
                        name: self.tasks[k].entry.name.clone(),
                        creation_time: self.tasks[k].entry.creation_time,
                    },
                );
                proof {
                    assert(out@ =~= running_entries(self.tasks@.subrange(0, k as int + 1)));
                }
            }
            k = k + 1;
        }
        proof {
            assert(self.tasks@.subrange(0, self.tasks@.len() as int) =~= self.tasks@);
        }
        out
    }

    /// The completed tasks, newest completion first.
    pub fn get_history_list(&self) -> (r: Vec<HistoryEntry>)
        ensures
            r@.len() == self.finished_view().len(),
            forall|k: int|
                0 <= k < r@.len() ==> #[trigger] r@[k] == self.finished_view()[self.finished_view().len()
                    - 1 - k],
            completion_times_ordered(self.finished_view()) ==> forall|k: int, l: int|
                #![trigger r@[k].exit_status, r@[l].exit_status]
                0 <= k < l < r@.len() ==> status_time(r@[k].exit_status) >= status_time(
                    r@[l].exit_status,
                ),
    {
        let mut out: Vec<HistoryEntry> = Vec::new();
        let mut k: usize = self.finished.len();
        while k > 0
            invariant
                k <= self.finished@.len(),
                out@.len() == self.finished@.len() - k,
                forall|j: int|
                    0 <= j < out@.len() ==> #[trigger] out@[j] == self.finished@[self.finished@.len()
                        - 1 - j],
            decreases k,
        {
            k = k - 1;
            let h = &self.finished[k];
            out.push(
                HistoryEntry {
                    task: TaskEntry {
                        pid: h.task.pid,
                        name: h.task.name.clone(),
                        creation_time: h.task.creation_time,
                    },
                    exit_status: h.exit_status,
                },
            );
        }
        out
    }
}

proof fn lemma_find_task_at(ts: Seq<TaskRecord>, pid: i64, i: int)
    requires
        0 <= i < ts.len(),
        ts[i].entry.pid == pid,
        forall|j: int| 0 <= j < i ==> ts[j].entry.pid != pid,
    ensures
        find_task(ts, pid) == Some(i),
    decreases i,
{
    if i > 0 {
        lemma_find_task_at(ts.drop_first(), pid, i - 1);
    }
}

proof fn lemma_find_task_none(ts: Seq<TaskRecord>, pid: i64)
    requires
        forall|j: int| 0 <= j < ts.len() ==> ts[j].entry.pid != pid,
    ensures
        find_task(ts, pid) is None,
    decreases ts.len(),
{
    if ts.len() > 0 {
        lemma_find_task_none(ts.drop_first(), pid);
    }
}

proof fn lemma_find_task_same_pids(pre: Seq<TaskRecord>, post: Seq<TaskRecord>, pid: i64)
    requires
        post.len() == pre.len(),
        forall|k: int| 0 <= k < pre.len() ==> post[k].entry.pid == pre[k].entry.pid,
    ensures
        find_task(post, pid) == find_task(pre, pid),
    decreases pre.len(),
{
    if pre.len() > 0 {
        assert(post.drop_first().len() == pre.drop_first().len());
        assert forall|k: int|
            0 <= k < pre.drop_first().len() implies post.drop_first()[k].entry.pid
            == pre.drop_first()[k].entry.pid by {
            assert(post[k + 1].entry.pid == pre[k + 1].entry.pid);
        }
        lemma_find_task_same_pids(pre.drop_first(), post.drop_first(), pid);
    }
}

/// A task that is aborted while it runs — even while blocked on an event —
/// reports `Aborted` as soon as it reaches its next cooperative
/// checkpoint. The executor holds no instance state, so the instance's
/// command channel stays usable for every later task.
pub proof fn lemma_abort_then_checkpoint(
    t0: Seq<TaskRecord>,
    t1: Seq<TaskRecord>,
    t2: Seq<TaskRecord>,
    pid: i64,
    now: i64,
    stop: bool,
)
    requires
        task_status(t0, pid) == Some(None::<MacroExitStatus>),
        abort_effect(t0, t1, pid),
        checkpoint_effect(t1, t2, pid, now, stop),
    ensures
        stop,
        task_status(t2, pid) == Some(Some(MacroExitStatus::Aborted { time: now })),
{
    let i = find_task(t0, pid).unwrap();
    lemma_find_task_props(t0, pid);
    assert forall|k: int| 0 <= k < t1.len() implies t1[k].entry.pid == t0[k].entry.pid by {
        if k != i {
            assert(t1[k] == t0[k]);
        }
    }
    lemma_find_task_same_pids(t0, t1, pid);
    assert(t1[i].exit is None && t1[i].abort_requested);
    assert forall|k: int| 0 <= k < t2.len() implies t2[k].entry.pid == t1[k].entry.pid by {
        if k != i {
            assert(t2[k] == t1[k]);
        }
    }
    lemma_find_task_same_pids(t1, t2, pid);
    assert(t2[i].exit == Some(MacroExitStatus::Aborted { time: now }));
}

proof fn lemma_find_task_props(ts: Seq<TaskRecord>, pid: i64)
    ensures
        match find_task(ts, pid) {
            Some(i) => 0 <= i < ts.len() && ts[i].entry.pid == pid,
            None => true,
        },
    decreases ts.len(),
{
    if ts.len() > 0 {
        lemma_find_task_props(ts.drop_first(), pid);
    }
}


/// What a blocked script waits for on the event stream.
#[derive(Clone, Copy, Debug, PartialEq, Eq, Structural)]
pub enum EventQuery {
    /// A chat line from any player.
    PlayerMessage,
    /// A roster change in which someone joined.
    PlayersJoined,
    /// A roster change in which someone left.
    PlayersLeft,
    /// Any roster change.
    PlayersChanged,
}

impl EventQuery {
    /// Parse the event name a script subscribes with.
    pub fn parse(s: &str) -> (r: Option<EventQuery>)
        ensures
            s@ == "playerMessage"@ ==> r == Some(EventQuery::PlayerMessage),
            s@ == "playersJoined"@ ==> r == Some(EventQuery::PlayersJoined),
            s@ == "playersLeft"@ ==> r == Some(EventQuery::PlayersLeft),
            s@ == "playersChanged"@ ==> r == Some(EventQuery::PlayersChanged),
            s@ != "playerMessage"@ && s@ != "playersJoined"@ && s@ != "playersLeft"@ && s@
                != "playersChanged"@ ==> r is None,
    {
        proof {
            broadcast use vstd::string::group_string_axioms;

            reveal_strlit("playerMessage");
            reveal_strlit("playersJoined");
            reveal_strlit("playersLeft");
            reveal_strlit("playersChanged");
            assert("playerMessage"@.len() == 13);
            assert("playersJoined"@.len() == 13);
            assert("playersLeft"@.len() == 11);
            assert("playersChanged"@.len() == 14);
            assert("playerMessage"@[6] == 'M');
            assert("playersJoined"@[6] == 's');
        }
        if crate::text::str_eq(s, "playerMessage") {
            Some(EventQuery::PlayerMessage)
        } else if crate::text::str_eq(s, "playersJoined") {
            Some(EventQuery::PlayersJoined)
        } else if crate::text::str_eq(s, "playersLeft") {
            Some(EventQuery::PlayersLeft)
        } else if crate::text::str_eq(s, "playersChanged") {
            Some(EventQuery::PlayersChanged)
        } else {
            None
        }
    }
}

/// What a matching event hands the script.
#[derive(Clone, Debug)]
pub enum EventQueryMatch {
    PlayerMessage { player: String, message: String },
    PlayersJoined { players: Vec<String> },
    PlayersLeft { players: Vec<String> },
    PlayersChanged { players: Vec<MinecraftJavaPlayer> },
}

/// Whether one event satisfies a query, and with what. The runtime polls
/// the task's subscription and calls this on each event until it yields;
/// the decision is made here, the blocking around it is the runtime's.
pub fn event_query_match(query: &EventQuery, e: &Event) -> (r: Option<EventQueryMatch>)
    ensures
        match e.event_inner {
            EventInner::InstanceEvent(ie) => match ie.instance_event_inner {
                InstanceEventKind::PlayerMessage { player, player_message } => {
                    if *query == EventQuery::PlayerMessage {
                        r matches Some(m) && m matches EventQueryMatch::PlayerMessage {
                            player: p,
                            message: t,
                        } && p@ == player@ && t@ == player_message@
                    } else {
                        r is None
                    }
                },
                InstanceEventKind::PlayerChange { player_list, players_joined, players_left } => {
                    if *query == EventQuery::PlayersJoined {
                        if players_joined@.len() > 0 {
                            r matches Some(m) && m matches EventQueryMatch::PlayersJoined {
                                players,
                            } && players@ == players_joined@
                        } else {
                            r is None
                        }
                    } else if *query == EventQuery::PlayersLeft {
                        if players_left@.len() > 0 {
                            r matches Some(m) && m matches EventQueryMatch::PlayersLeft {
                                players,
                            } && players@ == players_left@
                        } else {
                            r is None
                        }
                    } else if *query == EventQuery::PlayersChanged {
                        r matches Some(m) && m matches EventQueryMatch::PlayersChanged {
                            players,
                        } && players@ == player_list@
                    } else {
                        r is None
                    }
                },
                _ => r is None,
            },
            EventInner::ProgressionEvent(_) => r is None,
        },
{
    match &e.event_inner {
        EventInner::InstanceEvent(ie) => match &ie.instance_event_inner {
            InstanceEventKind::PlayerMessage { player, player_message } => {
                if matches!(query, EventQuery::PlayerMessage) {
                    Some(
                        EventQueryMatch::PlayerMessage {
                            player: player.clone(),
                            message: player_message.clone(),
                        },
                    )
                } else {
                    None
                }
            },
            InstanceEventKind::PlayerChange { player_list, players_joined, players_left } => {
                match query {
                    EventQuery::PlayersJoined => {
                        if players_joined.len() > 0 {
                            Some(
                                EventQueryMatch::PlayersJoined {
                                    players: clone_names(players_joined),
                                },
                            )
                        } else {
                            None
                        }
                    },
                    EventQuery::PlayersLeft => {
                        if players_left.len() > 0 {
                            Some(
                                EventQueryMatch::PlayersLeft {
                                    players: clone_names(players_left),
                                },
                            )
                        } else {
                            None
                        }
                    },
                    EventQuery::PlayersChanged => {
                        Some(
                            EventQueryMatch::PlayersChanged {
                                players: clone_players(player_list),
                            },
                        )
                    },
                    EventQuery::PlayerMessage => None,
                }
            },
            _ => None,
        },
        EventInner::ProgressionEvent(_) => None,
    }
}

/// A fresh copy of a list of names.
fn clone_names(names: &Vec<String>) -> (r: Vec<String>)
    ensures
        r@ == names@,
{
    let mut out: Vec<String> = Vec::new();
    let mut k: usize = 0;
    while k < names.len()
        invariant
            k <= names@.len(),
            out@.len() == k,
            forall|i: int| 0 <= i < k ==> out@[i] == names@[i],
        decreases names@.len() - k,
    {
        out.push(names[k].clone());
        k = k + 1;
    }
    proof {
        assert(out@ =~= names@);
    }
    out
}

/// A fresh copy of a roster.
fn clone_players(players: &Vec<MinecraftJavaPlayer>) -> (r: Vec<MinecraftJavaPlayer>)
    ensures
        r@ == players@,
{
    let mut out: Vec<MinecraftJavaPlayer> = Vec::new();
    let mut k: usize = 0;
    while k < players.len()
        invariant
            k <= players@.len(),
            out@.len() == k,
            forall|i: int| 0 <= i < k ==> out@[i] == players@[i],
        decreases players@.len() - k,
    {
        let p = &players[k];
        let uuid = match &p.uuid {
            Some(x) => Some(x.clone()),
            None => None,
        };
        out.push(MinecraftJavaPlayer { name: p.name.clone(), uuid });
        k = k + 1;
    }
    proof {
        assert(out@ =~= players@);
    }
    out
}

} // verus!
