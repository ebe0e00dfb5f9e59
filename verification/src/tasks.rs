//! Bookkeeping of asynchronous tasks shown to the user: their states, the counts
//! shown in the header, and the decisions of the task manager on each message.

use slab::Slab;
use vstd::prelude::*;

use crate::seqs::{lemma_filter_all_kept, lemma_filter_membership};

verus! {

#[verifier::external_type_specification]
#[verifier::external_body]
#[verifier::reject_recursive_types(T)]
pub struct ExSlab<T>(Slab<T>);

/// The state of a task as seen by the task list.
#[derive(Clone, Copy, PartialEq, Eq, Debug, Structural)]
pub enum AsyncTaskState {
    Pending {},
    AutoDismiss { success: bool },
    ManualDismiss { success: bool },
    DismissOrRetry { success: bool },
}

/// `None` while pending, otherwise whether the task succeeded.
pub open spec fn task_outcome(s: AsyncTaskState) -> Option<bool> {
    match s {
        AsyncTaskState::Pending {} => None,
        AsyncTaskState::AutoDismiss { success } => Some(success),
        AsyncTaskState::ManualDismiss { success } => Some(success),
        AsyncTaskState::DismissOrRetry { success } => Some(success),
    }
}

impl AsyncTaskState {
    /// `None` while pending, otherwise whether the task succeeded.
    pub fn is_success(&self) -> (r: Option<bool>)
        ensures
            r == task_outcome(*self),
    {
        match self {
            AsyncTaskState::Pending {} => None,
            AsyncTaskState::AutoDismiss { success }
            | AsyncTaskState::ManualDismiss { success }
            | AsyncTaskState::DismissOrRetry { success } => Some(*success),
        }
    }
}

/// How a finished task wants to be handled.
/// (The retry action of `DismissOrRetry` is kept by the caller, keyed by the task id.)
#[derive(Clone, Copy, PartialEq, Eq, Debug, Structural)]
pub enum AsyncTaskResult {
    AutoDismiss { success: bool },
    ManualDismiss { success: bool },
    DismissOrRetry { success: bool },
}

/// The task state that a finished task takes on.
pub open spec fn result_state(r: AsyncTaskResult) -> AsyncTaskState {
    match r {
        AsyncTaskResult::AutoDismiss { success } => AsyncTaskState::AutoDismiss { success },
        AsyncTaskResult::ManualDismiss { success } => AsyncTaskState::ManualDismiss { success },
        AsyncTaskResult::DismissOrRetry { success } => AsyncTaskState::DismissOrRetry { success },
    }
}

/// A task as listed to the user. (Its rendered summary is kept by the caller, keyed by `id`.)
#[derive(Debug)]
pub struct AsyncTask {
    pub id: usize,
    pub name: String,
    pub state: AsyncTaskState,
}

/// The ordered list of tasks.
pub struct AsyncTaskList {
    pub tasks: Vec<AsyncTask>,
}

/// Number of tasks in each category.
#[derive(Clone, Copy, PartialEq, Eq, Debug, Structural)]
pub struct TaskCounts {
    pub pending: usize,
    pub success: usize,
    pub failed: usize,
    pub dismissable: usize,
    pub retry: usize,
}

impl Default for TaskCounts {
    fn default() -> (r: TaskCounts)
        ensures
            r == (TaskCounts { pending: 0, success: 0, failed: 0, dismissable: 0, retry: 0 }),
    {
        TaskCounts { pending: 0, success: 0, failed: 0, dismissable: 0, retry: 0 }
    }
}

/// The counts after adding one more task in state `s`.
pub open spec fn count_one(c: TaskCounts, s: AsyncTaskState) -> TaskCounts {
    match s {
        AsyncTaskState::Pending {} => TaskCounts { pending: (c.pending + 1) as usize, ..c },
        AsyncTaskState::AutoDismiss { success } =>
            if success { TaskCounts { success: (c.success + 1) as usize, ..c } }
            else { TaskCounts { failed: (c.failed + 1) as usize, ..c } },
        AsyncTaskState::ManualDismiss { success } =>
            if success {
                TaskCounts { success: (c.success + 1) as usize, dismissable: (c.dismissable + 1) as usize, ..c }
            } else {
                TaskCounts { failed: (c.failed + 1) as usize, dismissable: (c.dismissable + 1) as usize, ..c }
            },
        AsyncTaskState::DismissOrRetry { success } =>
            if success {
                TaskCounts {
                    success: (c.success + 1) as usize,
                    dismissable: (c.dismissable + 1) as usize,
                    retry: (c.retry + 1) as usize,
                    ..c
                }
            } else {
                TaskCounts {
                    failed: (c.failed + 1) as usize,
                    dismissable: (c.dismissable + 1) as usize,
                    retry: (c.retry + 1) as usize,
                    ..c
                }
            },
    }
}

/// The counts of a sequence of tasks, added in order.
pub open spec fn counts_of(tasks: Seq<AsyncTask>) -> TaskCounts
    decreases tasks.len(),
{
    if tasks.len() == 0 {
        TaskCounts { pending: 0, success: 0, failed: 0, dismissable: 0, retry: 0 }
    } else {
        count_one(counts_of(tasks.drop_last()), tasks.last().state)
    }
}

/// Every task is exactly one of pending, succeeded or failed; every retryable task is
/// dismissable, and every dismissable task has finished.
pub proof fn lemma_counts_partition(tasks: Seq<AsyncTask>)
    requires
        tasks.len() <= usize::MAX,
    ensures
        counts_of(tasks).pending + counts_of(tasks).success + counts_of(tasks).failed == tasks.len(),
        counts_of(tasks).retry <= counts_of(tasks).dismissable,
        counts_of(tasks).dismissable <= counts_of(tasks).success + counts_of(tasks).failed,
    decreases tasks.len(),
{
    if tasks.len() > 0 {
        lemma_counts_partition(tasks.drop_last());
    }
}

/// The task badge counts the tasks by state: `pending` is the number of pending tasks;
/// `success` and `failed` are the numbers of tasks whose `is_success` is `Some(true)` and
/// `Some(false)`; `dismissable` is the number of tasks that may be dismissed by hand
/// (`ManualDismiss` or `DismissOrRetry`); `retry` is the number that may be retried.
pub proof fn lemma_counts_by_state(tasks: Seq<AsyncTask>)
    requires
        tasks.len() <= usize::MAX,
    ensures
        counts_of(tasks).pending == tasks.filter(|t: AsyncTask| task_outcome(t.state) is None).len(),
        counts_of(tasks).success == tasks.filter(|t: AsyncTask| task_outcome(t.state) == Some(true)).len(),
        counts_of(tasks).failed == tasks.filter(|t: AsyncTask| task_outcome(t.state) == Some(false)).len(),
        counts_of(tasks).dismissable == tasks.filter(|t: AsyncTask| is_dismissable(t.state)).len(),
        counts_of(tasks).retry == tasks.filter(|t: AsyncTask| t.state is DismissOrRetry).len(),
    decreases tasks.len(),
{
    reveal(Seq::filter);
    if tasks.len() > 0 {
        lemma_counts_by_state(tasks.drop_last());
        lemma_counts_partition(tasks.drop_last());
    }
}

impl AsyncTaskList {
    /// Counts the tasks in each category.
    pub fn count(&self) -> (c: TaskCounts)
        ensures
            c == counts_of(self.tasks@),
    {
        let mut counts = TaskCounts::default();
        let n = self.tasks.len();
        let mut i: usize = 0;
        while i < n
            invariant
                n == self.tasks@.len(),
                i <= n,
                counts == counts_of(self.tasks@.take(i as int)),
            decreases n - i,
        {
            proof {
                assert(self.tasks@.take(i + 1).drop_last() =~= self.tasks@.take(i as int));
                lemma_counts_partition(self.tasks@.take(i as int));
            }
            match self.tasks[i].state {
                AsyncTaskState::Pending {} => counts.pending += 1,
                AsyncTaskState::AutoDismiss { success: true } => counts.success += 1,
                AsyncTaskState::AutoDismiss { success: false } => counts.failed += 1,
                AsyncTaskState::ManualDismiss { success: true } => {
                    counts.success += 1;
                    counts.dismissable += 1;
                },
                AsyncTaskState::ManualDismiss { success: false } => {
                    counts.failed += 1;
                    counts.dismissable += 1;
                },
                AsyncTaskState::DismissOrRetry { success: true } => {
                    counts.success += 1;
                    counts.dismissable += 1;
                    counts.retry += 1;
                },
                AsyncTaskState::DismissOrRetry { success: false } => {
                    counts.failed += 1;
                    counts.dismissable += 1;
                    counts.retry += 1;
                },
            }
            i += 1;
        }
        proof {
            assert(self.tasks@.take(n as int) =~= self.tasks@);
        }
        counts
    }
}


/// What the manager keeps of each task.
#[derive(Debug)]
pub struct TaskSlot {
    pub name: String,
    pub state: AsyncTaskState,
}

/// The tasks that a slab of task slots holds, by key.
pub uninterp spec fn task_slots(slab: Slab<TaskSlot>) -> Map<usize, TaskSlot>;

/// `Slab::with_capacity`: a slab that holds nothing.
#[verifier::external_body]
fn slab_with_capacity(capacity: usize) -> (created: Slab<TaskSlot>)
    ensures
        task_slots(created).dom() == Set::<usize>::empty(),
{
    Slab::with_capacity(capacity)
}

/// `Slab::insert`: stores the value under a key that held nothing before, and returns that key.
#[verifier::external_body]
fn slab_insert(s: &mut Slab<TaskSlot>, value: TaskSlot) -> (key: usize)
    ensures
        !task_slots(*old(s)).contains_key(key),
        task_slots(*final(s)) == task_slots(*old(s)).insert(key, value),
{
    s.insert(value)
}

/// `Slab::get`: the value under `key`, if there is one.
#[verifier::external_body]
fn slab_get(s: &Slab<TaskSlot>, key: usize) -> (r: Option<&TaskSlot>)
    ensures
        r is Some <==> task_slots(*s).contains_key(key),
        r matches Some(v) ==> *v == task_slots(*s)[key],
{
    s.get(key)
}

/// `Slab::index_mut`, assigned to: replaces the value under a key that holds one.
#[verifier::external_body]
fn slab_set(s: &mut Slab<TaskSlot>, key: usize, value: TaskSlot)
    requires
        task_slots(*old(s)).contains_key(key),
    ensures
        task_slots(*final(s)) == task_slots(*old(s)).insert(key, value),
{
    s[key] = value;
}

/// `Slab::remove`: takes out the value under a key that holds one.
#[verifier::external_body]
fn slab_remove(s: &mut Slab<TaskSlot>, key: usize) -> (r: TaskSlot)
    requires
        task_slots(*old(s)).contains_key(key),
    ensures
        r == task_slots(*old(s))[key],
        task_slots(*final(s)) == task_slots(*old(s)).remove(key),
{
    s.remove(key)
}

/// Requests that the task control hands to the manager.
#[derive(Debug)]
pub enum ATMControlMessage {
    /// A new task was submitted (its future and summary are kept by the caller).
    NewTask { name: String },
    DismissTask { id: usize },
    RetryTask { id: usize },
    DismissAll {},
}

/// Messages that the manager handles.
#[derive(Debug)]
pub enum ATMMessage {
    ControlContextRequest(ATMControlMessage),
    /// A task's future completed.
    TaskUpdate { id: usize, result: AsyncTaskResult },
    /// The auto-dismiss delay of a task ran out.
    AutoDismiss { id: usize },
}

/// Why a message was ignored.
#[derive(Clone, Copy, PartialEq, Eq, Debug, Structural)]
pub enum ManagerWarning {
    DismissNonExistent { id: usize },
    DismissNotDismissable { id: usize },
    RetryNonExistent { id: usize },
    RetryNotRetryable { id: usize },
    UpdateNonExistent { id: usize },
    UpdateNotPending { id: usize },
    AutoDismissNonExistent { id: usize },
    AutoDismissNotAutoDismissable { id: usize },
}

/// What the caller must do after the manager handled a message.
#[derive(Debug)]
pub enum ManagerEffect {
    Nothing,
    /// Log the warning.
    Warn(ManagerWarning),
    /// Await the future submitted for the new task `id`, then send `TaskUpdate`.
    StartTask { id: usize },
    /// Run the retry action kept for `id`, use its summary, await its future, then send `TaskUpdate`.
    RetryTask { id: usize },
    /// Send `AutoDismiss` for `id` after the auto-dismiss delay.
    ScheduleAutoDismiss { id: usize },
    /// These tasks left the list; what the caller keeps for them can be dropped.
    Removed { ids: Vec<usize> },
}

/// The outcome of handling one message.
pub struct ManagerUpdate {
    /// Whether the view changed and must be rendered again.
    pub rerender: bool,
    pub effect: ManagerEffect,
}

/// A task that the user may dismiss.
pub open spec fn is_dismissable(s: AsyncTaskState) -> bool {
    s is ManualDismiss || s is DismissOrRetry
}

/// The listing of the tasks of `slots`, in the order `order`.
pub open spec fn task_listing(slots: Map<usize, TaskSlot>, order: Seq<usize>) -> Seq<(usize, String, AsyncTaskState)> {
    order.map_values(|id: usize| (id, slots[id].name, slots[id].state))
}

/// A list of tasks, seen as (id, name, state) triples.
pub open spec fn list_view(l: Seq<AsyncTask>) -> Seq<(usize, String, AsyncTaskState)> {
    l.map_values(|t: AsyncTask| (t.id, t.name, t.state))
}

/// Keeps the submitted tasks, in submission order, and decides what each message does to them.
pub struct AsyncTaskManager {
    tasks: Slab<TaskSlot>,
    task_order: Vec<usize>,
    view_context: AsyncTaskList,
}

impl AsyncTaskManager {
    /// The tasks, by id.
    pub closed spec fn slots(&self) -> Map<usize, TaskSlot> {
        task_slots(self.tasks)
    }

    /// The ids of the tasks, in the order they were submitted.
    pub closed spec fn order(&self) -> Seq<usize> {
        self.task_order@
    }

    /// The list shown to the user.
    pub closed spec fn listing(&self) -> Seq<(usize, String, AsyncTaskState)> {
        list_view(self.view_context.tasks@)
    }

    /// Each task is listed once, every listed id holds a task, and the view matches.
    pub closed spec fn wf(&self) -> bool {
        &&& self.task_order@.no_duplicates()
        &&& forall|i: int| 0 <= i < self.task_order@.len() ==> task_slots(self.tasks).contains_key(#[trigger] self.task_order@[i])
        &&& forall|k: usize| #[trigger] task_slots(self.tasks).contains_key(k) ==> self.task_order@.contains(k)
        &&& list_view(self.view_context.tasks@) == task_listing(task_slots(self.tasks), self.task_order@)
    }

    /// In every state a manager reaches (from `new`, through any sequence of `update`s, each of
    /// which keeps `wf`), the order lists exactly the live task ids, each once, and the list
    /// shown is the live tasks, in that order, with their names and states.
    pub proof fn lemma_order_is_live_ids(&self)
        requires
            self.wf(),
        ensures
            self.order().no_duplicates(),
            self.order().to_set() == self.slots().dom(),
            self.listing() == task_listing(self.slots(), self.order()),
    {
        assert(self.order().to_set() =~= self.slots().dom()) by {
            assert forall|k: usize| self.order().to_set().contains(k) implies self.slots().dom().contains(k) by {
                let i = choose|i: int| 0 <= i < self.task_order@.len() && self.task_order@[i] == k;
                assert(task_slots(self.tasks).contains_key(self.task_order@[i]));
            }
            assert forall|k: usize| self.slots().dom().contains(k) implies self.order().to_set().contains(k) by {
                assert(task_slots(self.tasks).contains_key(k));
            }
        }
    }

    /// A manager without tasks.
    pub fn new() -> (m: AsyncTaskManager)
        ensures
            m.wf(),
            m.slots().dom() == Set::<usize>::empty(),
            m.order() == Seq::<usize>::empty(),
    {
        let m = AsyncTaskManager {
            tasks: slab_with_capacity(8),
            task_order: Vec::new(),
            view_context: AsyncTaskList { tasks: Vec::new() },
        };
        proof {
            assert(list_view(m.view_context.tasks@) =~= task_listing(task_slots(m.tasks), m.task_order@));
        }
        m
    }

    /// The list of tasks, in submission order.
    pub fn task_list(&self) -> (l: &AsyncTaskList)
        requires
            self.wf(),
        ensures
            list_view(l.tasks@) == task_listing(self.slots(), self.order()),
    {
        &self.view_context
    }

    proof fn lemma_wf_slots_of_order(&self)
        requires
            self.wf(),
        ensures
            forall|k: usize| self.task_order@.contains(k) <==> task_slots(self.tasks).contains_key(k),
    {
        assert forall|k: usize| self.task_order@.contains(k) implies task_slots(self.tasks).contains_key(k) by {
            let i = choose|i: int| 0 <= i < self.task_order@.len() && self.task_order@[i] == k;
        }
    }

    fn rebuild_view_context(&mut self)
        requires
            forall|i: int| 0 <= i < old(self).task_order@.len() ==> task_slots(old(self).tasks).contains_key(#[trigger] old(self).task_order@[i]),
        ensures
            final(self).tasks == old(self).tasks,
            final(self).task_order == old(self).task_order,
            list_view(final(self).view_context.tasks@) == task_listing(task_slots(final(self).tasks), final(self).task_order@),
    {
        let mut list: Vec<AsyncTask> = Vec::new();
        let n = self.task_order.len();
        let mut i: usize = 0;
        while i < n
            invariant
                n == self.task_order@.len(),
                i <= n,
                forall|j: int| 0 <= j < self.task_order@.len() ==> task_slots(self.tasks).contains_key(#[trigger] self.task_order@[j]),
                list_view(list@) == task_listing(task_slots(self.tasks), self.task_order@.take(i as int)),
            decreases n - i,
        {
            let id = self.task_order[i];
            let slot = slab_get(&self.tasks, id);
            let slot = slot.unwrap();
            let task = AsyncTask { id, name: slot.name.clone(), state: slot.state };
            let ghost before = list@;
            list.push(task);
            i += 1;
            proof {
                let slots = task_slots(self.tasks);
                assert(self.task_order@.take(i as int) =~= self.task_order@.take(i - 1).push(id));
                assert(list@ =~= before.push(task));
                assert(list_view(list@) =~= list_view(before).push((id, slots[id].name, slots[id].state)));
                assert(task_listing(slots, self.task_order@.take(i as int)) =~= task_listing(slots, self.task_order@.take(i - 1)).push((id, slots[id].name, slots[id].state)));
            }
        }
        proof {
            assert(self.task_order@.take(n as int) =~= self.task_order@);
        }
        self.view_context = AsyncTaskList { tasks: list };
    }

    /// `order` split into the ids that stay and those that `drops` selects, each kept in order.
    fn retain_order(order: &Vec<usize>, slots: &Slab<TaskSlot>, only_dismissable: bool, id: usize) -> (r: (Vec<usize>, Vec<usize>))
        requires
            forall|i: int| 0 <= i < order@.len() ==> task_slots(*slots).contains_key(#[trigger] order@[i]),
        ensures
            r.0@ == Self::kept_of(task_slots(*slots), only_dismissable, id, order@),
            r.1@ == Self::removed_of(task_slots(*slots), only_dismissable, id, order@),
    {
        let ghost sl = task_slots(*slots);
        let mut kept: Vec<usize> = Vec::new();
        let mut removed: Vec<usize> = Vec::new();
        let n = order.len();
        let mut i: usize = 0;
        while i < n
            invariant
                n == order@.len(),
                i <= n,
                sl == task_slots(*slots),
                forall|j: int| 0 <= j < order@.len() ==> task_slots(*slots).contains_key(#[trigger] order@[j]),
                kept@ == Self::kept_of(sl, only_dismissable, id, order@.take(i as int)),
                removed@ == Self::removed_of(sl, only_dismissable, id, order@.take(i as int)),
            decreases n - i,
        {
            let x = order[i];
            proof {
                Self::lemma_split_step(sl, only_dismissable, id, order@, i as int);
            }
            let drop_it = if only_dismissable {
                let slot = slab_get(slots, x).unwrap();
                match slot.state {
                    AsyncTaskState::ManualDismiss { .. } | AsyncTaskState::DismissOrRetry { .. } => true,
                    _ => false,
                }
            } else {
                x == id
            };
            assert(drop_it == Self::drops(sl, only_dismissable, id, x));
            if drop_it {
                removed.push(x);
            } else {
                kept.push(x);
            }
            i += 1;
        }
        proof {
            assert(order@.take(n as int) =~= order@);
        }
        (kept, removed)
    }

    /// The ids of `order` that stay.
    pub open spec fn kept_of(slots: Map<usize, TaskSlot>, only_dismissable: bool, id: usize, order: Seq<usize>) -> Seq<usize> {
        order.filter(|x: usize| !Self::drops(slots, only_dismissable, id, x))
    }

    /// The ids of `order` that are taken out.
    pub open spec fn removed_of(slots: Map<usize, TaskSlot>, only_dismissable: bool, id: usize, order: Seq<usize>) -> Seq<usize> {
        order.filter(|x: usize| Self::drops(slots, only_dismissable, id, x))
    }

    proof fn lemma_split_step(slots: Map<usize, TaskSlot>, only_dismissable: bool, id: usize, order: Seq<usize>, i: int)
        requires
            0 <= i < order.len(),
        ensures
            Self::kept_of(slots, only_dismissable, id, order.take(i + 1)) == (if Self::drops(slots, only_dismissable, id, order[i]) {
                Self::kept_of(slots, only_dismissable, id, order.take(i))
            } else {
                Self::kept_of(slots, only_dismissable, id, order.take(i)).push(order[i])
            }),
            Self::removed_of(slots, only_dismissable, id, order.take(i + 1)) == (if Self::drops(slots, only_dismissable, id, order[i]) {
                Self::removed_of(slots, only_dismissable, id, order.take(i)).push(order[i])
            } else {
                Self::removed_of(slots, only_dismissable, id, order.take(i))
            }),
    {
        reveal(Seq::filter);
        assert(order.take(i + 1).drop_last() =~= order.take(i));
        assert(order.take(i + 1).last() == order[i]);
    }

    /// Membership in the split parts.
    proof fn lemma_split_membership(slots: Map<usize, TaskSlot>, only_dismissable: bool, id: usize, order: Seq<usize>)
        ensures
            forall|x: usize| #[trigger] Self::kept_of(slots, only_dismissable, id, order).contains(x)
                <==> (order.contains(x) && !Self::drops(slots, only_dismissable, id, x)),
            forall|x: usize| #[trigger] Self::removed_of(slots, only_dismissable, id, order).contains(x)
                <==> (order.contains(x) && Self::drops(slots, only_dismissable, id, x)),
            order.no_duplicates() ==> Self::kept_of(slots, only_dismissable, id, order).no_duplicates(),
            order.no_duplicates() ==> Self::removed_of(slots, only_dismissable, id, order).no_duplicates(),
    {
        lemma_filter_membership(order, |x: usize| !Self::drops(slots, only_dismissable, id, x));
        lemma_filter_membership(order, |x: usize| Self::drops(slots, only_dismissable, id, x));
    }

    /// Whether a listed task is taken out: every dismissable one, or the one with `id`.
    pub open spec fn drops(slots: Map<usize, TaskSlot>, only_dismissable: bool, id: usize, x: usize) -> bool {
        if only_dismissable { is_dismissable(slots[x].state) } else { x == id }
    }

    /// Handles one message: changes the tasks as the message asks, if it applies, and says
    /// whether to render again and what the caller must do.
    #[verifier::rlimit(50)]
    pub fn update(&mut self, msg: ATMMessage) -> (u: ManagerUpdate)
        requires
            old(self).wf(),
        ensures
            final(self).wf(),
            Self::update_spec(old(self).slots(), old(self).order(), msg, final(self).slots(), final(self).order(), u),
    {
        proof { self.lemma_wf_slots_of_order(); }
        match msg {
            ATMMessage::ControlContextRequest(ATMControlMessage::NewTask { name }) => {
                let id = self.add_task(name);
                ManagerUpdate { rerender: true, effect: ManagerEffect::StartTask { id } }
            },
            ATMMessage::ControlContextRequest(ATMControlMessage::DismissTask { id }) => {
                let dismissable = match slab_get(&self.tasks, id) {
                    None => {
                        return ManagerUpdate { rerender: false, effect: ManagerEffect::Warn(ManagerWarning::DismissNonExistent { id }) };
                    },
                    Some(task) => match task.state {
                        AsyncTaskState::ManualDismiss { .. } | AsyncTaskState::DismissOrRetry { .. } => true,
                        _ => false,
                    },
                };
                if !dismissable {
                    return ManagerUpdate { rerender: false, effect: ManagerEffect::Warn(ManagerWarning::DismissNotDismissable { id }) };
                }
                self.remove_task(id)
            },
            ATMMessage::ControlContextRequest(ATMControlMessage::RetryTask { id }) => {
                let (name, retryable) = match slab_get(&self.tasks, id) {
                    None => {
                        return ManagerUpdate { rerender: false, effect: ManagerEffect::Warn(ManagerWarning::RetryNonExistent { id }) };
                    },
                    Some(task) => (task.name.clone(), match task.state {
                        AsyncTaskState::DismissOrRetry { .. } => true,
                        _ => false,
                    }),
                };
                if !retryable {
                    return ManagerUpdate { rerender: false, effect: ManagerEffect::Warn(ManagerWarning::RetryNotRetryable { id }) };
                }
                slab_set(&mut self.tasks, id, TaskSlot { name, state: AsyncTaskState::Pending {} });
                self.rebuild_view_context();
                ManagerUpdate { rerender: true, effect: ManagerEffect::RetryTask { id } }
            },
            ATMMessage::ControlContextRequest(ATMControlMessage::DismissAll {}) => {
                self.remove_tasks(true, 0)
            },
            ATMMessage::TaskUpdate { id, result } => {
                let (name, pending) = match slab_get(&self.tasks, id) {
                    None => {
                        return ManagerUpdate { rerender: false, effect: ManagerEffect::Warn(ManagerWarning::UpdateNonExistent { id }) };
                    },
                    Some(task) => (task.name.clone(), match task.state {
                        AsyncTaskState::Pending {} => true,
                        _ => false,
                    }),
                };
                if !pending {
                    return ManagerUpdate { rerender: false, effect: ManagerEffect::Warn(ManagerWarning::UpdateNotPending { id }) };
                }
                let effect = match result {
                    AsyncTaskResult::AutoDismiss { .. } => ManagerEffect::ScheduleAutoDismiss { id },
                    _ => ManagerEffect::Nothing,
                };
                let state = match result {
                    AsyncTaskResult::AutoDismiss { success } => AsyncTaskState::AutoDismiss { success },
                    AsyncTaskResult::ManualDismiss { success } => AsyncTaskState::ManualDismiss { success },
                    AsyncTaskResult::DismissOrRetry { success } => AsyncTaskState::DismissOrRetry { success },
                };
                slab_set(&mut self.tasks, id, TaskSlot { name, state });
                self.rebuild_view_context();
                ManagerUpdate { rerender: true, effect }
            },
            ATMMessage::AutoDismiss { id } => {
                let auto = match slab_get(&self.tasks, id) {
                    None => {
                        return ManagerUpdate { rerender: false, effect: ManagerEffect::Warn(ManagerWarning::AutoDismissNonExistent { id }) };
                    },
                    Some(task) => match task.state {
                        AsyncTaskState::AutoDismiss { .. } => true,
                        _ => false,
                    },
                };
                if !auto {
                    return ManagerUpdate { rerender: false, effect: ManagerEffect::Warn(ManagerWarning::AutoDismissNotAutoDismissable { id }) };
                }
                self.remove_task(id)
            },
        }
    }

    /// Adds a pending task at the end of the list and returns its id.
    fn add_task(&mut self, name: String) -> (id: usize)
        requires
            old(self).wf(),
        ensures
            final(self).wf(),
            !old(self).slots().contains_key(id),
            final(self).slots() == old(self).slots().insert(id, TaskSlot { name, state: AsyncTaskState::Pending {} }),
            final(self).order() == old(self).order().push(id),
    {
        proof { self.lemma_wf_slots_of_order(); }
        let id = slab_insert(&mut self.tasks, TaskSlot { name, state: AsyncTaskState::Pending {} });
        proof {
            assert(!self.task_order@.contains(id));
        }
        self.task_order.push(id);
        proof {
            assert forall|k: usize| #[trigger] task_slots(self.tasks).contains_key(k) implies self.task_order@.contains(k) by {
                if k == id {
                    assert(self.task_order@[self.task_order@.len() - 1] == id);
                } else {
                    assert(old(self).task_order@.contains(k));
                    let i = choose|i: int| 0 <= i < old(self).task_order@.len() && old(self).task_order@[i] == k;
                    assert(self.task_order@[i] == k);
                }
            }
        }
        self.rebuild_view_context();
        id
    }

    /// Takes out the task `id`, which must exist.
    fn remove_task(&mut self, id: usize) -> (u: ManagerUpdate)
        requires
            old(self).wf(),
            old(self).slots().contains_key(id),
        ensures
            final(self).wf(),
            final(self).slots() == old(self).slots().remove(id),
            final(self).order() == Self::kept_of(old(self).slots(), false, id, old(self).order()),
            u.rerender,
            u.effect matches ManagerEffect::Removed { ids } && ids@ == seq![id],
    {
        proof {
            self.lemma_wf_slots_of_order();
            let slots = task_slots(self.tasks);
            let order = self.task_order@;
            Self::lemma_split_membership(slots, false, id, order);
            let r = Self::removed_of(slots, false, id, order);
            assert(order.contains(id));
            assert(r.contains(id));
            if r.len() >= 2 {
                assert(r.contains(r[0]));
                assert(r.contains(r[1]));
                assert(r[0] == r[1]);
            }
            assert(r =~= seq![id]);
            assert(r.to_set() =~= set![id]);
            assert(slots.remove_keys(set![id]) =~= slots.remove(id));
        }
        self.remove_tasks(false, id)
    }

    /// Takes out the tasks that `drops` selects; renders again only if there were any.
    fn remove_tasks(&mut self, only_dismissable: bool, id: usize) -> (u: ManagerUpdate)
        requires
            old(self).wf(),
        ensures
            final(self).wf(),
            ({
                let removed = Self::removed_of(old(self).slots(), only_dismissable, id, old(self).order());
                if removed.len() == 0 {
                    &&& final(self).slots() == old(self).slots()
                    &&& final(self).order() == old(self).order()
                    &&& u.rerender == false
                    &&& u.effect is Nothing
                } else {
                    &&& final(self).order() == Self::kept_of(old(self).slots(), only_dismissable, id, old(self).order())
                    &&& final(self).slots() == old(self).slots().remove_keys(removed.to_set())
                    &&& u.rerender == true
                    &&& (u.effect matches ManagerEffect::Removed { ids } && ids@ == removed)
                }
            }),
    {
        proof { self.lemma_wf_slots_of_order(); }
        let ghost old_slots = task_slots(self.tasks);
        let ghost old_order = self.task_order@;
        let (kept, removed) = Self::retain_order(&self.task_order, &self.tasks, only_dismissable, id);
        proof {
            Self::lemma_split_membership(old_slots, only_dismissable, id, old_order);
        }
        if removed.len() == 0 {
            return ManagerUpdate { rerender: false, effect: ManagerEffect::Nothing };
        }
        let mut j: usize = 0;
        let m = removed.len();
        while j < m
            invariant
                m == removed@.len(),
                j <= m,
                removed@ == Self::removed_of(old_slots, only_dismissable, id, old_order),
                removed@.no_duplicates(),
                forall|k: usize| #[trigger] removed@.contains(k) ==> old_slots.contains_key(k),
                task_slots(self.tasks) == old_slots.remove_keys(removed@.take(j as int).to_set()),
            decreases m - j,
        {
            let k = removed[j];
            proof {
                assert(removed@.contains(k));
                assert(!removed@.take(j as int).contains(k)) by {
                    if removed@.take(j as int).contains(k) {
                        let t = choose|t: int| 0 <= t < j && removed@.take(j as int)[t] == k;
                        assert(removed@[t] == removed@[j as int]);
                    }
                }
                assert(!removed@.take(j as int).to_set().contains(k));
            }
            slab_remove(&mut self.tasks, k);
            j += 1;
            proof {
                assert(removed@.take(j as int) =~= removed@.take(j - 1).push(k));
                removed@.take(j - 1).lemma_push_to_set_commute(k);
                assert(task_slots(self.tasks) =~= old_slots.remove_keys(removed@.take(j as int).to_set()));
            }
        }
        proof {
            assert(removed@.take(m as int) =~= removed@);
        }
        self.task_order = kept;
        proof {
            assert forall|i: int| 0 <= i < self.task_order@.len() implies task_slots(self.tasks).contains_key(#[trigger] self.task_order@[i]) by {
                let x = self.task_order@[i];
                assert(kept@.contains(x));
                assert(old_order.contains(x));
                assert(!removed@.contains(x));
                assert(!removed@.to_set().contains(x));
            }
            assert forall|k: usize| #[trigger] task_slots(self.tasks).contains_key(k) implies self.task_order@.contains(k) by {
                assert(old_slots.contains_key(k));
                assert(!removed@.to_set().contains(k));
                assert(!removed@.contains(k));
                assert(old_order.contains(k));
                assert(kept@.contains(k));
            }
        }
        self.rebuild_view_context();
        ManagerUpdate { rerender: true, effect: ManagerEffect::Removed { ids: removed } }
    }

    /// "Dismiss all" leaves no task that could be dismissed, and keeps every task that could
    /// not be, in its place: the list afterwards is exactly the tasks still pending or waiting
    /// to be dismissed by themselves.
    pub proof fn lemma_dismiss_all_leaves_no_dismissable(
        slots: Map<usize, TaskSlot>,
        order: Seq<usize>,
        slots2: Map<usize, TaskSlot>,
        order2: Seq<usize>,
        u: ManagerUpdate,
    )
        requires
            forall|i: int| 0 <= i < order.len() ==> slots.contains_key(#[trigger] order[i]),
            Self::update_spec(slots, order, ATMMessage::ControlContextRequest(ATMControlMessage::DismissAll {}), slots2, order2, u),
        ensures
            forall|i: int| 0 <= i < order2.len() ==> slots2.contains_key(#[trigger] order2[i])
                && !is_dismissable(slots2[order2[i]].state)
                && slots2[order2[i]] == slots[order2[i]],
            forall|x: usize| order.contains(x) && !is_dismissable(slots[x].state) ==> #[trigger] order2.contains(x),
            order2 == order.filter(|x: usize| !is_dismissable(slots[x].state)),
    {
        Self::lemma_split_membership(slots, true, 0, order);
        let removed = Self::removed_of(slots, true, 0, order);
        let kept = Self::kept_of(slots, true, 0, order);
        assert(kept == order.filter(|x: usize| !is_dismissable(slots[x].state))) by {
            let p1 = |x: usize| !Self::drops(slots, true, 0, x);
            let p2 = |x: usize| !is_dismissable(slots[x].state);
            assert(p1 =~= p2);
        }
        if removed.len() == 0 {
            assert forall|x: usize| order.contains(x) implies !Self::drops(slots, true, 0, x) by {
                if Self::drops(slots, true, 0, x) {
                    assert(removed.contains(x));
                }
            }
            assert(kept =~= order) by {
                lemma_filter_all_kept(order, |x: usize| !Self::drops(slots, true, 0, x));
            }
        }
        assert forall|i: int| 0 <= i < order2.len() implies slots2.contains_key(#[trigger] order2[i])
            && !is_dismissable(slots2[order2[i]].state)
            && slots2[order2[i]] == slots[order2[i]] by {
            let x = order2[i];
            assert(order2.contains(x));
            assert(kept.contains(x));
            assert(!removed.to_set().contains(x));
        }
    }

    /// What handling `msg` does: `slots`/`order` before, `slots2`/`order2` after, `u` the outcome.
    pub open spec fn update_spec(
        slots: Map<usize, TaskSlot>,
        order: Seq<usize>,
        msg: ATMMessage,
        slots2: Map<usize, TaskSlot>,
        order2: Seq<usize>,
        u: ManagerUpdate,
    ) -> bool {
        let unchanged = slots2 == slots && order2 == order;
        match msg {
            ATMMessage::ControlContextRequest(ATMControlMessage::NewTask { name }) => {
                &&& u.rerender
                &&& u.effect matches ManagerEffect::StartTask { id }
                &&& !slots.contains_key(id)
                &&& slots2 == slots.insert(id, TaskSlot { name, state: AsyncTaskState::Pending {} })
                &&& order2 == order.push(id)
            },
            ATMMessage::ControlContextRequest(ATMControlMessage::DismissTask { id }) => {
                if !slots.contains_key(id) {
                    unchanged && !u.rerender && u.effect == ManagerEffect::Warn(ManagerWarning::DismissNonExistent { id })
                } else if !is_dismissable(slots[id].state) {
                    unchanged && !u.rerender && u.effect == ManagerEffect::Warn(ManagerWarning::DismissNotDismissable { id })
                } else {
                    &&& slots2 == slots.remove(id)
                    &&& order2 == Self::kept_of(slots, false, id, order)
                    &&& u.rerender
                    &&& u.effect matches ManagerEffect::Removed { ids } && ids@ == seq![id]
                }
            },
            ATMMessage::ControlContextRequest(ATMControlMessage::RetryTask { id }) => {
                if !slots.contains_key(id) {
                    unchanged && !u.rerender && u.effect == ManagerEffect::Warn(ManagerWarning::RetryNonExistent { id })
                } else if !(slots[id].state is DismissOrRetry) {
                    unchanged && !u.rerender && u.effect == ManagerEffect::Warn(ManagerWarning::RetryNotRetryable { id })
                } else {
                    &&& slots2 == slots.insert(id, TaskSlot { name: slots[id].name, state: AsyncTaskState::Pending {} })
                    &&& order2 == order
                    &&& u.rerender
                    &&& u.effect == ManagerEffect::RetryTask { id }
                }
            },
            ATMMessage::ControlContextRequest(ATMControlMessage::DismissAll {}) => {
                let removed = Self::removed_of(slots, true, 0, order);
                if removed.len() == 0 {
                    unchanged && !u.rerender && u.effect == ManagerEffect::Nothing
                } else {
                    &&& order2 == Self::kept_of(slots, true, 0, order)
                    &&& slots2 == slots.remove_keys(removed.to_set())
                    &&& u.rerender
                    &&& u.effect matches ManagerEffect::Removed { ids } && ids@ == removed
                }
            },
            ATMMessage::TaskUpdate { id, result } => {
                if !slots.contains_key(id) {
                    unchanged && !u.rerender && u.effect == ManagerEffect::Warn(ManagerWarning::UpdateNonExistent { id })
                } else if !(slots[id].state is Pending) {
                    unchanged && !u.rerender && u.effect == ManagerEffect::Warn(ManagerWarning::UpdateNotPending { id })
                } else {
                    &&& slots2 == slots.insert(id, TaskSlot { name: slots[id].name, state: result_state(result) })
                    &&& order2 == order
                    &&& u.rerender
                    &&& if result is AutoDismiss {
                        u.effect == ManagerEffect::ScheduleAutoDismiss { id }
                    } else {
                        u.effect == ManagerEffect::Nothing
                    }
                }
            },
            ATMMessage::AutoDismiss { id } => {
                if !slots.contains_key(id) {
                    unchanged && !u.rerender && u.effect == ManagerEffect::Warn(ManagerWarning::AutoDismissNonExistent { id })
                } else if !(slots[id].state is AutoDismiss) {
                    unchanged && !u.rerender && u.effect == ManagerEffect::Warn(ManagerWarning::AutoDismissNotAutoDismissable { id })
                } else {
                    &&& slots2 == slots.remove(id)
                    &&& order2 == Self::kept_of(slots, false, id, order)
                    &&& u.rerender
                    &&& u.effect matches ManagerEffect::Removed { ids } && ids@ == seq![id]
                }
            },
        }
    }
}

} // verus!
