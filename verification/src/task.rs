//! Tasks, their statuses, and the registry that owns them.

use crate::metadata::{contains_uid, Metadata, MetadataView, Priority};
use crate::uid::UID;
use vstd::prelude::*;
use vstd::string::*;

verus! {

/// Where a task stands. The variants are written in the order in which
/// listings show them. Every status may follow every other.
#[derive(Clone, Copy, Debug, PartialEq, Eq, Structural, PartialOrd, Ord, Hash)]
pub enum Status {
    Ongoing,
    Todo,
    Done,
    Cancelled,
}

impl Status {
    /// The place of the status in listings, from 0 for the first shown.
    pub open spec fn precedence(self) -> nat {
        match self {
            Status::Ongoing => 0,
            Status::Todo => 1,
            Status::Done => 2,
            Status::Cancelled => 3,
        }
    }

    /// The place of the status in listings, from 0 for the first shown.
    pub fn order(self) -> (r: u8)
        ensures
            r == self.precedence(),
    {
        match self {
            Status::Ongoing => 0,
            Status::Todo => 1,
            Status::Done => 2,
            Status::Cancelled => 3,
        }
    }
}

/// A task.
pub struct Task {
    name: String,
    status: Status,
    priority: Option<Priority>,
    project: Option<String>,
    creation_date: Option<i64>,
    spent_time: u64,
    dependencies: Vec<UID>,
}

/// What a task holds. Moments are whole seconds since the Unix epoch, the
/// spent time is in whole seconds.
pub struct TaskView {
    pub name: Seq<char>,
    pub status: Status,
    pub priority: Option<Priority>,
    pub project: Option<Seq<char>>,
    pub creation_date: Option<i64>,
    pub spent_time: u64,
    pub dependencies: Seq<UID>,
}

/// The list `base`, followed by those of `more` that it lacks, each once.
pub open spec fn merged(base: Seq<UID>, more: Seq<UID>) -> Seq<UID>
    decreases more.len(),
{
    if more.len() == 0 {
        base
    } else {
        let before = merged(base, more.drop_last());
        if before.contains(more.last()) {
            before
        } else {
            before.push(more.last())
        }
    }
}

/// A task as it is when created: to do, with nothing spent and no tags.
/// Of the dependencies given, each is kept once.
pub open spec fn fresh_task(
    name: Seq<char>,
    dependencies: Seq<UID>,
    creation_date: Option<i64>,
) -> TaskView {
    TaskView {
        name,
        status: Status::Todo,
        priority: None,
        project: None,
        creation_date,
        spent_time: 0,
        dependencies: merged(Seq::empty(), dependencies),
    }
}

impl TaskView {
    /// What holds of every task that the library makes: no task occurs
    /// twice among its dependencies.
    pub open spec fn wf(self) -> bool {
        self.dependencies.no_duplicates()
    }

    /// The task after a bundle was merged into it: a field that the bundle
    /// sets is overwritten, one that it leaves unset is kept, and the
    /// dependencies of the bundle join those of the task.
    pub open spec fn applied(self, bundle: MetadataView) -> TaskView {
        TaskView {
            priority: if bundle.priority is Some {
                bundle.priority
            } else {
                self.priority
            },
            project: if bundle.project is Some {
                bundle.project
            } else {
                self.project
            },
            dependencies: merged(self.dependencies, bundle.dependencies),
            ..self
        }
    }

    /// The task with another status.
    pub open spec fn with_status(self, status: Status) -> TaskView {
        TaskView { status, ..self }
    }

    /// The task with another name.
    pub open spec fn with_name(self, name: Seq<char>) -> TaskView {
        TaskView { name, ..self }
    }
}

impl View for Task {
    type V = TaskView;

    closed spec fn view(&self) -> TaskView {
        TaskView {
            name: self.name@,
            status: self.status,
            priority: self.priority,
            project: match self.project {
                Some(p) => Some(p@),
                None => None,
            },
            creation_date: self.creation_date,
            spent_time: self.spent_time,
            dependencies: self.dependencies@,
        }
    }
}

/// Adds to the list those of `more` that it lacks, each once.
fn merge_into(list: &mut Vec<UID>, more: &Vec<UID>)
    ensures
        final(list)@ == merged(old(list)@, more@),
{
    let mut i: usize = 0;
    while i < more.len()
        invariant
            i <= more.len(),
            list@ == merged(old(list)@, more@.take(i as int)),
        decreases more.len() - i,
    {
        let uid = more[i];
        proof {
            assert(more@.take(i + 1).drop_last() =~= more@.take(i as int));
        }
        if !contains_uid(list, uid) {
            list.push(uid);
        }
        i = i + 1;
    }
    assert(more@.take(more.len() as int) =~= more@);
}

/// Merging keeps a list free of repeats so, and the merged list holds
/// exactly what either list holds.
pub proof fn lemma_merged(base: Seq<UID>, more: Seq<UID>)
    requires
        base.no_duplicates(),
    ensures
        merged(base, more).no_duplicates(),
        forall|uid: UID|
            merged(base, more).contains(uid) <==> base.contains(uid) || more.contains(uid),
    decreases more.len(),
{
    if more.len() > 0 {
        let init = more.drop_last();
        let before = merged(base, init);
        let after = merged(base, more);
        lemma_merged(base, init);
        assert forall|uid: UID| after.contains(uid) <==> base.contains(uid) || more.contains(
            uid,
        ) by {
            let added = more.last() == uid;
            if init.contains(uid) {
                let i = choose|i: int| 0 <= i < init.len() && init[i] == uid;
                assert(more[i] == uid);
            }
            if added {
                assert(more[more.len() - 1] == uid);
            }
            if more.contains(uid) {
                let i = choose|i: int| 0 <= i < more.len() && more[i] == uid;
                if i < init.len() {
                    assert(init[i] == uid);
                }
            }
            assert(more.contains(uid) <==> init.contains(uid) || added);
            if before.contains(uid) {
                let k = choose|k: int| 0 <= k < before.len() && before[k] == uid;
                assert(after[k] == uid);
            }
            if added && !before.contains(uid) {
                assert(after[after.len() - 1] == uid);
            }
            if after.contains(uid) {
                let k = choose|k: int| 0 <= k < after.len() && after[k] == uid;
                if k < before.len() {
                    assert(before[k] == uid);
                }
            }
        }
    }
}

impl Task {
    /// A new task, to do, created at the moment `now`.
    pub fn created_at(name: String, dependencies: Vec<UID>, now: i64) -> (task: Task)
        ensures
            task@ == fresh_task(name@, dependencies@, Some(now)),
            task@.wf(),
    {
        Task::from_parts(name, Status::Todo, None, None, Some(now), 0, dependencies)
    }

    /// A new task, to do, without a creation date.
    pub fn new(name: String, dependencies: Vec<UID>) -> (task: Task)
        ensures
            task@ == fresh_task(name@, dependencies@, None),
            task@.wf(),
    {
        Task::from_parts(name, Status::Todo, None, None, None, 0, dependencies)
    }

    /// A task put together from its fields. Of the dependencies given, each
    /// is kept once.
    pub fn from_parts(
        name: String,
        status: Status,
        priority: Option<Priority>,
        project: Option<String>,
        creation_date: Option<i64>,
        spent_time: u64,
        dependencies: Vec<UID>,
    ) -> (task: Task)
        ensures
            task@ == (TaskView {
                name: name@,
                status,
                priority,
                project: match project {
                    Some(p) => Some(p@),
                    None => None,
                },
                creation_date,
                spent_time,
                dependencies: merged(Seq::empty(), dependencies@),
            }),
            task@.wf(),
    {
        let mut kept: Vec<UID> = Vec::new();
        merge_into(&mut kept, &dependencies);
        proof {
            lemma_merged(Seq::empty(), dependencies@);
        }
        Task { name, status, priority, project, creation_date, spent_time, dependencies: kept }
    }

    /// Merges a bundle into the task.
    pub fn apply_metadata(&mut self, bundle: Metadata)
        ensures
            final(self)@ == old(self)@.applied(bundle@),
            old(self)@.wf() ==> final(self)@.wf(),
    {
        match bundle.priority() {
            Some(p) => {
                self.priority = Some(p);
            },
            None => {},
        }
        match bundle.project() {
            Some(label) => {
                self.project = Some(String::from_str(label));
            },
            None => {},
        }
        merge_into(&mut self.dependencies, bundle.dependencies());
        proof {
            if old(self)@.wf() {
                lemma_merged(old(self)@.dependencies, bundle@.dependencies);
            }
        }
    }

    /// Sets the status, whatever it was.
    pub fn change_status(&mut self, status: Status)
        ensures
            final(self)@ == old(self)@.with_status(status),
    {
        self.status = status;
    }

    /// Replaces the name.
    pub fn change_name(&mut self, name: String)
        ensures
            final(self)@ == old(self)@.with_name(name@),
    {
        self.name = name;
    }

    /// Sets the time spent on the task so far, in seconds.
    pub fn set_spent_time(&mut self, seconds: u64)
        ensures
            final(self)@ == (TaskView { spent_time: seconds, ..old(self)@ }),
    {
        self.spent_time = seconds;
    }

    /// The task's name.
    pub fn name(&self) -> (r: &str)
        ensures
            r@ == self@.name,
    {
        self.name.as_str()
    }

    /// The task's status.
    pub fn status(&self) -> (r: Status)
        ensures
            r == self@.status,
    {
        self.status
    }

    /// The task's priority, if it has one.
    pub fn priority(&self) -> (r: Option<Priority>)
        ensures
            r == self@.priority,
    {
        self.priority
    }

    /// The task's project, if it has one.
    pub fn project(&self) -> (r: Option<&str>)
        ensures
            r is Some == self@.project is Some,
            r is Some ==> r->Some_0@ == self@.project->Some_0,
    {
        match &self.project {
            Some(p) => Some(p.as_str()),
            None => None,
        }
    }

    /// The moment the task was created at, in seconds since the Unix epoch.
    pub fn creation_date(&self) -> (r: Option<i64>)
        ensures
            r == self@.creation_date,
    {
        self.creation_date
    }

    /// The time spent on the task so far, in seconds.
    pub fn spent_time(&self) -> (r: u64)
        ensures
            r == self@.spent_time,
    {
        self.spent_time
    }

    /// The tasks that this one depends on.
    pub fn dependencies(&self) -> (r: &Vec<UID>)
        ensures
            r@ == self@.dependencies,
    {
        &self.dependencies
    }
}

/// A task under its identifier.
pub struct Entry {
    pub uid: UID,
    pub task: Task,
}

/// What a list of entries holds.
pub open spec fn entries_view(entries: Seq<Entry>) -> Seq<(UID, TaskView)> {
    Seq::new(entries.len(), |i: int| (entries[i].uid, entries[i].task@))
}

/// The registry: the tasks, each under the identifier it was given, and the
/// counter from which identifiers are taken.
pub struct TaskManager {
    entries: Vec<Entry>,
    next_uid: u64,
}

/// What a registry holds: the tasks in the order in which they were
/// registered, and the next identifier to give out.
pub struct RegistryView {
    pub entries: Seq<(UID, TaskView)>,
    pub next_uid: nat,
}

impl RegistryView {
    /// What holds of every registry: identifiers are positive, grow along the
    /// entries, and lie below the next one to give out.
    pub open spec fn wf(self) -> bool {
        &&& 1 <= self.next_uid <= u64::MAX
        &&& forall|i: int|
            0 <= i < self.entries.len() ==> 1 <= (#[trigger] self.entries[i]).0.0 < self.next_uid
        &&& forall|i: int, j: int|
            0 <= i < j < self.entries.len() ==> (#[trigger] self.entries[i]).0.0 < (
            #[trigger] self.entries[j]).0.0
    }

    /// Whether a task stands under the identifier.
    pub open spec fn has(self, uid: UID) -> bool {
        exists|i: int| 0 <= i < self.entries.len() && (#[trigger] self.entries[i]).0 == uid
    }

    /// The place of the identifier among the entries.
    pub open spec fn index_of(self, uid: UID) -> int {
        choose|i: int| 0 <= i < self.entries.len() && (#[trigger] self.entries[i]).0 == uid
    }

    /// The task under the identifier.
    pub open spec fn task_of(self, uid: UID) -> TaskView {
        self.entries[self.index_of(uid)].1
    }

    /// The registry with another task under the identifier.
    pub open spec fn with_task(self, uid: UID, task: TaskView) -> RegistryView {
        RegistryView { entries: self.entries.update(self.index_of(uid), (uid, task)), ..self }
    }

    /// The registry after a task was registered: the task stands last, under
    /// the identifier that was next, and the counter has moved on.
    pub open spec fn registered(self, task: TaskView) -> RegistryView {
        RegistryView {
            entries: self.entries.push((UID(self.next_uid as u64), task)),
            next_uid: self.next_uid + 1,
        }
    }

    /// The registry after the identifier's task was removed: the counter stays.
    pub open spec fn removed(self, uid: UID) -> RegistryView {
        RegistryView { entries: self.entries.remove(self.index_of(uid)), ..self }
    }
}

impl View for TaskManager {
    type V = RegistryView;

    closed spec fn view(&self) -> RegistryView {
        RegistryView {
            entries: entries_view(self.entries@),
            next_uid: self.next_uid as nat,
        }
    }
}

impl TaskManager {
    /// An empty registry, whose first identifier will be 1.
    pub fn new() -> (mgr: TaskManager)
        ensures
            mgr@.wf(),
            mgr@.entries.len() == 0,
            mgr@.next_uid == 1,
    {
        TaskManager { entries: Vec::new(), next_uid: 1 }
    }

    /// Puts a registry together again from what was stored: its entries and
    /// its counter. They are taken if and only if they are in order: the
    /// identifiers positive, growing, and below the counter.
    pub fn restore(entries: Vec<Entry>, next_uid: u64) -> (r: Option<TaskManager>)
        ensures
            r is Some <==> (RegistryView {
                entries: entries_view(entries@),
                next_uid: next_uid as nat,
            }).wf(),
            r is Some ==> r->Some_0@ == (RegistryView {
                entries: entries_view(entries@),
                next_uid: next_uid as nat,
            }),
    {
        let ghost reg = RegistryView {
            entries: entries_view(entries@),
            next_uid: next_uid as nat,
        };
        if next_uid < 1 {
            return None;
        }
        let mut last: u64 = 0;
        let mut i: usize = 0;
        while i < entries.len()
            invariant
                i <= entries.len(),
                reg.entries == entries_view(entries@),
                reg.next_uid == next_uid,
                last < next_uid,
                i == 0 ==> last == 0,
                i > 0 ==> last == reg.entries[i - 1].0.0,
                forall|j: int| 0 <= j < i ==> 1 <= (#[trigger] reg.entries[j]).0.0 < next_uid,
                forall|j: int, k: int|
                    0 <= j < k < i ==> (#[trigger] reg.entries[j]).0.0 < (
                    #[trigger] reg.entries[k]).0.0,
            decreases entries.len() - i,
        {
            let uid = entries[i].uid.val();
            assert(reg.entries[i as int].0.0 == uid);
            if uid <= last || uid >= next_uid {
                proof {
                    let here = reg.entries[i as int];
                    if uid >= next_uid || uid < 1 {
                        assert(!(1 <= here.0.0 < reg.next_uid));
                    } else {
                        let there = reg.entries[i - 1];
                        assert(!(there.0.0 < here.0.0));
                    }
                    assert(!reg.wf());
                }
                return None;
            }
            assert forall|j: int, k: int| 0 <= j < k < i + 1 implies (#[trigger] reg.entries[j]).0.0
                < (#[trigger] reg.entries[k]).0.0 by {
                if k == i && j < i - 1 {
                    assert(reg.entries[j].0.0 < reg.entries[i - 1].0.0);
                }
            }
            last = uid;
            i = i + 1;
        }
        let mgr = TaskManager { entries, next_uid };
        assert(mgr@.entries =~= reg.entries);
        Some(mgr)
    }

    /// The identifier that the next registered task will get.
    pub fn next_uid(&self) -> (r: u64)
        ensures
            r == self@.next_uid,
    {
        self.next_uid
    }

    /// The number of tasks.
    pub fn len(&self) -> (r: usize)
        ensures
            r == self@.entries.len(),
    {
        self.entries.len()
    }

    /// The place of the identifier among the entries, if a task stands under it.
    fn position(&self, uid: UID) -> (r: Option<usize>)
        requires
            self@.wf(),
        ensures
            r is Some <==> self@.has(uid),
            r is Some ==> r->Some_0 == self@.index_of(uid) && r->Some_0 < self.entries.len(),
    {
        let mut i: usize = 0;
        while i < self.entries.len()
            invariant
                i <= self.entries.len(),
                self@.wf(),
                forall|j: int| 0 <= j < i ==> (#[trigger] self@.entries[j]).0 != uid,
            decreases self.entries.len() - i,
        {
            if self.entries[i].uid == uid {
                proof {
                    assert(self@.entries[i as int].0 == uid);
                    assert(self@.has(uid));
                    let j = self@.index_of(uid);
                    assert(0 <= j < self@.entries.len() && self@.entries[j].0 == uid);
                    if j < i {
                        assert(self@.entries[j].0.0 < self@.entries[i as int].0.0);
                    } else if j > i {
                        assert(self@.entries[i as int].0.0 < self@.entries[j].0.0);
                    }
                }
                return Some(i);
            }
            i = i + 1;
        }
        None
    }

    /// Takes the task into the registry under the next identifier, which is
    /// larger than every identifier given out before.
    pub fn register_task(&mut self, task: Task) -> (uid: UID)
        requires
            old(self)@.wf(),
            old(self)@.next_uid < u64::MAX,
        ensures
            final(self)@.wf(),
            uid.0 == old(self)@.next_uid,
            final(self)@ == old(self)@.registered(task@),
    {
        let uid = UID(self.next_uid);
        self.entries.push(Entry { uid, task });
        self.next_uid = self.next_uid + 1;
        assert(self@.entries =~= old(self)@.registered(task@).entries);
        uid
    }

    /// The task under the identifier, if there is one.
    pub fn get(&self, uid: UID) -> (r: Option<&Task>)
        requires
            self@.wf(),
        ensures
            r is Some <==> self@.has(uid),
            r is Some ==> r->Some_0@ == self@.task_of(uid),
    {
        match self.position(uid) {
            Some(i) => Some(&self.entries[i].task),
            None => None,
        }
    }

    /// The task under the identifier, to be changed in place, if there is
    /// one. Whatever is done to the task, the registry stays in order.
    pub fn get_mut(&mut self, uid: UID) -> (r: Option<&mut Task>)
        requires
            old(self)@.wf(),
        ensures
            r is Some <==> old(self)@.has(uid),
            r is None ==> final(self)@ == old(self)@,
            r is Some ==> r->Some_0@ == old(self)@.task_of(uid),
            r is Some ==> final(self)@.next_uid == old(self)@.next_uid,
            r is Some ==> final(self)@.entries =~= old(self)@.with_task(
                uid,
                final(r->Some_0)@,
            ).entries,
    {
        match self.position(uid) {
            Some(i) => {
                Some(&mut self.entries[i].task)
            },
            None => None,
        }
    }

    /// Removes the task under the identifier, if there is one, and says
    /// whether there was. The identifier is not given out again.
    pub fn remove(&mut self, uid: UID) -> (found: bool)
        requires
            old(self)@.wf(),
        ensures
            final(self)@.wf(),
            found == old(self)@.has(uid),
            found ==> final(self)@ == old(self)@.removed(uid),
            !found ==> final(self)@ == old(self)@,
    {
        match self.position(uid) {
            Some(i) => {
                let _ = self.entries.remove(i);
                assert(self@.entries =~= old(self)@.removed(uid).entries);
                true
            },
            None => false,
        }
    }

    /// The tasks with their identifiers, in the order of the entries.
    pub fn tasks(&self) -> (r: Vec<(UID, &Task)>)
        ensures
            rows_of(r@) == self@.entries,
    {
        let mut out: Vec<(UID, &Task)> = Vec::new();
        let mut i: usize = 0;
        while i < self.entries.len()
            invariant
                i <= self.entries.len(),
                out@.len() == i,
                forall|j: int|
                    0 <= j < i ==> (#[trigger] out@[j]).0 == self.entries@[j].uid && *out@[j].1
                        == self.entries@[j].task,
            decreases self.entries.len() - i,
        {
            out.push((self.entries[i].uid, &self.entries[i].task));
            i = i + 1;
        }
        assert(rows_of(out@) =~= self@.entries);
        out
    }
}

/// A bundle that sets nothing changes nothing.
pub proof fn lemma_apply_empty(task: TaskView)
    ensures
        task.applied(crate::metadata::empty_bundle()) == task,
{
    assert(crate::metadata::empty_bundle().dependencies.len() == 0);
}

/// Something done to a registry.
pub enum RegistryOp {
    /// A task is registered.
    Register(TaskView),
    /// The task under the identifier, if there is one, is removed.
    Remove(UID),
}

impl RegistryView {
    /// The registry after the operations, in their order.
    pub open spec fn after(self, ops: Seq<RegistryOp>) -> RegistryView
        decreases ops.len(),
    {
        if ops.len() == 0 {
            self
        } else {
            let before = self.after(ops.drop_last());
            match ops.last() {
                RegistryOp::Register(task) => before.registered(task),
                RegistryOp::Remove(uid) => if before.has(uid) {
                    before.removed(uid)
                } else {
                    before
                },
            }
        }
    }

    /// The identifiers that the operations' registrations were given, in
    /// their order.
    pub open spec fn issued(self, ops: Seq<RegistryOp>) -> Seq<UID>
        decreases ops.len(),
    {
        if ops.len() == 0 {
            Seq::empty()
        } else {
            let before = self.after(ops.drop_last());
            match ops.last() {
                RegistryOp::Register(task) => self.issued(ops.drop_last()).push(
                    UID(before.next_uid as u64),
                ),
                RegistryOp::Remove(uid) => self.issued(ops.drop_last()),
            }
        }
    }
}

/// Whatever is removed in between, registrations are given consecutive
/// identifiers from the registry's counter on: each is larger than the one
/// before it and than every identifier that the registry held, so none is
/// given twice.
pub proof fn lemma_uids_increase(reg: RegistryView, ops: Seq<RegistryOp>)
    requires
        reg.wf(),
        reg.next_uid + ops.len() <= u64::MAX,
    ensures
        reg.after(ops).next_uid == reg.next_uid + reg.issued(ops).len(),
        reg.issued(ops).len() <= ops.len(),
        forall|i: int|
            0 <= i < reg.issued(ops).len() ==> (#[trigger] reg.issued(ops)[i]).0 == reg.next_uid
                + i,
        forall|i: int, j: int|
            0 <= i < j < reg.issued(ops).len() ==> (#[trigger] reg.issued(ops)[i]).0 < (
            #[trigger] reg.issued(ops)[j]).0,
        forall|i: int, k: int|
            0 <= i < reg.issued(ops).len() && 0 <= k < reg.entries.len() ==> (
            #[trigger] reg.entries[k]).0.0 < (#[trigger] reg.issued(ops)[i]).0,
    decreases ops.len(),
{
    if ops.len() > 0 {
        lemma_uids_increase(reg, ops.drop_last());
    }
}

/// Putting another task under an identifier that is taken keeps the registry
/// in order and the identifier taken; putting the same task there changes
/// nothing.
pub proof fn lemma_with_task(reg: RegistryView, uid: UID, task: TaskView)
    requires
        reg.wf(),
        reg.has(uid),
    ensures
        reg.with_task(uid, task).wf(),
        reg.with_task(uid, task).has(uid),
        reg.with_task(uid, task).task_of(uid) == task,
        reg.with_task(uid, reg.task_of(uid)) == reg,
{
    let i = reg.index_of(uid);
    let after = reg.with_task(uid, task);
    assert(0 <= i < reg.entries.len() && reg.entries[i].0 == uid);
    assert forall|k: int| 0 <= k < after.entries.len() implies (#[trigger] after.entries[k]).0
        == reg.entries[k].0 by {}
    assert(after.entries[i].0 == uid);
    let j = after.index_of(uid);
    assert(0 <= j < after.entries.len() && after.entries[j].0 == uid);
    if j < i {
        assert(reg.entries[j].0.0 < reg.entries[i].0.0);
    } else if j > i {
        assert(reg.entries[i].0.0 < reg.entries[j].0.0);
    }
    assert(reg.with_task(uid, reg.task_of(uid)).entries =~= reg.entries);
}

/// What a list of identified tasks holds.
pub open spec fn rows_of(rows: Seq<(UID, &Task)>) -> Seq<(UID, TaskView)> {
    Seq::new(rows.len(), |i: int| (rows[i].0, rows[i].1@))
}

} // verus!
