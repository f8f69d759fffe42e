//! What each command does to the registry and what it has to show.

use crate::cli::{
    add_fault, add_task, described_task, edit_task_of, edited, lines_view, list_tasks, listing,
    visible, Cell, CellView, SubCommand,
};
use crate::config::Config;
use crate::metadata::{parsed_bundle, texts, ValidationError, ValidationErrorView};
use crate::task::{lemma_with_task, RegistryView, Status, TaskManager};
use crate::uid::UID;
use vstd::prelude::*;
use vstd::string::*;

verus! {

/// What the user is told when a command cannot be carried out.
#[derive(Clone, Copy, Debug, PartialEq, Eq, Structural)]
pub enum Notice {
    CannotAddToTask,
    MissingTaskToEdit,
    MissingTask,
    MissingTaskToStart,
    MissingTaskToFinish,
    MissingTaskToCancel,
}

impl Notice {
    /// The words of the notice.
    pub open spec fn message_text(self) -> Seq<char> {
        match self {
            Notice::CannotAddToTask =>
                "cannot add a task to another one; maybe you were looking for dependencies instead?"@,
            Notice::MissingTaskToEdit => "missing or unknown task to edit"@,
            Notice::MissingTask => "missing or unknown task"@,
            Notice::MissingTaskToStart => "missing or unknown task to start"@,
            Notice::MissingTaskToFinish => "missing or unknown task to finish"@,
            Notice::MissingTaskToCancel => "missing or unknown task to cancel"@,
        }
    }

    /// The words of the notice.
    pub fn message(self) -> (r: &'static str)
        ensures
            r@ == self.message_text(),
    {
        match self {
            Notice::CannotAddToTask =>
                "cannot add a task to another one; maybe you were looking for dependencies instead?",
            Notice::MissingTaskToEdit => "missing or unknown task to edit",
            Notice::MissingTask => "missing or unknown task",
            Notice::MissingTaskToStart => "missing or unknown task to start",
            Notice::MissingTaskToFinish => "missing or unknown task to finish",
            Notice::MissingTaskToCancel => "missing or unknown task to cancel",
        }
    }
}

/// What a command leaves to be done by whoever ran it.
#[derive(Debug)]
pub enum Outcome {
    /// A listing to show; the registry is as it was.
    Listed(Vec<Vec<Cell>>),
    /// A task was added: the registry is to be saved and the lines shown.
    Added(Vec<Vec<Cell>>),
    /// A task was changed: the registry is to be saved.
    Updated,
    /// Nothing was done; the notice says why.
    Refused(Notice),
    /// Nothing was done and there is nothing to say.
    Nothing,
}

/// What an outcome holds.
pub enum OutcomeView {
    Listed(Seq<Seq<CellView>>),
    Added(Seq<Seq<CellView>>),
    Updated,
    Refused(Notice),
    Nothing,
}

impl View for Outcome {
    type V = OutcomeView;

    open spec fn view(&self) -> OutcomeView {
        match self {
            Outcome::Listed(lines) => OutcomeView::Listed(lines_view(lines@)),
            Outcome::Added(lines) => OutcomeView::Added(lines_view(lines@)),
            Outcome::Updated => OutcomeView::Updated,
            Outcome::Refused(notice) => OutcomeView::Refused(*notice),
            Outcome::Nothing => OutcomeView::Nothing,
        }
    }
}

/// What the result of a command holds.
pub open spec fn result_view(r: Result<Outcome, ValidationError>) -> Result<
    OutcomeView,
    ValidationErrorView,
> {
    match r {
        Ok(outcome) => Ok(outcome@),
        Err(e) => Err(e@),
    }
}

/// The statuses that a listing shows, as (to do, ongoing, cancelled, done):
/// all of them where all are asked for; those to do and the ongoing where
/// none is asked for; else those asked for.
pub open spec fn effective_filter(
    todo: bool,
    start: bool,
    cancelled: bool,
    done: bool,
    all: bool,
) -> (bool, bool, bool, bool) {
    if all {
        (true, true, true, true)
    } else if !(todo || start || done || cancelled) {
        (true, true, false, false)
    } else {
        (todo, start, cancelled, done)
    }
}

/// The listing that the list command shows at the moment `now`.
pub open spec fn default_listing(
    config: &Config,
    reg: RegistryView,
    todo: bool,
    start: bool,
    cancelled: bool,
    done: bool,
    all: bool,
    now: i64,
) -> Seq<Seq<CellView>> {
    let filter = effective_filter(todo, start, cancelled, done, all);
    listing(config, visible(reg.entries, filter.0, filter.1, filter.2, filter.3), now)
}

/// Lays out, at the moment `now`, the listing that the list command shows.
pub fn default_list(
    config: &Config,
    task_mgr: &TaskManager,
    todo: bool,
    start: bool,
    cancelled: bool,
    done: bool,
    all: bool,
    now: i64,
) -> (lines: Vec<Vec<Cell>>)
    ensures
        lines_view(lines@) == default_listing(
            config,
            task_mgr@,
            todo,
            start,
            cancelled,
            done,
            all,
            now,
        ),
{
    let mut todo = todo;
    let mut start = start;
    let mut cancelled = cancelled;
    let mut done = done;
    if all {
        todo = true;
        start = true;
        done = true;
        cancelled = true;
    } else if !(todo || start || done || cancelled) {
        todo = true;
        start = true;
    }
    list_tasks(config, task_mgr, todo, start, cancelled, done, now)
}

/// Whether the command names a task of the registry.
pub open spec fn targets(reg: RegistryView, task_uid: Option<UID>) -> bool {
    task_uid is Some && reg.has(task_uid->Some_0)
}

/// The registry after the named task, if it is there, got the status.
pub open spec fn status_set(reg: RegistryView, task_uid: Option<UID>, status: Status) -> RegistryView {
    if targets(reg, task_uid) {
        let uid = task_uid->Some_0;
        reg.with_task(uid, reg.task_of(uid).with_status(status))
    } else {
        reg
    }
}

/// The outcome of a status command.
pub open spec fn status_outcome(reg: RegistryView, task_uid: Option<UID>, notice: Notice) -> Result<
    OutcomeView,
    ValidationErrorView,
> {
    if targets(reg, task_uid) {
        Ok(OutcomeView::Updated)
    } else {
        Ok(OutcomeView::Refused(notice))
    }
}

/// The registry after a command, run at the moment `now`.
///
/// Adding registers the described task, unless a task is named, the phrase
/// is refused or it leaves no name. Editing changes the named task, unless the phrase is
/// refused or makes the task depend on itself. A status command sets the
/// status of the named task. Nothing else changes the registry, and where
/// no task of the registry is named nothing changes.
pub open spec fn registry_after(
    reg: RegistryView,
    subcmd: Option<SubCommand>,
    task_uid: Option<UID>,
    now: i64,
) -> RegistryView {
    match subcmd {
        Some(SubCommand::Add { start, done, content }) => {
            if task_uid is None && add_fault(texts(content@)) is None {
                reg.registered(described_task(texts(content@), start, done, now))
            } else {
                reg
            }
        },
        Some(SubCommand::Edit { content }) => {
            if targets(reg, task_uid) && parsed_bundle(texts(content@)).valid_for(
                task_uid->Some_0,
            ) {
                reg.with_task(
                    task_uid->Some_0,
                    edited(reg.task_of(task_uid->Some_0), texts(content@)),
                )
            } else {
                reg
            }
        },
        Some(SubCommand::Todo) => status_set(reg, task_uid, Status::Todo),
        Some(SubCommand::Start) => status_set(reg, task_uid, Status::Ongoing),
        Some(SubCommand::Done) => status_set(reg, task_uid, Status::Done),
        Some(SubCommand::Cancel) => status_set(reg, task_uid, Status::Cancelled),
        _ => reg,
    }
}

/// The result of a command, run at the moment `now` on the registry `reg`.
///
/// No command lists the tasks to do and the ongoing ones. Adding is refused
/// where a task is named; else a refused phrase is an error. Editing and the
/// status commands are refused where no task of the registry is named.
/// Removing does nothing.
pub open spec fn outcome_of(
    config: &Config,
    reg: RegistryView,
    subcmd: Option<SubCommand>,
    task_uid: Option<UID>,
    now: i64,
) -> Result<OutcomeView, ValidationErrorView> {
    match subcmd {
        None => Ok(
            OutcomeView::Listed(default_listing(config, reg, true, true, false, false, false, now)),
        ),
        Some(SubCommand::Add { start, done, content }) => {
            if task_uid is Some {
                Ok(OutcomeView::Refused(Notice::CannotAddToTask))
            } else {
                match add_fault(texts(content@)) {
                    Some(e) => Err(e),
                    None => Ok(
                        OutcomeView::Added(
                            listing(
                                config,
                                seq![
                                    (
                                        UID(reg.next_uid as u64),
                                        described_task(texts(content@), start, done, now),
                                    ),
                                ],
                                now,
                            ),
                        ),
                    ),
                }
            }
        },
        Some(SubCommand::Edit { content }) => {
            if targets(reg, task_uid) {
                match parsed_bundle(texts(content@)).fault_for(task_uid->Some_0) {
                    Some(e) => Err(e),
                    None => Ok(OutcomeView::Updated),
                }
            } else {
                Ok(OutcomeView::Refused(Notice::MissingTaskToEdit))
            }
        },
        Some(SubCommand::Todo) => status_outcome(reg, task_uid, Notice::MissingTask),
        Some(SubCommand::Start) => status_outcome(reg, task_uid, Notice::MissingTaskToStart),
        Some(SubCommand::Done) => status_outcome(reg, task_uid, Notice::MissingTaskToFinish),
        Some(SubCommand::Cancel) => status_outcome(reg, task_uid, Notice::MissingTaskToCancel),
        Some(SubCommand::Remove { all }) => Ok(OutcomeView::Nothing),
        Some(SubCommand::List { todo, start, done, cancelled, all, content }) => Ok(
            OutcomeView::Listed(default_listing(config, reg, todo, start, cancelled, done, all, now)),
        ),
    }
}

/// Whether the command would add a task.
pub open spec fn adds_task(subcmd: Option<SubCommand>, task_uid: Option<UID>) -> bool {
    subcmd is Some && subcmd->Some_0 is Add && task_uid is None
}

/// Sets the status of the named task, if it is there.
fn set_status(task_mgr: &mut TaskManager, task_uid: Option<UID>, status: Status, notice: Notice) -> (r:
    Outcome)
    requires
        old(task_mgr)@.wf(),
    ensures
        final(task_mgr)@.wf(),
        final(task_mgr)@ == status_set(old(task_mgr)@, task_uid, status),
        Ok::<OutcomeView, ValidationErrorView>(r@) == status_outcome(
            old(task_mgr)@,
            task_uid,
            notice,
        ),
{
    match task_uid {
        Some(uid) => {
            let changed = match task_mgr.get_mut(uid) {
                Some(task) => {
                    task.change_status(status);
                    true
                },
                None => false,
            };
            if changed {
                proof {
                    lemma_with_task(
                        old(task_mgr)@,
                        uid,
                        old(task_mgr)@.task_of(uid).with_status(status),
                    );
                }
                Outcome::Updated
            } else {
                Outcome::Refused(notice)
            }
        },
        None => Outcome::Refused(notice),
    }
}

/// Carries out a command at the moment `now`.
pub fn run_subcmd(
    config: Config,
    task_mgr: &mut TaskManager,
    subcmd: Option<SubCommand>,
    task_uid: Option<UID>,
    now: i64,
) -> (r: Result<Outcome, ValidationError>)
    requires
        old(task_mgr)@.wf(),
        adds_task(subcmd, task_uid) ==> old(task_mgr)@.next_uid < u64::MAX,
    ensures
        final(task_mgr)@.wf(),
        final(task_mgr)@ == registry_after(old(task_mgr)@, subcmd, task_uid, now),
        result_view(r) == outcome_of(&config, old(task_mgr)@, subcmd, task_uid, now),
{
    match subcmd {
        None => Ok(
            Outcome::Listed(
                default_list(&config, task_mgr, true, true, false, false, false, now),
            ),
        ),
        Some(SubCommand::Add { start, done, content }) => {
            if task_uid.is_none() {
                match add_task(&config, task_mgr, start, done, content, now) {
                    Ok(lines) => Ok(Outcome::Added(lines)),
                    Err(e) => Err(e),
                }
            } else {
                Ok(Outcome::Refused(Notice::CannotAddToTask))
            }
        },
        Some(SubCommand::Edit { content }) => {
            let ghost words = texts(content@);
            match task_uid {
                Some(uid) => {
                    let edit = match task_mgr.get_mut(uid) {
                        Some(task) => Some(edit_task_of(uid, task, content)),
                        None => None,
                    };
                    match edit {
                        Some(Ok(_)) => {
                            proof {
                                lemma_with_task(
                                    old(task_mgr)@,
                                    uid,
                                    edited(old(task_mgr)@.task_of(uid), words),
                                );
                            }
                            Ok(Outcome::Updated)
                        },
                        Some(Err(e)) => {
                            proof {
                                lemma_with_task(
                                    old(task_mgr)@,
                                    uid,
                                    old(task_mgr)@.task_of(uid),
                                );
                            }
                            Err(e)
                        },
                        None => Ok(Outcome::Refused(Notice::MissingTaskToEdit)),
                    }
                },
                None => Ok(Outcome::Refused(Notice::MissingTaskToEdit)),
            }
        },
        Some(SubCommand::Todo) => Ok(
            set_status(task_mgr, task_uid, Status::Todo, Notice::MissingTask),
        ),
        Some(SubCommand::Start) => Ok(
            set_status(task_mgr, task_uid, Status::Ongoing, Notice::MissingTaskToStart),
        ),
        Some(SubCommand::Done) => Ok(
            set_status(task_mgr, task_uid, Status::Done, Notice::MissingTaskToFinish),
        ),
        Some(SubCommand::Cancel) => Ok(
            set_status(task_mgr, task_uid, Status::Cancelled, Notice::MissingTaskToCancel),
        ),
        Some(SubCommand::Remove { all: _ }) => Ok(Outcome::Nothing),
        Some(SubCommand::List { todo, start, done, cancelled, all, content: _ }) => Ok(
            Outcome::Listed(default_list(&config, task_mgr, todo, start, cancelled, done, all, now)),
        ),
    }
}

} // verus!
