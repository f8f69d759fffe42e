//! What the user may name: column labels and status aliases.

use crate::task::Status;
use vstd::prelude::*;
use vstd::string::*;

verus! {

/// The labels of the columns and the words that stand for the statuses.
#[derive(Debug)]
pub struct Config {
    pub uid_col_name: String,
    pub age_col_name: String,
    pub spent_col_name: String,
    pub prio_col_name: String,
    pub project_col_name: String,
    pub status_col_name: String,
    pub description_col_name: String,
    pub todo_alias: String,
    pub wip_alias: String,
    pub done_alias: String,
    pub cancelled_alias: String,
}

impl Config {
    /// The word that stands for a status.
    pub open spec fn alias_text(&self, status: Status) -> Seq<char> {
        match status {
            Status::Ongoing => self.wip_alias@,
            Status::Todo => self.todo_alias@,
            Status::Done => self.done_alias@,
            Status::Cancelled => self.cancelled_alias@,
        }
    }

    /// The word that stands for a status.
    pub fn alias(&self, status: Status) -> (r: &str)
        ensures
            r@ == self.alias_text(status),
    {
        match status {
            Status::Ongoing => self.wip_alias.as_str(),
            Status::Todo => self.todo_alias.as_str(),
            Status::Done => self.done_alias.as_str(),
            Status::Cancelled => self.cancelled_alias.as_str(),
        }
    }

    /// The labels and aliases used where the user has chosen none.
    pub fn new() -> (config: Config)
        ensures
            config.uid_col_name@ == "UID"@,
            config.age_col_name@ == "Age"@,
            config.spent_col_name@ == "Spent"@,
            config.prio_col_name@ == "Prio"@,
            config.project_col_name@ == "Project"@,
            config.status_col_name@ == "Status"@,
            config.description_col_name@ == "Description"@,
            config.todo_alias@ == "TODO"@,
            config.wip_alias@ == "WIP"@,
            config.done_alias@ == "DONE"@,
            config.cancelled_alias@ == "CANCELLED"@,
    {
        Config {
            uid_col_name: String::from_str("UID"),
            age_col_name: String::from_str("Age"),
            spent_col_name: String::from_str("Spent"),
            prio_col_name: String::from_str("Prio"),
            project_col_name: String::from_str("Project"),
            status_col_name: String::from_str("Status"),
            description_col_name: String::from_str("Description"),
            todo_alias: String::from_str("TODO"),
            wip_alias: String::from_str("WIP"),
            done_alias: String::from_str("DONE"),
            cancelled_alias: String::from_str("CANCELLED"),
        }
    }
}

} // verus!
