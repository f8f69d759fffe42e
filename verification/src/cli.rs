//! Commands and the layout of listings.
//!
//! A listing is a header line and one line per task. A line is a list of
//! cells; a cell is a text, the width of its column and the style in which
//! it is shown. Widths are taken from the plain texts, so a style never
//! moves a column.

use crate::config::Config;
use crate::metadata::{
    classify, declares, joined, lemma_dependencies_accumulate, lemma_plain_phrase, parsed_bundle,
    parsed_name, texts, Metadata, Priority, TokenKind, ValidationError, ValidationErrorView,
};
use crate::task::{fresh_task, lemma_merged, rows_of, Status, Task, TaskManager, TaskView};
use crate::text::{
    decimal, decimal_string, pad_right, padded, signed_decimal, signed_decimal_string, text_width,
    width_of,
};
use crate::uid::UID;
use vstd::prelude::*;
use vstd::string::*;

verus! {

/// The command line, once read.
#[derive(Debug)]
pub struct Command {
    /// Identifier of the task to operate on.
    pub task_uid: Option<UID>,
    /// What to do; nothing stands for the default listing.
    pub subcmd: Option<SubCommand>,
    /// Where data and configuration are read from, if not the default place.
    pub config: Option<String>,
}

/// What the user asks for.
#[derive(Debug)]
#[allow(inconsistent_fields)]
pub enum SubCommand {
    /// Add a task.
    Add { start: bool, done: bool, content: Vec<String> },
    /// Change the name or the tags of a task.
    Edit { content: Vec<String> },
    /// Mark a task as to do.
    Todo,
    /// Mark a task as started.
    Start,
    /// Mark a task as done.
    Done,
    /// Mark a task as cancelled.
    Cancel,
    /// Remove a task.
    Remove { all: bool },
    /// List tasks.
    List { todo: bool, start: bool, done: bool, cancelled: bool, all: bool, content: bool },
}

/// A colour of the terminal.
#[derive(Clone, Copy, Debug, PartialEq, Eq, Structural)]
pub enum Colour {
    Black,
    Red,
    Green,
    Blue,
    Magenta,
    BrightBlack,
    BrightRed,
    BrightGreen,
    BrightWhite,
}

/// How a text is shown: its colours and its emphasis.
#[derive(Clone, Copy, Debug, PartialEq, Eq, Structural)]
pub struct Style {
    pub foreground: Option<Colour>,
    pub background: Option<Colour>,
    pub bold: bool,
    pub dimmed: bool,
    pub italic: bool,
    pub underline: bool,
    pub strikethrough: bool,
}

/// What a text of a listing is. Each role has its style.
#[derive(Clone, Copy, Debug, PartialEq, Eq, Structural)]
pub enum Role {
    Plain,
    Heading,
    TodoName,
    TodoNameAlternate,
    OngoingName,
    DoneName,
    CancelledName,
    TodoStatus,
    OngoingStatus,
    DoneStatus,
    CancelledStatus,
    LowPriority,
    MediumPriority,
    HighPriority,
    CriticalPriority,
    Project,
    SpentOngoing,
    SpentIdle,
}

/// No colour and no emphasis.
pub open spec fn plain_style() -> Style {
    Style {
        foreground: None,
        background: None,
        bold: false,
        dimmed: false,
        italic: false,
        underline: false,
        strikethrough: false,
    }
}

/// A foreground colour, on a background or not, without emphasis.
pub open spec fn coloured(foreground: Colour, background: Option<Colour>) -> Style {
    Style { foreground: Some(foreground), background, ..plain_style() }
}

/// The style of a role. Headings are underlined. Names of tasks to do are
/// bright on a background that alternates from line to line; ongoing ones
/// stand out on green; done ones are dimmed, cancelled ones dimmed and
/// struck through. Aliases are bold while a task is open and dimmed once it
/// is closed. Priorities grow from dimmed grey over blue and red to black on
/// red. Projects are in italics. Spent time is blue while the task is going
/// on, dimmed grey otherwise.
pub open spec fn style_of(role: Role) -> Style {
    match role {
        Role::Plain => plain_style(),
        Role::Heading => Style { underline: true, ..plain_style() },
        Role::TodoName => coloured(Colour::BrightWhite, Some(Colour::Black)),
        Role::TodoNameAlternate => coloured(Colour::BrightWhite, Some(Colour::BrightBlack)),
        Role::OngoingName => coloured(Colour::Black, Some(Colour::BrightGreen)),
        Role::DoneName => Style {
            dimmed: true,
            ..coloured(Colour::BrightBlack, Some(Colour::Black))
        },
        Role::CancelledName => Style {
            dimmed: true,
            strikethrough: true,
            ..coloured(Colour::BrightBlack, Some(Colour::Black))
        },
        Role::TodoStatus => Style { bold: true, ..coloured(Colour::Magenta, None) },
        Role::OngoingStatus => Style { bold: true, ..coloured(Colour::Green, None) },
        Role::DoneStatus => Style { dimmed: true, ..coloured(Colour::BrightBlack, None) },
        Role::CancelledStatus => Style { dimmed: true, ..coloured(Colour::BrightRed, None) },
        Role::LowPriority => Style { dimmed: true, ..coloured(Colour::BrightBlack, None) },
        Role::MediumPriority => coloured(Colour::Blue, None),
        Role::HighPriority => coloured(Colour::Red, None),
        Role::CriticalPriority => coloured(Colour::Black, Some(Colour::BrightRed)),
        Role::Project => Style { italic: true, ..plain_style() },
        Role::SpentOngoing => coloured(Colour::Blue, None),
        Role::SpentIdle => Style { dimmed: true, ..coloured(Colour::BrightBlack, None) },
    }
}

impl Role {
    /// The style of the role.
    pub fn style(self) -> (s: Style)
        ensures
            s == style_of(self),
    {
        let plain = Style {
            foreground: None,
            background: None,
            bold: false,
            dimmed: false,
            italic: false,
            underline: false,
            strikethrough: false,
        };
        match self {
            Role::Plain => plain,
            Role::Heading => Style { underline: true, ..plain },
            Role::TodoName => Style {
                foreground: Some(Colour::BrightWhite),
                background: Some(Colour::Black),
                ..plain
            },
            Role::TodoNameAlternate => Style {
                foreground: Some(Colour::BrightWhite),
                background: Some(Colour::BrightBlack),
                ..plain
            },
            Role::OngoingName => Style {
                foreground: Some(Colour::Black),
                background: Some(Colour::BrightGreen),
                ..plain
            },
            Role::DoneName => Style {
                foreground: Some(Colour::BrightBlack),
                background: Some(Colour::Black),
                dimmed: true,
                ..plain
            },
            Role::CancelledName => Style {
                foreground: Some(Colour::BrightBlack),
                background: Some(Colour::Black),
                dimmed: true,
                strikethrough: true,
                ..plain
            },
            Role::TodoStatus => Style { foreground: Some(Colour::Magenta), bold: true, ..plain },
            Role::OngoingStatus => Style { foreground: Some(Colour::Green), bold: true, ..plain },
            Role::DoneStatus => Style {
                foreground: Some(Colour::BrightBlack),
                dimmed: true,
                ..plain
            },
            Role::CancelledStatus => Style {
                foreground: Some(Colour::BrightRed),
                dimmed: true,
                ..plain
            },
            Role::LowPriority => Style {
                foreground: Some(Colour::BrightBlack),
                dimmed: true,
                ..plain
            },
            Role::MediumPriority => Style { foreground: Some(Colour::Blue), ..plain },
            Role::HighPriority => Style { foreground: Some(Colour::Red), ..plain },
            Role::CriticalPriority => Style {
                foreground: Some(Colour::Black),
                background: Some(Colour::BrightRed),
                ..plain
            },
            Role::Project => Style { italic: true, ..plain },
            Role::SpentOngoing => Style { foreground: Some(Colour::Blue), ..plain },
            Role::SpentIdle => Style { foreground: Some(Colour::BrightBlack), dimmed: true, ..plain },
        }
    }
}

/// A text and the style in which it is shown.
#[derive(Debug)]
pub struct Styled {
    pub text: String,
    pub style: Style,
}

/// A cell of a line: a styled text and the width of its column.
#[derive(Debug)]
pub struct Cell {
    pub text: String,
    pub width: usize,
    pub style: Style,
}

/// What a cell holds.
pub struct CellView {
    pub text: Seq<char>,
    pub width: nat,
    pub style: Style,
}

impl View for Cell {
    type V = CellView;

    open spec fn view(&self) -> CellView {
        CellView { text: self.text@, width: self.width as nat, style: self.style }
    }
}

/// What a line holds.
pub open spec fn line_view(line: Seq<Cell>) -> Seq<CellView> {
    Seq::new(line.len(), |i: int| line[i]@)
}

/// What a list of lines holds.
pub open spec fn lines_view(lines: Seq<Vec<Cell>>) -> Seq<Seq<CellView>> {
    Seq::new(lines.len(), |i: int| line_view(lines[i]@))
}

/// A duration in the coarsest unit that keeps the number readable: seconds
/// below a minute, minutes below an hour, hours below a day, days below two
/// weeks, weeks below four weeks, and months of four weeks from there on.
/// Numbers are cut, not rounded.
pub open spec fn friendly_duration_text(seconds: int) -> Seq<char> {
    if seconds < 60 {
        signed_decimal(seconds) + "s"@
    } else if seconds < 3600 {
        decimal((seconds / 60) as nat) + "min"@
    } else if seconds < 86400 {
        decimal((seconds / 3600) as nat) + "h"@
    } else if seconds < 14 * 86400 {
        decimal((seconds / 86400) as nat) + "d"@
    } else if seconds < 28 * 86400 {
        decimal((seconds / 604800) as nat) + "w"@
    } else {
        decimal((seconds / 604800 / 4) as nat) + "m"@
    }
}

/// Writes a duration of zero or more seconds.
fn friendly_span(seconds: u64) -> (s: String)
    ensures
        s@ == friendly_duration_text(seconds as int),
{
    if seconds < 60 {
        decimal_string(seconds).concat("s")
    } else if seconds < 3600 {
        decimal_string(seconds / 60).concat("min")
    } else if seconds < 86400 {
        decimal_string(seconds / 3600).concat("h")
    } else if seconds < 14 * 86400 {
        decimal_string(seconds / 86400).concat("d")
    } else if seconds < 28 * 86400 {
        decimal_string(seconds / 604800).concat("w")
    } else {
        decimal_string(seconds / 604800 / 4).concat("m")
    }
}

/// Writes a duration, given in seconds, in its friendly form.
pub fn friendly_duration(seconds: i64) -> (s: String)
    ensures
        s@ == friendly_duration_text(seconds as int),
{
    if seconds < 0 {
        signed_decimal_string(seconds).concat("s")
    } else {
        friendly_span(seconds as u64)
    }
}

/// The seconds from the task's creation to `now`, kept within the range of
/// the machine's integers; zero for a task without a creation date.
pub open spec fn age_seconds(task: TaskView, now: i64) -> int {
    match task.creation_date {
        Some(created) => {
            let age = now - created;
            if age > i64::MAX {
                i64::MAX as int
            } else if age < i64::MIN {
                i64::MIN as int
            } else {
                age
            }
        },
        None => 0,
    }
}

/// The age of a task at the moment `now`, in its friendly form.
pub fn friendly_task_age(task: &Task, now: i64) -> (s: String)
    ensures
        s@ == friendly_duration_text(age_seconds(task@, now)),
{
    match task.creation_date() {
        Some(created) => {
            let age: i128 = now as i128 - created as i128;
            if age > i64::MAX as i128 {
                friendly_duration(i64::MAX)
            } else if age < i64::MIN as i128 {
                friendly_duration(i64::MIN)
            } else {
                friendly_duration(age as i64)
            }
        },
        None => friendly_duration(0),
    }
}

/// The style of a priority.
pub open spec fn priority_style(priority: Priority) -> Style {
    match priority {
        Priority::Low => style_of(Role::LowPriority),
        Priority::Medium => style_of(Role::MediumPriority),
        Priority::High => style_of(Role::HighPriority),
        Priority::Critical => style_of(Role::CriticalPriority),
    }
}

/// The short word for a priority.
pub open spec fn priority_text(priority: Priority) -> Seq<char> {
    match priority {
        Priority::Low => "LOW"@,
        Priority::Medium => "MED"@,
        Priority::High => "HIGH"@,
        Priority::Critical => "CRIT"@,
    }
}

/// What the priority column shows for a task: the short word for its
/// priority, or nothing.
pub open spec fn priority_shown(task: TaskView) -> (Seq<char>, Style) {
    match task.priority {
        Some(p) => (priority_text(p), priority_style(p)),
        None => (Seq::empty(), style_of(Role::Plain)),
    }
}

/// What the project column shows for a task: its project, or nothing.
pub open spec fn project_shown(task: TaskView) -> (Seq<char>, Style) {
    match task.project {
        Some(p) => (p, style_of(Role::Project)),
        None => (Seq::empty(), style_of(Role::Plain)),
    }
}

/// What the spent-time column shows: nothing where no time was spent, else
/// the friendly duration, marked where the task is going on.
pub open spec fn spent_shown(seconds: u64, status: Status) -> (Seq<char>, Style) {
    if seconds == 0 {
        (Seq::empty(), style_of(Role::Plain))
    } else if status == Status::Ongoing {
        (friendly_duration_text(seconds as int), style_of(Role::SpentOngoing))
    } else {
        (friendly_duration_text(seconds as int), style_of(Role::SpentIdle))
    }
}

/// The priority of a task as the listing shows it.
pub fn friendly_priority(task: &Task) -> (r: Styled)
    ensures
        (r.text@, r.style) == priority_shown(task@),
{
    match task.priority() {
        Some(Priority::Low) => Styled { text: String::from_str("LOW"), style: Role::LowPriority.style() },
        Some(Priority::Medium) => Styled {
            text: String::from_str("MED"),
            style: Role::MediumPriority.style(),
        },
        Some(Priority::High) => Styled {
            text: String::from_str("HIGH"),
            style: Role::HighPriority.style(),
        },
        Some(Priority::Critical) => Styled {
            text: String::from_str("CRIT"),
            style: Role::CriticalPriority.style(),
        },
        None => Styled { text: String::new(), style: Role::Plain.style() },
    }
}

/// The project of a task as the listing shows it.
pub fn friendly_project(task: &Task) -> (r: Styled)
    ensures
        (r.text@, r.style) == project_shown(task@),
{
    match task.project() {
        Some(p) => Styled { text: String::from_str(p), style: Role::Project.style() },
        None => Styled { text: String::new(), style: Role::Plain.style() },
    }
}

/// The time spent on a task as the listing shows it.
pub fn friendly_spent_time(seconds: u64, status: Status) -> (r: Styled)
    ensures
        (r.text@, r.style) == spent_shown(seconds, status),
{
    if seconds == 0 {
        return Styled { text: String::new(), style: Role::Plain.style() };
    }
    let text = friendly_span(seconds);
    match status {
        Status::Ongoing => Styled { text, style: Role::SpentOngoing.style() },
        _ => Styled { text, style: Role::SpentIdle.style() },
    }
}

/// The width that an identifier takes: the number of its decimal digits.
pub open spec fn uid_width(uid: UID) -> nat {
    decimal(uid.0 as nat).len()
}

/// The width that a status takes: that of its alias.
pub open spec fn status_width(config: &Config, status: Status) -> nat {
    text_width(config.alias_text(status))
}

/// The width that the project of a task takes, if it has one.
pub open spec fn project_width(task: TaskView) -> Option<nat> {
    match task.project {
        Some(p) => Some(text_width(p)),
        None => None,
    }
}

/// The largest of `floor` and the widths.
pub open spec fn largest(floor: nat, widths: Seq<nat>) -> nat
    decreases widths.len(),
{
    if widths.len() == 0 {
        floor
    } else {
        let before = largest(floor, widths.drop_last());
        if widths.last() > before {
            widths.last()
        } else {
            before
        }
    }
}

/// The widths that the identifiers of the rows take.
pub open spec fn uid_widths(rows: Seq<(UID, TaskView)>) -> Seq<nat> {
    Seq::new(rows.len(), |i: int| uid_width(rows[i].0))
}

/// The widths that the ages of the rows take at the moment `now`.
pub open spec fn age_widths(rows: Seq<(UID, TaskView)>, now: i64) -> Seq<nat> {
    Seq::new(
        rows.len(),
        |i: int| text_width(friendly_duration_text(age_seconds(rows[i].1, now))),
    )
}

/// The widths that the spent times of the rows take.
pub open spec fn spent_widths(rows: Seq<(UID, TaskView)>) -> Seq<nat> {
    Seq::new(
        rows.len(),
        |i: int| text_width(spent_shown(rows[i].1.spent_time, rows[i].1.status).0),
    )
}

/// The widths that the priorities of the rows take.
pub open spec fn priority_widths(rows: Seq<(UID, TaskView)>) -> Seq<nat> {
    Seq::new(rows.len(), |i: int| text_width(priority_shown(rows[i].1).0))
}

/// The widths that the statuses of the rows take.
pub open spec fn status_widths(config: &Config, rows: Seq<(UID, TaskView)>) -> Seq<nat> {
    Seq::new(rows.len(), |i: int| status_width(config, rows[i].1.status))
}

/// The widths that the names of the rows take.
pub open spec fn description_widths(rows: Seq<(UID, TaskView)>) -> Seq<nat> {
    Seq::new(rows.len(), |i: int| text_width(rows[i].1.name))
}

/// The widths that the projects of the rows take, zero where there is none.
pub open spec fn project_widths(rows: Seq<(UID, TaskView)>) -> Seq<nat> {
    Seq::new(
        rows.len(),
        |i: int|
            match project_width(rows[i].1) {
                Some(w) => w,
                None => 0,
            },
    )
}

/// What a listing needs to know of its rows before it shows any: how wide
/// the columns are, and which of the optional columns are there at all.
#[derive(Clone, Copy, Debug, PartialEq, Eq, Structural)]
pub struct DisplayOptions {
    /// Width of the identifier column.
    pub task_uid_width: usize,
    /// Width of the age column.
    pub age_width: usize,
    /// Width of the spent-time column.
    pub spent_width: usize,
    /// Width of the priority column.
    pub prio_width: usize,
    /// Width of the project column.
    pub project_width: usize,
    /// Width of the status column.
    pub status_width: usize,
    /// Width of the description column.
    pub description_width: usize,
    /// Whether time was spent on any task.
    pub has_spent_time: bool,
    /// Whether any task has a priority.
    pub has_priorities: bool,
    /// Whether any task has a project.
    pub has_projects: bool,
}

/// The options for a list of rows shown at the moment `now`. Every column
/// is as wide as its label or its widest value, whichever is larger. The
/// columns for spent time, priority and project are there if and only if
/// some row has a value for them.
pub open spec fn display_options(
    config: &Config,
    rows: Seq<(UID, TaskView)>,
    now: i64,
) -> DisplayOptions {
    DisplayOptions {
        task_uid_width: largest(text_width(config.uid_col_name@), uid_widths(rows)) as usize,
        age_width: largest(text_width(config.age_col_name@), age_widths(rows, now)) as usize,
        spent_width: largest(text_width(config.spent_col_name@), spent_widths(rows)) as usize,
        prio_width: largest(text_width(config.prio_col_name@), priority_widths(rows)) as usize,
        project_width: largest(
            text_width(config.project_col_name@),
            project_widths(rows),
        ) as usize,
        status_width: largest(
            text_width(config.status_col_name@),
            status_widths(config, rows),
        ) as usize,
        description_width: largest(
            text_width(config.description_col_name@),
            description_widths(rows),
        ) as usize,
        has_spent_time: exists|i: int|
            0 <= i < rows.len() && (#[trigger] rows[i]).1.spent_time != 0,
        has_priorities: exists|i: int| 0 <= i < rows.len() && (#[trigger] rows[i]).1.priority is Some,
        has_projects: exists|i: int| 0 <= i < rows.len() && (#[trigger] rows[i]).1.project is Some,
    }
}

/// Whether the widths of all columns are within the machine's integers.
pub open spec fn widths_fit(config: &Config, rows: Seq<(UID, TaskView)>, now: i64) -> bool {
    &&& largest(text_width(config.uid_col_name@), uid_widths(rows)) <= usize::MAX
    &&& largest(text_width(config.age_col_name@), age_widths(rows, now)) <= usize::MAX
    &&& largest(text_width(config.spent_col_name@), spent_widths(rows)) <= usize::MAX
    &&& largest(text_width(config.prio_col_name@), priority_widths(rows)) <= usize::MAX
    &&& largest(text_width(config.project_col_name@), project_widths(rows)) <= usize::MAX
    &&& largest(text_width(config.status_col_name@), status_widths(config, rows)) <= usize::MAX
    &&& largest(text_width(config.description_col_name@), description_widths(rows))
        <= usize::MAX
}

/// The larger of two widths.
fn wider(a: usize, b: usize) -> (r: usize)
    ensures
        r == if b > a {
            b
        } else {
            a
        },
{
    if b > a {
        b
    } else {
        a
    }
}

impl DisplayOptions {
    /// Works out the options for a list of tasks shown at the moment `now`.
    pub fn new(config: &Config, tasks: &Vec<(UID, &Task)>, now: i64) -> (opts: DisplayOptions)
        ensures
            opts == display_options(config, rows_of(tasks@), now),
            widths_fit(config, rows_of(tasks@), now),
    {
        let ghost rows = rows_of(tasks@);
        let mut task_uid_width: usize = width_of(config.uid_col_name.as_str());
        let mut age_width: usize = width_of(config.age_col_name.as_str());
        let mut spent_width: usize = width_of(config.spent_col_name.as_str());
        let mut prio_width: usize = width_of(config.prio_col_name.as_str());
        let mut project_width: usize = width_of(config.project_col_name.as_str());
        let mut status_width: usize = width_of(config.status_col_name.as_str());
        let mut description_width: usize = width_of(config.description_col_name.as_str());
        let mut has_spent_time = false;
        let mut has_priorities = false;
        let mut has_projects = false;
        let mut i: usize = 0;
        while i < tasks.len()
            invariant
                i <= tasks.len(),
                rows == rows_of(tasks@),
                task_uid_width as nat == largest(
                    text_width(config.uid_col_name@),
                    uid_widths(rows).take(i as int),
                ),
                age_width as nat == largest(
                    text_width(config.age_col_name@),
                    age_widths(rows, now).take(i as int),
                ),
                spent_width as nat == largest(
                    text_width(config.spent_col_name@),
                    spent_widths(rows).take(i as int),
                ),
                prio_width as nat == largest(
                    text_width(config.prio_col_name@),
                    priority_widths(rows).take(i as int),
                ),
                project_width as nat == largest(
                    text_width(config.project_col_name@),
                    project_widths(rows).take(i as int),
                ),
                status_width as nat == largest(
                    text_width(config.status_col_name@),
                    status_widths(config, rows).take(i as int),
                ),
                description_width as nat == largest(
                    text_width(config.description_col_name@),
                    description_widths(rows).take(i as int),
                ),
                has_spent_time == exists|j: int|
                    0 <= j < i && (#[trigger] rows[j]).1.spent_time != 0,
                has_priorities == exists|j: int| 0 <= j < i && (#[trigger] rows[j]).1.priority is Some,
                has_projects == exists|j: int| 0 <= j < i && (#[trigger] rows[j]).1.project is Some,
            decreases tasks.len() - i,
        {
            let uid = tasks[i].0;
            let task = tasks[i].1;
            proof {
                assert(rows[i as int] == (uid, task@));
                assert(uid_widths(rows).take(i + 1).drop_last() =~= uid_widths(rows).take(
                    i as int,
                ));
                assert(age_widths(rows, now).take(i + 1).drop_last() =~= age_widths(
                    rows,
                    now,
                ).take(i as int));
                assert(spent_widths(rows).take(i + 1).drop_last() =~= spent_widths(rows).take(
                    i as int,
                ));
                assert(priority_widths(rows).take(i + 1).drop_last() =~= priority_widths(
                    rows,
                ).take(i as int));
                assert(project_widths(rows).take(i + 1).drop_last() =~= project_widths(
                    rows,
                ).take(i as int));
                assert(status_widths(config, rows).take(i + 1).drop_last() =~= status_widths(
                    config,
                    rows,
                ).take(i as int));
                assert(description_widths(rows).take(i + 1).drop_last()
                    =~= description_widths(rows).take(i as int));
            }
            let age = friendly_task_age(task, now);
            let spent = friendly_spent_time(task.spent_time(), task.status());
            let priority = friendly_priority(task);
            task_uid_width = wider(task_uid_width, DisplayOptions::guess_task_uid_width(uid));
            age_width = wider(age_width, width_of(age.as_str()));
            spent_width = wider(spent_width, width_of(spent.text.as_str()));
            prio_width = wider(prio_width, width_of(priority.text.as_str()));
            project_width = wider(
                project_width,
                match DisplayOptions::guess_task_project_width(task) {
                    Some(w) => w,
                    None => 0,
                },
            );
            status_width = wider(
                status_width,
                DisplayOptions::guess_task_status_width(config, task.status()),
            );
            description_width = wider(description_width, width_of(task.name()));
            has_spent_time = has_spent_time || task.spent_time() != 0;
            has_priorities = has_priorities || task.priority().is_some();
            has_projects = has_projects || task.project().is_some();
            i = i + 1;
        }
        proof {
            assert(uid_widths(rows).take(i as int) =~= uid_widths(rows));
            assert(age_widths(rows, now).take(i as int) =~= age_widths(rows, now));
            assert(spent_widths(rows).take(i as int) =~= spent_widths(rows));
            assert(priority_widths(rows).take(i as int) =~= priority_widths(rows));
            assert(project_widths(rows).take(i as int) =~= project_widths(rows));
            assert(status_widths(config, rows).take(i as int) =~= status_widths(config, rows));
            assert(description_widths(rows).take(i as int) =~= description_widths(rows));
        }
        DisplayOptions {
            task_uid_width,
            age_width,
            spent_width,
            prio_width,
            project_width,
            status_width,
            description_width,
            has_spent_time,
            has_priorities,
            has_projects,
        }
    }

    /// The width that an identifier takes.
    pub fn guess_task_uid_width(uid: UID) -> (w: usize)
        ensures
            w as nat == uid_width(uid),
    {
        decimal_string(uid.val()).as_str().unicode_len()
    }

    /// The width that a status takes.
    pub fn guess_task_status_width(config: &Config, status: Status) -> (w: usize)
        ensures
            w as nat == status_width(config, status),
    {
        width_of(config.alias(status))
    }

    /// The width that the project of a task takes, if it has one.
    pub fn guess_task_project_width(task: &Task) -> (w: Option<usize>)
        ensures
            w is Some == project_width(task@) is Some,
            w is Some ==> w->Some_0 as nat == project_width(task@)->Some_0,
    {
        match task.project() {
            Some(p) => Some(width_of(p)),
            None => None,
        }
    }
}

/// A cell.
pub open spec fn cell(text: Seq<char>, width: nat, style: Style) -> CellView {
    CellView { text, width, style }
}

/// The cell, if the column is there.
pub open spec fn optional(present: bool, cell: CellView) -> Seq<CellView> {
    if present {
        seq![cell]
    } else {
        Seq::empty()
    }
}

/// The header line: the labels of the columns that are there, each as wide
/// as its column.
pub open spec fn header_cells(config: &Config, opts: DisplayOptions) -> Seq<CellView> {
    seq![
        cell(config.uid_col_name@, opts.task_uid_width as nat, style_of(Role::Heading)),
        cell(config.age_col_name@, opts.age_width as nat, style_of(Role::Heading)),
    ] + optional(
        opts.has_spent_time,
        cell(config.spent_col_name@, opts.spent_width as nat, style_of(Role::Heading)),
    ) + optional(
        opts.has_priorities,
        cell(config.prio_col_name@, opts.prio_width as nat, style_of(Role::Heading)),
    ) + optional(
        opts.has_projects,
        cell(config.project_col_name@, opts.project_width as nat, style_of(Role::Heading)),
    ) + seq![
        cell(config.status_col_name@, opts.status_width as nat, style_of(Role::Heading)),
        cell(config.description_col_name@, opts.description_width as nat, style_of(Role::Heading)),
    ]
}

/// The style of a status's alias.
pub open spec fn status_style(status: Status) -> Style {
    match status {
        Status::Todo => style_of(Role::TodoStatus),
        Status::Ongoing => style_of(Role::OngoingStatus),
        Status::Done => style_of(Role::DoneStatus),
        Status::Cancelled => style_of(Role::CancelledStatus),
    }
}

/// The style of a task's name: by its status, and for a task to do by the
/// parity of its line, so that neighbouring lines differ.
pub open spec fn name_style(status: Status, parity: bool) -> Style {
    match status {
        Status::Todo => if parity {
            style_of(Role::TodoName)
        } else {
            style_of(Role::TodoNameAlternate)
        },
        Status::Ongoing => style_of(Role::OngoingName),
        Status::Done => style_of(Role::DoneName),
        Status::Cancelled => style_of(Role::CancelledName),
    }
}

/// The line of a task at the moment `now`: identifier, age, then spent time,
/// priority and project where those columns are there, then status and name.
pub open spec fn row_cells(
    config: &Config,
    uid: UID,
    task: TaskView,
    parity: bool,
    opts: DisplayOptions,
    now: i64,
) -> Seq<CellView> {
    seq![
        cell(decimal(uid.0 as nat), opts.task_uid_width as nat, style_of(Role::Plain)),
        cell(
            friendly_duration_text(age_seconds(task, now)),
            opts.age_width as nat,
            style_of(Role::Plain),
        ),
    ] + optional(
        opts.has_spent_time,
        cell(
            spent_shown(task.spent_time, task.status).0,
            opts.spent_width as nat,
            spent_shown(task.spent_time, task.status).1,
        ),
    ) + optional(
        opts.has_priorities,
        cell(priority_shown(task).0, opts.prio_width as nat, priority_shown(task).1),
    ) + optional(
        opts.has_projects,
        cell(project_shown(task).0, opts.project_width as nat, project_shown(task).1),
    ) + seq![
        cell(config.alias_text(task.status), opts.status_width as nat, status_style(task.status)),
        cell(task.name, opts.description_width as nat, name_style(task.status, parity)),
    ]
}

/// Adds a cell to a line.
fn push_cell(line: &mut Vec<Cell>, text: String, width: usize, style: Style)
    ensures
        line_view(final(line)@) == line_view(old(line)@).push(cell(text@, width as nat, style)),
{
    line.push(Cell { text, width, style });
    assert(line_view(line@) =~= line_view(old(line)@).push(cell(text@, width as nat, style)));
}

/// Lays out the header line.
pub fn display_task_header(config: &Config, opts: &DisplayOptions) -> (line: Vec<Cell>)
    ensures
        line_view(line@) == header_cells(config, *opts),
{
    let mut line: Vec<Cell> = Vec::new();
    assert(line_view(line@) =~= Seq::empty());
    push_cell(&mut line, config.uid_col_name.clone(), opts.task_uid_width, Role::Heading.style());
    push_cell(
        &mut line,
        config.age_col_name.clone(),
        opts.age_width,
        Role::Heading.style(),
    );
    if opts.has_spent_time {
        push_cell(
            &mut line,
            config.spent_col_name.clone(),
            opts.spent_width,
            Role::Heading.style(),
        );
    }
    if opts.has_priorities {
        push_cell(
            &mut line,
            config.prio_col_name.clone(),
            opts.prio_width,
            Role::Heading.style(),
        );
    }
    if opts.has_projects {
        push_cell(&mut line, config.project_col_name.clone(), opts.project_width, Role::Heading.style());
    }
    push_cell(&mut line, config.status_col_name.clone(), opts.status_width, Role::Heading.style());
    push_cell(
        &mut line,
        config.description_col_name.clone(),
        opts.description_width,
        Role::Heading.style(),
    );
    assert(line_view(line@) =~= header_cells(config, *opts));
    line
}

/// Lays out the line of a task at the moment `now`.
pub fn display_task_inline(
    config: &Config,
    uid: UID,
    task: &Task,
    parity: bool,
    opts: &DisplayOptions,
    now: i64,
) -> (line: Vec<Cell>)
    ensures
        line_view(line@) == row_cells(config, uid, task@, parity, *opts, now),
{
    let task_status = task.status();
    let name_style = match task_status {
        Status::Todo => if parity {
            Role::TodoName.style()
        } else {
            Role::TodoNameAlternate.style()
        },
        Status::Ongoing => Role::OngoingName.style(),
        Status::Done => Role::DoneName.style(),
        Status::Cancelled => Role::CancelledName.style(),
    };
    let status_style = match task_status {
        Status::Todo => Role::TodoStatus.style(),
        Status::Ongoing => Role::OngoingStatus.style(),
        Status::Done => Role::DoneStatus.style(),
        Status::Cancelled => Role::CancelledStatus.style(),
    };
    let mut line: Vec<Cell> = Vec::new();
    assert(line_view(line@) =~= Seq::empty());
    push_cell(&mut line, decimal_string(uid.val()), opts.task_uid_width, Role::Plain.style());
    push_cell(
        &mut line,
        friendly_task_age(task, now),
        opts.age_width,
        Role::Plain.style(),
    );
    if opts.has_spent_time {
        let spent = friendly_spent_time(task.spent_time(), task_status);
        push_cell(&mut line, spent.text, opts.spent_width, spent.style);
    }
    if opts.has_priorities {
        let priority = friendly_priority(task);
        push_cell(
            &mut line,
            priority.text,
            opts.prio_width,
            priority.style,
        );
    }
    if opts.has_projects {
        let project = friendly_project(task);
        push_cell(&mut line, project.text, opts.project_width, project.style);
    }
    push_cell(
        &mut line,
        String::from_str(config.alias(task_status)),
        opts.status_width,
        status_style,
    );
    push_cell(&mut line, String::from_str(task.name()), opts.description_width, name_style);
    assert(line_view(line@) =~= row_cells(config, uid, task@, parity, *opts, now));
    line
}

/// The listing of the rows at the moment `now`: the header, then the rows in
/// their order, the first and every second after it with parity set.
pub open spec fn listing(config: &Config, rows: Seq<(UID, TaskView)>, now: i64) -> Seq<
    Seq<CellView>,
> {
    seq![header_cells(config, display_options(config, rows, now))] + Seq::new(
        rows.len(),
        |i: int|
            row_cells(
                config,
                rows[i].0,
                rows[i].1,
                i % 2 == 0,
                display_options(config, rows, now),
                now,
            ),
    )
}

/// Lays out the listing of the tasks at the moment `now`.
pub fn render_tasks(config: &Config, tasks: &Vec<(UID, &Task)>, now: i64) -> (lines: Vec<
    Vec<Cell>,
>)
    ensures
        lines_view(lines@) == listing(config, rows_of(tasks@), now),
{
    let ghost rows = rows_of(tasks@);
    let opts = DisplayOptions::new(config, tasks, now);
    let mut lines: Vec<Vec<Cell>> = Vec::new();
    lines.push(display_task_header(config, &opts));
    let mut parity = true;
    let mut i: usize = 0;
    while i < tasks.len()
        invariant
            i <= tasks.len(),
            rows == rows_of(tasks@),
            opts == display_options(config, rows, now),
            parity == (i % 2 == 0),
            lines@.len() == i + 1,
            line_view(lines@[0]@) == header_cells(config, opts),
            forall|j: int|
                0 <= j < i ==> line_view(#[trigger] lines@[j + 1]@) == row_cells(
                    config,
                    rows[j].0,
                    rows[j].1,
                    j % 2 == 0,
                    opts,
                    now,
                ),
        decreases tasks.len() - i,
    {
        let uid = tasks[i].0;
        let task = tasks[i].1;
        assert(rows[i as int] == (uid, task@));
        lines.push(display_task_inline(config, uid, task, parity, &opts, now));
        parity = !parity;
        i = i + 1;
    }
    proof {
        let expected = listing(config, rows, now);
        assert(lines_view(lines@).len() == expected.len());
        assert forall|k: int| 0 <= k < expected.len() implies lines_view(lines@)[k]
            == expected[k] by {
            if k > 0 {
                let j = k - 1;
                assert(line_view(lines@[j + 1]@) == row_cells(
                    config,
                    rows[j].0,
                    rows[j].1,
                    j % 2 == 0,
                    opts,
                    now,
                ));
            }
        }
        assert(lines_view(lines@) =~= expected);
    }
    lines
}

/// Whether tasks of the status are asked for.
pub open spec fn shown(status: Status, todo: bool, start: bool, cancelled: bool, done: bool) -> bool {
    match status {
        Status::Ongoing => start,
        Status::Todo => todo,
        Status::Done => done,
        Status::Cancelled => cancelled,
    }
}

/// The rows of the given status, in their order.
pub open spec fn with_status(rows: Seq<(UID, TaskView)>, status: Status) -> Seq<(UID, TaskView)>
    decreases rows.len(),
{
    if rows.len() == 0 {
        Seq::empty()
    } else {
        let before = with_status(rows.drop_last(), status);
        if rows.last().1.status == status {
            before.push(rows.last())
        } else {
            before
        }
    }
}

/// The rows of the status if it is asked for, else none.
pub open spec fn selected(
    rows: Seq<(UID, TaskView)>,
    status: Status,
    todo: bool,
    start: bool,
    cancelled: bool,
    done: bool,
) -> Seq<(UID, TaskView)> {
    if shown(status, todo, start, cancelled, done) {
        with_status(rows, status)
    } else {
        Seq::empty()
    }
}

/// The rows that a listing shows: those whose status is asked for, the
/// ongoing first, then those to do, the done and the cancelled; within one
/// status in the order in which they stand.
pub open spec fn visible(
    rows: Seq<(UID, TaskView)>,
    todo: bool,
    start: bool,
    cancelled: bool,
    done: bool,
) -> Seq<(UID, TaskView)> {
    selected(rows, Status::Ongoing, todo, start, cancelled, done) + selected(
        rows,
        Status::Todo,
        todo,
        start,
        cancelled,
        done,
    ) + selected(rows, Status::Done, todo, start, cancelled, done) + selected(
        rows,
        Status::Cancelled,
        todo,
        start,
        cancelled,
        done,
    )
}

/// Appends to `out` the tasks of the given status, in their order.
fn select<'a>(tasks: &Vec<(UID, &'a Task)>, status: Status, out: &mut Vec<(UID, &'a Task)>)
    ensures
        rows_of(final(out)@) == rows_of(old(out)@) + with_status(rows_of(tasks@), status),
{
    let ghost rows = rows_of(tasks@);
    let ghost base = rows_of(out@);
    let mut i: usize = 0;
    assert(rows.take(0) =~= Seq::empty());
    assert(rows_of(out@) =~= base + with_status(rows.take(0), status));
    while i < tasks.len()
        invariant
            i <= tasks.len(),
            rows == rows_of(tasks@),
            rows_of(out@) == base + with_status(rows.take(i as int), status),
        decreases tasks.len() - i,
    {
        let uid = tasks[i].0;
        let task = tasks[i].1;
        proof {
            assert(rows.take(i + 1).drop_last() =~= rows.take(i as int));
            assert(rows.take(i + 1).last() == (uid, task@));
        }
        let ghost before = rows_of(out@);
        if task.status() == status {
            out.push((uid, task));
            assert(rows_of(out@) =~= before.push((uid, task@)));
            assert(rows_of(out@) =~= base + with_status(rows.take(i + 1), status));
        }
        i = i + 1;
    }
    assert(rows.take(tasks.len() as int) =~= rows);
}

/// Picks the tasks that a listing shows, in the order in which it shows them.
pub fn visible_tasks<'a>(
    tasks: &Vec<(UID, &'a Task)>,
    todo: bool,
    start: bool,
    cancelled: bool,
    done: bool,
) -> (out: Vec<(UID, &'a Task)>)
    ensures
        rows_of(out@) == visible(rows_of(tasks@), todo, start, cancelled, done),
{
    let mut out: Vec<(UID, &'a Task)> = Vec::new();
    assert(rows_of(out@) =~= Seq::empty());
    if start {
        select(tasks, Status::Ongoing, &mut out);
    }
    if todo {
        select(tasks, Status::Todo, &mut out);
    }
    if done {
        select(tasks, Status::Done, &mut out);
    }
    if cancelled {
        select(tasks, Status::Cancelled, &mut out);
    }
    assert(rows_of(out@) =~= visible(rows_of(tasks@), todo, start, cancelled, done));
    out
}

/// Lays out the listing, at the moment `now`, of the registry's tasks whose
/// status is asked for.
pub fn list_tasks(
    config: &Config,
    task_mgr: &TaskManager,
    todo: bool,
    start: bool,
    cancelled: bool,
    done: bool,
    now: i64,
) -> (lines: Vec<Vec<Cell>>)
    ensures
        lines_view(lines@) == listing(
            config,
            visible(task_mgr@.entries, todo, start, cancelled, done),
            now,
        ),
{
    let all = task_mgr.tasks();
    let tasks = visible_tasks(&all, todo, start, cancelled, done);
    render_tasks(config, &tasks, now)
}

/// The status that a new task gets: ongoing where a start is asked for, else
/// done where that is asked for, else to do.
pub open spec fn initial_status(start: bool, done: bool) -> Status {
    if start {
        Status::Ongoing
    } else if done {
        Status::Done
    } else {
        Status::Todo
    }
}

/// The task that a phrase describes, created at `now`.
pub open spec fn described_task(words: Seq<Seq<char>>, start: bool, done: bool, now: i64) -> TaskView {
    fresh_task(parsed_name(words), Seq::empty(), Some(now)).applied(
        parsed_bundle(words),
    ).with_status(initial_status(start, done))
}

/// What keeps a phrase from describing a new task, if anything: a refused
/// tag first, then the lack of a name.
pub open spec fn add_fault(words: Seq<Seq<char>>) -> Option<ValidationErrorView> {
    match parsed_bundle(words).fault() {
        Some(e) => Some(e),
        None => if parsed_name(words).len() == 0 {
            Some(ValidationErrorView::EmptyName)
        } else {
            None
        },
    }
}

/// Adds the task that the phrase describes, created at `now`, and lays out
/// the listing that shows it alone. A phrase with a refused tag, or one
/// that leaves no name, adds nothing.
pub fn add_task(
    config: &Config,
    task_mgr: &mut TaskManager,
    start: bool,
    done: bool,
    content: Vec<String>,
    now: i64,
) -> (r: Result<Vec<Vec<Cell>>, ValidationError>)
    requires
        old(task_mgr)@.wf(),
        old(task_mgr)@.next_uid < u64::MAX,
    ensures
        final(task_mgr)@.wf(),
        r is Ok <==> add_fault(texts(content@)) is None,
        r is Err ==> final(task_mgr)@ == old(task_mgr)@ && Some(r->Err_0@) == add_fault(
            texts(content@),
        ),
        r is Ok ==> final(task_mgr)@ == old(task_mgr)@.registered(
            described_task(texts(content@), start, done, now),
        ) && lines_view(r->Ok_0@) == listing(
            config,
            seq![
                (
                    UID(old(task_mgr)@.next_uid as u64),
                    described_task(texts(content@), start, done, now),
                ),
            ],
            now,
        ),
{
    let (metadata, name) = Metadata::from_words(&content);
    match metadata.validate() {
        Err(e) => {
            return Err(e);
        },
        Ok(_) => {},
    }
    if name.as_str().is_empty() {
        return Err(ValidationError::EmptyName);
    }
    let mut task = Task::created_at(name, Vec::new(), now);
    task.apply_metadata(metadata);
    if start {
        task.change_status(Status::Ongoing);
    } else if done {
        task.change_status(Status::Done);
    }
    let uid = UID(task_mgr.next_uid());
    let lines = {
        let shown: Vec<(UID, &Task)> = vec![(uid, &task)];
        assert(rows_of(shown@) =~= seq![(uid, task@)]);
        render_tasks(config, &shown, now)
    };
    let _ = task_mgr.register_task(task);
    Ok(lines)
}

/// The task after an edit with the phrase: the bundle is merged into it, and
/// the name is replaced where the phrase has one.
pub open spec fn edited(task: TaskView, words: Seq<Seq<char>>) -> TaskView {
    let merged = task.applied(parsed_bundle(words));
    if parsed_name(words).len() > 0 {
        merged.with_name(parsed_name(words))
    } else {
        merged
    }
}

/// Merges a checked bundle and a name into the task.
fn apply_edit(task: &mut Task, metadata: Metadata, name: String)
    ensures
        old(task)@.wf() ==> final(task)@.wf(),
        final(task)@ == if name@.len() > 0 {
            old(task)@.applied(metadata@).with_name(name@)
        } else {
            old(task)@.applied(metadata@)
        },
{
    task.apply_metadata(metadata);
    if !name.as_str().is_empty() {
        task.change_name(name);
    }
}

/// Changes the name or the tags of a task as the phrase says. A phrase with
/// a refused tag changes nothing.
pub fn edit_task(task: &mut Task, content: Vec<String>) -> (r: Result<(), ValidationError>)
    ensures
        r is Ok <==> parsed_bundle(texts(content@)).valid(),
        r is Err ==> final(task)@ == old(task)@ && Some(r->Err_0@) == parsed_bundle(
            texts(content@),
        ).fault(),
        r is Ok ==> final(task)@ == edited(old(task)@, texts(content@)),
        old(task)@.wf() ==> final(task)@.wf(),
{
    let (metadata, name) = Metadata::from_words(&content);
    match metadata.validate() {
        Err(e) => {
            return Err(e);
        },
        Ok(_) => {},
    }
    apply_edit(task, metadata, name);
    Ok(())
}

/// Changes the name or the tags of the task with identifier `uid` as the
/// phrase says. A phrase with a refused tag, or one that makes the task
/// depend on itself, changes nothing.
pub fn edit_task_of(uid: UID, task: &mut Task, content: Vec<String>) -> (r: Result<
    (),
    ValidationError,
>)
    ensures
        r is Ok <==> parsed_bundle(texts(content@)).valid_for(uid),
        r is Err ==> final(task)@ == old(task)@ && Some(r->Err_0@) == parsed_bundle(
            texts(content@),
        ).fault_for(uid),
        r is Ok ==> final(task)@ == edited(old(task)@, texts(content@)),
        old(task)@.wf() ==> final(task)@.wf(),
{
    let (metadata, name) = Metadata::from_words(&content);
    match metadata.validate_for(uid) {
        Err(e) => {
            return Err(e);
        },
        Ok(_) => {},
    }
    apply_edit(task, metadata, name);
    Ok(())
}

/// The plain text of a line: each cell after one space, filled with spaces
/// up to the width of its column.
pub open spec fn plain_line(cells: Seq<CellView>) -> Seq<char>
    decreases cells.len(),
{
    if cells.len() == 0 {
        Seq::empty()
    } else {
        plain_line(cells.drop_last()) + seq![' '] + padded(cells.last().text, cells.last().width)
    }
}

/// Writes a line as plain text, without its styles.
pub fn line_text(line: &Vec<Cell>) -> (out: String)
    ensures
        out@ == plain_line(line_view(line@)),
{
    let ghost cells = line_view(line@);
    let mut out = String::new();
    let mut i: usize = 0;
    proof {
        reveal_strlit(" ");
        assert(" "@ =~= seq![' ']);
        assert(cells.take(0) =~= Seq::empty());
    }
    while i < line.len()
        invariant
            i <= line.len(),
            cells == line_view(line@),
            " "@ == seq![' '],
            out@ == plain_line(cells.take(i as int)),
        decreases line.len() - i,
    {
        let filled = pad_right(line[i].text.as_str(), line[i].width);
        proof {
            assert(cells.take(i + 1).drop_last() =~= cells.take(i as int));
            assert(cells.take(i + 1).last() == line@[i as int]@);
        }
        out.append(" ");
        out.append(filled.as_str());
        i = i + 1;
    }
    assert(cells.take(line.len() as int) =~= cells);
    out
}

/// A column is never narrower than its label or than any of its values, and
/// it is exactly as wide as one of them.
pub proof fn lemma_largest_is_maximum(floor: nat, widths: Seq<nat>)
    ensures
        floor <= largest(floor, widths),
        forall|i: int| 0 <= i < widths.len() ==> #[trigger] widths[i] <= largest(floor, widths),
        largest(floor, widths) == floor || exists|i: int|
            0 <= i < widths.len() && #[trigger] widths[i] == largest(floor, widths),
    decreases widths.len(),
{
    if widths.len() > 0 {
        let init = widths.drop_last();
        lemma_largest_is_maximum(floor, init);
        let before = largest(floor, init);
        assert forall|i: int| 0 <= i < widths.len() implies #[trigger] widths[i] <= largest(
            floor,
            widths,
        ) by {
            if i < init.len() {
                assert(init[i] == widths[i]);
            }
        }
        if widths.last() > before {
            assert(widths[widths.len() - 1] == largest(floor, widths));
        } else if before != floor {
            let i = choose|i: int| 0 <= i < init.len() && #[trigger] init[i] == before;
            assert(widths[i] == largest(floor, widths));
        }
    }
}

/// The rows of a status are rows of that status, and every row of that
/// status is among them.
pub proof fn lemma_with_status(rows: Seq<(UID, TaskView)>, status: Status)
    ensures
        forall|k: int|
            0 <= k < with_status(rows, status).len() ==> (#[trigger] with_status(
                rows,
                status,
            )[k]).1.status == status && rows.contains(with_status(rows, status)[k]),
        forall|i: int|
            0 <= i < rows.len() && (#[trigger] rows[i]).1.status == status ==> with_status(
                rows,
                status,
            ).contains(rows[i]),
    decreases rows.len(),
{
    if rows.len() > 0 {
        let init = rows.drop_last();
        let before = with_status(init, status);
        let after = with_status(rows, status);
        lemma_with_status(init, status);
        assert forall|k: int| 0 <= k < after.len() implies (#[trigger] after[k]).1.status
            == status && rows.contains(after[k]) by {
            if k < before.len() {
                assert(after[k] == before[k]);
                let i = choose|i: int| 0 <= i < init.len() && init[i] == before[k];
                assert(rows[i] == after[k]);
            } else {
                assert(rows[rows.len() - 1] == after[k]);
            }
        }
        assert forall|i: int| 0 <= i < rows.len() && (#[trigger] rows[i]).1.status
            == status implies after.contains(rows[i]) by {
            if i < init.len() {
                assert(init[i] == rows[i]);
                let k = choose|k: int| 0 <= k < before.len() && before[k] == init[i];
                assert(after[k] == rows[i]);
            } else {
                assert(after[after.len() - 1] == rows[i]);
            }
        }
    }
}

/// A listing shows rows of the registry whose status is asked for, and all
/// of them; and it shows them in the order of their statuses.
pub proof fn lemma_visible(
    rows: Seq<(UID, TaskView)>,
    todo: bool,
    start: bool,
    cancelled: bool,
    done: bool,
)
    ensures
        forall|k: int|
            0 <= k < visible(rows, todo, start, cancelled, done).len() ==> {
                let row = #[trigger] visible(rows, todo, start, cancelled, done)[k];
                rows.contains(row) && shown(row.1.status, todo, start, cancelled, done)
            },
        forall|i: int|
            0 <= i < rows.len() && shown((#[trigger] rows[i]).1.status, todo, start, cancelled, done)
                ==> visible(rows, todo, start, cancelled, done).contains(rows[i]),
        forall|j: int, k: int|
            0 <= j < k < visible(rows, todo, start, cancelled, done).len() ==> (#[trigger] visible(
                rows,
                todo,
                start,
                cancelled,
                done,
            )[j]).1.status.precedence() <= (#[trigger] visible(
                rows,
                todo,
                start,
                cancelled,
                done,
            )[k]).1.status.precedence(),
{
    let a = selected(rows, Status::Ongoing, todo, start, cancelled, done);
    let b = selected(rows, Status::Todo, todo, start, cancelled, done);
    let c = selected(rows, Status::Done, todo, start, cancelled, done);
    let d = selected(rows, Status::Cancelled, todo, start, cancelled, done);
    let all = visible(rows, todo, start, cancelled, done);
    lemma_with_status(rows, Status::Ongoing);
    lemma_with_status(rows, Status::Todo);
    lemma_with_status(rows, Status::Done);
    lemma_with_status(rows, Status::Cancelled);
    assert(all == a + b + c + d);
    assert forall|k: int| 0 <= k < all.len() implies {
        let row = #[trigger] all[k];
        &&& rows.contains(row)
        &&& shown(row.1.status, todo, start, cancelled, done)
        &&& k < a.len() ==> row.1.status == Status::Ongoing
        &&& a.len() <= k < a.len() + b.len() ==> row.1.status == Status::Todo
        &&& a.len() + b.len() <= k < a.len() + b.len() + c.len() ==> row.1.status == Status::Done
        &&& a.len() + b.len() + c.len() <= k ==> row.1.status == Status::Cancelled
    } by {
        if k < a.len() {
            assert(all[k] == a[k]);
        } else if k < a.len() + b.len() {
            assert(all[k] == b[k - a.len()]);
        } else if k < a.len() + b.len() + c.len() {
            assert(all[k] == c[k - a.len() - b.len()]);
        } else {
            assert(all[k] == d[k - a.len() - b.len() - c.len()]);
        }
    }
    assert forall|i: int|
        0 <= i < rows.len() && shown(
            (#[trigger] rows[i]).1.status,
            todo,
            start,
            cancelled,
            done,
        ) implies all.contains(rows[i]) by {
        match rows[i].1.status {
            Status::Ongoing => {
                let k = choose|k: int| 0 <= k < a.len() && a[k] == rows[i];
                assert(all[k] == rows[i]);
            },
            Status::Todo => {
                let k = choose|k: int| 0 <= k < b.len() && b[k] == rows[i];
                assert(all[k + a.len()] == rows[i]);
            },
            Status::Done => {
                let k = choose|k: int| 0 <= k < c.len() && c[k] == rows[i];
                assert(all[k + a.len() + b.len()] == rows[i]);
            },
            Status::Cancelled => {
                let k = choose|k: int| 0 <= k < d.len() && d[k] == rows[i];
                assert(all[k + a.len() + b.len() + c.len()] == rows[i]);
            },
        }
    }
}

/// A phrase without tags describes a task whose name is the phrase itself,
/// the words joined by single spaces, and which has no priority, no project
/// and no dependency.
pub proof fn lemma_described_plain(words: Seq<Seq<char>>, start: bool, done: bool, now: i64)
    requires
        forall|i: int| 0 <= i < words.len() ==> classify(#[trigger] words[i]) == TokenKind::Word,
    ensures
        parsed_bundle(words).valid(),
        described_task(words, start, done, now).name == joined(words),
        described_task(words, start, done, now).priority is None,
        described_task(words, start, done, now).project is None,
        described_task(words, start, done, now).dependencies.len() == 0,
        described_task(words, start, done, now).status == initial_status(start, done),
{
    lemma_plain_phrase(words);
    let empty = Seq::<UID>::empty();
    assert(crate::task::merged(empty, empty) == empty);
}

/// After an edit the dependencies of a task are still a set: where none
/// occurred twice before, none does after, and every task that a word of
/// the phrase declares is among them, as is every one that was.
pub proof fn lemma_edited_dependencies(task: TaskView, words: Seq<Seq<char>>)
    requires
        task.wf(),
    ensures
        edited(task, words).wf(),
        forall|uid: UID|
            edited(task, words).dependencies.contains(uid) <==> task.dependencies.contains(uid)
                || declares(words, uid),
{
    lemma_dependencies_accumulate(words);
    lemma_merged(task.dependencies, parsed_bundle(words).dependencies);
}

/// In a listing no label and no value is wider than its column.
pub proof fn lemma_values_fit(config: &Config, rows: Seq<(UID, TaskView)>, now: i64, i: int)
    requires
        0 <= i < rows.len(),
        widths_fit(config, rows, now),
    ensures
        ({
            let opts = display_options(config, rows, now);
            let task = rows[i].1;
            &&& text_width(config.uid_col_name@) <= opts.task_uid_width
            &&& text_width(config.age_col_name@) <= opts.age_width
            &&& text_width(config.spent_col_name@) <= opts.spent_width
            &&& text_width(config.prio_col_name@) <= opts.prio_width
            &&& text_width(config.project_col_name@) <= opts.project_width
            &&& text_width(config.status_col_name@) <= opts.status_width
            &&& text_width(config.description_col_name@) <= opts.description_width
            &&& uid_width(rows[i].0) <= opts.task_uid_width
            &&& text_width(friendly_duration_text(age_seconds(task, now))) <= opts.age_width
            &&& text_width(spent_shown(task.spent_time, task.status).0) <= opts.spent_width
            &&& text_width(priority_shown(task).0) <= opts.prio_width
            &&& task.project is Some ==> text_width(task.project->Some_0) <= opts.project_width
            &&& text_width(config.alias_text(task.status)) <= opts.status_width
            &&& text_width(task.name) <= opts.description_width
        }),
{
    lemma_largest_is_maximum(text_width(config.uid_col_name@), uid_widths(rows));
    lemma_largest_is_maximum(text_width(config.age_col_name@), age_widths(rows, now));
    lemma_largest_is_maximum(text_width(config.spent_col_name@), spent_widths(rows));
    lemma_largest_is_maximum(text_width(config.prio_col_name@), priority_widths(rows));
    lemma_largest_is_maximum(text_width(config.project_col_name@), project_widths(rows));
    lemma_largest_is_maximum(text_width(config.status_col_name@), status_widths(config, rows));
    lemma_largest_is_maximum(
        text_width(config.description_col_name@),
        description_widths(rows),
    );
    assert(uid_widths(rows)[i] == uid_width(rows[i].0));
    assert(age_widths(rows, now)[i] == text_width(
        friendly_duration_text(age_seconds(rows[i].1, now)),
    ));
    assert(spent_widths(rows)[i] == text_width(
        spent_shown(rows[i].1.spent_time, rows[i].1.status).0,
    ));
    assert(priority_widths(rows)[i] == text_width(priority_shown(rows[i].1).0));
    assert(rows[i].1.project is Some ==> project_widths(rows)[i] == text_width(
        rows[i].1.project->Some_0,
    ));
    assert(status_widths(config, rows)[i] == status_width(config, rows[i].1.status));
    assert(description_widths(rows)[i] == text_width(rows[i].1.name));
}

} // verus!
