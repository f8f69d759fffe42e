use colored::Colorize;
use toodoux::cli::{
    add_task, display_task_header, display_task_inline, edit_task, edit_task_of,
    friendly_duration, friendly_priority, friendly_project, friendly_spent_time,
    friendly_task_age, line_text, list_tasks, visible_tasks, Cell, Colour, DisplayOptions, Role,
    Style,
};
use toodoux::config::Config;
use toodoux::metadata::{Metadata, Priority, ValidationError};
use toodoux::paint::{colour_name, decorate};
use toodoux::task::{Status, Task, TaskManager};
use toodoux::text::{decimal_string, pad_right, signed_decimal_string, width_of};
use toodoux::uid::UID;

fn phrase(list: &[&str]) -> Vec<String> {
    list.iter().map(|w| w.to_string()).collect()
}

fn task_from(list: &[&str], status: Status, now: i64) -> Task {
    let (bundle, name) = Metadata::from_words(&phrase(list));
    let mut task = Task::created_at(name, Vec::new(), now);
    task.apply_metadata(bundle);
    task.change_status(status);
    task
}

fn texts(line: &Vec<Cell>) -> Vec<String> {
    line.iter().map(|c| c.text.clone()).collect()
}

fn widths(line: &Vec<Cell>) -> Vec<usize> {
    line.iter().map(|c| c.width).collect()
}

fn styles(line: &Vec<Cell>) -> Vec<Style> {
    line.iter().map(|c| c.style).collect()
}

#[test]
fn durations_are_friendly() {
    assert_eq!(friendly_duration(45), "45s");
    assert_eq!(friendly_duration(90), "1min");
    assert_eq!(friendly_duration(7200), "2h");
    assert_eq!(friendly_duration(10 * 86400), "10d");
    assert_eq!(friendly_duration(20 * 86400), "2w");
    assert_eq!(friendly_duration(100 * 86400), "3m");
}

#[test]
fn durations_change_unit_at_the_bounds() {
    assert_eq!(friendly_duration(0), "0s");
    assert_eq!(friendly_duration(59), "59s");
    assert_eq!(friendly_duration(60), "1min");
    assert_eq!(friendly_duration(3599), "59min");
    assert_eq!(friendly_duration(3600), "1h");
    assert_eq!(friendly_duration(86399), "23h");
    assert_eq!(friendly_duration(86400), "1d");
    assert_eq!(friendly_duration(14 * 86400 - 1), "13d");
    assert_eq!(friendly_duration(14 * 86400), "2w");
    assert_eq!(friendly_duration(28 * 86400 - 1), "3w");
    assert_eq!(friendly_duration(28 * 86400), "1m");
    assert_eq!(friendly_duration(i64::MAX), "3812571113117m");
}

#[test]
fn negative_durations_are_seconds() {
    assert_eq!(friendly_duration(-5), "-5s");
    assert_eq!(friendly_duration(-7200), "-7200s");
    assert_eq!(friendly_duration(i64::MIN), "-9223372036854775808s");
}

#[test]
fn numbers_are_written_in_decimal() {
    assert_eq!(decimal_string(0), "0");
    assert_eq!(decimal_string(7), "7");
    assert_eq!(decimal_string(10), "10");
    assert_eq!(decimal_string(1234567890), "1234567890");
    assert_eq!(decimal_string(u64::MAX), "18446744073709551615");
    assert_eq!(signed_decimal_string(-1), "-1");
    assert_eq!(signed_decimal_string(12), "12");
}

#[test]
fn texts_are_padded_on_the_right() {
    assert_eq!(pad_right("ab", 5), "ab   ");
    assert_eq!(pad_right("abcde", 5), "abcde");
    assert_eq!(pad_right("abcdef", 5), "abcdef");
    assert_eq!(pad_right("", 2), "  ");
    assert_eq!(width_of("Description"), 11);
    assert_eq!(width_of(""), 0);
}

#[test]
fn age_is_taken_from_the_creation_date() {
    let task = Task::created_at("t".to_string(), Vec::new(), 1000);
    assert_eq!(friendly_task_age(&task, 1045), "45s");
    assert_eq!(friendly_task_age(&task, 1000 + 3 * 86400), "3d");
    assert_eq!(friendly_task_age(&task, 990), "-10s");
    let old = Task::created_at("t".to_string(), Vec::new(), i64::MIN);
    assert_eq!(friendly_task_age(&old, i64::MAX), "3812571113117m");
}

#[test]
fn task_without_creation_date_has_no_age() {
    let task = Task::new("t".to_string(), Vec::new());
    assert_eq!(friendly_task_age(&task, 123456), "0s");
    assert_eq!(friendly_task_age(&task, -5), "0s");
}

#[test]
fn identifier_width_is_the_number_of_digits() {
    assert_eq!(DisplayOptions::guess_task_uid_width(UID(1)), 1);
    assert_eq!(DisplayOptions::guess_task_uid_width(UID(9)), 1);
    assert_eq!(DisplayOptions::guess_task_uid_width(UID(10)), 2);
    assert_eq!(DisplayOptions::guess_task_uid_width(UID(99)), 2);
    assert_eq!(DisplayOptions::guess_task_uid_width(UID(100)), 3);
    assert_eq!(DisplayOptions::guess_task_uid_width(UID(9999)), 4);
    assert_eq!(DisplayOptions::guess_task_uid_width(UID(10000)), 5);
    assert_eq!(DisplayOptions::guess_task_uid_width(UID(99999)), 5);
    assert_eq!(DisplayOptions::guess_task_uid_width(UID(100000)), 6);
    assert_eq!(DisplayOptions::guess_task_uid_width(UID(999999)), 6);
    assert_eq!(DisplayOptions::guess_task_uid_width(UID(1000000)), 7);
    assert_eq!(DisplayOptions::guess_task_uid_width(UID(u64::MAX)), 20);
}

#[test]
fn status_width_is_that_of_the_alias() {
    let config = Config::new();
    assert_eq!(DisplayOptions::guess_task_status_width(&config, Status::Todo), 4);
    assert_eq!(DisplayOptions::guess_task_status_width(&config, Status::Ongoing), 3);
    assert_eq!(DisplayOptions::guess_task_status_width(&config, Status::Done), 4);
    assert_eq!(DisplayOptions::guess_task_status_width(&config, Status::Cancelled), 9);
}

#[test]
fn short_labels_make_narrow_columns() {
    let mut config = Config::new();
    config.status_col_name = "St".to_string();
    config.uid_col_name = "#".to_string();
    config.age_col_name = "A".to_string();
    let task = task_from(&["t"], Status::Ongoing, 0);
    let opts = DisplayOptions::new(&config, &vec![(UID(1000000), &task)], 600);
    assert_eq!(opts.status_width, 3);
    assert_eq!(opts.task_uid_width, 7);
    assert_eq!(opts.age_width, 5);
    let header = display_task_header(&config, &opts);
    let row = display_task_inline(&config, UID(1000000), &task, true, &opts, 600);
    assert_eq!(line_text(&header), " #       A     St  Description");
    assert_eq!(line_text(&row), " 1000000 10min WIP t          ");
    assert_eq!(line_text(&header).len(), line_text(&row).len());
}

#[test]
fn project_width_is_that_of_the_label() {
    let with = task_from(&["t", "+toodoux"], Status::Todo, 0);
    let without = task_from(&["t"], Status::Todo, 0);
    assert_eq!(DisplayOptions::guess_task_project_width(&with), Some(7));
    assert_eq!(DisplayOptions::guess_task_project_width(&without), None);
}

#[test]
fn description_column_is_as_wide_as_its_label_or_widest_name() {
    let config = Config::new();
    let short = task_from(&["abc"], Status::Todo, 0);
    let long = task_from(&["abcdefghij"], Status::Todo, 0);
    let opts = DisplayOptions::new(&config, &vec![(UID(1), &short), (UID(2), &long)], 0);
    assert_eq!(opts.description_width, 11);
    assert_eq!(opts.task_uid_width, 3);
    assert_eq!(opts.status_width, 6);
    assert_eq!(opts.project_width, 7);
    assert!(!opts.has_priorities);
    assert!(!opts.has_projects);
    assert!(!opts.has_spent_time);

    let longer = task_from(&["abcdefghij", "klmnop"], Status::Cancelled, 0);
    let opts = DisplayOptions::new(&config, &vec![(UID(1234567), &short), (UID(2), &longer)], 0);
    assert_eq!(opts.description_width, 17);
    assert_eq!(opts.task_uid_width, 7);
    assert_eq!(opts.status_width, 9);
}

#[test]
fn options_of_no_task_are_the_labels() {
    let config = Config::new();
    let opts = DisplayOptions::new(&config, &Vec::new(), 0);
    assert_eq!(
        opts,
        DisplayOptions {
            task_uid_width: 3,
            age_width: 3,
            spent_width: 5,
            prio_width: 4,
            status_width: 6,
            description_width: 11,
            project_width: 7,
            has_spent_time: false,
            has_priorities: false,
            has_projects: false,
        }
    );
}

#[test]
fn priority_column_is_left_out_where_no_task_has_one() {
    let config = Config::new();
    let short = task_from(&["abc"], Status::Todo, 0);
    let long = task_from(&["abcdefghij"], Status::Todo, 0);
    let tasks = vec![(UID(1), &short), (UID(2), &long)];
    let opts = DisplayOptions::new(&config, &tasks, 0);
    let header = display_task_header(&config, &opts);
    assert_eq!(texts(&header), vec!["UID", "Age", "Status", "Description"]);
    assert_eq!(widths(&header), vec![3, 3, 6, 11]);
    assert_eq!(styles(&header), vec![Role::Heading.style(); 4]);
    assert_eq!(line_text(&header), " UID Age Status Description");
    let first = display_task_inline(&config, UID(1), &short, true, &opts, 0);
    assert_eq!(texts(&first), vec!["1", "0s", "TODO", "abc"]);
    assert_eq!(widths(&first), vec![3, 3, 6, 11]);
    assert_eq!(
        styles(&first),
        vec![Role::Plain.style(), Role::Plain.style(), Role::TodoStatus.style(), Role::TodoName.style()]
    );
    assert_eq!(line_text(&first), " 1   0s  TODO   abc        ");
    let second = display_task_inline(&config, UID(2), &long, false, &opts, 0);
    assert_eq!(texts(&second), vec!["2", "0s", "TODO", "abcdefghij"]);
    assert_eq!(second[3].style, Role::TodoNameAlternate.style());
}

#[test]
fn spent_time_column_is_there_where_time_was_spent() {
    let config = Config::new();
    let idle = task_from(&["idle"], Status::Todo, 0);
    let mut busy = task_from(&["busy"], Status::Ongoing, 0);
    busy.set_spent_time(90);
    let none = DisplayOptions::new(&config, &vec![(UID(1), &idle)], 7200);
    assert!(!none.has_spent_time);
    let tasks = vec![(UID(1), &idle), (UID(2), &busy)];
    let opts = DisplayOptions::new(&config, &tasks, 7200);
    assert!(opts.has_spent_time);
    let header = display_task_header(&config, &opts);
    assert_eq!(texts(&header), vec!["UID", "Age", "Spent", "Status", "Description"]);
    assert_eq!(widths(&header), vec![3, 3, 5, 6, 11]);
    let row = display_task_inline(&config, UID(2), &busy, true, &opts, 7200);
    assert_eq!(texts(&row), vec!["2", "2h", "1min", "WIP", "busy"]);
    assert_eq!(
        styles(&row),
        vec![
            Role::Plain.style(),
            Role::Plain.style(),
            Role::SpentOngoing.style(),
            Role::OngoingStatus.style(),
            Role::OngoingName.style()
        ]
    );
    let row = display_task_inline(&config, UID(1), &idle, true, &opts, 7200);
    assert_eq!(texts(&row), vec!["1", "2h", "", "TODO", "idle"]);
    assert_eq!(row[2].style, Role::Plain.style());
}

#[test]
fn all_columns() {
    let config = Config::new();
    let mut task = task_from(&["ship", "it", "+release", "!critical"], Status::Cancelled, 100);
    task.set_spent_time(3 * 3600);
    let opts = DisplayOptions::new(&config, &vec![(UID(12), &task)], 160);
    let header = display_task_header(&config, &opts);
    assert_eq!(
        texts(&header),
        vec!["UID", "Age", "Spent", "Prio", "Project", "Status", "Description"]
    );
    assert_eq!(widths(&header), vec![3, 4, 5, 4, 7, 9, 11]);
    let row = display_task_inline(&config, UID(12), &task, true, &opts, 160);
    assert_eq!(texts(&row), vec!["12", "1min", "3h", "CRIT", "release", "CANCELLED", "ship it"]);
    assert_eq!(widths(&row), vec![3, 4, 5, 4, 7, 9, 11]);
    assert_eq!(
        styles(&row),
        vec![
            Role::Plain.style(),
            Role::Plain.style(),
            Role::SpentIdle.style(),
            Role::CriticalPriority.style(),
            Role::Project.style(),
            Role::CancelledStatus.style(),
            Role::CancelledName.style()
        ]
    );
    assert_eq!(line_text(&row), " 12  1min 3h    CRIT release CANCELLED ship it    ");
}

#[test]
fn friendly_fields() {
    let plain = task_from(&["t"], Status::Todo, 0);
    let p = friendly_priority(&plain);
    assert_eq!((p.text.as_str(), p.style), ("", Role::Plain.style()));
    let p = friendly_project(&plain);
    assert_eq!((p.text.as_str(), p.style), ("", Role::Plain.style()));
    let low = friendly_priority(&task_from(&["t", "!low"], Status::Todo, 0));
    assert_eq!((low.text.as_str(), low.style), ("LOW", Role::LowPriority.style()));
    let med = friendly_priority(&task_from(&["t", "!medium"], Status::Todo, 0));
    assert_eq!((med.text.as_str(), med.style), ("MED", Role::MediumPriority.style()));
    let high = friendly_priority(&task_from(&["t", "!high"], Status::Todo, 0));
    assert_eq!((high.text.as_str(), high.style), ("HIGH", Role::HighPriority.style()));
    let crit = friendly_priority(&task_from(&["t", "!critical"], Status::Todo, 0));
    assert_eq!((crit.text.as_str(), crit.style), ("CRIT", Role::CriticalPriority.style()));
    let project = friendly_project(&task_from(&["t", "+home"], Status::Todo, 0));
    assert_eq!((project.text.as_str(), project.style), ("home", Role::Project.style()));
    let none = friendly_spent_time(0, Status::Ongoing);
    assert_eq!((none.text.as_str(), none.style), ("", Role::Plain.style()));
    let going = friendly_spent_time(45, Status::Ongoing);
    assert_eq!((going.text.as_str(), going.style), ("45s", Role::SpentOngoing.style()));
    let idle = friendly_spent_time(86400, Status::Done);
    assert_eq!((idle.text.as_str(), idle.style), ("1d", Role::SpentIdle.style()));
}

#[test]
fn listing_filters_and_orders_by_status() {
    let config = Config::new();
    let mut mgr = TaskManager::new();
    mgr.register_task(task_from(&["a"], Status::Done, 0));
    mgr.register_task(task_from(&["b"], Status::Todo, 0));
    mgr.register_task(task_from(&["c"], Status::Ongoing, 0));
    mgr.register_task(task_from(&["d"], Status::Cancelled, 0));
    mgr.register_task(task_from(&["e"], Status::Todo, 0));
    mgr.register_task(task_from(&["f"], Status::Ongoing, 0));

    let all = mgr.tasks();
    let picked = visible_tasks(&all, true, true, true, true);
    let names: Vec<&str> = picked.iter().map(|(_, t)| t.name()).collect();
    assert_eq!(names, vec!["c", "f", "b", "e", "a", "d"]);
    let picked = visible_tasks(&all, true, false, true, false);
    let uids: Vec<UID> = picked.iter().map(|(uid, _)| *uid).collect();
    assert_eq!(uids, vec![UID(2), UID(5), UID(4)]);
    assert!(visible_tasks(&all, false, false, false, false).is_empty());

    let lines = list_tasks(&config, &mgr, true, true, false, false, 60);
    assert_eq!(lines.len(), 5);
    assert_eq!(line_text(&lines[0]), " UID Age  Status Description");
    assert_eq!(line_text(&lines[1]), " 3   1min WIP    c          ");
    assert_eq!(line_text(&lines[2]), " 6   1min WIP    f          ");
    assert_eq!(line_text(&lines[3]), " 2   1min TODO   b          ");
    assert_eq!(line_text(&lines[4]), " 5   1min TODO   e          ");
    assert_eq!(lines[3][3].style, Role::TodoName.style());
    assert_eq!(lines[4][3].style, Role::TodoNameAlternate.style());

    let now = list_tasks(&config, &mgr, false, false, false, true, 0);
    assert_eq!(now.len(), 2);
    assert_eq!(now[1][2].text, "DONE");
    assert_eq!(now[1][3].text, "a");
    assert_eq!(now[1][3].style, Role::DoneName.style());
}

#[test]
fn added_task_is_registered_and_shown() {
    let config = Config::new();
    let mut mgr = TaskManager::new();
    let lines = add_task(
        &config,
        &mut mgr,
        false,
        true,
        phrase(&["write", "spec", "+toodoux", "!high"]),
        500,
    )
    .unwrap();
    assert_eq!(mgr.len(), 1);
    let task = mgr.get(UID(1)).unwrap();
    assert_eq!(task.name(), "write spec");
    assert_eq!(task.project(), Some("toodoux"));
    assert_eq!(task.priority(), Some(Priority::High));
    assert_eq!(task.status(), Status::Done);
    assert_eq!(task.creation_date(), Some(500));
    assert_eq!(lines.len(), 2);
    assert_eq!(texts(&lines[0]), vec!["UID", "Age", "Prio", "Project", "Status", "Description"]);
    assert_eq!(texts(&lines[1]), vec!["1", "0s", "HIGH", "toodoux", "DONE", "write spec"]);

    let listed = list_tasks(&config, &mgr, false, false, false, true, 500 + 90);
    assert_eq!(listed.len(), 2);
    assert_eq!(
        texts(&listed[0]),
        vec!["UID", "Age", "Prio", "Project", "Status", "Description"]
    );
    assert_eq!(texts(&listed[1]), vec!["1", "1min", "HIGH", "toodoux", "DONE", "write spec"]);
    assert_eq!(line_text(&listed[1]), " 1   1min HIGH toodoux DONE   write spec ");
    assert_eq!(list_tasks(&config, &mgr, true, true, true, false, 600).len(), 1);
}

#[test]
fn start_goes_before_done_when_adding() {
    let config = Config::new();
    let mut mgr = TaskManager::new();
    add_task(&config, &mut mgr, true, true, phrase(&["a"]), 0).unwrap();
    add_task(&config, &mut mgr, false, false, phrase(&["b"]), 0).unwrap();
    let lines = add_task(&config, &mut mgr, true, false, phrase(&["c"]), 0).unwrap();
    assert_eq!(mgr.get(UID(1)).unwrap().status(), Status::Ongoing);
    assert_eq!(mgr.get(UID(2)).unwrap().status(), Status::Todo);
    assert_eq!(mgr.get(UID(3)).unwrap().status(), Status::Ongoing);
    assert_eq!(lines[1][0].text, "3");
}

#[test]
fn refused_phrase_adds_nothing() {
    let config = Config::new();
    let mut mgr = TaskManager::new();
    let r = add_task(&config, &mut mgr, false, false, phrase(&["a", "!soon"]), 0);
    match r {
        Err(ValidationError::InvalidValue(word)) => assert_eq!(word, "!soon"),
        other => panic!("unexpected: {:?}", other),
    }
    assert_eq!(mgr.len(), 0);
    assert_eq!(mgr.next_uid(), 1);
}

#[test]
fn phrase_without_a_name_adds_nothing() {
    let config = Config::new();
    let mut mgr = TaskManager::new();
    for content in [phrase(&[]), phrase(&["+home", "!low"]), phrase(&[""])] {
        match add_task(&config, &mut mgr, false, false, content, 0) {
            Err(ValidationError::EmptyName) => {}
            other => panic!("unexpected: {:?}", other),
        }
    }
    match add_task(&config, &mut mgr, false, false, phrase(&["!x"]), 0) {
        Err(ValidationError::InvalidValue(word)) => assert_eq!(word, "!x"),
        other => panic!("unexpected: {:?}", other),
    }
    assert_eq!(mgr.len(), 0);
    assert_eq!(mgr.next_uid(), 1);
}

#[test]
fn rows_are_as_long_as_the_header() {
    let config = Config::new();
    let mut mgr = TaskManager::new();
    add_task(&config, &mut mgr, true, false, phrase(&["long", "ago", "!critical"]), 0).unwrap();
    add_task(&config, &mut mgr, false, false, phrase(&["now", "+p"]), 3000).unwrap();
    mgr.get_mut(UID(1)).unwrap().set_spent_time(40 * 86400);
    let lines = list_tasks(&config, &mgr, true, true, true, true, 3000);
    assert_eq!(lines.len(), 3);
    assert_eq!(line_text(&lines[0]), " UID Age   Spent Prio Project Status Description");
    assert_eq!(line_text(&lines[1]), " 1   50min 1m    CRIT         WIP    long ago   ");
    assert_eq!(line_text(&lines[2]), " 2   0s               p       TODO   now        ");
    for line in &lines {
        assert_eq!(line_text(line).len(), line_text(&lines[0]).len());
    }
}

#[test]
fn edit_merges_tags_and_replaces_the_name() {
    let mut task = task_from(&["old", "name", "+home", "!low"], Status::Ongoing, 10);
    edit_task(&mut task, phrase(&["!high"])).unwrap();
    assert_eq!(task.name(), "old name");
    assert_eq!(task.priority(), Some(Priority::High));
    assert_eq!(task.project(), Some("home"));
    edit_task(&mut task, phrase(&["new", "+work", "title"])).unwrap();
    assert_eq!(task.name(), "new title");
    assert_eq!(task.priority(), Some(Priority::High));
    assert_eq!(task.project(), Some("work"));
    assert_eq!(task.status(), Status::Ongoing);
    assert_eq!(task.creation_date(), Some(10));
}

#[test]
fn refused_edit_leaves_the_task_as_it_was() {
    let mut task = task_from(&["keep", "+home", "!low"], Status::Ongoing, 10);
    let r = edit_task(&mut task, phrase(&["other", "+work", "!high", "^zero"]));
    match r {
        Err(ValidationError::InvalidValue(word)) => assert_eq!(word, "^zero"),
        other => panic!("unexpected: {:?}", other),
    }
    assert_eq!(task.name(), "keep");
    assert_eq!(task.priority(), Some(Priority::Low));
    assert_eq!(task.project(), Some("home"));
    assert_eq!(task.status(), Status::Ongoing);
    assert!(task.dependencies().is_empty());

    let r = edit_task_of(UID(3), &mut task, phrase(&["other", "^3"]));
    match r {
        Err(ValidationError::SelfDependency(uid)) => assert_eq!(uid, UID(3)),
        other => panic!("unexpected: {:?}", other),
    }
    assert_eq!(task.name(), "keep");
    assert!(task.dependencies().is_empty());
    edit_task_of(UID(4), &mut task, phrase(&["^3"])).unwrap();
    assert_eq!(task.dependencies(), &vec![UID(3)]);
}

fn style(
    foreground: Option<Colour>,
    background: Option<Colour>,
    emphasis: [bool; 5],
) -> Style {
    Style {
        foreground,
        background,
        bold: emphasis[0],
        dimmed: emphasis[1],
        italic: emphasis[2],
        underline: emphasis[3],
        strikethrough: emphasis[4],
    }
}

#[test]
fn every_role_has_its_style() {
    let none = [false; 5];
    let bold = [true, false, false, false, false];
    let dimmed = [false, true, false, false, false];
    let italic = [false, false, true, false, false];
    let underline = [false, false, false, true, false];
    let struck = [false, true, false, false, true];
    assert_eq!(Role::Plain.style(), style(None, None, none));
    assert_eq!(Role::Heading.style(), style(None, None, underline));
    assert_eq!(
        Role::TodoName.style(),
        style(Some(Colour::BrightWhite), Some(Colour::Black), none)
    );
    assert_eq!(
        Role::TodoNameAlternate.style(),
        style(Some(Colour::BrightWhite), Some(Colour::BrightBlack), none)
    );
    assert_eq!(
        Role::OngoingName.style(),
        style(Some(Colour::Black), Some(Colour::BrightGreen), none)
    );
    assert_eq!(
        Role::DoneName.style(),
        style(Some(Colour::BrightBlack), Some(Colour::Black), dimmed)
    );
    assert_eq!(
        Role::CancelledName.style(),
        style(Some(Colour::BrightBlack), Some(Colour::Black), struck)
    );
    assert_eq!(Role::TodoStatus.style(), style(Some(Colour::Magenta), None, bold));
    assert_eq!(Role::OngoingStatus.style(), style(Some(Colour::Green), None, bold));
    assert_eq!(Role::DoneStatus.style(), style(Some(Colour::BrightBlack), None, dimmed));
    assert_eq!(Role::CancelledStatus.style(), style(Some(Colour::BrightRed), None, dimmed));
    assert_eq!(Role::LowPriority.style(), style(Some(Colour::BrightBlack), None, dimmed));
    assert_eq!(Role::MediumPriority.style(), style(Some(Colour::Blue), None, none));
    assert_eq!(Role::HighPriority.style(), style(Some(Colour::Red), None, none));
    assert_eq!(
        Role::CriticalPriority.style(),
        style(Some(Colour::Black), Some(Colour::BrightRed), none)
    );
    assert_eq!(Role::Project.style(), style(None, None, italic));
    assert_eq!(Role::SpentOngoing.style(), style(Some(Colour::Blue), None, none));
    assert_eq!(Role::SpentIdle.style(), style(Some(Colour::BrightBlack), None, dimmed));
}

#[test]
fn colours_have_the_names_the_display_knows() {
    let pairs = [
        (Colour::Black, colored::Color::Black),
        (Colour::Red, colored::Color::Red),
        (Colour::Green, colored::Color::Green),
        (Colour::Blue, colored::Color::Blue),
        (Colour::Magenta, colored::Color::Magenta),
        (Colour::BrightBlack, colored::Color::BrightBlack),
        (Colour::BrightRed, colored::Color::BrightRed),
        (Colour::BrightGreen, colored::Color::BrightGreen),
        (Colour::BrightWhite, colored::Color::BrightWhite),
    ];
    for (colour, expected) in pairs {
        assert_eq!(colour_name(colour).parse::<colored::Color>(), Ok(expected));
        let front = decorate("x", style(Some(colour), None, [false; 5]));
        assert_eq!(front.fgcolor, Some(expected));
        assert_eq!(front.bgcolor, None);
        let back = decorate("x", style(None, Some(colour), [false; 5]));
        assert_eq!(back.fgcolor, None);
        assert_eq!(back.bgcolor, Some(expected));
    }
    assert_eq!(colour_name(Colour::BrightBlack), "bright black");
}

#[test]
fn decoration_keeps_the_text_and_follows_the_style() {
    let plain = decorate("abc", Role::Plain.style());
    assert_eq!(&*plain, "abc");
    assert!(plain.is_plain());
    assert_eq!(decorate("UID", Role::Heading.style()), "UID".underline());
    assert_eq!(
        decorate("t", Role::TodoName.style()),
        "t".bright_white().on_black()
    );
    assert_eq!(
        decorate("t", Role::TodoNameAlternate.style()),
        "t".bright_white().on_bright_black()
    );
    assert_eq!(
        decorate("t", Role::OngoingName.style()),
        "t".black().on_bright_green()
    );
    assert_eq!(
        decorate("t", Role::DoneName.style()),
        "t".bright_black().dimmed().on_black()
    );
    assert_eq!(
        decorate("t", Role::CancelledName.style()),
        "t".bright_black().dimmed().strikethrough().on_black()
    );
    assert_eq!(decorate("TODO", Role::TodoStatus.style()), "TODO".bold().magenta());
    assert_eq!(decorate("WIP", Role::OngoingStatus.style()), "WIP".bold().green());
    assert_eq!(decorate("DONE", Role::DoneStatus.style()), "DONE".dimmed().bright_black());
    assert_eq!(
        decorate("CANCELLED", Role::CancelledStatus.style()),
        "CANCELLED".dimmed().bright_red()
    );
    assert_eq!(decorate("LOW", Role::LowPriority.style()), "LOW".bright_black().dimmed());
    assert_eq!(decorate("MED", Role::MediumPriority.style()), "MED".blue());
    assert_eq!(decorate("HIGH", Role::HighPriority.style()), "HIGH".red());
    assert_eq!(
        decorate("CRIT", Role::CriticalPriority.style()),
        "CRIT".black().on_bright_red()
    );
    assert_eq!(decorate("home", Role::Project.style()), "home".italic());
    assert_eq!(decorate("1h", Role::SpentOngoing.style()), "1h".blue());
    assert_eq!(decorate("1h", Role::SpentIdle.style()), "1h".bright_black().dimmed());
}

#[test]
fn widths_count_bytes_and_padding_counts_characters() {
    assert_eq!(width_of("café"), 5);
    assert_eq!(pad_right("café", 6), "café  ");
    let config = Config::new();
    let task = task_from(&["ééééééé"], Status::Todo, 0);
    let opts = DisplayOptions::new(&config, &vec![(UID(1), &task)], 0);
    assert_eq!(opts.description_width, 14);
    let row = display_task_inline(&config, UID(1), &task, true, &opts, 0);
    assert_eq!(line_text(&row), " 1   0s  TODO   ééééééé       ");
}

#[test]
fn decoration_holds_the_text_and_every_piece_of_the_style() {
    let all = style(Some(Colour::Red), Some(Colour::Blue), [true; 5]);
    let painted = decorate("task", all);
    assert_eq!(&*painted, "task");
    assert_eq!(painted.input, "task");
    assert_eq!(painted.fgcolor, Some(colored::Color::Red));
    assert_eq!(painted.bgcolor, Some(colored::Color::Blue));
    assert!(painted.style.contains(colored::Styles::Bold));
    assert!(painted.style.contains(colored::Styles::Dimmed));
    assert!(painted.style.contains(colored::Styles::Italic));
    assert!(painted.style.contains(colored::Styles::Underline));
    assert!(painted.style.contains(colored::Styles::Strikethrough));
    assert!(!painted.style.contains(colored::Styles::Blink));
    let bare = decorate("task", style(None, None, [false; 5]));
    assert_eq!(bare.input, "task");
    assert_eq!(bare.fgcolor, None);
    assert_eq!(bare.bgcolor, None);
    assert!(!bare.style.contains(colored::Styles::Bold));
    assert!(!bare.style.contains(colored::Styles::Strikethrough));
}
