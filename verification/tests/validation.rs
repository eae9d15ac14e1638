//! End-to-end validation: line numbering, skipping of blank lines, full
//! report rendering and determinism.
use timing::project::ProjectWithTasksBuilder;
use timing::projects::{Projects, ProjectsBuilder};
use timing::task::TaskBuilder;
use timing::tasks::TasksBuilder;
use timing::validate;

fn projects() -> Projects {
    ProjectsBuilder::new()
        .with_projects(vec![ProjectWithTasksBuilder::new()
            .with_name("Some specific project".to_string())
            .with_tasks(
                TasksBuilder::new()
                    .with_tasks(vec![TaskBuilder::new()
                        .with_name("Some specific task".to_string())
                        .build()])
                    .build(),
            )
            .build()])
        .build()
}

#[test]
fn it_gives_errors_for_all_lines() {
    let lines = "\n | A2020-01-12T08:00:00 | B2020-01-12T08:30:00 | Bla     | Bla  | Description | \n\n | 2020-01-12T08:00:00  | 2020-01-12T08:30:00  | Project | Task | Description | \n\n\n | A2020-01-12T08:00:00 | 2020-01-12T08:30:00  | Project | Bla  | Description | \n";

    let errors = validate(lines, &projects());

    let expected_line_starts = vec!["1Start", "1End", "1Project", "6Start", "6Task"];
    let line_starts = errors
        .lines()
        .map(|line| {
            line.split("|")
                .map(|part| part.trim())
                .take(2)
                .collect::<String>()
        })
        .collect::<Vec<_>>();
    assert_eq!(line_starts, expected_line_starts);
}

#[test]
fn the_full_report_is_rendered_line_by_line_then_field_by_field() {
    let lines = [
        " | A2020-01-12T08:00:00 | B2020-01-12T08:30:00 | Bla | Bla | Description | ",
        " | 2020-01-12T08:00:00 | 2020-01-12T08:30:00 | Project | Task | Description | ",
        " | A2020-01-12T08:00:00 | 2020-01-12T08:30:00 | Project | Bla | Description | ",
        "",
    ]
    .join("\n");

    let report = validate(&lines, &projects());

    let expected = [
        "0 | Start | ParseError: String is not convertable to date time",
        "0 | End | ParseError: String is not convertable to date time",
        "0 | Project | ProjectError: No match was found",
        "2 | Start | ParseError: String is not convertable to date time",
        "2 | Task | ProjectError: No match was found",
    ]
    .join("\n");
    assert_eq!(report, expected);
}

#[test]
fn blank_lines_are_skipped_but_keep_the_numbering() {
    let lines = "\n\n | Bla | Bla | \n";

    let report = validate(lines, &projects());

    assert_eq!(
        report,
        "2 | All | ParseError: Too few arguments given".to_string()
    );
}

#[test]
fn line_numbers_are_rendered_in_decimal() {
    let mut lines = String::new();
    for _ in 0..12 {
        lines.push('\n');
    }
    lines.push_str(" | Bla | Bla | \n");

    let report = validate(&lines, &projects());

    assert_eq!(
        report,
        "12 | All | ParseError: Too few arguments given".to_string()
    );
}

#[test]
fn an_empty_report_means_every_line_parsed() {
    let lines = "\n | 2020-01-12T08:00:00 | 2020-01-12T08:30:00 | Project | Task | Description | \n";

    let report = validate(lines, &projects());

    assert_eq!(report, "".to_string());
}

#[test]
fn an_empty_input_yields_an_empty_report() {
    let report = validate("", &projects());

    assert_eq!(report, "".to_string());
}

#[test]
fn validation_is_idempotent() {
    let lines = [
        " | A2020-01-12T08:00:00 | B2020-01-12T08:30:00 | Bla | Bla | Description | ",
        "",
        " | A2020-01-12T08:00:00 | 2020-01-12T08:30:00 | Project | Bla | Description | ",
    ]
    .join("\n");

    let first = validate(&lines, &projects());
    let second = validate(&lines, &projects());

    assert_eq!(first, second);
}
