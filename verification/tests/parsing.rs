//! Line parsing, field-error collection and line-error expansion.
use timing::activity::{Activity, Description, ParsedActivity};
use timing::activity_line::ActivityLine;
use timing::line_error::LineError;
use timing::parse_error::{ArgumentParseError, DateTimeParseError, ParseError};
use timing::project::{Project, ProjectBuilder, ProjectWithTasksBuilder};
use timing::project_error::{ProjectError, SearchError};
use timing::projects::{Projects, ProjectsBuilder};
use timing::task::TaskBuilder;
use timing::tasks::TasksBuilder;
use timing::time::{End, Start, Timestamp};

fn projects() -> Projects {
    ProjectsBuilder::new()
        .with_projects(vec![ProjectWithTasksBuilder::new()
            .with_name("Some specific project".to_string())
            .with_tasks(
                TasksBuilder::new()
                    .with_tasks(vec![TaskBuilder::new()
                        .with_name("Some specific task".to_string())
                        .build()])
                    .build(),
            )
            .build()])
        .build()
}

#[test]
fn it_throws_when_start_cannot_be_converted_to_date_time() {
    let line = ActivityLine::new(
        " | A2020-01-12T08:00:00 | 2020-01-12T08:30:00 | Project | Task | Description | ",
    );

    let parsed_line = line.parse(&projects());

    assert_eq!(
        parsed_line,
        Err(ParseError::ArgumentErrors(vec![ArgumentParseError::Start(
            DateTimeParseError::NotConvertible
        )]))
    );
}

#[test]
fn activity_line_it_throws_when_not_enough_columns_are_given() {
    let line = ActivityLine::new(" | Bla | Bla | ");

    let parsed_line = line.parse(&projects());

    assert_eq!(parsed_line, Err(ParseError::TooFewArguments));
}

#[test]
fn it_throws_when_start_and_end_cannot_be_converted_to_date_time() {
    let line = ActivityLine::new(
        " | A2020-01-12T08:00:00 | B2020-01-12T08:30:00 | Project | Task | Description | ",
    );

    let parsed_line = line.parse(&projects());

    assert_eq!(
        parsed_line,
        Err(ParseError::ArgumentErrors(vec![
            ArgumentParseError::Start(DateTimeParseError::NotConvertible),
            ArgumentParseError::End(DateTimeParseError::NotConvertible),
        ]))
    );
}

#[test]
fn activity_line_it_parses_a_full_timing_line() {
    let line = ActivityLine::new(
        " | 2020-01-12T08:00:00 | 2020-01-12T08:30:00 | Project | Task | Description | ",
    );

    let parsed_line = line.parse(&projects());

    assert_eq!(
        parsed_line,
        Ok(ParsedActivity::from(
            Timestamp::new(2020, 1, 12, 8, 0, 0),
            Timestamp::new(2020, 1, 12, 8, 30, 0),
            "Project".to_string(),
            "Task".to_string(),
            "Description".to_string()
        ))
    );
}

#[test]
fn invalid_calendar_dates_are_not_convertible() {
    let line = ActivityLine::new(
        " | 2020-13-45T08:00:00 | 2020-01-12T08:30:00 | Project | Task | Description | ",
    );

    let parsed_line = line.parse(&projects());

    assert_eq!(
        parsed_line,
        Err(ParseError::ArgumentErrors(vec![ArgumentParseError::Start(
            DateTimeParseError::NotConvertible
        )]))
    );
}

#[test]
fn unresolved_project_is_collected_with_the_other_errors() {
    let line = ActivityLine::new(
        " | A2020-01-12T08:00:00 | 2020-01-12T08:30:00 | Bla | Task | Description | ",
    );

    let parsed_line = line.parse(&projects());

    assert_eq!(
        parsed_line,
        Err(ParseError::ArgumentErrors(vec![
            ArgumentParseError::Start(DateTimeParseError::NotConvertible),
            ArgumentParseError::ProjectAndTask(ProjectError::Project(SearchError::NotFound)),
        ]))
    );
}

#[test]
fn it_collects_no_error_when_all_arguments_are_ok() {
    let start = Result::Ok(Start::new(Timestamp::new(2020, 1, 12, 8, 0, 0)));
    let end = Result::Ok(End::new(Timestamp::new(2020, 1, 12, 8, 0, 0)));
    let project_and_task =
        Result::Ok((ProjectBuilder::new().build(), TaskBuilder::new().build()));

    let error = ParseError::from_arguments(&start, &end, &project_and_task);

    assert_eq!(error, Ok(()));
}

#[test]
fn it_collects_all_errors() {
    let start = Result::Err(DateTimeParseError::NotConvertible);
    let end = Result::Err(DateTimeParseError::NotConvertible);
    let project_and_task = Result::Err(ProjectError::Project(SearchError::NotFound));

    let error = ParseError::from_arguments(&start, &end, &project_and_task);

    assert_eq!(
        error,
        Err(ParseError::ArgumentErrors(vec![
            ArgumentParseError::Start(DateTimeParseError::NotConvertible),
            ArgumentParseError::End(DateTimeParseError::NotConvertible),
            ArgumentParseError::ProjectAndTask(ProjectError::Project(SearchError::NotFound)),
        ]))
    );
}

#[test]
fn for_argument_errors() {
    let error = ParseError::ArgumentErrors(vec![
        ArgumentParseError::Start(DateTimeParseError::NotConvertible),
        ArgumentParseError::End(DateTimeParseError::NotConvertible),
    ]);

    let line_errors = error.at_line(5);

    assert_eq!(
        line_errors,
        vec![
            LineError::new(
                5,
                ArgumentParseError::Start(DateTimeParseError::NotConvertible).message()
            ),
            LineError::new(
                5,
                ArgumentParseError::End(DateTimeParseError::NotConvertible).message()
            ),
        ]
    );
}

#[test]
fn for_too_few_arguments_error() {
    let error = ParseError::TooFewArguments;

    let line_errors = error.at_line(4);

    assert_eq!(
        line_errors,
        vec![LineError::new(4, ParseError::TooFewArguments.message())]
    );
}

#[test]
fn it_finds_suitable_project_and_task_in_projects() {
    let parsed_activity = ParsedActivity::from(
        Timestamp::new(2020, 1, 12, 8, 0, 0),
        Timestamp::new(2020, 1, 12, 8, 30, 0),
        "specific project".to_string(),
        "specific task".to_string(),
        "some description".to_string(),
    );
    let task_to_be_found = TaskBuilder::new()
        .with_name("Some specific task".to_string())
        .build();
    let project_to_be_found = ProjectWithTasksBuilder::new()
        .with_name("Some specific project".to_string())
        .with_tasks(
            TasksBuilder::new()
                .with_tasks(vec![
                    TaskBuilder::new().with_name("Some task".to_string()).build(),
                    task_to_be_found.clone(),
                ])
                .build(),
        )
        .build();
    let projects = ProjectsBuilder::new()
        .with_projects(vec![
            ProjectWithTasksBuilder::new().with_name("Urgent".to_string()).build(),
            project_to_be_found.clone(),
        ])
        .build();

    let activity = parsed_activity.into_activity(&projects);

    assert_eq!(
        activity,
        Ok(Activity::from(
            Start::new(Timestamp::new(2020, 1, 12, 8, 0, 0)),
            End::new(Timestamp::new(2020, 1, 12, 8, 30, 0)),
            Project::new(&project_to_be_found),
            task_to_be_found,
            Description::new("some description".to_string())
        ))
    );
}

#[test]
fn error_messages_carry_their_field_tags() {
    assert_eq!(
        ArgumentParseError::Start(DateTimeParseError::NotConvertible).message(),
        "Start | ParseError: String is not convertable to date time".to_string()
    );
    assert_eq!(
        ArgumentParseError::End(DateTimeParseError::NotConvertible).message(),
        "End | ParseError: String is not convertable to date time".to_string()
    );
    assert_eq!(
        ArgumentParseError::ProjectAndTask(ProjectError::Project(SearchError::NotFound))
            .message(),
        "Project | ProjectError: No match was found".to_string()
    );
    assert_eq!(
        ArgumentParseError::ProjectAndTask(ProjectError::Task(
            SearchError::FoundMoreThanOne
        ))
        .message(),
        "Task | ProjectError: More than one match was found".to_string()
    );
    assert_eq!(
        ParseError::TooFewArguments.message(),
        "All | ParseError: Too few arguments given".to_string()
    );
}
