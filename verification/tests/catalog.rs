//! Catalog construction and name resolution.
use timing::list_with_names::ListWithNames;
use timing::named::Named;
use timing::project::{Project, ProjectBuilder, ProjectWithTasksBuilder};
use timing::project_error::{ProjectError, SearchError};
use timing::projects::{Projects, ProjectsBuilder};
use timing::task::TaskBuilder;
use timing::tasks::TasksBuilder;

fn list_of(names: &[&str]) -> timing::tasks::Tasks {
    TasksBuilder::new()
        .with_tasks(
            names
                .iter()
                .map(|name| TaskBuilder::new().with_name(name.to_string()).build())
                .collect(),
        )
        .build()
}

#[test]
fn has_name_when_name_includes_given_string() {
    let named_instance = TaskBuilder::new().with_name("New project".to_string()).build();

    let has_name = named_instance.has_name_with("new");

    assert_eq!(has_name, true);
}

#[test]
fn do_not_has_name_when_name_does_not_include_given_string() {
    let named_instance = TaskBuilder::new().with_name("New project".to_string()).build();

    let has_name = named_instance.has_name_with("abc");

    assert_eq!(has_name, false);
}

#[test]
fn it_finds_one_project() {
    let list = list_of(&["Old Project X", "New Project Y"]);

    let found_items = list.find("new");

    assert_eq!(found_items.unwrap(), &list.tasks[1]);
}

#[test]
fn list_with_names_errors_when_no_project_is_found() {
    let list = list_of(&[]);

    let found_items = list.find("new");

    assert_eq!(found_items, Err(SearchError::NotFound));
}

#[test]
fn list_with_names_errors_when_more_than_one_project_is_found() {
    let list = list_of(&["New Project Y", "Old Project X", "Another new Project Z"]);

    let found_items = list.find("new");

    assert_eq!(found_items, Err(SearchError::FoundMoreThanOne));
}

#[test]
fn if_finds_one_project() {
    let new_project = ProjectWithTasksBuilder::new()
        .with_name("New Project X".to_string())
        .build();
    let projects = ProjectsBuilder::new()
        .with_projects(vec![new_project.clone()])
        .build();

    let found_project = projects.find("new");

    assert_eq!(found_project.unwrap(), &new_project);
}

#[test]
fn mod_errors_when_no_project_is_found() {
    let projects: Projects = ProjectsBuilder::new().with_projects(vec![]).build();

    let found_project = projects.find("new");

    assert_eq!(found_project, Err(SearchError::NotFound));
}

#[test]
fn mod_errors_when_more_than_one_project_is_found() {
    let projects = ProjectsBuilder::new()
        .with_projects(vec![
            ProjectWithTasksBuilder::new()
                .with_name("New Project X".to_string())
                .build(),
            ProjectWithTasksBuilder::new()
                .with_name("This is a new project".to_string())
                .build(),
        ])
        .build();

    let found_project = projects.find("new");

    assert_eq!(found_project, Err(SearchError::FoundMoreThanOne));
}

#[test]
fn it_finds_task_with_specific_string() {
    let expected_task = TaskBuilder::new()
        .with_name("Task with some speciality".to_string())
        .build();
    let project = ProjectWithTasksBuilder::new()
        .with_tasks(
            TasksBuilder::new()
                .with_tasks(vec![expected_task.clone()])
                .build(),
        )
        .build();

    let task = project.find_task("Special");

    assert_eq!(task, Ok(&expected_task));
}

#[test]
fn projects_it_finds_project_and_task() {
    let task_to_be_found = TaskBuilder::new()
        .with_name("Some special task I want to find".to_string())
        .build();
    let project_to_be_found = ProjectWithTasksBuilder::new()
        .with_name("Some specific Project I want to find".to_string())
        .with_tasks(
            TasksBuilder::new()
                .with_tasks(vec![
                    TaskBuilder::new().with_name("Another task".to_string()).build(),
                    task_to_be_found.clone(),
                ])
                .build(),
        )
        .build();
    let projects = ProjectsBuilder::new()
        .with_projects(vec![
            ProjectWithTasksBuilder::new()
                .with_name("Another project".to_string())
                .build(),
            project_to_be_found.clone(),
        ])
        .build();

    let (project, task) = projects
        .get_project_with_task("specific project", "special task")
        .unwrap();

    assert_eq!(project, Project::new(&project_to_be_found));
    assert_eq!(task, task_to_be_found);
}

#[test]
fn resolution_is_case_insensitive_substring_matching() {
    let project = ProjectWithTasksBuilder::new()
        .with_name("Some specific project".to_string())
        .with_tasks(list_of(&["Some specific task"]))
        .build();
    let projects = ProjectsBuilder::new().with_projects(vec![project.clone()]).build();

    let by_middle = projects.find("specific project").unwrap();
    let by_upper = projects.find("SPECIFIC").unwrap();

    assert_eq!(by_middle, &project);
    assert_eq!(by_upper, &project);
}

#[test]
fn ambiguous_project_query_is_never_resolved_by_tie_break() {
    let projects = ProjectsBuilder::new()
        .with_projects(vec![
            ProjectWithTasksBuilder::new()
                .with_name("Some specific project".to_string())
                .build(),
            ProjectWithTasksBuilder::new()
                .with_name("Another specific project".to_string())
                .build(),
        ])
        .build();

    let found = projects.get_project_with_task("specific", "anything");

    assert_eq!(found, Err(ProjectError::Project(SearchError::FoundMoreThanOne)));
}

#[test]
fn ambiguous_task_query_fails_inside_resolved_project() {
    let project = ProjectWithTasksBuilder::new()
        .with_name("Lonely project".to_string())
        .with_tasks(list_of(&["Review notes", "Review code"]))
        .build();
    let projects = ProjectsBuilder::new().with_projects(vec![project]).build();

    let found = projects.get_project_with_task("lonely", "review");

    assert_eq!(found, Err(ProjectError::Task(SearchError::FoundMoreThanOne)));
}

#[test]
fn missing_task_is_reported_as_task_error() {
    let project = ProjectWithTasksBuilder::new()
        .with_name("Lonely project".to_string())
        .with_tasks(list_of(&["Review notes"]))
        .build();
    let projects = ProjectsBuilder::new().with_projects(vec![project]).build();

    let found = projects.get_project_with_task("lonely", "absent");

    assert_eq!(found, Err(ProjectError::Task(SearchError::NotFound)));
}

#[test]
fn builders_start_from_placeholder_values() {
    let task = TaskBuilder::new().build();
    let project = ProjectBuilder::new().build();

    assert_eq!(task.id, 1);
    assert_eq!(task.name, "task".to_string());
    assert_eq!(project.id, 1);
    assert_eq!(project.name, "project".to_string());
}
