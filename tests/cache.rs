use rusji::errors::RusjiError;
use rusji::issues::{
    IssueTransition, IssueTransitions, JiraIssue, JiraIssueStatus, JiraIssues,
};
use rusji::jira_data::{expand_issue_key, resolve_selection, JiraData};
use rusji::projects::{JiraProject, JiraProjects};
use rusji::request::HttpMethod;

fn project(name: &str, key: &str) -> JiraProject {
    JiraProject {
        link: format!("https://jira.example.com/rest/api/2/project/{key}"),
        id: format!("id-{key}"),
        key: key.to_string(),
        name: name.to_string(),
        tasks: None,
    }
}

fn issue(key: &str, summary: &str) -> JiraIssue {
    JiraIssue {
        id: format!("id-{key}"),
        link: format!("https://jira.example.com/rest/api/2/issue/{key}"),
        key: key.to_string(),
        description: "No description".to_string(),
        summary: summary.to_string(),
        status: JiraIssueStatus {
            id: "1".to_string(),
            link: "https://jira.example.com/status/1".to_string(),
            description: "open".to_string(),
            icon_url: "https://jira.example.com/icon".to_string(),
            name: "Open".to_string(),
        },
        transitions: None,
        assignee: None,
    }
}

fn data() -> JiraData {
    JiraData::new("https://jira.example.com", "dXNlcjpwYXNz")
}

fn sorted(mut v: Vec<&str>) -> Vec<&str> {
    v.sort();
    v
}

#[test]
fn second_listing_replaces_the_first() {
    let mut d = data();
    d.update_projects(Ok(JiraProjects(vec![project("Alpha", "ALP"), project("Beta", "BET")])));
    d.update_projects(Ok(JiraProjects(vec![project("Gamma", "GAM")])));
    assert_eq!(d.get_projects_names(), vec!["Gamma"]);
    assert!(d.get_project("Alpha").is_none());
    assert!(d.get_project("Gamma").is_some());
}

#[test]
fn listing_resets_loaded_tasks() {
    let mut d = data();
    d.update_projects(Ok(JiraProjects(vec![project("Alpha", "ALP")])));
    d.update_tasks("Alpha", Ok(JiraIssues { issues: vec![issue("ALP-1", "one")] }));
    assert!(d.get_project("Alpha").unwrap().tasks.is_some());
    d.update_projects(Ok(JiraProjects(vec![project("Alpha", "ALP")])));
    assert!(d.get_project("Alpha").unwrap().tasks.is_none());
}

#[test]
fn duplicate_names_keep_the_last_project() {
    let mut d = data();
    d.update_projects(Ok(JiraProjects(vec![project("Alpha", "ONE"), project("Alpha", "TWO")])));
    assert_eq!(d.get_projects_names(), vec!["Alpha"]);
    assert_eq!(d.get_project("Alpha").unwrap().key, "TWO");
}

#[test]
fn failed_listing_invalidates_the_cache() {
    let mut d = data();
    d.update_projects(Ok(JiraProjects(vec![project("Alpha", "ALP")])));
    d.update_projects(Err(RusjiError::RequestError));
    assert!(d.get_projects_names().is_empty());
    assert!(d.get_project("Alpha").is_none());
    d.update_projects(Ok(JiraProjects(vec![project("Alpha", "ALP")])));
    d.update_projects(Err(RusjiError::SerializeError));
    assert!(d.projects.is_none());
}

#[test]
fn project_search_ignores_case() {
    let mut d = data();
    d.update_projects(Ok(JiraProjects(vec![project("MyProj", "MYP"), project("Other", "OTH")])));
    assert_eq!(d.find_project_by_subname("proj"), vec!["MyProj"]);
    assert_eq!(d.find_project_by_subname("PROJ"), vec!["MyProj"]);
    assert_eq!(d.find_project_by_subname("Proj"), vec!["MyProj"]);
    assert!(d.find_project_by_subname("xyz").is_empty());
    assert_eq!(sorted(d.find_project_by_subname("")), vec!["MyProj", "Other"]);
}

#[test]
fn project_search_on_empty_cache_is_empty() {
    let d = data();
    assert!(d.find_project_by_subname("proj").is_empty());
}

#[test]
fn task_search_ignores_case_and_needs_loaded_tasks() {
    let mut d = data();
    d.update_projects(Ok(JiraProjects(vec![project("Proj", "PRO")])));
    assert!(d.find_task_by_subname("pro", "Proj").is_none());
    d.update_tasks(
        "Proj",
        Ok(JiraIssues { issues: vec![issue("PRO-1", "one"), issue("PRO-12", "twelve")] }),
    );
    let found = d.find_task_by_subname("pro-1", "Proj").unwrap();
    let mut keys: Vec<&str> = found.iter().map(|i| i.key.as_str()).collect();
    keys.sort();
    assert_eq!(keys, vec!["PRO-1", "PRO-12"]);
    let found = d.find_task_by_subname("-12", "Proj").unwrap();
    assert_eq!(found.len(), 1);
    assert_eq!(found[0].summary, "twelve");
    assert!(d.find_task_by_subname("pro", "Missing").is_none());
}

#[test]
fn failed_task_fetch_drops_only_that_projects_tasks() {
    let mut d = data();
    d.update_projects(Ok(JiraProjects(vec![project("A", "A"), project("B", "B")])));
    d.update_tasks("A", Ok(JiraIssues { issues: vec![issue("A-1", "a")] }));
    d.update_tasks("B", Ok(JiraIssues { issues: vec![issue("B-1", "b")] }));
    d.update_tasks("A", Err(RusjiError::RequestError));
    assert!(d.get_project("A").unwrap().tasks.is_none());
    assert_eq!(d.get_tasks_names_by_project("B"), Some(vec!["B-1 -- b".to_string()]));
}

#[test]
fn bulk_task_fetch_replaces_single_inserts() {
    let mut d = data();
    d.update_projects(Ok(JiraProjects(vec![project("A", "A")])));
    d.set_selected_project("A");
    d.add_new_task(issue("A-9", "nine"));
    assert_eq!(d.get_tasks_names_by_project("A"), Some(vec!["A-9 -- nine".to_string()]));
    d.add_new_task(issue("A-9", "nine again"));
    d.add_new_task(issue("A-3", "three"));
    assert_eq!(
        d.get_tasks_names_by_project("A"),
        Some(vec!["A-9 -- nine again".to_string(), "A-3 -- three".to_string()])
    );
    d.update_tasks("A", Ok(JiraIssues { issues: vec![issue("A-1", "one")] }));
    assert_eq!(d.get_tasks_names_by_project("A"), Some(vec!["A-1 -- one".to_string()]));
}

#[test]
fn key_shorthand_expansion() {
    assert_eq!(expand_issue_key("PRO", "12"), "PRO-12");
    assert_eq!(expand_issue_key("PRO", "OTHER-5"), "OTHER-5");
    assert_eq!(expand_issue_key("PRO", "1a"), "1a");
    assert_eq!(expand_issue_key("PRO", ""), "");
    assert_eq!(resolve_selection("PRO", "PRO-7 -- Fix login"), "PRO-7");
    assert_eq!(resolve_selection("PRO", "a -- b -- c"), "a -- b -- c");
    assert_eq!(resolve_selection("PRO", "3"), "PRO-3");

    let mut d = data();
    assert!(d.issue_fetch_request("12").is_none());
    d.update_projects(Ok(JiraProjects(vec![project("Project", "PRO")])));
    d.set_selected_project("Project");
    let req = d.issue_fetch_request("12").unwrap().unwrap();
    assert_eq!(req.path, "/rest/api/2/issue/PRO-12?expand=renderedFields");
    assert_eq!(req.url.as_str(), "https://jira.example.com/rest/api/2/issue/PRO-12?expand=renderedFields");
    let req = d.issue_fetch_request("OTHER-5").unwrap().unwrap();
    assert_eq!(req.path, "/rest/api/2/issue/OTHER-5?expand=renderedFields");
}

#[test]
fn fetched_issue_is_stored_and_failure_leaves_cache() {
    let mut d = data();
    d.update_projects(Ok(JiraProjects(vec![project("Project", "PRO")])));
    d.set_selected_project("Project");
    let got = d.store_fetched_issue(Ok(issue("PRO-12", "twelve"))).unwrap();
    assert_eq!(got, ("twelve".to_string(), "No description".to_string()));
    assert_eq!(
        d.get_tasks_names_by_project("Project"),
        Some(vec!["PRO-12 -- twelve".to_string()])
    );
    let err = d.store_fetched_issue(Err(RusjiError::SerializeError));
    assert_eq!(err, Err(RusjiError::SerializeError));
    assert_eq!(
        d.get_tasks_names_by_project("Project"),
        Some(vec!["PRO-12 -- twelve".to_string()])
    );
}

#[test]
fn end_to_end_transition() {
    let mut d = data();
    d.update_projects(Ok(JiraProjects(vec![project("PRO", "PRO")])));
    d.update_tasks("PRO", Ok(JiraIssues { issues: vec![issue("PRO-1", "first")] }));
    d.set_selected_project("PRO");
    assert_eq!(d.set_selected_task("1"), Some("PRO-1".to_string()));
    assert_eq!(d.selected_task, "PRO-1");
    assert_eq!(d.get_selected_task().summary, "first");
    assert_eq!(d.get_selected_project_key(), "PRO");
    let snapshot = IssueTransitions::new(vec![
        IssueTransition { id: "11".to_string(), name: "Done".to_string() },
        IssueTransition { id: "21".to_string(), name: "In Progress".to_string() },
    ]);
    assert!(d.add_transitions_to_selected_task(snapshot));
    let req = d.update_issue_transition("PRO-1", "Done").unwrap();
    assert_eq!(req.method, HttpMethod::Post);
    assert_eq!(req.path, "/rest/api/2/issue/PRO-1/transitions");
    assert_eq!(req.body, Some(r#"{"transition":{"id":"11"}}"#.to_string()));
    assert_eq!(req.authorization, "Basic dXNlcjpwYXNz");
    let req = d.update_issue_transition("PRO-1", "Closed").unwrap();
    assert_eq!(req.body, Some(r#"{"transition":{"id":"0"}}"#.to_string()));
}

#[test]
fn selection_needs_a_cached_project() {
    let mut d = data();
    assert_eq!(d.set_selected_task("1"), None);
    d.update_projects(Ok(JiraProjects(vec![project("PRO", "PRO")])));
    d.set_selected_project("Nope");
    assert_eq!(d.set_selected_task("1"), None);
    assert_eq!(d.selected_task, "");
    d.set_selected_project("PRO");
    assert_eq!(d.set_selected_task("PRO-4 -- summary"), Some("PRO-4".to_string()));
    assert!(!d.add_transitions_to_selected_task(IssueTransitions::new(Vec::new())));
}
