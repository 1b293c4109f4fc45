use rusji::config::{app_directory_in, config_file_in, Config, ConfigError};
use rusji::json::{decimal_string, json_quoted};
use rusji::metadata::{IssueMetaData, MetaField};
use rusji::request::{
    HttpMethod, IssuePropertiesReqData, IssueTransitionsReqData, RequestClient, RequestResponse,
};
use rusji::statuses::{StatusCategory, TaskStatus, TaskType, TaskTypes};
use rusji::text::{contains, find_from, is_number};
use rusji::actions::{MenuVariant, RegisterJira, TaskActions};

fn client() -> RequestClient {
    RequestClient::new("Y3JlZHM=".to_string(), "https://jira.example.com/base/")
}

#[test]
fn read_endpoints() {
    let c = client();
    let r = c.get_jira_projects().unwrap();
    assert_eq!(r.method, HttpMethod::Get);
    assert_eq!(r.path, "/rest/api/2/project");
    assert_eq!(r.url.as_str(), "https://jira.example.com/rest/api/2/project");
    assert_eq!(r.authorization, "Basic Y3JlZHM=");
    assert!(r.body.is_none());
    assert_eq!(
        c.get_tasks_from_project("PRO").unwrap().path,
        "/rest/api/2/search?jql=project=PRO&expand=renderedFields"
    );
    assert_eq!(c.get_task("PRO-1").unwrap().path, "/rest/api/2/issue/PRO-1?expand=renderedFields");
    assert_eq!(c.get_task_statuses("PRO").unwrap().path, "/rest/api/2/project/PRO/statuses");
    assert_eq!(
        c.get_issue_transitions("PRO-1").unwrap().path,
        "/rest/api/2/issue/PRO-1/transitions"
    );
    assert_eq!(c.get_issue_metadata("PRO-1").unwrap().path, "/rest/api/2/issue/PRO-1/editmeta");
    assert_eq!(
        c.get_jira_users("bob").unwrap().path,
        "/rest/api/2/user/search?username=bob"
    );
}

#[test]
fn bad_base_url_is_a_request_error() {
    let c = RequestClient::new("x".to_string(), "not a url");
    assert_eq!(c.get_jira_projects().err(), Some(rusji::errors::RusjiError::RequestError));
}

#[test]
fn write_endpoints() {
    let c = client();
    let r = c.update_task_transition("PRO-1", "31").unwrap();
    assert_eq!(r.method, HttpMethod::Post);
    assert_eq!(r.body, Some(r#"{"transition":{"id":"31"}}"#.to_string()));
    let r = c.update_issue_assignee("al\"ice", "PRO-1").unwrap();
    assert_eq!(r.method, HttpMethod::Put);
    assert_eq!(r.path, "/rest/api/2/issue/PRO-1");
    assert_eq!(r.body, Some(r#"{"fields":{"assignee":{"name":"al\"ice"}}}"#.to_string()));
    let meta = IssueMetaData {
        fields: vec![MetaField {
            key: "customfield_10106".to_string(),
            name: Some("Story Points".to_string()),
            field_id: Some("customfield_10106".to_string()),
        }],
    };
    let r = c.update_issue_story_points(8, "PRO-1", &meta).unwrap();
    assert_eq!(r.body, Some(r#"{"fields":{"customfield_10106":8}}"#.to_string()));
    let r = c.update_issue_story_points(13, "PRO-1", &IssueMetaData { fields: Vec::new() }).unwrap();
    assert_eq!(r.body, Some(r#"{"fields":{"Story Points":13}}"#.to_string()));
}

#[test]
fn request_payloads() {
    assert_eq!(IssueTransitionsReqData::new().to_json(), r#"{"transition":null}"#);
    assert_eq!(
        IssueTransitionsReqData::new().add_transition_data("5").to_json(),
        r#"{"transition":{"id":"5"}}"#
    );
    assert_eq!(IssuePropertiesReqData::new().to_json(), r#"{"fields":{}}"#);
    let mut p = IssuePropertiesReqData::new();
    p.set_assignee("bob");
    assert_eq!(p.to_json(), r#"{"fields":{"assignee":{"name":"bob"}}}"#);
    assert_eq!(
        p.add_story_points_and_return_as_string(0, "cf".to_string()),
        r#"{"fields":{"assignee":{"name":"bob"},"cf":0}}"#
    );
    assert_eq!(json_quoted("a\nb"), "\"a\\nb\"");
    assert_eq!(json_quoted("q\"\\\u{1}\u{8}é"), "\"q\\\"\\\\\\u0001\\bé\"");
    assert_eq!(decimal_string(0), "0");
    assert_eq!(decimal_string(1234567890), "1234567890");
    assert_eq!(RequestResponse::new("body".to_string()).get_body(), "body");
}

#[test]
fn text_helpers() {
    assert!(contains("MyProj", "Pro"));
    assert!(contains("abc", ""));
    assert!(!contains("ab", "abc"));
    assert_eq!(find_from("a -- b -- c", " -- ", 0), Some(1));
    assert_eq!(find_from("a -- b -- c", " -- ", 2), Some(6));
    assert_eq!(find_from("ab", "", 2), Some(2));
    assert!(is_number("0123"));
    assert!(!is_number("+1"));
    assert!(!is_number(""));
}

#[test]
fn configuration() {
    let mut config = Config { companies: Vec::new(), config_path: "/tmp/c.json".to_string() };
    config.add_new_company("https://a.example.com", "Acme", "user", "pass");
    config.add_new_company("https://b.example.com", "Beta", "u", "p");
    assert_eq!(config.companies_names(), vec!["Acme".to_string(), "Beta".to_string()]);
    let jira = config.get_jira_by_company("Acme").unwrap();
    assert_eq!(jira.get_url(), "https://a.example.com");
    assert_eq!(jira.get_encoded_creds(), "dXNlcjpwYXNz");
    assert_eq!(config.get_jira_by_company("Nope").err(), Some(ConfigError::CompanyNotFound));
    assert!(config.delete_company("Acme"));
    assert!(!config.delete_company("Acme"));
    assert_eq!(config.companies_names(), vec!["Beta".to_string()]);
    assert_eq!(app_directory_in("/home/u"), "/home/u/.rusji");
    assert_eq!(config_file_in("/home/u"), "/home/u/.rusji/config.json");
}

#[test]
fn menus() {
    assert_eq!(
        TaskActions::get_actions(),
        vec!["Change status", "Change assignee", "Change story points"]
    );
    assert_eq!(TaskActions::parse("Change assignee"), Ok(TaskActions::ChangeAssignee));
    assert!(TaskActions::parse("Delete").is_err());
    assert_eq!("Change status".parse::<TaskActions>(), Ok(TaskActions::StatusChange));
    assert_eq!(MenuVariant::get_menu_variants(), vec!["I'm assignee tasks", "I'm creator tasks"]);
    assert_eq!(MenuVariant::parse("I'm creator tasks"), Ok(MenuVariant::IamCreator));
    let reg = RegisterJira {
        link: "l".to_string(),
        username: "u".to_string(),
        password: "p".to_string(),
        company_name: "c".to_string(),
    };
    let t = reg.make_tuple_of_struct();
    assert_eq!(t.len(), 4);
    assert_eq!(t[0], ("link".to_string(), &"l".to_string()));
    assert_eq!(t[3].0, "company_name");
}

fn status(id: &str) -> TaskStatus {
    TaskStatus {
        link: "l".to_string(),
        description: "d".to_string(),
        icon_url: "i".to_string(),
        name: format!("status {id}"),
        id: id.to_string(),
        category: StatusCategory {
            link: "l".to_string(),
            id: "2".to_string(),
            key: "new".to_string(),
            name: "New".to_string(),
        },
    }
}

fn task_type(name: &str, ids: &[&str]) -> TaskType {
    TaskType {
        link: "l".to_string(),
        id: name.to_string(),
        name: name.to_string(),
        subtask: false,
        statuses: ids.iter().map(|i| status(i)).collect(),
    }
}

#[test]
fn status_ids_by_type_name() {
    let types = TaskTypes {
        types: vec![
            task_type("Bug", &["1", "3"]),
            task_type("Story", &["1", "1", "4"]),
            task_type("Bug", &["5"]),
        ],
    };
    let mut r = types.task_type_name_and_status_ids();
    r.sort_by(|a, b| a.name.cmp(&b.name));
    assert_eq!(r.len(), 2);
    assert_eq!(r[0].name, "Bug");
    assert_eq!(r[0].status_ids, vec!["5".to_string()]);
    assert_eq!(r[1].name, "Story");
    assert_eq!(r[1].status_ids, vec!["1".to_string(), "4".to_string()]);
}
