use rusji::issues::{
    IssueFields, IssueTransition, IssueTransitions, IssueWire, JiraIssue, JiraIssueStatus,
    RenderedFields, NO_DESCRIPTION,
};
use rusji::metadata::{IssueMetaData, MetaField};
use serde_json::Value;

fn text(v: &Value, key: &str) -> String {
    v.get(key).and_then(Value::as_str).expect("string field").to_string()
}

fn status_from(v: &Value) -> JiraIssueStatus {
    JiraIssueStatus {
        id: text(v, "id"),
        link: text(v, "self"),
        description: text(v, "description"),
        icon_url: text(v, "iconUrl"),
        name: text(v, "name"),
    }
}

fn wire_from(v: &Value) -> IssueWire {
    let fields = v.get("fields").expect("fields");
    let link = v
        .get("self")
        .or_else(|| v.get("link"))
        .and_then(Value::as_str)
        .expect("link")
        .to_string();
    IssueWire {
        id: text(v, "id"),
        link,
        key: text(v, "key"),
        fields: IssueFields {
            summary: text(fields, "summary"),
            status: status_from(fields.get("status").expect("status")),
            assignee: None,
        },
        rendered_fields: v
            .get("renderedFields")
            .map(|r| RenderedFields {
                description: r.get("description").and_then(Value::as_str).map(str::to_string),
            }),
    }
}

fn metadata_from(v: &Value) -> IssueMetaData {
    let mut fields = Vec::new();
    if let Some(Value::Object(entries)) = v.get("fields") {
        for (key, entry) in entries {
            fields.push(MetaField {
                key: key.clone(),
                name: entry.get("name").and_then(Value::as_str).map(str::to_string),
                field_id: entry.get("fieldId").and_then(Value::as_str).map(str::to_string),
            });
        }
    }
    IssueMetaData { fields }
}

fn sample_status() -> JiraIssueStatus {
    JiraIssueStatus {
        id: "10104".to_string(),
        link: "https://link.com".to_string(),
        description: "done".to_string(),
        icon_url: "https://link.com".to_string(),
        name: "DONE".to_string(),
    }
}

fn sample_wire(rendered: Option<&str>) -> IssueWire {
    IssueWire {
        id: "299756".to_string(),
        link: "https://link.com".to_string(),
        key: "FRE-39".to_string(),
        fields: IssueFields {
            summary: "test summary".to_string(),
            status: sample_status(),
            assignee: None,
        },
        rendered_fields: rendered.map(|d| RenderedFields { description: Some(d.to_string()) }),
    }
}

#[test]
fn test_deserialize_task() {
    let json_task_str = r#"
        {
            "expand": "renderedFields,names,schema,operations,editmeta,changelog,versionedRepresentations",
            "id": "299756",
            "link": "https://link.com",
            "key": "FRE-39",
            "fields": {
                "issuetype": {
                    "self": "https://link.com",
                    "id": "10001",
                    "description": "Created by Jira Software - do not edit or delete. Issue type for a user story.",
                    "iconUrl": "https://link.com",
                    "name": "Story",
                    "subtask": false
                },
                "description": "test description",
                "summary": "test summary",
                "status": {
                    "self": "https://link.com",
                    "description": "Задача завершена",
                    "iconUrl": "https://link.com",
                    "name": "DONE",
                    "id": "10104",
                    "statusCategory": {
                        "self": "https://link.com",
                        "id": 3,
                        "key": "done",
                        "colorName": "green",
                        "name": "Выполнено"
                    }
                }
            },
            "renderedFields": {
                "description": "test"
            }
        }
        "#;

    let value: Value = serde_json::from_str(json_task_str).unwrap();
    let issue = JiraIssue::from_wire(wire_from(&value));
    assert_eq!(issue.key, "FRE-39");
    assert_eq!(issue.summary, "test summary");
    assert_eq!(issue.description, "test");
    assert_eq!(issue.status.name, "DONE");
    assert!(issue.transitions.is_none());
}

#[test]
fn test_deserialize_issue_metadata() {
    let json_issue_metadata_str = r#"
        {
            "fields": {
              "customfield_10101": {
                "required": false,
                "schema": {
                  "type": "any",
                  "custom": "com.pyxis.greenhopper.jira:gh-epic-link",
                  "customId": 10101
                },
                "name": "Epic Link",
                "fieldId": "customfield_10101",
                "operations": [
                  "set"
                ]
              },
              "customfield_10100": {
                "required": false,
                "schema": {
                  "type": "array",
                  "items": "string",
                  "custom": "com.pyxis.greenhopper.jira:gh-sprint",
                  "customId": 10100
                },
                "name": "Sprint",
                "fieldId": "customfield_10100",
                "operations": [
                  "set"
                ]
              },
              "customfield_10106": {
                "required": false,
                "schema": {
                  "type": "number",
                  "custom": "com.atlassian.jira.plugin.system.customfieldtypes:float",
                  "customId": 10106
                },
                "name": "Story Points",
                "fieldId": "customfield_10106",
                "operations": [
                  "set"
                ]
              }
            }
          }
        "#;

    let value: Value = serde_json::from_str(json_issue_metadata_str).unwrap();
    let issue_meta_data = metadata_from(&value);

    let story_point_field_id = issue_meta_data.get_story_points_field_id().unwrap();

    assert!("customfield_10106" == story_point_field_id);
}

#[test]
fn missing_rendered_fields_give_placeholder_description() {
    let issue = JiraIssue::from_wire(sample_wire(None));
    assert_eq!(issue.description, NO_DESCRIPTION);
    assert_eq!(issue.description, "No description");
}

#[test]
fn rendered_fields_without_description_give_placeholder() {
    let mut wire = sample_wire(None);
    wire.rendered_fields = Some(RenderedFields { description: None });
    assert_eq!(JiraIssue::from_wire(wire).description, "No description");
    for body in [r#"{"renderedFields": {}}"#, r#"{"renderedFields": {"description": null}}"#] {
        let value: Value = serde_json::from_str(body).unwrap();
        let mut wire = sample_wire(Some("x"));
        wire.rendered_fields = value.get("renderedFields").map(|r| RenderedFields {
            description: r.get("description").and_then(Value::as_str).map(str::to_string),
        });
        assert_eq!(JiraIssue::from_wire(wire).description, "No description");
    }
}

#[test]
fn wire_round_trip_keeps_logical_fields() {
    let wire = sample_wire(Some("<p>rendered</p>"));
    let issue = JiraIssue::from_wire(wire);
    let again = issue.to_wire();
    assert_eq!(again.key, "FRE-39");
    assert_eq!(again.fields.summary, "test summary");
    assert_eq!(again.fields.status.id, "10104");
    assert_eq!(again.fields.status.name, "DONE");
    assert_eq!(again.rendered_fields.unwrap().description, Some("<p>rendered</p>".to_string()));
    let back = JiraIssue::from_wire(issue.to_wire());
    assert_eq!(back.key, issue.key);
    assert_eq!(back.summary, issue.summary);
    assert_eq!(back.description, issue.description);
}

#[test]
fn story_points_discovery_ignores_other_custom_fields() {
    let field = |key: &str, name: Option<&str>, id: Option<&str>| MetaField {
        key: key.to_string(),
        name: name.map(str::to_string),
        field_id: id.map(str::to_string),
    };
    let meta = IssueMetaData {
        fields: vec![
            field("customfield_10100", Some("Sprint"), Some("customfield_10100")),
            field("customfield_10101", Some("Epic Link"), Some("customfield_10101")),
            field("customfield_10106", Some("Story Points"), Some("customfield_10106")),
            field("summary", Some("Story Points"), Some("summary")),
        ],
    };
    assert_eq!(meta.get_story_points_field_id(), Some("customfield_10106".to_string()));
    assert_eq!(meta.story_points_field_or_default(), "customfield_10106");
}

#[test]
fn story_points_discovery_needs_a_custom_field_with_an_id() {
    let meta = IssueMetaData {
        fields: vec![
            MetaField {
                key: "summary".to_string(),
                name: Some("Story Points".to_string()),
                field_id: Some("summary".to_string()),
            },
            MetaField {
                key: "customfield_1".to_string(),
                name: Some("Story Points".to_string()),
                field_id: None,
            },
        ],
    };
    assert_eq!(meta.get_story_points_field_id(), None);
    assert_eq!(meta.story_points_field_or_default(), "Story Points");
}

#[test]
fn transition_resolution_uses_snapshot_or_sentinel() {
    let snapshot = IssueTransitions::new(vec![
        IssueTransition { id: "11".to_string(), name: "Done".to_string() },
        IssueTransition { id: "21".to_string(), name: "In Progress".to_string() },
    ]);
    assert_eq!(snapshot.get_transitions_id_by_name("Done"), "11");
    assert_eq!(snapshot.get_transitions_id_by_name("In Progress"), "21");
    assert_eq!(snapshot.get_transitions_id_by_name("Closed"), "0");
    assert_eq!(snapshot.all_transitions_name(), vec!["Done", "In Progress"]);
    let empty = IssueTransitions::new(Vec::new());
    assert_eq!(empty.get_transitions_id_by_name("Done"), "0");
}
