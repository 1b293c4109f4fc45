//! The fixed menus: the actions offered on an issue, and the task lists of
//! the main menu, each with its label.
use crate::text::string_eq;
use vstd::prelude::*;

verus! {

/// What can be done to the selected issue.
#[derive(Debug, Clone, Copy, PartialEq, Eq, Structural)]
pub enum TaskActions {
    StatusChange,
    ChangeAssignee,
    ChangeStoryPoints,
}

/// A label that names no action.
#[derive(Debug, Clone, Copy, PartialEq, Eq, Structural)]
pub struct TaskActionParseError;

pub open spec fn action_label(a: TaskActions) -> Seq<char> {
    match a {
        TaskActions::StatusChange => "Change status"@,
        TaskActions::ChangeAssignee => "Change assignee"@,
        TaskActions::ChangeStoryPoints => "Change story points"@,
    }
}

impl TaskActions {
    /// The label of this action.
    pub fn as_str(self) -> (r: &'static str)
        ensures
            r@ == action_label(self),
    {
        match self {
            TaskActions::StatusChange => "Change status",
            TaskActions::ChangeAssignee => "Change assignee",
            TaskActions::ChangeStoryPoints => "Change story points",
        }
    }

    /// The action labelled `label`.
    pub fn parse(label: &str) -> (r: Result<TaskActions, TaskActionParseError>)
        ensures
            r matches Ok(a) ==> action_label(a) == label@,
            r is Err ==> (forall|a: TaskActions| action_label(a) != label@),
    {
        if string_eq(label, "Change status") {
            Ok(TaskActions::StatusChange)
        } else if string_eq(label, "Change assignee") {
            Ok(TaskActions::ChangeAssignee)
        } else if string_eq(label, "Change story points") {
            Ok(TaskActions::ChangeStoryPoints)
        } else {
            assert forall|a: TaskActions| action_label(a) != label@ by {
                match a {
                    TaskActions::StatusChange => {},
                    TaskActions::ChangeAssignee => {},
                    TaskActions::ChangeStoryPoints => {},
                }
            }
            Err(TaskActionParseError)
        }
    }

    /// Labels of all actions, in menu order.
    pub fn get_actions() -> (r: Vec<&'static str>)
        ensures
            r@.len() == 3,
            r@[0]@ == action_label(TaskActions::StatusChange),
            r@[1]@ == action_label(TaskActions::ChangeAssignee),
            r@[2]@ == action_label(TaskActions::ChangeStoryPoints),
    {
        let mut r: Vec<&'static str> = Vec::new();
        r.push(TaskActions::StatusChange.as_str());
        r.push(TaskActions::ChangeAssignee.as_str());
        r.push(TaskActions::ChangeStoryPoints.as_str());
        r
    }
}

/// The task lists the main menu offers.
#[derive(Debug, Clone, Copy, PartialEq, Eq, Structural)]
pub enum MenuVariant {
    IamAssignee,
    IamCreator,
}

/// A label that names no menu entry.
#[derive(Debug, Clone, Copy, PartialEq, Eq, Structural)]
pub struct MenuVariantErr;

pub open spec fn menu_label(m: MenuVariant) -> Seq<char> {
    match m {
        MenuVariant::IamAssignee => "I'm assignee tasks"@,
        MenuVariant::IamCreator => "I'm creator tasks"@,
    }
}

impl MenuVariant {
    /// The label of this entry.
    pub fn as_str(self) -> (r: &'static str)
        ensures
            r@ == menu_label(self),
    {
        match self {
            MenuVariant::IamAssignee => "I'm assignee tasks",
            MenuVariant::IamCreator => "I'm creator tasks",
        }
    }

    /// The entry labelled `label`.
    pub fn parse(label: &str) -> (r: Result<MenuVariant, MenuVariantErr>)
        ensures
            r matches Ok(m) ==> menu_label(m) == label@,
            r is Err ==> (forall|m: MenuVariant| menu_label(m) != label@),
    {
        if string_eq(label, "I'm assignee tasks") {
            Ok(MenuVariant::IamAssignee)
        } else if string_eq(label, "I'm creator tasks") {
            Ok(MenuVariant::IamCreator)
        } else {
            assert forall|m: MenuVariant| menu_label(m) != label@ by {
                match m {
                    MenuVariant::IamAssignee => {},
                    MenuVariant::IamCreator => {},
                }
            }
            Err(MenuVariantErr)
        }
    }

    /// Labels of all entries, in menu order.
    pub fn get_menu_variants() -> (r: Vec<&'static str>)
        ensures
            r@.len() == 2,
            r@[0]@ == menu_label(MenuVariant::IamAssignee),
            r@[1]@ == menu_label(MenuVariant::IamCreator),
    {
        let mut r: Vec<&'static str> = Vec::new();
        r.push(MenuVariant::IamAssignee.as_str());
        r.push(MenuVariant::IamCreator.as_str());
        r
    }
}

impl std::str::FromStr for TaskActions {
    type Err = TaskActionParseError;

    fn from_str(s: &str) -> Result<Self, Self::Err> {
        TaskActions::parse(s)
    }
}

impl std::str::FromStr for MenuVariant {
    type Err = MenuVariantErr;

    fn from_str(s: &str) -> Result<Self, Self::Err> {
        MenuVariant::parse(s)
    }
}

/// The arguments of registering a tracker from the command line.
pub struct RegisterJira {
    pub link: String,
    pub username: String,
    pub password: String,
    pub company_name: String,
}

impl RegisterJira {
    /// Each argument with its name, in declaration order.
    pub fn make_tuple_of_struct(&self) -> (r: Vec<(String, &String)>)
        ensures
            r@.len() == 4,
            r@[0].0@ == "link"@ && *r@[0].1 == self.link,
            r@[1].0@ == "username"@ && *r@[1].1 == self.username,
            r@[2].0@ == "password"@ && *r@[2].1 == self.password,
            r@[3].0@ == "company_name"@ && *r@[3].1 == self.company_name,
    {
        let mut r: Vec<(String, &String)> = Vec::new();
        r.push(("link".to_string(), &self.link));
        r.push(("username".to_string(), &self.username));
        r.push(("password".to_string(), &self.password));
        r.push(("company_name".to_string(), &self.company_name));
        r
    }
}

} // verus!
