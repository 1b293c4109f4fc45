//! Projects and their lazily fetched task maps.
use crate::issues::{IssueTransitions, JiraIssue, JiraIssues};
use crate::keyed::{
    find_index, keyed_map, keys_unique, lemma_keyed_map_at, lemma_keyed_update, upsert, Keyed,
};
use vstd::prelude::*;

verus! {

/// A project; `tasks` is absent until its issues were first fetched.
pub struct JiraProject {
    pub link: String,
    pub id: String,
    pub key: String,
    pub name: String,
    pub tasks: Option<Vec<JiraIssue>>,
}

/// The projects a project listing returned.
pub struct JiraProjects(pub Vec<JiraProject>);

impl Keyed for JiraProject {
    open spec fn spec_key(&self) -> Seq<char> {
        self.name@
    }

    fn key_str(&self) -> (r: &str) {
        self.name.as_str()
    }
}

/// The line a task is listed under: `<key> -- <summary>`.
pub open spec fn task_line(i: JiraIssue) -> Seq<char> {
    i.key@ + " -- "@ + i.summary@
}

/// The issue map that loading `issues` in order builds: a later issue
/// replaces an earlier one with the same key.
pub open spec fn issues_map(issues: Seq<JiraIssue>) -> Map<Seq<char>, JiraIssue>
    decreases issues.len(),
{
    if issues.len() == 0 {
        Map::empty()
    } else {
        issues_map(issues.drop_last()).insert(issues.last().key@, issues.last())
    }
}

/// `a` is `b` with nothing changed but possibly the transition snapshot.
pub open spec fn same_issue_but_transitions(a: JiraIssue, b: JiraIssue) -> bool {
    &&& a.id == b.id
    &&& a.link == b.link
    &&& a.key == b.key
    &&& a.description == b.description
    &&& a.summary == b.summary
    &&& a.status == b.status
    &&& a.assignee == b.assignee
}

/// Builds the keyed task list from `issues`.
pub fn make_tasks_field(issues: Vec<JiraIssue>) -> (r: Vec<JiraIssue>)
    ensures
        keys_unique(r@),
        keyed_map(r@) == issues_map(issues@),
{
    let ghost all = issues@;
    let n: usize = issues.len();
    let mut r: Vec<JiraIssue> = Vec::new();
    let mut rest = issues;
    proof {
        assert(keyed_map(r@) =~= issues_map(all.subrange(0, 0)));
    }
    let mut i: usize = 0;
    while rest.len() > 0
        invariant
            i + rest@.len() == all.len(),
            all.len() == n,
            rest@ == all.subrange(i as int, all.len() as int),
            keys_unique(r@),
            keyed_map(r@) == issues_map(all.subrange(0, i as int)),
        decreases rest@.len(),
    {
        let item = rest.remove(0);
        proof {
            assert(item == all[i as int]);
            assert(all.subrange(0, i + 1).drop_last() =~= all.subrange(0, i as int));
        }
        upsert(&mut r, item);
        i = i + 1;
    }
    proof {
        assert(all.subrange(0, i as int) =~= all);
    }
    r
}

impl JiraProject {
    /// The project's tasks have distinct keys.
    pub open spec fn wf(&self) -> bool {
        self.tasks matches Some(v) ==> keys_unique(v@)
    }

    /// The task map, keyed by issue key, once loaded.
    pub open spec fn tasks_view(&self) -> Option<Map<Seq<char>, JiraIssue>> {
        match self.tasks {
            Some(v) => Some(keyed_map(v@)),
            None => None,
        }
    }

    /// The loaded task with key `task_name`.
    pub fn get_task(&self, task_name: &str) -> (r: &JiraIssue)
        requires
            self.wf(),
            self.tasks_view() matches Some(m) && m.contains_key(task_name@),
        ensures
            *r == self.tasks_view()->Some_0[task_name@],
    {
        let tasks = self.tasks.as_ref().unwrap();
        let i = find_index(tasks, task_name).unwrap();
        proof {
            lemma_keyed_map_at(tasks@, i as int);
        }
        &tasks[i]
    }

    /// One line per loaded task, in cache order; `None` before the first load.
    pub fn tasks_names(&self) -> (r: Option<Vec<String>>)
        ensures
            r is None <==> self.tasks is None,
            r matches Some(names) ==> names@.len() == self.tasks->Some_0@.len() && forall|j: int|
                0 <= j < names@.len() ==> #[trigger] names@[j]@ == task_line(
                    self.tasks->Some_0@[j],
                ),
    {
        match &self.tasks {
            None => None,
            Some(tasks) => {
                let mut names: Vec<String> = Vec::new();
                let mut j: usize = 0;
                while j < tasks.len()
                    invariant
                        j <= tasks@.len(),
                        names@.len() == j,
                        forall|k: int| 0 <= k < j ==> #[trigger] names@[k]@ == task_line(tasks@[k]),
                    decreases tasks@.len() - j,
                {
                    let mut line = tasks[j].key.clone();
                    line.append(" -- ");
                    line.append(tasks[j].summary.as_str());
                    names.push(line);
                    j = j + 1;
                }
                Some(names)
            },
        }
    }

    /// Replaces the task map with the issues of `issues`.
    pub fn set_tasks(&mut self, issues: JiraIssues)
        ensures
            final(self).wf(),
            final(self).tasks_view() == Some(issues_map(issues.issues@)),
            final(self).name == old(self).name,
            final(self).key == old(self).key,
            final(self).id == old(self).id,
            final(self).link == old(self).link,
    {
        self.tasks = Some(make_tasks_field(issues.issues));
    }

    /// Inserts or overwrites one issue, leaving the others; starts the task
    /// map where none was loaded yet.
    pub fn add_task(&mut self, task: JiraIssue)
        requires
            old(self).wf(),
        ensures
            final(self).wf(),
            final(self).tasks_view() == Some(
                match old(self).tasks_view() {
                    Some(m) => m,
                    None => Map::empty(),
                }.insert(task.key@, task),
            ),
            final(self).name == old(self).name,
            final(self).key == old(self).key,
            final(self).id == old(self).id,
            final(self).link == old(self).link,
    {
        let mut tasks = match self.tasks.take() {
            Some(v) => v,
            None => Vec::new(),
        };
        proof {
            if old(self).tasks is None {
                assert(keyed_map(tasks@) =~= Map::empty());
            }
        }
        upsert(&mut tasks, task);
        self.tasks = Some(tasks);
    }
}

impl JiraProject {
    /// Stores a fresh transition snapshot on the loaded task `issue_key`;
    /// returns whether that task is loaded.
    pub fn set_task_transitions(&mut self, issue_key: &str, transitions: IssueTransitions) -> (r:
        bool)
        requires
            old(self).wf(),
        ensures
            final(self).wf(),
            same_project_fields(*final(self), *old(self)),
            r == (old(self).tasks_view() matches Some(m) && m.contains_key(issue_key@)),
            !r ==> *final(self) == *old(self),
            r ==> (final(self).tasks_view() matches Some(m2) && {
                let m = old(self).tasks_view()->Some_0;
                &&& m2.dom() == m.dom()
                &&& forall|k: Seq<char>| #[trigger]
                    m.contains_key(k) && k != issue_key@ ==> m2[k] == m[k]
                &&& same_issue_but_transitions(m2[issue_key@], m[issue_key@])
                &&& m2[issue_key@].transitions == Some(transitions)
            }),
    {
        match self.tasks.take() {
            None => false,
            Some(mut tasks) => {
                let ghost before = tasks@;
                match find_index(&tasks, issue_key) {
                    None => {
                        self.tasks = Some(tasks);
                        false
                    },
                    Some(i) => {
                        let mut issue = tasks.remove(i);
                        issue.add_transitions(transitions);
                        tasks.insert(i, issue);
                        proof {
                            assert(tasks@ =~= before.update(i as int, issue));
                            lemma_keyed_update(before, i as int, issue);
                            lemma_keyed_map_at(before, i as int);
                            assert(keyed_map(tasks@).dom() =~= keyed_map(before).dom());
                        }
                        self.tasks = Some(tasks);
                        true
                    },
                }
            },
        }
    }
}

/// `a` and `b` agree on everything but the task map.
pub open spec fn same_project_fields(a: JiraProject, b: JiraProject) -> bool {
    a.name == b.name && a.key == b.key && a.id == b.id && a.link == b.link
}

} // verus!
