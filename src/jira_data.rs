//! The per-session cache of projects and issues, with the selected project
//! and issue, and the decisions around each fetch.
use crate::errors::RusjiError;
use crate::issues::{IssueTransition, IssueTransitions, JiraIssue, JiraIssues, transition_id_of};
use crate::json::{assignee_body, json_string_literal, story_points_body, transition_body};
use crate::keyed::{
    find_index, key_matches, keyed_map, keys_unique, lemma_keyed_map_at,
    lemma_keyed_update, search_by_key, upsert, Keyed,
};
use crate::metadata::{story_points_target, IssueMetaData};
use crate::projects::{
    issues_map, same_issue_but_transitions, same_project_fields, task_line, JiraProject,
    JiraProjects,
};
use crate::request::{
    issue_path, issue_transitions_path, issue_update_path, request_is, url_resolves, ApiRequest,
    HttpMethod, RequestClient,
};
use crate::text::{
    find_from, first_occurrence_from, is_decimal_number, is_number, lemma_first_occurrence, lower_of,
};
use vstd::prelude::*;

verus! {

/// A freshly listed project: its task map is not loaded.
pub open spec fn unloaded(p: JiraProject) -> JiraProject {
    JiraProject { link: p.link, id: p.id, key: p.key, name: p.name, tasks: None }
}

/// The project map that loading `ps` in order builds: keyed by name, a
/// later project replaces an earlier one of the same name, no task map loaded.
pub open spec fn projects_map(ps: Seq<JiraProject>) -> Map<Seq<char>, JiraProject>
    decreases ps.len(),
{
    if ps.len() == 0 {
        Map::empty()
    } else {
        projects_map(ps.drop_last()).insert(ps.last().name@, unloaded(ps.last()))
    }
}

/// The project cache after a project fetch that gave `r`.
pub open spec fn projects_after(r: Result<JiraProjects, RusjiError>) -> Option<
    Map<Seq<char>, JiraProject>,
> {
    match r {
        Ok(ps) => Some(projects_map(ps.0@)),
        Err(_) => None,
    }
}

/// A project's task map after an issue fetch that gave `r`.
pub open spec fn tasks_after(r: Result<JiraIssues, RusjiError>) -> Option<
    Map<Seq<char>, JiraIssue>,
> {
    match r {
        Ok(t) => Some(issues_map(t.issues@)),
        Err(_) => None,
    }
}

/// The separator between key and summary in a listed task line.
pub open spec fn task_separator() -> Seq<char> {
    " -- "@
}

/// The key part of a listed line `<key> -- <summary>`: present where the
/// separator splits the line in exactly two parts.
pub open spec fn listed_key(raw: Seq<char>) -> Option<Seq<char>> {
    match first_occurrence_from(raw, task_separator(), 0) {
        Some(i) => if first_occurrence_from(raw, task_separator(), i + task_separator().len()) is None {
            Some(raw.subrange(0, i))
        } else {
            None
        },
        None => None,
    }
}

/// A key typed by the user: a bare number is an issue of the project with
/// key `project_key`; anything else is already a full key.
pub open spec fn expand_shorthand(project_key: Seq<char>, raw: Seq<char>) -> Seq<char> {
    if is_decimal_number(raw) {
        project_key + "-"@ + raw
    } else {
        raw
    }
}

/// The issue key a selection resolves to: a bare number is expanded, a
/// listed line `<key> -- <summary>` gives its key, anything else is kept.
pub open spec fn selection_key(project_key: Seq<char>, raw: Seq<char>) -> Seq<char> {
    if is_decimal_number(raw) {
        project_key + "-"@ + raw
    } else {
        match listed_key(raw) {
            Some(k) => k,
            None => raw,
        }
    }
}

/// The cache of one company's tracker, for one session.
pub struct JiraData {
    pub projects: Option<Vec<JiraProject>>,
    pub client: RequestClient,
    pub selected_project: String,
    pub selected_task: String,
    pub activated_views: Vec<String>,
}

fn projects_field(projects: JiraProjects) -> (r: Vec<JiraProject>)
    ensures
        keys_unique(r@),
        forall|i: int| 0 <= i < r@.len() ==> (#[trigger] r@[i]).tasks is None,
        keyed_map(r@) == projects_map(projects.0@),
{
    let ghost all = projects.0@;
    let n: usize = projects.0.len();
    let mut r: Vec<JiraProject> = Vec::new();
    let mut rest = projects.0;
    proof {
        assert(keyed_map(r@) =~= projects_map(all.subrange(0, 0)));
    }
    let mut i: usize = 0;
    while rest.len() > 0
        invariant
            i + rest@.len() == all.len(),
            all.len() == n,
            rest@ == all.subrange(i as int, all.len() as int),
            keys_unique(r@),
            forall|j: int| 0 <= j < r@.len() ==> (#[trigger] r@[j]).tasks is None,
            keyed_map(r@) == projects_map(all.subrange(0, i as int)),
        decreases rest@.len(),
    {
        let mut item = rest.remove(0);
        item.tasks = None;
        let ghost before = r@;
        proof {
            assert(all.subrange(0, i + 1).drop_last() =~= all.subrange(0, i as int));
            assert(item == unloaded(all[i as int]));
        }
        upsert(&mut r, item);
        proof {
            assert forall|j: int| 0 <= j < r@.len() implies (#[trigger] r@[j]).tasks is None by {
                if r@[j] != item {
                    let k = choose|k: int| 0 <= k < before.len() && before[k] == r@[j];
                }
            }
        }
        i = i + 1;
    }
    proof {
        assert(all.subrange(0, i as int) =~= all);
    }
    r
}

impl JiraData {
    /// Project names are distinct and each project's task keys are distinct.
    pub open spec fn wf(&self) -> bool {
        self.projects matches Some(v) ==> keys_unique(v@) && forall|i: int|
            0 <= i < v@.len() ==> (#[trigger] v@[i]).wf()
    }

    /// The cached projects in cache order, once listed.
    pub open spec fn cache(&self) -> Option<Seq<JiraProject>> {
        match self.projects {
            Some(v) => Some(v@),
            None => None,
        }
    }

    /// The cached projects by name, once listed.
    pub open spec fn cache_map(&self) -> Option<Map<Seq<char>, JiraProject>> {
        match self.cache() {
            Some(s) => Some(keyed_map(s)),
            None => None,
        }
    }

    /// A session with an empty cache and nothing selected.
    pub fn new(jira_url: &str, request_credentials: &str) -> (r: Self)
        ensures
            r.wf(),
            r.cache() is None,
            r.selected_project@ == Seq::<char>::empty(),
            r.selected_task@ == Seq::<char>::empty(),
            r.client.base_url() == jira_url@,
            r.client.credentials() == request_credentials@,
    {
        JiraData {
            projects: None,
            client: RequestClient::new(request_credentials.to_string(), jira_url),
            selected_project: String::new(),
            selected_task: String::new(),
            activated_views: Vec::new(),
        }
    }

    /// Selects the project named `selected_project`.
    pub fn set_selected_project(&mut self, selected_project: &str)
        ensures
            final(self).selected_project@ == selected_project@,
            final(self).selected_task == old(self).selected_task,
            final(self).cache() == old(self).cache(),
            final(self).wf() == old(self).wf(),
            final(self).client == old(self).client,
    {
        self.selected_project = selected_project.to_string();
    }

    /// Replaces the whole project cache with a successful listing, or drops
    /// it when the fetch failed.
    pub fn update_projects(&mut self, jira_projects: Result<JiraProjects, RusjiError>)
        ensures
            final(self).wf(),
            final(self).cache_map() == projects_after(jira_projects),
            final(self).selected_project == old(self).selected_project,
            final(self).selected_task == old(self).selected_task,
            final(self).client == old(self).client,
    {
        match jira_projects {
            Ok(projects) => {
                let field = projects_field(projects);
                self.projects = Some(field);
            },
            Err(_) => {
                self.projects = None;
            },
        }
    }

    /// Names of the cached projects, in cache order; none before a listing.
    pub fn get_projects_names(&self) -> (r: Vec<&str>)
        ensures
            match self.cache() {
                None => r@.len() == 0,
                Some(s) => r@.len() == s.len() && forall|i: int|
                    0 <= i < s.len() ==> #[trigger] r@[i]@ == s[i].name@,
            },
            self.cache_map() matches Some(m) ==> forall|n: Seq<char>| #[trigger]
                m.contains_key(n) <==> exists|i: int| 0 <= i < r@.len() && r@[i]@ == n,
    {
        let mut r: Vec<&str> = Vec::new();
        match &self.projects {
            None => r,
            Some(v) => {
                let mut i: usize = 0;
                while i < v.len()
                    invariant
                        i <= v@.len(),
                        r@.len() == i,
                        forall|j: int| 0 <= j < i ==> #[trigger] r@[j]@ == v@[j].name@,
                    decreases v@.len() - i,
                {
                    r.push(v[i].name.as_str());
                    i = i + 1;
                }
                assert forall|n: Seq<char>| #[trigger] keyed_map(v@).contains_key(n) <==> exists|
                    i: int,
                | 0 <= i < r@.len() && r@[i]@ == n by {
                    if keyed_map(v@).contains_key(n) {
                        let i = choose|i: int| 0 <= i < v@.len() && #[trigger] v@[i].spec_key() == n;
                        assert(r@[i]@ == n);
                    }
                    if exists|i: int| 0 <= i < r@.len() && r@[i]@ == n {
                        let i = choose|i: int| 0 <= i < r@.len() && r@[i]@ == n;
                        assert(v@[i].spec_key() == n);
                    }
                }
                r
            },
        }
    }

    /// The cached project named `project_name`.
    pub fn get_project(&self, project_name: &str) -> (r: Option<&JiraProject>)
        requires
            self.wf(),
        ensures
            r is Some <==> (self.cache_map() matches Some(m) && m.contains_key(project_name@)),
            r matches Some(p) ==> *p == self.cache_map()->Some_0[project_name@] && p.wf(),
    {
        match &self.projects {
            None => None,
            Some(v) => match find_index(v, project_name) {
                Some(i) => {
                    proof {
                        lemma_keyed_map_at(v@, i as int);
                    }
                    Some(&v[i])
                },
                None => None,
            },
        }
    }

    /// The selected project, where the cache holds it.
    pub fn get_selected_project(&self) -> (r: Option<&JiraProject>)
        requires
            self.wf(),
        ensures
            r is Some <==> (self.cache_map() matches Some(m) && m.contains_key(
                self.selected_project@,
            )),
            r matches Some(p) ==> *p == self.cache_map()->Some_0[self.selected_project@] && p.wf(),
    {
        self.get_project(self.selected_project.as_str())
    }

    /// Names of the cached projects that contain `project_subname`, ignoring
    /// case; each once.
    pub fn find_project_by_subname(&self, project_subname: &str) -> (r: Vec<&str>)
        requires
            self.wf(),
        ensures
            self.cache_map() is None ==> r@.len() == 0,
            self.cache_map() matches Some(m) ==> {
                &&& forall|j: int|
                    0 <= j < r@.len() ==> m.contains_key(#[trigger] r@[j]@) && key_matches(
                        r@[j]@,
                        project_subname@,
                    )
                &&& forall|n: Seq<char>|
                    #[trigger] m.contains_key(n) && key_matches(n, project_subname@) ==> exists|
                        j: int,
                    | 0 <= j < r@.len() && r@[j]@ == n
            },
            forall|j: int, l: int| 0 <= j < l < r@.len() ==> #[trigger] r@[j]@ != #[trigger] r@[l]@,
    {
        let mut names: Vec<&str> = Vec::new();
        match &self.projects {
            None => names,
            Some(v) => {
                let found = search_by_key(v, project_subname);
                let mut j: usize = 0;
                while j < found.len()
                    invariant
                        j <= found@.len(),
                        names@.len() == j,
                        forall|k: int| 0 <= k < j ==> #[trigger] names@[k]@ == found@[k].name@,
                    decreases found@.len() - j,
                {
                    names.push(found[j].name.as_str());
                    j = j + 1;
                }
                let ghost m = keyed_map(v@);
                assert forall|k: int| 0 <= k < names@.len() implies m.contains_key(
                    #[trigger] names@[k]@,
                ) && key_matches(names@[k]@, project_subname@) by {
                    assert(names@[k]@ == found@[k].spec_key());
                }
                assert forall|n: Seq<char>| #[trigger]
                    m.contains_key(n) && key_matches(n, project_subname@) implies exists|j: int|
                    0 <= j < names@.len() && names@[j]@ == n by {
                    let j = choose|j: int| 0 <= j < found@.len() && found@[j].spec_key() == n;
                    assert(names@[j]@ == n);
                }
                assert forall|j: int, l: int| 0 <= j < l < names@.len() implies #[trigger] names@[j]@
                    != #[trigger] names@[l]@ by {
                    assert(found@[j].spec_key() != found@[l].spec_key());
                }
                names
            },
        }
    }
}


/// The key part of a listed line, or the line itself.
fn listed_key_or_raw(raw: &str) -> (r: String)
    ensures
        r@ == match listed_key(raw@) {
            Some(k) => k,
            None => raw@,
        },
{
    proof {
        reveal_strlit(" -- ");
    }
    let len = raw.unicode_len();
    match find_from(raw, " -- ", 0) {
        Some(i) => {
            proof {
                lemma_first_occurrence(raw@, " -- "@, 0);
            }
            assert(i + 4 <= len);
            if find_from(raw, " -- ", i + 4).is_none() {
                raw.substring_char(0, i).to_string()
            } else {
                raw.to_string()
            }
        },
        None => raw.to_string(),
    }
}

/// `<project_key>-<raw>` where `raw` is a bare number, else `raw`.
pub fn expand_issue_key(project_key: &str, raw: &str) -> (r: String)
    ensures
        r@ == expand_shorthand(project_key@, raw@),
{
    if is_number(raw) {
        let mut s = project_key.to_string();
        s.append("-");
        s.append(raw);
        s
    } else {
        raw.to_string()
    }
}

/// The issue key a selection `raw` resolves to within the project `project_key`.
pub fn resolve_selection(project_key: &str, raw: &str) -> (r: String)
    ensures
        r@ == selection_key(project_key@, raw@),
{
    if is_number(raw) {
        expand_issue_key(project_key, raw)
    } else {
        listed_key_or_raw(raw)
    }
}

/// Only the project `name` may differ between the caches `a` and `b`, and
/// only in its task map.
pub open spec fn only_tasks_of_changed(
    a: Option<Map<Seq<char>, JiraProject>>,
    b: Option<Map<Seq<char>, JiraProject>>,
    name: Seq<char>,
) -> bool {
    match (a, b) {
        (None, None) => true,
        (Some(ma), Some(mb)) => {
            &&& mb.dom() == ma.dom()
            &&& forall|k: Seq<char>| #[trigger] ma.contains_key(k) && k != name ==> mb[k] == ma[k]
            &&& ma.contains_key(name) ==> same_project_fields(mb[name], ma[name])
        },
        _ => false,
    }
}

/// The task map of project `name` in the cache `c`, where both are there.
pub open spec fn tasks_in(c: Option<Map<Seq<char>, JiraProject>>, name: Seq<char>) -> Option<
    Map<Seq<char>, JiraIssue>,
> {
    match c {
        Some(m) => if m.contains_key(name) {
            m[name].tasks_view()
        } else {
            None
        },
        None => None,
    }
}

/// Replacing the project at `i` by one of the same name keeps the cache
/// well formed and changes the map at that name only.
proof fn lemma_project_replaced(before: Seq<JiraProject>, i: int, p: JiraProject)
    requires
        keys_unique(before),
        forall|j: int| 0 <= j < before.len() ==> (#[trigger] before[j]).wf(),
        0 <= i < before.len(),
        p.name@ == before[i].name@,
        p.wf(),
    ensures
        keys_unique(before.update(i, p)),
        forall|j: int| 0 <= j < before.len() ==> (#[trigger] before.update(i, p)[j]).wf(),
        keyed_map(before.update(i, p)) == keyed_map(before).insert(p.name@, p),
        keyed_map(before.update(i, p)).dom() == keyed_map(before).dom(),
        keyed_map(before)[p.name@] == before[i],
{
    lemma_keyed_update(before, i, p);
    lemma_keyed_map_at(before, i);
    assert(keyed_map(before.update(i, p)).dom() =~= keyed_map(before).dom());
    assert forall|j: int| 0 <= j < before.len() implies (#[trigger] before.update(i, p)[j]).wf() by {
        if j != i {
            assert(before.update(i, p)[j] == before[j]);
        }
    }
}

impl JiraData {
    /// Whether the cache holds the selected project.
    pub open spec fn has_selected_project(&self) -> bool {
        self.cache_map() matches Some(m) && m.contains_key(self.selected_project@)
    }

    /// The selected project, where the cache holds it.
    pub open spec fn selected(&self) -> JiraProject {
        self.cache_map()->Some_0[self.selected_project@]
    }

    /// The last transition snapshot of the cached task `issue_key` of the
    /// selected project; empty where there is none.
    pub open spec fn cached_transitions(&self, issue_key: Seq<char>) -> Seq<IssueTransition> {
        match tasks_in(self.cache_map(), self.selected_project@) {
            Some(t) => if t.contains_key(issue_key) {
                match t[issue_key].transitions {
                    Some(ts) => ts.transitions@,
                    None => Seq::empty(),
                }
            } else {
                Seq::empty()
            },
            None => Seq::empty(),
        }
    }

    /// Selects an issue of the selected project: a bare number is expanded
    /// with the project's key, a listed line gives its key. `None`, and
    /// nothing changed, where the selected project is not cached.
    pub fn set_selected_task(&mut self, raw_selected_task: &str) -> (r: Option<String>)
        requires
            old(self).wf(),
        ensures
            final(self).wf(),
            r is None <==> !old(self).has_selected_project(),
            r is None ==> final(self).selected_task == old(self).selected_task,
            r matches Some(k) ==> k@ == selection_key(old(self).selected().key@, raw_selected_task@)
                && final(self).selected_task@ == k@,
            final(self).selected_project == old(self).selected_project,
            final(self).cache() == old(self).cache(),
            final(self).client == old(self).client,
    {
        let project_key = match self.get_selected_project() {
            Some(p) => p.key.clone(),
            None => return None,
        };
        let selected_task = resolve_selection(project_key.as_str(), raw_selected_task);
        self.selected_task = selected_task.clone();
        Some(selected_task)
    }

    /// Key of the selected project.
    pub fn get_selected_project_key(&self) -> (r: String)
        requires
            self.wf(),
            self.has_selected_project(),
        ensures
            r@ == self.selected().key@,
    {
        self.get_selected_project().unwrap().key.clone()
    }

    /// The selected issue.
    pub fn get_selected_task(&self) -> (r: &JiraIssue)
        requires
            self.wf(),
            self.has_selected_project(),
            self.selected().tasks_view() matches Some(t) && t.contains_key(self.selected_task@),
        ensures
            *r == self.selected().tasks_view()->Some_0[self.selected_task@],
    {
        self.get_selected_project().unwrap().get_task(self.selected_task.as_str())
    }

    /// Lines `<key> -- <summary>` of the loaded tasks of `project_name`.
    pub fn get_tasks_names_by_project(&self, project_name: &str) -> (r: Option<Vec<String>>)
        requires
            self.wf(),
        ensures
            r is Some <==> tasks_in(self.cache_map(), project_name@) is Some,
            r matches Some(names) ==> names@.len() == self.cache_map()->Some_0[project_name@].tasks->Some_0@.len()
                && forall|j: int| 0 <= j < names@.len() ==> #[trigger] names@[j]@
                    == task_line(
                    self.cache_map()->Some_0[project_name@].tasks->Some_0@[j],
                ),
    {
        match self.get_project(project_name) {
            Some(p) => p.tasks_names(),
            None => None,
        }
    }

    /// Issues of `selected_project` whose key contains `task_subname`,
    /// ignoring case; `None` where that project or its tasks are not loaded.
    pub fn find_task_by_subname(&self, task_subname: &str, selected_project: &str) -> (r: Option<
        Vec<&JiraIssue>,
    >)
        requires
            self.wf(),
        ensures
            r is Some <==> tasks_in(self.cache_map(), selected_project@) is Some,
            r matches Some(found) ==> {
                let t = tasks_in(self.cache_map(), selected_project@)->Some_0;
                &&& forall|j: int|
                    0 <= j < found@.len() ==> t.contains_key(#[trigger] found@[j].key@) && t[found@[j].key@]
                        == *found@[j] && key_matches(found@[j].key@, task_subname@)
                &&& forall|k: Seq<char>| #[trigger]
                    t.contains_key(k) && key_matches(k, task_subname@) ==> exists|j: int|
                        0 <= j < found@.len() && found@[j].key@ == k
                &&& forall|j: int, l: int|
                    0 <= j < l < found@.len() ==> #[trigger] found@[j].key@ != #[trigger] found@[l].key@
            },
    {
        let project = self.get_project(selected_project)?;
        let tasks = project.tasks.as_ref()?;
        let found = search_by_key(tasks, task_subname);
        assert forall|j: int| 0 <= j < found@.len() implies #[trigger] found@[j].key@ == found@[j].spec_key() by {}
        Some(found)
    }

    /// Replaces the task map of `project_name` with a successful issue
    /// listing, or drops it when the fetch failed; other projects keep theirs.
    pub fn update_tasks(&mut self, project_name: &str, jira_tasks: Result<JiraIssues, RusjiError>)
        requires
            old(self).wf(),
        ensures
            final(self).wf(),
            only_tasks_of_changed(old(self).cache_map(), final(self).cache_map(), project_name@),
            (old(self).cache_map() matches Some(m) && m.contains_key(project_name@)) ==> tasks_in(
                final(self).cache_map(),
                project_name@,
            ) == tasks_after(jira_tasks),
            final(self).selected_project == old(self).selected_project,
            final(self).selected_task == old(self).selected_task,
            final(self).client == old(self).client,
    {
        match self.projects.take() {
            None => {},
            Some(mut v) => {
                let ghost before = v@;
                match find_index(&v, project_name) {
                    None => {},
                    Some(i) => {
                        let mut p = v.remove(i);
                        match jira_tasks {
                            Ok(t) => p.set_tasks(t),
                            Err(_) => {
                                p.tasks = None;
                            },
                        }
                        v.insert(i, p);
                        proof {
                            assert(v@ =~= before.update(i as int, p));
                            lemma_project_replaced(before, i as int, p);
                        }
                    },
                }
                self.projects = Some(v);
            },
        }
    }

    /// Inserts or overwrites one issue in the selected project's task map,
    /// leaving its other issues.
    pub fn add_new_task(&mut self, task: JiraIssue)
        requires
            old(self).wf(),
        ensures
            final(self).wf(),
            only_tasks_of_changed(old(self).cache_map(), final(self).cache_map(), old(self).selected_project@),
            old(self).has_selected_project() ==> tasks_in(final(self).cache_map(), old(self).selected_project@)
                == Some(
                match tasks_in(old(self).cache_map(), old(self).selected_project@) {
                    Some(t) => t,
                    None => Map::empty(),
                }.insert(task.key@, task),
            ),
            final(self).selected_project == old(self).selected_project,
            final(self).selected_task == old(self).selected_task,
            final(self).client == old(self).client,
    {
        match self.projects.take() {
            None => {},
            Some(mut v) => {
                let ghost before = v@;
                match find_index(&v, self.selected_project.as_str()) {
                    None => {},
                    Some(i) => {
                        let mut p = v.remove(i);
                        p.add_task(task);
                        v.insert(i, p);
                        proof {
                            assert(v@ =~= before.update(i as int, p));
                            lemma_project_replaced(before, i as int, p);
                        }
                    },
                }
                self.projects = Some(v);
            },
        }
    }

    /// Stores a fresh transition snapshot on the selected issue; returns
    /// whether that issue is loaded.
    pub fn add_transitions_to_selected_task(&mut self, transitions: IssueTransitions) -> (r: bool)
        requires
            old(self).wf(),
        ensures
            final(self).wf(),
            only_tasks_of_changed(old(self).cache_map(), final(self).cache_map(), old(self).selected_project@),
            r == (tasks_in(old(self).cache_map(), old(self).selected_project@) matches Some(t) && t.contains_key(old(self).selected_task@)),
            !r ==> final(self).cache_map() == old(self).cache_map(),
            r ==> (tasks_in(final(self).cache_map(), old(self).selected_project@) matches Some(t2) && {
                let t = tasks_in(old(self).cache_map(), old(self).selected_project@)->Some_0;
                let k = old(self).selected_task@;
                &&& t2.dom() == t.dom()
                &&& forall|o: Seq<char>| #[trigger] t.contains_key(o) && o != k ==> t2[o] == t[o]
                &&& same_issue_but_transitions(t2[k], t[k])
                &&& t2[k].transitions == Some(transitions)
            }),
            final(self).selected_project == old(self).selected_project,
            final(self).selected_task == old(self).selected_task,
            final(self).client == old(self).client,
    {
        match self.projects.take() {
            None => false,
            Some(mut v) => {
                let ghost before = v@;
                let r = match find_index(&v, self.selected_project.as_str()) {
                    None => false,
                    Some(i) => {
                        let mut p = v.remove(i);
                        let done = p.set_task_transitions(self.selected_task.as_str(), transitions);
                        v.insert(i, p);
                        proof {
                            assert(v@ =~= before.update(i as int, p));
                            lemma_project_replaced(before, i as int, p);
                            if !done {
                                assert(v@ =~= before);
                            }
                        }
                        done
                    },
                };
                self.projects = Some(v);
                r
            },
        }
    }
}


impl JiraData {
    /// The request for an issue typed as `raw_key` in the selected project;
    /// `None` where that project is not cached.
    pub fn issue_fetch_request(&self, raw_key: &str) -> (r: Option<Result<ApiRequest, RusjiError>>)
        requires
            self.wf(),
        ensures
            r matches Some(x) ==> (x is Ok <==> url_resolves(
                self.client.base_url(),
                issue_path(expand_shorthand(self.selected().key@, raw_key@)),
            )),
            r is None <==> !self.has_selected_project(),
            r matches Some(Ok(req)) ==> request_is(
                req,
                HttpMethod::Get,
                issue_path(expand_shorthand(self.selected().key@, raw_key@)),
                self.client.credentials(),
                None,
            ),
            r matches Some(Err(e)) ==> e == RusjiError::RequestError,
    {
        let project = self.get_selected_project()?;
        let issue_key = expand_issue_key(project.key.as_str(), raw_key);
        Some(self.client.get_task(issue_key.as_str()))
    }

    /// Takes the outcome of an issue fetch: a fetched issue goes into the
    /// selected project's task map and its summary and description are
    /// returned; a failure is returned as is, the cache untouched.
    pub fn store_fetched_issue(&mut self, fetched: Result<JiraIssue, RusjiError>) -> (r: Result<
        (String, String),
        RusjiError,
    >)
        requires
            old(self).wf(),
        ensures
            final(self).wf(),
            fetched matches Err(e) ==> r == Err::<(String, String), RusjiError>(e) && final(self).cache()
                == old(self).cache(),
            fetched matches Ok(issue) ==> {
                &&& r matches Ok((summary, description)) && summary@ == issue.summary@
                    && description@ == issue.description@
                &&& only_tasks_of_changed(
                    old(self).cache_map(),
                    final(self).cache_map(),
                    old(self).selected_project@,
                )
                &&& old(self).has_selected_project() ==> tasks_in(
                    final(self).cache_map(),
                    old(self).selected_project@,
                ) == Some(
                    match tasks_in(old(self).cache_map(), old(self).selected_project@) {
                        Some(t) => t,
                        None => Map::empty(),
                    }.insert(issue.key@, issue),
                )
            },
            final(self).selected_project == old(self).selected_project,
            final(self).selected_task == old(self).selected_task,
            final(self).client == old(self).client,
    {
        match fetched {
            Err(e) => Err(e),
            Ok(issue) => {
                let summary = issue.summary.clone();
                let description = issue.description.clone();
                self.add_new_task(issue);
                Ok((summary, description))
            },
        }
    }

    /// The cached transition snapshot of the selected project's issue `issue_key`.
    fn snapshot_of(&self, issue_key: &str) -> (r: Option<&IssueTransitions>)
        requires
            self.wf(),
        ensures
            match r {
                Some(ts) => ts.transitions@ == self.cached_transitions(issue_key@),
                None => self.cached_transitions(issue_key@) == Seq::<IssueTransition>::empty(),
            },
    {
        let project = self.get_selected_project()?;
        let tasks = project.tasks.as_ref()?;
        let i = find_index(tasks, issue_key)?;
        proof {
            lemma_keyed_map_at(tasks@, i as int);
        }
        tasks[i].transitions.as_ref()
    }

    /// The request moving `issue_key` along the transition named
    /// `transition_name` in its last snapshot; an unknown name, or a missing
    /// snapshot, sends the id `"0"`.
    pub fn update_issue_transition(&self, issue_key: &str, transition_name: &str) -> (r: Result<
        ApiRequest,
        RusjiError,
    >)
        requires
            self.wf(),
        ensures
            r is Ok <==> url_resolves(self.client.base_url(), issue_transitions_path(issue_key@)),
            r matches Err(e) ==> e == RusjiError::RequestError,
            r matches Ok(req) ==> request_is(
                req,
                HttpMethod::Post,
                issue_transitions_path(issue_key@),
                self.client.credentials(),
                Some(
                    transition_body(
                        json_string_literal(
                            transition_id_of(self.cached_transitions(issue_key@), transition_name@),
                        ),
                    ),
                ),
            ),
    {
        let transition_id: String = match self.snapshot_of(issue_key) {
            Some(ts) => ts.get_transitions_id_by_name(transition_name).to_string(),
            None => {
                proof {
                    reveal_strlit("0");
                    assert(transition_id_of(Seq::<IssueTransition>::empty(), transition_name@)
                        == seq!['0']);
                }
                "0".to_string()
            },
        };
        proof {
            reveal_strlit("0");
            assert("0"@ =~= seq!['0']);
        }
        self.client.update_task_transition(issue_key, transition_id.as_str())
    }

    /// The request assigning `issue_key` to the user `username`.
    pub fn update_issue_assignee(&self, issue_key: &str, username: &str) -> (r: Result<
        ApiRequest,
        RusjiError,
    >)
        ensures
            r is Ok <==> url_resolves(self.client.base_url(), issue_update_path(issue_key@)),
            r matches Err(e) ==> e == RusjiError::RequestError,
            r matches Ok(req) ==> request_is(
                req,
                HttpMethod::Put,
                issue_update_path(issue_key@),
                self.client.credentials(),
                Some(assignee_body(json_string_literal(username@))),
            ),
    {
        self.client.update_issue_assignee(username, issue_key)
    }

    /// The request setting the story points of `issue_key`, under the field
    /// id that the fetched edit metadata reveals.
    pub fn update_issue_story_points(
        &self,
        issue_key: &str,
        new_value: usize,
        issue_metadata: &IssueMetaData,
    ) -> (r: Result<ApiRequest, RusjiError>)
        ensures
            r is Ok <==> url_resolves(self.client.base_url(), issue_update_path(issue_key@)),
            r matches Err(e) ==> e == RusjiError::RequestError,
            r matches Ok(req) ==> request_is(
                req,
                HttpMethod::Put,
                issue_update_path(issue_key@),
                self.client.credentials(),
                Some(
                    story_points_body(
                        None,
                        json_string_literal(
                            story_points_target(issue_metadata.fields@),
                        ),
                        new_value as nat,
                    ),
                ),
            ),
    {
        self.client.update_issue_story_points(new_value, issue_key, issue_metadata)
    }
}

/// The names a project map built from `ps` holds are exactly the names in `ps`.
pub proof fn lemma_projects_map_names(ps: Seq<JiraProject>)
    ensures
        forall|n: Seq<char>|
            #[trigger] projects_map(ps).contains_key(n) <==> exists|i: int|
                0 <= i < ps.len() && ps[i].name@ == n,
    decreases ps.len(),
{
    if ps.len() > 0 {
        let init = ps.drop_last();
        lemma_projects_map_names(init);
        assert forall|n: Seq<char>|
            #[trigger] projects_map(ps).contains_key(n) <==> exists|i: int|
                0 <= i < ps.len() && ps[i].name@ == n by {
            assert(projects_map(ps) == projects_map(init).insert(ps.last().name@, unloaded(ps.last())));
            if projects_map(ps).contains_key(n) {
                if n == ps.last().name@ {
                    assert(ps[ps.len() - 1].name@ == n);
                } else {
                    assert(projects_map(init).contains_key(n));
                    let i = choose|i: int| 0 <= i < init.len() && init[i].name@ == n;
                    assert(ps[i].name@ == n);
                }
            }
            if exists|i: int| 0 <= i < ps.len() && ps[i].name@ == n {
                let i = choose|i: int| 0 <= i < ps.len() && ps[i].name@ == n;
                if i < init.len() {
                    assert(init[i].name@ == n);
                    assert(projects_map(init).contains_key(n));
                }
            }
        }
    }
}

/// A successful project listing replaces the cache: after it the cache holds
/// exactly the projects it named, and a project only an earlier listing
/// named is gone.
pub proof fn lemma_listing_replaces_cache(first: JiraProjects, second: JiraProjects)
    ensures
        projects_after(Ok(second)) matches Some(m) && forall|n: Seq<char>|
            #[trigger] m.contains_key(n) <==> exists|i: int|
                0 <= i < second.0@.len() && second.0@[i].name@ == n,
        forall|n: Seq<char>|
            #[trigger] projects_map(first.0@).contains_key(n) && !(exists|i: int|
                0 <= i < second.0@.len() && second.0@[i].name@ == n) ==> !projects_after(
                Ok(second),
            )->Some_0.contains_key(n),
{
    lemma_projects_map_names(second.0@);
}

/// A failed project fetch leaves no cache behind, whatever was cached before.
pub proof fn lemma_failed_listing_invalidates(error: RusjiError)
    ensures
        projects_after(Err(error)) is None,
{
}

/// Project search ignores case: fragments with the same lower-case form
/// select the same names.
pub proof fn lemma_search_ignores_case(name: Seq<char>, fragment: Seq<char>, other: Seq<char>)
    requires
        lower_of(fragment) == lower_of(other),
    ensures
        key_matches(name, fragment) == key_matches(name, other),
{
}

} // verus!
