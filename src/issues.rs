//! Issues, their statuses, assignees and transition snapshots, and the
//! nested wire shape an issue arrives in.
use crate::keyed::Keyed;
use crate::text::string_eq;
use vstd::prelude::*;

verus! {

/// Description given to an issue whose payload carries no rendered fields.
pub const NO_DESCRIPTION: &'static str = "No description";

/// Current status of an issue.
pub struct JiraIssueStatus {
    pub id: String,
    pub link: String,
    pub description: String,
    pub icon_url: String,
    pub name: String,
}

impl Clone for JiraIssueStatus {
    fn clone(&self) -> (r: Self)
        ensures
            r == *self,
    {
        JiraIssueStatus {
            id: self.id.clone(),
            link: self.link.clone(),
            description: self.description.clone(),
            icon_url: self.icon_url.clone(),
            name: self.name.clone(),
        }
    }
}

/// A user account, as assignee of an issue or as a search result.
pub struct JiraUser {
    pub link: String,
    pub key: String,
    pub name: String,
    pub email_address: String,
    pub display_name: String,
    pub active: bool,
    pub time_zone: String,
    pub locale: Option<String>,
    pub deleted: Option<bool>,
}

pub fn clone_opt_string(s: &Option<String>) -> (r: Option<String>)
    ensures
        r == *s,
{
    match s {
        Some(v) => Some(v.clone()),
        None => None,
    }
}

impl Clone for JiraUser {
    fn clone(&self) -> (r: Self)
        ensures
            r == *self,
    {
        JiraUser {
            link: self.link.clone(),
            key: self.key.clone(),
            name: self.name.clone(),
            email_address: self.email_address.clone(),
            display_name: self.display_name.clone(),
            active: self.active,
            time_zone: self.time_zone.clone(),
            locale: clone_opt_string(&self.locale),
            deleted: self.deleted,
        }
    }
}

/// The users a user search returned.
pub struct JiraUsers(pub Vec<JiraUser>);

/// One legal next status of an issue.
pub struct IssueTransition {
    pub id: String,
    pub name: String,
}

impl Clone for IssueTransition {
    fn clone(&self) -> (r: Self)
        ensures
            r == *self,
    {
        IssueTransition { id: self.id.clone(), name: self.name.clone() }
    }
}

/// The transitions of an issue as fetched at one moment.
pub struct IssueTransitions {
    pub transitions: Vec<IssueTransition>,
}

impl Clone for IssueTransitions {
    fn clone(&self) -> (r: Self)
        ensures
            r.transitions@ == self.transitions@,
    {
        let mut v: Vec<IssueTransition> = Vec::new();
        let mut i: usize = 0;
        while i < self.transitions.len()
            invariant
                i <= self.transitions@.len(),
                v@ == self.transitions@.subrange(0, i as int),
            decreases self.transitions@.len() - i,
        {
            v.push(self.transitions[i].clone());
            i = i + 1;
            assert(v@ =~= self.transitions@.subrange(0, i as int));
        }
        assert(v@ =~= self.transitions@);
        IssueTransitions { transitions: v }
    }
}

/// Id returned for a transition name that the snapshot does not hold.
pub open spec fn unknown_transition_id() -> Seq<char> {
    seq!['0']
}

/// The id of the first transition from position `i` on named `name`.
pub open spec fn transition_id_from(ts: Seq<IssueTransition>, name: Seq<char>, i: int) -> Seq<
    char,
>
    decreases ts.len() - i,
{
    if i < 0 || i >= ts.len() {
        unknown_transition_id()
    } else if ts[i].name@ == name {
        ts[i].id@
    } else {
        transition_id_from(ts, name, i + 1)
    }
}

/// The id of the first transition of `ts` named `name`, or the unknown id.
pub open spec fn transition_id_of(ts: Seq<IssueTransition>, name: Seq<char>) -> Seq<char> {
    transition_id_from(ts, name, 0)
}

impl IssueTransitions {
    pub fn new(transitions: Vec<IssueTransition>) -> (r: Self)
        ensures
            r.transitions == transitions,
    {
        IssueTransitions { transitions }
    }

    /// Names of all transitions, in snapshot order.
    pub fn all_transitions_name(&self) -> (r: Vec<&str>)
        ensures
            r@.len() == self.transitions@.len(),
            forall|i: int| 0 <= i < r@.len() ==> #[trigger] r@[i]@ == self.transitions@[i].name@,
    {
        let mut r: Vec<&str> = Vec::new();
        let mut i: usize = 0;
        while i < self.transitions.len()
            invariant
                i <= self.transitions@.len(),
                r@.len() == i,
                forall|j: int| 0 <= j < i ==> #[trigger] r@[j]@ == self.transitions@[j].name@,
            decreases self.transitions@.len() - i,
        {
            r.push(self.transitions[i].name.as_str());
            i = i + 1;
        }
        r
    }

    /// Id of the first transition named `transition_name`; `"0"` where none is.
    pub fn get_transitions_id_by_name(&self, transition_name: &str) -> (r: &str)
        ensures
            r@ == transition_id_of(self.transitions@, transition_name@),
    {
        let mut i: usize = 0;
        while i < self.transitions.len()
            invariant
                i <= self.transitions@.len(),
                transition_id_of(self.transitions@, transition_name@) == transition_id_from(
                    self.transitions@,
                    transition_name@,
                    i as int,
                ),
            decreases self.transitions@.len() - i,
        {
            if string_eq(self.transitions[i].name.as_str(), transition_name) {
                return self.transitions[i].id.as_str();
            }
            i = i + 1;
        }
        proof {
            reveal_strlit("0");
        }
        "0"
    }
}

/// An issue as the cache holds it: the wire shape flattened.
pub struct JiraIssue {
    pub id: String,
    pub link: String,
    pub key: String,
    pub description: String,
    pub summary: String,
    pub status: JiraIssueStatus,
    pub transitions: Option<IssueTransitions>,
    pub assignee: Option<JiraUser>,
}

impl Keyed for JiraIssue {
    open spec fn spec_key(&self) -> Seq<char> {
        self.key@
    }

    fn key_str(&self) -> (r: &str) {
        self.key.as_str()
    }
}

/// The issues a project search returned.
pub struct JiraIssues {
    pub issues: Vec<JiraIssue>,
}

/// The `fields` envelope of an issue payload.
pub struct IssueFields {
    pub summary: String,
    pub status: JiraIssueStatus,
    pub assignee: Option<JiraUser>,
}

/// The `renderedFields` envelope of an issue payload.
pub struct RenderedFields {
    /// The rendered description, where the payload has one that is not null.
    pub description: Option<String>,
}

/// An issue in the nested shape of the REST payload.
pub struct IssueWire {
    pub id: String,
    pub link: String,
    pub key: String,
    pub fields: IssueFields,
    pub rendered_fields: Option<RenderedFields>,
}

/// The rendered description of `w`, where it has one.
pub open spec fn rendered_description(w: IssueWire) -> Option<Seq<char>> {
    match w.rendered_fields {
        Some(r) => match r.description {
            Some(d) => Some(d@),
            None => None,
        },
        None => None,
    }
}

/// The description an issue parsed from `w` gets: the rendered one, or the
/// placeholder where the payload has none.
pub open spec fn wire_description(w: IssueWire) -> Seq<char> {
    match rendered_description(w) {
        Some(d) => d,
        None => NO_DESCRIPTION@,
    }
}

/// `i` is the issue that flattening `w` gives.
pub open spec fn flattened_from(i: JiraIssue, w: IssueWire) -> bool {
    &&& i.id@ == w.id@
    &&& i.link@ == w.link@
    &&& i.key@ == w.key@
    &&& i.summary@ == w.fields.summary@
    &&& i.status == w.fields.status
    &&& i.assignee == w.fields.assignee
    &&& i.description@ == wire_description(w)
    &&& i.transitions is None
}

/// `w` is the payload shape that nesting `i` gives.
pub open spec fn nested_from(w: IssueWire, i: JiraIssue) -> bool {
    &&& w.id@ == i.id@
    &&& w.link@ == i.link@
    &&& w.key@ == i.key@
    &&& w.fields.summary@ == i.summary@
    &&& w.fields.status == i.status
    &&& w.fields.assignee == i.assignee
    &&& rendered_description(w) == Some(i.description@)
}

impl JiraIssue {
    /// Flattens a payload; a missing `renderedFields` gives the placeholder description.
    pub fn from_wire(wire: IssueWire) -> (r: JiraIssue)
        ensures
            flattened_from(r, wire),
    {
        let description = match wire.rendered_fields {
            Some(RenderedFields { description: Some(d) }) => d,
            _ => NO_DESCRIPTION.to_string(),
        };
        JiraIssue {
            id: wire.id,
            link: wire.link,
            key: wire.key,
            description,
            summary: wire.fields.summary,
            status: wire.fields.status,
            transitions: None,
            assignee: wire.fields.assignee,
        }
    }

    /// The payload shape of this issue (transitions are not part of it).
    pub fn to_wire(&self) -> (r: IssueWire)
        ensures
            nested_from(r, *self),
    {
        IssueWire {
            id: self.id.clone(),
            link: self.link.clone(),
            key: self.key.clone(),
            fields: IssueFields {
                summary: self.summary.clone(),
                status: self.status.clone(),
                assignee: match &self.assignee {
                    Some(u) => Some(u.clone()),
                    None => None,
                },
            },
            rendered_fields: Some(RenderedFields { description: Some(self.description.clone()) }),
        }
    }

    /// Replaces the transition snapshot of this issue.
    pub fn add_transitions(&mut self, transitions: IssueTransitions)
        ensures
            final(self).transitions == Some(transitions),
            final(self).id == old(self).id,
            final(self).link == old(self).link,
            final(self).key == old(self).key,
            final(self).description == old(self).description,
            final(self).summary == old(self).summary,
            final(self).status == old(self).status,
            final(self).assignee == old(self).assignee,
    {
        self.transitions = Some(transitions);
    }
}

/// Parsing a payload and nesting the result again gives back its id, link,
/// key, summary, status and assignee; the description is the rendered one,
/// or the placeholder where the payload had no rendered description.
pub proof fn lemma_wire_round_trip(w: IssueWire, parsed: JiraIssue, again: IssueWire)
    requires
        flattened_from(parsed, w),
        nested_from(again, parsed),
    ensures
        again.id@ == w.id@,
        again.link@ == w.link@,
        again.key@ == w.key@,
        again.fields.summary@ == w.fields.summary@,
        again.fields.status == w.fields.status,
        again.fields.assignee == w.fields.assignee,
        rendered_description(w) is None ==> parsed.description@ == NO_DESCRIPTION@,
        rendered_description(w) matches Some(d) ==> rendered_description(again) == Some(d),
{
}

/// Nesting an issue and flattening the payload again gives back every field
/// but the transition snapshot, which is not part of the payload.
pub proof fn lemma_issue_round_trip(i: JiraIssue, w: IssueWire, back: JiraIssue)
    requires
        nested_from(w, i),
        flattened_from(back, w),
    ensures
        back.id@ == i.id@,
        back.link@ == i.link@,
        back.key@ == i.key@,
        back.summary@ == i.summary@,
        back.description@ == i.description@,
        back.status == i.status,
        back.assignee == i.assignee,
        back.transitions is None,
{
}

} // verus!
