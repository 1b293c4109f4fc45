//! Issue types of a project and the statuses each can be in.
use crate::keyed::{keyed_map, keys_unique, upsert, Keyed};
use crate::text::string_eq;
use vstd::prelude::*;

verus! {

pub struct StatusCategory {
    pub link: String,
    pub id: String,
    pub key: String,
    pub name: String,
}

pub struct TaskStatus {
    pub link: String,
    pub description: String,
    pub icon_url: String,
    pub name: String,
    pub id: String,
    pub category: StatusCategory,
}

pub struct TaskType {
    pub link: String,
    pub id: String,
    pub name: String,
    pub subtask: bool,
    pub statuses: Vec<TaskStatus>,
}

/// The issue types of a project, with their statuses.
pub struct TaskTypes {
    pub types: Vec<TaskType>,
}

/// The status ids an issue type allows, each once.
pub struct TypeStatusIds {
    pub name: String,
    pub status_ids: Vec<String>,
}

impl Keyed for TypeStatusIds {
    open spec fn spec_key(&self) -> Seq<char> {
        self.name@
    }

    fn key_str(&self) -> (r: &str) {
        self.name.as_str()
    }
}

/// The texts held in `v`.
pub open spec fn ids_of(v: Seq<String>) -> Set<Seq<char>> {
    Set::new(|s: Seq<char>| exists|i: int| 0 <= i < v.len() && v[i]@ == s)
}

/// The ids of the statuses in `v`.
pub open spec fn status_ids_of(v: Seq<TaskStatus>) -> Set<Seq<char>> {
    Set::new(|s: Seq<char>| exists|i: int| 0 <= i < v.len() && v[i].id@ == s)
}

/// Type name to status ids, a later type replacing an earlier one of the same name.
pub open spec fn type_statuses(types: Seq<TaskType>) -> Map<Seq<char>, Set<Seq<char>>>
    decreases types.len(),
{
    if types.len() == 0 {
        Map::empty()
    } else {
        type_statuses(types.drop_last()).insert(
            types.last().name@,
            status_ids_of(types.last().statuses@),
        )
    }
}

fn distinct_status_ids(statuses: &Vec<TaskStatus>) -> (r: Vec<String>)
    ensures
        ids_of(r@) == status_ids_of(statuses@),
        forall|j: int, l: int| 0 <= j < l < r@.len() ==> #[trigger] r@[j]@ != #[trigger] r@[l]@,
{
    let mut r: Vec<String> = Vec::new();
    let mut i: usize = 0;
    while i < statuses.len()
        invariant
            i <= statuses@.len(),
            ids_of(r@) == status_ids_of(statuses@.subrange(0, i as int)),
            forall|j: int, l: int| 0 <= j < l < r@.len() ==> #[trigger] r@[j]@ != #[trigger] r@[l]@,
        decreases statuses@.len() - i,
    {
        let id = statuses[i].id.as_str();
        let mut seen = false;
        let mut j: usize = 0;
        while j < r.len()
            invariant
                j <= r@.len(),
                seen ==> exists|k: int| 0 <= k < r@.len() && r@[k]@ == id@,
                !seen ==> forall|k: int| 0 <= k < j ==> #[trigger] r@[k]@ != id@,
            decreases r@.len() - j,
        {
            if string_eq(r[j].as_str(), id) {
                seen = true;
            }
            j = j + 1;
        }
        let ghost before = r@;
        if !seen {
            r.push(id.to_string());
        }
        proof {
            let pre = statuses@.subrange(0, i as int);
            let next = statuses@.subrange(0, i + 1);
            assert forall|s: Seq<char>| ids_of(r@).contains(s) <==> status_ids_of(next).contains(s) by {
                if ids_of(r@).contains(s) {
                    let k = choose|k: int| 0 <= k < r@.len() && r@[k]@ == s;
                    if k < before.len() {
                        assert(ids_of(before).contains(s));
                        let m = choose|m: int| 0 <= m < pre.len() && pre[m].id@ == s;
                        assert(next[m].id@ == s);
                    } else {
                        assert(next[i as int].id@ == s);
                    }
                }
                if status_ids_of(next).contains(s) {
                    let m = choose|m: int| 0 <= m < next.len() && next[m].id@ == s;
                    if m < i {
                        assert(pre[m].id@ == s);
                        assert(status_ids_of(pre).contains(s));
                        let k = choose|k: int| 0 <= k < before.len() && before[k]@ == s;
                        assert(r@[k]@ == s);
                    } else if seen {
                        let k = choose|k: int| 0 <= k < r@.len() && r@[k]@ == id@;
                        assert(r@[k]@ == s);
                    } else {
                        assert(r@[before.len() as int]@ == s);
                    }
                }
            }
            assert(ids_of(r@) =~= status_ids_of(next));
        }
        i = i + 1;
    }
    assert(statuses@.subrange(0, i as int) =~= statuses@);
    r
}

impl TaskTypes {
    /// For each type name, the ids of the statuses it allows.
    pub fn task_type_name_and_status_ids(&self) -> (r: Vec<TypeStatusIds>)
        ensures
            keys_unique(r@),
            keyed_map(r@).dom() == type_statuses(self.types@).dom(),
            forall|k: Seq<char>|
                #[trigger] keyed_map(r@).contains_key(k) ==> ids_of(keyed_map(r@)[k].status_ids@)
                    == type_statuses(self.types@)[k],
    {
        let mut r: Vec<TypeStatusIds> = Vec::new();
        let mut i: usize = 0;
        proof {
            assert(keyed_map(r@).dom() =~= type_statuses(self.types@.subrange(0, 0)).dom());
        }
        while i < self.types.len()
            invariant
                i <= self.types@.len(),
                keys_unique(r@),
                keyed_map(r@).dom() == type_statuses(self.types@.subrange(0, i as int)).dom(),
                forall|k: Seq<char>|
                    #[trigger] keyed_map(r@).contains_key(k) ==> ids_of(keyed_map(r@)[k].status_ids@)
                        == type_statuses(self.types@.subrange(0, i as int))[k],
            decreases self.types@.len() - i,
        {
            let t = &self.types[i];
            let item = TypeStatusIds { name: t.name.clone(), status_ids: distinct_status_ids(&t.statuses) };
            let ghost old_map = keyed_map(r@);
            upsert(&mut r, item);
            proof {
                let pre = self.types@.subrange(0, i as int);
                let next = self.types@.subrange(0, i + 1);
                assert(next.drop_last() =~= pre);
                assert(keyed_map(r@).dom() =~= type_statuses(next).dom());
            }
            i = i + 1;
        }
        assert(self.types@.subrange(0, i as int) =~= self.types@);
        r
    }
}

} // verus!
