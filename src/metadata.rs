//! Edit metadata of an issue, and discovery of the installation's
//! story-points field id in it.
use crate::text::{contains, contains_seq};
use vstd::prelude::*;

verus! {

/// One entry of the metadata's `fields` object.
pub struct MetaField {
    /// The entry's key, e.g. `customfield_10106`.
    pub key: String,
    /// The entry's `name`, where it is a string.
    pub name: Option<String>,
    /// The entry's `fieldId`, where it is a string.
    pub field_id: Option<String>,
}

/// Edit metadata of an issue: the entries of its `fields` object, by key order.
pub struct IssueMetaData {
    pub fields: Vec<MetaField>,
}

/// A custom field whose name mentions story points and which carries an id.
pub open spec fn is_story_points_field(f: MetaField) -> bool {
    &&& contains_seq(f.key@, "customfield"@)
    &&& f.name matches Some(n) && contains_seq(n@, "Story Points"@)
    &&& f.field_id is Some
}

/// The id of the first story-points field at or after position `i`.
pub open spec fn story_points_id_from(fs: Seq<MetaField>, i: int) -> Option<Seq<char>>
    decreases fs.len() - i,
{
    if i < 0 || i >= fs.len() {
        None
    } else if is_story_points_field(fs[i]) {
        Some(fs[i].field_id->Some_0@)
    } else {
        story_points_id_from(fs, i + 1)
    }
}

/// The id of the first story-points field of `fs`.
pub open spec fn story_points_id(fs: Seq<MetaField>) -> Option<Seq<char>> {
    story_points_id_from(fs, 0)
}

/// The field name to write story points under: the discovered id, or the
/// display name itself where none was found.
pub open spec fn story_points_target(fs: Seq<MetaField>) -> Seq<char> {
    match story_points_id(fs) {
        Some(id) => id,
        None => "Story Points"@,
    }
}

impl IssueMetaData {
    /// The id of the first custom field whose name contains "Story Points".
    pub fn get_story_points_field_id(&self) -> (r: Option<String>)
        ensures
            r is None <==> story_points_id(self.fields@) is None,
            r matches Some(s) ==> story_points_id(self.fields@) == Some(s@),
    {
        let mut i: usize = 0;
        while i < self.fields.len()
            invariant
                i <= self.fields@.len(),
                story_points_id(self.fields@) == story_points_id_from(self.fields@, i as int),
            decreases self.fields@.len() - i,
        {
            let f = &self.fields[i];
            if contains(f.key.as_str(), "customfield") {
                if let Some(name) = &f.name {
                    if contains(name.as_str(), "Story Points") {
                        if let Some(id) = &f.field_id {
                            return Some(id.clone());
                        }
                    }
                }
            }
            i = i + 1;
        }
        None
    }

    /// The discovered story-points field id, falling back to "Story Points".
    pub fn story_points_field_or_default(&self) -> (r: String)
        ensures
            r@ == story_points_target(self.fields@),
    {
        match self.get_story_points_field_id() {
            Some(id) => id,
            None => "Story Points".to_string(),
        }
    }
}

} // verus!
