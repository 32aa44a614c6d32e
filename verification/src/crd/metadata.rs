//! Object metadata.

use vstd::prelude::*;

use crate::string_map::StringMap;

verus! {

/// A moment in time: seconds since the Unix epoch and nanoseconds within the second.
#[derive(Debug, Clone, Copy, PartialEq, Eq, Structural)]
pub struct Moment {
    pub secs: i64,
    pub nanos: u32,
}

impl Moment {
    /// Whether `self` is the same moment as `other` or an earlier one.
    pub open spec fn not_after(self, other: Moment) -> bool {
        self.secs < other.secs || (self.secs == other.secs && self.nanos <= other.nanos)
    }

    /// Whether `self` is the same moment as `other` or an earlier one.
    pub fn is_not_after(self, other: Moment) -> (r: bool)
        ensures
            r == self.not_after(other),
    {
        self.secs < other.secs || (self.secs == other.secs && self.nanos <= other.nanos)
    }
}

/// The owner that an object is garbage-collected with.
#[derive(Debug, PartialEq, Eq)]
pub struct OwnerReference {
    pub api_version: String,
    pub kind: String,
    pub name: String,
    pub uid: String,
    pub controller: Option<bool>,
    pub block_owner_deletion: Option<bool>,
}

impl Clone for OwnerReference {
    fn clone(&self) -> (r: OwnerReference)
        ensures
            r == *self,
    {
        OwnerReference {
            api_version: self.api_version.clone(),
            kind: self.kind.clone(),
            name: self.name.clone(),
            uid: self.uid.clone(),
            controller: self.controller,
            block_owner_deletion: self.block_owner_deletion,
        }
    }
}

/// Metadata of an object.
#[derive(Debug)]
pub struct ObjectMeta {
    pub name: Option<String>,
    pub generate_name: Option<String>,
    pub namespace: Option<String>,
    pub uid: Option<String>,
    pub creation_timestamp: Option<Moment>,
    pub labels: Option<StringMap>,
    pub annotations: Option<StringMap>,
    pub owner_references: Option<Vec<OwnerReference>>,
}

impl Default for ObjectMeta {
    fn default() -> (r: ObjectMeta)
        ensures
            r.name is None,
            r.generate_name is None,
            r.namespace is None,
            r.uid is None,
            r.creation_timestamp is None,
            r.labels is None,
            r.annotations is None,
            r.owner_references is None,
    {
        ObjectMeta {
            name: None,
            generate_name: None,
            namespace: None,
            uid: None,
            creation_timestamp: None,
            labels: None,
            annotations: None,
            owner_references: None,
        }
    }
}

/// The text of an optional string, empty where there is none.
pub open spec fn text_or_empty(s: Option<String>) -> Seq<char> {
    match s {
        Some(t) => t@,
        None => Seq::empty(),
    }
}

/// The string, or the empty one where there is none.
pub fn or_empty(s: &Option<String>) -> (r: String)
    ensures
        r@ == text_or_empty(*s),
{
    match s {
        Some(t) => t.clone(),
        None => String::new(),
    }
}

impl ObjectMeta {
    /// The object's name: its own, else the prefix that it is generated from, else nothing.
    pub open spec fn any_name(&self) -> Seq<char> {
        match self.name {
            Some(name) => name@,
            None => text_or_empty(self.generate_name),
        }
    }

    /// The object's name: its own, else the prefix that it is generated from, else nothing.
    pub fn name_any(&self) -> (r: String)
        ensures
            r@ == self.any_name(),
    {
        match &self.name {
            Some(name) => name.clone(),
            None => or_empty(&self.generate_name),
        }
    }

    /// The namespace, empty where the object has none.
    pub open spec fn namespace_text(&self) -> Seq<char> {
        text_or_empty(self.namespace)
    }

    /// The namespace, empty where the object has none.
    pub fn namespace_or_empty(&self) -> (r: String)
        ensures
            r@ == self.namespace_text(),
    {
        or_empty(&self.namespace)
    }
}

/// An object that can own others.
pub trait Resource {
    /// The kind of the object.
    spec fn kind_text(&self) -> Seq<char>;

    /// The metadata of the object.
    spec fn metadata(&self) -> ObjectMeta;

    /// The kind of the object.
    fn kind(&self) -> (r: &'static str)
        ensures
            r@ == self.kind_text(),
    ;

    /// The metadata of the object.
    fn meta(&self) -> (r: &ObjectMeta)
        ensures
            *r == self.metadata(),
    ;
}

} // verus!
