//! Heartbeat domain types: activity categories, tracked entities and heartbeats.

use vstd::prelude::*;

use crate::backend::FocusEvent;

verus! {

/// Activity category reported with a heartbeat.
#[derive(Debug, Clone, Copy, PartialEq, Eq, Structural)]
pub enum Category {
    Coding,
    Building,
    Indexing,
    Debugging,
    Browsing,
    RunningTests,
    WritingTests,
    ManualTesting,
    WritingDocs,
    CodeReviewing,
    Communicating,
    Notes,
    Researching,
    Learning,
    Designing,
    AiCoding,
}

/// The wire name of a category.
pub open spec fn category_name(c: Category) -> Seq<char> {
    match c {
        Category::Coding => "coding"@,
        Category::Building => "building"@,
        Category::Indexing => "indexing"@,
        Category::Debugging => "debugging"@,
        Category::Browsing => "browsing"@,
        Category::RunningTests => "running tests"@,
        Category::WritingTests => "writing tests"@,
        Category::ManualTesting => "manual testing"@,
        Category::WritingDocs => "writing docs"@,
        Category::CodeReviewing => "code reviewing"@,
        Category::Communicating => "communicating"@,
        Category::Notes => "notes"@,
        Category::Researching => "researching"@,
        Category::Learning => "learning"@,
        Category::Designing => "designing"@,
        Category::AiCoding => "ai coding"@,
    }
}

impl Category {
    /// The category as the sink expects it.
    pub fn as_str(self) -> (r: &'static str)
        ensures
            r@ == category_name(self),
    {
        match self {
            Category::Coding => "coding",
            Category::Building => "building",
            Category::Indexing => "indexing",
            Category::Debugging => "debugging",
            Category::Browsing => "browsing",
            Category::RunningTests => "running tests",
            Category::WritingTests => "writing tests",
            Category::ManualTesting => "manual testing",
            Category::WritingDocs => "writing docs",
            Category::CodeReviewing => "code reviewing",
            Category::Communicating => "communicating",
            Category::Notes => "notes",
            Category::Researching => "researching",
            Category::Learning => "learning",
            Category::Designing => "designing",
            Category::AiCoding => "ai coding",
        }
    }
}

impl Default for Category {
    fn default() -> (r: Category)
        ensures
            r == Category::Coding,
    {
        Category::Coding
    }
}

/// The tracked "what is being worked on" string.
#[derive(Debug, Clone, Hash)]
pub struct Entity(String);

impl View for Entity {
    type V = Seq<char>;

    closed spec fn view(&self) -> Seq<char> {
        self.0@
    }
}

impl Entity {
    /// An entity holding a copy of `value`.
    pub fn new(value: &str) -> (r: Entity)
        ensures
            r@ == value@,
    {
        Entity(value.to_owned())
    }

    /// The entity text.
    pub fn as_str(&self) -> (r: &str)
        ensures
            r@ == self@,
    {
        self.0.as_str()
    }
}

impl PartialEq for Entity {
    fn eq(&self, other: &Entity) -> (r: bool)
        ensures
            r == (self@ == other@),
    {
        self.0 == other.0
    }
}

impl vstd::std_specs::cmp::PartialEqSpecImpl for Entity {
    open spec fn obeys_eq_spec() -> bool {
        true
    }

    open spec fn eq_spec(&self, other: &Entity) -> bool {
        self@ == other@
    }
}

impl Eq for Entity {}

impl From<String> for Entity {
    fn from(s: String) -> (r: Entity)
        ensures
            r@ == s@,
    {
        Entity(s)
    }
}

impl vstd::std_specs::convert::FromSpecImpl<String> for Entity {
    open spec fn obeys_from_spec() -> bool {
        true
    }

    closed spec fn from_spec(s: String) -> Entity {
        Entity(s)
    }
}

/// A heartbeat ready for the sink.
#[derive(Debug, Clone)]
pub struct Heartbeat {
    /// The tracked entity (the application, possibly with its title).
    pub entity: Entity,
    /// The activity category.
    pub category: Category,
    /// The focus event the heartbeat was made from.
    pub source: FocusEvent,
}

impl Heartbeat {
    /// A heartbeat with the given fields.
    pub fn new(entity: Entity, category: Category, source: FocusEvent) -> (r: Self)
        ensures
            r.entity == entity,
            r.category == category,
            r.source == source,
    {
        Heartbeat { entity, category, source }
    }
}

} // verus!
