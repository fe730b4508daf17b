//! The classes that an element may name, and what each of them offers.

use vstd::prelude::*;
use vstd::hash_map::StringHashMap;
use vstd::string::StringExecFns;

verus! {

/// Whether one of `names` reads `name`.
pub open spec fn lists(names: Seq<String>, name: Seq<char>) -> bool {
    exists|i: int| 0 <= i < names.len() && (#[trigger] names[i])@ == name
}

/// Whether one of `names` reads `name`.
pub fn is_listed(names: &Vec<String>, name: &str) -> (found: bool)
    ensures
        found == lists(names@, name@),
{
    let wanted = String::from_str(name);
    let mut i: usize = 0;
    while i < names.len()
        invariant
            i <= names.len(),
            wanted@ == name@,
            forall|j: int| 0 <= j < i ==> (#[trigger] names[j])@ != name@,
        decreases names.len() - i,
    {
        if names[i] == wanted {
            return true;
        }
        i += 1;
    }
    false
}

/// What a class offers: every property and every event that an element of the
/// class may be given, those it inherits included.
#[derive(Debug)]
pub struct RobloxClass {
    pub properties: Vec<String>,
    pub events: Vec<String>,
}

impl RobloxClass {
    pub open spec fn spec_has_property(&self, name: Seq<char>) -> bool {
        lists(self.properties@, name)
    }

    pub open spec fn spec_has_event(&self, name: Seq<char>) -> bool {
        lists(self.events@, name)
    }

    /// Whether the class has a property of this name.
    pub fn has_property(&self, name: &str) -> (has: bool)
        ensures
            has == self.spec_has_property(name@),
    {
        is_listed(&self.properties, name)
    }

    /// Whether the class has an event of this name.
    pub fn has_event(&self, name: &str) -> (has: bool)
        ensures
            has == self.spec_has_event(name@),
    {
        is_listed(&self.events, name)
    }
}

/// The known classes, by name.
pub struct ClassSchema {
    classes: StringHashMap<RobloxClass>,
}

impl View for ClassSchema {
    type V = Map<Seq<char>, RobloxClass>;

    closed spec fn view(&self) -> Map<Seq<char>, RobloxClass> {
        self.classes@
    }
}

impl ClassSchema {
    /// A schema without classes.
    pub fn new() -> (schema: ClassSchema)
        ensures
            schema@ == Map::<Seq<char>, RobloxClass>::empty(),
    {
        ClassSchema { classes: StringHashMap::new() }
    }

    /// Records `class` under `name`, in place of any class that had the name.
    pub fn insert(&mut self, name: String, class: RobloxClass)
        ensures
            final(self)@ == old(self)@.insert(name@, class),
    {
        self.classes.insert(name, class);
    }

    /// Whether the schema knows no class at all.
    pub fn is_empty(&self) -> (empty: bool)
        ensures
            empty == (self@.dom() =~= Set::<Seq<char>>::empty()),
    {
        self.classes.is_empty()
    }

    /// The class of this name, if the schema knows one.
    pub fn get(&self, name: &str) -> (class: Option<&RobloxClass>)
        ensures
            class is Some == self@.contains_key(name@),
            class is Some ==> *class->0 == self@[name@],
    {
        self.classes.get(name)
    }
}

/// What a pass is run with: whether the script is written for Roblox, and the
/// classes known there.
pub struct Context {
    pub roblox: bool,
    pub roblox_classes: ClassSchema,
}

impl Context {
    /// Whether the script is written for Roblox.
    pub fn is_roblox(&self) -> (roblox: bool)
        ensures
            roblox == self.roblox,
    {
        self.roblox
    }
}

} // verus!
