//! A JSON-Schema-like description of the shape of structured output.

use vstd::prelude::*;

verus! {

/// The shape of a value. A schema owns the schemas of its properties and of
/// its items.
#[derive(Debug)]
pub struct Schema {
    pub schema_type: Type,
    pub format: Option<String>,
    pub description: Option<String>,
    pub nullable: bool,
    pub enum_values: Option<Vec<String>>,
    pub max_items: Option<String>,
    pub min_items: Option<String>,
    /// The properties of an object, by name: no name occurs twice.
    pub properties: Option<Vec<Property>>,
    pub required: Option<Vec<String>>,
    pub items: Option<Box<Schema>>,
}

/// One named property of an object schema.
#[derive(Debug)]
pub struct Property {
    pub name: String,
    pub schema: Box<Schema>,
}

#[derive(Debug, Clone, Copy, PartialEq, Eq)]
pub enum Type {
    Unspecified,
    String,
    Number,
    Integer,
    Boolean,
    Array,
    Object,
}

/// Whether no two of the properties share a name.
pub open spec fn distinct_names(properties: Seq<Property>) -> bool {
    forall|i: int, j: int|
        0 <= i < j < properties.len() ==> (#[trigger] properties[i]).name@ != (
        #[trigger] properties[j]).name@
}

} // verus!
