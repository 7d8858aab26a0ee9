//! Schema descriptors: the declared shape of a handler's input and output
//! payloads, as far as the API document needs to describe them.

use vstd::prelude::*;
use vstd::string::StringExecFns;

verus! {

/// Mathematical model of a schema descriptor.
pub ghost enum SchemaDescriptorView {
    /// The operation carries no payload on this side.
    Empty,
    Boolean,
    Integer,
    Text,
    /// A named object schema.
    Object(Seq<char>),
    /// A declared type that cannot be reflected into a schema; building the
    /// API document from an entry carrying one fails.
    Undescribable,
}

/// The declared shape of one side (input or output) of an operation.
pub enum SchemaDescriptor {
    Empty,
    Boolean,
    Integer,
    Text,
    Object(String),
    Undescribable,
}

impl View for SchemaDescriptor {
    type V = SchemaDescriptorView;

    open spec fn view(&self) -> SchemaDescriptorView {
        match self {
            SchemaDescriptor::Empty => SchemaDescriptorView::Empty,
            SchemaDescriptor::Boolean => SchemaDescriptorView::Boolean,
            SchemaDescriptor::Integer => SchemaDescriptorView::Integer,
            SchemaDescriptor::Text => SchemaDescriptorView::Text,
            SchemaDescriptor::Object(name) => SchemaDescriptorView::Object(name@),
            SchemaDescriptor::Undescribable => SchemaDescriptorView::Undescribable,
        }
    }
}

/// Whether a descriptor can be reflected into the API document.
pub open spec fn describable(s: SchemaDescriptorView) -> bool {
    !(s is Undescribable)
}

/// The JSON fragment the API document emits for a describable descriptor.
/// Object names are emitted verbatim.
pub open spec fn schema_json(s: SchemaDescriptorView) -> Seq<char> {
    match s {
        SchemaDescriptorView::Empty => "null"@,
        SchemaDescriptorView::Boolean => "{\"type\":\"boolean\"}"@,
        SchemaDescriptorView::Integer => "{\"type\":\"integer\"}"@,
        SchemaDescriptorView::Text => "{\"type\":\"string\"}"@,
        SchemaDescriptorView::Object(name) => "{\"$ref\":\"#/components/schemas/"@ + name
            + "\"}"@,
        SchemaDescriptorView::Undescribable => Seq::empty(),
    }
}

impl SchemaDescriptor {
    /// Whether this descriptor can be reflected into the API document.
    pub fn is_describable(&self) -> (r: bool)
        ensures
            r == describable(self@),
    {
        !matches!(self, SchemaDescriptor::Undescribable)
    }

    /// Renders the descriptor's JSON fragment for the API document.
    pub fn to_json(&self) -> (r: String)
        ensures
            r@ == schema_json(self@),
    {
        match self {
            SchemaDescriptor::Empty => String::from_str("null"),
            SchemaDescriptor::Boolean => String::from_str("{\"type\":\"boolean\"}"),
            SchemaDescriptor::Integer => String::from_str("{\"type\":\"integer\"}"),
            SchemaDescriptor::Text => String::from_str("{\"type\":\"string\"}"),
            SchemaDescriptor::Object(name) => {
                let mut r = String::from_str("{\"$ref\":\"#/components/schemas/");
                r.append(name.as_str());
                r.append("\"}");
                r
            },
            SchemaDescriptor::Undescribable => String::new(),
        }
    }

    /// A structural copy of the descriptor.
    pub fn duplicate(&self) -> (r: SchemaDescriptor)
        ensures
            r@ == self@,
    {
        match self {
            SchemaDescriptor::Empty => SchemaDescriptor::Empty,
            SchemaDescriptor::Boolean => SchemaDescriptor::Boolean,
            SchemaDescriptor::Integer => SchemaDescriptor::Integer,
            SchemaDescriptor::Text => SchemaDescriptor::Text,
            SchemaDescriptor::Object(name) => SchemaDescriptor::Object(name.clone()),
            SchemaDescriptor::Undescribable => SchemaDescriptor::Undescribable,
        }
    }
}

} // verus!
