//! Capability parameter schemas, as the provider protocol describes them:
//! an object type with named, typed properties and an optional list of
//! required property names.

use vstd::prelude::*;
use crate::strmap::StringMap;

verus! {

/// The schema of one property: a scalar, array or enumerated type.
#[derive(Debug)]
pub struct Property {
    pub property_type: String,
    pub description: Option<String>,
    pub enum_values: Option<Vec<String>>,
    pub items: Option<Box<Property>>,
}

impl Property {
    pub fn string() -> (r: Property)
        ensures
            r.property_type@ == "string"@,
            r.description is None,
            r.enum_values is None,
            r.items is None,
    {
        Property {
            property_type: String::from_str("string"),
            description: None,
            enum_values: None,
            items: None,
        }
    }

    pub fn number() -> (r: Property)
        ensures
            r.property_type@ == "number"@,
            r.description is None,
            r.enum_values is None,
            r.items is None,
    {
        Property {
            property_type: String::from_str("number"),
            description: None,
            enum_values: None,
            items: None,
        }
    }

    pub fn integer() -> (r: Property)
        ensures
            r.property_type@ == "integer"@,
            r.description is None,
            r.enum_values is None,
            r.items is None,
    {
        Property {
            property_type: String::from_str("integer"),
            description: None,
            enum_values: None,
            items: None,
        }
    }

    pub fn boolean() -> (r: Property)
        ensures
            r.property_type@ == "boolean"@,
            r.description is None,
            r.enum_values is None,
            r.items is None,
    {
        Property {
            property_type: String::from_str("boolean"),
            description: None,
            enum_values: None,
            items: None,
        }
    }

    pub fn array(items: Property) -> (r: Property)
        ensures
            r.property_type@ == "array"@,
            r.description is None,
            r.enum_values is None,
            r.items matches Some(b) && *b == items,
    {
        Property {
            property_type: String::from_str("array"),
            description: None,
            enum_values: None,
            items: Some(Box::new(items)),
        }
    }

    pub fn object() -> (r: Property)
        ensures
            r.property_type@ == "object"@,
            r.description is None,
            r.enum_values is None,
            r.items is None,
    {
        Property {
            property_type: String::from_str("object"),
            description: None,
            enum_values: None,
            items: None,
        }
    }

    pub fn with_description(self, description: &str) -> (r: Property)
        ensures
            r.property_type == self.property_type,
            r.description matches Some(d) && d@ == description@,
            r.enum_values == self.enum_values,
            r.items == self.items,
    {
        Property { description: Some(description.to_owned()), ..self }
    }

    pub fn with_enum(self, values: Vec<String>) -> (r: Property)
        ensures
            r.property_type == self.property_type,
            r.description == self.description,
            r.enum_values matches Some(vs) && vs == values,
            r.items == self.items,
    {
        Property { enum_values: Some(values), ..self }
    }
}

/// The parameter schema a capability declares: always an object type.
pub struct ToolInputSchema {
    pub schema_type: String,
    pub properties: StringMap<Property>,
    pub required: Option<Vec<String>>,
    pub additional_properties: Option<bool>,
}

/// A schema is well formed when its property map is and it declares the
/// JSON object type.
pub open spec fn schema_wf(s: ToolInputSchema) -> bool {
    &&& s.properties.wf()
    &&& s.schema_type@ == "object"@
}

impl ToolInputSchema {
    pub fn new() -> (r: ToolInputSchema)
        ensures
            schema_wf(r),
            r.properties@ == Map::<Seq<char>, Property>::empty(),
            r.properties.entries_seq().len() == 0,
            r.required is None,
            r.additional_properties == Some(false),
    {
        ToolInputSchema {
            schema_type: String::from_str("object"),
            properties: StringMap::new(),
            required: None,
            additional_properties: Some(false),
        }
    }

    pub fn with_property(self, name: &str, property: Property) -> (r: ToolInputSchema)
        requires
            schema_wf(self),
        ensures
            schema_wf(r),
            r.schema_type == self.schema_type,
            r.properties@ == self.properties@.insert(name@, property),
            r.required == self.required,
            r.additional_properties == self.additional_properties,
    {
        let mut s = self;
        s.properties.insert(name, property);
        s
    }

    pub fn with_required(self, required: Vec<String>) -> (r: ToolInputSchema)
        ensures
            r.schema_type == self.schema_type,
            r.properties == self.properties,
            r.required matches Some(v) && v == required,
            r.additional_properties == self.additional_properties,
    {
        ToolInputSchema { required: Some(required), ..self }
    }
}

impl Default for ToolInputSchema {
    fn default() -> (r: ToolInputSchema)
        ensures
            schema_wf(r),
            r.properties@ == Map::<Seq<char>, Property>::empty(),
            r.required is None,
            r.additional_properties == Some(false),
    {
        ToolInputSchema::new()
    }
}

/// A named, schema-described capability as the provider sees it.
pub struct Tool {
    pub name: String,
    pub description: Option<String>,
    pub input_schema: ToolInputSchema,
}

impl Tool {
    pub fn new(name: &str, description: &str, input_schema: ToolInputSchema) -> (r: Tool)
        ensures
            r.name@ == name@,
            r.description matches Some(d) && d@ == description@,
            r.input_schema == input_schema,
    {
        Tool {
            name: name.to_owned(),
            description: Some(description.to_owned()),
            input_schema,
        }
    }

    /// The provider-protocol form of this capability.
    pub fn to_definition(self) -> (r: crate::models::ToolDefinition)
        ensures
            r.tool_type@ == "function"@,
            r.function.name == self.name,
            r.function.description == self.description,
            r.function.parameters == self.input_schema,
    {
        crate::models::ToolDefinition {
            tool_type: String::from_str("function"),
            function: crate::models::FunctionDefinition {
                name: self.name,
                description: self.description,
                parameters: self.input_schema,
            },
        }
    }
}

} // verus!
