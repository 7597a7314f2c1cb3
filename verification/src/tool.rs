//! Capabilities: the interface the executor invokes, their declared
//! parameter schemas, and the outcome a capability reports.

use vstd::prelude::*;
use crate::errors::AgentError;
use crate::strmap::StringMap;

verus! {

/// The schema of one capability parameter.
#[derive(Debug)]
pub struct Property {
    pub prop_type: String,
    pub description: Option<String>,
    pub enum_values: Option<Vec<String>>,
}

/// Whether a parameter property of the provider schema writes the same
/// content as a capability property.
pub open spec fn prop_like(a: crate::schema::Property, b: Property) -> bool {
    &&& a.property_type@ == b.prop_type@
    &&& crate::message::opt_str_view(a.description) == crate::message::opt_str_view(b.description)
    &&& a.items is None
    &&& match (a.enum_values, b.enum_values) {
        (Some(x), Some(y)) => x.deep_view() == y.deep_view(),
        (None, None) => true,
        _ => false,
    }
}

impl Clone for Property {
    fn clone(&self) -> (r: Property)
        ensures
            r.prop_type@ == self.prop_type@,
            crate::message::opt_str_view(r.description) == crate::message::opt_str_view(
                self.description,
            ),
            match (r.enum_values, self.enum_values) {
                (Some(x), Some(y)) => x.deep_view() == y.deep_view(),
                (None, None) => true,
                _ => false,
            },
    {
        Property {
            prop_type: self.prop_type.clone(),
            description: match &self.description {
                Some(s) => Some(s.clone()),
                None => None,
            },
            enum_values: match &self.enum_values {
                Some(v) => Some(crate::text::clone_strings(v)),
                None => None,
            },
        }
    }
}

/// The declared parameters of a capability: an object type with named
/// properties and an optional required-subset list.
pub struct ToolParameters {
    pub param_type: String,
    pub properties: StringMap<Property>,
    pub required: Option<Vec<String>>,
}

/// The property map carries distinct keys.
pub open spec fn params_wf(p: ToolParameters) -> bool {
    p.properties.wf()
}

impl ToolParameters {
    pub fn new() -> (r: ToolParameters)
        ensures
            params_wf(r),
            r.param_type@ == "object"@,
            r.properties@ == Map::<Seq<char>, Property>::empty(),
            r.required is None,
    {
        ToolParameters {
            param_type: String::from_str("object"),
            properties: StringMap::new(),
            required: None,
        }
    }

    pub fn with_property(self, name: &str, property: Property) -> (r: ToolParameters)
        requires
            params_wf(self),
        ensures
            params_wf(r),
            r.param_type == self.param_type,
            r.properties@ == self.properties@.insert(name@, property),
            r.required == self.required,
    {
        let mut p = self;
        p.properties.insert(name, property);
        p
    }

    pub fn with_required(self, required: Vec<String>) -> (r: ToolParameters)
        ensures
            r.param_type == self.param_type,
            r.properties == self.properties,
            r.required matches Some(v) && v == required,
    {
        ToolParameters { required: Some(required), ..self }
    }
}

/// Rebuilds a property map entry by entry; the copy is well formed and
/// denotes a map with the same keys whose values write the same content.
pub(crate) fn rebuild_properties(src: &StringMap<Property>) -> (r: StringMap<Property>)
    ensures
        r.wf(),
        forall|k: Seq<char>| r@.contains_key(k) <==> src@.contains_key(k),
        src.wf() ==> forall|k: Seq<char>|
            src@.contains_key(k) ==> prop_eq(#[trigger] r@[k], src@[k]),
{
    let ghost entries = src.entries_seq();
    let mut r: StringMap<Property> = StringMap::new();
    let n = src.entry_count();
    let mut i: usize = 0;
    while i < n
        invariant
            n == entries.len(),
            entries == src.entries_seq(),
            i <= n,
            r.wf(),
            forall|k: Seq<char>|
                #[trigger] r@.contains_key(k) <==> exists|j: int| 0 <= j < i && entries[j].0@ == k,
            src.wf() ==> forall|j: int|
                0 <= j < i ==> prop_eq(#[trigger] r@[entries[j].0@], entries[j].1),
        decreases n - i,
    {
        let key = src.key_at(i);
        let value = src.value_at(i);
        let copied = value.clone();
        r.insert(key.as_str(), copied);
        proof {
            assert forall|k: Seq<char>| #[trigger] r@.contains_key(k) implies exists|j: int|
                0 <= j < i + 1 && entries[j].0@ == k by {
                if k != entries[i as int].0@ {
                    assert(exists|j: int| 0 <= j < i && entries[j].0@ == k);
                }
            }
            if src.wf() {
                assert forall|j: int| 0 <= j < i + 1 implies prop_eq(
                    #[trigger] r@[entries[j].0@],
                    entries[j].1,
                ) by {
                    if j < i {
                        assert(entries[j].0@ != entries[i as int].0@);
                    }
                }
            }
        }
        i += 1;
    }
    proof {
        src.lemma_view_entries();
        crate::strmap::lemma_map_of_contains(entries, arbitrary());
        assert forall|k: Seq<char>| #[trigger] r@.contains_key(k) <==> src@.contains_key(k) by {
            crate::strmap::lemma_map_of_contains(entries, k);
        }
        if src.wf() {
            assert forall|k: Seq<char>| src@.contains_key(k) implies prop_eq(
                #[trigger] r@[k],
                src@[k],
            ) by {
                crate::strmap::lemma_map_of_contains(entries, k);
                let j = choose|j: int| 0 <= j < entries.len() && entries[j].0@ == k;
                crate::strmap::lemma_map_of_index(entries, j);
            }
        }
    }
    r
}

/// Converts a capability property map into the provider-schema form; the
/// copy is well formed, has the same keys, and writes the same content.
pub(crate) fn to_schema_properties(src: &StringMap<Property>) -> (r: StringMap<
    crate::schema::Property,
>)
    ensures
        r.wf(),
        forall|k: Seq<char>| r@.contains_key(k) <==> src@.contains_key(k),
        src.wf() ==> forall|k: Seq<char>|
            src@.contains_key(k) ==> prop_like(#[trigger] r@[k], src@[k]),
{
    let ghost entries = src.entries_seq();
    let mut r: StringMap<crate::schema::Property> = StringMap::new();
    let n = src.entry_count();
    let mut i: usize = 0;
    while i < n
        invariant
            n == entries.len(),
            entries == src.entries_seq(),
            i <= n,
            r.wf(),
            forall|k: Seq<char>|
                #[trigger] r@.contains_key(k) <==> exists|j: int| 0 <= j < i && entries[j].0@ == k,
            src.wf() ==> forall|j: int|
                0 <= j < i ==> prop_like(#[trigger] r@[entries[j].0@], entries[j].1),
        decreases n - i,
    {
        let key = src.key_at(i);
        let value = src.value_at(i);
        let copied = crate::schema::Property {
            property_type: value.prop_type.clone(),
            description: match &value.description {
                Some(s) => Some(s.clone()),
                None => None,
            },
            enum_values: match &value.enum_values {
                Some(v) => Some(crate::text::clone_strings(v)),
                None => None,
            },
            items: None,
        };
        r.insert(key.as_str(), copied);
        proof {
            assert forall|k: Seq<char>| #[trigger] r@.contains_key(k) implies exists|j: int|
                0 <= j < i + 1 && entries[j].0@ == k by {
                if k != entries[i as int].0@ {
                    assert(exists|j: int| 0 <= j < i && entries[j].0@ == k);
                }
            }
            if src.wf() {
                assert forall|j: int| 0 <= j < i + 1 implies prop_like(
                    #[trigger] r@[entries[j].0@],
                    entries[j].1,
                ) by {
                    if j < i {
                        assert(entries[j].0@ != entries[i as int].0@);
                    }
                }
            }
        }
        i += 1;
    }
    proof {
        src.lemma_view_entries();
        assert forall|k: Seq<char>| #[trigger] r@.contains_key(k) <==> src@.contains_key(k) by {
            crate::strmap::lemma_map_of_contains(entries, k);
        }
        if src.wf() {
            assert forall|k: Seq<char>| src@.contains_key(k) implies prop_like(
                #[trigger] r@[k],
                src@[k],
            ) by {
                crate::strmap::lemma_map_of_contains(entries, k);
                let j = choose|j: int| 0 <= j < entries.len() && entries[j].0@ == k;
                crate::strmap::lemma_map_of_index(entries, j);
            }
        }
    }
    r
}

/// The business outcome a capability reports.
pub struct ToolExecutionResult {
    pub success: bool,
    pub output: String,
    pub error: Option<String>,
    pub metadata: StringMap<serde_json::Value>,
}

impl ToolExecutionResult {
    pub fn success(output: &str) -> (r: ToolExecutionResult)
        ensures
            r.success,
            r.output@ == output@,
            r.error is None,
            r.metadata.wf(),
            r.metadata@ == Map::<Seq<char>, serde_json::Value>::empty(),
    {
        ToolExecutionResult {
            success: true,
            output: output.to_owned(),
            error: None,
            metadata: StringMap::new(),
        }
    }

    pub fn failure(error: &str) -> (r: ToolExecutionResult)
        ensures
            !r.success,
            r.output@.len() == 0,
            r.error matches Some(e) && e@ == error@,
            r.metadata.wf(),
            r.metadata@ == Map::<Seq<char>, serde_json::Value>::empty(),
    {
        ToolExecutionResult {
            success: false,
            output: String::new(),
            error: Some(error.to_owned()),
            metadata: StringMap::new(),
        }
    }

    pub fn with_metadata(self, key: &str, value: serde_json::Value) -> (r: ToolExecutionResult)
        requires
            self.metadata.wf(),
        ensures
            r.success == self.success,
            r.output == self.output,
            r.error == self.error,
            r.metadata.wf(),
            r.metadata@ == self.metadata@.insert(key@, value),
    {
        let mut t = self;
        t.metadata.insert(key, value);
        t
    }
}

/// What a capability is to the executor: a name, a description, a declared
/// schema and an invocation. Implementations live with their owners; the
/// registry only ever invokes them.
pub trait ToolHandler {
    fn name(&self) -> String;

    fn description(&self) -> String;

    fn parameters(&self) -> ToolParameters;

    fn execute(&self, arguments: serde_json::Value) -> Result<ToolExecutionResult, AgentError>;
}

/// A registered capability: the handler plus its surface, captured once at
/// registration so the registry's answers are stable.
pub struct Tool {
    name: String,
    description: String,
    parameters: ToolParameters,
    handler: Box<dyn ToolHandler>,
}

impl Tool {
    pub closed spec fn spec_name(&self) -> Seq<char> {
        self.name@
    }

    pub closed spec fn spec_description(&self) -> Seq<char> {
        self.description@
    }

    pub closed spec fn spec_parameters(&self) -> ToolParameters {
        self.parameters
    }

    /// The captured schema's property map always carries distinct keys.
    pub open spec fn wf(&self) -> bool {
        params_wf(self.spec_parameters())
    }

    /// Captures the handler's surface; whatever the handler answered, the
    /// captured schema is rebuilt into a well-formed property map.
    pub fn new(handler: Box<dyn ToolHandler>) -> (r: Tool)
        ensures
            r.wf(),
    {
        let name = handler.name();
        let description = handler.description();
        let declared = handler.parameters();
        let properties = rebuild_properties(&declared.properties);
        let parameters = ToolParameters {
            param_type: declared.param_type,
            properties,
            required: declared.required,
        };
        Tool { name, description, parameters, handler }
    }

    pub fn name(&self) -> (r: &str)
        ensures
            r@ == self.spec_name(),
    {
        self.name.as_str()
    }

    pub fn description(&self) -> (r: &str)
        ensures
            r@ == self.spec_description(),
    {
        self.description.as_str()
    }

    /// A copy of the captured schema.
    pub fn parameters(&self) -> (r: ToolParameters)
        requires
            self.wf(),
        ensures
            params_wf(r),
            r.param_type@ == self.spec_parameters().param_type@,
            forall|k: Seq<char>|
                r.properties@.contains_key(k) <==> self.spec_parameters().properties@.contains_key(
                    k,
                ),
            forall|k: Seq<char>|
                self.spec_parameters().properties@.contains_key(k) ==> prop_eq(
                    #[trigger] r.properties@[k],
                    self.spec_parameters().properties@[k],
                ),
            match (r.required, self.spec_parameters().required) {
                (Some(x), Some(y)) => x.deep_view() == y.deep_view(),
                (None, None) => true,
                _ => false,
            },
    {
        ToolParameters {
            param_type: self.parameters.param_type.clone(),
            properties: rebuild_properties(&self.parameters.properties),
            required: match &self.parameters.required {
                Some(v) => Some(crate::text::clone_strings(v)),
                None => None,
            },
        }
    }

    /// Invokes the capability. Nothing is assumed of the outcome: callers
    /// state what they guarantee for every answer.
    pub fn execute(&self, arguments: serde_json::Value) -> Result<
        ToolExecutionResult,
        AgentError,
    > {
        self.handler.execute(arguments)
    }
}

/// Whether two capability properties write the same content.
pub open spec fn prop_eq(a: Property, b: Property) -> bool {
    &&& a.prop_type@ == b.prop_type@
    &&& crate::message::opt_str_view(a.description) == crate::message::opt_str_view(b.description)
    &&& match (a.enum_values, b.enum_values) {
        (Some(x), Some(y)) => x.deep_view() == y.deep_view(),
        (None, None) => true,
        _ => false,
    }
}

} // verus!
