//! The capability registry: a name-keyed map of registered capabilities.
//!
//! Registration is idempotent on the name (a re-registration overwrites);
//! execution by an unregistered name always fails with `ToolNotFound`.

use vstd::prelude::*;
use crate::errors::{AgentError, AgentResult};
use crate::models::ToolDefinition;
use crate::schema::ToolInputSchema;
use crate::strmap::StringMap;
use crate::tool::{prop_like, Tool, ToolExecutionResult};

verus! {

pub struct ToolRegistry {
    tools: StringMap<Tool>,
}

/// Whether a provider definition writes the surface of a registered
/// capability: the `function` kind, the capability's name and description,
/// and a parameter schema with the same properties.
pub open spec fn definition_of(d: ToolDefinition, t: Tool) -> bool {
    &&& d.tool_type@ == "function"@
    &&& d.function.name@ == t.spec_name()
    &&& crate::message::opt_str_view(d.function.description) == Some(t.spec_description())
    &&& d.function.parameters.schema_type@ == t.spec_parameters().param_type@
    &&& d.function.parameters.properties.wf()
    &&& forall|k: Seq<char>|
        d.function.parameters.properties@.contains_key(k)
            <==> t.spec_parameters().properties@.contains_key(k)
    &&& forall|k: Seq<char>|
        t.spec_parameters().properties@.contains_key(k) ==> prop_like(
            #[trigger] d.function.parameters.properties@[k],
            t.spec_parameters().properties@[k],
        )
}

impl ToolRegistry {
    /// Keys are distinct; every stored capability is keyed by its own name
    /// and carries a well-formed schema.
    pub closed spec fn wf(&self) -> bool {
        &&& self.tools.wf()
        &&& forall|k: Seq<char>|
            self.tools@.contains_key(k) ==> (#[trigger] self.tools@[k]).wf()
                && self.tools@[k].spec_name() == k
    }

    pub closed spec fn view(&self) -> Map<Seq<char>, Tool> {
        self.tools@
    }

    /// The registered capabilities, in registration order.
    pub closed spec fn entries(&self) -> Seq<(String, Tool)> {
        self.tools.entries_seq()
    }

    pub fn new() -> (r: ToolRegistry)
        ensures
            r.wf(),
            r@ == Map::<Seq<char>, Tool>::empty(),
    {
        ToolRegistry { tools: StringMap::new() }
    }

    /// Registers a capability under its own name, replacing any previous
    /// one of that name.
    pub fn register(&mut self, tool: Tool) -> (r: AgentResult<()>)
        requires
            old(self).wf(),
            tool.wf(),
        ensures
            final(self).wf(),
            r is Ok,
            final(self)@ == old(self)@.insert(tool.spec_name(), tool),
    {
        let name = tool.name().to_owned();
        self.tools.insert(name.as_str(), tool);
        Ok(())
    }

    /// Removes the capability of that name; fails with `ToolNotFound` when
    /// none is registered.
    pub fn unregister(&mut self, name: &str) -> (r: AgentResult<()>)
        requires
            old(self).wf(),
        ensures
            final(self).wf(),
            r is Ok <==> old(self)@.contains_key(name@),
            final(self)@ == old(self)@.remove(name@),
            r matches Err(e) ==> e matches AgentError::ToolNotFound(s) && s@ == name@
                && final(self)@ == old(self)@,
    {
        if self.tools.remove(name) {
            Ok(())
        } else {
            proof {
                assert(self@ =~= old(self)@.remove(name@));
            }
            Err(AgentError::ToolNotFound(name.to_owned()))
        }
    }

    pub fn get(&self, name: &str) -> (r: Option<&Tool>)
        requires
            self.wf(),
        ensures
            match r {
                Some(t) => self@.contains_key(name@) && *t == self@[name@] && t.wf(),
                None => !self@.contains_key(name@),
            },
    {
        self.tools.get(name)
    }

    /// The names of every registered capability, in registration order.
    pub fn list(&self) -> (r: Vec<String>)
        requires
            self.wf(),
        ensures
            r@.len() == self@.dom().len(),
            forall|i: int| 0 <= i < r@.len() ==> self@.contains_key(#[trigger] r@[i]@),
    {
        let r = self.tools.keys();
        proof {
            self.tools.lemma_view_entries();
            crate::strmap::lemma_map_of_len(self.tools.entries_seq());
        }
        r
    }

    /// The provider-protocol description of every registered capability,
    /// in registration order.
    pub fn get_tool_definitions(&self) -> (r: Vec<ToolDefinition>)
        requires
            self.wf(),
        ensures
            r@.len() == self.entries().len(),
            r@.len() == self@.dom().len(),
            forall|i: int|
                0 <= i < r@.len() ==> definition_of(#[trigger] r@[i], self.entries()[i].1),
            forall|i: int|
                0 <= i < r@.len() ==> self@.contains_key(#[trigger] r@[i].function.name@),
    {
        let n = self.tools.entry_count();
        let mut r: Vec<ToolDefinition> = Vec::new();
        let mut i: usize = 0;
        while i < n
            invariant
                self.wf(),
                n == self.entries().len(),
                i <= n,
                r@.len() == i,
                forall|j: int|
                    0 <= j < i ==> definition_of(#[trigger] r@[j], self.entries()[j].1),
            decreases n - i,
        {
            let t = self.tools.value_at(i);
            proof {
                self.tools.lemma_view_entries();
                crate::strmap::lemma_map_of_index(self.tools.entries_seq(), i as int);
                assert(self.tools@[self.tools.entries_seq()[i as int].0@]
                    == self.tools.entries_seq()[i as int].1);
                assert((*t).wf());
            }
            let params = t.parameters();
            let props = crate::tool::to_schema_properties(&params.properties);
            let schema = ToolInputSchema {
                schema_type: params.param_type,
                properties: props,
                required: params.required,
                additional_properties: Some(false),
            };
            let def = ToolDefinition {
                tool_type: String::from_str("function"),
                function: crate::models::FunctionDefinition {
                    name: t.name().to_owned(),
                    description: Some(t.description().to_owned()),
                    parameters: schema,
                },
            };
            proof {
                let cached = self.entries()[i as int].1.spec_parameters().properties;
                assert forall|k: Seq<char>| cached@.contains_key(k) implies prop_like(
                    #[trigger] def.function.parameters.properties@[k],
                    cached@[k],
                ) by {
                    assert(params.properties@.contains_key(k));
                    assert(crate::tool::prop_eq(params.properties@[k], cached@[k]));
                    assert(prop_like(def.function.parameters.properties@[k], params.properties@[k]));
                }
                assert(definition_of(def, self.entries()[i as int].1));
            }
            r.push(def);
            i += 1;
        }
        proof {
            self.tools.lemma_view_entries();
            crate::strmap::lemma_map_of_len(self.tools.entries_seq());
            assert forall|j: int| 0 <= j < r@.len() implies self@.contains_key(
                #[trigger] r@[j].function.name@,
            ) by {
                crate::strmap::lemma_map_of_index(self.tools.entries_seq(), j);
                assert(r@[j].function.name@ == self.entries()[j].1.spec_name());
                assert(self.entries()[j].1.spec_name() == self.entries()[j].0@);
            }
        }
        r
    }

    /// Looks the capability up and invokes it. A name that is not
    /// registered always answers `ToolNotFound`; a registered capability
    /// answers whatever it reports, and the caller decides what that
    /// means.
    pub fn execute(&self, name: &str, arguments: serde_json::Value) -> (r: Result<
        ToolExecutionResult,
        AgentError,
    >)
        requires
            self.wf(),
        ensures
            !self@.contains_key(name@) ==> (r matches Err(e) && (e matches
            AgentError::ToolNotFound(s) && s@ == name@)),
    {
        match self.tools.get(name) {
            Some(tool) => tool.execute(arguments),
            None => Err(AgentError::ToolNotFound(name.to_owned())),
        }
    }

    /// Drops every capability.
    pub fn clear(&mut self)
        ensures
            final(self).wf(),
            final(self)@ == Map::<Seq<char>, Tool>::empty(),
    {
        self.tools.clear();
    }

    /// How many capabilities are registered.
    pub fn count(&self) -> (r: usize)
        requires
            self.wf(),
        ensures
            r == self@.dom().len(),
    {
        self.tools.len()
    }

    pub fn contains(&self, name: &str) -> (r: bool)
        ensures
            r == self@.contains_key(name@),
    {
        self.tools.contains_key(name)
    }
}

impl Default for ToolRegistry {
    fn default() -> (r: ToolRegistry)
        ensures
            r.wf(),
            r@ == Map::<Seq<char>, Tool>::empty(),
    {
        ToolRegistry::new()
    }
}

} // verus!
