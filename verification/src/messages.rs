//! Requests and responses of the remote execution service that the client reads
//! or fills in.
use vstd::prelude::*;
use vstd::string::*;

use crate::digest::Digest;

verus! {

/// How a request is scheduled.
#[derive(Clone, Copy, Debug, PartialEq, Eq, Structural)]
pub struct ExecutionPolicy {
    pub priority: i32,
}

/// How long a result is kept.
#[derive(Clone, Copy, Debug, PartialEq, Eq, Structural)]
pub struct ResultsCachePolicy {
    pub priority: i32,
}

/// Asks the service to run an action.
#[derive(Debug)]
pub struct GExecuteRequest {
    pub instance_name: String,
    pub skip_cache_lookup: bool,
    pub execution_policy: Option<ExecutionPolicy>,
    pub results_cache_policy: Option<ResultsCachePolicy>,
    pub action_digest: Option<Digest>,
}

impl Clone for GExecuteRequest {
    fn clone(&self) -> (res: Self)
        ensures
            res == *self,
    {
        GExecuteRequest {
            instance_name: self.instance_name.clone(),
            skip_cache_lookup: self.skip_cache_lookup,
            execution_policy: self.execution_policy,
            results_cache_policy: self.results_cache_policy,
            action_digest: match &self.action_digest {
                Some(digest) => Some(digest.clone()),
                None => None,
            },
        }
    }
}

/// A property that a worker must have.
#[derive(Debug)]
pub struct Property {
    pub name: String,
    pub value: String,
}

/// What a property says: its name and its value.
pub type PropertyValue = (Seq<char>, Seq<char>);

impl View for Property {
    type V = PropertyValue;

    open spec fn view(&self) -> PropertyValue {
        (self.name@, self.value@)
    }
}

impl Clone for Property {
    fn clone(&self) -> (res: Self)
        ensures
            res == *self,
    {
        Property { name: self.name.clone(), value: self.value.clone() }
    }
}

/// The properties that a worker must have.
#[derive(Debug)]
pub struct Platform {
    pub properties: Vec<Property>,
}

/// What the properties of a platform say, in order.
pub open spec fn property_values(properties: Seq<Property>) -> Seq<PropertyValue> {
    properties.map_values(|property: Property| property@)
}

impl View for Platform {
    type V = Seq<PropertyValue>;

    open spec fn view(&self) -> Seq<PropertyValue> {
        property_values(self.properties@)
    }
}

impl Clone for Platform {
    fn clone(&self) -> (res: Self)
        ensures
            res.properties@ == self.properties@,
            res@ == self@,
    {
        let mut properties: Vec<Property> = Vec::new();
        let mut i: usize = 0;
        while i < self.properties.len()
            invariant
                i <= self.properties@.len(),
                properties@ == self.properties@.take(i as int),
            decreases self.properties@.len() - i,
        {
            properties.push(self.properties[i].clone());
            assert(properties@ =~= self.properties@.take(i + 1));
            i = i + 1;
        }
        assert(properties@ =~= self.properties@);
        Platform { properties }
    }
}

} // verus!
