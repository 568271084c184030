//! The capability model: named, typed control and state surfaces of a device,
//! addressed by their instance name.

use vstd::prelude::*;
use vstd::string::StringExecFns;

use crate::model::optional_model;
use crate::value::{Value, ValueModel};

verus! {

/// A capability that a device declares.
#[derive(Debug, PartialEq, Eq)]
pub struct GoveeCapability {
    pub capability_type: String,
    pub instance: String,
    pub parameters: Option<Value>,
}

/// What a [`GoveeCapability`] stands for.
pub struct CapabilityModel {
    pub kind: Seq<char>,
    pub instance: Seq<char>,
    pub parameters: Option<ValueModel>,
}

impl View for GoveeCapability {
    type V = CapabilityModel;

    open spec fn view(&self) -> CapabilityModel {
        CapabilityModel {
            kind: self.capability_type@,
            instance: self.instance@,
            parameters: optional_model(self.parameters),
        }
    }
}

/// The live value of one capability, as a state query reports it.
#[derive(Debug, PartialEq, Eq)]
pub struct CapabilityState {
    pub capability_type: String,
    pub instance: String,
    pub value: Value,
}

/// What a [`CapabilityState`] stands for.
pub struct StateModel {
    pub kind: Seq<char>,
    pub instance: Seq<char>,
    pub value: ValueModel,
}

impl View for CapabilityState {
    type V = StateModel;

    open spec fn view(&self) -> StateModel {
        StateModel { kind: self.capability_type@, instance: self.instance@, value: self.value@ }
    }
}

/// Anything that is addressed by an instance name within its device.
pub trait Instanced {
    /// The instance name.
    spec fn instance_name(&self) -> Seq<char>;

    /// The instance name.
    fn instance(&self) -> (name: &String)
        ensures
            name@ == self.instance_name(),
    ;
}

impl Instanced for GoveeCapability {
    open spec fn instance_name(&self) -> Seq<char> {
        self.instance@
    }

    fn instance(&self) -> (name: &String) {
        &self.instance
    }
}

impl Instanced for CapabilityState {
    open spec fn instance_name(&self) -> Seq<char> {
        self.instance@
    }

    fn instance(&self) -> (name: &String) {
        &self.instance
    }
}

/// The instance names of the items of a sequence, in order.
pub open spec fn instance_names<C: Instanced>(items: Seq<C>) -> Seq<Seq<char>> {
    Seq::new(items.len(), |i: int| items[i].instance_name())
}

/// The position of the first of `names` that equals `instance`, if there is
/// one.
pub open spec fn first_named(names: Seq<Seq<char>>, instance: Seq<char>) -> Option<int>
    decreases names.len(),
{
    if names.len() == 0 {
        None
    } else if names[0] == instance {
        Some(0)
    } else {
        match first_named(names.skip(1), instance) {
            Some(i) => Some(i + 1),
            None => None,
        }
    }
}

/// What [`first_named`] finds is in range, equals the name, and is preceded
/// by no equal name; it finds nothing only where no name is equal.
pub proof fn lemma_first_named(names: Seq<Seq<char>>, instance: Seq<char>)
    ensures
        match first_named(names, instance) {
            Some(i) => {
                &&& 0 <= i < names.len()
                &&& names[i] == instance
                &&& forall|j: int| 0 <= j < i ==> names[j] != instance
            },
            None => forall|j: int| 0 <= j < names.len() ==> names[j] != instance,
        },
    decreases names.len(),
{
    if names.len() != 0 && names[0] != instance {
        let rest = names.skip(1);
        lemma_first_named(rest, instance);
        match first_named(rest, instance) {
            Some(i) => {
                assert forall|j: int| 0 <= j < i + 1 implies names[j] != instance by {
                    if j > 0 {
                        assert(names[j] == rest[j - 1]);
                    }
                }
            },
            None => {
                assert forall|j: int| 0 <= j < names.len() implies names[j] != instance by {
                    if j > 0 {
                        assert(names[j] == rest[j - 1]);
                    }
                }
            },
        }
    }
}

/// Looks a capability up by its instance name: the position of the first item
/// that carries the name, or nothing where none does.
pub fn find_by_instance<C: Instanced>(items: &Vec<C>, instance: &str) -> (found: Option<usize>)
    ensures
        match found {
            Some(i) => first_named(instance_names(items@), instance@) == Some(i as int),
            None => first_named(instance_names(items@), instance@) is None,
        },
{
    let wanted = String::from_str(instance);
    let ghost names = instance_names(items@);
    let mut i: usize = 0;
    assert(names.skip(0) == names);
    while i < items.len()
        invariant
            i <= items.len(),
            wanted@ == instance@,
            names == instance_names(items@),
            first_named(names, instance@) == match first_named(names.skip(i as int), instance@) {
                Some(k) => Some(k + i),
                None => None,
            },
        decreases items.len() - i,
    {
        let ghost rest = names.skip(i as int);
        assert(rest[0] == items@[i as int].instance_name());
        assert(rest.skip(1) == names.skip(i + 1));
        if *items[i].instance() == wanted {
            return Some(i);
        }
        i = i + 1;
    }
    assert(names.skip(i as int).len() == 0);
    None
}

} // verus!
