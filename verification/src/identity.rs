//! Who makes a tool call. The default is `Human`.

use vstd::prelude::*;
use vstd::std_specs::cmp::PartialEqSpec;

verus! {

/// The caller of a tool.
#[derive(Debug, Clone, Eq)]
#[non_exhaustive]
pub enum Identity {
    Human,
    Agent { name: String },
    System,
}

impl PartialEq for Identity {
    fn eq(&self, other: &Identity) -> (r: bool) {
        match self {
            Identity::Human => match other {
                Identity::Human => true,
                _ => false,
            },
            Identity::Agent { name: a } => match other {
                Identity::Agent { name: b } => *a == *b,
                _ => false,
            },
            Identity::System => match other {
                Identity::System => true,
                _ => false,
            },
        }
    }
}

impl vstd::std_specs::cmp::PartialEqSpecImpl for Identity {
    open spec fn obeys_eq_spec() -> bool {
        true
    }

    open spec fn eq_spec(&self, other: &Identity) -> bool {
        match (self, other) {
            (Identity::Human, Identity::Human) => true,
            (Identity::Agent { name: a }, Identity::Agent { name: b }) => a@ == b@,
            (Identity::System, Identity::System) => true,
            _ => false,
        }
    }
}

impl Default for Identity {
    fn default() -> (i: Identity)
        ensures
            i == Identity::Human,
    {
        Identity::Human
    }
}

/// Equality of identities is structural: it is an equivalence, identities of
/// different variants are never equal, two `Human`s or two `System`s are
/// equal, and two agents are equal exactly when their names are.
pub proof fn lemma_eq_is_structural(a: Identity, b: Identity, c: Identity)
    ensures
        a.eq_spec(&a),
        a.eq_spec(&b) <==> b.eq_spec(&a),
        a.eq_spec(&b) && b.eq_spec(&c) ==> a.eq_spec(&c),
        a.eq_spec(&b) ==> (a is Human <==> b is Human) && (a is Agent <==> b is Agent) && (
        a is System <==> b is System),
        (a is Human && b is Human) ==> a.eq_spec(&b),
        (a is System && b is System) ==> a.eq_spec(&b),
        (a is Agent && b is Agent) ==> (a.eq_spec(&b) <==> a->name@ == b->name@),
{
}

} // verus!
