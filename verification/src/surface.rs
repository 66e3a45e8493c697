//! What a person asks the component for.

use crate::signal::{EngineId, PrototypeWitnessQuery};
use vstd::prelude::*;

verus! {

/// What is asked for.
#[derive(Debug, Clone, PartialEq, Eq)]
pub enum Input {
    PrototypeWitness(PrototypeWitness),
}

/// The witness of the prototype of an engine.
#[derive(Debug, Clone, PartialEq, Eq)]
pub struct PrototypeWitness {
    pub engine: String,
}

impl PrototypeWitness {
    /// The question that asks for the witness.
    pub fn into_signal(self) -> (res: PrototypeWitnessQuery)
        ensures
            res.engine@ == self.engine@,
    {
        PrototypeWitnessQuery { engine: EngineId::new(self.engine.as_str()) }
    }
}

/// The engine that an input asks about.
pub open spec fn engine_of(input: Input) -> Seq<char> {
    match input {
        Input::PrototypeWitness(witness) => witness.engine@,
    }
}

} // verus!
