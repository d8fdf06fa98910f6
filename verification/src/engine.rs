use vstd::prelude::*;

use std::sync::Arc;

use crate::project::ProjectSettings;
use crate::resource::Resource;
use crate::target_selector::CapabilityCatalog;

verus! {

/// The outcome of a calculation as it is stored with a project.
#[derive(Clone, Debug)]
pub struct CalculationRevision {
    pub formula_version: String,
}

/// The calculation over a reviewed capability catalog.
#[derive(Clone)]
pub struct CalculationEngine {
    capabilities: Arc<CapabilityCatalog>,
    formula_version: String,
}

/// What a calculation is asked to price.
pub struct CalculationInput<'a> {
    pub settings: &'a ProjectSettings,
    pub resources: &'a [Resource],
    pub aws_snapshot_id: Option<&'a str>,
    pub azure_snapshot_id: Option<&'a str>,
}

#[derive(Clone, Copy, Debug, PartialEq, Eq, Structural)]
pub enum CalculationError {
    EmptyCapabilityCatalog,
    NotImplemented,
}

impl CalculationError {
    /// The error's message as text.
    pub open spec fn spec_message(&self) -> Seq<char> {
        match self {
            CalculationError::EmptyCapabilityCatalog => "capability catalog must contain at least one candidate"@,
            CalculationError::NotImplemented => "calculation behavior is not implemented in pass 1"@,
        }
    }

    /// The error's message.
    pub fn message(&self) -> (r: &'static str)
        ensures
            r@ == self.spec_message(),
    {
        match self {
            CalculationError::EmptyCapabilityCatalog => "capability catalog must contain at least one candidate",
            CalculationError::NotImplemented => "calculation behavior is not implemented in pass 1",
        }
    }
}

impl CalculationEngine {
    pub closed spec fn spec_formula_version(&self) -> Seq<char> {
        self.formula_version@
    }

    pub closed spec fn spec_candidate_count(&self) -> nat {
        self.capabilities.candidates@.len()
    }

    /// An engine over a catalog that offers at least one candidate.
    pub fn new(capabilities: Arc<CapabilityCatalog>, formula_version: String) -> (r: Result<
        CalculationEngine,
        CalculationError,
    >)
        ensures
            capabilities.candidates@.len() == 0 ==> r == Err::<CalculationEngine, CalculationError>(
                CalculationError::EmptyCapabilityCatalog,
            ),
            capabilities.candidates@.len() > 0 ==> (r matches Ok(engine) && engine.spec_formula_version()
                == formula_version@ && engine.spec_candidate_count() == capabilities.candidates@.len()),
    {
        if capabilities.candidates.len() == 0 {
            return Err(CalculationError::EmptyCapabilityCatalog);
        }
        Ok(CalculationEngine { capabilities, formula_version })
    }

    /// The calculation of this engine generation, which computes no revision.
    pub fn calculate(&self, _input: CalculationInput<'_>) -> (r: Result<CalculationRevision, CalculationError>)
        ensures
            r == Err::<CalculationRevision, CalculationError>(CalculationError::NotImplemented),
    {
        Err(CalculationError::NotImplemented)
    }
}

} // verus!
