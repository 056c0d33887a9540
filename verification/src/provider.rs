//! The four-operation contract every target provider implements.

use vstd::prelude::*;

use crate::models::{
    ComponentSpec, ComponentStep, DeploymentSpec, DeploymentStep, ResultMap, ValidationRule,
};

verus! {

/// A target provider: it publishes what it accepts, reads observed state,
/// and reconciles one deployment step at a time.
///
/// The trait itself promises nothing of its methods; each implementation
/// carries its own contract. What every implementation is expected to hold
/// to: `apply` with `is_dry_run` returns an empty map and does nothing, and
/// on success the result map has one entry per distinct component name of
/// the step.
pub trait ITargetProvider {
    /// The validation rule this provider publishes. Immutable over the
    /// provider's lifetime.
    fn get_validation_rule(&self) -> Result<ValidationRule, String>;

    /// Reads observed state for the referenced components.
    fn get(&mut self, deployment: &DeploymentSpec, references: Vec<ComponentStep>) -> Result<
        Vec<ComponentSpec>,
        String,
    >;

    /// Reconciles one deployment step.
    fn apply(
        &mut self,
        deployment: &DeploymentSpec,
        step: DeploymentStep,
        is_dry_run: bool,
    ) -> Result<ResultMap, String>;
}

} // verus!
