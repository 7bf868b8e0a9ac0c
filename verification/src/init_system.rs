//! The project initialization orchestrator: turns a validated blueprint
//! into its files. The conversational extraction runs in the embedding
//! application, which hands responses to [`crate::pipeline::InitPipeline`].

use vstd::prelude::*;

use crate::config::Config;
use crate::fragments::{ProjectBlueprint, SbpFiles};
use crate::sbp_assembler::{
    constraints_sbp_spec, domain_sbp_spec, examples_sbp_spec, flow_sbp_spec, SbpAssembler,
};

verus! {

/// The initialization system: holds the configuration the extraction
/// steps run under.
#[derive(Debug, Clone)]
pub struct InitSystem {
    pub config: Config,
}

impl InitSystem {
    pub fn new(config: Config) -> (r: InitSystem)
        ensures
            r.config == config,
    {
        InitSystem { config }
    }

    /// Generate the blueprint files from a blueprint, rejecting an invalid
    /// one with its first validation failure.
    pub fn generate_sbp_files(&self, blueprint: &ProjectBlueprint) -> (r: Result<SbpFiles, String>)
        ensures
            r matches Err(m) ==> blueprint.validate_spec() matches Err(e) && m@
                == "Invalid blueprint: "@ + e,
            r matches Ok(files) ==> {
                &&& blueprint.validate_spec() is Ok
                &&& files.domain_sbp@ == domain_sbp_spec(
                    blueprint.domain.primary@,
                    blueprint.domain.secondary_concerns@.map_values(|c: String| c@),
                    blueprint.domain.scale_category@,
                    blueprint.domain.data_sensitivity@,
                )
                &&& files.flow_sbp@ == flow_sbp_spec(
                    blueprint.flow.actions@.map_values(|a: String| a@),
                )
                &&& files.constraints_sbp@ == constraints_sbp_spec(
                    blueprint.constraints.entries_view(),
                )
                &&& files.examples_sbp@ == examples_sbp_spec(blueprint.examples.scenarios_view())
            },
    {
        let assembler = SbpAssembler::new();
        assembler.assemble(blueprint)
    }
}

} // verus!
