//! The build pipeline's computational core: from a loaded specification to
//! the complete, deterministic plan of one build — manifest, descriptor
//! text, staging steps, package address and image tag. The surrounding
//! application loads the specification, executes the plan's steps, and
//! invokes the build backend.

use vstd::prelude::*;
use crate::backend::image_tag;
use crate::container::ContainerSpec;
use crate::dockerfile::{dockerfile_text, generate_dockerfile};
use crate::errors::SpecValidationError;
use crate::package::{all_actions_have_output, generate_package_info, manifest_model, PackageInfo};
use crate::staging::{
    opt_str_model, package_address, staging_plan, staging_steps, steps_model, StagingStep,
};

verus! {

/// Everything one build derives before any file is touched: the manifest,
/// the descriptor text, the ordered staging steps, the staging directory's
/// address and the image tag.
#[derive(Debug)]
pub struct BuildPlan {
    pub package_info: PackageInfo,
    pub dockerfile: String,
    pub steps: Vec<StagingStep>,
    pub package_dir: String,
    pub tag: String,
}

/// Derives the whole build plan for a specification.
///
/// Succeeds exactly when every action declares at least one output. The plan
/// then holds the manifest of [`manifest_model`], the descriptor of
/// [`dockerfile_text`] (with the custom init chosen exactly when a custom
/// init path was supplied), the staging steps of [`staging_plan`], the
/// package address `<store_root>/<name>/<version>`, and the image tag
/// `<name>:<version>`. Otherwise reports the first action, in declared
/// order, that has no output.
pub fn plan_build(
    ecu_document: &ContainerSpec,
    init_path: &Option<String>,
    init_url: &str,
    store_root: &str,
) -> (r: Result<BuildPlan, SpecValidationError>)
    ensures
        r is Ok <==> all_actions_have_output(ecu_document@.actions),
        r matches Ok(plan) ==> {
            &&& plan.package_info@ == manifest_model(ecu_document@)
            &&& plan.dockerfile@ == dockerfile_text(ecu_document@, *init_path is Some, init_url@)
            &&& steps_model(plan.steps@) == staging_plan(
                ecu_document@.files,
                opt_str_model(*init_path),
            )
            &&& plan.package_dir@ == store_root@ + "/"@ + ecu_document@.name + "/"@
                + ecu_document@.version
            &&& plan.tag@ == ecu_document@.name + ":"@ + ecu_document@.version
        },
        r matches Err(e) ==> exists|i: int|
            {
                &&& 0 <= i < ecu_document@.actions.len()
                &&& (#[trigger] ecu_document@.actions[i]).1.output.len() == 0
                &&& e.action@ == ecu_document@.actions[i].0
                &&& forall|j: int|
                    0 <= j < i ==> #[trigger] ecu_document@.actions[j].1.output.len() > 0
            },
{
    let package_info = match generate_package_info(ecu_document) {
        Ok(info) => info,
        Err(e) => {
            return Err(e);
        },
    };
    let dockerfile = generate_dockerfile(ecu_document, init_path.is_some(), init_url);
    let steps = staging_steps(ecu_document, init_path);
    let package_dir = package_address(
        store_root,
        package_info.name.as_str(),
        package_info.version.as_str(),
    );
    let tag = image_tag(ecu_document.name.as_str(), ecu_document.version.as_str());
    Ok(BuildPlan { package_info, dockerfile, steps, package_dir, tag })
}

} // verus!
