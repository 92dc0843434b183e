pub mod bindings;
pub mod config;
pub mod directive;
pub mod job;
pub mod laws;
pub mod source_set;
pub mod system;
pub mod strutil;
pub mod vendor;
mod expand;

use vstd::prelude::*;
use crate::bindings::{BindingPlan, binding_plan, binding_plan_model};
use crate::config::BuildConfig;
use crate::directive::{Directive, DirectiveModel, BuildError, ErrorModel};
use crate::job::{CompileJob, JobModel};
use crate::system::{SystemInputs, link_dependencies, link_dependencies_model};
use crate::vendor::{VendorInputs, admissible_expansion, vendor_dependencies, vendor_model};

verus! {

/// Everything one build invocation must do: the compilation jobs to run (in
/// vendor mode), the directives to hand the enclosing build tool, and the
/// binding-generation configuration that runs after either path.
pub struct BuildPlan {
    pub jobs: Vec<CompileJob>,
    pub directives: Vec<Directive>,
    pub bindings: BindingPlan,
}

/// The mode selector: exactly one of the two orchestration paths runs, and
/// binding generation follows it unconditionally. In system mode nothing at
/// all is compiled: the plan's job list is empty.
pub fn orchestrate(
    cfg: &BuildConfig,
    vin: &VendorInputs,
    sys: &SystemInputs,
    header_override: &Option<String>,
) -> (r: Result<BuildPlan, BuildError>)
    ensures
        ({
            let over = match header_override {
                Some(d) => Some(d@),
                None => None,
            };
            &&& !cfg.vendor ==> match r {
                Ok(p) => {
                    &&& link_dependencies_model(*cfg, sys@) == Ok::<_, ErrorModel>(
                        p.directives.deep_view(),
                    )
                    &&& p.jobs.deep_view() == Seq::<JobModel>::empty()
                    &&& p.bindings@ == binding_plan_model(over)
                },
                Err(e) => link_dependencies_model(*cfg, sys@) == Err::<Seq<DirectiveModel>, _>(e@),
            }
            &&& cfg.vendor ==> match r {
                Ok(p) => {
                    &&& (exists|
                        zl: Result<Seq<Seq<char>>, ErrorModel>,
                        zs: Result<Seq<Seq<char>>, ErrorModel>,
                    |
                        #[trigger] vendor_model(*cfg, vin@, zl, zs) == Ok::<_, ErrorModel>(
                            (p.jobs.deep_view(), p.directives.deep_view()),
                        ) && admissible_expansion(zl) && admissible_expansion(zs))
                    &&& p.bindings@ == binding_plan_model(over)
                },
                Err(e) => exists|
                    zl: Result<Seq<Seq<char>>, ErrorModel>,
                    zs: Result<Seq<Seq<char>>, ErrorModel>,
                |
                    #[trigger] vendor_model(*cfg, vin@, zl, zs) == Err::<
                        (Seq<JobModel>, Seq<DirectiveModel>),
                        _,
                    >(e@) && admissible_expansion(zl) && admissible_expansion(zs),
            }
        }),
{
    let bindings = binding_plan(header_override);
    if cfg.vendor {
        match vendor_dependencies(cfg, vin) {
            Ok(jd) => {
                let (jobs, directives) = jd;
                Ok(BuildPlan { jobs, directives, bindings })
            },
            Err(e) => Err(e),
        }
    } else {
        match link_dependencies(cfg, sys) {
            Ok(directives) => {
                let jobs: Vec<CompileJob> = Vec::new();
                proof {
                    assert(jobs.deep_view() =~= Seq::<JobModel>::empty());
                }
                Ok(BuildPlan { jobs, directives, bindings })
            },
            Err(e) => Err(e),
        }
    }
}

} // verus!
