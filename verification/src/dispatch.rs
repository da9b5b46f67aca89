//! The choice of a platform for the host, and the plan of a probe.

use vstd::prelude::*;

use crate::model::PingError;
use crate::platform::{platform_arguments, platform_of, Platform};
use crate::text::texts;

verus! {

/// What it takes to start a probe: the platform, whose grammar the
/// output is read in, and the arguments to run `ping` with.
#[derive(Debug)]
pub struct ProbePlan {
    pub platform: Platform,
    pub arguments: Vec<String>,
}

/// Asks `os_info::get` for the host's operating system and hands out the
/// name that `os_info::Type` displays for it.
///
/// The name depends on the machine, so nothing is claimed of it.
#[verifier::external_body]
fn host_os_name() -> (name: String) {
    os_info::get().os_type().to_string()
}

/// Plans a probe of `target` on the operating system called `os_name`.
/// An operating system outside the table is refused, and nothing is
/// planned.
pub fn plan_for(os_name: &str, target: String) -> (r: Result<ProbePlan, PingError>)
    ensures
        match platform_of(os_name@) {
            Some(p) => r matches Ok(plan) && plan.platform == p && texts(plan.arguments@)
                == platform_arguments(p, target@),
            None => r matches Err(PingError::UnsupportedOS(refused)) && refused@ == os_name@,
        },
{
    match Platform::select(os_name) {
        Ok(platform) => Ok(ProbePlan { platform, arguments: platform.ping_args(target) }),
        Err(e) => Err(e),
    }
}

/// Plans a probe of `target` on the host's own operating system, which
/// is asked for once.
///
/// Whatever the host says it is: a plan holds the arguments of its
/// platform for `target`, and a refusal names an operating system that
/// the table does not hold.
pub fn plan(target: String) -> (r: Result<ProbePlan, PingError>)
    ensures
        match r {
            Ok(plan) => texts(plan.arguments@) == platform_arguments(plan.platform, target@),
            Err(PingError::UnsupportedOS(refused)) => platform_of(refused@) is None,
            Err(PingError::HostnameError(_)) => false,
        },
{
    let os_name = host_os_name();
    plan_for(os_name.as_str(), target)
}

} // verus!
