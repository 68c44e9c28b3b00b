//! The browser as a platform.

use vstd::prelude::*;

use crate::connection::BuildPlan;
use crate::generic::platform::Platform;
use crate::generic::Configuration;
use crate::generic::DataChannelConfig;
use crate::generic::PeerConnectionBuilder;
use crate::types::ICECandidate;

verus! {

/// Web platform marker.
#[derive(Debug)]
pub struct Web {}

impl Platform for Web {

}

/// What is to be sent on when a candidate was gathered, or the gathering has finished: nothing,
/// where it has finished or the candidate cannot be read.
pub fn handle_ice_candidate<E>(candidate: Option<Result<ICECandidate, E>>) -> (message: Option<
    ICECandidate,
>)
    ensures
        message == match candidate {
            Some(Ok(candidate)) => Some(candidate),
            _ => None,
        },
{
    match candidate {
        Some(Ok(candidate)) => Some(candidate),
        Some(Err(_error)) => None,
        None => None,
    }
}

impl PeerConnectionBuilder<Web> {
    /// How the peer connection is built. Refused, with a reason, where the settings exclude each
    /// other.
    pub fn build(&self) -> (plan: Result<BuildPlan<'_, Configuration, DataChannelConfig>, String>)
        ensures
            if self@.is_conflicting() {
                &&& plan is Err
                &&& plan->Err_0@ == "remote offer is mutually exclusive with channel settings"@
            } else {
                &&& plan is Ok
                &&& crate::connection::plans(
                    plan->Ok_0,
                    self@.config,
                    self@.remote_offer,
                    self@.channel_options,
                )
            },
    {
        match self.plan() {
            Some(plan) => Ok(plan),
            None => Err("remote offer is mutually exclusive with channel settings".to_owned()),
        }
    }
}

} // verus!
