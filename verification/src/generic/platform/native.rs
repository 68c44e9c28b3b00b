//! The native platform.

use vstd::prelude::*;

use crate::connection::BuildPlan;
use crate::generic::platform::Platform;
use crate::generic::Configuration;
use crate::generic::DataChannelConfig;
use crate::generic::PeerConnectionBuilder;
use crate::generic::PeerConnectionBuilderError;

verus! {

/// Native platform marker.
#[derive(Debug)]
pub struct Native {}

impl Platform for Native {

}

impl PeerConnectionBuilder<Native> {
    /// How the peer connection is built. Refused where the settings exclude each other.
    pub fn build(&self) -> (plan: Result<
        BuildPlan<'_, Configuration, DataChannelConfig>,
        PeerConnectionBuilderError<webrtc::Error>,
    >)
        ensures
            if self@.is_conflicting() {
                plan matches Err(PeerConnectionBuilderError::ConflictingBuildOptions)
            } else {
                &&& plan is Ok
                &&& crate::connection::plans(
                    plan->Ok_0,
                    self@.config,
                    self@.remote_offer,
                    self@.channel_options,
                )
            },
    {
        match self.plan() {
            Some(plan) => Ok(plan),
            None => Err(PeerConnectionBuilderError::ConflictingBuildOptions),
        }
    }
}

} // verus!
