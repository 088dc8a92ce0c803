//! Plain request and response payloads for the cluster actions that sit
//! behind the gateway.

use vstd::prelude::*;

verus! {

/// A human-readable confirmation of a completed action.
pub struct SuccessResponse {
    pub status: String,
}

/// Names the pod whose isolation label is to be removed.
pub struct UnisolatePodPayload {
    pub namespace: String,
    pub pod_name: String,
}

/// One pod's name, phase and age as listed to the caller.
pub struct PodInfo {
    pub name: String,
    pub status: String,
    pub age: String,
}

/// Names the namespace whose pods are to be listed.
pub struct GetPodQuery {
    pub namespace: String,
}

/// Names the deployment to restart.
pub struct RestartServicePayload {
    pub namespace: String,
    pub service_deployment: String,
}

/// Names the deployment, container and image version to roll out.
pub struct DeployServicePayload {
    pub namespace: String,
    pub service_deployment: String,
    pub container_name: String,
    pub version: String,
}

} // verus!
