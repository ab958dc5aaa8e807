//! Everything known about one instance of a component when it is started.

use crate::component::Component;
use crate::meta::OwnerReference;
use std::collections::BTreeMap;
use vstd::prelude::*;

verus! {

/// Declares `kube::Client`, the control plane's API client, which the
/// library carries through without looking inside.
#[verifier::external_type_specification]
#[verifier::external_body]
pub struct ExClient(kube::Client);

/// Declares `serde_json::Value`, the type of a parameter value, which the
/// library carries through without looking inside.
#[verifier::external_type_specification]
#[verifier::external_body]
pub struct ExValue(serde_json::Value);

/// Parameters supplied for a workload, by name.
pub type ParamMap = BTreeMap<String, serde_json::Value>;

/// Common data about a workload, which individual workload types embed.
pub struct WorkloadMetadata {
    /// The name of the release.
    pub name: String,
    /// The name of this workload component.
    pub component_name: String,
    /// The unique name of this component's instance; every resource built for
    /// the instance is named after it.
    pub instance_name: String,
    /// The namespace the component is placed in.
    pub namespace: String,
    /// The definition of the component.
    pub definition: Component,
    /// The control plane's API client.
    pub client: kube::Client,
    /// The parameters supplied for this workload.
    pub params: ParamMap,
    /// The objects that own this workload and are responsible for cleaning it up.
    pub owner_ref: Option<Vec<OwnerReference>>,
}

} // verus!
