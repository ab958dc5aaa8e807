//! The batch Job built for one instance of a component.

use crate::component::{Component, ComponentView, PodSpec, PodSpecView};
use crate::meta::{owners_view, Labels, ObjectMeta, ObjectMetaView, OwnerReference};
use std::collections::BTreeMap;
use vstd::prelude::*;

verus! {

/// How many times the control plane retries a Job before marking it failed.
pub const BACKOFF_LIMIT: i32 = 4;

/// Identity and pod specification of the pods a Job starts.
#[derive(Clone, Debug, PartialEq, Eq)]
pub struct PodTemplateSpec {
    pub metadata: ObjectMeta,
    pub spec: PodSpec,
}

/// Retry budget, parallelism and pod template of a Job.
#[derive(Clone, Debug, PartialEq, Eq)]
pub struct JobSpec {
    pub backoff_limit: Option<i32>,
    pub parallelism: Option<i32>,
    pub template: PodTemplateSpec,
}

/// A batch execution resource.
#[derive(Clone, Debug, PartialEq, Eq)]
pub struct Job {
    pub metadata: ObjectMeta,
    pub spec: JobSpec,
}

/// The mathematical content of a [`PodTemplateSpec`].
pub ghost struct PodTemplateSpecView {
    pub metadata: ObjectMetaView,
    pub spec: PodSpecView,
}

/// The mathematical content of a [`JobSpec`].
pub ghost struct JobSpecView {
    pub backoff_limit: Option<i32>,
    pub parallelism: Option<i32>,
    pub template: PodTemplateSpecView,
}

/// The mathematical content of a [`Job`].
pub ghost struct JobView {
    pub metadata: ObjectMetaView,
    pub spec: JobSpecView,
}

impl View for PodTemplateSpec {
    type V = PodTemplateSpecView;

    open spec fn view(&self) -> PodTemplateSpecView {
        PodTemplateSpecView { metadata: self.metadata@, spec: self.spec@ }
    }
}

impl View for JobSpec {
    type V = JobSpecView;

    open spec fn view(&self) -> JobSpecView {
        JobSpecView {
            backoff_limit: self.backoff_limit,
            parallelism: self.parallelism,
            template: self.template@,
        }
    }
}

impl View for Job {
    type V = JobView;

    open spec fn view(&self) -> JobView {
        JobView { metadata: self.metadata@, spec: self.spec@ }
    }
}

/// Collects the settings of a Job and turns them into one.
#[derive(Clone, Debug)]
pub struct JobBuilder {
    component: Component,
    labels: Labels,
    name: String,
    restart_policy: String,
    owner_ref: Option<Vec<OwnerReference>>,
    parallelism: Option<i32>,
}

/// The mathematical content of a [`JobBuilder`].
pub ghost struct JobBuilderView {
    pub component: ComponentView,
    pub labels: Map<String, String>,
    pub name: Seq<char>,
    pub restart_policy: Seq<char>,
    pub owner_ref: Option<Seq<OwnerReference>>,
    pub parallelism: Option<i32>,
}

impl View for JobBuilder {
    type V = JobBuilderView;

    closed spec fn view(&self) -> JobBuilderView {
        JobBuilderView {
            component: self.component@,
            labels: self.labels@,
            name: self.name@,
            restart_policy: self.restart_policy@,
            owner_ref: owners_view(self.owner_ref),
            parallelism: self.parallelism,
        }
    }
}

impl JobBuilderView {
    /// The metadata that both the Job and its pod template carry.
    pub open spec fn metadata(self) -> ObjectMetaView {
        ObjectMetaView { name: self.name, labels: self.labels, owner_references: self.owner_ref }
    }

    /// The Job that these settings describe.
    pub open spec fn job(self) -> JobView {
        JobView {
            metadata: self.metadata(),
            spec: JobSpecView {
                backoff_limit: Some(BACKOFF_LIMIT),
                parallelism: self.parallelism,
                template: PodTemplateSpecView {
                    metadata: self.metadata(),
                    spec: self.component.pod_spec(self.restart_policy),
                },
            },
        }
    }
}

/// The restart policy of a new builder: pods are never restarted.
pub open spec fn default_restart_policy() -> Seq<char> {
    seq!['N', 'e', 'v', 'e', 'r']
}

impl JobBuilder {
    /// A builder for the Job named `instance_name` that runs `component`,
    /// with no labels, no owners, the default parallelism and pods that are
    /// never restarted.
    pub fn new(instance_name: String, component: Component) -> (r: Self)
        ensures
            r@ == (JobBuilderView {
                component: component@,
                labels: Map::empty(),
                name: instance_name@,
                restart_policy: default_restart_policy(),
                owner_ref: None,
                parallelism: None,
            }),
    {
        let policy = String::from_str("Never");
        proof {
            reveal_strlit("Never");
        }
        assert(policy@ =~= default_restart_policy());
        JobBuilder {
            name: instance_name,
            component,
            labels: BTreeMap::new(),
            restart_policy: policy,
            owner_ref: None,
            parallelism: None,
        }
    }

    /// Replaces the labels.
    pub fn labels(self, labels: Labels) -> (r: Self)
        ensures
            r@ == (JobBuilderView { labels: labels@, ..self@ }),
    {
        JobBuilder { labels, ..self }
    }

    /// Sets the restart policy of the pods. The value is passed on unchecked.
    pub fn restart_policy(self, policy: String) -> (r: Self)
        ensures
            r@ == (JobBuilderView { restart_policy: policy@, ..self@ }),
    {
        JobBuilder { restart_policy: policy, ..self }
    }

    /// Sets, or with `None` clears, the owners of the Job and of its pods.
    pub fn owner_ref(self, owner: Option<Vec<OwnerReference>>) -> (r: Self)
        ensures
            r@ == (JobBuilderView { owner_ref: owners_view(owner), ..self@ }),
    {
        JobBuilder { owner_ref: owner, ..self }
    }

    /// Sets how many pods may run at once. The value is passed on unchecked.
    pub fn parallelism(self, count: i32) -> (r: Self)
        ensures
            r@ == (JobBuilderView { parallelism: Some(count), ..self@ }),
    {
        JobBuilder { parallelism: Some(count), ..self }
    }

    /// The Job these settings describe: the builder's name, labels and owners
    /// on the Job and again on its pod template, the component's pods under
    /// the restart policy, the fixed retry budget and the parallelism if set.
    pub fn to_job(self) -> (r: Job)
        ensures
            r@ == self@.job(),
    {
        let metadata = ObjectMeta::from_parts(&self.name, &self.labels, &self.owner_ref);
        let template_metadata = ObjectMeta {
            name: self.name,
            labels: self.labels,
            owner_references: self.owner_ref,
        };
        let pod = self.component.to_pod_spec_with_policy(self.restart_policy);
        Job {
            metadata,
            spec: JobSpec {
                backoff_limit: Some(BACKOFF_LIMIT),
                parallelism: self.parallelism,
                template: PodTemplateSpec { metadata: template_metadata, spec: pod },
            },
        }
    }
}

} // verus!

verus! {

/// Whatever else is configured, a finalized Job carries the fixed retry
/// budget of four.
pub proof fn job_backoff_limit_is_fixed(b: JobBuilder)
    ensures
        b@.job().spec.backoff_limit == Some(4i32),
{
}

/// When owners `o` are set, the Job's own metadata and its pod template's
/// metadata both carry exactly `o`.
pub proof fn job_owners_reach_pod_template(b: JobBuilder, o: Seq<OwnerReference>)
    requires
        b@.owner_ref == Some(o),
        o.len() > 0,
    ensures
        b@.job().metadata.owner_references == Some(o),
        b@.job().spec.template.metadata.owner_references == Some(o),
{
}

/// A builder whose parallelism was never set gives a Job that leaves the
/// parallelism absent, not zero.
pub proof fn job_parallelism_absent_unless_set(b: JobBuilder)
    requires
        b@.parallelism is None,
    ensures
        b@.job().spec.parallelism is None,
{
}

/// Finalizing is a function of the builder's settings alone: two builders
/// with the same settings, such as a builder and its copy, give equal Jobs.
pub proof fn job_finalize_is_deterministic(a: JobBuilder, b: JobBuilder)
    requires
        a@ == b@,
    ensures
        a@.job() == b@.job(),
{
}

} // verus!
