//! The project-configuration display summary.
//!
//! A project may carry a configuration file describing its issue
//! provider and agent settings. The calling layer reads and decodes the
//! file; the shape decisions live here: which layout generation the
//! document follows, and when a section is present at all rather than an
//! empty shell.

use vstd::prelude::*;

verus! {

/// The label names a configuration assigns to issue states.
#[derive(Debug)]
pub struct RalphyLabelsSummary {
    pub candidate: Option<String>,
    pub ready: Option<String>,
    pub enriched: Option<String>,
    pub pr_feedback: Option<String>,
}

/// The agent settings a configuration carries.
#[derive(Debug)]
pub struct RalphyClaudeSummary {
    pub max_iterations: Option<i64>,
    pub timeout: Option<i64>,
    pub model: Option<String>,
}

/// The repository a configuration points its integration at.
#[derive(Debug)]
pub struct RalphyGithubIntegrationSummary {
    pub owner: Option<String>,
    pub repo: Option<String>,
}

/// The integrations section of a configuration.
#[derive(Debug)]
pub struct RalphyIntegrationsSummary {
    pub github: Option<RalphyGithubIntegrationSummary>,
}

/// The whole display summary of one configuration file.
#[derive(Debug)]
pub struct RalphyConfigSummary {
    pub version: Option<i64>,
    pub provider_type: Option<String>,
    pub project_name: Option<String>,
    pub project_key: Option<String>,
    pub project_id: Option<String>,
    pub team_id: Option<String>,
    pub labels: Option<RalphyLabelsSummary>,
    pub claude: Option<RalphyClaudeSummary>,
    pub integrations: Option<RalphyIntegrationsSummary>,
}

/// What a configuration lookup reports: the file is missing, unreadable
/// or undecodable, or summarized.
#[derive(Debug)]
pub enum RalphyConfigResponse {
    Missing { path: String },
    Invalid { path: String, error: String },
    Loaded { path: String, summary: Box<RalphyConfigSummary> },
}

/// Which generation of the configuration layout a document follows.
#[derive(Clone, Copy, Debug, PartialEq, Eq, Structural)]
pub enum ConfigLayout {
    /// The provider-keyed layout: a version-two marker or a provider
    /// section.
    Provider,
    /// The legacy layout keyed by the fixed provider: a version-one
    /// marker or its section.
    Legacy,
    /// Neither marker nor section: nothing to project.
    Neither,
}

/// Decides the layout generation from the version marker and which
/// sections exist; the provider layout wins over the legacy one.
pub fn config_layout(version: Option<i64>, has_provider: bool, has_legacy: bool) -> (r:
    ConfigLayout)
    ensures
        r == (if version == Some(2int as i64) || has_provider {
            ConfigLayout::Provider
        } else if version == Some(1int as i64) || has_legacy {
            ConfigLayout::Legacy
        } else {
            ConfigLayout::Neither
        }),
{
    let v2 = match version {
        Some(v) => v == 2,
        None => false,
    };
    let v1 = match version {
        Some(v) => v == 1,
        None => false,
    };
    if v2 || has_provider {
        ConfigLayout::Provider
    } else if v1 || has_legacy {
        ConfigLayout::Legacy
    } else {
        ConfigLayout::Neither
    }
}

/// Builds the labels section: present exactly when any label is named.
pub fn build_labels_summary(
    candidate: Option<String>,
    ready: Option<String>,
    enriched: Option<String>,
    pr_feedback: Option<String>,
) -> (r: Option<RalphyLabelsSummary>)
    ensures
        r is Some <==> (candidate is Some || ready is Some || enriched is Some
            || pr_feedback is Some),
        r matches Some(s) ==> {
            &&& opt_eq(&s.candidate, &candidate)
            &&& opt_eq(&s.ready, &ready)
            &&& opt_eq(&s.enriched, &enriched)
            &&& opt_eq(&s.pr_feedback, &pr_feedback)
        },
{
    if candidate.is_none() && ready.is_none() && enriched.is_none() && pr_feedback.is_none() {
        None
    } else {
        Some(RalphyLabelsSummary { candidate, ready, enriched, pr_feedback })
    }
}

/// Two optional strings carry the same text.
pub open spec fn opt_eq(a: &Option<String>, b: &Option<String>) -> bool {
    match (a, b) {
        (Some(x), Some(y)) => x@ == y@,
        (None, None) => true,
        _ => false,
    }
}

/// Builds the agent section: present exactly when any setting is given.
pub fn build_claude_summary(
    max_iterations: Option<i64>,
    timeout: Option<i64>,
    model: Option<String>,
) -> (r: Option<RalphyClaudeSummary>)
    ensures
        r is Some <==> (max_iterations is Some || timeout is Some || model is Some),
        r matches Some(s) ==> s.max_iterations == max_iterations && s.timeout == timeout
            && opt_eq(&s.model, &model),
{
    if max_iterations.is_none() && timeout.is_none() && model.is_none() {
        None
    } else {
        Some(RalphyClaudeSummary { max_iterations, timeout, model })
    }
}

/// Builds the integrations section: the repository sub-section is
/// present exactly when an owner or repository is named, and the whole
/// section exactly when the sub-section is.
pub fn build_integrations_summary(
    github_present: bool,
    owner: Option<String>,
    repo: Option<String>,
) -> (r: Option<RalphyIntegrationsSummary>)
    ensures
        r is Some <==> (github_present && (owner is Some || repo is Some)),
        r matches Some(s) ==> (s.github matches Some(g) && opt_eq(&g.owner, &owner) && opt_eq(
            &g.repo,
            &repo,
        )),
{
    if !github_present {
        return None;
    }
    if owner.is_none() && repo.is_none() {
        None
    } else {
        Some(
            RalphyIntegrationsSummary {
                github: Some(RalphyGithubIntegrationSummary { owner, repo }),
            },
        )
    }
}

} // verus!
