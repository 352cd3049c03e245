//! Command-line flags of the dashboard.
use vstd::prelude::*;

verus! {

/// Flags of `n8s`, the dashboard for monitoring n8n workflows.
#[derive(Debug)]
pub struct Cli {
    /// n8n instance URL (overrides the N8N_API_URL environment variable).
    pub url: Option<String>,
    /// n8n API key (overrides the N8N_API_KEY environment variable).
    pub api_key: Option<String>,
    /// Default project ID filter.
    pub project: Option<String>,
    /// Use mock data (no n8n connection required).
    pub mock: bool,
}

} // verus!
