//! Workflow services: Make.com scenarios and n8n workflows.
use vstd::prelude::*;

verus! {

/// A Make.com adapter: the webhook that triggers its scenarios.
pub struct GrassMakeComAdapter {
    webhook_url: String,
}

impl GrassMakeComAdapter {
    pub closed spec fn webhook_text(&self) -> Seq<char> {
        self.webhook_url@
    }

    /// An adapter posting to `webhook_url`.
    pub fn new(webhook_url: &str) -> (r: Self)
        ensures
            r.webhook_text() == webhook_url@,
    {
        GrassMakeComAdapter { webhook_url: webhook_url.to_owned() }
    }

    pub fn webhook_url(&self) -> (r: &str)
        ensures
            r@ == self.webhook_text(),
    {
        self.webhook_url.as_str()
    }
}

/// An n8n adapter: the server and its API key.
pub struct GrassN8nAdapter {
    base_url: String,
    api_key: String,
}

impl GrassN8nAdapter {
    pub closed spec fn base(&self) -> Seq<char> {
        self.base_url@
    }

    pub closed spec fn key_text(&self) -> Seq<char> {
        self.api_key@
    }

    /// An adapter for the n8n server at `base_url`.
    pub fn new(base_url: &str, api_key: &str) -> (r: Self)
        ensures
            r.base() == base_url@,
            r.key_text() == api_key@,
    {
        GrassN8nAdapter { base_url: base_url.to_owned(), api_key: api_key.to_owned() }
    }

    pub fn base_url(&self) -> (r: &str)
        ensures
            r@ == self.base(),
    {
        self.base_url.as_str()
    }

    pub fn api_key(&self) -> (r: &str)
        ensures
            r@ == self.key_text(),
    {
        self.api_key.as_str()
    }

    /// The endpoint listing the workflows.
    pub fn workflows_url(&self) -> (r: String)
        ensures
            r@ == self.base() + "/api/v1/workflows"@,
    {
        let mut r = self.base_url.clone();
        r.append("/api/v1/workflows");
        r
    }

    /// The endpoint of workflow `workflow_id`.
    pub fn workflow_url(&self, workflow_id: &str) -> (r: String)
        ensures
            r@ == self.base() + "/api/v1/workflows/"@ + workflow_id@,
    {
        let mut r = self.base_url.clone();
        r.append("/api/v1/workflows/");
        r.append(workflow_id);
        r
    }

    /// The endpoint that triggers workflow `workflow_id`.
    pub fn activate_url(&self, workflow_id: &str) -> (r: String)
        ensures
            r@ == self.base() + "/api/v1/workflows/"@ + workflow_id@ + "/activate"@,
    {
        let mut r = self.base_url.clone();
        r.append("/api/v1/workflows/");
        r.append(workflow_id);
        r.append("/activate");
        r
    }
}

} // verus!
