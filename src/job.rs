use vstd::prelude::*;

verus! {

/// The answer of the proxy to a submit call (`/submit/imagine` or
/// `/submit/change`): `result` holds the id of the new job.
#[derive(Debug, Clone, PartialEq, Eq)]
pub struct SubmitImageResult {
    pub code: i16,
    pub description: String,
    pub result: String,
}

/// A snapshot of a job as the proxy reports it on `/task/{id}/fetch`.
#[derive(Debug, Clone, PartialEq, Eq)]
pub struct JobStatus {
    pub action: String,
    pub id: String,
    pub status: String,
    pub progress: String,
    pub image_url: String,
}

/// The body of a `/submit/change` call.
#[derive(Debug, Clone, PartialEq, Eq)]
pub struct ImageChangeParams {
    pub action: String,
    pub index: i64,
    pub notify_hook: String,
    pub state: String,
    pub task_id: String,
}

/// Whether `p` is an upscale request for the first candidate of `task_id`.
pub open spec fn is_upscale_of(p: ImageChangeParams, task_id: String) -> bool {
    &&& p.action@ == "UPSCALE"@
    &&& p.index == 1
    &&& p.notify_hook@.len() == 0
    &&& p.state@.len() == 0
    &&& p.task_id == task_id
}

impl ImageChangeParams {
    /// The upscale request that selects the first candidate image of `task_id`.
    pub fn new(task_id: String) -> (r: ImageChangeParams)
        ensures
            is_upscale_of(r, task_id),
    {
        ImageChangeParams {
            action: "UPSCALE".to_string(),
            index: 1,
            notify_hook: String::new(),
            state: String::new(),
            task_id,
        }
    }
}

/// Where the proxy lives and the secret that it expects in the
/// `mj-api-secret` header.
#[derive(Debug, Clone, PartialEq, Eq)]
pub struct Midjourney {
    proxy_url: String,
    secret: String,
}

impl Midjourney {
    pub fn new(proxy_url: String, secret: String) -> (r: Midjourney)
        ensures
            r.proxy_url() == proxy_url,
            r.secret() == secret,
    {
        Midjourney { proxy_url, secret }
    }

    /// Where generate jobs are submitted: `{proxy}/submit/imagine`.
    pub fn imagine_url(&self) -> (r: String)
        ensures
            r@ == self.proxy_url()@ + "/submit/imagine"@,
    {
        self.proxy_url.clone().concat("/submit/imagine")
    }

    /// Where upscale jobs are submitted: `{proxy}/submit/change`.
    pub fn change_url(&self) -> (r: String)
        ensures
            r@ == self.proxy_url()@ + "/submit/change"@,
    {
        self.proxy_url.clone().concat("/submit/change")
    }

    /// Where the status of `job_id` is read: `{proxy}//task/{job_id}/fetch`
    /// (the double slash is what the proxy expects).
    pub fn job_url(&self, job_id: &str) -> (r: String)
        ensures
            r@ == self.proxy_url()@ + "//task/"@ + job_id@ + "/fetch"@,
    {
        self.proxy_url.clone().concat("//task/").concat(job_id).concat("/fetch")
    }

    /// The value of the `mj-api-secret` header.
    pub fn secret_value(&self) -> (r: &str)
        ensures
            r@ == self.secret()@,
    {
        self.secret.as_str()
    }

    pub closed spec fn proxy_url(&self) -> String {
        self.proxy_url
    }

    pub closed spec fn secret(&self) -> String {
        self.secret
    }
}

} // verus!
