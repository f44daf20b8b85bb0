use vstd::prelude::*;
use crate::error::SandboxError;

verus! {

/// The permissions of an edge function's runtime: it may use
/// high-resolution time, unstable APIs, every URL and every file.
pub struct Permissions {}

impl Permissions {
    /// High-resolution time is allowed.
    pub fn allow_hrtime(&mut self) -> (allowed: bool)
        ensures
            allowed,
    {
        true
    }

    /// Every unstable API is allowed.
    pub fn check_unstable(&self, api_name: &str) {
    }

    /// Fetching any URL is allowed.
    pub fn check_net_url(&mut self, url: &str, api_name: &str) -> (r: Result<(), SandboxError>)
        ensures
            r is Ok,
    {
        Ok(())
    }

    /// Reading any file is allowed.
    pub fn check_read(&mut self, path: &str, api_name: &str) -> (r: Result<(), SandboxError>)
        ensures
            r is Ok,
    {
        Ok(())
    }
}

} // verus!
