//! The record of the running Harness that the launcher keeps on disk.
use vstd::prelude::*;
use crate::text::{decimal, decimal_chars, string_of};

verus! {

/// The running Harness: its process id, its Web UI address, and when it was recorded.
#[derive(Clone, Debug)]
pub struct LauncherState {
    pub harness_pid: u32,
    pub web_ui_url: String,
    /// Milliseconds since the Unix epoch, in decimal.
    pub updated_at: String,
}

impl LauncherState {
    /// The record of a Harness with `process_id` serving at `web_ui_url`, made at
    /// `stamp_millis`.
    pub fn new(process_id: u32, web_ui_url: &str, stamp_millis: u128) -> (r: Self)
        ensures
            r.harness_pid == process_id,
            r.web_ui_url@ == web_ui_url@,
            r.updated_at@ == decimal(stamp_millis as nat),
    {
        let digits = decimal_chars(stamp_millis);
        LauncherState {
            harness_pid: process_id,
            web_ui_url: web_ui_url.to_owned(),
            updated_at: string_of(digits.as_slice()),
        }
    }
}

} // verus!
