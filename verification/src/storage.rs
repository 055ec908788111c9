//! The snapshot of sessions and messages that the desktop shell keeps on
//! disk between runs.

use std::collections::HashMap;
use vstd::prelude::*;
use crate::text::{concat3, to_chars, trim_range, trimmed};

verus! {

/// A session as the shell stores it.
#[derive(Debug, Default, Clone, PartialEq, Eq)]
pub struct StoredSession {
    pub id: String,
    pub agent_id: String,
    pub title: String,
    pub created_at: String,
    pub updated_at: String,
}

/// A message as the shell stores it.
#[derive(Debug, Default, Clone, PartialEq, Eq)]
pub struct StoredMessage {
    pub id: String,
    pub role: String,
    pub content: String,
    pub timestamp: String,
    pub agent_id: Option<String>,
}

/// Everything the shell stores: the sessions of each agent, and the
/// messages of each session.
#[derive(Debug, Clone, PartialEq, Eq)]
pub struct StorageSnapshot {
    pub sessions_by_agent: HashMap<String, Vec<StoredSession>>,
    pub messages_by_session: HashMap<String, Vec<StoredMessage>>,
}

impl Default for StorageSnapshot {
    fn default() -> (snapshot: StorageSnapshot)
        ensures
            snapshot.sessions_by_agent@.len() == 0,
            snapshot.messages_by_session@.len() == 0,
    {
        StorageSnapshot { sessions_by_agent: HashMap::new(), messages_by_session: HashMap::new() }
    }
}

/// The tag of a build: `test` for a test build, else `dev` for a debug
/// build, else `prod`.
pub open spec fn env_tag(test: bool, debug: bool) -> Seq<char> {
    if test {
        "test"@
    } else if debug {
        "dev"@
    } else {
        "prod"@
    }
}

/// The tag that keeps the stores of different kinds of build apart.
pub fn storage_env_tag(test: bool, debug: bool) -> (tag: &'static str)
    ensures
        tag@ == env_tag(test, debug),
{
    if test {
        "test"
    } else if debug {
        "dev"
    } else {
        "prod"
    }
}

/// The name of the file that holds the snapshot.
pub fn storage_file_name(test: bool, debug: bool) -> (name: String)
    ensures
        name@ == "iflow-session-store-"@ + env_tag(test, debug) + ".json"@,
{
    concat3("iflow-session-store-", storage_env_tag(test, debug), ".json")
}

/// Whether the content of the snapshot file holds a snapshot at all: a file
/// that is empty or all whitespace stands for the empty snapshot.
pub fn holds_snapshot(content: &str) -> (r: bool)
    ensures
        r == (trimmed(content@).len() > 0),
{
    let chars = to_chars(content);
    let (a, b) = trim_range(&chars, 0, chars.len());
    proof {
        assert(chars@.subrange(0, chars.len() as int) =~= chars@);
    }
    a < b
}

} // verus!
