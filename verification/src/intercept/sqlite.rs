//! The decisions of the SQLite write-path interceptor: which provenance
//! operation a change notification records, and the default entity id of
//! a row. Registering the hook and writing the sidecar are the caller's.

use vstd::prelude::*;

use crate::text::{push_i64, signed_decimal, string_from_chars};

verus! {

/// The kind of change an update hook reports.
#[derive(Debug, Clone, Copy, PartialEq, Eq, Structural)]
pub enum HookAction {
    Insert,
    Update,
    Delete,
    /// Any other notification, which is not recorded.
    Other,
}

/// The provenance operation recorded for a change; `None` for one that is
/// not recorded.
pub open spec fn operation_of(action: HookAction) -> Option<&'static str> {
    match action {
        HookAction::Insert => Some("insert"),
        HookAction::Update => Some("update"),
        HookAction::Delete => Some("delete"),
        HookAction::Other => None,
    }
}

/// The provenance operation recorded for a change.
pub fn operation_for(action: HookAction) -> (r: Option<&'static str>)
    ensures
        r == operation_of(action),
{
    match action {
        HookAction::Insert => Some("insert"),
        HookAction::Update => Some("update"),
        HookAction::Delete => Some("delete"),
        HookAction::Other => None,
    }
}

/// The default entity id of a row: its rowid in decimal, whatever the
/// table.
pub fn default_entity_id(_table: &str, rowid: i64) -> (r: String)
    ensures
        r@ == signed_decimal(rowid as int),
{
    let mut b: Vec<char> = Vec::new();
    push_i64(&mut b, rowid);
    string_from_chars(&b)
}

} // verus!
