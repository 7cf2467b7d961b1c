//! The human-readable lines the monitor emits: one per opened terminal, one
//! per closed terminal, and a degraded one for a close with no known owner.
use vstd::prelude::*;

use crate::numbers::dec_str;
use crate::numbers::u32_to_string;

verus! {

/// The log and notification body for an opened pseudo-terminal.
pub open spec fn open_msg(id: u32, owner: Seq<char>) -> Seq<char> {
    dec_str(id as nat) + " was opened for "@ + owner
}

/// The log and notification body for a closed pseudo-terminal whose owner is
/// remembered.
pub open spec fn close_msg(id: u32, owner: Seq<char>) -> Seq<char> {
    dec_str(id as nat) + " was closed ("@ + owner + ")"@
}

/// The fallback log line for a close with no matching open session.
pub open spec fn close_unknown_msg(id: u32) -> Seq<char> {
    dec_str(id as nat) + " was closed"@
}

/// Builds the "opened" line: the id, then the owner's display name.
pub fn open_message(id: u32, owner: &str) -> (r: String)
    ensures
        r@ == open_msg(id, owner@),
{
    let mut s = u32_to_string(id);
    s.append(" was opened for ");
    s.append(owner);
    s
}

/// Builds the "closed" line for a remembered session: the id, then the
/// owner's display name in parentheses.
pub fn close_message(id: u32, owner: &str) -> (r: String)
    ensures
        r@ == close_msg(id, owner@),
{
    let mut s = u32_to_string(id);
    s.append(" was closed (");
    s.append(owner);
    s.append(")");
    s
}

/// Builds the owner-less "closed" line for an id with no open session.
pub fn close_unknown_message(id: u32) -> (r: String)
    ensures
        r@ == close_unknown_msg(id),
{
    let mut s = u32_to_string(id);
    s.append(" was closed");
    s
}

} // verus!
