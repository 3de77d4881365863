//! The approval gate in its first form, before it moved into the shell tool.

use vstd::prelude::*;
use crate::model::approval::ApprovalRequirement;
use crate::model::command_request::CommandRequest;
use crate::tool::shell::approval::{approval_requirement_for, resolve_approval_requirement};
use crate::tool::shell::registry::MatchedCapability;

verus! {

/// Decides whether a command may run, and whether the user must approve it
/// first; the same gate as [`resolve_approval_requirement`].
pub fn decide_approval(
    request: &CommandRequest,
    matched_capability: &MatchedCapability,
) -> (r: ApprovalRequirement)
    ensures
        r@ == approval_requirement_for(request@, matched_capability@),
{
    resolve_approval_requirement(request, matched_capability)
}

} // verus!
