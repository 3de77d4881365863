//! The approval gate of the command runtime, and the store of session approvals.

use dashmap::DashMap;
use vstd::prelude::*;
use crate::model::approval::{
    ApprovalPersistence, ApprovalPolicy, ApprovalRequirement, ApprovalRequirementModel, ApprovalScope,
    ApprovalScopeKey, ApprovalScopeKeyModel, ApprovalScopeModel,
};
use crate::model::capability::DefaultDecision;
use crate::model::command_request::{CommandRequest, CommandRequestModel};
use crate::model::event::UserApprovalDecision;
use crate::text::clone_strings;
use crate::tool::shell::registry::{MatchedCapability, MatchedCapabilityModel};

verus! {

/// A request to the user to approve a scope.
#[derive(Debug, Clone)]
pub struct ToolApprovalRequest {
    pub reason: String,
    pub scope: ApprovalScope,
}

/// The user's answer to one pending approval.
pub struct ToolApprovalResult {
    pub approval_id: String,
    pub decision: UserApprovalDecision,
}

/// Which tool call an event or approval belongs to.
#[derive(Debug, Clone)]
pub struct ToolCallContext {
    pub index: i64,
    pub call_id: String,
    pub tool_name: String,
}

/// A remembered approval.
pub struct ApprovalGrant {
    pub persistence: ApprovalPersistence,
}

/// The mathematical value of a [`ToolApprovalRequest`].
pub struct ToolApprovalRequestModel {
    pub reason: Seq<char>,
    pub scope: ApprovalScopeModel,
}

/// The mathematical value of a [`ToolCallContext`].
pub struct ToolCallContextModel {
    pub index: i64,
    pub call_id: Seq<char>,
    pub tool_name: Seq<char>,
}

impl View for ToolApprovalRequest {
    type V = ToolApprovalRequestModel;

    open spec fn view(&self) -> ToolApprovalRequestModel {
        ToolApprovalRequestModel { reason: self.reason@, scope: self.scope@ }
    }
}

impl View for ToolCallContext {
    type V = ToolCallContextModel;

    open spec fn view(&self) -> ToolCallContextModel {
        ToolCallContextModel {
            index: self.index,
            call_id: self.call_id@,
            tool_name: self.tool_name@,
        }
    }
}

impl ToolCallContext {
    /// A copy of the context.
    pub fn duplicate(&self) -> (r: ToolCallContext)
        ensures
            r@ == self@,
    {
        ToolCallContext {
            index: self.index,
            call_id: self.call_id.clone(),
            tool_name: self.tool_name.clone(),
        }
    }
}

/// The approval scope of a request: the matched prefix (not the whole argv),
/// the request's cwd, sandbox and network policy, for one execution.
pub open spec fn approval_scope_for(
    request: CommandRequestModel,
    matched: MatchedCapabilityModel,
) -> ApprovalScopeModel {
    ApprovalScopeModel {
        command_prefix: matched.command_prefix,
        cwd: request.cwd,
        sandbox_profile: request.sandbox_profile,
        network_policy: request.network_policy,
        persistence: ApprovalPersistence::Once,
    }
}

/// The approval requirement of a request, given its matched capability.
pub open spec fn approval_requirement_for(
    request: CommandRequestModel,
    matched: MatchedCapabilityModel,
) -> ApprovalRequirementModel {
    let name = matched.capability.name;
    if request.capability != matched.capability.kind {
        ApprovalRequirementModel::Forbidden {
            reason: "request capability "@ + request.capability.debug_text()
                + " does not match matched capability "@ + matched.capability.kind.debug_text(),
        }
    } else {
        match matched.capability.policy.default_decision {
            DefaultDecision::Allow => ApprovalRequirementModel::Skip {
                bypass_sandbox: false,
                reason: "capability "@ + name + " is allowed by default and will run in sandbox"@,
            },
            DefaultDecision::Prompt => match request.approval_policy {
                ApprovalPolicy::Never => ApprovalRequirementModel::Forbidden {
                    reason: "capability "@ + name
                        + " is decided to prompt but the approval policy is never, so it is forbidden"@,
                },
                _ => ApprovalRequirementModel::NeedsApproval {
                    reason: "capability "@ + name + " requires approval before execution"@,
                    approval_scope: approval_scope_for(request, matched),
                },
            },
            DefaultDecision::Forbidden => ApprovalRequirementModel::Forbidden {
                reason: "capability "@ + name + " is forbidden by policy"@,
            },
        }
    }
}

/// Computes the initial approval requirement of a command from its context
/// and the capability it matched.
///
/// This is the first policy gate of the command runtime: it only says whether
/// the command may proceed and whether the user must approve first; it runs
/// nothing.
pub fn resolve_approval_requirement(
    request: &CommandRequest,
    matched_capability: &MatchedCapability,
) -> (r: ApprovalRequirement)
    ensures
        r@ == approval_requirement_for(request@, matched_capability@),
        // A capability of another kind than the request's is refused.
        request.capability != matched_capability.capability.kind ==> r is Forbidden,
        // Skipping approval never means skipping the sandbox.
        r matches ApprovalRequirement::Skip { bypass_sandbox, .. } ==> !bypass_sandbox,
        // With a global policy of never asking, nobody is asked.
        request.approval_policy == ApprovalPolicy::Never ==> !(r is NeedsApproval),
{
    let name = &matched_capability.capability.name;
    if request.capability != matched_capability.capability.kind {
        let mut reason = "request capability ".to_string();
        reason.append(request.capability.debug_string().as_str());
        reason.append(" does not match matched capability ");
        reason.append(matched_capability.capability.kind.debug_string().as_str());
        return ApprovalRequirement::Forbidden { reason };
    }
    match matched_capability.capability.policy.default_decision {
        DefaultDecision::Allow => {
            let mut reason = "capability ".to_string();
            reason.append(name.as_str());
            reason.append(" is allowed by default and will run in sandbox");
            ApprovalRequirement::Skip { bypass_sandbox: false, reason }
        },
        DefaultDecision::Prompt => match request.approval_policy {
            ApprovalPolicy::Never => {
                let mut reason = "capability ".to_string();
                reason.append(name.as_str());
                reason.append(
                    " is decided to prompt but the approval policy is never, so it is forbidden",
                );
                ApprovalRequirement::Forbidden { reason }
            },
            ApprovalPolicy::OnRequest | ApprovalPolicy::OnFailure => {
                let mut reason = "capability ".to_string();
                reason.append(name.as_str());
                reason.append(" requires approval before execution");
                ApprovalRequirement::NeedsApproval {
                    reason,
                    approval_scope: build_approval_scope(request, matched_capability),
                }
            },
        },
        DefaultDecision::Forbidden => {
            let mut reason = "capability ".to_string();
            reason.append(name.as_str());
            reason.append(" is forbidden by policy");
            ApprovalRequirement::Forbidden { reason }
        },
    }
}

/// Builds the scope a user approval is bound to.
///
/// The scope uses the matched prefix rather than the whole argv, so that it
/// can stand for "npm install in this session", while still being bound to the
/// cwd, sandbox and network policy.
pub fn build_approval_scope(
    request: &CommandRequest,
    matched_capability: &MatchedCapability,
) -> (r: ApprovalScope)
    ensures
        r@ == approval_scope_for(request@, matched_capability@),
{
    ApprovalScope {
        command_prefix: clone_strings(&matched_capability.command_prefix),
        cwd: request.cwd.clone(),
        sandbox_profile: request.sandbox_profile,
        network_policy: request.network_policy,
        persistence: ApprovalPersistence::Once,
    }
}

/// The map the session approvals are kept in.
#[verifier::external_type_specification]
#[verifier::external_body]
#[verifier::reject_recursive_types(K)]
#[verifier::reject_recursive_types(V)]
#[verifier::reject_recursive_types(S)]
pub struct ExDashMap<K, V, S>(DashMap<K, V, S>);

/// A map from scope keys to the grants given for them.
pub type GrantMap = DashMap<ApprovalScopeKey, ApprovalGrant>;

/// The grants a session approval map holds, by the keys' values.
pub uninterp spec fn session_grants_of(
    m: GrantMap,
) -> Map<ApprovalScopeKeyModel, ApprovalPersistence>;

/// No grants at all.
pub open spec fn no_grants() -> Map<ApprovalScopeKeyModel, ApprovalPersistence> {
    Map::empty()
}

/// dashmap's `DashMap::new`: an empty map.
#[verifier::external_body]
fn new_grant_map() -> (r: GrantMap)
    ensures
        session_grants_of(r) == no_grants(),
{
    DashMap::new()
}

/// dashmap's `DashMap::insert`: the key now maps to the grant, every other
/// key as before (keys are told apart by the derived `Eq` and `Hash`, that
/// is by their fields' values). The value it replaced is dropped.
#[verifier::external_body]
fn insert_grant(
    m: &mut GrantMap,
    key: ApprovalScopeKey,
    grant: ApprovalGrant,
)
    ensures
        session_grants_of(*final(m)) == session_grants_of(*old(m)).insert(key@, grant.persistence),
{
    m.insert(key, grant);
}

/// dashmap's `DashMap::contains_key`: whether the map holds the key.
#[verifier::external_body]
fn contains_grant(m: &GrantMap, key: &ApprovalScopeKey) -> (r:
    bool)
    ensures
        r == session_grants_of(*m).dom().contains(key@),
{
    m.contains_key(key)
}

/// The approvals given for the rest of a session, by scope key.
pub struct SessionApprovals {
    grants: GrantMap,
}

impl View for SessionApprovals {
    type V = Set<ApprovalScopeKeyModel>;

    closed spec fn view(&self) -> Set<ApprovalScopeKeyModel> {
        session_grants_of(self.grants).dom()
    }
}

/// The session approvals after `decision` was given for `scope`: only an
/// approval for the session is remembered.
pub open spec fn after_decision(
    grants: Set<ApprovalScopeKeyModel>,
    scope: ApprovalScopeModel,
    decision: UserApprovalDecision,
) -> Set<ApprovalScopeKeyModel> {
    match decision {
        UserApprovalDecision::Approved { persistence: ApprovalPersistence::Session } => grants.insert(
            scope.key(),
        ),
        _ => grants,
    }
}

impl SessionApprovals {
    /// An empty store.
    pub fn new() -> (r: SessionApprovals)
        ensures
            r@ == Set::<ApprovalScopeKeyModel>::empty(),
    {
        let r = SessionApprovals { grants: new_grant_map() };
        assert(r@ =~= Set::<ApprovalScopeKeyModel>::empty());
        r
    }

    /// Remembers an approval given for the session; a one-time approval or a
    /// rejection leaves the store as it was.
    pub fn remember_approval(&mut self, scope: &ApprovalScope, decision: &UserApprovalDecision)
        ensures
            final(self)@ == after_decision(old(self)@, scope@, *decision),
    {
        match decision {
            UserApprovalDecision::Approved { persistence } => match persistence {
                ApprovalPersistence::Once => {},
                ApprovalPersistence::Session => {
                    let key = scope.key();
                    insert_grant(
                        &mut self.grants,
                        key,
                        ApprovalGrant { persistence: ApprovalPersistence::Session },
                    );
                    assert(self@ =~= old(self)@.insert(scope@.key()));
                },
            },
            UserApprovalDecision::Rejected => {},
        }
    }

    /// Whether the scope's key was approved for the session.
    pub fn has_session_approval(&self, scope: &ApprovalScope) -> (r: bool)
        ensures
            r == self@.contains(scope@.key()),
    {
        let key = scope.key();
        contains_grant(&self.grants, &key)
    }

    /// The decision already given for a scope: an approval for the session
    /// where its key was approved for the session, so that no new prompt is
    /// needed; `None` where the user has to be asked.
    pub fn session_decision(&self, scope: &ApprovalScope) -> (r: Option<UserApprovalDecision>)
        ensures
            self@.contains(scope@.key()) ==> r == Some(
                UserApprovalDecision::Approved { persistence: ApprovalPersistence::Session },
            ),
            !self@.contains(scope@.key()) ==> r is None,
    {
        if self.has_session_approval(scope) {
            Some(UserApprovalDecision::Approved { persistence: ApprovalPersistence::Session })
        } else {
            None
        }
    }
}

/// A session approval is reused exactly by the scopes with the same key:
/// the same prefix, cwd, sandbox profile and network policy, whatever their
/// persistence; a one-time approval or a rejection is not remembered.
pub proof fn lemma_session_approval_reuse(
    grants: Set<ApprovalScopeKeyModel>,
    approved: ApprovalScopeModel,
    decision: UserApprovalDecision,
    later: ApprovalScopeModel,
)
    ensures
        decision == (UserApprovalDecision::Approved { persistence: ApprovalPersistence::Session })
            ==> (after_decision(grants, approved, decision).contains(later.key()) <==> (
        grants.contains(later.key()) || (later.command_prefix == approved.command_prefix
            && later.cwd == approved.cwd && later.sandbox_profile == approved.sandbox_profile
            && later.network_policy == approved.network_policy))),
        decision != (UserApprovalDecision::Approved { persistence: ApprovalPersistence::Session })
            ==> after_decision(grants, approved, decision) == grants,
{
}

} // verus!
