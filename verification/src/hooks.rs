//! Which concerns each Git hook event collects.

use vstd::prelude::*;
use crate::symbols::{ConcernSymbol, HookEvent};

verus! {

/// The concerns that a hook event collects, in order.
pub open spec fn event_concerns(event: HookEvent) -> Seq<ConcernSymbol> {
    match event {
        HookEvent::PreCommit => seq![ConcernSymbol::Index, ConcernSymbol::AttrLineEndingNormalization, ConcernSymbol::AttrDiffStrategy],
        HookEvent::PrePush => seq![ConcernSymbol::Ref, ConcernSymbol::Branch, ConcernSymbol::Remote, ConcernSymbol::TreeExecutable, ConcernSymbol::AttrLineEndingNormalization],
        HookEvent::PreReceive => seq![ConcernSymbol::Ref, ConcernSymbol::Branch, ConcernSymbol::Remote],
        HookEvent::PostReceive => seq![ConcernSymbol::Ref, ConcernSymbol::Branch, ConcernSymbol::Remote],
        HookEvent::Update => seq![ConcernSymbol::Ref, ConcernSymbol::Branch],
        HookEvent::PostUpdate => seq![ConcernSymbol::Ref, ConcernSymbol::Branch],
        HookEvent::PreAutoGc => seq![ConcernSymbol::ConfigGc],
        HookEvent::PostMerge => seq![ConcernSymbol::Commit, ConcernSymbol::Tree, ConcernSymbol::Ref],
        HookEvent::PreRebase => seq![ConcernSymbol::Ref, ConcernSymbol::Branch, ConcernSymbol::ConfigRebase],
        HookEvent::PostCheckout => seq![ConcernSymbol::Head, ConcernSymbol::Ref, ConcernSymbol::Index],
        HookEvent::PostCommit => seq![ConcernSymbol::Commit, ConcernSymbol::Ref, ConcernSymbol::Head],
        HookEvent::PreApplyPatch => seq![ConcernSymbol::Index, ConcernSymbol::AttrDiffStrategy],
        HookEvent::PostApplyPatch => seq![ConcernSymbol::Index, ConcernSymbol::Commit],
        HookEvent::PostRebase => seq![ConcernSymbol::Ref, ConcernSymbol::Branch, ConcernSymbol::Commit],
        HookEvent::PreCommitMsg => seq![ConcernSymbol::ConfigCommit, ConcernSymbol::ConfigUser],
        HookEvent::CommitMsg => seq![ConcernSymbol::ConfigCommit, ConcernSymbol::ConfigUser],
        HookEvent::PostCommitMsg => seq![ConcernSymbol::Commit, ConcernSymbol::Ref],
    }
}

/// Hook logic for pre-commit
pub fn pre_commit() -> (r: Vec<ConcernSymbol>)
    ensures
        r@ == event_concerns(HookEvent::PreCommit),
{
    vec![ConcernSymbol::Index, ConcernSymbol::AttrLineEndingNormalization, ConcernSymbol::AttrDiffStrategy]
}

/// Hook logic for pre-push
pub fn pre_push() -> (r: Vec<ConcernSymbol>)
    ensures
        r@ == event_concerns(HookEvent::PrePush),
{
    vec![ConcernSymbol::Ref, ConcernSymbol::Branch, ConcernSymbol::Remote, ConcernSymbol::TreeExecutable, ConcernSymbol::AttrLineEndingNormalization]
}

/// Hook logic for pre-receive
pub fn pre_receive() -> (r: Vec<ConcernSymbol>)
    ensures
        r@ == event_concerns(HookEvent::PreReceive),
{
    vec![ConcernSymbol::Ref, ConcernSymbol::Branch, ConcernSymbol::Remote]
}

/// Hook logic for post-receive
pub fn post_receive() -> (r: Vec<ConcernSymbol>)
    ensures
        r@ == event_concerns(HookEvent::PostReceive),
{
    vec![ConcernSymbol::Ref, ConcernSymbol::Branch, ConcernSymbol::Remote]
}

/// Hook logic for update
pub fn update() -> (r: Vec<ConcernSymbol>)
    ensures
        r@ == event_concerns(HookEvent::Update),
{
    vec![ConcernSymbol::Ref, ConcernSymbol::Branch]
}

/// Hook logic for post-update
pub fn post_update() -> (r: Vec<ConcernSymbol>)
    ensures
        r@ == event_concerns(HookEvent::PostUpdate),
{
    vec![ConcernSymbol::Ref, ConcernSymbol::Branch]
}

/// Hook logic for pre-auto-gc
pub fn pre_auto_gc() -> (r: Vec<ConcernSymbol>)
    ensures
        r@ == event_concerns(HookEvent::PreAutoGc),
{
    vec![ConcernSymbol::ConfigGc]
}

/// Hook logic for post-merge
pub fn post_merge() -> (r: Vec<ConcernSymbol>)
    ensures
        r@ == event_concerns(HookEvent::PostMerge),
{
    vec![ConcernSymbol::Commit, ConcernSymbol::Tree, ConcernSymbol::Ref]
}

/// Hook logic for pre-rebase
pub fn pre_rebase() -> (r: Vec<ConcernSymbol>)
    ensures
        r@ == event_concerns(HookEvent::PreRebase),
{
    vec![ConcernSymbol::Ref, ConcernSymbol::Branch, ConcernSymbol::ConfigRebase]
}

/// Hook logic for post-checkout
pub fn post_checkout() -> (r: Vec<ConcernSymbol>)
    ensures
        r@ == event_concerns(HookEvent::PostCheckout),
{
    vec![ConcernSymbol::Head, ConcernSymbol::Ref, ConcernSymbol::Index]
}

/// Hook logic for post-commit
pub fn post_commit() -> (r: Vec<ConcernSymbol>)
    ensures
        r@ == event_concerns(HookEvent::PostCommit),
{
    vec![ConcernSymbol::Commit, ConcernSymbol::Ref, ConcernSymbol::Head]
}

/// Hook logic for pre-apply-patch
pub fn pre_apply_patch() -> (r: Vec<ConcernSymbol>)
    ensures
        r@ == event_concerns(HookEvent::PreApplyPatch),
{
    vec![ConcernSymbol::Index, ConcernSymbol::AttrDiffStrategy]
}

/// Hook logic for post-apply-patch
pub fn post_apply_patch() -> (r: Vec<ConcernSymbol>)
    ensures
        r@ == event_concerns(HookEvent::PostApplyPatch),
{
    vec![ConcernSymbol::Index, ConcernSymbol::Commit]
}

/// Hook logic for post-rebase
pub fn post_rebase() -> (r: Vec<ConcernSymbol>)
    ensures
        r@ == event_concerns(HookEvent::PostRebase),
{
    vec![ConcernSymbol::Ref, ConcernSymbol::Branch, ConcernSymbol::Commit]
}

/// Hook logic for pre-commit-msg
pub fn pre_commit_msg() -> (r: Vec<ConcernSymbol>)
    ensures
        r@ == event_concerns(HookEvent::PreCommitMsg),
{
    vec![ConcernSymbol::ConfigCommit, ConcernSymbol::ConfigUser]
}

/// Hook logic for commit-msg
pub fn commit_msg() -> (r: Vec<ConcernSymbol>)
    ensures
        r@ == event_concerns(HookEvent::CommitMsg),
{
    vec![ConcernSymbol::ConfigCommit, ConcernSymbol::ConfigUser]
}

/// Hook logic for post-commit-msg
pub fn post_commit_msg() -> (r: Vec<ConcernSymbol>)
    ensures
        r@ == event_concerns(HookEvent::PostCommitMsg),
{
    vec![ConcernSymbol::Commit, ConcernSymbol::Ref]
}

/// Get concerns for a hook event.
pub fn get_concerns(hook: &HookEvent) -> (r: Vec<ConcernSymbol>)
    ensures
        r@ == event_concerns(*hook),
{
    match hook {
        HookEvent::PreCommit => pre_commit(),
        HookEvent::PrePush => pre_push(),
        HookEvent::PreReceive => pre_receive(),
        HookEvent::PostReceive => post_receive(),
        HookEvent::Update => update(),
        HookEvent::PostUpdate => post_update(),
        HookEvent::PreAutoGc => pre_auto_gc(),
        HookEvent::PostMerge => post_merge(),
        HookEvent::PreRebase => pre_rebase(),
        HookEvent::PostCheckout => post_checkout(),
        HookEvent::PostCommit => post_commit(),
        HookEvent::PreApplyPatch => pre_apply_patch(),
        HookEvent::PostApplyPatch => post_apply_patch(),
        HookEvent::PostRebase => post_rebase(),
        HookEvent::PreCommitMsg => pre_commit_msg(),
        HookEvent::CommitMsg => commit_msg(),
        HookEvent::PostCommitMsg => post_commit_msg(),
    }
}

} // verus!
