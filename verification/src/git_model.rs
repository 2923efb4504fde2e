//! Git file states, actions and hooks: which actions a file state allows,
//! which hooks run for an action, and which of them can block it.

use vstd::prelude::*;

verus! {

/// Represents the different states a file can be in within Git.
#[derive(Debug, Clone, Copy, PartialEq, Eq, Structural, Hash)]
pub enum FileStateKind {
    /// Same in HEAD, index, and worktree
    Clean,
    /// Different in worktree but not staged
    ModifiedUnstaged,
    /// Added/changed in index but not committed yet
    Staged,
    /// Staged changes exist, but the file has further modifications in worktree
    StagedAndModified,
    /// Exists in index, not in HEAD
    Added,
    /// Deleted from index, still in HEAD
    DeletedStaged,
    /// Exists in worktree, not in index or HEAD
    Untracked,
    /// Matches .gitignore
    Ignored,
}

impl FileStateKind {
    /// Get a human-readable description of the file state, as text.
    pub open spec fn description_text(self) -> Seq<char> {
        match self {
            FileStateKind::Clean => "Same in HEAD, index, and worktree"@,
            FileStateKind::ModifiedUnstaged => "Different in worktree but not staged"@,
            FileStateKind::Staged => "Added/changed in index but not committed yet"@,
            FileStateKind::StagedAndModified => "Staged changes exist, but the file has further modifications in worktree"@,
            FileStateKind::Added => "Exists in index, not in HEAD"@,
            FileStateKind::DeletedStaged => "Deleted from index, still in HEAD"@,
            FileStateKind::Untracked => "Exists in worktree, not in index or HEAD"@,
            FileStateKind::Ignored => "Matches .gitignore"@,
        }
    }

    /// Get a human-readable description of the file state.
    pub fn description(&self) -> (r: &'static str)
        ensures
            r@ == self.description_text(),
    {
        match self {
            FileStateKind::Clean => "Same in HEAD, index, and worktree",
            FileStateKind::ModifiedUnstaged => "Different in worktree but not staged",
            FileStateKind::Staged => "Added/changed in index but not committed yet",
            FileStateKind::StagedAndModified => "Staged changes exist, but the file has further modifications in worktree",
            FileStateKind::Added => "Exists in index, not in HEAD",
            FileStateKind::DeletedStaged => "Deleted from index, still in HEAD",
            FileStateKind::Untracked => "Exists in worktree, not in index or HEAD",
            FileStateKind::Ignored => "Matches .gitignore",
        }
    }
}

/// Represents Git actions that can be performed.
#[derive(Debug, Clone, Copy, PartialEq, Eq, Structural, Hash)]
pub enum ActionKind {
    /// Commit staged changes to history
    Commit,
    /// Combine branches
    Merge,
    /// Rewrite commit history
    Rebase,
    /// Upload commits to remote
    Push,
    /// Server-side: receive push from client
    ReceivePush,
    /// Switch branches or commits
    Checkout,
    /// Apply patches
    ApplyPatch,
    /// Garbage collection
    GarbageCollect,
    /// Send email patches
    EmailSend,
}

impl ActionKind {
    /// Get a human-readable description of the action, as text.
    pub open spec fn description_text(self) -> Seq<char> {
        match self {
            ActionKind::Commit => "Commit staged changes to history"@,
            ActionKind::Merge => "Combine branches"@,
            ActionKind::Rebase => "Rewrite commit history"@,
            ActionKind::Push => "Upload commits to remote"@,
            ActionKind::ReceivePush => "Server-side: receive push from client"@,
            ActionKind::Checkout => "Switch branches or commits"@,
            ActionKind::ApplyPatch => "Apply patches"@,
            ActionKind::GarbageCollect => "Garbage collection"@,
            ActionKind::EmailSend => "Send email patches"@,
        }
    }

    /// Get a human-readable description of the action.
    pub fn description(&self) -> (r: &'static str)
        ensures
            r@ == self.description_text(),
    {
        match self {
            ActionKind::Commit => "Commit staged changes to history",
            ActionKind::Merge => "Combine branches",
            ActionKind::Rebase => "Rewrite commit history",
            ActionKind::Push => "Upload commits to remote",
            ActionKind::ReceivePush => "Server-side: receive push from client",
            ActionKind::Checkout => "Switch branches or commits",
            ActionKind::ApplyPatch => "Apply patches",
            ActionKind::GarbageCollect => "Garbage collection",
            ActionKind::EmailSend => "Send email patches",
        }
    }
}

/// Represents Git hooks that can run during various actions.
#[derive(Debug, Clone, Copy, PartialEq, Eq, Structural, Hash)]
pub enum HookKind {
    /// Runs before commit is created
    PreCommit,
    /// Runs to prepare commit message
    PrepareCommitMsg,
    /// Runs to validate commit message
    CommitMsg,
    /// Runs after commit is created
    PostCommit,
    /// Runs before merge commit is created
    PreMergeCommit,
    /// Runs after merge is completed
    PostMerge,
    /// Runs before rebase starts
    PreRebase,
    /// Runs after history rewriting
    PostRewrite,
    /// Runs before push to remote
    PrePush,
    /// Runs on server before receiving push
    PreReceive,
    /// Runs on server for each ref update
    Update,
    /// Runs on server after receiving push
    PostReceive,
    /// Runs after checkout completes
    PostCheckout,
    /// Runs to validate patch commit message
    ApplyPatchMsg,
    /// Runs before patch is applied
    PreApplyPatch,
    /// Runs after patch is applied
    PostApplyPatch,
    /// Runs before automatic garbage collection
    PreAutoGc,
    /// Runs to validate email before sending
    SendEmailValidate,
}

impl HookKind {
    /// Get a human-readable description of the hook, as text.
    pub open spec fn description_text(self) -> Seq<char> {
        match self {
            HookKind::PreCommit => "Runs before commit is created"@,
            HookKind::PrepareCommitMsg => "Runs to prepare commit message"@,
            HookKind::CommitMsg => "Runs to validate commit message"@,
            HookKind::PostCommit => "Runs after commit is created"@,
            HookKind::PreMergeCommit => "Runs before merge commit is created"@,
            HookKind::PostMerge => "Runs after merge is completed"@,
            HookKind::PreRebase => "Runs before rebase starts"@,
            HookKind::PostRewrite => "Runs after history rewriting"@,
            HookKind::PrePush => "Runs before push to remote"@,
            HookKind::PreReceive => "Runs on server before receiving push"@,
            HookKind::Update => "Runs on server for each ref update"@,
            HookKind::PostReceive => "Runs on server after receiving push"@,
            HookKind::PostCheckout => "Runs after checkout completes"@,
            HookKind::ApplyPatchMsg => "Runs to validate patch commit message"@,
            HookKind::PreApplyPatch => "Runs before patch is applied"@,
            HookKind::PostApplyPatch => "Runs after patch is applied"@,
            HookKind::PreAutoGc => "Runs before automatic garbage collection"@,
            HookKind::SendEmailValidate => "Runs to validate email before sending"@,
        }
    }

    /// Get a human-readable description of the hook.
    pub fn description(&self) -> (r: &'static str)
        ensures
            r@ == self.description_text(),
    {
        match self {
            HookKind::PreCommit => "Runs before commit is created",
            HookKind::PrepareCommitMsg => "Runs to prepare commit message",
            HookKind::CommitMsg => "Runs to validate commit message",
            HookKind::PostCommit => "Runs after commit is created",
            HookKind::PreMergeCommit => "Runs before merge commit is created",
            HookKind::PostMerge => "Runs after merge is completed",
            HookKind::PreRebase => "Runs before rebase starts",
            HookKind::PostRewrite => "Runs after history rewriting",
            HookKind::PrePush => "Runs before push to remote",
            HookKind::PreReceive => "Runs on server before receiving push",
            HookKind::Update => "Runs on server for each ref update",
            HookKind::PostReceive => "Runs on server after receiving push",
            HookKind::PostCheckout => "Runs after checkout completes",
            HookKind::ApplyPatchMsg => "Runs to validate patch commit message",
            HookKind::PreApplyPatch => "Runs before patch is applied",
            HookKind::PostApplyPatch => "Runs after patch is applied",
            HookKind::PreAutoGc => "Runs before automatic garbage collection",
            HookKind::SendEmailValidate => "Runs to validate email before sending",
        }
    }

    /// Get the hook name as it appears in .git/hooks/, as text.
    pub open spec fn filename_text(self) -> Seq<char> {
        match self {
            HookKind::PreCommit => "pre-commit"@,
            HookKind::PrepareCommitMsg => "prepare-commit-msg"@,
            HookKind::CommitMsg => "commit-msg"@,
            HookKind::PostCommit => "post-commit"@,
            HookKind::PrePush => "pre-push"@,
            HookKind::PreMergeCommit => "pre-merge-commit"@,
            HookKind::PostMerge => "post-merge"@,
            HookKind::PreRebase => "pre-rebase"@,
            HookKind::PostRewrite => "post-rewrite"@,
            HookKind::PostCheckout => "post-checkout"@,
            HookKind::ApplyPatchMsg => "applypatch-msg"@,
            HookKind::PreApplyPatch => "pre-applypatch"@,
            HookKind::PostApplyPatch => "post-applypatch"@,
            HookKind::PreAutoGc => "pre-auto-gc"@,
            HookKind::SendEmailValidate => "sendemail-validate"@,
            HookKind::PreReceive => "pre-receive"@,
            HookKind::Update => "update"@,
            HookKind::PostReceive => "post-receive"@,
        }
    }

    /// Get the hook name as it appears in .git/hooks/.
    pub fn filename(&self) -> (r: &'static str)
        ensures
            r@ == self.filename_text(),
    {
        match self {
            HookKind::PreCommit => "pre-commit",
            HookKind::PrepareCommitMsg => "prepare-commit-msg",
            HookKind::CommitMsg => "commit-msg",
            HookKind::PostCommit => "post-commit",
            HookKind::PrePush => "pre-push",
            HookKind::PreMergeCommit => "pre-merge-commit",
            HookKind::PostMerge => "post-merge",
            HookKind::PreRebase => "pre-rebase",
            HookKind::PostRewrite => "post-rewrite",
            HookKind::PostCheckout => "post-checkout",
            HookKind::ApplyPatchMsg => "applypatch-msg",
            HookKind::PreApplyPatch => "pre-applypatch",
            HookKind::PostApplyPatch => "post-applypatch",
            HookKind::PreAutoGc => "pre-auto-gc",
            HookKind::SendEmailValidate => "sendemail-validate",
            HookKind::PreReceive => "pre-receive",
            HookKind::Update => "update",
            HookKind::PostReceive => "post-receive",
        }
    }
}

/// Information about a hook including whether it can block the action.
#[derive(Debug, Clone, Copy, PartialEq, Eq, Structural)]
pub struct HookInfo {
    /// The hook that runs
    pub hook: HookKind,
    /// Whether this hook can block the action
    pub can_block: bool,
}

impl HookInfo {
    /// Create a new hook info.
    pub fn new(hook: HookKind, can_block: bool) -> (r: Self)
        ensures
            r.hook == hook,
            r.can_block == can_block,
    {
        Self { hook, can_block }
    }
}

/// The hooks that run for an action, in the order in which they run.
pub open spec fn action_hooks(action: ActionKind) -> Seq<HookInfo> {
    match action {
        ActionKind::Commit => seq![HookInfo { hook: HookKind::PreCommit, can_block: true }, HookInfo { hook: HookKind::PrepareCommitMsg, can_block: false }, HookInfo { hook: HookKind::CommitMsg, can_block: true }, HookInfo { hook: HookKind::PostCommit, can_block: false }],
        ActionKind::Merge => seq![HookInfo { hook: HookKind::PreMergeCommit, can_block: true }, HookInfo { hook: HookKind::CommitMsg, can_block: true }, HookInfo { hook: HookKind::PostMerge, can_block: false }],
        ActionKind::Rebase => seq![HookInfo { hook: HookKind::PreRebase, can_block: true }, HookInfo { hook: HookKind::PostRewrite, can_block: false }],
        ActionKind::Push => seq![HookInfo { hook: HookKind::PrePush, can_block: true }],
        ActionKind::ReceivePush => seq![HookInfo { hook: HookKind::PreReceive, can_block: true }, HookInfo { hook: HookKind::Update, can_block: true }, HookInfo { hook: HookKind::PostReceive, can_block: false }],
        ActionKind::Checkout => seq![HookInfo { hook: HookKind::PostCheckout, can_block: false }],
        ActionKind::ApplyPatch => seq![HookInfo { hook: HookKind::ApplyPatchMsg, can_block: true }, HookInfo { hook: HookKind::PreApplyPatch, can_block: true }, HookInfo { hook: HookKind::PostApplyPatch, can_block: false }],
        ActionKind::GarbageCollect => seq![HookInfo { hook: HookKind::PreAutoGc, can_block: true }],
        ActionKind::EmailSend => seq![HookInfo { hook: HookKind::SendEmailValidate, can_block: true }],
    }
}

/// The actions allowed for a file state, in order.
pub open spec fn state_actions(state: FileStateKind) -> Seq<ActionKind> {
    match state {
        FileStateKind::Clean => seq![ActionKind::Commit, ActionKind::Checkout, ActionKind::Push, ActionKind::Merge, ActionKind::Rebase],
        FileStateKind::ModifiedUnstaged => Seq::empty(),
        FileStateKind::Staged => seq![ActionKind::Commit, ActionKind::Push],
        FileStateKind::StagedAndModified => seq![ActionKind::Commit, ActionKind::Push],
        FileStateKind::Added => seq![ActionKind::Commit, ActionKind::Push],
        FileStateKind::DeletedStaged => seq![ActionKind::Commit, ActionKind::Push],
        FileStateKind::Untracked => Seq::empty(),
        FileStateKind::Ignored => Seq::empty(),
    }
}

/// Some hook that runs for `action` is `hook` and can block it.
pub open spec fn hook_blocks(action: ActionKind, hook: HookKind) -> bool {
    hooks_block(action_hooks(action), hook)
}

/// Some hook in `hs` is `hook` and can block.
pub open spec fn hooks_block(hs: Seq<HookInfo>, hook: HookKind) -> bool {
    exists|i: int| 0 <= i < hs.len() && #[trigger] hs[i].hook == hook && hs[i].can_block
}

/// Get the hooks that run for a given action.
pub fn hooks_for_action(action: ActionKind) -> (r: Vec<HookInfo>)
    ensures
        r@ == action_hooks(action),
{
    match action {
        ActionKind::Commit => vec![HookInfo::new(HookKind::PreCommit, true), HookInfo::new(HookKind::PrepareCommitMsg, false), HookInfo::new(HookKind::CommitMsg, true), HookInfo::new(HookKind::PostCommit, false)],
        ActionKind::Merge => vec![HookInfo::new(HookKind::PreMergeCommit, true), HookInfo::new(HookKind::CommitMsg, true), HookInfo::new(HookKind::PostMerge, false)],
        ActionKind::Rebase => vec![HookInfo::new(HookKind::PreRebase, true), HookInfo::new(HookKind::PostRewrite, false)],
        ActionKind::Push => vec![HookInfo::new(HookKind::PrePush, true)],
        ActionKind::ReceivePush => vec![HookInfo::new(HookKind::PreReceive, true), HookInfo::new(HookKind::Update, true), HookInfo::new(HookKind::PostReceive, false)],
        ActionKind::Checkout => vec![HookInfo::new(HookKind::PostCheckout, false)],
        ActionKind::ApplyPatch => vec![HookInfo::new(HookKind::ApplyPatchMsg, true), HookInfo::new(HookKind::PreApplyPatch, true), HookInfo::new(HookKind::PostApplyPatch, false)],
        ActionKind::GarbageCollect => vec![HookInfo::new(HookKind::PreAutoGc, true)],
        ActionKind::EmailSend => vec![HookInfo::new(HookKind::SendEmailValidate, true)],
    }
}

/// Get the actions allowed for a given file state.
pub fn allowed_actions(state: FileStateKind) -> (r: Vec<ActionKind>)
    ensures
        r@ == state_actions(state),
{
    match state {
        FileStateKind::Clean => vec![ActionKind::Commit, ActionKind::Checkout, ActionKind::Push, ActionKind::Merge, ActionKind::Rebase],
        FileStateKind::ModifiedUnstaged => Vec::new(),
        FileStateKind::Staged => vec![ActionKind::Commit, ActionKind::Push],
        FileStateKind::StagedAndModified => vec![ActionKind::Commit, ActionKind::Push],
        FileStateKind::Added => vec![ActionKind::Commit, ActionKind::Push],
        FileStateKind::DeletedStaged => vec![ActionKind::Commit, ActionKind::Push],
        FileStateKind::Untracked => Vec::new(),
        FileStateKind::Ignored => Vec::new(),
    }
}

/// Check if a specific hook can block a specific action.
pub fn can_block(action: ActionKind, hook: HookKind) -> (r: bool)
    ensures
        r == hook_blocks(action, hook),
{
    let hooks = hooks_for_action(action);
    let mut i: usize = 0;
    while i < hooks.len()
        invariant
            hooks@ == action_hooks(action),
            i <= hooks@.len(),
            forall|j: int| 0 <= j < i ==> !(#[trigger] hooks@[j].hook == hook && hooks@[j].can_block),
        decreases hooks@.len() - i,
    {
        if hooks[i].hook == hook && hooks[i].can_block {
            return true;
        }
        i = i + 1;
    }
    false
}

/// An action paired with the hooks that run for it, as plain values.
pub open spec fn action_entry_view(e: (ActionKind, Vec<HookInfo>)) -> (ActionKind, Seq<HookInfo>) {
    (e.0, e.1@)
}

/// The actions (with their hooks) that a file state allows.
pub open spec fn file_actions(state: FileStateKind) -> Seq<(ActionKind, Seq<HookInfo>)> {
    state_actions(state).map_values(|a: ActionKind| (a, action_hooks(a)))
}

/// The hooks of `hooks` that can (or cannot, when `blocking` is false) block, in order.
pub open spec fn hooks_with_blocking(hooks: Seq<HookInfo>, blocking: bool) -> Seq<HookKind>
    decreases hooks.len(),
{
    if hooks.len() == 0 {
        Seq::empty()
    } else {
        hooks_with_blocking(hooks.drop_last(), blocking) + if hooks.last().can_block == blocking {
            seq![hooks.last().hook]
        } else {
            Seq::empty()
        }
    }
}

/// The hooks, over all actions in order, that can (or cannot) block.
pub open spec fn actions_hooks_with_blocking(
    actions: Seq<(ActionKind, Seq<HookInfo>)>,
    blocking: bool,
) -> Seq<HookKind>
    decreases actions.len(),
{
    if actions.len() == 0 {
        Seq::empty()
    } else {
        actions_hooks_with_blocking(actions.drop_last(), blocking) + hooks_with_blocking(
            actions.last().1,
            blocking,
        )
    }
}

/// Some hook in `hooks` can block.
pub open spec fn any_blocking(hooks: Seq<HookInfo>) -> bool {
    exists|i: int| 0 <= i < hooks.len() && #[trigger] hooks[i].can_block
}

/// The actions of `actions` that some hook can block, in order.
pub open spec fn blockable(actions: Seq<(ActionKind, Seq<HookInfo>)>) -> Seq<ActionKind>
    decreases actions.len(),
{
    if actions.len() == 0 {
        Seq::empty()
    } else {
        blockable(actions.drop_last()) + if any_blocking(actions.last().1) {
            seq![actions.last().0]
        } else {
            Seq::empty()
        }
    }
}

/// The hooks of a list, in order.
pub open spec fn hook_kinds(hooks: Seq<HookInfo>) -> Seq<HookKind> {
    hooks.map_values(|h: HookInfo| h.hook)
}

/// The hooks of all actions, action by action, in order.
pub open spec fn all_hooks(actions: Seq<(ActionKind, Seq<HookInfo>)>) -> Seq<HookKind>
    decreases actions.len(),
{
    if actions.len() == 0 {
        Seq::empty()
    } else {
        all_hooks(actions.drop_last()) + hook_kinds(actions.last().1)
    }
}

/// The blocking and non-blocking hooks of a list split it: together they
/// hold each of its hooks once.
proof fn lemma_hooks_split(hooks: Seq<HookInfo>)
    ensures
        hooks_with_blocking(hooks, true).len() + hooks_with_blocking(hooks, false).len() == hooks.len(),
        hooks_with_blocking(hooks, true).to_multiset().add(hooks_with_blocking(hooks, false).to_multiset())
            =~= hook_kinds(hooks).to_multiset(),
    decreases hooks.len(),
{
    broadcast use vstd::seq_lib::group_to_multiset_ensures, vstd::multiset::group_multiset_axioms;
    if hooks.len() > 0 {
        let pre = hooks.drop_last();
        let h = hooks.last();
        lemma_hooks_split(pre);
        assert(hook_kinds(hooks) =~= hook_kinds(pre).push(h.hook));
        let bt = hooks_with_blocking(pre, true);
        let bf = hooks_with_blocking(pre, false);
        if h.can_block {
            assert(hooks_with_blocking(hooks, true) =~= bt.push(h.hook));
            assert(hooks_with_blocking(hooks, false) =~= bf);
        } else {
            assert(hooks_with_blocking(hooks, true) =~= bt);
            assert(hooks_with_blocking(hooks, false) =~= bf.push(h.hook));
        }
    } else {
        assert(hook_kinds(hooks) =~= Seq::<HookKind>::empty());
    }
}

/// A file's blocking and non-blocking hooks together hold every hook of its
/// actions exactly once: as many hooks, and the same ones counted with
/// repetition.
pub proof fn law_blocking_split_covers_all_hooks(actions: Seq<(ActionKind, Seq<HookInfo>)>)
    ensures
        actions_hooks_with_blocking(actions, true).len() + actions_hooks_with_blocking(actions, false).len()
            == all_hooks(actions).len(),
        actions_hooks_with_blocking(actions, true).to_multiset().add(
            actions_hooks_with_blocking(actions, false).to_multiset(),
        ) =~= all_hooks(actions).to_multiset(),
    decreases actions.len(),
{
    broadcast use vstd::seq_lib::group_to_multiset_ensures, vstd::multiset::group_multiset_axioms;
    if actions.len() > 0 {
        let pre = actions.drop_last();
        let hooks = actions.last().1;
        law_blocking_split_covers_all_hooks(pre);
        lemma_hooks_split(hooks);
        vstd::seq_lib::lemma_multiset_commutative(actions_hooks_with_blocking(pre, true), hooks_with_blocking(hooks, true));
        vstd::seq_lib::lemma_multiset_commutative(actions_hooks_with_blocking(pre, false), hooks_with_blocking(hooks, false));
        vstd::seq_lib::lemma_multiset_commutative(all_hooks(pre), hook_kinds(hooks));
    }
}

/// Information about a file including its state and available actions.
#[derive(Debug, Clone)]
pub struct FileActionInfo {
    /// The file path
    pub path: String,
    /// The current state of the file
    pub state: FileStateKind,
    /// Available actions and their associated hooks
    pub actions: Vec<(ActionKind, Vec<HookInfo>)>,
}

impl FileActionInfo {
    /// The actions of this file, as plain values.
    pub open spec fn actions_view(&self) -> Seq<(ActionKind, Seq<HookInfo>)> {
        self.actions@.map_values(|e: (ActionKind, Vec<HookInfo>)| action_entry_view(e))
    }

    /// Create a new file action info.
    pub fn new(path: String, state: FileStateKind) -> (r: Self)
        ensures
            r.path == path,
            r.state == state,
            r.actions_view() == file_actions(state),
    {
        let actions = actions_for_file(state);
        Self { path, state, actions }
    }

    /// Collect the hooks that can (or cannot) block, over all actions.
    fn hooks_by_blocking(&self, blocking: bool) -> (r: Vec<HookKind>)
        ensures
            r@ == actions_hooks_with_blocking(self.actions_view(), blocking),
    {
        let mut r: Vec<HookKind> = Vec::new();
        let mut i: usize = 0;
        while i < self.actions.len()
            invariant
                i <= self.actions@.len(),
                r@ == actions_hooks_with_blocking(self.actions_view().subrange(0, i as int), blocking),
            decreases self.actions@.len() - i,
        {
            let hooks = &self.actions[i].1;
            let ghost before = r@;
            let mut j: usize = 0;
            while j < hooks.len()
                invariant
                    j <= hooks@.len(),
                    r@ == before + hooks_with_blocking(hooks@.subrange(0, j as int), blocking),
                decreases hooks@.len() - j,
            {
                if hooks[j].can_block == blocking {
                    r.push(hooks[j].hook);
                }
                assert(hooks@.subrange(0, j + 1).drop_last() =~= hooks@.subrange(0, j as int));
                j = j + 1;
            }
            assert(hooks@.subrange(0, hooks@.len() as int) =~= hooks@);
            assert(self.actions_view().subrange(0, i + 1).drop_last() =~= self.actions_view().subrange(0, i as int));
            i = i + 1;
        }
        assert(self.actions_view().subrange(0, self.actions@.len() as int) =~= self.actions_view());
        r
    }

    /// Get all blocking hooks for this file.
    pub fn blocking_hooks(&self) -> (r: Vec<HookKind>)
        ensures
            r@ == actions_hooks_with_blocking(self.actions_view(), true),
    {
        self.hooks_by_blocking(true)
    }

    /// Get all non-blocking hooks for this file.
    pub fn non_blocking_hooks(&self) -> (r: Vec<HookKind>)
        ensures
            r@ == actions_hooks_with_blocking(self.actions_view(), false),
    {
        self.hooks_by_blocking(false)
    }

    /// Check if any action can be blocked.
    pub fn can_be_blocked(&self) -> (r: bool)
        ensures
            r == (actions_hooks_with_blocking(self.actions_view(), true).len() > 0),
    {
        let b = self.blocking_hooks();
        b.len() != 0
    }

    /// Get actions that can be blocked.
    pub fn blockable_actions(&self) -> (r: Vec<ActionKind>)
        ensures
            r@ == blockable(self.actions_view()),
    {
        let mut r: Vec<ActionKind> = Vec::new();
        let mut i: usize = 0;
        while i < self.actions.len()
            invariant
                i <= self.actions@.len(),
                r@ == blockable(self.actions_view().subrange(0, i as int)),
            decreases self.actions@.len() - i,
        {
            let hooks = &self.actions[i].1;
            let mut any = false;
            let mut j: usize = 0;
            while j < hooks.len()
                invariant
                    j <= hooks@.len(),
                    any == exists|k: int| 0 <= k < j && #[trigger] hooks@[k].can_block,
                decreases hooks@.len() - j,
            {
                if hooks[j].can_block {
                    any = true;
                }
                j = j + 1;
            }
            if any {
                r.push(self.actions[i].0);
            }
            assert(self.actions_view().subrange(0, i + 1).drop_last() =~= self.actions_view().subrange(0, i as int));
            i = i + 1;
        }
        assert(self.actions_view().subrange(0, self.actions@.len() as int) =~= self.actions_view());
        r
    }
}

/// Get all actions and their hooks for a given file state.
pub fn actions_for_file(state: FileStateKind) -> (r: Vec<(ActionKind, Vec<HookInfo>)>)
    ensures
        r@.map_values(|e: (ActionKind, Vec<HookInfo>)| action_entry_view(e)) == file_actions(state),
{
    let allowed = allowed_actions(state);
    let mut r: Vec<(ActionKind, Vec<HookInfo>)> = Vec::new();
    let mut i: usize = 0;
    while i < allowed.len()
        invariant
            allowed@ == state_actions(state),
            i <= allowed@.len(),
            r@.len() == i,
            forall|k: int| 0 <= k < i ==> #[trigger] action_entry_view(r@[k]) == (allowed@[k], action_hooks(allowed@[k])),
        decreases allowed@.len() - i,
    {
        let a = allowed[i];
        r.push((a, hooks_for_action(a)));
        i = i + 1;
    }
    assert(r@.map_values(|e: (ActionKind, Vec<HookInfo>)| action_entry_view(e)) =~= file_actions(state));
    r
}

/// Analyze multiple files and their states.
pub fn analyze_files(files: Vec<(String, FileStateKind)>) -> (r: Vec<FileActionInfo>)
    ensures
        r@.len() == files@.len(),
        forall|i: int| 0 <= i < files@.len() ==> {
            &&& (#[trigger] r@[i]).path == files@[i].0
            &&& r@[i].state == files@[i].1
            &&& r@[i].actions_view() == file_actions(files@[i].1)
        },
{
    let mut r: Vec<FileActionInfo> = Vec::new();
    let mut files = files;
    let ghost original = files@;
    while files.len() > 0
        invariant
            r@.len() + files@.len() == original.len(),
            files@ == original.subrange(0, files@.len() as int),
            forall|i: int| 0 <= i < r@.len() ==> {
                &&& (#[trigger] r@[i]).path == original[original.len() - 1 - i].0
                &&& r@[i].state == original[original.len() - 1 - i].1
                &&& r@[i].actions_view() == file_actions(original[original.len() - 1 - i].1)
            },
        decreases files@.len(),
    {
        let (path, state) = files.pop().unwrap();
        r.push(FileActionInfo::new(path, state));
    }
    let mut out: Vec<FileActionInfo> = Vec::new();
    while r.len() > 0
        invariant
            r@.len() + out@.len() == original.len(),
            forall|i: int| 0 <= i < r@.len() ==> {
                &&& (#[trigger] r@[i]).path == original[original.len() - 1 - i].0
                &&& r@[i].state == original[original.len() - 1 - i].1
                &&& r@[i].actions_view() == file_actions(original[original.len() - 1 - i].1)
            },
            forall|i: int| 0 <= i < out@.len() ==> {
                &&& (#[trigger] out@[i]).path == original[i].0
                &&& out@[i].state == original[i].1
                &&& out@[i].actions_view() == file_actions(original[i].1)
            },
        decreases r@.len(),
    {
        let info = r.pop().unwrap();
        out.push(info);
    }
    out
}

/// Result of contract validation.
#[derive(Debug, Clone, Copy, PartialEq, Eq, Structural)]
pub enum ContractValidation {
    /// Contract is valid - hook can block this action for this state
    Valid,
    /// Action is not allowed for this file state
    ActionNotAllowed,
    /// Hook does not run for this action
    HookNotRelevant,
    /// Hook runs but cannot block the action
    HookCannotBlock,
}

/// The validation outcome for a file state, an action and a hook.
pub open spec fn contract_outcome(state: FileStateKind, action: ActionKind, hook: HookKind) -> ContractValidation {
    if !state_actions(state).contains(action) {
        ContractValidation::ActionNotAllowed
    } else {
        lookup_outcome(action_hooks(action), hook)
    }
}

/// Contract validation function.
pub fn validate_contract(state: FileStateKind, action: ActionKind, hook: HookKind) -> (r: ContractValidation)
    ensures
        r == contract_outcome(state, action, hook),
{
    let allowed = allowed_actions(state);
    let mut found = false;
    let mut i: usize = 0;
    while i < allowed.len()
        invariant
            allowed@ == state_actions(state),
            i <= allowed@.len(),
            found == exists|k: int| 0 <= k < i && allowed@[k] == action,
        decreases allowed@.len() - i,
    {
        if allowed[i] == action {
            found = true;
        }
        i = i + 1;
    }
    if !found {
        return ContractValidation::ActionNotAllowed;
    }
    let hooks = hooks_for_action(action);
    let mut j: usize = 0;
    while j < hooks.len()
        invariant
            hooks@ == action_hooks(action),
            state_actions(state).contains(action),
            j <= hooks@.len(),
            forall|k: int| 0 <= k < j ==> hooks@[k].hook != hook,
        decreases hooks@.len() - j,
    {
        if hooks[j].hook == hook {
            let ghost w = j as int;
            proof {
                let c = choose|i: int| 0 <= i < action_hooks(action).len() && #[trigger] action_hooks(action)[i].hook == hook
                    && forall|jj: int| 0 <= jj < i ==> action_hooks(action)[jj].hook != hook;
                assert(0 <= w < action_hooks(action).len() && action_hooks(action)[w].hook == hook
                    && forall|jj: int| 0 <= jj < w ==> action_hooks(action)[jj].hook != hook);
                if c < w {
                } else if w < c {
                }
                assert(c == w);
            }
            if hooks[j].can_block {
                return ContractValidation::Valid;
            } else {
                return ContractValidation::HookCannotBlock;
            }
        }
        j = j + 1;
    }
    ContractValidation::HookNotRelevant
}

impl ContractValidation {
    /// Check if the contract is valid.
    pub fn is_valid(&self) -> (r: bool)
        ensures
            r == (*self == ContractValidation::Valid),
    {
        matches!(self, ContractValidation::Valid)
    }

    /// A human-readable description, as text.
    pub open spec fn description_text(self) -> Seq<char> {
        match self {
            ContractValidation::Valid => "Valid contract: Hook can block this action for this file state"@,
            ContractValidation::ActionNotAllowed => "Action not allowed for this file state"@,
            ContractValidation::HookNotRelevant => "Hook does not run for this action"@,
            ContractValidation::HookCannotBlock => "Hook runs but cannot block the action"@,
        }
    }

    /// Get a human-readable description.
    pub fn description(&self) -> (r: &'static str)
        ensures
            r@ == self.description_text(),
    {
        match self {
            ContractValidation::Valid => "Valid contract: Hook can block this action for this file state",
            ContractValidation::ActionNotAllowed => "Action not allowed for this file state",
            ContractValidation::HookNotRelevant => "Hook does not run for this action",
            ContractValidation::HookCannotBlock => "Hook runs but cannot block the action",
        }
    }
}

/// No hook occurs twice in `hooks`.
#[verifier::opaque]
pub open spec fn hooks_distinct(hooks: Seq<HookInfo>) -> bool {
    forall|i: int, j: int| 0 <= i < j < hooks.len() ==> #[trigger] hooks[i].hook != #[trigger] hooks[j].hook
}

/// No hook runs twice for the same action.
pub proof fn lemma_action_hooks_distinct(action: ActionKind)
    ensures
        hooks_distinct(action_hooks(action)),
{
    reveal(hooks_distinct);
    match action {
        ActionKind::Commit => {},
        ActionKind::Merge => {},
        ActionKind::Rebase => {},
        ActionKind::Push => {},
        ActionKind::ReceivePush => {},
        ActionKind::Checkout => {},
        ActionKind::ApplyPatch => {},
        ActionKind::GarbageCollect => {},
        ActionKind::EmailSend => {},
    }
}

proof fn lemma_same_hook_same_index(hooks: Seq<HookInfo>, i: int, k: int)
    requires
        hooks_distinct(hooks),
        0 <= i < hooks.len(),
        0 <= k < hooks.len(),
        hooks[i].hook == hooks[k].hook,
    ensures
        i == k,
{
    reveal(hooks_distinct);
    if i < k {
        assert(hooks[i].hook != hooks[k].hook);
    } else if k < i {
        assert(hooks[k].hook != hooks[i].hook);
    }
}

/// The outcome of looking `hook` up in the hook list `hs` of an allowed action.
pub open spec fn lookup_outcome(hs: Seq<HookInfo>, hook: HookKind) -> ContractValidation {
    if !(exists|i: int| 0 <= i < hs.len() && #[trigger] hs[i].hook == hook) {
        ContractValidation::HookNotRelevant
    } else {
        let i = choose|i: int| 0 <= i < hs.len() && #[trigger] hs[i].hook == hook
            && forall|j: int| 0 <= j < i ==> hs[j].hook != hook;
        if hs[i].can_block {
            ContractValidation::Valid
        } else {
            ContractValidation::HookCannotBlock
        }
    }
}

proof fn lemma_lookup_valid(hs: Seq<HookInfo>, hook: HookKind)
    requires
        hooks_distinct(hs),
    ensures
        (lookup_outcome(hs, hook) == ContractValidation::Valid) <==> hooks_block(hs, hook),
{
    if exists|i: int| 0 <= i < hs.len() && #[trigger] hs[i].hook == hook {
        let w = choose|i: int| 0 <= i < hs.len() && #[trigger] hs[i].hook == hook;
        assert forall|j: int| 0 <= j < w implies hs[j].hook != hook by {
            if hs[j].hook == hook {
                lemma_same_hook_same_index(hs, j, w);
            }
        }
        let c = choose|i: int| 0 <= i < hs.len() && #[trigger] hs[i].hook == hook
            && forall|j: int| 0 <= j < i ==> hs[j].hook != hook;
        assert(0 <= c < hs.len() && hs[c].hook == hook);
        if exists|k: int| 0 <= k < hs.len() && #[trigger] hs[k].hook == hook && hs[k].can_block {
            let k = choose|k: int| 0 <= k < hs.len() && #[trigger] hs[k].hook == hook && hs[k].can_block;
            lemma_same_hook_same_index(hs, k, c);
        }
    }
}

/// A contract is valid exactly when the file state allows the action and the
/// hook runs for that action and can block it.
pub proof fn lemma_valid_iff_allowed_and_blocking(state: FileStateKind, action: ActionKind, hook: HookKind)
    ensures
        (contract_outcome(state, action, hook) == ContractValidation::Valid) <==> (state_actions(
            state,
        ).contains(action) && hook_blocks(action, hook)),
{
    lemma_action_hooks_distinct(action);
    lemma_lookup_valid(action_hooks(action), hook);
}

/// A file state that allows no action (unstaged, untracked or ignored files)
/// makes every hook/action contract fail with "action not allowed".
pub proof fn lemma_no_actions_no_contracts(state: FileStateKind, action: ActionKind, hook: HookKind)
    requires
        state_actions(state).len() == 0,
    ensures
        contract_outcome(state, action, hook) == ContractValidation::ActionNotAllowed,
{
}

} // verus!
