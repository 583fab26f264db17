//! The naming of temporary files and the life cycle of a file that is
//! written aside and then renamed onto its destination in one step.
use vstd::prelude::*;
use crate::path::{file_name, push_bytes, spec_file_name, trim_tail, trimmed_length};

verus! {

pub open spec fn is_alphanumeric(b: u8) -> bool {
    (0x30 <= b <= 0x39) || (0x41 <= b <= 0x5a) || (0x61 <= b <= 0x7a)
}

/// The length of the random part of a temporary name.
pub const SUFFIX_LEN: usize = 8;

/// A random part fit for a temporary name.
pub open spec fn valid_suffix(s: Seq<u8>) -> bool {
    &&& s.len() == SUFFIX_LEN
    &&& forall|i: int| 0 <= i < s.len() ==> is_alphanumeric(#[trigger] s[i])
}

/// `.tmp`
pub open spec fn tmp_extension() -> Seq<u8> {
    seq![0x2eu8, 0x74u8, 0x6du8, 0x70u8]
}

/// The temporary name for `name` with the random part `suffix`:
/// `<name>.<suffix>.tmp`.
pub open spec fn spec_temp_filename(name: Seq<u8>, suffix: Seq<u8>) -> Seq<u8> {
    name + seq![0x2eu8] + suffix + tmp_extension()
}

/// The temporary sibling of `p` with the random part `suffix`, if `p`
/// names a file: it lies in the same directory, so that renaming it onto
/// `p` stays on one file system.
pub open spec fn spec_temp_path(p: Seq<u8>, suffix: Seq<u8>) -> Option<Seq<u8>> {
    if spec_file_name(p) is Some {
        Some(spec_temp_filename(trim_tail(p), suffix))
    } else {
        None
    }
}

/// Relies on rand 0.8's `Alphanumeric` distribution, sampled through
/// `thread_rng`: each draw is an ASCII letter or digit.
#[verifier::external_body]
fn random_alphanumeric() -> (r: u8)
    ensures
        is_alphanumeric(r),
{
    rand::Rng::sample(&mut rand::thread_rng(), rand::distributions::Alphanumeric)
}

/// A fresh random part for a temporary name.
pub fn random_suffix() -> (r: Vec<u8>)
    ensures
        valid_suffix(r@),
{
    let mut r: Vec<u8> = Vec::new();
    while r.len() < SUFFIX_LEN
        invariant
            r@.len() <= SUFFIX_LEN,
            forall|i: int| 0 <= i < r@.len() ==> is_alphanumeric(#[trigger] r@[i]),
        decreases SUFFIX_LEN - r@.len(),
    {
        let b = random_alphanumeric();
        r.push(b);
    }
    r
}

/// The temporary name for `name` with the given random part.
pub fn temp_filename_with(name: &[u8], suffix: &[u8]) -> (r: Vec<u8>)
    ensures
        r@ == spec_temp_filename(name@, suffix@),
{
    let mut r: Vec<u8> = Vec::new();
    push_bytes(&mut r, name);
    r.push(0x2e);
    push_bytes(&mut r, suffix);
    let ext: [u8; 4] = [0x2e, 0x74, 0x6d, 0x70];
    push_bytes(&mut r, ext.as_slice());
    assert(ext@ == tmp_extension());
    r
}

/// A temporary name for `name`, with a fresh random part.
pub fn temp_filename(name: &[u8]) -> (r: Vec<u8>)
    ensures
        exists|s: Seq<u8>| valid_suffix(s) && r@ == spec_temp_filename(name@, s),
{
    let suffix = random_suffix();
    temp_filename_with(name, suffix.as_slice())
}

/// The temporary sibling of `p` with the given random part, or `None`
/// where `p` names no file.
pub fn temp_path_with(p: &[u8], suffix: &[u8]) -> (r: Option<Vec<u8>>)
    ensures
        r is None <==> spec_temp_path(p@, suffix@) is None,
        r matches Some(v) ==> spec_temp_path(p@, suffix@) == Some(v@),
{
    match file_name(p) {
        None => None,
        Some(_) => {
            let n = trimmed_length(p);
            let base = vstd::slice::slice_subrange(p, 0, n);
            Some(temp_filename_with(base, suffix))
        }
    }
}

/// A temporary sibling of `p` with a fresh random part, or `None` where
/// `p` names no file.
pub fn temp_path(p: &[u8]) -> (r: Option<Vec<u8>>)
    ensures
        r is None <==> spec_file_name(p@) is None,
        r matches Some(v) ==> exists|s: Seq<u8>|
            valid_suffix(s) && spec_temp_path(p@, s) == Some(v@),
{
    let suffix = random_suffix();
    temp_path_with(p, suffix.as_slice())
}

/// What the file system is asked to do at a step of the life cycle.
#[derive(Debug, Clone, Copy, PartialEq, Eq, Structural)]
pub enum FileAction {
    Nothing,
    /// Force the temporary file to stable storage, then rename it onto the target.
    SyncAndRename,
    /// Remove the target path.
    RemoveTarget,
    /// Remove the temporary path.
    RemoveTemp,
}

/// The life cycle of one file written aside: open until it is committed,
/// and committed at most once.
#[derive(Debug, Clone, Copy)]
pub struct CommitState {
    committed: bool,
}

impl CommitState {
    pub closed spec fn is_committed(self) -> bool {
        self.committed
    }

    /// What `commit` does in this state.
    pub open spec fn spec_commit_action(self) -> FileAction {
        if self.is_committed() {
            FileAction::Nothing
        } else {
            FileAction::SyncAndRename
        }
    }

    /// What `discard` does in this state.
    pub open spec fn spec_discard_action(self) -> FileAction {
        if self.is_committed() {
            FileAction::Nothing
        } else {
            FileAction::RemoveTarget
        }
    }

    /// What is left to clean up when the file is abandoned in this state.
    pub open spec fn spec_abandon_action(self) -> FileAction {
        if self.is_committed() {
            FileAction::Nothing
        } else {
            FileAction::RemoveTemp
        }
    }

    /// A file just opened: not committed.
    pub fn new() -> (r: Self)
        ensures
            !r.is_committed(),
    {
        CommitState { committed: false }
    }

    pub fn committed(&self) -> (r: bool)
        ensures
            r == self.is_committed(),
    {
        self.committed
    }

    /// The action that commits: a sync and a rename the first time,
    /// nothing once committed.
    pub fn commit_action(&self) -> (r: FileAction)
        ensures
            r == self.spec_commit_action(),
    {
        if self.committed {
            FileAction::Nothing
        } else {
            FileAction::SyncAndRename
        }
    }

    /// Records that the sync and the rename succeeded.
    pub fn mark_committed(&mut self)
        ensures
            final(self).is_committed(),
    {
        self.committed = true;
    }

    /// The action that discards: the target is removed, unless the file
    /// was committed.
    pub fn discard_action(&self) -> (r: FileAction)
        ensures
            r == self.spec_discard_action(),
    {
        if self.committed {
            FileAction::Nothing
        } else {
            FileAction::RemoveTarget
        }
    }

    /// The clean-up owed when the file is abandoned: its temporary path is
    /// removed, unless the file was committed.
    pub fn abandon_action(&self) -> (r: FileAction)
        ensures
            r == self.spec_abandon_action(),
    {
        if self.committed {
            FileAction::Nothing
        } else {
            FileAction::RemoveTemp
        }
    }
}

/// Committing twice does what committing once does: once a commit has
/// succeeded, another commit asks for nothing, and neither does a discard
/// nor the clean-up of the file.
pub proof fn lemma_commit_idempotent(t: CommitState)
    requires
        t.is_committed(),
    ensures
        t.spec_commit_action() == FileAction::Nothing,
        t.spec_discard_action() == FileAction::Nothing,
        t.spec_abandon_action() == FileAction::Nothing,
{
}

/// A file abandoned before its commit succeeded leaves nothing behind: its
/// clean-up removes the temporary path, and only a commit ever renames
/// onto the target.
pub proof fn lemma_abandoned_cleans_up(s: CommitState)
    requires
        !s.is_committed(),
    ensures
        s.spec_abandon_action() == FileAction::RemoveTemp,
        s.spec_discard_action() != FileAction::SyncAndRename,
        s.spec_abandon_action() != FileAction::SyncAndRename,
{
}

} // verus!
