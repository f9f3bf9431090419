use crate::style::{paint, painted, Look};
use vstd::prelude::*;

verus! {

/// An operation in progress in a repository, as its control directory shows it.
#[derive(PartialEq, Eq, Structural, Clone, Copy, Debug)]
pub enum RepoOpState {
    RebaseInteractive,
    RebaseMerge,
    Rebase,
    Am,
    RebaseOrAm,
    Merge,
    CherryPick,
    Revert,
    Bisect,
}

/// A file or directory whose presence in the control directory marks an operation.
#[derive(PartialEq, Eq, Structural, Clone, Copy, Debug)]
pub enum Marker {
    RebaseMerge,
    RebaseMergeInteractive,
    RebaseApply,
    RebaseApplyRebasing,
    RebaseApplyApplying,
    MergeHead,
    CherryPickHead,
    RevertHead,
    BisectLog,
}

/// Which markers exist in the control directory.
#[derive(PartialEq, Eq, Structural, Clone, Copy, Debug)]
pub struct ControlMarkers {
    pub rebase_merge: bool,
    pub rebase_merge_interactive: bool,
    pub rebase_apply: bool,
    pub rebase_apply_rebasing: bool,
    pub rebase_apply_applying: bool,
    pub merge_head: bool,
    pub cherry_pick_head: bool,
    pub revert_head: bool,
    pub bisect_log: bool,
}

pub open spec fn marker_path_text(m: Marker) -> Seq<char> {
    match m {
        Marker::RebaseMerge => "rebase-merge"@,
        Marker::RebaseMergeInteractive => "rebase-merge/interactive"@,
        Marker::RebaseApply => "rebase-apply"@,
        Marker::RebaseApplyRebasing => "rebase-apply/rebasing"@,
        Marker::RebaseApplyApplying => "rebase-apply/applying"@,
        Marker::MergeHead => "MERGE_HEAD"@,
        Marker::CherryPickHead => "CHERRY_PICK_HEAD"@,
        Marker::RevertHead => "REVERT_HEAD"@,
        Marker::BisectLog => "BISECT_LOG"@,
    }
}

/// Where a marker lies, relative to the control directory.
pub fn marker_path(m: Marker) -> (r: &'static str)
    ensures
        r@ == marker_path_text(m),
{
    match m {
        Marker::RebaseMerge => "rebase-merge",
        Marker::RebaseMergeInteractive => "rebase-merge/interactive",
        Marker::RebaseApply => "rebase-apply",
        Marker::RebaseApplyRebasing => "rebase-apply/rebasing",
        Marker::RebaseApplyApplying => "rebase-apply/applying",
        Marker::MergeHead => "MERGE_HEAD",
        Marker::CherryPickHead => "CHERRY_PICK_HEAD",
        Marker::RevertHead => "REVERT_HEAD",
        Marker::BisectLog => "BISECT_LOG",
    }
}

impl Default for ControlMarkers {
    /// No marker found.
    fn default() -> (r: Self)
        ensures
            forall|m: Marker| !r.has(m),
    {
        ControlMarkers {
            rebase_merge: false,
            rebase_merge_interactive: false,
            rebase_apply: false,
            rebase_apply_rebasing: false,
            rebase_apply_applying: false,
            merge_head: false,
            cherry_pick_head: false,
            revert_head: false,
            bisect_log: false,
        }
    }
}

impl ControlMarkers {
    /// Whether the marker `m` was found.
    pub open spec fn has(self, m: Marker) -> bool {
        match m {
            Marker::RebaseMerge => self.rebase_merge,
            Marker::RebaseMergeInteractive => self.rebase_merge_interactive,
            Marker::RebaseApply => self.rebase_apply,
            Marker::RebaseApplyRebasing => self.rebase_apply_rebasing,
            Marker::RebaseApplyApplying => self.rebase_apply_applying,
            Marker::MergeHead => self.merge_head,
            Marker::CherryPickHead => self.cherry_pick_head,
            Marker::RevertHead => self.revert_head,
            Marker::BisectLog => self.bisect_log,
        }
    }

    /// Records whether the marker `m` was found, leaving the others as they were.
    pub fn set(&mut self, m: Marker, present: bool)
        ensures
            final(self).has(m) == present,
            forall|o: Marker| o != m ==> final(self).has(o) == old(self).has(o),
    {
        match m {
            Marker::RebaseMerge => self.rebase_merge = present,
            Marker::RebaseMergeInteractive => self.rebase_merge_interactive = present,
            Marker::RebaseApply => self.rebase_apply = present,
            Marker::RebaseApplyRebasing => self.rebase_apply_rebasing = present,
            Marker::RebaseApplyApplying => self.rebase_apply_applying = present,
            Marker::MergeHead => self.merge_head = present,
            Marker::CherryPickHead => self.cherry_pick_head = present,
            Marker::RevertHead => self.revert_head = present,
            Marker::BisectLog => self.bisect_log = present,
        }
    }

    pub open spec fn rebase_interactive(self) -> bool {
        self.rebase_merge && self.rebase_merge_interactive
    }

    pub open spec fn rebase(self) -> bool {
        self.rebase_apply && self.rebase_apply_rebasing
    }

    pub open spec fn am(self) -> bool {
        self.rebase_apply && self.rebase_apply_applying
    }
}

/// Every marker, in the order they are probed.
pub fn all_markers() -> (r: Vec<Marker>)
    ensures
        forall|m: Marker| r@.contains(m),
{
    let r = vec![
        Marker::RebaseMerge,
        Marker::RebaseMergeInteractive,
        Marker::RebaseApply,
        Marker::RebaseApplyRebasing,
        Marker::RebaseApplyApplying,
        Marker::MergeHead,
        Marker::CherryPickHead,
        Marker::RevertHead,
        Marker::BisectLog,
    ];
    assert forall|m: Marker| r@.contains(m) by {
        match m {
            Marker::RebaseMerge => assert(r@[0] == m),
            Marker::RebaseMergeInteractive => assert(r@[1] == m),
            Marker::RebaseApply => assert(r@[2] == m),
            Marker::RebaseApplyRebasing => assert(r@[3] == m),
            Marker::RebaseApplyApplying => assert(r@[4] == m),
            Marker::MergeHead => assert(r@[5] == m),
            Marker::CherryPickHead => assert(r@[6] == m),
            Marker::RevertHead => assert(r@[7] == m),
            Marker::BisectLog => assert(r@[8] == m),
        }
    }
    r
}

/// `s` followed by `t` where `present` holds.
pub open spec fn followed_by(s: Seq<RepoOpState>, present: bool, t: RepoOpState) -> Seq<
    RepoOpState,
> {
    if present {
        s.push(t)
    } else {
        s
    }
}

/// The tags of the operations in progress, in their fixed order.
pub open spec fn tags_of(m: ControlMarkers) -> Seq<RepoOpState> {
    let s0 = Seq::<RepoOpState>::empty();
    let s1 = followed_by(s0, m.rebase_interactive(), RepoOpState::RebaseInteractive);
    let s2 = followed_by(
        s1,
        m.rebase_merge && !m.rebase_interactive(),
        RepoOpState::RebaseMerge,
    );
    let s3 = followed_by(s2, m.rebase(), RepoOpState::Rebase);
    let s4 = followed_by(s3, m.am(), RepoOpState::Am);
    let s5 = followed_by(s4, m.rebase_apply && !(m.rebase() || m.am()), RepoOpState::RebaseOrAm);
    let s6 = followed_by(s5, m.merge_head, RepoOpState::Merge);
    let s7 = followed_by(s6, m.cherry_pick_head, RepoOpState::CherryPick);
    let s8 = followed_by(s7, m.revert_head, RepoOpState::Revert);
    followed_by(s8, m.bisect_log, RepoOpState::Bisect)
}

/// Classifies the operations in progress from the markers found.
pub fn detect(m: &ControlMarkers) -> (r: Vec<RepoOpState>)
    ensures
        r@ == tags_of(*m),
{
    let mut r: Vec<RepoOpState> = Vec::new();
    let rebase = m.rebase_apply && m.rebase_apply_rebasing;
    let am = m.rebase_apply && m.rebase_apply_applying;
    if m.rebase_merge && m.rebase_merge_interactive {
        r.push(RepoOpState::RebaseInteractive);
    } else if m.rebase_merge {
        r.push(RepoOpState::RebaseMerge);
    }
    if rebase {
        r.push(RepoOpState::Rebase);
    }
    if am {
        r.push(RepoOpState::Am);
    }
    if m.rebase_apply && !(rebase || am) {
        r.push(RepoOpState::RebaseOrAm);
    }
    if m.merge_head {
        r.push(RepoOpState::Merge);
    }
    if m.cherry_pick_head {
        r.push(RepoOpState::CherryPick);
    }
    if m.revert_head {
        r.push(RepoOpState::Revert);
    }
    if m.bisect_log {
        r.push(RepoOpState::Bisect);
    }
    r
}

/// The fixed priority of each tag: tags come out in increasing priority.
pub open spec fn rank(t: RepoOpState) -> int {
    match t {
        RepoOpState::RebaseInteractive => 0,
        RepoOpState::RebaseMerge => 1,
        RepoOpState::Rebase => 2,
        RepoOpState::Am => 3,
        RepoOpState::RebaseOrAm => 4,
        RepoOpState::Merge => 5,
        RepoOpState::CherryPick => 6,
        RepoOpState::Revert => 7,
        RepoOpState::Bisect => 8,
    }
}

pub open spec fn in_priority_order(s: Seq<RepoOpState>) -> bool {
    forall|i: int, j: int| 0 <= i < j < s.len() ==> rank(s[i]) < rank(s[j])
}

pub open spec fn ranks_at_most(s: Seq<RepoOpState>, k: int) -> bool {
    forall|i: int| 0 <= i < s.len() ==> rank(s[i]) <= k
}

proof fn lemma_followed_by(s: Seq<RepoOpState>, present: bool, t: RepoOpState, below: int)
    requires
        in_priority_order(s),
        ranks_at_most(s, below),
        below < rank(t),
    ensures
        in_priority_order(followed_by(s, present, t)),
        ranks_at_most(followed_by(s, present, t), rank(t)),
{
}

/// Whatever markers are found, the tags come out in their fixed priority order,
/// each at most once.
pub proof fn lemma_tags_in_priority_order(m: ControlMarkers)
    ensures
        in_priority_order(tags_of(m)),
{
    let s0 = Seq::<RepoOpState>::empty();
    let s1 = followed_by(s0, m.rebase_interactive(), RepoOpState::RebaseInteractive);
    let s2 = followed_by(
        s1,
        m.rebase_merge && !m.rebase_interactive(),
        RepoOpState::RebaseMerge,
    );
    let s3 = followed_by(s2, m.rebase(), RepoOpState::Rebase);
    let s4 = followed_by(s3, m.am(), RepoOpState::Am);
    let s5 = followed_by(s4, m.rebase_apply && !(m.rebase() || m.am()), RepoOpState::RebaseOrAm);
    let s6 = followed_by(s5, m.merge_head, RepoOpState::Merge);
    let s7 = followed_by(s6, m.cherry_pick_head, RepoOpState::CherryPick);
    let s8 = followed_by(s7, m.revert_head, RepoOpState::Revert);
    lemma_followed_by(s0, m.rebase_interactive(), RepoOpState::RebaseInteractive, -1);
    lemma_followed_by(
        s1,
        m.rebase_merge && !m.rebase_interactive(),
        RepoOpState::RebaseMerge,
        0,
    );
    lemma_followed_by(s2, m.rebase(), RepoOpState::Rebase, 1);
    lemma_followed_by(s3, m.am(), RepoOpState::Am, 2);
    lemma_followed_by(s4, m.rebase_apply && !(m.rebase() || m.am()), RepoOpState::RebaseOrAm, 3);
    lemma_followed_by(s5, m.merge_head, RepoOpState::Merge, 4);
    lemma_followed_by(s6, m.cherry_pick_head, RepoOpState::CherryPick, 5);
    lemma_followed_by(s7, m.revert_head, RepoOpState::Revert, 6);
    lemma_followed_by(s8, m.bisect_log, RepoOpState::Bisect, 7);
}

/// The text of a tag.
pub open spec fn tag_text(t: RepoOpState) -> Seq<char> {
    match t {
        RepoOpState::RebaseInteractive => "REBASE-i"@,
        RepoOpState::RebaseMerge => "REBASE-m"@,
        RepoOpState::Rebase => "REBASE"@,
        RepoOpState::Am => "AM"@,
        RepoOpState::RebaseOrAm => "REBASE/AM"@,
        RepoOpState::Merge => "MERGE"@,
        RepoOpState::CherryPick => "CHERRY-PICK"@,
        RepoOpState::Revert => "REVERT"@,
        RepoOpState::Bisect => "BISECT"@,
    }
}

pub fn tag_name(t: RepoOpState) -> (r: &'static str)
    ensures
        r@ == tag_text(t),
{
    match t {
        RepoOpState::RebaseInteractive => "REBASE-i",
        RepoOpState::RebaseMerge => "REBASE-m",
        RepoOpState::Rebase => "REBASE",
        RepoOpState::Am => "AM",
        RepoOpState::RebaseOrAm => "REBASE/AM",
        RepoOpState::Merge => "MERGE",
        RepoOpState::CherryPick => "CHERRY-PICK",
        RepoOpState::Revert => "REVERT",
        RepoOpState::Bisect => "BISECT",
    }
}

/// The texts of the tags, separated by single spaces.
pub open spec fn joined_text(tags: Seq<RepoOpState>) -> Seq<char>
    decreases tags.len(),
{
    if tags.len() == 0 {
        Seq::empty()
    } else if tags.len() == 1 {
        tag_text(tags[0])
    } else {
        joined_text(tags.drop_last()) + " "@ + tag_text(tags.last())
    }
}

/// Joins the texts of the tags with single spaces.
pub fn join_tags(tags: &Vec<RepoOpState>) -> (r: String)
    ensures
        r@ == joined_text(tags@),
{
    let mut r = String::new();
    let mut i: usize = 0;
    while i < tags.len()
        invariant
            i <= tags.len(),
            r@ == joined_text(tags@.subrange(0, i as int)),
        decreases tags.len() - i,
    {
        let ghost prev = tags@.subrange(0, i as int);
        if i > 0 {
            r.append(" ");
        }
        r.append(tag_name(tags[i]));
        assert(tags@.subrange(0, i + 1).drop_last() =~= prev);
        i = i + 1;
    }
    assert(tags@.subrange(0, i as int) =~= tags@);
    r
}

/// The look of the rendered tags: none when there are none, a stronger one
/// when several operations are in progress at once.
pub open spec fn state_look_of(n: nat) -> Option<Look> {
    if n == 0 {
        None
    } else if n == 1 {
        Some(Look::RedBold)
    } else {
        Some(Look::RedBoldReverse)
    }
}

/// The rendered tags: empty when there are none.
pub open spec fn state_text_of(tags: Seq<RepoOpState>) -> Seq<char> {
    match state_look_of(tags.len()) {
        None => Seq::empty(),
        Some(look) => painted(look, joined_text(tags)),
    }
}

pub fn render_state(tags: &Vec<RepoOpState>) -> (r: String)
    ensures
        r@ == state_text_of(tags@),
{
    if tags.len() == 0 {
        String::new()
    } else {
        let joined = join_tags(tags);
        let look = if tags.len() == 1 {
            Look::RedBold
        } else {
            Look::RedBoldReverse
        };
        paint(look, joined.as_str())
    }
}

/// Classifies the markers found and renders the result.
pub fn state_text(m: &ControlMarkers) -> (r: String)
    ensures
        r@ == state_text_of(tags_of(*m)),
{
    let tags = detect(m);
    render_state(&tags)
}

} // verus!
