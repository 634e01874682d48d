//! The review queue: edits that agents proposed and that wait for a
//! decision.
//!
//! Every proposed edit passes through here before it reaches the live
//! code.  The user sees the head of the queue as a line diff against
//! the live code and approves it, rejects it, or skips it for now.

use vstd::prelude::*;
use vstd::string::StrSliceExecFns;
use vstd::string::StringExecFns;
use std::collections::VecDeque;
use crate::agent::Id;
use crate::plan::texts;
use crate::system::{AgentSystem, SystemView, change_views};
use crate::text::{skip_trailing_whitespace, to_chars, trim_end};

verus! {

broadcast use vstd::std_specs::hash::group_hash_axioms;

/// What a line of a diff says of its text.
#[derive(Clone, Copy, Debug, PartialEq, Eq, Structural)]
pub enum ChangeKind {
    /// The line stands in both texts.
    Equal,
    /// The line stands in the old text only.
    Delete,
    /// The line stands in the new text only.
    Insert,
}

/// One line of a diff.  The text keeps its line ending.
#[derive(Debug)]
pub struct DiffLine {
    pub kind: ChangeKind,
    pub text: String,
}

/// Model of a [`DiffLine`].
pub struct DiffLineView {
    pub kind: ChangeKind,
    pub text: Seq<char>,
}

impl View for DiffLine {
    type V = DiffLineView;

    open spec fn view(&self) -> DiffLineView {
        DiffLineView { kind: self.kind, text: self.text@ }
    }
}

/// The models of the lines of a diff, in order.
pub open spec fn diff_views(lines: Seq<DiffLine>) -> Seq<DiffLineView> {
    lines.map_values(|l: DiffLine| l@)
}

/// The line diff that `similar` computes from `old` to `new`: what
/// `TextDiff::from_lines(old, new).iter_all_changes()` yields, each change
/// by its tag and its value.
pub uninterp spec fn line_changes(old: Seq<char>, new: Seq<char>) -> Seq<DiffLineView>;

/// Diffs two texts line by line with `similar::TextDiff::from_lines`, in
/// its default configuration (Myers' algorithm, no deadline), and hands
/// out the changes that `iter_all_changes` yields, in order: for each the
/// tag of `Change::tag` and the text of `Change::value`.  The result
/// depends on the two texts alone and is named [`line_changes`].
#[verifier::external_body]
pub(crate) fn diff_lines(old: &str, new: &str) -> (lines: Vec<DiffLine>)
    ensures
        diff_views(lines@) == line_changes(old@, new@),
{
    let mut lines = Vec::new();
    for change in similar::TextDiff::from_lines(old, new).iter_all_changes() {
        let kind = match change.tag() {
            similar::ChangeTag::Equal => ChangeKind::Equal,
            similar::ChangeTag::Delete => ChangeKind::Delete,
            similar::ChangeTag::Insert => ChangeKind::Insert,
        };
        lines.push(DiffLine { kind, text: change.value().to_string() });
    }
    lines
}

/// The mark that a line of the given kind is shown with.
pub open spec fn sign(kind: ChangeKind) -> Seq<char> {
    match kind {
        ChangeKind::Equal => " "@,
        ChangeKind::Delete => "-"@,
        ChangeKind::Insert => "+"@,
    }
}

/// A line of a diff as it is shown: its mark, a space, and its text
/// without the white space at its end.
pub open spec fn shown_line(line: DiffLineView) -> Seq<char> {
    sign(line.kind) + " "@ + trim_end(line.text)
}

/// A diff as it is shown, line by line.
pub open spec fn shown_diff(lines: Seq<DiffLineView>) -> Seq<Seq<char>> {
    lines.map_values(|l: DiffLineView| shown_line(l))
}

/// Renders one line of a diff.
pub fn render_diff_line(line: &DiffLine) -> (shown: String)
    ensures
        shown@ == shown_line(line@),
{
    let mut shown = match line.kind {
        ChangeKind::Equal => String::from_str(" "),
        ChangeKind::Delete => String::from_str("-"),
        ChangeKind::Insert => String::from_str("+"),
    };
    shown.append(" ");
    let chars = to_chars(line.text.as_str());
    let end = skip_trailing_whitespace(&chars, 0, chars.len());
    assert(chars@.subrange(0, chars.len() as int) =~= chars@);
    shown.append(line.text.as_str().substring_char(0, end));
    shown
}

/// Renders a diff, line by line.
pub fn render_diff(lines: &Vec<DiffLine>) -> (shown: Vec<String>)
    ensures
        texts(shown@) == shown_diff(diff_views(lines@)),
{
    let mut shown: Vec<String> = Vec::new();
    let mut i: usize = 0;
    while i < lines.len()
        invariant
            i <= lines.len(),
            shown.len() == i,
            forall|j: int| 0 <= j < i ==> shown@[j]@ == shown_line(lines@[j]@),
        decreases lines.len() - i,
    {
        shown.push(render_diff_line(&lines[i]));
        i += 1;
    }
    shown
}

/// The line diff from `live_code` to `proposed`, as it is shown to the
/// user.
pub fn review_diff(live_code: &str, proposed: &str) -> (shown: Vec<String>)
    ensures
        texts(shown@) == shown_diff(line_changes(live_code@, proposed@)),
{
    let lines = diff_lines(live_code, proposed);
    render_diff(&lines)
}

/// What the host does when an edit was approved.
#[derive(Debug)]
pub struct Approval {
    /// Whether to take a snapshot for undo before anything else.
    pub snapshot_first: bool,
    /// The live code with the edit in it.
    pub live_code: String,
    /// The remark to enter in the frozen history.
    pub frozen_log: String,
    /// The code to enter in the frozen history after the remark.
    pub frozen_code: String,
}

/// Model of an [`Approval`].
pub struct ApprovalView {
    pub snapshot_first: bool,
    pub live_code: Seq<char>,
    pub frozen_log: Seq<char>,
    pub frozen_code: Seq<char>,
}

impl View for Approval {
    type V = ApprovalView;

    open spec fn view(&self) -> ApprovalView {
        ApprovalView {
            snapshot_first: self.snapshot_first,
            live_code: self.live_code@,
            frozen_log: self.frozen_log@,
            frozen_code: self.frozen_code@,
        }
    }
}

/// The model of an optional approval.
pub open spec fn optional_approval_view(approval: Option<Approval>) -> Option<ApprovalView> {
    match approval {
        Some(a) => Some(a@),
        None => None,
    }
}

/// The name that an edit is credited to: that of the agent held under
/// `id`, or a stand-in where none is.
pub open spec fn author_name(s: SystemView, id: Id) -> Seq<char> {
    if s.agents.contains_key(id) {
        s.agents[id].config.name
    } else {
        "Unknown Agent"@
    }
}

/// What approving the edit `code` of the agent `id` asks of the host.
pub open spec fn approval_of(
    s: SystemView,
    id: Id,
    code: Seq<char>,
    live_code: Seq<char>,
    trial: bool,
) -> ApprovalView {
    ApprovalView {
        snapshot_first: !trial,
        live_code: live_code + "\n"@ + code,
        frozen_log: "\n# Agent "@ + author_name(s, id) + " wrote code"@,
        frozen_code: code,
    }
}

/// The edits that wait for a decision, the next one first.
pub struct ReviewQueue {
    pub pending_reviews: VecDeque<(Id, String)>,
}

impl View for ReviewQueue {
    type V = Seq<(Id, Seq<char>)>;

    open spec fn view(&self) -> Seq<(Id, Seq<char>)> {
        change_views(self.pending_reviews@)
    }
}

/// A queue after its head went to its end.
pub open spec fn rotated(queue: Seq<(Id, Seq<char>)>) -> Seq<(Id, Seq<char>)> {
    if queue.len() == 0 {
        queue
    } else {
        queue.drop_first().push(queue[0])
    }
}

/// A queue after its head left.
pub open spec fn without_head(queue: Seq<(Id, Seq<char>)>) -> Seq<(Id, Seq<char>)> {
    if queue.len() == 0 {
        queue
    } else {
        queue.drop_first()
    }
}

impl SystemView {
    /// The state with no proposed change left.
    pub open spec fn without_changes(self) -> SystemView {
        SystemView { pending_changes: Seq::empty(), ..self }
    }
}

impl Default for ReviewQueue {
    fn default() -> (queue: ReviewQueue)
        ensures
            queue@ == Seq::<(Id, Seq<char>)>::empty(),
    {
        ReviewQueue::new()
    }
}

impl ReviewQueue {
    /// An empty queue.
    pub fn new() -> (queue: ReviewQueue)
        ensures
            queue@ == Seq::<(Id, Seq<char>)>::empty(),
    {
        let queue = ReviewQueue { pending_reviews: VecDeque::new() };
        queue
    }

    /// The name that an edit of the agent `id` is credited to.
    pub fn author(system: &AgentSystem, id: Id) -> (name: String)
        ensures
            name@ == author_name(system@, id),
    {
        match system.agents.get(&id) {
            Some(agent) => agent.config.name.clone(),
            None => String::from_str("Unknown Agent"),
        }
    }

    /// Moves every change that the scheduler collected to the end of the
    /// queue, as it is and in order.
    pub fn collect(&mut self, system: &mut AgentSystem)
        ensures
            final(self)@ == old(self)@ + old(system)@.pending_changes,
            final(system)@ == old(system)@.without_changes(),
    {
        loop
            invariant_except_break
                self@ + system@.pending_changes == old(self)@ + old(system)@.pending_changes,
            invariant
                system@.without_changes() == old(system)@.without_changes(),
            ensures
                self@ == old(self)@ + old(system)@.pending_changes,
                system@ == old(system)@.without_changes(),
            decreases system.pending_changes@.len(),
        {
            match system.pending_changes.pop_front() {
                Some(item) => {
                    self.pending_reviews.push_back(item);
                },
                None => {
                    assert(system@.pending_changes =~= Seq::empty());
                    break;
                },
            }
        }
    }

    /// The diff of the edit at the head of the queue against the live
    /// code, as it is shown; `None` when nothing waits.
    pub fn head_diff(&self, live_code: &str) -> (shown: Option<Vec<String>>)
        ensures
            match shown {
                Some(lines) => self@.len() > 0 && texts(lines@) == shown_diff(
                    line_changes(live_code@, self@[0].1),
                ),
                None => self@.len() == 0,
            },
    {
        if self.pending_reviews.len() == 0 {
            return None;
        }
        let head = &self.pending_reviews[0];
        Some(review_diff(live_code, head.1.as_str()))
    }

    /// Approves the edit at the head of the queue: the edit leaves the
    /// queue, and the result says what the host is to do.  The edit goes
    /// behind the live code on a line of its own; a snapshot is taken
    /// first unless trial code is being tried out.  Nothing happens when
    /// nothing waits.
    pub fn approve(&mut self, system: &AgentSystem, live_code: &str, trial: bool) -> (approval:
        Option<Approval>)
        ensures
            final(self)@ == without_head(old(self)@),
            optional_approval_view(approval) == if old(self)@.len() == 0 {
                None
            } else {
                Some(
                    approval_of(system@, old(self)@[0].0, old(self)@[0].1, live_code@, trial),
                )
            },
    {
        match self.pending_reviews.pop_front() {
            Some(item) => {
                let (id, code) = item;
                let mut merged = String::from_str(live_code);
                merged.append("\n");
                merged.append(code.as_str());
                let mut remark = String::from_str("\n# Agent ");
                remark.append(ReviewQueue::author(system, id).as_str());
                remark.append(" wrote code");
                Some(
                    Approval {
                        snapshot_first: !trial,
                        live_code: merged,
                        frozen_log: remark,
                        frozen_code: code,
                    },
                )
            },
            None => None,
        }
    }

    /// Rejects the edit at the head of the queue: it leaves the queue and
    /// is dropped.
    pub fn reject(&mut self)
        ensures
            final(self)@ == without_head(old(self)@),
    {
        self.pending_reviews.pop_front();
    }

    /// Skips the edit at the head of the queue: it goes to the end, so
    /// that the next one shows.
    pub fn skip(&mut self)
        ensures
            final(self)@ == rotated(old(self)@),
    {
        match self.pending_reviews.pop_front() {
            Some(item) => {
                self.pending_reviews.push_back(item);
            },
            None => {},
        }
    }

    /// Drops every edit that waits.
    pub fn clear(&mut self)
        ensures
            final(self)@ == Seq::<(Id, Seq<char>)>::empty(),
    {
        self.pending_reviews.clear();
    }
}

} // verus!
