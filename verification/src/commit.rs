//! The commit pipeline as a state machine. The clipboard write and the
//! paste request are the caller's to perform; the pipeline says which comes
//! next and how the commit ended.

use vstd::prelude::*;

verus! {

/// How a commit ended.
#[derive(Clone, Copy, Debug, PartialEq, Eq, Structural)]
pub enum CommitOutcome {
    /// The symbol is on the clipboard. `paste_requested` says whether a
    /// paste was requested after it.
    Copied { paste_requested: bool },
    /// The clipboard refused the symbol: nothing was copied.
    ClipboardFailed,
}

/// Where a commit stands.
#[derive(Clone, Copy, Debug, PartialEq, Eq, Structural)]
pub enum CommitStage {
    /// The symbol has yet to be written to the clipboard.
    Writing,
    /// The symbol is on the clipboard and a paste has yet to be requested.
    Pasting,
    /// Nothing is left to do but to end the session.
    Finished(CommitOutcome),
}

/// What the caller reports back to the pipeline.
#[derive(Clone, Copy, Debug, PartialEq, Eq, Structural)]
pub enum CommitEvent {
    /// The clipboard write returned; `true` means that it succeeded.
    ClipboardWritten(bool),
    /// The paste request was sent off. How it went is not reported.
    PasteRequested,
}

/// What the caller has to do next.
#[derive(Clone, Copy, Debug, PartialEq, Eq, Structural)]
pub enum CommitStep {
    /// Write the symbol to the clipboard and report how it went.
    WriteClipboard,
    /// Send the paste request off and report that it was sent.
    RequestPaste,
    /// End the session with this outcome.
    Close(CommitOutcome),
}

/// The outcome of a commit, from whether the clipboard took the symbol and
/// whether a paste is wanted after it.
pub open spec fn outcome_of(clipboard_ok: bool, auto_paste: bool) -> CommitOutcome {
    if clipboard_ok {
        CommitOutcome::Copied { paste_requested: auto_paste }
    } else {
        CommitOutcome::ClipboardFailed
    }
}

/// The stage after an event. An event that does not belong to the stage
/// changes nothing.
pub open spec fn next_stage(auto_paste: bool, stage: CommitStage, ev: CommitEvent) -> CommitStage {
    match (stage, ev) {
        (CommitStage::Writing, CommitEvent::ClipboardWritten(ok)) => if ok && auto_paste {
            CommitStage::Pasting
        } else {
            CommitStage::Finished(outcome_of(ok, auto_paste))
        },
        (CommitStage::Pasting, CommitEvent::PasteRequested) => CommitStage::Finished(
            CommitOutcome::Copied { paste_requested: true },
        ),
        _ => stage,
    }
}

/// What a stage asks of the caller.
pub open spec fn step_of(stage: CommitStage) -> CommitStep {
    match stage {
        CommitStage::Writing => CommitStep::WriteClipboard,
        CommitStage::Pasting => CommitStep::RequestPaste,
        CommitStage::Finished(outcome) => CommitStep::Close(outcome),
    }
}

/// The stage after a sequence of events, first to last.
pub open spec fn stage_after(auto_paste: bool, stage: CommitStage, events: Seq<CommitEvent>)
    -> CommitStage
    decreases events.len(),
{
    if events.len() == 0 {
        stage
    } else {
        next_stage(auto_paste, stage_after(auto_paste, stage, events.drop_last()), events.last())
    }
}

impl CommitOutcome {
    /// The symbol reached the clipboard.
    pub open spec fn is_success(self) -> bool {
        self is Copied
    }

    /// Whether the symbol reached the clipboard.
    pub fn succeeded(&self) -> (r: bool)
        ensures
            r == self.is_success(),
    {
        match self {
            CommitOutcome::Copied { .. } => true,
            CommitOutcome::ClipboardFailed => false,
        }
    }
}

/// A commit in progress.
#[derive(Clone, Copy, Debug, PartialEq, Eq, Structural)]
pub struct CommitPipeline {
    pub auto_paste: bool,
    pub stage: CommitStage,
}

impl CommitPipeline {
    /// A commit of which nothing has been done yet.
    pub fn begin(auto_paste: bool) -> (p: CommitPipeline)
        ensures
            p == (CommitPipeline { auto_paste, stage: CommitStage::Writing }),
    {
        CommitPipeline { auto_paste, stage: CommitStage::Writing }
    }

    /// What the caller has to do next: write the clipboard first, request
    /// the paste after a write that succeeded if a paste is wanted, and
    /// close after that or after a write that failed.
    pub fn pending(&self) -> (step: CommitStep)
        ensures
            step == step_of(self.stage),
    {
        match self.stage {
            CommitStage::Writing => CommitStep::WriteClipboard,
            CommitStage::Pasting => CommitStep::RequestPaste,
            CommitStage::Finished(outcome) => CommitStep::Close(outcome),
        }
    }

    /// Takes the caller's report and moves on.
    pub fn advance(&mut self, ev: CommitEvent)
        ensures
            final(self).auto_paste == old(self).auto_paste,
            final(self).stage == next_stage(old(self).auto_paste, old(self).stage, ev),
    {
        match (self.stage, ev) {
            (CommitStage::Writing, CommitEvent::ClipboardWritten(ok)) => {
                if ok && self.auto_paste {
                    self.stage = CommitStage::Pasting;
                } else {
                    self.stage = CommitStage::Finished(commit_outcome(ok, self.auto_paste));
                }
            },
            (CommitStage::Pasting, CommitEvent::PasteRequested) => {
                self.stage = CommitStage::Finished(CommitOutcome::Copied { paste_requested: true });
            },
            _ => {},
        }
    }
}

/// How a commit ends once the clipboard write has returned. A failed write
/// is a failed commit and requests no paste; after a write that succeeded,
/// a paste is requested exactly when `auto_paste` is set.
pub fn commit_outcome(clipboard_ok: bool, auto_paste: bool) -> (r: CommitOutcome)
    ensures
        r == outcome_of(clipboard_ok, auto_paste),
{
    if clipboard_ok {
        CommitOutcome::Copied { paste_requested: auto_paste }
    } else {
        CommitOutcome::ClipboardFailed
    }
}

/// A failed clipboard write never looks like success, whatever else is set.
pub proof fn lemma_failure_is_distinguishable(clipboard_ok: bool, auto_paste: bool)
    ensures
        outcome_of(clipboard_ok, auto_paste).is_success() <==> clipboard_ok,
{
}

/// A commit that is driven as the pipeline asks ends with the outcome that
/// the clipboard write decides: the paste request is sent only after a
/// write that succeeded and only if it is wanted, and has no part in
/// whether the commit counts as a success.
pub proof fn lemma_pipeline_outcome(auto_paste: bool, clipboard_ok: bool)
    ensures
        step_of(CommitStage::Writing) == CommitStep::WriteClipboard,
        ({
            let written = next_stage(
                auto_paste,
                CommitStage::Writing,
                CommitEvent::ClipboardWritten(clipboard_ok),
            );
            if clipboard_ok && auto_paste {
                &&& step_of(written) == CommitStep::RequestPaste
                &&& step_of(next_stage(auto_paste, written, CommitEvent::PasteRequested))
                    == CommitStep::Close(outcome_of(clipboard_ok, auto_paste))
            } else {
                step_of(written) == CommitStep::Close(outcome_of(clipboard_ok, auto_paste))
            }
        }),
{
}

/// Whatever is reported and in whatever order, the pipeline asks for a
/// paste only after a clipboard write that succeeded, and only if a paste
/// is wanted; and it closes only after the clipboard write has returned.
pub proof fn lemma_pipeline_order(auto_paste: bool, events: Seq<CommitEvent>)
    ensures
        stage_after(auto_paste, CommitStage::Writing, events) is Pasting ==> auto_paste
            && events.contains(CommitEvent::ClipboardWritten(true)),
        stage_after(auto_paste, CommitStage::Writing, events) is Finished ==> events.contains(
            CommitEvent::ClipboardWritten(true),
        ) || events.contains(CommitEvent::ClipboardWritten(false)),
        stage_after(auto_paste, CommitStage::Writing, events) matches CommitStage::Finished(o)
            && o.is_success() ==> events.contains(CommitEvent::ClipboardWritten(true)),
    decreases events.len(),
{
    if events.len() > 0 {
        let before = events.drop_last();
        let last = events.last();
        lemma_pipeline_order(auto_paste, before);
        assert(events[events.len() - 1] == last);
        assert forall|e: CommitEvent| before.contains(e) implies events.contains(e) by {
            let k = choose|k: int| 0 <= k < before.len() && before[k] == e;
            assert(events[k] == e);
        }
    }
}

/// Once a commit has finished, no report changes how it ended.
pub proof fn lemma_finished_is_terminal(auto_paste: bool, outcome: CommitOutcome, ev: CommitEvent)
    ensures
        next_stage(auto_paste, CommitStage::Finished(outcome), ev) == CommitStage::Finished(
            outcome,
        ),
{
}

} // verus!
