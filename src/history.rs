//! Sequences of document operations, replayed on the session model, and what
//! holds of every such sequence.

use vstd::prelude::*;
use crate::session::SessionModel;

verus! {

/// One operation on a session, with the outcome of the file access it made.
pub enum SessionStep {
    /// New.
    New,
    /// An edit that leaves the given text.
    Edit(Seq<char>),
    /// Load of a path; the text read, or `None` when the read failed.
    Load(Seq<char>, Option<Seq<char>>),
    /// Save; whether the write succeeded.
    Save(bool),
    /// Save As to a path; whether the write succeeded.
    SaveAs(Seq<char>, bool),
}

impl SessionStep {
    /// New, a successful Load and a successful Save As decide the binding.
    pub open spec fn changes_binding(self) -> bool {
        match self {
            SessionStep::New => true,
            SessionStep::Load(_, read) => read is Some,
            SessionStep::SaveAs(_, written) => written,
            _ => false,
        }
    }

    /// A successful Load or Save As binds the document to a file.
    pub open spec fn binds(self) -> bool {
        match self {
            SessionStep::Load(_, read) => read is Some,
            SessionStep::SaveAs(_, written) => written,
            _ => false,
        }
    }
}

/// The state after one operation.
pub open spec fn step(m: SessionModel, e: SessionStep) -> SessionModel {
    match e {
        SessionStep::New => SessionModel::fresh(),
        SessionStep::Edit(text) => m.after_edit(text),
        SessionStep::Load(path, read) => m.after_load(path, read),
        SessionStep::Save(written) => m.after_save(written),
        SessionStep::SaveAs(path, written) => m.after_save_as(path, written),
    }
}

/// The state after the operations of `steps`, in order, from `m`.
pub open spec fn run(m: SessionModel, steps: Seq<SessionStep>) -> SessionModel
    decreases steps.len(),
{
    if steps.len() == 0 {
        m
    } else {
        step(run(m, steps.drop_last()), steps.last())
    }
}

/// No operation of `steps` after index `i` decides the binding.
pub open spec fn unchanged_after(steps: Seq<SessionStep>, i: int) -> bool {
    forall|j: int| i < j < steps.len() ==> !(#[trigger] steps[j]).changes_binding()
}

/// After any sequence of operations, a file is bound exactly when the last
/// operation that decided the binding was a successful Load or Save As; when
/// none did, exactly when one was bound at the start.
pub proof fn lemma_binding_follows_last_change(m: SessionModel, steps: Seq<SessionStep>)
    ensures
        run(m, steps).backing_path is Some <==> {
            ||| exists|i: int|
                0 <= i < steps.len() && (#[trigger] steps[i]).binds() && unchanged_after(steps, i)
            ||| m.backing_path is Some && unchanged_after(steps, -1)
        },
    decreases steps.len(),
{
    if steps.len() > 0 {
        let prev = steps.drop_last();
        let e = steps.last();
        let n = steps.len() - 1;
        lemma_binding_follows_last_change(m, prev);
        assert(steps[n] == e);
        if e.changes_binding() {
            assert forall|i: int| -1 <= i < n implies !unchanged_after(steps, i) by {
                assert(steps[n].changes_binding());
            }
            if e.binds() {
                assert(steps[n].binds() && unchanged_after(steps, n));
            }
        } else {
            assert forall|i: int| -1 <= i < n implies unchanged_after(steps, i) == unchanged_after(
                prev,
                i,
            ) by {
                if unchanged_after(prev, i) {
                    assert forall|j: int| i < j < steps.len() implies !(
                    #[trigger] steps[j]).changes_binding() by {
                        if j < n {
                            assert(steps[j] == prev[j]);
                        }
                    }
                }
                if unchanged_after(steps, i) {
                    assert forall|j: int| i < j < prev.len() implies !(
                    #[trigger] prev[j]).changes_binding() by {
                        assert(steps[j] == prev[j]);
                    }
                }
            }
            assert forall|i: int| 0 <= i < n implies steps[i] == prev[i] by {}
            if exists|i: int| 0 <= i < n && (#[trigger] prev[i]).binds() && unchanged_after(prev, i) {
                let i = choose|i: int| 0 <= i < n && (#[trigger] prev[i]).binds() && unchanged_after(prev, i);
                assert(steps[i].binds() && unchanged_after(steps, i));
            }
            if exists|i: int|
                0 <= i < steps.len() && (#[trigger] steps[i]).binds() && unchanged_after(steps, i) {
                let i = choose|i: int|
                    0 <= i < steps.len() && (#[trigger] steps[i]).binds() && unchanged_after(steps, i);
                assert(i < n);
                assert(prev[i].binds() && unchanged_after(prev, i));
            }
        }
    }
}

/// Save right after a successful Load of `path` that read `text` writes
/// `text` back to `path`, and the document counts as unmodified until then.
pub proof fn lemma_save_after_load_writes_back(
    m: SessionModel,
    path: Seq<char>,
    text: Seq<char>,
)
    ensures
        step(m, SessionStep::Load(path, Some(text))).save_target() == Some((path, text)),
        !step(m, SessionStep::Load(path, Some(text))).is_modified(),
{
}

} // verus!
