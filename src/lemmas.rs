use vstd::prelude::*;

use crate::setup::{run, SetupView, Stage};

verus! {

/// Every transition keeps the state well formed.
pub proof fn lemma_after_modes_wf<H, E>(v: SetupView<H, E>, modes: Seq<Result<(), E>>)
    requires
        v.wf(),
    ensures
        v.after_modes(modes).wf(),
        v.after_modes(modes).opened == v.opened,
    decreases modes.len(),
{
    if v.stage is Configuring && modes.len() > 0 {
        lemma_after_modes_wf(v.on_mode(modes[0]), modes.drop_first());
    }
}

/// A run in which every remaining mode switch succeeds ends ready, holding
/// the same handles, all of them non-blocking.
pub proof fn lemma_modes_all_ok<H, E>(v: SetupView<H, E>, modes: Seq<Result<(), E>>)
    requires
        v.wf(),
        v.stage is Configuring,
        v.held.len() - v.configured <= modes.len(),
        forall|i: int| 0 <= i < v.held.len() - v.configured ==> (#[trigger] modes[i]) is Ok,
    ensures
        v.after_modes(modes).stage is Ready,
        v.after_modes(modes).held == v.held,
        v.after_modes(modes).configured == v.held.len(),
    decreases modes.len(),
{
    let u = v.on_mode(modes[0]);
    assert(modes[0] is Ok);
    if u.stage is Configuring {
        let rest = modes.drop_first();
        assert forall|i: int| 0 <= i < u.held.len() - u.configured implies (#[trigger] rest[i]) is Ok by {
            assert(modes[i + 1] is Ok);
        }
        lemma_modes_all_ok(u, rest);
    }
}

/// A run ends with the first failing mode switch: its error, every held
/// handle released.
pub proof fn lemma_modes_first_err<H, E>(v: SetupView<H, E>, modes: Seq<Result<(), E>>, k: int)
    requires
        v.wf(),
        v.stage is Configuring,
        0 <= k < v.held.len() - v.configured,
        k < modes.len(),
        modes[k] is Err,
        forall|j: int| 0 <= j < k ==> (#[trigger] modes[j]) is Ok,
    ensures
        v.after_modes(modes).stage == Stage::<E>::Failed(modes[k]->Err_0),
        v.after_modes(modes).held == Seq::<H>::empty(),
        v.after_modes(modes).released == v.held,
    decreases modes.len(),
{
    if k > 0 {
        let u = v.on_mode(modes[0]);
        assert(modes[0] is Ok);
        let rest = modes.drop_first();
        assert(rest[k - 1] == modes[k]);
        assert forall|j: int| 0 <= j < k - 1 implies (#[trigger] rest[j]) is Ok by {
            assert(modes[j + 1] is Ok);
        }
        lemma_modes_first_err(u, rest, k - 1);
    } else {
        let u = v.on_mode(modes[0]);
        assert(u.after_modes(modes.drop_first()) == u);
    }
}

/// A run that ends ready saw every remaining mode switch succeed.
pub proof fn lemma_ready_needs_all_ok<H, E>(v: SetupView<H, E>, modes: Seq<Result<(), E>>)
    requires
        v.wf(),
        v.stage is Configuring,
        v.after_modes(modes).stage is Ready,
    ensures
        v.held.len() - v.configured <= modes.len(),
        forall|i: int| 0 <= i < v.held.len() - v.configured ==> (#[trigger] modes[i]) is Ok,
    decreases modes.len(),
{
    let u = v.on_mode(modes[0]);
    let rest = modes.drop_first();
    if !(u.stage is Configuring) {
        assert(u.after_modes(rest) == u);
    } else {
        lemma_ready_needs_all_ok(u, rest);
        assert forall|i: int| 0 <= i < v.held.len() - v.configured implies (#[trigger] modes[i]) is Ok by {
            if i > 0 {
                assert(rest[i - 1] == modes[i]);
            }
        }
    }
}

/// Handles are handed out only in non-blocking mode: a run that opened `hs`
/// ends ready exactly when the first `hs.len()` mode switches all succeeded,
/// and then it hands out `hs` itself, every handle non-blocking.
pub proof fn lemma_ready_iff_all_modes_ok<H, E>(hs: Seq<H>, modes: Seq<Result<(), E>>)
    ensures
        run(Ok(hs), modes).stage is Ready <==> (hs.len() <= modes.len() && forall|i: int|
            0 <= i < hs.len() ==> (#[trigger] modes[i]) is Ok),
        run(Ok(hs), modes).stage is Ready ==> {
            &&& run(Ok(hs), modes).outcome() == Ok::<Seq<H>, E>(hs)
            &&& forall|i: int| 0 <= i < hs.len() ==> run(Ok(hs), modes).is_nonblocking(i)
        },
{
    let v = SetupView::<H, E>::start().on_open(Ok(hs));
    lemma_after_modes_wf(v, modes);
    if hs.len() > 0 {
        if hs.len() <= modes.len() && forall|i: int| 0 <= i < hs.len() ==> (#[trigger] modes[i]) is Ok {
            lemma_modes_all_ok(v, modes);
        }
        if v.after_modes(modes).stage is Ready {
            lemma_ready_needs_all_ok(v, modes);
        }
    }
}

/// Every opened handle is settled exactly once: when a run finishes, the
/// handles it hands out and the handles it released are, together and in
/// order, exactly the handles that were opened, and one of the two is empty.
pub proof fn lemma_each_handle_settled_once<H, E>(open: Result<Seq<H>, E>, modes: Seq<Result<(), E>>)
    ensures
        run(open, modes).opened == match open {
            Ok(hs) => hs,
            Err(_) => Seq::<H>::empty(),
        },
        run(open, modes).is_finished() ==> {
            &&& run(open, modes).held + run(open, modes).released == run(open, modes).opened
            &&& run(open, modes).held.len() == 0 || run(open, modes).released.len() == 0
        },
{
    let v = SetupView::<H, E>::start().on_open(open);
    lemma_after_modes_wf(v, modes);
    let w = v.after_modes(modes);
    if w.is_finished() {
        assert(w.held + w.released =~= w.opened);
    }
}

/// A failed open step ends the run with that same error and no handle.
pub proof fn lemma_open_error_returned_unchanged<H, E>(e: E, modes: Seq<Result<(), E>>)
    ensures
        run::<H, E>(Err(e), modes).is_finished(),
        run::<H, E>(Err(e), modes).outcome() == Err::<Seq<H>, E>(e),
        run::<H, E>(Err(e), modes).opened == Seq::<H>::empty(),
{
}

/// A failed mode switch ends the run with that same error, after releasing
/// every opened handle.
pub proof fn lemma_mode_error_returned_unchanged<H, E>(
    hs: Seq<H>,
    modes: Seq<Result<(), E>>,
    k: int,
)
    requires
        0 <= k < hs.len(),
        k < modes.len(),
        modes[k] is Err,
        forall|j: int| 0 <= j < k ==> (#[trigger] modes[j]) is Ok,
    ensures
        run(Ok(hs), modes).is_finished(),
        run(Ok(hs), modes).outcome() == Err::<Seq<H>, E>(modes[k]->Err_0),
        run(Ok(hs), modes).held == Seq::<H>::empty(),
        run(Ok(hs), modes).released == hs,
{
    lemma_modes_first_err(SetupView::<H, E>::start().on_open(Ok(hs)), modes, k);
}

} // verus!
