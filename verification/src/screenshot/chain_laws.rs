//! What a whole capture session comes to, once the way each backend
//! behaves is fixed: the session is played against a script that says of
//! every backend whether it is available and what a capture with it gives.

use vstd::prelude::*;
use crate::screenshot::manager::{
    BackendEventView,
    BackendInfoView,
    CaptureActionView,
    CaptureSessionView,
    Phase,
    begin,
    eligible,
    next_candidate,
    not_found_text,
    region_refusal_text,
    scan,
    step,
};
use crate::screenshot::{ScreenshotErrorView, ScreenshotKind, ScreenshotResultView};

verus! {

/// How one backend behaves when it is asked.
pub struct BackendBehavior {
    pub available: bool,
    pub outcome: Result<ScreenshotResultView, ScreenshotErrorView>,
}

/// The result of the session when every action is answered as the script
/// says. Each answer uses up one unit of `fuel`; a session that runs out
/// of it is given up as unavailable.
pub open spec fn play(
    backends: Seq<BackendInfoView>,
    session: CaptureSessionView,
    action: CaptureActionView,
    script: Seq<BackendBehavior>,
    fuel: nat,
) -> Result<ScreenshotResultView, ScreenshotErrorView>
    decreases fuel,
{
    match action {
        CaptureActionView::Finish(result) => result,
        CaptureActionView::Probe(i) => {
            if fuel == 0 {
                Err(ScreenshotErrorView::NotAvailable)
            } else {
                let next = step(
                    backends,
                    session,
                    BackendEventView::Availability(script[i as int].available),
                );
                play(backends, next.0, next.1, script, (fuel - 1) as nat)
            }
        },
        CaptureActionView::Capture(i) => {
            if fuel == 0 {
                Err(ScreenshotErrorView::NotAvailable)
            } else {
                let next = step(
                    backends,
                    session,
                    BackendEventView::Captured(script[i as int].outcome),
                );
                play(backends, next.0, next.1, script, (fuel - 1) as nat)
            }
        },
    }
}

/// Whether the chain gets to capture with backend `i`: the backend offers
/// the kind and is available.
pub open spec fn attempted(
    backends: Seq<BackendInfoView>,
    kind: ScreenshotKind,
    script: Seq<BackendBehavior>,
    i: int,
) -> bool {
    backends[i].kinds.contains(kind) && script[i].available
}

/// Whether what a capture gave ends the chain: a result does, and so does
/// a cancellation by the user.
pub open spec fn decisive(outcome: Result<ScreenshotResultView, ScreenshotErrorView>) -> bool {
    outcome is Ok || outcome == Err::<ScreenshotResultView, ScreenshotErrorView>(
        ScreenshotErrorView::Cancelled,
    )
}

/// What the chain returns from backend `from` on, with `last` the error of
/// the backend that failed last before: what the first attempted backend
/// gives that succeeds or is cancelled; where there is none, the error of
/// the last backend attempted; where none is attempted, that nothing is
/// available.
pub open spec fn auto_outcome(
    backends: Seq<BackendInfoView>,
    kind: ScreenshotKind,
    script: Seq<BackendBehavior>,
    from: int,
    last: Option<ScreenshotErrorView>,
) -> Result<ScreenshotResultView, ScreenshotErrorView>
    decreases backends.len() - from,
{
    if from < 0 || from >= backends.len() {
        match last {
            Some(e) => Err(e),
            None => Err(ScreenshotErrorView::NotAvailable),
        }
    } else if attempted(backends, kind, script, from) {
        if decisive(script[from].outcome) {
            script[from].outcome
        } else {
            auto_outcome(backends, kind, script, from + 1, Some(script[from].outcome->Err_0))
        }
    } else {
        auto_outcome(backends, kind, script, from + 1, last)
    }
}

/// What a capture with a backend asked for by name returns from backend
/// `from` on: whatever the first available backend gives that offers the
/// kind and bears the name; where there is none, that the backend was not
/// found.
pub open spec fn named_outcome(
    backends: Seq<BackendInfoView>,
    kind: ScreenshotKind,
    name: Seq<char>,
    script: Seq<BackendBehavior>,
    from: int,
) -> Result<ScreenshotResultView, ScreenshotErrorView>
    decreases backends.len() - from,
{
    if from < 0 || from >= backends.len() {
        Err(ScreenshotErrorView::Portal(not_found_text(name)))
    } else if eligible(backends[from], kind, Some(name)) && script[from].available {
        script[from].outcome
    } else {
        named_outcome(backends, kind, name, script, from + 1)
    }
}

proof fn lemma_auto_scan(
    backends: Seq<BackendInfoView>,
    session: CaptureSessionView,
    script: Seq<BackendBehavior>,
    from: int,
    fuel: nat,
)
    requires
        session.backend_name is None,
        script.len() == backends.len(),
        backends.len() <= usize::MAX,
        0 <= from,
        fuel >= 2 * (backends.len() - from) + 1,
    ensures
        ({
            let next = scan(backends, session, from);
            play(backends, next.0, next.1, script, fuel) == auto_outcome(
                backends,
                session.kind,
                script,
                from,
                session.last_error,
            )
        }),
    decreases backends.len() - from,
{
    let kind = session.kind;
    let expected = auto_outcome(backends, kind, script, from, session.last_error);
    if from < backends.len() {
        if eligible(backends[from], kind, None) {
            let index = from as usize;
            let probing = CaptureSessionView { phase: Phase::Probing(index), ..session };
            let probe = CaptureActionView::Probe(index);
            assert(next_candidate(backends, kind, None, from) == Some(from));
            assert(scan(backends, session, from) == (probing, probe));
            if script[from].available {
                let capturing = CaptureSessionView { phase: Phase::Capturing(index), ..session };
                let capture = CaptureActionView::Capture(index);
                assert(step(backends, probing, BackendEventView::Availability(true)) == (
                    capturing,
                    capture,
                ));
                assert(play(backends, probing, probe, script, fuel) == play(
                    backends,
                    capturing,
                    capture,
                    script,
                    (fuel - 1) as nat,
                ));
                match script[from].outcome {
                    Ok(result) => {
                        let done = step(
                            backends,
                            capturing,
                            BackendEventView::Captured(Ok(result)),
                        );
                        assert(done.1 == CaptureActionView::Finish(Ok(result)));
                        assert(play(backends, capturing, capture, script, (fuel - 1) as nat)
                            == play(backends, done.0, done.1, script, (fuel - 2) as nat));
                        assert(expected == Ok::<ScreenshotResultView, ScreenshotErrorView>(result));
                    },
                    Err(e) => {
                        if e is Cancelled {
                            let done = step(
                                backends,
                                capturing,
                                BackendEventView::Captured(Err(e)),
                            );
                            assert(done.1 == CaptureActionView::Finish(Err(e)));
                            assert(play(backends, capturing, capture, script, (fuel - 1) as nat)
                                == play(backends, done.0, done.1, script, (fuel - 2) as nat));
                            assert(expected == script[from].outcome);
                        } else {
                            let failed = CaptureSessionView { last_error: Some(e), ..capturing };
                            let after = scan(backends, failed, from + 1);
                            assert(step(backends, capturing, BackendEventView::Captured(Err(e)))
                                == after);
                            assert(play(backends, capturing, capture, script, (fuel - 1) as nat)
                                == play(backends, after.0, after.1, script, (fuel - 2) as nat));
                            lemma_auto_scan(backends, failed, script, from + 1, (fuel - 2) as nat);
                            assert(expected == auto_outcome(
                                backends,
                                kind,
                                script,
                                from + 1,
                                Some(e),
                            ));
                        }
                    },
                }
            } else {
                let after = scan(backends, probing, from + 1);
                assert(step(backends, probing, BackendEventView::Availability(false)) == after);
                assert(play(backends, probing, probe, script, fuel) == play(
                    backends,
                    after.0,
                    after.1,
                    script,
                    (fuel - 1) as nat,
                ));
                lemma_auto_scan(backends, probing, script, from + 1, (fuel - 1) as nat);
                assert(expected == auto_outcome(
                    backends,
                    kind,
                    script,
                    from + 1,
                    session.last_error,
                ));
            }
        } else {
            assert(next_candidate(backends, kind, None, from) == next_candidate(
                backends,
                kind,
                None,
                from + 1,
            ));
            lemma_auto_scan(backends, session, script, from + 1, fuel);
        }
    } else {
        assert(next_candidate(backends, kind, None, from) is None);
    }
}

proof fn lemma_named_scan(
    backends: Seq<BackendInfoView>,
    session: CaptureSessionView,
    script: Seq<BackendBehavior>,
    from: int,
    fuel: nat,
)
    requires
        session.backend_name is Some,
        script.len() == backends.len(),
        backends.len() <= usize::MAX,
        0 <= from,
        fuel >= 2 * (backends.len() - from) + 1,
    ensures
        ({
            let next = scan(backends, session, from);
            play(backends, next.0, next.1, script, fuel) == named_outcome(
                backends,
                session.kind,
                session.backend_name->0,
                script,
                from,
            )
        }),
    decreases backends.len() - from,
{
    let kind = session.kind;
    let name = session.backend_name;
    if from < backends.len() {
        if eligible(backends[from], kind, name) {
            let index = from as usize;
            let probing = CaptureSessionView { phase: Phase::Probing(index), ..session };
            let probe = CaptureActionView::Probe(index);
            assert(next_candidate(backends, kind, name, from) == Some(from));
            assert(scan(backends, session, from) == (probing, probe));
            if script[from].available {
                let capturing = CaptureSessionView { phase: Phase::Capturing(index), ..session };
                let capture = CaptureActionView::Capture(index);
                assert(step(backends, probing, BackendEventView::Availability(true)) == (
                    capturing,
                    capture,
                ));
                assert(play(backends, probing, probe, script, fuel) == play(
                    backends,
                    capturing,
                    capture,
                    script,
                    (fuel - 1) as nat,
                ));
                let done = step(
                    backends,
                    capturing,
                    BackendEventView::Captured(script[from].outcome),
                );
                assert(done.1 == CaptureActionView::Finish(script[from].outcome));
                assert(play(backends, capturing, capture, script, (fuel - 1) as nat) == play(
                    backends,
                    done.0,
                    done.1,
                    script,
                    (fuel - 2) as nat,
                ));
            } else {
                let after = scan(backends, probing, from + 1);
                assert(step(backends, probing, BackendEventView::Availability(false)) == after);
                assert(play(backends, probing, probe, script, fuel) == play(
                    backends,
                    after.0,
                    after.1,
                    script,
                    (fuel - 1) as nat,
                ));
                lemma_named_scan(backends, probing, script, from + 1, (fuel - 1) as nat);
            }
        } else {
            assert(next_candidate(backends, kind, name, from) == next_candidate(
                backends,
                kind,
                name,
                from + 1,
            ));
            lemma_named_scan(backends, session, script, from + 1, fuel);
        }
    } else {
        assert(next_candidate(backends, kind, name, from) is None);
    }
}

/// A capture with no backend named, played to its end, returns what the
/// chain returns: backends are tried in order and the first success ends
/// the session.
pub proof fn law_auto_capture_follows_chain(
    backends: Seq<BackendInfoView>,
    kind: ScreenshotKind,
    script: Seq<BackendBehavior>,
)
    requires
        !(kind is RectangularRegion),
        script.len() == backends.len(),
        backends.len() <= usize::MAX,
    ensures
        ({
            let started = begin(backends, kind, None);
            play(backends, started.0, started.1, script, 2 * backends.len() + 1) == auto_outcome(
                backends,
                kind,
                script,
                0,
                None,
            )
        }),
{
    let fresh = CaptureSessionView {
        kind,
        backend_name: None,
        phase: Phase::Finished,
        last_error: None,
    };
    lemma_auto_scan(backends, fresh, script, 0, 2 * backends.len() + 1);
}

/// A capture with a backend named, played to its end, returns what the
/// first available backend of that name gives, be it a result or an error.
pub proof fn law_named_capture_uses_one_backend(
    backends: Seq<BackendInfoView>,
    kind: ScreenshotKind,
    name: Seq<char>,
    script: Seq<BackendBehavior>,
)
    requires
        !(kind is RectangularRegion),
        script.len() == backends.len(),
        backends.len() <= usize::MAX,
    ensures
        ({
            let started = begin(backends, kind, Some(name));
            play(backends, started.0, started.1, script, 2 * backends.len() + 1) == named_outcome(
                backends,
                kind,
                name,
                script,
                0,
            )
        }),
{
    let fresh = CaptureSessionView {
        kind,
        backend_name: Some(name),
        phase: Phase::Finished,
        last_error: None,
    };
    lemma_named_scan(backends, fresh, script, 0, 2 * backends.len() + 1);
}

/// Once a backend asked for by name has been let to capture, whatever it
/// gives ends the session: a failure is final and no other backend is
/// asked.
pub proof fn law_named_failure_is_final(
    backends: Seq<BackendInfoView>,
    session: CaptureSessionView,
    outcome: Result<ScreenshotResultView, ScreenshotErrorView>,
)
    requires
        session.backend_name is Some,
        session.phase is Capturing,
    ensures
        step(backends, session, BackendEventView::Captured(outcome)).1 == CaptureActionView::Finish(
            outcome,
        ),
        step(backends, session, BackendEventView::Captured(outcome)).0.phase is Finished,
{
}

/// A cancellation by the user ends the session at once, whether or not a
/// backend was asked for by name: no other backend is tried after it.
pub proof fn law_cancellation_is_final(
    backends: Seq<BackendInfoView>,
    session: CaptureSessionView,
)
    requires
        session.phase is Capturing,
    ensures
        step(
            backends,
            session,
            BackendEventView::Captured(Err(ScreenshotErrorView::Cancelled)),
        ).1 == CaptureActionView::Finish(Err(ScreenshotErrorView::Cancelled)),
        step(
            backends,
            session,
            BackendEventView::Captured(Err(ScreenshotErrorView::Cancelled)),
        ).0.phase is Finished,
{
}

/// A capture of a region asked of the manager ends at once with an error,
/// whatever the backends and whichever backend is named: no backend is
/// asked whether it is available and none is let to capture.
pub proof fn law_region_capture_is_refused(
    backends: Seq<BackendInfoView>,
    name: Option<Seq<char>>,
)
    ensures
        begin(backends, ScreenshotKind::RectangularRegion, name).1 == CaptureActionView::Finish(
            Err(ScreenshotErrorView::Portal(region_refusal_text())),
        ),
        begin(backends, ScreenshotKind::RectangularRegion, name).0.phase is Finished,
{
}

proof fn lemma_chain_without_attempt(
    backends: Seq<BackendInfoView>,
    kind: ScreenshotKind,
    script: Seq<BackendBehavior>,
    from: int,
    last: Option<ScreenshotErrorView>,
)
    requires
        0 <= from,
        forall|j: int| from <= j < backends.len() ==> !attempted(backends, kind, script, j),
    ensures
        auto_outcome(backends, kind, script, from, last) == (match last {
            Some(e) => Err::<ScreenshotResultView, ScreenshotErrorView>(e),
            None => Err(ScreenshotErrorView::NotAvailable),
        }),
    decreases backends.len() - from,
{
    if from < backends.len() {
        lemma_chain_without_attempt(backends, kind, script, from + 1, last);
    }
}

proof fn lemma_chain_first_success(
    backends: Seq<BackendInfoView>,
    kind: ScreenshotKind,
    script: Seq<BackendBehavior>,
    from: int,
    last: Option<ScreenshotErrorView>,
    winner: int,
)
    requires
        0 <= from <= winner < backends.len(),
        attempted(backends, kind, script, winner),
        decisive(script[winner].outcome),
        forall|j: int|
            from <= j < winner && attempted(backends, kind, script, j) ==> !decisive(
                script[j].outcome,
            ),
    ensures
        auto_outcome(backends, kind, script, from, last) == script[winner].outcome,
    decreases winner - from,
{
    if from < winner {
        if attempted(backends, kind, script, from) {
            lemma_chain_first_success(
                backends,
                kind,
                script,
                from + 1,
                Some(script[from].outcome->Err_0),
                winner,
            );
        } else {
            lemma_chain_first_success(backends, kind, script, from + 1, last, winner);
        }
    }
}

proof fn lemma_chain_last_error(
    backends: Seq<BackendInfoView>,
    kind: ScreenshotKind,
    script: Seq<BackendBehavior>,
    from: int,
    last: Option<ScreenshotErrorView>,
    loser: int,
)
    requires
        0 <= from <= loser < backends.len(),
        attempted(backends, kind, script, loser),
        forall|j: int|
            from <= j < backends.len() && attempted(backends, kind, script, j) ==> !decisive(
                script[j].outcome,
            ),
        forall|j: int| loser < j < backends.len() ==> !attempted(backends, kind, script, j),
    ensures
        auto_outcome(backends, kind, script, from, last) == script[loser].outcome,
    decreases loser - from,
{
    if from < loser {
        if attempted(backends, kind, script, from) {
            lemma_chain_last_error(
                backends,
                kind,
                script,
                from + 1,
                Some(script[from].outcome->Err_0),
                loser,
            );
        } else {
            lemma_chain_last_error(backends, kind, script, from + 1, last, loser);
        }
    } else {
        lemma_chain_without_attempt(
            backends,
            kind,
            script,
            loser + 1,
            Some(script[loser].outcome->Err_0),
        );
    }
}

/// Where a backend that is attempted succeeds, or is cancelled by the
/// user, and every backend attempted before it fails otherwise, the chain
/// returns what that backend gave: the failures before it leave no trace,
/// and no backend behind it has any say.
pub proof fn law_first_success_is_returned(
    backends: Seq<BackendInfoView>,
    kind: ScreenshotKind,
    script: Seq<BackendBehavior>,
    winner: int,
)
    requires
        0 <= winner < backends.len(),
        attempted(backends, kind, script, winner),
        decisive(script[winner].outcome),
        forall|j: int|
            0 <= j < winner && attempted(backends, kind, script, j) ==> !decisive(
                script[j].outcome,
            ),
    ensures
        auto_outcome(backends, kind, script, 0, None) == script[winner].outcome,
{
    lemma_chain_first_success(backends, kind, script, 0, None, winner);
}

/// Where every backend that is attempted fails, none by cancellation, the
/// chain returns the error of the last one attempted.
pub proof fn law_last_error_is_returned(
    backends: Seq<BackendInfoView>,
    kind: ScreenshotKind,
    script: Seq<BackendBehavior>,
    loser: int,
)
    requires
        0 <= loser < backends.len(),
        attempted(backends, kind, script, loser),
        forall|j: int|
            0 <= j < backends.len() && attempted(backends, kind, script, j) ==> !decisive(
                script[j].outcome,
            ),
        forall|j: int| loser < j < backends.len() ==> !attempted(backends, kind, script, j),
    ensures
        auto_outcome(backends, kind, script, 0, None) == script[loser].outcome,
{
    lemma_chain_last_error(backends, kind, script, 0, None, loser);
}

/// Where no backend is attempted, the chain reports that nothing is
/// available.
pub proof fn law_nothing_eligible_is_not_available(
    backends: Seq<BackendInfoView>,
    kind: ScreenshotKind,
    script: Seq<BackendBehavior>,
)
    requires
        forall|j: int| 0 <= j < backends.len() ==> !attempted(backends, kind, script, j),
    ensures
        auto_outcome(backends, kind, script, 0, None) == Err::<
            ScreenshotResultView,
            ScreenshotErrorView,
        >(ScreenshotErrorView::NotAvailable),
{
    lemma_chain_without_attempt(backends, kind, script, 0, None);
}

} // verus!
