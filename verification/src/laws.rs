//! The engine's laws.
//!
//! Each proof function here states one guarantee of the commit/rollback
//! discipline over the spec semantics, quantified over arbitrary handler
//! programs — not over the bundled demonstration actors only.

use vstd::prelude::*;

use crate::action::{Action, OnFailure, ResultKind};
use crate::semantics::{
    dispatch, inbound_dispatch, route, routable, run_body, wrapping_inc, Cells, InboundMessage,
    Tables,
};
use crate::state_cell::StateCell;

verus! {

/// A handler program that never crosses the actor boundary: it contains no
/// outbound call, however many mutations, local suspensions or failures it
/// holds.
pub open spec fn call_free(body: Seq<Action>) -> bool {
    forall|i: int| 0 <= i < body.len() ==> !(#[trigger] body[i] is Call)
}

/// A handler fragment that only works on the frame's own copy: increments
/// and local suspensions, nothing else.
pub open spec fn mutate_only(body: Seq<Action>) -> bool {
    forall|i: int|
        0 <= i < body.len() ==> (#[trigger] body[i] is Increment || body[i] is LocalSuspend)
}

/// The value of a working copy after a mutate-only fragment runs over it.
pub open spec fn apply_mutations(working: u64, body: Seq<Action>) -> u64
    decreases body.len(),
{
    if body.len() == 0 {
        working
    } else {
        let next = match body[0] {
            Action::Increment => wrapping_inc(working),
            _ => working,
        };
        apply_mutations(next, body.drop_first())
    }
}

/// Law: a state cell read is idempotent. Reads do not mutate the cell
/// (`StateCell::read` takes `&self` and returns exactly the committed
/// value), so any two reads with no intervening commit observe the same
/// value.
pub proof fn lemma_read_idempotent(cell: StateCell, first_read: u64, second_read: u64)
    requires
        first_read == cell@,
        second_read == cell@,
    ensures
        first_read == second_read,
{
}

/// Law: all-or-nothing without an outbound call. A handler fragment that
/// never crosses the actor boundary and ends in failure leaves every cell
/// exactly as it found it, no matter how it mutated its working copy and no
/// matter how often it suspended locally.
pub proof fn lemma_rollback_all_or_nothing(
    tables: Tables,
    cells: Cells,
    actor: int,
    working: u64,
    last_reply: u64,
    body: Seq<Action>,
    kind: ResultKind,
    fuel: nat,
)
    requires
        call_free(body),
        run_body(tables, cells, actor, working, last_reply, body, kind, fuel).1 is Err,
    ensures
        run_body(tables, cells, actor, working, last_reply, body, kind, fuel).0 == cells,
    decreases body.len(),
{
    if body.len() == 0 {
        // A normal return: the outcome is Ok, contradicting the hypothesis.
        assert(false);
    } else {
        assert(call_free(body.drop_first())) by {
            assert(forall|i: int|
                0 <= i < body.drop_first().len() ==> body.drop_first()[i] == body[i + 1]);
        }
        match body[0] {
            Action::Increment => {
                lemma_rollback_all_or_nothing(
                    tables,
                    cells,
                    actor,
                    wrapping_inc(working),
                    last_reply,
                    body.drop_first(),
                    kind,
                    fuel,
                );
            },
            Action::LocalSuspend => {
                lemma_rollback_all_or_nothing(
                    tables,
                    cells,
                    actor,
                    working,
                    last_reply,
                    body.drop_first(),
                    kind,
                    fuel,
                );
            },
            Action::Fail => {},
            Action::Call { .. } => {
                assert(body[0] is Call);
                assert(false);
            },
        }
    }
}

/// Law: all-or-nothing at the dispatch level. A whole invocation of a
/// handler without outbound calls either completes or changes nothing: if
/// its outcome is a failure, the cells after dispatch equal the cells
/// before.
pub proof fn lemma_dispatch_all_or_nothing(
    tables: Tables,
    cells: Cells,
    actor: int,
    method: int,
    fuel: nat,
)
    requires
        routable(tables, cells, actor, method),
        call_free(tables[actor][method].body),
        dispatch(tables, cells, actor, method, fuel).1 is Err,
    ensures
        dispatch(tables, cells, actor, method, fuel).0 == cells,
{
    lemma_rollback_all_or_nothing(
        tables,
        cells,
        actor,
        cells[actor],
        0,
        tables[actor][method].body,
        tables[actor][method].result,
        fuel,
    );
}

/// Law: a local suspension is not a commit point. A handler that mutates,
/// suspends locally (never calling out) and later fails rolls back exactly
/// as if it had never suspended: no partial commit leaks at the suspension.
pub proof fn lemma_local_suspension_no_commit(
    tables: Tables,
    cells: Cells,
    actor: int,
    working: u64,
    last_reply: u64,
    body: Seq<Action>,
    kind: ResultKind,
    fuel: nat,
)
    requires
        call_free(body),
        exists|i: int| 0 <= i < body.len() && body[i] is LocalSuspend,
        run_body(tables, cells, actor, working, last_reply, body, kind, fuel).1 is Err,
    ensures
        run_body(tables, cells, actor, working, last_reply, body, kind, fuel).0 == cells,
{
    lemma_rollback_all_or_nothing(tables, cells, actor, working, last_reply, body, kind, fuel);
}

/// Law: a frame without outbound calls is isolated. Whatever its outcome —
/// completion, failure, however many local suspensions — it can change its
/// own actor's cell only; every other actor's cell is untouched. Cross-actor
/// effects exist only through outbound-call message passing.
pub proof fn lemma_call_free_frame_is_isolated(
    tables: Tables,
    cells: Cells,
    actor: int,
    working: u64,
    last_reply: u64,
    body: Seq<Action>,
    kind: ResultKind,
    fuel: nat,
)
    requires
        0 <= actor < cells.len(),
        call_free(body),
    ensures
        forall|other: int|
            0 <= other < cells.len() && other != actor ==> run_body(
                tables,
                cells,
                actor,
                working,
                last_reply,
                body,
                kind,
                fuel,
            ).0[other] == cells[other],
    decreases body.len(),
{
    let outcome = run_body(tables, cells, actor, working, last_reply, body, kind, fuel);
    if body.len() == 0 {
        assert(outcome.0 == cells.update(actor, working));
    } else {
        assert(call_free(body.drop_first())) by {
            assert(forall|i: int|
                0 <= i < body.drop_first().len() ==> body.drop_first()[i] == body[i + 1]);
        }
        match body[0] {
            Action::Increment => {
                lemma_call_free_frame_is_isolated(
                    tables,
                    cells,
                    actor,
                    wrapping_inc(working),
                    last_reply,
                    body.drop_first(),
                    kind,
                    fuel,
                );
                assert(outcome == run_body(
                    tables,
                    cells,
                    actor,
                    wrapping_inc(working),
                    last_reply,
                    body.drop_first(),
                    kind,
                    fuel,
                ));
            },
            Action::LocalSuspend => {
                lemma_call_free_frame_is_isolated(
                    tables,
                    cells,
                    actor,
                    working,
                    last_reply,
                    body.drop_first(),
                    kind,
                    fuel,
                );
                assert(outcome == run_body(
                    tables,
                    cells,
                    actor,
                    working,
                    last_reply,
                    body.drop_first(),
                    kind,
                    fuel,
                ));
            },
            Action::Fail => {
                assert(outcome.0 == cells);
            },
            Action::Call { .. } => {
                assert(body[0] is Call);
                assert(false);
            },
        }
    }
}

/// Running a mutate-only prefix only folds its mutations into the working
/// copy: no cell changes and no commit happens until something after the
/// prefix does.
pub proof fn lemma_mutate_prefix(
    tables: Tables,
    cells: Cells,
    actor: int,
    working: u64,
    last_reply: u64,
    pre: Seq<Action>,
    rest: Seq<Action>,
    kind: ResultKind,
    fuel: nat,
)
    requires
        mutate_only(pre),
    ensures
        run_body(tables, cells, actor, working, last_reply, pre + rest, kind, fuel) == run_body(
            tables,
            cells,
            actor,
            apply_mutations(working, pre),
            last_reply,
            rest,
            kind,
            fuel,
        ),
    decreases pre.len(),
{
    if pre.len() == 0 {
        assert(pre + rest =~= rest);
    } else {
        let whole = pre + rest;
        assert(whole.len() > 0);
        assert(whole[0] == pre[0]);
        assert(whole.drop_first() =~= pre.drop_first() + rest);
        assert(pre[0] is Increment || pre[0] is LocalSuspend);
        assert(mutate_only(pre.drop_first())) by {
            assert(forall|i: int|
                0 <= i < pre.drop_first().len() ==> pre.drop_first()[i] == pre[i + 1]);
        }
        let next = match pre[0] {
            Action::Increment => wrapping_inc(working),
            _ => working,
        };
        lemma_mutate_prefix(
            tables,
            cells,
            actor,
            next,
            last_reply,
            pre.drop_first(),
            rest,
            kind,
            fuel,
        );
    }
}

/// Law: the outbound call is the commit boundary. Take any handler that
/// first mutates its working copy (`pre`), then issues one outbound call,
/// then continues without further calls (`post`) and fails. Whatever is
/// rolled back, the boundary commit survives: the cells after the failed
/// invocation are exactly the cells after the pre-call commit and the
/// callee's own completed dispatch — not the pre-handler cells. Everything
/// the handler did after the call is discarded; nothing it did before the
/// call is.
pub proof fn lemma_commit_at_outbound_boundary(
    tables: Tables,
    cells: Cells,
    actor: int,
    pre: Seq<Action>,
    target: usize,
    method: usize,
    on_failure: OnFailure,
    post: Seq<Action>,
    kind: ResultKind,
    fuel: nat,
)
    requires
        0 <= actor < cells.len(),
        mutate_only(pre),
        call_free(post),
        fuel >= 1,
        run_body(
            tables,
            cells,
            actor,
            cells[actor],
            0,
            pre + seq![Action::Call { target, method, on_failure }] + post,
            kind,
            fuel,
        ).1 is Err,
    ensures
        run_body(
            tables,
            cells,
            actor,
            cells[actor],
            0,
            pre + seq![Action::Call { target, method, on_failure }] + post,
            kind,
            fuel,
        ).0 == dispatch(
            tables,
            cells.update(actor, apply_mutations(cells[actor], pre)),
            target as int,
            method as int,
            (fuel - 1) as nat,
        ).0,
{
    let call = Action::Call { target, method, on_failure };
    let body = pre + seq![call] + post;
    let rest = seq![call] + post;
    assert(body =~= pre + rest);
    lemma_mutate_prefix(tables, cells, actor, cells[actor], 0, pre, rest, kind, fuel);
    let boundary_value = apply_mutations(cells[actor], pre);
    let committed = cells.update(actor, boundary_value);
    assert(rest[0] == call);
    assert(rest.drop_first() =~= post);
    let callee = dispatch(tables, committed, target as int, method as int, (fuel - 1) as nat);
    if callee.1 is Err && on_failure is Propagate {
        // The call's failure propagates: the frame fails right at the
        // boundary, keeping the committed cells.
    } else {
        let reply = match callee.1 {
            Ok(value) => value,
            Err(_) => 0u64,
        };
        lemma_rollback_all_or_nothing(
            tables,
            callee.0,
            actor,
            callee.0[actor],
            reply,
            post,
            kind,
            fuel,
        );
    }
}

/// Law: a self-call is a real boundary. An outbound call whose target is the
/// handler's own actor commits exactly as a call to any other actor does:
/// the conclusion is word for word that of
/// [`lemma_commit_at_outbound_boundary`], with the handler's own actor as
/// the target of both the call and the nested dispatch.
pub proof fn lemma_self_call_is_commit_boundary(
    tables: Tables,
    cells: Cells,
    actor: usize,
    pre: Seq<Action>,
    method: usize,
    on_failure: OnFailure,
    post: Seq<Action>,
    kind: ResultKind,
    fuel: nat,
)
    requires
        (actor as int) < cells.len(),
        mutate_only(pre),
        call_free(post),
        fuel >= 1,
        run_body(
            tables,
            cells,
            actor as int,
            cells[actor as int],
            0,
            pre + seq![Action::Call { target: actor, method, on_failure }] + post,
            kind,
            fuel,
        ).1 is Err,
    ensures
        run_body(
            tables,
            cells,
            actor as int,
            cells[actor as int],
            0,
            pre + seq![Action::Call { target: actor, method, on_failure }] + post,
            kind,
            fuel,
        ).0 == dispatch(
            tables,
            cells.update(actor as int, apply_mutations(cells[actor as int], pre)),
            actor as int,
            method as int,
            (fuel - 1) as nat,
        ).0,
{
    lemma_commit_at_outbound_boundary(
        tables,
        cells,
        actor as int,
        pre,
        actor,
        method,
        on_failure,
        post,
        kind,
        fuel,
    );
}

/// Law: the router serializes. Processing a queue of inbound calls is the
/// sequential composition of processing its parts in arrival order: the
/// calls of `second` all start from the state the calls of `first` left
/// behind, never from anything interleaved.
pub proof fn lemma_router_serializes(
    tables: Tables,
    cells: Cells,
    first: Seq<InboundMessage>,
    second: Seq<InboundMessage>,
    fuel: nat,
)
    ensures
        route(tables, cells, first + second, fuel) == route(
            tables,
            route(tables, cells, first, fuel),
            second,
            fuel,
        ),
    decreases first.len(),
{
    if first.len() == 0 {
        assert(first + second =~= second);
    } else {
        let whole = first + second;
        assert(whole.len() > 0);
        assert(whole[0] == first[0]);
        assert(whole.drop_first() =~= first.drop_first() + second);
        let after = inbound_dispatch(
            tables,
            cells,
            first[0].actor as int,
            first[0].method as int,
            fuel,
        ).0;
        lemma_router_serializes(tables, after, first.drop_first(), second, fuel);
    }
}

} // verus!
