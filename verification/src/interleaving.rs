//! Concurrent order placement against one item, as a model.
//!
//! Any number of calls are in flight. A scheduler, about which nothing is
//! assumed, decides whose read or commit the store serves next. The calls
//! themselves move only as [`spec_step`] says. The store is assumed to do two
//! things: apply a conditional write only while the item carries the expected
//! revision, and never hand out a revision twice.

use vstd::prelude::*;
use crate::orders::{spec_filed, spec_start, spec_step, FlowActionView, FlowState, OrderDraftView, OrderFlowView, OrderView, StoreEventView};
use crate::stock::{ItemStockView, OrderError, StockUpdateView};

verus! {

/// One call in flight, or finished.
pub struct Call {
    pub flow: OrderFlowView,
    /// The conditional write that the call last handed to the store.
    pub pending: Option<StockUpdateView>,
    /// The answer that the client received, once there is one.
    pub answer: Option<Result<OrderView, OrderError>>,
}

/// The item's record in the store, the revisions it carried before, and every
/// call made so far.
pub struct World {
    pub stock: ItemStockView,
    pub retired: Set<Seq<char>>,
    pub calls: Seq<Call>,
}

/// What the scheduler may do next.
pub enum Move {
    /// A client places an order.
    Arrive { draft: OrderDraftView },
    /// The store serves the pending read of call number `call`.
    ServeRead { call: int },
    /// The store executes the pending commit of call number `call`. If the
    /// write applies, the item gets revision `fresh` and the order is filed
    /// under `order_id`.
    ServeCommit { call: int, fresh: Seq<char>, order_id: Seq<char> },
    /// The store lets call number `call` down: it reports the item missing, a
    /// failure, a conflict, or an order filed without its decrement.
    Fault { call: int, event: StoreEventView },
}

/// The world before any call: the item with its initial stock.
pub open spec fn opening(initial: ItemStockView) -> World {
    World { stock: initial, retired: Set::empty(), calls: Seq::empty() }
}

/// The call after the store reported `event` to it.
pub open spec fn deliver(call: Call, event: StoreEventView) -> Call {
    let (flow, action) = spec_step(call.flow, event);
    match action {
        FlowActionView::ReadStock { .. } => Call { flow, pending: None, answer: call.answer },
        FlowActionView::Commit { update, .. } => Call {
            flow,
            pending: Some(update),
            answer: call.answer,
        },
        FlowActionView::Respond { outcome } => Call { flow, pending: None, answer: Some(outcome) },
    }
}

/// Whether the store may report `event` without having written anything.
pub open spec fn is_fault(event: StoreEventView) -> bool {
    event is StockMissing || event is Failed || event is Conflict || event is OrderWithoutDecrement
}

/// The world after one move. A move that names no call, or a call that is not
/// waiting for that service, changes nothing.
pub open spec fn apply(w: World, m: Move) -> World {
    match m {
        Move::Arrive { draft } => World {
            calls: w.calls.push(Call { flow: spec_start(draft).0, pending: None, answer: None }),
            ..w
        },
        Move::ServeRead { call } => {
            if 0 <= call < w.calls.len() && w.calls[call].flow.state == FlowState::AwaitingStock {
                World {
                    calls: w.calls.update(
                        call,
                        deliver(w.calls[call], StoreEventView::StockFound(w.stock)),
                    ),
                    ..w
                }
            } else {
                w
            }
        },
        Move::ServeCommit { call, fresh, order_id } => {
            if 0 <= call < w.calls.len() && w.calls[call].flow.state == FlowState::AwaitingCommit
                && w.calls[call].pending is Some {
                let update = w.calls[call].pending->0;
                if update.expected_revision != w.stock.revision || update.item_id
                    != w.stock.item_id {
                    World {
                        calls: w.calls.update(call, deliver(w.calls[call], StoreEventView::Conflict)),
                        ..w
                    }
                } else if fresh == w.stock.revision || w.retired.contains(fresh) {
                    w
                } else {
                    World {
                        stock: ItemStockView {
                            item_id: w.stock.item_id,
                            quantity_available: update.new_quantity,
                            revision: fresh,
                        },
                        retired: w.retired.insert(w.stock.revision),
                        calls: w.calls.update(
                            call,
                            deliver(w.calls[call], StoreEventView::Committed { order_id }),
                        ),
                    }
                }
            } else {
                w
            }
        },
        Move::Fault { call, event } => {
            if 0 <= call < w.calls.len() && w.calls[call].flow.state != FlowState::Finished
                && is_fault(event) {
                World { calls: w.calls.update(call, deliver(w.calls[call], event)), ..w }
            } else {
                w
            }
        },
    }
}

/// The world after a whole schedule.
pub open spec fn run(w: World, moves: Seq<Move>) -> World
    decreases moves.len(),
{
    if moves.len() == 0 {
        w
    } else {
        apply(run(w, moves.drop_last()), moves.last())
    }
}

/// The units that a call took: the quantity of its order if it succeeded,
/// nothing otherwise.
pub open spec fn units_taken(call: Call) -> nat {
    match call.answer {
        Some(Ok(order)) => order.quantity,
        _ => 0,
    }
}

/// The units taken by all calls together.
pub open spec fn total_taken(calls: Seq<Call>) -> nat
    decreases calls.len(),
{
    if calls.len() == 0 {
        0
    } else {
        total_taken(calls.drop_last()) + units_taken(calls.last())
    }
}

/// What holds of a call in every reachable world with stock `stock`.
spec fn call_ok(call: Call, stock: ItemStockView, retired: Set<Seq<char>>) -> bool {
    &&& call.flow.state != FlowState::Finished ==> call.answer is None
    &&& call.flow.state == FlowState::Finished ==> call.answer is Some
    &&& call.answer matches Some(Ok(order)) ==> order == spec_filed(call.flow.draft, order.order_id)
    &&& call.answer == Some(Err::<OrderView, OrderError>(OrderError::InsufficientStock))
        ==> call.flow.draft.quantity > stock.quantity_available
    &&& call.flow.state == FlowState::AwaitingCommit ==> {
        &&& call.pending is Some
        &&& call.pending->0.expected_revision == stock.revision || retired.contains(
            call.pending->0.expected_revision,
        )
        &&& call.pending->0.expected_revision == stock.revision ==> call.pending->0.new_quantity
            + call.flow.draft.quantity == stock.quantity_available
    }
}

/// What holds of every reachable world.
spec fn world_ok(w: World, initial: ItemStockView) -> bool {
    &&& total_taken(w.calls) + w.stock.quantity_available == initial.quantity_available
    &&& !w.retired.contains(w.stock.revision)
    &&& forall|i: int| 0 <= i < w.calls.len() ==> call_ok(#[trigger] w.calls[i], w.stock, w.retired)
}

proof fn lemma_total_update(calls: Seq<Call>, i: int, call: Call)
    requires
        0 <= i < calls.len(),
    ensures
        total_taken(calls.update(i, call)) + units_taken(calls[i]) == total_taken(calls)
            + units_taken(call),
    decreases calls.len(),
{
    let updated = calls.update(i, call);
    if i == calls.len() - 1 {
        assert(updated.drop_last() =~= calls.drop_last());
    } else {
        assert(updated.drop_last() =~= calls.drop_last().update(i, call));
        lemma_total_update(calls.drop_last(), i, call);
    }
}

proof fn lemma_apply_keeps(w: World, m: Move, initial: ItemStockView)
    requires
        world_ok(w, initial),
    ensures
        world_ok(apply(w, m), initial),
{
    let next = apply(w, m);
    match m {
        Move::Arrive { draft } => {
            let call = Call { flow: spec_start(draft).0, pending: None, answer: None };
            assert(next.calls.drop_last() =~= w.calls);
            assert forall|i: int| 0 <= i < next.calls.len() implies call_ok(
                #[trigger] next.calls[i],
                next.stock,
                next.retired,
            ) by {
                if i < w.calls.len() {
                    assert(call_ok(w.calls[i], w.stock, w.retired));
                }
            }
        },
        Move::ServeRead { call } => {
            if 0 <= call < w.calls.len() && w.calls[call].flow.state == FlowState::AwaitingStock {
                let after = deliver(w.calls[call], StoreEventView::StockFound(w.stock));
                assert(call_ok(w.calls[call], w.stock, w.retired));
                lemma_total_update(w.calls, call, after);
                assert forall|i: int| 0 <= i < next.calls.len() implies call_ok(
                    #[trigger] next.calls[i],
                    next.stock,
                    next.retired,
                ) by {
                    if i != call {
                        assert(call_ok(w.calls[i], w.stock, w.retired));
                    }
                }
            }
        },
        Move::ServeCommit { call, fresh, order_id } => {
            if 0 <= call < w.calls.len() && w.calls[call].flow.state == FlowState::AwaitingCommit
                && w.calls[call].pending is Some {
                let update = w.calls[call].pending->0;
                assert(call_ok(w.calls[call], w.stock, w.retired));
                if update.expected_revision != w.stock.revision || update.item_id
                    != w.stock.item_id {
                    let after = deliver(w.calls[call], StoreEventView::Conflict);
                    lemma_total_update(w.calls, call, after);
                    assert forall|i: int| 0 <= i < next.calls.len() implies call_ok(
                        #[trigger] next.calls[i],
                        next.stock,
                        next.retired,
                    ) by {
                        if i != call {
                            assert(call_ok(w.calls[i], w.stock, w.retired));
                        }
                    }
                } else if fresh == w.stock.revision || w.retired.contains(fresh) {
                } else {
                    let after = deliver(w.calls[call], StoreEventView::Committed { order_id });
                    lemma_total_update(w.calls, call, after);
                    assert(units_taken(after) == w.calls[call].flow.draft.quantity);
                    assert forall|i: int| 0 <= i < next.calls.len() implies call_ok(
                        #[trigger] next.calls[i],
                        next.stock,
                        next.retired,
                    ) by {
                        if i != call {
                            assert(call_ok(w.calls[i], w.stock, w.retired));
                        }
                    }
                }
            }
        },
        Move::Fault { call, event } => {
            if 0 <= call < w.calls.len() && w.calls[call].flow.state != FlowState::Finished
                && is_fault(event) {
                let after = deliver(w.calls[call], event);
                assert(call_ok(w.calls[call], w.stock, w.retired));
                lemma_total_update(w.calls, call, after);
                assert forall|i: int| 0 <= i < next.calls.len() implies call_ok(
                    #[trigger] next.calls[i],
                    next.stock,
                    next.retired,
                ) by {
                    if i != call {
                        assert(call_ok(w.calls[i], w.stock, w.retired));
                    }
                }
            }
        },
    }
}

proof fn lemma_run_keeps(initial: ItemStockView, moves: Seq<Move>)
    ensures
        world_ok(run(opening(initial), moves), initial),
    decreases moves.len(),
{
    if moves.len() > 0 {
        lemma_run_keeps(initial, moves.drop_last());
        lemma_apply_keeps(run(opening(initial), moves.drop_last()), moves.last(), initial);
    }
}

/// Stock is conserved: however the scheduler interleaves the calls on one
/// item, the units taken by the calls that succeeded and the units still
/// available add up to the initial stock. So the successful orders never take
/// more than the initial stock, and the available quantity never falls below
/// zero.
pub proof fn lemma_stock_is_conserved(initial: ItemStockView, moves: Seq<Move>)
    ensures
        total_taken(run(opening(initial), moves).calls) + run(
            opening(initial),
            moves,
        ).stock.quantity_available == initial.quantity_available,
        total_taken(run(opening(initial), moves).calls) <= initial.quantity_available,
{
    lemma_run_keeps(initial, moves);
}

/// A call that was answered with an order was answered with the order it
/// asked for, so it took exactly the quantity it requested; and a call that
/// has no answer yet has taken nothing.
pub proof fn lemma_answer_matches_request(initial: ItemStockView, moves: Seq<Move>, call: int)
    requires
        0 <= call < run(opening(initial), moves).calls.len(),
    ensures
        ({
            let c = run(opening(initial), moves).calls[call];
            &&& c.answer matches Some(Ok(order)) ==> order == spec_filed(c.flow.draft, order.order_id)
                && units_taken(c) == c.flow.draft.quantity
            &&& c.flow.state != FlowState::Finished ==> c.answer is None && units_taken(c) == 0
        }),
{
    lemma_run_keeps(initial, moves);
    let w = run(opening(initial), moves);
    assert(call_ok(w.calls[call], w.stock, w.retired));
}

/// A refusal for want of stock is never out of date: a call that was answered
/// with `InsufficientStock` asked for more than is available, then and ever
/// after, since the available quantity only ever shrinks.
pub proof fn lemma_refusal_means_shortage(initial: ItemStockView, moves: Seq<Move>, call: int)
    requires
        0 <= call < run(opening(initial), moves).calls.len(),
        run(opening(initial), moves).calls[call].answer == Some(
            Err::<OrderView, OrderError>(OrderError::InsufficientStock),
        ),
    ensures
        run(opening(initial), moves).calls[call].flow.draft.quantity > run(
            opening(initial),
            moves,
        ).stock.quantity_available,
{
    lemma_run_keeps(initial, moves);
    let w = run(opening(initial), moves);
    assert(call_ok(w.calls[call], w.stock, w.retired));
}

/// Whether a schedule is orderly: every order is for the item `item_id`, and
/// the store never lets a call down.
pub open spec fn orderly(moves: Seq<Move>, item_id: Seq<char>) -> bool {
    forall|i: int|
        0 <= i < moves.len() ==> match #[trigger] moves[i] {
            Move::Arrive { draft } => draft.item_id == item_id,
            Move::Fault { .. } => false,
            _ => true,
        }
}

/// Whether a call has come to one of the two ends that an orderly schedule
/// leaves: an order, or a refusal for want of stock.
pub open spec fn served_or_short(call: Call) -> bool {
    call.answer matches Some(Ok(_)) || call.answer == Some(
        Err::<OrderView, OrderError>(OrderError::InsufficientStock),
    )
}

/// What holds of every world that an orderly schedule reaches.
spec fn calm(w: World, item_id: Seq<char>) -> bool {
    &&& w.stock.item_id == item_id
    &&& forall|i: int|
        0 <= i < w.calls.len() ==> (#[trigger] w.calls[i]).flow.draft.item_id == item_id && (
        w.calls[i].flow.state == FlowState::Finished ==> served_or_short(w.calls[i]))
}

proof fn lemma_orderly_run(initial: ItemStockView, moves: Seq<Move>)
    requires
        orderly(moves, initial.item_id),
    ensures
        calm(run(opening(initial), moves), initial.item_id),
    decreases moves.len(),
{
    if moves.len() > 0 {
        let before = moves.drop_last();
        assert forall|i: int| 0 <= i < before.len() implies match #[trigger] before[i] {
            Move::Arrive { draft } => draft.item_id == initial.item_id,
            Move::Fault { .. } => false,
            _ => true,
        } by {
            assert(before[i] == moves[i]);
        }
        lemma_orderly_run(initial, before);
        let w = run(opening(initial), before);
        let m = moves.last();
        assert(m == moves[moves.len() - 1]);
        let next = apply(w, m);
        assert forall|i: int| 0 <= i < next.calls.len() implies (#[trigger] next.calls[i]).flow.draft.item_id
            == initial.item_id && (next.calls[i].flow.state == FlowState::Finished
            ==> served_or_short(next.calls[i])) by {
            if i < w.calls.len() {
                assert(w.calls[i].flow.draft.item_id == initial.item_id);
            }
        }
    }
}

/// In an orderly schedule a call ends in one of two ways only: with its
/// order, or with `InsufficientStock`.
pub proof fn lemma_orderly_calls_are_served_or_short(
    initial: ItemStockView,
    moves: Seq<Move>,
    call: int,
)
    requires
        orderly(moves, initial.item_id),
        0 <= call < run(opening(initial), moves).calls.len(),
        run(opening(initial), moves).calls[call].flow.state == FlowState::Finished,
    ensures
        served_or_short(run(opening(initial), moves).calls[call]),
{
    lemma_orderly_run(initial, moves);
    let w = run(opening(initial), moves);
    assert(w.calls[call].flow.draft.item_id == initial.item_id);
}

/// Of two orders that the stock covers one by one but not together, exactly
/// one is served. However an orderly schedule interleaves the two calls, once
/// both have their answer one of them has its order, the other was refused
/// with `InsufficientStock`, and the stock is down by the quantity of the
/// order that was served.
pub proof fn lemma_one_of_two_is_served(initial: ItemStockView, moves: Seq<Move>)
    requires
        orderly(moves, initial.item_id),
        run(opening(initial), moves).calls.len() == 2,
        run(opening(initial), moves).calls[0].flow.state == FlowState::Finished,
        run(opening(initial), moves).calls[1].flow.state == FlowState::Finished,
        run(opening(initial), moves).calls[0].flow.draft.quantity <= initial.quantity_available,
        run(opening(initial), moves).calls[1].flow.draft.quantity <= initial.quantity_available,
        run(opening(initial), moves).calls[0].flow.draft.quantity + run(
            opening(initial),
            moves,
        ).calls[1].flow.draft.quantity > initial.quantity_available,
    ensures
        ({
            let w = run(opening(initial), moves);
            let first = w.calls[0];
            let second = w.calls[1];
            let short = Some(Err::<OrderView, OrderError>(OrderError::InsufficientStock));
            ||| first.answer is Some && first.answer->0 is Ok && second.answer == short
                    && w.stock.quantity_available + first.flow.draft.quantity
                    == initial.quantity_available
            ||| second.answer is Some && second.answer->0 is Ok && first.answer == short
                    && w.stock.quantity_available + second.flow.draft.quantity
                    == initial.quantity_available
        }),
{
    let w = run(opening(initial), moves);
    lemma_run_keeps(initial, moves);
    lemma_orderly_calls_are_served_or_short(initial, moves, 0);
    lemma_orderly_calls_are_served_or_short(initial, moves, 1);
    assert(call_ok(w.calls[0], w.stock, w.retired));
    assert(call_ok(w.calls[1], w.stock, w.retired));
    let head = w.calls.drop_last();
    assert(head.len() == 1);
    assert(head.last() == w.calls[0]);
    assert(head.drop_last().len() == 0);
    assert(w.calls.last() == w.calls[1]);
    assert(total_taken(head.drop_last()) == 0);
    assert(total_taken(head) == units_taken(w.calls[0]));
    assert(total_taken(w.calls) == units_taken(w.calls[0]) + units_taken(w.calls[1]));
}

} // verus!
