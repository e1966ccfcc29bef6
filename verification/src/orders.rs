//! Order placement as a protocol between the service and the store.
//!
//! The service never talks to the store itself. It answers each event that the
//! store reports with the next action to perform, so that the stock check and
//! the decrement reach the store as one conditional write.

use vstd::prelude::*;
use crate::api::{generate_error, is_error, ApiResponse, ErrorCategory, Status};
use crate::stock::{
    quantity_from, reserve, spec_quantity, spec_reserve, ItemStock, ItemStockView, OrderError,
    StockUpdate, StockUpdateView,
};

verus! {

/// The body of an order request.
#[derive(Debug, Clone)]
pub struct AddOrderReq {
    pub user_id: String,
    pub item_id: String,
    pub item_name: String,
    pub quantity: u64,
    /// Price snapshot, carried through untouched.
    pub price: u64,
    /// Quantity the client believes the item should have afterwards. It is
    /// never trusted: the ledger computes the new quantity itself.
    pub quantity_diff: i64,
}

/// An order that has not been stored yet, and so has no identifier.
#[derive(Debug, Clone)]
pub struct OrderDraft {
    pub user_id: String,
    pub item_id: String,
    pub item_name: String,
    pub quantity: u64,
    pub price: u64,
    pub placed_at: i64,
}

/// Mathematical value of an [`OrderDraft`].
pub struct OrderDraftView {
    pub user_id: Seq<char>,
    pub item_id: Seq<char>,
    pub item_name: Seq<char>,
    pub quantity: nat,
    pub price: u64,
    pub placed_at: i64,
}

impl View for OrderDraft {
    type V = OrderDraftView;

    open spec fn view(&self) -> OrderDraftView {
        OrderDraftView {
            user_id: self.user_id@,
            item_id: self.item_id@,
            item_name: self.item_name@,
            quantity: self.quantity as nat,
            price: self.price,
            placed_at: self.placed_at,
        }
    }
}

impl OrderDraft {
    /// A copy with the same value.
    pub fn duplicate(&self) -> (copy: OrderDraft)
        ensures
            copy@ == self@,
    {
        OrderDraft {
            user_id: self.user_id.clone(),
            item_id: self.item_id.clone(),
            item_name: self.item_name.clone(),
            quantity: self.quantity,
            price: self.price,
            placed_at: self.placed_at,
        }
    }
}

/// A stored order. Only a placement whose commit the store has confirmed
/// produces one, and nothing can change it afterwards.
#[derive(Debug, Clone)]
pub struct Order {
    order_id: String,
    user_id: String,
    item_id: String,
    item_name: String,
    quantity: u64,
    price: u64,
    placed_at: i64,
}

/// Mathematical value of an [`Order`].
pub struct OrderView {
    pub order_id: Seq<char>,
    pub user_id: Seq<char>,
    pub item_id: Seq<char>,
    pub item_name: Seq<char>,
    pub quantity: nat,
    pub price: u64,
    pub placed_at: i64,
}

impl View for Order {
    type V = OrderView;

    closed spec fn view(&self) -> OrderView {
        OrderView {
            order_id: self.order_id@,
            user_id: self.user_id@,
            item_id: self.item_id@,
            item_name: self.item_name@,
            quantity: self.quantity as nat,
            price: self.price,
            placed_at: self.placed_at,
        }
    }
}

impl Order {
    /// The identifier that the store filed the order under.
    pub fn order_id(&self) -> (order_id: &String)
        ensures
            order_id@ == self@.order_id,
    {
        &self.order_id
    }

    /// The user who placed the order.
    pub fn user_id(&self) -> (user_id: &String)
        ensures
            user_id@ == self@.user_id,
    {
        &self.user_id
    }

    /// The item that was ordered.
    pub fn item_id(&self) -> (item_id: &String)
        ensures
            item_id@ == self@.item_id,
    {
        &self.item_id
    }

    /// The name of the item when the order was placed.
    pub fn item_name(&self) -> (item_name: &String)
        ensures
            item_name@ == self@.item_name,
    {
        &self.item_name
    }

    /// The number of units ordered.
    pub fn quantity(&self) -> (quantity: u64)
        ensures
            quantity == self@.quantity,
    {
        self.quantity
    }

    /// The price when the order was placed.
    pub fn price(&self) -> (price: u64)
        ensures
            price == self@.price,
    {
        self.price
    }

    /// When the order was placed.
    pub fn placed_at(&self) -> (placed_at: i64)
        ensures
            placed_at == self@.placed_at,
    {
        self.placed_at
    }
}

/// The draft that a request asks for, stamped with the time it arrived.
pub open spec fn spec_draft(
    user_id: Seq<char>,
    item_id: Seq<char>,
    item_name: Seq<char>,
    quantity: nat,
    price: u64,
    placed_at: i64,
) -> OrderDraftView {
    OrderDraftView { user_id, item_id, item_name, quantity, price, placed_at }
}

/// The order that results when the store files `draft` under `order_id`.
pub open spec fn spec_filed(draft: OrderDraftView, order_id: Seq<char>) -> OrderView {
    OrderView {
        order_id,
        user_id: draft.user_id,
        item_id: draft.item_id,
        item_name: draft.item_name,
        quantity: draft.quantity,
        price: draft.price,
        placed_at: draft.placed_at,
    }
}

/// Where a placement stands.
#[derive(Debug, Clone, Copy, PartialEq, Eq, Structural)]
pub enum FlowState {
    /// The stock of the item was asked for.
    AwaitingStock,
    /// The order and its conditional decrement were handed to the store.
    AwaitingCommit,
    /// The caller has its answer.
    Finished,
}

/// One call of order placement in progress.
#[derive(Debug)]
pub struct OrderFlow {
    draft: OrderDraft,
    state: FlowState,
}

/// Mathematical value of an [`OrderFlow`].
pub struct OrderFlowView {
    pub draft: OrderDraftView,
    pub state: FlowState,
}

impl View for OrderFlow {
    type V = OrderFlowView;

    closed spec fn view(&self) -> OrderFlowView {
        OrderFlowView { draft: self.draft@, state: self.state }
    }
}

/// What the store reports back.
#[derive(Debug)]
pub enum StoreEvent {
    /// The item exists; this is its current record.
    StockFound(ItemStock),
    /// No item has the requested identifier.
    StockMissing,
    /// The conditional write was applied and the order filed under `order_id`.
    Committed { order_id: String },
    /// The item's revision had moved on; nothing was written.
    Conflict,
    /// The order was filed, but the decrement was not applied.
    OrderWithoutDecrement,
    /// The store failed; nothing was written.
    Failed,
}

/// Mathematical value of a [`StoreEvent`].
pub enum StoreEventView {
    StockFound(ItemStockView),
    StockMissing,
    Committed { order_id: Seq<char> },
    Conflict,
    OrderWithoutDecrement,
    Failed,
}

impl View for StoreEvent {
    type V = StoreEventView;

    open spec fn view(&self) -> StoreEventView {
        match *self {
            StoreEvent::StockFound(stock) => StoreEventView::StockFound(stock@),
            StoreEvent::StockMissing => StoreEventView::StockMissing,
            StoreEvent::Committed { order_id } => StoreEventView::Committed { order_id: order_id@ },
            StoreEvent::Conflict => StoreEventView::Conflict,
            StoreEvent::OrderWithoutDecrement => StoreEventView::OrderWithoutDecrement,
            StoreEvent::Failed => StoreEventView::Failed,
        }
    }
}

/// What the caller has to do next.
#[derive(Debug)]
pub enum FlowAction {
    /// Read the current stock record of the item.
    ReadStock { item_id: String },
    /// File the order and apply the conditional write, as one transaction.
    Commit { draft: OrderDraft, update: StockUpdate },
    /// Answer the client.
    Respond { outcome: Result<Order, OrderError> },
}

/// Mathematical value of a [`FlowAction`].
pub enum FlowActionView {
    ReadStock { item_id: Seq<char> },
    Commit { draft: OrderDraftView, update: StockUpdateView },
    Respond { outcome: Result<OrderView, OrderError> },
}

impl View for FlowAction {
    type V = FlowActionView;

    open spec fn view(&self) -> FlowActionView {
        match *self {
            FlowAction::ReadStock { item_id } => FlowActionView::ReadStock { item_id: item_id@ },
            FlowAction::Commit { draft, update } => FlowActionView::Commit {
                draft: draft@,
                update: update@,
            },
            FlowAction::Respond { outcome } => FlowActionView::Respond {
                outcome: match outcome {
                    Ok(order) => Ok(order@),
                    Err(e) => Err(e),
                },
            },
        }
    }
}

/// The flow that has given its answer, and the refusal it gave.
pub open spec fn refuse(flow: OrderFlowView, error: OrderError) -> (OrderFlowView, FlowActionView) {
    (
        OrderFlowView { draft: flow.draft, state: FlowState::Finished },
        FlowActionView::Respond { outcome: Err(error) },
    )
}

/// The first step of a placement: ask for the item's stock.
pub open spec fn spec_start(draft: OrderDraftView) -> (OrderFlowView, FlowActionView) {
    (
        OrderFlowView { draft, state: FlowState::AwaitingStock },
        FlowActionView::ReadStock { item_id: draft.item_id },
    )
}

/// The protocol: the next state and action for each state and event.
///
/// - While the stock is awaited: a missing item ends the call with
///   `ItemNotFound`; a record that does not cover the quantity ends it with
///   `InsufficientStock`; a record that covers it yields the commit whose
///   conditional write is bound to the revision just read.
/// - While the commit is awaited: `Committed` ends the call with the order; a
///   conflict starts over from a fresh read; an order filed without its
///   decrement ends the call with `PartialFailure`.
/// - A store failure, a record of another item, or an event that the state
///   does not expect ends the call with `PersistenceError`.
pub open spec fn spec_step(flow: OrderFlowView, event: StoreEventView) -> (
    OrderFlowView,
    FlowActionView,
) {
    match flow.state {
        FlowState::AwaitingStock => match event {
            StoreEventView::StockFound(stock) => {
                if stock.item_id != flow.draft.item_id {
                    refuse(flow, OrderError::PersistenceError)
                } else {
                    match spec_reserve(stock, flow.draft.quantity) {
                        Ok(update) => (
                            OrderFlowView { draft: flow.draft, state: FlowState::AwaitingCommit },
                            FlowActionView::Commit { draft: flow.draft, update },
                        ),
                        Err(e) => refuse(flow, e),
                    }
                }
            },
            StoreEventView::StockMissing => refuse(flow, OrderError::ItemNotFound),
            _ => refuse(flow, OrderError::PersistenceError),
        },
        FlowState::AwaitingCommit => match event {
            StoreEventView::Committed { order_id } => (
                OrderFlowView { draft: flow.draft, state: FlowState::Finished },
                FlowActionView::Respond { outcome: Ok(spec_filed(flow.draft, order_id)) },
            ),
            StoreEventView::Conflict => spec_start(flow.draft),
            StoreEventView::OrderWithoutDecrement => refuse(flow, OrderError::PartialFailure),
            _ => refuse(flow, OrderError::PersistenceError),
        },
        FlowState::Finished => refuse(flow, OrderError::PersistenceError),
    }
}

impl OrderFlow {
    /// Where this placement stands.
    pub fn state(&self) -> (state: FlowState)
        ensures
            state == self@.state,
    {
        self.state
    }

    /// Ends the call with `error`.
    fn end_with(self, error: OrderError) -> (next: (OrderFlow, FlowAction))
        ensures
            (next.0@, next.1@) == refuse(self@, error),
    {
        (
            OrderFlow { draft: self.draft, state: FlowState::Finished },
            FlowAction::Respond { outcome: Err(error) },
        )
    }

    /// Asks for the item's stock, for the first time or after a conflict.
    fn read_stock(draft: OrderDraft) -> (next: (OrderFlow, FlowAction))
        ensures
            (next.0@, next.1@) == spec_start(draft@),
    {
        let item_id = draft.item_id.clone();
        (OrderFlow { draft, state: FlowState::AwaitingStock }, FlowAction::ReadStock { item_id })
    }

    /// Answers the stock record that the store returned.
    fn on_stock(self, stock: ItemStock) -> (next: (OrderFlow, FlowAction))
        requires
            self@.state == FlowState::AwaitingStock,
        ensures
            (next.0@, next.1@) == spec_step(self@, StoreEventView::StockFound(stock@)),
    {
        if stock.item_id != self.draft.item_id {
            return self.end_with(OrderError::PersistenceError);
        }
        match reserve(&stock, self.draft.quantity) {
            Ok(update) => {
                let draft = self.draft.duplicate();
                (
                    OrderFlow { draft: self.draft, state: FlowState::AwaitingCommit },
                    FlowAction::Commit { draft, update },
                )
            },
            Err(e) => self.end_with(e),
        }
    }

    /// Files the draft under the identifier that the store assigned.
    fn on_committed(self, order_id: String) -> (next: (OrderFlow, FlowAction))
        requires
            self@.state == FlowState::AwaitingCommit,
        ensures
            (next.0@, next.1@) == spec_step(self@, StoreEventView::Committed { order_id: order_id@ }),
    {
        let order = Order {
            order_id,
            user_id: self.draft.user_id.clone(),
            item_id: self.draft.item_id.clone(),
            item_name: self.draft.item_name.clone(),
            quantity: self.draft.quantity,
            price: self.draft.price,
            placed_at: self.draft.placed_at,
        };
        (
            OrderFlow { draft: self.draft, state: FlowState::Finished },
            FlowAction::Respond { outcome: Ok(order) },
        )
    }

    /// Answers one event of the store with the next state and action.
    pub fn step(self, event: StoreEvent) -> (next: (OrderFlow, FlowAction))
        ensures
            (next.0@, next.1@) == spec_step(self@, event@),
    {
        match self.state {
            FlowState::AwaitingStock => match event {
                StoreEvent::StockFound(stock) => self.on_stock(stock),
                StoreEvent::StockMissing => self.end_with(OrderError::ItemNotFound),
                _ => self.end_with(OrderError::PersistenceError),
            },
            FlowState::AwaitingCommit => match event {
                StoreEvent::Committed { order_id } => self.on_committed(order_id),
                StoreEvent::Conflict => OrderFlow::read_stock(self.draft),
                StoreEvent::OrderWithoutDecrement => self.end_with(OrderError::PartialFailure),
                _ => self.end_with(OrderError::PersistenceError),
            },
            FlowState::Finished => self.end_with(OrderError::PersistenceError),
        }
    }
}

/// Begins placing the order that `payload` asks for, received at `placed_at`.
/// The first action is always to read the item's stock.
pub fn add_order(payload: AddOrderReq, placed_at: i64) -> (next: (OrderFlow, FlowAction))
    ensures
        (next.0@, next.1@) == spec_start(
            spec_draft(
                payload.user_id@,
                payload.item_id@,
                payload.item_name@,
                payload.quantity as nat,
                payload.price,
                placed_at,
            ),
        ),
{
    let draft = OrderDraft {
        user_id: payload.user_id,
        item_id: payload.item_id,
        item_name: payload.item_name,
        quantity: payload.quantity,
        price: payload.price,
        placed_at,
    };
    OrderFlow::read_stock(draft)
}

/// What the store's record of an item is reported as: the record with its
/// quantity, or a failure of the store where the quantity it holds is
/// negative, which no ledger could have written.
pub open spec fn spec_stock_event(item_id: Seq<char>, quantity: i64, revision: Seq<char>) -> StoreEventView {
    match spec_quantity(quantity) {
        Some(available) => StoreEventView::StockFound(
            ItemStockView { item_id, quantity_available: available as nat, revision },
        ),
        None => StoreEventView::Failed,
    }
}

/// Reports the record of an item as the store holds it.
pub fn stock_event(item_id: String, quantity: i64, revision: String) -> (event: StoreEvent)
    ensures
        event@ == spec_stock_event(item_id@, quantity, revision@),
{
    match quantity_from(quantity) {
        Some(quantity_available) => StoreEvent::StockFound(
            ItemStock { item_id, quantity_available, revision },
        ),
        None => StoreEvent::Failed,
    }
}

/// What a request body with a signed quantity is read as: the request, or the
/// refusal of a negative quantity as a malformed request.
pub open spec fn spec_order_request<T>(
    step: Result<AddOrderReq, (Status, ApiResponse<T>)>,
    user_id: Seq<char>,
    item_id: Seq<char>,
    item_name: Seq<char>,
    quantity: i64,
    price: u64,
    quantity_diff: i64,
) -> bool {
    match spec_quantity(quantity) {
        Some(units) => step matches Ok(request) && {
            &&& request.user_id@ == user_id
            &&& request.item_id@ == item_id
            &&& request.item_name@ == item_name
            &&& request.quantity == units
            &&& request.price == price
            &&& request.quantity_diff == quantity_diff
        },
        None => step matches Err(answer) && answer.0 == Status::BadRequest && is_error(
            answer.1,
            "Error creating order: quantity must not be negative"@,
        ),
    }
}

/// Reads the body of an order request. A negative quantity is refused as a
/// malformed request before anything is asked of the store.
pub fn order_request<T>(
    user_id: String,
    item_id: String,
    item_name: String,
    quantity: i64,
    price: u64,
    quantity_diff: i64,
) -> (step: Result<AddOrderReq, (Status, ApiResponse<T>)>)
    ensures
        spec_order_request(step, user_id@, item_id@, item_name@, quantity, price, quantity_diff),
{
    match quantity_from(quantity) {
        Some(units) => Ok(
            AddOrderReq { user_id, item_id, item_name, quantity: units, price, quantity_diff },
        ),
        None => Err(
            (
                Status::BadRequest,
                generate_error("Error creating order: quantity must not be negative"),
            ),
        ),
    }
}

impl OrderError {
    /// The kind of failure that the error is.
    pub open spec fn spec_category(self) -> ErrorCategory {
        match self {
            OrderError::ItemNotFound => ErrorCategory::NotFound,
            OrderError::InsufficientStock => ErrorCategory::Conflict,
            OrderError::PersistenceError => ErrorCategory::Internal,
            OrderError::PartialFailure => ErrorCategory::PartialFailure,
        }
    }

    /// The status that the error is reported with: that of its kind.
    pub open spec fn spec_status(self) -> Status {
        self.spec_category().spec_status()
    }

    /// The kind of failure that the error is.
    pub fn category(&self) -> (category: ErrorCategory)
        ensures
            category == self.spec_category(),
    {
        match self {
            OrderError::ItemNotFound => ErrorCategory::NotFound,
            OrderError::InsufficientStock => ErrorCategory::Conflict,
            OrderError::PersistenceError => ErrorCategory::Internal,
            OrderError::PartialFailure => ErrorCategory::PartialFailure,
        }
    }

    /// The message that the error is reported with. A partial failure has a
    /// message of its own, so it is never taken for anything else.
    pub open spec fn spec_message(self) -> Seq<char> {
        match self {
            OrderError::ItemNotFound => "Item not found"@,
            OrderError::InsufficientStock => "Order quantity exceeds item quantity"@,
            OrderError::PersistenceError => "Error creating order"@,
            OrderError::PartialFailure => "Order recorded without its stock update"@,
        }
    }

    /// The status that the error is reported with.
    pub fn status(&self) -> (status: Status)
        ensures
            status == self.spec_status(),
    {
        self.category().status()
    }

    /// The message that the error is reported with.
    pub fn message(&self) -> (message: &'static str)
        ensures
            message@ == self.spec_message(),
    {
        match self {
            OrderError::ItemNotFound => "Item not found",
            OrderError::InsufficientStock => "Order quantity exceeds item quantity",
            OrderError::PersistenceError => "Error creating order",
            OrderError::PartialFailure => "Order recorded without its stock update",
        }
    }
}

/// The answer to the client: success with the order, or the error's status
/// and message.
pub fn order_response(outcome: Result<Order, OrderError>) -> (answer: (Status, ApiResponse<Order>))
    ensures
        match outcome {
            Ok(order) => answer.0 == Status::Success && answer.1 == ApiResponse::Success(order),
            Err(e) => answer.0 == e.spec_status() && is_error(answer.1, e.spec_message()),
        },
{
    match outcome {
        Ok(order) => (Status::Success, ApiResponse::Success(order)),
        Err(e) => (e.status(), generate_error(e.message())),
    }
}

/// An order comes into being in one way only: the store confirms the commit
/// that the placement was waiting for, and the order is the draft filed under
/// the identifier that the store assigned. Every other step answers with a
/// refusal or asks the store for something.
pub proof fn lemma_order_only_after_commit(flow: OrderFlowView, event: StoreEventView)
    requires
        spec_step(flow, event).1 matches FlowActionView::Respond { outcome: Ok(_) },
    ensures
        flow.state == FlowState::AwaitingCommit,
        event is Committed,
        spec_step(flow, event).1 == (FlowActionView::Respond {
            outcome: Ok(spec_filed(flow.draft, event->order_id)),
        }),
        spec_step(flow, event).0.state == FlowState::Finished,
{
}

/// A commit is handed to the store in one way only: the store has just
/// reported a record of the item that covers the quantity, and the commit
/// writes that record's quantity less the quantity ordered, on condition that
/// the record still carries the revision reported.
pub proof fn lemma_commit_only_on_covering_stock(flow: OrderFlowView, event: StoreEventView)
    requires
        spec_step(flow, event).1 is Commit,
    ensures
        flow.state == FlowState::AwaitingStock,
        event matches StoreEventView::StockFound(stock) && {
            &&& stock.item_id == flow.draft.item_id
            &&& flow.draft.quantity <= stock.quantity_available
            &&& spec_step(flow, event).1 == (FlowActionView::Commit {
                draft: flow.draft,
                update: StockUpdateView {
                    item_id: stock.item_id,
                    expected_revision: stock.revision,
                    new_quantity: (stock.quantity_available - flow.draft.quantity) as nat,
                },
            })
        },
{
}

/// A partial failure is never taken for anything else: no other outcome of a
/// placement, success included, is reported with its kind or with its message.
pub proof fn lemma_partial_failure_stands_apart(other: OrderError)
    requires
        other != OrderError::PartialFailure,
    ensures
        other.spec_category() != OrderError::PartialFailure.spec_category(),
        other.spec_message() != OrderError::PartialFailure.spec_message(),
        OrderError::PartialFailure.spec_status() != Status::Success,
{
    reveal_strlit("Item not found");
    reveal_strlit("Order quantity exceeds item quantity");
    reveal_strlit("Error creating order");
    reveal_strlit("Order recorded without its stock update");
    assert(OrderError::PartialFailure.spec_message().len() == 39);
    assert(other.spec_message().len() != 39);
}

} // verus!
