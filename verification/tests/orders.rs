use server::api::ApiResponse;
use server::orders::{
    add_order, order_request, stock_event, AddOrderReq, FlowAction, FlowState, Order, OrderDraft,
    OrderFlow, StoreEvent,
};
use server::stock::{quantity_from, reserve, ItemQuantityUpdate, ItemStock, OrderError, StockUpdate};

/// A store with one item, which applies a conditional write only while the
/// item still carries the expected revision.
struct Store {
    item: ItemStock,
    writes: u64,
    orders: Vec<OrderDraft>,
}

impl Store {
    fn with(quantity: u64) -> Store {
        Store {
            item: ItemStock {
                item_id: "I".to_string(),
                quantity_available: quantity,
                revision: "r0".to_string(),
            },
            writes: 0,
            orders: Vec::new(),
        }
    }

    fn read(&self, item_id: &str) -> StoreEvent {
        if item_id == self.item.item_id {
            StoreEvent::StockFound(self.item.clone())
        } else {
            StoreEvent::StockMissing
        }
    }

    fn commit(&mut self, draft: OrderDraft, update: StockUpdate) -> StoreEvent {
        if update.item_id != self.item.item_id || update.expected_revision != self.item.revision {
            return StoreEvent::Conflict;
        }
        self.writes += 1;
        self.item.quantity_available = update.patch.quantity;
        self.item.revision = format!("r{}", self.writes);
        self.orders.push(draft);
        StoreEvent::Committed { order_id: format!("o{}", self.orders.len()) }
    }
}

fn request(item_id: &str, quantity: u64) -> AddOrderReq {
    AddOrderReq {
        user_id: "u1".to_string(),
        item_id: item_id.to_string(),
        item_name: "Lamp".to_string(),
        quantity,
        price: 1250,
        quantity_diff: 0,
    }
}

/// Runs one call to its end against the store, with nothing in between.
fn place(store: &mut Store, payload: AddOrderReq) -> Result<Order, OrderError> {
    let (mut flow, mut action) = add_order(payload, 1_700_000_000);
    loop {
        let event = match action {
            FlowAction::ReadStock { item_id } => store.read(&item_id),
            FlowAction::Commit { draft, update } => store.commit(draft, update),
            FlowAction::Respond { outcome } => {
                assert_eq!(flow.state(), FlowState::Finished);
                return outcome;
            }
        };
        let next = flow.step(event);
        flow = next.0;
        action = next.1;
    }
}

fn expect_commit(action: FlowAction) -> (OrderDraft, StockUpdate) {
    match action {
        FlowAction::Commit { draft, update } => (draft, update),
        other => panic!("expected a commit, got {:?}", other),
    }
}

fn expect_read(action: FlowAction) -> String {
    match action {
        FlowAction::ReadStock { item_id } => item_id,
        other => panic!("expected a read, got {:?}", other),
    }
}

fn expect_answer(action: FlowAction) -> Result<Order, OrderError> {
    match action {
        FlowAction::Respond { outcome } => outcome,
        other => panic!("expected an answer, got {:?}", other),
    }
}

fn start(payload: AddOrderReq) -> (OrderFlow, String) {
    let (flow, action) = add_order(payload, 1_700_000_000);
    assert_eq!(flow.state(), FlowState::AwaitingStock);
    (flow, expect_read(action))
}

#[test]
fn reserve_takes_exactly_the_ordered_quantity() {
    let stock = ItemStock {
        item_id: "I".to_string(),
        quantity_available: 5,
        revision: "r7".to_string(),
    };
    let update = reserve(&stock, 3).unwrap();
    assert_eq!(update.item_id, "I");
    assert_eq!(update.expected_revision, "r7");
    assert_eq!(update.patch, ItemQuantityUpdate { quantity: 2 });
}

#[test]
fn reserve_allows_taking_everything_and_nothing() {
    let stock = ItemStock {
        item_id: "I".to_string(),
        quantity_available: 5,
        revision: "r".to_string(),
    };
    assert_eq!(reserve(&stock, 5).unwrap().patch.quantity, 0);
    assert_eq!(reserve(&stock, 0).unwrap().patch.quantity, 5);
}

#[test]
fn reserve_refuses_more_than_is_available() {
    let stock = ItemStock {
        item_id: "I".to_string(),
        quantity_available: 5,
        revision: "r".to_string(),
    };
    assert_eq!(reserve(&stock, 6).unwrap_err(), OrderError::InsufficientStock);
    let empty = ItemStock { quantity_available: 0, ..stock };
    assert_eq!(reserve(&empty, 1).unwrap_err(), OrderError::InsufficientStock);
    assert_eq!(reserve(&empty, u64::MAX).unwrap_err(), OrderError::InsufficientStock);
}

#[test]
fn order_is_filed_with_a_snapshot_of_the_request() {
    let mut store = Store::with(5);
    let order = place(&mut store, request("I", 3)).unwrap();
    assert_eq!(order.order_id(), "o1");
    assert_eq!(order.user_id(), "u1");
    assert_eq!(order.item_id(), "I");
    assert_eq!(order.item_name(), "Lamp");
    assert_eq!(order.quantity(), 3);
    assert_eq!(order.price(), 1250);
    assert_eq!(order.placed_at(), 1_700_000_000);
    assert_eq!(store.item.quantity_available, 2);
    assert_eq!(store.orders.len(), 1);
}

#[test]
fn first_action_is_to_read_the_item() {
    let (_, item_id) = start(request("I", 3));
    assert_eq!(item_id, "I");
}

#[test]
fn missing_item_is_item_not_found() {
    let mut store = Store::with(5);
    assert_eq!(place(&mut store, request("J", 1)).unwrap_err(), OrderError::ItemNotFound);
    assert_eq!(store.item.quantity_available, 5);
    assert!(store.orders.is_empty());
}

#[test]
fn insufficient_stock_changes_nothing() {
    let mut store = Store::with(5);
    assert_eq!(place(&mut store, request("I", 6)).unwrap_err(), OrderError::InsufficientStock);
    assert_eq!(store.item.quantity_available, 5);
    assert_eq!(store.item.revision, "r0");
    assert!(store.orders.is_empty());
}

#[test]
fn two_concurrent_orders_of_three_against_five() {
    let mut store = Store::with(5);
    let (first, first_item) = start(request("I", 3));
    let (second, second_item) = start(request("I", 3));

    // Both read before either writes: both see five units.
    let (first, action) = first.step(store.read(&first_item));
    let (first_draft, first_update) = expect_commit(action);
    let (second, action) = second.step(store.read(&second_item));
    let (second_draft, second_update) = expect_commit(action);
    assert_eq!(first_update.patch.quantity, 2);
    assert_eq!(second_update.patch.quantity, 2);

    // The store serves the first commit; the second one comes too late.
    let (first, action) = first.step(store.commit(first_draft, first_update));
    let won = expect_answer(action).unwrap();
    assert_eq!(first.state(), FlowState::Finished);
    assert_eq!(won.quantity(), 3);
    assert_eq!(store.item.quantity_available, 2);

    let (second, action) = second.step(store.commit(second_draft, second_update));
    assert_eq!(second.state(), FlowState::AwaitingStock);
    let again = expect_read(action);
    let (second, action) = second.step(store.read(&again));
    assert_eq!(expect_answer(action).unwrap_err(), OrderError::InsufficientStock);
    assert_eq!(second.state(), FlowState::Finished);

    assert_eq!(store.item.quantity_available, 2);
    assert_eq!(store.orders.len(), 1);
}

#[test]
fn concurrent_orders_never_overdraw() {
    // Every pair of quantities against five units, the second call reading
    // before the first one writes.
    for a in 0..=6u64 {
        for b in 0..=6u64 {
            let mut store = Store::with(5);
            let (first, item) = start(request("I", a));
            let (second, _) = start(request("I", b));
            let first_next = first.step(store.read(&item));
            let second_next = second.step(store.read(&item));
            let mut taken = 0;
            for (mut flow, mut action) in [first_next, second_next] {
                loop {
                    let event = match action {
                        FlowAction::ReadStock { item_id } => store.read(&item_id),
                        FlowAction::Commit { draft, update } => store.commit(draft, update),
                        FlowAction::Respond { outcome } => {
                            if let Ok(order) = outcome {
                                taken += order.quantity();
                            }
                            break;
                        }
                    };
                    let next = flow.step(event);
                    flow = next.0;
                    action = next.1;
                }
            }
            assert_eq!(taken + store.item.quantity_available, 5);
        }
    }
}

#[test]
fn conflict_starts_over_with_a_fresh_read() {
    let mut store = Store::with(5);
    let (flow, item) = start(request("I", 2));
    let (flow, action) = flow.step(store.read(&item));
    let _ = expect_commit(action);
    assert_eq!(flow.state(), FlowState::AwaitingCommit);
    let (flow, action) = flow.step(StoreEvent::Conflict);
    assert_eq!(flow.state(), FlowState::AwaitingStock);
    assert_eq!(expect_read(action), "I");
}

#[test]
fn order_without_decrement_is_a_partial_failure() {
    let store = Store::with(5);
    let (flow, item) = start(request("I", 2));
    let (flow, _) = flow.step(store.read(&item));
    let (flow, action) = flow.step(StoreEvent::OrderWithoutDecrement);
    assert_eq!(expect_answer(action).unwrap_err(), OrderError::PartialFailure);
    assert_eq!(flow.state(), FlowState::Finished);
}

#[test]
fn store_failure_is_a_persistence_error() {
    let store = Store::with(5);
    let (flow, _) = start(request("I", 2));
    let (_, action) = flow.step(StoreEvent::Failed);
    assert_eq!(expect_answer(action).unwrap_err(), OrderError::PersistenceError);

    let (flow, item) = start(request("I", 2));
    let (flow, _) = flow.step(store.read(&item));
    let (_, action) = flow.step(StoreEvent::Failed);
    assert_eq!(expect_answer(action).unwrap_err(), OrderError::PersistenceError);
}

#[test]
fn record_of_another_item_is_refused() {
    let (flow, _) = start(request("I", 2));
    let other = ItemStock {
        item_id: "J".to_string(),
        quantity_available: 9,
        revision: "r".to_string(),
    };
    let (flow, action) = flow.step(StoreEvent::StockFound(other));
    assert_eq!(expect_answer(action).unwrap_err(), OrderError::PersistenceError);
    assert_eq!(flow.state(), FlowState::Finished);
}

#[test]
fn unexpected_events_end_the_call() {
    let (flow, _) = start(request("I", 2));
    let (flow, action) = flow.step(StoreEvent::Committed { order_id: "o9".to_string() });
    assert_eq!(expect_answer(action).unwrap_err(), OrderError::PersistenceError);
    let (flow, action) = flow.step(StoreEvent::StockMissing);
    assert_eq!(expect_answer(action).unwrap_err(), OrderError::PersistenceError);
    assert_eq!(flow.state(), FlowState::Finished);

    let store = Store::with(5);
    let (flow, item) = start(request("I", 2));
    let (flow, _) = flow.step(store.read(&item));
    let (_, action) = flow.step(StoreEvent::StockMissing);
    assert_eq!(expect_answer(action).unwrap_err(), OrderError::PersistenceError);
}

#[test]
fn negative_numbers_are_no_quantity() {
    assert_eq!(quantity_from(0), Some(0));
    assert_eq!(quantity_from(1), Some(1));
    assert_eq!(quantity_from(i64::MAX), Some(i64::MAX as u64));
    assert_eq!(quantity_from(-1), None);
    assert_eq!(quantity_from(i64::MIN), None);
}

#[test]
fn stored_record_is_reported_with_its_quantity() {
    match stock_event("I".to_string(), 5, "r3".to_string()) {
        StoreEvent::StockFound(stock) => {
            assert_eq!(stock.item_id, "I");
            assert_eq!(stock.quantity_available, 5);
            assert_eq!(stock.revision, "r3");
        }
        other => panic!("expected a record, got {:?}", other),
    }
    assert!(matches!(stock_event("I".to_string(), 0, "r".to_string()), StoreEvent::StockFound(_)));
}

#[test]
fn stored_record_with_a_negative_quantity_is_a_store_failure() {
    assert!(matches!(stock_event("I".to_string(), -1, "r".to_string()), StoreEvent::Failed));
    let (flow, _) = start(request("I", 2));
    let (_, action) = flow.step(stock_event("I".to_string(), -3, "r".to_string()));
    assert_eq!(expect_answer(action).unwrap_err(), OrderError::PersistenceError);
}

fn read_body(quantity: i64) -> Result<AddOrderReq, (server::api::Status, ApiResponse<u8>)> {
    order_request("u1".to_string(), "I".to_string(), "Lamp".to_string(), quantity, 1250, 7)
}

#[test]
fn request_body_is_taken_over_as_it_came() {
    let body = match read_body(3) {
        Ok(body) => body,
        Err((status, _)) => panic!("expected a request, got status {}", status.code()),
    };
    assert_eq!(body.user_id, "u1");
    assert_eq!(body.item_id, "I");
    assert_eq!(body.item_name, "Lamp");
    assert_eq!(body.quantity, 3);
    assert_eq!(body.price, 1250);
    assert_eq!(body.quantity_diff, 7);
    assert!(read_body(0).is_ok());
}

#[test]
fn negative_quantity_is_a_bad_request() {
    for quantity in [-1, -3, i64::MIN] {
        match read_body(quantity) {
            Ok(body) => panic!("expected a refusal, got a request for {}", body.quantity),
            Err((status, response)) => {
                assert_eq!(status.code(), 400);
                match response {
                    ApiResponse::Error(e) => assert_eq!(
                        e.error_msg,
                        "Error creating order: quantity must not be negative"
                    ),
                    ApiResponse::Success(_) => panic!("expected an error"),
                }
            }
        }
    }
}
