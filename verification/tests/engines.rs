use medbook_inventoryservice::consumers::inventory::{
    cancel_order, release_items, reserve_items, reserve_order, Outcome,
};
use medbook_inventoryservice::events::{
    DomainEvent, OrderCancelledEvent, OrderItem, OrderRequestedEvent, Outbox, OutboxEvent,
    OutboxStatus,
};
use medbook_inventoryservice::ledger::Ledger;
use medbook_inventoryservice::models::{InventoryEntity, Reason};
use medbook_inventoryservice::store::Store;

fn row(product_id: i32, total: i32, reserved: i32, sold: i32) -> InventoryEntity {
    InventoryEntity {
        product_id,
        total_quantity: total,
        reserved_quantity: reserved,
        sold_quantity: sold,
    }
}

fn store_with(rows: Vec<InventoryEntity>) -> Store {
    let mut store = Store::new();
    for r in rows {
        assert!(store.provision(r));
    }
    store
}

fn request(order_id: i32, items: Vec<(i32, i32)>) -> OrderRequestedEvent {
    OrderRequestedEvent {
        order_id,
        order_items: items
            .into_iter()
            .map(|(product_id, quantity)| OrderItem { product_id, quantity })
            .collect(),
    }
}

fn cancellation(order_id: i32, items: Vec<(i32, i32)>) -> OrderCancelledEvent {
    OrderCancelledEvent {
        order_id,
        order_items: items
            .into_iter()
            .map(|(product_id, quantity)| OrderItem { product_id, quantity })
            .collect(),
    }
}

fn reserved(store: &Store, product_id: i32) -> i32 {
    store.stock(product_id).unwrap().reserved_quantity
}

fn pending(event: DomainEvent) -> OutboxEvent {
    OutboxEvent { event, status: OutboxStatus::Pending }
}

#[test]
fn reserve_all_stock_then_reject_the_next_order() {
    let mut store = store_with(vec![row(1, 10, 0, 0)]);

    let first = reserve_order(&mut store, &request(1, vec![(1, 10)]));
    assert_eq!(first, Outcome::Reserved);
    assert_eq!(reserved(&store, 1), 10);
    assert_eq!(store.outbox_len(), 1);
    assert_eq!(store.outbox_row(0), Some(pending(DomainEvent::OrderReserved { order_id: 1 })));

    let second = reserve_order(&mut store, &request(2, vec![(1, 1)]));
    assert_eq!(
        second,
        Outcome::Rejected { reason: Reason::InsufficientStock { product_id: 1 } }
    );
    assert_eq!(reserved(&store, 1), 10);
    assert_eq!(store.outbox_len(), 2);
    assert_eq!(store.outbox_row(1), Some(pending(DomainEvent::OrderRejected { order_id: 2 })));
}

#[test]
fn cancel_releases_once_and_fails_the_second_time() {
    let mut store = store_with(vec![row(1, 10, 0, 0)]);
    assert_eq!(reserve_order(&mut store, &request(1, vec![(1, 10)])), Outcome::Reserved);
    let _ = reserve_order(&mut store, &request(2, vec![(1, 1)]));

    let first = cancel_order(&mut store, &cancellation(1, vec![(1, 10)]));
    assert_eq!(first, Outcome::Released);
    assert_eq!(reserved(&store, 1), 0);
    assert_eq!(
        store.outbox_row(2),
        Some(pending(DomainEvent::OrderCancelSuccess { order_id: 1 }))
    );

    let second = cancel_order(&mut store, &cancellation(1, vec![(1, 10)]));
    assert_eq!(
        second,
        Outcome::Rejected { reason: Reason::NoReservedStock { product_id: 1 } }
    );
    assert_eq!(reserved(&store, 1), 0);
    assert_eq!(
        store.outbox_row(3),
        Some(pending(DomainEvent::ReservationReleaseFailed { order_id: 1 }))
    );
    assert_eq!(store.outbox_len(), 4);
}

#[test]
fn multi_item_order_with_one_short_item_changes_nothing() {
    let mut store = store_with(vec![row(1, 50, 3, 2), row(2, 100, 0, 0)]);
    let outcome = reserve_order(&mut store, &request(7, vec![(1, 5), (2, 999999)]));
    assert_eq!(
        outcome,
        Outcome::Rejected { reason: Reason::InsufficientStock { product_id: 2 } }
    );
    assert_eq!(store.stock(1), Some(row(1, 50, 3, 2)));
    assert_eq!(store.stock(2), Some(row(2, 100, 0, 0)));
    assert_eq!(store.outbox_len(), 1);
    assert_eq!(store.outbox_row(0), Some(pending(DomainEvent::OrderRejected { order_id: 7 })));
}

#[test]
fn multi_item_order_reserves_every_item() {
    let mut store = store_with(vec![row(1, 50, 3, 2), row(2, 100, 0, 0)]);
    let outcome = reserve_order(&mut store, &request(8, vec![(1, 5), (2, 100), (1, 40)]));
    assert_eq!(outcome, Outcome::Reserved);
    assert_eq!(store.stock(1), Some(row(1, 50, 48, 2)));
    assert_eq!(store.stock(2), Some(row(2, 100, 100, 0)));
    assert_eq!(store.outbox_len(), 1);
}

#[test]
fn same_product_twice_is_checked_against_the_running_total() {
    let mut store = store_with(vec![row(1, 10, 0, 0)]);
    let outcome = reserve_order(&mut store, &request(9, vec![(1, 6), (1, 6)]));
    assert_eq!(
        outcome,
        Outcome::Rejected { reason: Reason::InsufficientStock { product_id: 1 } }
    );
    assert_eq!(reserved(&store, 1), 0);
}

#[test]
fn unknown_product_rejects_the_order() {
    let mut store = store_with(vec![row(1, 10, 0, 0)]);
    let outcome = reserve_order(&mut store, &request(3, vec![(1, 2), (42, 1)]));
    assert_eq!(
        outcome,
        Outcome::Rejected { reason: Reason::InsufficientStock { product_id: 42 } }
    );
    assert_eq!(reserved(&store, 1), 0);
    let outcome = cancel_order(&mut store, &cancellation(3, vec![(42, 1)]));
    assert_eq!(
        outcome,
        Outcome::Rejected { reason: Reason::NoReservedStock { product_id: 42 } }
    );
}

#[test]
fn cancelling_what_was_never_reserved_leaves_the_ledger() {
    let mut store = store_with(vec![row(1, 10, 0, 0), row(2, 10, 4, 0)]);
    let outcome = cancel_order(&mut store, &cancellation(5, vec![(2, 4), (1, 1)]));
    assert_eq!(
        outcome,
        Outcome::Rejected { reason: Reason::NoReservedStock { product_id: 1 } }
    );
    assert_eq!(store.stock(1), Some(row(1, 10, 0, 0)));
    assert_eq!(store.stock(2), Some(row(2, 10, 4, 0)));
    assert_eq!(store.outbox_len(), 1);
    assert_eq!(
        store.outbox_row(0),
        Some(pending(DomainEvent::ReservationReleaseFailed { order_id: 5 }))
    );
}

#[test]
fn many_reservations_never_oversell() {
    let mut store = store_with(vec![row(1, 10, 2, 3)]);
    let mut granted = 0;
    for (order_id, quantity) in [(1, 3), (2, 3), (3, 1), (4, 1), (5, 1), (6, 0)] {
        let outcome = reserve_order(&mut store, &request(order_id, vec![(1, quantity)]));
        if outcome == Outcome::Reserved {
            granted += quantity;
        }
        let now = store.stock(1).unwrap();
        assert!(now.reserved_quantity + now.sold_quantity <= now.total_quantity);
        assert_eq!(now.reserved_quantity, 2 + granted);
    }
    assert_eq!(granted, 5);
    assert_eq!(reserved(&store, 1), 7);
    assert_eq!(store.outbox_len(), 6);
}

#[test]
fn every_attempt_writes_exactly_one_row() {
    let mut store = store_with(vec![row(1, 5, 0, 0)]);
    let mut rows = 0;
    for quantity in [2, 9, 3, 1] {
        let before = store.stock(1);
        let outcome = reserve_order(&mut store, &request(quantity, vec![(1, quantity)]));
        rows += 1;
        assert_eq!(store.outbox_len(), rows);
        let last = store.outbox_row(rows - 1).unwrap();
        assert_eq!(last.status, OutboxStatus::Pending);
        match outcome {
            Outcome::Reserved => {
                assert_eq!(last.event, DomainEvent::OrderReserved { order_id: quantity });
                assert_ne!(store.stock(1), before);
            }
            _ => {
                assert_eq!(last.event, DomainEvent::OrderRejected { order_id: quantity });
                assert_eq!(store.stock(1), before);
            }
        }
    }
    assert_eq!(store.outbox_row(rows), None);
}

#[test]
fn order_without_items_is_reserved() {
    let mut store = store_with(vec![row(1, 5, 0, 0)]);
    assert_eq!(reserve_order(&mut store, &request(11, vec![])), Outcome::Reserved);
    assert_eq!(cancel_order(&mut store, &cancellation(11, vec![])), Outcome::Released);
    assert_eq!(store.stock(1), Some(row(1, 5, 0, 0)));
    assert_eq!(store.outbox_len(), 2);
}

#[test]
fn row_reserve_and_release_formulas() {
    let r = row(1, 10, 2, 3);
    assert_eq!(r.available_quantity(), 5);
    assert_eq!(r.reserve(5), Ok(row(1, 10, 7, 3)));
    assert_eq!(r.reserve(6), Err(Reason::InsufficientStock { product_id: 1 }));
    assert_eq!(r.release(2), Ok(row(1, 10, 0, 3)));
    assert_eq!(r.release(3), Err(Reason::NoReservedStock { product_id: 1 }));
    assert_eq!(r.reserve(0), Ok(r));
    assert_eq!(r.release(0), Ok(r));
}

#[test]
fn negative_quantity_fails_the_guard() {
    assert_eq!(row(1, 10, 10, 0).release(-5), Err(Reason::NoReservedStock { product_id: 1 }));
    assert_eq!(row(1, 10, 0, 0).reserve(-5), Err(Reason::InsufficientStock { product_id: 1 }));
    assert_eq!(row(1, 10, 0, 0).release(i32::MIN), Err(Reason::NoReservedStock { product_id: 1 }));
    assert_eq!(row(1, 10, 0, 0).reserve(i32::MIN), Err(Reason::InsufficientStock { product_id: 1 }));

    let mut store = store_with(vec![row(1, 10, 10, 0), row(2, 10, 0, 0)]);
    let outcome = cancel_order(&mut store, &cancellation(4, vec![(1, -5)]));
    assert_eq!(outcome, Outcome::Rejected { reason: Reason::NoReservedStock { product_id: 1 } });
    assert_eq!(store.stock(1), Some(row(1, 10, 10, 0)));
    assert_eq!(
        store.outbox_row(0),
        Some(pending(DomainEvent::ReservationReleaseFailed { order_id: 4 }))
    );

    let outcome = reserve_order(&mut store, &request(5, vec![(2, 3), (2, -5)]));
    assert_eq!(outcome, Outcome::Rejected { reason: Reason::InsufficientStock { product_id: 2 } });
    assert_eq!(store.stock(2), Some(row(2, 10, 0, 0)));
    assert_eq!(store.outbox_row(1), Some(pending(DomainEvent::OrderRejected { order_id: 5 })));
    assert_eq!(store.outbox_len(), 2);
}

#[test]
fn row_that_breaks_the_invariant_can_be_out_of_range() {
    let wide = row(3, i32::MAX, 3, -5);
    assert_eq!(wide.reserve(i32::MAX), Err(Reason::OutOfRange { product_id: 3 }));
    assert_eq!(wide.reserve(i32::MAX - 3), Ok(row(3, i32::MAX, i32::MAX, -5)));
}

#[test]
fn rows_keep_their_invariant_whatever_is_asked() {
    let mut store = store_with(vec![row(1, 10, 4, 3)]);
    for quantity in [-7, 0, 2, 5, i32::MAX, i32::MIN, 1, -1, 3, 4] {
        let _ = reserve_order(&mut store, &request(1, vec![(1, quantity)]));
        let now = store.stock(1).unwrap();
        assert!(0 <= now.reserved_quantity);
        assert!(now.reserved_quantity <= now.total_quantity - now.sold_quantity);
        let _ = cancel_order(&mut store, &cancellation(1, vec![(1, quantity)]));
        let now = store.stock(1).unwrap();
        assert!(0 <= now.reserved_quantity);
        assert!(now.reserved_quantity <= now.total_quantity - now.sold_quantity);
        assert_eq!((now.total_quantity, now.sold_quantity), (10, 3));
    }
}

#[test]
fn status_has_its_text() {
    assert_eq!(OutboxStatus::Pending.text(), "pending");
    assert_eq!(OutboxStatus::Dispatched.text(), "dispatched");
}

#[test]
fn new_row_checks_the_invariant() {
    assert_eq!(InventoryEntity::new(1, 10, 4, 6), Some(row(1, 10, 4, 6)));
    assert_eq!(InventoryEntity::new(1, 10, 5, 6), None);
    assert_eq!(InventoryEntity::new(1, -1, 0, 0), None);
    assert_eq!(InventoryEntity::new(1, 10, -1, 0), None);
    assert_eq!(InventoryEntity::new(1, 10, 0, -1), None);
    assert_eq!(InventoryEntity::new(1, i32::MAX, i32::MAX, 1), None);
}

#[test]
fn ledger_has_one_row_per_product() {
    let mut ledger = Ledger::new();
    assert_eq!(ledger.get(1), None);
    assert!(ledger.provision(row(1, 10, 0, 0)));
    assert!(!ledger.provision(row(1, 20, 0, 0)));
    assert!(!ledger.provision(row(2, 10, 11, 0)));
    assert!(ledger.provision(row(2, 7, 1, 1)));
    assert_eq!(ledger.get(1), Some(row(1, 10, 0, 0)));
    assert_eq!(ledger.get(2), Some(row(2, 7, 1, 1)));
    assert_eq!(ledger.reserve(2, 5), Ok(()));
    assert_eq!(ledger.get(2), Some(row(2, 7, 6, 1)));
    assert_eq!(ledger.reserve(2, 1), Err(Reason::InsufficientStock { product_id: 2 }));
    assert_eq!(ledger.release(2, 6), Ok(()));
    assert_eq!(ledger.get(2), Some(row(2, 7, 0, 1)));
    assert_eq!(ledger.get(1), Some(row(1, 10, 0, 0)));
    let copy = ledger.snapshot();
    assert_eq!(copy.get(2), Some(row(2, 7, 0, 1)));
}

#[test]
fn dropped_transaction_leaves_the_store() {
    let mut store = store_with(vec![row(1, 10, 0, 0)]);
    let mut tx = store.begin();
    assert_eq!(tx.reserve(1, 4), Ok(()));
    tx.publish(DomainEvent::OrderReserved { order_id: 1 });
    drop(tx);
    assert_eq!(reserved(&store, 1), 0);
    assert_eq!(store.outbox_len(), 0);

    let mut tx = store.begin();
    assert_eq!(tx.reserve(1, 4), Ok(()));
    assert_eq!(tx.release(1, 1), Ok(()));
    tx.publish(DomainEvent::OrderReserved { order_id: 1 });
    store.commit(tx);
    assert_eq!(reserved(&store, 1), 3);
    assert_eq!(store.outbox_len(), 1);
}

#[test]
fn items_are_applied_in_order_inside_a_transaction() {
    let store = store_with(vec![row(1, 10, 0, 0), row(2, 1, 0, 0)]);
    let items = vec![
        OrderItem { product_id: 2, quantity: 2 },
        OrderItem { product_id: 1, quantity: 11 },
    ];
    assert_eq!(
        reserve_items(store.begin(), &items).err(),
        Some(Reason::InsufficientStock { product_id: 2 })
    );
    assert_eq!(
        release_items(store.begin(), &items).err(),
        Some(Reason::NoReservedStock { product_id: 2 })
    );
    let fine = vec![OrderItem { product_id: 1, quantity: 10 }];
    assert!(reserve_items(store.begin(), &fine).is_ok());
}

#[test]
fn outbox_is_append_only() {
    let mut outbox = Outbox::new();
    assert_eq!(outbox.len(), 0);
    outbox.publish(DomainEvent::OrderRejected { order_id: 3 });
    outbox.publish(DomainEvent::OrderReserved { order_id: 4 });
    assert_eq!(outbox.get(0), Some(pending(DomainEvent::OrderRejected { order_id: 3 })));
    assert_eq!(outbox.get(1), Some(pending(DomainEvent::OrderReserved { order_id: 4 })));
    assert_eq!(outbox.get(2), None);
    assert_eq!(outbox.snapshot().len(), 2);
}

#[test]
fn events_have_their_topics() {
    let reserved = DomainEvent::OrderReserved { order_id: 1 };
    let rejected = DomainEvent::OrderRejected { order_id: 2 };
    let cancelled = DomainEvent::OrderCancelSuccess { order_id: 3 };
    let failed = DomainEvent::ReservationReleaseFailed { order_id: 4 };
    assert_eq!(reserved.topic(), "orders.order_reserved");
    assert_eq!(rejected.topic(), "orders.order_rejected");
    assert_eq!(cancelled.topic(), "orders.order_cancelled");
    assert_eq!(failed.topic(), "inventory.reservation_release_failed");
    assert_eq!(reserved.order_id(), 1);
    assert_eq!(rejected.order_id(), 2);
    assert_eq!(cancelled.order_id(), 3);
    assert_eq!(failed.order_id(), 4);
}
