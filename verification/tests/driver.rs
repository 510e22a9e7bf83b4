use medbook_inventoryservice::consumers::inventory::{cancel_order, reserve_order, Outcome};
use medbook_inventoryservice::driver::{execute, handle};
use medbook_inventoryservice::events::{
    DomainEvent, OrderCancelledEvent, OrderItem, OrderRequestedEvent, OutboxEvent, OutboxStatus,
};
use medbook_inventoryservice::models::InventoryEntity;
use medbook_inventoryservice::protocol::{Command, Engine, Reply};
use medbook_inventoryservice::store::Store;

fn stocked() -> Store {
    let mut store = Store::new();
    for (product_id, total, reserved, sold) in [(1, 10, 0, 0), (2, 20, 5, 5), (3, 0, 0, 0)] {
        assert!(store.provision(InventoryEntity {
            product_id,
            total_quantity: total,
            reserved_quantity: reserved,
            sold_quantity: sold,
        }));
    }
    store
}

fn lines(items: &[(i32, i32)]) -> Vec<OrderItem> {
    items.iter().map(|&(product_id, quantity)| OrderItem { product_id, quantity }).collect()
}

fn same(left: &Store, right: &Store) {
    for product_id in 0..5 {
        assert_eq!(left.stock(product_id), right.stock(product_id));
    }
    assert_eq!(left.outbox_len(), right.outbox_len());
    for i in 0..left.outbox_len() {
        assert_eq!(left.outbox_row(i), right.outbox_row(i));
    }
}

#[test]
fn stepwise_reservation_matches_the_engine() {
    let orders: Vec<Vec<(i32, i32)>> = vec![
        vec![(1, 4), (2, 10)],
        vec![(1, 7)],
        vec![(2, 1), (3, 1), (1, 1)],
        vec![],
        vec![(9, 1)],
        vec![(1, 6)],
    ];
    let mut direct = stocked();
    let mut stepped = stocked();
    let mut order_id = 100;
    for order in orders {
        order_id += 1;
        let items = lines(&order);
        let outcome =
            reserve_order(&mut direct, &OrderRequestedEvent { order_id, order_items: items.clone() });
        let (after, handled) = handle(Engine::Reserve, stepped, order_id, &items);
        stepped = after;
        assert!(handled);
        same(&direct, &stepped);
        let last = stepped.outbox_row(stepped.outbox_len() - 1).unwrap().event;
        assert_eq!(
            outcome == Outcome::Reserved,
            last == DomainEvent::OrderReserved { order_id }
        );
    }
    assert_eq!(stepped.stock(1).unwrap().reserved_quantity, 10);
    assert_eq!(stepped.stock(2).unwrap().reserved_quantity, 15);
    assert_eq!(stepped.outbox_len(), 6);
}

#[test]
fn stepwise_cancellation_matches_the_engine() {
    let orders: Vec<Vec<(i32, i32)>> =
        vec![vec![(2, 3)], vec![(2, 2), (1, 1)], vec![(2, 2)], vec![(2, 1)], vec![(2, i32::MIN)]];
    let mut direct = stocked();
    let mut stepped = stocked();
    let mut order_id = 0;
    for order in orders {
        order_id += 1;
        let items = lines(&order);
        cancel_order(&mut direct, &OrderCancelledEvent { order_id, order_items: items.clone() });
        let (after, handled) = handle(Engine::Cancel, stepped, order_id, &items);
        stepped = after;
        assert!(handled);
        same(&direct, &stepped);
    }
    assert_eq!(stepped.stock(2).unwrap().reserved_quantity, 0);
    assert_eq!(
        stepped.outbox_row(1),
        Some(OutboxEvent {
            event: DomainEvent::ReservationReleaseFailed { order_id: 2 },
            status: OutboxStatus::Pending
        })
    );
    assert_eq!(
        stepped.outbox_row(4).unwrap().event,
        DomainEvent::ReservationReleaseFailed { order_id: 5 }
    );
}

#[test]
fn commands_act_on_the_open_transaction() {
    let store = stocked();
    let reserve = Command::Reserve { product_id: 1, quantity: 3 };
    let (store, open, reply) = execute(store, None, reserve);
    assert!(open.is_none());
    assert_eq!(reply, Reply::Failed);

    let (store, open, reply) = execute(store, None, Command::Begin);
    assert_eq!(reply, Reply::Done { rows: 0 });
    let (store, open, reply) = execute(store, open, reserve);
    assert_eq!(reply, Reply::Done { rows: 1 });
    let (store, open, reply) =
        execute(store, open, Command::Reserve { product_id: 1, quantity: 8 });
    assert_eq!(reply, Reply::Done { rows: 0 });
    let (store, open, reply) =
        execute(store, open, Command::Release { product_id: 1, quantity: i32::MIN });
    assert_eq!(reply, Reply::Done { rows: 0 });
    let (store, open, reply) =
        execute(store, open, Command::Release { product_id: 1, quantity: 1 });
    assert_eq!(reply, Reply::Done { rows: 1 });
    let event = DomainEvent::OrderReserved { order_id: 1 };
    let (store, open, reply) = execute(store, open, Command::Publish { event });
    assert_eq!(reply, Reply::Done { rows: 1 });
    assert_eq!(store.stock(1).unwrap().reserved_quantity, 0);
    assert_eq!(store.outbox_len(), 0);

    let (store, open, reply) = execute(store, open, Command::Commit);
    assert!(open.is_none());
    assert_eq!(reply, Reply::Done { rows: 0 });
    assert_eq!(store.stock(1).unwrap().reserved_quantity, 2);
    assert_eq!(store.outbox_row(0).unwrap().event, event);

    let (store, open, reply) = execute(store, None, Command::Commit);
    assert!(open.is_none());
    assert_eq!(reply, Reply::Failed);
    let (store, open, _) = execute(store, None, Command::Begin);
    let (store, open, _) = execute(store, open, reserve);
    let (store, open, reply) = execute(store, open, Command::Rollback);
    assert!(open.is_none());
    assert_eq!(reply, Reply::Done { rows: 0 });
    assert_eq!(store.stock(1).unwrap().reserved_quantity, 2);
    let failed = DomainEvent::OrderRejected { order_id: 2 };
    let (store, _, reply) = execute(store, None, Command::Compensate { event: failed });
    assert_eq!(reply, Reply::Done { rows: 1 });
    assert_eq!(store.outbox_row(1).unwrap().event, failed);
    let (store, _, reply) = execute(store, None, Command::Acknowledge);
    assert_eq!(reply, Reply::Done { rows: 0 });
    assert_eq!(store.outbox_len(), 2);
}
