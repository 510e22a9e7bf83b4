//! What holds of the guarded updates and of whole orders, whatever the
//! ledger and whatever is asked of it.

use vstd::prelude::*;
use crate::consumers::inventory::{release_all, reserve_all};
use crate::driver::settled;
use crate::events::{pending, DomainEvent, OrderItem, OutboxEvent};
use crate::protocol::Engine;
use crate::store::Store;
use crate::ledger::{
    release_in, reserve_in, table_no_over_release, table_no_oversell, table_wf,
};
use crate::models::{InventoryEntity, Reason};

verus! {

/// The row after a run of reservation attempts, each a guarded update of its
/// own; an attempt whose guard fails leaves the row as it is.
pub open spec fn reserve_each(row: InventoryEntity, quantities: Seq<i32>) -> InventoryEntity
    decreases quantities.len(),
{
    if quantities.len() == 0 {
        row
    } else {
        let earlier = reserve_each(row, quantities.drop_last());
        match earlier.reserve_spec(quantities.last()) {
            Ok(next) => next,
            Err(_) => earlier,
        }
    }
}

/// The sum of the quantities of the attempts that succeeded.
pub open spec fn granted(row: InventoryEntity, quantities: Seq<i32>) -> int
    decreases quantities.len(),
{
    if quantities.len() == 0 {
        0
    } else {
        let earlier = reserve_each(row, quantities.drop_last());
        granted(row, quantities.drop_last()) + match earlier.reserve_spec(quantities.last()) {
            Ok(_) => quantities.last() as int,
            Err(_) => 0,
        }
    }
}

/// No oversell: after any run of reservation attempts on one row, the
/// reserved quantity has grown by exactly the sum of the successful ones,
/// that sum is within what was available, and reserved plus sold is within
/// the total.
pub proof fn law_no_oversell(row: InventoryEntity, quantities: Seq<i32>)
    requires
        row.no_oversell(),
    ensures
        reserve_each(row, quantities).no_oversell(),
        reserve_each(row, quantities).reserved_quantity == row.reserved_quantity + granted(
            row,
            quantities,
        ),
        granted(row, quantities) <= row.available(),
        reserve_each(row, quantities).total_quantity == row.total_quantity,
        reserve_each(row, quantities).sold_quantity == row.sold_quantity,
        reserve_each(row, quantities).product_id == row.product_id,
    decreases quantities.len(),
{
    if quantities.len() > 0 {
        law_no_oversell(row, quantities.drop_last());
    }
}

/// A run of reservation attempts keeps the whole row invariant, whatever
/// the quantities.
pub proof fn law_reservations_keep_row(row: InventoryEntity, quantities: Seq<i32>)
    requires
        row.wf(),
    ensures
        reserve_each(row, quantities).wf(),
    decreases quantities.len(),
{
    if quantities.len() > 0 {
        law_reservations_keep_row(row, quantities.drop_last());
        law_no_oversell(row, quantities.drop_last());
    }
}

/// No oversell, for whole orders: an order that is reserved leaves every
/// row with reserved plus sold within its total.
pub proof fn law_order_no_oversell(table: Map<i32, InventoryEntity>, items: Seq<OrderItem>)
    requires
        table_no_oversell(table),
    ensures
        reserve_all(table, items) is Ok ==> table_no_oversell(reserve_all(table, items)->Ok_0),
        reserve_all(table, items) is Ok ==> reserve_all(table, items)->Ok_0.dom() == table.dom(),
    decreases items.len(),
{
    if items.len() > 0 {
        match reserve_in(table, items[0].product_id, items[0].quantity) {
            Ok(next) => {
                assert(table.dom().contains(items[0].product_id));
                assert(next.dom() =~= table.dom());
                assert forall|id: i32| #[trigger] next.dom().contains(id) implies next[id].no_oversell() by {
                    assert(table.dom().contains(id));
                }
                law_order_no_oversell(next, items.subrange(1, items.len() as int));
            },
            Err(_) => {},
        }
    }
}

/// The table after a run of reservation orders, each handled all or
/// nothing: an order that is refused leaves the table as it is.
pub open spec fn after_orders(table: Map<i32, InventoryEntity>, orders: Seq<Seq<OrderItem>>) -> Map<
    i32,
    InventoryEntity,
>
    decreases orders.len(),
{
    if orders.len() == 0 {
        table
    } else {
        let earlier = after_orders(table, orders.drop_last());
        match reserve_all(earlier, orders.last()) {
            Ok(next) => next,
            Err(_) => earlier,
        }
    }
}

/// No oversell, for any run of orders: whichever of them are reserved and
/// whichever refused, no row ever has reserved plus sold above its total,
/// and no row appears or disappears.
pub proof fn law_orders_never_oversell(
    table: Map<i32, InventoryEntity>,
    orders: Seq<Seq<OrderItem>>,
)
    requires
        table_no_oversell(table),
    ensures
        table_no_oversell(after_orders(table, orders)),
        after_orders(table, orders).dom() == table.dom(),
    decreases orders.len(),
{
    if orders.len() > 0 {
        law_orders_never_oversell(table, orders.drop_last());
        law_order_no_oversell(after_orders(table, orders.drop_last()), orders.last());
    }
}

/// No over-release: an order that is released leaves no row with a negative
/// reserved quantity.
pub proof fn law_order_no_over_release(table: Map<i32, InventoryEntity>, items: Seq<OrderItem>)
    requires
        table_no_over_release(table),
    ensures
        release_all(table, items) is Ok ==> table_no_over_release(
            release_all(table, items)->Ok_0,
        ),
        release_all(table, items) is Ok ==> release_all(table, items)->Ok_0.dom() == table.dom(),
    decreases items.len(),
{
    if items.len() > 0 {
        match release_in(table, items[0].product_id, items[0].quantity) {
            Ok(next) => {
                assert(table.dom().contains(items[0].product_id));
                assert(next.dom() =~= table.dom());
                assert forall|id: i32| #[trigger] next.dom().contains(id) implies next[id].no_over_release() by {
                    assert(table.dom().contains(id));
                }
                law_order_no_over_release(next, items.subrange(1, items.len() as int));
            },
            Err(_) => {},
        }
    }
}

/// Every order keeps every row's invariant, whether it is reserved or
/// released and whatever its quantities: `0 <= reserved <= total - sold`
/// holds after it as before.
pub proof fn law_orders_keep_rows(table: Map<i32, InventoryEntity>, items: Seq<OrderItem>)
    requires
        table_wf(table),
    ensures
        reserve_all(table, items) is Ok ==> table_wf(reserve_all(table, items)->Ok_0),
        release_all(table, items) is Ok ==> table_wf(release_all(table, items)->Ok_0),
    decreases items.len(),
{
    if items.len() > 0 {
        let rest = items.subrange(1, items.len() as int);
        match reserve_in(table, items[0].product_id, items[0].quantity) {
            Ok(next) => {
                assert(table.dom().contains(items[0].product_id));
                assert forall|id: i32| #[trigger] next.dom().contains(id) implies next[id].product_id
                    == id && next[id].wf() by {
                    assert(table.dom().contains(id));
                }
                law_orders_keep_rows(next, rest);
            },
            Err(_) => {},
        }
        match release_in(table, items[0].product_id, items[0].quantity) {
            Ok(next) => {
                assert(table.dom().contains(items[0].product_id));
                assert forall|id: i32| #[trigger] next.dom().contains(id) implies next[id].product_id
                    == id && next[id].wf() by {
                    assert(table.dom().contains(id));
                }
                law_orders_keep_rows(next, rest);
            },
            Err(_) => {},
        }
    }
}

/// All or nothing: if the items before `k` can be reserved in turn and item
/// `k` then fails its guard, the whole order is refused with that item's
/// reason, whatever follows it.
pub proof fn law_first_failure_rejects(
    table: Map<i32, InventoryEntity>,
    items: Seq<OrderItem>,
    k: int,
)
    requires
        0 <= k < items.len(),
        reserve_all(table, items.subrange(0, k)) is Ok,
        reserve_in(
            reserve_all(table, items.subrange(0, k))->Ok_0,
            items[k].product_id,
            items[k].quantity,
        ) is Err,
    ensures
        reserve_all(table, items) == Err::<Map<i32, InventoryEntity>, Reason>(
            reserve_in(
                reserve_all(table, items.subrange(0, k))->Ok_0,
                items[k].product_id,
                items[k].quantity,
            )->Err_0,
        ),
    decreases k,
{
    if k > 0 {
        let head = items.subrange(0, k);
        let rest = items.subrange(1, items.len() as int);
        assert(head[0] == items[0]);
        assert(head.subrange(1, head.len() as int) =~= rest.subrange(0, k - 1));
        assert(rest[k - 1] == items[k]);
        let next = reserve_in(table, items[0].product_id, items[0].quantity)->Ok_0;
        law_first_failure_rejects(next, rest, k - 1);
    }
}

/// Whether nothing is reserved for a product.
pub open spec fn unreserved(table: Map<i32, InventoryEntity>, product_id: i32) -> bool {
    table.dom().contains(product_id) ==> table[product_id].reserved_quantity <= 0
}

/// Release needs a reservation: if an order asks to release a quantity
/// other than zero of a product for which nothing is reserved, the release
/// is refused, whatever its other items are.
pub proof fn law_release_needs_reservation(
    table: Map<i32, InventoryEntity>,
    items: Seq<OrderItem>,
    k: int,
)
    requires
        0 <= k < items.len(),
        items[k].quantity != 0,
        unreserved(table, items[k].product_id),
    ensures
        release_all(table, items) is Err,
    decreases k,
{
    if k > 0 {
        let rest = items.subrange(1, items.len() as int);
        match release_in(table, items[0].product_id, items[0].quantity) {
            Ok(next) => {
                assert(rest[k - 1] == items[k]);
                law_release_needs_reservation(next, rest, k - 1);
            },
            Err(_) => {},
        }
    }
}

/// All or nothing, on the store: once an order with a failing item is
/// handled, the ledger is exactly as it was before, also for the items that
/// could have been reserved, and the outbox has one more row, the
/// rejection.
pub proof fn law_partial_order_changes_nothing(
    order_id: i32,
    items: Seq<OrderItem>,
    k: int,
    ledger: Map<i32, InventoryEntity>,
    outbox: Seq<OutboxEvent>,
    store: Store,
)
    requires
        0 <= k < items.len(),
        reserve_all(ledger, items.subrange(0, k)) is Ok,
        reserve_in(
            reserve_all(ledger, items.subrange(0, k))->Ok_0,
            items[k].product_id,
            items[k].quantity,
        ) is Err,
        settled(Engine::Reserve, order_id, items, ledger, outbox, store),
    ensures
        store.ledger() == ledger,
        store.outbox() == outbox.push(pending(DomainEvent::OrderRejected { order_id })),
{
    law_first_failure_rejects(ledger, items, k);
}

/// Release without reservation, on the store: once a cancellation is
/// handled that asks to release a quantity other than zero of a product for
/// which nothing is reserved, the ledger is exactly as it was before and
/// the outbox has one more row, the failed release.
pub proof fn law_cancel_without_reservation(
    order_id: i32,
    items: Seq<OrderItem>,
    k: int,
    ledger: Map<i32, InventoryEntity>,
    outbox: Seq<OutboxEvent>,
    store: Store,
)
    requires
        0 <= k < items.len(),
        items[k].quantity != 0,
        unreserved(ledger, items[k].product_id),
        settled(Engine::Cancel, order_id, items, ledger, outbox, store),
    ensures
        store.ledger() == ledger,
        store.outbox() == outbox.push(
            pending(DomainEvent::ReservationReleaseFailed { order_id }),
        ),
{
    law_release_needs_reservation(ledger, items, k);
}

/// The events that a run of reservation orders writes, one for each order
/// in turn: `OrderReserved` for an order that is reserved, `OrderRejected`
/// for one that is refused. `ids` holds the orders' ids.
pub open spec fn events_after(
    table: Map<i32, InventoryEntity>,
    ids: Seq<i32>,
    orders: Seq<Seq<OrderItem>>,
) -> Seq<DomainEvent>
    decreases orders.len(),
{
    if orders.len() == 0 || ids.len() != orders.len() {
        Seq::<DomainEvent>::empty()
    } else {
        let earlier = after_orders(table, orders.drop_last());
        events_after(table, ids.drop_last(), orders.drop_last()).push(
            match reserve_all(earlier, orders.last()) {
                Ok(_) => DomainEvent::OrderReserved { order_id: ids.last() },
                Err(_) => DomainEvent::OrderRejected { order_id: ids.last() },
            },
        )
    }
}

/// Orders of one line each, all for one product.
pub open spec fn single_line_orders(product_id: i32, quantities: Seq<i32>) -> Seq<Seq<OrderItem>> {
    Seq::new(quantities.len(), |i: int| seq![OrderItem { product_id, quantity: quantities[i] }])
}

/// No oversell, for a run of calls on one product. However many one-line
/// orders are handled and in whatever order they come: the product's
/// reserved quantity grows by exactly the sum of the quantities of the
/// orders that were reserved, that sum is within what was available at the
/// start, total and sold stay, no other row changes, and each order writes
/// one event, `OrderReserved` if its guard held in its turn and
/// `OrderRejected` if not.
pub proof fn law_run_on_one_product(
    table: Map<i32, InventoryEntity>,
    product_id: i32,
    ids: Seq<i32>,
    quantities: Seq<i32>,
)
    requires
        table.dom().contains(product_id),
        table[product_id].no_oversell(),
        ids.len() == quantities.len(),
    ensures
        ({
            let row = table[product_id];
            let orders = single_line_orders(product_id, quantities);
            let after = after_orders(table, orders);
            let events = events_after(table, ids, orders);
            &&& after == table.insert(product_id, reserve_each(row, quantities))
            &&& after[product_id].reserved_quantity == row.reserved_quantity + granted(
                row,
                quantities,
            )
            &&& granted(row, quantities) <= row.available()
            &&& after[product_id].total_quantity == row.total_quantity
            &&& after[product_id].sold_quantity == row.sold_quantity
            &&& events.len() == quantities.len()
            &&& forall|i: int|
                0 <= i < quantities.len() ==> #[trigger] events[i] == (if reserve_each(
                    row,
                    quantities.take(i),
                ).reserve_spec(quantities[i]) is Ok {
                    DomainEvent::OrderReserved { order_id: ids[i] }
                } else {
                    DomainEvent::OrderRejected { order_id: ids[i] }
                })
        }),
    decreases quantities.len(),
{
    let row = table[product_id];
    let orders = single_line_orders(product_id, quantities);
    law_no_oversell(row, quantities);
    if quantities.len() == 0 {
        assert(after_orders(table, orders) =~= table.insert(product_id, row));
    } else {
        let n = quantities.len() - 1;
        let shorter = quantities.drop_last();
        assert(orders.drop_last() =~= single_line_orders(product_id, shorter));
        law_run_on_one_product(table, product_id, ids.drop_last(), shorter);
        let earlier = after_orders(table, orders.drop_last());
        let line = orders.last();
        assert(line[0] == OrderItem { product_id, quantity: quantities.last() });
        assert(line.subrange(1, 1).len() == 0);
        assert(reserve_all(earlier, line) == reserve_in(earlier, product_id, quantities.last()))
            by {
            match reserve_in(earlier, product_id, quantities.last()) {
                Ok(next) => {
                    assert(reserve_all(next, line.subrange(1, line.len() as int)) == Ok::<
                        Map<i32, InventoryEntity>,
                        Reason,
                    >(next));
                },
                Err(_) => {},
            }
        }
        assert(after_orders(table, orders) =~= table.insert(
            product_id,
            reserve_each(row, quantities),
        ));
        assert(quantities.take(n) =~= shorter);
        let events = events_after(table, ids, orders);
        assert forall|i: int| 0 <= i < quantities.len() implies #[trigger] events[i] == (
        if reserve_each(row, quantities.take(i)).reserve_spec(quantities[i]) is Ok {
            DomainEvent::OrderReserved { order_id: ids[i] }
        } else {
            DomainEvent::OrderRejected { order_id: ids[i] }
        }) by {
            if i < n {
                assert(shorter.take(i) =~= quantities.take(i));
                assert(events[i] == events_after(table, ids.drop_last(), orders.drop_last())[i]);
            }
        }
    }
}

} // verus!
