//! The reservation and cancellation engines. Each handles one order in one
//! transaction: every line item is applied, or none is.

use vstd::prelude::*;
use crate::events::{pending, DomainEvent, OrderCancelledEvent, OrderItem, OrderRequestedEvent};
use crate::laws::{law_order_no_over_release, law_order_no_oversell};
use crate::ledger::{
    release_in, reserve_in, table_no_over_release, table_no_oversell, table_wf,
};
use crate::driver::settled;
use crate::models::{InventoryEntity, Reason};
use crate::protocol::Engine;
use crate::store::{Store, Transaction};

verus! {

/// How an engine handled an order.
#[derive(Clone, Copy, Debug, PartialEq, Eq, Structural)]
pub enum Outcome {
    /// Every line item was reserved and the change is committed.
    Reserved,
    /// Every line item was released and the change is committed.
    Released,
    /// A line item's guard failed; the ledger is as it was.
    Rejected { reason: Reason },
}

/// The table after reserving every item in order, or the reason the first
/// failing item gave.
pub open spec fn reserve_all(table: Map<i32, InventoryEntity>, items: Seq<OrderItem>) -> Result<
    Map<i32, InventoryEntity>,
    Reason,
>
    decreases items.len(),
{
    if items.len() == 0 {
        Ok(table)
    } else {
        match reserve_in(table, items[0].product_id, items[0].quantity) {
            Ok(next) => reserve_all(next, items.subrange(1, items.len() as int)),
            Err(reason) => Err(reason),
        }
    }
}

/// The table after releasing every item in order, or the reason the first
/// failing item gave.
pub open spec fn release_all(table: Map<i32, InventoryEntity>, items: Seq<OrderItem>) -> Result<
    Map<i32, InventoryEntity>,
    Reason,
>
    decreases items.len(),
{
    if items.len() == 0 {
        Ok(table)
    } else {
        match release_in(table, items[0].product_id, items[0].quantity) {
            Ok(next) => release_all(next, items.subrange(1, items.len() as int)),
            Err(reason) => Err(reason),
        }
    }
}

/// Applies the guarded reservation to each item in turn and stops at the
/// first that fails. The transaction comes back only if all succeeded.
pub fn reserve_items(tx: Transaction, items: &Vec<OrderItem>) -> (staged: Result<
    Transaction,
    Reason,
>)
    requires
        tx.wf(),
    ensures
        match reserve_all(tx.ledger(), items@) {
            Ok(table) => staged is Ok && staged->Ok_0.wf() && staged->Ok_0.ledger() == table
                && staged->Ok_0.outbox() == tx.outbox(),
            Err(reason) => staged == Err::<Transaction, Reason>(reason),
        },
{
    let mut work = tx;
    let mut i: usize = 0;
    assert(items@.subrange(0, items@.len() as int) =~= items@);
    while i < items.len()
        invariant
            i <= items@.len(),
            work.wf(),
            work.outbox() == tx.outbox(),
            reserve_all(tx.ledger(), items@) == reserve_all(
                work.ledger(),
                items@.subrange(i as int, items@.len() as int),
            ),
        decreases items@.len() - i,
    {
        let ghost rest = items@.subrange(i as int, items@.len() as int);
        assert(rest[0] == items@[i as int]);
        assert(rest.subrange(1, rest.len() as int) =~= items@.subrange(
            i + 1,
            items@.len() as int,
        ));
        match work.reserve(items[i].product_id, items[i].quantity) {
            Ok(()) => {},
            Err(reason) => {
                return Err(reason);
            },
        }
        i += 1;
    }
    assert(items@.subrange(i as int, items@.len() as int).len() == 0);
    Ok(work)
}

/// Applies the guarded release to each item in turn and stops at the first
/// that fails. The transaction comes back only if all succeeded.
pub fn release_items(tx: Transaction, items: &Vec<OrderItem>) -> (staged: Result<
    Transaction,
    Reason,
>)
    requires
        tx.wf(),
    ensures
        match release_all(tx.ledger(), items@) {
            Ok(table) => staged is Ok && staged->Ok_0.wf() && staged->Ok_0.ledger() == table
                && staged->Ok_0.outbox() == tx.outbox(),
            Err(reason) => staged == Err::<Transaction, Reason>(reason),
        },
{
    let mut work = tx;
    let mut i: usize = 0;
    assert(items@.subrange(0, items@.len() as int) =~= items@);
    while i < items.len()
        invariant
            i <= items@.len(),
            work.wf(),
            work.outbox() == tx.outbox(),
            release_all(tx.ledger(), items@) == release_all(
                work.ledger(),
                items@.subrange(i as int, items@.len() as int),
            ),
        decreases items@.len() - i,
    {
        let ghost rest = items@.subrange(i as int, items@.len() as int);
        assert(rest[0] == items@[i as int]);
        assert(rest.subrange(1, rest.len() as int) =~= items@.subrange(
            i + 1,
            items@.len() as int,
        ));
        match work.release(items[i].product_id, items[i].quantity) {
            Ok(()) => {},
            Err(reason) => {
                return Err(reason);
            },
        }
        i += 1;
    }
    assert(items@.subrange(i as int, items@.len() as int).len() == 0);
    Ok(work)
}

/// Reserves stock for every line item of the order, or for none.
///
/// If every guarded update succeeds, the ledger changes and an
/// `OrderReserved` row are committed together. Otherwise the ledger stays as
/// it was and an `OrderRejected` row is written on its own. Either way the
/// outbox grows by exactly one row.
pub fn reserve_order(store: &mut Store, order: &OrderRequestedEvent) -> (outcome: Outcome)
    requires
        old(store).wf(),
    ensures
        final(store).wf(),
        table_wf(old(store).ledger()),
        table_wf(final(store).ledger()),
        table_no_oversell(old(store).ledger()) ==> table_no_oversell(final(store).ledger()),
        final(store).outbox().len() == old(store).outbox().len() + 1,
        final(store).outbox().last().event.is_success() == (outcome == Outcome::Reserved),
        final(store).ledger() != old(store).ledger() ==> outcome == Outcome::Reserved,
        settled(
            Engine::Reserve,
            order.order_id,
            order.order_items@,
            old(store).ledger(),
            old(store).outbox(),
            *final(store),
        ),
        match reserve_all(old(store).ledger(), order.order_items@) {
            Ok(table) => {
                &&& outcome == Outcome::Reserved
                &&& final(store).ledger() == table
                &&& final(store).outbox() == old(store).outbox().push(
                    pending(DomainEvent::OrderReserved { order_id: order.order_id }),
                )
            },
            Err(reason) => {
                &&& outcome == (Outcome::Rejected { reason })
                &&& final(store).ledger() == old(store).ledger()
                &&& final(store).outbox() == old(store).outbox().push(
                    pending(DomainEvent::OrderRejected { order_id: order.order_id }),
                )
            },
        },
{
    proof {
        store.lemma_rows();
        if table_no_oversell(store.ledger()) {
            law_order_no_oversell(store.ledger(), order.order_items@);
        }
    }
    let tx = store.begin();
    match reserve_items(tx, &order.order_items) {
        Ok(tx) => {
            let mut tx = tx;
            tx.publish(DomainEvent::OrderReserved { order_id: order.order_id });
            store.commit(tx);
            proof {
                store.lemma_rows();
            }
            Outcome::Reserved
        },
        Err(reason) => {
            store.publish(DomainEvent::OrderRejected { order_id: order.order_id });
            proof {
                store.lemma_rows();
            }
            Outcome::Rejected { reason }
        },
    }
}

/// Releases the reserved stock of every line item of the order, or of none.
///
/// If every guarded update succeeds, the ledger changes and an
/// `OrderCancelSuccess` row are committed together. Otherwise the ledger
/// stays as it was and a `ReservationReleaseFailed` row is written on its
/// own; nothing is retried. Either way the outbox grows by exactly one row.
pub fn cancel_order(store: &mut Store, order: &OrderCancelledEvent) -> (outcome: Outcome)
    requires
        old(store).wf(),
    ensures
        final(store).wf(),
        table_wf(old(store).ledger()),
        table_wf(final(store).ledger()),
        table_no_over_release(old(store).ledger()) ==> table_no_over_release(
            final(store).ledger(),
        ),
        final(store).outbox().len() == old(store).outbox().len() + 1,
        final(store).outbox().last().event.is_success() == (outcome == Outcome::Released),
        final(store).ledger() != old(store).ledger() ==> outcome == Outcome::Released,
        settled(
            Engine::Cancel,
            order.order_id,
            order.order_items@,
            old(store).ledger(),
            old(store).outbox(),
            *final(store),
        ),
        match release_all(old(store).ledger(), order.order_items@) {
            Ok(table) => {
                &&& outcome == Outcome::Released
                &&& final(store).ledger() == table
                &&& final(store).outbox() == old(store).outbox().push(
                    pending(DomainEvent::OrderCancelSuccess { order_id: order.order_id }),
                )
            },
            Err(reason) => {
                &&& outcome == (Outcome::Rejected { reason })
                &&& final(store).ledger() == old(store).ledger()
                &&& final(store).outbox() == old(store).outbox().push(
                    pending(DomainEvent::ReservationReleaseFailed { order_id: order.order_id }),
                )
            },
        },
{
    proof {
        store.lemma_rows();
        if table_no_over_release(store.ledger()) {
            law_order_no_over_release(store.ledger(), order.order_items@);
        }
    }
    let tx = store.begin();
    match release_items(tx, &order.order_items) {
        Ok(tx) => {
            let mut tx = tx;
            tx.publish(DomainEvent::OrderCancelSuccess { order_id: order.order_id });
            store.commit(tx);
            proof {
                store.lemma_rows();
            }
            Outcome::Released
        },
        Err(reason) => {
            store.publish(DomainEvent::ReservationReleaseFailed { order_id: order.order_id });
            proof {
                store.lemma_rows();
            }
            Outcome::Rejected { reason }
        },
    }
}

} // verus!
