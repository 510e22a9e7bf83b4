//! The store the engines write to, and the transaction that ties a ledger
//! change to the event that reports it.

use vstd::prelude::*;
use crate::events::{pending, DomainEvent, Outbox, OutboxEvent};
use crate::ledger::{release_in, reserve_in, table_wf, Ledger};
use crate::models::{InventoryEntity, Reason};

verus! {

/// Ledger and outbox, as committed. The ledger changes only when a
/// transaction commits, together with whatever the transaction appended to
/// the outbox.
pub struct Store {
    ledger: Ledger,
    outbox: Outbox,
}

/// An open transaction: staged copies of ledger and outbox. Committing
/// installs both together; dropping it leaves the store untouched.
pub struct Transaction {
    ledger: Ledger,
    outbox: Outbox,
}

impl Transaction {
    /// The ledger as this transaction sees it.
    pub closed spec fn ledger(self) -> Map<i32, InventoryEntity> {
        self.ledger@
    }

    /// The outbox as this transaction sees it.
    pub closed spec fn outbox(self) -> Seq<OutboxEvent> {
        self.outbox@
    }

    /// The staged ledger has one row per product, and every row satisfies
    /// the row invariant.
    pub closed spec fn wf(self) -> bool {
        self.ledger.wf()
    }

    /// What `wf` says of the staged rows.
    pub proof fn lemma_rows(self)
        requires
            self.wf(),
        ensures
            table_wf(self.ledger()),
    {
        self.ledger.lemma_keyed();
    }

    /// The guarded reservation inside this transaction.
    pub fn reserve(&mut self, product_id: i32, quantity: i32) -> (done: Result<(), Reason>)
        requires
            old(self).wf(),
        ensures
            final(self).wf(),
            final(self).outbox() == old(self).outbox(),
            match reserve_in(old(self).ledger(), product_id, quantity) {
                Ok(table) => done == Ok::<(), Reason>(()) && final(self).ledger() == table,
                Err(reason) => done == Err::<(), Reason>(reason) && final(self).ledger() == old(
                    self,
                ).ledger(),
            },
    {
        self.ledger.reserve(product_id, quantity)
    }

    /// The guarded release inside this transaction.
    pub fn release(&mut self, product_id: i32, quantity: i32) -> (done: Result<(), Reason>)
        requires
            old(self).wf(),
        ensures
            final(self).wf(),
            final(self).outbox() == old(self).outbox(),
            match release_in(old(self).ledger(), product_id, quantity) {
                Ok(table) => done == Ok::<(), Reason>(()) && final(self).ledger() == table,
                Err(reason) => done == Err::<(), Reason>(reason) && final(self).ledger() == old(
                    self,
                ).ledger(),
            },
    {
        self.ledger.release(product_id, quantity)
    }

    /// Appends an event to the staged outbox: it becomes visible exactly
    /// when the ledger changes of this transaction do.
    pub fn publish(&mut self, event: DomainEvent)
        requires
            old(self).wf(),
        ensures
            final(self).wf(),
            final(self).ledger() == old(self).ledger(),
            final(self).outbox() == old(self).outbox().push(pending(event)),
    {
        self.outbox.publish(event);
    }
}

impl Store {
    /// The committed ledger, by product id.
    pub closed spec fn ledger(self) -> Map<i32, InventoryEntity> {
        self.ledger@
    }

    /// The committed outbox, oldest row first.
    pub closed spec fn outbox(self) -> Seq<OutboxEvent> {
        self.outbox@
    }

    /// The ledger has one row per product, and every row satisfies the row
    /// invariant `0 <= reserved <= total - sold`.
    pub closed spec fn wf(self) -> bool {
        self.ledger.wf()
    }

    /// What `wf` says of the committed rows.
    pub proof fn lemma_rows(self)
        requires
            self.wf(),
        ensures
            table_wf(self.ledger()),
    {
        self.ledger.lemma_keyed();
    }

    /// A store with no products and no events.
    pub fn new() -> (store: Store)
        ensures
            store.wf(),
            store.ledger() == Map::<i32, InventoryEntity>::empty(),
            store.outbox() == Seq::<OutboxEvent>::empty(),
    {
        Store { ledger: Ledger::new(), outbox: Outbox::new() }
    }

    /// Files a new product's row, unless the product already has one or the
    /// row breaks the row invariant. Says whether it did.
    pub fn provision(&mut self, row: InventoryEntity) -> (added: bool)
        requires
            old(self).wf(),
        ensures
            final(self).wf(),
            final(self).outbox() == old(self).outbox(),
            added == (row.wf() && !old(self).ledger().dom().contains(row.product_id)),
            final(self).ledger() == (if added {
                old(self).ledger().insert(row.product_id, row)
            } else {
                old(self).ledger()
            }),
    {
        self.ledger.provision(row)
    }

    /// The committed row of a product, if it has one.
    pub fn stock(&self, product_id: i32) -> (row: Option<InventoryEntity>)
        requires
            self.wf(),
        ensures
            row == (if self.ledger().dom().contains(product_id) {
                Some(self.ledger()[product_id])
            } else {
                None
            }),
    {
        self.ledger.get(product_id)
    }

    /// Number of committed outbox rows.
    pub fn outbox_len(&self) -> (n: usize)
        ensures
            n == self.outbox().len(),
    {
        self.outbox.len()
    }

    /// The committed outbox row at `index`, if there is one.
    pub fn outbox_row(&self, index: usize) -> (row: Option<OutboxEvent>)
        ensures
            row == (if index < self.outbox().len() {
                Some(self.outbox()[index as int])
            } else {
                None
            }),
    {
        self.outbox.get(index)
    }

    /// Opens a transaction on the committed state.
    pub fn begin(&self) -> (tx: Transaction)
        requires
            self.wf(),
        ensures
            tx.wf(),
            tx.ledger() == self.ledger(),
            tx.outbox() == self.outbox(),
    {
        Transaction { ledger: self.ledger.snapshot(), outbox: self.outbox.snapshot() }
    }

    /// Installs everything the transaction staged, ledger and outbox at once.
    pub fn commit(&mut self, tx: Transaction)
        requires
            tx.wf(),
        ensures
            final(self).wf(),
            final(self).ledger() == tx.ledger(),
            final(self).outbox() == tx.outbox(),
    {
        self.ledger = tx.ledger;
        self.outbox = tx.outbox;
    }

    /// A transaction of its own that holds one outbox insert and nothing
    /// else: the ledger is not touched.
    pub fn publish(&mut self, event: DomainEvent)
        ensures
            final(self).wf() == old(self).wf(),
            final(self).ledger() == old(self).ledger(),
            final(self).outbox() == old(self).outbox().push(pending(event)),
    {
        self.outbox.publish(event);
    }
}

} // verus!
