//! Inbound order events and the domain events this service emits.

use vstd::prelude::*;

verus! {

/// One line of an order.
#[derive(Clone, Copy, Debug, PartialEq, Eq, Structural)]
pub struct OrderItem {
    pub product_id: i32,
    pub quantity: i32,
}

/// An order asks for stock to be reserved.
#[derive(Debug)]
pub struct OrderRequestedEvent {
    pub order_id: i32,
    pub order_items: Vec<OrderItem>,
}

/// An order was cancelled and its reserved stock is to be released.
#[derive(Debug)]
pub struct OrderCancelledEvent {
    pub order_id: i32,
    pub order_items: Vec<OrderItem>,
}

/// What this service tells the rest of the system.
#[derive(Clone, Copy, Debug, PartialEq, Eq, Structural)]
pub enum DomainEvent {
    OrderReserved { order_id: i32 },
    OrderRejected { order_id: i32 },
    OrderCancelSuccess { order_id: i32 },
    ReservationReleaseFailed { order_id: i32 },
}

impl DomainEvent {
    /// The topic an event is published under.
    pub open spec fn topic_spec(self) -> Seq<char> {
        match self {
            DomainEvent::OrderReserved { .. } => "orders.order_reserved"@,
            DomainEvent::OrderRejected { .. } => "orders.order_rejected"@,
            DomainEvent::OrderCancelSuccess { .. } => "orders.order_cancelled"@,
            DomainEvent::ReservationReleaseFailed { .. } => "inventory.reservation_release_failed"@,
        }
    }

    /// The order an event speaks of.
    pub open spec fn order_id_spec(self) -> i32 {
        match self {
            DomainEvent::OrderReserved { order_id } => order_id,
            DomainEvent::OrderRejected { order_id } => order_id,
            DomainEvent::OrderCancelSuccess { order_id } => order_id,
            DomainEvent::ReservationReleaseFailed { order_id } => order_id,
        }
    }

    /// Whether the event reports a committed ledger change.
    pub open spec fn is_success(self) -> bool {
        self is OrderReserved || self is OrderCancelSuccess
    }

    /// The topic an event is published under.
    pub fn topic(&self) -> (name: &'static str)
        ensures
            name@ == self.topic_spec(),
    {
        match self {
            DomainEvent::OrderReserved { .. } => "orders.order_reserved",
            DomainEvent::OrderRejected { .. } => "orders.order_rejected",
            DomainEvent::OrderCancelSuccess { .. } => "orders.order_cancelled",
            DomainEvent::ReservationReleaseFailed { .. } => "inventory.reservation_release_failed",
        }
    }

    /// The order an event speaks of.
    pub fn order_id(&self) -> (id: i32)
        ensures
            id == self.order_id_spec(),
    {
        match self {
            DomainEvent::OrderReserved { order_id } => *order_id,
            DomainEvent::OrderRejected { order_id } => *order_id,
            DomainEvent::OrderCancelSuccess { order_id } => *order_id,
            DomainEvent::ReservationReleaseFailed { order_id } => *order_id,
        }
    }
}

/// Where an outbox row stands. This service writes rows as pending; the
/// relay advances them.
#[derive(Clone, Copy, Debug, PartialEq, Eq, Structural)]
pub enum OutboxStatus {
    Pending,
    Dispatched,
}

impl OutboxStatus {
    /// The text a status is stored as.
    pub open spec fn text_spec(self) -> Seq<char> {
        match self {
            OutboxStatus::Pending => "pending"@,
            OutboxStatus::Dispatched => "dispatched"@,
        }
    }

    /// The text a status is stored as.
    pub fn text(&self) -> (text: &'static str)
        ensures
            text@ == self.text_spec(),
    {
        match self {
            OutboxStatus::Pending => "pending",
            OutboxStatus::Dispatched => "dispatched",
        }
    }
}

/// One row of the outbox.
#[derive(Clone, Copy, Debug, PartialEq, Eq, Structural)]
pub struct OutboxEvent {
    pub event: DomainEvent,
    pub status: OutboxStatus,
}

/// The row this service writes for an event.
pub open spec fn pending(event: DomainEvent) -> OutboxEvent {
    OutboxEvent { event, status: OutboxStatus::Pending }
}

/// The append-only log of events waiting for the relay.
pub struct Outbox {
    rows: Vec<OutboxEvent>,
}

impl Outbox {
    /// The rows, oldest first.
    pub closed spec fn view(self) -> Seq<OutboxEvent> {
        self.rows@
    }

    /// An empty outbox.
    pub fn new() -> (outbox: Outbox)
        ensures
            outbox@ == Seq::<OutboxEvent>::empty(),
    {
        Outbox { rows: Vec::new() }
    }

    /// Appends a pending row for `event`. Earlier rows stay as they are.
    pub fn publish(&mut self, event: DomainEvent)
        ensures
            final(self)@ == old(self)@.push(pending(event)),
    {
        self.rows.push(OutboxEvent { event, status: OutboxStatus::Pending });
    }

    /// Number of rows.
    pub fn len(&self) -> (n: usize)
        ensures
            n == self@.len(),
    {
        self.rows.len()
    }

    /// The row at `index`, if there is one.
    pub fn get(&self, index: usize) -> (row: Option<OutboxEvent>)
        ensures
            row == (if index < self@.len() {
                Some(self@[index as int])
            } else {
                None
            }),
    {
        if index < self.rows.len() {
            Some(self.rows[index])
        } else {
            None
        }
    }

    /// A copy of the outbox, row for row.
    pub fn snapshot(&self) -> (copy: Outbox)
        ensures
            copy@ == self@,
    {
        let mut rows: Vec<OutboxEvent> = Vec::new();
        let mut i: usize = 0;
        while i < self.rows.len()
            invariant
                i <= self.rows@.len(),
                rows@ == self.rows@.subrange(0, i as int),
            decreases self.rows@.len() - i,
        {
            rows.push(self.rows[i]);
            assert(rows@ =~= self.rows@.subrange(0, i + 1));
            i += 1;
        }
        assert(rows@ =~= self.rows@);
        Outbox { rows }
    }
}

} // verus!
