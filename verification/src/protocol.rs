//! The handling of one message as a step function: from where the handling
//! stands and what the database or the broker replied, to where it stands
//! next and what to ask for. Whoever holds the connection runs the commands;
//! every decision is taken here.

use vstd::prelude::*;
use crate::events::{DomainEvent, OrderItem};

verus! {

/// Which engine handles the message.
#[derive(Clone, Copy, Debug, PartialEq, Eq, Structural)]
pub enum Engine {
    Reserve,
    Cancel,
}

/// Where the handling of a message stands: the command that was issued last.
#[derive(Clone, Copy, Debug, PartialEq, Eq, Structural)]
pub enum Step {
    /// Nothing was issued yet.
    Start,
    /// A transaction was asked for.
    Beginning,
    /// The guarded update of item `index` was issued inside the transaction.
    Updating { index: usize },
    /// The success event was issued inside the transaction.
    Publishing,
    /// Commit was issued.
    Committing,
    /// Rollback was issued. `rejected` says why: the attempt ended on a
    /// failed guard or a timeout, and the failure event follows; or it ended
    /// on a fault, and an error follows.
    RollingBack { rejected: bool },
    /// The failure event was issued in a transaction of its own.
    Compensating,
    /// The acknowledgment was issued.
    Acknowledging,
    /// The handling is over; `handled` says whether the message was
    /// acknowledged.
    Finished { handled: bool },
}

/// What came back for the last command.
#[derive(Clone, Copy, Debug, PartialEq, Eq, Structural)]
pub enum Reply {
    /// The command was carried out and changed `rows` rows.
    Done { rows: usize },
    /// The command did not finish within the time allowed for it.
    TimedOut,
    /// The command could not be carried out, for any other reason: no
    /// connection, a statement the database refused, a broker error.
    Failed,
}

/// What to do next.
#[derive(Clone, Copy, Debug, PartialEq, Eq, Structural)]
pub enum Command {
    /// Open a transaction.
    Begin,
    /// Inside the transaction, in one statement: add `quantity` to the
    /// reserved quantity of the row of `product_id` where
    /// `0 <= quantity <= total - reserved - sold`.
    Reserve { product_id: i32, quantity: i32 },
    /// Inside the transaction, in one statement: take `quantity` from the
    /// reserved quantity of the row of `product_id` where
    /// `0 <= quantity <= reserved`.
    Release { product_id: i32, quantity: i32 },
    /// Inside the transaction: insert a pending outbox row for the event.
    Publish { event: DomainEvent },
    /// Commit the transaction.
    Commit,
    /// Roll the transaction back.
    Rollback,
    /// In a new transaction of its own: insert a pending outbox row for the
    /// event.
    Compensate { event: DomainEvent },
    /// Acknowledge the message.
    Acknowledge,
    /// Return success to the dispatch loop.
    Succeed,
    /// Return an error to the dispatch loop; the message stays
    /// unacknowledged.
    Fail,
}

impl Engine {
    /// The event that reports a committed change.
    pub open spec fn success_spec(self, order_id: i32) -> DomainEvent {
        match self {
            Engine::Reserve => DomainEvent::OrderReserved { order_id },
            Engine::Cancel => DomainEvent::OrderCancelSuccess { order_id },
        }
    }

    /// The event that reports a refused attempt.
    pub open spec fn failure_spec(self, order_id: i32) -> DomainEvent {
        match self {
            Engine::Reserve => DomainEvent::OrderRejected { order_id },
            Engine::Cancel => DomainEvent::ReservationReleaseFailed { order_id },
        }
    }

    /// The guarded update for one line item.
    pub open spec fn update_spec(self, item: OrderItem) -> Command {
        match self {
            Engine::Reserve => Command::Reserve {
                product_id: item.product_id,
                quantity: item.quantity,
            },
            Engine::Cancel => Command::Release {
                product_id: item.product_id,
                quantity: item.quantity,
            },
        }
    }

    /// The event that reports a committed change.
    pub fn success(&self, order_id: i32) -> (event: DomainEvent)
        ensures
            event == self.success_spec(order_id),
    {
        match self {
            Engine::Reserve => DomainEvent::OrderReserved { order_id },
            Engine::Cancel => DomainEvent::OrderCancelSuccess { order_id },
        }
    }

    /// The event that reports a refused attempt.
    pub fn failure(&self, order_id: i32) -> (event: DomainEvent)
        ensures
            event == self.failure_spec(order_id),
    {
        match self {
            Engine::Reserve => DomainEvent::OrderRejected { order_id },
            Engine::Cancel => DomainEvent::ReservationReleaseFailed { order_id },
        }
    }

    /// The guarded update for one line item.
    pub fn update(&self, item: OrderItem) -> (command: Command)
        ensures
            command == self.update_spec(item),
    {
        match self {
            Engine::Reserve => Command::Reserve {
                product_id: item.product_id,
                quantity: item.quantity,
            },
            Engine::Cancel => Command::Release {
                product_id: item.product_id,
                quantity: item.quantity,
            },
        }
    }
}

/// What follows once items `0..index` are applied: the update of item
/// `index`, or the success event when no item is left.
pub open spec fn proceed_spec(engine: Engine, order_id: i32, items: Seq<OrderItem>, index: int) -> (
    Step,
    Command,
) {
    if 0 <= index < items.len() {
        (Step::Updating { index: index as usize }, engine.update_spec(items[index]))
    } else {
        (Step::Publishing, Command::Publish { event: engine.success_spec(order_id) })
    }
}

/// The transition table.
///
/// Inside the transaction every item is updated in order, then the success
/// event is inserted and the transaction committed. An update that changes
/// no row, or a timeout, ends the attempt as a refusal: the transaction is
/// rolled back and the failure event is written in a transaction of its
/// own. Any other fault is fatal for the message: an open transaction is
/// rolled back, no event is written, nothing is acknowledged and an error is
/// returned. The message is acknowledged once either the commit or the
/// failure event's write succeeded, and only then.
pub open spec fn next_spec(
    engine: Engine,
    order_id: i32,
    items: Seq<OrderItem>,
    step: Step,
    reply: Reply,
) -> (Step, Command) {
    let compensate = (
        Step::Compensating,
        Command::Compensate { event: engine.failure_spec(order_id) },
    );
    let reject = (Step::RollingBack { rejected: true }, Command::Rollback);
    let abort = (Step::RollingBack { rejected: false }, Command::Rollback);
    let fail = (Step::Finished { handled: false }, Command::Fail);
    match step {
        Step::Start => (Step::Beginning, Command::Begin),
        Step::Beginning => match reply {
            Reply::Done { .. } => proceed_spec(engine, order_id, items, 0),
            Reply::TimedOut => compensate,
            Reply::Failed => fail,
        },
        Step::Updating { index } => match reply {
            Reply::Done { rows } => if rows == 0 {
                reject
            } else {
                proceed_spec(engine, order_id, items, index + 1)
            },
            Reply::TimedOut => reject,
            Reply::Failed => abort,
        },
        Step::Publishing => match reply {
            Reply::Done { .. } => (Step::Committing, Command::Commit),
            Reply::TimedOut => reject,
            Reply::Failed => abort,
        },
        Step::Committing => match reply {
            Reply::Done { .. } => (Step::Acknowledging, Command::Acknowledge),
            Reply::TimedOut => compensate,
            Reply::Failed => fail,
        },
        Step::RollingBack { rejected } => if rejected && !(reply is Failed) {
            compensate
        } else {
            fail
        },
        Step::Compensating => match reply {
            Reply::Done { .. } => (Step::Acknowledging, Command::Acknowledge),
            _ => fail,
        },
        Step::Acknowledging => match reply {
            Reply::Done { .. } => (Step::Finished { handled: true }, Command::Succeed),
            _ => fail,
        },
        Step::Finished { handled } => (
            step,
            if handled {
                Command::Succeed
            } else {
                Command::Fail
            },
        ),
    }
}

fn proceed(engine: Engine, order_id: i32, items: &Vec<OrderItem>, index: usize) -> (then: (
    Step,
    Command,
))
    ensures
        then == proceed_spec(engine, order_id, items@, index as int),
{
    if index < items.len() {
        (Step::Updating { index }, engine.update(items[index]))
    } else {
        (Step::Publishing, Command::Publish { event: engine.success(order_id) })
    }
}

/// One step of the handling: the next state and the command to run, from the
/// state and the reply to the last command. For `Step::Start` the reply is
/// not read.
pub fn next(engine: Engine, order_id: i32, items: &Vec<OrderItem>, step: Step, reply: Reply) -> (then:
    (Step, Command))
    ensures
        then == next_spec(engine, order_id, items@, step, reply),
{
    let compensate = (Step::Compensating, Command::Compensate { event: engine.failure(order_id) });
    let reject = (Step::RollingBack { rejected: true }, Command::Rollback);
    let abort = (Step::RollingBack { rejected: false }, Command::Rollback);
    let fail = (Step::Finished { handled: false }, Command::Fail);
    match step {
        Step::Start => (Step::Beginning, Command::Begin),
        Step::Beginning => match reply {
            Reply::Done { .. } => proceed(engine, order_id, items, 0),
            Reply::TimedOut => compensate,
            Reply::Failed => fail,
        },
        Step::Updating { index } => match reply {
            Reply::Done { rows } => {
                if rows == 0 {
                    reject
                } else if index < items.len() {
                    proceed(engine, order_id, items, index + 1)
                } else {
                    (Step::Publishing, Command::Publish { event: engine.success(order_id) })
                }
            },
            Reply::TimedOut => reject,
            Reply::Failed => abort,
        },
        Step::Publishing => match reply {
            Reply::Done { .. } => (Step::Committing, Command::Commit),
            Reply::TimedOut => reject,
            Reply::Failed => abort,
        },
        Step::Committing => match reply {
            Reply::Done { .. } => (Step::Acknowledging, Command::Acknowledge),
            Reply::TimedOut => compensate,
            Reply::Failed => fail,
        },
        Step::RollingBack { rejected } => match reply {
            Reply::Failed => fail,
            _ => if rejected {
                compensate
            } else {
                fail
            },
        },
        Step::Compensating => match reply {
            Reply::Done { .. } => (Step::Acknowledging, Command::Acknowledge),
            _ => fail,
        },
        Step::Acknowledging => match reply {
            Reply::Done { .. } => (Step::Finished { handled: true }, Command::Succeed),
            _ => fail,
        },
        Step::Finished { handled } => (
            step,
            if handled {
                Command::Succeed
            } else {
                Command::Fail
            },
        ),
    }
}

/// The success event is inserted only inside the transaction, and only
/// right after the last item's update changed a row (or at once, for an
/// order without items).
pub proof fn law_success_event_follows_updates(
    engine: Engine,
    order_id: i32,
    items: Seq<OrderItem>,
    step: Step,
    reply: Reply,
)
    ensures
        next_spec(engine, order_id, items, step, reply).1 is Publish ==> {
            &&& next_spec(engine, order_id, items, step, reply).1 == (Command::Publish {
                event: engine.success_spec(order_id),
            })
            &&& reply is Done
            &&& step is Updating ==> reply->rows > 0 && step->index + 1 >= items.len()
            &&& step is Beginning ==> items.len() == 0
            &&& step is Updating || step is Beginning
        },
{
}

/// The failure event is written only outside the transaction: after a
/// rollback that followed a failed guard or a timeout, or after a begin or a
/// commit that timed out. A commit is asked for only after the success event
/// was inserted. So no attempt writes both events.
pub proof fn law_one_event_per_attempt(
    engine: Engine,
    order_id: i32,
    items: Seq<OrderItem>,
    step: Step,
    reply: Reply,
)
    ensures
        next_spec(engine, order_id, items, step, reply).1 is Compensate ==> {
            &&& next_spec(engine, order_id, items, step, reply).1 == (Command::Compensate {
                event: engine.failure_spec(order_id),
            })
            &&& !(reply is Failed)
            &&& step == (Step::RollingBack { rejected: true }) || (reply is TimedOut && (
            step is Beginning || step is Committing))
        },
        next_spec(engine, order_id, items, step, reply).1 is Commit ==> step is Publishing
            && reply is Done,
        next_spec(engine, order_id, items, step, reply).1 is Rollback ==> (step is Updating && !(
        reply is Done && reply->rows > 0)) || (step is Publishing && !(reply is Done)),
{
}

/// A fault is fatal: after a reply of `Failed` to any command, nothing is
/// published, compensated, committed or acknowledged any more. The only
/// commands that follow are a rollback of the open transaction and the
/// return of an error.
pub proof fn law_fault_is_fatal(
    engine: Engine,
    order_id: i32,
    items: Seq<OrderItem>,
    step: Step,
    reply: Reply,
)
    requires
        !(step is Start),
        !(step is Finished),
    ensures
        reply is Failed ==> {
            ||| next_spec(engine, order_id, items, step, reply) == (
                Step::Finished { handled: false },
                Command::Fail,
            )
            ||| next_spec(engine, order_id, items, step, reply) == (
                Step::RollingBack { rejected: false },
                Command::Rollback,
            )
        },
        step == (Step::RollingBack { rejected: false }) ==> next_spec(
            engine,
            order_id,
            items,
            step,
            reply,
        ) == (Step::Finished { handled: false }, Command::Fail),
        next_spec(engine, order_id, items, step, reply).0 == (Step::RollingBack {
            rejected: false,
        }) ==> reply is Failed,
{
}

/// The message is acknowledged only after a commit or the failure event's
/// write succeeded, and success is reported only after the acknowledgment.
pub proof fn law_acknowledge_after_record(
    engine: Engine,
    order_id: i32,
    items: Seq<OrderItem>,
    step: Step,
    reply: Reply,
)
    ensures
        next_spec(engine, order_id, items, step, reply).1 is Acknowledge ==> reply is Done && (
        step is Committing || step is Compensating),
        next_spec(engine, order_id, items, step, reply).1 is Succeed ==> (step is Acknowledging
            && reply is Done) || step == (Step::Finished { handled: true }),
{
}

/// How far a handling is from its end: every step brings it closer.
pub open spec fn remaining(step: Step, items: nat) -> nat {
    match step {
        Step::Start => items + 8,
        Step::Beginning => items + 7,
        Step::Updating { index } => if index < items {
            (items - index + 5) as nat
        } else {
            6
        },
        Step::Publishing => 5,
        Step::Committing => 4,
        Step::RollingBack { .. } => 3,
        Step::Compensating => 2,
        Step::Acknowledging => 1,
        Step::Finished { .. } => 0,
    }
}

/// No handling hangs: whatever is replied, each step that is not the last
/// leads to one that is nearer to the end.
pub proof fn law_every_step_advances(
    engine: Engine,
    order_id: i32,
    items: Seq<OrderItem>,
    step: Step,
    reply: Reply,
)
    requires
        !(step is Finished),
        items.len() <= usize::MAX,
    ensures
        remaining(next_spec(engine, order_id, items, step, reply).0, items.len()) < remaining(
            step,
            items.len(),
        ),
{
}

} // verus!
