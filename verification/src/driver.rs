//! The step function run against the in-memory store. Each command is
//! carried out as a database would, and the handling ends in the state that
//! the engines promise.

use vstd::prelude::*;
use crate::consumers::inventory::{release_all, reserve_all};
use crate::events::{pending, OrderItem, OutboxEvent};
use crate::ledger::{release_in, reserve_in};
use crate::models::{InventoryEntity, Reason};
use crate::protocol::{law_every_step_advances, next, remaining, Command, Engine, Reply, Step};
use crate::store::{Store, Transaction};

verus! {

/// What the engine's guarded update does to a table.
pub open spec fn update_in(
    engine: Engine,
    table: Map<i32, InventoryEntity>,
    product_id: i32,
    quantity: i32,
) -> Result<Map<i32, InventoryEntity>, Reason> {
    match engine {
        Engine::Reserve => reserve_in(table, product_id, quantity),
        Engine::Cancel => release_in(table, product_id, quantity),
    }
}

/// What the engine's updates do to a table, item after item.
pub open spec fn update_all(engine: Engine, table: Map<i32, InventoryEntity>, items: Seq<OrderItem>)
    -> Result<Map<i32, InventoryEntity>, Reason> {
    match engine {
        Engine::Reserve => reserve_all(table, items),
        Engine::Cancel => release_all(table, items),
    }
}

/// The store after an order was handled: the updated ledger and the success
/// event, or the old ledger and the failure event.
pub open spec fn settled(
    engine: Engine,
    order_id: i32,
    items: Seq<OrderItem>,
    ledger: Map<i32, InventoryEntity>,
    outbox: Seq<OutboxEvent>,
    store: Store,
) -> bool {
    match update_all(engine, ledger, items) {
        Ok(table) => store.ledger() == table && store.outbox() == outbox.push(
            pending(engine.success_spec(order_id)),
        ),
        Err(_) => store.ledger() == ledger && store.outbox() == outbox.push(
            pending(engine.failure_spec(order_id)),
        ),
    }
}

/// What the in-memory store replies to a guarded update of a table: one
/// row or none. A new value that does not fit the column is a fault; no
/// table whose rows satisfy the row invariant gives one.
pub open spec fn update_reply(
    engine: Engine,
    table: Map<i32, InventoryEntity>,
    product_id: i32,
    quantity: i32,
) -> Reply {
    match update_in(engine, table, product_id, quantity) {
        Ok(_) => Reply::Done { rows: 1 },
        Err(Reason::OutOfRange { .. }) => Reply::Failed,
        Err(_) => Reply::Done { rows: 0 },
    }
}

fn reply_to(done: Result<(), Reason>) -> (reply: Reply)
    ensures
        reply == match done {
            Ok(_) => Reply::Done { rows: 1 },
            Err(Reason::OutOfRange { .. }) => Reply::Failed,
            Err(_) => Reply::Done { rows: 0 },
        },
{
    match done {
        Ok(_) => Reply::Done { rows: 1 },
        Err(Reason::OutOfRange { .. }) => Reply::Failed,
        Err(_) => Reply::Done { rows: 0 },
    }
}

/// Carries out one command on the in-memory store. `open` is the
/// transaction in progress, if there is one; a command that needs one and
/// finds none fails, and nothing else does. Nothing times out, and the
/// broker is not modelled: an acknowledgment always succeeds.
pub fn execute(store: Store, open: Option<Transaction>, command: Command) -> (out: (
    Store,
    Option<Transaction>,
    Reply,
))
    requires
        store.wf(),
        open is Some ==> open->Some_0.wf(),
    ensures
        out.0.wf(),
        out.1 is Some ==> out.1->Some_0.wf(),
        open is Some || !(command is Reserve || command is Release || command is Publish
            || command is Commit) ==> out.2 is Done,
        !(command is Commit && open is Some) ==> out.0.ledger() == store.ledger(),
        !(command is Commit && open is Some) && !(command is Compensate) ==> out.0.outbox()
            == store.outbox(),
        match command {
            Command::Begin => out.1 is Some && out.1->Some_0.ledger() == store.ledger()
                && out.1->Some_0.outbox() == store.outbox() && out.2 == (Reply::Done { rows: 0 }),
            Command::Reserve { product_id, quantity } => match open {
                Some(tx) => out.1 is Some && out.1->Some_0.outbox() == tx.outbox() && out.2
                    == update_reply(Engine::Reserve, tx.ledger(), product_id, quantity)
                    && out.1->Some_0.ledger() == (match reserve_in(
                    tx.ledger(),
                    product_id,
                    quantity,
                ) {
                    Ok(table) => table,
                    Err(_) => tx.ledger(),
                }),
                None => out.1 is None && out.2 == Reply::Failed,
            },
            Command::Release { product_id, quantity } => match open {
                Some(tx) => out.1 is Some && out.1->Some_0.outbox() == tx.outbox() && out.2
                    == update_reply(Engine::Cancel, tx.ledger(), product_id, quantity)
                    && out.1->Some_0.ledger() == (match release_in(
                    tx.ledger(),
                    product_id,
                    quantity,
                ) {
                    Ok(table) => table,
                    Err(_) => tx.ledger(),
                }),
                None => out.1 is None && out.2 == Reply::Failed,
            },
            Command::Publish { event } => match open {
                Some(tx) => out.1 is Some && out.1->Some_0.ledger() == tx.ledger()
                    && out.1->Some_0.outbox() == tx.outbox().push(pending(event)) && out.2 == (
                Reply::Done { rows: 1 }),
                None => out.1 is None && out.2 == Reply::Failed,
            },
            Command::Commit => match open {
                Some(tx) => out.1 is None && out.0.ledger() == tx.ledger() && out.0.outbox()
                    == tx.outbox() && out.2 == (Reply::Done { rows: 0 }),
                None => out.1 is None && out.2 == Reply::Failed,
            },
            Command::Rollback => out.1 is None && out.2 == (Reply::Done { rows: 0 }),
            Command::Compensate { event } => out.1 == open && out.0.outbox()
                == store.outbox().push(pending(event)) && out.2 == (Reply::Done { rows: 1 }),
            Command::Acknowledge | Command::Succeed | Command::Fail => out.1 == open && out.2 == (
            Reply::Done { rows: 0 }),
        },
{
    let mut store = store;
    match command {
        Command::Begin => {
            let tx = store.begin();
            (store, Some(tx), Reply::Done { rows: 0 })
        },
        Command::Reserve { product_id, quantity } => match open {
            Some(tx) => {
                let mut tx = tx;
                proof {
                    tx.lemma_rows();
                }
                let done = tx.reserve(product_id, quantity);
                (store, Some(tx), reply_to(done))
            },
            None => (store, None, Reply::Failed),
        },
        Command::Release { product_id, quantity } => match open {
            Some(tx) => {
                let mut tx = tx;
                proof {
                    tx.lemma_rows();
                }
                let done = tx.release(product_id, quantity);
                (store, Some(tx), reply_to(done))
            },
            None => (store, None, Reply::Failed),
        },
        Command::Publish { event } => match open {
            Some(tx) => {
                let mut tx = tx;
                tx.publish(event);
                (store, Some(tx), Reply::Done { rows: 1 })
            },
            None => (store, None, Reply::Failed),
        },
        Command::Commit => match open {
            Some(tx) => {
                store.commit(tx);
                (store, None, Reply::Done { rows: 0 })
            },
            None => (store, None, Reply::Failed),
        },
        Command::Rollback => (store, None, Reply::Done { rows: 0 }),
        Command::Compensate { event } => {
            store.publish(event);
            (store, open, Reply::Done { rows: 1 })
        },
        Command::Acknowledge => (store, open, Reply::Done { rows: 0 }),
        Command::Succeed => (store, open, Reply::Done { rows: 0 }),
        Command::Fail => (store, open, Reply::Done { rows: 0 }),
    }
}

/// What holds between the steps of a handling that started from `ledger`
/// and `outbox`.
spec fn on_course(
    engine: Engine,
    order_id: i32,
    items: Seq<OrderItem>,
    ledger: Map<i32, InventoryEntity>,
    outbox: Seq<OutboxEvent>,
    step: Step,
    reply: Reply,
    store: Store,
    open: Option<Transaction>,
) -> bool {
    let untouched = store.ledger() == ledger && store.outbox() == outbox;
    let whole = update_all(engine, ledger, items);
    let done = settled(engine, order_id, items, ledger, outbox, store);
    &&& store.wf()
    &&& open is Some ==> open->Some_0.wf()
    &&& reply is Done
    &&& match step {
        Step::Start => untouched,
        Step::Beginning => {
            &&& untouched
            &&& reply is Done
            &&& open is Some
            &&& open->Some_0.ledger() == ledger
            &&& open->Some_0.outbox() == outbox
        },
        Step::Updating { index } => {
            &&& untouched
            &&& index < items.len()
            &&& if reply is Done && reply->rows > 0 {
                &&& open is Some
                &&& open->Some_0.outbox() == outbox
                &&& whole == update_all(
                    engine,
                    open->Some_0.ledger(),
                    items.subrange(index + 1, items.len() as int),
                )
            } else {
                whole is Err
            }
        },
        Step::Publishing => {
            &&& untouched
            &&& reply is Done
            &&& open is Some
            &&& whole == Ok::<Map<i32, InventoryEntity>, Reason>(open->Some_0.ledger())
            &&& open->Some_0.outbox() == outbox.push(pending(engine.success_spec(order_id)))
        },
        Step::Committing => reply is Done && whole is Ok && done,
        Step::RollingBack { rejected } => rejected && untouched && whole is Err,
        Step::Compensating => reply is Done && whole is Err && done,
        Step::Acknowledging => reply is Done && done,
        Step::Finished { handled } => handled && done,
    }
}

/// Handles one order on the in-memory store by running the step function
/// to its end. The store ends as the engines leave it, ledger and outbox
/// both, and the message counts as handled.
pub fn handle(engine: Engine, store: Store, order_id: i32, items: &Vec<OrderItem>) -> (out: (
    Store,
    bool,
))
    requires
        store.wf(),
    ensures
        out.0.wf(),
        out.1,
        settled(engine, order_id, items@, store.ledger(), store.outbox(), out.0),
{
    let ghost ledger = store.ledger();
    let ghost outbox = store.outbox();
    let count = items.len();
    let mut now = store;
    let mut open: Option<Transaction> = None;
    let mut step = Step::Start;
    let mut reply = Reply::Done { rows: 0 };
    loop
        invariant
            items@.len() == count,
            ledger == store.ledger(),
            outbox == store.outbox(),
            on_course(engine, order_id, items@, ledger, outbox, step, reply, now, open),
        decreases remaining(step, items@.len()),
    {
        let (then, command) = next(engine, order_id, items, step, reply);
        if let Step::Finished { handled } = step {
            return (now, handled);
        }
        proof {
            law_every_step_advances(engine, order_id, items@, step, reply);
            if let Step::Updating { index } = then {
                let rest = items@.subrange(index as int, items@.len() as int);
                assert(rest[0] == items@[index as int]);
                assert(rest.subrange(1, rest.len() as int) =~= items@.subrange(
                    index + 1,
                    items@.len() as int,
                ));
                assert(items@.subrange(0, items@.len() as int) =~= items@);
            }
            if then is Publishing {
                assert(items@.subrange(items@.len() as int, items@.len() as int).len() == 0);
                assert(items@.subrange(0, items@.len() as int) =~= items@);
            }
        }
        let (store_then, open_then, reply_then) = execute(now, open, command);
        now = store_then;
        open = open_then;
        reply = reply_then;
        step = then;
    }
}

} // verus!
