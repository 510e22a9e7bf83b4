//! The ledger table: rows keyed by product, changed only by the two guarded
//! updates.

use vstd::prelude::*;
use crate::models::{InventoryEntity, Reason};

verus! {

/// What one guarded update does to a table: it changes the row of
/// `product_id` as `InventoryEntity::reserve_spec` says; an unknown product
/// is a failed guard.
pub open spec fn reserve_in(table: Map<i32, InventoryEntity>, product_id: i32, quantity: i32)
    -> Result<Map<i32, InventoryEntity>, Reason>
{
    if !table.dom().contains(product_id) {
        Err(Reason::InsufficientStock { product_id })
    } else {
        match table[product_id].reserve_spec(quantity) {
            Ok(row) => Ok(table.insert(product_id, row)),
            Err(reason) => Err(reason),
        }
    }
}

/// The release counterpart of `reserve_in`.
pub open spec fn release_in(table: Map<i32, InventoryEntity>, product_id: i32, quantity: i32)
    -> Result<Map<i32, InventoryEntity>, Reason>
{
    if !table.dom().contains(product_id) {
        Err(Reason::NoReservedStock { product_id })
    } else {
        match table[product_id].release_spec(quantity) {
            Ok(row) => Ok(table.insert(product_id, row)),
            Err(reason) => Err(reason),
        }
    }
}

/// Every row of the table is filed under its own product and satisfies the
/// row invariant.
pub open spec fn table_wf(table: Map<i32, InventoryEntity>) -> bool {
    forall|id: i32| #[trigger]
        table.dom().contains(id) ==> table[id].product_id == id && table[id].wf()
}

/// No row of the table has more reserved and sold than it has in total.
pub open spec fn table_no_oversell(table: Map<i32, InventoryEntity>) -> bool {
    forall|id: i32| #[trigger] table.dom().contains(id) ==> table[id].no_oversell()
}

/// No row of the table has a negative reserved quantity.
pub open spec fn table_no_over_release(table: Map<i32, InventoryEntity>) -> bool {
    forall|id: i32| #[trigger] table.dom().contains(id) ==> table[id].no_over_release()
}

/// The inventory ledger. At most one row per product.
pub struct Ledger {
    rows: Vec<InventoryEntity>,
}

impl Ledger {
    /// Whether `i` is the place of the row of `product_id`.
    pub closed spec fn at(self, i: int, product_id: i32) -> bool {
        0 <= i < self.rows@.len() && self.rows@[i].product_id == product_id
    }

    /// Product ids are unique and every row satisfies the row invariant.
    pub closed spec fn wf(self) -> bool {
        &&& forall|i: int, j: int|
            0 <= i < j < self.rows@.len() ==> self.rows@[i].product_id != self.rows@[j].product_id
        &&& forall|i: int| 0 <= i < self.rows@.len() ==> self.rows@[i].wf()
    }

    /// The table as a map from product id to row.
    pub closed spec fn view(self) -> Map<i32, InventoryEntity> {
        Map::new(
            |id: i32| exists|i: int| self.at(i, id),
            |id: i32| self.rows@[choose|i: int| self.at(i, id)],
        )
    }

    /// In a well-formed ledger each row is filed under its own product id
    /// and satisfies the row invariant.
    pub proof fn lemma_keyed(self)
        requires
            self.wf(),
        ensures
            table_wf(self@),
    {
        assert forall|id: i32| #[trigger] self@.dom().contains(id) implies self@[id].product_id
            == id && self@[id].wf() by {
            let i = choose|i: int| self.at(i, id);
            assert(self.at(i, id));
        }
    }

    proof fn lemma_at(self, i: int, product_id: i32)
        requires
            self.wf(),
            self.at(i, product_id),
        ensures
            self@.dom().contains(product_id),
            self@[product_id] == self.rows@[i],
    {
        let j = choose|j: int| self.at(j, product_id);
        assert(self.at(j, product_id));
        assert(i == j) by {
            if i < j {
                assert(self.rows@[i].product_id != self.rows@[j].product_id);
            } else if j < i {
                assert(self.rows@[j].product_id != self.rows@[i].product_id);
            }
        }
    }

    /// An empty ledger.
    pub fn new() -> (ledger: Ledger)
        ensures
            ledger.wf(),
            ledger@ == Map::<i32, InventoryEntity>::empty(),
    {
        let ledger = Ledger { rows: Vec::new() };
        assert(ledger@ =~= Map::<i32, InventoryEntity>::empty());
        ledger
    }

    fn position(&self, product_id: i32) -> (found: Option<usize>)
        requires
            self.wf(),
        ensures
            match found {
                Some(i) => self.at(i as int, product_id) && self@.dom().contains(product_id)
                    && self@[product_id] == self.rows@[i as int],
                None => !self@.dom().contains(product_id),
            },
    {
        let mut i: usize = 0;
        while i < self.rows.len()
            invariant
                self.wf(),
                i <= self.rows@.len(),
                forall|j: int| 0 <= j < i ==> self.rows@[j].product_id != product_id,
            decreases self.rows@.len() - i,
        {
            if self.rows[i].product_id == product_id {
                proof {
                    self.lemma_at(i as int, product_id);
                }
                return Some(i);
            }
            i += 1;
        }
        assert(forall|j: int| !self.at(j, product_id));
        None
    }

    fn put(&mut self, i: usize, row: InventoryEntity)
        requires
            old(self).wf(),
            old(self).at(i as int, row.product_id),
            row.wf(),
        ensures
            final(self).wf(),
            final(self)@ == old(self)@.insert(row.product_id, row),
    {
        let ghost before = *self;
        self.rows.set(i, row);
        proof {
            let after = *self;
            assert(after.wf());
            assert forall|id: i32| after@.dom().contains(id) == before@.insert(
                row.product_id,
                row,
            ).dom().contains(id) by {
                if after@.dom().contains(id) {
                    let j = choose|j: int| after.at(j, id);
                    assert(after.at(j, id));
                    assert(j == i || before.at(j, id));
                }
                if before@.dom().contains(id) {
                    let j = choose|j: int| before.at(j, id);
                    assert(before.at(j, id));
                    assert(after.at(j, id));
                }
                if id == row.product_id {
                    assert(after.at(i as int, id));
                }
            }
            assert forall|id: i32| after@.dom().contains(id) implies #[trigger] after@[id]
                == before@.insert(row.product_id, row)[id] by {
                let j = choose|j: int| after.at(j, id);
                assert(after.at(j, id));
                after.lemma_at(j, id);
                if id != row.product_id {
                    assert(before.at(j, id));
                    before.lemma_at(j, id);
                }
            }
            assert(after@ =~= before@.insert(row.product_id, row));
        }
    }

    /// The row of a product, if the ledger has one.
    pub fn get(&self, product_id: i32) -> (row: Option<InventoryEntity>)
        requires
            self.wf(),
        ensures
            row == (if self@.dom().contains(product_id) {
                Some(self@[product_id])
            } else {
                None
            }),
    {
        match self.position(product_id) {
            Some(i) => Some(self.rows[i]),
            None => None,
        }
    }

    /// Files `row` under its product id, unless the product already has a
    /// row or `row` breaks the row invariant. Says whether it did.
    pub fn provision(&mut self, row: InventoryEntity) -> (added: bool)
        requires
            old(self).wf(),
        ensures
            final(self).wf(),
            added == (row.wf() && !old(self)@.dom().contains(row.product_id)),
            final(self)@ == (if added {
                old(self)@.insert(row.product_id, row)
            } else {
                old(self)@
            }),
    {
        if row.total_quantity < 0 || row.sold_quantity < 0 || row.reserved_quantity < 0 {
            return false;
        }
        if row.reserved_quantity as i64 + row.sold_quantity as i64 > row.total_quantity as i64 {
            return false;
        }
        if self.position(row.product_id).is_some() {
            return false;
        }
        let ghost before = *self;
        self.rows.push(row);
        proof {
            let after = *self;
            let n = before.rows@.len() as int;
            assert(after.rows@[n] == row);
            assert forall|i: int, j: int| 0 <= i < j < after.rows@.len() implies after.rows@[i].product_id
                != after.rows@[j].product_id by {
                if j == n {
                    assert(!before.at(i, row.product_id));
                }
            }
            assert(after.wf());
            assert forall|id: i32| after@.dom().contains(id) == before@.insert(
                row.product_id,
                row,
            ).dom().contains(id) by {
                if after@.dom().contains(id) {
                    let j = choose|j: int| after.at(j, id);
                    assert(after.at(j, id));
                    assert(j == n || before.at(j, id));
                }
                if before@.dom().contains(id) {
                    let j = choose|j: int| before.at(j, id);
                    assert(before.at(j, id));
                    assert(after.at(j, id));
                }
                if id == row.product_id {
                    assert(after.at(n, id));
                }
            }
            assert forall|id: i32| after@.dom().contains(id) implies #[trigger] after@[id]
                == before@.insert(row.product_id, row)[id] by {
                let j = choose|j: int| after.at(j, id);
                assert(after.at(j, id));
                after.lemma_at(j, id);
                if id != row.product_id {
                    assert(before.at(j, id));
                    before.lemma_at(j, id);
                }
            }
            assert(after@ =~= before@.insert(row.product_id, row));
        }
        true
    }

    /// The guarded reservation on the table: one check-and-set on the row of
    /// `product_id`. The ledger changes only if the guard holds.
    pub fn reserve(&mut self, product_id: i32, quantity: i32) -> (done: Result<(), Reason>)
        requires
            old(self).wf(),
        ensures
            final(self).wf(),
            match reserve_in(old(self)@, product_id, quantity) {
                Ok(table) => done == Ok::<(), Reason>(()) && final(self)@ == table,
                Err(reason) => done == Err::<(), Reason>(reason) && final(self)@ == old(self)@,
            },
    {
        proof {
            self.lemma_keyed();
        }
        match self.position(product_id) {
            None => Err(Reason::InsufficientStock { product_id }),
            Some(i) => match self.rows[i].reserve(quantity) {
                Ok(row) => {
                    self.put(i, row);
                    Ok(())
                },
                Err(reason) => Err(reason),
            },
        }
    }

    /// The guarded release on the table: one check-and-set on the row of
    /// `product_id`. The ledger changes only if the guard holds.
    pub fn release(&mut self, product_id: i32, quantity: i32) -> (done: Result<(), Reason>)
        requires
            old(self).wf(),
        ensures
            final(self).wf(),
            match release_in(old(self)@, product_id, quantity) {
                Ok(table) => done == Ok::<(), Reason>(()) && final(self)@ == table,
                Err(reason) => done == Err::<(), Reason>(reason) && final(self)@ == old(self)@,
            },
    {
        proof {
            self.lemma_keyed();
        }
        match self.position(product_id) {
            None => Err(Reason::NoReservedStock { product_id }),
            Some(i) => match self.rows[i].release(quantity) {
                Ok(row) => {
                    self.put(i, row);
                    Ok(())
                },
                Err(reason) => Err(reason),
            },
        }
    }

    /// A copy of the ledger, row for row.
    pub fn snapshot(&self) -> (copy: Ledger)
        requires
            self.wf(),
        ensures
            copy.wf(),
            copy@ == self@,
    {
        let mut rows: Vec<InventoryEntity> = Vec::new();
        let mut i: usize = 0;
        while i < self.rows.len()
            invariant
                i <= self.rows@.len(),
                rows@ == self.rows@.subrange(0, i as int),
            decreases self.rows@.len() - i,
        {
            rows.push(self.rows[i]);
            assert(rows@ =~= self.rows@.subrange(0, i + 1));
            i += 1;
        }
        assert(rows@ =~= self.rows@);
        let copy = Ledger { rows };
        proof {
            assert(copy.wf());
            assert forall|id: i32| copy@.dom().contains(id) == self@.dom().contains(id) by {
                if copy@.dom().contains(id) {
                    let j = choose|j: int| copy.at(j, id);
                    assert(self.at(j, id));
                }
                if self@.dom().contains(id) {
                    let j = choose|j: int| self.at(j, id);
                    assert(copy.at(j, id));
                }
            }
            assert forall|id: i32| copy@.dom().contains(id) implies #[trigger] copy@[id]
                == self@[id] by {
                let j = choose|j: int| copy.at(j, id);
                assert(copy.at(j, id));
                assert(self.at(j, id));
                copy.lemma_at(j, id);
                self.lemma_at(j, id);
            }
            assert(copy@ =~= self@);
        }
        copy
    }
}

} // verus!
