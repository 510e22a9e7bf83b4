//! The inventory ledger: one row per product and the two guarded updates
//! that are the only way a row's reserved quantity changes.

use vstd::prelude::*;

verus! {

/// Why a guarded update left the ledger as it was.
#[derive(Clone, Copy, Debug, PartialEq, Eq, Structural)]
pub enum Reason {
    /// No row of that product has enough available stock.
    InsufficientStock { product_id: i32 },
    /// No row of that product has that much reserved stock.
    NoReservedStock { product_id: i32 },
    /// The new reserved quantity does not fit the column. Only a row that
    /// breaks the row invariant can give this.
    OutOfRange { product_id: i32 },
}

/// One ledger row. Available stock is derived, never stored.
#[derive(Clone, Copy, Debug, PartialEq, Eq, Structural)]
pub struct InventoryEntity {
    pub product_id: i32,
    pub total_quantity: i32,
    pub reserved_quantity: i32,
    pub sold_quantity: i32,
}

impl InventoryEntity {
    /// Stock that is neither reserved nor sold.
    pub open spec fn available(self) -> int {
        self.total_quantity - self.reserved_quantity - self.sold_quantity
    }

    /// Reserved and sold stock together stay within the total.
    pub open spec fn no_oversell(self) -> bool {
        self.reserved_quantity + self.sold_quantity <= self.total_quantity
    }

    /// The reserved quantity is not negative.
    pub open spec fn no_over_release(self) -> bool {
        0 <= self.reserved_quantity
    }

    /// The row's invariant: quantities are not negative and
    /// `0 <= reserved <= total - sold`.
    pub open spec fn wf(self) -> bool {
        &&& 0 <= self.total_quantity
        &&& 0 <= self.sold_quantity
        &&& self.no_over_release()
        &&& self.no_oversell()
    }

    /// Whether a quantity fits the column.
    pub open spec fn fits(quantity: int) -> bool {
        i32::MIN <= quantity <= i32::MAX
    }

    /// The row with another reserved quantity.
    pub open spec fn with_reserved(self, reserved: int) -> InventoryEntity {
        InventoryEntity { reserved_quantity: reserved as i32, ..self }
    }

    /// What reserving `quantity` does to this row: the guard is
    /// `0 <= quantity <= available`, the change `reserved += quantity`.
    pub open spec fn reserve_spec(self, quantity: i32) -> Result<InventoryEntity, Reason> {
        if quantity < 0 || self.available() < quantity {
            Err(Reason::InsufficientStock { product_id: self.product_id })
        } else if !Self::fits(self.reserved_quantity + quantity) {
            Err(Reason::OutOfRange { product_id: self.product_id })
        } else {
            Ok(self.with_reserved(self.reserved_quantity + quantity))
        }
    }

    /// What releasing `quantity` does to this row: the guard is
    /// `0 <= quantity <= reserved`, the change `reserved -= quantity`.
    pub open spec fn release_spec(self, quantity: i32) -> Result<InventoryEntity, Reason> {
        if quantity < 0 || self.reserved_quantity < quantity {
            Err(Reason::NoReservedStock { product_id: self.product_id })
        } else {
            Ok(self.with_reserved(self.reserved_quantity - quantity))
        }
    }

    /// A row with the given quantities, if they satisfy the invariant.
    pub fn new(product_id: i32, total_quantity: i32, reserved_quantity: i32, sold_quantity: i32)
        -> (row: Option<InventoryEntity>)
        ensures
            row == (if (InventoryEntity {
                product_id,
                total_quantity,
                reserved_quantity,
                sold_quantity,
            }).wf() {
                Some(InventoryEntity { product_id, total_quantity, reserved_quantity, sold_quantity })
            } else {
                None
            }),
    {
        if total_quantity < 0 || sold_quantity < 0 || reserved_quantity < 0 {
            return None;
        }
        if reserved_quantity as i64 + sold_quantity as i64 > total_quantity as i64 {
            return None;
        }
        Some(InventoryEntity { product_id, total_quantity, reserved_quantity, sold_quantity })
    }

    /// Available stock of this row.
    pub fn available_quantity(&self) -> (n: i64)
        ensures
            n == self.available(),
    {
        self.total_quantity as i64 - self.reserved_quantity as i64 - self.sold_quantity as i64
    }

    /// The guarded reservation as one step: checks
    /// `0 <= quantity <= available` and, only then, gives the row with
    /// `quantity` more reserved.
    pub fn reserve(&self, quantity: i32) -> (updated: Result<InventoryEntity, Reason>)
        ensures
            updated == self.reserve_spec(quantity),
            updated is Ok && self.no_oversell() ==> updated->Ok_0.no_oversell(),
            updated is Ok && self.wf() ==> updated->Ok_0.wf(),
            updated is Ok ==> updated->Ok_0.reserved_quantity == self.reserved_quantity + quantity,
            self.wf() ==> !(updated is Err && updated->Err_0 is OutOfRange),
    {
        if quantity < 0 || self.available_quantity() < quantity as i64 {
            return Err(Reason::InsufficientStock { product_id: self.product_id });
        }
        let next: i64 = self.reserved_quantity as i64 + quantity as i64;
        if next < i32::MIN as i64 || next > i32::MAX as i64 {
            return Err(Reason::OutOfRange { product_id: self.product_id });
        }
        Ok(InventoryEntity {
            product_id: self.product_id,
            total_quantity: self.total_quantity,
            reserved_quantity: next as i32,
            sold_quantity: self.sold_quantity,
        })
    }

    /// The guarded release as one step: checks `0 <= quantity <= reserved`
    /// and, only then, gives the row with `quantity` less reserved.
    pub fn release(&self, quantity: i32) -> (updated: Result<InventoryEntity, Reason>)
        ensures
            updated == self.release_spec(quantity),
            updated is Ok ==> updated->Ok_0.no_over_release(),
            updated is Ok && self.no_oversell() ==> updated->Ok_0.no_oversell(),
            updated is Ok && self.wf() ==> updated->Ok_0.wf(),
            updated is Ok ==> updated->Ok_0.reserved_quantity == self.reserved_quantity - quantity,
    {
        if quantity < 0 || self.reserved_quantity < quantity {
            return Err(Reason::NoReservedStock { product_id: self.product_id });
        }
        Ok(InventoryEntity {
            product_id: self.product_id,
            total_quantity: self.total_quantity,
            reserved_quantity: self.reserved_quantity - quantity,
            sold_quantity: self.sold_quantity,
        })
    }
}

} // verus!
