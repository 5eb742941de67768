use vstd::prelude::*;

verus! {

/// One purchased part.
#[derive(Debug, Clone, PartialEq, Eq)]
pub struct Item {
    /// Vendor's catalog code of the part.
    pub catalog_id: String,
    /// Display name of the part.
    pub name: String,
    /// Relative path of the thumbnail image, e.g. `/img/goods/M/128818.jpg`.
    pub img_url: String,
    /// Number of units bought.
    pub quantity: u32,
    /// Price of one unit.
    pub unit_price: u32,
}

impl Item {
    /// The amount paid for this line: quantity times unit price.
    pub open spec fn line_total(&self) -> int {
        self.quantity * self.unit_price
    }

    /// An item whose line total fits the price type.
    pub open spec fn wf(&self) -> bool {
        self.line_total() <= u32::MAX
    }

    /// Same fields, the strings compared by their characters.
    pub open spec fn same(&self, other: Item) -> bool {
        &&& self.catalog_id@ == other.catalog_id@
        &&& self.name@ == other.name@
        &&& self.img_url@ == other.img_url@
        &&& self.quantity == other.quantity
        &&& self.unit_price == other.unit_price
    }

    /// Total price of this line.
    pub fn total_price(&self) -> (r: u32)
        requires
            self.wf(),
        ensures
            r == self.line_total(),
    {
        self.quantity * self.unit_price
    }
}

/// Two item lists of equal length whose items are pairwise the same.
pub open spec fn same_items(a: Seq<Item>, b: Seq<Item>) -> bool {
    &&& a.len() == b.len()
    &&& forall|i: int| 0 <= i < a.len() ==> (#[trigger] a[i]).same(b[i])
}

} // verus!
