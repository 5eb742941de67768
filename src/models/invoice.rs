use vstd::prelude::*;

use crate::models::date::Date;
use crate::models::item::{same_items, Item};

verus! {

/// One order: its identity, its dates and its lines.
#[derive(Debug, Clone, PartialEq, Eq)]
pub struct Invoice {
    /// Vendor's order identifier.
    pub order_id: String,
    /// Day the order was placed.
    pub order_date: Date,
    /// Day the order shipped; `None` while it has not shipped.
    pub shipping_date: Option<Date>,
    /// Purchased parts, in the order of the page.
    pub items: Vec<Item>,
}

/// Sum of the line totals of `items`.
pub open spec fn items_total(items: Seq<Item>) -> int
    decreases items.len(),
{
    if items.len() == 0 {
        0
    } else {
        items_total(items.drop_last()) + items.last().line_total()
    }
}

/// The sum over a prefix never exceeds the sum over the whole sequence.
pub proof fn lemma_items_total_prefix(items: Seq<Item>, k: int)
    requires
        0 <= k <= items.len(),
    ensures
        items_total(items.take(k)) <= items_total(items),
    decreases items.len(),
{
    if k < items.len() {
        assert(items.take(k) =~= items.drop_last().take(k));
        lemma_items_total_prefix(items.drop_last(), k);
        assert(items.last().line_total() >= 0) by (nonlinear_arith)
            requires
                items.last().quantity >= 0,
                items.last().unit_price >= 0,
        ;
    } else {
        assert(items.take(k) =~= items);
    }
}

/// The total of an invoice is the sum of the totals of its lines, and an
/// invoice without lines totals zero.
pub proof fn lemma_total_is_sum_of_lines(inv: Invoice)
    ensures
        inv.spec_total() == items_total(inv.items@),
        inv.items@.len() == 0 ==> inv.spec_total() == 0,
        inv.items@.len() > 0 ==> inv.spec_total() == items_total(inv.items@.drop_last())
            + inv.items@.last().line_total(),
{
}

impl Invoice {
    /// Same fields, the strings compared by their characters.
    pub open spec fn same(&self, other: Invoice) -> bool {
        &&& self.order_id@ == other.order_id@
        &&& self.order_date == other.order_date
        &&& self.shipping_date == other.shipping_date
        &&& same_items(self.items@, other.items@)
    }

    /// Sum of the line totals.
    pub open spec fn spec_total(&self) -> int {
        items_total(self.items@)
    }

    /// Total price of the order: the sum of its lines' totals.
    pub fn total_price(&self) -> (r: u32)
        requires
            self.spec_total() <= u32::MAX,
        ensures
            r == self.spec_total(),
    {
        let mut sum: u32 = 0;
        let mut i: usize = 0;
        while i < self.items.len()
            invariant
                i <= self.items@.len(),
                sum == items_total(self.items@.take(i as int)),
                self.spec_total() <= u32::MAX,
            decreases self.items@.len() - i,
        {
            let ghost s = self.items@;
            assert(s.take(i + 1).drop_last() =~= s.take(i as int));
            proof {
                lemma_items_total_prefix(s, i + 1);
                lemma_items_total_prefix(s.take(i as int), 0);
                assert(s.take(i as int).take(0) =~= Seq::<Item>::empty());
            }
            let item = &self.items[i];
            assert(item.line_total() <= u32::MAX) by (nonlinear_arith)
                requires
                    item.line_total() + items_total(s.take(i as int)) <= u32::MAX,
                    items_total(s.take(i as int)) >= 0,
            ;
            sum = sum + item.total_price();
            i = i + 1;
        }
        assert(self.items@.take(i as int) =~= self.items@);
        sum
    }
}

} // verus!
