//! Reading an invoice out of the vendor's order-detail page.
//!
//! Page fields and item rows are found with CSS selectors. Cosmetic row fields
//! (catalog code, name, image) fall back to the empty string; the accounting
//! fields (quantity, line total) and the mandatory page fields (order id,
//! order date) turn their absence into an [`InvoiceError`].
use vstd::prelude::*;

use crate::models::date::{formatted_date, parse_date, Date};
use crate::models::invoice::Invoice;
use crate::models::item::{same_items, Item};
use crate::parser::dom::{
    first_match_text, opt_view, opt_views, page_first_text, row_attrs, row_match_attrs, row_match_texts, row_texts,
    table_row_count,
};
use crate::parser::error::{is_date_error, is_item_parse_error, InvoiceError, InvoiceField, ItemField};
use crate::text::{decimal_u32, parse_decimal_u32, strip_marks, strip_price_marks, trim, trim_text};

verus! {

/// The format of the page's dates, e.g. `2025年08月31日`.
pub const DATE_FORMAT: &'static str = "%Y年%m月%d日";

/// The cell holding the order id.
pub const ORDER_ID_QUERY: &'static str = "td.block-purchase-history-detail--order-id";

/// The cell holding the order date.
pub const ORDER_DATE_QUERY: &'static str = "td.block-purchase-history-detail--order-dt";

/// The cell holding the shipping date; absent until the order ships.
pub const SHIPPING_DATE_QUERY: &'static str = "td.block-purchase-history-detail--ship-dt";

/// The body of the line-item table.
pub const ORDER_BODY_QUERY: &'static str = "div.block-purchase-history-detail--order-body tbody";

/// A row of the line-item table.
pub const ROW_QUERY: &'static str = "tr";

/// A row's catalog code.
pub const CATALOG_ID_QUERY: &'static str = "div.block-purchase-history-detail--goods-code";

/// A row's part name.
pub const NAME_QUERY: &'static str = "div.block-purchase-history-detail--goods-name";

/// A row's thumbnail image.
pub const IMAGE_QUERY: &'static str = "img";

/// A row's quantity.
pub const QUANTITY_QUERY: &'static str = "div.block-purchase-history-detail--goods-qty";

/// A row's displayed line total, e.g. `￥1,000`.
pub const LINE_TOTAL_QUERY: &'static str = "div.block-purchase-history-detail--goods-total-price";

/// The attribute of a lazily loaded image that holds its path.
pub const IMAGE_SOURCE_ATTR: &'static str = "data-src";

/// Unit price derived from a line total: truncating division by the quantity.
pub fn unit_price_of(line_total: u32, quantity: u32) -> (r: u32)
    requires
        quantity > 0,
    ensures
        r == line_total / quantity,
        r * quantity <= line_total,
        line_total % quantity == 0 ==> r * quantity == line_total,
        line_total - quantity < r * quantity,
{
    let r = line_total / quantity;
    assert(r * quantity + line_total % quantity == line_total && 0 <= line_total % quantity
        < quantity) by (nonlinear_arith)
        requires
            r == line_total / quantity,
            quantity > 0,
    ;
    r
}


/// Whether row texts make an item: a quantity that reads as a non-zero
/// `u32` and a line total that reads as a `u32` once its price marks are gone.
pub open spec fn texts_valid(quantity_text: Option<Seq<char>>, line_total_text: Option<Seq<char>>) -> bool {
    &&& quantity_text is Some
    &&& decimal_u32(quantity_text->Some_0) is Some
    &&& decimal_u32(quantity_text->Some_0)->Some_0 != 0
    &&& line_total_text is Some
    &&& decimal_u32(strip_price_marks(line_total_text->Some_0)) is Some
}

/// The outcome owed for the texts of row `row`: the quantity is read first,
/// then the line total (after removing the currency sign and the thousands
/// separators); the unit price is the line total divided by the quantity,
/// truncated.
pub open spec fn item_outcome(
    row: usize,
    catalog_id: Seq<char>,
    name: Seq<char>,
    img_url: Seq<char>,
    quantity_text: Option<Seq<char>>,
    line_total_text: Option<Seq<char>>,
    r: Result<Item, InvoiceError>,
) -> bool {
    match quantity_text {
        None => r == Err::<Item, InvoiceError>(
            InvoiceError::ItemFieldMissing { row, field: ItemField::Quantity },
        ),
        Some(q) => match decimal_u32(q) {
            None => r is Err && is_item_parse_error(r->Err_0, row, ItemField::Quantity, q),
            Some(quantity) => match line_total_text {
                None => r == Err::<Item, InvoiceError>(
                    InvoiceError::ItemFieldMissing { row, field: ItemField::LineTotal },
                ),
                Some(t) => match decimal_u32(strip_price_marks(t)) {
                    None => r is Err && is_item_parse_error(r->Err_0, row, ItemField::LineTotal, t),
                    Some(total) => if quantity == 0 {
                        r == Err::<Item, InvoiceError>(InvoiceError::DegenerateQuantity { row })
                    } else {
                        &&& r is Ok
                        &&& r->Ok_0.catalog_id@ == catalog_id
                        &&& r->Ok_0.name@ == name
                        &&& r->Ok_0.img_url@ == img_url
                        &&& r->Ok_0.quantity == quantity
                        &&& r->Ok_0.unit_price == total / quantity
                        &&& r->Ok_0.line_total() <= total
                        &&& total % quantity == 0 ==> r->Ok_0.line_total() == total
                    },
                },
            },
        },
    }
}

/// Two item results that are the same item or the same error.
pub open spec fn same_item_result(a: Result<Item, InvoiceError>, b: Result<Item, InvoiceError>) -> bool {
    match (a, b) {
        (Ok(x), Ok(y)) => x.same(y),
        (Err(x), Err(y)) => x.same(y),
        _ => false,
    }
}

/// A row gives an item exactly when its texts are valid.
pub proof fn lemma_item_outcome_valid(
    row: usize,
    catalog_id: Seq<char>,
    name: Seq<char>,
    img_url: Seq<char>,
    quantity_text: Option<Seq<char>>,
    line_total_text: Option<Seq<char>>,
    r: Result<Item, InvoiceError>,
)
    requires
        item_outcome(row, catalog_id, name, img_url, quantity_text, line_total_text, r),
    ensures
        r is Ok <==> texts_valid(quantity_text, line_total_text),
{
}

/// Reading the same row texts twice gives the same item or the same error.
pub proof fn lemma_item_outcome_unique(
    row: usize,
    catalog_id: Seq<char>,
    name: Seq<char>,
    img_url: Seq<char>,
    quantity_text: Option<Seq<char>>,
    line_total_text: Option<Seq<char>>,
    r1: Result<Item, InvoiceError>,
    r2: Result<Item, InvoiceError>,
)
    requires
        item_outcome(row, catalog_id, name, img_url, quantity_text, line_total_text, r1),
        item_outcome(row, catalog_id, name, img_url, quantity_text, line_total_text, r2),
    ensures
        same_item_result(r1, r2),
{
}

/// Builds the item of row `row` from the texts found in it.
pub fn item_from_fields(
    row: usize,
    catalog_id: String,
    name: String,
    img_url: String,
    quantity_text: Option<String>,
    line_total_text: Option<String>,
) -> (r: Result<Item, InvoiceError>)
    ensures
        item_outcome(
            row,
            catalog_id@,
            name@,
            img_url@,
            opt_view(quantity_text),
            opt_view(line_total_text),
            r,
        ),
        r is Ok ==> r->Ok_0.wf() && r->Ok_0.quantity > 0,
{
    let q = match quantity_text {
        None => {
            return Err(InvoiceError::ItemFieldMissing { row, field: ItemField::Quantity });
        },
        Some(q) => q,
    };
    let quantity = match parse_decimal_u32(q.as_str()) {
        None => {
            return Err(
                InvoiceError::ItemFieldParseError { row, field: ItemField::Quantity, text: q },
            );
        },
        Some(n) => n,
    };
    let t = match line_total_text {
        None => {
            return Err(InvoiceError::ItemFieldMissing { row, field: ItemField::LineTotal });
        },
        Some(t) => t,
    };
    let digits = strip_marks(t.as_str());
    let total = match parse_decimal_u32(digits.as_str()) {
        None => {
            return Err(
                InvoiceError::ItemFieldParseError { row, field: ItemField::LineTotal, text: t },
            );
        },
        Some(n) => n,
    };
    if quantity == 0 {
        return Err(InvoiceError::DegenerateQuantity { row });
    }
    let unit_price = unit_price_of(total, quantity);
    Ok(Item { catalog_id, name, img_url, quantity, unit_price })
}

/// The date of page field `field`, given what parsing its text `text` gave.
pub fn date_or_error(field: InvoiceField, text: String, parsed: Option<Date>) -> (r: Result<
    Date,
    InvoiceError,
>)
    ensures
        match parsed {
            Some(d) => r == Ok::<Date, InvoiceError>(d),
            None => r == Err::<Date, InvoiceError>(
                InvoiceError::DateFormatError { field, text },
            ),
        },
{
    match parsed {
        Some(d) => Ok(d),
        None => Err(InvoiceError::DateFormatError { field, text }),
    }
}

/// Reads the text of page field `field` as a date in [`DATE_FORMAT`].
pub fn read_date(field: InvoiceField, text: String) -> (r: Result<Date, InvoiceError>)
    ensures
        match formatted_date(text@, DATE_FORMAT@) {
            Some(ymd) => r is Ok && r->Ok_0.ymd() == ymd && r->Ok_0.wf(),
            None => r == Err::<Date, InvoiceError>(
                InvoiceError::DateFormatError { field, text },
            ),
        },
{
    let parsed = parse_date(text.as_str(), DATE_FORMAT);
    date_or_error(field, text, parsed)
}

/// The invoice made of its parts once its dates have been read: the order
/// date's error comes first, then the shipping date's; no shipping date means
/// the order has not shipped.
pub fn invoice_from_parts(
    order_id: String,
    order_date: Result<Date, InvoiceError>,
    shipping_date: Option<Result<Date, InvoiceError>>,
    items: Vec<Item>,
) -> (r: Result<Invoice, InvoiceError>)
    ensures
        match (order_date, shipping_date) {
            (Err(e), _) => r == Err::<Invoice, InvoiceError>(e),
            (Ok(_), Some(Err(e))) => r == Err::<Invoice, InvoiceError>(e),
            (Ok(d), None) => r == Ok::<Invoice, InvoiceError>(
                Invoice { order_id, order_date: d, shipping_date: None, items },
            ),
            (Ok(d), Some(Ok(s))) => r == Ok::<Invoice, InvoiceError>(
                Invoice { order_id, order_date: d, shipping_date: Some(s), items },
            ),
        },
{
    let order_date = match order_date {
        Err(e) => {
            return Err(e);
        },
        Ok(d) => d,
    };
    let shipping_date = match shipping_date {
        None => None,
        Some(Err(e)) => {
            return Err(e);
        },
        Some(Ok(d)) => Some(d),
    };
    Ok(Invoice { order_id, order_date, shipping_date, items })
}

/// The outcome owed for what was found on a page: the order date is checked
/// first, then the order id, then the items, then the dates are read; the
/// first failure is the result. A missing shipping date means the order has
/// not shipped.
pub open spec fn invoice_outcome(
    order_id: Option<Seq<char>>,
    order_date_text: Option<Seq<char>>,
    shipping_date_text: Option<Seq<char>>,
    items: Result<Vec<Item>, InvoiceError>,
    r: Result<Invoice, InvoiceError>,
) -> bool {
    match order_date_text {
        None => r == Err::<Invoice, InvoiceError>(
            InvoiceError::MissingMandatoryField { field: InvoiceField::OrderDate },
        ),
        Some(od) => match order_id {
            None => r == Err::<Invoice, InvoiceError>(
                InvoiceError::MissingMandatoryField { field: InvoiceField::OrderId },
            ),
            Some(id) => match items {
                Err(e) => r == Err::<Invoice, InvoiceError>(e),
                Ok(list) => match formatted_date(od, DATE_FORMAT@) {
                    None => r is Err && is_date_error(r->Err_0, InvoiceField::OrderDate, od),
                    Some(ymd) => match shipping_date_text {
                        None => {
                            &&& r is Ok
                            &&& r->Ok_0.order_id@ == id
                            &&& r->Ok_0.order_date.ymd() == ymd
                            &&& r->Ok_0.order_date.wf()
                            &&& r->Ok_0.shipping_date is None
                            &&& r->Ok_0.items == list
                        },
                        Some(sd) => match formatted_date(sd, DATE_FORMAT@) {
                            None => r is Err && is_date_error(
                                r->Err_0,
                                InvoiceField::ShippingDate,
                                sd,
                            ),
                            Some(shipped) => {
                                &&& r is Ok
                                &&& r->Ok_0.order_id@ == id
                                &&& r->Ok_0.order_date.ymd() == ymd
                                &&& r->Ok_0.order_date.wf()
                                &&& r->Ok_0.shipping_date is Some
                                &&& r->Ok_0.shipping_date->Some_0.ymd() == shipped
                                &&& r->Ok_0.shipping_date->Some_0.wf()
                                &&& r->Ok_0.items == list
                            },
                        },
                    },
                },
            },
        },
    }
}

/// Puts an invoice together from what was found on a page.
pub fn assemble_invoice(
    order_id: Option<String>,
    order_date_text: Option<String>,
    shipping_date_text: Option<String>,
    items: Result<Vec<Item>, InvoiceError>,
) -> (r: Result<Invoice, InvoiceError>)
    ensures
        invoice_outcome(
            opt_view(order_id),
            opt_view(order_date_text),
            opt_view(shipping_date_text),
            items,
            r,
        ),
{
    let order_date_text = match order_date_text {
        None => {
            return Err(InvoiceError::MissingMandatoryField { field: InvoiceField::OrderDate });
        },
        Some(t) => t,
    };
    let order_id = match order_id {
        None => {
            return Err(InvoiceError::MissingMandatoryField { field: InvoiceField::OrderId });
        },
        Some(id) => id,
    };
    let items = match items {
        Err(e) => {
            return Err(e);
        },
        Ok(list) => list,
    };
    let order_date = read_date(InvoiceField::OrderDate, order_date_text);
    let shipping_date = match shipping_date_text {
        None => None,
        Some(t) => Some(read_date(InvoiceField::ShippingDate, t)),
    };
    invoice_from_parts(order_id, order_date, shipping_date, items)
}

/// Two item-list results that are the same items or the same error.
pub open spec fn same_items_result(
    a: Result<Vec<Item>, InvoiceError>,
    b: Result<Vec<Item>, InvoiceError>,
) -> bool {
    match (a, b) {
        (Ok(x), Ok(y)) => same_items(x@, y@),
        (Err(x), Err(y)) => x.same(y),
        _ => false,
    }
}

/// Two invoice results that are the same invoice or the same error.
pub open spec fn same_invoice_result(
    a: Result<Invoice, InvoiceError>,
    b: Result<Invoice, InvoiceError>,
) -> bool {
    match (a, b) {
        (Ok(x), Ok(y)) => x.same(y),
        (Err(x), Err(y)) => x.same(y),
        _ => false,
    }
}

/// Assembling the same page fields, with the same items, twice gives the
/// same invoice or the same error.
pub proof fn lemma_invoice_outcome_unique(
    order_id: Option<Seq<char>>,
    order_date_text: Option<Seq<char>>,
    shipping_date_text: Option<Seq<char>>,
    items1: Result<Vec<Item>, InvoiceError>,
    items2: Result<Vec<Item>, InvoiceError>,
    r1: Result<Invoice, InvoiceError>,
    r2: Result<Invoice, InvoiceError>,
)
    requires
        same_items_result(items1, items2),
        invoice_outcome(order_id, order_date_text, shipping_date_text, items1, r1),
        invoice_outcome(order_id, order_date_text, shipping_date_text, items2, r2),
    ensures
        same_invoice_result(r1, r2),
{
    if r1 is Ok && r2 is Ok {
        let (a, b) = (r1->Ok_0, r2->Ok_0);
        assert(a.order_date == b.order_date);
        assert(a.shipping_date == b.shipping_date);
    }
}

/// An optional text, trimmed.
pub open spec fn trimmed_opt(o: Option<Seq<char>>) -> Option<Seq<char>> {
    match o {
        Some(t) => Some(trim(t)),
        None => None,
    }
}

/// An optional text, or the empty text when absent.
pub open spec fn or_empty(o: Option<Seq<char>>) -> Seq<char> {
    match o {
        Some(t) => t,
        None => Seq::empty(),
    }
}

/// Trimmed text of the first cell of `html` that `css` matches, if any.
pub open spec fn page_text(html: Seq<char>, css: Seq<char>) -> Option<Seq<char>> {
    trimmed_opt(first_match_text(html, css))
}

/// Number of rows of the page's line-item table; zero without the table.
pub open spec fn row_count(html: Seq<char>) -> nat {
    table_row_count(html, ORDER_BODY_QUERY@, ROW_QUERY@)
}

/// Trimmed text of the first element inside row `i` that `css` matches.
pub open spec fn row_field(html: Seq<char>, css: Seq<char>, i: int) -> Option<Seq<char>> {
    trimmed_opt(row_match_texts(html, ORDER_BODY_QUERY@, ROW_QUERY@, css)[i])
}

/// Trimmed image path of row `i`, from the lazy-load source attribute of its
/// first image.
pub open spec fn row_image(html: Seq<char>, i: int) -> Option<Seq<char>> {
    trimmed_opt(
        row_match_attrs(html, ORDER_BODY_QUERY@, ROW_QUERY@, IMAGE_QUERY@, IMAGE_SOURCE_ATTR@)[i],
    )
}

/// The outcome owed for row `i` of the page: cosmetic fields fall back to
/// the empty text, quantity and line total are strict.
pub open spec fn row_outcome(html: Seq<char>, i: int, r: Result<Item, InvoiceError>) -> bool {
    item_outcome(
        i as usize,
        or_empty(row_field(html, CATALOG_ID_QUERY@, i)),
        or_empty(row_field(html, NAME_QUERY@, i)),
        or_empty(row_image(html, i)),
        row_field(html, QUANTITY_QUERY@, i),
        row_field(html, LINE_TOTAL_QUERY@, i),
        r,
    )
}

/// Row `i` of the page gives an item.
pub open spec fn row_valid(html: Seq<char>, i: int) -> bool {
    texts_valid(row_field(html, QUANTITY_QUERY@, i), row_field(html, LINE_TOTAL_QUERY@, i))
}

/// Every row of the page gives an item.
pub open spec fn all_rows_valid(html: Seq<char>) -> bool {
    forall|i: int| 0 <= i < row_count(html) ==> #[trigger] row_valid(html, i)
}

/// The outcome owed for the items of a page: one item per row, in page
/// order, each the outcome of its row; or the error of the first row that
/// gives none.
pub open spec fn items_outcome(html: Seq<char>, r: Result<Vec<Item>, InvoiceError>) -> bool {
    match r {
        Ok(v) => {
            &&& v@.len() == row_count(html)
            &&& forall|i: int|
                0 <= i < v@.len() ==> #[trigger] row_outcome(html, i, Ok::<Item, InvoiceError>(v@[i]))
        },
        Err(e) => exists|k: int|
            {
                &&& 0 <= k < row_count(html)
                &&& forall|i: int| 0 <= i < k ==> #[trigger] row_valid(html, i)
                &&& #[trigger] row_outcome(html, k, Err::<Item, InvoiceError>(e))
            },
    }
}

/// The outcome owed for the invoice of a page.
pub open spec fn page_invoice_outcome(html: Seq<char>, r: Result<Invoice, InvoiceError>) -> bool {
    exists|items: Result<Vec<Item>, InvoiceError>|
        {
            &&& #[trigger] items_outcome(html, items)
            &&& invoice_outcome(
                page_text(html, ORDER_ID_QUERY@),
                page_text(html, ORDER_DATE_QUERY@),
                page_text(html, SHIPPING_DATE_QUERY@),
                items,
                r,
            )
        }
}

/// Reading the items of the same page twice gives the same items or the
/// same error; they are items exactly when every row is valid.
pub proof fn lemma_items_outcome_unique(
    html: Seq<char>,
    r1: Result<Vec<Item>, InvoiceError>,
    r2: Result<Vec<Item>, InvoiceError>,
)
    requires
        items_outcome(html, r1),
        items_outcome(html, r2),
    ensures
        same_items_result(r1, r2),
        r1 is Ok <==> all_rows_valid(html),
{
    lemma_items_outcome_valid(html, r1);
    lemma_items_outcome_valid(html, r2);
    match (r1, r2) {
        (Ok(v1), Ok(v2)) => {
            assert forall|i: int| 0 <= i < v1@.len() implies (#[trigger] v1@[i]).same(v2@[i]) by {
                assert(row_outcome(html, i, Ok::<Item, InvoiceError>(v1@[i])));
                assert(row_outcome(html, i, Ok::<Item, InvoiceError>(v2@[i])));
                lemma_row_outcome_unique(html, i, Ok(v1@[i]), Ok(v2@[i]));
            }
        },
        (Err(e1), Err(e2)) => {
            let k1 = choose|k: int|
                {
                    &&& 0 <= k < row_count(html)
                    &&& forall|i: int| 0 <= i < k ==> #[trigger] row_valid(html, i)
                    &&& #[trigger] row_outcome(html, k, Err::<Item, InvoiceError>(e1))
                };
            let k2 = choose|k: int|
                {
                    &&& 0 <= k < row_count(html)
                    &&& forall|i: int| 0 <= i < k ==> #[trigger] row_valid(html, i)
                    &&& #[trigger] row_outcome(html, k, Err::<Item, InvoiceError>(e2))
                };
            lemma_row_outcome_valid(html, k1, Err(e1));
            lemma_row_outcome_valid(html, k2, Err(e2));
            if k1 < k2 {
                assert(row_valid(html, k1));
            } else if k2 < k1 {
                assert(row_valid(html, k2));
            }
            lemma_row_outcome_unique(html, k1, Err(e1), Err(e2));
        },
        _ => {},
    }
}

proof fn lemma_row_outcome_valid(html: Seq<char>, i: int, r: Result<Item, InvoiceError>)
    requires
        row_outcome(html, i, r),
    ensures
        r is Ok <==> row_valid(html, i),
{
    lemma_item_outcome_valid(
        i as usize,
        or_empty(row_field(html, CATALOG_ID_QUERY@, i)),
        or_empty(row_field(html, NAME_QUERY@, i)),
        or_empty(row_image(html, i)),
        row_field(html, QUANTITY_QUERY@, i),
        row_field(html, LINE_TOTAL_QUERY@, i),
        r,
    );
}

proof fn lemma_row_outcome_unique(
    html: Seq<char>,
    i: int,
    r1: Result<Item, InvoiceError>,
    r2: Result<Item, InvoiceError>,
)
    requires
        row_outcome(html, i, r1),
        row_outcome(html, i, r2),
    ensures
        same_item_result(r1, r2),
{
    lemma_item_outcome_unique(
        i as usize,
        or_empty(row_field(html, CATALOG_ID_QUERY@, i)),
        or_empty(row_field(html, NAME_QUERY@, i)),
        or_empty(row_image(html, i)),
        row_field(html, QUANTITY_QUERY@, i),
        row_field(html, LINE_TOTAL_QUERY@, i),
        r1,
        r2,
    );
}

proof fn lemma_items_outcome_valid(html: Seq<char>, r: Result<Vec<Item>, InvoiceError>)
    requires
        items_outcome(html, r),
    ensures
        r is Ok <==> all_rows_valid(html),
{
    match r {
        Ok(v) => {
            assert forall|i: int| 0 <= i < row_count(html) implies #[trigger] row_valid(html, i) by {
                assert(row_outcome(html, i, Ok::<Item, InvoiceError>(v@[i])));
                lemma_row_outcome_valid(html, i, Ok(v@[i]));
            }
        },
        Err(e) => {
            let k = choose|k: int|
                {
                    &&& 0 <= k < row_count(html)
                    &&& forall|i: int| 0 <= i < k ==> #[trigger] row_valid(html, i)
                    &&& #[trigger] row_outcome(html, k, Err::<Item, InvoiceError>(e))
                };
            lemma_row_outcome_valid(html, k, Err(e));
        },
    }
}

/// Parsing the same page twice gives field-for-field the same invoice, or
/// the same error.
pub proof fn lemma_parse_invoice_deterministic(
    html: Seq<char>,
    r1: Result<Invoice, InvoiceError>,
    r2: Result<Invoice, InvoiceError>,
)
    requires
        page_invoice_outcome(html, r1),
        page_invoice_outcome(html, r2),
    ensures
        same_invoice_result(r1, r2),
{
    let items1 = choose|items: Result<Vec<Item>, InvoiceError>|
        {
            &&& #[trigger] items_outcome(html, items)
            &&& invoice_outcome(
                page_text(html, ORDER_ID_QUERY@),
                page_text(html, ORDER_DATE_QUERY@),
                page_text(html, SHIPPING_DATE_QUERY@),
                items,
                r1,
            )
        };
    let items2 = choose|items: Result<Vec<Item>, InvoiceError>|
        {
            &&& #[trigger] items_outcome(html, items)
            &&& invoice_outcome(
                page_text(html, ORDER_ID_QUERY@),
                page_text(html, ORDER_DATE_QUERY@),
                page_text(html, SHIPPING_DATE_QUERY@),
                items,
                r2,
            )
        };
    lemma_items_outcome_unique(html, items1, items2);
    lemma_invoice_outcome_unique(
        page_text(html, ORDER_ID_QUERY@),
        page_text(html, ORDER_DATE_QUERY@),
        page_text(html, SHIPPING_DATE_QUERY@),
        items1,
        items2,
        r1,
        r2,
    );
}

/// Every item read from a page stays within its row's displayed line total,
/// and equals it when the quantity divides that total.
pub proof fn lemma_items_within_line_totals(html: Seq<char>, v: Vec<Item>, i: int)
    requires
        items_outcome(html, Ok(v)),
        0 <= i < v@.len(),
    ensures
        row_valid(html, i),
        ({
            let text = row_field(html, LINE_TOTAL_QUERY@, i)->Some_0;
            let total = decimal_u32(strip_price_marks(text))->Some_0;
            &&& v@[i].line_total() <= total
            &&& total % v@[i].quantity == 0 ==> v@[i].line_total() == total
            &&& v@[i].unit_price == total / v@[i].quantity
        }),
{
    assert(row_outcome(html, i, Ok::<Item, InvoiceError>(v@[i])));
    lemma_row_outcome_valid(html, i, Ok(v@[i]));
}

/// Strict lookup: the found text, trimmed, or none.
fn trim_opt(o: &Option<String>) -> (r: Option<String>)
    ensures
        opt_view(r) == trimmed_opt(opt_view(*o)),
{
    match o {
        Some(t) => Some(trim_text(t.as_str())),
        None => None,
    }
}

/// Permissive lookup: the found text, trimmed, or the empty string.
fn trim_or_empty(o: &Option<String>) -> (r: String)
    ensures
        r@ == or_empty(trimmed_opt(opt_view(*o))),
{
    match o {
        Some(t) => trim_text(t.as_str()),
        None => String::new(),
    }
}

/// Extracts the order id from the page `html_content`.
pub fn parse_invoice_order_id(html_content: &str) -> (r: Option<String>)
    ensures
        opt_view(r) == page_text(html_content@, ORDER_ID_QUERY@),
{
    trim_opt(&page_first_text(html_content, ORDER_ID_QUERY))
}

/// Extracts the order date text, e.g. `2025年08月31日`, from the page.
pub fn parse_order_date(html_content: &str) -> (r: Option<String>)
    ensures
        opt_view(r) == page_text(html_content@, ORDER_DATE_QUERY@),
{
    trim_opt(&page_first_text(html_content, ORDER_DATE_QUERY))
}

/// Extracts the shipping date text from the page; none for an order that
/// has not shipped.
pub fn parse_shipping_date(html_content: &str) -> (r: Option<String>)
    ensures
        opt_view(r) == page_text(html_content@, SHIPPING_DATE_QUERY@),
{
    trim_opt(&page_first_text(html_content, SHIPPING_DATE_QUERY))
}

/// Extracts the purchased items from the page, one per row of its line-item
/// table, in page order; none when the page has no such table. The first row
/// that gives no item is the error.
pub fn parse_items(html_content: &str) -> (r: Result<Vec<Item>, InvoiceError>)
    ensures
        items_outcome(html_content@, r),
        r is Ok <==> all_rows_valid(html_content@),
        r is Ok ==> forall|i: int|
            0 <= i < r->Ok_0@.len() ==> (#[trigger] r->Ok_0@[i]).wf() && r->Ok_0@[i].quantity > 0,
{
    let codes = row_texts(html_content, ORDER_BODY_QUERY, ROW_QUERY, CATALOG_ID_QUERY);
    let names = row_texts(html_content, ORDER_BODY_QUERY, ROW_QUERY, NAME_QUERY);
    let images = row_attrs(html_content, ORDER_BODY_QUERY, ROW_QUERY, IMAGE_QUERY, IMAGE_SOURCE_ATTR);
    let quantities = row_texts(html_content, ORDER_BODY_QUERY, ROW_QUERY, QUANTITY_QUERY);
    let totals = row_texts(html_content, ORDER_BODY_QUERY, ROW_QUERY, LINE_TOTAL_QUERY);
    let ghost html = html_content@;
    let mut items: Vec<Item> = Vec::new();
    let mut i: usize = 0;
    while i < codes.len()
        invariant
            html == html_content@,
            codes@.len() == row_count(html),
            names@.len() == row_count(html),
            images@.len() == row_count(html),
            quantities@.len() == row_count(html),
            totals@.len() == row_count(html),
            opt_views(codes@) == row_match_texts(
                html,
                ORDER_BODY_QUERY@,
                ROW_QUERY@,
                CATALOG_ID_QUERY@,
            ),
            opt_views(names@) == row_match_texts(html, ORDER_BODY_QUERY@, ROW_QUERY@, NAME_QUERY@),
            opt_views(images@) == row_match_attrs(
                html,
                ORDER_BODY_QUERY@,
                ROW_QUERY@,
                IMAGE_QUERY@,
                IMAGE_SOURCE_ATTR@,
            ),
            opt_views(quantities@) == row_match_texts(
                html,
                ORDER_BODY_QUERY@,
                ROW_QUERY@,
                QUANTITY_QUERY@,
            ),
            opt_views(totals@) == row_match_texts(
                html,
                ORDER_BODY_QUERY@,
                ROW_QUERY@,
                LINE_TOTAL_QUERY@,
            ),
            i <= codes@.len(),
            items@.len() == i,
            forall|k: int| 0 <= k < i ==> #[trigger] row_valid(html, k),
            forall|k: int|
                0 <= k < i ==> #[trigger] row_outcome(html, k, Ok::<Item, InvoiceError>(items@[k])),
            forall|k: int| 0 <= k < i ==> (#[trigger] items@[k]).wf() && items@[k].quantity > 0,
        decreases codes@.len() - i,
    {
        let catalog_id = trim_or_empty(&codes[i]);
        let name = trim_or_empty(&names[i]);
        let img_url = trim_or_empty(&images[i]);
        let quantity_text = trim_opt(&quantities[i]);
        let line_total_text = trim_opt(&totals[i]);
        proof {
            let k = i as int;
            assert(opt_views(codes@)[k] == opt_view(codes@[k]));
            assert(opt_views(names@)[k] == opt_view(names@[k]));
            assert(opt_views(images@)[k] == opt_view(images@[k]));
            assert(opt_views(quantities@)[k] == opt_view(quantities@[k]));
            assert(opt_views(totals@)[k] == opt_view(totals@[k]));
        }
        let r = item_from_fields(i, catalog_id, name, img_url, quantity_text, line_total_text);
        assert(row_outcome(html, i as int, r));
        proof {
            lemma_row_outcome_valid(html, i as int, r);
        }
        match r {
            Ok(item) => {
                items.push(item);
                assert(items@[i as int] == item);
            },
            Err(e) => {
                assert(row_outcome(html, i as int, Err::<Item, InvoiceError>(e)));
                assert(!all_rows_valid(html));
                return Err(e);
            },
        }
        i = i + 1;
    }
    Ok(items)
}

/// Reads the whole invoice from the page: fails on the first mandatory
/// field or item row that cannot be read, and never returns a partial
/// invoice.
pub fn parse_invoice(html_content: &str) -> (r: Result<Invoice, InvoiceError>)
    ensures
        page_invoice_outcome(html_content@, r),
{
    let order_id = parse_invoice_order_id(html_content);
    let order_date_text = parse_order_date(html_content);
    let shipping_date_text = parse_shipping_date(html_content);
    let items = parse_items(html_content);
    let ghost found = items;
    let r = assemble_invoice(order_id, order_date_text, shipping_date_text, items);
    assert(items_outcome(html_content@, found));
    r
}

} // verus!
