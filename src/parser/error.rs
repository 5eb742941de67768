use vstd::prelude::*;

verus! {

/// The page-level fields of an invoice.
#[derive(Debug, Clone, Copy, PartialEq, Eq, Structural)]
pub enum InvoiceField {
    OrderId,
    OrderDate,
    ShippingDate,
}

/// The strictly read fields of an item row.
#[derive(Debug, Clone, Copy, PartialEq, Eq, Structural)]
pub enum ItemField {
    Quantity,
    LineTotal,
}

/// Why a page could not be read as an invoice.
#[derive(Debug, Clone, PartialEq, Eq)]
pub enum InvoiceError {
    /// The cell of a mandatory page field is not on the page.
    MissingMandatoryField { field: InvoiceField },
    /// A date cell is present but its text is not a date in the page's format.
    DateFormatError { field: InvoiceField, text: String },
    /// Row `row` (counted from zero) lacks its quantity or line-total cell.
    ItemFieldMissing { row: usize, field: ItemField },
    /// The quantity or line-total text of row `row` is not a decimal number.
    ItemFieldParseError { row: usize, field: ItemField, text: String },
    /// Row `row` has a quantity of zero, so no unit price can be derived.
    DegenerateQuantity { row: usize },
}

/// The message of each error: a fixed text, followed by the offending text
/// where the error carries one.
pub open spec fn message_of(e: InvoiceError) -> Seq<char> {
    match e {
        InvoiceError::MissingMandatoryField { field } => match field {
            InvoiceField::OrderId => "オーダーIDの取得に失敗"@,
            InvoiceField::OrderDate => "注文日の取得に失敗"@,
            InvoiceField::ShippingDate => "出荷日の取得に失敗"@,
        },
        InvoiceError::DateFormatError { field, text } => match field {
            InvoiceField::OrderId => "オーダーIDの変換に失敗:"@ + text@,
            InvoiceField::OrderDate => "注文日の変換に失敗:"@ + text@,
            InvoiceField::ShippingDate => "出荷日の変換に失敗:"@ + text@,
        },
        InvoiceError::ItemFieldMissing { row: _, field } => match field {
            ItemField::Quantity => "数量の取得に失敗"@,
            ItemField::LineTotal => "合計金額が見つかりませんでした。"@,
        },
        InvoiceError::ItemFieldParseError { row: _, field, text } => match field {
            ItemField::Quantity => "数量の変換に失敗:"@ + text@,
            ItemField::LineTotal => "合計金額の変換に失敗:"@ + text@,
        },
        InvoiceError::DegenerateQuantity { row: _ } => "数量が0のため単価を求められません"@,
    }
}

/// `e` is the date-format error of `field` for the text `text`.
pub open spec fn is_date_error(e: InvoiceError, field: InvoiceField, text: Seq<char>) -> bool {
    match e {
        InvoiceError::DateFormatError { field: f, text: t } => f == field && t@ == text,
        _ => false,
    }
}

/// `e` is the parse error of `field` in row `row` for the text `text`.
pub open spec fn is_item_parse_error(
    e: InvoiceError,
    row: usize,
    field: ItemField,
    text: Seq<char>,
) -> bool {
    match e {
        InvoiceError::ItemFieldParseError { row: r, field: f, text: t } => r == row && f == field
            && t@ == text,
        _ => false,
    }
}

impl InvoiceError {
    /// Whether the error comes from an item row.
    pub open spec fn is_row_error(&self) -> bool {
        ||| self is ItemFieldMissing
        ||| self is ItemFieldParseError
        ||| self is DegenerateQuantity
    }

    /// Same error, the carried texts compared by their characters.
    pub open spec fn same(&self, other: InvoiceError) -> bool {
        match *self {
            InvoiceError::DateFormatError { field, text } => is_date_error(other, field, text@),
            InvoiceError::ItemFieldParseError { row, field, text } => is_item_parse_error(
                other,
                row,
                field,
                text@,
            ),
            _ => *self == other,
        }
    }

    /// A one-line description of the error for people.
    pub fn message(&self) -> (r: String)
        ensures
            r@ == message_of(*self),
    {
        match self {
            InvoiceError::MissingMandatoryField { field } => match field {
                InvoiceField::OrderId => String::from_str("オーダーIDの取得に失敗"),
                InvoiceField::OrderDate => String::from_str("注文日の取得に失敗"),
                InvoiceField::ShippingDate => String::from_str("出荷日の取得に失敗"),
            },
            InvoiceError::DateFormatError { field, text } => {
                let head = match field {
                    InvoiceField::OrderId => String::from_str("オーダーIDの変換に失敗:"),
                    InvoiceField::OrderDate => String::from_str("注文日の変換に失敗:"),
                    InvoiceField::ShippingDate => String::from_str("出荷日の変換に失敗:"),
                };
                head.concat(text.as_str())
            },
            InvoiceError::ItemFieldMissing { row: _, field } => match field {
                ItemField::Quantity => String::from_str("数量の取得に失敗"),
                ItemField::LineTotal => String::from_str("合計金額が見つかりませんでした。"),
            },
            InvoiceError::ItemFieldParseError { row: _, field, text } => {
                let head = match field {
                    ItemField::Quantity => String::from_str("数量の変換に失敗:"),
                    ItemField::LineTotal => String::from_str("合計金額の変換に失敗:"),
                };
                head.concat(text.as_str())
            },
            InvoiceError::DegenerateQuantity { row: _ } => String::from_str("数量が0のため単価を求められません"),
        }
    }
}

} // verus!
