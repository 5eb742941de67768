use akizuki_invoice_parser::models::date::Date;
use akizuki_invoice_parser::parser::error::{InvoiceError, InvoiceField, ItemField};
use akizuki_invoice_parser::parser::html_parser::{
    assemble_invoice, date_or_error, invoice_from_parts, item_from_fields, read_date, unit_price_of,
};
use akizuki_invoice_parser::text::{parse_decimal_u32, strip_marks, trim_text, white_space};

fn fields(quantity: Option<&str>, total: Option<&str>) -> Result<akizuki_invoice_parser::models::item::Item, InvoiceError> {
    item_from_fields(
        4,
        "113582".to_string(),
        "part".to_string(),
        "/img/goods/M/128008.jpg".to_string(),
        quantity.map(|s| s.to_string()),
        total.map(|s| s.to_string()),
    )
}

#[test]
fn quantity_ten_of_one_thousand_yen() {
    let item = fields(Some("10"), Some("￥1,000")).unwrap();
    assert_eq!(item.quantity, 10);
    assert_eq!(item.unit_price, 100);
    assert_eq!(item.catalog_id, "113582");
    assert_eq!(item.img_url, "/img/goods/M/128008.jpg");
    assert_eq!(item.total_price(), 1000);
}

#[test]
fn quantity_with_plus_sign() {
    let item = fields(Some("+2"), Some("￥1,000")).unwrap();
    assert_eq!(item.quantity, 2);
    assert_eq!(item.unit_price, 500);
}

#[test]
fn unit_price_truncates() {
    let item = fields(Some("3"), Some("￥1,000")).unwrap();
    assert_eq!(item.unit_price, 333);
    assert!(item.total_price() <= 1000);
    assert_eq!(unit_price_of(1000, 3), 333);
    assert_eq!(unit_price_of(1000, 10), 100);
    assert_eq!(unit_price_of(0, 7), 0);
}

#[test]
fn item_errors() {
    assert_eq!(fields(None, Some("￥1")), Err(InvoiceError::ItemFieldMissing { row: 4, field: ItemField::Quantity }));
    assert_eq!(fields(Some("1"), None), Err(InvoiceError::ItemFieldMissing { row: 4, field: ItemField::LineTotal }));
    assert_eq!(
        fields(Some("+"), Some("￥1")),
        Err(InvoiceError::ItemFieldParseError { row: 4, field: ItemField::Quantity, text: "+".to_string() })
    );
    assert_eq!(
        fields(Some("-1"), Some("￥1")),
        Err(InvoiceError::ItemFieldParseError { row: 4, field: ItemField::Quantity, text: "-1".to_string() })
    );
    assert_eq!(
        fields(Some("1"), Some("$1.00")),
        Err(InvoiceError::ItemFieldParseError { row: 4, field: ItemField::LineTotal, text: "$1.00".to_string() })
    );
    assert_eq!(fields(Some("0"), Some("￥1,000")), Err(InvoiceError::DegenerateQuantity { row: 4 }));
    assert_eq!(
        fields(Some("4294967296"), Some("￥1")),
        Err(InvoiceError::ItemFieldParseError { row: 4, field: ItemField::Quantity, text: "4294967296".to_string() })
    );
    assert_eq!(
        fields(Some("1"), Some("")),
        Err(InvoiceError::ItemFieldParseError { row: 4, field: ItemField::LineTotal, text: "".to_string() })
    );
}

#[test]
fn error_messages() {
    assert_eq!(InvoiceError::DegenerateQuantity { row: 0 }.message().is_empty(), false);
    assert_eq!(
        InvoiceError::ItemFieldParseError { row: 0, field: ItemField::Quantity, text: "x".to_string() }.message(),
        "数量の変換に失敗:x"
    );
    assert_eq!(
        InvoiceError::MissingMandatoryField { field: InvoiceField::OrderDate }.message(),
        "注文日の取得に失敗"
    );
    assert_eq!(
        InvoiceError::DateFormatError { field: InvoiceField::ShippingDate, text: "z".to_string() }.message(),
        "出荷日の変換に失敗:z"
    );
    assert_eq!(
        InvoiceError::ItemFieldMissing { row: 3, field: ItemField::LineTotal }.message(),
        "合計金額が見つかりませんでした。"
    );
}

#[test]
fn decimal_numbers() {
    assert_eq!(parse_decimal_u32("0"), Some(0));
    assert_eq!(parse_decimal_u32("007"), Some(7));
    assert_eq!(parse_decimal_u32("4294967295"), Some(u32::MAX));
    assert_eq!(parse_decimal_u32("4294967296"), None);
    assert_eq!(parse_decimal_u32("99999999999x"), None);
    assert_eq!(parse_decimal_u32(""), None);
    assert_eq!(parse_decimal_u32("1 2"), None);
    assert_eq!(parse_decimal_u32("-1"), None);
    assert_eq!(parse_decimal_u32("+12"), Some(12));
    assert_eq!(parse_decimal_u32("+"), None);
    assert_eq!(parse_decimal_u32("++1"), None);
    assert_eq!(parse_decimal_u32("+4294967295"), Some(u32::MAX));
}

#[test]
fn trimming_and_marks() {
    assert_eq!(trim_text("  \n\tEC1 2\u{3000}\r\n"), "EC1 2");
    assert_eq!(trim_text("   "), "");
    assert_eq!(trim_text(""), "");
    assert_eq!(trim_text("abc"), "abc");
    assert_eq!(strip_marks("￥1,234,567"), "1234567");
    assert_eq!(strip_marks("1 000"), "1 000");
    assert!(white_space('\u{a0}'));
    assert!(!white_space('a'));
    for c in ['\t', '\n', ' ', '\u{85}', '\u{2003}', '\u{2028}', '\u{3000}', 'x', '\u{200b}'] {
        assert_eq!(white_space(c), c.is_whitespace());
    }
}

#[test]
fn dates() {
    let d = read_date(InvoiceField::OrderDate, "2025年08月31日".to_string()).unwrap();
    assert_eq!(d, Date { year: 2025, month: 8, day: 31 });
    assert_eq!(
        read_date(InvoiceField::ShippingDate, "2025/08/31".to_string()),
        Err(InvoiceError::DateFormatError { field: InvoiceField::ShippingDate, text: "2025/08/31".to_string() })
    );
    assert_eq!(
        read_date(InvoiceField::OrderDate, "2025年13月01日".to_string()),
        Err(InvoiceError::DateFormatError { field: InvoiceField::OrderDate, text: "2025年13月01日".to_string() })
    );
    let leap = read_date(InvoiceField::OrderDate, "2024年02月29日".to_string()).unwrap();
    assert_eq!(leap, Date { year: 2024, month: 2, day: 29 });
    assert_eq!(date_or_error(InvoiceField::OrderDate, "t".to_string(), Some(leap)), Ok(leap));
    assert_eq!(
        date_or_error(InvoiceField::OrderDate, "t".to_string(), None),
        Err(InvoiceError::DateFormatError { field: InvoiceField::OrderDate, text: "t".to_string() })
    );
}

#[test]
fn assembly_order() {
    let item = fields(Some("2"), Some("￥300")).unwrap();
    let missing_both = assemble_invoice(None, None, None, Ok(vec![]));
    assert_eq!(missing_both, Err(InvoiceError::MissingMandatoryField { field: InvoiceField::OrderDate }));
    let missing_id = assemble_invoice(None, Some("2025年08月31日".to_string()), None, Ok(vec![]));
    assert_eq!(missing_id, Err(InvoiceError::MissingMandatoryField { field: InvoiceField::OrderId }));
    let row_error = assemble_invoice(
        Some("EC".to_string()),
        Some("bad".to_string()),
        None,
        Err(InvoiceError::DegenerateQuantity { row: 1 }),
    );
    assert_eq!(row_error, Err(InvoiceError::DegenerateQuantity { row: 1 }));
    let unshipped = assemble_invoice(
        Some("EC".to_string()),
        Some("2025年08月31日".to_string()),
        None,
        Ok(vec![item.clone()]),
    )
    .unwrap();
    assert_eq!(unshipped.shipping_date, None);
    assert_eq!(unshipped.items, vec![item.clone()]);
    assert_eq!(unshipped.total_price(), 300);
    let shipped = assemble_invoice(
        Some("EC".to_string()),
        Some("2025年08月31日".to_string()),
        Some("2025年09月01日".to_string()),
        Ok(vec![item]),
    )
    .unwrap();
    assert_eq!(shipped.order_id, "EC");
    assert_eq!(shipped.order_date, Date { year: 2025, month: 8, day: 31 });
    assert_eq!(shipped.shipping_date, Some(Date { year: 2025, month: 9, day: 1 }));
}

#[test]
fn parts_make_an_invoice() {
    let d1 = Date { year: 2025, month: 8, day: 31 };
    let d2 = Date { year: 2025, month: 9, day: 1 };
    let bad_order = InvoiceError::DateFormatError { field: InvoiceField::OrderDate, text: "x".to_string() };
    let bad_ship = InvoiceError::DateFormatError { field: InvoiceField::ShippingDate, text: "y".to_string() };
    assert_eq!(
        invoice_from_parts("EC".to_string(), Err(bad_order.clone()), Some(Err(bad_ship.clone())), vec![]),
        Err(bad_order)
    );
    assert_eq!(invoice_from_parts("EC".to_string(), Ok(d1), Some(Err(bad_ship.clone())), vec![]), Err(bad_ship));
    let unshipped = invoice_from_parts("EC".to_string(), Ok(d1), None, vec![]).unwrap();
    assert_eq!(unshipped.shipping_date, None);
    assert_eq!(unshipped.order_date, d1);
    let shipped = invoice_from_parts("EC".to_string(), Ok(d1), Some(Ok(d2)), vec![]).unwrap();
    assert_eq!(shipped.shipping_date, Some(d2));
    assert_eq!(shipped.order_id, "EC");
}
