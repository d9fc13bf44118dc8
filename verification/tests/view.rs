use duwet::ops::{apply_stock_in, apply_transactions, ListReply, WriteReply};
use duwet::layout::{centered_rect, centering_percentages, Area};
use duwet::model::{App, CategoryMode, CategoryRow, FormFocus, InventoryResult, TransactionRow, WarehouseRow, WhMode};
use duwet::view::{
    category_cells, category_screen, form_status_tone, inventory_lines, list_status_tone,
    masked_password, starts_with, stock_in_fields, stock_out_fields, tab_titles,
    transaction_cells, warehouse_cells, warehouse_screen, ListScreen, Tone,
};

#[test]
fn prefixes() {
    assert!(starts_with("OK: +1", "OK"));
    assert!(starts_with("abc", ""));
    assert!(!starts_with("O", "OK"));
    assert!(!starts_with("ERR", "ERX"));
}

#[test]
fn form_tones() {
    assert_eq!(form_status_tone("OK: +10 PRD-001"), Tone::Success);
    assert_eq!(form_status_tone("ERR: nope"), Tone::Failure);
    assert_eq!(form_status_tone(""), Tone::Muted);
    assert_eq!(form_status_tone("Okay"), Tone::Muted);
}

#[test]
fn list_tones() {
    assert_eq!(list_status_tone("ERR: down"), Tone::Failure);
    assert_eq!(list_status_tone("Parse err: x"), Tone::Success);
    assert_eq!(list_status_tone("3 categories"), Tone::Success);
    assert_eq!(list_status_tone(""), Tone::Plain);
}

#[test]
fn password_is_masked() {
    assert_eq!(masked_password("abc"), "•••");
    assert_eq!(masked_password(""), "");
    assert_eq!(masked_password("pä"), "••");
}

#[test]
fn tab_bar_titles() {
    let app = App::new();
    let titles = tab_titles(&app);
    assert_eq!(
        titles,
        vec![
            " Stock In [0] ",
            " Stock Out [1] ",
            " Check [2] ",
            " Transactions [3] ",
            " Categories [4] ",
            " Warehouses [5] "
        ]
    );
}

#[test]
fn stock_fields_highlight_focus() {
    let mut app = App::new();
    app.si_qty = String::from("12");
    app.si_focus = FormFocus::Qty;
    let f = stock_in_fields(&app);
    let labels: Vec<&str> = f.iter().map(|x| x.label.as_str()).collect();
    assert_eq!(labels, vec!["SKU", "Quantity", "Warehouse ID", "Reference"]);
    assert_eq!(f[1].value, "12");
    let focused: Vec<bool> = f.iter().map(|x| x.focused).collect();
    assert_eq!(focused, vec![false, true, false, false]);
    app.so_focus = FormFocus::Button;
    assert!(stock_out_fields(&app).iter().all(|x| !x.focused));
}

#[test]
fn inventory_result_lines() {
    let r = InventoryResult {
        product_id: 42,
        sku: String::from("PRD-001"),
        name: String::from("Apple"),
        real_qty: -3,
    };
    assert_eq!(
        inventory_lines(&r),
        vec![
            "  Product ID : 42",
            "  SKU        : PRD-001",
            "  Name       : Apple",
            "",
            "  Stock      : -3 pcs"
        ]
    );
}

#[test]
fn transaction_row_cells() {
    let row = TransactionRow {
        id: 1,
        product_id: 2,
        warehouse_id: 3,
        delta_qty: String::from("-4"),
        reference_id: Some(String::from("SO-9")),
        notes: None,
        created_at: String::from("2026-01-02T03:04:05.123456Z"),
        product_name: None,
        sku: None,
    };
    assert_eq!(transaction_cells(&row), vec!["2026-01-02T03:04:05", "-", "-4", "SO-9", "3"]);
}

#[test]
fn list_row_cells() {
    let c = CategoryRow { id: 7, name: String::from("Fruit"), slug: String::from("fruit") };
    assert_eq!(category_cells(&c), vec!["7", "Fruit", "fruit"]);
    let w = WarehouseRow { id: -1, name: String::from("Main"), location: None };
    assert_eq!(warehouse_cells(&w), vec!["-1", "Main", "-"]);
    let w = WarehouseRow { id: 2, name: String::from("B"), location: Some(String::from("Dock")) };
    assert_eq!(warehouse_cells(&w)[2], "Dock");
}

#[test]
fn category_screens() {
    let mut app = App::new();
    assert!(matches!(category_screen(&app), ListScreen::Hint));
    app.cat_rows = vec![CategoryRow { id: 1, name: String::from("a"), slug: String::from("a") }];
    app.cat_scroll = 3;
    assert!(matches!(category_screen(&app), ListScreen::Table { offset: 3 }));
    app.cat_mode = CategoryMode::Create;
    assert!(matches!(category_screen(&app), ListScreen::Form { editing: false }));
    app.cat_mode = CategoryMode::Edit(1);
    assert!(matches!(category_screen(&app), ListScreen::Form { editing: true }));
    app.cat_mode = CategoryMode::DeleteConfirm(1, String::from("Fruit"));
    match category_screen(&app) {
        ListScreen::Confirm { message } => assert_eq!(
            message,
            " Delete category \"Fruit\"?\n\n This will fail if products still reference it."
        ),
        _ => panic!("expected a confirmation"),
    }
}

#[test]
fn warehouse_screens() {
    let mut app = App::new();
    assert!(matches!(warehouse_screen(&app), ListScreen::Hint));
    app.wh_mode = WhMode::DeleteConfirm(1, String::from("Cold"));
    match warehouse_screen(&app) {
        ListScreen::Confirm { message } => assert_eq!(
            message,
            " Delete warehouse \"Cold\"?\n\n This will fail if inventory/transactions still reference it."
        ),
        _ => panic!("expected a confirmation"),
    }
    app.wh_mode = WhMode::Edit(1);
    assert!(matches!(warehouse_screen(&app), ListScreen::Form { editing: true }));
}

#[test]
fn centering_margins() {
    assert_eq!(centering_percentages(40), (30, 40, 30));
    assert_eq!(centering_percentages(50), (25, 50, 25));
    assert_eq!(centering_percentages(100), (0, 100, 0));
    assert_eq!(centering_percentages(0), (50, 0, 50));
    assert_eq!(centering_percentages(45), (27, 45, 27));
}

#[test]
fn popup_is_centered() {
    let r = Area { x: 0, y: 0, width: 100, height: 50 };
    assert_eq!(centered_rect(50, 40, r), Area { x: 25, y: 15, width: 50, height: 20 });
    let r = Area { x: 10, y: 5, width: 80, height: 20 };
    assert_eq!(centered_rect(40, 20, r), Area { x: 34, y: 13, width: 32, height: 4 });
}

#[test]
fn stock_reply_colours_status() {
    let mut app = App::new();
    app.si_sku = String::from("A");
    apply_stock_in(&mut app, 2, WriteReply::Done);
    assert_eq!(form_status_tone(&app.si_status), Tone::Success);
    apply_stock_in(&mut app, 2, WriteReply::Refused(String::from("OK")));
    assert_eq!(app.si_status, "ERR: OK");
    assert_eq!(form_status_tone(&app.si_status), Tone::Failure);
}

#[test]
fn list_reply_colours_status() {
    let mut app = App::new();
    apply_transactions(&mut app, ListReply::Refused(String::from("ERR")));
    assert_eq!(list_status_tone(&app.txn_status), Tone::Success);
    apply_transactions(&mut app, ListReply::Unreachable(String::from("x")));
    assert_eq!(list_status_tone(&app.txn_status), Tone::Failure);
}

fn cut_at(extent: u16, share: u32) -> u16 {
    ((extent as u32 * share + 50) / 100) as u16
}

#[test]
fn popup_follows_rounded_percentages() {
    for px in [0u16, 1, 13, 27, 40, 45, 50, 63, 99, 100] {
        for py in [0u16, 7, 20, 33, 40, 51, 100] {
            for (x, y, w, h) in [(0u16, 0u16, 100u16, 50u16), (3, 9, 37, 17), (0, 0, 211, 63), (10, 5, 1, 2), (7, 1, 0, 0), (100, 200, 999, 333), (0, 0, 65535, 65535)] {
                let r = Area { x, y, width: w, height: h };
                let sx = ((100 - px) / 2) as u32;
                let sy = ((100 - py) / 2) as u32;
                let expected = Area {
                    x: x + cut_at(w, sx),
                    y: y + cut_at(h, sy),
                    width: cut_at(w, sx + px as u32) - cut_at(w, sx),
                    height: cut_at(h, sy + py as u32) - cut_at(h, sy),
                };
                assert_eq!(centered_rect(px, py, r), expected, "{:?} {} {}", r, px, py);
            }
        }
    }
}
