use duwet::keys::Command;
use duwet::model::{App, CategoryMode, CategoryRow, InventoryResult, TransactionRow, WarehouseRow, WhMode};
use duwet::ops::{
    apply_categories, apply_category_created, apply_category_deleted, apply_category_updated,
    apply_inventory, apply_login, apply_stock_in, apply_stock_out, apply_transactions, apply_warehouse_created,
    apply_warehouse_deleted, apply_warehouse_updated, apply_warehouses, create_category_request,
    create_warehouse_request, delete_category_request, delete_warehouse_request, login_result,
    stock_in_request, stock_out_request, update_category_request, update_warehouse_request,
    InventoryItem, InventoryReply, ListReply, LoginReply, WriteReply,
};

fn txn(id: i32) -> TransactionRow {
    TransactionRow {
        id,
        product_id: 1,
        warehouse_id: 2,
        delta_qty: String::from("5"),
        reference_id: None,
        notes: None,
        created_at: String::from("2026-01-02T03:04:05Z"),
        product_name: None,
        sku: None,
    }
}

#[test]
fn stock_in_request_reads_form() {
    let mut app = App::new();
    app.si_sku = String::from("PRD-001");
    app.si_qty = String::from("10");
    app.si_wh = String::from("3");
    app.si_ref = String::from("PO-1");
    let req = stock_in_request(&app);
    assert_eq!(req.token, "");
    assert_eq!(req.sku, "PRD-001");
    assert_eq!(req.quantity, 10);
    assert_eq!(req.warehouse_id, 3);
    assert_eq!(req.reference_id, "PO-1");
}

#[test]
fn stock_request_fallbacks() {
    let mut app = App::new();
    app.token = Some(String::from("abc"));
    app.so_qty = String::from("ten");
    app.so_wh = String::new();
    let req = stock_out_request(&app);
    assert_eq!(req.token, "abc");
    assert_eq!(req.quantity, 0);
    assert_eq!(req.warehouse_id, 1);
}

#[test]
fn stock_in_success_clears_form_but_warehouse() {
    let mut app = App::new();
    app.si_sku = String::from("PRD-001");
    app.si_qty = String::from("10");
    app.si_wh = String::from("1");
    app.si_ref = String::from("PO-2026-001");
    apply_stock_in(&mut app, 10, WriteReply::Done);
    assert_eq!(app.si_status, "OK: +10 PRD-001");
    assert_eq!((app.si_sku.as_str(), app.si_qty.as_str(), app.si_ref.as_str()), ("", "", ""));
    assert_eq!(app.si_wh, "1");
}

#[test]
fn stock_failures_keep_form() {
    let mut app = App::new();
    app.si_sku = String::from("X");
    apply_stock_in(&mut app, 1, WriteReply::Refused(String::from("insufficient")));
    assert_eq!(app.si_status, "ERR: insufficient");
    assert_eq!(app.si_sku, "X");
    apply_stock_out(&mut app, 1, WriteReply::Unreachable(String::from("timeout")));
    assert_eq!(app.so_status, "ERR: timeout");
}

#[test]
fn stock_out_success_reports_minus() {
    let mut app = App::new();
    app.so_sku = String::from("S");
    app.so_qty = String::from("3");
    apply_stock_out(&mut app, 3, WriteReply::Done);
    assert_eq!(app.so_status, "OK: -3 S");
    assert_eq!(app.so_qty, "");
    apply_stock_out(&mut app, -2, WriteReply::Done);
    assert_eq!(app.so_status, "OK: --2 ");
}

#[test]
fn inventory_first_item_with_defaults() {
    let mut app = App::new();
    let items = vec![
        InventoryItem {
            product_id: Some(4294967297),
            sku: None,
            name: Some(String::from("Apple")),
            real_qty: None,
        },
        InventoryItem { product_id: Some(9), sku: None, name: None, real_qty: None },
    ];
    apply_inventory(&mut app, InventoryReply::Items(items));
    let r = app.ck_result.clone().unwrap();
    assert_eq!(
        r,
        InventoryResult {
            product_id: 1,
            sku: String::from("-"),
            name: String::from("Apple"),
            real_qty: 0
        }
    );
    apply_inventory(&mut app, InventoryReply::Items(Vec::new()));
    assert!(app.ck_result.is_none());
}

#[test]
fn inventory_errors() {
    let mut app = App::new();
    apply_inventory(&mut app, InventoryReply::Refused);
    let r = app.ck_result.clone().unwrap();
    assert_eq!((r.sku.as_str(), r.name.as_str(), r.product_id, r.real_qty), ("ERR", "Not found or error", 0, 0));
    apply_inventory(&mut app, InventoryReply::Unreachable(String::from("refused")));
    let r = app.ck_result.clone().unwrap();
    assert_eq!((r.sku.as_str(), r.name.as_str()), ("ERR", "refused"));
}

#[test]
fn transactions_replies() {
    let mut app = App::new();
    app.txn_scroll = 4;
    apply_transactions(&mut app, ListReply::Rows(vec![txn(1), txn(2)]));
    assert_eq!(app.txn_rows.len(), 2);
    assert_eq!(app.txn_scroll, 0);
    assert_eq!(app.txn_status, "2 transactions");
    apply_transactions(&mut app, ListReply::Unparsable(String::from("bad json")));
    assert_eq!(app.txn_status, "Parse err: bad json");
    assert_eq!(app.txn_rows.len(), 2);
    apply_transactions(&mut app, ListReply::Refused(String::from("401 Unauthorized")));
    assert_eq!(app.txn_status, "HTTP 401 Unauthorized");
    apply_transactions(&mut app, ListReply::Unreachable(String::from("down")));
    assert_eq!(app.txn_status, "ERR: down");
}

#[test]
fn category_and_warehouse_lists() {
    let mut app = App::new();
    app.cat_scroll = 2;
    apply_categories(&mut app, ListReply::Rows(Vec::new()));
    assert_eq!(app.cat_status, "0 categories");
    assert_eq!(app.cat_scroll, 0);
    apply_categories(
        &mut app,
        ListReply::Rows(vec![CategoryRow { id: 1, name: String::from("a"), slug: String::from("a") }]),
    );
    assert_eq!(app.cat_status, "1 categories");
    apply_warehouses(
        &mut app,
        ListReply::Rows(vec![WarehouseRow { id: 1, name: String::from("w"), location: None }]),
    );
    assert_eq!(app.wh_status, "1 warehouses");
    apply_warehouses(&mut app, ListReply::Refused(String::from("500 Internal Server Error")));
    assert_eq!(app.wh_status, "HTTP 500 Internal Server Error");
    assert_eq!(app.wh_rows.len(), 1);
}

#[test]
fn blank_category_name_is_refused() {
    let mut app = App::new();
    app.cat_name = String::from("  \t ");
    assert!(create_category_request(&mut app).is_none());
    assert_eq!(app.cat_status, "ERR: Name required");
}

#[test]
fn category_create_request_trims() {
    let mut app = App::new();
    app.token = Some(String::from("t"));
    app.cat_name = String::from("  Fresh Fruit ");
    let req = create_category_request(&mut app).unwrap();
    assert_eq!(req.name, "Fresh Fruit");
    assert_eq!(req.token, "t");
    assert_eq!(app.cat_status, "");
    assert_eq!(app.cat_name, "  Fresh Fruit ");
}

#[test]
fn category_update_request_only_when_editing() {
    let mut app = App::new();
    app.cat_name = String::from("Veg");
    assert!(update_category_request(&mut app).is_none());
    assert_eq!(app.cat_status, "");
    app.cat_mode = CategoryMode::Edit(5);
    let (id, req) = update_category_request(&mut app).unwrap();
    assert_eq!((id, req.name.as_str()), (5, "Veg"));
    app.cat_name = String::new();
    assert!(update_category_request(&mut app).is_none());
    assert_eq!(app.cat_status, "ERR: Name required");
}

#[test]
fn delete_requests_need_confirmation() {
    let mut app = App::new();
    assert!(delete_category_request(&app).is_none());
    assert!(delete_warehouse_request(&app).is_none());
    app.cat_mode = CategoryMode::DeleteConfirm(6, String::from("x"));
    app.wh_mode = WhMode::DeleteConfirm(7, String::from("y"));
    assert_eq!(delete_category_request(&app).unwrap().id, 6);
    assert_eq!(delete_warehouse_request(&app).unwrap().id, 7);
}

#[test]
fn category_saved_and_deleted() {
    let mut app = App::new();
    app.cat_mode = CategoryMode::Create;
    app.cat_name = String::from("x");
    assert_eq!(apply_category_created(&mut app, WriteReply::Done), Command::FetchCategories);
    assert_eq!(app.cat_status, "Created");
    assert_eq!(app.cat_mode, CategoryMode::Browse);
    assert_eq!(app.cat_name, "");
    app.cat_mode = CategoryMode::Edit(1);
    app.cat_name = String::from("y");
    assert_eq!(
        apply_category_updated(&mut app, WriteReply::Refused(String::from("dup"))),
        Command::Idle
    );
    assert_eq!(app.cat_status, "ERR: dup");
    assert_eq!(app.cat_mode, CategoryMode::Edit(1));
    assert_eq!(apply_category_updated(&mut app, WriteReply::Done), Command::FetchCategories);
    assert_eq!(app.cat_status, "Updated");
    app.cat_mode = CategoryMode::DeleteConfirm(1, String::from("y"));
    app.cat_selected = Some(1);
    assert_eq!(apply_category_deleted(&mut app, WriteReply::Done), Command::FetchCategories);
    assert_eq!(app.cat_status, "Deleted");
    assert_eq!(app.cat_selected, None);
    assert_eq!(app.cat_mode, CategoryMode::Browse);
}

#[test]
fn warehouse_requests_and_replies() {
    let mut app = App::new();
    app.wh_name = String::new();
    assert!(create_warehouse_request(&mut app).is_none());
    assert_eq!(app.wh_status, "ERR: Name required");
    app.wh_name = String::from(" Cold ");
    app.wh_location = String::from(" North ");
    let req = create_warehouse_request(&mut app).unwrap();
    assert_eq!((req.name.as_str(), req.location.as_str()), ("Cold", "North"));
    assert!(update_warehouse_request(&mut app).is_none());
    app.wh_mode = WhMode::Edit(2);
    let (id, req) = update_warehouse_request(&mut app).unwrap();
    assert_eq!((id, req.name.as_str()), (2, "Cold"));
    assert_eq!(apply_warehouse_updated(&mut app, WriteReply::Done), Command::FetchWarehouses);
    assert_eq!((app.wh_name.as_str(), app.wh_location.as_str()), ("", ""));
    assert_eq!(app.wh_status, "Updated");
    assert_eq!(
        apply_warehouse_created(&mut app, WriteReply::Unreachable(String::from("x"))),
        Command::Idle
    );
    assert_eq!(app.wh_status, "ERR: x");
    app.wh_selected = Some(2);
    assert_eq!(apply_warehouse_deleted(&mut app, WriteReply::Done), Command::FetchWarehouses);
    assert_eq!(app.wh_selected, None);
    assert_eq!(app.wh_status, "Deleted");
}

#[test]
fn login_replies() {
    assert_eq!(login_result(LoginReply::Accepted(Some(String::from("jwt")))), Ok(String::from("jwt")));
    assert_eq!(login_result(LoginReply::Accepted(None)), Err(String::from("No token")));
    assert_eq!(
        login_result(LoginReply::Refused(String::from("401 Unauthorized"))),
        Err(String::from("Login failed: 401 Unauthorized"))
    );
    assert_eq!(login_result(LoginReply::Failed(String::from("dns"))), Err(String::from("dns")));
}

#[test]
fn accepted_login_stores_token() {
    let mut app = App::new();
    apply_login(&mut app, LoginReply::Accepted(Some(String::from("jwt"))));
    assert_eq!(app.token, Some(String::from("jwt")));
    assert_eq!(app.login_error, "");
}

#[test]
fn failed_login_shows_reason() {
    let mut app = App::new();
    apply_login(&mut app, LoginReply::Refused(String::from("401 Unauthorized")));
    assert!(app.token.is_none());
    assert_eq!(app.login_error, "Login failed: 401 Unauthorized");
    apply_login(&mut app, LoginReply::Accepted(None));
    assert_eq!(app.login_error, "No token");
}
