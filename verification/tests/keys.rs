use duwet::keys::{handle_login_key, pop_field, push_field, Command, Key};
use duwet::model::{
    App, CategoryMode, CategoryRow, FormFocus, InputMode, LoginFocus, WarehouseRow, WhFormFocus,
    WhMode,
};
use duwet::screens::{handle_key, handle_main_key};

fn logged_in() -> App {
    let mut app = App::new();
    app.token = Some(String::from("tok"));
    app
}

fn category(id: i32, name: &str) -> CategoryRow {
    CategoryRow { id, name: name.to_string(), slug: name.to_lowercase() }
}

fn warehouse(id: i32, name: &str, location: Option<&str>) -> WarehouseRow {
    WarehouseRow { id, name: name.to_string(), location: location.map(|l| l.to_string()) }
}

#[test]
fn new_app_starts_logged_out_on_first_screen() {
    let app = App::new();
    assert!(app.token.is_none());
    assert_eq!(app.active_tab, 0);
    assert_eq!(
        app.tabs,
        vec!["Stock In", "Stock Out", "Check", "Transactions", "Categories", "Warehouses"]
    );
    assert_eq!(app.login_focus, LoginFocus::Email);
    assert_eq!(app.si_focus, FormFocus::Sku);
    assert_eq!(app.input_mode, InputMode::Normal);
    assert_eq!(app.cat_mode, CategoryMode::Browse);
    assert_eq!(app.wh_mode, WhMode::Browse);
    assert_eq!(app.wh_focus, WhFormFocus::Name);
}

#[test]
fn push_field_goes_to_focus_only() {
    let (mut a, mut b, mut c, mut d) = (String::new(), String::new(), String::new(), String::new());
    push_field(&mut a, &mut b, &mut c, &mut d, &FormFocus::Qty, '4');
    push_field(&mut a, &mut b, &mut c, &mut d, &FormFocus::Reference, 'r');
    push_field(&mut a, &mut b, &mut c, &mut d, &FormFocus::Button, 'x');
    assert_eq!((a.as_str(), b.as_str(), c.as_str(), d.as_str()), ("", "4", "", "r"));
    push_field(&mut a, &mut b, &mut c, &mut d, &FormFocus::Sku, 's');
    push_field(&mut a, &mut b, &mut c, &mut d, &FormFocus::Warehouse, 'w');
    assert_eq!((a.as_str(), b.as_str(), c.as_str(), d.as_str()), ("s", "4", "w", "r"));
}

#[test]
fn pop_field_erases_focus_only() {
    let (mut a, mut b, mut c, mut d) =
        (String::from("ab"), String::from("12"), String::new(), String::from("x"));
    pop_field(&mut a, &mut b, &mut c, &mut d, &FormFocus::Sku);
    pop_field(&mut a, &mut b, &mut c, &mut d, &FormFocus::Warehouse);
    pop_field(&mut a, &mut b, &mut c, &mut d, &FormFocus::Button);
    assert_eq!((a.as_str(), b.as_str(), c.as_str(), d.as_str()), ("a", "12", "", "x"));
}

#[test]
fn login_tab_cycles() {
    let mut app = App::new();
    assert_eq!(handle_login_key(&mut app, Key::Tab), Command::Idle);
    assert_eq!(app.login_focus, LoginFocus::Password);
    handle_login_key(&mut app, Key::Tab);
    assert_eq!(app.login_focus, LoginFocus::Button);
    handle_login_key(&mut app, Key::Tab);
    assert_eq!(app.login_focus, LoginFocus::Email);
    handle_login_key(&mut app, Key::BackTab);
    assert_eq!(app.login_focus, LoginFocus::Button);
    handle_login_key(&mut app, Key::Tab);
    assert_eq!(app.login_focus, LoginFocus::Email);
}

#[test]
fn login_typing_and_erasing() {
    let mut app = App::new();
    for c in "me@x".chars() {
        handle_login_key(&mut app, Key::Char(c));
    }
    handle_login_key(&mut app, Key::Tab);
    handle_login_key(&mut app, Key::Char('p'));
    handle_login_key(&mut app, Key::Char('w'));
    handle_login_key(&mut app, Key::Backspace);
    assert_eq!(app.login_email, "me@x");
    assert_eq!(app.login_password, "p");
    handle_login_key(&mut app, Key::Tab);
    handle_login_key(&mut app, Key::Char('z'));
    handle_login_key(&mut app, Key::Backspace);
    assert_eq!(app.login_email, "me@x");
    assert_eq!(app.login_password, "p");
}

#[test]
fn login_enter_needs_button_and_both_fields() {
    let mut app = App::new();
    app.login_error = String::from("old");
    app.login_email = String::from("a");
    app.login_focus = LoginFocus::Button;
    assert_eq!(handle_login_key(&mut app, Key::Enter), Command::Idle);
    assert_eq!(app.login_error, "old");
    app.login_password = String::from("b");
    app.login_focus = LoginFocus::Password;
    assert_eq!(handle_login_key(&mut app, Key::Enter), Command::Idle);
    app.login_focus = LoginFocus::Button;
    assert_eq!(handle_login_key(&mut app, Key::Enter), Command::Login);
    assert_eq!(app.login_error, "");
}

#[test]
fn login_esc_clears_both_fields() {
    let mut app = App::new();
    app.login_email = String::from("a");
    app.login_password = String::from("b");
    handle_login_key(&mut app, Key::Esc);
    assert_eq!(app.login_email, "");
    assert_eq!(app.login_password, "");
}

#[test]
fn keys_go_to_login_until_token() {
    let mut app = App::new();
    assert_eq!(handle_key(&mut app, Key::Char('2')), Command::Idle);
    assert_eq!(app.active_tab, 0);
    assert_eq!(app.login_email, "2");
    let mut app = logged_in();
    handle_key(&mut app, Key::Char('2'));
    assert_eq!(app.active_tab, 1);
    assert_eq!(app.login_email, "");
}

#[test]
fn digit_keys_select_screens() {
    let mut app = logged_in();
    for (c, t) in [('1', 0), ('2', 1), ('3', 2), ('4', 3)] {
        assert_eq!(handle_main_key(&mut app, Key::Char(c)), Command::Idle);
        assert_eq!(app.active_tab, t);
    }
    assert_eq!(handle_main_key(&mut app, Key::Char('5')), Command::FetchCategories);
    assert_eq!(app.active_tab, 4);
    assert_eq!(handle_main_key(&mut app, Key::Char('6')), Command::FetchWarehouses);
    assert_eq!(app.active_tab, 5);
    app.cat_rows = vec![category(1, "Fruit")];
    app.wh_rows = vec![warehouse(1, "Main", None)];
    assert_eq!(handle_main_key(&mut app, Key::Char('5')), Command::Idle);
    assert_eq!(handle_main_key(&mut app, Key::Char('6')), Command::Idle);
}

#[test]
fn digits_switch_screens_until_typing() {
    let mut app = logged_in();
    app.si_focus = FormFocus::Qty;
    handle_main_key(&mut app, Key::Char('2'));
    assert_eq!(app.active_tab, 1);
    handle_main_key(&mut app, Key::Char('1'));
    assert_eq!(app.active_tab, 0);
    assert_eq!(app.si_qty, "");
    handle_main_key(&mut app, Key::Char('0'));
    assert_eq!(app.input_mode, InputMode::Editing);
    handle_main_key(&mut app, Key::Char('5'));
    assert_eq!(app.si_qty, "05");
    assert_eq!(app.active_tab, 0);
    handle_main_key(&mut app, Key::Esc);
    handle_main_key(&mut app, Key::Char('3'));
    assert_eq!(app.active_tab, 2);
}

#[test]
fn quantity_typed_after_tab() {
    let mut app = logged_in();
    handle_main_key(&mut app, Key::Tab);
    assert_eq!(app.si_focus, FormFocus::Qty);
    handle_main_key(&mut app, Key::Char('1'));
    handle_main_key(&mut app, Key::Char('0'));
    assert_eq!(app.si_qty, "10");
    assert_eq!(app.active_tab, 0);
}

#[test]
fn digits_on_button_or_lists_switch_screens() {
    let mut app = logged_in();
    app.input_mode = InputMode::Editing;
    app.si_focus = FormFocus::Button;
    handle_main_key(&mut app, Key::Char('4'));
    assert_eq!(app.active_tab, 3);
    handle_main_key(&mut app, Key::Char('5'));
    assert_eq!(app.active_tab, 4);
    app.cat_mode = CategoryMode::Create;
    handle_main_key(&mut app, Key::Char('6'));
    assert_eq!(app.active_tab, 4);
    assert_eq!(app.cat_name, "6");
}

#[test]
fn rows_reached_with_arrows_open_for_edit_and_delete() {
    let mut app = logged_in();
    app.active_tab = 4;
    app.cat_rows = vec![category(3, "Fruit"), category(7, "Veg")];
    handle_main_key(&mut app, Key::Down);
    assert_eq!(app.cat_scroll, 1);
    assert_eq!(app.cat_selected, None);
    assert_eq!(handle_main_key(&mut app, Key::Enter), Command::Idle);
    assert_eq!(app.cat_mode, CategoryMode::Edit(7));
    assert_eq!(app.cat_name, "Veg");
    handle_main_key(&mut app, Key::Esc);
    handle_main_key(&mut app, Key::Up);
    assert_eq!(app.cat_scroll, 0);
    handle_main_key(&mut app, Key::Char('d'));
    assert_eq!(app.cat_mode, CategoryMode::DeleteConfirm(3, String::from("Fruit")));
    assert_eq!(handle_main_key(&mut app, Key::Enter), Command::DeleteCategory);
}

#[test]
fn scrolled_past_the_end_opens_nothing() {
    let mut app = logged_in();
    app.active_tab = 5;
    app.wh_rows = vec![warehouse(1, "Main", None)];
    handle_main_key(&mut app, Key::Down);
    assert_eq!(app.wh_scroll, 1);
    assert_eq!(handle_main_key(&mut app, Key::Enter), Command::Idle);
    assert_eq!(app.wh_mode, WhMode::Browse);
    handle_main_key(&mut app, Key::Char('d'));
    assert_eq!(app.wh_mode, WhMode::Browse);
    handle_main_key(&mut app, Key::Up);
    handle_main_key(&mut app, Key::Enter);
    assert_eq!(app.wh_mode, WhMode::Edit(1));
}

#[test]
fn any_category_opens_from_any_screen() {
    let mut app = logged_in();
    app.cat_rows = vec![category(1, "A"), category(2, "B"), category(2, "C")];
    app.active_tab = 1;
    app.so_focus = FormFocus::Qty;
    app.input_mode = InputMode::Editing;
    for n in 0..3 {
        let mut a = app.clone();
        assert_eq!(handle_main_key(&mut a, Key::Esc), Command::Idle);
        assert_eq!(handle_main_key(&mut a, Key::Char('5')), Command::Idle);
        handle_main_key(&mut a, Key::Esc);
        for _ in 0..a.cat_scroll {
            handle_main_key(&mut a, Key::Up);
        }
        for _ in 0..n {
            handle_main_key(&mut a, Key::Down);
        }
        let mut e = a.clone();
        handle_main_key(&mut e, Key::Enter);
        assert_eq!(e.cat_mode, CategoryMode::Edit(app.cat_rows[n].id));
        assert_eq!(e.cat_name, app.cat_rows[n].name);
        handle_main_key(&mut a, Key::Char('d'));
        assert_eq!(
            a.cat_mode,
            CategoryMode::DeleteConfirm(app.cat_rows[n].id, app.cat_rows[n].name.clone())
        );
    }
}

#[test]
fn form_tab_and_back_tab() {
    let mut app = logged_in();
    handle_main_key(&mut app, Key::Tab);
    assert_eq!(app.input_mode, InputMode::Editing);
    assert_eq!(app.si_focus, FormFocus::Qty);
    for _ in 0..4 {
        handle_main_key(&mut app, Key::Tab);
    }
    assert_eq!(app.si_focus, FormFocus::Sku);
    handle_main_key(&mut app, Key::BackTab);
    assert_eq!(app.si_focus, FormFocus::Button);
    app.active_tab = 1;
    handle_main_key(&mut app, Key::BackTab);
    assert_eq!(app.so_focus, FormFocus::Button);
    assert_eq!(app.si_focus, FormFocus::Button);
}

#[test]
fn warehouse_tab_toggles_field() {
    let mut app = logged_in();
    app.active_tab = 5;
    handle_main_key(&mut app, Key::Tab);
    assert_eq!(app.wh_focus, WhFormFocus::Location);
    handle_main_key(&mut app, Key::BackTab);
    assert_eq!(app.wh_focus, WhFormFocus::Name);
}

#[test]
fn tab_on_other_screens_only_switches_mode() {
    let mut app = logged_in();
    app.active_tab = 2;
    handle_main_key(&mut app, Key::Tab);
    assert_eq!(app.input_mode, InputMode::Editing);
    assert_eq!(app.si_focus, FormFocus::Sku);
    assert_eq!(app.so_focus, FormFocus::Sku);
}

#[test]
fn enter_on_stock_forms_submits_from_button() {
    let mut app = logged_in();
    assert_eq!(handle_main_key(&mut app, Key::Enter), Command::Idle);
    app.si_focus = FormFocus::Button;
    assert_eq!(handle_main_key(&mut app, Key::Enter), Command::StockIn);
    app.active_tab = 1;
    assert_eq!(handle_main_key(&mut app, Key::Enter), Command::Idle);
    app.so_focus = FormFocus::Button;
    assert_eq!(handle_main_key(&mut app, Key::Enter), Command::StockOut);
    app.active_tab = 2;
    assert_eq!(handle_main_key(&mut app, Key::Enter), Command::CheckInventory);
    app.active_tab = 3;
    assert_eq!(handle_main_key(&mut app, Key::Enter), Command::FetchTransactions);
}

#[test]
fn enter_on_categories() {
    let mut app = logged_in();
    app.active_tab = 4;
    assert_eq!(handle_main_key(&mut app, Key::Enter), Command::FetchCategories);
    app.cat_rows = vec![category(3, "Fruit"), category(7, "Veg"), category(7, "Other")];
    app.cat_scroll = 5;
    assert_eq!(handle_main_key(&mut app, Key::Enter), Command::Idle);
    assert_eq!(app.cat_mode, CategoryMode::Browse);
    app.cat_scroll = 2;
    assert_eq!(handle_main_key(&mut app, Key::Enter), Command::Idle);
    assert_eq!(app.cat_mode, CategoryMode::Edit(7));
    assert_eq!(app.cat_name, "Other");
    assert_eq!(app.cat_selected, Some(7));
    assert_eq!(handle_main_key(&mut app, Key::Enter), Command::UpdateCategory);
    app.cat_mode = CategoryMode::Create;
    assert_eq!(handle_main_key(&mut app, Key::Enter), Command::CreateCategory);
    app.cat_mode = CategoryMode::DeleteConfirm(3, String::from("Fruit"));
    assert_eq!(handle_main_key(&mut app, Key::Enter), Command::DeleteCategory);
}

#[test]
fn enter_on_warehouses() {
    let mut app = logged_in();
    app.active_tab = 5;
    assert_eq!(handle_main_key(&mut app, Key::Enter), Command::FetchWarehouses);
    app.wh_rows = vec![warehouse(1, "Main", Some("Dock")), warehouse(2, "Back", None)];
    assert_eq!(handle_main_key(&mut app, Key::Enter), Command::Idle);
    assert_eq!(app.wh_mode, WhMode::Edit(1));
    assert_eq!(app.wh_name, "Main");
    assert_eq!(app.wh_location, "Dock");
    app.wh_mode = WhMode::Browse;
    app.wh_scroll = 1;
    handle_main_key(&mut app, Key::Enter);
    assert_eq!(app.wh_mode, WhMode::Edit(2));
    assert_eq!(app.wh_location, "");
    assert_eq!(handle_main_key(&mut app, Key::Enter), Command::UpdateWarehouse);
    app.wh_mode = WhMode::Create;
    assert_eq!(handle_main_key(&mut app, Key::Enter), Command::CreateWarehouse);
    app.wh_mode = WhMode::DeleteConfirm(2, String::from("Back"));
    assert_eq!(handle_main_key(&mut app, Key::Enter), Command::DeleteWarehouse);
}

#[test]
fn esc_resets_lists_and_mode() {
    let mut app = logged_in();
    app.active_tab = 4;
    app.input_mode = InputMode::Editing;
    app.cat_mode = CategoryMode::Edit(2);
    app.cat_name = String::from("x");
    handle_main_key(&mut app, Key::Esc);
    assert_eq!(app.input_mode, InputMode::Normal);
    assert_eq!(app.cat_mode, CategoryMode::Browse);
    assert_eq!(app.cat_name, "");
    app.active_tab = 5;
    app.wh_mode = WhMode::Create;
    app.wh_name = String::from("n");
    app.wh_location = String::from("l");
    handle_main_key(&mut app, Key::Esc);
    assert_eq!(app.wh_mode, WhMode::Browse);
    assert_eq!((app.wh_name.as_str(), app.wh_location.as_str()), ("", ""));
    app.active_tab = 0;
    app.si_sku = String::from("keep");
    handle_main_key(&mut app, Key::Esc);
    assert_eq!(app.si_sku, "keep");
}

#[test]
fn scrolling_lists() {
    let mut app = logged_in();
    app.active_tab = 3;
    handle_main_key(&mut app, Key::Up);
    assert_eq!(app.txn_scroll, 0);
    handle_main_key(&mut app, Key::Down);
    handle_main_key(&mut app, Key::Down);
    assert_eq!(app.txn_scroll, 2);
    handle_main_key(&mut app, Key::Up);
    assert_eq!(app.txn_scroll, 1);
    app.active_tab = 4;
    handle_main_key(&mut app, Key::Down);
    assert_eq!((app.txn_scroll, app.cat_scroll, app.wh_scroll), (1, 1, 0));
    app.active_tab = 5;
    handle_main_key(&mut app, Key::Down);
    handle_main_key(&mut app, Key::Up);
    assert_eq!(app.wh_scroll, 0);
    app.active_tab = 0;
    handle_main_key(&mut app, Key::Down);
    assert_eq!((app.txn_scroll, app.cat_scroll, app.wh_scroll), (1, 1, 0));
}

#[test]
fn typing_into_forms() {
    let mut app = logged_in();
    handle_main_key(&mut app, Key::Char('A'));
    assert_eq!(app.si_sku, "A");
    assert_eq!(app.input_mode, InputMode::Editing);
    handle_main_key(&mut app, Key::Backspace);
    assert_eq!(app.si_sku, "");
    app.active_tab = 1;
    app.so_focus = FormFocus::Reference;
    handle_main_key(&mut app, Key::Char('R'));
    assert_eq!(app.so_ref, "R");
    app.active_tab = 2;
    handle_main_key(&mut app, Key::Char('P'));
    handle_main_key(&mut app, Key::Char('Q'));
    handle_main_key(&mut app, Key::Backspace);
    assert_eq!(app.ck_sku, "P");
    app.active_tab = 3;
    handle_main_key(&mut app, Key::Char('z'));
    assert_eq!(app.si_sku, "");
}

#[test]
fn categories_keys_open_forms_and_confirmations() {
    let mut app = logged_in();
    app.active_tab = 4;
    app.cat_name = String::from("stale");
    handle_main_key(&mut app, Key::Char('n'));
    assert_eq!(app.cat_mode, CategoryMode::Create);
    assert_eq!(app.cat_name, "");
    handle_main_key(&mut app, Key::Char('d'));
    assert_eq!(app.cat_name, "d");
    app.cat_mode = CategoryMode::Browse;
    handle_main_key(&mut app, Key::Char('d'));
    assert_eq!(app.cat_mode, CategoryMode::Browse);
    app.cat_rows = vec![category(4, "Dairy")];
    handle_main_key(&mut app, Key::Char('d'));
    assert_eq!(app.cat_mode, CategoryMode::DeleteConfirm(4, String::from("Dairy")));
    assert_eq!(app.cat_selected, Some(4));
    handle_main_key(&mut app, Key::Char('x'));
    assert_eq!(app.cat_mode, CategoryMode::DeleteConfirm(4, String::from("Dairy")));
}

#[test]
fn backspace_on_categories_erases_name_in_any_mode() {
    let mut app = logged_in();
    app.active_tab = 4;
    app.cat_name = String::from("ab");
    handle_main_key(&mut app, Key::Backspace);
    assert_eq!(app.cat_name, "a");
}

#[test]
fn warehouses_keys_edit_focused_field() {
    let mut app = logged_in();
    app.active_tab = 5;
    handle_main_key(&mut app, Key::Char('n'));
    assert_eq!(app.wh_mode, WhMode::Create);
    handle_main_key(&mut app, Key::Char('N'));
    handle_main_key(&mut app, Key::Tab);
    handle_main_key(&mut app, Key::Char('L'));
    handle_main_key(&mut app, Key::Char('M'));
    handle_main_key(&mut app, Key::Backspace);
    assert_eq!((app.wh_name.as_str(), app.wh_location.as_str()), ("N", "L"));
    app.wh_mode = WhMode::Browse;
    app.wh_rows = vec![warehouse(8, "Cold", None)];
    handle_main_key(&mut app, Key::Char('d'));
    assert_eq!(app.wh_mode, WhMode::DeleteConfirm(8, String::from("Cold")));
}

#[test]
fn other_keys_change_nothing() {
    let mut app = logged_in();
    app.si_sku = String::from("s");
    assert_eq!(handle_main_key(&mut app, Key::Other), Command::Idle);
    assert_eq!(app.si_sku, "s");
    assert_eq!(app.input_mode, InputMode::Normal);
}

#[test]
fn login_submission_does_not_log_in() {
    let mut app = App::new();
    app.login_email = String::from("a@b");
    app.login_password = String::from("pw");
    app.login_focus = LoginFocus::Button;
    assert_eq!(handle_key(&mut app, Key::Enter), Command::Login);
    assert!(app.token.is_none());
    assert_eq!(handle_key(&mut app, Key::Char('1')), Command::Idle);
    assert_eq!(app.active_tab, 0);
}
