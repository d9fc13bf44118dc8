//! What each key and each reply does to the fields it is about, stated
//! directly in terms of the key, the reply and the state before.
use vstd::prelude::*;
use crate::keys::{login_step, Command, Key};
use crate::view::{
    category_screen_shown, fields_shown, form_tone, has_prefix, inventory_text, list_tone,
    tab_title_text, warehouse_screen_shown, FieldView, ListScreen, Tone,
};
use crate::model::{
    App, AppView, InventoryResult, CategoryMode, CategoryRow, FormFocus, InputMode, LoginFocus, TransactionRow,
    WarehouseRow, WhFormFocus, WhMode,
};
use crate::ops::{
    category_deleted, category_name_missing, category_name_ok, category_saved, token_text,
    warehouse_deleted, warehouse_name_missing, warehouse_name_ok, warehouse_request_matches,
    warehouse_saved, WarehouseRequest,
    categories_applied, inventory_shown, login_applied, stock_in_applied, stock_out_applied,
    transactions_applied, warehouses_applied, InventoryItem, InventoryReply, ListReply,
    LoginReply, WriteReply,
};
use crate::layout::{cut_offset, part_along};
use crate::model::initial_state;
use crate::screens::{main_step, switch_of};
use crate::text::{
    all_digits, decimal, digits_value, int_text, is_digit, is_white_space, parsed_i32, parsed_i32_or,
    trim_end, trim_start, trimmed,
};

verus! {

/// A character that selects no screen is typed into exactly the field that
/// has the focus, and every other field of every form keeps its text.
pub proof fn typing_reaches_focused_field(s: AppView, c: char)
    requires
        switch_of(s, c) is None,
    ensures
        ({
            let t = main_step(s, Key::Char(c)).0;
            &&& main_step(s, Key::Char(c)).1 == Command::Idle
            &&& t.input_mode == InputMode::Editing
            &&& s.active_tab == 0 ==> {
                &&& t.si_sku == (if s.si_focus == FormFocus::Sku {
                    s.si_sku.push(c)
                } else {
                    s.si_sku
                })
                &&& t.si_qty == (if s.si_focus == FormFocus::Qty {
                    s.si_qty.push(c)
                } else {
                    s.si_qty
                })
                &&& t.si_wh == (if s.si_focus == FormFocus::Warehouse {
                    s.si_wh.push(c)
                } else {
                    s.si_wh
                })
                &&& t.si_ref == (if s.si_focus == FormFocus::Reference {
                    s.si_ref.push(c)
                } else {
                    s.si_ref
                })
                &&& t.so_sku == s.so_sku && t.so_qty == s.so_qty && t.so_wh == s.so_wh
                    && t.so_ref == s.so_ref && t.ck_sku == s.ck_sku
            }
            &&& s.active_tab == 1 ==> {
                &&& t.so_sku == (if s.so_focus == FormFocus::Sku {
                    s.so_sku.push(c)
                } else {
                    s.so_sku
                })
                &&& t.so_qty == (if s.so_focus == FormFocus::Qty {
                    s.so_qty.push(c)
                } else {
                    s.so_qty
                })
                &&& t.so_wh == (if s.so_focus == FormFocus::Warehouse {
                    s.so_wh.push(c)
                } else {
                    s.so_wh
                })
                &&& t.so_ref == (if s.so_focus == FormFocus::Reference {
                    s.so_ref.push(c)
                } else {
                    s.so_ref
                })
                &&& t.si_sku == s.si_sku && t.si_qty == s.si_qty && t.si_wh == s.si_wh
                    && t.si_ref == s.si_ref && t.ck_sku == s.ck_sku
            }
            &&& s.active_tab == 2 ==> t.ck_sku == s.ck_sku.push(c) && t.si_qty == s.si_qty
                && t.so_qty == s.so_qty
            &&& s.active_tab == 4 && (s.cat_mode is Create || s.cat_mode is Edit) ==> t.cat_name
                == s.cat_name.push(c) && t.cat_mode == s.cat_mode
            &&& s.active_tab == 5 && (s.wh_mode is Create || s.wh_mode is Edit) ==> {
                &&& t.wh_name == (if s.wh_focus == WhFormFocus::Name {
                    s.wh_name.push(c)
                } else {
                    s.wh_name
                })
                &&& t.wh_location == (if s.wh_focus == WhFormFocus::Location {
                    s.wh_location.push(c)
                } else {
                    s.wh_location
                })
                &&& t.wh_mode == s.wh_mode
            }
        }),
{
}

/// `t` without its last character, or `t` itself when it is empty.
pub open spec fn erased(t: Seq<char>) -> Seq<char> {
    if t.len() > 0 {
        t.subrange(0, t.len() - 1)
    } else {
        t
    }
}

/// Backspace erases the last character of exactly the field that has the
/// focus, and every other field of every form keeps its text.
pub proof fn backspace_reaches_focused_field(s: AppView)
    ensures
        ({
            let t = main_step(s, Key::Backspace).0;
            &&& main_step(s, Key::Backspace).1 == Command::Idle
            &&& t.input_mode == s.input_mode
            &&& s.active_tab == 0 ==> {
                &&& t.si_sku == (if s.si_focus == FormFocus::Sku {
                    erased(s.si_sku)
                } else {
                    s.si_sku
                })
                &&& t.si_qty == (if s.si_focus == FormFocus::Qty {
                    erased(s.si_qty)
                } else {
                    s.si_qty
                })
                &&& t.si_wh == (if s.si_focus == FormFocus::Warehouse {
                    erased(s.si_wh)
                } else {
                    s.si_wh
                })
                &&& t.si_ref == (if s.si_focus == FormFocus::Reference {
                    erased(s.si_ref)
                } else {
                    s.si_ref
                })
                &&& t.so_qty == s.so_qty && t.so_wh == s.so_wh
            }
            &&& s.active_tab == 1 ==> {
                &&& t.so_sku == (if s.so_focus == FormFocus::Sku {
                    erased(s.so_sku)
                } else {
                    s.so_sku
                })
                &&& t.so_qty == (if s.so_focus == FormFocus::Qty {
                    erased(s.so_qty)
                } else {
                    s.so_qty
                })
                &&& t.so_wh == (if s.so_focus == FormFocus::Warehouse {
                    erased(s.so_wh)
                } else {
                    s.so_wh
                })
                &&& t.so_ref == (if s.so_focus == FormFocus::Reference {
                    erased(s.so_ref)
                } else {
                    s.so_ref
                })
                &&& t.si_qty == s.si_qty && t.si_wh == s.si_wh
            }
            &&& s.active_tab == 2 ==> t.ck_sku == erased(s.ck_sku)
            &&& s.active_tab == 4 ==> t.cat_name == erased(s.cat_name)
            &&& s.active_tab == 5 ==> {
                &&& t.wh_name == (if s.wh_focus == WhFormFocus::Name {
                    erased(s.wh_name)
                } else {
                    s.wh_name
                })
                &&& t.wh_location == (if s.wh_focus == WhFormFocus::Location {
                    erased(s.wh_location)
                } else {
                    s.wh_location
                })
            }
        }),
{
    assert forall|x: Seq<char>| x.len() > 0 implies #[trigger] x.drop_last() == x.subrange(
        0,
        x.len() - 1,
    ) by {
        assert(x.drop_last() =~= x.subrange(0, x.len() - 1));
    }
}

/// A digit typed into an empty quantity field of the stock-out form is the
/// quantity that the form then sends, and the warehouse field keeps its text.
pub proof fn typed_digit_is_the_quantity(s: AppView, c: char)
    requires
        s.active_tab == 1,
        s.so_focus == FormFocus::Qty,
        s.input_mode == InputMode::Editing,
        s.so_qty.len() == 0,
        is_digit(c),
    ensures
        parsed_i32_or(main_step(s, Key::Char(c)).0.so_qty, 0) == (c as u32) - 48,
        main_step(s, Key::Char(c)).0.so_wh == s.so_wh,
{
    let q = main_step(s, Key::Char(c)).0.so_qty;
    assert(q =~= seq![c]);
    assert(q.drop_last() =~= Seq::<char>::empty());
    assert(q.last() == c);
    assert(digits_value(q.drop_last()) == 0);
    assert(digits_value(q) == (c as u32) - 48);
    assert(parsed_i32(q) == Some(((c as u32) - 48) as i32));
}

/// On the login screen a character is typed into exactly the field that has
/// the focus, unchanged, and Backspace erases the last character of it.
pub proof fn login_typing_reaches_focused_field(s: AppView, c: char)
    ensures
        ({
            let t = login_step(s, Key::Char(c)).0;
            &&& t.login_email == (if s.login_focus == LoginFocus::Email {
                s.login_email.push(c)
            } else {
                s.login_email
            })
            &&& t.login_password == (if s.login_focus == LoginFocus::Password {
                s.login_password.push(c)
            } else {
                s.login_password
            })
        }),
        ({
            let t = login_step(s, Key::Backspace).0;
            &&& t.login_email == (if s.login_focus == LoginFocus::Email {
                erased(s.login_email)
            } else {
                s.login_email
            })
            &&& t.login_password == (if s.login_focus == LoginFocus::Password {
                erased(s.login_password)
            } else {
                s.login_password
            })
        }),
{
    assert forall|x: Seq<char>| x.len() > 0 implies #[trigger] x.drop_last() == x.subrange(
        0,
        x.len() - 1,
    ) by {
        assert(x.drop_last() =~= x.subrange(0, x.len() - 1));
    }
}

/// The check screen shows the first item of the reply as the service sent
/// it: each number that fits in `i32` and each text as given, `0` and `-`
/// where the service sent none; an empty reply shows nothing.
pub proof fn inventory_shows_first_item(items: Vec<InventoryItem>)
    ensures
        items@.len() == 0 ==> inventory_shown(InventoryReply::Items(items)) is None,
        items@.len() > 0 ==> {
            let i = items@[0];
            let r = inventory_shown(InventoryReply::Items(items));
            &&& r is Some
            &&& (i.real_qty is Some && i32::MIN <= i.real_qty->0 <= i32::MAX) ==> r->0.real_qty == i.real_qty->0
            &&& i.real_qty is None ==> r->0.real_qty == 0
            &&& (i.product_id is Some && i32::MIN <= i.product_id->0 <= i32::MAX) ==> r->0.product_id == i.product_id->0
            &&& i.product_id is None ==> r->0.product_id == 0
            &&& i.sku is Some ==> r->0.sku == i.sku->0@
            &&& i.sku is None ==> r->0.sku == "-"@
            &&& i.name is Some ==> r->0.name == i.name->0@
            &&& i.name is None ==> r->0.name == "-"@
        },
{
}

/// A list reply with rows replaces the list held before with exactly those
/// rows, from the top, and its status counts them; a reply without rows keeps
/// the list.
pub proof fn reload_replaces_transactions(s: AppView, r: ListReply<TransactionRow>)
    ensures
        ({
            let t = transactions_applied(s, r);
            match r {
                ListReply::Rows(rows) => t.txn_rows == rows@ && t.txn_scroll == 0 && t.txn_status
                    == decimal(t.txn_rows.len()) + " "@ + "transactions"@,
                _ => t.txn_rows == s.txn_rows && t.txn_scroll == s.txn_scroll,
            }
        }),
{
}

/// A categories reply with rows replaces the list held before with exactly
/// those rows, from the top, and its status counts them; a reply without rows
/// keeps the list.
pub proof fn reload_replaces_categories(s: AppView, r: ListReply<CategoryRow>)
    ensures
        ({
            let t = categories_applied(s, r);
            match r {
                ListReply::Rows(rows) => t.cat_rows == rows@ && t.cat_scroll == 0 && t.cat_status
                    == decimal(t.cat_rows.len()) + " "@ + "categories"@,
                _ => t.cat_rows == s.cat_rows && t.cat_scroll == s.cat_scroll,
            }
        }),
{
}

/// A warehouses reply with rows replaces the list held before with exactly
/// those rows, from the top, and its status counts them; a reply without rows
/// keeps the list.
pub proof fn reload_replaces_warehouses(s: AppView, r: ListReply<WarehouseRow>)
    ensures
        ({
            let t = warehouses_applied(s, r);
            match r {
                ListReply::Rows(rows) => t.wh_rows == rows@ && t.wh_scroll == 0 && t.wh_status
                    == decimal(t.wh_rows.len()) + " "@ + "warehouses"@,
                _ => t.wh_rows == s.wh_rows && t.wh_scroll == s.wh_scroll,
            }
        }),
{
}

/// A recorded stock movement reports the quantity and SKU that were sent and
/// empties the form but for the warehouse; a failure reports the reply's
/// text after `ERR: ` and keeps the form as typed.
pub proof fn stock_replies_report_movement(s: AppView, quantity: i32, r: WriteReply)
    ensures
        ({
            let a = stock_in_applied(s, quantity, r);
            let b = stock_out_applied(s, quantity, r);
            match r {
                WriteReply::Done => {
                    &&& a.si_status == "OK: +"@ + int_text(quantity as int) + " "@ + s.si_sku
                    &&& a.si_sku.len() == 0 && a.si_qty.len() == 0 && a.si_ref.len() == 0
                    &&& a.si_wh == s.si_wh
                    &&& b.so_status == "OK: -"@ + int_text(quantity as int) + " "@ + s.so_sku
                    &&& b.so_sku.len() == 0 && b.so_qty.len() == 0 && b.so_ref.len() == 0
                    &&& b.so_wh == s.so_wh
                },
                WriteReply::Refused(t) | WriteReply::Unreachable(t) => {
                    &&& a.si_status == "ERR: "@ + t@
                    &&& a.si_sku == s.si_sku && a.si_qty == s.si_qty && a.si_wh == s.si_wh
                        && a.si_ref == s.si_ref
                    &&& b.so_status == "ERR: "@ + t@
                    &&& b.so_sku == s.so_sku && b.so_qty == s.so_qty && b.so_wh == s.so_wh
                        && b.so_ref == s.so_ref
                },
            }
        }),
{
}

/// An accepted login stores exactly the token the service sent; any other
/// reply leaves the token and shows why.
pub proof fn login_reply_outcome(s: AppView, r: LoginReply)
    ensures
        ({
            let t = login_applied(s, r);
            match r {
                LoginReply::Accepted(Some(token)) => t.token == Some(token@) && t.login_error
                    == s.login_error,
                LoginReply::Accepted(None) => t.token == s.token && t.login_error == "No token"@,
                LoginReply::Refused(status) => t.token == s.token && t.login_error
                    == "Login failed: "@ + status@,
                LoginReply::Failed(e) => t.token == s.token && t.login_error == e@,
            }
        }),
{
}

/// On the login screen Tab moves the focus from the email to the password,
/// from the password to the button and from the button back to the email;
/// Shift+Tab goes the other way; Esc empties both fields; nothing else moves.
pub proof fn login_navigation(s: AppView)
    ensures
        login_step(s, Key::Tab).0.login_focus == (match s.login_focus {
            LoginFocus::Email => LoginFocus::Password,
            LoginFocus::Password => LoginFocus::Button,
            LoginFocus::Button => LoginFocus::Email,
        }),
        login_step(s, Key::BackTab).0.login_focus == (match s.login_focus {
            LoginFocus::Email => LoginFocus::Button,
            LoginFocus::Password => LoginFocus::Email,
            LoginFocus::Button => LoginFocus::Password,
        }),
        login_step(s, Key::Tab).0.login_email == s.login_email,
        login_step(s, Key::Tab).0.login_password == s.login_password,
        login_step(s, Key::Esc).0.login_email.len() == 0,
        login_step(s, Key::Esc).0.login_password.len() == 0,
        login_step(s, Key::Esc).0.login_focus == s.login_focus,
        login_step(s, Key::Enter).0.login_email == s.login_email,
        login_step(s, Key::Enter).0.login_password == s.login_password,
        login_step(s, Key::Enter).1 == Command::Login ==> login_step(s, Key::Enter).0.login_error.len()
            == 0,
        login_step(s, Key::Enter).1 != Command::Login ==> login_step(s, Key::Enter).0 == s,
{
}

/// Tab moves the focus of a stock form forward through SKU, quantity,
/// warehouse, reference and the button, and round again; Shift+Tab moves it
/// back; on the warehouses screen both switch between name and location.
pub proof fn form_navigation(s: AppView)
    ensures
        s.active_tab == 0 ==> main_step(s, Key::Tab).0.si_focus == (match s.si_focus {
            FormFocus::Sku => FormFocus::Qty,
            FormFocus::Qty => FormFocus::Warehouse,
            FormFocus::Warehouse => FormFocus::Reference,
            FormFocus::Reference => FormFocus::Button,
            FormFocus::Button => FormFocus::Sku,
        }) && main_step(s, Key::Tab).0.so_focus == s.so_focus,
        s.active_tab == 1 ==> main_step(s, Key::Tab).0.so_focus == (match s.so_focus {
            FormFocus::Sku => FormFocus::Qty,
            FormFocus::Qty => FormFocus::Warehouse,
            FormFocus::Warehouse => FormFocus::Reference,
            FormFocus::Reference => FormFocus::Button,
            FormFocus::Button => FormFocus::Sku,
        }) && main_step(s, Key::Tab).0.si_focus == s.si_focus,
        s.active_tab == 0 ==> main_step(s, Key::BackTab).0.si_focus == (match s.si_focus {
            FormFocus::Sku => FormFocus::Button,
            FormFocus::Qty => FormFocus::Sku,
            FormFocus::Warehouse => FormFocus::Qty,
            FormFocus::Reference => FormFocus::Warehouse,
            FormFocus::Button => FormFocus::Reference,
        }),
        s.active_tab == 1 ==> main_step(s, Key::BackTab).0.so_focus == (match s.so_focus {
            FormFocus::Sku => FormFocus::Button,
            FormFocus::Qty => FormFocus::Sku,
            FormFocus::Warehouse => FormFocus::Qty,
            FormFocus::Reference => FormFocus::Warehouse,
            FormFocus::Button => FormFocus::Reference,
        }),
        s.active_tab == 5 ==> main_step(s, Key::Tab).0.wh_focus != s.wh_focus
            && main_step(s, Key::BackTab).0.wh_focus != s.wh_focus,
        main_step(s, Key::Tab).0.input_mode == InputMode::Editing,
        main_step(s, Key::BackTab).0.input_mode == s.input_mode,
        main_step(s, Key::Tab).0.active_tab == s.active_tab,
        main_step(s, Key::Tab).0.si_sku == s.si_sku && main_step(s, Key::Tab).0.so_qty == s.so_qty,
{
}

/// In navigation mode, or where no text field takes typing, keys 1 to 6
/// select screens 0 to 5; the categories and warehouses screens ask for their
/// list when they hold none.
pub proof fn number_keys_select_screens(s: AppView, c: char)
    requires
        s.input_mode == InputMode::Normal,
    ensures
        c == '1' ==> main_step(s, Key::Char(c)).0.active_tab == 0,
        c == '2' ==> main_step(s, Key::Char(c)).0.active_tab == 1,
        c == '3' ==> main_step(s, Key::Char(c)).0.active_tab == 2,
        c == '4' ==> main_step(s, Key::Char(c)).0.active_tab == 3,
        c == '5' ==> main_step(s, Key::Char(c)).0.active_tab == 4 && main_step(s, Key::Char(c)).1
            == (if s.cat_rows.len() == 0 {
            Command::FetchCategories
        } else {
            Command::Idle
        }),
        c == '6' ==> main_step(s, Key::Char(c)).0.active_tab == 5 && main_step(s, Key::Char(c)).1
            == (if s.wh_rows.len() == 0 {
            Command::FetchWarehouses
        } else {
            Command::Idle
        }),
        ('1' == c || c == '2' || c == '3' || c == '4' || c == '5' || c == '6')
            ==> main_step(s, Key::Char(c)).0.si_qty == s.si_qty && main_step(s, Key::Char(c)).0.so_qty
            == s.so_qty && main_step(s, Key::Char(c)).0.ck_sku == s.ck_sku,
{
}

/// While typing into a stock quantity, the check SKU or an open category or
/// warehouse form, a digit is typed and does not switch screens.
pub proof fn digits_are_typed_into_fields(s: AppView, c: char)
    requires
        s.input_mode == InputMode::Editing,
        (s.active_tab == 0 && s.si_focus != FormFocus::Button) || (s.active_tab == 1 && s.so_focus
            != FormFocus::Button) || s.active_tab == 2 || (s.active_tab == 4 && (s.cat_mode is Create
            || s.cat_mode is Edit)) || (s.active_tab == 5 && (s.wh_mode is Create || s.wh_mode is Edit)),
    ensures
        main_step(s, Key::Char(c)).0.active_tab == s.active_tab,
        main_step(s, Key::Char(c)).1 == Command::Idle,
        switch_of(s, c) is None,
{
}

/// Up and Down move only the offset of the list on screen, by one row, never
/// above the top; on other screens they change nothing.
pub proof fn arrows_scroll_the_list_on_screen(s: AppView)
    requires
        s.active_tab == 3 ==> s.txn_scroll < usize::MAX,
        s.active_tab == 4 ==> s.cat_scroll < usize::MAX,
        s.active_tab == 5 ==> s.wh_scroll < usize::MAX,
    ensures
        ({
            let d = main_step(s, Key::Down).0;
            let u = main_step(s, Key::Up).0;
            &&& s.active_tab == 3 ==> d == (AppView { txn_scroll: (s.txn_scroll + 1) as usize, ..s })
            &&& s.active_tab == 4 ==> d == (AppView { cat_scroll: (s.cat_scroll + 1) as usize, ..s })
            &&& s.active_tab == 5 ==> d == (AppView { wh_scroll: (s.wh_scroll + 1) as usize, ..s })
            &&& s.active_tab == 3 ==> u == (AppView {
                txn_scroll: if s.txn_scroll > 0 { (s.txn_scroll - 1) as usize } else { 0 },
                ..s
            })
            &&& s.active_tab == 4 ==> u == (AppView {
                cat_scroll: if s.cat_scroll > 0 { (s.cat_scroll - 1) as usize } else { 0 },
                ..s
            })
            &&& s.active_tab == 5 ==> u == (AppView {
                wh_scroll: if s.wh_scroll > 0 { (s.wh_scroll - 1) as usize } else { 0 },
                ..s
            })
            &&& (s.active_tab < 3 || s.active_tab > 5) ==> d == s && u == s
        }),
{
    let d = main_step(s, Key::Down).0;
    let u = main_step(s, Key::Up).0;
    if s.active_tab == 3 {
        assert(u =~= (AppView {
            txn_scroll: if s.txn_scroll > 0 { (s.txn_scroll - 1) as usize } else { 0 },
            ..s
        }));
    } else if s.active_tab == 4 {
        assert(u =~= (AppView {
            cat_scroll: if s.cat_scroll > 0 { (s.cat_scroll - 1) as usize } else { 0 },
            ..s
        }));
    } else if s.active_tab == 5 {
        assert(u =~= (AppView {
            wh_scroll: if s.wh_scroll > 0 { (s.wh_scroll - 1) as usize } else { 0 },
            ..s
        }));
    }
}

/// Enter asks for the work of its screen: a stock movement from the button
/// of its form, a lookup, a reload, or the submission of an open form or a
/// pending confirmation; while browsing a list it asks for the list if none is
/// held.
pub proof fn enter_asks_for_the_screens_work(s: AppView)
    ensures
        ({
            let cmd = main_step(s, Key::Enter).1;
            &&& s.active_tab == 0 ==> cmd == (if s.si_focus == FormFocus::Button {
                Command::StockIn
            } else {
                Command::Idle
            })
            &&& s.active_tab == 1 ==> cmd == (if s.so_focus == FormFocus::Button {
                Command::StockOut
            } else {
                Command::Idle
            })
            &&& s.active_tab == 2 ==> cmd == Command::CheckInventory
            &&& s.active_tab == 3 ==> cmd == Command::FetchTransactions
            &&& s.active_tab == 4 ==> cmd == (match s.cat_mode {
                CategoryMode::Browse => if s.cat_rows.len() == 0 {
                    Command::FetchCategories
                } else {
                    Command::Idle
                },
                CategoryMode::Create => Command::CreateCategory,
                CategoryMode::Edit(_) => Command::UpdateCategory,
                CategoryMode::DeleteConfirm(_, _) => Command::DeleteCategory,
            })
            &&& s.active_tab == 5 ==> cmd == (match s.wh_mode {
                WhMode::Browse => if s.wh_rows.len() == 0 {
                    Command::FetchWarehouses
                } else {
                    Command::Idle
                },
                WhMode::Create => Command::CreateWarehouse,
                WhMode::Edit(_) => Command::UpdateWarehouse,
                WhMode::DeleteConfirm(_, _) => Command::DeleteWarehouse,
            })
            &&& s.active_tab < 4 ==> main_step(s, Key::Enter).0 == s
        }),
{
}

/// Esc returns to navigation mode, and on the categories and warehouses
/// screens back to browsing with an empty form; the stock forms keep what was
/// typed.
pub proof fn esc_leaves_forms(s: AppView)
    ensures
        ({
            let t = main_step(s, Key::Esc).0;
            &&& t.input_mode == InputMode::Normal
            &&& s.active_tab == 4 ==> t.cat_mode == CategoryMode::Browse && t.cat_name.len() == 0
            &&& s.active_tab == 5 ==> t.wh_mode == WhMode::Browse && t.wh_name.len() == 0
                && t.wh_location.len() == 0
            &&& s.active_tab != 4 ==> t.cat_mode == s.cat_mode && t.cat_name == s.cat_name
            &&& s.active_tab != 5 ==> t.wh_mode == s.wh_mode && t.wh_name == s.wh_name
            &&& t.si_sku == s.si_sku && t.si_qty == s.si_qty && t.so_qty == s.so_qty
            &&& t.active_tab == s.active_tab
        }),
{
}

/// The check screen reports a refusal as `ERR` / `Not found or error`, and no
/// answer as `ERR` with the error.
pub proof fn inventory_errors_shown(e: String)
    ensures
        inventory_shown(InventoryReply::Refused) matches Some(r) && r.sku == "ERR"@ && r.name
            == "Not found or error"@ && r.product_id == 0 && r.real_qty == 0,
        inventory_shown(InventoryReply::Unreachable(e)) matches Some(r) && r.sku == "ERR"@ && r.name
            == e@ && r.product_id == 0 && r.real_qty == 0,
{
}

/// A list reply without rows says why in the status line: `Parse err: `,
/// `HTTP ` with the status, or `ERR: ` with the error.
pub proof fn list_errors_reported(s: AppView, e: String)
    ensures
        transactions_applied(s, ListReply::Unparsable(e)).txn_status == "Parse err: "@ + e@,
        transactions_applied(s, ListReply::Refused(e)).txn_status == "HTTP "@ + e@,
        transactions_applied(s, ListReply::Unreachable(e)).txn_status == "ERR: "@ + e@,
        categories_applied(s, ListReply::Unparsable(e)).cat_status == "Parse err: "@ + e@,
        categories_applied(s, ListReply::Refused(e)).cat_status == "HTTP "@ + e@,
        categories_applied(s, ListReply::Unreachable(e)).cat_status == "ERR: "@ + e@,
        warehouses_applied(s, ListReply::Unparsable(e)).wh_status == "Parse err: "@ + e@,
        warehouses_applied(s, ListReply::Refused(e)).wh_status == "HTTP "@ + e@,
        warehouses_applied(s, ListReply::Unreachable(e)).wh_status == "ERR: "@ + e@,
{
}

proof fn trim_start_drops_leading_space(s: Seq<char>)
    ensures
        exists|i: int|
            0 <= i <= s.len() && trim_start(s) == s.subrange(i, s.len() as int) && (forall|k: int|
                0 <= k < i ==> is_white_space(#[trigger] s[k])) && (i < s.len() ==> !is_white_space(
                s[i],
            )),
    decreases s.len(),
{
    if s.len() > 0 && is_white_space(s[0]) {
        trim_start_drops_leading_space(s.drop_first());
        let t = s.drop_first();
        let i = choose|i: int|
            0 <= i <= t.len() && trim_start(t) == t.subrange(i, t.len() as int) && (forall|k: int|
                0 <= k < i ==> is_white_space(#[trigger] t[k])) && (i < t.len() ==> !is_white_space(
                t[i],
            ));
        assert(t.subrange(i, t.len() as int) =~= s.subrange(i + 1, s.len() as int));
        assert forall|k: int| 0 <= k < i + 1 implies is_white_space(#[trigger] s[k]) by {
            if k > 0 {
                assert(s[k] == t[k - 1]);
            }
        }
        assert(i + 1 < s.len() ==> s[i + 1] == t[i]);
    } else {
        assert(s.subrange(0, s.len() as int) =~= s);
    }
}

proof fn trim_end_drops_trailing_space(s: Seq<char>)
    ensures
        exists|j: int|
            0 <= j <= s.len() && trim_end(s) == s.subrange(0, j) && (forall|k: int|
                j <= k < s.len() ==> is_white_space(#[trigger] s[k])) && (j > 0 ==> !is_white_space(
                s[j - 1],
            )),
    decreases s.len(),
{
    if s.len() > 0 && is_white_space(s.last()) {
        trim_end_drops_trailing_space(s.drop_last());
        let t = s.drop_last();
        let j = choose|j: int|
            0 <= j <= t.len() && trim_end(t) == t.subrange(0, j) && (forall|k: int|
                j <= k < t.len() ==> is_white_space(#[trigger] t[k])) && (j > 0 ==> !is_white_space(
                t[j - 1],
            ));
        assert(t.subrange(0, j) =~= s.subrange(0, j));
        assert forall|k: int| j <= k < s.len() implies is_white_space(#[trigger] s[k]) by {
            if k < s.len() - 1 {
                assert(s[k] == t[k]);
            }
        }
        assert(j > 0 ==> s[j - 1] == t[j - 1]);
    } else {
        assert(s.subrange(0, s.len() as int) =~= s);
    }
}

/// Trimming keeps the text between the first and the last character that is
/// not white space: everything cut off is white space, and what is kept
/// neither starts nor ends with white space.
pub proof fn trim_keeps_the_inner_text(s: Seq<char>)
    ensures
        exists|i: int, j: int|
            0 <= i <= j <= s.len() && trimmed(s) == s.subrange(i, j) && (forall|k: int|
                0 <= k < i ==> is_white_space(#[trigger] s[k])) && (forall|k: int|
                j <= k < s.len() ==> is_white_space(#[trigger] s[k])) && (i < j ==> !is_white_space(
                s[i]) && !is_white_space(s[j - 1])),
{
    trim_start_drops_leading_space(s);
    let i = choose|i: int|
        0 <= i <= s.len() && trim_start(s) == s.subrange(i, s.len() as int) && (forall|k: int|
            0 <= k < i ==> is_white_space(#[trigger] s[k])) && (i < s.len() ==> !is_white_space(
            s[i],
        ));
    let u = s.subrange(i, s.len() as int);
    trim_end_drops_trailing_space(u);
    let j = choose|j: int|
        0 <= j <= u.len() && trim_end(u) == u.subrange(0, j) && (forall|k: int|
            j <= k < u.len() ==> is_white_space(#[trigger] u[k])) && (j > 0 ==> !is_white_space(
            u[j - 1],
        ));
    assert(u.subrange(0, j) =~= s.subrange(i, i + j));
    assert forall|k: int| i + j <= k < s.len() implies is_white_space(#[trigger] s[k]) by {
        assert(s[k] == u[k - i]);
    }
    if j > 0 {
        assert(s[i] == u[0]);
        assert(s[i + j - 1] == u[j - 1]);
        if j == 1 {
        }
    }
    assert(0 <= i <= i + j <= s.len() && trimmed(s) == s.subrange(i, i + j));
}

/// A number may be written with a `+` sign and with leading zeros: both read
/// as the number itself.
pub proof fn plus_sign_and_leading_zeros_read_alike(d: Seq<char>)
    requires
        d.len() > 0,
        all_digits(d),
    ensures
        parsed_i32(seq!['+'] + d) == parsed_i32(d),
        parsed_i32(seq!['0'] + d) == parsed_i32(d),
        parsed_i32(seq!['-', '0'] + d) == parsed_i32(seq!['-'] + d),
{
    assert((seq!['+'] + d).drop_first() =~= d);
    assert((seq!['-'] + d).drop_first() =~= d);
    assert((seq!['-', '0'] + d).drop_first() =~= seq!['0'] + d);
    leading_zero_value(d);
    assert(is_digit('0'));
    assert(all_digits(seq!['0'] + d)) by {
        assert forall|k: int| 0 <= k < (seq!['0'] + d).len() implies is_digit(
            #[trigger] (seq!['0'] + d)[k],
        ) by {
            if k > 0 {
                assert((seq!['0'] + d)[k] == d[k - 1]);
            }
        }
    }
    assert(is_digit(d[0]));
}

proof fn leading_zero_value(d: Seq<char>)
    ensures
        digits_value(seq!['0'] + d) == digits_value(d),
    decreases d.len(),
{
    if d.len() == 0 {
        assert((seq!['0'] + d).drop_last() =~= Seq::<char>::empty());
        assert((seq!['0'] + d).last() == '0');
        assert(('0' as u32) == 48);
        assert(digits_value(Seq::<char>::empty()) == 0);
        assert(d =~= Seq::<char>::empty());
    } else {
        leading_zero_value(d.drop_last());
        assert((seq!['0'] + d).drop_last() =~= seq!['0'] + d.drop_last());
        assert((seq!['0'] + d).last() == d.last());
        assert(digits_value(seq!['0'] + d) == digits_value(seq!['0'] + d.drop_last()) * 10 + ((
        d.last() as u32) - 48) as nat);
    }
}

/// Text that holds a character other than a digit after its sign is no number.
pub proof fn non_digits_are_no_number(s: Seq<char>, k: int)
    requires
        0 < k < s.len(),
        !is_digit(s[k]),
    ensures
        parsed_i32(s) is None,
{
    let signed = s[0] == '-' || s[0] == '+';
    let body = if signed { s.drop_first() } else { s };
    if signed {
        assert(body[k - 1] == s[k]);
    } else {
        assert(body[k] == s[k]);
    }
}

/// The white space that trimming removes is exactly the Unicode `White_Space`
/// set, and a digit is exactly one of `0` to `9`.
pub proof fn white_space_and_digits(c: char)
    ensures
        is_white_space(c) <==> (c == '\t' || c == '\n' || c == '\u{0B}' || c == '\u{0C}' || c
            == '\r' || c == ' ' || c == '\u{85}' || c == '\u{A0}' || c == '\u{1680}' || ('\u{2000}'
            as u32 <= c as u32 && c as u32 <= '\u{200A}' as u32) || c == '\u{2028}' || c
            == '\u{2029}' || c == '\u{202F}' || c == '\u{205F}' || c == '\u{3000}'),
        is_digit(c) <==> ('0' as u32 <= c as u32 && c as u32 <= '9' as u32),
{
}

/// A category or warehouse name is required once trimmed: a blank one is
/// reported as `ERR: Name required` and changes nothing else; the name sent is
/// the trimmed one, with the trimmed location.
pub proof fn names_are_required_and_trimmed(s: AppView, r: WarehouseRequest)
    ensures
        category_name_ok(s) <==> trimmed(s.cat_name).len() > 0,
        category_name_missing(s) == (AppView { cat_status: "ERR: Name required"@, ..s }),
        warehouse_name_ok(s) <==> trimmed(s.wh_name).len() > 0,
        warehouse_name_missing(s) == (AppView { wh_status: "ERR: Name required"@, ..s }),
        warehouse_request_matches(r, s) <==> (r.name@ == trimmed(s.wh_name) && r.location@
            == trimmed(s.wh_location) && r.token@ == token_text(s.token)),
        token_text(s.token) == (match s.token {
            Some(t) => t,
            None => Seq::<char>::empty(),
        }),
{
}

/// A form field that is not a number is sent as the fallback; one that is, as
/// its number.
pub proof fn fallback_only_for_non_numbers(t: Seq<char>, fallback: i32)
    ensures
        parsed_i32(t) is None ==> parsed_i32_or(t, fallback) == fallback,
        parsed_i32(t) matches Some(v) ==> parsed_i32_or(t, fallback) == v,
{
}

/// After a successful create or update the form is emptied, the screen goes
/// back to browsing and the list is asked for again; after a successful
/// delete nothing is selected any more; a failure reports `ERR: ` and the
/// reply's text and keeps the form and the mode.
pub proof fn category_and_warehouse_writes(s: AppView, r: WriteReply, done: Seq<char>)
    ensures
        ({
            let (c, cc) = category_saved(s, r, done);
            let (d, dc) = category_deleted(s, r);
            let (w, wc) = warehouse_saved(s, r, done);
            let (x, xc) = warehouse_deleted(s, r);
            match r {
                WriteReply::Done => {
                    &&& c.cat_status == done && c.cat_name.len() == 0 && c.cat_mode
                        == CategoryMode::Browse && cc == Command::FetchCategories
                    &&& d.cat_status == "Deleted"@ && d.cat_mode == CategoryMode::Browse
                        && d.cat_selected is None && dc == Command::FetchCategories
                    &&& w.wh_status == done && w.wh_name.len() == 0 && w.wh_location.len() == 0
                        && w.wh_mode == WhMode::Browse && wc == Command::FetchWarehouses
                    &&& x.wh_status == "Deleted"@ && x.wh_mode == WhMode::Browse
                        && x.wh_selected is None && xc == Command::FetchWarehouses
                },
                WriteReply::Refused(t) | WriteReply::Unreachable(t) => {
                    &&& c == (AppView { cat_status: "ERR: "@ + t@, ..s }) && cc == Command::Idle
                    &&& d == (AppView { cat_status: "ERR: "@ + t@, ..s }) && dc == Command::Idle
                    &&& w == (AppView { wh_status: "ERR: "@ + t@, ..s }) && wc == Command::Idle
                    &&& x == (AppView { wh_status: "ERR: "@ + t@, ..s }) && xc == Command::Idle
                },
            }
        }),
{
}

/// A stock form is drawn as four fields in the order SKU, quantity,
/// warehouse, reference, each showing its own text, with only the focused one
/// highlighted.
pub proof fn stock_fields_show_their_text(
    f: Seq<FieldView>,
    sku: Seq<char>,
    qty: Seq<char>,
    wh: Seq<char>,
    rf: Seq<char>,
    focus: FormFocus,
)
    requires
        fields_shown(f, sku, qty, wh, rf, focus),
    ensures
        f.len() == 4,
        f[0].label@ == "SKU"@ && f[0].value@ == sku,
        f[1].label@ == "Quantity"@ && f[1].value@ == qty,
        f[2].label@ == "Warehouse ID"@ && f[2].value@ == wh,
        f[3].label@ == "Reference"@ && f[3].value@ == rf,
        focus == FormFocus::Button ==> forall|i: int| 0 <= i < 4 ==> !(#[trigger] f[i]).focused,
        focus == FormFocus::Qty ==> f[1].focused && !f[0].focused && !f[2].focused && !f[3].focused,
        focus == FormFocus::Warehouse ==> f[2].focused && !f[0].focused && !f[1].focused
            && !f[3].focused,
        focus == FormFocus::Sku ==> f[0].focused && !f[1].focused && !f[2].focused && !f[3].focused,
        focus == FormFocus::Reference ==> f[3].focused && !f[0].focused && !f[1].focused
            && !f[2].focused,
{
}

/// The check screen shows the result's product id, SKU, name and stock, in
/// that order, the stock in pieces.
pub proof fn inventory_lines_show_the_result(r: InventoryResult)
    ensures
        inventory_text(r).len() == 5,
        inventory_text(r)[0] == "  Product ID : "@ + int_text(r.product_id as int),
        inventory_text(r)[1] == "  SKU        : "@ + r.sku@,
        inventory_text(r)[2] == "  Name       : "@ + r.name@,
        inventory_text(r)[3].len() == 0,
        inventory_text(r)[4] == "  Stock      : "@ + int_text(r.real_qty as int) + " pcs"@,
{
}

/// A stock form's status is green after `OK`, red after `ERR` and grey
/// otherwise; a list's is red after `ERR`, green with any other text and plain
/// when empty.
pub proof fn status_colours(t: Seq<char>)
    ensures
        form_tone(t) == (if has_prefix(t, "OK"@) {
            Tone::Success
        } else if has_prefix(t, "ERR"@) {
            Tone::Failure
        } else {
            Tone::Muted
        }),
        list_tone(t) == (if has_prefix(t, "ERR"@) {
            Tone::Failure
        } else if t.len() > 0 {
            Tone::Success
        } else {
            Tone::Plain
        }),
        has_prefix(t, "ERR"@) <==> (3 <= t.len() && t.subrange(0, 3) == "ERR"@),
{
    reveal_strlit("ERR");
}

/// The tab bar names each screen with its position: ` <name> [<i>] `.
pub proof fn tab_titles_name_screens(name: Seq<char>, i: nat)
    ensures
        tab_title_text(name, i) == " "@ + name + " ["@ + decimal(i) + "] "@,
{
}

/// The deletion pop-ups name the row, between quotes, and say what may stop
/// the deletion.
pub proof fn confirmations_name_the_row(s: ListScreen, app: App, id: i32, name: String)
    ensures
        app.cat_mode == CategoryMode::DeleteConfirm(id, name) && category_screen_shown(s, app)
            ==> (s matches ListScreen::Confirm { message } && message@ == " Delete category \""@
            + name@ + "\"?\n\n This will fail if products still reference it."@),
        app.wh_mode == WhMode::DeleteConfirm(id, name) && warehouse_screen_shown(s, app)
            ==> (s matches ListScreen::Confirm { message } && message@ == " Delete warehouse \""@
            + name@ + "\"?\n\n This will fail if inventory/transactions still reference it."@),
{
}

/// While a list is browsed, `n` opens an empty form for a new category or
/// warehouse.
pub proof fn n_opens_an_empty_form(s: AppView)
    requires
        s.input_mode == InputMode::Normal,
    ensures
        s.active_tab == 4 && s.cat_mode == CategoryMode::Browse ==> main_step(
            s,
            Key::Char('n'),
        ).0.cat_mode == CategoryMode::Create && main_step(s, Key::Char('n')).0.cat_name.len() == 0,
        s.active_tab == 5 && s.wh_mode == WhMode::Browse ==> main_step(
            s,
            Key::Char('n'),
        ).0.wh_mode == WhMode::Create && main_step(s, Key::Char('n')).0.wh_name.len() == 0
            && main_step(s, Key::Char('n')).0.wh_location.len() == 0,
{
}

/// A cut falls at the cell nearest to its share of the extent, halves
/// rounded up; cuts at larger shares fall no earlier, and the whole share
/// falls at the end of the extent.
pub proof fn cuts_round_to_the_nearest_cell(extent: u16, a: int, b: int)
    requires
        0 <= a <= b <= 100,
    ensures
        cut_offset(extent, a) * 100 <= extent * a + 50 < cut_offset(extent, a) * 100 + 100,
        cut_offset(extent, a) <= cut_offset(extent, b),
        cut_offset(extent, 100) == extent,
        cut_offset(extent, 0) == 0,
        part_along(extent, 0, 0, 0, 1) == (0int, 0int),
{
    assert(extent * a <= extent * b) by (nonlinear_arith)
        requires
            0 <= a <= b,
            extent >= 0,
    ;
    assert((extent * a + 50) / 100 <= (extent * b + 50) / 100) by (nonlinear_arith)
        requires
            extent * a <= extent * b,
    ;
    assert(cut_offset(extent, a) * 100 <= extent * a + 50 < cut_offset(extent, a) * 100 + 100) by (nonlinear_arith)
        requires
            cut_offset(extent, a) == (extent * a + 50) / 100,
            extent * a >= 0,
    ;
    assert((extent * 100 + 50) / 100 == extent as int) by (nonlinear_arith);
}

/// A prefix is exactly a run of equal characters at the start.
pub proof fn prefixes_match_character_by_character(t: Seq<char>, p: Seq<char>)
    ensures
        has_prefix(t, p) <==> (p.len() <= t.len() && forall|i: int|
            0 <= i < p.len() ==> t[i] == p[i]),
{
    if p.len() <= t.len() && forall|i: int| 0 <= i < p.len() ==> t[i] == p[i] {
        assert(t.subrange(0, p.len() as int) =~= p);
    }
    if has_prefix(t, p) {
        assert forall|i: int| 0 <= i < p.len() implies t[i] == p[i] by {
            assert(t.subrange(0, p.len() as int)[i] == t[i]);
        }
    }
}

/// The client starts logged out, on the first screen, in navigation mode,
/// with every form empty, the focus on the first field of each form and no
/// list loaded.
pub proof fn client_starts_empty(s: AppView)
    requires
        initial_state(s),
    ensures
        s.token is None,
        s.active_tab == 0,
        s.input_mode == InputMode::Normal,
        s.login_focus == LoginFocus::Email,
        s.si_focus == FormFocus::Sku && s.so_focus == FormFocus::Sku,
        s.wh_focus == WhFormFocus::Name,
        s.login_email.len() == 0 && s.login_password.len() == 0,
        s.si_qty.len() == 0 && s.so_qty.len() == 0 && s.si_wh.len() == 0 && s.so_wh.len() == 0,
        s.cat_rows.len() == 0 && s.wh_rows.len() == 0 && s.txn_rows.len() == 0,
        s.cat_mode == CategoryMode::Browse && s.wh_mode == WhMode::Browse,
        s.tabs.len() == 6,
{
}

} // verus!
