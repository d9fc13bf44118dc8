//! Properties that hold across key presses and replies.
use vstd::prelude::*;
use crate::keys::{login_focus_after_back_tab, login_focus_after_tab, login_step, Command, Key};
use crate::model::{AppView, CategoryMode, FormFocus, InputMode, LoginFocus, WhMode};
use crate::model::{CategoryRow, TransactionRow, WarehouseRow};
use crate::ops::{
    categories_applied, category_deleted, login_applied, login_outcome, LoginReply, category_saved, stock_in_applied, stock_out_applied,
    transactions_applied, warehouse_deleted, warehouse_saved, warehouses_applied, ListReply,
    WriteReply,
};
use crate::screens::{
    after_backspace, after_char, after_down, after_tab, after_up, down_fits, key_step,
    location_text, main_step, switch_of, takes_text,
};
use crate::text::{all_digits, decimal, digit_char, digits_value, int_text, parsed_i32};
use crate::view::{form_tone, has_prefix, list_tone, Tone};

verus! {

/// On the login screen, Shift+Tab undoes Tab.
pub proof fn login_back_tab_undoes_tab(s: AppView)
    ensures
        login_step(login_step(s, Key::Tab).0, Key::BackTab).0 == s,
{
    assert(login_focus_after_back_tab(login_focus_after_tab(s.login_focus)) == s.login_focus);
    assert(login_step(login_step(s, Key::Tab).0, Key::BackTab).0 =~= s);
}

/// On the login screen, Tab pressed three times comes back to where it started.
pub proof fn login_tab_cycles_in_three(s: AppView)
    ensures
        login_step(login_step(login_step(s, Key::Tab).0, Key::Tab).0, Key::Tab).0 == s,
{
    assert(login_step(login_step(login_step(s, Key::Tab).0, Key::Tab).0, Key::Tab).0 =~= s);
}

/// On the login screen, Backspace undoes a typed character.
pub proof fn login_backspace_undoes_char(s: AppView, c: char)
    ensures
        login_step(login_step(s, Key::Char(c)).0, Key::Backspace).0 == s,
{
    let t = login_step(s, Key::Char(c)).0;
    assert(s.login_email.push(c).drop_last() =~= s.login_email);
    assert(s.login_password.push(c).drop_last() =~= s.login_password);
    assert(login_step(t, Key::Backspace).0 =~= s);
}

/// Enter on the login screen asks for a login exactly when the button has the
/// focus and both the email and the password are typed.
pub proof fn login_only_when_complete(s: AppView)
    ensures
        (login_step(s, Key::Enter).1 == Command::Login) == (s.login_focus == LoginFocus::Button
            && s.login_email.len() > 0 && s.login_password.len() > 0),
{
}

/// No key press changes the token: the client stays on the screen it is on.
pub proof fn keys_keep_token(s: AppView, key: Key)
    ensures
        key_step(s, key).0.token == s.token,
{
}

/// The active screen stays one of the six.
pub proof fn screen_stays_in_range(s: AppView, key: Key)
    requires
        s.active_tab < 6,
    ensures
        key_step(s, key).0.active_tab < 6,
{
}

/// A number key from 1 to 6 selects its screen and changes nothing else,
/// unless the operator is typing into a text field.
pub proof fn digit_selects_screen(s: AppView, c: char, t: usize)
    requires
        switch_of(s, c) == Some(t),
    ensures
        main_step(s, Key::Char(c)).0 == (AppView { active_tab: t, ..s }),
{
}

/// Shift+Tab undoes Tab on every screen, but for the switch to typing mode
/// that Tab makes.
pub proof fn back_tab_undoes_tab(s: AppView)
    ensures
        main_step(main_step(s, Key::Tab).0, Key::BackTab).0 == (AppView {
            input_mode: InputMode::Editing,
            ..s
        }),
{
    assert(main_step(main_step(s, Key::Tab).0, Key::BackTab).0 =~= (AppView {
        input_mode: InputMode::Editing,
        ..s
    }));
}

/// On a stock form, Tab pressed five times comes back to the same field.
pub proof fn form_tab_cycles_in_five(s: AppView)
    requires
        s.active_tab == 0 || s.active_tab == 1,
    ensures
        after_tab(after_tab(after_tab(after_tab(after_tab(s))))) == (AppView {
            input_mode: InputMode::Editing,
            ..s
        }),
{
    assert(after_tab(after_tab(after_tab(after_tab(after_tab(s))))) =~= (AppView {
        input_mode: InputMode::Editing,
        ..s
    }));
}

/// While the operator types into a text field, every character, digits
/// included, is typed and selects no screen.
pub proof fn digits_typed_while_typing(s: AppView, c: char)
    requires
        s.input_mode == InputMode::Editing,
        takes_text(s),
    ensures
        main_step(s, Key::Char(c)) == (after_char(s, c), Command::Idle),
{
}

/// Backspace undoes a typed character that selects no screen, but for the
/// switch to typing mode; on the categories and warehouses screens this needs
/// their form to be open, since Backspace also erases outside it.
pub proof fn backspace_undoes_char(s: AppView, c: char)
    requires
        switch_of(s, c) is None,
        s.active_tab == 4 ==> (s.cat_mode matches CategoryMode::Create || s.cat_mode
            matches CategoryMode::Edit(_)),
        s.active_tab == 5 ==> (s.wh_mode matches WhMode::Create || s.wh_mode matches WhMode::Edit(
            _,
        )),
    ensures
        main_step(main_step(s, Key::Char(c)).0, Key::Backspace).0 == (AppView {
            input_mode: InputMode::Editing,
            ..s
        }),
{
    let t = after_char(s, c);
    assert(main_step(s, Key::Char(c)).0 == t);
    assert forall|x: Seq<char>| #[trigger] x.push(c).drop_last() == x by {
        assert(x.push(c).drop_last() =~= x);
    }
    assert(after_backspace(t) =~= (AppView { input_mode: InputMode::Editing, ..s }));
}

/// Up undoes Down on every list.
pub proof fn up_undoes_down(s: AppView)
    requires
        down_fits(s),
    ensures
        main_step(main_step(s, Key::Down).0, Key::Up).0 == s,
{
    assert(after_up(after_down(s)) =~= s);
}

/// The state after pressing `key` `k` times, once logged in.
pub open spec fn pressed(s: AppView, key: Key, k: nat) -> AppView
    decreases k,
{
    if k == 0 {
        s
    } else {
        pressed(main_step(s, key).0, key, (k - 1) as nat)
    }
}

proof fn categories_up(s: AppView, k: nat)
    requires
        s.active_tab == 4,
        k <= s.cat_scroll,
    ensures
        pressed(s, Key::Up, k) == (AppView { cat_scroll: (s.cat_scroll - k) as usize, ..s }),
    decreases k,
{
    if k > 0 {
        let t = main_step(s, Key::Up).0;
        assert(t =~= (AppView { cat_scroll: (s.cat_scroll - 1) as usize, ..s }));
        categories_up(t, (k - 1) as nat);
        assert(pressed(t, Key::Up, (k - 1) as nat) =~= (AppView {
            cat_scroll: (s.cat_scroll - k) as usize,
            ..s
        }));
    } else {
        assert(pressed(s, Key::Up, k) =~= (AppView { cat_scroll: (s.cat_scroll - k) as usize, ..s }));
    }
}

proof fn categories_down(s: AppView, k: nat)
    requires
        s.active_tab == 4,
        s.cat_scroll + k <= usize::MAX,
    ensures
        pressed(s, Key::Down, k) == (AppView { cat_scroll: (s.cat_scroll + k) as usize, ..s }),
    decreases k,
{
    if k > 0 {
        let t = main_step(s, Key::Down).0;
        assert(t =~= (AppView { cat_scroll: (s.cat_scroll + 1) as usize, ..s }));
        categories_down(t, (k - 1) as nat);
        assert(pressed(t, Key::Down, (k - 1) as nat) =~= (AppView {
            cat_scroll: (s.cat_scroll + k) as usize,
            ..s
        }));
    } else {
        assert(pressed(s, Key::Down, k) =~= (AppView {
            cat_scroll: (s.cat_scroll + k) as usize,
            ..s
        }));
    }
}

proof fn warehouses_up(s: AppView, k: nat)
    requires
        s.active_tab == 5,
        k <= s.wh_scroll,
    ensures
        pressed(s, Key::Up, k) == (AppView { wh_scroll: (s.wh_scroll - k) as usize, ..s }),
    decreases k,
{
    if k > 0 {
        let t = main_step(s, Key::Up).0;
        assert(t =~= (AppView { wh_scroll: (s.wh_scroll - 1) as usize, ..s }));
        warehouses_up(t, (k - 1) as nat);
        assert(pressed(t, Key::Up, (k - 1) as nat) =~= (AppView {
            wh_scroll: (s.wh_scroll - k) as usize,
            ..s
        }));
    } else {
        assert(pressed(s, Key::Up, k) =~= (AppView { wh_scroll: (s.wh_scroll - k) as usize, ..s }));
    }
}

proof fn warehouses_down(s: AppView, k: nat)
    requires
        s.active_tab == 5,
        s.wh_scroll + k <= usize::MAX,
    ensures
        pressed(s, Key::Down, k) == (AppView { wh_scroll: (s.wh_scroll + k) as usize, ..s }),
    decreases k,
{
    if k > 0 {
        let t = main_step(s, Key::Down).0;
        assert(t =~= (AppView { wh_scroll: (s.wh_scroll + 1) as usize, ..s }));
        warehouses_down(t, (k - 1) as nat);
        assert(pressed(t, Key::Down, (k - 1) as nat) =~= (AppView {
            wh_scroll: (s.wh_scroll + k) as usize,
            ..s
        }));
    } else {
        assert(pressed(s, Key::Down, k) =~= (AppView { wh_scroll: (s.wh_scroll + k) as usize, ..s }));
    }
}

/// Every category in the list can be opened for editing, or its deletion
/// asked for, by keys from any state once logged in: Esc, `5`, Esc, Up until
/// the list is at its top, Down to the row's position, then Enter or `d`.
/// The form holds that row's name, and every Down on the way is allowed.
pub proof fn every_category_row_opens(s: AppView, n: usize)
    requires
        n < s.cat_rows.len(),
    ensures
        ({
            let a = main_step(s, Key::Esc).0;
            let b = main_step(main_step(a, Key::Char('5')).0, Key::Esc).0;
            let top = pressed(b, Key::Up, b.cat_scroll as nat);
            let t = pressed(top, Key::Down, n as nat);
            let r = s.cat_rows[n as int];
            &&& main_step(a, Key::Char('5')).1 == Command::Idle
            &&& forall|j: nat| j < n ==> down_fits(#[trigger] pressed(top, Key::Down, j))
            &&& main_step(t, Key::Enter).0.cat_mode == CategoryMode::Edit(r.id)
            &&& main_step(t, Key::Enter).0.cat_name == r.name@
            &&& main_step(t, Key::Char('d')).0.cat_mode == CategoryMode::DeleteConfirm(r.id, r.name)
        }),
{
    let a = main_step(s, Key::Esc).0;
    let b = main_step(main_step(a, Key::Char('5')).0, Key::Esc).0;
    assert(b.active_tab == 4 && b.cat_mode == CategoryMode::Browse && b.cat_rows == s.cat_rows);
    categories_up(b, b.cat_scroll as nat);
    let top = pressed(b, Key::Up, b.cat_scroll as nat);
    categories_down(top, n as nat);
    assert forall|j: nat| j < n implies down_fits(#[trigger] pressed(top, Key::Down, j)) by {
        categories_down(top, j);
    }
}

/// Every warehouse in the list can be opened for editing, or its deletion
/// asked for, by keys from any state once logged in: Esc, `6`, Esc, Up until
/// the list is at its top, Down to the row's position, then Enter or `d`.
/// The form holds that row's name and location, and every Down on the way is
/// allowed.
pub proof fn every_warehouse_row_opens(s: AppView, n: usize)
    requires
        n < s.wh_rows.len(),
    ensures
        ({
            let a = main_step(s, Key::Esc).0;
            let b = main_step(main_step(a, Key::Char('6')).0, Key::Esc).0;
            let top = pressed(b, Key::Up, b.wh_scroll as nat);
            let t = pressed(top, Key::Down, n as nat);
            let r = s.wh_rows[n as int];
            &&& main_step(a, Key::Char('6')).1 == Command::Idle
            &&& forall|j: nat| j < n ==> down_fits(#[trigger] pressed(top, Key::Down, j))
            &&& main_step(t, Key::Enter).0.wh_mode == WhMode::Edit(r.id)
            &&& main_step(t, Key::Enter).0.wh_name == r.name@
            &&& main_step(t, Key::Enter).0.wh_location == location_text(r.location)
            &&& main_step(t, Key::Char('d')).0.wh_mode == WhMode::DeleteConfirm(r.id, r.name)
        }),
{
    let a = main_step(s, Key::Esc).0;
    let b = main_step(main_step(a, Key::Char('6')).0, Key::Esc).0;
    assert(b.active_tab == 5 && b.wh_mode == WhMode::Browse && b.wh_rows == s.wh_rows);
    warehouses_up(b, b.wh_scroll as nat);
    let top = pressed(b, Key::Up, b.wh_scroll as nat);
    warehouses_down(top, n as nat);
    assert forall|j: nat| j < n implies down_fits(#[trigger] pressed(top, Key::Down, j)) by {
        warehouses_down(top, j);
    }
}

/// Esc always returns to navigation mode.
pub proof fn esc_returns_to_navigation(s: AppView)
    ensures
        main_step(s, Key::Esc).0.input_mode == InputMode::Normal,
{
}

/// The decimal text of a number is a nonempty run of digits that reads back
/// as the number.
pub proof fn decimal_reads_back(n: nat)
    ensures
        decimal(n).len() > 0,
        all_digits(decimal(n)),
        digits_value(decimal(n)) == n,
    decreases n,
{
    assert((digit_char(n % 10) as u32) == 48 + n % 10);
    if n >= 10 {
        decimal_reads_back(n / 10);
        let d = decimal(n / 10);
        assert(decimal(n) == d.push(digit_char(n % 10)));
        assert(d.push(digit_char(n % 10)).drop_last() =~= d);
        assert(decimal(n).last() == digit_char(n % 10));
        assert(digits_value(decimal(n)) == digits_value(d) * 10 + (n % 10));
        assert(n == (n / 10) * 10 + n % 10);
        assert forall|i: int| 0 <= i < decimal(n).len() implies #[trigger] crate::text::is_digit(
            decimal(n)[i],
        ) by {
            if i < d.len() {
                assert(decimal(n)[i] == d[i]);
            }
        }
    } else {
        assert(decimal(n).drop_last() =~= Seq::<char>::empty());
        assert(decimal(n).last() == digit_char(n));
        assert(digits_value(decimal(n)) == digits_value(Seq::<char>::empty()) * 10 + n);
    }
}

/// A quantity written as the status line writes it reads back as the same
/// quantity when typed into a form.
pub proof fn int_text_reads_back(n: i32)
    ensures
        parsed_i32(int_text(n as int)) == Some(n),
{
    if n < 0 {
        decimal_reads_back((-n) as nat);
        let d = decimal((-n) as nat);
        assert((seq!['-'] + d).drop_first() =~= d);
        assert((seq!['-'] + d)[0] == '-');
    } else {
        decimal_reads_back(n as nat);
        let d = decimal(n as nat);
        assert(crate::text::is_digit(d[0]));
    }
}

proof fn first_char_differs(t: Seq<char>, p: Seq<char>)
    requires
        p.len() > 0,
        t.len() > 0,
        t[0] != p[0],
    ensures
        !has_prefix(t, p),
{
    if has_prefix(t, p) {
        assert(t.subrange(0, p.len() as int)[0] == t[0]);
    }
}

/// After a stock reply, the status line is green exactly when the movement
/// was recorded, and red otherwise.
pub proof fn stock_status_tone(s: AppView, quantity: i32, r: WriteReply)
    ensures
        form_tone(stock_in_applied(s, quantity, r).si_status) == (if r is Done {
            Tone::Success
        } else {
            Tone::Failure
        }),
        form_tone(stock_out_applied(s, quantity, r).so_status) == (if r is Done {
            Tone::Success
        } else {
            Tone::Failure
        }),
{
    reveal_strlit("OK: +");
    reveal_strlit("OK: -");
    reveal_strlit("OK");
    reveal_strlit("ERR: ");
    reveal_strlit("ERR");
    let tail = int_text(quantity as int) + " "@;
    match r {
        WriteReply::Done => {
            let a = "OK: +"@ + tail + s.si_sku;
            assert(stock_in_applied(s, quantity, r).si_status == a);
            assert(a.subrange(0, 2) =~= "OK"@);
            assert(has_prefix(a, "OK"@));
            let b = "OK: -"@ + tail + s.so_sku;
            assert(stock_out_applied(s, quantity, r).so_status == b);
            assert(b.subrange(0, 2) =~= "OK"@);
            assert(has_prefix(b, "OK"@));

        },
        WriteReply::Refused(t) => {
            let a = "ERR: "@ + t@;
            first_char_differs(a, "OK"@);
            assert(a.subrange(0, 3) =~= "ERR"@);
        },
        WriteReply::Unreachable(t) => {
            let a = "ERR: "@ + t@;
            first_char_differs(a, "OK"@);
            assert(a.subrange(0, 3) =~= "ERR"@);
        },
    }
}

/// After a transactions reply the status line is red only when the service
/// could not be reached; rows, a refusal and a body that did not parse all
/// show in green.
pub proof fn transactions_status_tone(s: AppView, r: ListReply<TransactionRow>)
    ensures
        list_tone(transactions_applied(s, r).txn_status) == (if r is Unreachable {
            Tone::Failure
        } else {
            Tone::Success
        }),
{
    reveal_strlit("ERR: ");
    reveal_strlit("ERR");
    reveal_strlit("HTTP ");
    reveal_strlit("Parse err: ");
    match r {
        ListReply::Rows(rows) => {
            decimal_reads_back(rows@.len());
            let d = decimal(rows@.len());
            let t = transactions_applied(s, r).txn_status;
            assert(t == d + " "@ + "transactions"@);
            assert(t[0] == d[0]);
            assert(crate::text::is_digit(d[0]));
            assert(('E' as u32) == 69);
            assert(t[0] != 'E');
            assert(!has_prefix(t, "ERR"@)) by {
                if has_prefix(t, "ERR"@) {
                    assert(t.subrange(0, 3)[0] == t[0]);
                    assert("ERR"@[0] == 'E');
                }
            }
            assert(t.len() > 0);
        },
        ListReply::Unreachable(e) => {
            let t = "ERR: "@ + e@;
            assert(t.subrange(0, 3) =~= "ERR"@);
        },
        ListReply::Refused(e) => {
            let t = "HTTP "@ + e@;
            first_char_differs(t, "ERR"@);
        },
        ListReply::Unparsable(e) => {
            let t = "Parse err: "@ + e@;
            first_char_differs(t, "ERR"@);
        },
    }
}

/// Stock moves only on Enter with the focus on the button of its form.
pub proof fn stock_moves_only_from_button(s: AppView, key: Key)
    ensures
        key_step(s, key).1 == Command::StockIn ==> s.token is Some && key == Key::Enter
            && s.active_tab == 0 && s.si_focus == FormFocus::Button,
        key_step(s, key).1 == Command::StockOut ==> s.token is Some && key == Key::Enter
            && s.active_tab == 1 && s.so_focus == FormFocus::Button,
{
}

/// A category or warehouse is deleted only on Enter in the confirmation
/// that `d` opens, and only the one it names.
pub proof fn deletion_only_after_confirmation(s: AppView, key: Key)
    ensures
        key_step(s, key).1 == Command::DeleteCategory ==> s.token is Some && key == Key::Enter
            && s.active_tab == 4 && s.cat_mode is DeleteConfirm,
        key_step(s, key).1 == Command::DeleteWarehouse ==> s.token is Some && key == Key::Enter
            && s.active_tab == 5 && s.wh_mode is DeleteConfirm,
{
}

/// The confirmation of a deletion names the category at the top of the
/// scrolled list: `d` opens it for that row, with its id and name.
pub proof fn confirmation_names_listed_row(s: AppView, c: char)
    requires
        s.active_tab == 4,
        !(s.cat_mode is DeleteConfirm),
        switch_of(s, c) is None,
    ensures
        main_step(s, Key::Char(c)).0.cat_mode matches CategoryMode::DeleteConfirm(id, name) ==> (
        s.cat_scroll < s.cat_rows.len() && s.cat_rows[s.cat_scroll as int].id == id
            && s.cat_rows[s.cat_scroll as int].name == name),
{
}

/// No reply to a request other than a login moves the client to another
/// screen or changes its token.
pub proof fn replies_keep_screen_and_token(
    s: AppView,
    quantity: i32,
    w: WriteReply,
    t: ListReply<TransactionRow>,
    c: ListReply<CategoryRow>,
    h: ListReply<WarehouseRow>,
    done: Seq<char>,
)
    ensures
        ({
            let after = seq![
                stock_in_applied(s, quantity, w),
                stock_out_applied(s, quantity, w),
                transactions_applied(s, t),
                categories_applied(s, c),
                warehouses_applied(s, h),
                category_saved(s, w, done).0,
                category_deleted(s, w).0,
                warehouse_saved(s, w, done).0,
                warehouse_deleted(s, w).0,
            ];
            forall|i: int|
                0 <= i < after.len() ==> (#[trigger] after[i]).active_tab == s.active_tab
                    && after[i].token == s.token
        }),
{
}

/// An accepted login that carries a token gives the client that token, and
/// from then on keys go to the six screens.
pub proof fn accepted_login_opens_screens(s: AppView, r: LoginReply, key: Key)
    requires
        r matches LoginReply::Accepted(Some(_)),
    ensures
        login_applied(s, r).token is Some,
        key_step(login_applied(s, r), key) == main_step(login_applied(s, r), key),
{
}

/// A login reply without a token leaves the client on the login screen, with
/// the reason shown.
pub proof fn refused_login_stays(s: AppView, r: LoginReply)
    requires
        !(r matches LoginReply::Accepted(Some(_))),
    ensures
        login_applied(s, r).token == s.token,
        login_outcome(r) matches Err(e) && login_applied(s, r).login_error == e,
{
}

} // verus!
