//! Key handling: how each key edits the state, and which work on the
//! warehouse service it asks for.
use vstd::prelude::*;
use crate::model::{App, AppView, FormFocus, LoginFocus};
use crate::text::{backspaced, pop_char};

verus! {

/// A key press, as far as the client tells keys apart.
#[derive(Debug, Clone, Copy, PartialEq, Eq, Structural)]
pub enum Key {
    Char(char),
    Tab,
    BackTab,
    Backspace,
    Enter,
    Esc,
    Up,
    Down,
    Other,
}

/// Work on the warehouse service that a key press asks for.
#[derive(Debug, Clone, Copy, PartialEq, Eq, Structural)]
pub enum Command {
    Idle,
    Login,
    StockIn,
    StockOut,
    CheckInventory,
    FetchTransactions,
    FetchCategories,
    CreateCategory,
    UpdateCategory,
    DeleteCategory,
    FetchWarehouses,
    CreateWarehouse,
    UpdateWarehouse,
    DeleteWarehouse,
}

/// `t` after typing `c`, where the typing goes to `t` only if it has the focus.
pub open spec fn typed_if(t: Seq<char>, focused: bool, c: char) -> Seq<char> {
    if focused {
        t.push(c)
    } else {
        t
    }
}

/// `t` after a backspace, where the backspace goes to `t` only if it has the focus.
pub open spec fn erased_if(t: Seq<char>, focused: bool) -> Seq<char> {
    if focused {
        backspaced(t)
    } else {
        t
    }
}

/// Types `c` into the one of the four stock form fields that has the focus;
/// with the focus on the button, nothing changes.
pub fn push_field(
    sku: &mut String,
    qty: &mut String,
    wh: &mut String,
    rf: &mut String,
    focus: &FormFocus,
    c: char,
)
    ensures
        final(sku)@ == typed_if(old(sku)@, *focus == FormFocus::Sku, c),
        final(qty)@ == typed_if(old(qty)@, *focus == FormFocus::Qty, c),
        final(wh)@ == typed_if(old(wh)@, *focus == FormFocus::Warehouse, c),
        final(rf)@ == typed_if(old(rf)@, *focus == FormFocus::Reference, c),
{
    match focus {
        FormFocus::Sku => sku.push(c),
        FormFocus::Qty => qty.push(c),
        FormFocus::Warehouse => wh.push(c),
        FormFocus::Reference => rf.push(c),
        _ => {},
    }
}

/// Erases the last character of the one of the four stock form fields that
/// has the focus; with the focus on the button, nothing changes.
pub fn pop_field(
    sku: &mut String,
    qty: &mut String,
    wh: &mut String,
    rf: &mut String,
    focus: &FormFocus,
)
    ensures
        final(sku)@ == erased_if(old(sku)@, *focus == FormFocus::Sku),
        final(qty)@ == erased_if(old(qty)@, *focus == FormFocus::Qty),
        final(wh)@ == erased_if(old(wh)@, *focus == FormFocus::Warehouse),
        final(rf)@ == erased_if(old(rf)@, *focus == FormFocus::Reference),
{
    match focus {
        FormFocus::Sku => {
            pop_char(sku);
        },
        FormFocus::Qty => {
            pop_char(qty);
        },
        FormFocus::Warehouse => {
            pop_char(wh);
        },
        FormFocus::Reference => {
            pop_char(rf);
        },
        _ => {},
    }
}

/// The login focus after Tab: email, password, button, and round again.
pub open spec fn login_focus_after_tab(f: LoginFocus) -> LoginFocus {
    match f {
        LoginFocus::Email => LoginFocus::Password,
        LoginFocus::Password => LoginFocus::Button,
        LoginFocus::Button => LoginFocus::Email,
    }
}

/// The login focus after Shift+Tab: the other way round.
pub open spec fn login_focus_after_back_tab(f: LoginFocus) -> LoginFocus {
    match f {
        LoginFocus::Email => LoginFocus::Button,
        LoginFocus::Password => LoginFocus::Email,
        LoginFocus::Button => LoginFocus::Password,
    }
}

/// What a key does on the login screen: the new state and the work it asks for.
pub open spec fn login_step(s: AppView, key: Key) -> (AppView, Command) {
    match key {
        Key::Tab => (AppView { login_focus: login_focus_after_tab(s.login_focus), ..s }, Command::Idle),
        Key::BackTab => (
            AppView { login_focus: login_focus_after_back_tab(s.login_focus), ..s },
            Command::Idle,
        ),
        Key::Char(c) => (
            AppView {
                login_email: typed_if(s.login_email, s.login_focus == LoginFocus::Email, c),
                login_password: typed_if(
                    s.login_password,
                    s.login_focus == LoginFocus::Password,
                    c,
                ),
                ..s
            },
            Command::Idle,
        ),
        Key::Backspace => (
            AppView {
                login_email: erased_if(s.login_email, s.login_focus == LoginFocus::Email),
                login_password: erased_if(
                    s.login_password,
                    s.login_focus == LoginFocus::Password,
                ),
                ..s
            },
            Command::Idle,
        ),
        Key::Enter => if s.login_focus == LoginFocus::Button && s.login_email.len() > 0
            && s.login_password.len() > 0 {
            (AppView { login_error: Seq::empty(), ..s }, Command::Login)
        } else {
            (s, Command::Idle)
        },
        Key::Esc => (
            AppView { login_email: Seq::empty(), login_password: Seq::empty(), ..s },
            Command::Idle,
        ),
        _ => (s, Command::Idle),
    }
}

/// Handles a key on the login screen. Enter on the button, with an email and
/// a password typed, clears the login error and asks for a login with them.
pub fn handle_login_key(app: &mut App, key: Key) -> (cmd: Command)
    ensures
        final(app)@ == login_step(old(app)@, key).0,
        cmd == login_step(old(app)@, key).1,
{
    match key {
        Key::Tab => {
            app.login_focus =
            match app.login_focus {
                LoginFocus::Email => LoginFocus::Password,
                LoginFocus::Password => LoginFocus::Button,
                LoginFocus::Button => LoginFocus::Email,
            };
            Command::Idle
        },
        Key::BackTab => {
            app.login_focus =
            match app.login_focus {
                LoginFocus::Email => LoginFocus::Button,
                LoginFocus::Password => LoginFocus::Email,
                LoginFocus::Button => LoginFocus::Password,
            };
            Command::Idle
        },
        Key::Char(c) => {
            match app.login_focus {
                LoginFocus::Email => app.login_email.push(c),
                LoginFocus::Password => app.login_password.push(c),
                _ => {},
            }
            Command::Idle
        },
        Key::Backspace => {
            match app.login_focus {
                LoginFocus::Email => pop_char(&mut app.login_email),
                LoginFocus::Password => pop_char(&mut app.login_password),
                _ => {},
            }
            Command::Idle
        },
        Key::Enter => {
            if matches!(app.login_focus, LoginFocus::Button) && !app.login_email.as_str().is_empty()
                && !app.login_password.as_str().is_empty() {
                app.login_error.clear();
                Command::Login
            } else {
                Command::Idle
            }
        },
        Key::Esc => {
            app.login_email.clear();
            app.login_password.clear();
            Command::Idle
        },
        _ => Command::Idle,
    }
}

} // verus!
