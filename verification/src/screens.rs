//! Key handling once logged in: the six screens, their forms and lists.
use vstd::prelude::*;
use crate::keys::{
    erased_if, handle_login_key, login_step, pop_field, push_field, typed_if, Command, Key,
};
use crate::model::{
    App, AppView, CategoryMode, CategoryRow, FormFocus, InputMode, WarehouseRow, WhFormFocus,
    WhMode,
};
use crate::text::{backspaced, pop_char};

verus! {

/// The category at the top of the scrolled list, if the list reaches that far.
pub open spec fn top_category(s: AppView) -> Option<CategoryRow> {
    if s.cat_scroll < s.cat_rows.len() {
        Some(s.cat_rows[s.cat_scroll as int])
    } else {
        None
    }
}

/// The warehouse at the top of the scrolled list, if the list reaches that far.
pub open spec fn top_warehouse(s: AppView) -> Option<WarehouseRow> {
    if s.wh_scroll < s.wh_rows.len() {
        Some(s.wh_rows[s.wh_scroll as int])
    } else {
        None
    }
}

/// The screen that a number key selects: keys 1 to 6 select screens 0 to 5.
pub open spec fn screen_of_digit(c: char) -> Option<usize> {
    if c == '1' {
        Some(0)
    } else if c == '2' {
        Some(1)
    } else if c == '3' {
        Some(2)
    } else if c == '4' {
        Some(3)
    } else if c == '5' {
        Some(4)
    } else if c == '6' {
        Some(5)
    } else {
        None
    }
}

/// Switching to screen `t`; the categories and warehouses screens ask for
/// their list when they have none yet.
pub open spec fn selected_screen(s: AppView, t: usize) -> (AppView, Command) {
    let next = AppView { active_tab: t, ..s };
    if t == 4 && s.cat_rows.len() == 0 {
        (next, Command::FetchCategories)
    } else if t == 5 && s.wh_rows.len() == 0 {
        (next, Command::FetchWarehouses)
    } else {
        (next, Command::Idle)
    }
}

/// The stock form focus after Tab: SKU, quantity, warehouse, reference,
/// button, and round again.
pub open spec fn form_focus_after_tab(f: FormFocus) -> FormFocus {
    match f {
        FormFocus::Sku => FormFocus::Qty,
        FormFocus::Qty => FormFocus::Warehouse,
        FormFocus::Warehouse => FormFocus::Reference,
        FormFocus::Reference => FormFocus::Button,
        FormFocus::Button => FormFocus::Sku,
    }
}

/// The stock form focus after Shift+Tab: the other way round.
pub open spec fn form_focus_after_back_tab(f: FormFocus) -> FormFocus {
    match f {
        FormFocus::Sku => FormFocus::Button,
        FormFocus::Qty => FormFocus::Sku,
        FormFocus::Warehouse => FormFocus::Qty,
        FormFocus::Reference => FormFocus::Warehouse,
        FormFocus::Button => FormFocus::Reference,
    }
}

/// The other field of the warehouse form.
pub open spec fn wh_focus_toggled(f: WhFormFocus) -> WhFormFocus {
    match f {
        WhFormFocus::Name => WhFormFocus::Location,
        WhFormFocus::Location => WhFormFocus::Name,
    }
}

/// Tab: typing mode, and the focus moves on in the form of the screen.
pub open spec fn after_tab(s: AppView) -> AppView {
    let editing = AppView { input_mode: InputMode::Editing, ..s };
    if s.active_tab == 5 {
        AppView { wh_focus: wh_focus_toggled(s.wh_focus), ..editing }
    } else if s.active_tab == 0 {
        AppView { si_focus: form_focus_after_tab(s.si_focus), ..editing }
    } else if s.active_tab == 1 {
        AppView { so_focus: form_focus_after_tab(s.so_focus), ..editing }
    } else {
        editing
    }
}

/// Shift+Tab: the focus moves back in the form of the screen.
pub open spec fn after_back_tab(s: AppView) -> AppView {
    if s.active_tab == 5 {
        AppView { wh_focus: wh_focus_toggled(s.wh_focus), ..s }
    } else if s.active_tab == 0 {
        AppView { si_focus: form_focus_after_back_tab(s.si_focus), ..s }
    } else if s.active_tab == 1 {
        AppView { so_focus: form_focus_after_back_tab(s.so_focus), ..s }
    } else {
        s
    }
}

/// Esc: navigation mode; the categories and warehouses screens go back to
/// browsing and drop what their form held.
pub open spec fn after_esc(s: AppView) -> AppView {
    let normal = AppView { input_mode: InputMode::Normal, ..s };
    if s.active_tab == 4 {
        AppView { cat_mode: CategoryMode::Browse, cat_name: Seq::empty(), ..normal }
    } else if s.active_tab == 5 {
        AppView {
            wh_mode: WhMode::Browse,
            wh_name: Seq::empty(),
            wh_location: Seq::empty(),
            ..normal
        }
    } else {
        normal
    }
}

/// The text of an optional location, empty when there is none.
pub open spec fn location_text(l: Option<String>) -> Seq<char> {
    match l {
        Some(t) => t@,
        None => Seq::empty(),
    }
}

/// Enter on the categories screen: while browsing, an unloaded list is asked
/// for, and otherwise the category at the top of the scrolled list opens for
/// editing; an open form is submitted and a pending deletion confirmed.
pub open spec fn after_enter_categories(s: AppView) -> (AppView, Command) {
    match s.cat_mode {
        CategoryMode::Browse => if s.cat_rows.len() == 0 {
            (s, Command::FetchCategories)
        } else {
            match top_category(s) {
                Some(r) => (
                    AppView {
                        cat_name: r.name@,
                        cat_mode: CategoryMode::Edit(r.id),
                        cat_selected: Some(r.id),
                        ..s
                    },
                    Command::Idle,
                ),
                None => (s, Command::Idle),
            }
        },
        CategoryMode::Create => (s, Command::CreateCategory),
        CategoryMode::Edit(_) => (s, Command::UpdateCategory),
        CategoryMode::DeleteConfirm(_, _) => (s, Command::DeleteCategory),
    }
}

/// Enter on the warehouses screen, as on the categories screen.
pub open spec fn after_enter_warehouses(s: AppView) -> (AppView, Command) {
    match s.wh_mode {
        WhMode::Browse => if s.wh_rows.len() == 0 {
            (s, Command::FetchWarehouses)
        } else {
            match top_warehouse(s) {
                Some(r) => (
                    AppView {
                        wh_name: r.name@,
                        wh_location: location_text(r.location),
                        wh_mode: WhMode::Edit(r.id),
                        wh_selected: Some(r.id),
                        ..s
                    },
                    Command::Idle,
                ),
                None => (s, Command::Idle),
            }
        },
        WhMode::Create => (s, Command::CreateWarehouse),
        WhMode::Edit(_) => (s, Command::UpdateWarehouse),
        WhMode::DeleteConfirm(_, _) => (s, Command::DeleteWarehouse),
    }
}

/// Enter: submit the form of the screen, load its list, or open the row at
/// the top of the scrolled list for editing.
pub open spec fn after_enter(s: AppView) -> (AppView, Command) {
    if s.active_tab == 0 {
        (s, if s.si_focus == FormFocus::Button { Command::StockIn } else { Command::Idle })
    } else if s.active_tab == 1 {
        (s, if s.so_focus == FormFocus::Button { Command::StockOut } else { Command::Idle })
    } else if s.active_tab == 2 {
        (s, Command::CheckInventory)
    } else if s.active_tab == 3 {
        (s, Command::FetchTransactions)
    } else if s.active_tab == 4 {
        after_enter_categories(s)
    } else if s.active_tab == 5 {
        after_enter_warehouses(s)
    } else {
        (s, Command::Idle)
    }
}

/// Up: the list of the screen scrolls up by one row, down to the top.
pub open spec fn after_up(s: AppView) -> AppView {
    if s.active_tab == 3 && s.txn_scroll > 0 {
        AppView { txn_scroll: (s.txn_scroll - 1) as usize, ..s }
    } else if s.active_tab == 4 && s.cat_scroll > 0 {
        AppView { cat_scroll: (s.cat_scroll - 1) as usize, ..s }
    } else if s.active_tab == 5 && s.wh_scroll > 0 {
        AppView { wh_scroll: (s.wh_scroll - 1) as usize, ..s }
    } else {
        s
    }
}

/// Down fits: the scroll offset of the list on screen can grow by one.
pub open spec fn down_fits(s: AppView) -> bool {
    &&& s.active_tab == 3 ==> s.txn_scroll < usize::MAX
    &&& s.active_tab == 4 ==> s.cat_scroll < usize::MAX
    &&& s.active_tab == 5 ==> s.wh_scroll < usize::MAX
}

/// Down: the list of the screen scrolls down by one row.
pub open spec fn after_down(s: AppView) -> AppView {
    if s.active_tab == 3 {
        AppView { txn_scroll: (s.txn_scroll + 1) as usize, ..s }
    } else if s.active_tab == 4 {
        AppView { cat_scroll: (s.cat_scroll + 1) as usize, ..s }
    } else if s.active_tab == 5 {
        AppView { wh_scroll: (s.wh_scroll + 1) as usize, ..s }
    } else {
        s
    }
}

/// A character on the categories screen: typed into the name while the form
/// is open; otherwise `n` opens an empty form and `d` asks to confirm the
/// deletion of the category at the top of the scrolled list.
pub open spec fn typed_categories(s: AppView, c: char) -> AppView {
    match s.cat_mode {
        CategoryMode::Create | CategoryMode::Edit(_) => AppView { cat_name: s.cat_name.push(c), ..s },
        _ => if c == 'n' {
            AppView { cat_mode: CategoryMode::Create, cat_name: Seq::empty(), ..s }
        } else if c == 'd' {
            match top_category(s) {
                Some(r) => AppView {
                    cat_mode: CategoryMode::DeleteConfirm(r.id, r.name),
                    cat_selected: Some(r.id),
                    ..s
                },
                None => s,
            }
        } else {
            s
        },
    }
}

/// A character on the warehouses screen: typed into the focused field while
/// the form is open; otherwise `n` opens an empty form and `d` asks to confirm
/// the deletion of the warehouse at the top of the scrolled list.
pub open spec fn typed_warehouses(s: AppView, c: char) -> AppView {
    match s.wh_mode {
        WhMode::Create | WhMode::Edit(_) => AppView {
            wh_name: typed_if(s.wh_name, s.wh_focus == WhFormFocus::Name, c),
            wh_location: typed_if(s.wh_location, s.wh_focus == WhFormFocus::Location, c),
            ..s
        },
        _ => if c == 'n' {
            AppView {
                wh_mode: WhMode::Create,
                wh_name: Seq::empty(),
                wh_location: Seq::empty(),
                ..s
            }
        } else if c == 'd' {
            match top_warehouse(s) {
                Some(r) => AppView {
                    wh_mode: WhMode::DeleteConfirm(r.id, r.name),
                    wh_selected: Some(r.id),
                    ..s
                },
                None => s,
            }
        } else {
            s
        },
    }
}

/// A character that selects no screen: typing mode, and the character goes
/// to the form of the screen.
pub open spec fn after_char(s: AppView, c: char) -> AppView {
    let t = AppView { input_mode: InputMode::Editing, ..s };
    if s.active_tab == 0 {
        AppView {
            si_sku: typed_if(s.si_sku, s.si_focus == FormFocus::Sku, c),
            si_qty: typed_if(s.si_qty, s.si_focus == FormFocus::Qty, c),
            si_wh: typed_if(s.si_wh, s.si_focus == FormFocus::Warehouse, c),
            si_ref: typed_if(s.si_ref, s.si_focus == FormFocus::Reference, c),
            ..t
        }
    } else if s.active_tab == 1 {
        AppView {
            so_sku: typed_if(s.so_sku, s.so_focus == FormFocus::Sku, c),
            so_qty: typed_if(s.so_qty, s.so_focus == FormFocus::Qty, c),
            so_wh: typed_if(s.so_wh, s.so_focus == FormFocus::Warehouse, c),
            so_ref: typed_if(s.so_ref, s.so_focus == FormFocus::Reference, c),
            ..t
        }
    } else if s.active_tab == 2 {
        AppView { ck_sku: s.ck_sku.push(c), ..t }
    } else if s.active_tab == 4 {
        typed_categories(t, c)
    } else if s.active_tab == 5 {
        typed_warehouses(t, c)
    } else {
        t
    }
}

/// Backspace: the last character of the focused field of the screen goes.
pub open spec fn after_backspace(s: AppView) -> AppView {
    if s.active_tab == 0 {
        AppView {
            si_sku: erased_if(s.si_sku, s.si_focus == FormFocus::Sku),
            si_qty: erased_if(s.si_qty, s.si_focus == FormFocus::Qty),
            si_wh: erased_if(s.si_wh, s.si_focus == FormFocus::Warehouse),
            si_ref: erased_if(s.si_ref, s.si_focus == FormFocus::Reference),
            ..s
        }
    } else if s.active_tab == 1 {
        AppView {
            so_sku: erased_if(s.so_sku, s.so_focus == FormFocus::Sku),
            so_qty: erased_if(s.so_qty, s.so_focus == FormFocus::Qty),
            so_wh: erased_if(s.so_wh, s.so_focus == FormFocus::Warehouse),
            so_ref: erased_if(s.so_ref, s.so_focus == FormFocus::Reference),
            ..s
        }
    } else if s.active_tab == 2 {
        AppView { ck_sku: backspaced(s.ck_sku), ..s }
    } else if s.active_tab == 4 {
        AppView { cat_name: backspaced(s.cat_name), ..s }
    } else if s.active_tab == 5 {
        AppView {
            wh_name: erased_if(s.wh_name, s.wh_focus == WhFormFocus::Name),
            wh_location: erased_if(s.wh_location, s.wh_focus == WhFormFocus::Location),
            ..s
        }
    } else {
        s
    }
}

/// The screen has a text field that takes typed characters: a field of a
/// stock form, the SKU of the check screen, or an open category or warehouse form.
pub open spec fn takes_text(s: AppView) -> bool {
    ||| s.active_tab == 0 && s.si_focus != FormFocus::Button
    ||| s.active_tab == 1 && s.so_focus != FormFocus::Button
    ||| s.active_tab == 2
    ||| s.active_tab == 4 && (s.cat_mode is Create || s.cat_mode is Edit)
    ||| s.active_tab == 5 && (s.wh_mode is Create || s.wh_mode is Edit)
}

/// The screen that a character switches to: keys 1 to 6 select a screen,
/// except while the operator is typing into a text field, where they are typed.
pub open spec fn switch_of(s: AppView, c: char) -> Option<usize> {
    if s.input_mode == InputMode::Editing && takes_text(s) {
        None
    } else {
        screen_of_digit(c)
    }
}

fn typing_text(app: &App) -> (b: bool)
    ensures
        b == (app@.input_mode == InputMode::Editing && takes_text(app@)),
{
    matches!(app.input_mode, InputMode::Editing) && (
    (app.active_tab == 0 && !matches!(app.si_focus, FormFocus::Button))
        || (app.active_tab == 1 && !matches!(app.so_focus, FormFocus::Button)) || app.active_tab
        == 2 || (app.active_tab == 4 && matches!(app.cat_mode, CategoryMode::Create | CategoryMode::Edit(_)))
        || (app.active_tab == 5 && matches!(app.wh_mode, WhMode::Create | WhMode::Edit(_))))
}

/// What a key does once logged in: the new state and the work it asks for.
pub open spec fn main_step(s: AppView, key: Key) -> (AppView, Command) {
    match key {
        Key::Char(c) => match switch_of(s, c) {
            Some(t) => selected_screen(s, t),
            None => (after_char(s, c), Command::Idle),
        },
        Key::Tab => (after_tab(s), Command::Idle),
        Key::BackTab => (after_back_tab(s), Command::Idle),
        Key::Esc => (after_esc(s), Command::Idle),
        Key::Enter => after_enter(s),
        Key::Up => (after_up(s), Command::Idle),
        Key::Down => (after_down(s), Command::Idle),
        Key::Backspace => (after_backspace(s), Command::Idle),
        Key::Other => (s, Command::Idle),
    }
}

fn select_screen(app: &mut App, t: usize) -> (cmd: Command)
    ensures
        final(app)@ == selected_screen(old(app)@, t).0,
        cmd == selected_screen(old(app)@, t).1,
{
    app.active_tab = t;
    if t == 4 && app.cat_rows.len() == 0 {
        Command::FetchCategories
    } else if t == 5 && app.wh_rows.len() == 0 {
        Command::FetchWarehouses
    } else {
        Command::Idle
    }
}

fn tab_forward(app: &mut App)
    ensures
        final(app)@ == after_tab(old(app)@),
{
    if matches!(app.input_mode, InputMode::Normal) {
        app.input_mode = InputMode::Editing;
    }
    if app.active_tab == 5 {
        app.wh_focus =
        match app.wh_focus {
            WhFormFocus::Name => WhFormFocus::Location,
            WhFormFocus::Location => WhFormFocus::Name,
        };
        return ;
    }
    let next = |f: FormFocus| -> (r: FormFocus)
        ensures
            r == form_focus_after_tab(f),
        {
            match f {
                FormFocus::Sku => FormFocus::Qty,
                FormFocus::Qty => FormFocus::Warehouse,
                FormFocus::Warehouse => FormFocus::Reference,
                FormFocus::Reference => FormFocus::Button,
                FormFocus::Button => FormFocus::Sku,
            }
        };
    if app.active_tab == 0 {
        app.si_focus = next(app.si_focus);
    } else if app.active_tab == 1 {
        app.so_focus = next(app.so_focus);
    }
}

fn tab_backward(app: &mut App)
    ensures
        final(app)@ == after_back_tab(old(app)@),
{
    if app.active_tab == 5 {
        app.wh_focus =
        match app.wh_focus {
            WhFormFocus::Name => WhFormFocus::Location,
            WhFormFocus::Location => WhFormFocus::Name,
        };
        return ;
    }
    let prev = |f: FormFocus| -> (r: FormFocus)
        ensures
            r == form_focus_after_back_tab(f),
        {
            match f {
                FormFocus::Sku => FormFocus::Button,
                FormFocus::Qty => FormFocus::Sku,
                FormFocus::Warehouse => FormFocus::Qty,
                FormFocus::Reference => FormFocus::Warehouse,
                FormFocus::Button => FormFocus::Reference,
            }
        };
    if app.active_tab == 0 {
        app.si_focus = prev(app.si_focus);
    } else if app.active_tab == 1 {
        app.so_focus = prev(app.so_focus);
    }
}

fn escape(app: &mut App)
    ensures
        final(app)@ == after_esc(old(app)@),
{
    app.input_mode = InputMode::Normal;
    if app.active_tab == 4 {
        app.cat_mode = CategoryMode::Browse;
        app.cat_name.clear();
    }
    if app.active_tab == 5 {
        app.wh_mode = WhMode::Browse;
        app.wh_name.clear();
        app.wh_location.clear();
    }
}

fn enter_categories(app: &mut App) -> (cmd: Command)
    ensures
        final(app)@ == after_enter_categories(old(app)@).0,
        cmd == after_enter_categories(old(app)@).1,
{
    match &app.cat_mode {
        CategoryMode::Browse => {
            if app.cat_rows.len() == 0 {
                Command::FetchCategories
            } else {
                if app.cat_scroll < app.cat_rows.len() {
                    let id = app.cat_rows[app.cat_scroll].id;
                    let name = app.cat_rows[app.cat_scroll].name.clone();
                    app.cat_name = name;
                    app.cat_mode = CategoryMode::Edit(id);
                    app.cat_selected = Some(id);
                }
                Command::Idle
            }
        },
        CategoryMode::Create => Command::CreateCategory,
        CategoryMode::Edit(_) => Command::UpdateCategory,
        CategoryMode::DeleteConfirm(_, _) => Command::DeleteCategory,
    }
}

fn enter_warehouses(app: &mut App) -> (cmd: Command)
    ensures
        final(app)@ == after_enter_warehouses(old(app)@).0,
        cmd == after_enter_warehouses(old(app)@).1,
{
    match &app.wh_mode {
        WhMode::Browse => {
            if app.wh_rows.len() == 0 {
                Command::FetchWarehouses
            } else {
                if app.wh_scroll < app.wh_rows.len() {
                    let i = app.wh_scroll;
                    let id = app.wh_rows[i].id;
                    let name = app.wh_rows[i].name.clone();
                    let location = match &app.wh_rows[i].location {
                        Some(l) => l.clone(),
                        None => String::new(),
                    };
                    app.wh_name = name;
                    app.wh_location = location;
                    app.wh_mode = WhMode::Edit(id);
                    app.wh_selected = Some(id);
                }
                Command::Idle
            }
        },
        WhMode::Create => Command::CreateWarehouse,
        WhMode::Edit(_) => Command::UpdateWarehouse,
        WhMode::DeleteConfirm(_, _) => Command::DeleteWarehouse,
    }
}

fn enter(app: &mut App) -> (cmd: Command)
    ensures
        final(app)@ == after_enter(old(app)@).0,
        cmd == after_enter(old(app)@).1,
{
    if app.active_tab == 0 {
        if matches!(app.si_focus, FormFocus::Button) {
            Command::StockIn
        } else {
            Command::Idle
        }
    } else if app.active_tab == 1 {
        if matches!(app.so_focus, FormFocus::Button) {
            Command::StockOut
        } else {
            Command::Idle
        }
    } else if app.active_tab == 2 {
        Command::CheckInventory
    } else if app.active_tab == 3 {
        Command::FetchTransactions
    } else if app.active_tab == 4 {
        enter_categories(app)
    } else if app.active_tab == 5 {
        enter_warehouses(app)
    } else {
        Command::Idle
    }
}

fn scroll_up(app: &mut App)
    ensures
        final(app)@ == after_up(old(app)@),
{
    if app.active_tab == 3 && app.txn_scroll > 0 {
        app.txn_scroll = app.txn_scroll - 1;
    }
    if app.active_tab == 4 && app.cat_scroll > 0 {
        app.cat_scroll = app.cat_scroll - 1;
    }
    if app.active_tab == 5 && app.wh_scroll > 0 {
        app.wh_scroll = app.wh_scroll - 1;
    }
}

fn scroll_down(app: &mut App)
    requires
        down_fits(old(app)@),
    ensures
        final(app)@ == after_down(old(app)@),
{
    if app.active_tab == 3 {
        app.txn_scroll = app.txn_scroll + 1;
    }
    if app.active_tab == 4 {
        app.cat_scroll = app.cat_scroll + 1;
    }
    if app.active_tab == 5 {
        app.wh_scroll = app.wh_scroll + 1;
    }
}

fn type_categories(app: &mut App, c: char)
    ensures
        final(app)@ == typed_categories(old(app)@, c),
{
    match &app.cat_mode {
        CategoryMode::Create | CategoryMode::Edit(_) => {
            app.cat_name.push(c);
        },
        _ => {
            if c == 'n' {
                app.cat_mode = CategoryMode::Create;
                app.cat_name.clear();
            } else if c == 'd' {
                if app.cat_scroll < app.cat_rows.len() {
                    let id = app.cat_rows[app.cat_scroll].id;
                    let name = app.cat_rows[app.cat_scroll].name.clone();
                    app.cat_mode = CategoryMode::DeleteConfirm(id, name);
                    app.cat_selected = Some(id);
                }
            }
        },
    }
}

fn type_warehouses(app: &mut App, c: char)
    ensures
        final(app)@ == typed_warehouses(old(app)@, c),
{
    match &app.wh_mode {
        WhMode::Create | WhMode::Edit(_) => {
            match app.wh_focus {
                WhFormFocus::Name => app.wh_name.push(c),
                WhFormFocus::Location => app.wh_location.push(c),
            }
        },
        _ => {
            if c == 'n' {
                app.wh_mode = WhMode::Create;
                app.wh_name.clear();
                app.wh_location.clear();
            } else if c == 'd' {
                if app.wh_scroll < app.wh_rows.len() {
                    let id = app.wh_rows[app.wh_scroll].id;
                    let name = app.wh_rows[app.wh_scroll].name.clone();
                    app.wh_mode = WhMode::DeleteConfirm(id, name);
                    app.wh_selected = Some(id);
                }
            }
        },
    }
}

fn type_char(app: &mut App, c: char)
    ensures
        final(app)@ == after_char(old(app)@, c),
{
    if matches!(app.input_mode, InputMode::Normal) {
        app.input_mode = InputMode::Editing;
    }
    if app.active_tab == 0 {
        let focus = app.si_focus;
        push_field(&mut app.si_sku, &mut app.si_qty, &mut app.si_wh, &mut app.si_ref, &focus, c);
    } else if app.active_tab == 1 {
        let focus = app.so_focus;
        push_field(&mut app.so_sku, &mut app.so_qty, &mut app.so_wh, &mut app.so_ref, &focus, c);
    } else if app.active_tab == 2 {
        app.ck_sku.push(c);
    } else if app.active_tab == 4 {
        type_categories(app, c);
    } else if app.active_tab == 5 {
        type_warehouses(app, c);
    }
}

fn erase(app: &mut App)
    ensures
        final(app)@ == after_backspace(old(app)@),
{
    if app.active_tab == 0 {
        let focus = app.si_focus;
        pop_field(&mut app.si_sku, &mut app.si_qty, &mut app.si_wh, &mut app.si_ref, &focus);
    } else if app.active_tab == 1 {
        let focus = app.so_focus;
        pop_field(&mut app.so_sku, &mut app.so_qty, &mut app.so_wh, &mut app.so_ref, &focus);
    } else if app.active_tab == 2 {
        pop_char(&mut app.ck_sku);
    } else if app.active_tab == 4 {
        pop_char(&mut app.cat_name);
    } else if app.active_tab == 5 {
        match app.wh_focus {
            WhFormFocus::Name => pop_char(&mut app.wh_name),
            WhFormFocus::Location => pop_char(&mut app.wh_location),
        }
    }
}

/// Handles a key once logged in, and names the work on the service that it
/// asks for. Keys 1 to 6 switch screens except while a text field takes typing;
/// on the categories and warehouses lists, Enter and `d` act on the row at the
/// top of the scrolled list. Down on a list whose scroll offset is at `usize::MAX` is left out:
/// the offset would overflow.
pub fn handle_main_key(app: &mut App, key: Key) -> (cmd: Command)
    requires
        key == Key::Down ==> down_fits(old(app)@),
    ensures
        final(app)@ == main_step(old(app)@, key).0,
        cmd == main_step(old(app)@, key).1,
{
    match key {
        Key::Char(c) => {
            if typing_text(app) {
                type_char(app, c);
                Command::Idle
            } else if c == '1' {
                select_screen(app, 0)
            } else if c == '2' {
                select_screen(app, 1)
            } else if c == '3' {
                select_screen(app, 2)
            } else if c == '4' {
                select_screen(app, 3)
            } else if c == '5' {
                select_screen(app, 4)
            } else if c == '6' {
                select_screen(app, 5)
            } else {
                type_char(app, c);
                Command::Idle
            }
        },
        Key::Tab => {
            tab_forward(app);
            Command::Idle
        },
        Key::BackTab => {
            tab_backward(app);
            Command::Idle
        },
        Key::Esc => {
            escape(app);
            Command::Idle
        },
        Key::Enter => enter(app),
        Key::Up => {
            scroll_up(app);
            Command::Idle
        },
        Key::Down => {
            scroll_down(app);
            Command::Idle
        },
        Key::Backspace => {
            erase(app);
            Command::Idle
        },
        Key::Other => Command::Idle,
    }
}

/// What a key does: login keys until the client holds a token, screen keys after.
pub open spec fn key_step(s: AppView, key: Key) -> (AppView, Command) {
    if s.token is None {
        login_step(s, key)
    } else {
        main_step(s, key)
    }
}

/// The keys that the client handles: all but Down, once logged in, on a list
/// whose scroll offset cannot grow.
pub open spec fn key_allowed(s: AppView, key: Key) -> bool {
    s.token is Some && key == Key::Down ==> down_fits(s)
}

/// Handles one key press: on the login screen until the client holds a
/// token, on the six screens after.
pub fn handle_key(app: &mut App, key: Key) -> (cmd: Command)
    requires
        key_allowed(old(app)@, key),
    ensures
        final(app)@ == key_step(old(app)@, key).0,
        cmd == key_step(old(app)@, key).1,
{
    if app.token.is_none() {
        handle_login_key(app, key)
    } else {
        handle_main_key(app, key)
    }
}

} // verus!
