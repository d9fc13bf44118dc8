//! What the screens show: the texts and highlights that the drawing code puts
//! on the terminal, derived from the state.
use vstd::prelude::*;
use vstd::string::*;
use vstd::utf8::encode_utf8;
use crate::model::{
    App, CategoryMode, CategoryRow, FormFocus, InventoryResult, TransactionRow, WarehouseRow,
    WhMode,
};
use crate::text::{decimal, int_text, int_to_text, push_decimal, push_int};

verus! {

/// How a status line is coloured.
#[derive(Debug, Clone, Copy, PartialEq, Eq, Structural)]
pub enum Tone {
    Success,
    Failure,
    Muted,
    Plain,
}

/// `p` is a prefix of `s`.
pub open spec fn has_prefix(s: Seq<char>, p: Seq<char>) -> bool {
    p.len() <= s.len() && s.subrange(0, p.len() as int) == p
}

/// Decides `has_prefix`.
pub fn starts_with(s: &str, p: &str) -> (b: bool)
    ensures
        b == has_prefix(s@, p@),
{
    let n = s.unicode_len();
    let m = p.unicode_len();
    if m > n {
        return false;
    }
    let mut i: usize = 0;
    while i < m
        invariant
            m <= n,
            n == s@.len(),
            m == p@.len(),
            i <= m,
            forall|j: int| 0 <= j < i ==> s@[j] == p@[j],
        decreases m - i,
    {
        if s.get_char(i) != p.get_char(i) {
            assert(s@.subrange(0, m as int)[i as int] != p@[i as int]);
            return false;
        }
        i = i + 1;
    }
    assert(s@.subrange(0, m as int) =~= p@);
    true
}

/// The colour of a stock form's status: green after `OK`, red after `ERR`,
/// grey otherwise.
pub open spec fn form_tone(status: Seq<char>) -> Tone {
    if has_prefix(status, "OK"@) {
        Tone::Success
    } else if has_prefix(status, "ERR"@) {
        Tone::Failure
    } else {
        Tone::Muted
    }
}

/// The colour of a stock form's status line.
pub fn form_status_tone(status: &str) -> (t: Tone)
    ensures
        t == form_tone(status@),
{
    if starts_with(status, "OK") {
        Tone::Success
    } else if starts_with(status, "ERR") {
        Tone::Failure
    } else {
        Tone::Muted
    }
}

/// The colour of a list's status: red after `ERR`, green when there is any
/// other text, plain when there is none.
pub open spec fn list_tone(status: Seq<char>) -> Tone {
    if has_prefix(status, "ERR"@) {
        Tone::Failure
    } else if status.len() > 0 {
        Tone::Success
    } else {
        Tone::Plain
    }
}

/// The colour of a list's status line.
pub fn list_status_tone(status: &str) -> (t: Tone)
    ensures
        t == list_tone(status@),
{
    if starts_with(status, "ERR") {
        Tone::Failure
    } else if !status.is_empty() {
        Tone::Success
    } else {
        Tone::Plain
    }
}

/// The password as the login screen shows it: one bullet per character.
pub fn masked_password(password: &str) -> (m: String)
    ensures
        m@.len() == password@.len(),
        forall|i: int| 0 <= i < m@.len() ==> m@[i] == '•',
{
    let n = password.unicode_len();
    let mut m = String::new();
    let mut i: usize = 0;
    while i < n
        invariant
            i <= n,
            m@.len() == i,
            forall|j: int| 0 <= j < i ==> m@[j] == '•',
        decreases n - i,
    {
        m.push('•');
        i = i + 1;
    }
    m
}

/// The title of screen `i` on the tab bar: ` <name> [<i>] `.
pub open spec fn tab_title_text(name: Seq<char>, i: nat) -> Seq<char> {
    " "@ + name + " ["@ + decimal(i) + "] "@
}

/// The titles of the tab bar, in order.
pub fn tab_titles(app: &App) -> (titles: Vec<String>)
    ensures
        titles@.len() == app.tabs@.len(),
        forall|i: int|
            0 <= i < titles@.len() ==> (#[trigger] titles@[i])@ == tab_title_text(
                app.tabs@[i]@,
                i as nat,
            ),
{
    let mut titles: Vec<String> = Vec::new();
    let mut i: usize = 0;
    while i < app.tabs.len()
        invariant
            i <= app.tabs@.len(),
            titles@.len() == i,
            forall|j: int|
                0 <= j < i ==> (#[trigger] titles@[j])@ == tab_title_text(app.tabs@[j]@, j as nat),
        decreases app.tabs@.len() - i,
    {
        let mut t = String::from_str(" ");
        t.append(app.tabs[i]);
        t.append(" [");
        push_decimal(&mut t, i as u64);
        t.append("] ");
        assert(t@ =~= tab_title_text(app.tabs@[i as int]@, i as nat));
        titles.push(t);
        i = i + 1;
    }
    titles
}

/// One field of a stock form as drawn: its label, its text, and whether it
/// is highlighted.
pub struct FieldView {
    pub label: String,
    pub value: String,
    pub focused: bool,
}

/// The four fields of a stock form as drawn, in order: SKU, quantity,
/// warehouse and reference, the focused one highlighted.
pub open spec fn fields_shown(
    fields: Seq<FieldView>,
    sku: Seq<char>,
    qty: Seq<char>,
    wh: Seq<char>,
    rf: Seq<char>,
    focus: FormFocus,
) -> bool {
    &&& fields.len() == 4
    &&& fields[0].label@ == "SKU"@ && fields[0].value@ == sku && fields[0].focused == (focus
        == FormFocus::Sku)
    &&& fields[1].label@ == "Quantity"@ && fields[1].value@ == qty && fields[1].focused == (focus
        == FormFocus::Qty)
    &&& fields[2].label@ == "Warehouse ID"@ && fields[2].value@ == wh && fields[2].focused == (
    focus == FormFocus::Warehouse)
    &&& fields[3].label@ == "Reference"@ && fields[3].value@ == rf && fields[3].focused == (focus
        == FormFocus::Reference)
}

fn form_fields(
    sku: &String,
    qty: &String,
    wh: &String,
    rf: &String,
    focus: FormFocus,
) -> (fields: Vec<FieldView>)
    ensures
        fields_shown(fields@, sku@, qty@, wh@, rf@, focus),
{
    let mut fields: Vec<FieldView> = Vec::new();
    fields.push(
        FieldView {
            label: String::from_str("SKU"),
            value: sku.clone(),
            focused: matches!(focus, FormFocus::Sku),
        },
    );
    fields.push(
        FieldView {
            label: String::from_str("Quantity"),
            value: qty.clone(),
            focused: matches!(focus, FormFocus::Qty),
        },
    );
    fields.push(
        FieldView {
            label: String::from_str("Warehouse ID"),
            value: wh.clone(),
            focused: matches!(focus, FormFocus::Warehouse),
        },
    );
    fields.push(
        FieldView {
            label: String::from_str("Reference"),
            value: rf.clone(),
            focused: matches!(focus, FormFocus::Reference),
        },
    );
    fields
}

/// The fields of the stock-in form as drawn.
pub fn stock_in_fields(app: &App) -> (fields: Vec<FieldView>)
    ensures
        fields_shown(fields@, app.si_sku@, app.si_qty@, app.si_wh@, app.si_ref@, app.si_focus),
{
    form_fields(&app.si_sku, &app.si_qty, &app.si_wh, &app.si_ref, app.si_focus)
}

/// The fields of the stock-out form as drawn.
pub fn stock_out_fields(app: &App) -> (fields: Vec<FieldView>)
    ensures
        fields_shown(fields@, app.so_sku@, app.so_qty@, app.so_wh@, app.so_ref@, app.so_focus),
{
    form_fields(&app.so_sku, &app.so_qty, &app.so_wh, &app.so_ref, app.so_focus)
}

/// The lines of the check screen for a result, in order.
pub open spec fn inventory_text(r: InventoryResult) -> Seq<Seq<char>> {
    seq![
        "  Product ID : "@ + int_text(r.product_id as int),
        "  SKU        : "@ + r.sku@,
        "  Name       : "@ + r.name@,
        Seq::<char>::empty(),
        "  Stock      : "@ + int_text(r.real_qty as int) + " pcs"@,
    ]
}

fn labelled_int(label: &str, n: i32) -> (t: String)
    ensures
        t@ == label@ + int_text(n as int),
{
    let mut t = String::from_str(label);
    push_int(&mut t, n as i64);
    t
}

/// The lines that the check screen shows for a result.
pub fn inventory_lines(result: &InventoryResult) -> (lines: Vec<String>)
    ensures
        lines@.len() == 5,
        forall|i: int| 0 <= i < 5 ==> (#[trigger] lines@[i])@ == inventory_text(*result)[i],
{
    let mut lines: Vec<String> = Vec::new();
    lines.push(labelled_int("  Product ID : ", result.product_id));
    lines.push(String::from_str("  SKU        : ").concat(result.sku.as_str()));
    lines.push(String::from_str("  Name       : ").concat(result.name.as_str()));
    lines.push(String::new());
    let mut stock = labelled_int("  Stock      : ", result.real_qty);
    stock.append(" pcs");
    lines.push(stock);
    lines
}

/// An optional text of a row, `-` where there is none.
pub open spec fn or_dash(t: Option<String>) -> Seq<char> {
    match t {
        Some(x) => x@,
        None => "-"@,
    }
}

fn text_or_dash(t: &Option<String>) -> (r: String)
    ensures
        r@ == or_dash(*t),
{
    match t {
        Some(x) => x.clone(),
        None => String::from_str("-"),
    }
}

/// The creation time of a movement has a character boundary after its first
/// nineteen bytes, the `YYYY-MM-DD HH:MM:SS` part of an ISO time.
pub open spec fn time_cut_ok(row: TransactionRow) -> bool {
    vstd::utf8::is_char_boundary(encode_utf8(row.created_at@), 19)
}

/// The cells of a movement's row, in order: time (the first nineteen bytes of
/// the creation time), SKU, quantity, reference and warehouse.
pub fn transaction_cells(row: &TransactionRow) -> (cells: Vec<String>)
    requires
        time_cut_ok(*row),
    ensures
        cells@.len() == 5,
        encode_utf8(cells@[0]@) == encode_utf8(row.created_at@).subrange(0, 19),
        cells@[1]@ == or_dash(row.sku),
        cells@[2]@ == row.delta_qty@,
        cells@[3]@ == or_dash(row.reference_id),
        cells@[4]@ == int_text(row.warehouse_id as int),
{
    let (time, _) = row.created_at.as_str().split_at(19);
    let mut cells: Vec<String> = Vec::new();
    cells.push(String::from_str(time));
    cells.push(text_or_dash(&row.sku));
    cells.push(row.delta_qty.clone());
    cells.push(text_or_dash(&row.reference_id));
    cells.push(int_to_text(row.warehouse_id as i64));
    cells
}

/// The cells of a category's row: id, name and slug.
pub fn category_cells(row: &CategoryRow) -> (cells: Vec<String>)
    ensures
        cells@.len() == 3,
        cells@[0]@ == int_text(row.id as int),
        cells@[1]@ == row.name@,
        cells@[2]@ == row.slug@,
{
    let mut cells: Vec<String> = Vec::new();
    cells.push(int_to_text(row.id as i64));
    cells.push(row.name.clone());
    cells.push(row.slug.clone());
    cells
}

/// The cells of a warehouse's row: id, name and location, `-` where it has none.
pub fn warehouse_cells(row: &WarehouseRow) -> (cells: Vec<String>)
    ensures
        cells@.len() == 3,
        cells@[0]@ == int_text(row.id as int),
        cells@[1]@ == row.name@,
        cells@[2]@ == or_dash(row.location),
{
    let mut cells: Vec<String> = Vec::new();
    cells.push(int_to_text(row.id as i64));
    cells.push(row.name.clone());
    cells.push(text_or_dash(&row.location));
    cells
}

/// What the categories or warehouses screen shows below its status line.
pub enum ListScreen {
    /// The list is not loaded: a hint on how to load it and on the keys.
    Hint,
    /// The list, scrolled down by `offset` rows.
    Table { offset: usize },
    /// The form, with an Update button when editing and a Create button otherwise.
    Form { editing: bool },
    /// A pop-up that asks to confirm a deletion.
    Confirm { message: String },
}

/// What the categories screen shows.
pub open spec fn category_screen_shown(s: ListScreen, app: App) -> bool {
    match app.cat_mode {
        CategoryMode::Browse => if app.cat_rows@.len() == 0 {
            s is Hint
        } else {
            s == ListScreen::Table { offset: app.cat_scroll }
        },
        CategoryMode::Create => s == ListScreen::Form { editing: false },
        CategoryMode::Edit(_) => s == ListScreen::Form { editing: true },
        CategoryMode::DeleteConfirm(_, name) => match s {
            ListScreen::Confirm { message } => message@ == " Delete category \""@ + name@
                + "\"?\n\n This will fail if products still reference it."@,
            _ => false,
        },
    }
}

/// What the categories screen shows.
pub fn category_screen(app: &App) -> (s: ListScreen)
    ensures
        category_screen_shown(s, *app),
{
    match &app.cat_mode {
        CategoryMode::Browse => {
            if app.cat_rows.len() == 0 {
                ListScreen::Hint
            } else {
                ListScreen::Table { offset: app.cat_scroll }
            }
        },
        CategoryMode::Create => ListScreen::Form { editing: false },
        CategoryMode::Edit(_) => ListScreen::Form { editing: true },
        CategoryMode::DeleteConfirm(_, name) => {
            let mut message = String::from_str(" Delete category \"");
            message.append(name.as_str());
            message.append("\"?\n\n This will fail if products still reference it.");
            ListScreen::Confirm { message }
        },
    }
}

/// What the warehouses screen shows.
pub open spec fn warehouse_screen_shown(s: ListScreen, app: App) -> bool {
    match app.wh_mode {
        WhMode::Browse => if app.wh_rows@.len() == 0 {
            s is Hint
        } else {
            s == ListScreen::Table { offset: app.wh_scroll }
        },
        WhMode::Create => s == ListScreen::Form { editing: false },
        WhMode::Edit(_) => s == ListScreen::Form { editing: true },
        WhMode::DeleteConfirm(_, name) => match s {
            ListScreen::Confirm { message } => message@ == " Delete warehouse \""@ + name@
                + "\"?\n\n This will fail if inventory/transactions still reference it."@,
            _ => false,
        },
    }
}

/// What the warehouses screen shows.
pub fn warehouse_screen(app: &App) -> (s: ListScreen)
    ensures
        warehouse_screen_shown(s, *app),
{
    match &app.wh_mode {
        WhMode::Browse => {
            if app.wh_rows.len() == 0 {
                ListScreen::Hint
            } else {
                ListScreen::Table { offset: app.wh_scroll }
            }
        },
        WhMode::Create => ListScreen::Form { editing: false },
        WhMode::Edit(_) => ListScreen::Form { editing: true },
        WhMode::DeleteConfirm(_, name) => {
            let mut message = String::from_str(" Delete warehouse \"");
            message.append(name.as_str());
            message.append("\"?\n\n This will fail if inventory/transactions still reference it.");
            ListScreen::Confirm { message }
        },
    }
}

} // verus!
