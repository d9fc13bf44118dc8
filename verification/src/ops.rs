//! The work on the warehouse service: the request that each command sends,
//! derived from the state, and how each reply is folded back into the state.
use vstd::prelude::*;
use vstd::string::*;
use crate::keys::Command;
use crate::model::{
    App, AppView, CategoryMode, CategoryRow, InventoryResult, InventoryResultView,
    TransactionRow, WarehouseRow, WhMode,
};
use crate::text::{decimal, int_text, parsed_i32_or, parse_i32, push_decimal, push_int, trim, trimmed};

verus! {

/// The bearer token the client sends: empty while it holds none.
pub open spec fn token_text(t: Option<Seq<char>>) -> Seq<char> {
    match t {
        Some(x) => x,
        None => Seq::empty(),
    }
}

fn token_of(app: &App) -> (t: String)
    ensures
        t@ == token_text(app@.token),
{
    match &app.token {
        Some(t) => t.clone(),
        None => String::new(),
    }
}

/// A stock movement to record: `quantity` units of `sku` into or out of a warehouse.
pub struct StockRequest {
    pub token: String,
    pub sku: String,
    pub quantity: i32,
    pub warehouse_id: i32,
    pub reference_id: String,
}

/// The reply to a request that writes: done, refused with the body of the
/// reply, or not answered, with the error.
pub enum WriteReply {
    Done,
    Refused(String),
    Unreachable(String),
}

/// The reply to a request for a list: the rows, a body that did not parse,
/// a refusal with its status, or no answer, each with its text.
pub enum ListReply<T> {
    Rows(Vec<T>),
    Unparsable(String),
    Refused(String),
    Unreachable(String),
}

/// One item of the inventory reply, each field present only where the service
/// sent it with the right type.
pub struct InventoryItem {
    pub product_id: Option<i64>,
    pub sku: Option<String>,
    pub name: Option<String>,
    pub real_qty: Option<i64>,
}

/// The reply to an inventory lookup: the items of the body (none when the
/// body is no list), a refusal, or no answer with the error.
pub enum InventoryReply {
    Items(Vec<InventoryItem>),
    Refused,
    Unreachable(String),
}

/// A category or warehouse name to send, with the token.
pub struct NameRequest {
    pub token: String,
    pub name: String,
}

/// A warehouse to send: its name and location, with the token.
pub struct WarehouseRequest {
    pub token: String,
    pub name: String,
    pub location: String,
}

/// A row to act on, by id, with the token.
pub struct TargetRequest {
    pub token: String,
    pub id: i32,
}

/// The stock-in form as a request: the quantity as `i32`, 0 when it is not a
/// number; the warehouse as `i32`, 1 when it is not a number.
pub fn stock_in_request(app: &App) -> (req: StockRequest)
    ensures
        req.token@ == token_text(app@.token),
        req.sku@ == app.si_sku@,
        req.quantity == parsed_i32_or(app.si_qty@, 0),
        req.warehouse_id == parsed_i32_or(app.si_wh@, 1),
        req.reference_id@ == app.si_ref@,
{
    let quantity = match parse_i32(app.si_qty.as_str()) {
        Some(q) => q,
        None => 0,
    };
    let warehouse_id = match parse_i32(app.si_wh.as_str()) {
        Some(w) => w,
        None => 1,
    };
    StockRequest {
        token: token_of(app),
        sku: app.si_sku.clone(),
        quantity,
        warehouse_id,
        reference_id: app.si_ref.clone(),
    }
}

/// The stock-out form as a request, read as the stock-in form is.
pub fn stock_out_request(app: &App) -> (req: StockRequest)
    ensures
        req.token@ == token_text(app@.token),
        req.sku@ == app.so_sku@,
        req.quantity == parsed_i32_or(app.so_qty@, 0),
        req.warehouse_id == parsed_i32_or(app.so_wh@, 1),
        req.reference_id@ == app.so_ref@,
{
    let quantity = match parse_i32(app.so_qty.as_str()) {
        Some(q) => q,
        None => 0,
    };
    let warehouse_id = match parse_i32(app.so_wh.as_str()) {
        Some(w) => w,
        None => 1,
    };
    StockRequest {
        token: token_of(app),
        sku: app.so_sku.clone(),
        quantity,
        warehouse_id,
        reference_id: app.so_ref.clone(),
    }
}

/// The text that a failed write reports.
pub open spec fn write_error(r: WriteReply) -> Seq<char> {
    match r {
        WriteReply::Refused(t) => "ERR: "@ + t@,
        WriteReply::Unreachable(t) => "ERR: "@ + t@,
        WriteReply::Done => Seq::empty(),
    }
}

fn write_error_text(r: &WriteReply) -> (t: String)
    ensures
        t@ == write_error(*r),
{
    match r {
        WriteReply::Refused(b) => String::from_str("ERR: ").concat(b.as_str()),
        WriteReply::Unreachable(e) => String::from_str("ERR: ").concat(e.as_str()),
        WriteReply::Done => String::new(),
    }
}

/// The stock-in form after its reply: on success the form reports
/// `OK: +<quantity> <sku>` and empties all but the warehouse; on failure it
/// reports the error and keeps what was typed.
pub open spec fn stock_in_applied(s: AppView, quantity: i32, r: WriteReply) -> AppView {
    match r {
        WriteReply::Done => AppView {
            si_status: "OK: +"@ + int_text(quantity as int) + " "@ + s.si_sku,
            si_sku: Seq::empty(),
            si_qty: Seq::empty(),
            si_ref: Seq::empty(),
            ..s
        },
        _ => AppView { si_status: write_error(r), ..s },
    }
}

/// The stock-out form after its reply, as for stock in with `OK: -<quantity> <sku>`.
pub open spec fn stock_out_applied(s: AppView, quantity: i32, r: WriteReply) -> AppView {
    match r {
        WriteReply::Done => AppView {
            so_status: "OK: -"@ + int_text(quantity as int) + " "@ + s.so_sku,
            so_sku: Seq::empty(),
            so_qty: Seq::empty(),
            so_ref: Seq::empty(),
            ..s
        },
        _ => AppView { so_status: write_error(r), ..s },
    }
}

/// Folds the reply to a stock-in request of `quantity` units into the state.
pub fn apply_stock_in(app: &mut App, quantity: i32, reply: WriteReply)
    ensures
        final(app)@ == stock_in_applied(old(app)@, quantity, reply),
{
    match reply {
        WriteReply::Done => {
            let mut status = String::from_str("OK: +");
            push_int(&mut status, quantity as i64);
            status.append(" ");
            status.append(app.si_sku.as_str());
            app.si_status = status;
            app.si_sku.clear();
            app.si_qty.clear();
            app.si_ref.clear();
        },
        _ => {
            app.si_status = write_error_text(&reply);
        },
    }
}

/// Folds the reply to a stock-out request of `quantity` units into the state.
pub fn apply_stock_out(app: &mut App, quantity: i32, reply: WriteReply)
    ensures
        final(app)@ == stock_out_applied(old(app)@, quantity, reply),
{
    match reply {
        WriteReply::Done => {
            let mut status = String::from_str("OK: -");
            push_int(&mut status, quantity as i64);
            status.append(" ");
            status.append(app.so_sku.as_str());
            app.so_status = status;
            app.so_sku.clear();
            app.so_qty.clear();
            app.so_ref.clear();
        },
        _ => {
            app.so_status = write_error_text(&reply);
        },
    }
}

/// A text field of an inventory item, `-` where the service sent none.
pub open spec fn text_or_dash(t: Option<String>) -> Seq<char> {
    match t {
        Some(x) => x@,
        None => "-"@,
    }
}

/// A number field of an inventory item as `i32`, 0 where the service sent none.
pub open spec fn number_or_zero(n: Option<i64>) -> i32 {
    match n {
        Some(v) => v as i32,
        None => 0,
    }
}

/// What the check screen shows for the reply to a lookup: the first item,
/// if any; on a refusal or no answer, an `ERR` line that says why.
pub open spec fn inventory_shown(r: InventoryReply) -> Option<InventoryResultView> {
    match r {
        InventoryReply::Items(items) => if items.len() == 0 {
            None
        } else {
            Some(
                InventoryResultView {
                    product_id: number_or_zero(items[0].product_id),
                    sku: text_or_dash(items[0].sku),
                    name: text_or_dash(items[0].name),
                    real_qty: number_or_zero(items[0].real_qty),
                },
            )
        },
        InventoryReply::Refused => Some(
            InventoryResultView {
                product_id: 0,
                sku: "ERR"@,
                name: "Not found or error"@,
                real_qty: 0,
            },
        ),
        InventoryReply::Unreachable(e) => Some(
            InventoryResultView { product_id: 0, sku: "ERR"@, name: e@, real_qty: 0 },
        ),
    }
}

fn opt_text_or_dash(t: &Option<String>) -> (r: String)
    ensures
        r@ == text_or_dash(*t),
{
    match t {
        Some(x) => x.clone(),
        None => String::from_str("-"),
    }
}

fn opt_number_or_zero(n: Option<i64>) -> (r: i32)
    ensures
        r == number_or_zero(n),
{
    match n {
        Some(v) => v as i32,
        None => 0,
    }
}

/// Folds the reply to an inventory lookup into the check screen.
pub fn apply_inventory(app: &mut App, reply: InventoryReply)
    ensures
        final(app)@ == (AppView { ck_result: inventory_shown(reply), ..old(app)@ }),
{
    let result = match &reply {
        InventoryReply::Items(items) => {
            if items.len() == 0 {
                None
            } else {
                let item = &items[0];
                Some(
                    InventoryResult {
                        product_id: opt_number_or_zero(item.product_id),
                        sku: opt_text_or_dash(&item.sku),
                        name: opt_text_or_dash(&item.name),
                        real_qty: opt_number_or_zero(item.real_qty),
                    },
                )
            }
        },
        InventoryReply::Refused => Some(
            InventoryResult {
                product_id: 0,
                sku: String::from_str("ERR"),
                name: String::from_str("Not found or error"),
                real_qty: 0,
            },
        ),
        InventoryReply::Unreachable(e) => Some(
            InventoryResult {
                product_id: 0,
                sku: String::from_str("ERR"),
                name: e.clone(),
                real_qty: 0,
            },
        ),
    };
    app.ck_result = result;
}

/// The status line of a list after a reply other than rows.
pub open spec fn list_error<T>(r: ListReply<T>) -> Seq<char> {
    match r {
        ListReply::Unparsable(e) => "Parse err: "@ + e@,
        ListReply::Refused(status) => "HTTP "@ + status@,
        ListReply::Unreachable(e) => "ERR: "@ + e@,
        ListReply::Rows(_) => Seq::empty(),
    }
}

fn list_error_text<T>(r: &ListReply<T>) -> (t: String)
    ensures
        t@ == list_error(*r),
{
    match r {
        ListReply::Unparsable(e) => String::from_str("Parse err: ").concat(e.as_str()),
        ListReply::Refused(status) => String::from_str("HTTP ").concat(status.as_str()),
        ListReply::Unreachable(e) => String::from_str("ERR: ").concat(e.as_str()),
        ListReply::Rows(_) => String::new(),
    }
}

/// `<n> <noun>`: how many rows a list holds.
pub open spec fn count_text(n: nat, noun: Seq<char>) -> Seq<char> {
    decimal(n) + " "@ + noun
}

fn count_line(n: usize, noun: &str) -> (t: String)
    ensures
        t@ == count_text(n as nat, noun@),
{
    let mut t = String::new();
    push_decimal(&mut t, n as u64);
    t.append(" ");
    t.append(noun);
    assert(t@ =~= count_text(n as nat, noun@));
    t
}

/// The transactions screen after a reply: the rows from the top, with their
/// count, or the error.
pub open spec fn transactions_applied(s: AppView, r: ListReply<TransactionRow>) -> AppView {
    match r {
        ListReply::Rows(rows) => AppView {
            txn_rows: rows@,
            txn_scroll: 0,
            txn_status: count_text(rows@.len(), "transactions"@),
            ..s
        },
        _ => AppView { txn_status: list_error(r), ..s },
    }
}

/// Folds the reply to a transactions request into the state.
pub fn apply_transactions(app: &mut App, reply: ListReply<TransactionRow>)
    ensures
        final(app)@ == transactions_applied(old(app)@, reply),
{
    match reply {
        ListReply::Rows(rows) => {
            let n = rows.len();
            app.txn_rows = rows;
            app.txn_scroll = 0;
            app.txn_status = count_line(n, "transactions");
        },
        _ => {
            app.txn_status = list_error_text(&reply);
        },
    }
}

/// The categories screen after a reply: the rows from the top, with their
/// count, or the error.
pub open spec fn categories_applied(s: AppView, r: ListReply<CategoryRow>) -> AppView {
    match r {
        ListReply::Rows(rows) => AppView {
            cat_rows: rows@,
            cat_scroll: 0,
            cat_status: count_text(rows@.len(), "categories"@),
            ..s
        },
        _ => AppView { cat_status: list_error(r), ..s },
    }
}

/// Folds the reply to a categories request into the state.
pub fn apply_categories(app: &mut App, reply: ListReply<CategoryRow>)
    ensures
        final(app)@ == categories_applied(old(app)@, reply),
{
    match reply {
        ListReply::Rows(rows) => {
            let n = rows.len();
            app.cat_rows = rows;
            app.cat_scroll = 0;
            app.cat_status = count_line(n, "categories");
        },
        _ => {
            app.cat_status = list_error_text(&reply);
        },
    }
}

/// The warehouses screen after a reply: the rows from the top, with their
/// count, or the error.
pub open spec fn warehouses_applied(s: AppView, r: ListReply<WarehouseRow>) -> AppView {
    match r {
        ListReply::Rows(rows) => AppView {
            wh_rows: rows@,
            wh_scroll: 0,
            wh_status: count_text(rows@.len(), "warehouses"@),
            ..s
        },
        _ => AppView { wh_status: list_error(r), ..s },
    }
}

/// Folds the reply to a warehouses request into the state.
pub fn apply_warehouses(app: &mut App, reply: ListReply<WarehouseRow>)
    ensures
        final(app)@ == warehouses_applied(old(app)@, reply),
{
    match reply {
        ListReply::Rows(rows) => {
            let n = rows.len();
            app.wh_rows = rows;
            app.wh_scroll = 0;
            app.wh_status = count_line(n, "warehouses");
        },
        _ => {
            app.wh_status = list_error_text(&reply);
        },
    }
}

/// The category form holds a name that is not blank once trimmed.
pub open spec fn category_name_ok(s: AppView) -> bool {
    trimmed(s.cat_name).len() > 0
}

/// The state after a name was found blank: the screen says a name is required.
pub open spec fn category_name_missing(s: AppView) -> AppView {
    AppView { cat_status: "ERR: Name required"@, ..s }
}

/// Prepares the creation of a category from the form. A name that is blank
/// once trimmed sends nothing and reports `ERR: Name required`.
pub fn create_category_request(app: &mut App) -> (req: Option<NameRequest>)
    ensures
        !category_name_ok(old(app)@) ==> req is None && final(app)@ == category_name_missing(
            old(app)@,
        ),
        category_name_ok(old(app)@) ==> final(app)@ == old(app)@ && (match req {
            Some(r) => r.name@ == trimmed(old(app)@.cat_name) && r.token@ == token_text(
                old(app)@.token,
            ),
            None => false,
        }),
{
    let name = trim(app.cat_name.as_str());
    if name.as_str().is_empty() {
        app.cat_status = String::from_str("ERR: Name required");
        return None;
    }
    Some(NameRequest { token: token_of(app), name })
}

/// Prepares the renaming of the category being edited. Outside the edit form
/// nothing happens; a blank name sends nothing and reports `ERR: Name required`.
pub fn update_category_request(app: &mut App) -> (req: Option<(i32, NameRequest)>)
    ensures
        match old(app)@.cat_mode {
            CategoryMode::Edit(id) => {
                &&& !category_name_ok(old(app)@) ==> req is None && final(app)@
                    == category_name_missing(old(app)@)
                &&& category_name_ok(old(app)@) ==> final(app)@ == old(app)@ && (match req {
                    Some(r) => r.0 == id && r.1.name@ == trimmed(old(app)@.cat_name) && r.1.token@
                        == token_text(old(app)@.token),
                    None => false,
                })
            },
            _ => req is None && final(app)@ == old(app)@,
        },
{
    let id = match &app.cat_mode {
        CategoryMode::Edit(id) => *id,
        _ => {
            return None;
        },
    };
    let name = trim(app.cat_name.as_str());
    if name.as_str().is_empty() {
        app.cat_status = String::from_str("ERR: Name required");
        return None;
    }
    Some((id, NameRequest { token: token_of(app), name }))
}

/// Prepares the deletion of the category awaiting confirmation, if any.
pub fn delete_category_request(app: &App) -> (req: Option<TargetRequest>)
    ensures
        match app@.cat_mode {
            CategoryMode::DeleteConfirm(id, _) => match req {
                Some(r) => r.id == id && r.token@ == token_text(app@.token),
                None => false,
            },
            _ => req is None,
        },
{
    match &app.cat_mode {
        CategoryMode::DeleteConfirm(id, _) => Some(TargetRequest { token: token_of(app), id: *id }),
        _ => None,
    }
}

/// The warehouse form holds a name that is not blank once trimmed.
pub open spec fn warehouse_name_ok(s: AppView) -> bool {
    trimmed(s.wh_name).len() > 0
}

/// The state after a warehouse name was found blank.
pub open spec fn warehouse_name_missing(s: AppView) -> AppView {
    AppView { wh_status: "ERR: Name required"@, ..s }
}

/// The warehouse request that the form holds: trimmed name and location.
pub open spec fn warehouse_request_matches(r: WarehouseRequest, s: AppView) -> bool {
    &&& r.name@ == trimmed(s.wh_name)
    &&& r.location@ == trimmed(s.wh_location)
    &&& r.token@ == token_text(s.token)
}

/// Prepares the creation of a warehouse from the form. A name that is blank
/// once trimmed sends nothing and reports `ERR: Name required`.
pub fn create_warehouse_request(app: &mut App) -> (req: Option<WarehouseRequest>)
    ensures
        !warehouse_name_ok(old(app)@) ==> req is None && final(app)@ == warehouse_name_missing(
            old(app)@,
        ),
        warehouse_name_ok(old(app)@) ==> final(app)@ == old(app)@ && (match req {
            Some(r) => warehouse_request_matches(r, old(app)@),
            None => false,
        }),
{
    let name = trim(app.wh_name.as_str());
    if name.as_str().is_empty() {
        app.wh_status = String::from_str("ERR: Name required");
        return None;
    }
    let location = trim(app.wh_location.as_str());
    Some(WarehouseRequest { token: token_of(app), name, location })
}

/// Prepares the update of the warehouse being edited. Outside the edit form
/// nothing happens; a blank name sends nothing and reports `ERR: Name required`.
pub fn update_warehouse_request(app: &mut App) -> (req: Option<(i32, WarehouseRequest)>)
    ensures
        match old(app)@.wh_mode {
            WhMode::Edit(id) => {
                &&& !warehouse_name_ok(old(app)@) ==> req is None && final(app)@
                    == warehouse_name_missing(old(app)@)
                &&& warehouse_name_ok(old(app)@) ==> final(app)@ == old(app)@ && (match req {
                    Some(r) => r.0 == id && warehouse_request_matches(r.1, old(app)@),
                    None => false,
                })
            },
            _ => req is None && final(app)@ == old(app)@,
        },
{
    let id = match &app.wh_mode {
        WhMode::Edit(id) => *id,
        _ => {
            return None;
        },
    };
    let name = trim(app.wh_name.as_str());
    if name.as_str().is_empty() {
        app.wh_status = String::from_str("ERR: Name required");
        return None;
    }
    let location = trim(app.wh_location.as_str());
    Some((id, WarehouseRequest { token: token_of(app), name, location }))
}

/// Prepares the deletion of the warehouse awaiting confirmation, if any.
pub fn delete_warehouse_request(app: &App) -> (req: Option<TargetRequest>)
    ensures
        match app@.wh_mode {
            WhMode::DeleteConfirm(id, _) => match req {
                Some(r) => r.id == id && r.token@ == token_text(app@.token),
                None => false,
            },
            _ => req is None,
        },
{
    match &app.wh_mode {
        WhMode::DeleteConfirm(id, _) => Some(TargetRequest { token: token_of(app), id: *id }),
        _ => None,
    }
}

/// The categories screen after a create or update reply: on success it says
/// `done`, empties the form, goes back to browsing and asks for the list again.
pub open spec fn category_saved(s: AppView, r: WriteReply, done: Seq<char>) -> (AppView, Command) {
    match r {
        WriteReply::Done => (
            AppView {
                cat_status: done,
                cat_name: Seq::empty(),
                cat_mode: CategoryMode::Browse,
                ..s
            },
            Command::FetchCategories,
        ),
        _ => (AppView { cat_status: write_error(r), ..s }, Command::Idle),
    }
}

/// The categories screen after a delete reply: on success it says `Deleted`,
/// goes back to browsing with nothing selected and asks for the list again.
pub open spec fn category_deleted(s: AppView, r: WriteReply) -> (AppView, Command) {
    match r {
        WriteReply::Done => (
            AppView {
                cat_status: "Deleted"@,
                cat_mode: CategoryMode::Browse,
                cat_selected: None,
                ..s
            },
            Command::FetchCategories,
        ),
        _ => (AppView { cat_status: write_error(r), ..s }, Command::Idle),
    }
}

fn finish_category_save(app: &mut App, reply: WriteReply, done: &str) -> (cmd: Command)
    ensures
        final(app)@ == category_saved(old(app)@, reply, done@).0,
        cmd == category_saved(old(app)@, reply, done@).1,
{
    match reply {
        WriteReply::Done => {
            app.cat_status = String::from_str(done);
            app.cat_name.clear();
            app.cat_mode = CategoryMode::Browse;
            Command::FetchCategories
        },
        _ => {
            app.cat_status = write_error_text(&reply);
            Command::Idle
        },
    }
}

/// Folds the reply to a category creation into the state.
pub fn apply_category_created(app: &mut App, reply: WriteReply) -> (cmd: Command)
    ensures
        final(app)@ == category_saved(old(app)@, reply, "Created"@).0,
        cmd == category_saved(old(app)@, reply, "Created"@).1,
{
    finish_category_save(app, reply, "Created")
}

/// Folds the reply to a category update into the state.
pub fn apply_category_updated(app: &mut App, reply: WriteReply) -> (cmd: Command)
    ensures
        final(app)@ == category_saved(old(app)@, reply, "Updated"@).0,
        cmd == category_saved(old(app)@, reply, "Updated"@).1,
{
    finish_category_save(app, reply, "Updated")
}

/// Folds the reply to a category deletion into the state.
pub fn apply_category_deleted(app: &mut App, reply: WriteReply) -> (cmd: Command)
    ensures
        final(app)@ == category_deleted(old(app)@, reply).0,
        cmd == category_deleted(old(app)@, reply).1,
{
    match reply {
        WriteReply::Done => {
            app.cat_status = String::from_str("Deleted");
            app.cat_mode = CategoryMode::Browse;
            app.cat_selected = None;
            Command::FetchCategories
        },
        _ => {
            app.cat_status = write_error_text(&reply);
            Command::Idle
        },
    }
}

/// The warehouses screen after a create or update reply: on success it says
/// `done`, empties the form, goes back to browsing and asks for the list again.
pub open spec fn warehouse_saved(s: AppView, r: WriteReply, done: Seq<char>) -> (AppView, Command) {
    match r {
        WriteReply::Done => (
            AppView {
                wh_status: done,
                wh_name: Seq::empty(),
                wh_location: Seq::empty(),
                wh_mode: WhMode::Browse,
                ..s
            },
            Command::FetchWarehouses,
        ),
        _ => (AppView { wh_status: write_error(r), ..s }, Command::Idle),
    }
}

/// The warehouses screen after a delete reply: on success it says `Deleted`,
/// goes back to browsing with nothing selected and asks for the list again.
pub open spec fn warehouse_deleted(s: AppView, r: WriteReply) -> (AppView, Command) {
    match r {
        WriteReply::Done => (
            AppView {
                wh_status: "Deleted"@,
                wh_mode: WhMode::Browse,
                wh_selected: None,
                ..s
            },
            Command::FetchWarehouses,
        ),
        _ => (AppView { wh_status: write_error(r), ..s }, Command::Idle),
    }
}

fn finish_warehouse_save(app: &mut App, reply: WriteReply, done: &str) -> (cmd: Command)
    ensures
        final(app)@ == warehouse_saved(old(app)@, reply, done@).0,
        cmd == warehouse_saved(old(app)@, reply, done@).1,
{
    match reply {
        WriteReply::Done => {
            app.wh_status = String::from_str(done);
            app.wh_name.clear();
            app.wh_location.clear();
            app.wh_mode = WhMode::Browse;
            Command::FetchWarehouses
        },
        _ => {
            app.wh_status = write_error_text(&reply);
            Command::Idle
        },
    }
}

/// Folds the reply to a warehouse creation into the state.
pub fn apply_warehouse_created(app: &mut App, reply: WriteReply) -> (cmd: Command)
    ensures
        final(app)@ == warehouse_saved(old(app)@, reply, "Created"@).0,
        cmd == warehouse_saved(old(app)@, reply, "Created"@).1,
{
    finish_warehouse_save(app, reply, "Created")
}

/// Folds the reply to a warehouse update into the state.
pub fn apply_warehouse_updated(app: &mut App, reply: WriteReply) -> (cmd: Command)
    ensures
        final(app)@ == warehouse_saved(old(app)@, reply, "Updated"@).0,
        cmd == warehouse_saved(old(app)@, reply, "Updated"@).1,
{
    finish_warehouse_save(app, reply, "Updated")
}

/// Folds the reply to a warehouse deletion into the state.
pub fn apply_warehouse_deleted(app: &mut App, reply: WriteReply) -> (cmd: Command)
    ensures
        final(app)@ == warehouse_deleted(old(app)@, reply).0,
        cmd == warehouse_deleted(old(app)@, reply).1,
{
    match reply {
        WriteReply::Done => {
            app.wh_status = String::from_str("Deleted");
            app.wh_mode = WhMode::Browse;
            app.wh_selected = None;
            Command::FetchWarehouses
        },
        _ => {
            app.wh_status = write_error_text(&reply);
            Command::Idle
        },
    }
}

/// The reply to a login: accepted, with the `access_token` of the body when
/// it is a string; refused, with the status; or failed, with the error.
pub enum LoginReply {
    Accepted(Option<String>),
    Refused(String),
    Failed(String),
}

/// The outcome of a login: the token, or the reason there is none.
pub open spec fn login_outcome(r: LoginReply) -> Result<Seq<char>, Seq<char>> {
    match r {
        LoginReply::Accepted(Some(t)) => Ok(t@),
        LoginReply::Accepted(None) => Err("No token"@),
        LoginReply::Refused(status) => Err("Login failed: "@ + status@),
        LoginReply::Failed(e) => Err(e@),
    }
}

/// Reads the reply to a login.
pub fn login_result(reply: LoginReply) -> (res: Result<String, String>)
    ensures
        match res {
            Ok(t) => login_outcome(reply) == Ok::<Seq<char>, Seq<char>>(t@),
            Err(e) => login_outcome(reply) == Err::<Seq<char>, Seq<char>>(e@),
        },
{
    match reply {
        LoginReply::Accepted(Some(t)) => Ok(t),
        LoginReply::Accepted(None) => Err(String::from_str("No token")),
        LoginReply::Refused(status) => Err(String::from_str("Login failed: ").concat(status.as_str())),
        LoginReply::Failed(e) => Err(e),
    }
}

/// The state after a login reply: an accepted login with a token gives the
/// client that token, which opens the screens; any other reply shows its
/// reason as the login error.
pub open spec fn login_applied(s: AppView, r: LoginReply) -> AppView {
    match login_outcome(r) {
        Ok(t) => AppView { token: Some(t), ..s },
        Err(e) => AppView { login_error: e, ..s },
    }
}

/// Folds the reply to a login into the state.
pub fn apply_login(app: &mut App, reply: LoginReply)
    ensures
        final(app)@ == login_applied(old(app)@, reply),
{
    match login_result(reply) {
        Ok(t) => {
            app.token = Some(t);
        },
        Err(e) => {
            app.login_error = e;
        },
    }
}

} // verus!
