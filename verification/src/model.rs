//! The state of the terminal client and its mathematical view.
use vstd::prelude::*;

verus! {

/// Which part of the login form has the focus.
#[derive(Debug, Clone, Copy, PartialEq, Eq, Structural)]
pub enum LoginFocus {
    Email,
    Password,
    Button,
}

/// Which part of a stock form has the focus.
#[derive(Debug, Clone, Copy, PartialEq, Eq, Structural)]
pub enum FormFocus {
    Sku,
    Qty,
    Warehouse,
    Reference,
    Button,
}

/// Whether the operator is navigating or typing.
#[derive(Debug, Clone, Copy, PartialEq, Eq, Structural)]
pub enum InputMode {
    Normal,
    Editing,
}

/// Which field of the warehouse form has the focus.
#[derive(Debug, Clone, Copy, PartialEq, Eq, Structural)]
pub enum WhFormFocus {
    Name,
    Location,
}

/// What the categories screen is doing.
#[derive(Debug, Clone, PartialEq, Eq)]
pub enum CategoryMode {
    Browse,
    Create,
    Edit(i32),
    DeleteConfirm(i32, String),
}

/// What the warehouses screen is doing.
#[derive(Debug, Clone, PartialEq, Eq)]
pub enum WhMode {
    Browse,
    Create,
    Edit(i32),
    DeleteConfirm(i32, String),
}

/// The stock level of one product, as the check screen shows it.
#[derive(Debug, Clone, PartialEq, Eq)]
pub struct InventoryResult {
    pub product_id: i32,
    pub sku: String,
    pub name: String,
    pub real_qty: i32,
}

/// The view of an `InventoryResult`.
pub struct InventoryResultView {
    pub product_id: i32,
    pub sku: Seq<char>,
    pub name: Seq<char>,
    pub real_qty: i32,
}

impl View for InventoryResult {
    type V = InventoryResultView;

    open spec fn view(&self) -> InventoryResultView {
        InventoryResultView {
            product_id: self.product_id,
            sku: self.sku@,
            name: self.name@,
            real_qty: self.real_qty,
        }
    }
}

/// One stock movement. `delta_qty` holds the quantity as the service wrote it.
#[derive(Debug, Clone, PartialEq, Eq)]
pub struct TransactionRow {
    pub id: i32,
    pub product_id: i32,
    pub warehouse_id: i32,
    pub delta_qty: String,
    pub reference_id: Option<String>,
    pub notes: Option<String>,
    pub created_at: String,
    pub product_name: Option<String>,
    pub sku: Option<String>,
}

/// One product category.
#[derive(Debug, Clone, PartialEq, Eq)]
pub struct CategoryRow {
    pub id: i32,
    pub name: String,
    pub slug: String,
}

/// One warehouse.
#[derive(Debug, Clone, PartialEq, Eq)]
pub struct WarehouseRow {
    pub id: i32,
    pub name: String,
    pub location: Option<String>,
}

/// The whole state of the client.
#[derive(Debug, Clone)]
pub struct App {
    pub token: Option<String>,
    pub login_email: String,
    pub login_password: String,
    pub login_error: String,
    pub login_focus: LoginFocus,
    pub tabs: Vec<&'static str>,
    pub active_tab: usize,
    pub si_sku: String,
    pub si_qty: String,
    pub si_wh: String,
    pub si_ref: String,
    pub si_status: String,
    pub si_focus: FormFocus,
    pub so_sku: String,
    pub so_qty: String,
    pub so_wh: String,
    pub so_ref: String,
    pub so_status: String,
    pub so_focus: FormFocus,
    pub ck_sku: String,
    pub ck_result: Option<InventoryResult>,
    pub input_mode: InputMode,
    pub txn_rows: Vec<TransactionRow>,
    pub txn_scroll: usize,
    pub txn_status: String,
    pub cat_rows: Vec<CategoryRow>,
    pub cat_scroll: usize,
    pub cat_status: String,
    pub cat_mode: CategoryMode,
    pub cat_name: String,
    pub cat_selected: Option<i32>,
    pub wh_rows: Vec<WarehouseRow>,
    pub wh_scroll: usize,
    pub wh_status: String,
    pub wh_mode: WhMode,
    pub wh_name: String,
    pub wh_location: String,
    pub wh_focus: WhFormFocus,
    pub wh_selected: Option<i32>,
}

/// The view of an `App`: every text as a sequence of characters.
#[verifier::ext_equal]
pub struct AppView {
    pub token: Option<Seq<char>>,
    pub login_email: Seq<char>,
    pub login_password: Seq<char>,
    pub login_error: Seq<char>,
    pub login_focus: LoginFocus,
    pub tabs: Seq<&'static str>,
    pub active_tab: usize,
    pub si_sku: Seq<char>,
    pub si_qty: Seq<char>,
    pub si_wh: Seq<char>,
    pub si_ref: Seq<char>,
    pub si_status: Seq<char>,
    pub si_focus: FormFocus,
    pub so_sku: Seq<char>,
    pub so_qty: Seq<char>,
    pub so_wh: Seq<char>,
    pub so_ref: Seq<char>,
    pub so_status: Seq<char>,
    pub so_focus: FormFocus,
    pub ck_sku: Seq<char>,
    pub ck_result: Option<InventoryResultView>,
    pub input_mode: InputMode,
    pub txn_rows: Seq<TransactionRow>,
    pub txn_scroll: usize,
    pub txn_status: Seq<char>,
    pub cat_rows: Seq<CategoryRow>,
    pub cat_scroll: usize,
    pub cat_status: Seq<char>,
    pub cat_mode: CategoryMode,
    pub cat_name: Seq<char>,
    pub cat_selected: Option<i32>,
    pub wh_rows: Seq<WarehouseRow>,
    pub wh_scroll: usize,
    pub wh_status: Seq<char>,
    pub wh_mode: WhMode,
    pub wh_name: Seq<char>,
    pub wh_location: Seq<char>,
    pub wh_focus: WhFormFocus,
    pub wh_selected: Option<i32>,
}

/// The view of an optional text.
pub open spec fn opt_text(s: Option<String>) -> Option<Seq<char>> {
    match s {
        Some(t) => Some(t@),
        None => None,
    }
}

/// The view of an optional inventory result.
pub open spec fn opt_inventory(r: Option<InventoryResult>) -> Option<InventoryResultView> {
    match r {
        Some(v) => Some(v@),
        None => None,
    }
}

impl View for App {
    type V = AppView;

    open spec fn view(&self) -> AppView {
        AppView {
            token: opt_text(self.token),
            login_email: self.login_email@,
            login_password: self.login_password@,
            login_error: self.login_error@,
            login_focus: self.login_focus,
            tabs: self.tabs@,
            active_tab: self.active_tab,
            si_sku: self.si_sku@,
            si_qty: self.si_qty@,
            si_wh: self.si_wh@,
            si_ref: self.si_ref@,
            si_status: self.si_status@,
            si_focus: self.si_focus,
            so_sku: self.so_sku@,
            so_qty: self.so_qty@,
            so_wh: self.so_wh@,
            so_ref: self.so_ref@,
            so_status: self.so_status@,
            so_focus: self.so_focus,
            ck_sku: self.ck_sku@,
            ck_result: opt_inventory(self.ck_result),
            input_mode: self.input_mode,
            txn_rows: self.txn_rows@,
            txn_scroll: self.txn_scroll,
            txn_status: self.txn_status@,
            cat_rows: self.cat_rows@,
            cat_scroll: self.cat_scroll,
            cat_status: self.cat_status@,
            cat_mode: self.cat_mode,
            cat_name: self.cat_name@,
            cat_selected: self.cat_selected,
            wh_rows: self.wh_rows@,
            wh_scroll: self.wh_scroll,
            wh_status: self.wh_status@,
            wh_mode: self.wh_mode,
            wh_name: self.wh_name@,
            wh_location: self.wh_location@,
            wh_focus: self.wh_focus,
            wh_selected: self.wh_selected,
        }
    }
}

/// The titles of the six screens, in the order of their number keys.
pub open spec fn tab_names() -> Seq<Seq<char>> {
    seq![
        "Stock In"@,
        "Stock Out"@,
        "Check"@,
        "Transactions"@,
        "Categories"@,
        "Warehouses"@,
    ]
}

/// The state in which the client starts: logged out, on the first screen,
/// with every form empty, every focus on its first field and every list
/// unloaded.
pub open spec fn initial_state(s: AppView) -> bool {
    let e = Seq::<char>::empty();
    &&& s.token is None
    &&& s.login_email == e && s.login_password == e && s.login_error == e
    &&& s.login_focus == LoginFocus::Email
    &&& s.tabs.len() == 6
    &&& forall|i: int| 0 <= i < 6 ==> (#[trigger] s.tabs[i])@ == tab_names()[i]
    &&& s.active_tab == 0
    &&& s.si_sku == e && s.si_qty == e && s.si_wh == e && s.si_ref == e && s.si_status == e
    &&& s.si_focus == FormFocus::Sku
    &&& s.so_sku == e && s.so_qty == e && s.so_wh == e && s.so_ref == e && s.so_status == e
    &&& s.so_focus == FormFocus::Sku
    &&& s.ck_sku == e && s.ck_result is None
    &&& s.input_mode == InputMode::Normal
    &&& s.txn_rows.len() == 0 && s.txn_scroll == 0 && s.txn_status == e
    &&& s.cat_rows.len() == 0 && s.cat_scroll == 0 && s.cat_status == e
    &&& s.cat_mode == CategoryMode::Browse && s.cat_name == e && s.cat_selected is None
    &&& s.wh_rows.len() == 0 && s.wh_scroll == 0 && s.wh_status == e
    &&& s.wh_mode == WhMode::Browse && s.wh_name == e && s.wh_location == e
    &&& s.wh_focus == WhFormFocus::Name && s.wh_selected is None
}

impl App {
    /// The client as it starts.
    pub fn new() -> (app: App)
        ensures
            initial_state(app@),
    {
        let tabs: Vec<&'static str> = vec![
            "Stock In",
            "Stock Out",
            "Check",
            "Transactions",
            "Categories",
            "Warehouses",
        ];
        App {
            token: None,
            login_email: String::new(),
            login_password: String::new(),
            login_error: String::new(),
            login_focus: LoginFocus::Email,
            tabs,
            active_tab: 0,
            si_sku: String::new(),
            si_qty: String::new(),
            si_wh: String::new(),
            si_ref: String::new(),
            si_status: String::new(),
            si_focus: FormFocus::Sku,
            so_sku: String::new(),
            so_qty: String::new(),
            so_wh: String::new(),
            so_ref: String::new(),
            so_status: String::new(),
            so_focus: FormFocus::Sku,
            ck_sku: String::new(),
            ck_result: None,
            input_mode: InputMode::Normal,
            txn_rows: Vec::new(),
            txn_scroll: 0,
            txn_status: String::new(),
            cat_rows: Vec::new(),
            cat_scroll: 0,
            cat_status: String::new(),
            cat_mode: CategoryMode::Browse,
            cat_name: String::new(),
            cat_selected: None,
            wh_rows: Vec::new(),
            wh_scroll: 0,
            wh_status: String::new(),
            wh_mode: WhMode::Browse,
            wh_name: String::new(),
            wh_location: String::new(),
            wh_focus: WhFormFocus::Name,
            wh_selected: None,
        }
    }
}

} // verus!
