use vstd::prelude::*;

verus! {

/// Identifier of the menu item that ends the process.
pub open spec fn quit_id_spec() -> Seq<char> {
    seq!['q', 'u', 'i', 't']
}

/// Identifier of the menu item that hides the main window.
pub open spec fn hide_id_spec() -> Seq<char> {
    seq!['h', 'i', 'd', 'e']
}

/// Label shown on the quit item ("close the program").
pub open spec fn quit_label_spec() -> Seq<char> {
    seq!['關', '閉', '程', '式']
}

/// Label shown on the hide item ("hide the window").
pub open spec fn hide_label_spec() -> Seq<char> {
    seq!['隱', '藏', '視', '窗']
}

/// Logical name under which the host registers the main window.
pub open spec fn main_window_label_spec() -> Seq<char> {
    seq!['m', 'a', 'i', 'n']
}

/// One row of the tray menu.
#[derive(Debug, PartialEq, Eq)]
pub enum MenuEntry {
    Item { id: String, label: String },
    Separator,
}

impl MenuEntry {
    /// The entry is an actionable item with this identifier and label.
    pub open spec fn is_item(&self, id: Seq<char>, label: Seq<char>) -> bool {
        &&& self matches MenuEntry::Item { id: i, label: l }
        &&& i@ == id
        &&& l@ == label
    }
}

/// The identifier of the quit item.
pub fn quit_id() -> (r: &'static str)
    ensures
        r@ == quit_id_spec(),
{
    proof {
        reveal_strlit("quit");
    }
    "quit"
}

/// The identifier of the hide item.
pub fn hide_id() -> (r: &'static str)
    ensures
        r@ == hide_id_spec(),
{
    proof {
        reveal_strlit("hide");
    }
    "hide"
}

/// The name under which the main window is looked up.
pub fn main_window_label() -> (r: &'static str)
    ensures
        r@ == main_window_label_spec(),
{
    proof {
        reveal_strlit("main");
    }
    "main"
}

/// The tray menu, top to bottom: quit, a separator, hide.
pub fn tray_menu() -> (r: Vec<MenuEntry>)
    ensures
        r@.len() == 3,
        r@[0].is_item(quit_id_spec(), quit_label_spec()),
        r@[1] is Separator,
        r@[2].is_item(hide_id_spec(), hide_label_spec()),
{
    let quit_label = "關閉程式";
    let hide_label = "隱藏視窗";
    proof {
        reveal_strlit("關閉程式");
        reveal_strlit("隱藏視窗");
        assert(quit_label@ =~= quit_label_spec());
        assert(hide_label@ =~= hide_label_spec());
    }
    let quit = MenuEntry::Item {
        id: String::from_str(quit_id()),
        label: String::from_str(quit_label),
    };
    let hide = MenuEntry::Item {
        id: String::from_str(hide_id()),
        label: String::from_str(hide_label),
    };
    let mut r: Vec<MenuEntry> = Vec::new();
    r.push(quit);
    r.push(MenuEntry::Separator);
    r.push(hide);
    r
}

} // verus!
