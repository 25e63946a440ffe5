//! A data tab: a toolbar, a list panel of generated rows and a detail panel
//! of generated fields, of which exactly one is visible at a time.
use crate::text::{decimal, numbered};
use vstd::prelude::*;

verus! {

/// Which of a tab's two panels is visible.
#[derive(PartialEq, Eq, Structural, Clone, Copy, Debug)]
pub enum Panel {
    List,
    Detail,
}

/// The other panel.
pub open spec fn flipped(p: Panel) -> Panel {
    match p {
        Panel::List => Panel::Detail,
        Panel::Detail => Panel::List,
    }
}

/// The visible panel after `n` toggles starting from `p`.
pub open spec fn toggled_times(p: Panel, n: nat) -> Panel
    decreases n,
{
    if n == 0 {
        p
    } else {
        flipped(toggled_times(p, (n - 1) as nat))
    }
}

/// Starting from the list panel, an even number of toggles shows the list
/// panel and an odd number shows the detail panel.
pub proof fn lemma_toggle_parity(n: nat)
    ensures
        toggled_times(Panel::List, n) == (if n % 2 == 0 {
            Panel::List
        } else {
            Panel::Detail
        }),
    decreases n,
{
    if n > 0 {
        lemma_toggle_parity((n - 1) as nat);
    }
}

/// A toolbar button: the name of its icon and its label.
#[derive(Debug)]
pub struct ToolItem {
    pub icon: String,
    pub label: String,
}

impl ToolItem {
    pub open spec fn shows(&self, icon: Seq<char>, label: Seq<char>) -> bool {
        self.icon@ == icon && self.label@ == label
    }

    pub fn new(icon: &str, label: &str) -> (r: ToolItem)
        ensures
            r.shows(icon@, label@),
    {
        ToolItem { icon: String::from_str(icon), label: String::from_str(label) }
    }

    /// A copy of this button.
    pub fn duplicate(&self) -> (r: ToolItem)
        ensures
            r == *self,
    {
        ToolItem { icon: self.icon.clone(), label: self.label.clone() }
    }
}

/// What the detail toggle offers while `p` is visible: the action that a
/// click on it would take next.
pub open spec fn toggle_shows(item: ToolItem, p: Panel) -> bool {
    match p {
        Panel::List => item.shows("view-fullscreen"@, "View detail"@),
        Panel::Detail => item.shows("view-restore"@, "List view"@),
    }
}

/// The actions of a tab's toolbar. Only `detail` has a behaviour: it
/// switches the tab between its panels.
#[derive(Debug)]
pub struct DataToolbar {
    pub new: ToolItem,
    pub save: ToolItem,
    pub refresh: ToolItem,
    pub detail: ToolItem,
    pub delete: ToolItem,
    pub undo: ToolItem,
    pub redo: ToolItem,
    pub find: ToolItem,
}

impl DataToolbar {
    /// The buttons other than the detail toggle, as a new toolbar has them.
    pub open spec fn fixed_actions(&self) -> bool {
        &&& self.new.shows("list-add"@, "New"@)
        &&& self.save.shows("document-save"@, "Save"@)
        &&& self.refresh.shows("view-refresh"@, "Refresh"@)
        &&& self.delete.shows("list-remove"@, "Delete"@)
        &&& self.undo.shows("edit-undo"@, "Undo"@)
        &&& self.redo.shows("edit-redo"@, "Redo"@)
        &&& self.find.shows("edit-find"@, "Search"@)
    }

    /// The buttons in the order the toolbar shows them.
    pub open spec fn in_order(&self) -> Seq<ToolItem> {
        seq![
            self.new,
            self.save,
            self.refresh,
            self.delete,
            self.undo,
            self.redo,
            self.find,
            self.detail,
        ]
    }

    pub fn new() -> (r: DataToolbar)
        ensures
            r.fixed_actions(),
            toggle_shows(r.detail, Panel::List),
    {
        DataToolbar {
            new: ToolItem::new("list-add", "New"),
            save: ToolItem::new("document-save", "Save"),
            refresh: ToolItem::new("view-refresh", "Refresh"),
            detail: ToolItem::new("view-fullscreen", "View detail"),
            delete: ToolItem::new("list-remove", "Delete"),
            undo: ToolItem::new("edit-undo", "Undo"),
            redo: ToolItem::new("edit-redo", "Redo"),
            find: ToolItem::new("edit-find", "Search"),
        }
    }

    /// The buttons in display order, the detail toggle last.
    pub fn buttons(&self) -> (r: Vec<ToolItem>)
        ensures
            r@ == self.in_order(),
    {
        let r = vec![
            self.new.duplicate(),
            self.save.duplicate(),
            self.refresh.duplicate(),
            self.delete.duplicate(),
            self.undo.duplicate(),
            self.redo.duplicate(),
            self.find.duplicate(),
            self.detail.duplicate(),
        ];
        assert(r@ =~= self.in_order());
        r
    }
}

/// A row of a tab's list panel: two text columns and the "active" flag.
#[derive(Debug)]
pub struct TableRow {
    pub first: String,
    pub second: String,
    pub active: bool,
}

/// Row `i` of a list panel reads "I am a content in a tab{i}" and
/// "Cell 2 tab {i}", and is active.
pub open spec fn generated_row(row: TableRow, i: int) -> bool {
    &&& row.first@ == "I am a content in a tab"@ + decimal(i as nat)
    &&& row.second@ == "Cell 2 tab "@ + decimal(i as nat)
    &&& row.active
}

/// The generated rows of a new tab's list panel.
pub open spec fn generated_rows(rows: Seq<TableRow>) -> bool {
    &&& rows.len() == LIST_ROWS
    &&& forall|i: int| 0 <= i < rows.len() ==> #[trigger] generated_row(rows[i], i)
}

/// A labelled field of a tab's detail panel.
#[derive(Debug)]
pub struct DetailField {
    pub label: String,
    pub value: String,
}

/// Field `i` of a detail panel is labelled "column i+1" and holds
/// "value (i+1)*100".
pub open spec fn generated_field(field: DetailField, i: int) -> bool {
    &&& field.label@ == "column "@ + decimal((i + 1) as nat)
    &&& field.value@ == "value "@ + decimal(((i + 1) * 100) as nat)
}

/// The generated fields of a new tab's detail panel.
pub open spec fn generated_fields(fields: Seq<DetailField>) -> bool {
    &&& fields.len() == DETAIL_FIELDS
    &&& forall|i: int| 0 <= i < fields.len() ==> #[trigger] generated_field(fields[i], i)
}

/// The number of rows in a new tab's list panel.
pub const LIST_ROWS: usize = 50;

/// The number of fields in a tab's detail panel.
pub const DETAIL_FIELDS: usize = 5;

/// One tab of the notebook.
#[derive(Debug)]
pub struct DataTab {
    pub toolbar: DataToolbar,
    pub list_content: Vec<TableRow>,
    pub detail_content: Vec<DetailField>,
    pub visible: Panel,
}

impl DataTab {
    /// The detail toggle offers the action that leads away from the visible
    /// panel, and the other buttons are as a new toolbar has them.
    pub open spec fn wf(&self) -> bool {
        &&& self.toolbar.fixed_actions()
        &&& toggle_shows(self.toolbar.detail, self.visible)
    }

    /// A tab as it is created: list panel visible, generated contents.
    pub open spec fn is_fresh(&self) -> bool {
        &&& self.wf()
        &&& self.visible == Panel::List
        &&& generated_rows(self.list_content@)
        &&& generated_fields(self.detail_content@)
    }

    /// Everything but the visible panel and the detail toggle is as in `other`.
    pub open spec fn same_contents(&self, other: &DataTab) -> bool {
        &&& self.list_content == other.list_content
        &&& self.detail_content == other.detail_content
        &&& self.toolbar.new == other.toolbar.new
        &&& self.toolbar.save == other.toolbar.save
        &&& self.toolbar.refresh == other.toolbar.refresh
        &&& self.toolbar.delete == other.toolbar.delete
        &&& self.toolbar.undo == other.toolbar.undo
        &&& self.toolbar.redo == other.toolbar.redo
        &&& self.toolbar.find == other.toolbar.find
    }

    pub fn new() -> (r: DataTab)
        ensures
            r.is_fresh(),
    {
        DataTab {
            toolbar: DataToolbar::new(),
            list_content: Self::create_list_content(),
            detail_content: Self::create_detail_content(),
            visible: Panel::List,
        }
    }

    /// The rows of the list panel.
    pub fn create_list_content() -> (rows: Vec<TableRow>)
        ensures
            generated_rows(rows@),
    {
        let mut rows: Vec<TableRow> = Vec::new();
        let mut i: usize = 0;
        while i < LIST_ROWS
            invariant
                i <= LIST_ROWS,
                rows@.len() == i,
                forall|j: int| 0 <= j < i ==> #[trigger] generated_row(rows@[j], j),
            decreases LIST_ROWS - i,
        {
            let row = TableRow {
                first: numbered("I am a content in a tab", i),
                second: numbered("Cell 2 tab ", i),
                active: true,
            };
            rows.push(row);
            i = i + 1;
        }
        rows
    }

    /// The fields of the detail panel.
    pub fn create_detail_content() -> (fields: Vec<DetailField>)
        ensures
            generated_fields(fields@),
    {
        let mut fields: Vec<DetailField> = Vec::new();
        let mut i: usize = 0;
        while i < DETAIL_FIELDS
            invariant
                i <= DETAIL_FIELDS,
                fields@.len() == i,
                forall|j: int| 0 <= j < i ==> #[trigger] generated_field(fields@[j], j),
            decreases DETAIL_FIELDS - i,
        {
            let field = DetailField {
                label: numbered("column ", i + 1),
                value: numbered("value ", (i + 1) * 100),
            };
            fields.push(field);
            i = i + 1;
        }
        fields
    }

    /// Shows the list panel if `list_view`, else the detail panel, and sets
    /// the detail toggle to offer the other one.
    pub fn set_list_view(&mut self, list_view: bool)
        requires
            old(self).wf(),
        ensures
            final(self).wf(),
            final(self).visible == (if list_view {
                Panel::List
            } else {
                Panel::Detail
            }),
            final(self).same_contents(old(self)),
    {
        if list_view {
            self.visible = Panel::List;
            self.toolbar.detail = ToolItem::new("view-fullscreen", "View detail");
        } else {
            self.visible = Panel::Detail;
            self.toolbar.detail = ToolItem::new("view-restore", "List view");
        }
    }

    /// Switches to the panel that is not visible.
    pub fn toggle_list_view(&mut self)
        requires
            old(self).wf(),
        ensures
            final(self).wf(),
            final(self).visible == flipped(old(self).visible),
            final(self).same_contents(old(self)),
    {
        let list_view = self.visible == Panel::List;
        self.set_list_view(!list_view);
    }
}

} // verus!
