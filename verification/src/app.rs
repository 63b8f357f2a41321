//! The top-level application state: the active view, the resource catalog
//! with its lazily filled detail cache, the current page of records, the
//! region selector, the creation wizard, the record editor, and the
//! pending-action flags the orchestration loop drains.

use vstd::prelude::*;

use crate::editor::{contains_name, sort_attributes, sorted_attrs};
use crate::models::{
    clone_pairs, clone_value, faithful_copy, pairs_copy, AttributeValue, DynamoItem, DynamoTable,
    ItemEditorState, EditorMode, KeySchema, LogEntry, LogLevel, PaginationState, TableConfig,
};
use crate::selector::FilterableSelector;
use crate::strutil::str_eq;
use crate::wizard::{config_of, wizard_initial, WizardState, WizardStep};

verus! {

/// What a delete confirmation is about: a named resource, or the record
/// currently selected in the record browser.
#[derive(Clone, Debug, PartialEq)]
pub enum DeleteTarget {
    Table(String),
    Item,
}

/// The active view of the console.
#[derive(Clone, Debug, PartialEq)]
pub enum AppState {
    RegularTablesView,
    TableItemsView,
    RegionSelector,
    TableCreationWizard,
    ItemEditor,
    DeleteConfirmation(DeleteTarget),
    Help,
}

/// The whole application state.  The resource names and their detail
/// slots are parallel vectors indexed by the same position; a slot is
/// `None` until its details have been fetched once.
#[derive(Debug)]
pub struct App {
    pub state: AppState,
    pub table_names: Vec<String>,
    pub tables: Vec<Option<DynamoTable>>,
    pub selected_table_index: Option<usize>,
    pub current_items: Vec<DynamoItem>,
    pub selected_item_index: Option<usize>,
    pub pagination: PaginationState,
    pub current_region: String,
    pub region_selector: FilterableSelector,
    pub wizard_state: WizardState,
    pub item_editor: Option<ItemEditorState>,
    pub is_loading: bool,
    pub status_message: String,
    pub log: Vec<LogEntry>,
    pub pending_save_item: bool,
    pub pending_delete_item: bool,
    pub pending_delete_table: Option<String>,
    pub pending_refresh: bool,
}

/// The resource-catalog side is unchanged.
pub open spec fn same_tables(a: App, b: App) -> bool {
    &&& a.table_names == b.table_names
    &&& a.tables == b.tables
    &&& a.selected_table_index == b.selected_table_index
}

/// The record-browsing side is unchanged: the loaded page holds the same
/// records, and the selection and pagination are the same.
pub open spec fn same_items(a: App, b: App) -> bool {
    &&& a.current_items@ == b.current_items@
    &&& a.selected_item_index == b.selected_item_index
    &&& a.pagination == b.pagination
}

/// The region side is unchanged.
pub open spec fn same_region(a: App, b: App) -> bool {
    &&& a.current_region == b.current_region
    &&& a.region_selector == b.region_selector
}

/// The wizard and the record editor are unchanged.
pub open spec fn same_editing(a: App, b: App) -> bool {
    &&& a.wizard_state == b.wizard_state
    &&& a.item_editor == b.item_editor
}

/// The pending-action flags are unchanged.
pub open spec fn same_flags(a: App, b: App) -> bool {
    &&& a.pending_save_item == b.pending_save_item
    &&& a.pending_delete_item == b.pending_delete_item
    &&& a.pending_delete_table == b.pending_delete_table
    &&& a.pending_refresh == b.pending_refresh
}

/// The loading indicator, the status message and the log are unchanged.
pub open spec fn same_ui(a: App, b: App) -> bool {
    &&& a.is_loading == b.is_loading
    &&& a.status_message == b.status_message
    &&& a.log == b.log
}

/// Everything except the active view tag is unchanged.
pub open spec fn same_but_state(a: App, b: App) -> bool {
    &&& same_tables(a, b)
    &&& same_items(a, b)
    &&& same_region(a, b)
    &&& same_editing(a, b)
    &&& same_flags(a, b)
    &&& same_ui(a, b)
}

/// Everything except the wizard form is unchanged.
pub open spec fn only_wizard_changed(a: App, b: App) -> bool {
    &&& a.state == b.state
    &&& same_tables(a, b)
    &&& same_items(a, b)
    &&& same_region(a, b)
    &&& a.item_editor == b.item_editor
    &&& same_flags(a, b)
    &&& same_ui(a, b)
}

/// Everything except the status message is unchanged.
pub open spec fn only_status_changed(a: App, b: App) -> bool {
    &&& a.state == b.state
    &&& same_tables(a, b)
    &&& same_items(a, b)
    &&& same_region(a, b)
    &&& same_editing(a, b)
    &&& same_flags(a, b)
    &&& a.is_loading == b.is_loading
    &&& a.log == b.log
}

/// Everything except the record editor is unchanged.
pub open spec fn only_editor_changed(a: App, b: App) -> bool {
    &&& a.state == b.state
    &&& same_tables(a, b)
    &&& same_items(a, b)
    &&& same_region(a, b)
    &&& a.wizard_state == b.wizard_state
    &&& same_flags(a, b)
    &&& same_ui(a, b)
}

/// Everything except the region selector is unchanged.
pub open spec fn only_selector_changed(a: App, b: App) -> bool {
    &&& a.state == b.state
    &&& same_tables(a, b)
    &&& same_items(a, b)
    &&& a.current_region == b.current_region
    &&& same_editing(a, b)
    &&& same_flags(a, b)
    &&& same_ui(a, b)
}

/// The selection as a position, an absent one reading as the first row.
pub open spec fn sel_or_zero(s: Option<usize>) -> int {
    match s {
        Some(i) => i as int,
        None => 0,
    }
}

/// The record carries the resource's key attributes by name.
pub open spec fn item_has_keys(t: DynamoTable, it: DynamoItem) -> bool {
    &&& contains_name(it.attributes@, t.hash_key.name@)
    &&& (t.range_key matches Some(k) ==> contains_name(it.attributes@, k.name@))
}

/// A freshly constructed record editor over a resource: the key rows and
/// nothing else, each with an empty text value, the first row selected.
pub open spec fn created_editor(e: ItemEditorState, t: DynamoTable) -> bool {
    &&& e.wf()
    &&& e.mode is Create
    &&& e.table_name@ == t.name@
    &&& e.hash_key_schema == t.hash_key
    &&& e.range_key_schema == t.range_key
    &&& e.selected_attribute_index == 0
    &&& e.editing_field is None
    &&& e.input_buffer@ == Seq::<char>::empty()
    &&& e.attributes@.len() == (if t.range_key is Some {
        2int
    } else {
        1int
    })
    &&& e.attributes@[0].0@ == t.hash_key.name@
    &&& (e.attributes@[0].1 matches AttributeValue::Text(s) && s@ == Seq::<char>::empty())
    &&& (t.range_key matches Some(rk) ==> e.attributes@[1].0@ == rk.name@ && (
    e.attributes@[1].1 matches AttributeValue::Text(s2) && s2@ == Seq::<char>::empty()))
}

/// The names of a resource's key schema, as character sequences.
pub open spec fn range_name_view(rk: Option<KeySchema>) -> Option<Seq<char>> {
    match rk {
        Some(k) => Some(k.name@),
        None => None,
    }
}

/// An editor row carries the name of some attribute of the record, with a
/// faithful copy of its value.
pub open spec fn row_matches(item_attrs: Seq<(String, AttributeValue)>, row: (
    String,
    AttributeValue,
)) -> bool {
    exists|j: int|
        0 <= j < item_attrs.len() && row.0@ == (#[trigger] item_attrs[j]).0@ && faithful_copy(
            row.1,
            item_attrs[j].1,
        )
}

/// Some editor row carries this attribute's name, with a faithful copy of
/// its value.
pub open spec fn row_covered(rows: Seq<(String, AttributeValue)>, target: (
    String,
    AttributeValue,
)) -> bool {
    exists|i: int|
        0 <= i < rows.len() && (#[trigger] rows[i]).0@ == target.0@ && faithful_copy(
            rows[i].1,
            target.1,
        )
}

/// A record editor constructed over an existing record: key rows first and
/// names ascending within each group, and the rows correspond one-to-one
/// to the record's attributes, names exactly and values faithfully copied.
pub open spec fn edited_editor(e: ItemEditorState, t: DynamoTable, item: DynamoItem) -> bool {
    &&& e.wf()
    &&& e.mode is Edit
    &&& e.table_name@ == t.name@
    &&& e.hash_key_schema == t.hash_key
    &&& e.range_key_schema == t.range_key
    &&& e.selected_attribute_index == 0
    &&& e.editing_field is None
    &&& e.input_buffer@ == Seq::<char>::empty()
    &&& sorted_attrs(t.hash_key.name@, range_name_view(t.range_key), e.attributes@)
    &&& e.attributes@.len() == item.attributes@.len()
    &&& (forall|i: int|
        0 <= i < e.attributes@.len() ==> row_matches(
            item.attributes@,
            #[trigger] e.attributes@[i],
        ))
    &&& (forall|j: int|
        0 <= j < item.attributes@.len() ==> row_covered(
            e.attributes@,
            #[trigger] item.attributes@[j],
        ))
}

impl App {
    /// Well-formedness of the whole application state: the detail cache
    /// is parallel to the names, selections index their sequences (or the
    /// sequence is empty), the selector is well-formed, an editor is
    /// well-formed, and the editing view always has an editor.
    pub open spec fn wf(self) -> bool {
        &&& self.region_selector.wf()
        &&& self.tables@.len() == self.table_names@.len()
        &&& (self.selected_table_index matches Some(i) ==> self.table_names@.len() == 0 || i
            < self.table_names@.len())
        &&& (self.selected_item_index matches Some(i) ==> self.current_items@.len() == 0 || i
            < self.current_items@.len())
        &&& (self.item_editor matches Some(e) ==> e.wf())
        &&& (self.state is ItemEditor ==> self.item_editor is Some)
    }

    /// The detail of the selected resource, when one is selected and its
    /// details are cached.
    pub open spec fn selected_table_detail(self) -> Option<DynamoTable> {
        match self.selected_table_index {
            Some(i) => if i < self.tables@.len() {
                self.tables@[i as int]
            } else {
                None
            },
            None => None,
        }
    }

    /// The record the selection rests on, if any.
    pub open spec fn selected_item_spec(self) -> Option<DynamoItem> {
        match self.selected_item_index {
            Some(i) => if i < self.current_items@.len() {
                Some(self.current_items@[i as int])
            } else {
                None
            },
            None => None,
        }
    }

    /// A fresh console: the resource list view over an empty catalog, the
    /// fixed region catalog with its first entry current, an initial
    /// wizard, no editor, no pending action.
    pub fn new() -> (r: Self)
        ensures
            r.wf(),
            r.state is RegularTablesView,
            r.table_names@.len() == 0,
            r.tables@.len() == 0,
            r.selected_table_index is None,
            r.current_items@.len() == 0,
            r.selected_item_index is None,
            r.pagination.current_page == 1,
            r.pagination.last_evaluated_key is None,
            !r.pagination.has_more_pages,
            r.pagination.items_per_page == 50,
            r.current_region@ == "us-east-1"@,
            r.region_selector.catalog@.len() == 28,
            r.region_selector.catalog@[0]@ == "us-east-1"@,
            r.region_selector.filter_text@ == Seq::<char>::empty(),
            r.region_selector.filtered@ == r.region_selector.catalog@,
            r.region_selector.selected == Some(0usize),
            wizard_initial(r.wizard_state),
            r.item_editor is None,
            !r.is_loading,
            r.status_message@ == Seq::<char>::empty(),
            r.log@.len() == 0,
            !r.pending_save_item,
            !r.pending_delete_item,
            r.pending_delete_table is None,
            !r.pending_refresh,
    {
        let mut regions: Vec<String> = Vec::new();
        regions.push("us-east-1".to_owned());
        regions.push("us-east-2".to_owned());
        regions.push("us-west-1".to_owned());
        regions.push("us-west-2".to_owned());
        regions.push("af-south-1".to_owned());
        regions.push("ap-east-1".to_owned());
        regions.push("ap-south-1".to_owned());
        regions.push("ap-south-2".to_owned());
        regions.push("ap-southeast-1".to_owned());
        regions.push("ap-southeast-2".to_owned());
        regions.push("ap-southeast-3".to_owned());
        regions.push("ap-southeast-4".to_owned());
        regions.push("ap-northeast-1".to_owned());
        regions.push("ap-northeast-2".to_owned());
        regions.push("ap-northeast-3".to_owned());
        regions.push("ca-central-1".to_owned());
        regions.push("ca-west-1".to_owned());
        regions.push("eu-central-1".to_owned());
        regions.push("eu-central-2".to_owned());
        regions.push("eu-west-1".to_owned());
        regions.push("eu-west-2".to_owned());
        regions.push("eu-west-3".to_owned());
        regions.push("eu-south-1".to_owned());
        regions.push("eu-south-2".to_owned());
        regions.push("eu-north-1".to_owned());
        regions.push("me-south-1".to_owned());
        regions.push("me-central-1".to_owned());
        regions.push("sa-east-1".to_owned());
        let region_selector = FilterableSelector::new(regions);
        App {
            state: AppState::RegularTablesView,
            table_names: Vec::new(),
            tables: Vec::new(),
            selected_table_index: None,
            current_items: Vec::new(),
            selected_item_index: None,
            pagination: PaginationState::new(),
            current_region: "us-east-1".to_owned(),
            region_selector,
            wizard_state: WizardState::new(),
            item_editor: None,
            is_loading: false,
            status_message: String::new(),
            log: Vec::new(),
            pending_save_item: false,
            pending_delete_item: false,
            pending_delete_table: None,
            pending_refresh: false,
        }
    }

    /// Appends one entry to the log; everything else is untouched.  A log
    /// entry's timestamp comes from the clock, so nothing is said of it.
    pub fn log(&mut self, level: LogLevel, message: String)
        ensures
            final(self).log@.len() == old(self).log@.len() + 1,
            final(self).log@.drop_last() == old(self).log@,
            final(self).log@.last().level == level,
            final(self).log@.last().message == message,
            final(self).state == old(self).state,
            same_tables(*final(self), *old(self)),
            same_items(*final(self), *old(self)),
            same_region(*final(self), *old(self)),
            same_editing(*final(self), *old(self)),
            same_flags(*final(self), *old(self)),
            final(self).is_loading == old(self).is_loading,
            final(self).status_message == old(self).status_message,
    {
        self.log.push(LogEntry::new(level, message));
        proof {
            assert(self.log@.drop_last() =~= old(self).log@);
        }
    }

    /// The selected resource's cached detail, if the selection rests on a
    /// loaded slot.
    pub fn selected_table(&self) -> (r: Option<&DynamoTable>)
        ensures
            r is Some <==> self.selected_table_detail() is Some,
            r matches Some(t) ==> Some(*t) == self.selected_table_detail(),
    {
        match self.selected_table_index {
            Some(i) => {
                if i < self.tables.len() {
                    self.tables[i].as_ref()
                } else {
                    None
                }
            },
            None => None,
        }
    }

    /// The selected record, if any.
    pub fn selected_item(&self) -> (r: Option<&DynamoItem>)
        ensures
            r is Some <==> self.selected_item_spec() is Some,
            r matches Some(it) ==> Some(*it) == self.selected_item_spec(),
    {
        match self.selected_item_index {
            Some(i) => {
                if i < self.current_items.len() {
                    Some(&self.current_items[i])
                } else {
                    None
                }
            },
            None => None,
        }
    }

    /// Replaces the region filter text and refilters the catalog.
    pub fn update_region_filter(&mut self, filter: String)
        requires
            old(self).wf(),
        ensures
            final(self).wf(),
            crate::selector::refiltered(
                old(self).region_selector,
                final(self).region_selector,
                filter@,
            ),
            final(self).state == old(self).state,
            same_tables(*final(self), *old(self)),
            same_items(*final(self), *old(self)),
            final(self).current_region == old(self).current_region,
            same_editing(*final(self), *old(self)),
            same_flags(*final(self), *old(self)),
            same_ui(*final(self), *old(self)),
    {
        self.region_selector.set_filter(filter);
    }

    /// Enters the record-browsing view: the page is emptied, the first
    /// (still absent) row is marked selected, and pagination is reset.
    pub fn enter_items_view(&mut self)
        requires
            old(self).wf(),
        ensures
            final(self).wf(),
            final(self).state is TableItemsView,
            final(self).current_items@.len() == 0,
            final(self).selected_item_index == Some(0usize),
            final(self).pagination.current_page == 1,
            final(self).pagination.last_evaluated_key is None,
            !final(self).pagination.has_more_pages,
            final(self).pagination.items_per_page == 50,
            same_tables(*final(self), *old(self)),
            same_region(*final(self), *old(self)),
            same_editing(*final(self), *old(self)),
            same_flags(*final(self), *old(self)),
            same_ui(*final(self), *old(self)),
    {
        self.state = AppState::TableItemsView;
        self.current_items = Vec::new();
        self.selected_item_index = Some(0);
        self.pagination = PaginationState::new();
    }

    /// Leaves the record-browsing view for the resource list, discarding
    /// the page and resetting pagination.
    pub fn exit_items_view(&mut self)
        requires
            old(self).wf(),
        ensures
            final(self).wf(),
            final(self).state is RegularTablesView,
            final(self).current_items@.len() == 0,
            final(self).selected_item_index == old(self).selected_item_index,
            final(self).pagination.current_page == 1,
            final(self).pagination.last_evaluated_key is None,
            !final(self).pagination.has_more_pages,
            final(self).pagination.items_per_page == 50,
            same_tables(*final(self), *old(self)),
            same_region(*final(self), *old(self)),
            same_editing(*final(self), *old(self)),
            same_flags(*final(self), *old(self)),
            same_ui(*final(self), *old(self)),
    {
        self.state = AppState::RegularTablesView;
        self.current_items = Vec::new();
        self.pagination = PaginationState::new();
    }

    /// Opens the record editor to create a fresh record: one row per key
    /// attribute, each with an empty text value.
    pub fn start_create_item(&mut self, table: &DynamoTable)
        requires
            old(self).wf(),
        ensures
            final(self).wf(),
            final(self).state is ItemEditor,
            final(self).item_editor matches Some(e) && created_editor(e, *table),
            same_tables(*final(self), *old(self)),
            same_items(*final(self), *old(self)),
            same_region(*final(self), *old(self)),
            final(self).wizard_state == old(self).wizard_state,
            same_flags(*final(self), *old(self)),
            same_ui(*final(self), *old(self)),
    {
        let mut attributes: Vec<(String, AttributeValue)> = Vec::new();
        attributes.push((table.hash_key.name.clone(), AttributeValue::Text(String::new())));
        match &table.range_key {
            Some(range_key) => {
                attributes.push((range_key.name.clone(), AttributeValue::Text(String::new())));
            },
            None => {},
        }
        self.item_editor = Some(
            ItemEditorState {
                mode: EditorMode::Create,
                table_name: table.name.clone(),
                hash_key_schema: table.hash_key.clone(),
                range_key_schema: match &table.range_key {
                    Some(k) => Some(k.clone()),
                    None => None,
                },
                attributes,
                selected_attribute_index: 0,
                editing_field: None,
                input_buffer: String::new(),
            },
        );
        self.state = AppState::ItemEditor;
        proof {
            let e = self.item_editor->Some_0;
            assert(e.attributes@[0].0@ == e.hash_key_schema.name@);
            assert(contains_name(e.attributes@, e.hash_key_schema.name@));
            if table.range_key is Some {
                assert(e.attributes@[1].0@ == e.range_key_schema->Some_0.name@);
                assert(contains_name(e.attributes@, e.range_key_schema->Some_0.name@));
            }
        }
    }

    /// Opens the record editor over an existing record.  The record's
    /// attributes are copied and presented key rows first, names ascending
    /// within each group.
    #[verifier::rlimit(30)]
    pub fn start_edit_item(&mut self, table: &DynamoTable, item: &DynamoItem)
        requires
            old(self).wf(),
            contains_name(item.attributes@, table.hash_key.name@),
            table.range_key matches Some(k) ==> contains_name(item.attributes@, k.name@),
        ensures
            final(self).wf(),
            final(self).state is ItemEditor,
            final(self).item_editor matches Some(e) && edited_editor(e, *table, *item),
            same_tables(*final(self), *old(self)),
            same_items(*final(self), *old(self)),
            same_region(*final(self), *old(self)),
            final(self).wizard_state == old(self).wizard_state,
            same_flags(*final(self), *old(self)),
            same_ui(*final(self), *old(self)),
    {
        let cloned = clone_pairs(&item.attributes);
        let ghost gcloned = cloned@;
        let range_name: Option<String> = match &table.range_key {
            Some(k) => Some(k.name.clone()),
            None => None,
        };
        let sorted = sort_attributes(cloned, &table.hash_key.name, &range_name);
        proof {
            lemma_edit_pairing(gcloned, sorted@, item.attributes@);
        }
        self.item_editor = Some(
            ItemEditorState {
                mode: EditorMode::Edit,
                table_name: table.name.clone(),
                hash_key_schema: table.hash_key.clone(),
                range_key_schema: match &table.range_key {
                    Some(k) => Some(k.clone()),
                    None => None,
                },
                attributes: sorted,
                selected_attribute_index: 0,
                editing_field: None,
                input_buffer: String::new(),
            },
        );
        self.state = AppState::ItemEditor;
        proof {
            let e = self.item_editor->Some_0;
            assert(contains_name(e.attributes@, e.hash_key_schema.name@));
            if table.range_key is Some {
                assert(contains_name(e.attributes@, e.range_key_schema->Some_0.name@));
            }
            assert(range_name_view(table.range_key) == (match range_name {
                Some(rn) => Some(rn@),
                None => None,
            }));
            assert(e.wf());
        }
    }

    /// Discards the record editor and returns to the record-browsing view.
    pub fn exit_item_editor(&mut self)
        requires
            old(self).wf(),
        ensures
            final(self).wf(),
            final(self).state is TableItemsView,
            final(self).item_editor is None,
            same_tables(*final(self), *old(self)),
            same_items(*final(self), *old(self)),
            same_region(*final(self), *old(self)),
            final(self).wizard_state == old(self).wizard_state,
            same_flags(*final(self), *old(self)),
            same_ui(*final(self), *old(self)),
    {
        self.item_editor = None;
        self.state = AppState::TableItemsView;
    }
}

/// One backend operation the orchestration loop is asked to perform: at
/// most one is issued per tick, and the loop applies the outcome through
/// the `apply_*` methods.
#[derive(Debug)]
pub enum BackendAction {
    LoadTables,
    SwitchRegion(String),
    LoadItems(String, usize, Option<Vec<(String, AttributeValue)>>),
    CreateTable(TableConfig),
    SaveItem(String, Vec<(String, AttributeValue)>),
    DeleteItem(String, Vec<(String, AttributeValue)>),
    DeleteTable(String),
    DescribeTable(usize, String),
}

/// The key mapping a record deletion sends: the hash key entry, and the
/// range key entry when the resource declares one and the record carries
/// a value for it.
pub open spec fn delete_key_of(
    key: Seq<(String, AttributeValue)>,
    t: DynamoTable,
    it: DynamoItem,
) -> bool {
    &&& key.len() >= 1
    &&& key[0].0 == t.hash_key.name
    &&& faithful_copy(key[0].1, it.hash_key_value)
    &&& (match (t.range_key, it.range_key_value) {
        (Some(k), Some(v)) => key.len() == 2 && key[1].0 == k.name && faithful_copy(key[1].1, v),
        _ => key.len() == 1,
    })
}

/// The lazily fetched detail the loop owes next, if any: the selected
/// resource whose detail slot is still empty.
pub open spec fn describe_decision(pre: App, r: Option<BackendAction>) -> bool {
    match pre.selected_table_index {
        Some(i) => if i < pre.tables@.len() && pre.tables@[i as int] is None {
            r matches Some(a) && (a matches BackendAction::DescribeTable(j, n) && j == i && n@
                == pre.table_names@[i as int]@)
        } else {
            r is None
        },
        None => r is None,
    }
}

impl App {
    /// Decides the one backend operation due this tick, draining the flag
    /// that asked for it.  A raised delete-record flag takes precedence
    /// over a delete-resource flag; the other is kept for the next tick.
    /// With nothing else due, the selected resource's missing detail is
    /// fetched.
    pub fn next_backend_action(&mut self, backend_region: &str) -> (r: Option<BackendAction>)
        requires
            old(self).wf(),
        ensures
            final(self).wf(),
            final(self).state == old(self).state,
            same_tables(*final(self), *old(self)),
            same_items(*final(self), *old(self)),
            same_region(*final(self), *old(self)),
            same_editing(*final(self), *old(self)),
            same_ui(*final(self), *old(self)),
            final(self).pending_refresh == (old(self).pending_refresh && !(old(self).state
                is RegularTablesView)),
            final(self).pending_save_item == (old(self).pending_save_item && !(old(self).state
                is ItemEditor)),
            final(self).pending_delete_item == (old(self).pending_delete_item && !(old(
                self,
            ).state is DeleteConfirmation)),
            final(self).pending_delete_table == (if old(self).state is DeleteConfirmation && !old(
                self,
            ).pending_delete_item {
                Option::<String>::None
            } else {
                old(self).pending_delete_table
            }),
            old(self).state is RegularTablesView ==> {
                &&& (old(self).pending_refresh ==> (r matches Some(a) && a is LoadTables))
                &&& (!old(self).pending_refresh && backend_region@ != old(self).current_region@
                    ==> (r matches Some(BackendAction::SwitchRegion(rg)) && rg == old(
                    self,
                ).current_region))
                &&& (!old(self).pending_refresh && backend_region@ == old(self).current_region@
                    ==> describe_decision(*old(self), r))
            },
            old(self).state is TableItemsView ==> {
                &&& (match old(self).selected_table_detail() {
                    Some(t) => old(self).current_items@.len() == 0 && !old(self).is_loading ==> (
                    r matches Some(BackendAction::LoadItems(n, ps, tok)) && n@ == t.name@ && ps
                        == old(self).pagination.items_per_page && (match old(
                        self,
                    ).pagination.last_evaluated_key {
                        Some(k) => tok matches Some(tk) && pairs_copy(tk@, k@),
                        None => tok is None,
                    })),
                    None => true,
                })
                &&& ((old(self).current_items@.len() > 0 || old(self).is_loading || old(
                    self,
                ).selected_table_detail() is None) ==> describe_decision(*old(self), r))
            },
            old(self).state is TableCreationWizard ==> {
                &&& (old(self).wizard_state.step is Review ==> (r matches Some(
                    BackendAction::CreateTable(cfg),
                ) && config_of(old(self).wizard_state, cfg)))
                &&& (!(old(self).wizard_state.step is Review) ==> describe_decision(
                    *old(self),
                    r,
                ))
            },
            old(self).state is ItemEditor ==> {
                &&& (match old(self).item_editor {
                    Some(e) => old(self).pending_save_item ==> (r matches Some(
                        BackendAction::SaveItem(n, attrs),
                    ) && n == e.table_name && pairs_copy(attrs@, e.attributes@)),
                    None => true,
                })
                &&& (!old(self).pending_save_item ==> describe_decision(*old(self), r))
            },
            old(self).state is DeleteConfirmation ==> {
                &&& (match (old(self).selected_table_detail(), old(self).selected_item_spec()) {
                    (Some(t), Some(it)) => old(self).pending_delete_item ==> (r matches Some(
                        BackendAction::DeleteItem(n, key),
                    ) && n == t.name && delete_key_of(key@, t, it)),
                    _ => true,
                })
                &&& (match old(self).pending_delete_table {
                    Some(nm) => !old(self).pending_delete_item ==> (r matches Some(
                        BackendAction::DeleteTable(n2),
                    ) && n2 == nm),
                    None => true,
                })
                &&& (!old(self).pending_delete_item && old(self).pending_delete_table is None
                    ==> describe_decision(*old(self), r))
            },
            old(self).state is RegionSelector || old(self).state is Help ==> describe_decision(
                *old(self),
                r,
            ),
    {
        match &self.state {
            AppState::RegularTablesView => {
                if self.pending_refresh {
                    self.pending_refresh = false;
                    return Some(BackendAction::LoadTables);
                }
                if !str_eq(backend_region, self.current_region.as_str()) {
                    return Some(BackendAction::SwitchRegion(self.current_region.clone()));
                }
                self.describe_if_needed()
            },
            AppState::TableItemsView => {
                if self.current_items.len() == 0 && !self.is_loading {
                    let name: Option<String> = match self.selected_table() {
                        Some(t) => Some(t.name.clone()),
                        None => None,
                    };
                    match name {
                        Some(n) => {
                            let token: Option<Vec<(String, AttributeValue)>> = match &self
                                .pagination
                                .last_evaluated_key {
                                Some(k) => Some(clone_pairs(k)),
                                None => None,
                            };
                            return Some(
                                BackendAction::LoadItems(
                                    n,
                                    self.pagination.items_per_page,
                                    token,
                                ),
                            );
                        },
                        None => {},
                    }
                }
                self.describe_if_needed()
            },
            AppState::TableCreationWizard => {
                if matches!(self.wizard_state.step, WizardStep::Review) {
                    return Some(BackendAction::CreateTable(self.wizard_state.to_table_config()));
                }
                self.describe_if_needed()
            },
            AppState::ItemEditor => {
                if self.pending_save_item {
                    self.pending_save_item = false;
                    let payload: Option<(String, Vec<(String, AttributeValue)>)> = match &self
                        .item_editor {
                        Some(e) => Some((e.table_name.clone(), clone_pairs(&e.attributes))),
                        None => None,
                    };
                    match payload {
                        Some((n, attrs)) => {
                            return Some(BackendAction::SaveItem(n, attrs));
                        },
                        None => {},
                    }
                }
                self.describe_if_needed()
            },
            AppState::DeleteConfirmation(_) => {
                if self.pending_delete_item {
                    self.pending_delete_item = false;
                    let payload = self.build_delete_key();
                    match payload {
                        Some((n, key)) => {
                            return Some(BackendAction::DeleteItem(n, key));
                        },
                        None => {},
                    }
                    return self.describe_if_needed();
                }
                let name: Option<String> = match &self.pending_delete_table {
                    Some(n) => Some(n.clone()),
                    None => None,
                };
                match name {
                    Some(n) => {
                        self.pending_delete_table = None;
                        return Some(BackendAction::DeleteTable(n));
                    },
                    None => {},
                }
                self.describe_if_needed()
            },
            _ => self.describe_if_needed(),
        }
    }

    fn describe_if_needed(&self) -> (r: Option<BackendAction>)
        requires
            self.wf(),
        ensures
            describe_decision(*self, r),
    {
        match self.selected_table_index {
            Some(i) => {
                if i < self.tables.len() {
                    let missing = matches!(self.tables[i], None);
                    if missing {
                        Some(BackendAction::DescribeTable(i, self.table_names[i].clone()))
                    } else {
                        None
                    }
                } else {
                    None
                }
            },
            None => None,
        }
    }

    fn build_delete_key(&self) -> (r: Option<(String, Vec<(String, AttributeValue)>)>)
        requires
            self.wf(),
        ensures
            r is Some <==> self.selected_table_detail() is Some && self.selected_item_spec()
                is Some,
            r matches Some((n, key)) ==> (self.selected_table_detail() matches Some(t)
                && self.selected_item_spec() matches Some(it) && n == t.name && delete_key_of(
                key@,
                t,
                it,
            )),
    {
        let payload: Option<(String, Vec<(String, AttributeValue)>)> = match (
            self.selected_table(),
            self.selected_item(),
        ) {
            (Some(t), Some(it)) => {
                let mut key: Vec<(String, AttributeValue)> = Vec::new();
                key.push((t.hash_key.name.clone(), clone_value(&it.hash_key_value)));
                match (&t.range_key, &it.range_key_value) {
                    (Some(k), Some(v)) => {
                        key.push((k.name.clone(), clone_value(v)));
                    },
                    _ => {},
                }
                Some((t.name.clone(), key))
            },
            _ => None,
        };
        payload
    }

    /// Replaces the resource catalog after a listing call: one empty
    /// detail slot per name, and the first resource selected when there
    /// is one.
    pub fn apply_table_list(&mut self, names: Vec<String>)
        requires
            old(self).wf(),
        ensures
            final(self).wf(),
            final(self).table_names == names,
            final(self).tables@.len() == names@.len(),
            forall|i: int| 0 <= i < names@.len() ==> (#[trigger] final(self).tables@[i]) is None,
            names@.len() > 0 ==> final(self).selected_table_index == Some(0usize),
            names@.len() == 0 ==> final(self).selected_table_index is None,
            final(self).state == old(self).state,
            same_items(*final(self), *old(self)),
            same_region(*final(self), *old(self)),
            same_editing(*final(self), *old(self)),
            same_flags(*final(self), *old(self)),
            same_ui(*final(self), *old(self)),
    {
        let n: usize = names.len();
        self.table_names = names;
        let mut slots: Vec<Option<DynamoTable>> = Vec::new();
        let mut i: usize = 0;
        while i < n
            invariant
                i <= n,
                slots@.len() == i,
                forall|k: int| 0 <= k < i ==> (#[trigger] slots@[k]) is None,
            decreases n - i,
        {
            slots.push(None);
            i = i + 1;
        }
        self.tables = slots;
        if n > 0 {
            self.selected_table_index = Some(0);
        } else {
            self.selected_table_index = None;
        }
    }

    /// Empties the resource catalog after a failed listing call.
    pub fn apply_table_list_failed(&mut self)
        requires
            old(self).wf(),
        ensures
            final(self).wf(),
            final(self).table_names@.len() == 0,
            final(self).tables@.len() == 0,
            final(self).selected_table_index == old(self).selected_table_index,
            final(self).state == old(self).state,
            same_items(*final(self), *old(self)),
            same_region(*final(self), *old(self)),
            same_editing(*final(self), *old(self)),
            same_flags(*final(self), *old(self)),
            same_ui(*final(self), *old(self)),
    {
        self.table_names = Vec::new();
        self.tables = Vec::new();
    }

    /// Fills one detail slot after a describe call; the cache is written
    /// at most once per slot per catalog load, since only empty slots are
    /// ever asked for.
    pub fn apply_table_detail(&mut self, index: usize, table: DynamoTable)
        requires
            old(self).wf(),
        ensures
            final(self).wf(),
            index < old(self).tables@.len() ==> final(self).tables@ == old(self).tables@.update(
                index as int,
                Some(table),
            ),
            index >= old(self).tables@.len() ==> final(self).tables == old(self).tables,
            final(self).table_names == old(self).table_names,
            final(self).selected_table_index == old(self).selected_table_index,
            final(self).state == old(self).state,
            same_items(*final(self), *old(self)),
            same_region(*final(self), *old(self)),
            same_editing(*final(self), *old(self)),
            same_flags(*final(self), *old(self)),
            same_ui(*final(self), *old(self)),
    {
        if index < self.tables.len() {
            self.tables[index] = Some(table);
        }
    }

    /// Replaces the loaded page after a scan call, records the
    /// continuation token, and selects the first record of a non-empty
    /// page.
    pub fn apply_scan_page(
        &mut self,
        items: Vec<DynamoItem>,
        last_key: Option<Vec<(String, AttributeValue)>>,
    )
        requires
            old(self).wf(),
        ensures
            final(self).wf(),
            final(self).current_items == items,
            final(self).pagination.last_evaluated_key == last_key,
            final(self).pagination.has_more_pages == (last_key is Some),
            final(self).pagination.current_page == old(self).pagination.current_page,
            final(self).pagination.items_per_page == old(self).pagination.items_per_page,
            items@.len() > 0 ==> final(self).selected_item_index == Some(0usize),
            items@.len() == 0 ==> final(self).selected_item_index == old(
                self,
            ).selected_item_index,
            final(self).state == old(self).state,
            same_tables(*final(self), *old(self)),
            same_region(*final(self), *old(self)),
            same_editing(*final(self), *old(self)),
            same_flags(*final(self), *old(self)),
            same_ui(*final(self), *old(self)),
    {
        let has_more = matches!(last_key, Some(_));
        let nonempty = items.len() > 0;
        self.current_items = items;
        self.pagination.last_evaluated_key = last_key;
        self.pagination.has_more_pages = has_more;
        if nonempty {
            self.selected_item_index = Some(0);
        }
    }

    /// Empties the loaded page after a failed scan call.
    pub fn apply_scan_failed(&mut self)
        requires
            old(self).wf(),
        ensures
            final(self).wf(),
            final(self).current_items@.len() == 0,
            final(self).selected_item_index == old(self).selected_item_index,
            final(self).pagination == old(self).pagination,
            final(self).state == old(self).state,
            same_tables(*final(self), *old(self)),
            same_region(*final(self), *old(self)),
            same_editing(*final(self), *old(self)),
            same_flags(*final(self), *old(self)),
            same_ui(*final(self), *old(self)),
    {
        self.current_items = Vec::new();
    }

    /// Returns to the resource list, the nearest safe view after a failed
    /// or finished resource operation.
    pub fn return_to_tables_view(&mut self)
        requires
            old(self).wf(),
        ensures
            final(self).wf(),
            final(self).state is RegularTablesView,
            same_but_state(*final(self), *old(self)),
    {
        self.state = AppState::RegularTablesView;
    }

    /// Returns to the record browser, the nearest safe view after a
    /// record deletion resolves either way.
    pub fn return_to_items_view(&mut self)
        requires
            old(self).wf(),
        ensures
            final(self).wf(),
            final(self).state is TableItemsView,
            same_but_state(*final(self), *old(self)),
    {
        self.state = AppState::TableItemsView;
    }
}

/// A reordered copy of a record's attributes pairs up with the record:
/// the lengths agree, each row of the copy carries the name and a faithful
/// copy of the value of some record attribute and conversely, and every
/// name present in the record is present in the copy.
proof fn lemma_edit_pairing(
    cloned: Seq<(String, AttributeValue)>,
    sorted: Seq<(String, AttributeValue)>,
    item_attrs: Seq<(String, AttributeValue)>,
)
    requires
        pairs_copy(cloned, item_attrs),
        sorted.to_multiset() == cloned.to_multiset(),
    ensures
        sorted.len() == item_attrs.len(),
        forall|i: int| 0 <= i < sorted.len() ==> row_matches(item_attrs, #[trigger] sorted[i]),
        forall|j: int|
            0 <= j < item_attrs.len() ==> row_covered(sorted, #[trigger] item_attrs[j]),
        forall|n: Seq<char>| contains_name(item_attrs, n) ==> contains_name(sorted, n),
{
    assert(sorted.to_multiset().len() == sorted.len()) by {
        broadcast use vstd::seq_lib::group_to_multiset_ensures;

    }
    assert(cloned.to_multiset().len() == cloned.len()) by {
        broadcast use vstd::seq_lib::group_to_multiset_ensures;

    }
    assert forall|i: int| 0 <= i < sorted.len() implies row_matches(
        item_attrs,
        #[trigger] sorted[i],
    ) by {
        lemma_multiset_to_exists(sorted, cloned, i);
        let k = choose|k: int| 0 <= k < cloned.len() && cloned[k] == sorted[i];
        assert(cloned[k].0 == item_attrs[k].0);
        assert(faithful_copy(cloned[k].1, item_attrs[k].1));
        assert(0 <= k < item_attrs.len());
        assert(sorted[i].0@ == item_attrs[k].0@);
        assert(faithful_copy(sorted[i].1, item_attrs[k].1));
        assert(row_matches(item_attrs, sorted[i]));
    }
    assert forall|j: int| 0 <= j < item_attrs.len() implies row_covered(
        sorted,
        #[trigger] item_attrs[j],
    ) by {
        lemma_multiset_to_exists(cloned, sorted, j);
        let i = choose|i: int| 0 <= i < sorted.len() && sorted[i] == cloned[j];
        assert(cloned[j].0 == item_attrs[j].0);
        assert(faithful_copy(cloned[j].1, item_attrs[j].1));
        assert(0 <= i < sorted.len());
        assert(sorted[i].0@ == item_attrs[j].0@);
        assert(faithful_copy(sorted[i].1, item_attrs[j].1));
        assert(row_covered(sorted, item_attrs[j]));
    }
    assert forall|n: Seq<char>| contains_name(item_attrs, n) implies contains_name(sorted, n) by {
        let j = choose|j: int| 0 <= j < item_attrs.len() && item_attrs[j].0@ == n;
        assert(cloned[j].0@ == n);
        lemma_multiset_to_exists(cloned, sorted, j);
        let i = choose|i: int| 0 <= i < sorted.len() && sorted[i] == cloned[j];
        assert(sorted[i].0@ == n);
    }
}

/// Two sequences with equal element multisets contain the same elements:
/// each element of the first appears somewhere in the second.
proof fn lemma_multiset_to_exists(
    a: Seq<(String, AttributeValue)>,
    b: Seq<(String, AttributeValue)>,
    i: int,
)
    requires
        a.to_multiset() == b.to_multiset(),
        0 <= i < a.len(),
    ensures
        exists|j: int| 0 <= j < b.len() && b[j] == a[i],
{
    broadcast use vstd::seq_lib::group_to_multiset_ensures;

    assert(a.contains(a[i]));
    assert(b.to_multiset().count(a[i]) > 0);
    assert(b.contains(a[i]));
    let j = choose|j: int| 0 <= j < b.len() && b[j] == a[i];
    assert(0 <= j < b.len() && b[j] == a[i]);
}

} // verus!
