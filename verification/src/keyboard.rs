//! The keyboard dispatcher: routes each key event to the handler of the
//! active view, which mutates its own substate and may raise a pending
//! action or move to another view.  The dispatcher alone decides when the
//! console quits.

use vstd::prelude::*;

use crate::app::{
    created_editor, edited_editor, item_has_keys, only_editor_changed, only_selector_changed,
    only_status_changed, only_wizard_changed, same_but_state, same_editing, same_flags,
    same_items, same_region, same_tables, same_ui, sel_or_zero, App, AppState, DeleteTarget,
};
use crate::editor::has_name;
use crate::keys::{KeyCode, KeyInput};
use crate::models::{DynamoItem, DynamoTable, ItemEditorState};
use crate::selector::refiltered;
use crate::wizard::{
    backspace_applied, basic_config_ok, basic_error, billing_config_ok, billing_error,
    char_applied, is_text_field, same_wizard_but_step, tab_applied, wizard_initial, WizardField,
    WizardStep,
};

verus! {

/// Routes one key event to the active view's handler and reports whether
/// the operator asked to quit.  Quitting is offered only in the resource
/// list view, on the plain `q` key.
pub fn handle_key_event(app: &mut App, key: KeyInput) -> (quit: bool)
    requires
        old(app).wf(),
    ensures
        final(app).wf(),
        quit <==> old(app).state is RegularTablesView && key.code == KeyCode::Char('q'),
        old(app).state is Help ==> final(app).state is RegularTablesView && same_but_state(
            *final(app),
            *old(app),
        ),
{
    match &app.state {
        AppState::RegularTablesView => handle_tables_view_keys(app, key),
        AppState::TableItemsView => handle_items_view_keys(app, key),
        AppState::RegionSelector => handle_region_selector_keys(app, key),
        AppState::TableCreationWizard => handle_wizard_keys(app, key),
        AppState::ItemEditor => handle_item_editor_keys(app, key),
        AppState::DeleteConfirmation(_) => handle_delete_confirmation_keys(app, key),
        AppState::Help => {
            app.state = AppState::RegularTablesView;
            false
        },
    }
}

/// The resource list view: quit, help, the region selector, refresh, the
/// creation wizard, delete confirmation, bounded wrap-around navigation,
/// and entering the record browser.
pub fn handle_tables_view_keys(app: &mut App, key: KeyInput) -> (quit: bool)
    requires
        old(app).wf(),
        old(app).state is RegularTablesView,
    ensures
        final(app).wf(),
        quit <==> key.code == KeyCode::Char('q'),
        key.code == KeyCode::Char('q') ==> *final(app) == *old(app),
        key.code == KeyCode::Char('?') ==> final(app).state is Help && same_but_state(
            *final(app),
            *old(app),
        ),
        key.code == KeyCode::Char('g') ==> final(app).state is RegionSelector && refiltered(
            old(app).region_selector,
            final(app).region_selector,
            Seq::<char>::empty(),
        ) && same_tables(*final(app), *old(app)) && same_items(*final(app), *old(app)) && final(app).current_region == old(app).current_region && same_editing(*final(app), *old(app))
            && same_flags(*final(app), *old(app)) && same_ui(*final(app), *old(app)),
        key.code == KeyCode::Char('r') ==> final(app).pending_refresh && final(app).state == old(app).state && same_tables(*final(app), *old(app)) && same_items(*final(app), *old(app))
            && same_region(*final(app), *old(app)) && same_editing(*final(app), *old(app))
            && same_ui(*final(app), *old(app)) && final(app).pending_save_item == old(app).pending_save_item && final(app).pending_delete_item == old(app).pending_delete_item
            && final(app).pending_delete_table == old(app).pending_delete_table,
        key.code == KeyCode::Char('c') ==> final(app).state is TableCreationWizard
            && wizard_initial(final(app).wizard_state) && final(app).item_editor == old(app).item_editor && same_tables(*final(app), *old(app)) && same_items(*final(app), *old(app))
            && same_region(*final(app), *old(app)) && same_flags(*final(app), *old(app))
            && same_ui(*final(app), *old(app)),
        key.code == KeyCode::Char('d') ==> (match old(app).selected_table_detail() {
            Some(t) => final(app).state matches AppState::DeleteConfirmation(
                DeleteTarget::Table(n),
            ) && n@ == t.name@ && same_but_state(*final(app), *old(app)),
            None => *final(app) == *old(app),
        }),
        key.code == KeyCode::Up ==> (if old(app).table_names@.len() == 0 {
            *final(app) == *old(app)
        } else {
            let cur = sel_or_zero(old(app).selected_table_index);
            &&& final(app).selected_table_index == Some(
                (if cur > 0 {
                    cur - 1
                } else {
                    old(app).table_names@.len() - 1
                }) as usize,
            )
            &&& final(app).table_names == old(app).table_names
            &&& final(app).tables == old(app).tables
            &&& final(app).state == old(app).state
            &&& same_items(*final(app), *old(app))
            &&& same_region(*final(app), *old(app))
            &&& same_editing(*final(app), *old(app))
            &&& same_flags(*final(app), *old(app))
            &&& same_ui(*final(app), *old(app))
        }),
        key.code == KeyCode::Down ==> (if old(app).table_names@.len() == 0 {
            *final(app) == *old(app)
        } else {
            let cur = sel_or_zero(old(app).selected_table_index);
            &&& final(app).selected_table_index == Some(
                (if cur < old(app).table_names@.len() - 1 {
                    cur + 1
                } else {
                    0int
                }) as usize,
            )
            &&& final(app).table_names == old(app).table_names
            &&& final(app).tables == old(app).tables
            &&& final(app).state == old(app).state
            &&& same_items(*final(app), *old(app))
            &&& same_region(*final(app), *old(app))
            &&& same_editing(*final(app), *old(app))
            &&& same_flags(*final(app), *old(app))
            &&& same_ui(*final(app), *old(app))
        }),
        key.code == KeyCode::Enter ==> (match old(app).selected_table_detail() {
            Some(_) => {
                &&& final(app).state is TableItemsView
                &&& final(app).current_items@.len() == 0
                &&& final(app).selected_item_index == Some(0usize)
                &&& final(app).pagination.current_page == 1
                &&& final(app).pagination.last_evaluated_key is None
                &&& !final(app).pagination.has_more_pages
                &&& same_tables(*final(app), *old(app))
                &&& same_region(*final(app), *old(app))
                &&& same_editing(*final(app), *old(app))
                &&& same_flags(*final(app), *old(app))
                &&& same_ui(*final(app), *old(app))
            },
            None => *final(app) == *old(app),
        }),
        (match key.code {
            KeyCode::Char(ch) => ch != 'q' && ch != '?' && ch != 'g' && ch != 'r' && ch != 'c'
                && ch != 'd',
            KeyCode::Up => false,
            KeyCode::Down => false,
            KeyCode::Enter => false,
            _ => true,
        }) ==> *final(app) == *old(app),
{
    match key.code {
        KeyCode::Char('q') => {
            return true;
        },
        KeyCode::Char('?') => {
            app.state = AppState::Help;
        },
        KeyCode::Char('g') => {
            app.state = AppState::RegionSelector;
            app.update_region_filter(String::new());
        },
        KeyCode::Char('r') => {
            app.pending_refresh = true;
        },
        KeyCode::Char('c') => {
            app.wizard_state = crate::wizard::WizardState::new();
            app.state = AppState::TableCreationWizard;
        },
        KeyCode::Char('d') => {
            let name: Option<String> = match app.selected_table() {
                Some(table) => Some(table.name.clone()),
                None => None,
            };
            match name {
                Some(table_name) => {
                    app.state = AppState::DeleteConfirmation(DeleteTarget::Table(table_name));
                },
                None => {},
            }
        },
        KeyCode::Up => {
            if app.table_names.len() > 0 {
                let current: usize = match app.selected_table_index {
                    Some(i) => i,
                    None => 0,
                };
                let new_index: usize = if current > 0 {
                    current - 1
                } else {
                    app.table_names.len() - 1
                };
                app.selected_table_index = Some(new_index);
            }
        },
        KeyCode::Down => {
            if app.table_names.len() > 0 {
                let current: usize = match app.selected_table_index {
                    Some(i) => i,
                    None => 0,
                };
                let new_index: usize = if current < app.table_names.len() - 1 {
                    current + 1
                } else {
                    0
                };
                app.selected_table_index = Some(new_index);
            }
        },
        KeyCode::Enter => {
            let have_table = match app.selected_table() {
                Some(_) => true,
                None => false,
            };
            if have_table {
                app.enter_items_view();
            }
        },
        _ => {},
    }
    false
}

/// The record browser: leaving, creating or editing a record, delete
/// confirmation, and wrap-around navigation over the loaded page.
pub fn handle_items_view_keys(app: &mut App, key: KeyInput) -> (quit: bool)
    requires
        old(app).wf(),
        old(app).state is TableItemsView,
    ensures
        final(app).wf(),
        !quit,
        key.code == KeyCode::Esc ==> final(app).state is RegularTablesView && final(app).current_items@.len() == 0 && final(app).selected_item_index == old(app).selected_item_index && final(app).pagination.current_page == 1 && final(app).pagination.last_evaluated_key is None && !final(app).pagination.has_more_pages
            && same_tables(*final(app), *old(app)) && same_region(*final(app), *old(app))
            && same_editing(*final(app), *old(app)) && same_flags(*final(app), *old(app))
            && same_ui(*final(app), *old(app)),
        key.code == KeyCode::Char('i') ==> (match old(app).selected_table_detail() {
            Some(t) => final(app).state is ItemEditor && (final(app).item_editor matches Some(e)
                && created_editor(e, t)) && same_tables(*final(app), *old(app)) && same_items(
                *final(app),
                *old(app),
            ) && same_region(*final(app), *old(app)) && final(app).wizard_state == old(app).wizard_state && same_flags(*final(app), *old(app)) && same_ui(*final(app), *old(app)),
            None => *final(app) == *old(app),
        }),
        key.code == KeyCode::Char('e') || key.code == KeyCode::Enter ==> (match (
            old(app).selected_table_detail(),
            old(app).selected_item_spec(),
        ) {
            (Some(t), Some(it)) => if item_has_keys(t, it) {
                &&& final(app).state is ItemEditor
                &&& (final(app).item_editor matches Some(e) && edited_editor(e, t, it))
                &&& same_tables(*final(app), *old(app))
                &&& same_items(*final(app), *old(app))
                &&& same_region(*final(app), *old(app))
                &&& final(app).wizard_state == old(app).wizard_state
                &&& same_flags(*final(app), *old(app))
                &&& same_ui(*final(app), *old(app))
            } else {
                *final(app) == *old(app)
            },
            _ => *final(app) == *old(app),
        }),
        key.code == KeyCode::Char('d') ==> (if old(app).selected_item_spec() is Some {
            final(app).state == AppState::DeleteConfirmation(DeleteTarget::Item) && same_but_state(
                *final(app),
                *old(app),
            )
        } else {
            *final(app) == *old(app)
        }),
        key.code == KeyCode::Up ==> (if old(app).current_items@.len() == 0 {
            *final(app) == *old(app)
        } else {
            let cur = sel_or_zero(old(app).selected_item_index);
            &&& final(app).selected_item_index == Some(
                (if cur > 0 {
                    cur - 1
                } else {
                    old(app).current_items@.len() - 1
                }) as usize,
            )
            &&& final(app).current_items == old(app).current_items
            &&& final(app).pagination == old(app).pagination
            &&& final(app).state == old(app).state
            &&& same_tables(*final(app), *old(app))
            &&& same_region(*final(app), *old(app))
            &&& same_editing(*final(app), *old(app))
            &&& same_flags(*final(app), *old(app))
            &&& same_ui(*final(app), *old(app))
        }),
        key.code == KeyCode::Down ==> (if old(app).current_items@.len() == 0 {
            *final(app) == *old(app)
        } else {
            let cur = sel_or_zero(old(app).selected_item_index);
            &&& final(app).selected_item_index == Some(
                (if cur < old(app).current_items@.len() - 1 {
                    cur + 1
                } else {
                    0int
                }) as usize,
            )
            &&& final(app).current_items == old(app).current_items
            &&& final(app).pagination == old(app).pagination
            &&& final(app).state == old(app).state
            &&& same_tables(*final(app), *old(app))
            &&& same_region(*final(app), *old(app))
            &&& same_editing(*final(app), *old(app))
            &&& same_flags(*final(app), *old(app))
            &&& same_ui(*final(app), *old(app))
        }),
        (match key.code {
            KeyCode::Char(ch) => ch != 'i' && ch != 'e' && ch != 'd',
            KeyCode::Esc => false,
            KeyCode::Enter => false,
            KeyCode::Up => false,
            KeyCode::Down => false,
            _ => true,
        }) ==> *final(app) == *old(app),
{
    match key.code {
        KeyCode::Esc => {
            app.exit_items_view();
        },
        KeyCode::Char('i') => {
            let table: Option<DynamoTable> = match app.selected_table() {
                Some(t) => Some(t.clone()),
                None => None,
            };
            match table {
                Some(t) => {
                    app.start_create_item(&t);
                },
                None => {},
            }
        },
        KeyCode::Char('e') | KeyCode::Enter => {
            open_editor_on_selected(app);
        },
        KeyCode::Char('d') => {
            let have_item = match app.selected_item() {
                Some(_) => true,
                None => false,
            };
            if have_item {
                app.state = AppState::DeleteConfirmation(DeleteTarget::Item);
            }
        },
        KeyCode::Up => {
            if app.current_items.len() > 0 {
                let current: usize = match app.selected_item_index {
                    Some(i) => i,
                    None => 0,
                };
                let new_index: usize = if current > 0 {
                    current - 1
                } else {
                    app.current_items.len() - 1
                };
                app.selected_item_index = Some(new_index);
            }
        },
        KeyCode::Down => {
            if app.current_items.len() > 0 {
                let current: usize = match app.selected_item_index {
                    Some(i) => i,
                    None => 0,
                };
                let new_index: usize = if current < app.current_items.len() - 1 {
                    current + 1
                } else {
                    0
                };
                app.selected_item_index = Some(new_index);
            }
        },
        _ => {},
    }
    false
}

/// Opens the record editor on the selected record, when a loaded resource
/// and a record are selected and the record carries the key attributes.
/// The selected row is lent to the editor constructor and then put back,
/// so the page and the selection end up unchanged.
fn open_editor_on_selected(app: &mut App)
    requires
        old(app).wf(),
        old(app).state is TableItemsView,
    ensures
        final(app).wf(),
        (match (old(app).selected_table_detail(), old(app).selected_item_spec()) {
            (Some(t), Some(it)) => if item_has_keys(t, it) {
                &&& final(app).state is ItemEditor
                &&& (final(app).item_editor matches Some(e) && edited_editor(e, t, it))
                &&& same_tables(*final(app), *old(app))
                &&& same_items(*final(app), *old(app))
                &&& same_region(*final(app), *old(app))
                &&& final(app).wizard_state == old(app).wizard_state
                &&& same_flags(*final(app), *old(app))
                &&& same_ui(*final(app), *old(app))
            } else {
                *final(app) == *old(app)
            },
            _ => *final(app) == *old(app),
        }),
{
    let table: Option<DynamoTable> = match app.selected_table() {
        Some(t) => Some(t.clone()),
        None => None,
    };
    match table {
        Some(t) => {
            match app.selected_item_index {
                Some(i) => {
                    if i < app.current_items.len() {
                        let hash_ok = has_name(&app.current_items[i].attributes, &t.hash_key.name);
                        let range_ok = match &t.range_key {
                            Some(k) => has_name(&app.current_items[i].attributes, &k.name),
                            None => true,
                        };
                        if hash_ok && range_ok {
                            let saved_selection = app.selected_item_index;
                            app.selected_item_index = None;
                            let item = app.current_items.remove(i);
                            app.start_edit_item(&t, &item);
                            app.current_items.insert(i, item);
                            app.selected_item_index = saved_selection;
                            proof {
                                assert(app.current_items@ =~= old(app).current_items@);
                            }
                        }
                    }
                },
                None => {},
            }
        },
        None => {},
    }
}

/// The region selector: leave, confirm the highlighted region, navigate
/// the filtered entries, and edit the filter text character by character.
pub fn handle_region_selector_keys(app: &mut App, key: KeyInput) -> (quit: bool)
    requires
        old(app).wf(),
        old(app).state is RegionSelector,
    ensures
        final(app).wf(),
        !quit,
        key.code == KeyCode::Esc ==> final(app).state is RegularTablesView && same_but_state(
            *final(app),
            *old(app),
        ),
        key.code == KeyCode::Enter ==> (match old(app).region_selector.selected {
            Some(i) => final(app).current_region@ == old(app).region_selector.filtered@[i as int]@
                && final(app).state is RegularTablesView && final(app).region_selector == old(app).region_selector && same_tables(*final(app), *old(app)) && same_items(
                *final(app),
                *old(app),
            ) && same_editing(*final(app), *old(app)) && same_flags(*final(app), *old(app))
                && same_ui(*final(app), *old(app)),
            None => *final(app) == *old(app),
        }),
        key.code == KeyCode::Up ==> only_selector_changed(*final(app), *old(app)) && final(app).region_selector.catalog == old(app).region_selector.catalog && final(app).region_selector.filter_text == old(app).region_selector.filter_text && final(app).region_selector.filtered == old(app).region_selector.filtered && final(app).region_selector.selected == (match old(app).region_selector.selected {
            Some(i) => if i > 0 {
                Some((i - 1) as usize)
            } else {
                Some((old(app).region_selector.filtered@.len() - 1) as usize)
            },
            None => Option::<usize>::None,
        }),
        key.code == KeyCode::Down ==> only_selector_changed(*final(app), *old(app)) && final(app).region_selector.catalog == old(app).region_selector.catalog && final(app).region_selector.filter_text == old(app).region_selector.filter_text && final(app).region_selector.filtered == old(app).region_selector.filtered && final(app).region_selector.selected == (match old(app).region_selector.selected {
            Some(i) => if i + 1 < old(app).region_selector.filtered@.len() {
                Some((i + 1) as usize)
            } else {
                Some(0usize)
            },
            None => Option::<usize>::None,
        }),
        key.code matches KeyCode::Char(c) ==> only_selector_changed(*final(app), *old(app))
            && refiltered(
            old(app).region_selector,
            final(app).region_selector,
            old(app).region_selector.filter_text@.push(key.code->Char_0),
        ),
        key.code == KeyCode::Backspace ==> only_selector_changed(*final(app), *old(app))
            && refiltered(
            old(app).region_selector,
            final(app).region_selector,
            crate::wizard::popped(old(app).region_selector.filter_text@),
        ),
        (match key.code {
            KeyCode::Esc => false,
            KeyCode::Enter => false,
            KeyCode::Up => false,
            KeyCode::Down => false,
            KeyCode::Char(_) => false,
            KeyCode::Backspace => false,
            _ => true,
        }) ==> *final(app) == *old(app),
{
    match key.code {
        KeyCode::Esc => {
            app.state = AppState::RegularTablesView;
        },
        KeyCode::Enter => {
            let confirmed = app.region_selector.confirm();
            match confirmed {
                Some(region) => {
                    app.current_region = region;
                    app.state = AppState::RegularTablesView;
                },
                None => {},
            }
        },
        KeyCode::Up => {
            app.region_selector.select_previous();
        },
        KeyCode::Down => {
            app.region_selector.select_next();
        },
        KeyCode::Char(c) => {
            let mut text = app.region_selector.filter_text.clone();
            text.push(c);
            app.region_selector.set_filter(text);
        },
        KeyCode::Backspace => {
            let mut text = app.region_selector.filter_text.clone();
            text.pop();
            app.region_selector.set_filter(text);
        },
        _ => {},
    }
    false
}

/// The creation wizard: leave, advance a validated step, move focus, type
/// into the focused field, and step back with deletion on non-text
/// fields.
pub fn handle_wizard_keys(app: &mut App, key: KeyInput) -> (quit: bool)
    requires
        old(app).wf(),
        old(app).state is TableCreationWizard,
    ensures
        final(app).wf(),
        !quit,
        key.code == KeyCode::Esc ==> final(app).state is RegularTablesView && same_but_state(
            *final(app),
            *old(app),
        ),
        key.code == KeyCode::Enter && old(app).wizard_state.step is BasicConfig
            && basic_config_ok(old(app).wizard_state) ==> final(app).wizard_state.step
            is BillingConfig && same_wizard_but_step(
            final(app).wizard_state,
            old(app).wizard_state,
        ) && only_wizard_changed(*final(app), *old(app)),
        key.code == KeyCode::Enter && old(app).wizard_state.step is BasicConfig
            && !basic_config_ok(old(app).wizard_state) ==> final(app).wizard_state == old(app).wizard_state && final(app).status_message@ == basic_error(old(app).wizard_state)
            && only_status_changed(*final(app), *old(app)),
        key.code == KeyCode::Enter && old(app).wizard_state.step is BillingConfig
            && billing_config_ok(old(app).wizard_state) ==> final(app).wizard_state.step is Review
            && same_wizard_but_step(final(app).wizard_state, old(app).wizard_state)
            && only_wizard_changed(*final(app), *old(app)),
        key.code == KeyCode::Enter && old(app).wizard_state.step is BillingConfig
            && !billing_config_ok(old(app).wizard_state) ==> final(app).wizard_state == old(app).wizard_state && final(app).status_message@ == billing_error(old(app).wizard_state)
            && only_status_changed(*final(app), *old(app)),
        key.code == KeyCode::Enter && old(app).wizard_state.step is Review ==> *final(app) == *old(app),
        key.code == KeyCode::Tab ==> tab_applied(old(app).wizard_state, final(app).wizard_state)
            && only_wizard_changed(*final(app), *old(app)),
        key.code matches KeyCode::Char(c) ==> char_applied(
            old(app).wizard_state,
            final(app).wizard_state,
            key.code->Char_0,
        ) && only_wizard_changed(*final(app), *old(app)),
        key.code == KeyCode::Backspace && is_text_field(old(app).wizard_state.current_field)
            ==> backspace_applied(old(app).wizard_state, final(app).wizard_state)
            && only_wizard_changed(*final(app), *old(app)),
        key.code == KeyCode::Backspace && !is_text_field(old(app).wizard_state.current_field)
            && key.no_modifiers() ==> final(app).wizard_state.step == (match old(app).wizard_state.step {
            WizardStep::BillingConfig => WizardStep::BasicConfig,
            WizardStep::Review => WizardStep::BillingConfig,
            WizardStep::BasicConfig => WizardStep::BasicConfig,
        }) && same_wizard_but_step(final(app).wizard_state, old(app).wizard_state)
            && only_wizard_changed(*final(app), *old(app)),
        key.code == KeyCode::Backspace && !is_text_field(old(app).wizard_state.current_field)
            && !key.no_modifiers() ==> *final(app) == *old(app),
        (match key.code {
            KeyCode::Esc => false,
            KeyCode::Enter => false,
            KeyCode::Tab => false,
            KeyCode::Char(_) => false,
            KeyCode::Backspace => false,
            _ => true,
        }) ==> *final(app) == *old(app),
{
    match key.code {
        KeyCode::Esc => {
            app.state = AppState::RegularTablesView;
        },
        KeyCode::Enter => {
            match app.wizard_state.step {
                WizardStep::BasicConfig => {
                    match app.wizard_state.validate_basic_config() {
                        Err(e) => {
                            app.status_message = e;
                        },
                        Ok(_) => {
                            app.wizard_state.step = WizardStep::BillingConfig;
                        },
                    }
                },
                WizardStep::BillingConfig => {
                    match app.wizard_state.validate_billing_config() {
                        Err(e) => {
                            app.status_message = e;
                        },
                        Ok(_) => {
                            app.wizard_state.step = WizardStep::Review;
                        },
                    }
                },
                WizardStep::Review => {},
            }
        },
        KeyCode::Tab => {
            crate::wizard::handle_wizard_tab(&mut app.wizard_state);
        },
        KeyCode::Char(c) => {
            crate::wizard::handle_wizard_char_input(&mut app.wizard_state, c);
        },
        KeyCode::Backspace => {
            let is_text = matches!(
                app.wizard_state.current_field,
                WizardField::TableName | WizardField::HashKeyName | WizardField::RangeKeyName
                    | WizardField::ReadCapacity | WizardField::WriteCapacity
            );
            if is_text {
                crate::wizard::handle_wizard_backspace(&mut app.wizard_state);
            } else if !key.ctrl && !key.alt && !key.shift {
                match app.wizard_state.step {
                    WizardStep::BillingConfig => {
                        app.wizard_state.step = WizardStep::BasicConfig;
                    },
                    WizardStep::Review => {
                        app.wizard_state.step = WizardStep::BillingConfig;
                    },
                    WizardStep::BasicConfig => {},
                }
            }
        },
        _ => {},
    }
    false
}

/// The record editor: navigation and row commands while no sub-edit is
/// active, buffer editing while one is, and the save signal.
pub fn handle_item_editor_keys(app: &mut App, key: KeyInput) -> (quit: bool)
    requires
        old(app).wf(),
        old(app).state is ItemEditor,
    ensures
        final(app).wf(),
        !quit,
        old(app).item_editor matches Some(e1) ==> (e1.editing_field is Some ==> {
            &&& only_editor_changed(*final(app), *old(app))
            &&& final(app).item_editor matches Some(e2) && (match key.code {
                KeyCode::Esc => ItemEditorState::edit_cancelled(e1, e2),
                KeyCode::Enter => ItemEditorState::edit_committed(e1, e2),
                KeyCode::Char(c) => ItemEditorState::input_pushed(e1, e2, c),
                KeyCode::Backspace => ItemEditorState::input_popped(e1, e2),
                _ => e2 == e1,
            })
        }),
        old(app).item_editor matches Some(e1) ==> (e1.editing_field is None ==> (match key.code {
            KeyCode::Esc => final(app).state is TableItemsView && final(app).item_editor is None
                && same_tables(*final(app), *old(app)) && same_items(*final(app), *old(app))
                && same_region(*final(app), *old(app)) && final(app).wizard_state == old(app).wizard_state && same_flags(*final(app), *old(app)) && same_ui(*final(app), *old(app)),
            KeyCode::Up => only_editor_changed(*final(app), *old(app)) && (final(app).item_editor matches Some(e2) && ItemEditorState::nav_prev_applied(e1, e2)),
            KeyCode::Down => only_editor_changed(*final(app), *old(app)) && (final(app).item_editor matches Some(e2) && ItemEditorState::nav_next_applied(e1, e2)),
            KeyCode::Enter => only_editor_changed(*final(app), *old(app)) && (final(app).item_editor matches Some(e2) && ItemEditorState::value_edit_started(e1, e2)),
            KeyCode::Char(ch) => if ch == 's' && key.ctrl {
                &&& final(app).pending_save_item
                &&& final(app).state == old(app).state
                &&& same_tables(*final(app), *old(app))
                &&& same_items(*final(app), *old(app))
                &&& same_region(*final(app), *old(app))
                &&& same_editing(*final(app), *old(app))
                &&& same_ui(*final(app), *old(app))
                &&& final(app).pending_delete_item == old(app).pending_delete_item
                &&& final(app).pending_delete_table == old(app).pending_delete_table
                &&& final(app).pending_refresh == old(app).pending_refresh
            } else if ch == 'n' && key.ctrl {
                only_editor_changed(*final(app), *old(app)) && (final(app).item_editor matches Some(
                    e2,
                ) && ItemEditorState::add_applied(e1, e2))
            } else if ch == 't' && key.ctrl {
                only_editor_changed(*final(app), *old(app)) && (final(app).item_editor matches Some(
                    e2,
                ) && ItemEditorState::cycle_applied(e1, e2))
            } else if ch == 'd' && key.ctrl {
                only_editor_changed(*final(app), *old(app)) && (final(app).item_editor matches Some(
                    e2,
                ) && ItemEditorState::delete_applied(e1, e2))
            } else if ch == 'k' && key.ctrl {
                only_editor_changed(*final(app), *old(app)) && (final(app).item_editor matches Some(
                    e2,
                ) && ItemEditorState::key_edit_started(e1, e2))
            } else {
                *final(app) == *old(app)
            },
            _ => *final(app) == *old(app),
        })),
{
    let editing: Option<crate::models::EditingField> = match &app.item_editor {
        Some(e) => e.editing_field,
        None => None,
    };
    match editing {
        Some(_) => {
            match key.code {
                KeyCode::Esc => {
                    match &mut app.item_editor {
                        Some(e) => e.cancel_edit(),
                        None => {},
                    }
                },
                KeyCode::Enter => {
                    match &mut app.item_editor {
                        Some(e) => e.commit_edit(),
                        None => {},
                    }
                },
                KeyCode::Char(c) => {
                    match &mut app.item_editor {
                        Some(e) => e.push_input(c),
                        None => {},
                    }
                },
                KeyCode::Backspace => {
                    match &mut app.item_editor {
                        Some(e) => e.pop_input(),
                        None => {},
                    }
                },
                _ => {},
            }
        },
        None => {
            match key.code {
                KeyCode::Esc => {
                    app.exit_item_editor();
                },
                KeyCode::Up => {
                    match &mut app.item_editor {
                        Some(e) => e.select_previous(),
                        None => {},
                    }
                },
                KeyCode::Down => {
                    match &mut app.item_editor {
                        Some(e) => e.select_next(),
                        None => {},
                    }
                },
                KeyCode::Enter => {
                    match &mut app.item_editor {
                        Some(e) => e.start_value_edit(),
                        None => {},
                    }
                },
                KeyCode::Char(ch) => {
                    if ch == 's' && key.ctrl {
                        app.pending_save_item = true;
                    } else if ch == 'n' && key.ctrl {
                        match &mut app.item_editor {
                            Some(e) => e.add_attribute(),
                            None => {},
                        }
                    } else if ch == 't' && key.ctrl {
                        match &mut app.item_editor {
                            Some(e) => e.cycle_selected_type(),
                            None => {},
                        }
                    } else if ch == 'd' && key.ctrl {
                        match &mut app.item_editor {
                            Some(e) => e.delete_selected(),
                            None => {},
                        }
                    } else if ch == 'k' && key.ctrl {
                        match &mut app.item_editor {
                            Some(e) => e.start_key_edit(),
                            None => {},
                        }
                    }
                },
                _ => {},
            }
        },
    }
    false
}

/// The delete confirmation: confirm raises the matching pending action
/// and deny returns to the view that raised the confirmation.
pub fn handle_delete_confirmation_keys(app: &mut App, key: KeyInput) -> (quit: bool)
    requires
        old(app).wf(),
        old(app).state is DeleteConfirmation,
    ensures
        final(app).wf(),
        !quit,
        key.code == KeyCode::Char('y') || key.code == KeyCode::Char('Y') ==> (match old(app).state {
            AppState::DeleteConfirmation(DeleteTarget::Table(name)) => final(app).pending_delete_table matches Some(n) && n@ == name@ && final(app).state == old(app).state && same_tables(*final(app), *old(app)) && same_items(*final(app), *old(app))
                && same_region(*final(app), *old(app)) && same_editing(*final(app), *old(app))
                && same_ui(*final(app), *old(app)) && final(app).pending_save_item == old(app).pending_save_item && final(app).pending_delete_item == old(app).pending_delete_item
                && final(app).pending_refresh == old(app).pending_refresh,
            AppState::DeleteConfirmation(DeleteTarget::Item) => final(app).pending_delete_item
                && final(app).state == old(app).state && same_tables(*final(app), *old(app))
                && same_items(*final(app), *old(app)) && same_region(*final(app), *old(app))
                && same_editing(*final(app), *old(app)) && same_ui(*final(app), *old(app))
                && final(app).pending_save_item == old(app).pending_save_item && final(app).pending_delete_table == old(app).pending_delete_table && final(app).pending_refresh
                == old(app).pending_refresh,
            _ => *final(app) == *old(app),
        }),
        key.code == KeyCode::Char('n') || key.code == KeyCode::Char('N') || key.code
            == KeyCode::Esc ==> (match old(app).state {
            AppState::DeleteConfirmation(DeleteTarget::Table(_)) => final(app).state
                is RegularTablesView && same_but_state(*final(app), *old(app)),
            AppState::DeleteConfirmation(DeleteTarget::Item) => final(app).state
                is TableItemsView && same_but_state(*final(app), *old(app)),
            _ => *final(app) == *old(app),
        }),
        (match key.code {
            KeyCode::Char(ch) => ch != 'y' && ch != 'Y' && ch != 'n' && ch != 'N',
            KeyCode::Esc => false,
            _ => true,
        }) ==> *final(app) == *old(app),
{
    match key.code {
        KeyCode::Char('y') | KeyCode::Char('Y') => {
            let pending: Option<DeleteTarget> = match &app.state {
                AppState::DeleteConfirmation(DeleteTarget::Table(name)) => Some(
                    DeleteTarget::Table(name.clone()),
                ),
                AppState::DeleteConfirmation(DeleteTarget::Item) => Some(DeleteTarget::Item),
                _ => None,
            };
            match pending {
                Some(DeleteTarget::Table(name)) => {
                    app.pending_delete_table = Some(name);
                },
                Some(DeleteTarget::Item) => {
                    app.pending_delete_item = true;
                },
                None => {},
            }
        },
        KeyCode::Char('n') | KeyCode::Char('N') | KeyCode::Esc => {
            match &app.state {
                AppState::DeleteConfirmation(DeleteTarget::Table(_)) => {
                    app.state = AppState::RegularTablesView;
                },
                AppState::DeleteConfirmation(DeleteTarget::Item) => {
                    app.state = AppState::TableItemsView;
                },
                _ => {},
            }
        },
        _ => {},
    }
    false
}

} // verus!
