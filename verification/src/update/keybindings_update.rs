//! How the messages of navigation and search change the key bindings
//! view model.

use vstd::prelude::*;
use crate::message::Message;
use crate::model::keybindings_view::KeybindingsViewModel;

verus! {

/// Whether `after` is what a message makes of the view model.
pub open spec fn updated(
    before: KeybindingsViewModel,
    message: Message,
    after: KeybindingsViewModel,
) -> bool {
    match message {
        Message::SelectNextKeybinding => after == (KeybindingsViewModel {
            selected_index: after.selected_index,
            ..before
        }) && after.selected_index == if before.visible().len() == 0 {
            before.selected_index as int
        } else {
            (before.selected_index + 1) % (before.visible().len() as int)
        },
        Message::SelectPrevKeybinding => after == (KeybindingsViewModel {
            selected_index: after.selected_index,
            ..before
        }) && after.selected_index == if before.visible().len() == 0 {
            before.selected_index as int
        } else if before.selected_index == 0 {
            before.visible().len() - 1
        } else {
            before.selected_index - 1
        },
        Message::SelectKeybinding(index) => after == (KeybindingsViewModel {
            selected_index: if index < before.visible().len() {
                index
            } else {
                before.selected_index
            },
            ..before
        }),
        Message::StartSearch => after == (KeybindingsViewModel { search_mode: true, ..before }),
        Message::UpdateSearch(query) => after.search_query@ == query@ && after == (
        KeybindingsViewModel {
            search_query: after.search_query,
            selected_index: 0,
            scroll_offset: 0,
            ..before
        }),
        Message::ClearSearch => after.search_query@.len() == 0 && after == (KeybindingsViewModel {
            search_query: after.search_query,
            selected_index: 0,
            scroll_offset: 0,
            search_mode: false,
            ..before
        }),
        _ => after == before,
    }
}

/// Handles the messages of navigation and search among the key bindings;
/// any other message changes nothing.
pub fn update_keybindings(view_model: &mut KeybindingsViewModel, message: &Message)
    ensures
        updated(*old(view_model), *message, *final(view_model)),
{
    match message {
        Message::SelectNextKeybinding => {
            view_model.select_next();
        },
        Message::SelectPrevKeybinding => {
            view_model.select_prev();
        },
        Message::SelectKeybinding(idx) => {
            let count = view_model.visible_count();
            if *idx < count {
                view_model.selected_index = *idx;
            }
        },
        Message::StartSearch => {
            view_model.search_mode = true;
        },
        Message::UpdateSearch(query) => {
            view_model.set_search(query.clone());
        },
        Message::ClearSearch => {
            view_model.clear_search();
        },
        _ => {},
    }
}

} // verus!
