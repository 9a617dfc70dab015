//! The settings from which a presence is built.

use crate::rpc::activity::{buttons_view, ActivityButton, ButtonView};
use vstd::prelude::*;

verus! {

/// The user's settings. Each text ending in `_text` is a template in which
/// `{}` stands for the name that is filled in.
#[derive(Debug, Clone, PartialEq, Eq)]
pub struct Config {
    pub workspace: String,
    pub editor_image: String,
    pub editor_tooltip: String,
    pub workspace_text: String,
    pub viewing_text: String,
    pub editing_text: String,
    pub file_browser_text: String,
    pub plugin_manager_text: String,
    pub lsp_manager_text: String,
    pub buttons: Vec<ActivityButton>,
}

/// What a [`Config`] holds, as text.
pub struct ConfigView {
    pub workspace: Seq<char>,
    pub editor_image: Seq<char>,
    pub editor_tooltip: Seq<char>,
    pub workspace_text: Seq<char>,
    pub viewing_text: Seq<char>,
    pub editing_text: Seq<char>,
    pub file_browser_text: Seq<char>,
    pub plugin_manager_text: Seq<char>,
    pub lsp_manager_text: Seq<char>,
    pub buttons: Seq<ButtonView>,
}

impl View for Config {
    type V = ConfigView;

    open spec fn view(&self) -> ConfigView {
        ConfigView {
            workspace: self.workspace@,
            editor_image: self.editor_image@,
            editor_tooltip: self.editor_tooltip@,
            workspace_text: self.workspace_text@,
            viewing_text: self.viewing_text@,
            editing_text: self.editing_text@,
            file_browser_text: self.file_browser_text@,
            plugin_manager_text: self.plugin_manager_text@,
            lsp_manager_text: self.lsp_manager_text@,
            buttons: buttons_view(self.buttons@),
        }
    }
}

} // verus!
