//! The parts of an activity: its images with their captions, and its buttons.

use crate::util::text::optional_view;
use vstd::prelude::*;

verus! {

/// A button shown under the presence: a caption and the address it opens.
#[derive(Debug, Clone, PartialEq, Eq)]
pub struct ActivityButton {
    pub label: String,
    pub url: String,
}

/// What an [`ActivityButton`] holds, as text.
pub struct ButtonView {
    pub label: Seq<char>,
    pub url: Seq<char>,
}

impl View for ActivityButton {
    type V = ButtonView;

    open spec fn view(&self) -> ButtonView {
        ButtonView { label: self.label@, url: self.url@ }
    }
}

/// The images of a presence and the captions shown with them.
#[derive(Debug, Clone, PartialEq, Eq)]
pub struct ActivityAssets {
    pub large_image: Option<String>,
    pub large_text: Option<String>,
    pub small_image: Option<String>,
    pub small_text: Option<String>,
}

/// What an [`ActivityAssets`] holds, as text.
pub struct AssetsView {
    pub large_image: Option<Seq<char>>,
    pub large_text: Option<Seq<char>>,
    pub small_image: Option<Seq<char>>,
    pub small_text: Option<Seq<char>>,
}

/// What each button of a list holds, in order.
pub open spec fn buttons_view(buttons: Seq<ActivityButton>) -> Seq<ButtonView> {
    buttons.map_values(|b: ActivityButton| b@)
}

impl View for ActivityAssets {
    type V = AssetsView;

    open spec fn view(&self) -> AssetsView {
        AssetsView {
            large_image: optional_view(self.large_image),
            large_text: optional_view(self.large_text),
            small_image: optional_view(self.small_image),
            small_text: optional_view(self.small_text),
        }
    }
}

} // verus!
