//! The activity: what the daemon is asked to display.

use crate::rpc::activity::{buttons_view, ActivityAssets, ActivityButton, AssetsView, ButtonView};
use crate::util::text::optional_view;
use vstd::prelude::*;

verus! {

/// What the user is doing, as the daemon displays it.
#[derive(Debug, Clone, PartialEq, Eq)]
pub struct Activity {
    pub state: Option<String>,
    pub details: Option<String>,
    pub assets: Option<ActivityAssets>,
    pub timestamp: Option<u128>,
    pub buttons: Option<Vec<ActivityButton>>,
}

/// What an [`Activity`] holds, as text.
pub struct ActivityView {
    pub state: Option<Seq<char>>,
    pub details: Option<Seq<char>>,
    pub assets: Option<AssetsView>,
    pub timestamp: Option<u128>,
    pub buttons: Option<Seq<ButtonView>>,
}

impl View for Activity {
    type V = ActivityView;

    open spec fn view(&self) -> ActivityView {
        ActivityView {
            state: optional_view(self.state),
            details: optional_view(self.details),
            assets: match self.assets {
                Some(a) => Some(a@),
                None => None,
            },
            timestamp: self.timestamp,
            buttons: match self.buttons {
                Some(b) => Some(buttons_view(b@)),
                None => None,
            },
        }
    }
}

} // verus!
