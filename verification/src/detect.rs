//! What the detector saw of the game's interface for this tick.
use vstd::prelude::*;

use crate::geometry::Rect;

verus! {

/// Why a region query gave no region.
#[derive(Clone, Copy, Debug, PartialEq, Eq, Structural)]
pub enum DetectError {
    /// The element is not on the screen.
    NotFound,
}

/// The answers of the detector, taken before the tick's update begins.
///
/// The engine only reads them: within a tick every query gives the same answer.
#[derive(Clone, Copy, Debug, PartialEq, Eq, Structural)]
pub struct Detector {
    pub player_in_cash_shop: bool,
    pub chat_menu_opened: bool,
    pub change_channel_menu_opened: bool,
    /// The confirm button of a popup, where one is shown.
    pub popup_confirm_button: Option<Rect>,
    pub admin_visible: bool,
    pub esc_settings: bool,
}

impl Detector {
    /// The detector that sees nothing.
    pub open spec fn spec_default() -> Detector {
        Detector {
            player_in_cash_shop: false,
            chat_menu_opened: false,
            change_channel_menu_opened: false,
            popup_confirm_button: None,
            admin_visible: false,
            esc_settings: false,
        }
    }

    pub open spec fn spec_popup_confirm_button(self) -> Result<Rect, DetectError> {
        match self.popup_confirm_button {
            Some(rect) => Ok(rect),
            None => Err(DetectError::NotFound),
        }
    }

    pub fn detect_player_in_cash_shop(&self) -> (seen: bool)
        ensures
            seen == self.player_in_cash_shop,
    {
        self.player_in_cash_shop
    }

    pub fn detect_chat_menu_opened(&self) -> (seen: bool)
        ensures
            seen == self.chat_menu_opened,
    {
        self.chat_menu_opened
    }

    pub fn detect_change_channel_menu_opened(&self) -> (seen: bool)
        ensures
            seen == self.change_channel_menu_opened,
    {
        self.change_channel_menu_opened
    }

    /// Where the confirm button of a popup is, or that there is none.
    pub fn detect_popup_confirm_button(&self) -> (found: Result<Rect, DetectError>)
        ensures
            found == self.spec_popup_confirm_button(),
            found is Ok <==> self.popup_confirm_button is Some,
    {
        match self.popup_confirm_button {
            Some(rect) => Ok(rect),
            None => Err(DetectError::NotFound),
        }
    }

    pub fn detect_admin_visible(&self) -> (seen: bool)
        ensures
            seen == self.admin_visible,
    {
        self.admin_visible
    }

    pub fn detect_esc_settings(&self) -> (seen: bool)
        ensures
            seen == self.esc_settings,
    {
        self.esc_settings
    }
}

impl Default for Detector {
    /// The detector that sees nothing.
    fn default() -> (detector: Detector)
        ensures
            detector == Detector::spec_default(),
    {
        Detector {
            player_in_cash_shop: false,
            chat_menu_opened: false,
            change_channel_menu_opened: false,
            popup_confirm_button: None,
            admin_visible: false,
            esc_settings: false,
        }
    }
}

} // verus!
