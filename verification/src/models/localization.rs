//! Templates of the game's interface in the user's language.
use vstd::prelude::*;

use crate::models::Identifiable;

verus! {

/// Images of interface elements, each encoded in base64, that replace the
/// built-in templates where they are set.
#[derive(Clone, PartialEq, Eq, Debug)]
pub struct Localization {
    pub id: Option<i64>,
    pub cash_shop_base64: Option<String>,
    pub change_channel_base64: Option<String>,
    pub timer_base64: Option<String>,
    pub popup_confirm_base64: Option<String>,
    pub popup_yes_base64: Option<String>,
    pub popup_next_base64: Option<String>,
    pub popup_end_chat_base64: Option<String>,
    pub popup_ok_new_base64: Option<String>,
    pub popup_ok_old_base64: Option<String>,
    pub popup_cancel_new_base64: Option<String>,
    pub popup_cancel_old_base64: Option<String>,
    pub familiar_level_button_base64: Option<String>,
    pub familiar_save_button_base64: Option<String>,
    pub hexa_convert_button_base64: Option<String>,
    pub hexa_erda_conversion_button_base64: Option<String>,
    pub hexa_booster_button_base64: Option<String>,
    pub hexa_max_button_base64: Option<String>,
}

impl Localization {
    /// No template is set and the record was not stored.
    pub open spec fn is_blank(self) -> bool {
        &&& self.id is None
        &&& self.cash_shop_base64 is None
        &&& self.change_channel_base64 is None
        &&& self.timer_base64 is None
        &&& self.popup_confirm_base64 is None
        &&& self.popup_yes_base64 is None
        &&& self.popup_next_base64 is None
        &&& self.popup_end_chat_base64 is None
        &&& self.popup_ok_new_base64 is None
        &&& self.popup_ok_old_base64 is None
        &&& self.popup_cancel_new_base64 is None
        &&& self.popup_cancel_old_base64 is None
        &&& self.familiar_level_button_base64 is None
        &&& self.familiar_save_button_base64 is None
        &&& self.hexa_convert_button_base64 is None
        &&& self.hexa_erda_conversion_button_base64 is None
        &&& self.hexa_booster_button_base64 is None
        &&& self.hexa_max_button_base64 is None
    }
}

impl Identifiable for Localization {
    fn id(&self) -> (id: Option<i64>)
        ensures
            id == self.id,
    {
        self.id
    }

    fn set_id(&mut self, id: i64)
        ensures
            *final(self) == (Localization { id: Some(id), ..*old(self) }),
    {
        self.id = Some(id);
    }
}

impl Default for Localization {
    fn default() -> (localization: Localization)
        ensures
            localization.is_blank(),
    {
        Localization {
            id: None,
            cash_shop_base64: None,
            change_channel_base64: None,
            timer_base64: None,
            popup_confirm_base64: None,
            popup_yes_base64: None,
            popup_next_base64: None,
            popup_end_chat_base64: None,
            popup_ok_new_base64: None,
            popup_ok_old_base64: None,
            popup_cancel_new_base64: None,
            popup_cancel_old_base64: None,
            familiar_level_button_base64: None,
            familiar_save_button_base64: None,
            hexa_convert_button_base64: None,
            hexa_erda_conversion_button_base64: None,
            hexa_booster_button_base64: None,
            hexa_max_button_base64: None,
        }
    }
}

} // verus!
