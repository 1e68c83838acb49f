//! Icon selection for the tray indicator.

use vstd::prelude::*;

use crate::category::decode_spec;
use crate::category::InputCategory;
use crate::config::IconColor;

verus! {

/// The name of the icon the tray shows for a category in a color theme.
pub open spec fn icon_name_spec(category: InputCategory, color: IconColor) -> Seq<char> {
    match category {
        InputCategory::Latin => match color {
            IconColor::Black => "kime-latin-black"@,
            IconColor::White => "kime-latin-white"@,
        },
        InputCategory::Hangul => match color {
            IconColor::Black => "kime-hangul-black"@,
            IconColor::White => "kime-hangul-white"@,
        },
    }
}

/// The rendering state of the tray indicator: which icon it shows, under
/// which color theme. The tray service itself lives outside this crate;
/// it reads `icon_name` whenever it repaints.
pub struct KimeTray {
    pub icon_name: &'static str,
    pub color: IconColor,
}

impl KimeTray {
    /// A fresh tray under the given theme, showing the latin icon of the
    /// black theme until the first update arrives.
    pub fn new(color: IconColor) -> (tray: KimeTray)
        ensures
            tray.color == color,
            tray.icon_name@ == icon_name_spec(InputCategory::Latin, IconColor::Black),
    {
        KimeTray { icon_name: "kime-latin-black", color }
    }

    /// Repaint for a category carried as its wire byte.
    pub fn update_with_bytes(&mut self, bytes: &[u8; 1])
        ensures
            final(self).color == old(self).color,
            final(self).icon_name@ == icon_name_spec(decode_spec(bytes@[0]), old(self).color),
    {
        let category = InputCategory::decode(bytes[0]);
        self.update(category);
    }

    /// Repaint for the given category, under this tray's theme.
    pub fn update(&mut self, category: InputCategory)
        ensures
            final(self).color == old(self).color,
            final(self).icon_name@ == icon_name_spec(category, old(self).color),
    {
        self.icon_name = match category {
            InputCategory::Latin => match self.color {
                IconColor::Black => "kime-latin-black",
                IconColor::White => "kime-latin-white",
            },
            InputCategory::Hangul => match self.color {
                IconColor::Black => "kime-hangul-black",
                IconColor::White => "kime-hangul-white",
            },
        }
    }
}

} // verus!
