use vstd::prelude::*;

use crate::gameboy::ui::theme::Theme;

verus! {

/// What the user interface asks of the emulator after handling an event.
pub enum UIEvent {
    Nothing,
    ThemeSwitched(Theme),
}

} // verus!
