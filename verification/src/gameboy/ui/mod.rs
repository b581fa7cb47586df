pub mod theme;
pub mod ui_event;

pub use self::theme::Theme;
pub use self::ui_event::UIEvent;
