//! Calendar arithmetic and the plain-value logic behind a set of UI
//! components: dates and times, calendar grids and date wheels, clock
//! dials, accordion, radio, segment, select, stepper and reorder decisions,
//! avatar initials, field descriptions and debouncing, overlay queues,
//! scroll locks and focus, alert button order and answers, gallery slugs,
//! the scripts components run in the page, and the names and classes that
//! the stylesheet reads.
pub mod accordion;
pub mod alert;
pub mod app_wrapper;
pub mod avatar;
pub mod back_button;
pub mod body_styles;
pub mod button;
pub mod calendar;
pub mod card;
pub mod checkbox;
pub mod clock;
pub mod color;
pub mod date_picker;
pub mod datetime;
pub mod demo_app;
pub mod divider;
pub mod fab;
pub mod fab_styles;
pub mod field;
pub mod info_button_styles;
pub mod layout;
pub mod line;
pub mod line_styles;
pub mod list;
pub mod media;
pub mod modal;
pub mod nav;
pub mod navbar_styles;
pub mod overlay;
pub mod overlay_host;
pub mod playground;
pub mod popover;
pub mod pressable;
pub mod radio;
pub mod reorder;
pub mod scripts;
pub mod segment;
pub mod select;
pub mod stepper;
pub mod text;
pub mod transition_showcase;

pub use alert::{
    ActionSheetButton, ActionSheetOptions, AlertButton, AlertButtonRole, AlertInput, AlertOptions,
    AlertResult,
};
pub use app_wrapper::ShellSize;
pub use avatar::AvatarSize;
pub use button::{ButtonExpand, ButtonFill, ButtonSize};
pub use card::CardVariant;
pub use checkbox::ControlLabelPlacement;
pub use color::Color;
pub use date_picker::{ComponentMode, PickerStyle};
pub use datetime::{CalendarDate, HourCycle, ParseDateTimeError, TimeOfDay};
pub use divider::DividerOrientation;
pub use fab::{FabHorizontal, FabListSide, FabSize, FabVertical};
pub use field::InputType;
pub use layout::{Space, StackAlign, StackJustify};
pub use line::LineOrientation;
pub use list::{ItemDetail, ListLines, ListVariant};
pub use media::{ImgFit, TooltipPlacement};
pub use modal::{ModalRole, ModalSize};
pub use nav::{AdaptiveNavCompact, NavItemGroup};
pub use popover::PopoverPlacement;
pub use pressable::{ButtonType, Destination};
pub use reorder::{ReorderHandlePosition, ReorderLayout};
pub use select::{SelectOption, SelectWidth};
