//! Core engine of a hotkey-triggered overlay launcher.
//!
//! A background observer samples the keyboard's modifier state, derives a
//! debounced visibility signal for a render loop running on another thread,
//! lays out shortcut slots radially or in a list, and plans the launch of a
//! shortcut's target. All decisions are made here; the host process does the
//! sampling, drawing and spawning around this crate.

mod keys;
mod launch;
mod layout;
mod registry;
mod visibility;

pub use keys::KeyCombo;
pub use keys::KeySnapshot;
pub use launch::LaunchResult;
pub use launch::LaunchStrategy;
pub use launch::Platform;
pub use launch::StartupError;
pub use launch::keyboard_unavailable;
pub use launch::launch_result;
pub use launch::plan_launch;
pub use launch::unsupported_launch;
pub use layout::Geometry;
pub use layout::cardinal_point;
pub use layout::ListGeometry;
pub use layout::RowPos;
pub use layout::SlotPos;
pub use layout::layout;
pub use layout::list_layout;
pub use registry::ParseWarning;
pub use registry::ShortcutEntry;
pub use registry::load_registry;
pub use registry::parse_line;
pub use visibility::HotkeyObserver;
pub use visibility::VisibilityCell;
pub use visibility::VisibilityState;
