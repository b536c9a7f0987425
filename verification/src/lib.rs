//! Core state and rules of the Doxle floor-plan editor: points and polygons,
//! the drawing state, the 2D/3D view mode and the colour theme, the inline
//! styles of the interface, the renderer's mailbox and render-target
//! bookkeeping, the macOS titlebar set-up, the main window and its icon.

pub mod view_mode;
pub mod theme;
pub mod point;
pub mod polygon;
pub mod app_state;
pub mod renderer;
pub mod texture;
pub mod style;
pub mod titlebar;
pub mod window;
pub mod icon;
