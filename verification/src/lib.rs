//! Weeks of a time window laid out as a grid, and the grid drawn as a wallpaper image.

pub mod calendar;
pub mod canvas;
pub mod config;
pub mod modes;
pub mod preview;
pub mod renderer;
pub mod scheduler;
pub mod text;
pub mod wallpaper;

pub use calendar::Date;
pub use canvas::Canvas;
pub use config::{Config, Theme};
pub use modes::{Mode, WeekGrid, WeekStatus};
pub use renderer::render_grid;
pub use scheduler::{install_schedule, uninstall_schedule};
pub use wallpaper::set_wallpaper;
