//! Immediate-mode GUI runtime loop: a verified model of the window/event
//! frame scheduler, its style configuration, DPI-aware font setup, and the
//! recipe-lookup collaborator that feeds the per-frame callback.

pub mod combo;
pub mod frame_loop;
pub mod platform;
pub mod recipe;
pub mod style;
pub mod system;
pub mod title;

pub use combo::combobox;
pub use recipe::{ApiRecipe, Material, Recipe, get_recipe_for_job};
pub use style::set_talan_style;
pub use system::{System, init};
pub use title::display_title;
