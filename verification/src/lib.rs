//! A keyboard-driven carousel of baseball game cards.
//!
//! The library holds the part of the browser that is worth stating exactly:
//! the carousel controller (entry list, date, selection, animation progress)
//! and the render projection that turns a controller state into a list of
//! draw commands. The data provider (HTTP schedule fetch, image cache) and
//! the drawing backend are external collaborators; a host hands their results
//! in as plain values and carries the draw commands out.

pub mod carousel;
pub mod game;
pub mod laws;
pub mod projection;

pub use carousel::ImageHandle;
pub use carousel::MenuItem;
pub use carousel::MlbApp;
pub use carousel::SimpleDate;
pub use game::Game;
pub use projection::DrawCommand;
pub use projection::LabelPlacement;
