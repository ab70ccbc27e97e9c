//! Card logic of the Andromeda stars catalogue: form validation, feed and grid
//! navigation, media links and the text helpers they rest on.

pub mod text;
pub mod number;
pub mod errors;
pub mod forms;
pub mod models;
pub mod handlers;
