//! Meow Simulator: the decisions and the text that the clicker, its installer,
//! its uninstaller and its setup bundle make, kept apart from the windows,
//! sounds, files and registry keys that they drive.
mod text;
pub mod decimal;
pub mod quoting;
pub mod scripts;
pub mod wide;
pub mod wizard;
pub mod meow;
pub mod player;
pub mod assets;
pub mod install;
pub mod uninstall;
