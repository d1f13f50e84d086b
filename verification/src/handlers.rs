//! The statically known plugin bundles fed to the registry at startup.

pub mod about;
pub mod start;
