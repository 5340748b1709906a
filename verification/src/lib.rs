//! Reads the favorites of Finder's sidebar and tells what each of them points
//! at.
//!
//! The system is asked through a trait, [`system::MacOsApi`], that the library
//! does not implement: whoever uses the library brings the calls into the
//! system, or a double of them. What the library makes of the answers is
//! proved for every answer.

pub mod error;
pub mod favorites;
pub mod finder;
pub mod sidebar;
pub mod system;
pub mod text;

pub use error::{CoreFoundationErrorKind, Error, Result};
pub use finder::Finder;
pub use sidebar::{MacOsApi, MacOsLocation, MacOsPath, Sidebar, SidebarApi, SidebarItem};
