//! Configures a `cc::Build` from the project metadata that PlatformIO
//! reports: library directories, preprocessor definitions, include paths,
//! and the flags and the compiler of C or of C++.
//!
//! The metadata is a JSON document that names one record for each
//! environment of the project. [`fetch`] says how the document is obtained
//! from the tool, [`select`](mod@select) picks the environment to build,
//! and [`translate`](mod@translate) applies its record to the build.
//! [`configure`](mod@configure) does the last two in one call.

pub mod config;
pub mod configure;
pub mod define;
pub mod error;
pub mod fetch;
pub mod json;
pub mod parse;
pub mod select;
pub mod translate;

pub use crate::configure::{configure, configure_from_output};
pub use crate::define::{split_define, Define};
pub use crate::error::{ConfigureError, FetchError, Field, SelectError, TranslateError};
pub use crate::json::Json;
pub use crate::parse::parse;
pub use crate::select::select;
pub use crate::translate::{translate, Language};
