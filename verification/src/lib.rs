//! Build-time configuration of a process launcher: a bank of named constants,
//! one accessor per constant, the parser of the library-search mode and the
//! resolver that lets the environment override that one setting.
//!
//! Nothing here reads the environment, prints or ends the program. The caller
//! makes the [`ConstantBank`] when the program starts, hands the resolver the
//! override that it read and a [`Logger`], and decides what to do with a
//! [`FatalMisconfiguration`].

pub mod constants;
pub mod mode;
pub mod resolver;
pub mod text;

pub use constants::{
    get_bin, get_bootcp, get_itwlibsearch, get_java, get_jre, get_jsobject, get_main, get_name,
    get_netx, get_plugin, get_rhino, get_splash, get_tagsoup, ConstantBank, ConstantName,
};
pub use mode::{ItwLibSearch, ParseItwLibSearch};
pub use resolver::{
    format_invalid_override, get_libsearch, CapturingLogger, FatalMisconfiguration, Logger,
};
pub use text::str_eq;
