//! Generation of C++ text that exposes Qt signals to closure-based callbacks.
//!
//! A validated signal declaration (owner type, name pair, typed parameters,
//! flags) is turned into textual C++ fragments: an optional plain `Q_SIGNAL`
//! prototype and a connect-function pair whose definition registers a
//! thread-aware closure with the Qt event system.  Source types are resolved
//! to their target-language spelling through a type-mapping table, and the
//! exposed identifiers are derived from the signal's name pair.  Generation
//! is a total, deterministic function of its inputs: every public function
//! states the exact text it produces.

pub mod fragment;
pub mod mappings;
pub mod naming;
pub mod parameter;
pub mod signal;
pub mod signals;
pub mod text;
