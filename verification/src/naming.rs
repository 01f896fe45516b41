//! Name pairs and the identifiers derived from a signal's name.

use vstd::prelude::*;
use vstd::string::StringExecFns;
use crate::signals::ParsedSignal;

verus! {

/// A name in both languages: the target (C++) spelling and the source (Rust)
/// spelling.
#[derive(Clone, Debug, PartialEq, Eq)]
pub struct CombinedIdent {
    pub cpp: String,
    pub rust: String,
}

/// Mathematical model of a name pair.
pub ghost struct CombinedIdentModel {
    pub cpp: Seq<char>,
    pub rust: Seq<char>,
}

impl View for CombinedIdent {
    type V = CombinedIdentModel;

    open spec fn view(&self) -> CombinedIdentModel {
        CombinedIdentModel { cpp: self.cpp@, rust: self.rust@ }
    }
}

/// The names of one generated owner type.
#[derive(Clone, Debug, PartialEq, Eq)]
pub struct QObjectName {
    pub cpp_class: CombinedIdent,
}

/// Mathematical model of an owner type's names.
pub ghost struct QObjectNameModel {
    pub cpp_class: CombinedIdentModel,
}

impl View for QObjectName {
    type V = QObjectNameModel;

    open spec fn view(&self) -> QObjectNameModel {
        QObjectNameModel { cpp_class: self.cpp_class@ }
    }
}

/// The exposed C++ identifier of a signal's connect function: the signal's
/// C++ name followed by `Connect`.
pub open spec fn connect_name_cpp(signal_name: Seq<char>) -> Seq<char> {
    signal_name + "Connect"@
}

/// The exposed Rust identifier of a signal's connect function: the signal's
/// Rust name prefixed with `connect_`.
pub open spec fn connect_name_rust(signal_name: Seq<char>) -> Seq<char> {
    "connect_"@ + signal_name
}

/// The identifiers a signal is exposed under: its own name pair and the name
/// pair of its connect function.
#[derive(Clone, Debug, PartialEq, Eq)]
pub struct QSignalName {
    pub name: CombinedIdent,
    pub connect_name: CombinedIdent,
}

impl QSignalName {
    /// Derives the exposed identifiers from a signal declaration.
    pub fn from_signal(signal: &ParsedSignal) -> (r: Self)
        ensures
            r.name@ == signal@.ident,
            r.connect_name.cpp@ == connect_name_cpp(signal@.ident.cpp),
            r.connect_name.rust@ == connect_name_rust(signal@.ident.rust),
    {
        QSignalName {
            name: CombinedIdent {
                cpp: signal.ident.cpp.clone(),
                rust: signal.ident.rust.clone(),
            },
            connect_name: CombinedIdent {
                cpp: signal.ident.cpp.clone().concat("Connect"),
                rust: "connect_".to_owned().concat(signal.ident.rust.as_str()),
            },
        }
    }
}

} // verus!
