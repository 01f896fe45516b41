//! The validated declaration of one signal.

use vstd::prelude::*;
use crate::naming::{CombinedIdent, CombinedIdentModel};
use crate::parameter::{params_view, FunctionParameterModel, ParsedFunctionParameter};

verus! {

/// One signal-emission point, as handed over by the upstream parser: the
/// owner type's identifier, the signal's name pair, its ordered parameters,
/// and its flags.  `inherit` true means the native signal already exists on
/// the owner and must not be re-declared.
#[derive(Clone, Debug, PartialEq, Eq)]
pub struct ParsedSignal {
    pub qobject_ident: String,
    pub parameters: Vec<ParsedFunctionParameter>,
    pub ident: CombinedIdent,
    pub mutable: bool,
    pub safe: bool,
    pub inherit: bool,
}

/// Mathematical model of a signal declaration.
pub ghost struct SignalModel {
    pub qobject_ident: Seq<char>,
    pub parameters: Seq<FunctionParameterModel>,
    pub ident: CombinedIdentModel,
    pub mutable: bool,
    pub safe: bool,
    pub inherit: bool,
}

impl View for ParsedSignal {
    type V = SignalModel;

    open spec fn view(&self) -> SignalModel {
        SignalModel {
            qobject_ident: self.qobject_ident@,
            parameters: params_view(self.parameters@),
            ident: self.ident@,
            mutable: self.mutable,
            safe: self.safe,
            inherit: self.inherit,
        }
    }
}

/// The models of a sequence of signal declarations.
pub open spec fn signals_view(signals: Seq<ParsedSignal>) -> Seq<SignalModel> {
    signals.map_values(|s: ParsedSignal| s@)
}

} // verus!
