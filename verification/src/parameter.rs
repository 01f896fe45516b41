//! A typed parameter of a signal.

use vstd::prelude::*;

verus! {

/// One parameter of a signal: its identifier and its source type, both as
/// text.  Order among parameters is significant and preserved end to end.
#[derive(Clone, Debug, PartialEq, Eq)]
pub struct ParsedFunctionParameter {
    pub ident: String,
    pub ty: String,
}

/// Mathematical model of a parameter: both fields as character sequences.
pub ghost struct FunctionParameterModel {
    pub ident: Seq<char>,
    pub ty: Seq<char>,
}

impl View for ParsedFunctionParameter {
    type V = FunctionParameterModel;

    open spec fn view(&self) -> FunctionParameterModel {
        FunctionParameterModel { ident: self.ident@, ty: self.ty@ }
    }
}

/// The models of a sequence of parameters.
pub open spec fn params_view(params: Seq<ParsedFunctionParameter>) -> Seq<FunctionParameterModel> {
    params.map_values(|p: ParsedFunctionParameter| p@)
}

} // verus!
