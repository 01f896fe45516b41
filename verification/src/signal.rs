//! Generation of the C++ fragments for signals.
//!
//! `parameter_types_and_values` derives the three marshalled parameter lists
//! of one signal.  `generate_cpp_free_signal` emits the connect-function pair
//! for a signal that already exists on a foreign type.  `generate_cpp_signals`
//! emits, for every signal of one generated owner type, an optional plain
//! signal declaration plus a connect-function pair.  Every function's contract
//! pins the produced text exactly, so generation is deterministic by
//! construction.

use vstd::prelude::*;
use vstd::string::StringExecFns;
use crate::fragment::{fragments_view, CppFragment, FragmentModel, GeneratedCppQObjectBlocks};
use crate::mappings::{
    qualified_name, resolve_type, CxxMappingsModel, ParsedCxxMappings, ResolveError,
};
use crate::naming::{connect_name_cpp, QObjectName, QSignalName};
use crate::parameter::{params_view, FunctionParameterModel, ParsedFunctionParameter};
use crate::signals::{signals_view, ParsedSignal, SignalModel};
use crate::text::{comma_join, join_comma, strings_view};

verus! {

/// The three marshalled parameter lists derived from one signal's parameters:
/// the closure's externally exposed parameter types (self first), the plain
/// signal's parameter list (self excluded), and the values forwarded to the
/// user callback (self first, every other value move-wrapped).
#[derive(Clone, Debug, PartialEq, Eq)]
pub struct Parameters {
    pub types_closure: String,
    pub types_signal: String,
    pub values_closure: String,
}

/// The identifier/type pair standing for the receiver: prepended to every
/// closure-parameter and forwarding-value sequence.  For a generated owner
/// the identifier denotes the current instance and the type is the owner's
/// bare name; for a foreign type the identifier is a fixed parameter name and
/// the type is the foreign type's qualified name.
pub struct SelfValue<'a> {
    pub ident: &'a str,
    pub ty: &'a str,
}

/// Whether every parameter's source type resolves under the table.
pub open spec fn params_resolve(m: CxxMappingsModel, params: Seq<FunctionParameterModel>) -> bool {
    forall|i: int| 0 <= i < params.len() ==> resolve_type(m, (#[trigger] params[i]).ty) is Some
}

/// The source type of the first parameter whose type does not resolve.
pub open spec fn first_unresolved(
    m: CxxMappingsModel,
    params: Seq<FunctionParameterModel>,
) -> Seq<char>
    decreases params.len(),
{
    if params.len() == 0 {
        Seq::empty()
    } else if resolve_type(m, params[0].ty) is None {
        params[0].ty
    } else {
        first_unresolved(m, params.drop_first())
    }
}

/// One entry of the signal-parameter list: resolved type, a space, the
/// parameter's identifier.
pub open spec fn signal_type_entry(m: CxxMappingsModel, p: FunctionParameterModel) -> Seq<char> {
    resolve_type(m, p.ty)->0 + " "@ + p.ident
}

/// The entries of the signal-parameter list, in declaration order.
pub open spec fn signal_type_entries(
    m: CxxMappingsModel,
    params: Seq<FunctionParameterModel>,
) -> Seq<Seq<char>> {
    params.map_values(|p: FunctionParameterModel| signal_type_entry(m, p))
}

/// An identifier wrapped to force move semantics when forwarded.
pub open spec fn move_wrapped(ident: Seq<char>) -> Seq<char> {
    "::std::move("@ + ident + ")"@
}

/// The forwarding-values entries: self's bare identifier first, then every
/// parameter's identifier move-wrapped, in declaration order.
pub open spec fn forwarding_value_entries(
    params: Seq<FunctionParameterModel>,
    self_ident: Seq<char>,
) -> Seq<Seq<char>> {
    seq![self_ident] + params.map_values(|p: FunctionParameterModel| move_wrapped(p.ident))
}

/// The closure-parameter type entries: self's reference type first, then the
/// signal-parameter entries.
pub open spec fn closure_type_entries(
    m: CxxMappingsModel,
    params: Seq<FunctionParameterModel>,
    self_ty: Seq<char>,
) -> Seq<Seq<char>> {
    seq![self_ty + "&"@] + signal_type_entries(m, params)
}

/// The signal-parameter list as text.
pub open spec fn types_signal_text(
    m: CxxMappingsModel,
    params: Seq<FunctionParameterModel>,
) -> Seq<char> {
    comma_join(signal_type_entries(m, params))
}

/// The closure-parameter type list as text.
pub open spec fn types_closure_text(
    m: CxxMappingsModel,
    params: Seq<FunctionParameterModel>,
    self_ty: Seq<char>,
) -> Seq<char> {
    comma_join(closure_type_entries(m, params, self_ty))
}

/// The forwarding-values list as text.
pub open spec fn values_closure_text(
    params: Seq<FunctionParameterModel>,
    self_ident: Seq<char>,
) -> Seq<char> {
    comma_join(forwarding_value_entries(params, self_ident))
}

/// A parameter that fails to resolve after a fully resolving prefix is the
/// first unresolved one, and refutes `params_resolve`.
proof fn lemma_first_unresolved(
    m: CxxMappingsModel,
    params: Seq<FunctionParameterModel>,
    i: int,
)
    requires
        0 <= i < params.len(),
        forall|j: int| 0 <= j < i ==> resolve_type(m, (#[trigger] params[j]).ty) is Some,
        resolve_type(m, params[i].ty) is None,
    ensures
        !params_resolve(m, params),
        first_unresolved(m, params) == params[i].ty,
    decreases i,
{
    if i > 0 {
        assert forall|j: int| 0 <= j < i - 1 implies resolve_type(
            m,
            (#[trigger] params.drop_first()[j]).ty,
        ) is Some by {
            assert(params.drop_first()[j] == params[j + 1]);
        }
        assert(params.drop_first()[i - 1] == params[i]);
        lemma_first_unresolved(m, params.drop_first(), i - 1);
    }
}

/// Derives the three marshalled parameter lists for one signal.  Each source
/// type is translated through the table; the first failure aborts the call
/// with that type's resolution error and no partial result.
pub fn parameter_types_and_values<'a>(
    parameters: &Vec<ParsedFunctionParameter>,
    cxx_mappings: &ParsedCxxMappings,
    self_value: SelfValue<'a>,
) -> (r: Result<Parameters, ResolveError>)
    ensures
        r is Ok <==> params_resolve(cxx_mappings@, params_view(parameters@)),
        r matches Ok(p) ==> {
            &&& p.types_signal@ == types_signal_text(cxx_mappings@, params_view(parameters@))
            &&& p.types_closure@ == types_closure_text(
                cxx_mappings@,
                params_view(parameters@),
                self_value.ty@,
            )
            &&& p.values_closure@ == values_closure_text(
                params_view(parameters@),
                self_value.ident@,
            )
        },
        r matches Err(e) ==> e.ty@ == first_unresolved(cxx_mappings@, params_view(parameters@)),
{
    let ghost m = cxx_mappings@;
    let ghost pv = params_view(parameters@);
    let mut parameter_types_closure: Vec<String> = Vec::new();
    let mut parameter_values_closure: Vec<String> = Vec::new();
    let mut i: usize = 0;
    proof {
        assert(strings_view(parameter_types_closure@) =~= signal_type_entries(m, pv.take(0)));
        assert(strings_view(parameter_values_closure@) =~= pv.take(0).map_values(
            |p: FunctionParameterModel| move_wrapped(p.ident),
        ));
    }
    while i < parameters.len()
        invariant
            i <= parameters.len(),
            m == cxx_mappings@,
            pv == params_view(parameters@),
            pv.len() == parameters@.len(),
            forall|j: int| 0 <= j < i ==> resolve_type(m, (#[trigger] pv[j]).ty) is Some,
            strings_view(parameter_types_closure@) == signal_type_entries(m, pv.take(i as int)),
            strings_view(parameter_values_closure@) == pv.take(i as int).map_values(
                |p: FunctionParameterModel| move_wrapped(p.ident),
            ),
        decreases parameters.len() - i,
    {
        proof {
            assert(pv[i as int] == parameters@[i as int]@);
        }
        let cxx_ty = match cxx_mappings.resolve(&parameters[i].ty) {
            Ok(t) => t,
            Err(e) => {
                proof {
                    lemma_first_unresolved(m, pv, i as int);
                }
                return Err(e);
            },
        };
        let mut type_entry = cxx_ty;
        type_entry.append(" ");
        type_entry.append(parameters[i].ident.as_str());
        let mut value_entry = "::std::move(".to_owned();
        value_entry.append(parameters[i].ident.as_str());
        value_entry.append(")");
        let ghost type_entry_snap = type_entry;
        let ghost value_entry_snap = value_entry;
        let ghost old_types = parameter_types_closure@;
        let ghost old_values = parameter_values_closure@;
        parameter_types_closure.push(type_entry);
        parameter_values_closure.push(value_entry);
        proof {
            let entries_new = signal_type_entries(m, pv.take(i as int + 1));
            let values_new = pv.take(i as int + 1).map_values(
                |p: FunctionParameterModel| move_wrapped(p.ident),
            );
            assert(strings_view(old_types).len() == old_types.len());
            assert(signal_type_entries(m, pv.take(i as int)).len() == i as int);
            assert(old_types.len() == i as int);
            assert(strings_view(old_values).len() == old_values.len());
            assert(pv.take(i as int).map_values(
                |p: FunctionParameterModel| move_wrapped(p.ident),
            ).len() == i as int);
            assert(old_values.len() == i as int);
            assert(parameter_types_closure@ == old_types.push(type_entry_snap));
            assert(parameter_values_closure@ == old_values.push(value_entry_snap));
            assert(type_entry_snap@ == signal_type_entry(m, pv[i as int]));
            assert(value_entry_snap@ == move_wrapped(pv[i as int].ident));
            assert forall|k: int| 0 <= k <= i implies #[trigger] strings_view(
                parameter_types_closure@,
            )[k] == entries_new[k] by {
                assert(strings_view(parameter_types_closure@)[k] == parameter_types_closure@[k]@);
                if k < i {
                    assert(parameter_types_closure@[k] == old_types[k]);
                    assert(pv.take(i as int + 1)[k] == pv.take(i as int)[k]);
                    assert(strings_view(old_types)[k] == signal_type_entries(
                        m,
                        pv.take(i as int),
                    )[k]);
                } else {
                    assert(pv.take(i as int + 1)[k] == pv[i as int]);
                }
            }
            assert(strings_view(parameter_types_closure@) =~= entries_new);
            assert forall|k: int| 0 <= k <= i implies #[trigger] strings_view(
                parameter_values_closure@,
            )[k] == values_new[k] by {
                assert(strings_view(parameter_values_closure@)[k]
                    == parameter_values_closure@[k]@);
                if k < i {
                    assert(parameter_values_closure@[k] == old_values[k]);
                    assert(pv.take(i as int + 1)[k] == pv.take(i as int)[k]);
                    assert(strings_view(old_values)[k] == pv.take(i as int).map_values(
                        |p: FunctionParameterModel| move_wrapped(p.ident),
                    )[k]);
                } else {
                    assert(pv.take(i as int + 1)[k] == pv[i as int]);
                }
            }
            assert(strings_view(parameter_values_closure@) =~= values_new);
        }
        i += 1;
    }
    proof {
        assert(pv.take(pv.len() as int) =~= pv);
    }
    let parameters_types_signal = join_comma(&parameter_types_closure);
    let mut self_ty_entry = self_value.ty.to_owned();
    self_ty_entry.append("&");
    parameter_types_closure.insert(0, self_ty_entry);
    parameter_values_closure.insert(0, self_value.ident.to_owned());
    proof {
        assert(strings_view(parameter_types_closure@) =~= closure_type_entries(
            m,
            pv,
            self_value.ty@,
        ));
        assert(strings_view(parameter_values_closure@) =~= forwarding_value_entries(
            pv,
            self_value.ident@,
        ));
    }
    let types_closure = join_comma(&parameter_types_closure);
    let values_closure = join_comma(&parameter_values_closure);
    Ok(
        Parameters {
            types_closure: types_closure,
            types_signal: parameters_types_signal,
            values_closure: values_closure,
        },
    )
}

/// The declaration text of a foreign signal's connect function: a standalone
/// function taking the foreign receiver, the callback and the connection-type
/// policy, returning the connection handle.
pub open spec fn free_signal_header_text(s: SignalModel, m: CxxMappingsModel) -> Seq<char> {
    let qns = qualified_name(m, s.qobject_ident);
    "::QMetaObject::Connection\n"@ + s.qobject_ident + "_"@ + connect_name_cpp(s.ident.cpp) + "("@
        + qns + "& self, ::rust::Fn<void("@ + types_closure_text(m, s.parameters, qns)
        + ")> func, ::Qt::ConnectionType type);\n"@
}

/// The definition text of a foreign signal's connect function: registers a
/// connection from the receiver's native signal to a closure that captures
/// the callback by move, acquires the scoped cross-thread guard around the
/// receiver, forwards the marshalled values, and is registered under the
/// caller-supplied connection-type policy.
pub open spec fn free_signal_source_text(s: SignalModel, m: CxxMappingsModel) -> Seq<char> {
    let qns = qualified_name(m, s.qobject_ident);
    "::QMetaObject::Connection\n"@ + s.qobject_ident + "_"@ + connect_name_cpp(s.ident.cpp) + "("@
        + qns + "& self, ::rust::Fn<void("@ + types_closure_text(m, s.parameters, qns)
        + ")> func, ::Qt::ConnectionType type)\n{\n    return ::QObject::connect(\n        &self,\n        &"@
        + qns + "::"@ + s.ident.cpp + ",\n        &self,\n        [&, func = ::std::move(func)]("@
        + types_signal_text(m, s.parameters)
        + ") {\n            const ::rust::cxxqtlib1::MaybeLockGuard<"@ + qns
        + "> guard(self);\n            func("@ + values_closure_text(s.parameters, "self"@)
        + ");\n        },\n        type);\n}\n"@
}

/// The paired fragment emitted for a foreign signal.
pub open spec fn free_signal_fragment(s: SignalModel, m: CxxMappingsModel) -> FragmentModel {
    FragmentModel::Pair {
        header: free_signal_header_text(s, m),
        source: free_signal_source_text(s, m),
    }
}

/// Emits the connect-function pair for a signal that already exists on a
/// foreign type.  The foreign type's qualified name stands both as the self
/// parameter's type and in the qualified reference to the native signal.
/// Fails with the first parameter type the table cannot resolve, emitting
/// nothing for the signal.
pub fn generate_cpp_free_signal(
    signal: &ParsedSignal,
    cxx_mappings: &ParsedCxxMappings,
) -> (r: Result<CppFragment, ResolveError>)
    ensures
        r is Ok <==> params_resolve(cxx_mappings@, signal@.parameters),
        r matches Ok(f) ==> f@ == free_signal_fragment(signal@, cxx_mappings@),
        r matches Err(e) ==> e.ty@ == first_unresolved(cxx_mappings@, signal@.parameters),
{
    let qobject_ident_namespaced = cxx_mappings.cxx(&signal.qobject_ident);
    let idents = QSignalName::from_signal(signal);
    let signal_ident = idents.name.cpp;
    let connect_ident = idents.connect_name.cpp;

    let parameters = match parameter_types_and_values(
        &signal.parameters,
        cxx_mappings,
        SelfValue { ident: "self", ty: qobject_ident_namespaced.as_str() },
    ) {
        Ok(p) => p,
        Err(e) => {
            return Err(e);
        },
    };

    let mut header = "::QMetaObject::Connection\n".to_owned();
    header.append(signal.qobject_ident.as_str());
    header.append("_");
    header.append(connect_ident.as_str());
    header.append("(");
    header.append(qobject_ident_namespaced.as_str());
    header.append("& self, ::rust::Fn<void(");
    header.append(parameters.types_closure.as_str());
    header.append(")> func, ::Qt::ConnectionType type);\n");

    let mut source = "::QMetaObject::Connection\n".to_owned();
    source.append(signal.qobject_ident.as_str());
    source.append("_");
    source.append(connect_ident.as_str());
    source.append("(");
    source.append(qobject_ident_namespaced.as_str());
    source.append("& self, ::rust::Fn<void(");
    source.append(parameters.types_closure.as_str());
    source.append(")> func, ::Qt::ConnectionType type)\n{\n    return ::QObject::connect(\n        &self,\n        &");
    source.append(qobject_ident_namespaced.as_str());
    source.append("::");
    source.append(signal_ident.as_str());
    source.append(",\n        &self,\n        [&, func = ::std::move(func)](");
    source.append(parameters.types_signal.as_str());
    source.append(") {\n            const ::rust::cxxqtlib1::MaybeLockGuard<");
    source.append(qobject_ident_namespaced.as_str());
    source.append("> guard(self);\n            func(");
    source.append(parameters.values_closure.as_str());
    source.append(");\n        },\n        type);\n}\n");

    Ok(CppFragment::Pair { header: header, source: source })
}

/// The plain `Q_SIGNAL` prototype emitted for a signal the owner newly
/// declares.
pub open spec fn member_decl_text(s: SignalModel, m: CxxMappingsModel) -> Seq<char> {
    "Q_SIGNAL void "@ + s.ident.cpp + "("@ + types_signal_text(m, s.parameters) + ");"@
}

/// The declaration text of a member signal's connect function: a method of
/// the owner taking the callback and the connection-type policy.
pub open spec fn member_header_text(
    s: SignalModel,
    m: CxxMappingsModel,
    owner: Seq<char>,
) -> Seq<char> {
    "::QMetaObject::Connection "@ + connect_name_cpp(s.ident.cpp) + "(::rust::Fn<void("@
        + types_closure_text(m, s.parameters, owner) + ")> func, ::Qt::ConnectionType type);"@
}

/// The definition text of a member signal's connect function: connects the
/// owner to itself, with the current instance as the receiver, through the
/// same guarded, move-forwarding closure as a foreign signal.
pub open spec fn member_source_text(
    s: SignalModel,
    m: CxxMappingsModel,
    owner: Seq<char>,
) -> Seq<char> {
    "::QMetaObject::Connection\n"@ + owner + "::"@ + connect_name_cpp(s.ident.cpp)
        + "(::rust::Fn<void("@ + types_closure_text(m, s.parameters, owner)
        + ")> func, ::Qt::ConnectionType type)\n{\n    return ::QObject::connect(this,\n        &"@
        + owner + "::"@ + s.ident.cpp + ",\n        this,\n        [&, func = ::std::move(func)]("@
        + types_signal_text(m, s.parameters)
        + ") {\n            const ::rust::cxxqtlib1::MaybeLockGuard<"@ + owner
        + "> guard(*this);\n            func("@ + values_closure_text(s.parameters, "*this"@)
        + ");\n        },\n        type);\n}\n"@
}

/// The fragments emitted for one member signal: the connect pair alone where
/// the native signal is inherited, the plain declaration immediately followed
/// by the connect pair where the owner newly declares it.
pub open spec fn member_signal_fragments(
    s: SignalModel,
    m: CxxMappingsModel,
    owner: Seq<char>,
) -> Seq<FragmentModel> {
    let pair = FragmentModel::Pair {
        header: member_header_text(s, m, owner),
        source: member_source_text(s, m, owner),
    };
    if s.inherit {
        seq![pair]
    } else {
        seq![FragmentModel::Header(member_decl_text(s, m)), pair]
    }
}

/// Whether every parameter type of every signal resolves under the table.
pub open spec fn signals_resolve(m: CxxMappingsModel, signals: Seq<SignalModel>) -> bool {
    forall|i: int| 0 <= i < signals.len() ==> params_resolve(m, (#[trigger] signals[i]).parameters)
}

/// The source type of the first unresolved parameter of the first signal
/// whose parameters do not all resolve.
pub open spec fn signals_first_unresolved(
    m: CxxMappingsModel,
    signals: Seq<SignalModel>,
) -> Seq<char>
    decreases signals.len(),
{
    if signals.len() == 0 {
        Seq::empty()
    } else if !params_resolve(m, signals[0].parameters) {
        first_unresolved(m, signals[0].parameters)
    } else {
        signals_first_unresolved(m, signals.drop_first())
    }
}

/// The fragments of all signals of one owner, in declaration order.
pub open spec fn signals_fragments(
    signals: Seq<SignalModel>,
    m: CxxMappingsModel,
    owner: Seq<char>,
) -> Seq<FragmentModel>
    decreases signals.len(),
{
    if signals.len() == 0 {
        Seq::empty()
    } else {
        signals_fragments(signals.drop_last(), m, owner)
            + member_signal_fragments(signals.last(), m, owner)
    }
}

/// A signal that fails to resolve after a fully resolving prefix determines
/// the whole set's resolution error, and refutes `signals_resolve`.
proof fn lemma_signals_first_unresolved(m: CxxMappingsModel, signals: Seq<SignalModel>, i: int)
    requires
        0 <= i < signals.len(),
        forall|j: int| 0 <= j < i ==> params_resolve(m, (#[trigger] signals[j]).parameters),
        !params_resolve(m, signals[i].parameters),
    ensures
        !signals_resolve(m, signals),
        signals_first_unresolved(m, signals) == first_unresolved(m, signals[i].parameters),
    decreases i,
{
    if i > 0 {
        assert forall|j: int| 0 <= j < i - 1 implies params_resolve(
            m,
            (#[trigger] signals.drop_first()[j]).parameters,
        ) by {
            assert(signals.drop_first()[j] == signals[j + 1]);
        }
        assert(signals.drop_first()[i - 1] == signals[i]);
        lemma_signals_first_unresolved(m, signals.drop_first(), i - 1);
    }
}

/// Emits the fragments of all signals of one generated owner type, in
/// declaration order: for each signal an optional plain declaration (newly
/// declared signals only) immediately followed by its connect-function pair.
/// Fails with the first parameter type the table cannot resolve, emitting
/// nothing.
pub fn generate_cpp_signals(
    signals: &Vec<ParsedSignal>,
    qobject_idents: &QObjectName,
    cxx_mappings: &ParsedCxxMappings,
) -> (r: Result<GeneratedCppQObjectBlocks, ResolveError>)
    ensures
        r is Ok <==> signals_resolve(cxx_mappings@, signals_view(signals@)),
        r matches Ok(g) ==> g@.methods == signals_fragments(
            signals_view(signals@),
            cxx_mappings@,
            qobject_idents@.cpp_class.cpp,
        ),
        r matches Err(e) ==> e.ty@ == signals_first_unresolved(
            cxx_mappings@,
            signals_view(signals@),
        ),
{
    let ghost m = cxx_mappings@;
    let ghost sv = signals_view(signals@);
    let ghost owner = qobject_idents@.cpp_class.cpp;
    let mut generated = GeneratedCppQObjectBlocks::default();
    let qobject_ident = &qobject_idents.cpp_class.cpp;
    let mut i: usize = 0;
    proof {
        assert(fragments_view(generated.methods@) =~= signals_fragments(sv.take(0), m, owner));
    }
    while i < signals.len()
        invariant
            i <= signals.len(),
            m == cxx_mappings@,
            sv == signals_view(signals@),
            sv.len() == signals@.len(),
            owner == qobject_idents@.cpp_class.cpp,
            qobject_ident@ == owner,
            forall|j: int| 0 <= j < i ==> params_resolve(m, (#[trigger] sv[j]).parameters),
            fragments_view(generated.methods@) == signals_fragments(sv.take(i as int), m, owner),
        decreases signals.len() - i,
    {
        proof {
            assert(sv[i as int] == signals@[i as int]@);
        }
        let signal = &signals[i];
        let idents = QSignalName::from_signal(signal);
        let signal_ident = idents.name.cpp;
        let connect_ident = idents.connect_name.cpp;

        let parameters = match parameter_types_and_values(
            &signal.parameters,
            cxx_mappings,
            SelfValue { ident: "*this", ty: qobject_ident.as_str() },
        ) {
            Ok(p) => p,
            Err(e) => {
                proof {
                    lemma_signals_first_unresolved(m, sv, i as int);
                }
                return Err(e);
            },
        };

        let ghost methods_before = fragments_view(generated.methods@);

        if !signal.inherit {
            let mut decl = "Q_SIGNAL void ".to_owned();
            decl.append(signal_ident.as_str());
            decl.append("(");
            decl.append(parameters.types_signal.as_str());
            decl.append(");");
            proof {
                assert(decl@ == member_decl_text(sv[i as int], m));
            }
            generated.methods.push(CppFragment::Header(decl));
        }

        let mut header = "::QMetaObject::Connection ".to_owned();
        header.append(connect_ident.as_str());
        header.append("(::rust::Fn<void(");
        header.append(parameters.types_closure.as_str());
        header.append(")> func, ::Qt::ConnectionType type);");

        let mut source = "::QMetaObject::Connection\n".to_owned();
        source.append(qobject_ident.as_str());
        source.append("::");
        source.append(connect_ident.as_str());
        source.append("(::rust::Fn<void(");
        source.append(parameters.types_closure.as_str());
        source.append(")> func, ::Qt::ConnectionType type)\n{\n    return ::QObject::connect(this,\n        &");
        source.append(qobject_ident.as_str());
        source.append("::");
        source.append(signal_ident.as_str());
        source.append(",\n        this,\n        [&, func = ::std::move(func)](");
        source.append(parameters.types_signal.as_str());
        source.append(") {\n            const ::rust::cxxqtlib1::MaybeLockGuard<");
        source.append(qobject_ident.as_str());
        source.append("> guard(*this);\n            func(");
        source.append(parameters.values_closure.as_str());
        source.append(");\n        },\n        type);\n}\n");

        proof {
            assert(header@ == member_header_text(sv[i as int], m, owner));
            assert(source@ == member_source_text(sv[i as int], m, owner));
        }
        generated.methods.push(CppFragment::Pair { header: header, source: source });

        proof {
            assert(sv.take(i as int + 1).drop_last() =~= sv.take(i as int));
            assert(sv.take(i as int + 1).last() == sv[i as int]);
            assert(fragments_view(generated.methods@) =~= methods_before
                + member_signal_fragments(sv[i as int], m, owner));
            assert(fragments_view(generated.methods@) == signals_fragments(
                sv.take(i as int + 1),
                m,
                owner,
            ));
        }
        i += 1;
    }
    proof {
        assert(sv.take(sv.len() as int) =~= sv);
    }
    Ok(generated)
}

/// Law: a signal with no parameters marshals to an empty signal-parameter
/// list, a closure-parameter type list that is exactly self's type text (with
/// its reference marker), and a forwarding-values list that is exactly self's
/// bare identifier.
pub proof fn lemma_zero_parameters(m: CxxMappingsModel, self_ty: Seq<char>, self_ident: Seq<char>)
    ensures
        types_signal_text(m, Seq::<FunctionParameterModel>::empty()) == Seq::<char>::empty(),
        types_closure_text(m, Seq::<FunctionParameterModel>::empty(), self_ty) == self_ty + "&"@,
        values_closure_text(Seq::<FunctionParameterModel>::empty(), self_ident) == self_ident,
{
    let no_params = Seq::<FunctionParameterModel>::empty();
    assert(signal_type_entries(m, no_params) =~= Seq::<Seq<char>>::empty());
    assert(closure_type_entries(m, no_params, self_ty) =~= seq![self_ty + "&"@]);
    assert(forwarding_value_entries(no_params, self_ident) =~= seq![self_ident]);
}

/// Law: the forwarding-values list has one entry more than the parameter
/// list; entry 0 is self's identifier unwrapped, and entry i + 1 is the i-th
/// parameter's identifier move-wrapped, in declaration order.
pub proof fn lemma_forwarding_values_shape(
    params: Seq<FunctionParameterModel>,
    self_ident: Seq<char>,
)
    ensures
        forwarding_value_entries(params, self_ident).len() == params.len() + 1,
        forwarding_value_entries(params, self_ident)[0] == self_ident,
        forall|i: int|
            0 <= i < params.len() ==> forwarding_value_entries(params, self_ident)[i + 1]
                == move_wrapped((#[trigger] params[i]).ident),
{
    let entries = forwarding_value_entries(params, self_ident);
    assert forall|i: int| 0 <= i < params.len() implies entries[i + 1] == move_wrapped(
        (#[trigger] params[i]).ident,
    ) by {
        assert(entries[i + 1] == params.map_values(
            |p: FunctionParameterModel| move_wrapped(p.ident),
        )[i]);
    }
}

/// Law: an inherited signal emits exactly one fragment, its connect pair, and
/// no declaration fragment; a newly declared signal emits exactly two, its
/// plain declaration strictly before its own connect pair.
pub proof fn lemma_inherit_controls_declaration(
    s: SignalModel,
    m: CxxMappingsModel,
    owner: Seq<char>,
)
    ensures
        s.inherit ==> member_signal_fragments(s, m, owner).len() == 1,
        s.inherit ==> member_signal_fragments(s, m, owner)[0] is Pair,
        !s.inherit ==> member_signal_fragments(s, m, owner).len() == 2,
        !s.inherit ==> member_signal_fragments(s, m, owner)[0] is Header,
        !s.inherit ==> member_signal_fragments(s, m, owner)[1] is Pair,
{
}

/// Law: generation of a foreign signal is deterministic: equal inputs give a
/// character-identical fragment.  With `generate_cpp_free_signal` pinning its
/// output to `free_signal_fragment` of the input views, two runs on one input
/// return equal text.
pub proof fn lemma_free_signal_deterministic(
    s1: SignalModel,
    m1: CxxMappingsModel,
    s2: SignalModel,
    m2: CxxMappingsModel,
)
    requires
        s1 == s2,
        m1 == m2,
    ensures
        free_signal_fragment(s1, m1) == free_signal_fragment(s2, m2),
{
}

/// Law: generation of an owner's signal set is deterministic: equal inputs
/// give character-identical fragments in the same order.  With
/// `generate_cpp_signals` pinning its output to `signals_fragments` of the
/// input views, two runs on one input return equal text.
pub proof fn lemma_signals_deterministic(
    signals1: Seq<SignalModel>,
    m1: CxxMappingsModel,
    owner1: Seq<char>,
    signals2: Seq<SignalModel>,
    m2: CxxMappingsModel,
    owner2: Seq<char>,
)
    requires
        signals1 == signals2,
        m1 == m2,
        owner1 == owner2,
    ensures
        signals_fragments(signals1, m1, owner1) == signals_fragments(signals2, m2, owner2),
{
}

} // verus!
