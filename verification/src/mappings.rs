//! The cross-language type-mapping table.
//!
//! The table resolves a source type's text to its fully qualified
//! target-language spelling.  It holds three association lists: full type
//! texts with a known translation, per-type name overrides, and per-type
//! namespace qualifiers.  A source type with no table entry resolves to its
//! own text (with override and namespace applied) when it is a plain
//! identifier; any other unknown text is a type-resolution failure.

use vstd::prelude::*;
use vstd::string::{StrSliceExecFns, StringExecFns};

verus! {

/// The single error kind of generation: the table cannot resolve a source
/// type.  Holds the text of the unresolved type.
#[derive(Clone, Debug, PartialEq, Eq)]
pub struct ResolveError {
    pub ty: String,
}

impl ResolveError {
    /// The error rendered as text, naming the unresolved type.
    pub fn message(&self) -> (r: String)
        ensures
            r@ == "unknown type: "@ + self.ty@,
    {
        let mut out = "unknown type: ".to_owned();
        out.append(self.ty.as_str());
        out
    }
}

/// The first binding of `key` in an association list, if any.
pub open spec fn table_lookup(entries: Seq<(Seq<char>, Seq<char>)>, key: Seq<char>) -> Option<
    Seq<char>,
>
    decreases entries.len(),
{
    if entries.len() == 0 {
        None
    } else if entries[0].0 == key {
        Some(entries[0].1)
    } else {
        table_lookup(entries.drop_first(), key)
    }
}

/// The views of a list of string pairs.
pub open spec fn pairs_view(entries: Seq<(String, String)>) -> Seq<(Seq<char>, Seq<char>)> {
    entries.map_values(|p: (String, String)| (p.0@, p.1@))
}

/// A character that may start a plain identifier: an ASCII letter or an
/// underscore.
pub open spec fn is_ident_start_char(c: char) -> bool {
    (97 <= c as u32 && c as u32 <= 122) || (65 <= c as u32 && c as u32 <= 90) || c == '_'
}

/// A character that may continue a plain identifier: a start character or an
/// ASCII digit.
pub open spec fn is_ident_char(c: char) -> bool {
    is_ident_start_char(c) || (48 <= c as u32 && c as u32 <= 57)
}

/// A plain identifier: nonempty, starting with a letter or underscore, every
/// later character a letter, digit or underscore.  Type text of any other
/// shape (templates, pointers, qualified paths) needs its own table entry.
pub open spec fn is_plain_ident(s: Seq<char>) -> bool {
    &&& s.len() > 0
    &&& is_ident_start_char(s[0])
    &&& forall|i: int| 1 <= i < s.len() ==> is_ident_char(#[trigger] s[i])
}

/// The type-mapping table: full-text type translations, cross-language name
/// overrides, and namespace qualifiers, each keyed by source text.
#[derive(Clone, Debug, PartialEq, Eq)]
pub struct ParsedCxxMappings {
    pub type_names: Vec<(String, String)>,
    pub cxx_names: Vec<(String, String)>,
    pub namespaces: Vec<(String, String)>,
}

/// Mathematical model of the table.
pub ghost struct CxxMappingsModel {
    pub type_names: Seq<(Seq<char>, Seq<char>)>,
    pub cxx_names: Seq<(Seq<char>, Seq<char>)>,
    pub namespaces: Seq<(Seq<char>, Seq<char>)>,
}

impl View for ParsedCxxMappings {
    type V = CxxMappingsModel;

    open spec fn view(&self) -> CxxMappingsModel {
        CxxMappingsModel {
            type_names: pairs_view(self.type_names@),
            cxx_names: pairs_view(self.cxx_names@),
            namespaces: pairs_view(self.namespaces@),
        }
    }
}

/// The fully qualified spelling of an identifier: its name override where one
/// is given, prefixed with its namespace where one is given.
pub open spec fn qualified_name(m: CxxMappingsModel, ident: Seq<char>) -> Seq<char> {
    let renamed = match table_lookup(m.cxx_names, ident) {
        Some(n) => n,
        None => ident,
    };
    match table_lookup(m.namespaces, ident) {
        Some(ns) => "::"@ + ns + "::"@ + renamed,
        None => renamed,
    }
}

/// The target-language spelling of a source type: its table translation where
/// one is given, else its qualified own text where it is a plain identifier,
/// else unresolved.
pub open spec fn resolve_type(m: CxxMappingsModel, ty: Seq<char>) -> Option<Seq<char>> {
    if table_lookup(m.type_names, ty) is Some {
        table_lookup(m.type_names, ty)
    } else if is_plain_ident(ty) {
        Some(qualified_name(m, ty))
    } else {
        None
    }
}

/// Finds the first binding of `key` in an association list.
fn lookup(entries: &Vec<(String, String)>, key: &String) -> (r: Option<String>)
    ensures
        r is Some <==> table_lookup(pairs_view(entries@), key@) is Some,
        r matches Some(v) ==> Some(v@) == table_lookup(pairs_view(entries@), key@),
{
    let ghost pv = pairs_view(entries@);
    let mut i: usize = 0;
    proof {
        assert(pv.skip(0) =~= pv);
    }
    while i < entries.len()
        invariant
            i <= entries.len(),
            pv == pairs_view(entries@),
            table_lookup(pv, key@) == table_lookup(pv.skip(i as int), key@),
        decreases entries.len() - i,
    {
        proof {
            assert(pv.skip(i as int).len() > 0);
            assert(pv.skip(i as int)[0] == pv[i as int]);
            assert(pv[i as int] == (entries@[i as int].0@, entries@[i as int].1@));
        }
        if entries[i].0.eq(key) {
            proof {
                assert(table_lookup(pv.skip(i as int), key@) == Some(pv[i as int].1));
            }
            return Some(entries[i].1.clone());
        }
        proof {
            assert(pv.skip(i as int).drop_first() =~= pv.skip(i as int + 1));
        }
        i += 1;
    }
    proof {
        assert(pv.skip(entries@.len() as int) =~= Seq::<(Seq<char>, Seq<char>)>::empty());
    }
    None
}

/// Decides whether the string is a plain identifier.
fn check_plain_ident(s: &String) -> (r: bool)
    ensures
        r == is_plain_ident(s@),
{
    let st = s.as_str();
    let n: usize = st.unicode_len();
    if n == 0 {
        return false;
    }
    let c0 = st.get_char(0);
    let u0 = c0 as u32;
    if !((97 <= u0 && u0 <= 122) || (65 <= u0 && u0 <= 90) || c0 == '_') {
        return false;
    }
    let mut i: usize = 1;
    while i < n
        invariant
            1 <= i <= n,
            n == s@.len(),
            st@ == s@,
            is_ident_start_char(s@[0]),
            forall|j: int| 1 <= j < i ==> is_ident_char(#[trigger] s@[j]),
        decreases n - i,
    {
        let c = st.get_char(i);
        let u = c as u32;
        if !((97 <= u && u <= 122) || (65 <= u && u <= 90) || c == '_' || (48 <= u && u <= 57)) {
            return false;
        }
        i += 1;
    }
    true
}

impl ParsedCxxMappings {
    /// The fully qualified spelling of the identifier, per `qualified_name`.
    pub fn cxx(&self, ident: &String) -> (r: String)
        ensures
            r@ == qualified_name(self@, ident@),
    {
        let renamed = match lookup(&self.cxx_names, ident) {
            Some(n) => n,
            None => ident.clone(),
        };
        match lookup(&self.namespaces, ident) {
            Some(ns) => {
                let mut out = "::".to_owned();
                out.append(ns.as_str());
                out.append("::");
                out.append(renamed.as_str());
                out
            },
            None => renamed,
        }
    }

    /// Resolves a source type's text, per `resolve_type`; an unresolved type
    /// is the single error kind of generation and carries its own text.
    pub fn resolve(&self, ty: &String) -> (r: Result<String, ResolveError>)
        ensures
            r is Ok <==> resolve_type(self@, ty@) is Some,
            r matches Ok(v) ==> Some(v@) == resolve_type(self@, ty@),
            r matches Err(e) ==> e.ty@ == ty@,
    {
        match lookup(&self.type_names, ty) {
            Some(t) => Ok(t),
            None => {
                if check_plain_ident(ty) {
                    Ok(self.cxx(ty))
                } else {
                    Err(ResolveError { ty: ty.clone() })
                }
            },
        }
    }
}

impl Default for ParsedCxxMappings {
    /// A table with no entries: every plain identifier resolves to itself.
    fn default() -> (r: Self)
        ensures
            r@.type_names == Seq::<(Seq<char>, Seq<char>)>::empty(),
            r@.cxx_names == Seq::<(Seq<char>, Seq<char>)>::empty(),
            r@.namespaces == Seq::<(Seq<char>, Seq<char>)>::empty(),
    {
        let r = ParsedCxxMappings { type_names: Vec::new(), cxx_names: Vec::new(), namespaces: Vec::new() };
        proof {
            assert(r@.type_names =~= Seq::<(Seq<char>, Seq<char>)>::empty());
            assert(r@.cxx_names =~= Seq::<(Seq<char>, Seq<char>)>::empty());
            assert(r@.namespaces =~= Seq::<(Seq<char>, Seq<char>)>::empty());
        }
        r
    }
}

} // verus!
