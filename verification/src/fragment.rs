//! Generated text fragments and their per-owner aggregate.

use vstd::prelude::*;

verus! {

/// A generated piece of C++ text: a declaration-only blob destined for the
/// header surface, or a paired declaration and definition.
#[derive(Clone, Debug, PartialEq, Eq)]
pub enum CppFragment {
    Header(String),
    Pair { header: String, source: String },
}

/// Mathematical model of a fragment: the same shape over character sequences.
pub ghost enum FragmentModel {
    Header(Seq<char>),
    Pair { header: Seq<char>, source: Seq<char> },
}

impl View for CppFragment {
    type V = FragmentModel;

    open spec fn view(&self) -> FragmentModel {
        match self {
            CppFragment::Header(s) => FragmentModel::Header(s@),
            CppFragment::Pair { header, source } => FragmentModel::Pair {
                header: header@,
                source: source@,
            },
        }
    }
}

/// The ordered aggregate of fragments generated for one owner type, consumed
/// by a later emission stage.
#[derive(Clone, Debug, PartialEq, Eq)]
pub struct GeneratedCppQObjectBlocks {
    pub methods: Vec<CppFragment>,
}

/// Mathematical model of the aggregate.
pub ghost struct GeneratedBlocksModel {
    pub methods: Seq<FragmentModel>,
}

/// The models of a sequence of fragments.
pub open spec fn fragments_view(fragments: Seq<CppFragment>) -> Seq<FragmentModel> {
    fragments.map_values(|f: CppFragment| f@)
}

impl View for GeneratedCppQObjectBlocks {
    type V = GeneratedBlocksModel;

    open spec fn view(&self) -> GeneratedBlocksModel {
        GeneratedBlocksModel { methods: fragments_view(self.methods@) }
    }
}

impl Default for GeneratedCppQObjectBlocks {
    /// An aggregate holding no fragments yet.
    fn default() -> (r: Self)
        ensures
            r@.methods == Seq::<FragmentModel>::empty(),
    {
        let r = GeneratedCppQObjectBlocks { methods: Vec::new() };
        proof {
            assert(r@.methods =~= Seq::<FragmentModel>::empty());
        }
        r
    }
}

} // verus!
