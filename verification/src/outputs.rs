//! The host-facing copy of the bundle's output set, handed to the
//! bundle-generated and bundle-written hooks.

use vstd::prelude::*;

use crate::pipeline::{Output, OutputAsset, OutputChunk};

verus! {

/// One emitted chunk, in the shape host callbacks receive.
#[derive(PartialEq, Eq, Debug)]
pub struct BindingOutputChunk {
    pub file_name: String,
    pub code: String,
}

/// One emitted asset, in the shape host callbacks receive.
#[derive(PartialEq, Eq, Debug)]
pub struct BindingOutputAsset {
    pub file_name: String,
    pub source: String,
}

/// The output set of a bundle, chunks and assets apart, each side in the
/// order the pipeline emitted them.
#[derive(PartialEq, Eq, Debug)]
pub struct BindingOutputs {
    pub chunks: Vec<BindingOutputChunk>,
    pub assets: Vec<BindingOutputAsset>,
}

/// The host-facing form of one chunk.
pub open spec fn binding_chunk_of(c: OutputChunk) -> BindingOutputChunk {
    BindingOutputChunk { file_name: c.file_name, code: c.code }
}

/// The host-facing form of one asset.
pub open spec fn binding_asset_of(a: OutputAsset) -> BindingOutputAsset {
    BindingOutputAsset { file_name: a.file_name, source: a.source }
}

/// The chunks of an output set, in order, in their host-facing form.
pub open spec fn chunks_of(s: Seq<Output>) -> Seq<BindingOutputChunk>
    decreases s.len(),
{
    if s.len() == 0 {
        Seq::empty()
    } else {
        chunks_of(s.drop_last()) + (match s.last() {
            Output::Chunk(c) => seq![binding_chunk_of(c)],
            Output::Asset(_) => Seq::empty(),
        })
    }
}

/// The assets of an output set, in order, in their host-facing form.
pub open spec fn assets_of(s: Seq<Output>) -> Seq<BindingOutputAsset>
    decreases s.len(),
{
    if s.len() == 0 {
        Seq::empty()
    } else {
        assets_of(s.drop_last()) + (match s.last() {
            Output::Chunk(_) => Seq::empty(),
            Output::Asset(a) => seq![binding_asset_of(a)],
        })
    }
}

impl BindingOutputs {
    /// Builds the host-facing copy of an output set. The pipeline's own set
    /// is only read: hook arguments are copies, never the pipeline's data.
    pub fn from_outputs(bundle: &Vec<Output>) -> (r: BindingOutputs)
        ensures
            r.chunks@ == chunks_of(bundle@),
            r.assets@ == assets_of(bundle@),
    {
        let mut chunks: Vec<BindingOutputChunk> = Vec::new();
        let mut assets: Vec<BindingOutputAsset> = Vec::new();
        let mut i: usize = 0;
        while i < bundle.len()
            invariant
                i <= bundle.len(),
                chunks@ == chunks_of(bundle@.take(i as int)),
                assets@ == assets_of(bundle@.take(i as int)),
            decreases bundle.len() - i,
        {
            proof {
                assert(bundle@.take(i + 1).drop_last() =~= bundle@.take(i as int));
                assert(bundle@.take(i + 1).last() == bundle@[i as int]);
            }
            match &bundle[i] {
                Output::Chunk(c) => {
                    chunks.push(
                        BindingOutputChunk { file_name: c.file_name.clone(), code: c.code.clone() },
                    );
                    proof {
                        assert(chunks@ =~= chunks_of(bundle@.take(i + 1)));
                        assert(assets@ =~= assets_of(bundle@.take(i + 1)));
                    }
                },
                Output::Asset(a) => {
                    assets.push(
                        BindingOutputAsset { file_name: a.file_name.clone(), source: a.source.clone() },
                    );
                    proof {
                        assert(chunks@ =~= chunks_of(bundle@.take(i + 1)));
                        assert(assets@ =~= assets_of(bundle@.take(i + 1)));
                    }
                },
            }
            i += 1;
        }
        proof {
            assert(bundle@.take(bundle@.len() as int) =~= bundle@);
        }
        BindingOutputs { chunks, assets }
    }
}

} // verus!
