//! The native pipeline's side of the bridge, as plain data.
//!
//! The build pipeline itself — resolution, loading, tree-shaking, chunk and
//! output generation — is an external collaborator; only the shapes it
//! exchanges with the plugin adapters matter here. This module models those
//! shapes: the configuration record the option translation produces, the
//! argument records hook invocations carry in, and the result records the
//! adapters hand back.

use vstd::prelude::*;

use crate::external::ExternalAdapter;

verus! {

/// One entry point of the build.
#[derive(PartialEq, Eq, Debug)]
pub struct InputItem {
    pub name: Option<String>,
    pub import: String,
}

/// Module-resolution rules, passed through from the host configuration
/// without semantic change. Alias entries keep the order the host gave.
#[derive(PartialEq, Eq, Debug)]
pub struct ResolverOptions {
    pub alias: Option<Vec<(String, Vec<String>)>>,
    pub alias_fields: Option<Vec<Vec<String>>>,
    pub condition_names: Option<Vec<String>>,
    pub exports_fields: Option<Vec<Vec<String>>>,
    pub extensions: Option<Vec<String>>,
    pub main_fields: Option<Vec<String>>,
    pub main_files: Option<Vec<String>>,
    pub modules: Option<Vec<String>>,
    pub symlinks: Option<bool>,
}

/// Why a module is being resolved.
#[derive(Clone, Copy, PartialEq, Eq, Debug)]
pub enum ImportKind {
    Import,
    DynamicImport,
    Require,
}

/// The textual name of an import kind, as host callbacks see it.
pub open spec fn import_kind_text(k: ImportKind) -> Seq<char> {
    match k {
        ImportKind::Import => "import"@,
        ImportKind::DynamicImport => "dynamic-import"@,
        ImportKind::Require => "require"@,
    }
}

impl ImportKind {
    /// The textual name of the kind, for the host-facing argument record.
    pub fn text(&self) -> (r: String)
        ensures
            r@ == import_kind_text(*self),
    {
        match self {
            ImportKind::Import => String::from_str("import"),
            ImportKind::DynamicImport => String::from_str("dynamic-import"),
            ImportKind::Require => String::from_str("require"),
        }
    }
}

/// The structured options of a resolve-id hook invocation.
#[derive(Clone, Copy, PartialEq, Eq, Debug)]
pub struct HookResolveIdArgsOptions {
    pub is_entry: bool,
    pub kind: ImportKind,
}

/// Arguments of a resolve-id hook invocation.
#[derive(PartialEq, Eq, Debug)]
pub struct HookResolveIdArgs {
    pub source: String,
    pub importer: Option<String>,
    pub options: Option<HookResolveIdArgsOptions>,
}

/// Arguments of a load hook invocation.
#[derive(PartialEq, Eq, Debug)]
pub struct HookLoadArgs {
    pub id: String,
}

/// Arguments of a transform hook invocation.
#[derive(PartialEq, Eq, Debug)]
pub struct HookTransformArgs {
    pub id: String,
    pub code: String,
}

/// Arguments of a build-end hook invocation: the message of the error that
/// ended the build, when one did.
#[derive(PartialEq, Eq, Debug)]
pub struct HookBuildEndArgs {
    pub error: String,
}

/// A source map attached to loaded or transformed code. Only its structure
/// matters to the bridge; it is carried through unchanged.
#[derive(PartialEq, Eq, Debug)]
pub struct SourceMap {
    pub file: Option<String>,
    pub mappings: String,
    pub names: Vec<String>,
    pub sources: Vec<String>,
    pub sources_content: Vec<String>,
}

/// What a resolve-id hook resolves: a module id, and optionally an override
/// of the externality decision.
#[derive(PartialEq, Eq, Debug)]
pub struct HookResolveIdOutput {
    pub id: String,
    pub external: Option<bool>,
}

/// What a load or transform hook produces: source code with an optional
/// source map.
#[derive(PartialEq, Eq, Debug)]
pub struct HookLoadOutput {
    pub code: String,
    pub map: Option<SourceMap>,
}

/// What a render-chunk hook produces: replacement code for the chunk.
#[derive(PartialEq, Eq, Debug)]
pub struct HookRenderChunkOutput {
    pub code: String,
}

/// A chunk before rendering.
#[derive(PartialEq, Eq, Debug)]
pub struct PreRenderedChunk {
    pub is_entry: bool,
    pub is_dynamic_entry: bool,
    pub facade_module_id: Option<String>,
    pub module_ids: Vec<String>,
    pub exports: Vec<String>,
}

/// One module's rendered form inside a chunk.
#[derive(PartialEq, Eq, Debug)]
pub struct RenderedModule {
    pub code: Option<String>,
}

/// A rendered chunk, as the pipeline hands it to the render-chunk hook.
/// Modules keep the order the pipeline produced them in.
#[derive(PartialEq, Eq, Debug)]
pub struct RenderedChunk {
    pub is_entry: bool,
    pub is_dynamic_entry: bool,
    pub facade_module_id: Option<String>,
    pub module_ids: Vec<String>,
    pub exports: Vec<String>,
    pub file_name: String,
    pub modules: Vec<(String, RenderedModule)>,
}

/// Arguments of a render-chunk hook invocation.
#[derive(PartialEq, Eq, Debug)]
pub struct RenderChunkArgs {
    pub code: String,
    pub chunk: RenderedChunk,
}

/// An emitted chunk of the bundle.
#[derive(PartialEq, Eq, Debug)]
pub struct OutputChunk {
    pub file_name: String,
    pub code: String,
}

/// An emitted asset of the bundle.
#[derive(PartialEq, Eq, Debug)]
pub struct OutputAsset {
    pub file_name: String,
    pub source: String,
}

/// One item of the bundle's output set.
#[derive(PartialEq, Eq, Debug)]
pub enum Output {
    Chunk(OutputChunk),
    Asset(OutputAsset),
}

/// The pipeline configuration the option translation produces. Built once
/// per build invocation; immutable thereafter. Tree-shaking is fixed off in
/// this snapshot of the configuration: it is not yet wired through the
/// translation, a documented limitation rather than a choice the host can
/// make.
#[derive(Debug)]
pub struct InputOptions {
    pub input: Vec<InputItem>,
    pub cwd: String,
    pub external: Option<ExternalAdapter>,
    pub treeshake: bool,
    pub resolve: Option<ResolverOptions>,
}

} // verus!
