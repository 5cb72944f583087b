//! The plugin adapter: one plugin's host-supplied callbacks behind the
//! pipeline's plugin capability interface.
//!
//! A plugin is a named bundle of optional callbacks, one per extension
//! point. Each hook follows the same template: when no callback is
//! registered the hook's neutral result is returned and no host call is
//! made; otherwise the native arguments are translated into the callback's
//! argument record, the callback is invoked, its return shape is normalized
//! (see [`crate::shape`]), and the normalized value is translated into the
//! pipeline's result type. A failed call or an illegal return shape becomes
//! a [`BuildError`] tagged with the plugin and hook — never swallowed.
//!
//! The invocation itself is an asynchronous crossing into the host runtime,
//! so each hook is split into decision steps the unverified caller drives:
//! `..._request` says whether and with what arguments to call,
//! `..._response` classifies what came back, and `..._settled` finishes a
//! deferred answer.

use vstd::prelude::*;

use crate::error::{tag_hook, BuildError, HookFailure, HookKind, HostError};
use crate::handle::{released_handle, CallbackHandle};
use crate::outputs::{assets_of, chunks_of, BindingOutputs};
use crate::pipeline;
use crate::pipeline::import_kind_text;
use crate::shape::{
    complete_unit, normalize_value, normalized_unit, HookPoll, RawHostResult, RawUnitResult,
};
use crate::util::{clone_opt_string, clone_vec_string};

verus! {

/// The host-facing form of the resolve-id options record: the import kind
/// is carried as its textual name.
#[derive(PartialEq, Eq, Debug)]
pub struct HookResolveIdArgsOptions {
    pub is_entry: bool,
    pub kind: String,
}

/// What a resolve-id callback returns.
#[derive(PartialEq, Eq, Debug)]
pub struct ResolveIdResult {
    pub id: String,
    pub external: Option<bool>,
}

/// A source map as a host callback hands it over.
#[derive(PartialEq, Eq, Debug)]
pub struct SourceMap {
    pub file: Option<String>,
    pub mappings: String,
    pub names: Vec<String>,
    pub sources: Vec<String>,
    pub sources_content: Vec<String>,
}

/// What a load or transform callback returns.
#[derive(PartialEq, Eq, Debug)]
pub struct SourceResult {
    pub code: String,
    pub map: Option<SourceMap>,
}

/// What a render-chunk callback returns.
#[derive(PartialEq, Eq, Debug)]
pub struct HookRenderChunkOutput {
    pub code: String,
}

/// A chunk before rendering, in the shape host callbacks receive.
#[derive(PartialEq, Eq, Debug)]
pub struct PreRenderedChunk {
    pub is_entry: bool,
    pub is_dynamic_entry: bool,
    pub facade_module_id: Option<String>,
    pub module_ids: Vec<String>,
    pub exports: Vec<String>,
}

/// One module's rendered form, in the shape host callbacks receive.
#[derive(PartialEq, Eq, Debug)]
pub struct BindingRenderedModule {
    pub code: Option<String>,
}

/// A rendered chunk, in the shape host callbacks receive.
#[derive(PartialEq, Eq, Debug)]
pub struct RenderedChunk {
    pub is_entry: bool,
    pub is_dynamic_entry: bool,
    pub facade_module_id: Option<String>,
    pub module_ids: Vec<String>,
    pub exports: Vec<String>,
    pub file_name: String,
    pub modules: Vec<(String, BindingRenderedModule)>,
}

/// The pipeline's form of a resolve-id answer.
pub open spec fn resolve_output_of(v: ResolveIdResult) -> pipeline::HookResolveIdOutput {
    pipeline::HookResolveIdOutput { id: v.id, external: v.external }
}

/// The pipeline's form of a host source map.
pub open spec fn source_map_of(m: SourceMap) -> pipeline::SourceMap {
    pipeline::SourceMap {
        file: m.file,
        mappings: m.mappings,
        names: m.names,
        sources: m.sources,
        sources_content: m.sources_content,
    }
}

/// The pipeline's form of a load or transform answer.
pub open spec fn load_output_of(v: SourceResult) -> pipeline::HookLoadOutput {
    pipeline::HookLoadOutput {
        code: v.code,
        map: match v.map {
            Some(m) => Some(source_map_of(m)),
            None => None,
        },
    }
}

/// The pipeline's form of a render-chunk answer.
pub open spec fn render_output_of(v: HookRenderChunkOutput) -> pipeline::HookRenderChunkOutput {
    pipeline::HookRenderChunkOutput { code: v.code }
}

/// The host-facing form of a chunk before rendering.
pub open spec fn pre_rendered_of(c: pipeline::PreRenderedChunk) -> PreRenderedChunk {
    PreRenderedChunk {
        is_entry: c.is_entry,
        is_dynamic_entry: c.is_dynamic_entry,
        facade_module_id: c.facade_module_id,
        module_ids: c.module_ids,
        exports: c.exports,
    }
}

/// The host-facing form of one rendered module.
pub open spec fn binding_rendered_module_of(m: pipeline::RenderedModule) -> BindingRenderedModule {
    BindingRenderedModule { code: m.code }
}

/// The host-facing form of a chunk's module list, order kept.
pub open spec fn binding_modules_of(s: Seq<(String, pipeline::RenderedModule)>) -> Seq<
    (String, BindingRenderedModule),
> {
    s.map_values(|p: (String, pipeline::RenderedModule)| (p.0, binding_rendered_module_of(p.1)))
}

/// The host-facing options record `b` carries exactly the pipeline options
/// `o`: same entry flag, and the kind's textual name.
pub open spec fn binding_resolve_options_wf(
    b: HookResolveIdArgsOptions,
    o: pipeline::HookResolveIdArgsOptions,
) -> bool {
    b.is_entry == o.is_entry && b.kind@ == import_kind_text(o.kind)
}

/// The host-facing chunk `r` carries exactly the pipeline chunk `c`.
pub open spec fn rendered_chunk_matches(r: RenderedChunk, c: pipeline::RenderedChunk) -> bool {
    &&& r.is_entry == c.is_entry
    &&& r.is_dynamic_entry == c.is_dynamic_entry
    &&& r.facade_module_id == c.facade_module_id
    &&& r.module_ids@ == c.module_ids@
    &&& r.exports@ == c.exports@
    &&& r.file_name == c.file_name
    &&& r.modules@ == binding_modules_of(c.modules@)
}

impl From<ResolveIdResult> for pipeline::HookResolveIdOutput {
    fn from(value: ResolveIdResult) -> (r: pipeline::HookResolveIdOutput) {
        pipeline::HookResolveIdOutput { id: value.id, external: value.external }
    }
}

impl vstd::std_specs::convert::FromSpecImpl<ResolveIdResult> for pipeline::HookResolveIdOutput {
    open spec fn obeys_from_spec() -> bool {
        true
    }

    open spec fn from_spec(v: ResolveIdResult) -> pipeline::HookResolveIdOutput {
        resolve_output_of(v)
    }
}

impl From<SourceMap> for pipeline::SourceMap {
    fn from(value: SourceMap) -> (r: pipeline::SourceMap) {
        pipeline::SourceMap {
            file: value.file,
            mappings: value.mappings,
            names: value.names,
            sources: value.sources,
            sources_content: value.sources_content,
        }
    }
}

impl vstd::std_specs::convert::FromSpecImpl<SourceMap> for pipeline::SourceMap {
    open spec fn obeys_from_spec() -> bool {
        true
    }

    open spec fn from_spec(v: SourceMap) -> pipeline::SourceMap {
        source_map_of(v)
    }
}

impl From<SourceResult> for pipeline::HookLoadOutput {
    fn from(value: SourceResult) -> (r: pipeline::HookLoadOutput) {
        pipeline::HookLoadOutput {
            code: value.code,
            map: match value.map {
                Some(m) => Some(pipeline::SourceMap::from(m)),
                None => None,
            },
        }
    }
}

impl vstd::std_specs::convert::FromSpecImpl<SourceResult> for pipeline::HookLoadOutput {
    open spec fn obeys_from_spec() -> bool {
        true
    }

    open spec fn from_spec(v: SourceResult) -> pipeline::HookLoadOutput {
        load_output_of(v)
    }
}

impl From<HookRenderChunkOutput> for pipeline::HookRenderChunkOutput {
    fn from(value: HookRenderChunkOutput) -> (r: pipeline::HookRenderChunkOutput) {
        pipeline::HookRenderChunkOutput { code: value.code }
    }
}

impl vstd::std_specs::convert::FromSpecImpl<HookRenderChunkOutput> for pipeline::HookRenderChunkOutput {
    open spec fn obeys_from_spec() -> bool {
        true
    }

    open spec fn from_spec(v: HookRenderChunkOutput) -> pipeline::HookRenderChunkOutput {
        render_output_of(v)
    }
}

impl From<pipeline::PreRenderedChunk> for PreRenderedChunk {
    fn from(value: pipeline::PreRenderedChunk) -> (r: PreRenderedChunk) {
        PreRenderedChunk {
            is_entry: value.is_entry,
            is_dynamic_entry: value.is_dynamic_entry,
            facade_module_id: value.facade_module_id,
            module_ids: value.module_ids,
            exports: value.exports,
        }
    }
}

impl vstd::std_specs::convert::FromSpecImpl<pipeline::PreRenderedChunk> for PreRenderedChunk {
    open spec fn obeys_from_spec() -> bool {
        true
    }

    open spec fn from_spec(v: pipeline::PreRenderedChunk) -> PreRenderedChunk {
        pre_rendered_of(v)
    }
}

impl HookResolveIdArgsOptions {
    /// The host-facing copy of a resolve-id options record.
    pub fn from_pipeline(o: &pipeline::HookResolveIdArgsOptions) -> (r: Self)
        ensures
            binding_resolve_options_wf(r, *o),
    {
        HookResolveIdArgsOptions { is_entry: o.is_entry, kind: o.kind.text() }
    }
}

impl RenderedChunk {
    /// The host-facing copy of a rendered chunk. The pipeline's chunk is
    /// only read: hook arguments are copies, never the pipeline's data.
    pub fn from_pipeline(c: &pipeline::RenderedChunk) -> (r: Self)
        ensures
            rendered_chunk_matches(r, *c),
    {
        let mut modules: Vec<(String, BindingRenderedModule)> = Vec::new();
        let mut i: usize = 0;
        while i < c.modules.len()
            invariant
                i <= c.modules.len(),
                modules@.len() == i,
                forall|j: int| 0 <= j < i ==> modules@[j] == binding_modules_of(c.modules@)[j],
            decreases c.modules.len() - i,
        {
            let pair = &c.modules[i];
            modules.push((pair.0.clone(), BindingRenderedModule { code: clone_opt_string(&pair.1.code) }));
            i += 1;
        }
        proof {
            assert(modules@ =~= binding_modules_of(c.modules@));
        }
        RenderedChunk {
            is_entry: c.is_entry,
            is_dynamic_entry: c.is_dynamic_entry,
            facade_module_id: clone_opt_string(&c.facade_module_id),
            module_ids: clone_vec_string(&c.module_ids),
            exports: clone_vec_string(&c.exports),
            file_name: c.file_name.clone(),
            modules,
        }
    }
}

/// The pipeline's form of an optional resolve-id answer.
pub open spec fn resolve_outputs_of(o: Option<ResolveIdResult>) -> Option<
    pipeline::HookResolveIdOutput,
> {
    match o {
        Some(v) => Some(resolve_output_of(v)),
        None => None,
    }
}

/// The pipeline's form of an optional load or transform answer.
pub open spec fn load_outputs_of(o: Option<SourceResult>) -> Option<pipeline::HookLoadOutput> {
    match o {
        Some(v) => Some(load_output_of(v)),
        None => None,
    }
}

/// The pipeline's form of an optional render-chunk answer.
pub open spec fn render_outputs_of(o: Option<HookRenderChunkOutput>) -> Option<
    pipeline::HookRenderChunkOutput,
> {
    match o {
        Some(v) => Some(render_output_of(v)),
        None => None,
    }
}

/// Translates an optional resolve-id answer into the pipeline's form.
pub fn convert_resolve_outputs(o: Option<ResolveIdResult>) -> (r: Option<
    pipeline::HookResolveIdOutput,
>)
    ensures
        r == resolve_outputs_of(o),
{
    match o {
        Some(v) => Some(pipeline::HookResolveIdOutput::from(v)),
        None => None,
    }
}

/// Translates an optional load or transform answer into the pipeline's form.
pub fn convert_load_outputs(o: Option<SourceResult>) -> (r: Option<pipeline::HookLoadOutput>)
    ensures
        r == load_outputs_of(o),
{
    match o {
        Some(v) => Some(pipeline::HookLoadOutput::from(v)),
        None => None,
    }
}

/// Translates an optional render-chunk answer into the pipeline's form.
pub fn convert_render_outputs(o: Option<HookRenderChunkOutput>) -> (r: Option<
    pipeline::HookRenderChunkOutput,
>)
    ensures
        r == render_outputs_of(o),
{
    match o {
        Some(v) => Some(pipeline::HookRenderChunkOutput::from(v)),
        None => None,
    }
}

/// One hook invocation's first decision: either the hook is done at once
/// with its neutral result — no callback registered, no host call made — or
/// this handle must be called with this argument record.
#[derive(PartialEq, Eq, Debug)]
pub enum HookStart<A, R> {
    Done(R),
    Call(CallbackHandle, A),
}

/// One plugin: its name and its optional callbacks, one per extension
/// point. An absent callback means the plugin does not participate in that
/// extension point; the hook then yields its neutral result.
#[derive(Debug)]
pub struct PluginOptions {
    pub name: String,
    pub build_start: Option<CallbackHandle>,
    pub resolve_id: Option<CallbackHandle>,
    pub load: Option<CallbackHandle>,
    pub transform: Option<CallbackHandle>,
    pub build_end: Option<CallbackHandle>,
    pub render_chunk: Option<CallbackHandle>,
    pub generate_bundle: Option<CallbackHandle>,
    pub write_bundle: Option<CallbackHandle>,
}

impl PluginOptions {
    /// Every registered callback of this plugin may still be invoked.
    /// Adapters keep this until the owning build has completed all hook
    /// invocations; only then are the handles released.
    pub open spec fn hooks_live(self) -> bool {
        &&& (self.build_start matches Some(h) ==> h.live)
        &&& (self.resolve_id matches Some(h) ==> h.live)
        &&& (self.load matches Some(h) ==> h.live)
        &&& (self.transform matches Some(h) ==> h.live)
        &&& (self.build_end matches Some(h) ==> h.live)
        &&& (self.render_chunk matches Some(h) ==> h.live)
        &&& (self.generate_bundle matches Some(h) ==> h.live)
        &&& (self.write_bundle matches Some(h) ==> h.live)
    }

    /// Runtime query for [`Self::hooks_live`], for the unverified caller
    /// that must establish it before driving a hook.
    pub fn all_hooks_live(&self) -> (b: bool)
        ensures
            b == self.hooks_live(),
    {
        let b1 = match &self.build_start { Some(h) => h.live, None => true };
        let b2 = match &self.resolve_id { Some(h) => h.live, None => true };
        let b3 = match &self.load { Some(h) => h.live, None => true };
        let b4 = match &self.transform { Some(h) => h.live, None => true };
        let b5 = match &self.build_end { Some(h) => h.live, None => true };
        let b6 = match &self.render_chunk { Some(h) => h.live, None => true };
        let b7 = match &self.generate_bundle { Some(h) => h.live, None => true };
        let b8 = match &self.write_bundle { Some(h) => h.live, None => true };
        b1 && b2 && b3 && b4 && b5 && b6 && b7 && b8
    }

    /// The plugin's name, as carried in error context.
    pub fn name(&self) -> (r: String)
        ensures
            r == self.name,
    {
        self.name.clone()
    }

    /// Releases every registered callback: the plugin stops keeping the
    /// host runtime's event loop alive. To be called only once the owning
    /// build guarantees no further hook invocations; afterwards no hook of
    /// this plugin may be driven again.
    pub fn release_all(&mut self)
        ensures
            final(self).name == old(self).name,
            released_handle(old(self).build_start, final(self).build_start),
            released_handle(old(self).resolve_id, final(self).resolve_id),
            released_handle(old(self).load, final(self).load),
            released_handle(old(self).transform, final(self).transform),
            released_handle(old(self).build_end, final(self).build_end),
            released_handle(old(self).render_chunk, final(self).render_chunk),
            released_handle(old(self).generate_bundle, final(self).generate_bundle),
            released_handle(old(self).write_bundle, final(self).write_bundle),
    {
        match &mut self.build_start { Some(h) => h.release(), None => {} }
        match &mut self.resolve_id { Some(h) => h.release(), None => {} }
        match &mut self.load { Some(h) => h.release(), None => {} }
        match &mut self.transform { Some(h) => h.release(), None => {} }
        match &mut self.build_end { Some(h) => h.release(), None => {} }
        match &mut self.render_chunk { Some(h) => h.release(), None => {} }
        match &mut self.generate_bundle { Some(h) => h.release(), None => {} }
        match &mut self.write_bundle { Some(h) => h.release(), None => {} }
    }
}

impl PluginOptions {
    /// The first decision of the lifecycle-start hook. The callback takes
    /// no argument; the neutral result is unit.
    pub fn build_start_request(&self) -> (r: HookStart<(), ()>)
        requires
            self.build_start matches Some(h) ==> h.live,
        ensures
            self.build_start is None ==> r == HookStart::<(), ()>::Done(()),
            self.build_start matches Some(h) ==> r == HookStart::<(), ()>::Call(h, ()),
    {
        match &self.build_start {
            None => HookStart::Done(()),
            Some(h) => HookStart::Call(*h, ()),
        }
    }

    /// Finishes a deferred lifecycle-start answer.
    pub fn build_start_settled(&self, settled: Result<(), HostError>) -> (r: Result<
        (),
        BuildError,
    >)
        ensures
            r == tag_hook(self.name, HookKind::BuildStart, normalized_unit(RawUnitResult::Deferred, settled)),
    {
        match complete_unit(settled) {
            Ok(u) => Ok(u),
            Err(f) => Err(BuildError::Hook { plugin: self.name.clone(), hook: HookKind::BuildStart, failure: f }),
        }
    }

    /// The first decision of the resolve-id hook: absent callback means the
    /// plugin resolves nothing; otherwise the callback is called with
    /// `(specifier, importer, options)`, the import kind as text.
    pub fn resolve_id_request(&self, args: &pipeline::HookResolveIdArgs) -> (r: HookStart<
        (String, Option<String>, Option<HookResolveIdArgsOptions>),
        Option<pipeline::HookResolveIdOutput>,
    >)
        requires
            self.resolve_id matches Some(h) ==> h.live,
        ensures
            self.resolve_id is None ==> r == HookStart::<
                (String, Option<String>, Option<HookResolveIdArgsOptions>),
                Option<pipeline::HookResolveIdOutput>,
            >::Done(None),
            self.resolve_id matches Some(h) ==> (r matches HookStart::Call(handle, a)
                && handle == h
                && a.0 == args.source
                && a.1 == args.importer
                && (match args.options {
                    Some(o) => a.2 matches Some(b) && binding_resolve_options_wf(b, o),
                    None => a.2 is None,
                })),
    {
        match &self.resolve_id {
            None => HookStart::Done(None),
            Some(h) => {
                let opts = match &args.options {
                    Some(o) => Some(HookResolveIdArgsOptions::from_pipeline(o)),
                    None => None,
                };
                HookStart::Call(*h, (args.source.clone(), clone_opt_string(&args.importer), opts))
            },
        }
    }

    /// Classifies what the resolve-id callback returned: an immediate
    /// answer is translated at once, a deferred one must be awaited, a
    /// malformed one is this hook's invalid-return error.
    pub fn resolve_id_response(&self, raw: RawHostResult<ResolveIdResult>) -> (r: Result<
        HookPoll<Option<pipeline::HookResolveIdOutput>>,
        BuildError,
    >)
        ensures
            raw is Deferred ==> r == Ok::<HookPoll<Option<pipeline::HookResolveIdOutput>>, BuildError>(
                HookPoll::Pending,
            ),
            raw matches RawHostResult::Value(v) ==> r == Ok::<
                HookPoll<Option<pipeline::HookResolveIdOutput>>,
                BuildError,
            >(HookPoll::Ready(Some(resolve_output_of(v)))),
            raw is Absent ==> r == Ok::<HookPoll<Option<pipeline::HookResolveIdOutput>>, BuildError>(
                HookPoll::Ready(None),
            ),
            raw is Unrecognized ==> r == Err::<
                HookPoll<Option<pipeline::HookResolveIdOutput>>,
                BuildError,
            >((BuildError::Hook {
                plugin: self.name,
                hook: HookKind::ResolveId,
                failure: HookFailure::InvalidReturn,
            })),
    {
        match normalize_value(raw) {
            Ok(HookPoll::Pending) => Ok(HookPoll::Pending),
            Ok(HookPoll::Ready(o)) => Ok(HookPoll::Ready(convert_resolve_outputs(o))),
            Err(f) => Err(BuildError::Hook { plugin: self.name.clone(), hook: HookKind::ResolveId, failure: f }),
        }
    }

    /// Finishes a deferred resolve-id answer.
    pub fn resolve_id_settled(&self, settled: Result<Option<ResolveIdResult>, HostError>) -> (r:
        Result<Option<pipeline::HookResolveIdOutput>, BuildError>)
        ensures
            settled matches Ok(o) ==> r == Ok::<Option<pipeline::HookResolveIdOutput>, BuildError>(
                resolve_outputs_of(o),
            ),
            settled matches Err(e) ==> r == Err::<Option<pipeline::HookResolveIdOutput>, BuildError>(
                (BuildError::Hook {
                    plugin: self.name,
                    hook: HookKind::ResolveId,
                    failure: HookFailure::Host { message: e.message },
                }),
            ),
    {
        match settled {
            Ok(o) => Ok(convert_resolve_outputs(o)),
            Err(e) => Err(BuildError::Hook {
                plugin: self.name.clone(),
                hook: HookKind::ResolveId,
                failure: HookFailure::Host { message: e.message },
            }),
        }
    }

    /// The first decision of the load hook: the callback receives the
    /// module id.
    pub fn load_request(&self, args: &pipeline::HookLoadArgs) -> (r: HookStart<
        String,
        Option<pipeline::HookLoadOutput>,
    >)
        requires
            self.load matches Some(h) ==> h.live,
        ensures
            self.load is None ==> r == HookStart::<String, Option<pipeline::HookLoadOutput>>::Done(
                None,
            ),
            self.load matches Some(h) ==> (r matches HookStart::Call(handle, a) && handle == h
                && a == args.id),
    {
        match &self.load {
            None => HookStart::Done(None),
            Some(h) => HookStart::Call(*h, args.id.clone()),
        }
    }

    /// Classifies what the load callback returned.
    pub fn load_response(&self, raw: RawHostResult<SourceResult>) -> (r: Result<
        HookPoll<Option<pipeline::HookLoadOutput>>,
        BuildError,
    >)
        ensures
            raw is Deferred ==> r == Ok::<HookPoll<Option<pipeline::HookLoadOutput>>, BuildError>(
                HookPoll::Pending,
            ),
            raw matches RawHostResult::Value(v) ==> r == Ok::<
                HookPoll<Option<pipeline::HookLoadOutput>>,
                BuildError,
            >(HookPoll::Ready(Some(load_output_of(v)))),
            raw is Absent ==> r == Ok::<HookPoll<Option<pipeline::HookLoadOutput>>, BuildError>(
                HookPoll::Ready(None),
            ),
            raw is Unrecognized ==> r == Err::<
                HookPoll<Option<pipeline::HookLoadOutput>>,
                BuildError,
            >((BuildError::Hook {
                plugin: self.name,
                hook: HookKind::Load,
                failure: HookFailure::InvalidReturn,
            })),
    {
        match normalize_value(raw) {
            Ok(HookPoll::Pending) => Ok(HookPoll::Pending),
            Ok(HookPoll::Ready(o)) => Ok(HookPoll::Ready(convert_load_outputs(o))),
            Err(f) => Err(BuildError::Hook { plugin: self.name.clone(), hook: HookKind::Load, failure: f }),
        }
    }

    /// Finishes a deferred load answer.
    pub fn load_settled(&self, settled: Result<Option<SourceResult>, HostError>) -> (r: Result<
        Option<pipeline::HookLoadOutput>,
        BuildError,
    >)
        ensures
            settled matches Ok(o) ==> r == Ok::<Option<pipeline::HookLoadOutput>, BuildError>(
                load_outputs_of(o),
            ),
            settled matches Err(e) ==> r == Err::<Option<pipeline::HookLoadOutput>, BuildError>(
                (BuildError::Hook {
                    plugin: self.name,
                    hook: HookKind::Load,
                    failure: HookFailure::Host { message: e.message },
                }),
            ),
    {
        match settled {
            Ok(o) => Ok(convert_load_outputs(o)),
            Err(e) => Err(BuildError::Hook {
                plugin: self.name.clone(),
                hook: HookKind::Load,
                failure: HookFailure::Host { message: e.message },
            }),
        }
    }

    /// The first decision of the transform hook: the callback's argument
    /// record carries the module id first, then the code.
    pub fn transform_request(&self, args: &pipeline::HookTransformArgs) -> (r: HookStart<
        (String, String),
        Option<pipeline::HookLoadOutput>,
    >)
        requires
            self.transform matches Some(h) ==> h.live,
        ensures
            self.transform is None ==> r == HookStart::<
                (String, String),
                Option<pipeline::HookLoadOutput>,
            >::Done(None),
            self.transform matches Some(h) ==> (r matches HookStart::Call(handle, a) && handle == h
                && a.0 == args.id && a.1 == args.code),
    {
        match &self.transform {
            None => HookStart::Done(None),
            Some(h) => HookStart::Call(*h, (args.id.clone(), args.code.clone())),
        }
    }

    /// Classifies what the transform callback returned.
    pub fn transform_response(&self, raw: RawHostResult<SourceResult>) -> (r: Result<
        HookPoll<Option<pipeline::HookLoadOutput>>,
        BuildError,
    >)
        ensures
            raw is Deferred ==> r == Ok::<HookPoll<Option<pipeline::HookLoadOutput>>, BuildError>(
                HookPoll::Pending,
            ),
            raw matches RawHostResult::Value(v) ==> r == Ok::<
                HookPoll<Option<pipeline::HookLoadOutput>>,
                BuildError,
            >(HookPoll::Ready(Some(load_output_of(v)))),
            raw is Absent ==> r == Ok::<HookPoll<Option<pipeline::HookLoadOutput>>, BuildError>(
                HookPoll::Ready(None),
            ),
            raw is Unrecognized ==> r == Err::<
                HookPoll<Option<pipeline::HookLoadOutput>>,
                BuildError,
            >((BuildError::Hook {
                plugin: self.name,
                hook: HookKind::Transform,
                failure: HookFailure::InvalidReturn,
            })),
    {
        match normalize_value(raw) {
            Ok(HookPoll::Pending) => Ok(HookPoll::Pending),
            Ok(HookPoll::Ready(o)) => Ok(HookPoll::Ready(convert_load_outputs(o))),
            Err(f) => Err(BuildError::Hook { plugin: self.name.clone(), hook: HookKind::Transform, failure: f }),
        }
    }

    /// Finishes a deferred transform answer.
    pub fn transform_settled(&self, settled: Result<Option<SourceResult>, HostError>) -> (r: Result<
        Option<pipeline::HookLoadOutput>,
        BuildError,
    >)
        ensures
            settled matches Ok(o) ==> r == Ok::<Option<pipeline::HookLoadOutput>, BuildError>(
                load_outputs_of(o),
            ),
            settled matches Err(e) ==> r == Err::<Option<pipeline::HookLoadOutput>, BuildError>(
                (BuildError::Hook {
                    plugin: self.name,
                    hook: HookKind::Transform,
                    failure: HookFailure::Host { message: e.message },
                }),
            ),
    {
        match settled {
            Ok(o) => Ok(convert_load_outputs(o)),
            Err(e) => Err(BuildError::Hook {
                plugin: self.name.clone(),
                hook: HookKind::Transform,
                failure: HookFailure::Host { message: e.message },
            }),
        }
    }

    /// The first decision of the lifecycle-end hook: the callback receives
    /// the ending error's message, when the build ended with one.
    pub fn build_end_request(&self, args: &Option<pipeline::HookBuildEndArgs>) -> (r: HookStart<
        Option<String>,
        (),
    >)
        requires
            self.build_end matches Some(h) ==> h.live,
        ensures
            self.build_end is None ==> r == HookStart::<Option<String>, ()>::Done(()),
            self.build_end matches Some(h) ==> (r matches HookStart::Call(handle, m) && handle == h
                && m == (match *args {
                    Some(a) => Some(a.error),
                    None => None::<String>,
                })),
    {
        match &self.build_end {
            None => HookStart::Done(()),
            Some(h) => {
                let message = match args {
                    Some(a) => Some(a.error.clone()),
                    None => None,
                };
                HookStart::Call(*h, message)
            },
        }
    }

    /// Finishes a deferred lifecycle-end answer.
    pub fn build_end_settled(&self, settled: Result<(), HostError>) -> (r: Result<(), BuildError>)
        ensures
            r == tag_hook(self.name, HookKind::BuildEnd, normalized_unit(RawUnitResult::Deferred, settled)),
    {
        match complete_unit(settled) {
            Ok(u) => Ok(u),
            Err(f) => Err(BuildError::Hook { plugin: self.name.clone(), hook: HookKind::BuildEnd, failure: f }),
        }
    }

    /// The first decision of the render-chunk hook: the callback receives
    /// the chunk's code and a copy of the chunk descriptor.
    pub fn render_chunk_request(&self, args: &pipeline::RenderChunkArgs) -> (r: HookStart<
        (String, RenderedChunk),
        Option<pipeline::HookRenderChunkOutput>,
    >)
        requires
            self.render_chunk matches Some(h) ==> h.live,
        ensures
            self.render_chunk is None ==> r == HookStart::<
                (String, RenderedChunk),
                Option<pipeline::HookRenderChunkOutput>,
            >::Done(None),
            self.render_chunk matches Some(h) ==> (r matches HookStart::Call(handle, a)
                && handle == h
                && a.0 == args.code
                && rendered_chunk_matches(a.1, args.chunk)),
    {
        match &self.render_chunk {
            None => HookStart::Done(None),
            Some(h) => HookStart::Call(
                *h,
                (args.code.clone(), RenderedChunk::from_pipeline(&args.chunk)),
            ),
        }
    }

    /// Classifies what the render-chunk callback returned.
    pub fn render_chunk_response(&self, raw: RawHostResult<HookRenderChunkOutput>) -> (r: Result<
        HookPoll<Option<pipeline::HookRenderChunkOutput>>,
        BuildError,
    >)
        ensures
            raw is Deferred ==> r == Ok::<
                HookPoll<Option<pipeline::HookRenderChunkOutput>>,
                BuildError,
            >(HookPoll::Pending),
            raw matches RawHostResult::Value(v) ==> r == Ok::<
                HookPoll<Option<pipeline::HookRenderChunkOutput>>,
                BuildError,
            >(HookPoll::Ready(Some(render_output_of(v)))),
            raw is Absent ==> r == Ok::<
                HookPoll<Option<pipeline::HookRenderChunkOutput>>,
                BuildError,
            >(HookPoll::Ready(None)),
            raw is Unrecognized ==> r == Err::<
                HookPoll<Option<pipeline::HookRenderChunkOutput>>,
                BuildError,
            >((BuildError::Hook {
                plugin: self.name,
                hook: HookKind::RenderChunk,
                failure: HookFailure::InvalidReturn,
            })),
    {
        match normalize_value(raw) {
            Ok(HookPoll::Pending) => Ok(HookPoll::Pending),
            Ok(HookPoll::Ready(o)) => Ok(HookPoll::Ready(convert_render_outputs(o))),
            Err(f) => Err(BuildError::Hook { plugin: self.name.clone(), hook: HookKind::RenderChunk, failure: f }),
        }
    }

    /// Finishes a deferred render-chunk answer.
    pub fn render_chunk_settled(
        &self,
        settled: Result<Option<HookRenderChunkOutput>, HostError>,
    ) -> (r: Result<Option<pipeline::HookRenderChunkOutput>, BuildError>)
        ensures
            settled matches Ok(o) ==> r == Ok::<
                Option<pipeline::HookRenderChunkOutput>,
                BuildError,
            >(render_outputs_of(o)),
            settled matches Err(e) ==> r == Err::<
                Option<pipeline::HookRenderChunkOutput>,
                BuildError,
            >((BuildError::Hook {
                plugin: self.name,
                hook: HookKind::RenderChunk,
                failure: HookFailure::Host { message: e.message },
            })),
    {
        match settled {
            Ok(o) => Ok(convert_render_outputs(o)),
            Err(e) => Err(BuildError::Hook {
                plugin: self.name.clone(),
                hook: HookKind::RenderChunk,
                failure: HookFailure::Host { message: e.message },
            }),
        }
    }

    /// The first decision of the bundle-generated hook: the callback
    /// receives a copy of the output set and the write flag.
    pub fn generate_bundle_request(&self, bundle: &Vec<pipeline::Output>, is_write: bool) -> (r:
        HookStart<(BindingOutputs, bool), ()>)
        requires
            self.generate_bundle matches Some(h) ==> h.live,
        ensures
            self.generate_bundle is None ==> r == HookStart::<(BindingOutputs, bool), ()>::Done(()),
            self.generate_bundle matches Some(h) ==> (r matches HookStart::Call(handle, a)
                && handle == h
                && a.0.chunks@ == chunks_of(bundle@)
                && a.0.assets@ == assets_of(bundle@)
                && a.1 == is_write),
    {
        match &self.generate_bundle {
            None => HookStart::Done(()),
            Some(h) => HookStart::Call(*h, (BindingOutputs::from_outputs(bundle), is_write)),
        }
    }

    /// Finishes a deferred bundle-generated answer.
    pub fn generate_bundle_settled(&self, settled: Result<(), HostError>) -> (r: Result<
        (),
        BuildError,
    >)
        ensures
            r == tag_hook(self.name, HookKind::GenerateBundle, normalized_unit(RawUnitResult::Deferred, settled)),
    {
        match complete_unit(settled) {
            Ok(u) => Ok(u),
            Err(f) => Err(BuildError::Hook { plugin: self.name.clone(), hook: HookKind::GenerateBundle, failure: f }),
        }
    }

    /// The first decision of the bundle-written hook: the callback receives
    /// a copy of the output set.
    pub fn write_bundle_request(&self, bundle: &Vec<pipeline::Output>) -> (r: HookStart<
        BindingOutputs,
        (),
    >)
        requires
            self.write_bundle matches Some(h) ==> h.live,
        ensures
            self.write_bundle is None ==> r == HookStart::<BindingOutputs, ()>::Done(()),
            self.write_bundle matches Some(h) ==> (r matches HookStart::Call(handle, a)
                && handle == h
                && a.chunks@ == chunks_of(bundle@)
                && a.assets@ == assets_of(bundle@)),
    {
        match &self.write_bundle {
            None => HookStart::Done(()),
            Some(h) => HookStart::Call(*h, BindingOutputs::from_outputs(bundle)),
        }
    }

    /// Finishes a deferred bundle-written answer.
    pub fn write_bundle_settled(&self, settled: Result<(), HostError>) -> (r: Result<
        (),
        BuildError,
    >)
        ensures
            r == tag_hook(self.name, HookKind::WriteBundle, normalized_unit(RawUnitResult::Deferred, settled)),
    {
        match complete_unit(settled) {
            Ok(u) => Ok(u),
            Err(f) => Err(BuildError::Hook { plugin: self.name.clone(), hook: HookKind::WriteBundle, failure: f }),
        }
    }
}

} // verus!
