//! The plugin adapter: absent callbacks are no-ops, present ones get
//! translated arguments, and every answer shape ends in the right native
//! result or error.

use rolldown_binding::error::{BuildError, ErrorStatus, HookFailure, HookKind, HostError};
use rolldown_binding::handle::CallbackHandle;
use rolldown_binding::outputs::BindingOutputs;
use rolldown_binding::pipeline;
use rolldown_binding::plugin::{
    BindingRenderedModule, HookRenderChunkOutput, HookStart, PluginOptions, RenderedChunk,
    ResolveIdResult, SourceResult,
};
use rolldown_binding::shape::{HookPoll, RawHostResult, RawUnitResult};

fn plugin(name: &str) -> PluginOptions {
    PluginOptions {
        name: name.to_string(),
        build_start: None,
        resolve_id: None,
        load: None,
        transform: None,
        build_end: None,
        render_chunk: None,
        generate_bundle: None,
        write_bundle: None,
    }
}

#[test]
fn absent_build_start_is_a_noop() {
    // no callback registered: the hook completes with unit, no host call
    let p = plugin("empty");
    assert_eq!(p.build_start_request(), HookStart::Done(()));
}

#[test]
fn absent_hooks_yield_neutral_results() {
    let p = plugin("empty");
    let resolve_args = pipeline::HookResolveIdArgs {
        source: "a".to_string(),
        importer: None,
        options: None,
    };
    assert_eq!(p.resolve_id_request(&resolve_args), HookStart::Done(None));
    assert_eq!(
        p.load_request(&pipeline::HookLoadArgs { id: "/a.js".to_string() }),
        HookStart::Done(None)
    );
    assert_eq!(
        p.transform_request(&pipeline::HookTransformArgs {
            id: "/a.js".to_string(),
            code: "x".to_string(),
        }),
        HookStart::Done(None)
    );
    assert_eq!(p.build_end_request(&None), HookStart::Done(()));
    assert_eq!(p.generate_bundle_request(&Vec::new(), true), HookStart::Done(()));
    assert_eq!(p.write_bundle_request(&Vec::new()), HookStart::Done(()));
}

#[test]
fn resolve_id_immediate_value_round_trip() {
    // the callback answers immediately, no deferred wrapper
    let mut p = plugin("resolver");
    p.resolve_id = Some(CallbackHandle::new(1));
    let args = pipeline::HookResolveIdArgs {
        source: "a".to_string(),
        importer: None,
        options: None,
    };
    match p.resolve_id_request(&args) {
        HookStart::Call(handle, call_args) => {
            assert_eq!(handle.id, 1);
            assert_eq!(call_args, ("a".to_string(), None, None));
        }
        HookStart::Done(_) => panic!("a registered callback must be called"),
    }
    let r = p.resolve_id_response(RawHostResult::Value(ResolveIdResult {
        id: "/a.js".to_string(),
        external: Some(true),
    }));
    assert_eq!(
        r,
        Ok(HookPoll::Ready(Some(pipeline::HookResolveIdOutput {
            id: "/a.js".to_string(),
            external: Some(true),
        })))
    );
}

#[test]
fn resolve_id_translates_options_record() {
    let mut p = plugin("resolver");
    p.resolve_id = Some(CallbackHandle::new(1));
    let args = pipeline::HookResolveIdArgs {
        source: "./dep".to_string(),
        importer: Some("/entry.js".to_string()),
        options: Some(pipeline::HookResolveIdArgsOptions {
            is_entry: true,
            kind: pipeline::ImportKind::DynamicImport,
        }),
    };
    match p.resolve_id_request(&args) {
        HookStart::Call(_, (source, importer, options)) => {
            assert_eq!(source, "./dep".to_string());
            assert_eq!(importer, Some("/entry.js".to_string()));
            let o = options.expect("options are handed through");
            assert!(o.is_entry);
            assert_eq!(o.kind, "dynamic-import".to_string());
        }
        HookStart::Done(_) => panic!("a registered callback must be called"),
    }
}

#[test]
fn import_kind_names() {
    assert_eq!(pipeline::ImportKind::Import.text(), "import".to_string());
    assert_eq!(pipeline::ImportKind::DynamicImport.text(), "dynamic-import".to_string());
    assert_eq!(pipeline::ImportKind::Require.text(), "require".to_string());
}

#[test]
fn load_deferred_value_resolves() {
    // the callback returns a deferred value that settles to code
    let mut p = plugin("loader");
    p.load = Some(CallbackHandle::new(2));
    match p.load_request(&pipeline::HookLoadArgs { id: "/a.js".to_string() }) {
        HookStart::Call(handle, id) => {
            assert_eq!(handle.id, 2);
            assert_eq!(id, "/a.js".to_string());
        }
        HookStart::Done(_) => panic!("a registered callback must be called"),
    }
    assert_eq!(p.load_response(RawHostResult::Deferred), Ok(HookPoll::Pending));
    let r = p.load_settled(Ok(Some(SourceResult {
        code: "export default 1".to_string(),
        map: None,
    })));
    assert_eq!(
        r,
        Ok(Some(pipeline::HookLoadOutput { code: "export default 1".to_string(), map: None }))
    );
}

#[test]
fn transform_arguments_carry_id_then_code() {
    let mut p = plugin("transformer");
    p.transform = Some(CallbackHandle::new(4));
    let args = pipeline::HookTransformArgs {
        id: "/a.js".to_string(),
        code: "let x = 1".to_string(),
    };
    match p.transform_request(&args) {
        HookStart::Call(_, pair) => {
            assert_eq!(pair, ("/a.js".to_string(), "let x = 1".to_string()));
        }
        HookStart::Done(_) => panic!("a registered callback must be called"),
    }
}

#[test]
fn malformed_shape_is_invalid_hook_return() {
    let mut p = plugin("resolver");
    p.resolve_id = Some(CallbackHandle::new(1));
    let r = p.resolve_id_response(RawHostResult::Unrecognized);
    assert_eq!(
        r,
        Err(BuildError::Hook {
            plugin: "resolver".to_string(),
            hook: HookKind::ResolveId,
            failure: HookFailure::InvalidReturn,
        })
    );
}

#[test]
fn host_failure_is_tagged_with_plugin_and_hook() {
    let mut p = plugin("loader");
    p.load = Some(CallbackHandle::new(2));
    let r = p.load_settled(Err(HostError { message: "threw".to_string() }));
    assert_eq!(
        r,
        Err(BuildError::Hook {
            plugin: "loader".to_string(),
            hook: HookKind::Load,
            failure: HookFailure::Host { message: "threw".to_string() },
        })
    );
    let r = p.build_start_settled(Err(HostError { message: "no".to_string() }));
    assert_eq!(
        r,
        Err(BuildError::Hook {
            plugin: "loader".to_string(),
            hook: HookKind::BuildStart,
            failure: HookFailure::Host { message: "no".to_string() },
        })
    );
}

#[test]
fn render_chunk_copies_the_chunk_descriptor() {
    let mut p = plugin("renderer");
    p.render_chunk = Some(CallbackHandle::new(5));
    let args = pipeline::RenderChunkArgs {
        code: "bundle code".to_string(),
        chunk: pipeline::RenderedChunk {
            is_entry: true,
            is_dynamic_entry: false,
            facade_module_id: Some("/entry.js".to_string()),
            module_ids: vec!["/entry.js".to_string(), "/dep.js".to_string()],
            exports: vec!["default".to_string()],
            file_name: "out.js".to_string(),
            modules: vec![(
                "/entry.js".to_string(),
                pipeline::RenderedModule { code: Some("code".to_string()) },
            )],
        },
    };
    match p.render_chunk_request(&args) {
        HookStart::Call(_, (code, chunk)) => {
            assert_eq!(code, "bundle code".to_string());
            let expected = RenderedChunk {
                is_entry: true,
                is_dynamic_entry: false,
                facade_module_id: Some("/entry.js".to_string()),
                module_ids: vec!["/entry.js".to_string(), "/dep.js".to_string()],
                exports: vec!["default".to_string()],
                file_name: "out.js".to_string(),
                modules: vec![(
                    "/entry.js".to_string(),
                    BindingRenderedModule { code: Some("code".to_string()) },
                )],
            };
            assert_eq!(chunk, expected);
        }
        HookStart::Done(_) => panic!("a registered callback must be called"),
    }
    let r = p.render_chunk_response(RawHostResult::Value(HookRenderChunkOutput {
        code: "replaced".to_string(),
    }));
    assert_eq!(
        r,
        Ok(HookPoll::Ready(Some(pipeline::HookRenderChunkOutput { code: "replaced".to_string() })))
    );
}

#[test]
fn bundle_hooks_partition_the_output_set() {
    let mut p = plugin("notifier");
    p.generate_bundle = Some(CallbackHandle::new(6));
    p.write_bundle = Some(CallbackHandle::new(7));
    let bundle = vec![
        pipeline::Output::Chunk(pipeline::OutputChunk {
            file_name: "a.js".to_string(),
            code: "aa".to_string(),
        }),
        pipeline::Output::Asset(pipeline::OutputAsset {
            file_name: "a.css".to_string(),
            source: "body{}".to_string(),
        }),
        pipeline::Output::Chunk(pipeline::OutputChunk {
            file_name: "b.js".to_string(),
            code: "bb".to_string(),
        }),
    ];
    match p.generate_bundle_request(&bundle, true) {
        HookStart::Call(handle, (outputs, is_write)) => {
            assert_eq!(handle.id, 6);
            assert!(is_write);
            assert_eq!(outputs.chunks.len(), 2);
            assert_eq!(outputs.chunks[0].file_name, "a.js".to_string());
            assert_eq!(outputs.chunks[1].file_name, "b.js".to_string());
            assert_eq!(outputs.assets.len(), 1);
            assert_eq!(outputs.assets[0].source, "body{}".to_string());
        }
        HookStart::Done(_) => panic!("a registered callback must be called"),
    }
    match p.write_bundle_request(&bundle) {
        HookStart::Call(handle, outputs) => {
            assert_eq!(handle.id, 7);
            let direct = BindingOutputs::from_outputs(&bundle);
            assert_eq!(outputs, direct);
        }
        HookStart::Done(_) => panic!("a registered callback must be called"),
    }
}

#[test]
fn build_end_carries_the_error_message() {
    let mut p = plugin("ender");
    p.build_end = Some(CallbackHandle::new(8));
    let args = Some(pipeline::HookBuildEndArgs { error: "failed to load".to_string() });
    match p.build_end_request(&args) {
        HookStart::Call(_, message) => assert_eq!(message, Some("failed to load".to_string())),
        HookStart::Done(_) => panic!("a registered callback must be called"),
    }
    match p.build_end_request(&None) {
        HookStart::Call(_, message) => assert_eq!(message, None),
        HookStart::Done(_) => panic!("a registered callback must be called"),
    }
    assert_eq!(p.build_end_settled(Ok(())), Ok(()));
}

#[test]
fn unit_hook_deferred_answers_settle() {
    let mut p = plugin("starter");
    p.build_start = Some(CallbackHandle::new(9));
    match p.build_start_request() {
        HookStart::Call(handle, ()) => assert_eq!(handle.id, 9),
        HookStart::Done(_) => panic!("a registered callback must be called"),
    }
    assert_eq!(
        rolldown_binding::shape::normalize_unit(RawUnitResult::Deferred),
        HookPoll::Pending
    );
    assert_eq!(p.build_start_settled(Ok(())), Ok(()));
    assert_eq!(p.generate_bundle_settled(Ok(())), Ok(()));
    assert_eq!(
        p.write_bundle_settled(Err(HostError { message: "disk".to_string() })),
        Err(BuildError::Hook {
            plugin: "starter".to_string(),
            hook: HookKind::WriteBundle,
            failure: HookFailure::Host { message: "disk".to_string() },
        })
    );
}

#[test]
fn release_all_marks_every_handle() {
    let mut p = plugin("releasing");
    p.resolve_id = Some(CallbackHandle::new(1));
    p.write_bundle = Some(CallbackHandle::new(2));
    assert!(p.all_hooks_live());
    p.release_all();
    assert!(!p.all_hooks_live());
    let h = p.resolve_id.expect("the slot keeps its handle");
    assert_eq!(h.id, 1);
    assert!(!h.live);
    let h = p.write_bundle.expect("the slot keeps its handle");
    assert_eq!(h.id, 2);
    assert!(!h.live);
    assert!(p.build_start.is_none());
}

#[test]
fn plugin_name_is_reported() {
    let p = plugin("named");
    assert_eq!(p.name(), "named".to_string());
}

#[test]
fn build_errors_surface_status_and_message() {
    let e = BuildError::Hook {
        plugin: "p".to_string(),
        hook: HookKind::ResolveId,
        failure: HookFailure::InvalidReturn,
    };
    assert_eq!(e.status(), ErrorStatus::InvalidArg);
    assert_eq!(e.message(), "Invalid return value from resolve_id hook".to_string());
    let e = BuildError::Hook {
        plugin: "p".to_string(),
        hook: HookKind::Load,
        failure: HookFailure::Host { message: "threw".to_string() },
    };
    assert_eq!(e.status(), ErrorStatus::GenericFailure);
    assert_eq!(e.message(), "threw".to_string());
    let e = BuildError::External { message: "oops".to_string() };
    assert_eq!(e.status(), ErrorStatus::GenericFailure);
    assert_eq!(e.message(), "oops".to_string());
}

#[test]
fn source_result_conversion_keeps_the_map() {
    let map = rolldown_binding::plugin::SourceMap {
        file: Some("a.js".to_string()),
        mappings: "AAAA".to_string(),
        names: vec!["x".to_string()],
        sources: vec!["src/a.js".to_string()],
        sources_content: vec!["let x".to_string()],
    };
    let out = pipeline::HookLoadOutput::from(SourceResult {
        code: "code".to_string(),
        map: Some(map),
    });
    assert_eq!(out.code, "code".to_string());
    let m = out.map.expect("the map is carried over");
    assert_eq!(m.file, Some("a.js".to_string()));
    assert_eq!(m.mappings, "AAAA".to_string());
    assert_eq!(m.names, vec!["x".to_string()]);
}

#[test]
fn pre_rendered_chunk_converts_from_pipeline() {
    let c = rolldown_binding::plugin::PreRenderedChunk::from(pipeline::PreRenderedChunk {
        is_entry: false,
        is_dynamic_entry: true,
        facade_module_id: None,
        module_ids: vec!["/a.js".to_string()],
        exports: Vec::new(),
    });
    assert!(!c.is_entry);
    assert!(c.is_dynamic_entry);
    assert_eq!(c.facade_module_id, None);
    assert_eq!(c.module_ids, vec!["/a.js".to_string()]);
    assert_eq!(c.exports, Vec::<String>::new());
}
