//! The error taxonomy of the bridge.
//!
//! A bad configuration aborts before the pipeline is constructed
//! ([`ConfigError`]). A failure during one hook invocation — the host call
//! failed, or the host returned a shape that is not legal for the hook — is
//! surfaced to the pipeline as a [`BuildError`] tagged with the plugin and
//! hook it came from, never swallowed and never a panic.

use vstd::prelude::*;

verus! {

/// The extension points a plugin may participate in.
#[derive(Clone, Copy, PartialEq, Eq, Debug)]
pub enum HookKind {
    BuildStart,
    ResolveId,
    Load,
    Transform,
    BuildEnd,
    RenderChunk,
    GenerateBundle,
    WriteBundle,
}

/// The hook's name, as carried in error messages.
pub open spec fn hook_kind_text(h: HookKind) -> Seq<char> {
    match h {
        HookKind::BuildStart => "build_start"@,
        HookKind::ResolveId => "resolve_id"@,
        HookKind::Load => "load"@,
        HookKind::Transform => "transform"@,
        HookKind::BuildEnd => "build_end"@,
        HookKind::RenderChunk => "render_chunk"@,
        HookKind::GenerateBundle => "generate_bundle"@,
        HookKind::WriteBundle => "write_bundle"@,
    }
}

impl HookKind {
    /// The hook's name, for error messages.
    pub fn text(&self) -> (r: String)
        ensures
            r@ == hook_kind_text(*self),
    {
        match self {
            HookKind::BuildStart => String::from_str("build_start"),
            HookKind::ResolveId => String::from_str("resolve_id"),
            HookKind::Load => String::from_str("load"),
            HookKind::Transform => String::from_str("transform"),
            HookKind::BuildEnd => String::from_str("build_end"),
            HookKind::RenderChunk => String::from_str("render_chunk"),
            HookKind::GenerateBundle => String::from_str("generate_bundle"),
            HookKind::WriteBundle => String::from_str("write_bundle"),
        }
    }
}

/// Status classification of an error surfaced to the host runtime.
#[derive(Clone, Copy, PartialEq, Eq, Debug)]
pub enum ErrorStatus {
    /// The caller handed in a value that is not acceptable.
    InvalidArg,
    /// Any other failure.
    GenericFailure,
}

/// A host callback call failed: the host function threw, or its deferred
/// value rejected.
#[derive(PartialEq, Eq, Debug)]
pub struct HostError {
    pub message: String,
}

/// A configuration that cannot be translated. Fatal: no pipeline
/// configuration is constructed and no hook ever runs.
#[derive(PartialEq, Eq, Debug)]
pub struct ConfigError {
    pub status: ErrorStatus,
    pub message: String,
}

/// Why one hook invocation failed.
#[derive(PartialEq, Eq, Debug)]
pub enum HookFailure {
    /// The host returned a value whose shape is not legal for this hook.
    InvalidReturn,
    /// The host call itself failed.
    Host { message: String },
}

/// A pipeline-level error from the bridge. A failing hook carries the plugin
/// name and the hook kind, so the caller can identify which extension point
/// misbehaved; a failing external-resolution predicate carries its message
/// alone, as no plugin owns it.
#[derive(PartialEq, Eq, Debug)]
pub enum BuildError {
    Hook { plugin: String, hook: HookKind, failure: HookFailure },
    External { message: String },
}

/// Tags a hook-level failure with the plugin and hook it came from; a
/// success passes through untouched.
pub open spec fn tag_hook<R>(plugin: String, hook: HookKind, x: Result<R, HookFailure>) -> Result<
    R,
    BuildError,
> {
    match x {
        Ok(v) => Ok(v),
        Err(f) => Err(BuildError::Hook { plugin, hook, failure: f }),
    }
}

/// The status classification under which a build error is surfaced to the
/// host: an illegal return shape is an invalid argument, everything else a
/// generic failure.
pub open spec fn build_error_status(e: BuildError) -> ErrorStatus {
    match e {
        BuildError::Hook { failure: HookFailure::InvalidReturn, .. } => ErrorStatus::InvalidArg,
        _ => ErrorStatus::GenericFailure,
    }
}

/// The message under which a build error is surfaced to the host: an
/// illegal return shape names the offending hook; a failed host call and a
/// failed external predicate carry the host's own message.
pub open spec fn build_error_message(e: BuildError) -> Seq<char> {
    match e {
        BuildError::Hook { failure: HookFailure::InvalidReturn, hook, .. } => "Invalid return value from "@
            + hook_kind_text(hook) + " hook"@,
        BuildError::Hook { failure: HookFailure::Host { message }, .. } => message@,
        BuildError::External { message } => message@,
    }
}

impl BuildError {
    /// The status classification for re-raising this error in the host.
    pub fn status(&self) -> (s: ErrorStatus)
        ensures
            s == build_error_status(*self),
    {
        match self {
            BuildError::Hook { failure: HookFailure::InvalidReturn, .. } => ErrorStatus::InvalidArg,
            _ => ErrorStatus::GenericFailure,
        }
    }

    /// The message for re-raising this error in the host.
    pub fn message(&self) -> (m: String)
        ensures
            m@ == build_error_message(*self),
    {
        match self {
            BuildError::Hook { failure: HookFailure::InvalidReturn, hook, .. } => {
                let mut m = String::from_str("Invalid return value from ");
                m.append(hook.text().as_str());
                m.append(" hook");
                m
            },
            BuildError::Hook { failure: HookFailure::Host { message }, .. } => message.clone(),
            BuildError::External { message } => message.clone(),
        }
    }

    /// The error for a host value whose shape is illegal for `hook`.
    pub fn invalid_hook_return(plugin: &String, hook: HookKind) -> (e: Self)
        ensures
            e == (BuildError::Hook { plugin: *plugin, hook, failure: HookFailure::InvalidReturn }),
    {
        BuildError::Hook { plugin: plugin.clone(), hook, failure: HookFailure::InvalidReturn }
    }

    /// The error for a host call that failed while running `hook`.
    pub fn hook_host_failure(plugin: &String, hook: HookKind, err: HostError) -> (e: Self)
        ensures
            e == (BuildError::Hook {
                plugin: *plugin,
                hook,
                failure: HookFailure::Host { message: err.message },
            }),
    {
        BuildError::Hook { plugin: plugin.clone(), hook, failure: HookFailure::Host { message: err.message } }
    }
}

} // verus!
