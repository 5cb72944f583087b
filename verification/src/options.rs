//! The option translation layer.
//!
//! The host hands over a raw configuration payload: an entry list, optional
//! resolution rules, an ordered plugin list, an optional externality
//! predicate and a working directory. Translation validates the working
//! directory — it must be an absolute path and must not be the filesystem
//! root — and produces the pipeline's configuration together with the
//! ordered list of plugin adapters. Plugin order is preserved exactly:
//! hook invocation across plugins follows registration order.

use vstd::prelude::*;

use crate::error::{ConfigError, ErrorStatus};
use crate::external::ExternalAdapter;
use crate::handle::CallbackHandle;
use crate::pipeline;
use crate::plugin::PluginOptions;
use crate::util::clone_opt_string;

verus! {

/// One entry of the host configuration's input list.
#[derive(PartialEq, Eq, Debug)]
pub struct InputItem {
    pub name: Option<String>,
    pub import: String,
}

/// Host-shaped resolution rules, passed through structurally. Alias
/// entries keep the order the host gave them in.
#[derive(PartialEq, Eq, Debug)]
pub struct ResolveOptions {
    pub alias: Option<Vec<(String, Vec<String>)>>,
    pub alias_fields: Option<Vec<Vec<String>>>,
    pub condition_names: Option<Vec<String>>,
    pub exports_fields: Option<Vec<Vec<String>>>,
    pub extensions: Option<Vec<String>>,
    pub main_fields: Option<Vec<String>>,
    pub main_files: Option<Vec<String>>,
    pub modules: Option<Vec<String>>,
    pub symlinks: Option<bool>,
}

/// The host configuration payload: entry items, resolution rules, the
/// ordered plugin list, the optional externality predicate, and the
/// working directory.
#[derive(Debug)]
pub struct InputOptions {
    pub external: Option<CallbackHandle>,
    pub input: Vec<InputItem>,
    pub plugins: Vec<PluginOptions>,
    pub resolve: Option<ResolveOptions>,
    pub cwd: String,
}

/// An absolute path: it starts at the filesystem root.
pub open spec fn is_absolute_path(s: Seq<char>) -> bool {
    s.len() > 0 && s[0] == '/'
}

/// The path names the filesystem root itself: after the leading separator,
/// every separator-split segment is empty or a lone current-directory dot,
/// so `/`, `//` and `/./` all name the root.
pub open spec fn is_root_path(s: Seq<char>) -> bool {
    &&& s.len() > 0
    &&& s[0] == '/'
    &&& forall|i: int|
        0 < i < s.len() ==> (#[trigger] s[i] == '/' || (s[i] == '.' && s[i - 1] == '/' && (i + 1
            == s.len() || s[i + 1] == '/')))
}

/// A working directory the translation accepts.
pub open spec fn cwd_acceptable(s: Seq<char>) -> bool {
    is_absolute_path(s) && !is_root_path(s)
}

/// Whether `s` is an absolute path.
pub fn path_is_absolute(s: &String) -> (b: bool)
    ensures
        b == is_absolute_path(s@),
{
    let n = s.as_str().unicode_len();
    if n == 0 {
        false
    } else {
        s.as_str().get_char(0) == '/'
    }
}

/// Whether `s` names the filesystem root, possibly with redundant
/// separators or current-directory dots.
pub fn path_is_root(s: &String) -> (b: bool)
    ensures
        b == is_root_path(s@),
{
    let n = s.as_str().unicode_len();
    if n == 0 {
        return false;
    }
    if s.as_str().get_char(0) != '/' {
        return false;
    }
    let mut i: usize = 1;
    while i < n
        invariant
            1 <= i <= n,
            n == s@.len(),
            s@[0] == '/',
            forall|j: int|
                0 < j < i ==> (#[trigger] s@[j] == '/' || (s@[j] == '.' && s@[j - 1] == '/' && (j
                    + 1 == s@.len() || s@[j + 1] == '/'))),
        decreases n - i,
    {
        let c = s.as_str().get_char(i);
        if c == '/' {
            i += 1;
        } else if c == '.' {
            let prev = s.as_str().get_char(i - 1);
            if prev != '/' {
                return false;
            }
            if i + 1 < n {
                let next = s.as_str().get_char(i + 1);
                if next != '/' {
                    return false;
                }
            }
            i += 1;
        } else {
            return false;
        }
    }
    true
}

/// The pipeline's form of one entry item.
pub open spec fn input_item_to_pipeline(x: InputItem) -> pipeline::InputItem {
    pipeline::InputItem { name: x.name, import: x.import }
}

/// The pipeline's form of the resolution rules.
pub open spec fn resolver_options_of(ro: ResolveOptions) -> pipeline::ResolverOptions {
    pipeline::ResolverOptions {
        alias: ro.alias,
        alias_fields: ro.alias_fields,
        condition_names: ro.condition_names,
        exports_fields: ro.exports_fields,
        extensions: ro.extensions,
        main_fields: ro.main_fields,
        main_files: ro.main_files,
        modules: ro.modules,
        symlinks: ro.symlinks,
    }
}

impl From<InputItem> for pipeline::InputItem {
    fn from(value: InputItem) -> (r: pipeline::InputItem) {
        pipeline::InputItem { name: value.name, import: value.import }
    }
}

impl vstd::std_specs::convert::FromSpecImpl<InputItem> for pipeline::InputItem {
    open spec fn obeys_from_spec() -> bool {
        true
    }

    open spec fn from_spec(v: InputItem) -> pipeline::InputItem {
        input_item_to_pipeline(v)
    }
}

impl From<ResolveOptions> for pipeline::ResolverOptions {
    fn from(value: ResolveOptions) -> (r: pipeline::ResolverOptions) {
        pipeline::ResolverOptions {
            alias: value.alias,
            alias_fields: value.alias_fields,
            condition_names: value.condition_names,
            exports_fields: value.exports_fields,
            extensions: value.extensions,
            main_fields: value.main_fields,
            main_files: value.main_files,
            modules: value.modules,
            symlinks: value.symlinks,
        }
    }
}

impl vstd::std_specs::convert::FromSpecImpl<ResolveOptions> for pipeline::ResolverOptions {
    open spec fn obeys_from_spec() -> bool {
        true
    }

    open spec fn from_spec(v: ResolveOptions) -> pipeline::ResolverOptions {
        resolver_options_of(v)
    }
}

impl InputOptions {
    /// Translates the host configuration into the pipeline's configuration
    /// and the ordered plugin adapter list.
    ///
    /// The working directory must be an absolute path and must not be the
    /// filesystem root; otherwise translation fails with an invalid-argument
    /// error and nothing is constructed. On success the entry items and
    /// resolution rules are carried over structurally, the externality
    /// predicate (when configured) becomes the external-resolution adapter,
    /// tree-shaking is fixed off, and the adapters keep the plugins'
    /// registration order exactly.
    pub fn to_rolldown_options(self) -> (r: Result<
        (pipeline::InputOptions, Vec<PluginOptions>),
        ConfigError,
    >)
        ensures
            r is Ok <==> cwd_acceptable(self.cwd@),
            r matches Ok((opts, adapters)) ==> ({
                &&& opts.input@ == self.input@.map_values(
                    |x: InputItem| input_item_to_pipeline(x),
                )
                &&& opts.cwd == self.cwd
                &&& opts.treeshake == false
                &&& (match self.external {
                    Some(h) => opts.external == Some(ExternalAdapter { callback: h }),
                    None => opts.external is None,
                })
                &&& (match self.resolve {
                    Some(ro) => opts.resolve == Some(resolver_options_of(ro)),
                    None => opts.resolve is None,
                })
                &&& adapters@ == self.plugins@
            }),
            !is_absolute_path(self.cwd@) ==> (r matches Err(e) && e.status
                == ErrorStatus::InvalidArg && e.message@ == "cwd must be an absolute path"@),
            is_absolute_path(self.cwd@) && is_root_path(self.cwd@) ==> (r matches Err(e)
                && e.status == ErrorStatus::InvalidArg && e.message@
                == "cwd cannot be root directory"@),
    {
        if !path_is_absolute(&self.cwd) {
            return Err(ConfigError {
                status: ErrorStatus::InvalidArg,
                message: String::from_str("cwd must be an absolute path"),
            });
        }
        if path_is_root(&self.cwd) {
            return Err(ConfigError {
                status: ErrorStatus::InvalidArg,
                message: String::from_str("cwd cannot be root directory"),
            });
        }
        let InputOptions { external, input, plugins, resolve, cwd } = self;

        let external = match external {
            Some(h) => Some(ExternalAdapter::new(h)),
            None => None,
        };

        let mut entries: Vec<pipeline::InputItem> = Vec::new();
        let mut i: usize = 0;
        while i < input.len()
            invariant
                i <= input.len(),
                entries@.len() == i,
                forall|j: int| 0 <= j < i ==> entries@[j] == input_item_to_pipeline(input@[j]),
            decreases input.len() - i,
        {
            let it = &input[i];
            let copied = InputItem { name: clone_opt_string(&it.name), import: it.import.clone() };
            entries.push(pipeline::InputItem::from(copied));
            i += 1;
        }
        proof {
            assert(entries@ =~= input@.map_values(|x: InputItem| input_item_to_pipeline(x)));
        }

        let resolve = match resolve {
            Some(ro) => Some(pipeline::ResolverOptions::from(ro)),
            None => None,
        };

        Ok((
            pipeline::InputOptions {
                input: entries,
                cwd,
                external,
                // tree-shaking is not yet wired through the translation:
                // fixed off, a documented limitation of this snapshot
                treeshake: false,
                resolve,
            },
            plugins,
        ))
    }
}

} // verus!
