//! The state that every tool works with.

use crate::config::Config;
use crate::errors::{err_view, ErrorKind, WinkitError};
use crate::permissions::{mode_of, PermissionMode};
use crate::providers::registry::{
    describes, law_windows_provider, windows_view, ProviderInfo, ProviderRegistry, WindowsProvider,
};
use crate::text::{same, views};
use crate::tools::catalog::{catalog_of, configured_profile, every_tool};
use crate::tools::toolset::{tool_map, CallTerms, ToolRegistry};
use vstd::prelude::*;
use vstd::string::*;

verus! {

/// The state that every tool works with: the configuration, what it allows,
/// and what answers the tools.
pub struct AppState<B> {
    pub config: Config,
    pub permissions: PermissionMode,
    pub providers: ProviderRegistry,
    pub windows: B,
    pub tools: ToolRegistry,
}

/// Is the provider in use? A configuration that names none uses all.
pub open spec fn uses_provider(enabled: Seq<Seq<char>>, id: Seq<char>) -> bool {
    enabled.len() == 0 || enabled.contains(id)
}

fn provider_in_use(enabled: &Vec<String>, id: &str) -> (r: bool)
    ensures
        r == uses_provider(views(enabled@), id@),
{
    if enabled.len() == 0 {
        return true;
    }
    let mut i: usize = 0;
    while i < enabled.len()
        invariant
            i <= enabled@.len(),
            forall|k: int| 0 <= k < i ==> (#[trigger] views(enabled@)[k]) != id@,
        decreases enabled@.len() - i,
    {
        assert(views(enabled@)[i as int] == enabled@[i as int]@);
        if same(&enabled[i], id) {
            return true;
        }
        i = i + 1;
    }
    false
}

impl<B> AppState<B> {
    /// Everything is in place: the registries are in order, and the tools are
    /// those that there are.
    pub open spec fn wf(&self) -> bool {
        &&& self.tools.wf()
        &&& self.providers.wf()
        &&& tool_map(self.tools.view().tools) == catalog_of(every_tool())
        &&& self.tools.view().disabled == views(self.config.tools.disabled@)
        &&& self.tools.view().profile == configured_profile(self.config.tools.profile@)
    }

    /// The terms on which tools are called.
    pub fn terms(&self) -> (r: CallTerms)
        ensures
            r.mode == self.permissions,
            r.operation_timeout_ms == self.config.limits.operation_timeout_ms,
    {
        CallTerms {
            mode: self.permissions,
            operation_timeout_ms: self.config.limits.operation_timeout_ms,
        }
    }

    /// The state for a configuration and what answers for the operating
    /// system. A permission mode that there is none of is refused.
    pub fn with_backend(config: Config, windows: B) -> (r: Result<Self, WinkitError>)
        ensures
            match (mode_of(config.permissions.mode@), r) {
                (Some(m), Ok(s)) => {
                    &&& s.wf()
                    &&& s.permissions == m
                    &&& s.config == config
                    &&& s.windows == windows
                    &&& s.providers.map().dom().contains("windows"@) == uses_provider(
                        views(config.providers.enabled@),
                        "windows"@,
                    )
                    &&& forall|id: Seq<char>| #[trigger]
                        s.providers.map().dom().contains(id) ==> id == "windows"@
                            && s.providers.map()[id]@ == windows_view()
                },
                (None, Err(e)) => e@ == err_view(
                    ErrorKind::InvalidArgument,
                    "unknown permission mode '"@ + config.permissions.mode@ + "'"@,
                ),
                _ => false,
            },
    {
        let permissions = match config.permission_mode() {
            Ok(m) => m,
            Err(e) => {
                return Err(e);
            },
        };
        let mut providers = ProviderRegistry::new();
        if provider_in_use(&config.providers.enabled, "windows") {
            let provider = WindowsProvider::new();
            providers.register(&provider);
            proof {
                let info = choose|info: ProviderInfo| #[trigger]
                    describes(info@, &provider) && providers.map() == Map::<
                        Seq<char>,
                        ProviderInfo,
                    >::empty().insert(info@.id, info);
                law_windows_provider(info@, &provider);
                assert(providers.map().dom().contains("windows"@));
            }
        }
        let tools = ToolRegistry::build(&config);
        Ok(AppState { config, permissions, providers, windows, tools })
    }
}

} // verus!
