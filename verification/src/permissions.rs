//! What a tool may do, and the mode that decides whether it does.

use crate::errors::{err_view, res_view, ErrorKind, ErrorView, WinkitError};
use crate::text::{concat3, same};
use vstd::prelude::*;
use vstd::string::*;

verus! {

/// What a tool reads. No tool changes anything, so every capability is one of
/// reading.
#[derive(Debug, Clone, Copy, PartialEq, Eq, Structural)]
pub enum Capability {
    SystemRead,
    ProcessRead,
    NetworkRead,
    NetworkDiagnosticsRead,
    StorageRead,
    StorageHealthRead,
    FilesystemRead,
    ServiceRead,
    EventRead,
    RegistryRead,
    WindowRead,
    HardwareRead,
    PowerRead,
    WifiRead,
    ApplicationDiscover,
    ApplicationTabsRead,
    ApplicationPerformanceRead,
    ApplicationMemoryRead,
    ApplicationNetworkRead,
    ApplicationRuntimeRead,
    ApplicationDiagnosticsRead,
}

impl Capability {
    /// The name of the capability.
    pub open spec fn name(self) -> Seq<char> {
        match self {
            Capability::SystemRead => "system.read"@,
            Capability::ProcessRead => "process.read"@,
            Capability::NetworkRead => "network.read"@,
            Capability::NetworkDiagnosticsRead => "network.diagnostics.read"@,
            Capability::StorageRead => "storage.read"@,
            Capability::StorageHealthRead => "storage.health.read"@,
            Capability::FilesystemRead => "filesystem.read"@,
            Capability::ServiceRead => "service.read"@,
            Capability::EventRead => "event.read"@,
            Capability::RegistryRead => "registry.read"@,
            Capability::WindowRead => "window.read"@,
            Capability::HardwareRead => "hardware.read"@,
            Capability::PowerRead => "power.read"@,
            Capability::WifiRead => "wifi.read"@,
            Capability::ApplicationDiscover => "application.discover"@,
            Capability::ApplicationTabsRead => "application.tabs.read"@,
            Capability::ApplicationPerformanceRead => "application.performance.read"@,
            Capability::ApplicationMemoryRead => "application.memory.read"@,
            Capability::ApplicationNetworkRead => "application.network.read"@,
            Capability::ApplicationRuntimeRead => "application.runtime.read"@,
            Capability::ApplicationDiagnosticsRead => "application.diagnostics.read"@,
        }
    }

    /// The name of the capability.
    pub fn as_str(self) -> (r: &'static str)
        ensures
            r@ == self.name(),
    {
        match self {
            Capability::SystemRead => "system.read",
            Capability::ProcessRead => "process.read",
            Capability::NetworkRead => "network.read",
            Capability::NetworkDiagnosticsRead => "network.diagnostics.read",
            Capability::StorageRead => "storage.read",
            Capability::StorageHealthRead => "storage.health.read",
            Capability::FilesystemRead => "filesystem.read",
            Capability::ServiceRead => "service.read",
            Capability::EventRead => "event.read",
            Capability::RegistryRead => "registry.read",
            Capability::WindowRead => "window.read",
            Capability::HardwareRead => "hardware.read",
            Capability::PowerRead => "power.read",
            Capability::WifiRead => "wifi.read",
            Capability::ApplicationDiscover => "application.discover",
            Capability::ApplicationTabsRead => "application.tabs.read",
            Capability::ApplicationPerformanceRead => "application.performance.read",
            Capability::ApplicationMemoryRead => "application.memory.read",
            Capability::ApplicationNetworkRead => "application.network.read",
            Capability::ApplicationRuntimeRead => "application.runtime.read",
            Capability::ApplicationDiagnosticsRead => "application.diagnostics.read",
        }
    }
}

/// How much a session may do.
#[derive(Debug, Clone, Copy, PartialEq, Eq, Structural)]
pub enum PermissionMode {
    Safe,
    ReadOnly,
    Approval,
    Unrestricted,
}

/// The mode of a name.
pub open spec fn mode_of(s: Seq<char>) -> Option<PermissionMode> {
    if s == "safe"@ {
        Some(PermissionMode::Safe)
    } else if s == "read_only"@ {
        Some(PermissionMode::ReadOnly)
    } else if s == "approval"@ {
        Some(PermissionMode::Approval)
    } else if s == "unrestricted"@ {
        Some(PermissionMode::Unrestricted)
    } else {
        None
    }
}

impl PermissionMode {
    /// The mode of a name. A name that is no mode's is refused: nothing is
    /// granted by a configuration that cannot be read.
    pub fn parse(s: &str) -> (r: Result<PermissionMode, WinkitError>)
        ensures
            res_view(r) == (match mode_of(s@) {
                Some(m) => Ok(m),
                None => Err(
                    err_view(
                        ErrorKind::InvalidArgument,
                        "unknown permission mode '"@ + s@ + "'"@,
                    ),
                ),
            }),
    {
        if same(s, "safe") {
            Ok(PermissionMode::Safe)
        } else if same(s, "read_only") {
            Ok(PermissionMode::ReadOnly)
        } else if same(s, "approval") {
            Ok(PermissionMode::Approval)
        } else if same(s, "unrestricted") {
            Ok(PermissionMode::Unrestricted)
        } else {
            Err(WinkitError::invalid_argument(&concat3("unknown permission mode '", s, "'")))
        }
    }
}

impl PermissionMode {
    /// The name of the mode.
    pub open spec fn name(self) -> Seq<char> {
        match self {
            PermissionMode::Safe => "safe"@,
            PermissionMode::ReadOnly => "read_only"@,
            PermissionMode::Approval => "approval"@,
            PermissionMode::Unrestricted => "unrestricted"@,
        }
    }

    /// The name of the mode.
    pub fn as_str(self) -> (r: &'static str)
        ensures
            r@ == self.name(),
    {
        match self {
            PermissionMode::Safe => "safe",
            PermissionMode::ReadOnly => "read_only",
            PermissionMode::Approval => "approval",
            PermissionMode::Unrestricted => "unrestricted",
        }
    }
}

/// Does the mode let a tool run that declares this capability? Every mode
/// grants reading. What declares no reading is an action, and asks for a mode
/// that allows actions.
pub open spec fn grants(mode: PermissionMode, capability: Option<Capability>) -> bool {
    capability is Some || mode is Approval || mode is Unrestricted
}

/// The refusal of a tool that the mode does not let run.
pub open spec fn denial(mode: PermissionMode, tool: Seq<char>) -> ErrorView {
    err_view(
        ErrorKind::PermissionDenied,
        "tool '"@ + tool + ("' declares no read capability, and permission mode '"@ + mode.name()
            + "' allows no actions"@),
    )
}

/// Lets a tool run, or says why the mode does not.
pub fn check_permission(mode: PermissionMode, capability: Option<Capability>, tool: &str) -> (r:
    Result<(), WinkitError>)
    ensures
        match r {
            Ok(_) => grants(mode, capability),
            Err(e) => !grants(mode, capability) && e@ == denial(mode, tool@),
        },
{
    let actions = match mode {
        PermissionMode::Safe => false,
        PermissionMode::ReadOnly => false,
        PermissionMode::Approval => true,
        PermissionMode::Unrestricted => true,
    };
    if capability.is_some() || actions {
        Ok(())
    } else {
        Err(
            WinkitError::new(
                ErrorKind::PermissionDenied,
                concat3(
                    "tool '",
                    tool,
                    &concat3(
                        "' declares no read capability, and permission mode '",
                        mode.as_str(),
                        "' allows no actions",
                    ),
                ),
            ),
        )
    }
}

/// Every mode grants every read capability, and the two modes that only read
/// grant nothing else.
pub proof fn law_reading_is_granted(mode: PermissionMode, capability: Option<Capability>)
    ensures
        capability is Some ==> grants(mode, capability),
        mode is Safe || mode is ReadOnly ==> (grants(mode, capability) <==> capability is Some),
{
}

/// Every mode is found again by its name.
pub proof fn law_modes_read_back(mode: PermissionMode)
    ensures
        mode_of(mode.name()) == Some(mode),
{
    reveal_strlit("safe");
    reveal_strlit("read_only");
    reveal_strlit("approval");
    reveal_strlit("unrestricted");
    assert("safe"@.len() == 4 && "read_only"@.len() == 9 && "approval"@.len() == 8
        && "unrestricted"@.len() == 12);
}

/// Every capability has a name of its own.
pub proof fn law_capabilities_have_names_of_their_own(a: Capability, b: Capability)
    ensures
        a.name() == b.name() <==> a == b,
{
    reveal_strlit("system.read");
    assert("system.read"@.len() == 11);
    reveal_strlit("process.read");
    assert("process.read"@.len() == 12);
    reveal_strlit("network.read");
    assert("network.read"@.len() == 12);
    reveal_strlit("network.diagnostics.read");
    assert("network.diagnostics.read"@.len() == 24);
    reveal_strlit("storage.read");
    assert("storage.read"@.len() == 12);
    reveal_strlit("storage.health.read");
    assert("storage.health.read"@.len() == 19);
    reveal_strlit("filesystem.read");
    assert("filesystem.read"@.len() == 15);
    reveal_strlit("service.read");
    assert("service.read"@.len() == 12);
    reveal_strlit("event.read");
    assert("event.read"@.len() == 10);
    reveal_strlit("registry.read");
    assert("registry.read"@.len() == 13);
    reveal_strlit("window.read");
    assert("window.read"@.len() == 11);
    reveal_strlit("hardware.read");
    assert("hardware.read"@.len() == 13);
    reveal_strlit("power.read");
    assert("power.read"@.len() == 10);
    reveal_strlit("wifi.read");
    assert("wifi.read"@.len() == 9);
    reveal_strlit("application.discover");
    assert("application.discover"@.len() == 20);
    reveal_strlit("application.tabs.read");
    assert("application.tabs.read"@.len() == 21);
    reveal_strlit("application.performance.read");
    assert("application.performance.read"@.len() == 28);
    reveal_strlit("application.memory.read");
    assert("application.memory.read"@.len() == 23);
    reveal_strlit("application.network.read");
    assert("application.network.read"@.len() == 24);
    reveal_strlit("application.runtime.read");
    assert("application.runtime.read"@.len() == 24);
    reveal_strlit("application.diagnostics.read");
    assert("application.diagnostics.read"@.len() == 28);
    assert("system.read"@[0] != "window.read"@[0]);
    assert("process.read"@[0] != "network.read"@[0]);
    assert("process.read"@[0] != "storage.read"@[0]);
    assert("process.read"@[0] != "service.read"@[0]);
    assert("network.read"@[0] != "storage.read"@[0]);
    assert("network.read"@[0] != "service.read"@[0]);
    assert("network.diagnostics.read"@[0] != "application.network.read"@[0]);
    assert("network.diagnostics.read"@[0] != "application.runtime.read"@[0]);
    assert("storage.read"@[1] != "service.read"@[1]);
    assert("event.read"@[0] != "power.read"@[0]);
    assert("registry.read"@[0] != "hardware.read"@[0]);
    assert("application.performance.read"@[12] != "application.diagnostics.read"@[12]);
    assert("application.network.read"@[12] != "application.runtime.read"@[12]);
}

/// A mode is read from its own name and from no other.
pub proof fn law_modes_have_names(s: &str, r: Result<PermissionMode, WinkitError>)
    requires
        call_ensures(PermissionMode::parse, (s,), r),
    ensures
        s@ == "safe"@ <==> r is Ok && r->Ok_0 == PermissionMode::Safe,
        s@ == "read_only"@ <==> r is Ok && r->Ok_0 == PermissionMode::ReadOnly,
        s@ == "approval"@ <==> r is Ok && r->Ok_0 == PermissionMode::Approval,
        s@ == "unrestricted"@ <==> r is Ok && r->Ok_0 == PermissionMode::Unrestricted,
        r is Err ==> r->Err_0.kind == ErrorKind::InvalidArgument && r->Err_0.message@
            == "unknown permission mode '"@ + s@ + "'"@,
{
    reveal_strlit("safe");
    assert("safe"@.len() == 4);
    reveal_strlit("read_only");
    assert("read_only"@.len() == 9);
    reveal_strlit("approval");
    assert("approval"@.len() == 8);
    reveal_strlit("unrestricted");
    assert("unrestricted"@.len() == 12);
}

/// What reads runs in every mode; what acts runs only where actions are allowed, and
/// is denied in words that name it and the mode.
pub proof fn law_actions_need_their_mode(
    mode: PermissionMode,
    capability: Option<Capability>,
    tool: &str,
    r: Result<(), WinkitError>,
)
    requires
        call_ensures(check_permission, (mode, capability, tool), r),
    ensures
        capability is Some ==> r is Ok,
        capability is None ==> (r is Ok <==> mode == PermissionMode::Approval || mode
            == PermissionMode::Unrestricted),
        r is Err ==> r->Err_0.kind == ErrorKind::PermissionDenied && r->Err_0.message@ == "tool '"@
            + tool@ + ("' declares no read capability, and permission mode '"@ + mode.name()
            + "' allows no actions"@),
{
}

} // verus!
