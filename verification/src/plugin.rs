use vstd::prelude::*;

verus! {

/// Identity of a capability plugin: the name under which the host registers
/// it.  The plugin's initialization routine is host-side work and stays
/// outside this crate; the bootstrap core only decides when each descriptor
/// is handed to the host for registration.
#[derive(Debug)]
pub struct PluginDescriptor {
    pub name: String,
}

impl PluginDescriptor {
    /// A descriptor is well formed when it names a capability.
    pub open spec fn wf(self) -> bool {
        self.name@.len() > 0
    }

    pub fn new(name: String) -> (d: PluginDescriptor)
        ensures
            d.name == name,
    {
        PluginDescriptor { name }
    }

    /// Executable mirror of [`PluginDescriptor::wf`].
    pub fn is_well_formed(&self) -> (r: bool)
        ensures
            r == self.wf(),
    {
        !self.name.as_str().is_empty()
    }
}

/// Handle for a setup hook.  The hook's body — one-time, side-effecting
/// initialization — runs on the host side; the bootstrap core tracks which
/// hook is attached so the runtime can state exactly which one it asks the
/// host to invoke.
#[derive(Clone, Copy, PartialEq, Eq, Structural, Debug)]
pub struct SetupHook {
    pub id: u64,
}

impl SetupHook {
    pub fn new(id: u64) -> (h: SetupHook)
        ensures
            h.id == id,
    {
        SetupHook { id }
    }
}

/// Process-wide handle produced by loading the host's packaged
/// configuration.  Loading itself is host-side work; the bootstrap core
/// carries the loaded value through `build` into the runtime.
#[derive(Debug)]
pub struct ApplicationContext {
    pub app_name: String,
}

impl ApplicationContext {
    pub fn new(app_name: String) -> (c: ApplicationContext)
        ensures
            c.app_name == app_name,
    {
        ApplicationContext { app_name }
    }
}

} // verus!
