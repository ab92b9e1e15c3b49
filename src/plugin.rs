use std::sync::Arc;
use vstd::prelude::*;

use crate::protocol::SandboxCall;

verus! {

/// Host-side handle of one loaded plugin. Items share it by reference
/// count; it holds no pointer back to them.
#[derive(Debug)]
pub struct Plugin {
    name: String,
}

impl Plugin {
    /// The plugin's name, as its manifest declares it.
    pub closed spec fn name_view(self) -> Seq<char> {
        self.name@
    }

    pub fn new(name: String) -> (r: Self)
        ensures
            r.name_view() == name@,
    {
        Plugin { name }
    }

    pub fn name(&self) -> (r: &str)
        ensures
            r@ == self.name_view(),
    {
        self.name.as_str()
    }
}

/// A call to be made into the sandbox of `plugin`.
#[derive(Debug)]
pub struct PluginRequest {
    pub plugin: Arc<Plugin>,
    pub call: SandboxCall,
}

} // verus!
