use std::sync::Arc;
use vstd::prelude::*;

use crate::plugin::{Plugin, PluginRequest};
use crate::protocol::{self, Hotkey, Icon, SandboxCall};

verus! {

/// A row of the result list: what a plugin returned, with the plugin that
/// returned it.
#[derive(Debug, Clone)]
pub struct ListItem {
    plugin: Arc<Plugin>,
    item: protocol::ListItem,
}

impl ListItem {
    /// The plugin that produced the item.
    pub closed spec fn owner(self) -> Arc<Plugin> {
        self.plugin
    }

    /// The item as its plugin described it.
    pub closed spec fn data(self) -> protocol::ListItem {
        self.item
    }

    pub fn new(plugin: Arc<Plugin>, item: protocol::ListItem) -> (r: Self)
        ensures
            r.owner() == plugin,
            r.data() == item,
    {
        ListItem { plugin, item }
    }

    pub fn plugin(&self) -> (r: &Arc<Plugin>)
        ensures
            *r == self.owner(),
    {
        &self.plugin
    }

    pub fn title(&self) -> (r: &str)
        ensures
            r@ == self.data().title@,
    {
        self.item.title.as_str()
    }

    pub fn description(&self) -> (r: &str)
        ensures
            r@ == self.data().description@,
    {
        self.item.description.as_str()
    }

    pub fn icon(&self) -> (r: Option<Icon>)
        ensures
            r is Some <==> self.data().icon is Some,
            r matches Some(Icon::Name(n)) ==> self.data().icon matches Some(Icon::Name(m)) && n@ == m@,
            r matches Some(Icon::Text(t)) ==> self.data().icon matches Some(Icon::Text(u)) && t@ == u@,
    {
        match &self.item.icon {
            Some(Icon::Name(n)) => Some(Icon::Name(n.clone())),
            Some(Icon::Text(t)) => Some(Icon::Text(t.clone())),
            None => None,
        }
    }

    /// The sandbox call that activates this item.
    pub fn activate(&self) -> (r: PluginRequest)
        ensures
            r.plugin == self.owner(),
            r.call == SandboxCall::Activate(self.data().id),
    {
        PluginRequest { plugin: self.plugin.clone(), call: SandboxCall::Activate(self.item.id) }
    }

    /// The sandbox call that runs the alternative activation of this item.
    pub fn alt_activate(&self) -> (r: PluginRequest)
        ensures
            r.plugin == self.owner(),
            r.call == SandboxCall::AltActivate(self.data().id),
    {
        PluginRequest { plugin: self.plugin.clone(), call: SandboxCall::AltActivate(self.item.id) }
    }

    /// The sandbox call that runs `hotkey` on this item.
    pub fn hotkey_activate(&self, hotkey: Hotkey) -> (r: PluginRequest)
        ensures
            r.plugin == self.owner(),
            r.call == SandboxCall::HotkeyActivate(self.data().id, hotkey),
    {
        PluginRequest {
            plugin: self.plugin.clone(),
            call: SandboxCall::HotkeyActivate(self.item.id, hotkey),
        }
    }

    /// The sandbox call that asks for a completion of the query from this item.
    pub fn complete(&self) -> (r: PluginRequest)
        ensures
            r.plugin == self.owner(),
            r.call == SandboxCall::Complete(self.data().id),
    {
        PluginRequest { plugin: self.plugin.clone(), call: SandboxCall::Complete(self.item.id) }
    }
}

} // verus!
