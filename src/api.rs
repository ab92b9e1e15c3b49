//! What a plugin is written against: the entry points it implements, the
//! builders of its items, and the requests it may make of the host.
use vstd::prelude::*;
use vstd::utf8::{decode_utf8, valid_utf8};

use crate::protocol::{
    Capture, DeferredAction, DeferredResult, Hotkey, Icon, Input, IoError, ListItem, PluginAction,
    QueryResult, SandboxCall,
};

verus! {

/// Relies on `std::str::from_utf8`: it accepts exactly the valid UTF-8 byte
/// strings and decodes them.
#[verifier::external_body]
fn utf8_str(b: &[u8]) -> (r: Option<&str>)
    ensures
        r is Some <==> valid_utf8(b@),
        r matches Some(s) ==> s@ == decode_utf8(b@),
{
    std::str::from_utf8(b).ok()
}

/// The text of the error a plugin gives when it has no deferred handler.
pub open spec fn no_handler_text() -> Seq<char> {
    "plugin has no deferred action handler"@
}

/// The answer of a plugin that does not handle deferred work.
pub fn no_deferred_handler() -> (r: Result<QueryResult, String>)
    ensures
        r matches Err(e) && e@ == no_handler_text(),
{
    Err("plugin has no deferred action handler".to_owned())
}

/// The entry points a plugin implements. Its code runs inside a sandbox
/// and reaches the system only through the host's capability surface.
pub trait Plugin {
    fn query(query: String) -> Result<QueryResult, String>;

    /// Resumes a query after the host did the work the plugin deferred.
    /// Without an override this fails with [`no_deferred_handler`].
    fn handle_deferred(query: String, result: DeferredResult) -> Result<QueryResult, String> {
        no_deferred_handler()
    }

    fn activate(id: u64) -> Result<Vec<PluginAction>, String>;

    fn alt_activate(id: u64) -> Result<Vec<PluginAction>, String> {
        Err("plugin has no alternative activation".to_owned())
    }

    fn hotkey_activate(id: u64, hotkey: Hotkey) -> Result<Vec<PluginAction>, String> {
        Err("plugin has no hotkey handler".to_owned())
    }

    /// A new query text offered from an item; `None` leaves the query as is.
    fn complete(id: u64) -> Result<Option<Input>, String> {
        Ok(None)
    }
}

/// What a sandbox answers to one [`SandboxCall`].
#[derive(Debug)]
pub enum SandboxAnswer {
    Query(Result<QueryResult, String>),
    Actions(Result<Vec<PluginAction>, String>),
    Completion(Result<Option<Input>, String>),
}

/// Runs one call against the entry points of plugin `P`: query calls get a
/// query answer, activations an action list, completions a new input.
pub fn serve<P: Plugin>(call: SandboxCall) -> (r: SandboxAnswer)
    ensures
        match call {
            SandboxCall::Query(q) => r matches SandboxAnswer::Query(a) && call_ensures(P::query, (q,), a),
            SandboxCall::HandleDeferred(q, res) => r matches SandboxAnswer::Query(a) && call_ensures(
                P::handle_deferred,
                (q, res),
                a,
            ),
            SandboxCall::Activate(id) => r matches SandboxAnswer::Actions(a) && call_ensures(P::activate, (id,), a),
            SandboxCall::AltActivate(id) => r matches SandboxAnswer::Actions(a) && call_ensures(
                P::alt_activate,
                (id,),
                a,
            ),
            SandboxCall::HotkeyActivate(id, h) => r matches SandboxAnswer::Actions(a) && call_ensures(
                P::hotkey_activate,
                (id, h),
                a,
            ),
            SandboxCall::Complete(id) => r matches SandboxAnswer::Completion(a) && call_ensures(
                P::complete,
                (id,),
                a,
            ),
        },
{
    match call {
        SandboxCall::Query(q) => SandboxAnswer::Query(P::query(q)),
        SandboxCall::HandleDeferred(q, res) => SandboxAnswer::Query(P::handle_deferred(q, res)),
        SandboxCall::Activate(id) => SandboxAnswer::Actions(P::activate(id)),
        SandboxCall::AltActivate(id) => SandboxAnswer::Actions(P::alt_activate(id)),
        SandboxCall::HotkeyActivate(id, h) => SandboxAnswer::Actions(P::hotkey_activate(id, h)),
        SandboxCall::Complete(id) => SandboxAnswer::Completion(P::complete(id)),
    }
}

/// The views of two string lists agree item by item.
pub open spec fn same_texts(a: Seq<String>, b: Seq<String>) -> bool {
    a.len() == b.len() && forall|i: int| 0 <= i < a.len() ==> (#[trigger] a[i])@ == b[i]@
}

/// Asks the host to run `cmd` with `args`, capturing the streams `capture`
/// names.
pub fn spawn(cmd: &str, args: &[String], capture: Capture) -> (r: DeferredAction)
    ensures
        r matches DeferredAction::Spawn { cmd: c, args: a, capture: k } && c@ == cmd@ && same_texts(
            a@,
            args@,
        ) && k == capture,
{
    let mut owned: Vec<String> = Vec::new();
    let mut i: usize = 0;
    while i < args.len()
        invariant
            i <= args@.len(),
            same_texts(owned@, args@.subrange(0, i as int)),
        decreases args@.len() - i,
    {
        owned.push(args[i].clone());
        i = i + 1;
    }
    assert(args@.subrange(0, args@.len() as int) =~= args@);
    DeferredAction::Spawn { cmd: cmd.to_owned(), args: owned, capture }
}

/// Asks the host for its configuration directory.
pub fn config_dir() -> (r: DeferredAction)
    ensures
        r is ConfigDir,
{
    DeferredAction::ConfigDir
}

/// Asks the host for its data directory.
pub fn data_dir() -> (r: DeferredAction)
    ensures
        r is DataDir,
{
    DeferredAction::DataDir
}

/// Asks the host to list the directory at `dir`; a path that is not valid
/// UTF-8 cannot be sent and is refused.
pub fn read_dir(dir: &[u8]) -> (r: Result<DeferredAction, IoError>)
    ensures
        valid_utf8(dir@) ==> (r matches Ok(DeferredAction::ReadDir(p)) && p@ == decode_utf8(dir@)),
        !valid_utf8(dir@) ==> r matches Err(IoError::InvalidPath),
{
    match utf8_str(dir) {
        Some(p) => Ok(DeferredAction::ReadDir(p.to_owned())),
        None => Err(IoError::InvalidPath),
    }
}

/// Asks the host to read the file at `file`; a path that is not valid
/// UTF-8 cannot be sent and is refused.
pub fn read_file(file: &[u8]) -> (r: Result<DeferredAction, IoError>)
    ensures
        valid_utf8(file@) ==> (r matches Ok(DeferredAction::ReadFile(p)) && p@ == decode_utf8(file@)),
        !valid_utf8(file@) ==> r matches Err(IoError::InvalidPath),
{
    match utf8_str(file) {
        Some(p) => Ok(DeferredAction::ReadFile(p.to_owned())),
        None => Err(IoError::InvalidPath),
    }
}

impl ListItem {
    /// An item with `title`, id 0, and nothing else.
    pub fn new(title: String) -> (r: Self)
        ensures
            r.id == 0,
            r.title == title,
            r.description@.len() == 0,
            r.metadata@.len() == 0,
            r.icon is None,
    {
        ListItem { id: 0, title, description: String::new(), metadata: String::new(), icon: None }
    }

    pub fn with_id(self, id: u64) -> (r: Self)
        ensures
            r == (ListItem { id, ..self }),
    {
        ListItem { id, ..self }
    }

    pub fn with_description(self, desc: String) -> (r: Self)
        ensures
            r == (ListItem { description: desc, ..self }),
    {
        ListItem { description: desc, ..self }
    }

    pub fn with_metadata(self, meta: String) -> (r: Self)
        ensures
            r == (ListItem { metadata: meta, ..self }),
    {
        ListItem { metadata: meta, ..self }
    }

    /// Sets the icon to the themed icon `icon` names, or to none.
    pub fn with_icon(self, icon: Option<String>) -> (r: Self)
        ensures
            r.id == self.id,
            r.title == self.title,
            r.description == self.description,
            r.metadata == self.metadata,
            match icon {
                Some(n) => r.icon == Some(Icon::Name(n)),
                None => r.icon is None,
            },
    {
        let icon = match icon {
            Some(n) => Some(Icon::Name(n)),
            None => None,
        };
        ListItem { icon, ..self }
    }
}

} // verus!
