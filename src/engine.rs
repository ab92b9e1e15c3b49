use std::sync::Arc;
use vstd::prelude::*;

use crate::plugin::{Plugin, PluginRequest};
use crate::protocol::{
    DeferredAction, DeferredResult, Hotkey, Input, PluginAction, QueryResult, SandboxCall,
};
use crate::bounded::clamp;
use crate::list_item::ListItem;
use crate::result_list::{last_index, moved, ResultList};

verus! {

/// Failures the host reports to the user; none of them stops the host.
#[derive(Debug, Clone)]
pub enum HostError {
    /// A plugin module or manifest could not be loaded.
    Load(String),
    /// A plugin answered a query with an error, or had no deferred handler.
    Protocol(String),
    /// An activation, alternative activation, hotkey or completion failed.
    Activation(String),
}

/// The plugins that loaded, in the order they were tried.
pub open spec fn loaded(attempts: Seq<Result<Plugin, String>>) -> Seq<Plugin>
    decreases attempts.len(),
{
    if attempts.len() == 0 {
        seq![]
    } else {
        let before = loaded(attempts.drop_last());
        match attempts.last() {
            Ok(p) => before.push(p),
            Err(_) => before,
        }
    }
}

/// The messages of the plugins that failed to load, in the order tried.
pub open spec fn load_failures(attempts: Seq<Result<Plugin, String>>) -> Seq<Seq<char>>
    decreases attempts.len(),
{
    if attempts.len() == 0 {
        seq![]
    } else {
        let before = load_failures(attempts.drop_last());
        match attempts.last() {
            Ok(_) => before,
            Err(e) => before.push(e@),
        }
    }
}

/// Sorts the outcomes of loading each configured plugin: the plugins that
/// loaded make up the active set, each failure becomes a load error to
/// report. One bad plugin never keeps the others out.
pub fn load_plugins(attempts: Vec<Result<Plugin, String>>) -> (r: (Vec<Arc<Plugin>>, Vec<HostError>))
    ensures
        r.0@.len() == loaded(attempts@).len(),
        forall|i: int| 0 <= i < r.0@.len() ==> *#[trigger] r.0@[i] == loaded(attempts@)[i],
        r.1@.len() == load_failures(attempts@).len(),
        forall|i: int|
            0 <= i < r.1@.len() ==> ((#[trigger] r.1@[i]) matches HostError::Load(m) && m@
                == load_failures(attempts@)[i]),
{
    let mut plugins: Vec<Arc<Plugin>> = Vec::new();
    let mut errors: Vec<HostError> = Vec::new();
    let mut rest = attempts;
    let ghost all = rest@;
    let ghost mut k: int = 0;
    while rest.len() > 0
        invariant
            0 <= k <= all.len(),
            rest@ == all.subrange(k, all.len() as int),
            plugins@.len() == loaded(all.subrange(0, k)).len(),
            forall|i: int| 0 <= i < plugins@.len() ==> *#[trigger] plugins@[i] == loaded(all.subrange(0, k))[i],
            errors@.len() == load_failures(all.subrange(0, k)).len(),
            forall|i: int|
                0 <= i < errors@.len() ==> ((#[trigger] errors@[i]) matches HostError::Load(m) && m@
                    == load_failures(all.subrange(0, k))[i]),
        decreases rest@.len(),
    {
        let attempt = rest.remove(0);
        proof {
            assert(all.subrange(0, k + 1).drop_last() =~= all.subrange(0, k));
            assert(all.subrange(0, k + 1).last() == attempt);
        }
        match attempt {
            Ok(p) => plugins.push(Arc::new(p)),
            Err(e) => errors.push(HostError::Load(e)),
        }
        proof {
            k = k + 1;
        }
    }
    proof {
        assert(all.subrange(0, all.len() as int) =~= all);
    }
    (plugins, errors)
}

/// Where one query exchange with one plugin stands.
#[derive(Debug, Clone, Copy, PartialEq, Eq, Structural)]
pub enum Phase {
    /// A `query` or `handle_deferred` call is outstanding.
    Querying,
    /// The plugin deferred work; the host must do it and resume the plugin.
    AwaitingDeferred,
    /// The exchange is over.
    Resolved,
}

/// What the driver of an exchange does next.
#[derive(Debug)]
pub enum Step {
    /// Do this work through the capability surface, then call `resume`.
    Perform(DeferredAction),
    /// The exchange ended with this list.
    Finished(ResultList),
    /// The exchange ended with this error.
    Failed(HostError),
}

/// The phase an exchange moves to on `answer`: only deferred work leaves it
/// waiting; a list or an error ends it.
pub open spec fn phase_after(answer: Result<QueryResult, String>) -> Phase {
    if answer matches Ok(QueryResult::Deferred(_)) {
        Phase::AwaitingDeferred
    } else {
        Phase::Resolved
    }
}

/// One query sent to one plugin, followed until the plugin gives a final
/// answer. Each exchange carries the generation token it was issued under.
#[derive(Debug)]
pub struct Exchange {
    token: u64,
    plugin: Arc<Plugin>,
    query: String,
    phase: Phase,
}

impl Exchange {
    pub closed spec fn token_view(self) -> u64 {
        self.token
    }

    pub closed spec fn owner(self) -> Arc<Plugin> {
        self.plugin
    }

    pub closed spec fn query_view(self) -> Seq<char> {
        self.query@
    }

    pub closed spec fn phase_view(self) -> Phase {
        self.phase
    }

    /// Starts an exchange: the returned request is the plugin's `query` call.
    pub fn start(token: u64, plugin: Arc<Plugin>, query: String) -> (r: (Self, PluginRequest))
        ensures
            r.0.token_view() == token,
            r.0.owner() == plugin,
            r.0.query_view() == query@,
            r.0.phase_view() == Phase::Querying,
            r.1.plugin == plugin,
            r.1.call matches SandboxCall::Query(q) && q@ == query@,
    {
        let call = SandboxCall::Query(query.clone());
        let request = PluginRequest { plugin: plugin.clone(), call };
        (Exchange { token, plugin, query, phase: Phase::Querying }, request)
    }

    /// The generation token the exchange was issued under.
    pub fn token(&self) -> (r: u64)
        ensures
            r == self.token_view(),
    {
        self.token
    }

    pub fn phase(&self) -> (r: Phase)
        ensures
            r == self.phase_view(),
    {
        self.phase
    }

    /// Takes the plugin's answer to the outstanding call. A list ends the
    /// exchange, an error ends it as a protocol error, and deferred work
    /// leaves it waiting for [`Exchange::resume`].
    pub fn on_answer(&mut self, answer: Result<QueryResult, String>) -> (r: Step)
        requires
            old(self).phase_view() == Phase::Querying,
        ensures
            final(self).token_view() == old(self).token_view(),
            final(self).owner() == old(self).owner(),
            final(self).query_view() == old(self).query_view(),
            final(self).phase_view() == phase_after(answer),
            match answer {
                Ok(QueryResult::Immediate { items, style }) => r matches Step::Finished(list) && {
                    &&& list.wf()
                    &&& list.sel() == 0
                    &&& list.style_view() == style
                    &&& list.items_view().len() == items@.len()
                    &&& forall|i: int|
                        0 <= i < items@.len() ==> {
                            &&& (#[trigger] list.items_view()[i]).owner() == old(self).owner()
                            &&& list.items_view()[i].data() == items@[i]
                        }
                },
                Ok(QueryResult::Deferred(action)) => r == Step::Perform(action),
                Err(e) => r matches Step::Failed(HostError::Protocol(m)) && m@ == e@,
            },
    {
        match answer {
            Ok(QueryResult::Immediate { items, style }) => {
                self.phase = Phase::Resolved;
                Step::Finished(ResultList::from_items(&self.plugin, items, style))
            },
            Ok(QueryResult::Deferred(action)) => {
                self.phase = Phase::AwaitingDeferred;
                Step::Perform(action)
            },
            Err(e) => {
                self.phase = Phase::Resolved;
                Step::Failed(HostError::Protocol(e))
            },
        }
    }

    /// Hands the outcome of the deferred work back: the returned request is
    /// the plugin's `handle_deferred` call with the query the exchange began
    /// with. Only an exchange whose last answer was deferred work can be
    /// resumed.
    pub fn resume(&mut self, result: DeferredResult) -> (r: PluginRequest)
        requires
            old(self).phase_view() == Phase::AwaitingDeferred,
        ensures
            final(self).token_view() == old(self).token_view(),
            final(self).owner() == old(self).owner(),
            final(self).query_view() == old(self).query_view(),
            final(self).phase_view() == Phase::Querying,
            r.plugin == old(self).owner(),
            r.call matches SandboxCall::HandleDeferred(q, res) && q@ == old(self).query_view() && res == result,
    {
        self.phase = Phase::Querying;
        PluginRequest {
            plugin: self.plugin.clone(),
            call: SandboxCall::HandleDeferred(self.query.clone(), result),
        }
    }
}

/// An effect the host carries out for an activation.
#[derive(Debug, Clone)]
pub enum Effect {
    /// Hide the launcher surface.
    Close,
    /// Start `program` with `args`, detached from the host.
    Spawn { program: String, args: Vec<String> },
    /// Put text on the clipboard.
    Copy(String),
}

/// `e` is what the host does for the plugin action `a`. A command line is
/// run by the shell as `sh -c <line>`.
pub open spec fn effect_for(a: PluginAction, e: Effect) -> bool {
    match a {
        PluginAction::Close => e is Close,
        PluginAction::RunCommand(cmd, args) => e matches Effect::Spawn { program, args: eargs } && program
            == cmd && eargs == args,
        PluginAction::RunCommandString(line) => e matches Effect::Spawn { program, args } && program@
            == "sh"@ && args@.len() == 2 && args@[0]@ == "-c"@ && args@[1]@ == line@,
        PluginAction::Copy(text) => e matches Effect::Copy(t) && t == text,
    }
}

/// The effect the host carries out for one plugin action.
pub fn effect_of(action: PluginAction) -> (r: Effect)
    ensures
        effect_for(action, r),
{
    match action {
        PluginAction::Close => Effect::Close,
        PluginAction::RunCommand(cmd, args) => Effect::Spawn { program: cmd, args },
        PluginAction::RunCommandString(line) => {
            let mut args: Vec<String> = Vec::new();
            args.push("-c".to_owned());
            args.push(line);
            Effect::Spawn { program: "sh".to_owned(), args }
        },
        PluginAction::Copy(text) => Effect::Copy(text),
    }
}

/// The effects for a list of plugin actions, one for each, in order.
pub fn effects_of(actions: Vec<PluginAction>) -> (r: Vec<Effect>)
    ensures
        r@.len() == actions@.len(),
        forall|i: int| 0 <= i < actions@.len() ==> effect_for(actions@[i], #[trigger] r@[i]),
{
    let mut out: Vec<Effect> = Vec::new();
    let mut rest = actions;
    let ghost all = rest@;
    while rest.len() > 0
        invariant
            out@.len() + rest@.len() == all.len(),
            rest@ == all.subrange(out@.len() as int, all.len() as int),
            forall|i: int| 0 <= i < out@.len() ==> effect_for(all[i], #[trigger] out@[i]),
        decreases rest@.len(),
    {
        let a = rest.remove(0);
        out.push(effect_of(a));
    }
    out
}

/// Which activation entry point of a plugin to call on the selected item.
#[derive(Debug, Clone, Copy, PartialEq, Eq, Structural)]
pub enum Activation {
    Activate,
    AltActivate,
    Hotkey(Hotkey),
    Complete,
}

/// What becomes of a finished activation.
#[derive(Debug)]
pub enum ActivationOutcome {
    /// A later user action superseded it: nothing is applied.
    Discarded,
    /// Carry out these effects, in order.
    Effects(Vec<Effect>),
    /// Put this text into the query box.
    SetInput(Input),
    /// The completion had nothing to offer.
    Unchanged,
    /// Show this error; the list and its selection stay as they are.
    Failed(HostError),
}

/// The items already shown for the latest token: none until an exchange
/// under that token has settled, since the first answer replaces the list
/// left from earlier actions.
pub open spec fn prior(e: Engine) -> Seq<ListItem> {
    if e.answered() {
        e.list().items_view()
    } else {
        seq![]
    }
}

/// `post` follows `pre` by minting the token `t`: the counter moves on by
/// one, the list is untouched, and nothing has answered under `t` yet.
pub open spec fn minted(pre: Engine, post: Engine, t: u64) -> bool {
    &&& post.gen() == pre.gen() + 1
    &&& t == post.gen()
    &&& post.list() == pre.list()
    &&& !post.answered()
}

/// `post` follows `pre` by settling `list`, finished under `token`. Under
/// the latest token the list is merged: its items follow those already
/// shown for that token (the first one replaces what earlier actions left),
/// and the selection goes back to the first item. A stale list changes
/// nothing.
pub open spec fn settled(pre: Engine, post: Engine, token: u64, list: ResultList) -> bool {
    &&& post.gen() == pre.gen()
    &&& if token == pre.gen() {
        &&& post.answered()
        &&& post.list().items_view() == prior(pre) + list.items_view()
        &&& post.list().sel() == 0
        &&& post.list().style_view() == (if pre.answered() {
            pre.list().style_view()
        } else {
            list.style_view()
        })
    } else {
        &&& post.answered() == pre.answered()
        &&& post.list() == pre.list()
    }
}

/// `post` follows `pre` by a failed exchange under `token`. Under the latest
/// token it counts as an empty answer: it adds nothing and leaves the items
/// other plugins brought for that token. A stale failure changes nothing.
pub open spec fn failed(pre: Engine, post: Engine, token: u64) -> bool {
    &&& post.gen() == pre.gen()
    &&& if token == pre.gen() {
        &&& post.answered()
        &&& post.list().items_view() == prior(pre)
        &&& post.list().sel() == 0
        &&& post.list().style_view() == (if pre.answered() {
            pre.list().style_view()
        } else {
            None
        })
    } else {
        &&& post.answered() == pre.answered()
        &&& post.list() == pre.list()
    }
}

/// Two queries issued one after the other, the first finishing after the
/// second: the items shown in the end are the second query's. Completion
/// order does not matter, the token order does.
pub proof fn lemma_latest_query_wins(
    e0: Engine,
    e1: Engine,
    e2: Engine,
    e3: Engine,
    e4: Engine,
    t1: u64,
    t2: u64,
    l1: ResultList,
    l2: ResultList,
)
    requires
        minted(e0, e1, t1),
        minted(e1, e2, t2),
        settled(e2, e3, t2, l2),
        settled(e3, e4, t1, l1),
    ensures
        e4.list().items_view() == l2.items_view(),
        e4.list().sel() == 0,
{
    assert(seq![] + l2.items_view() =~= l2.items_view());
}

/// Several plugins answering one query: whatever order their lists arrive
/// in, the items shown are all of them, in arrival order, and one plugin's
/// failure takes none of the others' items away.
pub proof fn lemma_answers_merge(
    e0: Engine,
    e1: Engine,
    e2: Engine,
    e3: Engine,
    e4: Engine,
    t: u64,
    la: ResultList,
    lb: ResultList,
)
    requires
        minted(e0, e1, t),
        settled(e1, e2, t, la),
        failed(e2, e3, t),
        settled(e3, e4, t, lb),
    ensures
        e4.list().items_view() == la.items_view() + lb.items_view(),
        e4.list().sel() == 0,
{
    assert(seq![] + la.items_view() =~= la.items_view());
}

/// An exchange can be resumed, and so the plugin's deferred handler be
/// called, only right after the plugin answered with deferred work: a list
/// or an error leaves nothing to resume.
pub proof fn lemma_resume_only_after_deferred(answer: Result<QueryResult, String>)
    ensures
        phase_after(answer) == Phase::AwaitingDeferred <==> answer matches Ok(QueryResult::Deferred(_)),
{
}

/// Owns the result list and the generation counter. Every user action mints
/// a new token; a completion is applied only while its token is the latest.
#[derive(Debug)]
pub struct Engine {
    generation: u64,
    results: ResultList,
    /// Whether an exchange under the latest token has settled, so that the
    /// list shown belongs to that token.
    answered: bool,
}

impl Engine {
    /// The latest token issued.
    pub closed spec fn gen(self) -> u64 {
        self.generation
    }

    pub closed spec fn list(self) -> ResultList {
        self.results
    }

    /// Whether the list shown already belongs to the latest token.
    pub closed spec fn answered(self) -> bool {
        self.answered
    }

    pub closed spec fn wf(self) -> bool {
        self.results.wf()
    }

    pub fn new() -> (r: Self)
        ensures
            r.wf(),
            r.gen() == 0,
            r.list().items_view().len() == 0,
            !r.answered(),
    {
        Engine { generation: 0, results: ResultList::new(), answered: false }
    }

    /// Mints the token for a new user action; every earlier token is stale
    /// from now on.
    pub fn next_token(&mut self) -> (r: u64)
        requires
            old(self).gen() < u64::MAX,
        ensures
            minted(*old(self), *final(self), r),
            old(self).wf() ==> final(self).wf(),
    {
        self.answered = false;
        self.generation = self.generation + 1;
        self.generation
    }

    /// The latest token issued.
    pub fn generation(&self) -> (r: u64)
        ensures
            r == self.gen(),
    {
        self.generation
    }

    /// Whether a completion issued under `token` may still be applied.
    pub fn should_perform(&self, token: u64) -> (r: bool)
        ensures
            r == (token == self.gen()),
    {
        token == self.generation
    }

    /// The list currently shown.
    pub fn results(&self) -> (r: &ResultList)
        ensures
            *r == self.list(),
    {
        &self.results
    }

    /// Starts one query exchange per plugin, all under one new token.
    pub fn query(&mut self, plugins: &Vec<Arc<Plugin>>, text: &String) -> (r: Vec<(Exchange, PluginRequest)>)
        requires
            old(self).gen() < u64::MAX,
        ensures
            minted(*old(self), *final(self), final(self).gen()),
            old(self).wf() ==> final(self).wf(),
            r@.len() == plugins@.len(),
            forall|i: int|
                0 <= i < plugins@.len() ==> {
                    let (ex, req) = #[trigger] r@[i];
                    &&& ex.token_view() == final(self).gen()
                    &&& ex.owner() == plugins@[i]
                    &&& ex.query_view() == text@
                    &&& ex.phase_view() == Phase::Querying
                    &&& req.plugin == plugins@[i]
                    &&& req.call matches SandboxCall::Query(q) && q@ == text@
                },
    {
        let token = self.next_token();
        let mut out: Vec<(Exchange, PluginRequest)> = Vec::new();
        let mut i: usize = 0;
        while i < plugins.len()
            invariant
                i <= plugins@.len(),
                out@.len() == i,
                token == self.gen(),
                forall|j: int|
                    0 <= j < i ==> {
                        let (ex, req) = #[trigger] out@[j];
                        &&& ex.token_view() == token
                        &&& ex.owner() == plugins@[j]
                        &&& ex.query_view() == text@
                        &&& ex.phase_view() == Phase::Querying
                        &&& req.plugin == plugins@[j]
                        &&& req.call matches SandboxCall::Query(q) && q@ == text@
                    },
            decreases plugins@.len() - i,
        {
            out.push(Exchange::start(token, plugins[i].clone(), text.clone()));
            i = i + 1;
        }
        out
    }

    /// Merges the list an exchange finished with into the shown one, unless
    /// a later action superseded it; a stale list is dropped whole. The
    /// first list under a token replaces what earlier actions left, later
    /// ones are appended. Returns whether the list was applied.
    pub fn finish_query(&mut self, token: u64, list: ResultList) -> (r: bool)
        requires
            old(self).wf(),
            list.wf(),
        ensures
            final(self).wf(),
            r == (token == old(self).gen()),
            settled(*old(self), *final(self), token, list),
    {
        if token != self.generation {
            return false;
        }
        if self.answered {
            self.results.append(list);
        } else {
            let mut list = list;
            list.set_selection(0);
            self.results = list;
            self.answered = true;
        }
        true
    }

    /// Settles a failed exchange as an empty answer: while its token is the
    /// latest, the items other plugins brought stay and the error is handed
    /// back to be shown; a stale failure is dropped silently.
    pub fn fail_query(&mut self, token: u64, error: HostError) -> (r: Option<HostError>)
        requires
            old(self).wf(),
        ensures
            final(self).wf(),
            failed(*old(self), *final(self), token),
            token == old(self).gen() ==> r == Some(error),
            token != old(self).gen() ==> r is None,
    {
        if token != self.generation {
            return None;
        }
        if self.answered {
            self.results.set_selection(0);
        } else {
            self.results = ResultList::new();
            self.answered = true;
            assert(self.results.items_view() =~= seq![]);
        }
        Some(error)
    }

    /// Selects `index`, or the last item past the end.
    pub fn select(&mut self, index: usize)
        requires
            old(self).wf(),
        ensures
            final(self).wf(),
            final(self).gen() == old(self).gen(),
            final(self).answered() == old(self).answered(),
            final(self).list().items_view() == old(self).list().items_view(),
            final(self).list().style_view() == old(self).list().style_view(),
            final(self).list().sel() == clamp(index as int, last_index(old(self).list().items_view().len()) as int),
    {
        self.results.set_selection(index);
    }

    /// Moves the selection as [`ResultList::move_selection_signed`] does.
    pub fn select_delta(&mut self, delta: isize)
        requires
            old(self).wf(),
        ensures
            final(self).wf(),
            final(self).gen() == old(self).gen(),
            final(self).answered() == old(self).answered(),
            final(self).list().items_view() == old(self).list().items_view(),
            final(self).list().style_view() == old(self).list().style_view(),
            final(self).list().sel() == moved(old(self).list().sel(), last_index(old(self).list().items_view().len()), delta as int),
    {
        self.results.move_selection_signed(delta);
    }

    /// Starts an activation of the selected item under a new token. With an
    /// empty list there is nothing to activate and no token is minted.
    pub fn activate(&mut self, kind: Activation) -> (r: Option<(u64, PluginRequest)>)
        requires
            old(self).wf(),
            old(self).gen() < u64::MAX,
        ensures
            final(self).wf(),
            final(self).list() == old(self).list(),
            old(self).list().items_view().len() == 0 ==> r is None && *final(self) == *old(self),
            old(self).list().items_view().len() > 0 ==> {
                let item = old(self).list().items_view()[old(self).list().sel() as int];
                let id = item.data().id;
                &&& minted(*old(self), *final(self), final(self).gen())
                &&& r matches Some((token, req)) && {
                    &&& token == final(self).gen()
                    &&& req.plugin == item.owner()
                    &&& req.call == match kind {
                        Activation::Activate => SandboxCall::Activate(id),
                        Activation::AltActivate => SandboxCall::AltActivate(id),
                        Activation::Hotkey(h) => SandboxCall::HotkeyActivate(id, h),
                        Activation::Complete => SandboxCall::Complete(id),
                    }
                }
            },
    {
        let request = match self.results.selected_item() {
            Some(item) => match kind {
                Activation::Activate => item.activate(),
                Activation::AltActivate => item.alt_activate(),
                Activation::Hotkey(h) => item.hotkey_activate(h),
                Activation::Complete => item.complete(),
            },
            None => {
                return None;
            },
        };
        let token = self.next_token();
        Some((token, request))
    }

    /// Settles an activation: stale ones are discarded, a failure is handed
    /// back to be shown, and otherwise each action becomes its effect.
    pub fn finish_activation(&mut self, token: u64, answer: Result<Vec<PluginAction>, String>) -> (r:
        ActivationOutcome)
        ensures
            *final(self) == *old(self),
            token != old(self).gen() ==> r is Discarded,
            token == old(self).gen() ==> match answer {
                Ok(actions) => r matches ActivationOutcome::Effects(effects) && effects@.len()
                    == actions@.len() && forall|i: int|
                    0 <= i < actions@.len() ==> effect_for(actions@[i], #[trigger] effects@[i]),
                Err(e) => r matches ActivationOutcome::Failed(HostError::Activation(m)) && m@ == e@,
            },
    {
        if token != self.generation {
            return ActivationOutcome::Discarded;
        }
        match answer {
            Ok(actions) => ActivationOutcome::Effects(effects_of(actions)),
            Err(e) => ActivationOutcome::Failed(HostError::Activation(e)),
        }
    }

    /// Settles a completion: stale ones are discarded, a new input is handed
    /// back to be put into the query box.
    pub fn finish_completion(&mut self, token: u64, answer: Result<Option<Input>, String>) -> (r:
        ActivationOutcome)
        ensures
            *final(self) == *old(self),
            token != old(self).gen() ==> r is Discarded,
            token == old(self).gen() ==> match answer {
                Ok(Some(input)) => r == ActivationOutcome::SetInput(input),
                Ok(None) => r is Unchanged,
                Err(e) => r matches ActivationOutcome::Failed(HostError::Activation(m)) && m@ == e@,
            },
    {
        if token != self.generation {
            return ActivationOutcome::Discarded;
        }
        match answer {
            Ok(Some(input)) => ActivationOutcome::SetInput(input),
            Ok(None) => ActivationOutcome::Unchanged,
            Err(e) => ActivationOutcome::Failed(HostError::Activation(e)),
        }
    }
}

} // verus!
