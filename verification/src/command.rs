//! One command from its first request to its exit status.
//!
//! A command is a state between requests. `request` makes what is to be
//! sent next, `receive` takes what it came to and says what to print, and
//! `exit_code` is the status to end with once nothing is left to send. The
//! caller sends and prints; every decision is made here.

use vstd::prelude::*;
use vstd::string::*;
use crate::batch::{
    expand, expansion, lemma_all_sent, lemma_fail_fast, lemma_product_len, product, Action, Batch,
    BatchView,
};
use crate::client::{answer_of, Answer, HttpRequest, Method, SensuClient};
use crate::endpoint::SensuEndpoint;
use crate::err::{ConfigError, ErrorView, SensuError};
use crate::expire::Expire;
use crate::json::{Json, JsonView};
use crate::opts::{opt_target, ClearOpts, ListOpts, SilenceOpts};
use crate::pattern::{filter_of, is_broken, Filter, FilterView};
use crate::payload::{PayloadView, SensuPayload};
use crate::resolve::{lines_of, note_lines, Question, Resolver, ResolverView};
use crate::resource::{resource_views, wire_names, ResourceView, SensuResource};
use crate::resources::{ShushResourceType, ShushResources};
use crate::silences::{listing_text, render, select, selected};
use crate::text::{as_str_of, opt_text, opt_texts, texts};

verus! {

/// A command in progress.
pub enum Command {
    /// The target is being resolved; the requests are planned when that is
    /// done.
    Resolving { action: Action, resolver: Resolver, checks: Option<Vec<String>>, expire: Option<Expire> },
    /// The requests are being sent.
    Running { action: Action, batch: Batch },
    /// The list of silences has been asked for.
    Listing { sub: Filter, chk: Filter },
    /// Nothing is left to do; `code` is the exit status.
    Finished { code: u8 },
}

/// The mathematical value of a `Command`.
pub enum CommandView {
    Resolving {
        action: Action,
        resolver: ResolverView,
        checks: Option<Seq<Seq<char>>>,
        expire: Option<Expire>,
    },
    Running { action: Action, batch: BatchView },
    Listing { sub: FilterView, chk: FilterView },
    Finished { code: u8 },
}

impl View for Command {
    type V = CommandView;

    open spec fn view(&self) -> CommandView {
        match self {
            Command::Resolving { action, resolver, checks, expire } => CommandView::Resolving {
                action: *action,
                resolver: resolver@,
                checks: opt_texts(*checks),
                expire: *expire,
            },
            Command::Running { action, batch } => CommandView::Running {
                action: *action,
                batch: batch@,
            },
            Command::Listing { sub, chk } => CommandView::Listing { sub: sub@, chk: chk@ },
            Command::Finished { code } => CommandView::Finished { code: *code },
        }
    }
}

/// What a command asks of the server.
pub struct Ask {
    pub method: Method,
    pub path: Seq<char>,
    pub body: Option<PayloadView>,
}

/// The words for the resource and the check of a request.
pub open spec fn target_words(action: Action, p: PayloadView) -> Seq<char> {
    match action {
        Action::Silence => match (p.res, p.chk) {
            (Some(r), Some(c)) => "Silencing check "@ + c + " on resource "@ + r,
            (Some(r), None) => "Silencing all checks on resource "@ + r,
            (None, Some(c)) => "Silencing checks "@ + c + " on all resources"@,
            (None, None) => "Silencing all checks on all resources"@,
        },
        Action::Clear => match (p.res, p.chk) {
            (Some(r), Some(c)) => "Clearing silences on checks "@ + c + " on resources "@ + r,
            (Some(r), None) => "Clearing silences on all checks on resources "@ + r,
            (None, Some(c)) => "Clearing silences on checks "@ + c + " on all resources"@,
            (None, None) => "Clearing silences on all checks on all resources"@,
        },
    }
}

/// The line that tells the operator of a request before it is sent.
pub open spec fn announcement(action: Action, p: PayloadView) -> Seq<char> {
    target_words(action, p) + (match p.expire {
        Some(e) => " and will "@ + e.text(),
        None => Seq::empty(),
    })
}

/// The line that tells the operator that a pattern was not understood.
pub open spec fn pattern_warning(pattern: Seq<char>) -> Seq<char> {
    "WARNING: \""@ + pattern + "\" is not a valid regular expression - matching everything"@
}

/// The warning for `pattern` where it was given and is no valid
/// expression.
pub open spec fn pattern_lines(pattern: Option<Seq<char>>) -> Seq<Seq<char>> {
    if is_broken(pattern) {
        seq![pattern_warning(pattern->0)]
    } else {
        Seq::empty()
    }
}

impl CommandView {
    /// The state in which `batch` is being sent: finished where nothing of
    /// it is pending.
    pub open spec fn running(action: Action, batch: BatchView) -> CommandView {
        if batch.pending() is None {
            CommandView::Finished { code: batch.exit_code() }
        } else {
            CommandView::Running { action, batch }
        }
    }

    /// The state in which the requests for the resources and checks are
    /// sent: finished with a failure where there are neither.
    pub open spec fn planned(
        action: Action,
        resources: Option<Seq<ResourceView>>,
        checks: Option<Seq<Seq<char>>>,
        expire: Option<Expire>,
    ) -> CommandView {
        match expansion(
            match resources {
                Some(r) => Some(wire_names(r)),
                None => None,
            },
            checks,
            expire,
        ) {
            Some(plan) => Self::running(action, BatchView::fresh(plan)),
            None => CommandView::Finished { code: 1 },
        }
    }

    /// What is printed when the requests are planned.
    pub open spec fn planned_lines(
        resources: Option<Seq<ResourceView>>,
        checks: Option<Seq<Seq<char>>>,
    ) -> Seq<Seq<char>> {
        if resources is None && checks is None {
            seq![ConfigError::NoTargets.text()]
        } else {
            Seq::empty()
        }
    }

    /// The state in which `resolver` resolves the target: where it has
    /// finished, that of the requests planned for what it found, or
    /// finished with a failure where it ended in an error.
    pub open spec fn settled(
        action: Action,
        resolver: ResolverView,
        checks: Option<Seq<Seq<char>>>,
        expire: Option<Expire>,
    ) -> CommandView {
        match resolver.outcome() {
            None => CommandView::Resolving { action, resolver, checks, expire },
            Some(Ok(found)) => Self::planned(action, Some(found), checks, expire),
            Some(Err(_)) => CommandView::Finished { code: 1 },
        }
    }

    /// What is printed when `resolver` has finished: the error, where it
    /// ended in one.
    pub open spec fn settled_lines(resolver: ResolverView) -> Seq<Seq<char>> {
        match resolver.outcome() {
            Some(Err(e)) => seq![e.text()],
            _ => Seq::empty(),
        }
    }

    /// The state in which a command that silences or clears begins.
    pub open spec fn begin(
        action: Action,
        target: Option<(ShushResourceType, Seq<Seq<char>>)>,
        checks: Option<Seq<Seq<char>>>,
        expire: Option<Expire>,
    ) -> CommandView {
        match target {
            Some((kind, ids)) => Self::settled(
                action,
                ResolverView::start(kind, ids),
                checks,
                expire,
            ),
            None => Self::planned(action, None, checks, expire),
        }
    }

    /// What is printed when a command that silences or clears begins.
    pub open spec fn begin_lines(
        target: Option<(ShushResourceType, Seq<Seq<char>>)>,
        checks: Option<Seq<Seq<char>>>,
    ) -> Seq<Seq<char>> {
        match target {
            Some(_) => Seq::empty(),
            None => Self::planned_lines(None, checks),
        }
    }

    /// What the command asks of the server next, if anything.
    pub open spec fn ask(self) -> Option<Ask> {
        match self {
            CommandView::Resolving { resolver, .. } => match resolver.question() {
                Some(Question::Clients) => Some(
                    Ask { method: Method::Get, path: SensuEndpoint::Clients.path(), body: None },
                ),
                Some(Question::Client(name)) => Some(
                    Ask { method: Method::Get, path: "/clients/"@ + name, body: None },
                ),
                None => None,
            },
            CommandView::Running { action, batch } => match batch.pending() {
                Some(p) => Some(
                    Ask {
                        method: Method::Post,
                        path: match action {
                            Action::Silence => SensuEndpoint::Silenced.path(),
                            Action::Clear => SensuEndpoint::Clear.path(),
                        },
                        body: Some(p),
                    },
                ),
                None => None,
            },
            CommandView::Listing { .. } => Some(
                Ask { method: Method::Get, path: SensuEndpoint::Silenced.path(), body: None },
            ),
            CommandView::Finished { .. } => None,
        }
    }

    /// The line to print before the next request is sent, if it is one
    /// that silences or clears.
    pub open spec fn announce(self) -> Option<Seq<char>> {
        match self {
            CommandView::Running { action, batch } => match batch.pending() {
                Some(p) => Some(announcement(action, p)),
                None => None,
            },
            _ => None,
        }
    }

    /// The state after the answer `a` to what was asked.
    pub open spec fn after(self, a: Answer) -> CommandView {
        match self {
            CommandView::Resolving { action, resolver, checks, expire } => Self::settled(
                action,
                resolver.after(a),
                checks,
                expire,
            ),
            CommandView::Running { action, batch } => Self::running(action, batch.after(a)),
            CommandView::Listing { .. } => CommandView::Finished {
                code: if a is Failed {
                    1
                } else {
                    0
                },
            },
            CommandView::Finished { code } => CommandView::Finished { code },
        }
    }

    /// What is printed when the answer `a` arrives.
    pub open spec fn lines(self, a: Answer) -> Seq<Seq<char>> {
        match self {
            CommandView::Resolving { resolver, .. } => note_lines(resolver.notes(a))
                + Self::settled_lines(resolver.after(a)),
            CommandView::Running { batch, .. } => match a {
                Answer::Failed(e) => if batch.pending() is Some {
                    seq![e.text()]
                } else {
                    Seq::empty()
                },
                Answer::Found(_) => Seq::empty(),
            },
            CommandView::Listing { sub, chk } => match a {
                Answer::Found(Some(JsonView::Array(entries))) => match listing_text(
                    selected(entries, sub, chk),
                    true,
                ) {
                    Some(t) => seq![t],
                    None => Seq::empty(),
                },
                Answer::Found(_) => Seq::empty(),
                Answer::Failed(e) => seq![e.text()],
            },
            CommandView::Finished { .. } => Seq::empty(),
        }
    }

    /// The status to end with, once the command has finished.
    pub open spec fn exit_code(self) -> Option<u8> {
        match self {
            CommandView::Finished { code } => Some(code),
            _ => None,
        }
    }

    /// Whether the state is one that a command passes through: it has
    /// finished, or something is left to ask.
    pub open spec fn in_progress(self) -> bool {
        self.exit_code() is Some <==> self.ask() is None
    }

    /// The state after a run of answers, each to what was asked before it.
    pub open spec fn run(self, answers: Seq<Answer>) -> CommandView
        decreases answers.len(),
    {
        if answers.len() == 0 {
            self
        } else {
            self.after(answers[0]).run(answers.drop_first())
        }
    }

    /// What is asked of the server while `answers` come in: what the
    /// command asks before each answer, as long as it asks anything.
    pub open spec fn asked(self, answers: Seq<Answer>) -> Seq<Ask>
        decreases answers.len(),
    {
        if answers.len() == 0 {
            Seq::empty()
        } else {
            match self.ask() {
                Some(q) => seq![q] + self.after(answers[0]).asked(answers.drop_first()),
                None => Seq::empty(),
            }
        }
    }
}

/// The request that silences or clears what `p` names.
pub open spec fn post(action: Action, p: PayloadView) -> Ask {
    Ask {
        method: Method::Post,
        path: match action {
            Action::Silence => SensuEndpoint::Silenced.path(),
            Action::Clear => SensuEndpoint::Clear.path(),
        },
        body: Some(p),
    }
}

/// The requests that silence or clear what `plan` names, one for one.
pub open spec fn posts(action: Action, plan: Seq<PayloadView>) -> Seq<Ask> {
    plan.map_values(|p: PayloadView| post(action, p))
}

/// A command that sends a batch asks for exactly what the batch sends, and
/// ends where the batch ends.
pub proof fn lemma_command_follows_batch(action: Action, batch: BatchView, answers: Seq<Answer>)
    ensures
        CommandView::running(action, batch).asked(answers) == posts(
            action,
            batch.requests(answers),
        ),
        CommandView::running(action, batch).run(answers) == CommandView::running(
            action,
            batch.run(answers),
        ),
    decreases answers.len(),
{
    let c = CommandView::running(action, batch);
    if answers.len() == 0 {
    } else if batch.pending() is None {
        lemma_finished_stays(batch.exit_code(), answers);
        lemma_idle_batch(batch, answers);
    } else {
        lemma_command_follows_batch(action, batch.after(answers[0]), answers.drop_first());
        let rest = batch.after(answers[0]).requests(answers.drop_first());
    }
}

proof fn lemma_idle_batch(batch: BatchView, answers: Seq<Answer>)
    requires
        batch.pending() is None,
    ensures
        batch.run(answers) == batch,
    decreases answers.len(),
{
    if answers.len() > 0 {
        lemma_idle_batch(batch, answers.drop_first());
    }
}

/// Every pair in its order: where every request succeeds, a command with
/// resources and checks asks once for each pair of them, all checks of a
/// resource before the next resource, and ends with status zero.
pub proof fn lemma_command_sends_all(
    action: Action,
    resources: Seq<ResourceView>,
    checks: Seq<Seq<char>>,
    expire: Option<Expire>,
    answers: Seq<Answer>,
)
    requires
        answers.len() == resources.len() * checks.len(),
        forall|i: int| 0 <= i < answers.len() ==> answers[i] is Found,
    ensures
        CommandView::planned(action, Some(resources), Some(checks), expire).asked(answers)
            == posts(action, product(wire_names(resources), checks, expire)),
        CommandView::planned(action, Some(resources), Some(checks), expire).run(answers)
            == (CommandView::Finished { code: 0 }),
{
    let plan = product(wire_names(resources), checks, expire);
    lemma_product_len(wire_names(resources), checks, expire);
    lemma_all_sent(plan, answers);
    lemma_command_follows_batch(action, BatchView::fresh(plan), answers);
}

/// Fail-fast for a whole command: where the answers up to place `k` are
/// successes and the one at `k` is an error, the command asks for the
/// first `k + 1` requests of its plan and for nothing more, and ends with
/// status one.
pub proof fn lemma_command_fails_fast(
    action: Action,
    plan: Seq<PayloadView>,
    answers: Seq<Answer>,
    k: int,
)
    requires
        0 <= k < answers.len(),
        k < plan.len(),
        forall|i: int| 0 <= i < k ==> answers[i] is Found,
        answers[k] is Failed,
    ensures
        CommandView::running(action, BatchView::fresh(plan)).asked(answers) == posts(
            action,
            plan.take(k + 1),
        ),
        CommandView::running(action, BatchView::fresh(plan)).run(answers)
            == (CommandView::Finished { code: 1 }),
{
    lemma_fail_fast(plan, answers, k);
    lemma_command_follows_batch(action, BatchView::fresh(plan), answers);
}

/// Whatever the answer, the state that follows it is one that a
/// command passes through: the command has a status to end with exactly
/// when nothing is left to ask.
pub proof fn lemma_after_in_progress(c: CommandView, a: Answer)
    ensures
        c.after(a).in_progress(),
{
}

/// A command that silences or clears begins in a state that a command
/// passes through.
pub proof fn lemma_begin_in_progress(
    action: Action,
    target: Option<(ShushResourceType, Seq<Seq<char>>)>,
    checks: Option<Seq<Seq<char>>>,
    expire: Option<Expire>,
)
    ensures
        CommandView::begin(action, target, checks, expire).in_progress(),
{
}

/// A command that names neither resources nor checks sends nothing and
/// ends with a status that is not zero.
pub proof fn lemma_no_targets(action: Action, expire: Option<Expire>)
    ensures
        CommandView::begin(action, None, None, expire) == (CommandView::Finished { code: 1 }),
        CommandView::begin_lines(None, None) == seq![ConfigError::NoTargets.text()],
{
}

/// A request that fails ends the command at once, with a status that is
/// not zero: the requests behind it are never asked for.
pub proof fn lemma_failure_ends_command(action: Action, batch: BatchView, e: ErrorView)
    requires
        batch.pending() is Some,
    ensures
        (CommandView::Running { action, batch }).after(Answer::Failed(e)) == (CommandView::Finished {
            code: 1,
        }),
{
}

/// A finished command stays finished, with the same status, whatever is
/// fed to it.
pub proof fn lemma_finished_stays(code: u8, answers: Seq<Answer>)
    ensures
        (CommandView::Finished { code }).run(answers) == (CommandView::Finished { code }),
    decreases answers.len(),
{
    if answers.len() > 0 {
        lemma_finished_stays(code, answers.drop_first());
    }
}

fn no_lines() -> (lines: Vec<String>)
    ensures
        texts(lines@) == Seq::<Seq<char>>::empty(),
{
    let lines: Vec<String> = Vec::new();
    lines
}

fn one_line(line: String) -> (lines: Vec<String>)
    ensures
        texts(lines@) == seq![line@],
{
    let mut lines: Vec<String> = Vec::new();
    lines.push(line);
    lines
}

fn append_lines(first: Vec<String>, second: Vec<String>) -> (lines: Vec<String>)
    ensures
        texts(lines@) == texts(first@) + texts(second@),
{
    let mut lines = first;
    let mut i: usize = 0;
    while i < second.len()
        invariant
            i <= second.len(),
            texts(lines@) == texts(first@) + texts(second@).take(i as int),
        decreases second.len() - i,
    {
        let line = second[i].clone();
        assert(texts(lines@.push(line)) == texts(lines@).push(line@));
        lines.push(line);
        i += 1;
    }
    lines
}

/// The values of an optional list of resources.
pub open spec fn opt_resources(r: Option<Vec<SensuResource>>) -> Option<Seq<ResourceView>> {
    match r {
        Some(r) => Some(resource_views(r@)),
        None => None,
    }
}

/// The line that tells the operator of the request `p` before it is sent.
pub fn announce_request(action: Action, p: &SensuPayload) -> (s: String)
    ensures
        s@ == announcement(action, p@),
{
    let mut s = match action {
        Action::Silence => match (&p.res, &p.chk) {
            (Some(r), Some(c)) => {
                let mut s = String::from_str("Silencing check ");
                s.append(c.as_str());
                s.append(" on resource ");
                s.append(r.as_str());
                s
            },
            (Some(r), None) => {
                let mut s = String::from_str("Silencing all checks on resource ");
                s.append(r.as_str());
                s
            },
            (None, Some(c)) => {
                let mut s = String::from_str("Silencing checks ");
                s.append(c.as_str());
                s.append(" on all resources");
                s
            },
            (None, None) => String::from_str("Silencing all checks on all resources"),
        },
        Action::Clear => match (&p.res, &p.chk) {
            (Some(r), Some(c)) => {
                let mut s = String::from_str("Clearing silences on checks ");
                s.append(c.as_str());
                s.append(" on resources ");
                s.append(r.as_str());
                s
            },
            (Some(r), None) => {
                let mut s = String::from_str("Clearing silences on all checks on resources ");
                s.append(r.as_str());
                s
            },
            (None, Some(c)) => {
                let mut s = String::from_str("Clearing silences on checks ");
                s.append(c.as_str());
                s.append(" on all resources");
                s
            },
            (None, None) => String::from_str("Clearing silences on all checks on all resources"),
        },
    };
    if let Some(e) = p.expire {
        s.append(" and will ");
        s.append(e.to_text().as_str());
    }
    s
}

fn pattern_note(pattern: &Option<String>, broken: bool) -> (lines: Vec<String>)
    requires
        broken == is_broken(opt_text(*pattern)),
    ensures
        texts(lines@) == pattern_lines(opt_text(*pattern)),
{
    match pattern {
        Some(p) => {
            if broken {
                let mut s = String::from_str("WARNING: \"");
                s.append(p.as_str());
                s.append("\" is not a valid regular expression - matching everything");
                one_line(s)
            } else {
                no_lines()
            }
        },
        None => no_lines(),
    }
}

impl Command {
    fn running(action: Action, batch: Batch) -> (c: Command)
        ensures
            c@ == CommandView::running(action, batch@),
    {
        if batch.pending().is_none() {
            Command::Finished { code: batch.exit_code() }
        } else {
            Command::Running { action, batch }
        }
    }

    fn planned(
        action: Action,
        resources: Option<Vec<SensuResource>>,
        checks: Option<Vec<String>>,
        expire: Option<Expire>,
    ) -> (r: (Command, Vec<String>))
        ensures
            r.0@ == CommandView::planned(
                action,
                opt_resources(resources),
                opt_texts(checks),
                expire,
            ),
            texts(r.1@) == CommandView::planned_lines(opt_resources(resources), opt_texts(checks)),
    {
        match expand(resources.as_ref(), checks.as_ref(), expire) {
            Ok(plan) => (Command::running(action, Batch::new(plan)), no_lines()),
            Err(e) => (Command::Finished { code: 1 }, one_line(e.description())),
        }
    }

    fn settled(
        action: Action,
        resolver: Resolver,
        checks: Option<Vec<String>>,
        expire: Option<Expire>,
    ) -> (r: (Command, Vec<String>))
        ensures
            r.0@ == CommandView::settled(action, resolver@, opt_texts(checks), expire),
            texts(r.1@) == CommandView::settled_lines(resolver@),
    {
        if !resolver.is_finished() {
            return (Command::Resolving { action, resolver, checks, expire }, no_lines());
        }
        match resolver.outcome() {
            Some(Ok(found)) => Command::planned(action, Some(found), checks, expire),
            Some(Err(e)) => (Command::Finished { code: 1 }, one_line(e.description())),
            None => (Command::Finished { code: 1 }, no_lines()),
        }
    }

    /// Begins a command that silences or clears. Returns the first state
    /// and what to print.
    pub fn begin(
        action: Action,
        target: Option<ShushResources>,
        checks: Option<Vec<String>>,
        expire: Option<Expire>,
    ) -> (r: (Command, Vec<String>))
        ensures
            r.0@ == CommandView::begin(action, opt_target(target), opt_texts(checks), expire),
            texts(r.1@) == CommandView::begin_lines(opt_target(target), opt_texts(checks)),
    {
        match target {
            Some(t) => Command::settled(action, Resolver::start(t), checks, expire),
            None => Command::planned(action, None, checks, expire),
        }
    }

    /// Makes the request to send next; `None` when the command has nothing
    /// left to ask. A request that cannot be made is an error, to be handed
    /// to `receive` as the outcome of the request.
    pub fn request(&self, client: &SensuClient) -> (r: Option<Result<HttpRequest, SensuError>>)
        ensures
            match self@.ask() {
                Some(ask) => r matches Some(made) && client.makes(
                    ask.method,
                    ask.path,
                    ask.body,
                    made,
                ),
                None => r is None,
            },
    {
        match self {
            Command::Resolving { resolver, .. } => match resolver.endpoint() {
                Some(endpoint) => Some(client.request(Method::Get, endpoint, None)),
                None => None,
            },
            Command::Running { action, batch } => match batch.pending() {
                Some(p) => Some(
                    client.request(Method::Post, action.endpoint(), Some(p.duplicate())),
                ),
                None => None,
            },
            Command::Listing { .. } => Some(
                client.request(Method::Get, SensuEndpoint::Silenced, None),
            ),
            Command::Finished { .. } => None,
        }
    }

    /// The line to print before the next request is sent, where it is one
    /// that silences or clears.
    pub fn announce(&self) -> (r: Option<String>)
        ensures
            opt_text(r) == self@.announce(),
    {
        match self {
            Command::Running { action, batch } => match batch.pending() {
                Some(p) => Some(announce_request(*action, p)),
                None => None,
            },
            _ => None,
        }
    }

    /// Takes what the request came to. Returns the state that follows and
    /// what to print.
    pub fn receive(self, response: Result<Option<Json>, SensuError>) -> (r: (Command, Vec<String>))
        ensures
            r.0@ == self@.after(answer_of(response)),
            texts(r.1@) == self@.lines(answer_of(response)),
    {
        match self {
            Command::Resolving { action, resolver, checks, expire } => {
                let (resolver, notes) = resolver.receive(response);
                let (next, more) = Command::settled(action, resolver, checks, expire);
                (next, append_lines(lines_of(&notes), more))
            },
            Command::Running { action, batch } => {
                let lines = if batch.pending().is_some() {
                    match &response {
                        Err(e) => one_line(e.description()),
                        Ok(_) => no_lines(),
                    }
                } else {
                    no_lines()
                };
                let mut batch = batch;
                batch.receive(response);
                (Command::running(action, batch), lines)
            },
            Command::Listing { sub, chk } => match response {
                Ok(Some(j)) => match j.as_array() {
                    Some(entries) => {
                        let kept = select(entries, &sub, &chk);
                        let lines = match render(&kept, true) {
                            Some(t) => one_line(t),
                            None => no_lines(),
                        };
                        (Command::Finished { code: 0 }, lines)
                    },
                    None => (Command::Finished { code: 0 }, no_lines()),
                },
                Ok(None) => (Command::Finished { code: 0 }, no_lines()),
                Err(e) => (Command::Finished { code: 1 }, one_line(e.description())),
            },
            Command::Finished { code } => (Command::Finished { code }, no_lines()),
        }
    }

    /// The status to end with, once the command has finished.
    pub fn exit_code(&self) -> (r: Option<u8>)
        ensures
            r == self@.exit_code(),
    {
        match self {
            Command::Finished { code } => Some(*code),
            _ => None,
        }
    }
}

impl SensuClient {
    /// Begins to silence what `s` names. Returns the first state of the
    /// command and what to print.
    pub fn silence(s: SilenceOpts) -> (r: (Command, Vec<String>))
        ensures
            r.0@ == CommandView::begin(
                Action::Silence,
                opt_target(s.resources),
                opt_texts(s.checks),
                Some(s.expire),
            ),
            texts(r.1@) == CommandView::begin_lines(opt_target(s.resources), opt_texts(s.checks)),
    {
        Command::begin(Action::Silence, s.resources, s.checks, Some(s.expire))
    }

    /// Begins to clear the silences that `c` names. Returns the first state
    /// of the command and what to print.
    pub fn clear(c: ClearOpts) -> (r: (Command, Vec<String>))
        ensures
            r.0@ == CommandView::begin(
                Action::Clear,
                opt_target(c.resources),
                opt_texts(c.checks),
                None,
            ),
            texts(r.1@) == CommandView::begin_lines(opt_target(c.resources), opt_texts(c.checks)),
    {
        Command::begin(Action::Clear, c.resources, c.checks, None)
    }

    /// Begins to list the silences that match the patterns of `l`. Returns
    /// the first state of the command and what to print: a warning for each
    /// pattern that is no valid expression.
    pub fn list(l: ListOpts) -> (r: (Command, Vec<String>))
        ensures
            r.0@ == (CommandView::Listing {
                sub: filter_of(opt_text(l.sub)),
                chk: filter_of(opt_text(l.chk)),
            }),
            texts(r.1@) == pattern_lines(opt_text(l.sub)) + pattern_lines(opt_text(l.chk)),
    {
        let (sub, sub_broken) = Filter::new(as_str_of(&l.sub));
        let (chk, chk_broken) = Filter::new(as_str_of(&l.chk));
        let lines = append_lines(pattern_note(&l.sub, sub_broken), pattern_note(&l.chk, chk_broken));
        (Command::Listing { sub, chk }, lines)
    }
}

} // verus!
