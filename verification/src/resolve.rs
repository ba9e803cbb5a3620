//! From what the operator named to what the server knows.
//!
//! Fleet nodes are mapped to the clients that run on them, and clients and
//! subscriptions are checked against the server. An identifier that the
//! server does not know is dropped with a note to the operator; it never
//! stops the others from being resolved.

use vstd::prelude::*;
use vstd::string::*;
use crate::client::{answer_of, Answer, SensuClient};
use crate::directory::{directory_of, known_subscriptions, ClientDirectory, SubscriptionSet};
use crate::endpoint::SensuEndpoint;
use crate::err::{ErrorView, SensuError};
use crate::json::{json_views, opt_view, Json, JsonView};
use crate::resource::{resource_views, ResourceView, SensuResource};
use crate::resources::{ShushResourceType, ShushResources};
use crate::text::texts;

verus! {

/// Something the operator is told while resources are resolved.
#[derive(Debug, Clone, PartialEq, Eq)]
pub enum Note {
    /// No client runs on this fleet node; it may not have registered yet.
    UnknownNode(String),
    /// The server has no client of this name.
    UnknownClient(String),
    /// No client has this subscription; it may be misspelt.
    UnknownSubscription(String),
    /// The subscriptions could not be checked and are used as given; with
    /// the server's message where it sent one.
    Unvalidated(Option<String>),
}

/// The mathematical value of a `Note`.
pub enum NoteView {
    UnknownNode(Seq<char>),
    UnknownClient(Seq<char>),
    UnknownSubscription(Seq<char>),
    Unvalidated(Option<Seq<char>>),
}

impl View for Note {
    type V = NoteView;

    open spec fn view(&self) -> NoteView {
        match self {
            Note::UnknownNode(n) => NoteView::UnknownNode(n@),
            Note::UnknownClient(n) => NoteView::UnknownClient(n@),
            Note::UnknownSubscription(n) => NoteView::UnknownSubscription(n@),
            Note::Unvalidated(Some(m)) => NoteView::Unvalidated(Some(m@)),
            Note::Unvalidated(None) => NoteView::Unvalidated(None),
        }
    }
}

/// The values of a sequence of notes.
pub open spec fn note_views(notes: Seq<Note>) -> Seq<NoteView> {
    notes.map_values(|n: Note| n@)
}

impl NoteView {
    /// The lines shown to the operator.
    pub open spec fn text(self) -> Seq<char> {
        match self {
            NoteView::UnknownNode(n) => "WARNING: instance ID \""@ + n
                + "\" not associated with Sensu client ID\nIf you recently provisioned an instance, please wait for it to register with Sensu\n"@,
            NoteView::UnknownClient(n) => "WARNING: client \""@ + n
                + "\" is not registered with Sensu"@,
            NoteView::UnknownSubscription(n) => "WARNING: subscription \""@ + n
                + "\" is not known to Sensu - possible misspelling"@,
            NoteView::Unvalidated(Some(m)) => m + "\nProceeding without subscription validation"@,
            NoteView::Unvalidated(None) =>
                "Failed to pull data from API for subscriptions\nProceeding without subscription validation"@,
        }
    }
}

impl Note {
    /// The lines shown to the operator.
    pub fn to_text(&self) -> (s: String)
        ensures
            s@ == self@.text(),
    {
        match self {
            Note::UnknownNode(n) => {
                let mut s = String::from_str("WARNING: instance ID \"");
                s.append(n.as_str());
                s.append(
                    "\" not associated with Sensu client ID\nIf you recently provisioned an instance, please wait for it to register with Sensu\n",
                );
                s
            },
            Note::UnknownClient(n) => {
                let mut s = String::from_str("WARNING: client \"");
                s.append(n.as_str());
                s.append("\" is not registered with Sensu");
                s
            },
            Note::UnknownSubscription(n) => {
                let mut s = String::from_str("WARNING: subscription \"");
                s.append(n.as_str());
                s.append("\" is not known to Sensu - possible misspelling");
                s
            },
            Note::Unvalidated(Some(m)) => {
                let mut s = m.clone();
                s.append("\nProceeding without subscription validation");
                s
            },
            Note::Unvalidated(None) => String::from_str(
                "Failed to pull data from API for subscriptions\nProceeding without subscription validation",
            ),
        }
    }
}

/// The clients that run on `nodes`, in the order of the nodes. A node is
/// taken out of the directory when it is found, so that a node named twice
/// is found once.
pub open spec fn mapped_nodes(nodes: Seq<Seq<char>>, directory: Map<Seq<char>, Seq<char>>) -> Seq<
    Seq<char>,
>
    decreases nodes.len(),
{
    if nodes.len() == 0 {
        Seq::empty()
    } else if directory.contains_key(nodes[0]) {
        seq![directory[nodes[0]]] + mapped_nodes(nodes.drop_first(), directory.remove(nodes[0]))
    } else {
        mapped_nodes(nodes.drop_first(), directory)
    }
}

/// The nodes among `nodes` on which no client is found.
pub open spec fn missed_nodes(nodes: Seq<Seq<char>>, directory: Map<Seq<char>, Seq<char>>) -> Seq<
    Seq<char>,
>
    decreases nodes.len(),
{
    if nodes.len() == 0 {
        Seq::empty()
    } else if directory.contains_key(nodes[0]) {
        missed_nodes(nodes.drop_first(), directory.remove(nodes[0]))
    } else {
        seq![nodes[0]] + missed_nodes(nodes.drop_first(), directory)
    }
}

/// Looks each of `nodes` up in `directory`, in order, and takes out what it
/// finds. Returns the clients found and the nodes that were not.
pub fn map_nodes(nodes: &Vec<String>, directory: ClientDirectory) -> (r: (Vec<String>, Vec<String>))
    ensures
        texts(r.0@) == mapped_nodes(texts(nodes@), directory@),
        texts(r.1@) == missed_nodes(texts(nodes@), directory@),
{
    let mut directory = directory;
    let ghost all = texts(nodes@);
    let ghost first = directory@;
    let mut found: Vec<String> = Vec::new();
    let mut missed: Vec<String> = Vec::new();
    let mut i: usize = 0;
    assert(all.skip(0) == all);
    while i < nodes.len()
        invariant
            i <= nodes.len(),
            all == texts(nodes@),
            texts(found@) + mapped_nodes(all.skip(i as int), directory@) == mapped_nodes(
                all,
                first,
            ),
            texts(missed@) + missed_nodes(all.skip(i as int), directory@) == missed_nodes(
                all,
                first,
            ),
        decreases nodes.len() - i,
    {
        let ghost rest = all.skip(i as int);
        let ghost before = directory@;
        assert(rest.drop_first() == all.skip(i + 1));
        match directory.remove(nodes[i].as_str()) {
            Some(client) => {
                found.push(client);
            },
            None => {
                assert(directory@ == before);
                let node = nodes[i].clone();
                missed.push(node);
            },
        }
        i += 1;
    }
    (found, missed)
}

/// Whether an answer to the lookup of a client lets the client stand: every
/// answer does but not-found.
pub open spec fn confirms(a: Answer) -> bool {
    a != Answer::Failed(ErrorView::NotFound)
}

/// Whether the clients of a listing have the subscription `s`.
pub open spec fn is_known(clients: Seq<JsonView>) -> spec_fn(ResourceView) -> bool {
    |s: ResourceView| known_subscriptions(clients).contains(s.name())
}

/// Whether the clients of a listing lack the subscription `s`.
pub open spec fn is_unknown(clients: Seq<JsonView>) -> spec_fn(ResourceView) -> bool {
    |s: ResourceView| !known_subscriptions(clients).contains(s.name())
}

/// The subscriptions that stand after a listing of clients was asked for.
/// Where the listing is an array, those that one of its clients has; in
/// every other case, an error among them, all of them.
pub open spec fn validated_subscriptions(subscriptions: Seq<ResourceView>, listing: Answer) -> Seq<
    ResourceView,
> {
    match listing {
        Answer::Found(Some(JsonView::Array(clients))) => subscriptions.filter(is_known(clients)),
        _ => subscriptions,
    }
}

/// What the operator is told about the subscriptions: each one that no
/// client has, or that they could not be checked.
pub open spec fn subscription_notes(subscriptions: Seq<ResourceView>, listing: Answer) -> Seq<
    NoteView,
> {
    match listing {
        Answer::Found(Some(JsonView::Array(clients))) => subscriptions.filter(
            is_unknown(clients),
        ).map_values(|s: ResourceView| NoteView::UnknownSubscription(s.name())),
        Answer::Failed(ErrorView::Message(m)) => seq![NoteView::Unvalidated(Some(m))],
        _ => seq![NoteView::Unvalidated(None)],
    }
}

impl SensuClient {
    /// Reads the directory of clients by fleet node out of a listing.
    pub fn get_node_to_client_map(listing: &Option<Json>) -> (d: ClientDirectory)
        ensures
            d@ == directory_of(opt_view(*listing)),
    {
        ClientDirectory::from_listing(listing)
    }

    /// Whether a client stands after it was looked up: it does unless the
    /// server answered not-found.
    pub fn validate_client(response: &Result<Option<Json>, SensuError>) -> (b: bool)
        ensures
            b == confirms(answer_of(*response)),
    {
        match response {
            Err(SensuError::NotFound) => false,
            _ => true,
        }
    }

    /// Checks subscriptions against a listing of clients. A subscription
    /// stands where a client has it. Where the listing failed or is no
    /// array, nothing is checked and all stand.
    pub fn validate_subscriptions(
        subscriptions: Vec<SensuResource>,
        listing: &Result<Option<Json>, SensuError>,
    ) -> (r: (Vec<SensuResource>, Vec<Note>))
        ensures
            resource_views(r.0@) == validated_subscriptions(
                resource_views(subscriptions@),
                answer_of(*listing),
            ),
            note_views(r.1@) == subscription_notes(
                resource_views(subscriptions@),
                answer_of(*listing),
            ),
            listing is Err ==> r.0 == subscriptions,
    {
        let clients = match listing {
            Err(SensuError::NotFound) => {
                let notes = vec![Note::Unvalidated(None)];
                return (subscriptions, notes);
            },
            Err(SensuError::Message(m)) => {
                let notes = vec![Note::Unvalidated(Some(m.clone()))];
                return (subscriptions, notes);
            },
            Ok(None) => {
                let notes = vec![Note::Unvalidated(None)];
                return (subscriptions, notes);
            },
            Ok(Some(j)) => match j.as_array() {
                Some(clients) => clients,
                None => {
                    let notes = vec![Note::Unvalidated(None)];
                    return (subscriptions, notes);
                },
            },
        };
        let known = SubscriptionSet::from_clients(clients);
        let ghost views = json_views(clients@);
        let ghost all = resource_views(subscriptions@);
        let ghost to_note = |s: ResourceView| NoteView::UnknownSubscription(s.name());
        let mut kept: Vec<SensuResource> = Vec::new();
        let mut notes: Vec<Note> = Vec::new();
        let mut i: usize = 0;
        proof {
            reveal(Seq::filter);
        }
        while i < subscriptions.len()
            invariant
                i <= subscriptions.len(),
                all == resource_views(subscriptions@),
                known@ == known_subscriptions(views),
                to_note == |s: ResourceView| NoteView::UnknownSubscription(s.name()),
                resource_views(kept@) == all.take(i as int).filter(is_known(views)),
                note_views(notes@) == all.take(i as int).filter(is_unknown(views)).map_values(
                    to_note,
                ),
            decreases subscriptions.len() - i,
        {
            proof {
                reveal(Seq::filter);
                assert(all.take(i + 1).drop_last() == all.take(i as int));
            }
            if known.contains(subscriptions[i].name()) {
                let copy = subscriptions[i].duplicate();
                kept.push(copy);
            } else {
                let note = Note::UnknownSubscription(subscriptions[i].name().clone());
                assert(note_views(notes@.push(note)) == note_views(notes@).push(note@));
                notes.push(note);
            }
            i += 1;
        }
        assert(all.take(subscriptions.len() as int) == all);
        (kept, notes)
    }
}

/// What a listing of clients is awaited for.
#[derive(Debug, Clone, Copy, PartialEq, Eq, Structural)]
pub enum Wanted {
    /// To find the clients that run on fleet nodes.
    Nodes,
    /// To check subscriptions.
    Subscriptions,
}

/// The resolution of one target, between the requests that it needs.
///
/// `endpoint` says what to ask the server next, and `receive` takes the
/// answer. When `endpoint` has nothing more to ask, `outcome` holds the
/// resources.
#[derive(Debug, PartialEq, Eq)]
pub enum Resolver {
    /// The listing of clients has been asked for.
    Listing { wanted: Wanted, ids: Vec<String> },
    /// Clients are looked up one by one: `names[done]` is asked for, those
    /// before it have been, and `kept` are the ones that stand.
    Checking { names: Vec<String>, done: usize, kept: Vec<SensuResource> },
    /// Nothing more to ask.
    Finished(Result<Vec<SensuResource>, SensuError>),
}

/// The mathematical value of a `Resolver`.
pub enum ResolverView {
    Listing { wanted: Wanted, ids: Seq<Seq<char>> },
    Checking { names: Seq<Seq<char>>, done: nat, kept: Seq<ResourceView> },
    Finished(Result<Seq<ResourceView>, ErrorView>),
}

impl View for Resolver {
    type V = ResolverView;

    open spec fn view(&self) -> ResolverView {
        match self {
            Resolver::Listing { wanted, ids } => ResolverView::Listing {
                wanted: *wanted,
                ids: texts(ids@),
            },
            Resolver::Checking { names, done, kept } => ResolverView::Checking {
                names: texts(names@),
                done: *done as nat,
                kept: resource_views(kept@),
            },
            Resolver::Finished(Ok(found)) => ResolverView::Finished(Ok(resource_views(found@))),
            Resolver::Finished(Err(e)) => ResolverView::Finished(Err(e@)),
        }
    }
}

/// The names as clients.
pub open spec fn as_clients(names: Seq<Seq<char>>) -> Seq<ResourceView> {
    names.map_values(|n: Seq<char>| ResourceView::Client(n))
}

/// The names as subscriptions.
pub open spec fn as_subscriptions(names: Seq<Seq<char>>) -> Seq<ResourceView> {
    names.map_values(|n: Seq<char>| ResourceView::Subscription(n))
}

/// The lines of a sequence of notes.
pub open spec fn note_lines(notes: Seq<NoteView>) -> Seq<Seq<char>> {
    notes.map_values(|n: NoteView| n.text())
}

/// The lines of `notes`, one text for each note.
pub fn lines_of(notes: &Vec<Note>) -> (lines: Vec<String>)
    ensures
        texts(lines@) == note_lines(note_views(notes@)),
{
    let mut lines: Vec<String> = Vec::new();
    let ghost whole = note_lines(note_views(notes@));
    let mut i: usize = 0;
    while i < notes.len()
        invariant
            i <= notes.len(),
            whole == note_lines(note_views(notes@)),
            texts(lines@) == whole.take(i as int),
        decreases notes.len() - i,
    {
        let line = notes[i].to_text();
        assert(texts(lines@.push(line)) == texts(lines@).push(line@));
        lines.push(line);
        i += 1;
    }
    lines
}

/// The nodes as notes that no client runs on them.
pub open spec fn node_notes(nodes: Seq<Seq<char>>) -> Seq<NoteView> {
    nodes.map_values(|n: Seq<char>| NoteView::UnknownNode(n))
}

/// What the server is asked.
pub enum Question {
    /// For the listing of all clients.
    Clients,
    /// For the client of this name.
    Client(Seq<char>),
}

impl ResolverView {
    /// The state in which `names` are looked up one by one: finished at
    /// once where there are none.
    pub open spec fn checking(names: Seq<Seq<char>>) -> ResolverView {
        if names.len() == 0 {
            ResolverView::Finished(Ok(Seq::empty()))
        } else {
            ResolverView::Checking { names, done: 0, kept: Seq::empty() }
        }
    }

    /// The state in which the resolution of a target begins.
    pub open spec fn start(kind: ShushResourceType, ids: Seq<Seq<char>>) -> ResolverView {
        match kind {
            ShushResourceType::Node => ResolverView::Listing { wanted: Wanted::Nodes, ids },
            ShushResourceType::Client => Self::checking(ids),
            ShushResourceType::Sub => ResolverView::Listing { wanted: Wanted::Subscriptions, ids },
        }
    }

    /// What is asked in this state, if anything.
    pub open spec fn question(self) -> Option<Question> {
        match self {
            ResolverView::Listing { .. } => Some(Question::Clients),
            ResolverView::Checking { names, done, kept } => if done < names.len() {
                Some(Question::Client(names[done as int]))
            } else {
                None
            },
            ResolverView::Finished(_) => None,
        }
    }

    /// The state after the answer `a` to what was asked.
    ///
    /// A listing that fails ends the resolution of fleet nodes with its
    /// error, and leaves subscriptions unchecked. A client stands unless its
    /// lookup answers not-found.
    pub open spec fn after(self, a: Answer) -> ResolverView {
        match self {
            ResolverView::Listing { wanted: Wanted::Nodes, ids } => match a {
                Answer::Failed(e) => ResolverView::Finished(Err(e)),
                Answer::Found(listing) => Self::checking(mapped_nodes(ids, directory_of(listing))),
            },
            ResolverView::Listing { wanted: Wanted::Subscriptions, ids } => ResolverView::Finished(
                Ok(validated_subscriptions(as_subscriptions(ids), a)),
            ),
            ResolverView::Checking { names, done, kept } => if done >= names.len() {
                ResolverView::Finished(Ok(kept))
            } else {
                let kept = if confirms(a) {
                    kept.push(ResourceView::Client(names[done as int]))
                } else {
                    kept
                };
                if done + 1 == names.len() {
                    ResolverView::Finished(Ok(kept))
                } else {
                    ResolverView::Checking { names, done: done + 1, kept }
                }
            },
            ResolverView::Finished(r) => ResolverView::Finished(r),
        }
    }

    /// What the operator is told when the answer `a` arrives.
    pub open spec fn notes(self, a: Answer) -> Seq<NoteView> {
        match self {
            ResolverView::Listing { wanted: Wanted::Nodes, ids } => match a {
                Answer::Failed(_) => Seq::empty(),
                Answer::Found(listing) => node_notes(missed_nodes(ids, directory_of(listing))),
            },
            ResolverView::Listing { wanted: Wanted::Subscriptions, ids } => subscription_notes(
                as_subscriptions(ids),
                a,
            ),
            ResolverView::Checking { names, done, kept } => if done < names.len() && !confirms(a) {
                seq![NoteView::UnknownClient(names[done as int])]
            } else {
                Seq::empty()
            },
            ResolverView::Finished(_) => Seq::empty(),
        }
    }

    /// The resources or the error that the resolution ended with; `None`
    /// while there is more to ask.
    pub open spec fn outcome(self) -> Option<Result<Seq<ResourceView>, ErrorView>> {
        match self {
            ResolverView::Listing { .. } => None,
            ResolverView::Checking { names, done, kept } => if done < names.len() {
                None
            } else {
                Some(Ok(kept))
            },
            ResolverView::Finished(r) => Some(r),
        }
    }

    /// The state after a run of answers, each to what was asked before it.
    pub open spec fn run(self, answers: Seq<Answer>) -> ResolverView
        decreases answers.len(),
    {
        if answers.len() == 0 {
            self
        } else {
            self.after(answers[0]).run(answers.drop_first())
        }
    }
}

/// The clients that stand after each of `names` was looked up and answered
/// by the answer in its place.
pub open spec fn confirmed(names: Seq<Seq<char>>, answers: Seq<Answer>) -> Seq<ResourceView>
    decreases names.len(),
{
    if names.len() == 0 || answers.len() == 0 {
        Seq::empty()
    } else {
        (if confirms(answers[0]) {
            seq![ResourceView::Client(names[0])]
        } else {
            Seq::empty()
        }) + confirmed(names.drop_first(), answers.drop_first())
    }
}

proof fn lemma_checking_from(
    names: Seq<Seq<char>>,
    done: nat,
    kept: Seq<ResourceView>,
    answers: Seq<Answer>,
)
    requires
        done < names.len(),
        answers.len() == names.len() - done,
    ensures
        (ResolverView::Checking { names, done, kept }).run(answers) == ResolverView::Finished(
            Ok(kept + confirmed(names.skip(done as int), answers)),
        ),
    decreases answers.len(),
{
    let state = ResolverView::Checking { names, done, kept };
    let rest = names.skip(done as int);
    let grown = if confirms(answers[0]) {
        kept.push(ResourceView::Client(names[done as int]))
    } else {
        kept
    };
    assert(rest.drop_first() == names.skip(done as int + 1));
    if done + 1 == names.len() {
        assert(state.after(answers[0]).run(answers.drop_first()) == state.after(answers[0]));
        assert(confirmed(rest.drop_first(), answers.drop_first()) == Seq::<ResourceView>::empty());
        assert(kept + confirmed(rest, answers) == grown);
    } else {
        lemma_checking_from(names, done + 1, grown, answers.drop_first());
        assert(kept + confirmed(rest, answers) == grown + confirmed(
            names.skip(done as int + 1),
            answers.drop_first(),
        ));
    }
}

/// Clients are resolved one lookup each: when every lookup has been
/// answered, the resolution has finished with exactly the clients whose
/// lookup did not answer not-found, in the order given.
pub proof fn lemma_clients_resolve(names: Seq<Seq<char>>, answers: Seq<Answer>)
    requires
        answers.len() == names.len(),
    ensures
        ResolverView::start(ShushResourceType::Client, names).run(answers)
            == ResolverView::Finished(Ok(confirmed(names, answers))),
{
    if names.len() > 0 {
        lemma_checking_from(names, 0, Seq::empty(), answers);
        assert(names.skip(0) == names);
    }
}

/// Fleet nodes are resolved through the listing of clients: once it has
/// arrived and every client found in it has been looked up, the resolution
/// has finished with the clients that the listing maps the nodes to and
/// whose lookup did not answer not-found. Nodes that the listing does not
/// map are left out and do not stop the others.
pub proof fn lemma_nodes_resolve(
    nodes: Seq<Seq<char>>,
    listing: Option<JsonView>,
    answers: Seq<Answer>,
)
    requires
        answers.len() == mapped_nodes(nodes, directory_of(listing)).len(),
    ensures
        ResolverView::start(ShushResourceType::Node, nodes).run(
            seq![Answer::Found(listing)] + answers,
        ) == ResolverView::Finished(
            Ok(confirmed(mapped_nodes(nodes, directory_of(listing)), answers)),
        ),
{
    let all = seq![Answer::Found(listing)] + answers;
    assert(all.drop_first() == answers);
    lemma_clients_resolve(mapped_nodes(nodes, directory_of(listing)), answers);
}

/// A listing that fails ends the resolution of fleet nodes with its error.
pub proof fn lemma_nodes_need_listing(nodes: Seq<Seq<char>>, e: ErrorView)
    ensures
        ResolverView::start(ShushResourceType::Node, nodes).after(Answer::Failed(e))
            == ResolverView::Finished(Err(e)),
{
}

/// Subscriptions fail open: where the listing of clients fails, the
/// resolution finishes with every subscription as it was given.
pub proof fn lemma_subscriptions_fail_open(names: Seq<Seq<char>>, e: ErrorView)
    ensures
        ResolverView::start(ShushResourceType::Sub, names).after(Answer::Failed(e))
            == ResolverView::Finished(Ok(as_subscriptions(names))),
{
}

/// Whether the state is one from which no error can come.
pub open spec fn beyond_failure(state: ResolverView) -> bool {
    match state {
        ResolverView::Listing { wanted, .. } => wanted == Wanted::Subscriptions,
        ResolverView::Checking { .. } => true,
        ResolverView::Finished(r) => r is Ok,
    }
}

proof fn lemma_stays_beyond_failure(state: ResolverView, answers: Seq<Answer>)
    requires
        beyond_failure(state),
    ensures
        beyond_failure(state.run(answers)),
    decreases answers.len(),
{
    if answers.len() > 0 {
        lemma_stays_beyond_failure(state.after(answers[0]), answers.drop_first());
    }
}

/// No answer is fatal to the resolution of clients or of subscriptions:
/// whatever the server answers, it never ends in an error.
pub proof fn lemma_misses_are_not_fatal(
    kind: ShushResourceType,
    ids: Seq<Seq<char>>,
    answers: Seq<Answer>,
)
    requires
        kind != ShushResourceType::Node,
    ensures
        !(ResolverView::start(kind, ids).run(answers) matches ResolverView::Finished(Err(_))),
{
    lemma_stays_beyond_failure(ResolverView::start(kind, ids), answers);
}

fn subscriptions_from(ids: Vec<String>) -> (subs: Vec<SensuResource>)
    ensures
        resource_views(subs@) == as_subscriptions(texts(ids@)),
{
    let mut subs: Vec<SensuResource> = Vec::new();
    let mut i: usize = 0;
    while i < ids.len()
        invariant
            i <= ids.len(),
            resource_views(subs@) == as_subscriptions(texts(ids@)).take(i as int),
        decreases ids.len() - i,
    {
        let sub = SensuResource::Subscription(ids[i].clone());
        assert(resource_views(subs@.push(sub)) == resource_views(subs@).push(sub@));
        subs.push(sub);
        i += 1;
    }
    subs
}

fn notes_for_nodes(nodes: Vec<String>) -> (notes: Vec<Note>)
    ensures
        note_views(notes@) == node_notes(texts(nodes@)),
{
    let mut notes: Vec<Note> = Vec::new();
    let mut i: usize = 0;
    while i < nodes.len()
        invariant
            i <= nodes.len(),
            note_views(notes@) == node_notes(texts(nodes@)).take(i as int),
        decreases nodes.len() - i,
    {
        let note = Note::UnknownNode(nodes[i].clone());
        assert(note_views(notes@.push(note)) == note_views(notes@).push(note@));
        notes.push(note);
        i += 1;
    }
    notes
}

impl Resolver {
    fn checking(names: Vec<String>) -> (r: Resolver)
        ensures
            r@ == ResolverView::checking(texts(names@)),
    {
        if names.len() == 0 {
            let found: Vec<SensuResource> = Vec::new();
            assert(resource_views(found@) == Seq::<ResourceView>::empty());
            Resolver::Finished(Ok(found))
        } else {
            let kept: Vec<SensuResource> = Vec::new();
            assert(resource_views(kept@) == Seq::<ResourceView>::empty());
            Resolver::Checking { names, done: 0, kept }
        }
    }

    /// Begins the resolution of `target`.
    pub fn start(target: ShushResources) -> (r: Resolver)
        ensures
            r@ == ResolverView::start(target.res_type, target.names()),
    {
        match target.res_type {
            ShushResourceType::Node => Resolver::Listing {
                wanted: Wanted::Nodes,
                ids: target.resources,
            },
            ShushResourceType::Client => Resolver::checking(target.resources),
            ShushResourceType::Sub => Resolver::Listing {
                wanted: Wanted::Subscriptions,
                ids: target.resources,
            },
        }
    }

    /// The endpoint to ask next, with a GET; `None` when the resolution has
    /// finished.
    pub fn endpoint(&self) -> (r: Option<SensuEndpoint<'_>>)
        ensures
            match self@.question() {
                Some(Question::Clients) => r == Some(SensuEndpoint::Clients),
                Some(Question::Client(name)) => r matches Some(SensuEndpoint::Client(c)) && c@
                    == name,
                None => r is None,
            },
    {
        match self {
            Resolver::Listing { .. } => Some(SensuEndpoint::Clients),
            Resolver::Checking { names, done, kept } => {
                if *done < names.len() {
                    Some(SensuEndpoint::Client(names[*done].as_str()))
                } else {
                    None
                }
            },
            Resolver::Finished(_) => None,
        }
    }

    /// Takes the answer to what `endpoint` asked for. Returns the state
    /// that follows and what the operator is to be told.
    pub fn receive(self, response: Result<Option<Json>, SensuError>) -> (r: (Resolver, Vec<Note>))
        ensures
            r.0@ == self@.after(answer_of(response)),
            note_views(r.1@) == self@.notes(answer_of(response)),
    {
        let no_notes: Vec<Note> = Vec::new();
        match self {
            Resolver::Listing { wanted: Wanted::Nodes, ids } => match response {
                Err(e) => (Resolver::Finished(Err(e)), no_notes),
                Ok(listing) => {
                    let directory = ClientDirectory::from_listing(&listing);
                    let (names, missed) = map_nodes(&ids, directory);
                    (Resolver::checking(names), notes_for_nodes(missed))
                },
            },
            Resolver::Listing { wanted: Wanted::Subscriptions, ids } => {
                let (kept, notes) = SensuClient::validate_subscriptions(
                    subscriptions_from(ids),
                    &response,
                );
                (Resolver::Finished(Ok(kept)), notes)
            },
            Resolver::Checking { names, done, kept } => {
                if done >= names.len() {
                    return (Resolver::Finished(Ok(kept)), no_notes);
                }
                let mut kept = kept;
                let mut notes = no_notes;
                if SensuClient::validate_client(&response) {
                    let client = SensuResource::Client(names[done].clone());
                    assert(resource_views(kept@.push(client)) == resource_views(kept@).push(
                        client@,
                    ));
                    kept.push(client);
                } else {
                    let note = Note::UnknownClient(names[done].clone());
                    notes.push(note);
                }
                if done + 1 == names.len() {
                    (Resolver::Finished(Ok(kept)), notes)
                } else {
                    (Resolver::Checking { names, done: done + 1, kept }, notes)
                }
            },
            Resolver::Finished(r) => (Resolver::Finished(r), no_notes),
        }
    }

    /// Whether the resolution has finished.
    pub fn is_finished(&self) -> (b: bool)
        ensures
            b == self@.outcome() is Some,
    {
        match self {
            Resolver::Listing { .. } => false,
            Resolver::Checking { names, done, kept } => *done >= names.len(),
            Resolver::Finished(_) => true,
        }
    }

    /// The resources, or the error that ended the resolution; `None` while
    /// there is more to ask.
    pub fn outcome(self) -> (r: Option<Result<Vec<SensuResource>, SensuError>>)
        ensures
            match r {
                Some(Ok(found)) => self@.outcome() == Some(
                    Ok::<Seq<ResourceView>, ErrorView>(resource_views(found@)),
                ),
                Some(Err(e)) => self@.outcome() == Some(Err::<Seq<ResourceView>, ErrorView>(e@)),
                None => self@.outcome() is None,
            },
    {
        match self {
            Resolver::Listing { .. } => None,
            Resolver::Checking { names, done, kept } => {
                if done < names.len() {
                    None
                } else {
                    Some(Ok(kept))
                }
            },
            Resolver::Finished(r) => Some(r),
        }
    }
}

impl SensuClient {
    /// Begins to resolve `target` into resources of the server.
    pub fn map_to_sensu_resources(target: ShushResources) -> (r: Resolver)
        ensures
            r@ == ResolverView::start(target.res_type, target.names()),
    {
        Resolver::start(target)
    }
}

} // verus!
