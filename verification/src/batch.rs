//! The requests that one command expands to, and their sending in order.
//!
//! A command silences or clears every pair of a resource and a check. The
//! requests go out one at a time, and the first that fails is the last:
//! what was sent before it stays in force on the server.

use vstd::prelude::*;
use vstd::string::*;
use crate::client::{answer_of, Answer};
use crate::endpoint::SensuEndpoint;
use crate::err::{ConfigError, ErrorView, SensuError};
use crate::expire::Expire;
use crate::json::Json;
use crate::payload::{payload_views, PayloadView, SensuPayload};
use crate::resource::{resource_views, wire_names, SensuResource};
use crate::text::texts;

verus! {

/// What a command does to silences.
#[derive(Debug, Clone, Copy, PartialEq, Eq, Structural)]
pub enum Action {
    /// Creates them.
    Silence,
    /// Clears them.
    Clear,
}

impl Action {
    /// The endpoint that requests of this action go to.
    pub fn endpoint(self) -> (e: SensuEndpoint<'static>)
        ensures
            e == match self {
                Action::Silence => SensuEndpoint::Silenced,
                Action::Clear => SensuEndpoint::Clear,
            },
    {
        match self {
            Action::Silence => SensuEndpoint::Silenced,
            Action::Clear => SensuEndpoint::Clear,
        }
    }
}

/// The requests for one resource and each of `checks`, in order.
pub open spec fn row(resource: Seq<char>, checks: Seq<Seq<char>>, expire: Option<Expire>) -> Seq<
    PayloadView,
> {
    checks.map_values(|c: Seq<char>| PayloadView { res: Some(resource), chk: Some(c), expire })
}

/// The requests for every pair of a resource and a check: resource by
/// resource, and for each resource check by check.
pub open spec fn product(
    resources: Seq<Seq<char>>,
    checks: Seq<Seq<char>>,
    expire: Option<Expire>,
) -> Seq<PayloadView>
    decreases resources.len(),
{
    if resources.len() == 0 {
        Seq::empty()
    } else {
        product(resources.drop_last(), checks, expire) + row(resources.last(), checks, expire)
    }
}

/// The requests of a command. With resources and checks, one for every
/// pair. With only one of the two, one for each of its elements, the other
/// left open. With neither, none can be made.
pub open spec fn expansion(
    resources: Option<Seq<Seq<char>>>,
    checks: Option<Seq<Seq<char>>>,
    expire: Option<Expire>,
) -> Option<Seq<PayloadView>> {
    match (resources, checks) {
        (Some(r), Some(c)) => Some(product(r, c, expire)),
        (Some(r), None) => Some(
            r.map_values(|r: Seq<char>| PayloadView { res: Some(r), chk: None, expire }),
        ),
        (None, Some(c)) => Some(
            c.map_values(|c: Seq<char>| PayloadView { res: None, chk: Some(c), expire }),
        ),
        (None, None) => None,
    }
}

/// The product holds one request for every pair, and the request for the
/// `i`-th resource and the `j`-th check stands at place `i * checks + j`:
/// all checks of the first resource come before any of the second.
pub proof fn lemma_product_order(
    resources: Seq<Seq<char>>,
    checks: Seq<Seq<char>>,
    expire: Option<Expire>,
    i: int,
    j: int,
)
    requires
        0 <= i < resources.len(),
        0 <= j < checks.len(),
    ensures
        product(resources, checks, expire).len() == resources.len() * checks.len(),
        0 <= i * checks.len() + j < product(resources, checks, expire).len(),
        product(resources, checks, expire)[i * checks.len() + j] == (PayloadView {
            res: Some(resources[i]),
            chk: Some(checks[j]),
            expire,
        }),
    decreases resources.len(),
{
    lemma_product_len(resources, checks, expire);
    let n = resources.len() as int;
    let m = checks.len() as int;
    let before = product(resources.drop_last(), checks, expire);
    lemma_product_len(resources.drop_last(), checks, expire);
    if i == n - 1 {
    } else {
        lemma_product_order(resources.drop_last(), checks, expire, i, j);
        assert(i * m + j < (n - 1) * m) by (nonlinear_arith)
            requires
                0 <= i < n - 1,
                0 <= j < m,
        ;
        assert(0 <= i * m + j) by (nonlinear_arith)
            requires
                0 <= i,
                0 <= j,
                0 <= m,
        ;
    }
    assert(0 <= i * m + j) by (nonlinear_arith)
        requires
            0 <= i,
            0 <= j,
            0 <= m,
    ;
}

/// The product holds one request for every pair.
pub proof fn lemma_product_len(
    resources: Seq<Seq<char>>,
    checks: Seq<Seq<char>>,
    expire: Option<Expire>,
)
    ensures
        product(resources, checks, expire).len() == resources.len() * checks.len(),
    decreases resources.len(),
{
    let n = resources.len() as int;
    let m = checks.len() as int;
    if n == 0 {
    } else {
        lemma_product_len(resources.drop_last(), checks, expire);
        assert((n - 1) * m + m == n * m) by (nonlinear_arith);
    }
}

/// Expands a command into its requests, in the order in which they are to
/// be sent.
pub fn expand(
    resources: Option<&Vec<SensuResource>>,
    checks: Option<&Vec<String>>,
    expire: Option<Expire>,
) -> (r: Result<Vec<SensuPayload>, ConfigError>)
    ensures
        match expansion(
            match resources {
                Some(r) => Some(wire_names(resource_views(r@))),
                None => None,
            },
            match checks {
                Some(c) => Some(texts(c@)),
                None => None,
            },
            expire,
        ) {
            Some(plan) => r matches Ok(v) && payload_views(v@) == plan,
            None => r == Err::<Vec<SensuPayload>, ConfigError>(ConfigError::NoTargets),
        },
{
    let mut plan: Vec<SensuPayload> = Vec::new();
    match (resources, checks) {
        (Some(res), Some(chk)) => {
            let ghost names = wire_names(resource_views(res@));
            let ghost all = texts(chk@);
            let mut i: usize = 0;
            while i < res.len()
                invariant
                    i <= res.len(),
                    names == wire_names(resource_views(res@)),
                    all == texts(chk@),
                    payload_views(plan@) == product(names.take(i as int), all, expire),
                decreases res.len() - i,
            {
                let name = res[i].to_text();
                let ghost before = payload_views(plan@);
                assert(names.take(i + 1).drop_last() == names.take(i as int));
                let mut j: usize = 0;
                while j < chk.len()
                    invariant
                        j <= chk.len(),
                        all == texts(chk@),
                        payload_views(plan@) == before + row(name@, all, expire).take(j as int),
                    decreases chk.len() - j,
                {
                    let p = SensuPayload {
                        res: Some(name.clone()),
                        chk: Some(chk[j].clone()),
                        expire,
                    };
                    assert(payload_views(plan@.push(p)) == payload_views(plan@).push(p@));
                    plan.push(p);
                    j += 1;
                }
                i += 1;
            }
            assert(names.take(res.len() as int) == names);
            Ok(plan)
        },
        (Some(res), None) => {
            let ghost names = wire_names(resource_views(res@));
            let ghost whole = names.map_values(
                |r: Seq<char>| PayloadView { res: Some(r), chk: None, expire },
            );
            let mut i: usize = 0;
            while i < res.len()
                invariant
                    i <= res.len(),
                    names == wire_names(resource_views(res@)),
                    whole == names.map_values(
                        |r: Seq<char>| PayloadView { res: Some(r), chk: None, expire },
                    ),
                    payload_views(plan@) == whole.take(i as int),
                decreases res.len() - i,
            {
                let p = SensuPayload { res: Some(res[i].to_text()), chk: None, expire };
                assert(payload_views(plan@.push(p)) == payload_views(plan@).push(p@));
                plan.push(p);
                i += 1;
            }
            Ok(plan)
        },
        (None, Some(chk)) => {
            let ghost all = texts(chk@);
            let ghost whole = all.map_values(
                |c: Seq<char>| PayloadView { res: None, chk: Some(c), expire },
            );
            let mut j: usize = 0;
            while j < chk.len()
                invariant
                    j <= chk.len(),
                    all == texts(chk@),
                    whole == all.map_values(
                        |c: Seq<char>| PayloadView { res: None, chk: Some(c), expire },
                    ),
                    payload_views(plan@) == whole.take(j as int),
                decreases chk.len() - j,
            {
                let p = SensuPayload { res: None, chk: Some(chk[j].clone()), expire };
                assert(payload_views(plan@.push(p)) == payload_views(plan@).push(p@));
                plan.push(p);
                j += 1;
            }
            Ok(plan)
        },
        (None, None) => Err(ConfigError::NoTargets),
    }
}

/// The requests of one command and how far their sending has come.
///
/// `pending` is the request to send next, and `receive` takes what it came
/// to. After a failure nothing is pending any more.
#[derive(Debug, PartialEq, Eq)]
pub struct Batch {
    plan: Vec<SensuPayload>,
    sent: usize,
    failure: Option<SensuError>,
}

/// The mathematical value of a `Batch`.
pub struct BatchView {
    /// The requests, in the order of sending.
    pub plan: Seq<PayloadView>,
    /// How many of them have been sent and have succeeded.
    pub sent: nat,
    /// The error that the batch stopped at.
    pub failure: Option<ErrorView>,
}

impl View for Batch {
    type V = BatchView;

    closed spec fn view(&self) -> BatchView {
        BatchView {
            plan: payload_views(self.plan@),
            sent: self.sent as nat,
            failure: match self.failure {
                Some(e) => Some(e@),
                None => None,
            },
        }
    }
}

impl BatchView {
    /// The batch of `plan` before anything is sent.
    pub open spec fn fresh(plan: Seq<PayloadView>) -> BatchView {
        BatchView { plan, sent: 0, failure: None }
    }

    /// The request to send next: the first one not sent yet, unless the
    /// batch has failed.
    pub open spec fn pending(self) -> Option<PayloadView> {
        if self.failure is None && self.sent < self.plan.len() {
            Some(self.plan[self.sent as int])
        } else {
            None
        }
    }

    /// The batch after the pending request came to `a`: one further on a
    /// success, stopped on any error.
    pub open spec fn after(self, a: Answer) -> BatchView {
        if self.pending() is None {
            self
        } else {
            match a {
                Answer::Found(_) => BatchView { sent: self.sent + 1, ..self },
                Answer::Failed(e) => BatchView { failure: Some(e), ..self },
            }
        }
    }

    /// The batch after a run of answers, each to the request pending
    /// before it.
    pub open spec fn run(self, answers: Seq<Answer>) -> BatchView
        decreases answers.len(),
    {
        if answers.len() == 0 {
            self
        } else {
            self.after(answers[0]).run(answers.drop_first())
        }
    }

    /// The requests sent while `answers` come in: the one pending before
    /// each answer, as long as one is pending.
    pub open spec fn requests(self, answers: Seq<Answer>) -> Seq<PayloadView>
        decreases answers.len(),
    {
        if answers.len() == 0 {
            Seq::empty()
        } else {
            match self.pending() {
                Some(p) => seq![p] + self.after(answers[0]).requests(answers.drop_first()),
                None => Seq::empty(),
            }
        }
    }

    /// The status that the process ends with: zero unless the batch failed.
    pub open spec fn exit_code(self) -> u8 {
        if self.failure is Some {
            1
        } else {
            0
        }
    }
}

/// A batch that has failed sends nothing more, whatever is fed to it, and
/// keeps its failure.
pub proof fn lemma_failed_batch_is_silent(b: BatchView, answers: Seq<Answer>)
    requires
        b.failure is Some,
    ensures
        b.run(answers) == b,
        b.requests(answers) == Seq::<PayloadView>::empty(),
        b.pending() is None,
        b.exit_code() != 0,
    decreases answers.len(),
{
    if answers.len() > 0 {
        lemma_failed_batch_is_silent(b, answers.drop_first());
    }
}

/// Fail-fast: where the answers up to place `k` are successes and the one
/// at `k` is an error, exactly the first `k + 1` requests of the plan are
/// sent. None after them is, however many answers follow, and the process
/// ends with a status that is not zero.
pub proof fn lemma_fail_fast(plan: Seq<PayloadView>, answers: Seq<Answer>, k: int)
    requires
        0 <= k < answers.len(),
        k < plan.len(),
        forall|i: int| 0 <= i < k ==> answers[i] is Found,
        answers[k] is Failed,
    ensures
        BatchView::fresh(plan).requests(answers) == plan.take(k + 1),
        BatchView::fresh(plan).run(answers).failure == Some(answers[k]->Failed_0),
        BatchView::fresh(plan).run(answers).exit_code() != 0,
        BatchView::fresh(plan).run(answers).pending() is None,
{
    lemma_fail_fast_from(BatchView::fresh(plan), answers, k);
}

proof fn lemma_fail_fast_from(b: BatchView, answers: Seq<Answer>, k: int)
    requires
        b.failure is None,
        0 <= k < answers.len(),
        b.sent + k < b.plan.len(),
        forall|i: int| 0 <= i < k ==> answers[i] is Found,
        answers[k] is Failed,
    ensures
        b.requests(answers) == b.plan.subrange(b.sent as int, b.sent + k + 1),
        b.run(answers).failure == Some(answers[k]->Failed_0),
        b.run(answers).sent == b.sent + k,
        b.run(answers).plan == b.plan,
    decreases k,
{
    let next = b.after(answers[0]);
    if k == 0 {
        lemma_failed_batch_is_silent(next, answers.drop_first());
    } else {
        lemma_fail_fast_from(next, answers.drop_first(), k - 1);
    }
}

/// Where every request succeeds, the whole plan is sent in its order and
/// the process ends with status zero.
pub proof fn lemma_all_sent(plan: Seq<PayloadView>, answers: Seq<Answer>)
    requires
        answers.len() == plan.len(),
        forall|i: int| 0 <= i < answers.len() ==> answers[i] is Found,
    ensures
        BatchView::fresh(plan).requests(answers) == plan,
        BatchView::fresh(plan).run(answers).pending() is None,
        BatchView::fresh(plan).run(answers).exit_code() == 0,
{
    lemma_all_sent_from(BatchView::fresh(plan), answers);
}

proof fn lemma_all_sent_from(b: BatchView, answers: Seq<Answer>)
    requires
        b.failure is None,
        b.sent + answers.len() == b.plan.len(),
        forall|i: int| 0 <= i < answers.len() ==> answers[i] is Found,
    ensures
        b.requests(answers) == b.plan.skip(b.sent as int),
        b.run(answers).failure is None,
        b.run(answers).sent == b.plan.len(),
        b.run(answers).plan == b.plan,
    decreases answers.len(),
{
    if answers.len() > 0 {
        lemma_all_sent_from(b.after(answers[0]), answers.drop_first());
    }
}

impl Batch {
    /// The batch of `plan` before anything is sent.
    pub fn new(plan: Vec<SensuPayload>) -> (b: Self)
        ensures
            b@ == BatchView::fresh(payload_views(plan@)),
    {
        Batch { plan, sent: 0, failure: None }
    }

    /// The request to send next, if any.
    pub fn pending(&self) -> (r: Option<&SensuPayload>)
        ensures
            match r {
                Some(p) => self@.pending() == Some(p@),
                None => self@.pending() is None,
            },
    {
        if self.failure.is_none() && self.sent < self.plan.len() {
            Some(&self.plan[self.sent])
        } else {
            None
        }
    }

    /// Takes what the pending request came to.
    pub fn receive(&mut self, response: Result<Option<Json>, SensuError>)
        ensures
            final(self)@ == old(self)@.after(answer_of(response)),
    {
        if self.failure.is_none() && self.sent < self.plan.len() {
            match response {
                Ok(_) => {
                    self.sent = self.sent + 1;
                },
                Err(e) => {
                    self.failure = Some(e);
                },
            }
        }
    }

    /// The error that the batch stopped at, if it did.
    pub fn failure(&self) -> (r: Option<&SensuError>)
        ensures
            match r {
                Some(e) => self@.failure == Some(e@),
                None => self@.failure is None,
            },
    {
        self.failure.as_ref()
    }

    /// The status that the process ends with once nothing is pending.
    pub fn exit_code(&self) -> (c: u8)
        ensures
            c == self@.exit_code(),
    {
        if self.failure.is_some() {
            1
        } else {
            0
        }
    }
}

} // verus!
