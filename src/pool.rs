use vstd::prelude::*;

use crate::error::Error;

verus! {

/// The namespace every pooled connection works in.
pub const NAMESPACE: &'static str = "demo";

/// The database every pooled connection works in.
pub const DATABASE: &'static str = "demo";

/// The settings of the connection pool: where the backend is, and how many
/// live connections there may be at most.
#[derive(Debug, Clone, PartialEq, Eq)]
pub struct Manager {
    url: String,
    max_size: usize,
}

pub struct ManagerView {
    pub url: Seq<char>,
    pub max_size: nat,
}

impl View for Manager {
    type V = ManagerView;

    closed spec fn view(&self) -> ManagerView {
        ManagerView { url: self.url@, max_size: self.max_size as nat }
    }
}

/// One call on a backend connection that readying it takes.
#[derive(Debug, Clone, Copy, PartialEq, Eq, Structural)]
pub enum BackendCall {
    /// Open a connection to the backend.
    Connect,
    /// Drop whatever session state the connection holds.
    Invalidate,
    /// Select `NAMESPACE` and `DATABASE`.
    UseContext,
}

/// The calls that make a new connection ready.
pub open spec fn create_plan() -> Seq<BackendCall> {
    seq![BackendCall::Connect, BackendCall::UseContext]
}

/// The calls that make a connection ready again before it is handed out.
pub open spec fn recycle_plan() -> Seq<BackendCall> {
    seq![BackendCall::Invalidate, BackendCall::UseContext]
}

impl Manager {
    /// Pool settings; a pool that may hold no connection is refused.
    pub fn new(url: &str, size: usize) -> (r: Result<Manager, Error>)
        ensures
            r is Ok <==> size >= 1,
            r matches Ok(m) ==> m@.url == url@ && m@.max_size == size,
            r matches Err(e) ==> e == Error::ConfigurationInvalid,
    {
        if size == 0 {
            Err(Error::ConfigurationInvalid)
        } else {
            Ok(Manager { url: String::from_str(url), max_size: size })
        }
    }

    pub fn url(&self) -> (r: &str)
        ensures
            r@ == self@.url,
    {
        self.url.as_str()
    }

    pub fn max_size(&self) -> (r: usize)
        ensures
            r == self@.max_size,
    {
        self.max_size
    }

    /// The upkeep that makes a new connection.
    pub fn create(&self) -> (u: Upkeep)
        ensures
            u@.plan == create_plan(),
            u@.done == 0,
    {
        let u = Upkeep { plan: vec![BackendCall::Connect, BackendCall::UseContext], done: 0 };
        assert(u@.plan =~= create_plan());
        u
    }

    /// The upkeep run on an idle connection each time it is checked out.
    pub fn recycle(&self) -> (u: Upkeep)
        ensures
            u@.plan == recycle_plan(),
            u@.done == 0,
    {
        let u = Upkeep { plan: vec![BackendCall::Invalidate, BackendCall::UseContext], done: 0 };
        assert(u@.plan =~= recycle_plan());
        u
    }
}

/// A series of backend calls in progress; the first failure ends it.
pub struct Upkeep {
    plan: Vec<BackendCall>,
    done: usize,
}

pub struct UpkeepView {
    pub plan: Seq<BackendCall>,
    pub done: nat,
}

impl View for Upkeep {
    type V = UpkeepView;

    closed spec fn view(&self) -> UpkeepView {
        UpkeepView { plan: self.plan@, done: self.done as nat }
    }
}

/// Where an upkeep stands: waiting on the call at an index, or finished.
pub enum UpkeepOutcome {
    Waiting(nat),
    Finished(Result<(), Error>),
}

/// An upkeep of `len` calls, `done` of them through, learns whether the
/// next one succeeded.
pub open spec fn upkeep_next(len: nat, done: nat, succeeded: bool) -> UpkeepOutcome {
    if !succeeded {
        UpkeepOutcome::Finished(Err(Error::BackendUnavailable))
    } else if done + 1 >= len {
        UpkeepOutcome::Finished(Ok(()))
    } else {
        UpkeepOutcome::Waiting(done + 1)
    }
}

/// An upkeep fed the outcomes of its calls in order.
pub open spec fn upkeep_run(len: nat, done: nat, outcomes: Seq<bool>) -> UpkeepOutcome
    decreases outcomes.len(),
{
    if outcomes.len() == 0 {
        UpkeepOutcome::Waiting(done)
    } else {
        match upkeep_next(len, done, outcomes[0]) {
            UpkeepOutcome::Waiting(d) => upkeep_run(len, d, outcomes.drop_first()),
            finished => finished,
        }
    }
}

/// What comes of recording one call's outcome.
pub enum UpkeepProgress {
    Continue(Upkeep),
    Finished(Result<(), Error>),
}

impl UpkeepProgress {
    pub open spec fn outcome(&self) -> UpkeepOutcome {
        match self {
            UpkeepProgress::Continue(u) => UpkeepOutcome::Waiting(u@.done),
            UpkeepProgress::Finished(r) => UpkeepOutcome::Finished(*r),
        }
    }
}

impl Upkeep {
    #[verifier::type_invariant]
    spec fn well_formed(self) -> bool {
        self.done < self.plan.len()
    }

    /// The call to perform next.
    pub fn call(&self) -> (c: BackendCall)
        ensures
            self@.done < self@.plan.len(),
            c == self@.plan[self@.done as int],
    {
        proof {
            use_type_invariant(self);
        }
        self.plan[self.done]
    }

    /// Records whether the call just performed succeeded.
    pub fn advance(self, succeeded: bool) -> (p: UpkeepProgress)
        ensures
            p.outcome() == upkeep_next(self@.plan.len(), self@.done, succeeded),
            p matches UpkeepProgress::Continue(u) ==> u@.plan == self@.plan,
    {
        proof {
            use_type_invariant(&self);
        }
        if !succeeded {
            UpkeepProgress::Finished(Err(Error::BackendUnavailable))
        } else if self.done + 1 >= self.plan.len() {
            UpkeepProgress::Finished(Ok(()))
        } else {
            UpkeepProgress::Continue(Upkeep { plan: self.plan, done: self.done + 1 })
        }
    }
}

/// An upkeep readies its connection exactly when every one of its calls
/// succeeds; if any fails it ends at once as `BackendUnavailable`, so the
/// pool drops that connection instead of handing it out.
pub proof fn lemma_upkeep_needs_every_call(len: nat, done: nat, outcomes: Seq<bool>)
    requires
        done < len,
    ensures
        upkeep_run(len, done, outcomes) == UpkeepOutcome::Finished(Ok(())) <==> (outcomes.len()
            >= len - done && forall|i: int| 0 <= i < len - done ==> #[trigger] outcomes[i]),
        upkeep_run(len, done, outcomes) matches UpkeepOutcome::Finished(Err(e)) ==> (e
            == Error::BackendUnavailable && exists|i: int|
            0 <= i < len - done && i < outcomes.len() && !#[trigger] outcomes[i]),
    decreases outcomes.len(),
{
    if outcomes.len() > 0 {
        let tail = outcomes.drop_first();
        if outcomes[0] && done + 1 < len {
            lemma_upkeep_needs_every_call(len, done + 1, tail);
            assert forall|i: int| 0 <= i < tail.len() implies tail[i] == outcomes[i + 1] by {}
            let k = len - done;
            if outcomes.len() >= k && forall|i: int| 0 <= i < k ==> #[trigger] outcomes[i] {
                assert forall|i: int| 0 <= i < k - 1 implies #[trigger] tail[i] by {
                    assert(outcomes[i + 1]);
                }
            }
            if tail.len() >= k - 1 && forall|i: int| 0 <= i < k - 1 ==> #[trigger] tail[i] {
                assert forall|i: int| 0 <= i < k implies #[trigger] outcomes[i] by {
                    if i > 0 {
                        assert(tail[i - 1]);
                    }
                }
            }
            if upkeep_run(len, done + 1, tail) matches UpkeepOutcome::Finished(Err(_)) {
                let j = choose|j: int|
                    0 <= j < len - (done + 1) && j < tail.len() && !#[trigger] tail[j];
                assert(!outcomes[j + 1]);
            }
        } else if !outcomes[0] {
            assert(!outcomes[0]);
        }
    }
}

} // verus!
