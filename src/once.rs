use vstd::prelude::*;

verus! {

/// Where a cache stands in its life.
#[derive(Clone, Copy, Debug, PartialEq, Eq, Structural)]
pub enum Phase {
    /// No value, and nobody is computing one.
    Empty,
    /// One caller is running the producer; the others wait for it.
    Initializing,
    /// The value is stored; no transition leaves this phase.
    Ready,
}

/// What a caller that asks for the value is told to do.
#[derive(Clone, Copy, Debug, PartialEq, Eq, Structural)]
pub enum Step {
    /// Run the producer, then report `complete` or `abandon`.
    Produce,
    /// Another caller is producing: wait until it reports, then ask again.
    Wait,
    /// The value is stored: read it.
    Read,
}

/// What happens to a cache, one event at a time.
pub ghost enum Event<T> {
    /// A caller asks for the value.
    Arrive,
    /// The running producer returned this value.
    Succeed(T),
    /// The running producer failed.
    Fail,
}

/// The abstract state of a cache: its phase, its stored value, and how many
/// times a producer has been started.
pub ghost struct OnceModel<T> {
    pub phase: Phase,
    pub value: Option<T>,
    pub runs: nat,
}

impl<T> OnceModel<T> {
    pub open spec fn empty() -> Self {
        OnceModel { phase: Phase::Empty, value: None, runs: 0 }
    }

    /// A value is stored exactly when the phase is `Ready`.
    pub open spec fn wf(self) -> bool {
        (self.phase is Ready) == (self.value is Some)
    }

    /// The step handed to a caller that arrives in this state.
    pub open spec fn step(self) -> Step {
        match self.phase {
            Phase::Empty => Step::Produce,
            Phase::Initializing => Step::Wait,
            Phase::Ready => Step::Read,
        }
    }

    /// A caller arrives; the first one in an empty cache becomes the producer.
    pub open spec fn arrive(self) -> Self {
        if self.phase is Empty {
            OnceModel { phase: Phase::Initializing, runs: self.runs + 1, ..self }
        } else {
            self
        }
    }

    /// The running producer returned `v`.
    pub open spec fn succeed(self, v: T) -> Self {
        if self.phase is Initializing {
            OnceModel { phase: Phase::Ready, value: Some(v), ..self }
        } else {
            self
        }
    }

    /// The running producer failed: the cache is empty again.
    pub open spec fn fail(self) -> Self {
        if self.phase is Initializing {
            OnceModel { phase: Phase::Empty, ..self }
        } else {
            self
        }
    }

    pub open spec fn apply(self, e: Event<T>) -> Self {
        match e {
            Event::Arrive => self.arrive(),
            Event::Succeed(v) => self.succeed(v),
            Event::Fail => self.fail(),
        }
    }

    pub open spec fn run(self, es: Seq<Event<T>>) -> Self
        decreases es.len(),
    {
        if es.len() == 0 {
            self
        } else {
            self.apply(es[0]).run(es.drop_first())
        }
    }

    /// One whole call by a lone caller whose producer, if it runs, returns `v`.
    pub open spec fn call(self, v: T) -> Self {
        self.arrive().succeed(v)
    }

    /// Lone calls one after another; the `i`-th producer, if it runs, returns
    /// `vs[i]`.
    pub open spec fn calls(self, vs: Seq<T>) -> Self
        decreases vs.len(),
    {
        if vs.len() == 0 {
            self
        } else {
            self.call(vs[0]).calls(vs.drop_first())
        }
    }

    /// `n` callers arrive, one after another.
    pub open spec fn arrivals(self, n: nat) -> Self
        decreases n,
    {
        if n == 0 {
            self
        } else {
            self.arrive().arrivals((n - 1) as nat)
        }
    }

    /// `k` attempts in a row whose producer fails.
    pub open spec fn failed_attempts(self, k: nat) -> Self
        decreases k,
    {
        if k == 0 {
            self
        } else {
            self.arrive().fail().failed_attempts((k - 1) as nat)
        }
    }
}

/// A slot that is filled at most once. It tells exactly one caller at a time
/// to run the producer, and keeps the value that a producer returned.
pub struct OnceCache<T> {
    phase: Phase,
    slot: Option<T>,
    runs: Ghost<nat>,
}

impl<T> View for OnceCache<T> {
    type V = OnceModel<T>;

    closed spec fn view(&self) -> OnceModel<T> {
        OnceModel { phase: self.phase, value: self.slot, runs: self.runs@ }
    }
}


impl<T> OnceCache<T> {
    /// An empty cache.
    pub fn new() -> (r: Self)
        ensures
            r@ == OnceModel::<T>::empty(),
    {
        OnceCache { phase: Phase::Empty, slot: None, runs: Ghost(0) }
    }

    pub fn phase(&self) -> (r: Phase)
        ensures
            r == self@.phase,
    {
        self.phase
    }

    /// The stored value, if there is one.
    pub fn get(&self) -> (r: Option<&T>)
        ensures
            match r {
                Some(x) => self@.value == Some(*x),
                None => self@.value is None,
            },
    {
        self.slot.as_ref()
    }

    /// A caller asks for the value: the first caller in an empty cache is
    /// told to produce it, callers during production to wait, callers after
    /// it to read.
    pub fn begin(&mut self) -> (s: Step)
        requires
            old(self)@.wf(),
        ensures
            s == old(self)@.step(),
            final(self)@ == old(self)@.arrive(),
            final(self)@.wf(),
    {
        match self.phase {
            Phase::Empty => {
                self.phase = Phase::Initializing;
                self.runs = Ghost(self.runs@ + 1);
                Step::Produce
            },
            Phase::Initializing => Step::Wait,
            Phase::Ready => Step::Read,
        }
    }

    /// The producer that `begin` started returned `v`: store it for good.
    pub fn complete(&mut self, v: T)
        requires
            old(self)@.wf(),
            old(self)@.phase is Initializing,
        ensures
            final(self)@ == old(self)@.succeed(v),
            final(self)@.wf(),
    {
        self.phase = Phase::Ready;
        self.slot = Some(v);
    }

    /// The producer that `begin` started failed: the cache is empty again,
    /// and the next caller to arrive produces.
    pub fn abandon(&mut self)
        requires
            old(self)@.wf(),
            old(self)@.phase is Initializing,
        ensures
            final(self)@ == old(self)@.fail(),
            final(self)@.wf(),
    {
        self.phase = Phase::Empty;
    }

    /// The stored value; in an empty cache, `producer` runs first and its
    /// result is stored. The producer runs only when the cache is empty.
    pub fn get_or_init<F: FnOnce() -> T>(&mut self, producer: F) -> (r: &T)
        requires
            old(self)@.wf(),
            !(old(self)@.phase is Initializing),
            old(self)@.phase is Empty ==> producer.requires(()),
        ensures
            final(self)@ == old(self)@.call(*r),
            final(self)@.value == Some(*r),
            final(self)@.wf(),
            old(self)@.phase is Ready ==> final(self)@ == old(self)@,
            old(self)@.phase is Empty ==> producer.ensures((), *r),
    {
        if let Step::Produce = self.begin() {
            let v = producer();
            self.complete(v);
        }
        self.slot.as_ref().unwrap()
    }

    /// As `get_or_init`, with a producer that may fail. On failure the cache
    /// is left empty, so that a later call produces again.
    pub fn get_or_try_init<E, F: FnOnce() -> Result<T, E>>(&mut self, producer: F) -> (r: Result<&T, E>)
        requires
            old(self)@.wf(),
            !(old(self)@.phase is Initializing),
            old(self)@.phase is Empty ==> producer.requires(()),
        ensures
            final(self)@.wf(),
            old(self)@.phase is Ready ==> final(self)@ == old(self)@ && r is Ok,
            match r {
                Ok(x) => {
                    &&& final(self)@ == old(self)@.call(*x)
                    &&& final(self)@.value == Some(*x)
                    &&& old(self)@.phase is Empty ==> producer.ensures((), Ok::<T, E>(*x))
                },
                Err(e) => {
                    &&& old(self)@.phase is Empty
                    &&& producer.ensures((), Err::<T, E>(e))
                    &&& final(self)@ == old(self)@.arrive().fail()
                },
            },
    {
        if let Step::Produce = self.begin() {
            match producer() {
                Ok(v) => self.complete(v),
                Err(e) => {
                    self.abandon();
                    return Err(e);
                },
            }
        }
        Ok(self.slot.as_ref().unwrap())
    }
}


/// Once a cache is `Ready`, no sequence of events changes it: the stored
/// value is never replaced, moved or dropped, and every later caller reads it.
pub proof fn lemma_ready_is_terminal<T>(m: OnceModel<T>, es: Seq<Event<T>>)
    requires
        m.phase is Ready,
    ensures
        m.run(es) == m,
    decreases es.len(),
{
    if es.len() > 0 {
        lemma_ready_is_terminal(m, es.drop_first());
    }
}

/// Lone calls on a `Ready` cache neither run a producer nor change it.
proof fn lemma_ready_calls<T>(m: OnceModel<T>, vs: Seq<T>)
    requires
        m.phase is Ready,
    ensures
        m.calls(vs) == m,
    decreases vs.len(),
{
    if vs.len() > 0 {
        lemma_ready_calls(m, vs.drop_first());
    }
}

/// Callers that arrive while a cache is not empty start no producer.
proof fn lemma_arrivals_not_empty<T>(m: OnceModel<T>, n: nat)
    requires
        !(m.phase is Empty),
    ensures
        m.arrivals(n) == m,
    decreases n,
{
    if n > 0 {
        lemma_arrivals_not_empty(m, (n - 1) as nat);
    }
}

/// Any number `n >= 1` of calls on a new cache run the producer exactly once,
/// and every one of them returns the value that this one run produced.
pub proof fn lemma_exactly_once<T>(vs: Seq<T>)
    requires
        vs.len() >= 1,
    ensures
        forall|k: int|
            1 <= k <= vs.len() ==> #[trigger] OnceModel::<T>::empty().calls(vs.take(k)) == (
            OnceModel { phase: Phase::Ready, value: Some(vs[0]), runs: 1 }),
{
    let ready = OnceModel::<T> { phase: Phase::Ready, value: Some(vs[0]), runs: 1 };
    assert forall|k: int| 1 <= k <= vs.len() implies #[trigger] OnceModel::<T>::empty().calls(
        vs.take(k),
    ) == ready by {
        let ws = vs.take(k);
        assert(ws[0] == vs[0]);
        assert(OnceModel::<T>::empty().call(ws[0]) == ready);
        lemma_ready_calls(ready, ws.drop_first());
    }
}

/// On a cache that no producer is filling, the value after call `k` equals
/// the value after the first call, for every `k`.
pub proof fn lemma_stable<T>(m: OnceModel<T>, vs: Seq<T>)
    requires
        m.wf(),
        !(m.phase is Initializing),
        vs.len() >= 1,
    ensures
        m.calls(vs.take(1)).value is Some,
        forall|k: int|
            1 <= k <= vs.len() ==> (#[trigger] m.calls(vs.take(k))).value == m.calls(
                vs.take(1),
            ).value,
{
    let first = m.call(vs[0]);
    assert(first.phase is Ready);
    assert(first.value is Some);
    assert forall|k: int| 1 <= k <= vs.len() implies (#[trigger] m.calls(vs.take(k))).value
        == m.calls(vs.take(1)).value by {
        let ws = vs.take(k);
        assert(ws[0] == vs[0]);
        lemma_ready_calls(first, ws.drop_first());
        lemma_ready_calls(first, vs.take(1).drop_first());
    }
}

/// `n >= 1` callers that reach a new cache at once: the first is told to
/// produce and the others to wait, so the producer runs once; after it
/// returns `v`, every caller that asks again reads `v`.
pub proof fn lemma_race<T>(n: nat, v: T)
    requires
        n >= 1,
    ensures
        OnceModel::<T>::empty().arrivals(0).step() == Step::Produce,
        forall|i: nat|
            1 <= i < n ==> (#[trigger] OnceModel::<T>::empty().arrivals(i)).step() == Step::Wait,
        OnceModel::<T>::empty().arrivals(n) == (OnceModel::<T> {
            phase: Phase::Initializing,
            value: None,
            runs: 1,
        }),
        forall|j: nat|
            (#[trigger] OnceModel::<T>::empty().arrivals(n).succeed(v).arrivals(j)) == (
            OnceModel { phase: Phase::Ready, value: Some(v), runs: 1 }),
        OnceModel::<T>::empty().arrivals(n).succeed(v).step() == Step::Read,
{
    let busy = OnceModel::<T> { phase: Phase::Initializing, value: None, runs: 1 };
    let done = OnceModel::<T> { phase: Phase::Ready, value: Some(v), runs: 1 };
    assert(OnceModel::<T>::empty().arrive() == busy);
    assert forall|i: nat| 1 <= i <= n implies #[trigger] OnceModel::<T>::empty().arrivals(i)
        == busy by {
        lemma_arrivals_not_empty(busy, (i - 1) as nat);
    }
    assert(busy.succeed(v) == done);
    assert forall|j: nat| #[trigger] OnceModel::<T>::empty().arrivals(n).succeed(v).arrivals(j)
        == done by {
        lemma_arrivals_not_empty(done, j);
    }
}

/// After `k` failed attempts a cache is empty again, and the next caller is
/// told to produce; once that producer returns `v`, every later call returns
/// `v` without running a producer.
pub proof fn lemma_retry_after_failure<T>(k: nat, v: T, vs: Seq<T>)
    ensures
        OnceModel::<T>::empty().failed_attempts(k) == (OnceModel::<T> {
            phase: Phase::Empty,
            value: None,
            runs: k,
        }),
        OnceModel::<T>::empty().failed_attempts(k).step() == Step::Produce,
        OnceModel::<T>::empty().failed_attempts(k).call(v) == (OnceModel {
            phase: Phase::Ready,
            value: Some(v),
            runs: k + 1,
        }),
        OnceModel::<T>::empty().failed_attempts(k).call(v).calls(vs)
            == OnceModel::<T>::empty().failed_attempts(k).call(v),
{
    lemma_failed_attempts::<T>(k);
    lemma_ready_calls(OnceModel::<T>::empty().failed_attempts(k).call(v), vs);
}

proof fn lemma_failed_attempts<T>(k: nat)
    ensures
        OnceModel::<T>::empty().failed_attempts(k) == (OnceModel::<T> {
            phase: Phase::Empty,
            value: None,
            runs: k,
        }),
{
    lemma_failed_attempts_from(OnceModel::<T>::empty(), k);
}

proof fn lemma_failed_attempts_from<T>(m: OnceModel<T>, k: nat)
    requires
        m.phase is Empty,
    ensures
        m.failed_attempts(k) == (OnceModel { runs: m.runs + k, ..m }),
    decreases k,
{
    if k > 0 {
        let next = m.arrive().fail();
        assert(next == (OnceModel { runs: m.runs + 1, ..m }));
        lemma_failed_attempts_from(next, (k - 1) as nat);
    }
}

} // verus!
