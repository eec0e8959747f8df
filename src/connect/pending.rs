//! The pending-call table: matches each response envelope to the one
//! outstanding call that bears the same echo token.
use vstd::prelude::*;
use crate::api::resp::ApiRespBuilder;

verus! {

/// One outstanding call: its echo token, the response kind its data decodes
/// as, the instant at which it times out, and its envelope once one arrived.
#[derive(Clone, Debug)]
pub struct PendingCall {
    pub echo: String,
    pub resp_type: u8,
    pub deadline: u64,
    pub response: Option<ApiRespBuilder>,
}

/// What a caller finds when it looks at its call.
#[derive(Debug)]
pub enum CallPoll {
    /// The envelope arrived; the entry is gone.
    Ready { response: ApiRespBuilder, resp_type: u8 },
    /// The deadline passed first; the entry is gone.
    TimedOut,
    /// Nothing yet; the entry stays.
    Waiting,
    /// No call with this echo is outstanding.
    Unknown,
}

/// The table as a map from echo token to its outstanding call.
pub type CallMap = Map<Seq<char>, PendingCall>;

pub open spec fn poll_result(m: CallMap, echo: Seq<char>, now: u64) -> CallPoll {
    if !m.contains_key(echo) {
        CallPoll::Unknown
    } else if m[echo].response.is_some() {
        CallPoll::Ready { response: m[echo].response.unwrap(), resp_type: m[echo].resp_type }
    } else if now >= m[echo].deadline {
        CallPoll::TimedOut
    } else {
        CallPoll::Waiting
    }
}

/// A poll that settles the call removes its entry; any other leaves the table.
pub open spec fn after_poll(m: CallMap, echo: Seq<char>, now: u64) -> CallMap {
    match poll_result(m, echo, now) {
        CallPoll::Ready { .. } => m.remove(echo),
        CallPoll::TimedOut => m.remove(echo),
        _ => m,
    }
}

/// An envelope is taken when it names an outstanding call that has no
/// envelope yet.
pub open spec fn accepts(m: CallMap, env: ApiRespBuilder) -> bool {
    &&& env.echo.is_some()
    &&& m.contains_key(env.echo.unwrap()@)
    &&& m[env.echo.unwrap()@].response.is_none()
}

pub open spec fn after_resolve(m: CallMap, env: ApiRespBuilder) -> CallMap {
    if accepts(m, env) {
        let k = env.echo.unwrap()@;
        m.insert(k, PendingCall { response: Some(env), ..m[k] })
    } else {
        m
    }
}

/// The outstanding calls of one connection, keyed by echo token.
pub struct PendingCalls {
    calls: Vec<PendingCall>,
    table: Ghost<CallMap>,
}

impl View for PendingCalls {
    type V = CallMap;

    closed spec fn view(&self) -> CallMap {
        self.table@
    }
}

impl PendingCalls {
    /// Every stored call is in the map under its echo, every key of the map
    /// is stored, and no echo is stored twice.
    pub closed spec fn wf(&self) -> bool {
        &&& forall|i: int|
            0 <= i < self.calls@.len() ==> {
                &&& self.table@.contains_key(#[trigger] self.calls@[i].echo@)
                &&& self.table@[self.calls@[i].echo@] == self.calls@[i]
            }
        &&& forall|k: Seq<char>|
            #[trigger] self.table@.contains_key(k) ==> exists|i: int|
                0 <= i < self.calls@.len() && #[trigger] self.calls@[i].echo@ == k
        &&& forall|i: int, j: int|
            0 <= i < self.calls@.len() && 0 <= j < self.calls@.len() && i != j
                ==> #[trigger] self.calls@[i].echo@ != #[trigger] self.calls@[j].echo@
    }

    pub fn new() -> (r: PendingCalls)
        ensures
            r.wf(),
            r@ == CallMap::empty(),
    {
        PendingCalls { calls: Vec::new(), table: Ghost(Map::empty()) }
    }

    fn find(&self, echo: &String) -> (r: Option<usize>)
        requires
            self.wf(),
        ensures
            match r {
                Some(i) => i < self.calls@.len() && self.calls@[i as int].echo@ == echo@,
                None => !self@.contains_key(echo@),
            },
    {
        let mut i: usize = 0;
        while i < self.calls.len()
            invariant
                self.wf(),
                i <= self.calls@.len(),
                forall|j: int| 0 <= j < i ==> self.calls@[j].echo@ != echo@,
            decreases self.calls@.len() - i,
        {
            if self.calls[i].echo == *echo {
                return Some(i);
            }
            i += 1;
        }
        None
    }

    /// Whether a call with this echo is outstanding.
    pub fn contains(&self, echo: &String) -> (r: bool)
        requires
            self.wf(),
        ensures
            r == self@.contains_key(echo@),
    {
        match self.find(echo) {
            Some(_) => true,
            None => false,
        }
    }

    /// Adds a call; refused, leaving the table as it was, when its echo is
    /// already outstanding.
    pub fn register(&mut self, echo: String, resp_type: u8, deadline: u64) -> (r: bool)
        requires
            old(self).wf(),
        ensures
            final(self).wf(),
            r == !old(self)@.contains_key(echo@),
            r ==> final(self)@ == old(self)@.insert(
                echo@,
                (PendingCall { echo, resp_type, deadline, response: None }),
            ),
            !r ==> final(self)@ == old(self)@,
    {
        if self.find(&echo).is_some() {
            return false;
        }
        let ghost k = echo@;
        let call = PendingCall { echo, resp_type, deadline, response: None };
        let ghost old_calls = self.calls@;
        self.calls.push(call);
        self.table = Ghost(self.table@.insert(k, call));
        assert forall|a: int| 0 <= a < self.calls@.len() implies {
            &&& self.table@.contains_key(#[trigger] self.calls@[a].echo@)
            &&& self.table@[self.calls@[a].echo@] == self.calls@[a]
        } by {
            if a < old_calls.len() {
                assert(self.calls@[a] == old_calls[a]);
                assert(old_calls[a].echo@ != k);
            }
        }
        assert forall|a: int, c: int|
            0 <= a < self.calls@.len() && 0 <= c < self.calls@.len() && a != c
                implies #[trigger] self.calls@[a].echo@ != #[trigger] self.calls@[c].echo@ by {
            if a < old_calls.len() {
                assert(old_calls[a].echo@ != k);
            }
            if c < old_calls.len() {
                assert(old_calls[c].echo@ != k);
            }
        }
        assert forall|q: Seq<char>| #[trigger] self.table@.contains_key(q) implies exists|i: int|
            0 <= i < self.calls@.len() && #[trigger] self.calls@[i].echo@ == q by {
            if q == k {
                assert(self.calls@[old_calls.len() as int].echo@ == q);
            } else {
                let i = choose|i: int| 0 <= i < old_calls.len() && #[trigger] old_calls[i].echo@ == q;
                assert(self.calls@[i].echo@ == q);
            }
        }
        true
    }

    /// Hands an envelope to the call bearing its echo. An envelope without an
    /// echo, for no outstanding call, or for a call that already has one, is
    /// discarded and the table stays as it was.
    pub fn resolve(&mut self, env: ApiRespBuilder) -> (r: bool)
        requires
            old(self).wf(),
        ensures
            final(self).wf(),
            r == accepts(old(self)@, env),
            final(self)@ == after_resolve(old(self)@, env),
    {
        let found = match &env.echo {
            Some(e) => self.find(e),
            None => None,
        };
        match found {
            None => false,
            Some(i) => {
                if self.calls[i].response.is_some() {
                    return false;
                }
                let ghost k = self.calls@[i as int].echo@;
                let call = PendingCall {
                    echo: self.calls[i].echo.clone(),
                    resp_type: self.calls[i].resp_type,
                    deadline: self.calls[i].deadline,
                    response: Some(env),
                };
                let ghost old_calls = self.calls@;
                self.calls.set(i, call);
                self.table = Ghost(self.table@.insert(k, call));
                assert forall|a: int| 0 <= a < self.calls@.len() implies {
                    &&& self.table@.contains_key(#[trigger] self.calls@[a].echo@)
                    &&& self.table@[self.calls@[a].echo@] == self.calls@[a]
                } by {
                    if a != i {
                        assert(self.calls@[a] == old_calls[a]);
                        assert(old_calls[a].echo@ != k);
                    }
                }
                assert forall|a: int, c: int|
                    0 <= a < self.calls@.len() && 0 <= c < self.calls@.len() && a != c
                        implies #[trigger] self.calls@[a].echo@ != #[trigger] self.calls@[c].echo@ by {
                    assert(old_calls[a].echo@ != old_calls[c].echo@);
                }
                assert forall|q: Seq<char>| #[trigger] self.table@.contains_key(q) implies exists|j: int|
                    0 <= j < self.calls@.len() && #[trigger] self.calls@[j].echo@ == q by {
                    let j = choose|j: int| 0 <= j < old_calls.len() && #[trigger] old_calls[j].echo@ == q;
                    assert(self.calls@[j].echo@ == q);
                }
                true
            },
        }
    }

    fn remove_at(&mut self, i: usize) -> (r: PendingCall)
        requires
            old(self).wf(),
            i < old(self).calls@.len(),
        ensures
            final(self).wf(),
            r == old(self).calls@[i as int],
            old(self)@.contains_key(r.echo@),
            old(self)@[r.echo@] == r,
            final(self)@ == old(self)@.remove(r.echo@),
    {
        let ghost old_calls = self.calls@;
        let call = self.calls.remove(i);
        let ghost k = call.echo@;
        self.table = Ghost(self.table@.remove(k));
        assert forall|a: int| 0 <= a < self.calls@.len() implies {
            &&& self.table@.contains_key(#[trigger] self.calls@[a].echo@)
            &&& self.table@[self.calls@[a].echo@] == self.calls@[a]
        } by {
            let b = if a < i { a } else { a + 1 };
            assert(self.calls@[a] == old_calls[b]);
            assert(old_calls[b].echo@ != old_calls[i as int].echo@);
        }
        assert forall|q: Seq<char>| #[trigger] self.table@.contains_key(q) implies exists|j: int|
            0 <= j < self.calls@.len() && #[trigger] self.calls@[j].echo@ == q by {
            let j = choose|j: int| 0 <= j < old_calls.len() && #[trigger] old_calls[j].echo@ == q;
            assert(j != i);
            let a = if j < i { j } else { j - 1 };
            assert(self.calls@[a] == old_calls[j]);
        }
        assert forall|a: int, c: int|
            0 <= a < self.calls@.len() && 0 <= c < self.calls@.len() && a != c
                implies #[trigger] self.calls@[a].echo@ != #[trigger] self.calls@[c].echo@ by {
            let a2 = if a < i { a } else { a + 1 };
            let c2 = if c < i { c } else { c + 1 };
            assert(self.calls@[a] == old_calls[a2]);
            assert(self.calls@[c] == old_calls[c2]);
        }
        call
    }

    /// Looks at the call with this echo at instant `now`: hands out its
    /// envelope, or reports its timeout, and in both cases forgets the call.
    pub fn poll(&mut self, echo: &String, now: u64) -> (r: CallPoll)
        requires
            old(self).wf(),
        ensures
            final(self).wf(),
            r == poll_result(old(self)@, echo@, now),
            final(self)@ == after_poll(old(self)@, echo@, now),
    {
        match self.find(echo) {
            None => CallPoll::Unknown,
            Some(i) => {
                if self.calls[i].response.is_none() && now < self.calls[i].deadline {
                    return CallPoll::Waiting;
                }
                let call = self.remove_at(i);
                match call.response {
                    Some(response) => CallPoll::Ready { response, resp_type: call.resp_type },
                    None => CallPoll::TimedOut,
                }
            },
        }
    }

    /// Forgets the call with this echo, if any: a caller that stops waiting
    /// releases its entry.
    pub fn cancel(&mut self, echo: &String)
        requires
            old(self).wf(),
        ensures
            final(self).wf(),
            final(self)@ == old(self)@.remove(echo@),
    {
        match self.find(echo) {
            None => {
                assert(self@ =~= self@.remove(echo@));
            },
            Some(i) => {
                self.remove_at(i);
            },
        }
    }
}

/// Every call ends in exactly one outcome. Once its deadline has passed a
/// poll settles it, with its envelope or with a timeout, never leaving it
/// waiting; the settled call is gone, so no later poll or envelope can settle
/// it a second time.
pub proof fn lemma_call_settles_exactly_once(
    m: CallMap,
    echo: Seq<char>,
    now: u64,
    later: u64,
    env: ApiRespBuilder,
)
    requires
        m.contains_key(echo),
        now >= m[echo].deadline,
    ensures
        poll_result(m, echo, now) is Ready || poll_result(m, echo, now) is TimedOut,
        !after_poll(m, echo, now).contains_key(echo),
        poll_result(after_poll(m, echo, now), echo, later) is Unknown,
        env.echo.is_some() && env.echo.unwrap()@ == echo ==> !accepts(after_poll(m, echo, now), env),
{
}

/// Echo isolation: an envelope, or a poll, touches only the call bearing its
/// own echo; every other outstanding call stays exactly as it was.
pub proof fn lemma_echo_isolation(
    m: CallMap,
    env: ApiRespBuilder,
    polled: Seq<char>,
    now: u64,
    other: Seq<char>,
)
    requires
        m.contains_key(other),
        env.echo.is_none() || env.echo.unwrap()@ != other,
        polled != other,
    ensures
        after_resolve(m, env).contains_key(other),
        after_resolve(m, env)[other] == m[other],
        after_poll(m, polled, now).contains_key(other),
        after_poll(m, polled, now)[other] == m[other],
{
}

/// An envelope that names no outstanding call is discarded and changes
/// nothing.
pub proof fn lemma_unmatched_envelope_discarded(m: CallMap, env: ApiRespBuilder)
    requires
        env.echo.is_none() || !m.contains_key(env.echo.unwrap()@),
    ensures
        !accepts(m, env),
        after_resolve(m, env) == m,
{
}

} // verus!
