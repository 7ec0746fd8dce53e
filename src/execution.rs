//! One call, from the first request to the final response or error: a
//! single deadline over every hop, and the hops of the redirect chain.
use vstd::prelude::*;

use crate::error::{request, timeout, Error, Kind, Source};
use crate::location::{allowed_scheme, validate, Url, UrlView};
use crate::redirect::{hop_outcome, next_hop, Hop, Outcome, Policy};
use crate::request::{Request, RequestView, Response, ResponseView};

verus! {

/// The deadline of a call that starts at `now`: the request's own timeout
/// where it has one, else the client's, else none. It saturates at the
/// largest time.
pub open spec fn deadline_from(now: u64, request_timeout: Option<u64>, default_timeout: Option<u64>) -> Option<u64> {
    let t = if request_timeout is Some {
        request_timeout
    } else {
        default_timeout
    };
    match t {
        Some(ms) => Some(
            if now + ms > u64::MAX {
                u64::MAX
            } else {
                (now + ms) as u64
            },
        ),
        None => None,
    }
}

/// Whether the time `now` is past the deadline.
pub open spec fn expired(deadline: Option<u64>, now: u64) -> bool {
    deadline matches Some(d) && now > d
}

/// The deadline of a call that starts at `now`.
pub fn deadline_for(now: u64, request_timeout: Option<u64>, default_timeout: Option<u64>) -> (r: Option<u64>)
    ensures
        r == deadline_from(now, request_timeout, default_timeout),
{
    let t = if request_timeout.is_some() {
        request_timeout
    } else {
        default_timeout
    };
    match t {
        Some(ms) => Some(now.saturating_add(ms)),
        None => None,
    }
}

/// The state of a call.
pub struct ExecutionView {
    pub current: RequestView,
    pub deadline: Option<u64>,
    pub connect_timeout_ms: Option<u64>,
    pub policy: Policy,
    pub hops: nat,
    pub visited: Seq<UrlView>,
    pub pending: Option<(RequestView, ResponseView)>,
}

/// A call in progress: the request of the current hop, the deadline that
/// bounds the whole chain, and how many hops were followed.
#[derive(Debug)]
pub struct Execution {
    current: Request,
    deadline: Option<u64>,
    connect_timeout_ms: Option<u64>,
    policy: Policy,
    hops: usize,
    visited: Vec<Url>,
    pending: Option<(Request, Response)>,
}

/// What the caller does next.
#[derive(Debug)]
pub enum Step {
    /// Send the current request of the call.
    Send,
    /// Take the redirect decision of a custom policy, from `hops` and the
    /// URLs of `visited` and `current`, and hand it to `on_decision`.
    Decide,
    /// The call is over.
    Done(Result<Response, Error>),
}

/// Whether `s` ends the call with a timeout error for the URL of `current`.
pub open spec fn timed_out_at(s: Step, current: RequestView) -> bool {
    match s {
        Step::Done(Err(e)) => e.kind() == Kind::Request && e.timed_out() && e.url_spec() == Some(
            current.url,
        ),
        _ => false,
    }
}

/// Whether `s` ends the call with an error of this kind, cause and URL.
pub open spec fn fails_with(s: Step, kind: Kind, source: Option<Source>, url: Option<UrlView>) -> bool {
    match s {
        Step::Done(Err(e)) => e.kind() == kind && e.source_spec() == source && e.url_spec() == url,
        _ => false,
    }
}

/// Whether `s` ends the call with this response.
pub open spec fn answers_with(s: Step, v: ResponseView) -> bool {
    match s {
        Step::Done(Ok(f)) => f@ == v,
        _ => false,
    }
}

impl View for Execution {
    type V = ExecutionView;

    closed spec fn view(&self) -> ExecutionView {
        ExecutionView {
            current: self.current@,
            deadline: self.deadline,
            connect_timeout_ms: self.connect_timeout_ms,
            policy: self.policy,
            hops: self.hops as nat,
            visited: self.visited@.map_values(|u: Url| u@),
            pending: match self.pending {
                Some((q, a)) => Some((q@, a@)),
                None => None,
            },
        }
    }
}

impl Execution {
    /// The hop count stays within the policy's cap.
    pub open spec fn wf(self) -> bool {
        &&& match self@.policy {
            Policy::Limited(max) => self@.hops <= max,
            Policy::Never => self@.hops == 0,
            Policy::Custom => true,
        }
        &&& self@.pending is Some ==> self@.policy == Policy::Custom && self@.hops < usize::MAX
    }

    /// Starts a call at time `now`. The deadline is fixed here, once, for
    /// every hop. A URL whose scheme is not allowed ends the call before
    /// anything is sent.
    pub fn start(
        request: Request,
        policy: Policy,
        default_timeout_ms: Option<u64>,
        connect_timeout_ms: Option<u64>,
        now: u64,
    ) -> (r: (Execution, Step))
        ensures
            r.0.wf(),
            r.0@ == (ExecutionView {
                current: request@,
                deadline: deadline_from(now, request@.timeout_ms, default_timeout_ms),
                connect_timeout_ms,
                policy,
                hops: 0,
                visited: Seq::empty(),
                pending: None,
            }),
            allowed_scheme(request@.url.scheme) ==> r.1 is Send,
            !allowed_scheme(request@.url.scheme) ==> fails_with(
                r.1,
                Kind::Builder,
                Some(Source::BadScheme),
                Some(request@.url),
            ),
    {
        let deadline = deadline_for(now, request.timeout_ms(), default_timeout_ms);
        let step = match validate(request.url()) {
            Ok(()) => Step::Send,
            Err(e) => Step::Done(Err(e)),
        };
        let exec = Execution {
            current: request,
            deadline,
            connect_timeout_ms,
            policy,
            hops: 0,
            visited: Vec::new(),
            pending: None,
        };
        assert(exec@.visited =~= Seq::empty());
        (exec, step)
    }

    /// The request of the current hop.
    pub fn current(&self) -> (r: &Request)
        ensures
            r@ == self@.current,
    {
        &self.current
    }

    /// The URLs of the hops before the current one, in order.
    pub fn visited(&self) -> (r: &Vec<Url>)
        ensures
            r@.map_values(|u: Url| u@) == self@.visited,
    {
        &self.visited
    }

    /// Whether a custom policy's decision is awaited.
    pub fn awaits_decision(&self) -> (r: bool)
        ensures
            r == self@.pending is Some,
    {
        self.pending.is_some()
    }

    /// How many redirect hops were followed.
    pub fn hops(&self) -> (r: usize)
        ensures
            r == self@.hops,
    {
        self.hops
    }

    /// The deadline of the whole call.
    pub fn deadline(&self) -> (r: Option<u64>)
        ensures
            r == self@.deadline,
    {
        self.deadline
    }

    /// The time by which the connection of a hop that starts at `now` must
    /// be established. It does not move the deadline of the call.
    pub fn connect_deadline(&self, now: u64) -> (r: Option<u64>)
        ensures
            r == deadline_from(now, self@.connect_timeout_ms, None),
    {
        deadline_for(now, self.connect_timeout_ms, None)
    }

    /// How long the caller may still wait at time `now`; `None` where the
    /// call has no deadline.
    pub fn remaining(&self, now: u64) -> (r: Option<u64>)
        ensures
            match self@.deadline {
                Some(d) => r == Some(if now >= d { 0 } else { (d - now) as u64 }),
                None => r is None,
            },
    {
        match self.deadline {
            Some(d) => Some(if now >= d { 0 } else { d - now }),
            None => None,
        }
    }

    /// The deadline passed while the current hop was in flight; whatever it
    /// may still bring is dropped.
    pub fn on_expiry(&self) -> (r: Step)
        ensures
            timed_out_at(r, self@.current),
    {
        Step::Done(Err(timeout(self.current.url().duplicate())))
    }

    /// The transport failed the current hop at time `now` with `cause`.
    /// Past the deadline that is a timeout; else a request error that
    /// carries the cause and the URL.
    pub fn on_failure(&self, cause: Source, now: u64) -> (r: Step)
        ensures
            expired(self@.deadline, now) ==> timed_out_at(r, self@.current),
            !expired(self@.deadline, now) ==> fails_with(
                r,
                Kind::Request,
                Some(cause),
                Some(self@.current.url),
            ),
    {
        let url = self.current.url().duplicate();
        if self.is_expired(now) {
            Step::Done(Err(timeout(url)))
        } else {
            Step::Done(Err(request(cause).with_url(url)))
        }
    }

    /// Whether the time `now` is past the deadline.
    pub fn is_expired(&self, now: u64) -> (r: bool)
        ensures
            r == expired(self@.deadline, now),
    {
        match self.deadline {
            Some(d) => now > d,
            None => false,
        }
    }

    /// The current hop was answered with `response` at time `now`.
    ///
    /// Past the deadline the call ends with a timeout for the current URL.
    /// Else the redirect decision is taken: a final response is returned
    /// with the URL of the current hop, a failed redirect ends the call, and
    /// a followed one makes its request the current one and counts the hop.
    /// The deadline never changes.
    pub fn on_response(&mut self, response: Response, now: u64) -> (r: Step)
        requires
            old(self).wf(),
            old(self)@.pending is None,
        ensures
            final(self).wf(),
            final(self)@.deadline == old(self)@.deadline,
            final(self)@.connect_timeout_ms == old(self)@.connect_timeout_ms,
            final(self)@.policy == old(self)@.policy,
            expired(old(self)@.deadline, now) ==> timed_out_at(r, old(self)@.current)
                && final(self)@ == old(self)@,
            !expired(old(self)@.deadline, now) ==> match hop_outcome(
                old(self)@.current,
                response@.status.code(),
                response@.headers,
                old(self)@.policy,
                old(self)@.hops,
            ) {
                Outcome::Stop => final(self)@ == old(self)@ && answers_with(
                    r,
                    ResponseView { url: old(self)@.current.url, ..response@ },
                ),
                Outcome::Fail(s, u) => final(self)@ == old(self)@ && fails_with(
                    r,
                    Kind::Redirect,
                    Some(s),
                    Some(u),
                ),
                Outcome::Follow(q) => r is Send && final(self)@ == (ExecutionView {
                    current: q,
                    hops: old(self)@.hops + 1,
                    visited: old(self)@.visited.push(old(self)@.current.url),
                    ..old(self)@
                }),
                Outcome::Ask(q) => r is Decide && final(self)@ == (ExecutionView {
                    pending: Some((q, response@)),
                    ..old(self)@
                }),
            },
    {
        if self.is_expired(now) {
            return Step::Done(Err(timeout(self.current.url().duplicate())));
        }
        let hop = next_hop(&self.current, response.status(), response.headers(), &self.policy, self.hops);
        match hop {
            Hop::Stop => {
                let url = self.current.url().duplicate();
                Step::Done(Ok(response.with_url(url)))
            },
            Hop::Fail(e) => Step::Done(Err(e)),
            Hop::Follow(next) => {
                self.advance(next);
                Step::Send
            },
            Hop::Ask(next) => {
                self.pending = Some((next, response));
                Step::Decide
            },
        }
    }

    /// Makes `next` the current request and counts the hop.
    fn advance(&mut self, next: Request)
        requires
            old(self)@.hops < usize::MAX,
        ensures
            final(self)@ == (ExecutionView {
                current: next@,
                hops: old(self)@.hops + 1,
                visited: old(self)@.visited.push(old(self)@.current.url),
                ..old(self)@
            }),
    {
        let left = self.current.url().duplicate();
        self.current = next;
        let ghost before = self.visited@;
        self.visited.push(left);
        assert(self.visited@.map_values(|u: Url| u@) =~= before.map_values(|u: Url| u@).push(left@));
        self.hops = self.hops + 1;
    }

    /// The caller's decision on a redirect that a custom policy left to it:
    /// follow it, or take the redirect response as the final one, with the
    /// URL of the current hop.
    pub fn on_decision(&mut self, follow: bool) -> (r: Step)
        requires
            old(self).wf(),
            old(self)@.pending is Some,
        ensures
            final(self).wf(),
            final(self)@.pending is None,
            follow ==> r is Send && final(self)@ == (ExecutionView {
                current: old(self)@.pending->Some_0.0,
                hops: old(self)@.hops + 1,
                visited: old(self)@.visited.push(old(self)@.current.url),
                pending: None,
                ..old(self)@
            }),
            !follow ==> final(self)@ == (ExecutionView { pending: None, ..old(self)@ })
                && answers_with(
                r,
                ResponseView { url: old(self)@.current.url, ..old(self)@.pending->Some_0.1 },
            ),
    {
        let pending = self.pending.take();
        match pending {
            Some((next, response)) => {
                if follow {
                    self.advance(next);
                    Step::Send
                } else {
                    let url = self.current.url().duplicate();
                    Step::Done(Ok(response.with_url(url)))
                }
            },
            None => Step::Decide,
        }
    }
}

} // verus!
