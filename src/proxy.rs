//! A proxy that guards an application server with a per-route rate limiter.
use vstd::prelude::*;

use crate::text::str_eq;

verus! {

/// What the application answers for a route and a method.
pub open spec fn application_response(url: Seq<char>, method: Seq<char>) -> (u16, Seq<char>) {
    if url == "/app/status"@ && method == "GET"@ {
        (200, "Ok"@)
    } else if url == "/create/user"@ && method == "POST"@ {
        (201, "User Created"@)
    } else {
        (404, "Not Ok"@)
    }
}

/// The counter stored for a route: a route seen for the first time starts at one.
pub open spec fn stored_count(counts: Map<Seq<char>, nat>, route: Seq<char>) -> nat {
    if counts.contains_key(route) {
        counts[route]
    } else {
        1
    }
}

/// Whether a request on `route` may go through.
pub open spec fn admits(counts: Map<Seq<char>, nat>, max: nat, route: Seq<char>) -> bool {
    stored_count(counts, route) <= max
}

/// The counters after a request on `route`: an admitted request counts one more,
/// a rejected one leaves the counter as it stands.
pub open spec fn after_request(counts: Map<Seq<char>, nat>, max: nat, route: Seq<char>) -> Map<
    Seq<char>,
    nat,
> {
    if admits(counts, max, route) {
        counts.insert(route, stored_count(counts, route) + 1)
    } else {
        counts.insert(route, stored_count(counts, route))
    }
}

/// What the proxy answers: a rejection when the route is over quota, else the
/// application's own answer.
pub open spec fn proxy_response(
    counts: Map<Seq<char>, nat>,
    max: nat,
    url: Seq<char>,
    method: Seq<char>,
) -> (u16, Seq<char>) {
    if admits(counts, max, url) {
        application_response(url, method)
    } else {
        (403, "Not Allowed"@)
    }
}

/// With a quota of two, a fresh limiter lets the first two requests on a route
/// through and turns the third away.
pub proof fn lemma_quota_of_two(route: Seq<char>)
    ensures
        ({
            let c0 = Map::<Seq<char>, nat>::empty();
            let c1 = after_request(c0, 2, route);
            let c2 = after_request(c1, 2, route);
            &&& admits(c0, 2, route)
            &&& admits(c1, 2, route)
            &&& !admits(c2, 2, route)
        }),
{
}

/// Three status requests in a row on a fresh proxy with a quota of two are
/// answered `(200, "Ok")`, `(200, "Ok")`, then `(403, "Not Allowed")`.
pub proof fn lemma_status_three_times()
    ensures
        ({
            let url = "/app/status"@;
            let method = "GET"@;
            let c0 = Map::<Seq<char>, nat>::empty();
            let c1 = after_request(c0, 2, url);
            let c2 = after_request(c1, 2, url);
            &&& proxy_response(c0, 2, url, method) == (200u16, "Ok"@)
            &&& proxy_response(c1, 2, url, method) == (200u16, "Ok"@)
            &&& proxy_response(c2, 2, url, method) == (403u16, "Not Allowed"@)
        }),
{
}

/// Within quota, creating a user with `POST` answers `(201, "User Created")`, and
/// the same route with `GET` answers `(404, "Not Ok")`.
pub proof fn lemma_create_user(counts: Map<Seq<char>, nat>, max: nat)
    requires
        admits(counts, max, "/create/user"@),
    ensures
        proxy_response(counts, max, "/create/user"@, "POST"@) == (201u16, "User Created"@),
        proxy_response(counts, max, "/create/user"@, "GET"@) == (404u16, "Not Ok"@),
{
    reveal_strlit("/create/user");
    reveal_strlit("/app/status");
    reveal_strlit("GET");
    reveal_strlit("POST");
    assert("/create/user"@[1] != "/app/status"@[1]);
    assert("GET"@[0] != "POST"@[0]);
}

/// A request on one route leaves the counter of every other route, and so the
/// answer it gets, as it stands.
pub proof fn lemma_routes_independent(
    counts: Map<Seq<char>, nat>,
    max: nat,
    a: Seq<char>,
    b: Seq<char>,
)
    requires
        a != b,
    ensures
        after_request(counts, max, a).contains_key(b) == counts.contains_key(b),
        stored_count(after_request(counts, max, a), b) == stored_count(counts, b),
        admits(after_request(counts, max, a), max, b) == admits(counts, max, b),
{
}

pub trait Server {
    /// The state in which the server can take requests.
    spec fn well_formed(&self) -> bool;

    fn handle_request(&mut self, url: &str, method: &str) -> (r: (u16, String))
        requires
            old(self).well_formed(),
        ensures
            final(self).well_formed(),
    ;
}

/// The application server behind the proxy: a fixed routing table.
pub struct Application;

impl Server for Application {
    open spec fn well_formed(&self) -> bool {
        true
    }

    fn handle_request(&mut self, url: &str, method: &str) -> (r: (u16, String))
        ensures
            r.0 == application_response(url@, method@).0,
            r.1@ == application_response(url@, method@).1,
    {
        if str_eq(url, "/app/status") && str_eq(method, "GET") {
            return (200, "Ok".to_string());
        }
        if str_eq(url, "/create/user") && str_eq(method, "POST") {
            return (201, "User Created".to_string());
        }
        (404, "Not Ok".to_string())
    }
}

/// Per-route request counters with a fixed quota.
pub struct RateLimiter {
    max_allowed_requests: u32,
    routes: Vec<String>,
    counts: Vec<u32>,
    model: Ghost<Map<Seq<char>, nat>>,
}

impl View for RateLimiter {
    type V = Map<Seq<char>, nat>;

    closed spec fn view(&self) -> Map<Seq<char>, nat> {
        self.model@
    }
}

impl RateLimiter {
    /// The quota that the limiter was made with.
    pub closed spec fn max_allowed(&self) -> nat {
        self.max_allowed_requests as nat
    }

    pub closed spec fn wf(&self) -> bool {
        &&& self.routes.len() == self.counts.len()
        &&& self.max_allowed_requests < u32::MAX
        &&& forall|i: int, j: int|
            0 <= i < j < self.routes.len() ==> self.routes[i]@ != self.routes[j]@
        &&& forall|i: int|
            0 <= i < self.routes.len() ==> {
                &&& #[trigger] self.model@.contains_key(self.routes[i]@)
                &&& self.model@[self.routes[i]@] == self.counts[i] as nat
            }
        &&& forall|k: Seq<char>|
            #[trigger] self.model@.contains_key(k) ==> exists|i: int|
                0 <= i < self.routes.len() && self.routes[i]@ == k
        &&& forall|k: Seq<char>|
            #[trigger] self.model@.contains_key(k) ==> 1 <= self.model@[k]
                <= self.max_allowed_requests + 1
    }

    /// A limiter that lets `max_allowed_requests` requests through on each route.
    pub fn new(max_allowed_requests: u32) -> (r: Self)
        requires
            max_allowed_requests < u32::MAX,
        ensures
            r.wf(),
            r@ == Map::<Seq<char>, nat>::empty(),
            r.max_allowed() == max_allowed_requests,
    {
        RateLimiter {
            max_allowed_requests,
            routes: Vec::new(),
            counts: Vec::new(),
            model: Ghost(Map::empty()),
        }
    }

    /// Position of `route` among the counters, if it has one.
    fn find(&self, route: &str) -> (r: Option<usize>)
        requires
            self.wf(),
        ensures
            match r {
                Some(i) => i < self.routes.len() && self.routes[i as int]@ == route@,
                None => !self@.contains_key(route@),
            },
    {
        let mut i: usize = 0;
        while i < self.routes.len()
            invariant
                self.wf(),
                i <= self.routes.len(),
                forall|j: int| 0 <= j < i ==> self.routes[j]@ != route@,
            decreases self.routes.len() - i,
        {
            if str_eq(self.routes[i].as_str(), route) {
                return Some(i);
            }
            i = i + 1;
        }
        None
    }

    /// Decides whether a request on `route` may go through, and counts it if so.
    pub fn allow(&mut self, route: &str) -> (r: bool)
        requires
            old(self).wf(),
        ensures
            final(self).wf(),
            final(self).max_allowed() == old(self).max_allowed(),
            r == admits(old(self)@, old(self).max_allowed(), route@),
            final(self)@ == after_request(old(self)@, old(self).max_allowed(), route@),
    {
        let ghost old_model = self.model@;
        match self.find(route) {
            Some(i) => {
                let c = self.counts[i];
                assert(self.model@.contains_key(self.routes[i as int]@));
                assert(old_model[route@] == c);
                if c > self.max_allowed_requests {
                    assert(old_model.insert(route@, c as nat) =~= old_model);
                    return false;
                }
                self.counts.set(i, c + 1);
                self.model = Ghost(old_model.insert(route@, (c + 1) as nat));
                proof {
                    assert forall|k: Seq<char>| #[trigger]
                        self.model@.contains_key(k) implies exists|j: int|
                        0 <= j < self.routes.len() && self.routes[j]@ == k by {
                        if k != route@ {
                            assert(old_model.contains_key(k));
                            let j = choose|j: int|
                                0 <= j < old(self).routes.len() && old(self).routes[j]@ == k;
                            assert(self.routes[j]@ == k);
                        } else {
                            assert(self.routes[i as int]@ == k);
                        }
                    }
                    assert forall|j: int|
                        0 <= j < self.routes.len() implies {
                        &&& #[trigger] self.model@.contains_key(self.routes[j]@)
                        &&& self.model@[self.routes[j]@] == self.counts[j] as nat
                    } by {
                        assert(old_model.contains_key(self.routes[j]@));
                        if j != i {
                            assert(self.routes[j]@ != route@);
                        }
                    }
                }
                true
            },
            None => {
                let admitted = 1 <= self.max_allowed_requests;
                let stored: u32 = if admitted {
                    2
                } else {
                    1
                };
                let ghost n = self.routes.len();
                self.routes.push(route.to_string());
                self.counts.push(stored);
                self.model = Ghost(old_model.insert(route@, stored as nat));
                proof {
                    assert(self.routes[n as int]@ == route@);
                    assert forall|i: int|
                        0 <= i < self.routes.len() implies {
                        &&& #[trigger] self.model@.contains_key(self.routes[i]@)
                        &&& self.model@[self.routes[i]@] == self.counts[i] as nat
                    } by {
                        if i < n {
                            assert(self.routes[i] == old(self).routes[i]);
                            assert(old_model.contains_key(old(self).routes[i]@));
                            assert(self.routes[i]@ != route@);
                        }
                    }
                    assert forall|k: Seq<char>| #[trigger]
                        self.model@.contains_key(k) implies exists|j: int|
                        0 <= j < self.routes.len() && self.routes[j]@ == k by {
                        if k != route@ {
                            assert(old_model.contains_key(k));
                            let j = choose|j: int| 0 <= j < n && old(self).routes[j]@ == k;
                            assert(self.routes[j]@ == k);
                        }
                    }
                }
                admitted
            },
        }
    }
}

/// NGINX server: a proxy to an application server.
pub struct NginxServer {
    application: Application,
    rate_limiter: RateLimiter,
}

impl NginxServer {
    /// The request counters of the proxy.
    pub closed spec fn counts(&self) -> Map<Seq<char>, nat> {
        self.rate_limiter@
    }

    /// The quota of requests on each route.
    pub closed spec fn max_allowed(&self) -> nat {
        self.rate_limiter.max_allowed()
    }

    pub closed spec fn wf(&self) -> bool {
        self.rate_limiter.wf()
    }

    /// A proxy that lets two requests through on each route.
    pub fn new() -> (r: Self)
        ensures
            r.wf(),
            r.counts() == Map::<Seq<char>, nat>::empty(),
            r.max_allowed() == 2,
    {
        NginxServer { application: Application, rate_limiter: RateLimiter::new(2) }
    }

    /// Decides whether a request on `url` may go through, and counts it if so.
    pub fn check_rate_limiting(&mut self, url: &str) -> (r: bool)
        requires
            old(self).wf(),
        ensures
            final(self).wf(),
            final(self).max_allowed() == old(self).max_allowed(),
            r == admits(old(self).counts(), old(self).max_allowed(), url@),
            final(self).counts() == after_request(
                old(self).counts(),
                old(self).max_allowed(),
                url@,
            ),
    {
        self.rate_limiter.allow(url)
    }
}

impl Server for NginxServer {
    open spec fn well_formed(&self) -> bool {
        self.wf()
    }

    fn handle_request(&mut self, url: &str, method: &str) -> (r: (u16, String))
        ensures
            final(self).max_allowed() == old(self).max_allowed(),
            r.0 == proxy_response(old(self).counts(), old(self).max_allowed(), url@, method@).0,
            r.1@ == proxy_response(old(self).counts(), old(self).max_allowed(), url@, method@).1,
            final(self).counts() == after_request(
                old(self).counts(),
                old(self).max_allowed(),
                url@,
            ),
    {
        if !self.check_rate_limiting(url) {
            return (403, "Not Allowed".to_string());
        }
        self.application.handle_request(url, method)
    }
}

} // verus!
