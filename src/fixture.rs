//! A small two-method service, `test.TestAPI`, wired by hand as generated
//! bindings would wire it: `Ping` echoes the name it is sent, `Boom` always
//! fails with an `internal` error.
use std::sync::Arc;
use vstd::prelude::*;
use crate::error::{ServerError, ErrorCode, internal, meta_map};
use crate::client::ClientError;
use crate::router::{DispatchError, Router, RouterBuilder, has_path, lookup};

verus! {

#[derive(Debug, Clone)]
pub struct PingRequest {
    pub name: String,
}

#[derive(Debug, Clone)]
pub struct PingResponse {
    pub name: String,
}

/// What a handler's result holds: the response's name, or the error's code,
/// message and metadata.
pub type Outcome = Result<Seq<char>, (ErrorCode, Seq<char>, Map<Seq<char>, Seq<char>>)>;

pub open spec fn outcome_of(r: Result<PingResponse, ServerError>) -> Outcome {
    match r {
        Ok(resp) => Ok(resp.name@),
        Err(e) => Err((e.code, e.msg@, meta_map(e.meta@))),
    }
}

/// The server side of `test.TestAPI`. An implementation's result depends on
/// itself and on the request's name alone.
pub trait TestAPI {
    spec fn ping_outcome(&self, name: Seq<char>) -> Outcome;

    spec fn boom_outcome(&self, name: Seq<char>) -> Outcome;

    fn ping(&self, req: PingRequest) -> (r: Result<PingResponse, ServerError>)
        ensures
            outcome_of(r) == self.ping_outcome(req.name@);

    fn boom(&self, req: PingRequest) -> (r: Result<PingResponse, ServerError>)
        ensures
            outcome_of(r) == self.boom_outcome(req.name@);
}

/// The client side of `test.TestAPI`: each method returns the response or
/// the reason the call failed.
pub trait TestAPIClient {
    fn ping(&self, req: PingRequest) -> Result<PingResponse, ClientError>;

    fn boom(&self, req: PingRequest) -> Result<PingResponse, ClientError>;
}

/// The fixture server.
pub struct TestAPIServer;

impl TestAPI for TestAPIServer {
    open spec fn ping_outcome(&self, name: Seq<char>) -> Outcome {
        Ok(name)
    }

    open spec fn boom_outcome(&self, name: Seq<char>) -> Outcome {
        Err((ErrorCode::Internal, "boom!"@, Map::empty()))
    }

    /// Echoes the request's name.
    fn ping(&self, req: PingRequest) -> (r: Result<PingResponse, ServerError>) {
        Ok(PingResponse { name: req.name })
    }

    /// Fails with `internal` and the message `boom!`, whatever the request.
    fn boom(&self, req: PingRequest) -> (r: Result<PingResponse, ServerError>) {
        let e = internal("boom!");
        assert(meta_map(e.meta@) =~= Map::empty());
        Err(e)
    }
}

/// A server shared through `Arc` serves by forwarding each call unchanged.
impl<T: TestAPI> TestAPI for Arc<T> {
    open spec fn ping_outcome(&self, name: Seq<char>) -> Outcome {
        (**self).ping_outcome(name)
    }

    open spec fn boom_outcome(&self, name: Seq<char>) -> Outcome {
        (**self).boom_outcome(name)
    }

    fn ping(&self, req: PingRequest) -> (r: Result<PingResponse, ServerError>) {
        (**self).ping(req)
    }

    fn boom(&self, req: PingRequest) -> (r: Result<PingResponse, ServerError>) {
        (**self).boom(req)
    }
}

/// Calling through the `Arc` wrapper gives what calling the shared server
/// directly gives, for every method and request.
pub proof fn lemma_delegation_transparent<T: TestAPI>(api: Arc<T>, name: Seq<char>)
    ensures
        api.ping_outcome(name) == (*api).ping_outcome(name),
        api.boom_outcome(name) == (*api).boom_outcome(name),
{
}

/// The methods of `test.TestAPI`, as the router's handlers.
#[derive(Debug, PartialEq, Eq, Structural, Clone, Copy)]
pub enum TestApiMethod {
    Ping,
    Boom,
}

/// The path of `Ping`.
pub open spec fn ping_path() -> Seq<char> {
    "/twirp/test.TestAPI/Ping"@
}

/// The path of `Boom`.
pub open spec fn boom_path() -> Seq<char> {
    "/twirp/test.TestAPI/Boom"@
}

/// The router of `test.TestAPI`: `Ping` and `Boom` at their paths, and
/// nothing else.
pub fn test_api_router() -> (r: Arc<Router<TestApiMethod>>)
    ensures
        r.wf(),
        forall|p: Seq<char>| has_path(r.spec_routes(), p) <==> (p == ping_path() || p == boom_path()),
        lookup(r.spec_routes(), ping_path()) == Some(TestApiMethod::Ping),
        lookup(r.spec_routes(), boom_path()) == Some(TestApiMethod::Boom),
{
    let mut builder: RouterBuilder<TestApiMethod> = RouterBuilder::new();
    let ping = "/twirp/test.TestAPI/Ping".to_owned();
    let boom = "/twirp/test.TestAPI/Boom".to_owned();
    proof {
        reveal_strlit("/twirp/test.TestAPI/Ping");
        reveal_strlit("/twirp/test.TestAPI/Boom");
        assert(ping@[23] != boom@[23]);
    }
    let r1 = builder.register(ping, TestApiMethod::Ping);
    assert(r1 is Ok);
    let ghost after_ping = builder.spec_routes();
    assert(after_ping[0].path@ == ping_path());
    let r2 = builder.register(boom, TestApiMethod::Boom);
    assert(r2 is Ok) by {
        assert(!has_path(after_ping, boom_path())) by {
            if has_path(after_ping, boom_path()) {
                let i = choose|i: int| 0 <= i < after_ping.len() && after_ping[i].path@ == boom_path();
                assert(i == 0);
            }
        }
    }
    let router = builder.freeze();
    let ghost t = router.spec_routes();
    assert(t.len() == 2 && t[0].path@ == ping_path() && t[1].path@ == boom_path());
    assert(t.drop_last().last() == t[0]);
    assert(t[0].handler == TestApiMethod::Ping);
    assert(boom_path() != ping_path());
    assert(lookup(t.drop_last(), ping_path()) == Some(TestApiMethod::Ping));
    assert forall|p: Seq<char>| has_path(t, p) <==> (p == ping_path() || p == boom_path()) by {
        if p == ping_path() {
            assert(t[0].path@ == p);
        }
        if p == boom_path() {
            assert(t[1].path@ == p);
        }
    }
    Arc::new(router)
}

/// Dispatches a request to `api` through `router`: an unknown path gives
/// `NotFound` and calls no method; a known one calls the method routed there
/// and hands its result back unchanged.
pub fn serve_test_api<T: TestAPI>(
    router: &Router<TestApiMethod>,
    api: &T,
    path: &String,
    req: PingRequest,
) -> (r: Result<Result<PingResponse, ServerError>, DispatchError>)
    requires
        router.wf(),
    ensures
        r is Err <==> !has_path(router.spec_routes(), path@),
        r is Err ==> r == Err::<Result<PingResponse, ServerError>, DispatchError>(DispatchError::NotFound),
        lookup(router.spec_routes(), path@) == Some(TestApiMethod::Ping)
            ==> r is Ok && outcome_of(r->Ok_0) == api.ping_outcome(req.name@),
        lookup(router.spec_routes(), path@) == Some(TestApiMethod::Boom)
            ==> r is Ok && outcome_of(r->Ok_0) == api.boom_outcome(req.name@),
{
    match router.dispatch(path) {
        Err(e) => Err(e),
        Ok(method) => match *method {
            TestApiMethod::Ping => Ok(api.ping(req)),
            TestApiMethod::Boom => Ok(api.boom(req)),
        },
    }
}

} // verus!
