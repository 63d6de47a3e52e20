//! The session layer: one method per endpoint, each performing exactly one
//! build → send → decode round trip over a caller-supplied transport, and a
//! chaining wrapper that consumes and returns the session so dependent calls
//! are sequenced by ownership.

use vstd::prelude::*;
use vstd::string::StringExecFns;

use crate::decode::decode_create_network_response;
use crate::decode::decode_inspect_network_response;
use crate::decode::decode_unit_response;
use crate::decode::sp_decode_create;
use crate::decode::sp_decode_inspect;
use crate::decode::sp_decode_unit;
use crate::decode::RawResponse;
use crate::decode::RawResponseV;
use crate::encode::create_body;
use crate::encode::options_encodable;
use crate::encode::serialize_payload;
use crate::error::DockerError;
use crate::error::DockerErrorV;
use crate::network::CreateNetworkOptions;
use crate::network::CreateNetworkOptionsV;
use crate::network::CreateNetworkResults;
use crate::network::CreateNetworkResultsV;
use crate::network::InspectNetworkResults;
use crate::network::InspectNetworkResultsV;
use crate::network::kv_view;
use crate::query::InspectNetworkQueryParams;
use crate::request::build_request;
use crate::request::pct_ok;
use crate::request::sp_build;
use crate::request::Method;
use crate::request::RequestDescriptor;
use crate::request::RequestDescriptorV;

verus! {

/// What a session talks through: one round trip per call.  The two spec
/// functions are the implementor's model of itself; `send` is held to them.
/// Nothing is promised about what a transport answers: every session
/// contract holds whatever comes back.
pub trait Transport: Sized + View {
    /// The transport state after handling one request.
    spec fn next_view(pre: Self::V, req: RequestDescriptorV) -> Self::V;

    /// What the transport answers to one request from a given state: a raw
    /// response, or a transport-level failure message.
    spec fn reply(pre: Self::V, req: RequestDescriptorV) -> Result<RawResponseV, Seq<char>>;

    /// Perform one round trip.
    fn send(&mut self, req: &RequestDescriptor) -> (r: Result<RawResponse, String>)
        ensures
            final(self)@ == Self::next_view(old(self)@, req@),
            match r {
                Ok(resp) => Self::reply(old(self)@, req@) == Ok::<RawResponseV, Seq<char>>(resp@),
                Err(m) => Self::reply(old(self)@, req@) == Err::<RawResponseV, Seq<char>>(m@),
            },
    ;
}

/// View of a list of raw responses.
pub open spec fn resps_view(rs: Seq<RawResponse>) -> Seq<RawResponseV> {
    Seq::new(
        rs.len(),
        |k: int|
            if 0 <= k < rs.len() {
                rs[k]@
            } else {
                RawResponseV { status: 0, body: Seq::empty() }
            },
    )
}

/// View of a list of request descriptors.
pub open spec fn reqs_view(rs: Seq<RequestDescriptor>) -> Seq<RequestDescriptorV> {
    Seq::new(
        rs.len(),
        |k: int|
            if 0 <= k < rs.len() {
                rs[k]@
            } else {
                RequestDescriptorV {
                    method: Method::Get,
                    path: Seq::empty(),
                    query: Seq::empty(),
                    headers: Seq::empty(),
                    body: None,
                }
            },
    )
}

/// A transport that answers from a fixed script and records every request:
/// what tests drive the session layer with.
pub struct ScriptedTransport {
    pub script: Vec<RawResponse>,
    pub pos: usize,
    pub log: Vec<RequestDescriptor>,
}

pub struct ScriptedTransportV {
    pub script: Seq<RawResponseV>,
    pub pos: int,
    pub log: Seq<RequestDescriptorV>,
}

impl View for ScriptedTransport {
    type V = ScriptedTransportV;

    open spec fn view(&self) -> ScriptedTransportV {
        ScriptedTransportV {
            script: resps_view(self.script@),
            pos: self.pos as int,
            log: reqs_view(self.log@),
        }
    }
}

fn clone_pairs(ps: &Vec<(String, String)>) -> (r: Vec<(String, String)>)
    ensures
        kv_view(r@) == kv_view(ps@),
{
    let mut r: Vec<(String, String)> = Vec::new();
    let mut k: usize = 0;
    while k < ps.len()
        invariant
            k <= ps@.len(),
            r@.len() == k,
            forall|i: int|
                0 <= i < k ==> (#[trigger] r@[i]).0@ == ps@[i].0@ && r@[i].1@ == ps@[i].1@,
        decreases ps@.len() - k,
    {
        r.push((ps[k].0.clone(), ps[k].1.clone()));
        k = k + 1;
    }
    proof {
        assert(kv_view(r@) =~= kv_view(ps@));
    }
    r
}

fn duplicate_request(req: &RequestDescriptor) -> (r: RequestDescriptor)
    ensures
        r@ == req@,
{
    RequestDescriptor {
        method: req.method,
        path: req.path.clone(),
        query: clone_pairs(&req.query),
        headers: clone_pairs(&req.headers),
        body: match &req.body {
            Some(b) => Some(b.clone()),
            None => None,
        },
    }
}

impl Transport for ScriptedTransport {
    open spec fn next_view(pre: ScriptedTransportV, req: RequestDescriptorV) -> ScriptedTransportV {
        ScriptedTransportV {
            script: pre.script,
            pos: if pre.pos < pre.script.len() {
                pre.pos + 1
            } else {
                pre.pos
            },
            log: pre.log.push(req),
        }
    }

    open spec fn reply(pre: ScriptedTransportV, req: RequestDescriptorV) -> Result<
        RawResponseV,
        Seq<char>,
    > {
        if 0 <= pre.pos < pre.script.len() {
            Ok(pre.script[pre.pos])
        } else {
            Err("transport script exhausted"@)
        }
    }

    fn send(&mut self, req: &RequestDescriptor) -> (r: Result<RawResponse, String>)
        ensures
            final(self)@ == Self::next_view(old(self)@, req@),
            match r {
                Ok(resp) => Self::reply(old(self)@, req@) == Ok::<RawResponseV, Seq<char>>(resp@),
                Err(m) => Self::reply(old(self)@, req@) == Err::<RawResponseV, Seq<char>>(m@),
            },
    {
        let reqc = duplicate_request(req);
        self.log.push(reqc);
        proof {
            assert(reqs_view(self.log@) =~= old(self)@.log.push(req@));
        }
        if self.pos < self.script.len() {
            let resp = RawResponse {
                status: self.script[self.pos].status,
                body: self.script[self.pos].body.clone(),
            };
            proof {
                assert(resps_view(self.script@)[self.pos as int] == self.script@[self.pos as int]@);
            }
            self.pos = self.pos + 1;
            proof {
                assert(resps_view(self.script@) =~= old(self)@.script);
            }
            Ok(resp)
        } else {
            proof {
                assert(resps_view(self.script@) =~= old(self)@.script);
            }
            Err(String::from_str("transport script exhausted"))
        }
    }
}

/// The request a create-network call builds.
pub open spec fn sp_create_request(c: CreateNetworkOptionsV) -> RequestDescriptorV {
    sp_build(Method::Post, "/networks/create"@, None, Seq::empty(), Some(create_body(c)))
}

/// The request a remove-network call builds.
pub open spec fn sp_remove_request(name: Seq<char>) -> RequestDescriptorV {
    sp_build(Method::Delete, "/networks/"@, Some(name), Seq::empty(), None)
}

/// The request an inspect-network call builds.
pub open spec fn sp_inspect_request(
    name: Seq<char>,
    q: Seq<(Seq<char>, Seq<char>)>,
) -> RequestDescriptorV {
    sp_build(Method::Get, "/networks/"@, Some(name), q, None)
}

/// The outcome of one create-network call from a given transport state.
pub open spec fn sp_call_create<T: Transport>(t: T::V, c: CreateNetworkOptionsV) -> Result<
    CreateNetworkResultsV,
    DockerErrorV,
> {
    if !options_encodable(c) {
        Err(DockerErrorV::Encoding)
    } else {
        match T::reply(t, sp_create_request(c)) {
            Ok(resp) => sp_decode_create(resp.status, resp.body),
            Err(m) => Err(DockerErrorV::Transport(m)),
        }
    }
}

/// The transport state after one create-network call.
pub open spec fn sp_create_state<T: Transport>(t: T::V, c: CreateNetworkOptionsV) -> T::V {
    if !options_encodable(c) {
        t
    } else {
        T::next_view(t, sp_create_request(c))
    }
}

/// The outcome of one remove-network call from a given transport state.
pub open spec fn sp_call_remove<T: Transport>(t: T::V, name: Seq<char>) -> Result<
    (),
    DockerErrorV,
> {
    if !pct_ok(name) {
        Err(DockerErrorV::Encoding)
    } else {
        match T::reply(t, sp_remove_request(name)) {
            Ok(resp) => sp_decode_unit(resp.status, resp.body),
            Err(m) => Err(DockerErrorV::Transport(m)),
        }
    }
}

/// The transport state after one remove-network call.
pub open spec fn sp_remove_state<T: Transport>(t: T::V, name: Seq<char>) -> T::V {
    if !pct_ok(name) {
        t
    } else {
        T::next_view(t, sp_remove_request(name))
    }
}

/// The outcome of one inspect-network call from a given transport state.
pub open spec fn sp_call_inspect<T: Transport>(
    t: T::V,
    name: Seq<char>,
    q: Seq<(Seq<char>, Seq<char>)>,
) -> Result<InspectNetworkResultsV, DockerErrorV> {
    if !pct_ok(name) {
        Err(DockerErrorV::Encoding)
    } else {
        match T::reply(t, sp_inspect_request(name, q)) {
            Ok(resp) => sp_decode_inspect(resp.status, resp.body),
            Err(m) => Err(DockerErrorV::Transport(m)),
        }
    }
}

/// The transport state after one inspect-network call.
pub open spec fn sp_inspect_state<T: Transport>(
    t: T::V,
    name: Seq<char>,
    q: Seq<(Seq<char>, Seq<char>)>,
) -> T::V {
    if !pct_ok(name) {
        t
    } else {
        T::next_view(t, sp_inspect_request(name, q))
    }
}

/// The query pairs an optional options value stands for.
pub open spec fn sp_opt_query<Q: InspectNetworkQueryParams>(options: Option<Q>) -> Seq<
    (Seq<char>, Seq<char>),
> {
    match options {
        Some(o) => o.query_spec(),
        None => Seq::empty(),
    }
}

/// The session handle: owns the transport, one method per endpoint, one
/// round trip per call, no retries and no caching.
pub struct Docker<T: Transport> {
    pub transport: T,
}

impl<T: Transport> Docker<T> {
    /// A session over a transport.
    pub fn new(transport: T) -> (r: Self)
        ensures
            r.transport == transport,
    {
        Docker { transport }
    }

    /// Wrap the session for fluent sequencing, consuming it: the handle is
    /// owned by the chain from here on.
    pub fn chain(self) -> (r: DockerChain<T>)
        ensures
            r.inner == self,
    {
        DockerChain { inner: self }
    }

    /// Create a new network: encode the options, build `POST
    /// /networks/create`, send once, decode the typed result.
    pub fn create_network(&mut self, config: &CreateNetworkOptions) -> (r: Result<
        CreateNetworkResults,
        DockerError,
    >)
        ensures
            final(self).transport@ == sp_create_state::<T>(old(self).transport@, config@),
            match r {
                Ok(v) => sp_call_create::<T>(old(self).transport@, config@) == Ok::<
                    CreateNetworkResultsV,
                    DockerErrorV,
                >(v@),
                Err(e) => sp_call_create::<T>(old(self).transport@, config@) == Err::<
                    CreateNetworkResultsV,
                    DockerErrorV,
                >(e@),
            },
    {
        let body = match serialize_payload(config) {
            Ok(s) => s,
            Err(e) => {
                return Err(e);
            },
        };
        let req = match build_request(
            Method::Post,
            "/networks/create",
            None,
            Vec::new(),
            Some(body),
        ) {
            Ok(d) => d,
            Err(e) => {
                proof {
                    assert(false);
                }
                return Err(e);
            },
        };
        proof {
            assert(kv_view(Seq::<(String, String)>::empty()) =~= Seq::<
                (Seq<char>, Seq<char>),
            >::empty());
            assert(req@ == sp_create_request(config@));
        }
        let resp = match self.transport.send(&req) {
            Ok(resp) => resp,
            Err(m) => {
                return Err(DockerError::Transport(m));
            },
        };
        decode_create_network_response(&resp)
    }

    /// Remove a network: build `DELETE /networks/{name}` with the name
    /// percent-encoded, send once, accept any success status.
    pub fn remove_network(&mut self, network_name: &str) -> (r: Result<(), DockerError>)
        ensures
            final(self).transport@ == sp_remove_state::<T>(old(self).transport@, network_name@),
            match r {
                Ok(u) => sp_call_remove::<T>(old(self).transport@, network_name@) == Ok::<
                    (),
                    DockerErrorV,
                >(()),
                Err(e) => sp_call_remove::<T>(old(self).transport@, network_name@) == Err::<
                    (),
                    DockerErrorV,
                >(e@),
            },
    {
        let req = match build_request(
            Method::Delete,
            "/networks/",
            Some(network_name),
            Vec::new(),
            None,
        ) {
            Ok(d) => d,
            Err(e) => {
                return Err(e);
            },
        };
        proof {
            assert(kv_view(Seq::<(String, String)>::empty()) =~= Seq::<
                (Seq<char>, Seq<char>),
            >::empty());
            assert(req@ == sp_remove_request(network_name@));
        }
        let resp = match self.transport.send(&req) {
            Ok(resp) => resp,
            Err(m) => {
                return Err(DockerError::Transport(m));
            },
        };
        decode_unit_response(&resp)
    }

    /// Inspect a network: encode the options into query pairs, build `GET
    /// /networks/{name}` with the name percent-encoded, send once, decode
    /// the typed result.
    pub fn inspect_network<Q: InspectNetworkQueryParams>(
        &mut self,
        network_name: &str,
        options: Option<Q>,
    ) -> (r: Result<InspectNetworkResults, DockerError>)
        ensures
            final(self).transport@ == sp_inspect_state::<T>(
                old(self).transport@,
                network_name@,
                sp_opt_query(options),
            ),
            match r {
                Ok(v) => sp_call_inspect::<T>(
                    old(self).transport@,
                    network_name@,
                    sp_opt_query(options),
                ) == Ok::<InspectNetworkResultsV, DockerErrorV>(v@),
                Err(e) => sp_call_inspect::<T>(
                    old(self).transport@,
                    network_name@,
                    sp_opt_query(options),
                ) == Err::<InspectNetworkResultsV, DockerErrorV>(e@),
            },
    {
        let query: Vec<(String, String)> = match options {
            Some(o) => match o.into_array() {
                Ok(ps) => ps,
                Err(e) => {
                    proof {
                        assert(false);
                    }
                    return Err(e);
                },
            },
            None => Vec::new(),
        };
        proof {
            assert(kv_view(Seq::<(String, String)>::empty()) =~= Seq::<
                (Seq<char>, Seq<char>),
            >::empty());
        }
        let req = match build_request(Method::Get, "/networks/", Some(network_name), query, None) {
            Ok(d) => d,
            Err(e) => {
                return Err(e);
            },
        };
        proof {
            assert(req@ == sp_inspect_request(network_name@, sp_opt_query(options)));
        }
        let resp = match self.transport.send(&req) {
            Ok(resp) => resp,
            Err(m) => {
                return Err(DockerError::Transport(m));
            },
        };
        decode_inspect_network_response(&resp)
    }
}

/// The chaining wrapper: every operation takes the chain by value and hands
/// it back beside the typed result, so a caller cannot issue a dependent
/// call before the previous one came back.  Each operation yields exactly
/// what the same operation on the wrapped session yields, from the same
/// transport state, and hands the session back in exactly the state the
/// direct call leaves it in.
pub struct DockerChain<T: Transport> {
    pub inner: Docker<T>,
}

impl<T: Transport> DockerChain<T> {
    /// Create a new network, then hand the chain back beside the result.
    pub fn create_network(self, config: &CreateNetworkOptions) -> (r: Result<
        (DockerChain<T>, CreateNetworkResults),
        DockerError,
    >)
        ensures
            match sp_call_create::<T>(self.inner.transport@, config@) {
                Ok(v) => r matches Ok(p) && p.0.inner.transport@ == sp_create_state::<T>(
                    self.inner.transport@,
                    config@,
                ) && p.1@ == v,
                Err(e) => r matches Err(x) && x@ == e,
            },
    {
        let mut inner = self.inner;
        match inner.create_network(config) {
            Ok(v) => Ok((DockerChain { inner }, v)),
            Err(e) => Err(e),
        }
    }

    /// Remove a network, then hand the chain back beside the unit result.
    pub fn remove_network(self, network_name: &str) -> (r: Result<
        (DockerChain<T>, ()),
        DockerError,
    >)
        ensures
            match sp_call_remove::<T>(self.inner.transport@, network_name@) {
                Ok(u) => r matches Ok(p) && p.0.inner.transport@ == sp_remove_state::<T>(
                    self.inner.transport@,
                    network_name@,
                ),
                Err(e) => r matches Err(x) && x@ == e,
            },
    {
        let mut inner = self.inner;
        match inner.remove_network(network_name) {
            Ok(u) => Ok((DockerChain { inner }, u)),
            Err(e) => Err(e),
        }
    }

    /// Inspect a network, then hand the chain back beside the result.
    pub fn inspect_network<Q: InspectNetworkQueryParams>(
        self,
        network_name: &str,
        options: Option<Q>,
    ) -> (r: Result<(DockerChain<T>, InspectNetworkResults), DockerError>)
        ensures
            match sp_call_inspect::<T>(
                self.inner.transport@,
                network_name@,
                sp_opt_query(options),
            ) {
                Ok(v) => r matches Ok(p) && p.0.inner.transport@ == sp_inspect_state::<T>(
                    self.inner.transport@,
                    network_name@,
                    sp_opt_query(options),
                ) && p.1@ == v,
                Err(e) => r matches Err(x) && x@ == e,
            },
    {
        let mut inner = self.inner;
        match inner.inspect_network(network_name, options) {
            Ok(v) => Ok((DockerChain { inner }, v)),
            Err(e) => Err(e),
        }
    }
}

/// Chain sequencing: issuing two operations through the chain yields results
/// identical to calling them directly on the un-wrapped session and
/// re-threading the handle by hand.  The chain operations' contracts pin
/// their results and the handed-back session to `sp_call_*` and
/// `sp_*_state`; the direct operations' contracts pin theirs to the same
/// functions; so the chained pair of outcomes is exactly the direct pair.
pub proof fn lemma_chain_call_sequencing<T: Transport>(
    t0: T::V,
    c: CreateNetworkOptionsV,
    name: Seq<char>,
    q: Seq<(Seq<char>, Seq<char>)>,
    chained_first: Result<CreateNetworkResultsV, DockerErrorV>,
    chained_state: T::V,
    chained_second: Result<InspectNetworkResultsV, DockerErrorV>,
)
    requires
        chained_first == sp_call_create::<T>(t0, c),
        chained_state == sp_create_state::<T>(t0, c),
        chained_second == sp_call_inspect::<T>(chained_state, name, q),
    ensures
        chained_first == sp_call_create::<T>(t0, c),
        chained_second == sp_call_inspect::<T>(sp_create_state::<T>(t0, c), name, q),
{
}

} // verus!
