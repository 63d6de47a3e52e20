//! Response classification and closed-schema decoding.
//!
//! A response is decoded by status first: an error status yields an
//! `Api` error carrying the daemon's message when its error body can be
//! read.  A success status either ends the call (unit results) or has its
//! body held against the declared closed schema: a member whose key is not
//! declared, a repeated member, a missing member or one of the wrong shape
//! is a `Decode` error, kept apart from the daemon saying no.

use vstd::prelude::*;
use vstd::string::StringExecFns;

use crate::error::DockerError;
use crate::error::DockerErrorV;
use crate::json::chars_of;
use crate::json::mview;
use crate::json::parse_json;
use crate::json::sp_json;
use crate::json::Json;
use crate::json::JsonV;
use crate::network::CreateNetworkResults;
use crate::network::CreateNetworkResultsV;
use crate::network::cfgs_view;
use crate::network::containers_view;
use crate::network::kv_view;
use crate::network::InspectNetworkResults;
use crate::network::InspectNetworkResultsV;
use crate::network::InspectNetworkResultsContainers;
use crate::network::InspectNetworkResultsContainersV;
use crate::network::IPAM;
use crate::network::IPAMV;
use crate::network::IPAMConfig;
use crate::network::IPAMConfigV;

verus! {

/// A raw response as the transport hands it back: status and body text.
#[derive(Debug, Clone, PartialEq, Eq)]
pub struct RawResponse {
    pub status: u16,
    pub body: String,
}

pub struct RawResponseV {
    pub status: u16,
    pub body: Seq<char>,
}

impl View for RawResponse {
    type V = RawResponseV;

    open spec fn view(&self) -> RawResponseV {
        RawResponseV { status: self.status, body: self.body@ }
    }
}

/// A status that counts as success.
pub open spec fn sp_status_ok(status: u16) -> bool {
    200 <= status < 300
}

/// The first member of `ms` named `k`, if any.
pub open spec fn find(ms: Seq<(Seq<char>, JsonV)>, k: Seq<char>) -> Option<JsonV>
    decreases ms.len(),
{
    if ms.len() == 0 {
        None
    } else if ms[0].0 == k {
        Some(ms[0].1)
    } else {
        find(ms.drop_first(), k)
    }
}

/// Two members share a key.
pub open spec fn has_dup(ms: Seq<(Seq<char>, JsonV)>) -> bool {
    exists|i: int, j: int| 0 <= i < j < ms.len() && ms[i].0 == ms[j].0
}

/// Every member's key is one of `keys`.
pub open spec fn all_keys_in(ms: Seq<(Seq<char>, JsonV)>, keys: Seq<Seq<char>>) -> bool {
    forall|i: int| 0 <= i < ms.len() ==> keys.contains(#[trigger] ms[i].0)
}

/// View of a list of accepted key names.
pub open spec fn names_view(ns: Seq<String>) -> Seq<Seq<char>> {
    Seq::new(
        ns.len(),
        |k: int|
            if 0 <= k < ns.len() {
                ns[k]@
            } else {
                Seq::empty()
            },
    )
}

proof fn lemma_find_at(ms: Seq<(Seq<char>, JsonV)>, k: Seq<char>, ix: int)
    requires
        0 <= ix < ms.len(),
        ms[ix].0 == k,
        forall|i: int| 0 <= i < ix ==> ms[i].0 != k,
    ensures
        find(ms, k) == Some(ms[ix].1),
    decreases ix,
{
    if ix == 0 {
    } else {
        assert(ms[0].0 != k);
        lemma_find_at(ms.drop_first(), k, ix - 1);
        assert(ms.drop_first()[ix - 1] == ms[ix]);
    }
}

proof fn lemma_find_none(ms: Seq<(Seq<char>, JsonV)>, k: Seq<char>)
    requires
        forall|i: int| 0 <= i < ms.len() ==> ms[i].0 != k,
    ensures
        find(ms, k) is None,
    decreases ms.len(),
{
    if ms.len() == 0 {
    } else {
        assert(ms[0].0 != k);
        lemma_find_none(ms.drop_first(), k);
    }
}

/// Equality of a string with a literal key name.
fn str_eq(a: &String, b: &str) -> (r: bool)
    ensures
        r == (a@ == b@),
{
    let t = String::from_str(b);
    a.eq(&t)
}

/// The index of the first member named `key`.
fn find_idx(ms: &Vec<(String, Json)>, key: &str) -> (r: Option<usize>)
    ensures
        match r {
            Some(ix) => ix < ms@.len() && ms@[ix as int].0@ == key@ && find(mview(ms@), key@)
                == Some(ms@[ix as int].1@),
            None => find(mview(ms@), key@) is None,
        },
{
    let mut n: usize = 0;
    while n < ms.len()
        invariant
            n <= ms@.len(),
            forall|i: int| 0 <= i < n ==> #[trigger] ms@[i].0@ != key@,
        decreases ms@.len() - n,
    {
        if str_eq(&ms[n].0, key) {
            proof {
                assert forall|i: int| 0 <= i < n implies mview(ms@)[i].0 != key@ by {
                    assert(mview(ms@)[i].0 == ms@[i].0@);
                }
                lemma_find_at(mview(ms@), key@, n as int);
            }
            return Some(n);
        }
        n = n + 1;
    }
    proof {
        assert forall|i: int| 0 <= i < ms@.len() implies mview(ms@)[i].0 != key@ by {
            assert(mview(ms@)[i].0 == ms@[i].0@);
        }
        lemma_find_none(mview(ms@), key@);
    }
    None
}

/// No two members of `ms` share a key.
fn no_dup(ms: &Vec<(String, Json)>) -> (r: bool)
    ensures
        r == !has_dup(mview(ms@)),
{
    let mut n: usize = 0;
    while n < ms.len()
        invariant
            n <= ms@.len(),
            forall|i: int, j: int| 0 <= i < j < n ==> mview(ms@)[i].0 != mview(ms@)[j].0,
        decreases ms@.len() - n,
    {
        let mut m: usize = 0;
        while m < n
            invariant
                m <= n,
                n < ms@.len(),
                forall|i: int| 0 <= i < m ==> mview(ms@)[i].0 != mview(ms@)[n as int].0,
            decreases n - m,
        {
            if str_eq(&ms[m].0, ms[n].0.as_str()) {
                proof {
                    assert(mview(ms@)[m as int].0 == mview(ms@)[n as int].0);
                    assert(has_dup(mview(ms@)));
                }
                return false;
            }
            proof {
                assert(mview(ms@)[m as int].0 == ms@[m as int].0@);
                assert(mview(ms@)[n as int].0 == ms@[n as int].0@);
            }
            m = m + 1;
        }
        n = n + 1;
    }
    proof {
        assert(!has_dup(mview(ms@)));
    }
    true
}

/// Every member key of `ms` is named in `allowed`.
fn keys_subset(ms: &Vec<(String, Json)>, allowed: &Vec<String>) -> (r: bool)
    ensures
        r == all_keys_in(mview(ms@), names_view(allowed@)),
{
    let mut n: usize = 0;
    while n < ms.len()
        invariant
            n <= ms@.len(),
            forall|i: int| 0 <= i < n ==> names_view(allowed@).contains(#[trigger] mview(ms@)[i].0),
        decreases ms@.len() - n,
    {
        let mut m: usize = 0;
        let mut hit: bool = false;
        while m < allowed.len()
            invariant
                m <= allowed@.len(),
                n < ms@.len(),
                !hit ==> forall|j: int| 0 <= j < m ==> #[trigger] allowed@[j]@ != ms@[n as int].0@,
                hit ==> names_view(allowed@).contains(mview(ms@)[n as int].0),
            decreases allowed@.len() - m,
        {
            if str_eq(&ms[n].0, allowed[m].as_str()) {
                proof {
                    assert(names_view(allowed@)[m as int] == allowed@[m as int]@);
                    assert(mview(ms@)[n as int].0 == ms@[n as int].0@);
                    assert(names_view(allowed@).contains(mview(ms@)[n as int].0));
                }
                hit = true;
            }
            m = m + 1;
        }
        if !hit {
            proof {
                assert forall|j: int| 0 <= j < names_view(allowed@).len() implies names_view(
                    allowed@,
                )[j] != mview(ms@)[n as int].0 by {
                    assert(names_view(allowed@)[j] == allowed@[j]@);
                    assert(mview(ms@)[n as int].0 == ms@[n as int].0@);
                }
                assert(!names_view(allowed@).contains(mview(ms@)[n as int].0));
                assert(!all_keys_in(mview(ms@), names_view(allowed@)));
            }
            return false;
        }
        n = n + 1;
    }
    true
}

/// The member named `key`, required to be a string.
fn get_str_field(ms: &Vec<(String, Json)>, key: &str) -> (r: Option<String>)
    ensures
        match r {
            Some(s) => find(mview(ms@), key@) == Some(JsonV::Str(s@)),
            None => !(find(mview(ms@), key@) matches Some(JsonV::Str(_))),
        },
{
    match find_idx(ms, key) {
        Some(ix) => match &ms[ix].1 {
            Json::Str(s) => Some(s.clone()),
            _ => None,
        },
        None => None,
    }
}

/// The member named `key`, required to be a boolean.
fn get_bool_field(ms: &Vec<(String, Json)>, key: &str) -> (r: Option<bool>)
    ensures
        match r {
            Some(b) => find(mview(ms@), key@) == Some(JsonV::Bool(b)),
            None => !(find(mview(ms@), key@) matches Some(JsonV::Bool(_))),
        },
{
    match find_idx(ms, key) {
        Some(ix) => match &ms[ix].1 {
            Json::Bool(b) => Some(*b),
            _ => None,
        },
        None => None,
    }
}

/// The accepted member names of a create-network result.
pub open spec fn create_keys() -> Seq<Seq<char>> {
    seq!["Id"@, "Warning"@]
}

/// The typed reading of a create-network result body: a closed object with
/// exactly the declared members, each a string.
pub open spec fn sp_create_results(v: JsonV) -> Option<CreateNetworkResultsV> {
    match v {
        JsonV::Obj(ms) => {
            if all_keys_in(ms, create_keys()) && !has_dup(ms) {
                match (find(ms, "Id"@), find(ms, "Warning"@)) {
                    (Some(JsonV::Str(id)), Some(JsonV::Str(w))) => Some(
                        CreateNetworkResultsV { id: id, warning: w },
                    ),
                    _ => None,
                }
            } else {
                None
            }
        },
        _ => None,
    }
}

/// Read a create-network result out of a parsed body.
pub fn create_results_of_json(v: &Json) -> (r: Option<CreateNetworkResults>)
    ensures
        match r {
            Some(res) => sp_create_results(v@) == Some(res@),
            None => sp_create_results(v@) is None,
        },
{
    match v {
        Json::Obj(ms) => {
            let allowed: Vec<String> = vec![String::from_str("Id"), String::from_str("Warning")];
            proof {
                assert(names_view(allowed@) =~= create_keys());
            }
            if !keys_subset(ms, &allowed) {
                return None;
            }
            if !no_dup(ms) {
                return None;
            }
            let id = match get_str_field(ms, "Id") {
                Some(s) => s,
                None => {
                    return None;
                },
            };
            let warning = match get_str_field(ms, "Warning") {
                Some(s) => s,
                None => {
                    return None;
                },
            };
            Some(CreateNetworkResults { id, warning })
        },
        _ => None,
    }
}

/// The accepted member names of a daemon error body.
pub open spec fn message_keys() -> Seq<Seq<char>> {
    seq!["message"@]
}

/// The daemon's message in a structured error body.
pub open spec fn sp_message_of(v: JsonV) -> Option<Seq<char>> {
    match v {
        JsonV::Obj(ms) => {
            if all_keys_in(ms, message_keys()) && !has_dup(ms) {
                match find(ms, "message"@) {
                    Some(JsonV::Str(m)) => Some(m),
                    _ => None,
                }
            } else {
                None
            }
        },
        _ => None,
    }
}

fn message_of_json(v: &Json) -> (r: Option<String>)
    ensures
        match r {
            Some(m) => sp_message_of(v@) == Some(m@),
            None => sp_message_of(v@) is None,
        },
{
    match v {
        Json::Obj(ms) => {
            let allowed: Vec<String> = vec![String::from_str("message")];
            proof {
                assert(names_view(allowed@) =~= message_keys());
            }
            if !keys_subset(ms, &allowed) {
                return None;
            }
            if !no_dup(ms) {
                return None;
            }
            get_str_field(ms, "message")
        },
        _ => None,
    }
}

/// What an error response's message is: the daemon's own message when the
/// body is a structured error, else the raw body text.
pub open spec fn sp_error_message(body: Seq<char>) -> Seq<char> {
    match sp_json(body) {
        Some(v) => match sp_message_of(v) {
            Some(m) => m,
            None => body,
        },
        None => body,
    }
}

fn error_message(body: &String) -> (r: String)
    ensures
        r@ == sp_error_message(body@),
{
    let cs = chars_of(body.as_str());
    match parse_json(&cs) {
        Some(v) => match message_of_json(&v) {
            Some(m) => m,
            None => body.clone(),
        },
        None => body.clone(),
    }
}

/// What decoding a unit-result response yields.  Any success status is unit
/// success, whatever the body holds.
pub open spec fn sp_decode_unit(status: u16, body: Seq<char>) -> Result<(), DockerErrorV> {
    if sp_status_ok(status) {
        Ok(())
    } else {
        Err(DockerErrorV::Api { status_code: status, message: sp_error_message(body) })
    }
}

/// Decode a response in a unit-result context.
pub fn decode_unit_response(resp: &RawResponse) -> (r: Result<(), DockerError>)
    ensures
        match r {
            Ok(u) => sp_decode_unit(resp@.status, resp@.body) is Ok,
            Err(e) => sp_decode_unit(resp@.status, resp@.body) == Err::<(), DockerErrorV>(e@),
        },
{
    if 200 <= resp.status && resp.status < 300 {
        Ok(())
    } else {
        Err(
            DockerError::Api {
                status_code: resp.status,
                message: error_message(&resp.body),
            },
        )
    }
}

/// The reading of an object all of whose member values are strings, as an
/// ordered key/value pair list.
pub open spec fn sp_string_map(v: JsonV) -> Option<Seq<(Seq<char>, Seq<char>)>> {
    match v {
        JsonV::Obj(ms) => {
            if forall|i: int| 0 <= i < ms.len() ==> (#[trigger] ms[i].1) is Str {
                Some(
                    Seq::new(
                        ms.len(),
                        |i: int|
                            if 0 <= i < ms.len() {
                                (ms[i].0, ms[i].1->Str_0)
                            } else {
                                (Seq::empty(), Seq::empty())
                            },
                    ),
                )
            } else {
                None
            }
        },
        _ => None,
    }
}

fn string_map_of_json(v: &Json) -> (r: Option<Vec<(String, String)>>)
    ensures
        match r {
            Some(m) => sp_string_map(v@) == Some(kv_view(m@)),
            None => sp_string_map(v@) is None,
        },
{
    match v {
        Json::Obj(ms) => {
            let mut out: Vec<(String, String)> = Vec::new();
            let mut n: usize = 0;
            while n < ms.len()
                invariant
                    v@ == JsonV::Obj(mview(ms@)),
                    n <= ms@.len(),
                    out@.len() == n,
                    forall|i: int|
                        0 <= i < n ==> ((#[trigger] mview(ms@)[i]).1) is Str,
                    forall|i: int|
                        0 <= i < n ==> (#[trigger] out@[i]).0@ == mview(ms@)[i].0 && out@[i].1@
                            == mview(ms@)[i].1->Str_0,
                decreases ms@.len() - n,
            {
                proof {
                    assert(mview(ms@)[n as int] == (ms@[n as int].0@, ms@[n as int].1@));
                }
                match &ms[n].1 {
                    Json::Str(s) => {
                        out.push((ms[n].0.clone(), s.clone()));
                    },
                    _ => {
                        proof {
                            assert(!((mview(ms@)[n as int].1) is Str));
                        }
                        return None;
                    },
                }
                n = n + 1;
            }
            proof {
                let ws = mview(ms@);
                assert(kv_view(out@) =~= Seq::new(
                    ws.len(),
                    |i: int|
                        if 0 <= i < ws.len() {
                            (ws[i].0, ws[i].1->Str_0)
                        } else {
                            (Seq::empty(), Seq::empty())
                        },
                ));
            }
            Some(out)
        },
        _ => None,
    }
}

/// An optional member that must be a string when present; an absent or
/// null member reads as absent.
pub open spec fn sp_opt_str(ms: Seq<(Seq<char>, JsonV)>, k: Seq<char>) -> Option<
    Option<Seq<char>>,
> {
    match find(ms, k) {
        None => Some(None),
        Some(JsonV::Null) => Some(None),
        Some(JsonV::Str(s)) => Some(Some(s)),
        Some(_) => None,
    }
}

fn get_opt_str_field(ms: &Vec<(String, Json)>, key: &str) -> (r: Option<Option<String>>)
    ensures
        match r {
            Some(Some(s)) => sp_opt_str(mview(ms@), key@) == Some(Some(s@)),
            Some(None) => sp_opt_str(mview(ms@), key@) == Some(None::<Seq<char>>),
            None => sp_opt_str(mview(ms@), key@) is None,
        },
{
    match find_idx(ms, key) {
        Some(ix) => match &ms[ix].1 {
            Json::Null => Some(None),
            Json::Str(s) => Some(Some(s.clone())),
            _ => None,
        },
        None => Some(None),
    }
}

/// An optional member that must be a string map when present.
pub open spec fn sp_opt_map(ms: Seq<(Seq<char>, JsonV)>, k: Seq<char>) -> Option<
    Option<Seq<(Seq<char>, Seq<char>)>>,
> {
    match find(ms, k) {
        None => Some(None),
        Some(JsonV::Null) => Some(None),
        Some(v) => match sp_string_map(v) {
            Some(m) => Some(Some(m)),
            None => None,
        },
    }
}

fn get_opt_map_field(ms: &Vec<(String, Json)>, key: &str) -> (r: Option<
    Option<Vec<(String, String)>>,
>)
    ensures
        match r {
            Some(Some(m)) => sp_opt_map(mview(ms@), key@) == Some(Some(kv_view(m@))),
            Some(None) => sp_opt_map(mview(ms@), key@) == Some(
                None::<Seq<(Seq<char>, Seq<char>)>>,
            ),
            None => sp_opt_map(mview(ms@), key@) is None,
        },
{
    match find_idx(ms, key) {
        Some(ix) => match &ms[ix].1 {
            Json::Null => Some(None),
            other => match string_map_of_json(other) {
                Some(m) => Some(Some(m)),
                None => None,
            },
        },
        None => Some(None),
    }
}

/// The accepted member names of an IP address management entry.
pub open spec fn cfg_keys() -> Seq<Seq<char>> {
    seq!["Subnet"@, "IPRange"@, "Gateway"@, "AuxAddress"@]
}

/// The typed reading of one IP address management entry.
pub open spec fn sp_ipam_config(v: JsonV) -> Option<IPAMConfigV> {
    match v {
        JsonV::Obj(ms) => {
            if all_keys_in(ms, cfg_keys()) && !has_dup(ms) {
                match (
                    sp_opt_str(ms, "Subnet"@),
                    sp_opt_str(ms, "IPRange"@),
                    sp_opt_str(ms, "Gateway"@),
                    sp_opt_map(ms, "AuxAddress"@),
                ) {
                    (Some(su), Some(ir), Some(gw), Some(aux)) => Some(
                        IPAMConfigV { subnet: su, ip_range: ir, gateway: gw, aux_address: aux },
                    ),
                    _ => None,
                }
            } else {
                None
            }
        },
        _ => None,
    }
}

fn cfg_of_json(v: &Json) -> (r: Option<IPAMConfig>)
    ensures
        match r {
            Some(c) => sp_ipam_config(v@) == Some(c@),
            None => sp_ipam_config(v@) is None,
        },
{
    match v {
        Json::Obj(ms) => {
            let allowed: Vec<String> = vec![
                String::from_str("Subnet"),
                String::from_str("IPRange"),
                String::from_str("Gateway"),
                String::from_str("AuxAddress"),
            ];
            proof {
                assert(names_view(allowed@) =~= cfg_keys());
            }
            if !keys_subset(ms, &allowed) {
                return None;
            }
            if !no_dup(ms) {
                return None;
            }
            let subnet = match get_opt_str_field(ms, "Subnet") {
                Some(x) => x,
                None => {
                    return None;
                },
            };
            let ip_range = match get_opt_str_field(ms, "IPRange") {
                Some(x) => x,
                None => {
                    return None;
                },
            };
            let gateway = match get_opt_str_field(ms, "Gateway") {
                Some(x) => x,
                None => {
                    return None;
                },
            };
            let aux_address = match get_opt_map_field(ms, "AuxAddress") {
                Some(x) => x,
                None => {
                    return None;
                },
            };
            Some(IPAMConfig { subnet, ip_range, gateway, aux_address })
        },
        _ => None,
    }
}

/// The typed reading of a list of IP address management entries.
pub open spec fn sp_cfg_list(v: JsonV) -> Option<Seq<IPAMConfigV>> {
    match v {
        JsonV::Arr(es) => {
            if forall|i: int| 0 <= i < es.len() ==> sp_ipam_config(#[trigger] es[i]) is Some {
                Some(
                    Seq::new(
                        es.len(),
                        |i: int|
                            if 0 <= i < es.len() {
                                match sp_ipam_config(es[i]) {
                                    Some(c) => c,
                                    None => IPAMConfigV {
                                        subnet: None,
                                        ip_range: None,
                                        gateway: None,
                                        aux_address: None,
                                    },
                                }
                            } else {
                                IPAMConfigV {
                                    subnet: None,
                                    ip_range: None,
                                    gateway: None,
                                    aux_address: None,
                                }
                            },
                    ),
                )
            } else {
                None
            }
        },
        _ => None,
    }
}

fn cfg_list_of_json(v: &Json) -> (r: Option<Vec<IPAMConfig>>)
    ensures
        match r {
            Some(cs) => sp_cfg_list(v@) == Some(cfgs_view(cs@)),
            None => sp_cfg_list(v@) is None,
        },
{
    match v {
        Json::Arr(es) => {
            let mut out: Vec<IPAMConfig> = Vec::new();
            let mut n: usize = 0;
            while n < es.len()
                invariant
                    v@ == JsonV::Arr(crate::json::eview(es@)),
                    n <= es@.len(),
                    out@.len() == n,
                    forall|i: int|
                        0 <= i < n ==> sp_ipam_config(#[trigger] crate::json::eview(es@)[i])
                            is Some,
                    forall|i: int|
                        0 <= i < n ==> sp_ipam_config(crate::json::eview(es@)[i]) == Some(
                            (#[trigger] out@[i])@,
                        ),
                decreases es@.len() - n,
            {
                proof {
                    assert(crate::json::eview(es@)[n as int] == es@[n as int]@);
                }
                match cfg_of_json(&es[n]) {
                    Some(c) => {
                        out.push(c);
                    },
                    None => {
                        proof {
                            assert(sp_ipam_config(crate::json::eview(es@)[n as int]) is None);
                        }
                        return None;
                    },
                }
                n = n + 1;
            }
            proof {
                let ws = crate::json::eview(es@);
                assert(cfgs_view(out@) =~= Seq::new(
                    ws.len(),
                    |i: int|
                        if 0 <= i < ws.len() {
                            match sp_ipam_config(ws[i]) {
                                Some(c) => c,
                                None => IPAMConfigV {
                                    subnet: None,
                                    ip_range: None,
                                    gateway: None,
                                    aux_address: None,
                                },
                            }
                        } else {
                            IPAMConfigV {
                                subnet: None,
                                ip_range: None,
                                gateway: None,
                                aux_address: None,
                            }
                        },
                ));
            }
            Some(out)
        },
        _ => None,
    }
}

/// The accepted member names of the IP address management settings.
pub open spec fn ipam_keys() -> Seq<Seq<char>> {
    seq!["Driver"@, "Config"@, "Options"@]
}

/// The typed reading of the IP address management settings.  All three
/// members are required.
pub open spec fn sp_ipam(v: JsonV) -> Option<IPAMV> {
    match v {
        JsonV::Obj(ms) => {
            if all_keys_in(ms, ipam_keys()) && !has_dup(ms) {
                match (find(ms, "Driver"@), find(ms, "Config"@), find(ms, "Options"@)) {
                    (Some(JsonV::Str(d)), Some(cv), Some(ov)) => match (
                        sp_cfg_list(cv),
                        sp_string_map(ov),
                    ) {
                        (Some(cs), Some(os)) => Some(IPAMV { driver: d, config: cs, options: os }),
                        _ => None,
                    },
                    _ => None,
                }
            } else {
                None
            }
        },
        _ => None,
    }
}

fn ipam_of_json(v: &Json) -> (r: Option<IPAM>)
    ensures
        match r {
            Some(x) => sp_ipam(v@) == Some(x@),
            None => sp_ipam(v@) is None,
        },
{
    match v {
        Json::Obj(ms) => {
            let allowed: Vec<String> = vec![
                String::from_str("Driver"),
                String::from_str("Config"),
                String::from_str("Options"),
            ];
            proof {
                assert(names_view(allowed@) =~= ipam_keys());
            }
            if !keys_subset(ms, &allowed) {
                return None;
            }
            if !no_dup(ms) {
                return None;
            }
            let driver = match get_str_field(ms, "Driver") {
                Some(s) => s,
                None => {
                    return None;
                },
            };
            let config = match find_idx(ms, "Config") {
                Some(ix) => match cfg_list_of_json(&ms[ix].1) {
                    Some(cs) => cs,
                    None => {
                        return None;
                    },
                },
                None => {
                    return None;
                },
            };
            let options = match find_idx(ms, "Options") {
                Some(ix) => match string_map_of_json(&ms[ix].1) {
                    Some(os) => os,
                    None => {
                        return None;
                    },
                },
                None => {
                    return None;
                },
            };
            Some(IPAM { driver, config, options })
        },
        _ => None,
    }
}

/// The accepted member names of one attached container.
pub open spec fn container_keys() -> Seq<Seq<char>> {
    seq!["Name"@, "EndpointID"@, "MacAddress"@, "IPv4Address"@, "IPv6Address"@]
}

/// The typed reading of one attached container: a closed object of five
/// required strings.
pub open spec fn sp_container(v: JsonV) -> Option<InspectNetworkResultsContainersV> {
    match v {
        JsonV::Obj(ms) => {
            if all_keys_in(ms, container_keys()) && !has_dup(ms) {
                match (
                    find(ms, "Name"@),
                    find(ms, "EndpointID"@),
                    find(ms, "MacAddress"@),
                    find(ms, "IPv4Address"@),
                    find(ms, "IPv6Address"@),
                ) {
                    (
                        Some(JsonV::Str(name)),
                        Some(JsonV::Str(endpoint_id)),
                        Some(JsonV::Str(mac_address)),
                        Some(JsonV::Str(ipv4_address)),
                        Some(JsonV::Str(ipv6_address)),
                    ) => Some(
                        InspectNetworkResultsContainersV {
                            name,
                            endpoint_id,
                            mac_address,
                            ipv4_address,
                            ipv6_address,
                        },
                    ),
                    _ => None,
                }
            } else {
                None
            }
        },
        _ => None,
    }
}

fn container_of_json(v: &Json) -> (r: Option<InspectNetworkResultsContainers>)
    ensures
        match r {
            Some(c) => sp_container(v@) == Some(c@),
            None => sp_container(v@) is None,
        },
{
    match v {
        Json::Obj(ms) => {
            let allowed: Vec<String> = vec![
                String::from_str("Name"),
                String::from_str("EndpointID"),
                String::from_str("MacAddress"),
                String::from_str("IPv4Address"),
                String::from_str("IPv6Address"),
            ];
            proof {
                assert(names_view(allowed@) =~= container_keys());
            }
            if !keys_subset(ms, &allowed) {
                return None;
            }
            if !no_dup(ms) {
                return None;
            }
            let name = match get_str_field(ms, "Name") {
                Some(s) => s,
                None => {
                    return None;
                },
            };
            let endpoint_id = match get_str_field(ms, "EndpointID") {
                Some(s) => s,
                None => {
                    return None;
                },
            };
            let mac_address = match get_str_field(ms, "MacAddress") {
                Some(s) => s,
                None => {
                    return None;
                },
            };
            let ipv4_address = match get_str_field(ms, "IPv4Address") {
                Some(s) => s,
                None => {
                    return None;
                },
            };
            let ipv6_address = match get_str_field(ms, "IPv6Address") {
                Some(s) => s,
                None => {
                    return None;
                },
            };
            Some(
                InspectNetworkResultsContainers {
                    name,
                    endpoint_id,
                    mac_address,
                    ipv4_address,
                    ipv6_address,
                },
            )
        },
        _ => None,
    }
}

/// The typed reading of the attached-container map: each member value is
/// one attached container.
pub open spec fn sp_containers(v: JsonV) -> Option<
    Seq<(Seq<char>, InspectNetworkResultsContainersV)>,
> {
    match v {
        JsonV::Obj(ms) => {
            if forall|i: int| 0 <= i < ms.len() ==> sp_container((#[trigger] ms[i]).1) is Some {
                Some(
                    Seq::new(
                        ms.len(),
                        |i: int|
                            if 0 <= i < ms.len() {
                                (
                                    ms[i].0,
                                    match sp_container(ms[i].1) {
                                        Some(c) => c,
                                        None => InspectNetworkResultsContainersV {
                                            name: Seq::empty(),
                                            endpoint_id: Seq::empty(),
                                            mac_address: Seq::empty(),
                                            ipv4_address: Seq::empty(),
                                            ipv6_address: Seq::empty(),
                                        },
                                    },
                                )
                            } else {
                                (
                                    Seq::empty(),
                                    InspectNetworkResultsContainersV {
                                        name: Seq::empty(),
                                        endpoint_id: Seq::empty(),
                                        mac_address: Seq::empty(),
                                        ipv4_address: Seq::empty(),
                                        ipv6_address: Seq::empty(),
                                    },
                                )
                            },
                    ),
                )
            } else {
                None
            }
        },
        _ => None,
    }
}

fn containers_of_json(v: &Json) -> (r: Option<Vec<(String, InspectNetworkResultsContainers)>>)
    ensures
        match r {
            Some(cs) => sp_containers(v@) == Some(containers_view(cs@)),
            None => sp_containers(v@) is None,
        },
{
    match v {
        Json::Obj(ms) => {
            let mut out: Vec<(String, InspectNetworkResultsContainers)> = Vec::new();
            let mut n: usize = 0;
            while n < ms.len()
                invariant
                    v@ == JsonV::Obj(mview(ms@)),
                    n <= ms@.len(),
                    out@.len() == n,
                    forall|i: int|
                        0 <= i < n ==> sp_container((#[trigger] mview(ms@)[i]).1) is Some,
                    forall|i: int|
                        0 <= i < n ==> (#[trigger] out@[i]).0@ == mview(ms@)[i].0 && sp_container(
                            mview(ms@)[i].1,
                        ) == Some(out@[i].1@),
                decreases ms@.len() - n,
            {
                proof {
                    assert(mview(ms@)[n as int] == (ms@[n as int].0@, ms@[n as int].1@));
                }
                match container_of_json(&ms[n].1) {
                    Some(c) => {
                        out.push((ms[n].0.clone(), c));
                    },
                    None => {
                        proof {
                            assert(sp_container(mview(ms@)[n as int].1) is None);
                        }
                        return None;
                    },
                }
                n = n + 1;
            }
            proof {
                let ws = mview(ms@);
                assert(containers_view(out@) =~= Seq::new(
                    ws.len(),
                    |i: int|
                        if 0 <= i < ws.len() {
                            (
                                ws[i].0,
                                match sp_container(ws[i].1) {
                                    Some(c) => c,
                                    None => InspectNetworkResultsContainersV {
                                        name: Seq::empty(),
                                        endpoint_id: Seq::empty(),
                                        mac_address: Seq::empty(),
                                        ipv4_address: Seq::empty(),
                                        ipv6_address: Seq::empty(),
                                    },
                                },
                            )
                        } else {
                            (
                                Seq::empty(),
                                InspectNetworkResultsContainersV {
                                    name: Seq::empty(),
                                    endpoint_id: Seq::empty(),
                                    mac_address: Seq::empty(),
                                    ipv4_address: Seq::empty(),
                                    ipv6_address: Seq::empty(),
                                },
                            )
                        },
                ));
            }
            Some(out)
        },
        _ => None,
    }
}

/// The accepted member names of an inspect-network result.
pub open spec fn inspect_keys() -> Seq<Seq<char>> {
    seq![
        "Name"@,
        "Id"@,
        "Created"@,
        "Scope"@,
        "Driver"@,
        "EnableIPv6"@,
        "IPAM"@,
        "Internal"@,
        "Attachable"@,
        "Ingress"@,
        "Containers"@,
        "Options"@,
        "Labels"@,
        "ConfigFrom"@,
        "ConfigOnly"@,
    ]
}

/// The typed reading of an inspect-network result body: a closed object
/// with exactly the declared members, every one required.
pub open spec fn sp_inspect_results(v: JsonV) -> Option<InspectNetworkResultsV> {
    match v {
        JsonV::Obj(ms) => {
            if all_keys_in(ms, inspect_keys()) && !has_dup(ms) {
                match (
                    find(ms, "Name"@),
                    find(ms, "Id"@),
                    find(ms, "Created"@),
                    find(ms, "Scope"@),
                    find(ms, "Driver"@),
                    find(ms, "EnableIPv6"@),
                    find(ms, "IPAM"@),
                    find(ms, "Internal"@),
                    find(ms, "Attachable"@),
                    find(ms, "Ingress"@),
                ) {
                    (
                        Some(JsonV::Str(name)),
                        Some(JsonV::Str(id)),
                        Some(JsonV::Str(created)),
                        Some(JsonV::Str(scope)),
                        Some(JsonV::Str(driver)),
                        Some(JsonV::Bool(enable_ipv6)),
                        Some(ipam_v),
                        Some(JsonV::Bool(internal)),
                        Some(JsonV::Bool(attachable)),
                        Some(JsonV::Bool(ingress)),
                    ) => match (
                        find(ms, "Containers"@),
                        find(ms, "Options"@),
                        find(ms, "Labels"@),
                        find(ms, "ConfigFrom"@),
                        find(ms, "ConfigOnly"@),
                    ) {
                        (
                            Some(containers_v),
                            Some(options_v),
                            Some(labels_v),
                            Some(config_from_v),
                            Some(JsonV::Bool(config_only)),
                        ) => match (
                            sp_ipam(ipam_v),
                            sp_containers(containers_v),
                            sp_string_map(options_v),
                            sp_string_map(labels_v),
                            sp_string_map(config_from_v),
                        ) {
                            (Some(ipam), Some(containers), Some(options), Some(labels), Some(config_from)) => Some(
                                InspectNetworkResultsV {
                                    name,
                                    id,
                                    created,
                                    scope,
                                    driver,
                                    enable_ipv6,
                                    ipam,
                                    internal,
                                    attachable,
                                    ingress,
                                    containers,
                                    options,
                                    labels,
                                    config_from,
                                    config_only,
                                },
                            ),
                            _ => None,
                        },
                        _ => None,
                    },
                    _ => None,
                }
            } else {
                None
            }
        },
        _ => None,
    }
}

/// Read an inspect-network result out of a parsed body.
pub fn inspect_results_of_json(v: &Json) -> (r: Option<InspectNetworkResults>)
    ensures
        match r {
            Some(res) => sp_inspect_results(v@) == Some(res@),
            None => sp_inspect_results(v@) is None,
        },
{
    match v {
        Json::Obj(ms) => {
            let allowed: Vec<String> = vec![
                String::from_str("Name"),
                String::from_str("Id"),
                String::from_str("Created"),
                String::from_str("Scope"),
                String::from_str("Driver"),
                String::from_str("EnableIPv6"),
                String::from_str("IPAM"),
                String::from_str("Internal"),
                String::from_str("Attachable"),
                String::from_str("Ingress"),
                String::from_str("Containers"),
                String::from_str("Options"),
                String::from_str("Labels"),
                String::from_str("ConfigFrom"),
                String::from_str("ConfigOnly"),
            ];
            proof {
                assert(names_view(allowed@) =~= inspect_keys());
            }
            if !keys_subset(ms, &allowed) {
                return None;
            }
            if !no_dup(ms) {
                return None;
            }
            let name = match get_str_field(ms, "Name") {
                Some(s) => s,
                None => {
                    return None;
                },
            };
            let id = match get_str_field(ms, "Id") {
                Some(s) => s,
                None => {
                    return None;
                },
            };
            let created = match get_str_field(ms, "Created") {
                Some(s) => s,
                None => {
                    return None;
                },
            };
            let scope = match get_str_field(ms, "Scope") {
                Some(s) => s,
                None => {
                    return None;
                },
            };
            let driver = match get_str_field(ms, "Driver") {
                Some(s) => s,
                None => {
                    return None;
                },
            };
            let enable_ipv6 = match get_bool_field(ms, "EnableIPv6") {
                Some(b) => b,
                None => {
                    return None;
                },
            };
            let ipam = match find_idx(ms, "IPAM") {
                Some(ix) => match ipam_of_json(&ms[ix].1) {
                    Some(x) => x,
                    None => {
                        return None;
                    },
                },
                None => {
                    return None;
                },
            };
            let internal = match get_bool_field(ms, "Internal") {
                Some(b) => b,
                None => {
                    return None;
                },
            };
            let attachable = match get_bool_field(ms, "Attachable") {
                Some(b) => b,
                None => {
                    return None;
                },
            };
            let ingress = match get_bool_field(ms, "Ingress") {
                Some(b) => b,
                None => {
                    return None;
                },
            };
            let containers = match find_idx(ms, "Containers") {
                Some(ix) => match containers_of_json(&ms[ix].1) {
                    Some(x) => x,
                    None => {
                        return None;
                    },
                },
                None => {
                    return None;
                },
            };
            let options = match find_idx(ms, "Options") {
                Some(ix) => match string_map_of_json(&ms[ix].1) {
                    Some(x) => x,
                    None => {
                        return None;
                    },
                },
                None => {
                    return None;
                },
            };
            let labels = match find_idx(ms, "Labels") {
                Some(ix) => match string_map_of_json(&ms[ix].1) {
                    Some(x) => x,
                    None => {
                        return None;
                    },
                },
                None => {
                    return None;
                },
            };
            let config_from = match find_idx(ms, "ConfigFrom") {
                Some(ix) => match string_map_of_json(&ms[ix].1) {
                    Some(x) => x,
                    None => {
                        return None;
                    },
                },
                None => {
                    return None;
                },
            };
            let config_only = match get_bool_field(ms, "ConfigOnly") {
                Some(b) => b,
                None => {
                    return None;
                },
            };
            Some(
                InspectNetworkResults {
                    name,
                    id,
                    created,
                    scope,
                    driver,
                    enable_ipv6,
                    ipam,
                    internal,
                    attachable,
                    ingress,
                    containers,
                    options,
                    labels,
                    config_from,
                    config_only,
                },
            )
        },
        _ => None,
    }
}

/// What decoding an inspect-network response yields, for every status and
/// body.
pub open spec fn sp_decode_inspect(status: u16, body: Seq<char>) -> Result<
    InspectNetworkResultsV,
    DockerErrorV,
> {
    if sp_status_ok(status) {
        match sp_json(body) {
            Some(v) => match sp_inspect_results(v) {
                Some(res) => Ok(res),
                None => Err(DockerErrorV::Decode(body)),
            },
            None => Err(DockerErrorV::Decode(body)),
        }
    } else {
        Err(DockerErrorV::Api { status_code: status, message: sp_error_message(body) })
    }
}

/// Decode a response in an inspect-network context.
pub fn decode_inspect_network_response(resp: &RawResponse) -> (r: Result<
    InspectNetworkResults,
    DockerError,
>)
    ensures
        match r {
            Ok(res) => sp_decode_inspect(resp@.status, resp@.body) == Ok::<
                InspectNetworkResultsV,
                DockerErrorV,
            >(res@),
            Err(e) => sp_decode_inspect(resp@.status, resp@.body) == Err::<
                InspectNetworkResultsV,
                DockerErrorV,
            >(e@),
        },
{
    if 200 <= resp.status && resp.status < 300 {
        let cs = chars_of(resp.body.as_str());
        match parse_json(&cs) {
            Some(v) => match inspect_results_of_json(&v) {
                Some(res) => Ok(res),
                None => Err(DockerError::Decode(resp.body.clone())),
            },
            None => Err(DockerError::Decode(resp.body.clone())),
        }
    } else {
        Err(
            DockerError::Api {
                status_code: resp.status,
                message: error_message(&resp.body),
            },
        )
    }
}

/// What decoding a create-network response yields, for every status and
/// body: the typed result on a success status with a conforming body, a
/// `Decode` error on a success status with any other body, and an `Api`
/// error on an error status.
pub open spec fn sp_decode_create(status: u16, body: Seq<char>) -> Result<
    CreateNetworkResultsV,
    DockerErrorV,
> {
    if sp_status_ok(status) {
        match sp_json(body) {
            Some(v) => match sp_create_results(v) {
                Some(res) => Ok(res),
                None => Err(DockerErrorV::Decode(body)),
            },
            None => Err(DockerErrorV::Decode(body)),
        }
    } else {
        Err(DockerErrorV::Api { status_code: status, message: sp_error_message(body) })
    }
}

/// Decode a response in a create-network context.
pub fn decode_create_network_response(resp: &RawResponse) -> (r: Result<
    CreateNetworkResults,
    DockerError,
>)
    ensures
        match r {
            Ok(res) => sp_decode_create(resp@.status, resp@.body) == Ok::<
                CreateNetworkResultsV,
                DockerErrorV,
            >(res@),
            Err(e) => sp_decode_create(resp@.status, resp@.body) == Err::<
                CreateNetworkResultsV,
                DockerErrorV,
            >(e@),
        },
{
    if 200 <= resp.status && resp.status < 300 {
        let cs = chars_of(resp.body.as_str());
        match parse_json(&cs) {
            Some(v) => match create_results_of_json(&v) {
                Some(res) => Ok(res),
                None => Err(DockerError::Decode(resp.body.clone())),
            },
            None => Err(DockerError::Decode(resp.body.clone())),
        }
    } else {
        Err(
            DockerError::Api {
                status_code: resp.status,
                message: error_message(&resp.body),
            },
        )
    }
}

/// A response carrying an unknown member in a typed-result context always
/// yields a `Decode` error: the member is never silently dropped.
pub proof fn lemma_unknown_field_rejected(
    status: u16,
    body: Seq<char>,
    ms: Seq<(Seq<char>, JsonV)>,
    i: int,
)
    requires
        sp_status_ok(status),
        sp_json(body) == Some(JsonV::Obj(ms)),
        0 <= i < ms.len(),
        !create_keys().contains(ms[i].0),
    ensures
        sp_decode_create(status, body) == Err::<CreateNetworkResultsV, DockerErrorV>(
            DockerErrorV::Decode(body),
        ),
{
    assert(!all_keys_in(ms, create_keys()));
}

/// The same strictness holds of the inspect-network schema.
pub proof fn lemma_unknown_field_rejected_inspect(
    status: u16,
    body: Seq<char>,
    ms: Seq<(Seq<char>, JsonV)>,
    i: int,
)
    requires
        sp_status_ok(status),
        sp_json(body) == Some(JsonV::Obj(ms)),
        0 <= i < ms.len(),
        !inspect_keys().contains(ms[i].0),
    ensures
        sp_decode_inspect(status, body) == Err::<InspectNetworkResultsV, DockerErrorV>(
            DockerErrorV::Decode(body),
        ),
{
    assert(!all_keys_in(ms, inspect_keys()));
}

/// Any success status in a unit-result context is unit success, whatever
/// the body holds: no-content success does not ask for an empty body.
pub proof fn lemma_unit_success_any_body(status: u16, body: Seq<char>)
    requires
        sp_status_ok(status),
    ensures
        sp_decode_unit(status, body) == Ok::<(), DockerErrorV>(()),
{
}

} // verus!
