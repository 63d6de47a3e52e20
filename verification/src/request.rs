//! Request building.
//!
//! A request descriptor holds method, path, ordered query pairs, headers and
//! an optional body, built once per call and immutable afterwards.  The path
//! parameter is percent-encoded, so an identifier holding reserved
//! characters cannot corrupt the path; `uri` appends the query pairs as a
//! canonical `?k=v&k2=v2` suffix, percent-encoding keys and values
//! independently.  Building is deterministic: the descriptor is a function
//! of the arguments alone.

use vstd::prelude::*;
use vstd::string::StringExecFns;

use crate::encode::w_lit;
use crate::error::DockerError;
use crate::error::DockerErrorV;
use crate::json::chars_of;
use crate::json::push_char;
use crate::network::kv_view;

verus! {

/// The request methods the endpoints use.
#[derive(PartialEq, Eq, Structural, Clone, Copy, Debug)]
pub enum Method {
    Get,
    Post,
    Delete,
}

/// One request, ready for a transport: method, path, ordered query pairs,
/// headers, and an optional body.
#[derive(Debug, Clone, PartialEq, Eq)]
pub struct RequestDescriptor {
    pub method: Method,
    pub path: String,
    pub query: Vec<(String, String)>,
    pub headers: Vec<(String, String)>,
    pub body: Option<String>,
}

pub struct RequestDescriptorV {
    pub method: Method,
    pub path: Seq<char>,
    pub query: Seq<(Seq<char>, Seq<char>)>,
    pub headers: Seq<(Seq<char>, Seq<char>)>,
    pub body: Option<Seq<char>>,
}

impl View for RequestDescriptor {
    type V = RequestDescriptorV;

    open spec fn view(&self) -> RequestDescriptorV {
        RequestDescriptorV {
            method: self.method,
            path: self.path@,
            query: kv_view(self.query@),
            headers: kv_view(self.headers@),
            body: match self.body {
                Some(ref b) => Some(b@),
                None => None,
            },
        }
    }
}

/// A character percent-encoding can carry as-is.
pub open spec fn unreserved(c: char) -> bool {
    (48 <= c as u32 && c as u32 <= 57) || (65 <= c as u32 && c as u32 <= 90) || (97 <= c as u32
        && c as u32 <= 122) || c == '-' || c == '_' || c == '.' || c == '~'
}

/// A string the percent encoding accepts: seven-bit characters only.
pub open spec fn pct_ok(s: Seq<char>) -> bool {
    forall|i: int| #![trigger s[i]] 0 <= i < s.len() ==> (s[i] as u32) < 128
}

/// The hexadecimal digit of a value below sixteen.
pub open spec fn hex_digit(d: int) -> char {
    if d == 0 {
        '0'
    } else if d == 1 {
        '1'
    } else if d == 2 {
        '2'
    } else if d == 3 {
        '3'
    } else if d == 4 {
        '4'
    } else if d == 5 {
        '5'
    } else if d == 6 {
        '6'
    } else if d == 7 {
        '7'
    } else if d == 8 {
        '8'
    } else if d == 9 {
        '9'
    } else if d == 10 {
        'A'
    } else if d == 11 {
        'B'
    } else if d == 12 {
        'C'
    } else if d == 13 {
        'D'
    } else if d == 14 {
        'E'
    } else {
        'F'
    }
}

/// What one character becomes under percent-encoding.
pub open spec fn pct_char(c: char) -> Seq<char> {
    if unreserved(c) {
        seq![c]
    } else {
        seq!['%', hex_digit(c as u32 as int / 16), hex_digit(c as u32 as int % 16)]
    }
}

/// The percent-encoded form of a string's characters.
pub open spec fn pct(s: Seq<char>) -> Seq<char>
    decreases s.len(),
{
    if s.len() == 0 {
        Seq::empty()
    } else {
        pct(s.drop_last()) + pct_char(s.last())
    }
}

fn hex_e(d: u32) -> (r: char)
    requires
        d < 16,
    ensures
        r == hex_digit(d as int),
{
    if d == 0 {
        '0'
    } else if d == 1 {
        '1'
    } else if d == 2 {
        '2'
    } else if d == 3 {
        '3'
    } else if d == 4 {
        '4'
    } else if d == 5 {
        '5'
    } else if d == 6 {
        '6'
    } else if d == 7 {
        '7'
    } else if d == 8 {
        '8'
    } else if d == 9 {
        '9'
    } else if d == 10 {
        'A'
    } else if d == 11 {
        'B'
    } else if d == 12 {
        'C'
    } else if d == 13 {
        'D'
    } else if d == 14 {
        'E'
    } else {
        'F'
    }
}

fn w_pct(out: &mut String, s: &str) -> (r: bool)
    ensures
        r ==> pct_ok(s@) && final(out)@ == old(out)@ + pct(s@),
        !r ==> !pct_ok(s@),
{
    let cs = chars_of(s);
    let ghost start = out@;
    let mut k: usize = 0;
    while k < cs.len()
        invariant
            k <= cs@.len(),
            cs@ == s@,
            out@ == start + pct(s@.subrange(0, k as int)),
            forall|i: int| #![trigger s@[i]] 0 <= i < k ==> (s@[i] as u32) < 128,
        decreases cs@.len() - k,
    {
        let c = cs[k];
        proof {
            assert(s@.subrange(0, k as int + 1).drop_last() =~= s@.subrange(0, k as int));
            assert(s@.subrange(0, k as int + 1).last() == s@[k as int]);
        }
        let d = c as u32;
        if (48 <= d && d <= 57) || (65 <= d && d <= 90) || (97 <= d && d <= 122) || c == '-' || c
            == '_' || c == '.' || c == '~' {
            push_char(out, c);
        } else if d < 128 {
            push_char(out, '%');
            push_char(out, hex_e(d / 16));
            push_char(out, hex_e(d % 16));
            proof {
                assert(out@ =~= start + pct(s@.subrange(0, k as int)) + pct_char(s@[k as int]));
            }
        } else {
            return false;
        }
        proof {
            assert(out@ =~= start + pct(s@.subrange(0, k as int + 1)));
        }
        k = k + 1;
    }
    proof {
        assert(s@.subrange(0, s@.len() as int) =~= s@);
    }
    true
}

/// The descriptor built from the given parts: the path is the prefix with
/// the percent-encoded parameter appended, the query pairs are kept in
/// order, and the content-type header stands exactly when a body does.
pub open spec fn sp_build(
    method: Method,
    path_prefix: Seq<char>,
    path_param: Option<Seq<char>>,
    query: Seq<(Seq<char>, Seq<char>)>,
    body: Option<Seq<char>>,
) -> RequestDescriptorV {
    RequestDescriptorV {
        method,
        path: path_prefix + (match path_param {
            Some(p) => pct(p),
            None => Seq::empty(),
        }),
        query,
        headers: match body {
            Some(_) => seq![("Content-Type"@, "application/json"@)],
            None => Seq::empty(),
        },
        body,
    }
}

/// Build a request descriptor.  Fails with an `Encoding` error exactly when
/// the path parameter holds a character the percent encoding cannot carry.
pub fn build_request(
    method: Method,
    path_prefix: &str,
    path_param: Option<&str>,
    query: Vec<(String, String)>,
    body: Option<String>,
) -> (r: Result<RequestDescriptor, DockerError>)
    ensures
        match r {
            Ok(d) => (match path_param {
                Some(p) => pct_ok(p@),
                None => true,
            }) && d@ == sp_build(
                method,
                path_prefix@,
                match path_param {
                    Some(p) => Some(p@),
                    None => None,
                },
                kv_view(query@),
                match body {
                    Some(ref b) => Some(b@),
                    None => None,
                },
            ),
            Err(e) => (match path_param {
                Some(p) => !pct_ok(p@),
                None => false,
            }) && e@ == DockerErrorV::Encoding,
        },
{
    let mut path = String::from_str(path_prefix);
    match path_param {
        Some(p) => {
            if !w_pct(&mut path, p) {
                return Err(DockerError::Encoding);
            }
        },
        None => {},
    }
    let mut headers: Vec<(String, String)> = Vec::new();
    match &body {
        Some(_) => {
            headers.push(
                (String::from_str("Content-Type"), String::from_str("application/json")),
            );
            proof {
                assert(kv_view(headers@) =~= seq![("Content-Type"@, "application/json"@)]);
            }
        },
        None => {
            proof {
                assert(kv_view(headers@) =~= Seq::<(Seq<char>, Seq<char>)>::empty());
            }
        },
    }
    proof {
        assert(path@ == path_prefix@ + (match path_param {
            Some(p) => pct(p@),
            None => Seq::<char>::empty(),
        }) || path_param is None);
        if path_param is None {
            assert(path@ =~= path_prefix@ + Seq::<char>::empty());
        }
    }
    Ok(RequestDescriptor { method, path, query, headers, body })
}

/// One percent-encoded query item.
pub open spec fn qitem(p: (Seq<char>, Seq<char>)) -> Seq<char> {
    pct(p.0) + "="@ + pct(p.1)
}

/// Ampersand-separated query items, in pair order.
pub open spec fn qitems(q: Seq<(Seq<char>, Seq<char>)>) -> Seq<char>
    decreases q.len(),
{
    if q.len() == 0 {
        Seq::empty()
    } else if q.len() == 1 {
        qitem(q[0])
    } else {
        qitems(q.drop_last()) + "&"@ + qitem(q.last())
    }
}

/// Every query pair can be percent-encoded.
pub open spec fn query_ok(q: Seq<(Seq<char>, Seq<char>)>) -> bool {
    forall|i: int| 0 <= i < q.len() ==> pct_ok((#[trigger] q[i]).0) && pct_ok(q[i].1)
}

/// The request line target: the path, then the query pairs as a canonical
/// `?k=v&k2=v2` suffix when any are present.
pub open spec fn sp_uri(d: RequestDescriptorV) -> Seq<char> {
    d.path + (if d.query.len() == 0 {
        Seq::<char>::empty()
    } else {
        "?"@ + qitems(d.query)
    })
}

impl RequestDescriptor {
    /// Render path and query string.  Fails with an `Encoding` error exactly
    /// when some query key or value holds a character the percent encoding
    /// cannot carry.
    pub fn uri(&self) -> (r: Result<String, DockerError>)
        ensures
            match r {
                Ok(u) => query_ok(self@.query) && u@ == sp_uri(self@),
                Err(e) => !query_ok(self@.query) && e@ == DockerErrorV::Encoding,
            },
    {
        let mut u = self.path.clone();
        if self.query.len() == 0 {
            proof {
                assert(u@ =~= sp_uri(self@));
            }
            return Ok(u);
        }
        w_lit(&mut u, "?");
        let ghost w = kv_view(self.query@);
        let mut k: usize = 0;
        while k < self.query.len()
            invariant
                k <= self.query@.len(),
                w == kv_view(self.query@),
                u@ == self@.path + "?"@ + qitems(w.subrange(0, k as int)),
                forall|i: int| 0 <= i < k ==> pct_ok((#[trigger] w[i]).0) && pct_ok(w[i].1),
            decreases self.query@.len() - k,
        {
            proof {
                assert(w[k as int] == (self.query@[k as int].0@, self.query@[k as int].1@));
            }
            if k > 0 {
                w_lit(&mut u, "&");
            }
            if !w_pct(&mut u, self.query[k].0.as_str()) {
                proof {
                    assert(!query_ok(w));
                }
                return Err(DockerError::Encoding);
            }
            w_lit(&mut u, "=");
            if !w_pct(&mut u, self.query[k].1.as_str()) {
                proof {
                    assert(!query_ok(w));
                }
                return Err(DockerError::Encoding);
            }
            proof {
                assert(w.subrange(0, k as int + 1).drop_last() =~= w.subrange(0, k as int));
                assert(w.subrange(0, k as int + 1).last() == w[k as int]);
                assert(u@ =~= self@.path + "?"@ + qitems(w.subrange(0, k as int + 1)));
            }
            k = k + 1;
        }
        proof {
            assert(w.subrange(0, self.query@.len() as int) =~= w);
            assert(u@ =~= sp_uri(self@));
        }
        Ok(u)
    }
}

/// The request builder is deterministic: structurally equal inputs build
/// structurally equal descriptors.
pub proof fn lemma_request_builder_deterministic(
    m1: Method,
    pre1: Seq<char>,
    pa1: Option<Seq<char>>,
    q1: Seq<(Seq<char>, Seq<char>)>,
    b1: Option<Seq<char>>,
    m2: Method,
    pre2: Seq<char>,
    pa2: Option<Seq<char>>,
    q2: Seq<(Seq<char>, Seq<char>)>,
    b2: Option<Seq<char>>,
)
    requires
        m1 == m2,
        pre1 == pre2,
        pa1 == pa2,
        q1 == q2,
        b1 == b2,
    ensures
        sp_build(m1, pre1, pa1, q1, b1) == sp_build(m2, pre2, pa2, q2, b2),
{
}

} // verus!
