//! Request body encoding.
//!
//! The wire encoding of a create-network request is JSON text with the
//! declared member order and PascalCase member names.  `create_body` states
//! the exact text; `serialize_payload` produces it, or an `Encoding` error
//! exactly when some string holds a control character the encoding cannot
//! carry.

use vstd::prelude::*;
use vstd::string::StringExecFns;

use crate::error::DockerError;
use crate::error::DockerErrorV;
use crate::json::chars_of;
use crate::json::push_char;
use crate::network::kv_view;
use crate::network::CreateNetworkOptions;
use crate::network::CreateNetworkOptionsV;
use crate::network::IPAM;
use crate::network::IPAMV;
use crate::network::IPAMConfig;
use crate::network::IPAMConfigV;

verus! {

/// A character the string encoding can carry: anything but a control
/// character, and the five control characters with a short escape.
pub open spec fn ok_char(c: char) -> bool {
    c as u32 >= 32 || c == '\n' || c == '\r' || c == '\t' || c == '\u{8}' || c == '\u{c}'
}

/// Every character of the string can be carried.
pub open spec fn str_ok(s: Seq<char>) -> bool {
    forall|i: int| 0 <= i < s.len() ==> ok_char(#[trigger] s[i])
}

/// What one character becomes inside a string literal.
pub open spec fn esc_char(c: char) -> Seq<char> {
    if c == '"' {
        "\\\""@
    } else if c == '\\' {
        "\\\\"@
    } else if c == '\n' {
        "\\n"@
    } else if c == '\r' {
        "\\r"@
    } else if c == '\t' {
        "\\t"@
    } else if c == '\u{8}' {
        "\\b"@
    } else if c == '\u{c}' {
        "\\f"@
    } else {
        seq![c]
    }
}

/// The escaped form of a string's characters.
pub open spec fn esc(s: Seq<char>) -> Seq<char>
    decreases s.len(),
{
    if s.len() == 0 {
        Seq::empty()
    } else {
        esc(s.drop_last()) + esc_char(s.last())
    }
}

/// A string literal of the wire encoding.
pub open spec fn quoted(s: Seq<char>) -> Seq<char> {
    "\""@ + esc(s) + "\""@
}

/// The two canonical boolean tokens of the wire encoding.
pub open spec fn bool_text(b: bool) -> Seq<char> {
    if b {
        "true"@
    } else {
        "false"@
    }
}

/// One `"key":"value"` member.
pub open spec fn pair_text(p: (Seq<char>, Seq<char>)) -> Seq<char> {
    quoted(p.0) + ":"@ + quoted(p.1)
}

/// Comma-separated members of a string map, in pair order.
pub open spec fn kv_members(ps: Seq<(Seq<char>, Seq<char>)>) -> Seq<char>
    decreases ps.len(),
{
    if ps.len() == 0 {
        Seq::empty()
    } else if ps.len() == 1 {
        pair_text(ps[0])
    } else {
        kv_members(ps.drop_last()) + ","@ + pair_text(ps.last())
    }
}

/// A string map as one object.
pub open spec fn obj_text(ps: Seq<(Seq<char>, Seq<char>)>) -> Seq<char> {
    "{"@ + kv_members(ps) + "}"@
}

/// Every pair of the map can be carried.
pub open spec fn pairs_ok(ps: Seq<(Seq<char>, Seq<char>)>) -> bool {
    forall|i: int|
        0 <= i < ps.len() ==> str_ok((#[trigger] ps[i]).0) && str_ok(ps[i].1)
}

/// An optional string member; an absent one is written as null.
pub open spec fn opt_str_text(o: Option<Seq<char>>) -> Seq<char> {
    match o {
        Some(s) => quoted(s),
        None => "null"@,
    }
}

pub open spec fn opt_str_ok(o: Option<Seq<char>>) -> bool {
    match o {
        Some(s) => str_ok(s),
        None => true,
    }
}

/// An optional string-map member; an absent one is written as null.
pub open spec fn opt_map_text(o: Option<Seq<(Seq<char>, Seq<char>)>>) -> Seq<char> {
    match o {
        Some(m) => obj_text(m),
        None => "null"@,
    }
}

pub open spec fn opt_map_ok(o: Option<Seq<(Seq<char>, Seq<char>)>>) -> bool {
    match o {
        Some(m) => pairs_ok(m),
        None => true,
    }
}

/// The text of one IP address management entry.
pub open spec fn cfg_text(c: IPAMConfigV) -> Seq<char> {
    "{\"Subnet\":"@ + opt_str_text(c.subnet) + ",\"IPRange\":"@ + opt_str_text(c.ip_range)
        + ",\"Gateway\":"@ + opt_str_text(c.gateway) + ",\"AuxAddress\":"@ + opt_map_text(
        c.aux_address,
    ) + "}"@
}

pub open spec fn cfg_ok(c: IPAMConfigV) -> bool {
    opt_str_ok(c.subnet) && opt_str_ok(c.ip_range) && opt_str_ok(c.gateway) && opt_map_ok(
        c.aux_address,
    )
}

/// Comma-separated entry list.
pub open spec fn cfg_items(cs: Seq<IPAMConfigV>) -> Seq<char>
    decreases cs.len(),
{
    if cs.len() == 0 {
        Seq::empty()
    } else if cs.len() == 1 {
        cfg_text(cs[0])
    } else {
        cfg_items(cs.drop_last()) + ","@ + cfg_text(cs.last())
    }
}

pub open spec fn cfg_list_text(cs: Seq<IPAMConfigV>) -> Seq<char> {
    "["@ + cfg_items(cs) + "]"@
}

pub open spec fn cfgs_ok(cs: Seq<IPAMConfigV>) -> bool {
    forall|i: int| 0 <= i < cs.len() ==> cfg_ok(#[trigger] cs[i])
}

/// The text of the IP address management settings.
pub open spec fn ipam_text(p: IPAMV) -> Seq<char> {
    "{\"Driver\":"@ + quoted(p.driver) + ",\"Config\":"@ + cfg_list_text(p.config)
        + ",\"Options\":"@ + obj_text(p.options) + "}"@
}

pub open spec fn ipam_ok(p: IPAMV) -> bool {
    str_ok(p.driver) && cfgs_ok(p.config) && pairs_ok(p.options)
}

/// The exact body text of a create-network request.
pub open spec fn create_body(c: CreateNetworkOptionsV) -> Seq<char> {
    "{\"Name\":"@ + quoted(c.name) + ",\"CheckDuplicate\":"@ + bool_text(c.check_duplicate)
        + ",\"Driver\":"@ + quoted(c.driver) + ",\"Internal\":"@ + bool_text(c.internal)
        + ",\"Attachable\":"@ + bool_text(c.attachable) + ",\"Ingress\":"@ + bool_text(c.ingress)
        + ",\"IPAM\":"@ + ipam_text(c.ipam) + ",\"EnableIPv6\":"@ + bool_text(c.enable_ipv6)
        + ",\"Options\":"@ + obj_text(c.options) + ",\"Labels\":"@ + obj_text(c.labels) + "}"@
}

/// Every string of the options value can be carried.
pub open spec fn options_encodable(c: CreateNetworkOptionsV) -> bool {
    str_ok(c.name) && str_ok(c.driver) && ipam_ok(c.ipam) && pairs_ok(c.options) && pairs_ok(
        c.labels,
    )
}

pub(crate) fn w_lit(out: &mut String, lit: &str)
    ensures
        final(out)@ == old(out)@ + lit@,
{
    out.append(lit);
}

fn w_bool(out: &mut String, b: bool)
    ensures
        final(out)@ == old(out)@ + bool_text(b),
{
    if b {
        out.append("true");
    } else {
        out.append("false");
    }
}

fn w_quoted(out: &mut String, s: &str) -> (r: bool)
    ensures
        r ==> str_ok(s@) && final(out)@ == old(out)@ + quoted(s@),
        !r ==> !str_ok(s@),
{
    let cs = chars_of(s);
    let ghost start = out@;
    w_lit(out, "\"");
    let mut k: usize = 0;
    while k < cs.len()
        invariant
            k <= cs@.len(),
            cs@ == s@,
            out@ == start + "\""@ + esc(s@.subrange(0, k as int)),
            forall|i: int| 0 <= i < k ==> ok_char(#[trigger] s@[i]),
        decreases cs@.len() - k,
    {
        let c = cs[k];
        proof {
            assert(s@.subrange(0, k as int + 1).drop_last() =~= s@.subrange(0, k as int));
            assert(s@.subrange(0, k as int + 1).last() == s@[k as int]);
        }
        if c == '"' {
            w_lit(out, "\\\"");
        } else if c == '\\' {
            w_lit(out, "\\\\");
        } else if c == '\n' {
            w_lit(out, "\\n");
        } else if c == '\r' {
            w_lit(out, "\\r");
        } else if c == '\t' {
            w_lit(out, "\\t");
        } else if c == '\u{8}' {
            w_lit(out, "\\b");
        } else if c == '\u{c}' {
            w_lit(out, "\\f");
        } else if (c as u32) < 32 {
            proof {
                assert(!ok_char(s@[k as int]));
            }
            return false;
        } else {
            push_char(out, c);
        }
        proof {
            assert(out@ =~= start + "\""@ + esc(s@.subrange(0, k as int + 1)));
        }
        k = k + 1;
    }
    proof {
        assert(s@.subrange(0, s@.len() as int) =~= s@);
    }
    w_lit(out, "\"");
    proof {
        assert(out@ =~= start + quoted(s@));
    }
    true
}

fn w_pairs(out: &mut String, ps: &Vec<(String, String)>) -> (r: bool)
    ensures
        r ==> pairs_ok(kv_view(ps@)) && final(out)@ == old(out)@ + obj_text(kv_view(ps@)),
        !r ==> !pairs_ok(kv_view(ps@)),
{
    let ghost start = out@;
    w_lit(out, "{");
    let mut k: usize = 0;
    while k < ps.len()
        invariant
            k <= ps@.len(),
            out@ == start + "{"@ + kv_members(kv_view(ps@).subrange(0, k as int)),
            forall|i: int|
                0 <= i < k ==> str_ok((#[trigger] kv_view(ps@)[i]).0) && str_ok(
                    kv_view(ps@)[i].1,
                ),
        decreases ps@.len() - k,
    {
        proof {
            assert(kv_view(ps@)[k as int] == (ps@[k as int].0@, ps@[k as int].1@));
        }
        if k > 0 {
            w_lit(out, ",");
        }
        if !w_quoted(out, ps[k].0.as_str()) {
            proof {
                assert(!pairs_ok(kv_view(ps@)));
            }
            return false;
        }
        w_lit(out, ":");
        if !w_quoted(out, ps[k].1.as_str()) {
            proof {
                assert(!pairs_ok(kv_view(ps@)));
            }
            return false;
        }
        proof {
            let w = kv_view(ps@);
            assert(w.subrange(0, k as int + 1).drop_last() =~= w.subrange(0, k as int));
            assert(w.subrange(0, k as int + 1).last() == w[k as int]);
            assert(out@ =~= start + "{"@ + kv_members(w.subrange(0, k as int + 1)));
        }
        k = k + 1;
    }
    proof {
        assert(kv_view(ps@).subrange(0, ps@.len() as int) =~= kv_view(ps@));
    }
    w_lit(out, "}");
    proof {
        assert(out@ =~= start + obj_text(kv_view(ps@)));
    }
    true
}

fn w_opt_str(out: &mut String, o: &Option<String>) -> (r: bool)
    ensures
        r ==> (match o {
            Some(s) => str_ok(s@) && final(out)@ == old(out)@ + quoted(s@),
            None => final(out)@ == old(out)@ + "null"@,
        }),
        !r ==> (match o {
            Some(s) => !str_ok(s@),
            None => false,
        }),
{
    match o {
        Some(s) => w_quoted(out, s.as_str()),
        None => {
            w_lit(out, "null");
            true
        },
    }
}

fn w_opt_map(out: &mut String, o: &Option<Vec<(String, String)>>) -> (r: bool)
    ensures
        r ==> (match o {
            Some(m) => pairs_ok(kv_view(m@)) && final(out)@ == old(out)@ + obj_text(kv_view(m@)),
            None => final(out)@ == old(out)@ + "null"@,
        }),
        !r ==> (match o {
            Some(m) => !pairs_ok(kv_view(m@)),
            None => false,
        }),
{
    match o {
        Some(m) => w_pairs(out, m),
        None => {
            w_lit(out, "null");
            true
        },
    }
}

fn w_cfg(out: &mut String, c: &IPAMConfig) -> (r: bool)
    ensures
        r ==> cfg_ok(c@) && final(out)@ == old(out)@ + cfg_text(c@),
        !r ==> !cfg_ok(c@),
{
    let ghost start = out@;
    w_lit(out, "{\"Subnet\":");
    if !w_opt_str(out, &c.subnet) {
        return false;
    }
    w_lit(out, ",\"IPRange\":");
    if !w_opt_str(out, &c.ip_range) {
        return false;
    }
    w_lit(out, ",\"Gateway\":");
    if !w_opt_str(out, &c.gateway) {
        return false;
    }
    w_lit(out, ",\"AuxAddress\":");
    if !w_opt_map(out, &c.aux_address) {
        return false;
    }
    w_lit(out, "}");
    proof {
        assert(out@ =~= start + cfg_text(c@));
    }
    true
}

fn w_cfg_list(out: &mut String, cs: &Vec<IPAMConfig>) -> (r: bool)
    ensures
        r ==> cfgs_ok(crate::network::cfgs_view(cs@)) && final(out)@ == old(out)@ + cfg_list_text(
            crate::network::cfgs_view(cs@),
        ),
        !r ==> !cfgs_ok(crate::network::cfgs_view(cs@)),
{
    let ghost start = out@;
    w_lit(out, "[");
    let mut k: usize = 0;
    while k < cs.len()
        invariant
            k <= cs@.len(),
            out@ == start + "["@ + cfg_items(crate::network::cfgs_view(cs@).subrange(0, k as int)),
            forall|i: int| 0 <= i < k ==> cfg_ok(#[trigger] crate::network::cfgs_view(cs@)[i]),
        decreases cs@.len() - k,
    {
        proof {
            assert(crate::network::cfgs_view(cs@)[k as int] == cs@[k as int]@);
        }
        if k > 0 {
            w_lit(out, ",");
        }
        if !w_cfg(out, &cs[k]) {
            proof {
                assert(!cfgs_ok(crate::network::cfgs_view(cs@)));
            }
            return false;
        }
        proof {
            let w = crate::network::cfgs_view(cs@);
            assert(w.subrange(0, k as int + 1).drop_last() =~= w.subrange(0, k as int));
            assert(w.subrange(0, k as int + 1).last() == w[k as int]);
            assert(out@ =~= start + "["@ + cfg_items(w.subrange(0, k as int + 1)));
        }
        k = k + 1;
    }
    proof {
        let w = crate::network::cfgs_view(cs@);
        assert(w.subrange(0, cs@.len() as int) =~= w);
    }
    w_lit(out, "]");
    proof {
        assert(out@ =~= start + cfg_list_text(crate::network::cfgs_view(cs@)));
    }
    true
}

fn w_ipam(out: &mut String, p: &IPAM) -> (r: bool)
    ensures
        r ==> ipam_ok(p@) && final(out)@ == old(out)@ + ipam_text(p@),
        !r ==> !ipam_ok(p@),
{
    let ghost start = out@;
    w_lit(out, "{\"Driver\":");
    if !w_quoted(out, p.driver.as_str()) {
        return false;
    }
    w_lit(out, ",\"Config\":");
    if !w_cfg_list(out, &p.config) {
        return false;
    }
    w_lit(out, ",\"Options\":");
    if !w_pairs(out, &p.options) {
        return false;
    }
    w_lit(out, "}");
    proof {
        assert(out@ =~= start + ipam_text(p@));
    }
    true
}

/// Serialize a create-network options value to its body text, or report
/// an `Encoding` error exactly when some string of it cannot be carried.
pub fn serialize_payload(config: &CreateNetworkOptions) -> (r: Result<String, DockerError>)
    ensures
        match r {
            Ok(s) => options_encodable(config@) && s@ == create_body(config@),
            Err(e) => !options_encodable(config@) && e@ == DockerErrorV::Encoding,
        },
{
    let mut out = String::new();
    w_lit(&mut out, "{\"Name\":");
    if !w_quoted(&mut out, config.name.as_str()) {
        return Err(DockerError::Encoding);
    }
    w_lit(&mut out, ",\"CheckDuplicate\":");
    w_bool(&mut out, config.check_duplicate);
    w_lit(&mut out, ",\"Driver\":");
    if !w_quoted(&mut out, config.driver.as_str()) {
        return Err(DockerError::Encoding);
    }
    w_lit(&mut out, ",\"Internal\":");
    w_bool(&mut out, config.internal);
    w_lit(&mut out, ",\"Attachable\":");
    w_bool(&mut out, config.attachable);
    w_lit(&mut out, ",\"Ingress\":");
    w_bool(&mut out, config.ingress);
    w_lit(&mut out, ",\"IPAM\":");
    if !w_ipam(&mut out, &config.ipam) {
        return Err(DockerError::Encoding);
    }
    w_lit(&mut out, ",\"EnableIPv6\":");
    w_bool(&mut out, config.enable_ipv6);
    w_lit(&mut out, ",\"Options\":");
    if !w_pairs(&mut out, &config.options) {
        return Err(DockerError::Encoding);
    }
    w_lit(&mut out, ",\"Labels\":");
    if !w_pairs(&mut out, &config.labels) {
        return Err(DockerError::Encoding);
    }
    w_lit(&mut out, "}");
    proof {
        assert(out@ =~= create_body(config@));
    }
    Ok(out)
}

} // verus!
