//! A small JSON tree, the mathematical view of it, and a verified parser.
//!
//! The wire format of the daemon API is JSON text.  `Json` is the executable
//! tree a response body parses into; `JsonV` is its mathematical image, over
//! `Seq<char>` and `Seq` children, which all contracts speak of.

use vstd::prelude::*;

verus! {

/// Mathematical JSON tree: what a `Json` value denotes.
pub enum JsonV {
    Null,
    Bool(bool),
    Str(Seq<char>),
    Num(Seq<char>),
    Arr(Seq<JsonV>),
    Obj(Seq<(Seq<char>, JsonV)>),
}

/// Executable JSON tree.  Object members keep their textual order.
pub enum Json {
    Null,
    Bool(bool),
    Str(String),
    Num(String),
    Arr(Vec<Json>),
    Obj(Vec<(String, Json)>),
}

/// View of an object member list, member by member.
pub open spec fn mview(ms: Seq<(String, Json)>) -> Seq<(Seq<char>, JsonV)>
    decreases ms,
{
    Seq::new(
        ms.len(),
        |k: int|
            if 0 <= k < ms.len() {
                (ms[k].0@, ms[k].1@)
            } else {
                (Seq::empty(), JsonV::Null)
            },
    )
}

/// View of an array element list, element by element.
pub open spec fn eview(es: Seq<Json>) -> Seq<JsonV>
    decreases es,
{
    Seq::new(
        es.len(),
        |k: int|
            if 0 <= k < es.len() {
                es[k]@
            } else {
                JsonV::Null
            },
    )
}

impl View for Json {
    type V = JsonV;

    open spec fn view(&self) -> JsonV
        decreases self,
    {
        match self {
            Json::Null => JsonV::Null,
            Json::Bool(b) => JsonV::Bool(*b),
            Json::Str(s) => JsonV::Str(s@),
            Json::Num(n) => JsonV::Num(n@),
            Json::Arr(items) => JsonV::Arr(eview(items@)),
            Json::Obj(members) => JsonV::Obj(mview(members@)),
        }
    }
}

pub proof fn lemma_mview_push(ms: Seq<(String, Json)>, p: (String, Json))
    ensures
        mview(ms.push(p)) == mview(ms).push((p.0@, p.1@)),
{
    assert(mview(ms.push(p)) =~= mview(ms).push((p.0@, p.1@)));
}

pub proof fn lemma_eview_push(es: Seq<Json>, e: Json)
    ensures
        eview(es.push(e)) == eview(es).push(e@),
{
    assert(eview(es.push(e)) =~= eview(es).push(e@));
}

/// JSON insignificant whitespace.
pub open spec fn is_ws(c: char) -> bool {
    c == ' ' || c == '\n' || c == '\r' || c == '\t'
}

/// First position at or after `i` holding no whitespace.
pub open spec fn sp_ws(s: Seq<char>, i: int) -> int
    decreases s.len() - i,
{
    if 0 <= i < s.len() && is_ws(s[i]) {
        sp_ws(s, i + 1)
    } else {
        i
    }
}

/// What a backslash escape in a JSON string stands for, if accepted.
pub open spec fn unesc(c: char) -> Option<char> {
    if c == '"' {
        Some('"')
    } else if c == '\\' {
        Some('\\')
    } else if c == '/' {
        Some('/')
    } else if c == 'n' {
        Some('\n')
    } else if c == 't' {
        Some('\t')
    } else if c == 'r' {
        Some('\r')
    } else if c == 'b' {
        Some('\u{8}')
    } else if c == 'f' {
        Some('\u{c}')
    } else {
        None
    }
}

/// Parse the rest of a string literal, `i` standing right after the opening
/// quote or after the last consumed character; `acc` holds what is read so
/// far.  Returns the decoded content and the position after the closing quote.
pub open spec fn sp_str(s: Seq<char>, i: int, acc: Seq<char>) -> Option<(Seq<char>, int)>
    decreases s.len() - i,
{
    if i < 0 || i >= s.len() {
        None
    } else if s[i] == '"' {
        Some((acc, i + 1))
    } else if s[i] == '\\' {
        if i + 1 < s.len() {
            match unesc(s[i + 1]) {
                Some(c) => sp_str(s, i + 2, acc.push(c)),
                None => None,
            }
        } else {
            None
        }
    } else if (s[i] as u32) < 32 {
        None
    } else {
        sp_str(s, i + 1, acc.push(s[i]))
    }
}

/// Characters a number token is made of.  The token is not validated
/// further: the closed schemas of this API carry no numeric field, so a
/// number can only stand in a part of a response that decoding rejects.
pub open spec fn is_num_char(c: char) -> bool {
    (48 <= c as u32 && c as u32 <= 57) || c == '+' || c == '-' || c == '.' || c == 'e' || c == 'E'
}

/// Consume a maximal run of number characters.
pub open spec fn sp_num(s: Seq<char>, i: int, acc: Seq<char>) -> (Seq<char>, int)
    decreases s.len() - i,
{
    if 0 <= i < s.len() && is_num_char(s[i]) {
        sp_num(s, i + 1, acc.push(s[i]))
    } else {
        (acc, i)
    }
}

/// Parse one JSON value whose first character stands at `i`.
/// Returns the value and the position right after it.
pub open spec fn sp_value(s: Seq<char>, i: int) -> Option<(JsonV, int)>
    decreases s.len() - i, 0int,
{
    if i < 0 || i >= s.len() {
        None
    } else if s[i] == '{' {
        let j = sp_ws(s, i + 1);
        if j <= i || j > s.len() {
            None
        } else if j < s.len() && s[j] == '}' {
            Some((JsonV::Obj(Seq::empty()), j + 1))
        } else {
            match sp_members(s, j, Seq::empty()) {
                Some((ms, k)) => Some((JsonV::Obj(ms), k)),
                None => None,
            }
        }
    } else if s[i] == '[' {
        let j = sp_ws(s, i + 1);
        if j <= i || j > s.len() {
            None
        } else if j < s.len() && s[j] == ']' {
            Some((JsonV::Arr(Seq::empty()), j + 1))
        } else {
            match sp_elems(s, j, Seq::empty()) {
                Some((es, k)) => Some((JsonV::Arr(es), k)),
                None => None,
            }
        }
    } else if s[i] == '"' {
        match sp_str(s, i + 1, Seq::empty()) {
            Some((t, j)) => Some((JsonV::Str(t), j)),
            None => None,
        }
    } else if s[i] == 't' {
        if i + 4 <= s.len() && s[i + 1] == 'r' && s[i + 2] == 'u' && s[i + 3] == 'e' {
            Some((JsonV::Bool(true), i + 4))
        } else {
            None
        }
    } else if s[i] == 'f' {
        if i + 5 <= s.len() && s[i + 1] == 'a' && s[i + 2] == 'l' && s[i + 3] == 's' && s[i + 4]
            == 'e' {
            Some((JsonV::Bool(false), i + 5))
        } else {
            None
        }
    } else if s[i] == 'n' {
        if i + 4 <= s.len() && s[i + 1] == 'u' && s[i + 2] == 'l' && s[i + 3] == 'l' {
            Some((JsonV::Null, i + 4))
        } else {
            None
        }
    } else if (48 <= s[i] as u32 && s[i] as u32 <= 57) || s[i] == '-' {
        let (t, j) = sp_num(s, i, Seq::empty());
        if j <= i || j > s.len() {
            None
        } else {
            Some((JsonV::Num(t), j))
        }
    } else {
        None
    }
}

/// Parse the members of an object from the first character of a key,
/// up to and including the closing brace.
pub open spec fn sp_members(s: Seq<char>, i: int, acc: Seq<(Seq<char>, JsonV)>) -> Option<
    (Seq<(Seq<char>, JsonV)>, int),
>
    decreases s.len() - i, 1int,
{
    if i < 0 || i >= s.len() || s[i] != '"' {
        None
    } else {
        match sp_str(s, i + 1, Seq::empty()) {
            Some((key, j)) => {
                if j <= i || j > s.len() {
                    None
                } else {
                    let j2 = sp_ws(s, j);
                    if j2 < j || j2 >= s.len() || s[j2] != ':' {
                        None
                    } else {
                        let j3 = sp_ws(s, j2 + 1);
                        if j3 <= i || j3 > s.len() {
                            None
                        } else {
                            match sp_value(s, j3) {
                                Some((v, j4)) => {
                                    if j4 <= j3 || j4 > s.len() {
                                        None
                                    } else {
                                        let j5 = sp_ws(s, j4);
                                        if j5 < j4 || j5 >= s.len() {
                                            None
                                        } else if s[j5] == ',' {
                                            let j6 = sp_ws(s, j5 + 1);
                                            if j6 <= i || j6 > s.len() {
                                                None
                                            } else {
                                                sp_members(s, j6, acc.push((key, v)))
                                            }
                                        } else if s[j5] == '}' {
                                            Some((acc.push((key, v)), j5 + 1))
                                        } else {
                                            None
                                        }
                                    }
                                },
                                None => None,
                            }
                        }
                    }
                }
            },
            None => None,
        }
    }
}

/// Parse the elements of an array from the first character of an element,
/// up to and including the closing bracket.
pub open spec fn sp_elems(s: Seq<char>, i: int, acc: Seq<JsonV>) -> Option<(Seq<JsonV>, int)>
    decreases s.len() - i, 1int,
{
    if i < 0 || i >= s.len() {
        None
    } else {
        match sp_value(s, i) {
            Some((v, j)) => {
                if j <= i || j > s.len() {
                    None
                } else {
                    let j2 = sp_ws(s, j);
                    if j2 < j || j2 >= s.len() {
                        None
                    } else if s[j2] == ',' {
                        let j3 = sp_ws(s, j2 + 1);
                        if j3 <= i || j3 > s.len() {
                            None
                        } else {
                            sp_elems(s, j3, acc.push(v))
                        }
                    } else if s[j2] == ']' {
                        Some((acc.push(v), j2 + 1))
                    } else {
                        None
                    }
                }
            },
            None => None,
        }
    }
}

/// Parse a whole document: one value, surrounded by whitespace only.
pub open spec fn sp_json(s: Seq<char>) -> Option<JsonV> {
    let i = sp_ws(s, 0);
    if i < 0 || i > s.len() {
        None
    } else {
        match sp_value(s, i) {
            Some((v, j)) => {
                if 0 <= j <= s.len() && sp_ws(s, j) == s.len() {
                    Some(v)
                } else {
                    None
                }
            },
            None => None,
        }
    }
}

/// Relies on String::push: appends one character at the end of the string.
#[verifier::external_body]
pub(crate) fn push_char(s: &mut String, c: char)
    ensures
        final(s)@ == old(s)@.push(c),
        final(s)@ == old(s)@ + seq![c],
{
    s.push(c);
}

/// The characters of a string slice, in order, as a vector.
pub fn chars_of(s: &str) -> (r: Vec<char>)
    ensures
        r@ == s@,
{
    let n = s.unicode_len();
    let mut r: Vec<char> = Vec::new();
    let mut k: usize = 0;
    while k < n
        invariant
            k <= n,
            n == s@.len(),
            r@ == s@.subrange(0, k as int),
        decreases n - k,
    {
        r.push(s.get_char(k));
        k = k + 1;
        proof {
            assert(r@ =~= s@.subrange(0, k as int));
        }
    }
    proof {
        assert(r@ =~= s@);
    }
    r
}

fn p_ws(s: &Vec<char>, i: usize) -> (r: usize)
    requires
        i <= s.len(),
    ensures
        r as int == sp_ws(s@, i as int),
        i <= r <= s.len(),
    decreases s.len() - i,
{
    if i < s.len() {
        let c = s[i];
        if c == ' ' || c == '\n' || c == '\r' || c == '\t' {
            return p_ws(s, i + 1);
        }
    }
    i
}

fn unesc_e(c: char) -> (r: Option<char>)
    ensures
        r == unesc(c),
{
    if c == '"' {
        Some('"')
    } else if c == '\\' {
        Some('\\')
    } else if c == '/' {
        Some('/')
    } else if c == 'n' {
        Some('\n')
    } else if c == 't' {
        Some('\t')
    } else if c == 'r' {
        Some('\r')
    } else if c == 'b' {
        Some('\u{8}')
    } else if c == 'f' {
        Some('\u{c}')
    } else {
        None
    }
}

fn p_str(s: &Vec<char>, i: usize, acc: String) -> (r: Option<(String, usize)>)
    requires
        i <= s.len(),
    ensures
        match r {
            Some(p) => sp_str(s@, i as int, acc@) == Some((p.0@, p.1 as int)) && i < p.1
                <= s.len(),
            None => sp_str(s@, i as int, acc@) is None,
        },
    decreases s.len() - i,
{
    if i >= s.len() {
        return None;
    }
    let c = s[i];
    if c == '"' {
        Some((acc, i + 1))
    } else if c == '\\' {
        if i + 1 < s.len() {
            match unesc_e(s[i + 1]) {
                Some(d) => {
                    let mut acc2 = acc;
                    push_char(&mut acc2, d);
                    p_str(s, i + 2, acc2)
                },
                None => None,
            }
        } else {
            None
        }
    } else if (c as u32) < 32 {
        None
    } else {
        let mut acc2 = acc;
        push_char(&mut acc2, c);
        p_str(s, i + 1, acc2)
    }
}

fn is_num_char_e(c: char) -> (r: bool)
    ensures
        r == is_num_char(c),
{
    (48 <= c as u32 && c as u32 <= 57) || c == '+' || c == '-' || c == '.' || c == 'e' || c == 'E'
}

fn p_num(s: &Vec<char>, i: usize, acc: String) -> (r: (String, usize))
    requires
        i <= s.len(),
    ensures
        sp_num(s@, i as int, acc@) == (r.0@, r.1 as int),
        i <= r.1 <= s.len(),
        i < s.len() && is_num_char(s@[i as int]) ==> r.1 > i,
    decreases s.len() - i,
{
    if i < s.len() && is_num_char_e(s[i]) {
        let mut acc2 = acc;
        push_char(&mut acc2, s[i]);
        p_num(s, i + 1, acc2)
    } else {
        (acc, i)
    }
}

fn p_value(s: &Vec<char>, i: usize) -> (r: Option<(Json, usize)>)
    requires
        i <= s.len(),
    ensures
        match r {
            Some(p) => sp_value(s@, i as int) == Some((p.0@, p.1 as int)) && i < p.1 <= s.len(),
            None => sp_value(s@, i as int) is None,
        },
    decreases s.len() - i, 0int,
{
    if i >= s.len() {
        return None;
    }
    let c = s[i];
    if c == '{' {
        let j = p_ws(s, i + 1);
        if j < s.len() && s[j] == '}' {
            let ms: Vec<(String, Json)> = Vec::new();
            proof {
                assert(mview(ms@) =~= Seq::empty());
            }
            Some((Json::Obj(ms), j + 1))
        } else {
            let ms: Vec<(String, Json)> = Vec::new();
            proof {
                assert(mview(ms@) =~= Seq::empty());
            }
            match p_members(s, j, ms) {
                Some(p) => Some((Json::Obj(p.0), p.1)),
                None => None,
            }
        }
    } else if c == '[' {
        let j = p_ws(s, i + 1);
        if j < s.len() && s[j] == ']' {
            let es: Vec<Json> = Vec::new();
            proof {
                assert(eview(es@) =~= Seq::empty());
            }
            Some((Json::Arr(es), j + 1))
        } else {
            let es: Vec<Json> = Vec::new();
            proof {
                assert(eview(es@) =~= Seq::empty());
            }
            match p_elems(s, j, es) {
                Some(p) => Some((Json::Arr(p.0), p.1)),
                None => None,
            }
        }
    } else if c == '"' {
        match p_str(s, i + 1, String::new()) {
            Some(p) => Some((Json::Str(p.0), p.1)),
            None => None,
        }
    } else if c == 't' {
        if s.len() - i >= 4 && s[i + 1] == 'r' && s[i + 2] == 'u' && s[i + 3] == 'e' {
            Some((Json::Bool(true), i + 4))
        } else {
            None
        }
    } else if c == 'f' {
        if s.len() - i >= 5 && s[i + 1] == 'a' && s[i + 2] == 'l' && s[i + 3] == 's' && s[i + 4]
            == 'e' {
            Some((Json::Bool(false), i + 5))
        } else {
            None
        }
    } else if c == 'n' {
        if s.len() - i >= 4 && s[i + 1] == 'u' && s[i + 2] == 'l' && s[i + 3] == 'l' {
            Some((Json::Null, i + 4))
        } else {
            None
        }
    } else if (48 <= c as u32 && c as u32 <= 57) || c == '-' {
        let p = p_num(s, i, String::new());
        Some((Json::Num(p.0), p.1))
    } else {
        None
    }
}

fn p_members(s: &Vec<char>, i: usize, acc: Vec<(String, Json)>) -> (r: Option<
    (Vec<(String, Json)>, usize),
>)
    requires
        i <= s.len(),
    ensures
        match r {
            Some(p) => sp_members(s@, i as int, mview(acc@)) == Some((mview(p.0@), p.1 as int))
                && i < p.1 <= s.len(),
            None => sp_members(s@, i as int, mview(acc@)) is None,
        },
    decreases s.len() - i, 1int,
{
    if i >= s.len() {
        return None;
    }
    if s[i] != '"' {
        return None;
    }
    match p_str(s, i + 1, String::new()) {
        Some(kp) => {
            let key = kp.0;
            let j = kp.1;
            let j2 = p_ws(s, j);
            if j2 >= s.len() {
                return None;
            }
            if s[j2] != ':' {
                return None;
            }
            let j3 = p_ws(s, j2 + 1);
            match p_value(s, j3) {
                Some(vp) => {
                    let v = vp.0;
                    let j4 = vp.1;
                    let j5 = p_ws(s, j4);
                    if j5 >= s.len() {
                        return None;
                    }
                    if s[j5] == ',' {
                        let j6 = p_ws(s, j5 + 1);
                        proof {
                            lemma_mview_push(acc@, (key, v));
                        }
                        let mut acc2 = acc;
                        acc2.push((key, v));
                        p_members(s, j6, acc2)
                    } else if s[j5] == '}' {
                        proof {
                            lemma_mview_push(acc@, (key, v));
                        }
                        let mut acc2 = acc;
                        acc2.push((key, v));
                        Some((acc2, j5 + 1))
                    } else {
                        None
                    }
                },
                None => None,
            }
        },
        None => None,
    }
}

fn p_elems(s: &Vec<char>, i: usize, acc: Vec<Json>) -> (r: Option<(Vec<Json>, usize)>)
    requires
        i <= s.len(),
    ensures
        match r {
            Some(p) => sp_elems(s@, i as int, eview(acc@)) == Some((eview(p.0@), p.1 as int)) && i
                < p.1 <= s.len(),
            None => sp_elems(s@, i as int, eview(acc@)) is None,
        },
    decreases s.len() - i, 1int,
{
    if i >= s.len() {
        return None;
    }
    match p_value(s, i) {
        Some(vp) => {
            let v = vp.0;
            let j = vp.1;
            let j2 = p_ws(s, j);
            if j2 >= s.len() {
                return None;
            }
            if s[j2] == ',' {
                let j3 = p_ws(s, j2 + 1);
                proof {
                    lemma_eview_push(acc@, v);
                }
                let mut acc2 = acc;
                acc2.push(v);
                p_elems(s, j3, acc2)
            } else if s[j2] == ']' {
                proof {
                    lemma_eview_push(acc@, v);
                }
                let mut acc2 = acc;
                acc2.push(v);
                Some((acc2, j2 + 1))
            } else {
                None
            }
        },
        None => None,
    }
}

/// Parse a whole JSON document.  The result is pinned to the grammar
/// `sp_json` gives: `Some` exactly on the texts the grammar accepts, with
/// the tree the grammar assigns to them.
pub fn parse_json(s: &Vec<char>) -> (r: Option<Json>)
    ensures
        match r {
            Some(v) => sp_json(s@) == Some(v@),
            None => sp_json(s@) is None,
        },
{
    let i = p_ws(s, 0);
    match p_value(s, i) {
        Some(p) => {
            let j2 = p_ws(s, p.1);
            if j2 == s.len() {
                Some(p.0)
            } else {
                None
            }
        },
        None => None,
    }
}

} // verus!

