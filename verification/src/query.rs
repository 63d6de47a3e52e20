//! Query-string encoding of options values.
//!
//! An options value becomes an ordered list of key/value pairs, one per
//! populated field, in declared field order.  A boolean becomes one of the
//! two canonical wire tokens; an absent field is left out entirely.

use vstd::prelude::*;
use vstd::string::StringExecFns;

use crate::encode::bool_text;
use crate::error::DockerError;
use crate::network::kv_view;
use crate::network::InspectNetworkOptions;
use crate::network::InspectNetworkOptionsV;

verus! {

/// The ordered query pairs of an inspect-network options value: `verbose`
/// then `scope`, each only when populated.
pub open spec fn sp_inspect_query(o: InspectNetworkOptionsV) -> Seq<(Seq<char>, Seq<char>)> {
    let base = Seq::<(Seq<char>, Seq<char>)>::empty();
    let with_verbose = match o.verbose {
        Some(b) => base.push(("verbose"@, bool_text(b))),
        None => base,
    };
    match o.scope {
        Some(s) => with_verbose.push(("scope"@, s)),
        None => with_verbose,
    }
}

/// An options value that can stand in a query string.
pub trait InspectNetworkQueryParams: Sized {
    /// The ordered query pairs this value stands for.
    spec fn query_spec(&self) -> Seq<(Seq<char>, Seq<char>)>;

    /// Encode into ordered key/value pairs.  Encoding an options value
    /// never fails: every field is already a string or a boolean.
    fn into_array(self) -> (r: Result<Vec<(String, String)>, DockerError>)
        ensures
            r matches Ok(ps) && kv_view(ps@) == self.query_spec(),
    ;
}

impl InspectNetworkQueryParams for InspectNetworkOptions {
    open spec fn query_spec(&self) -> Seq<(Seq<char>, Seq<char>)> {
        sp_inspect_query(self@)
    }

    fn into_array(self) -> (r: Result<Vec<(String, String)>, DockerError>)
        ensures
            r matches Ok(ps) && kv_view(ps@) == self.query_spec(),
    {
        let mut ps: Vec<(String, String)> = Vec::new();
        match self.verbose {
            Some(b) => {
                let token = if b {
                    String::from_str("true")
                } else {
                    String::from_str("false")
                };
                ps.push((String::from_str("verbose"), token));
            },
            None => {},
        }
        match self.scope {
            Some(s) => {
                ps.push((String::from_str("scope"), s));
            },
            None => {},
        }
        proof {
            assert(kv_view(ps@) =~= sp_inspect_query(self@));
        }
        Ok(ps)
    }
}

/// With every optional field absent, the encoder produces the empty pair
/// sequence.
pub proof fn lemma_all_absent_empty_query(o: InspectNetworkOptionsV)
    requires
        o.verbose is None,
        o.scope is None,
    ensures
        sp_inspect_query(o) == Seq::<(Seq<char>, Seq<char>)>::empty(),
{
}

/// A populated boolean field is encoded as one of the two canonical tokens,
/// and stands first in the pair list.
pub proof fn lemma_query_boolean_tokens(o: InspectNetworkOptionsV, b: bool)
    requires
        o.verbose == Some(b),
    ensures
        sp_inspect_query(o).len() >= 1,
        sp_inspect_query(o)[0] == ("verbose"@, bool_text(b)),
        b ==> bool_text(b) == "true"@,
        !b ==> bool_text(b) == "false"@,
{
}

} // verus!
