//! The schema: which addresses and which messages a tick puts on the wire.

use vstd::prelude::*;
use vstd::string::*;

verus! {

/// The message set that is built each tick.
#[derive(Clone, Copy, Debug, PartialEq, Eq, Structural)]
pub enum Schema {
    /// Ping, blink, mouth and head under `/mc`.
    Minimal,
    /// Blink, jaw and head under `/cluster`.
    ClusterBasic,
    /// The minimal set, then the upper-body joints under `/mc/ub`.
    McUpper,
}

impl Default for Schema {
    fn default() -> (r: Schema)
        ensures
            r == Schema::Minimal,
    {
        Schema::Minimal
    }
}

/// The lowercase form of a string, as `str::to_lowercase` of the standard
/// library gives it.
pub uninterp spec fn lowercase_of(s: Seq<char>) -> Seq<char>;

/// Calls `str::to_lowercase`. Nothing is proved of the call: the contract only
/// gives its result the name [`lowercase_of`].
#[verifier::external_body]
fn lowercase(s: &str) -> (r: String)
    ensures
        r@ == lowercase_of(s@),
{
    s.to_lowercase()
}

/// Whether a lowercase token names the cluster schema.
pub open spec fn names_cluster(token: Seq<char>) -> bool {
    token == "cluster"@ || token == "cluster-basic"@ || token == "cluster_basic"@
}

/// Whether a lowercase token names the upper-body schema.
pub open spec fn names_upper(token: Seq<char>) -> bool {
    token == "upper"@ || token == "mc-upper"@ || token == "mc_upper"@ || token == "ub"@
}

/// The schema that a lowercase token selects. A token that names none selects
/// the minimal schema.
pub open spec fn schema_of(token: Seq<char>) -> Schema {
    if names_cluster(token) {
        Schema::ClusterBasic
    } else if names_upper(token) {
        Schema::McUpper
    } else {
        Schema::Minimal
    }
}

fn same(a: &String, b: &str) -> (r: bool)
    ensures
        r == (a@ == b@),
{
    let other = String::from_str(b);
    *a == other
}

impl Schema {
    /// Selects the schema that a token names, the token taken letter for
    /// letter. An unknown token is no error: it selects the minimal schema.
    pub fn from_exact_token(token: &str) -> (r: Schema)
        ensures
            r == schema_of(token@),
    {
        let t = String::from_str(token);
        if same(&t, "cluster") || same(&t, "cluster-basic") || same(&t, "cluster_basic") {
            Schema::ClusterBasic
        } else if same(&t, "upper") || same(&t, "mc-upper") || same(&t, "mc_upper") || same(
            &t,
            "ub",
        ) {
            Schema::McUpper
        } else {
            Schema::Minimal
        }
    }

    /// Selects the schema that a token names, whatever its case: the token is
    /// put in lowercase and then taken letter for letter.
    pub fn from_token(token: &str) -> (r: Schema)
        ensures
            r == schema_of(lowercase_of(token@)),
    {
        let lowered = lowercase(token);
        Schema::from_exact_token(lowered.as_str())
    }
}

} // verus!
