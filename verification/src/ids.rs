//! Validated identifiers: deployment ids, subgraph names and node ids.

use vstd::prelude::*;
use vstd::string::*;

verus! {

/// The longest deployment id that is accepted, in characters.
pub const DEPLOYMENT_ID_MAX_LEN: usize = 46;

/// The longest subgraph name that is accepted, in characters.
pub const SUBGRAPH_NAME_MAX_LEN: usize = 255;

/// The longest node id that is accepted, in characters.
pub const NODE_ID_MAX_LEN: usize = 63;

/// Whether `c` is an ASCII letter or digit.
pub open spec fn is_alphanumeric(c: char) -> bool {
    ('a' <= c && c <= 'z') || ('A' <= c && c <= 'Z') || ('0' <= c && c <= '9')
}

/// Whether every character of `s` is an ASCII letter, a digit, `_`, or one of
/// the two optional extra characters `dash` (`-`) and `slash` (`/`).
pub open spec fn allowed_chars(s: Seq<char>, dash: bool, slash: bool) -> bool {
    forall|i: int|
        0 <= i < s.len() ==> {
            let c = #[trigger] s[i];
            is_alphanumeric(c) || c == '_' || (dash && c == '-') || (slash && c == '/')
        }
}

/// A well-formed deployment id: at most 46 characters, each a letter, a digit
/// or `_`.
pub open spec fn valid_deployment_id(s: Seq<char>) -> bool {
    s.len() <= DEPLOYMENT_ID_MAX_LEN && allowed_chars(s, false, false)
}

/// A well-formed subgraph name: between 1 and 255 characters, each a letter,
/// a digit, `_`, `-` or `/`.
pub open spec fn valid_subgraph_name(s: Seq<char>) -> bool {
    0 < s.len() <= SUBGRAPH_NAME_MAX_LEN && allowed_chars(s, true, true)
}

/// A well-formed node id: between 1 and 63 characters, each a letter, a
/// digit, `_` or `-`.
pub open spec fn valid_node_id(s: Seq<char>) -> bool {
    0 < s.len() <= NODE_ID_MAX_LEN && allowed_chars(s, true, false)
}

/// The id of the deployment that holds the metadata of all others.
pub open spec fn meta_id() -> Seq<char> {
    "subgraphs"@
}

fn char_is_alphanumeric(c: char) -> (r: bool)
    ensures
        r == is_alphanumeric(c),
{
    (c >= 'a' && c <= 'z') || (c >= 'A' && c <= 'Z') || (c >= '0' && c <= '9')
}

/// Decides whether `s` has at most `max_len` characters, all of them allowed.
fn check_identifier(s: &str, max_len: usize, dash: bool, slash: bool) -> (r: bool)
    ensures
        r == (s@.len() <= max_len && allowed_chars(s@, dash, slash)),
{
    let n = s.unicode_len();
    if n > max_len {
        return false;
    }
    let mut i: usize = 0;
    while i < n
        invariant
            i <= n,
            n == s@.len(),
            allowed_chars(s@.subrange(0, i as int), dash, slash),
        decreases n - i,
    {
        let c = s.get_char(i);
        if !(char_is_alphanumeric(c) || c == '_' || (dash && c == '-') || (slash && c == '/')) {
            return false;
        }
        i = i + 1;
    }
    assert(s@.subrange(0, n as int) =~= s@);
    true
}

/// The identity of one deployment.
#[derive(Debug, PartialEq, Eq, Hash)]
pub struct SubgraphDeploymentId {
    id: String,
}

impl View for SubgraphDeploymentId {
    type V = Seq<char>;

    closed spec fn view(&self) -> Seq<char> {
        self.id@
    }
}

impl Clone for SubgraphDeploymentId {
    fn clone(&self) -> (r: Self)
        ensures
            r@ == self@,
    {
        proof {
            use_type_invariant(self);
        }
        SubgraphDeploymentId { id: self.id.clone() }
    }
}

impl SubgraphDeploymentId {
    #[verifier::type_invariant]
    spec fn well_formed(self) -> bool {
        valid_deployment_id(self.id@)
    }

    /// Accepts `s` exactly when it is a well-formed deployment id.
    pub fn new(s: &str) -> (r: Result<SubgraphDeploymentId, ()>)
        ensures
            r is Ok <==> valid_deployment_id(s@),
            r matches Ok(id) ==> id@ == s@,
    {
        if check_identifier(s, DEPLOYMENT_ID_MAX_LEN, false, false) {
            Ok(SubgraphDeploymentId { id: s.to_owned() })
        } else {
            Err(())
        }
    }

    /// The id of the metadata deployment, `subgraphs`.
    pub fn meta() -> (r: SubgraphDeploymentId)
        ensures
            r@ == meta_id(),
    {
        proof {
            lemma_meta_id_is_valid();
        }
        SubgraphDeploymentId { id: "subgraphs".to_owned() }
    }

    /// The text of the deployment id, which is always well formed.
    pub fn as_str(&self) -> (r: &str)
        ensures
            r@ == self@,
            valid_deployment_id(self@),
    {
        proof {
            use_type_invariant(self);
        }
        self.id.as_str()
    }

    /// The text of the deployment id in a string of its own.
    pub fn to_string(&self) -> (r: String)
        ensures
            r@ == self@,
    {
        self.id.clone()
    }

    /// Whether this is the metadata deployment.
    pub fn is_meta(&self) -> (r: bool)
        ensures
            r == (self@ == meta_id()),
    {
        let meta = "subgraphs".to_owned();
        self.id == meta
    }

    /// Whether this is the deployment id `other`.
    pub fn same(&self, other: &SubgraphDeploymentId) -> (r: bool)
        ensures
            r == (self@ == other@),
    {
        self.id == other.id
    }
}

/// `subgraphs` is itself a well-formed deployment id.
pub proof fn lemma_meta_id_is_valid()
    ensures
        valid_deployment_id(meta_id()),
{
    reveal_strlit("subgraphs");
}

/// The human-readable name under which deployments are published.
#[derive(Debug, PartialEq, Eq, Hash)]
pub struct SubgraphName {
    name: String,
}

impl View for SubgraphName {
    type V = Seq<char>;

    closed spec fn view(&self) -> Seq<char> {
        self.name@
    }
}

impl Clone for SubgraphName {
    fn clone(&self) -> (r: Self)
        ensures
            r@ == self@,
    {
        proof {
            use_type_invariant(self);
        }
        SubgraphName { name: self.name.clone() }
    }
}

impl SubgraphName {
    #[verifier::type_invariant]
    spec fn well_formed(self) -> bool {
        valid_subgraph_name(self.name@)
    }

    /// Accepts `s` exactly when it is a well-formed subgraph name.
    pub fn new(s: &str) -> (r: Result<SubgraphName, ()>)
        ensures
            r is Ok <==> valid_subgraph_name(s@),
            r matches Ok(name) ==> name@ == s@,
    {
        if !s.is_empty() && check_identifier(s, SUBGRAPH_NAME_MAX_LEN, true, true) {
            Ok(SubgraphName { name: s.to_owned() })
        } else {
            Err(())
        }
    }

    /// The text of the subgraph name, which is always well formed.
    pub fn as_str(&self) -> (r: &str)
        ensures
            r@ == self@,
            valid_subgraph_name(self@),
    {
        proof {
            use_type_invariant(self);
        }
        self.name.as_str()
    }

    /// The text of the subgraph name in a string of its own.
    pub fn to_string(&self) -> (r: String)
        ensures
            r@ == self@,
    {
        self.name.clone()
    }
}

/// The identity of an indexing node.
#[derive(Debug, PartialEq, Eq, Hash)]
pub struct NodeId {
    id: String,
}

impl View for NodeId {
    type V = Seq<char>;

    closed spec fn view(&self) -> Seq<char> {
        self.id@
    }
}

impl Clone for NodeId {
    fn clone(&self) -> (r: Self)
        ensures
            r@ == self@,
    {
        proof {
            use_type_invariant(self);
        }
        NodeId { id: self.id.clone() }
    }
}

impl NodeId {
    #[verifier::type_invariant]
    spec fn well_formed(self) -> bool {
        valid_node_id(self.id@)
    }

    /// Accepts `s` exactly when it is a well-formed node id.
    pub fn new(s: &str) -> (r: Result<NodeId, ()>)
        ensures
            r is Ok <==> valid_node_id(s@),
            r matches Ok(id) ==> id@ == s@,
    {
        if !s.is_empty() && check_identifier(s, NODE_ID_MAX_LEN, true, false) {
            Ok(NodeId { id: s.to_owned() })
        } else {
            Err(())
        }
    }

    /// The text of the node id, which is always well formed.
    pub fn as_str(&self) -> (r: &str)
        ensures
            r@ == self@,
            valid_node_id(self@),
    {
        proof {
            use_type_invariant(self);
        }
        self.id.as_str()
    }

    /// The text of the node id in a string of its own.
    pub fn to_string(&self) -> (r: String)
        ensures
            r@ == self@,
    {
        self.id.clone()
    }
}

} // verus!
