//! A YAML document as the parser reads it: a tree of plain values.

use vstd::prelude::*;
use crate::text::str_eq;

verus! {

/// One node of a YAML document. A mapping keeps its entries in the order
/// in which they were written.
#[derive(Debug, PartialEq, Eq)]
pub enum Node {
    /// A float, kept as it was written.
    Real(String),
    Integer(i64),
    String(String),
    Boolean(bool),
    Array(Vec<Node>),
    Hash(Vec<(Node, Node)>),
    Alias(usize),
    Null,
    /// What a lookup that finds nothing stands for.
    BadValue,
}

/// A node as `yaml_rust2` holds it.
#[verifier::external_type_specification]
#[verifier::external_body]
pub struct ExForeignNode(yaml_rust2::Yaml);

/// What `yaml_rust2::YamlLoader::load_from_str` makes of the text `source`:
/// the documents it finds there, in their order and each as a node of this
/// library, or the words of the scanner's error, as its `Display` writes
/// them. The loader reads the text and nothing else, and takes all
/// documents or none.
pub uninterp spec fn documents_of(source: Seq<char>) -> Result<Seq<Node>, Seq<char>>;

/// `yaml_rust2::YamlLoader::load_from_str`, and `Display` of its error: the
/// documents that the text `source` holds, each copied into a node of this
/// library by `node_of`, or the words of the scanner's error. Both are
/// named, not spelled out.
#[verifier::external_body]
pub(crate) fn scan(source: &str) -> (scanned: Result<Vec<Node>, String>)
    ensures
        match scanned {
            Ok(documents) => documents_of(source@) == Ok::<Seq<Node>, Seq<char>>(documents@),
            Err(words) => documents_of(source@) == Err::<Seq<Node>, Seq<char>>(words@),
        },
{
    match yaml_rust2::YamlLoader::load_from_str(source) {
        Ok(documents) => Ok(documents.iter().map(node_of).collect()),
        Err(err) => Err(err.to_string()),
    }
}

/// The copy that `scan` makes of each document: a node of `yaml_rust2` as
/// a node of this library, variant by variant and child by child, in the
/// order in which `yaml_rust2` walks them. It calls itself on the children
/// and is called by `scan` alone. Nothing is claimed of the copy here.
#[verifier::external_body]
fn node_of(node: &yaml_rust2::Yaml) -> (copy: Node)
{
    match node {
        yaml_rust2::Yaml::Real(v) => Node::Real(v.clone()),
        yaml_rust2::Yaml::Integer(v) => Node::Integer(*v),
        yaml_rust2::Yaml::String(v) => Node::String(v.clone()),
        yaml_rust2::Yaml::Boolean(v) => Node::Boolean(*v),
        yaml_rust2::Yaml::Array(v) => Node::Array(v.iter().map(node_of).collect()),
        yaml_rust2::Yaml::Hash(v) => Node::Hash(
            v.iter().map(|(k, e)| (node_of(k), node_of(e))).collect(),
        ),
        yaml_rust2::Yaml::Alias(v) => Node::Alias(*v),
        yaml_rust2::Yaml::Null => Node::Null,
        yaml_rust2::Yaml::BadValue => Node::BadValue,
    }
}

/// `node` is the text `key`.
pub open spec fn is_key(node: Node, key: Seq<char>) -> bool {
    node matches Node::String(k) && k@ == key
}

/// The entry at `i` is the first of `entries` under the key `key`.
pub open spec fn first_under(entries: Seq<(Node, Node)>, key: Seq<char>, i: int) -> bool {
    &&& 0 <= i < entries.len()
    &&& is_key(entries[i].0, key)
    &&& forall|j: int| 0 <= j < i ==> !is_key(#[trigger] entries[j].0, key)
}

/// The value of the first of `entries` under the key `key`.
pub open spec fn value_under(entries: Seq<(Node, Node)>, key: Seq<char>) -> Option<Node> {
    if exists|i: int| first_under(entries, key, i) {
        Some(entries[choose|i: int| first_under(entries, key, i)].1)
    } else {
        None
    }
}

impl Node {
    /// What a mapping holds under the text key `key`: the value of the
    /// first such entry. Nothing where there is no such entry or where
    /// this node is no mapping.
    pub open spec fn spec_get(self, key: Seq<char>) -> Option<Node> {
        match self {
            Node::Hash(entries) => value_under(entries@, key),
            _ => None,
        }
    }

    /// The text of a string node.
    pub open spec fn spec_text(self) -> Option<Seq<char>> {
        match self {
            Node::String(s) => Some(s@),
            _ => None,
        }
    }

    /// What a mapping holds under the text key `key`.
    pub fn get(&self, key: &str) -> (found: Option<&Node>)
        ensures
            match found {
                Some(value) => self.spec_get(key@) == Some(*value),
                None => self.spec_get(key@) is None,
            },
    {
        match self {
            Node::Hash(entries) => {
                let mut i: usize = 0;
                while i < entries.len()
                    invariant
                        i <= entries@.len(),
                        self.spec_get(key@) == value_under(entries@, key@),
                        forall|j: int| 0 <= j < i ==> !is_key(#[trigger] entries@[j].0, key@),
                    decreases entries@.len() - i,
                {
                    let hit = match &entries[i].0 {
                        Node::String(k) => str_eq(k.as_str(), key),
                        _ => false,
                    };
                    if hit {
                        proof {
                            assert(first_under(entries@, key@, i as int));
                            let c = choose|c: int| first_under(entries@, key@, c);
                            assert(c == i);
                        }
                        return Some(&entries[i].1);
                    }
                    i = i + 1;
                }
                None
            },
            _ => None,
        }
    }

    /// The text of a string node.
    pub fn as_str(&self) -> (text: Option<&str>)
        ensures
            text is Some <==> self is String,
            text matches Some(t) ==> self.spec_text() == Some(t@),
    {
        match self {
            Node::String(s) => Some(s.as_str()),
            _ => None,
        }
    }

    /// Whether this node is a mapping.
    pub fn is_hash(&self) -> (yes: bool)
        ensures
            yes == (self is Hash),
    {
        match self {
            Node::Hash(_) => true,
            _ => false,
        }
    }

    /// Whether this node stands for a lookup that found nothing.
    pub fn is_badvalue(&self) -> (yes: bool)
        ensures
            yes == (self is BadValue),
    {
        match self {
            Node::BadValue => true,
            _ => false,
        }
    }
}

} // verus!
