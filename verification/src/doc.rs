use vstd::prelude::*;

use crate::utils::str_eq;

verus! {

/// A parsed structured document, holding as plain values exactly what the
/// loaders read: text, booleans, sequences, and text-keyed mappings.
/// Anything else in a source document appears as `Other`, which also stands
/// for a missing field, mirroring the parser's placeholder for absent keys.
#[derive(Debug)]
pub enum Node {
    Str(String),
    Bool(bool),
    List(Vec<Node>),
    Dict(Vec<(String, Node)>),
    Other,
}

/// The value under the first entry of `entries` whose key is `key`.
pub open spec fn spec_lookup(entries: Seq<(String, Node)>, key: Seq<char>) -> Option<Node>
    decreases entries.len(),
{
    if entries.len() == 0 {
        None
    } else if entries[0].0@ == key {
        Some(entries[0].1)
    } else {
        spec_lookup(entries.drop_first(), key)
    }
}

/// Whether `n` is a mapping with an entry under `key`.
pub open spec fn spec_has_field(n: Node, key: Seq<char>) -> bool {
    match n {
        Node::Dict(entries) => spec_lookup(entries@, key) is Some,
        _ => false,
    }
}

/// The child of a mapping under `key`; `Other` when the node is not a
/// mapping or has no such key.
pub open spec fn spec_field(n: Node, key: Seq<char>) -> Node {
    match n {
        Node::Dict(entries) => match spec_lookup(entries@, key) {
            Some(v) => v,
            None => Node::Other,
        },
        _ => Node::Other,
    }
}

/// The text a node holds, if it holds text.
pub open spec fn spec_as_str(n: Node) -> Option<Seq<char>> {
    match n {
        Node::Str(s) => Some(s@),
        _ => None,
    }
}

/// The text a node holds, or the empty string: the loaders' permissive
/// default for a missing or ill-typed field.
pub open spec fn spec_str_or_empty(n: Node) -> Seq<char> {
    match n {
        Node::Str(s) => s@,
        _ => Seq::<char>::empty(),
    }
}

/// The boolean a node holds, if it holds one.
pub open spec fn spec_as_bool(n: Node) -> Option<bool> {
    match n {
        Node::Bool(b) => Some(b),
        _ => None,
    }
}

proof fn lemma_lookup_found(entries: Seq<(String, Node)>, key: Seq<char>, i: int)
    requires
        0 <= i < entries.len(),
        entries[i].0@ == key,
        forall|j: int| 0 <= j < i ==> entries[j].0@ != key,
    ensures
        spec_lookup(entries, key) == Some(entries[i].1),
    decreases i,
{
    if i > 0 {
        assert(entries[0].0@ != key);
        assert(forall|j: int|
            0 <= j < i - 1 ==> entries.drop_first()[j] == entries[j + 1]);
        lemma_lookup_found(entries.drop_first(), key, i - 1);
    }
}

proof fn lemma_lookup_none(entries: Seq<(String, Node)>, key: Seq<char>)
    requires
        forall|j: int| 0 <= j < entries.len() ==> entries[j].0@ != key,
    ensures
        spec_lookup(entries, key) is None,
    decreases entries.len(),
{
    if entries.len() > 0 {
        assert(forall|j: int|
            0 <= j < entries.len() - 1 ==> entries.drop_first()[j] == entries[j + 1]);
        lemma_lookup_none(entries.drop_first(), key);
    }
}

/// The child of a mapping under `key`, when there is one.
pub fn get_field<'a>(n: &'a Node, key: &str) -> (r: Option<&'a Node>)
    ensures
        match r {
            Some(v) => spec_has_field(*n, key@) && spec_field(*n, key@) == *v,
            None => !spec_has_field(*n, key@),
        },
{
    match n {
        Node::Dict(entries) => {
            let ghost entries_seq = entries@;
            let mut i: usize = 0;
            let len = entries.len();
            while i < len
                invariant
                    len == entries_seq.len(),
                    entries_seq == entries@,
                    *n == Node::Dict(*entries),
                    i <= len,
                    forall|j: int| 0 <= j < i ==> entries_seq[j].0@ != key@,
                decreases len - i,
            {
                let pair = &entries[i];
                if str_eq(pair.0.as_str(), key) {
                    proof {
                        lemma_lookup_found(entries_seq, key@, i as int);
                    }
                    return Some(&pair.1);
                }
                i = i + 1;
            }
            proof {
                lemma_lookup_none(entries_seq, key@);
            }
            None
        },
        _ => None,
    }
}

/// The text under `key`, or the empty string when the field is absent or
/// not text: the loaders' permissive default.
pub fn get_str(n: &Node, key: &str) -> (r: String)
    ensures
        r@ == spec_str_or_empty(spec_field(*n, key@)),
{
    match get_field(n, key) {
        Some(Node::Str(s)) => s.clone(),
        _ => String::new(),
    }
}

/// The boolean under `key`, if the field is present and boolean.
pub fn get_bool(n: &Node, key: &str) -> (r: Option<bool>)
    ensures
        r == spec_as_bool(spec_field(*n, key@)),
{
    match get_field(n, key) {
        Some(Node::Bool(b)) => Some(*b),
        _ => None,
    }
}

/// The sequence under `key`, if the field is present and a sequence.
pub fn get_list<'a>(n: &'a Node, key: &str) -> (r: Option<&'a Vec<Node>>)
    ensures
        match r {
            Some(v) => spec_field(*n, key@) == Node::List(*v),
            None => !(spec_field(*n, key@) is List),
        },
{
    match get_field(n, key) {
        Some(Node::List(v)) => Some(v),
        _ => None,
    }
}

/// The mapping under `key`, if the field is present and a mapping.
pub fn get_map<'a>(n: &'a Node, key: &str) -> (r: Option<&'a Vec<(String, Node)>>)
    ensures
        match r {
            Some(m) => spec_field(*n, key@) == Node::Dict(*m),
            None => !(spec_field(*n, key@) is Dict),
        },
{
    match get_field(n, key) {
        Some(Node::Dict(m)) => Some(m),
        _ => None,
    }
}

/// What the structured-text parser yields for a given text: the first
/// document, reduced to a plain `Node` tree, or `None` when the text does
/// not parse or holds no document.
pub uninterp spec fn doc_of(s: Seq<char>) -> Option<Node>;

#[verifier::external_type_specification]
#[verifier::external_body]
pub struct ExYaml(yaml_rust2::Yaml);

/// Relies on the `yaml_rust2::Yaml` data model: each variant the loaders
/// read is carried over one for one.  Mapping keys that are not plain text
/// are dropped: fields are only ever looked up by text keys, and the
/// settings reader skips such pairs.
#[verifier::external_body]
fn yaml_to_node(y: &yaml_rust2::Yaml) -> Node {
    match y {
        yaml_rust2::Yaml::String(s) => Node::Str(s.clone()),
        yaml_rust2::Yaml::Boolean(b) => Node::Bool(*b),
        yaml_rust2::Yaml::Array(items) => Node::List(items.iter().map(yaml_to_node).collect()),
        yaml_rust2::Yaml::Hash(h) => Node::Dict(
            h.iter()
                .filter_map(|(k, v)| k.as_str().map(|ks| (ks.to_string(), yaml_to_node(v))))
                .collect(),
        ),
        _ => Node::Other,
    }
}

/// Relies on `yaml_rust2::YamlLoader::load_from_str`: it parses the text
/// into a sequence of documents, a function of the text alone.
#[verifier::external_body]
pub fn parse_text(text: &str) -> (r: Option<Node>)
    ensures
        r == doc_of(text@),
{
    match yaml_rust2::YamlLoader::load_from_str(text) {
        Ok(docs) => docs.first().map(yaml_to_node),
        Err(_) => None,
    }
}

} // verus!
