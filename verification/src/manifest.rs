//! Cargo manifests: reading one, and the three things that are asked of it.

use vstd::prelude::*;
use crate::nesting::{nesting_found, within_nesting, MAX_NESTING};
use crate::text::same_text;

verus! {

/// `toml::Value`, the document tree of the `toml` crate. Nothing is seen of
/// what it holds; it is handed from the reader to the function that takes it
/// apart.
#[verifier::external_type_specification]
#[verifier::external_body]
pub struct ExTomlValue(toml::Value);

/// `toml::de::Error`, the refusal of the `toml` crate. Nothing is seen of
/// what it holds; it is handed on to the caller.
#[verifier::external_type_specification]
#[verifier::external_body]
pub struct ExTomlError(toml::de::Error);

/// A TOML value, as a tree of plain values.
#[derive(Debug, PartialEq, Eq)]
pub enum Node {
    String(String),
    Integer(i64),
    /// The bits of the number, as IEEE 754 lays out 64 of them.
    Float(u64),
    Boolean(bool),
    /// The date and time as TOML writes it.
    Datetime(String),
    Array(Vec<Node>),
    /// The keys with their values, in the order of the keys.
    Table(Vec<(String, Node)>),
}

impl Node {
    /// How deep the tree is: a value that holds no other is one level, and
    /// an array or a table is one more than the deepest of what it holds.
    pub open spec fn depth(self) -> nat
        decreases self,
    {
        match self {
            Node::Array(items) => 1 + deepest_item(items@, items@.len()),
            Node::Table(entries) => 1 + deepest_entry(entries@, entries@.len()),
            _ => 1,
        }
    }
}

/// The depth of the deepest of the first `upto` of `items`.
pub open spec fn deepest_item(items: Seq<Node>, upto: nat) -> nat
    decreases items, upto,
{
    if upto == 0 || upto > items.len() {
        0
    } else {
        let before = deepest_item(items, (upto - 1) as nat);
        let last = items[upto - 1].depth();
        if last > before {
            last
        } else {
            before
        }
    }
}

/// The depth of the deepest value of the first `upto` of `entries`.
pub open spec fn deepest_entry(entries: Seq<(String, Node)>, upto: nat) -> nat
    decreases entries, upto,
{
    if upto == 0 || upto > entries.len() {
        0
    } else {
        let before = deepest_entry(entries, (upto - 1) as nat);
        let last = entries[upto - 1].1.depth();
        if last > before {
            last
        } else {
            before
        }
    }
}

/// The document that `toml::from_slice` reads from the bytes, as a tree, or
/// nothing where it refuses them.
pub uninterp spec fn toml_document(bytes: Seq<u8>) -> Option<Node>;

/// The tree that stands for a value of the `toml` crate.
pub uninterp spec fn tree_of(raw: toml::Value) -> Node;

/// `toml::from_slice`, asked for a `toml::Value` (toml 0.4.10, de.rs:26):
/// the document that the bytes hold, or the error with which the crate
/// refuses them. The same bytes are always read in the same way.
///
/// The crate descends once for every table and array on the way to a value
/// (de.rs:361-392, 1059-1096, 1474-1506; value.rs:460-495), so it is asked
/// only for bytes in which the walk finds no value below the bound. That
/// the crate descends no deeper than the walk finds is not proved here. It
/// holds as far as each rule of the walk is the rule of the crate that the
/// table at the head of [`crate::nesting`] sets beside it, the byte-order
/// mark that the crate passes over before the first token (tokens.rs:85)
/// among them. Nothing is said here of how deep the result is: that is
/// found out on the result itself.
#[verifier::external_body]
fn decode(bytes: &[u8]) -> (r: Result<toml::Value, toml::de::Error>)
    requires
        nesting_found(bytes@) <= MAX_NESTING,
    ensures
        r is Ok <==> toml_document(bytes@) is Some,
        r matches Ok(raw) ==> toml_document(bytes@) == Some(tree_of(raw)),
{
    toml::from_slice::<toml::Value>(bytes)
}

/// The depth of the deepest of the first `upto` of the values `kids`, as
/// trees.
pub open spec fn deepest_of(kids: Seq<&toml::Value>, upto: nat) -> nat
    decreases upto,
{
    if upto == 0 || upto > kids.len() {
        0
    } else {
        let before = deepest_of(kids, (upto - 1) as nat);
        let last = tree_of(*kids[upto - 1]).depth();
        if last > before {
            last
        } else {
            before
        }
    }
}

/// The values that a `toml::Value` holds directly (toml 0.4.10,
/// value.rs:19-40): the elements of an array, the values of a table, and
/// none for any other. The tree that stands for the value is one level
/// deeper than the deepest tree of these.
#[verifier::external_body]
fn children(raw: &toml::Value) -> (r: Vec<&toml::Value>)
    ensures
        tree_of(*raw).depth() == 1 + deepest_of(r@, r@.len()),
{
    match raw {
        toml::Value::Array(a) => a.iter().collect(),
        toml::Value::Table(t) => t.values().collect(),
        _ => Vec::new(),
    }
}

/// Whether the tree that stands for a value is no deeper than `fuel`. The
/// value is walked no deeper than that.
fn shallow(raw: &toml::Value, fuel: usize) -> (r: bool)
    ensures
        r == (tree_of(*raw).depth() <= fuel),
    decreases fuel,
{
    let kids = children(raw);
    if fuel == 0 {
        return false;
    }
    let mut i: usize = 0;
    while i < kids.len()
        invariant
            i <= kids.len(),
            fuel > 0,
            tree_of(*raw).depth() == 1 + deepest_of(kids@, kids@.len()),
            deepest_of(kids@, i as nat) <= fuel - 1,
        decreases kids.len() - i,
    {
        if !shallow(kids[i], fuel - 1) {
            proof {
                assert(deepest_of(kids@, (i + 1) as nat) >= tree_of(*kids@[i as int]).depth());
                lemma_deepest_grows(kids@, (i + 1) as nat, kids@.len());
            }
            return false;
        }
        i += 1;
    }
    true
}

/// The deepest of more values is no less deep than the deepest of fewer.
proof fn lemma_deepest_grows(kids: Seq<&toml::Value>, fewer: nat, more: nat)
    requires
        fewer <= more <= kids.len(),
    ensures
        deepest_of(kids, fewer) <= deepest_of(kids, more),
    decreases more,
{
    if fewer < more {
        lemma_deepest_grows(kids, fewer, (more - 1) as nat);
    }
}

/// A `toml::Value` taken apart, variant by variant, into the tree that
/// stands for it. A float is kept by its bits, a date by its text, and the
/// entries of a table in the order in which the table holds them. The
/// value is walked level by level, so it is taken only where it is no
/// deeper than a document may nest.
#[verifier::external_body]
fn lower(raw: toml::Value) -> (r: Node)
    requires
        tree_of(raw).depth() <= MAX_NESTING,
    ensures
        r == tree_of(raw),
{
    match raw {
        toml::Value::String(s) => Node::String(s),
        toml::Value::Integer(i) => Node::Integer(i),
        toml::Value::Float(f) => Node::Float(f.to_bits()),
        toml::Value::Boolean(b) => Node::Boolean(b),
        toml::Value::Datetime(d) => Node::Datetime(d.to_string()),
        toml::Value::Array(a) => Node::Array(a.into_iter().map(lower).collect()),
        toml::Value::Table(t) => Node::Table(t.into_iter().map(|(k, v)| (k, lower(v))).collect()),
    }
}

/// Why bytes are no document.
#[derive(Debug)]
pub enum ParseError {
    /// The tree of the document is deeper than a reader may be asked to
    /// descend.
    TooDeep,
    /// The bytes are no TOML; with the words of the `toml` crate.
    Refused(toml::de::Error),
}

/// What comes of reading bytes as a document.
pub enum Reading {
    /// The document that the bytes hold.
    Document(Node),
    /// The tree of the document is too deep to be read.
    TooDeep,
    /// The bytes are no TOML.
    Refused,
}

/// What comes of reading `bytes` as a document: where the walk finds no
/// value below the bound on nesting, they are read as the `toml` crate reads
/// them, and otherwise they are not read at all. A tree that is deeper than
/// the bound all the same is not handed on.
pub open spec fn reading(bytes: Seq<u8>) -> Reading {
    if nesting_found(bytes) > MAX_NESTING {
        Reading::TooDeep
    } else {
        match toml_document(bytes) {
            Some(document) => if document.depth() <= MAX_NESTING {
                Reading::Document(document)
            } else {
                Reading::TooDeep
            },
            None => Reading::Refused,
        }
    }
}

/// Whether `cause` is the reason for which `bytes` are no document.
pub open spec fn refuses(bytes: Seq<u8>, cause: ParseError) -> bool {
    match reading(bytes) {
        Reading::Document(_) => false,
        Reading::TooDeep => cause is TooDeep,
        Reading::Refused => cause is Refused,
    }
}

/// Reads a TOML document. A document with a value below the bound on
/// nesting is not read; what is read is no deeper than the bound.
pub fn parse(bytes: &[u8]) -> (r: Result<Node, ParseError>)
    ensures
        match r {
            Ok(document) => reading(bytes@) == Reading::Document(document) && document.depth()
                <= MAX_NESTING,
            Err(cause) => refuses(bytes@, cause),
        },
{
    if !within_nesting(bytes) {
        return Err(ParseError::TooDeep);
    }
    match decode(bytes) {
        Ok(raw) => if shallow(&raw, MAX_NESTING) {
            Ok(lower(raw))
        } else {
            Err(ParseError::TooDeep)
        },
        Err(e) => Err(ParseError::Refused(e)),
    }
}

/// The value of the first of `entries` whose key is `key`.
pub open spec fn entry_of(entries: Seq<(String, Node)>, key: Seq<char>) -> Option<Node>
    decreases entries.len(),
{
    if entries.len() == 0 {
        None
    } else if entries[0].0@ == key {
        Some(entries[0].1)
    } else {
        entry_of(entries.drop_first(), key)
    }
}

impl Node {
    /// What a table holds under `key`. A value that is no table holds
    /// nothing under any key.
    pub open spec fn spec_get(self, key: Seq<char>) -> Option<Node> {
        match self {
            Node::Table(entries) => entry_of(entries@, key),
            _ => None,
        }
    }

    /// What a table holds under `key`. A value that is no table holds
    /// nothing under any key.
    pub fn get(&self, key: &str) -> (r: Option<&Node>)
        ensures
            r is Some <==> self.spec_get(key@) is Some,
            r matches Some(found) ==> self.spec_get(key@) == Some(*found),
    {
        match self {
            Node::Table(entries) => {
                let mut i: usize = 0;
                assert(entries@.skip(0) =~= entries@);
                while i < entries.len()
                    invariant
                        i <= entries.len(),
                        self.spec_get(key@) == entry_of(entries@.skip(i as int), key@),
                    decreases entries.len() - i,
                {
                    let ghost rest = entries@.skip(i as int);
                    assert(rest[0] == entries@[i as int]);
                    assert(rest.drop_first() =~= entries@.skip(i + 1));
                    if same_text(entries[i].0.as_str(), key) {
                        return Some(&entries[i].1);
                    }
                    i += 1;
                }
                None
            },
            _ => None,
        }
    }
}

/// Whether a manifest marks its package as one that holds fuzz targets:
/// under `package`, under `metadata`, the key `cargo-fuzz` holds `true`.
pub open spec fn spec_is_fuzz_manifest(value: Node) -> bool {
    match value.spec_get("package"@) {
        Some(package) => match package.spec_get("metadata"@) {
            Some(metadata) => metadata.spec_get("cargo-fuzz"@) == Some(Node::Boolean(true)),
            None => false,
        },
        None => false,
    }
}

/// Whether a manifest marks its package as one that holds fuzz targets.
pub fn is_fuzz_manifest(value: &Node) -> (r: bool)
    ensures
        r == spec_is_fuzz_manifest(*value),
{
    match value.get("package") {
        Some(package) => match package.get("metadata") {
            Some(metadata) => match metadata.get("cargo-fuzz") {
                Some(Node::Boolean(flag)) => *flag,
                _ => false,
            },
            None => false,
        },
        None => false,
    }
}

/// The names of the binaries among `items`, in their order: of each item
/// that is a table with a text under `name`, that text.
pub open spec fn names_of(items: Seq<Node>) -> Seq<Seq<char>>
    decreases items.len(),
{
    if items.len() == 0 {
        Seq::empty()
    } else {
        match items.last().spec_get("name"@) {
            Some(Node::String(name)) => names_of(items.drop_last()).push(name@),
            _ => names_of(items.drop_last()),
        }
    }
}

/// The fuzz targets that a manifest declares: the names of the binaries in
/// the array under `bin`, in their order. A manifest without such an array
/// declares none.
pub open spec fn spec_collect_targets(value: Node) -> Seq<Seq<char>> {
    match value.spec_get("bin"@) {
        Some(Node::Array(items)) => names_of(items@),
        _ => Seq::empty(),
    }
}

/// The fuzz targets that a manifest declares.
pub fn collect_targets(value: &Node) -> (r: Vec<String>)
    ensures
        r.deep_view() == spec_collect_targets(*value),
{
    let mut targets: Vec<String> = Vec::new();
    assert(targets.deep_view() =~= Seq::<Seq<char>>::empty());
    match value.get("bin") {
        Some(Node::Array(items)) => {
            let mut i: usize = 0;
            assert(items@.take(0) =~= Seq::<Node>::empty());
            while i < items.len()
                invariant
                    i <= items.len(),
                    targets.deep_view() == names_of(items@.take(i as int)),
                decreases items.len() - i,
            {
                proof {
                    let upto = items@.take(i + 1);
                    assert(upto.drop_last() =~= items@.take(i as int));
                    assert(upto.last() == items@[i as int]);
                }
                match items[i].get("name") {
                    Some(Node::String(name)) => {
                        let ghost before = targets.deep_view();
                        targets.push(name.clone());
                        assert(targets.deep_view() =~= before.push(name@));
                    },
                    _ => {},
                }
                i += 1;
            }
            assert(items@.take(items.len() as int) =~= items@);
            targets
        },
        _ => targets,
    }
}

/// The name of the package that a manifest describes: the text under
/// `package`, under `name`.
pub open spec fn spec_package_name(value: Node) -> Option<Seq<char>> {
    match value.spec_get("package"@) {
        Some(package) => match package.spec_get("name"@) {
            Some(Node::String(name)) => Some(name@),
            _ => None,
        },
        None => None,
    }
}

/// The name of the package that a manifest describes, where it names one.
pub fn package_name(value: &Node) -> (r: Option<String>)
    ensures
        r is Some <==> spec_package_name(*value) is Some,
        r matches Some(name) ==> spec_package_name(*value) == Some(name@),
{
    match value.get("package") {
        Some(package) => match package.get("name") {
            Some(Node::String(name)) => Some(name.clone()),
            _ => None,
        },
        None => None,
    }
}

} // verus!
