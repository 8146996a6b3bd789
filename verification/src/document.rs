//! The translation document of one locale, and the dotted-path resolver
//! over it.
//!
//! The document is a `toml::Value`, parsed and read by the `toml` crate. The
//! functions here see it through four names (`document_of`, `message_of`,
//! `text_of`, `table_of`) and through the contracts that tie the crate's
//! calls to them; this module takes nothing else on trust.

use crate::error::{LoadError, LoadFailure};
use crate::path::{
    joined, segments, segments_of_dotted_pair, segments_of_joined, segments_rejoin, split_dotted,
    views_of,
};
use vstd::prelude::*;
use vstd::string::StringExecFns;

verus! {

/// `toml::Value`, carried as an opaque value: what it holds is told by
/// `text_of` and `table_of`.
#[verifier::external_type_specification]
#[verifier::external_body]
pub struct ExValue(toml::Value);

/// `toml::de::Error`, carried as an opaque value.
#[verifier::external_type_specification]
#[verifier::external_body]
pub struct ExParseError(toml::de::Error);

/// What `toml::from_str` makes of `text` when asked for a `toml::Value`.
pub uninterp spec fn document_of(text: Seq<char>) -> Result<toml::Value, toml::de::Error>;

/// The rendering of a parse error by its `Display` impl.
pub uninterp spec fn message_of(e: toml::de::Error) -> Seq<char>;

/// The string that `v` holds, if `v` is a string.
pub uninterp spec fn text_of(v: toml::Value) -> Option<Seq<char>>;

/// The entries of `v`, if `v` is a table.
pub uninterp spec fn table_of(v: toml::Value) -> Option<Map<Seq<char>, toml::Value>>;

/// Calls `toml::from_str::<toml::Value>`. Parsing reads nothing but `text`,
/// so the result is the value named `document_of(text)`.
#[verifier::external_body]
fn parse_document(text: &str) -> (r: Result<toml::Value, toml::de::Error>)
    ensures
        r == document_of(text@),
{
    toml::from_str::<toml::Value>(text)
}

/// Calls `ToString::to_string` on a parse error, which renders it through
/// its `Display` impl.
#[verifier::external_body]
fn describe(e: &toml::de::Error) -> (line: String)
    ensures
        line@ == message_of(*e),
{
    e.to_string()
}

/// Calls `toml::Value::get` with a string index: the entry under `key` when
/// `v` is a table that has one, `None` for a missing key and for every value
/// that is not a table.
#[verifier::external_body]
pub(crate) fn entry<'a>(v: &'a toml::Value, key: &str) -> (r: Option<&'a toml::Value>)
    ensures
        match r {
            Some(c) => child(*v, key@) == Some(*c),
            None => child(*v, key@) is None,
        },
{
    v.get(key)
}

/// `toml::Value::as_str` hands out the string of a string value and `None`
/// for every other variant.
pub assume_specification<'a>[ toml::Value::as_str ](v: &'a toml::Value) -> (r: Option<&'a str>)
    ensures
        match r {
            Some(s) => text_of(*v) == Some(s@),
            None => text_of(*v) is None,
        },
;

/// `toml::Value::is_table` is true of the table variant alone.
pub assume_specification[ toml::Value::is_table ](v: &toml::Value) -> (r: bool)
    ensures
        r == table_of(*v).is_some(),
;

/// The child of `node` under `key`: present only when `node` is a table that
/// holds `key`.
pub open spec fn child(node: toml::Value, key: Seq<char>) -> Option<toml::Value> {
    match table_of(node) {
        Some(entries) => if entries.contains_key(key) {
            Some(entries[key])
        } else {
            None
        },
        None => None,
    }
}

/// The node reached from `node` by taking `keys` one after the other, each as
/// a table key. Absent as soon as a step meets a missing key or a node that
/// is not a table.
pub open spec fn descend(node: toml::Value, keys: Seq<Seq<char>>) -> Option<toml::Value>
    decreases keys.len(),
{
    if keys.len() == 0 {
        Some(node)
    } else {
        match child(node, keys[0]) {
            Some(next) => descend(next, keys.drop_first()),
            None => None,
        }
    }
}

/// The node that the dotted path `dotted` names below `node`.
pub open spec fn resolve(node: toml::Value, dotted: Seq<char>) -> Option<toml::Value> {
    descend(node, segments(dotted))
}

/// Taking `first` and then `then` is taking `then` from where `first` leads.
pub proof fn descend_in_two(node: toml::Value, first: Seq<Seq<char>>, then: Seq<Seq<char>>)
    ensures
        descend(node, first + then) == match descend(node, first) {
            Some(reached) => descend(reached, then),
            None => None,
        },
    decreases first.len(),
{
    if first.len() == 0 {
        assert(first + then == then);
    } else {
        let keys = first + then;
        assert(keys[0] == first[0]);
        assert(keys.drop_first() == first.drop_first() + then);
        match child(node, first[0]) {
            Some(next) => {
                descend_in_two(next, first.drop_first(), then);
            },
            None => {},
        }
    }
}

/// Dotted paths compose: `front.back` names, below `node`, what `back`
/// names below the node that `front` names, and nothing where `front` names
/// nothing.
pub proof fn resolve_dotted_pair(node: toml::Value, front: Seq<char>, back: Seq<char>)
    ensures
        resolve(node, front + seq!['.'] + back) == match resolve(node, front) {
            Some(reached) => resolve(reached, back),
            None => None,
        },
{
    segments_of_dotted_pair(front, back);
    descend_in_two(node, segments(front), segments(back));
}

/// A dotted path is exact: written from dot-free keys, it names the node
/// reached by taking just those keys in order, no more and no fewer.
pub proof fn path_of_keys_follows_them(node: toml::Value, keys: Seq<Seq<char>>)
    requires
        keys.len() >= 1,
        forall|i: int, j: int| 0 <= i < keys.len() && 0 <= j < keys[i].len() ==> keys[i][j] != '.',
    ensures
        resolve(node, joined(keys)) == descend(node, keys),
{
    segments_of_joined(keys);
}

/// Nothing lies below a node that is not a table: once `front` names such a
/// node, every longer path `front.back` names nothing.
pub proof fn nothing_below_a_leaf(node: toml::Value, front: Seq<char>, back: Seq<char>)
    requires
        resolve(node, front) matches Some(leaf) && table_of(leaf) is None,
    ensures
        resolve(node, front + seq!['.'] + back) is None,
{
    resolve_dotted_pair(node, front, back);
    segments_rejoin(back);
}

/// Follows `dotted` from `value`, one table lookup per segment.
pub fn get_by_dotted_path<'a>(value: &'a toml::Value, dotted: &str) -> (r: Option<
    &'a toml::Value,
>)
    ensures
        match r {
            Some(found) => resolve(*value, dotted@) == Some(*found),
            None => resolve(*value, dotted@) is None,
        },
{
    let parts = split_dotted(dotted);
    let ghost keys = segments(dotted@);
    let mut current = value;
    let mut i: usize = 0;
    proof {
        assert(keys.subrange(0, keys.len() as int) == keys);
    }
    while i < parts.len()
        invariant
            i <= parts.len(),
            keys == segments(dotted@),
            views_of(parts@) == keys,
            descend(*value, keys) == descend(*current, keys.subrange(i as int, keys.len() as int)),
        decreases parts.len() - i,
    {
        proof {
            let rest = keys.subrange(i as int, keys.len() as int);
            assert(keys.len() == parts@.len());
            assert(rest[0] == parts@[i as int]@);
            assert(rest.drop_first() == keys.subrange(i + 1, keys.len() as int));
        }
        match entry(current, parts[i]) {
            Some(next) => {
                current = next;
            },
            None => {
                return None;
            },
        }
        i = i + 1;
    }
    Some(current)
}

/// What a source was read as: its content, or the reader's report of why it
/// could not be read.
pub open spec fn source_view(source: Result<String, String>) -> Result<Seq<char>, Seq<char>> {
    match source {
        Ok(text) => Ok(text@),
        Err(report) => Err(report@),
    }
}

/// The report for content that parses to something other than a table.
pub open spec fn not_a_table() -> Seq<char> {
    "the document root is not a table"@
}

/// The document that a source at `path` gives, or the failure it ends in: a
/// read failure where the source could not be read, a parse failure where
/// its content is no table-rooted document.
pub open spec fn document_from(path: Seq<char>, source: Result<Seq<char>, Seq<char>>) -> Result<
    toml::Value,
    LoadFailure,
> {
    match source {
        Err(report) => Err(LoadFailure::Read { path, detail: report }),
        Ok(text) => match document_of(text) {
            Err(e) => Err(LoadFailure::Parse { path, detail: message_of(e) }),
            Ok(root) => if table_of(root) is Some {
                Ok(root)
            } else {
                Err(LoadFailure::Parse { path, detail: not_a_table() })
            },
        },
    }
}

/// One locale's translation document: a tree of tables, strings and other
/// values, rooted in a table and never changed once built.
pub struct TomlConfig {
    root: toml::Value,
}

impl TomlConfig {
    #[verifier::type_invariant]
    spec fn rooted_in_table(self) -> bool {
        table_of(self.root) is Some
    }

    /// The root node of the document.
    pub closed spec fn root(self) -> toml::Value {
        self.root
    }

    /// Builds the document from what reading the source at `file_path` gave.
    pub fn new(file_path: &str, source: Result<String, String>) -> (r: Result<TomlConfig, LoadError>)
        ensures
            match r {
                Ok(config) => document_from(file_path@, source_view(source)) == Ok::<
                    toml::Value,
                    LoadFailure,
                >(config.root()),
                Err(e) => document_from(file_path@, source_view(source)) == Err::<
                    toml::Value,
                    LoadFailure,
                >(e@),
            },
    {
        match source {
            Err(report) => Err(LoadError::Read { path: String::from_str(file_path), detail: report }),
            Ok(text) => match parse_document(text.as_str()) {
                Err(e) => Err(
                    LoadError::Parse { path: String::from_str(file_path), detail: describe(&e) },
                ),
                Ok(root) => {
                    if root.is_table() {
                        Ok(TomlConfig { root })
                    } else {
                        Err(
                            LoadError::Parse {
                                path: String::from_str(file_path),
                                detail: String::from_str("the document root is not a table"),
                            },
                        )
                    }
                },
            },
        }
    }

    /// The node at the dotted path `path`, if the document has one.
    pub fn get(&self, path: &str) -> (r: Option<&toml::Value>)
        ensures
            match r {
                Some(found) => resolve(self.root(), path@) == Some(*found),
                None => resolve(self.root(), path@) is None,
            },
    {
        get_by_dotted_path(&self.root, path)
    }

    /// The root node; it is always a table.
    pub fn root_node(&self) -> (r: &toml::Value)
        ensures
            *r == self.root(),
            table_of(*r) is Some,
    {
        proof {
            use_type_invariant(self);
        }
        &self.root
    }
}

} // verus!
