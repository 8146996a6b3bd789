//! From keys to the strings to show: one key, many keys, and many keys for
//! the locale of the platform.

use crate::cache::{
    after_request, loaded_from, request_served, LangCache, Resource, ResourceView,
};
use crate::document::{child, document_of, entry, resolve, text_of, TomlConfig};
use vstd::hash_map::StringHashMap;
use vstd::prelude::*;
use vstd::string::StringExecFns;

verus! {

/// The locale used when the platform reports none.
pub open spec fn default_locale() -> Seq<char> {
    "en-US"@
}

/// The string that `node` displays as: its own text if it is a string, else
/// the text of its `index` entry if it is a table that has one. Every other
/// shape displays as nothing.
pub open spec fn display(node: toml::Value) -> Option<Seq<char>> {
    match text_of(node) {
        Some(text) => Some(text),
        None => match child(node, "index"@) {
            Some(index) => text_of(index),
            None => None,
        },
    }
}

/// The string that the document rooted at `doc` has for `key`: the display
/// string of the node that `key` names. There is none without a document,
/// without such a node, or where the node displays as nothing.
pub open spec fn shown(doc: Option<toml::Value>, key: Seq<char>) -> Option<Seq<char>> {
    match doc {
        Some(root) => match resolve(root, key) {
            Some(node) => display(node),
            None => None,
        },
        None => None,
    }
}

/// What `key` translates to in the document rooted at `doc`: the string that
/// the document has for it, and `key` itself where it has none.
pub open spec fn translation(doc: Option<toml::Value>, key: Seq<char>) -> Seq<char> {
    match shown(doc, key) {
        Some(text) => text,
        None => key,
    }
}

/// The root of the document that `config` refers to, if it refers to one.
pub open spec fn root_of(config: Option<&TomlConfig>) -> Option<toml::Value> {
    match config {
        Some(c) => Some(c.root()),
        None => None,
    }
}

/// The root of the document that `cache` holds for `locale`, if it holds one.
pub open spec fn held(cache: Map<Seq<char>, toml::Value>, locale: Seq<char>) -> Option<
    toml::Value,
> {
    if cache.contains_key(locale) {
        Some(cache[locale])
    } else {
        None
    }
}

/// The distinct keys among `keys`.
pub open spec fn requested(keys: Seq<String>) -> Set<Seq<char>> {
    Set::new(|k: Seq<char>| exists|i: int| 0 <= i < keys.len() && (#[trigger] keys[i])@ == k)
}

/// `result` has one entry for each distinct key of `keys` and no other, and
/// each entry is the translation of its key in `doc`.
pub open spec fn translates(
    result: Map<Seq<char>, String>,
    doc: Option<toml::Value>,
    keys: Seq<String>,
) -> bool {
    &&& result.dom() == requested(keys)
    &&& forall|k: Seq<char>| #[trigger] result.contains_key(k) ==> result[k]@ == translation(doc, k)
}

/// No key is dropped and no entry is empty-handed: every requested key has an
/// entry, every entry belongs to a requested key, and each entry is either
/// the string that the document has for its key or the key itself.
pub proof fn every_key_is_answered(
    result: Map<Seq<char>, String>,
    doc: Option<toml::Value>,
    keys: Seq<String>,
)
    requires
        translates(result, doc, keys),
    ensures
        forall|i: int| 0 <= i < keys.len() ==> result.contains_key((#[trigger] keys[i])@),
        forall|k: Seq<char>| #[trigger]
            result.contains_key(k) ==> exists|i: int|
                0 <= i < keys.len() && (#[trigger] keys[i])@ == k,
        forall|k: Seq<char>| #[trigger]
            result.contains_key(k) ==> shown(doc, k) == Some(result[k]@) || result[k]@ == k,
{
    assert forall|i: int| 0 <= i < keys.len() implies result.contains_key(
        (#[trigger] keys[i])@,
    ) by {
        assert(requested(keys).contains(keys[i]@));
    }
    assert forall|k: Seq<char>| #[trigger] result.contains_key(k) implies exists|i: int|
        0 <= i < keys.len() && (#[trigger] keys[i])@ == k by {
        assert(requested(keys).contains(k));
    }
}

/// A key that names nothing in the document comes back as it is, dots and
/// all.
pub proof fn unknown_key_passes_through(root: toml::Value, key: Seq<char>)
    requires
        resolve(root, key) is None,
    ensures
        translation(Some(root), key) == key,
{
}

/// Content that does not parse is no document: offered for a locale that is
/// not held, it is refused as a parse failure, the cache stays as it was, and
/// every key of that locale translates to itself.
pub proof fn malformed_content_falls_back(
    cache: Map<Seq<char>, toml::Value>,
    locale: Seq<char>,
    path: Seq<char>,
    text: Seq<char>,
    key: Seq<char>,
)
    requires
        !cache.contains_key(locale),
        document_of(text) is Err,
    ensures
        ({
            let found = ResourceView::Found { path, source: Ok(text) };
            &&& loaded_from(found) is Err
            &&& loaded_from(found)->Err_0 is Parse
            &&& after_request(cache, locale, found) == cache
            &&& translation(held(after_request(cache, locale, found), locale), key) == key
        }),
{
}

/// The string to show for `key`.
pub fn translate(config: Option<&TomlConfig>, key: &str) -> (text: String)
    ensures
        text@ == translation(root_of(config), key@),
{
    let node = match config {
        Some(c) => c.get(key),
        None => None,
    };
    let text = match node {
        Some(n) => match n.as_str() {
            Some(own) => Some(own),
            None => match entry(n, "index") {
                Some(index) => index.as_str(),
                None => None,
            },
        },
        None => None,
    };
    match text {
        Some(found) => String::from_str(found),
        None => String::from_str(key),
    }
}

/// The translations of `keys`, one entry per distinct key.
pub fn lookup_all(config: Option<&TomlConfig>, keys: &Vec<String>) -> (result: StringHashMap<
    String,
>)
    ensures
        translates(result@, root_of(config), keys@),
{
    let mut result: StringHashMap<String> = StringHashMap::new();
    let mut i: usize = 0;
    assert(result@.dom() =~= requested(keys@.take(0)));
    while i < keys.len()
        invariant
            i <= keys.len(),
            translates(result@, root_of(config), keys@.take(i as int)),
        decreases keys.len() - i,
    {
        let key = &keys[i];
        let text = translate(config, key.as_str());
        result.insert(key.clone(), text);
        proof {
            let seen = keys@.take(i as int);
            let now = keys@.take(i + 1);
            assert(now[i as int]@ == key@);
            assert forall|k: Seq<char>| requested(now).contains(k) <==> (requested(seen).contains(k)
                || k == key@) by {
                if requested(now).contains(k) {
                    let j = choose|j: int| 0 <= j < now.len() && (#[trigger] now[j])@ == k;
                    if j < i {
                        assert(seen[j]@ == k);
                    }
                }
                if requested(seen).contains(k) {
                    let j = choose|j: int| 0 <= j < seen.len() && (#[trigger] seen[j])@ == k;
                    assert(now[j]@ == k);
                }
            }
            assert(result@.dom() =~= requested(now));
        }
        i = i + 1;
    }
    assert(keys@.take(keys.len() as int) == keys@);
    result
}

/// The translations of `keys` for `locale`, loading the locale's document
/// first if the cache does not hold it. Where no document can be had, every
/// key translates to itself.
pub fn lookup_many<F: FnOnce(&str) -> Resource>(
    cache: &mut LangCache,
    locale: &str,
    keys: &Vec<String>,
    resolver: F,
) -> (result: StringHashMap<String>)
    requires
        !old(cache)@.contains_key(locale@) ==> resolver.requires((locale,)),
    ensures
        request_served(resolver, old(cache)@, final(cache)@, locale),
        translates(result@, held(final(cache)@, locale@), keys@),
{
    let config = match cache.get_or_load(locale, resolver) {
        Ok(c) => Some(c),
        Err(_) => None,
    };
    lookup_all(config, keys)
}

/// Calls `sys_locale::get_locale`, which reports the platform's preferred
/// locale if it can tell one. The answer depends on the machine, so nothing
/// is said of it.
#[verifier::external_body]
fn detect_locale() -> Option<String> {
    sys_locale::get_locale()
}

/// The locale to use given what the platform reported.
pub fn locale_or_default(detected: Option<String>) -> (locale: String)
    ensures
        locale@ == match detected {
            Some(tag) => tag@,
            None => default_locale(),
        },
{
    match detected {
        Some(tag) => tag,
        None => String::from_str("en-US"),
    }
}

/// The translations of `keys` for the locale that the platform reports, or
/// for the default locale if it reports none.
pub fn get_i18n_values<F: FnOnce(&str) -> Resource>(
    keys: Vec<String>,
    state: &mut LangCache,
    resolver: F,
) -> (result: StringHashMap<String>)
    requires
        forall|locale: &str| resolver.requires((locale,)),
    ensures
        result@.dom() == requested(keys@),
        exists|locale: &str|
            #![trigger held(final(state)@, locale@)]
            request_served(resolver, old(state)@, final(state)@, locale) && translates(
                result@,
                held(final(state)@, locale@),
                keys@,
            ),
{
    let locale = locale_or_default(detect_locale());
    lookup_many(state, locale.as_str(), &keys, resolver)
}

} // verus!
