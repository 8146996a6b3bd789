//! The per-locale cache of documents.
//!
//! A request takes the cache by exclusive reference from the test for a held
//! document to the insertion of a new one, so a host that shares one cache
//! among threads locks it around the whole request.

use crate::document::{document_from, source_view, TomlConfig};
use crate::error::{LoadError, LoadFailure};
use vstd::hash_map::StringHashMap;
use vstd::pervasive::unreached;
use vstd::prelude::*;

verus! {

/// What the host found when asked for a locale's translation resource.
#[derive(Debug, PartialEq, Eq)]
pub enum Resource {
    /// The host cannot name a location for the locale.
    Unresolved,
    /// The host named `path`, and nothing exists there.
    Missing { path: String },
    /// Something exists at `path`; `source` is what reading it gave: the
    /// content, or the reader's report of a failure.
    Found { path: String, source: Result<String, String> },
}

/// A `Resource` with its strings taken as sequences of characters.
pub enum ResourceView {
    Unresolved,
    Missing { path: Seq<char> },
    Found { path: Seq<char>, source: Result<Seq<char>, Seq<char>> },
}

impl View for Resource {
    type V = ResourceView;

    open spec fn view(&self) -> ResourceView {
        match *self {
            Resource::Unresolved => ResourceView::Unresolved,
            Resource::Missing { path } => ResourceView::Missing { path: path@ },
            Resource::Found { path, source } => ResourceView::Found {
                path: path@,
                source: source_view(source),
            },
        }
    }
}

/// The document that a resource yields, or the failure that it ends in.
pub open spec fn loaded_from(found: ResourceView) -> Result<toml::Value, LoadFailure> {
    match found {
        ResourceView::Unresolved => Err(LoadFailure::Unresolved),
        ResourceView::Missing { path } => Err(LoadFailure::NotFound { path }),
        ResourceView::Found { path, source } => document_from(path, source),
    }
}

/// The cache after `found` was offered for `locale`, which it does not hold
/// yet: a document is kept under `locale`, a failure leaves no trace.
pub open spec fn after_load(
    cache: Map<Seq<char>, toml::Value>,
    locale: Seq<char>,
    found: ResourceView,
) -> Map<Seq<char>, toml::Value> {
    match loaded_from(found) {
        Ok(root) => cache.insert(locale, root),
        Err(_) => cache,
    }
}

/// The cache after a request for `locale` for which the host would find
/// `found`: a locale that is already held is served as it is, and `found`
/// plays no part.
pub open spec fn after_request(
    cache: Map<Seq<char>, toml::Value>,
    locale: Seq<char>,
    found: ResourceView,
) -> Map<Seq<char>, toml::Value> {
    if cache.contains_key(locale) {
        cache
    } else {
        after_load(cache, locale, found)
    }
}

/// A request for `locale` took the cache from `before` to `after`: a locale
/// held before leaves it unchanged, and for any other `resolver` was asked
/// and what it found was loaded.
pub open spec fn request_served<F: FnOnce(&str) -> Resource>(
    resolver: F,
    before: Map<Seq<char>, toml::Value>,
    after: Map<Seq<char>, toml::Value>,
    locale: &str,
) -> bool {
    if before.contains_key(locale@) {
        after == before
    } else {
        exists|found: Resource| #[trigger]
            resolver.ensures((locale,), found) && after == after_load(before, locale@, found@)
    }
}

/// A locale that is held is never loaded again: whatever the resolver would
/// find, a request for it leaves the cache, and so the document it serves,
/// exactly as it was.
pub proof fn held_locale_is_not_reloaded<F: FnOnce(&str) -> Resource>(
    resolver: F,
    before: Map<Seq<char>, toml::Value>,
    after: Map<Seq<char>, toml::Value>,
    locale: &str,
)
    requires
        before.contains_key(locale@),
        request_served(resolver, before, after, locale),
    ensures
        after == before,
{
}

/// Once a load has succeeded, every later request for the same locale is
/// answered from the cache: the resource offered with it plays no part, and
/// the document held is the one that the first load put there.
pub proof fn loaded_locale_stays(
    cache: Map<Seq<char>, toml::Value>,
    locale: Seq<char>,
    first: ResourceView,
    later: ResourceView,
)
    requires
        !cache.contains_key(locale),
        loaded_from(first) is Ok,
    ensures
        after_request(cache, locale, first).contains_key(locale),
        after_request(cache, locale, first)[locale] == loaded_from(first)->Ok_0,
        after_request(after_request(cache, locale, first), locale, later) == after_request(
            cache,
            locale,
            first,
        ),
{
}

/// A failed load is not remembered: it leaves the cache as it was, so a
/// later request for the same locale loads whatever is offered then.
pub proof fn failed_load_is_retried(
    cache: Map<Seq<char>, toml::Value>,
    locale: Seq<char>,
    first: ResourceView,
    second: ResourceView,
)
    requires
        !cache.contains_key(locale),
        loaded_from(first) is Err,
    ensures
        after_request(cache, locale, first) == cache,
        after_request(after_request(cache, locale, first), locale, second) == after_load(
            cache,
            locale,
            second,
        ),
        loaded_from(second) is Ok ==> after_request(
            after_request(cache, locale, first),
            locale,
            second,
        ).contains_key(locale),
{
}

/// The documents loaded so far, one per locale identifier.
///
/// Its view maps each cached locale to the root of its document.
pub struct LangCache {
    map: StringHashMap<TomlConfig>,
}

impl View for LangCache {
    type V = Map<Seq<char>, toml::Value>;

    closed spec fn view(&self) -> Map<Seq<char>, toml::Value> {
        self.map@.map_values(|config: TomlConfig| config.root())
    }
}

impl LangCache {
    /// An empty cache.
    pub fn new() -> (cache: LangCache)
        ensures
            cache@ == Map::<Seq<char>, toml::Value>::empty(),
    {
        let cache = LangCache { map: StringHashMap::new() };
        assert(cache@ =~= Map::<Seq<char>, toml::Value>::empty());
        cache
    }

    /// Whether a document is held for `locale`.
    pub fn contains(&self, locale: &str) -> (held: bool)
        ensures
            held == self@.contains_key(locale@),
    {
        self.map.contains_key(locale)
    }

    /// The document held for `locale`, if there is one.
    pub fn get(&self, locale: &str) -> (r: Option<&TomlConfig>)
        ensures
            match r {
                Some(config) => self@.contains_key(locale@) && config.root() == self@[locale@],
                None => !self@.contains_key(locale@),
            },
    {
        self.map.get(locale)
    }

    /// Takes what the host found for `locale`. A locale that is already held
    /// keeps its document and `found` is not looked at; otherwise the
    /// document that `found` yields is kept, and a failure is reported and
    /// leaves the cache as it was.
    pub fn load(&mut self, locale: &str, found: Resource) -> (r: Result<(), LoadError>)
        ensures
            final(self)@ == after_request(old(self)@, locale@, found@),
            match r {
                Ok(_) => final(self)@.contains_key(locale@),
                Err(e) => !old(self)@.contains_key(locale@) && loaded_from(found@) == Err::<
                    toml::Value,
                    LoadFailure,
                >(e@),
            },
    {
        if self.map.contains_key(locale) {
            return Ok(());
        }
        let built = match found {
            Resource::Unresolved => Err(LoadError::Unresolved),
            Resource::Missing { path } => Err(LoadError::NotFound { path }),
            Resource::Found { path, source } => TomlConfig::new(path.as_str(), source),
        };
        match built {
            Ok(config) => {
                self.map.insert(locale.to_string(), config);
                assert(self@ =~= old(self)@.insert(locale@, config.root()));
                Ok(())
            },
            Err(e) => Err(e),
        }
    }

    /// The document for `locale`, asking `resolver` for its resource only if
    /// none is held yet: for a held locale nothing is required of `resolver`,
    /// and it is not called. A failed load is reported and not remembered, so
    /// the next request asks again.
    pub fn get_or_load<F: FnOnce(&str) -> Resource>(&mut self, locale: &str, resolver: F) -> (r:
        Result<&TomlConfig, LoadError>)
        requires
            !old(self)@.contains_key(locale@) ==> resolver.requires((locale,)),
        ensures
            request_served(resolver, old(self)@, final(self)@, locale),
            match r {
                Ok(config) => final(self)@.contains_key(locale@)
                    && config.root() == final(self)@[locale@],
                Err(e) => !final(self)@.contains_key(locale@) && exists|found: Resource|
                    resolver.ensures((locale,), found) && loaded_from(found@) == Err::<
                        toml::Value,
                        LoadFailure,
                    >(e@),
            },
    {
        if !self.map.contains_key(locale) {
            let found = resolver(locale);
            match self.load(locale, found) {
                Ok(_) => {},
                Err(e) => {
                    return Err(e);
                },
            }
        }
        match self.map.get(locale) {
            Some(config) => Ok(config),
            None => unreached(),
        }
    }
}

} // verus!
