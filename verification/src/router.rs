//! The service: a store and the operations on it.
//!
//! An operation that needs a page from outside goes in steps. Its first step
//! looks into the store and says what to fetch. The step after a request
//! takes its outcome and says what to convert, or what to fetch next. The
//! last step takes what the conversion gave, stores it and gives the payload.
//! Only the first and the last step read or change the store; the steps
//! between them, and the writing of examples and reports, need no store.
//! An operation never fails: what goes wrong is told in the payload.

use crate::cache::{opt_str_view, DocCache, DocCacheView};
use crate::examples::extract_examples;
use crate::kind::ItemKind;
use crate::locator::{
    crate_key, examples_key, item_key, locate, relationships_key, search_url, write_crate_key,
    write_crate_url, write_search_url, ItemLocator,
};
use crate::report::analyze_relationships;
use crate::resolver::{
    advance_crate, advance_item, advance_search, begin_crate, begin_examples, begin_item,
    begin_relationships, cache_after_conversion, converted_payload, examples_for,
    relationships_for, request_item, retry_item, Conversion, CrateLookup, CrateLookupView,
    CrateStep, DerivedStep, FetchOutcome, ItemLookup, ItemStep, SearchStep, CONVERSION_FAILED,
    INVALID_PATH,
};
use crate::text::{begins_with_char, chars_of, joined_strings, string_of};
use vstd::prelude::*;
use vstd::string::StringExecFns;

verus! {

/// The service. Its store is made with it and lives as long as it does.
pub struct CargoDocRouter {
    pub cache: DocCache,
}

impl CargoDocRouter {
    /// A service with an empty store.
    pub fn new() -> (r: Self)
        ensures
            r.cache@ == DocCacheView::empty(),
    {
        CargoDocRouter { cache: DocCache::new() }
    }

    /// Begins the lookup of a package's documentation.
    pub fn lookup_crate(&self, crate_name: String, version: Option<String>) -> (step: CrateStep)
        ensures
            step@ == begin_crate(
                self.cache@,
                CrateLookupView { package: crate_name@, version: opt_str_view(version) },
            ),
    {
        let key = string_of(&write_crate_key(crate_name.as_str(), &version));
        match self.cache.get(key.as_str()) {
            Some(doc) => CrateStep::Done(doc),
            None => {
                let url = string_of(&write_crate_url(crate_name.as_str(), &version));
                CrateStep::Fetch(url, CrateLookup { package: crate_name, version })
            },
        }
    }

    /// Goes on with the lookup of a package's documentation after the outcome
    /// of its request.
    pub fn crate_fetched(lookup: CrateLookup, outcome: FetchOutcome) -> (step: CrateStep)
        ensures
            step@ == advance_crate(lookup@, outcome@),
    {
        match outcome {
            FetchOutcome::Unreachable(e) => CrateStep::Done(
                joined_strings("Failed to fetch documentation: ", e.as_str()),
            ),
            FetchOutcome::Refused(s) => CrateStep::Done(
                joined_strings("Failed to fetch documentation. Status: ", s.as_str()),
            ),
            FetchOutcome::Unreadable(e) => CrateStep::Done(
                joined_strings("Failed to read response body: ", e.as_str()),
            ),
            FetchOutcome::Body(b) => CrateStep::Convert(b, lookup),
        }
    }

    /// Ends the lookup of a package's documentation with what the conversion
    /// of its page gave.
    pub fn crate_converted(&mut self, lookup: CrateLookup, conversion: Conversion) -> (payload:
        String)
        ensures
            payload@ == converted_payload(conversion@),
            final(self).cache@ == cache_after_conversion(
                old(self).cache@,
                crate_key(lookup@.package, lookup@.version),
                conversion@,
            ),
    {
        match conversion {
            Conversion::Markdown(markdown) => self.keep_crate_document(&lookup, markdown),
            Conversion::Failed(e) => joined_strings(CONVERSION_FAILED, e.as_str()),
        }
    }

    /// Stores `markdown` as the document of the package that `lookup` names,
    /// and hands it back as the payload of the lookup.
    pub fn keep_crate_document(&mut self, lookup: &CrateLookup, markdown: String) -> (payload:
        String)
        ensures
            payload@ == markdown@,
            final(self).cache@ == old(self).cache@.with_doc(
                crate_key(lookup@.package, lookup@.version),
                markdown@,
            ),
    {
        let key = string_of(&write_crate_key(lookup.package.as_str(), &lookup.version));
        self.cache.set(key, markdown.clone());
        markdown
    }

    /// Begins the lookup of the documentation of the item at `at`.
    pub fn resolve_item(&self, at: ItemLocator) -> (step: ItemStep)
        ensures
            step@ == begin_item(self.cache@, at@),
    {
        let key = string_of(&at.item_key());
        match self.cache.get(key.as_str()) {
            Some(doc) => ItemStep::Done(doc),
            None => {
                if at.item_path.as_str().is_empty() {
                    ItemStep::Done(String::from_str(INVALID_PATH))
                } else {
                    request_item(ItemLookup { locator: at, kind: ItemKind::Struct })
                }
            },
        }
    }

    /// Begins the lookup of an item's documentation. The kind of the item is
    /// not asked for: it is found by trying.
    pub fn lookup_item(&self, crate_name: String, item_path: String, version: Option<String>) -> (step:
        ItemStep)
        ensures
            step@ == begin_item(
                self.cache@,
                locate(crate_name@, item_path@, opt_str_view(version)),
            ),
    {
        self.resolve_item(ItemLocator::new(crate_name, item_path, version))
    }

    /// Goes on with the lookup of an item's documentation after the outcome
    /// of its last request.
    pub fn item_fetched(lookup: ItemLookup, outcome: FetchOutcome) -> (step: ItemStep)
        ensures
            step@ == advance_item(lookup@, outcome@),
    {
        match outcome {
            FetchOutcome::Unreachable(e) => retry_item(lookup, e.as_str()),
            FetchOutcome::Refused(s) => {
                let error = joined_strings("Status code: ", s.as_str());
                retry_item(lookup, error.as_str())
            },
            FetchOutcome::Unreadable(e) => ItemStep::Done(
                joined_strings("Failed to read response body: ", e.as_str()),
            ),
            FetchOutcome::Body(b) => ItemStep::Convert(b, lookup),
        }
    }

    /// Ends the lookup of an item's documentation with what the conversion of
    /// its page gave.
    pub fn item_converted(&mut self, lookup: ItemLookup, conversion: Conversion) -> (payload:
        String)
        ensures
            payload@ == converted_payload(conversion@),
            final(self).cache@ == cache_after_conversion(
                old(self).cache@,
                item_key(lookup@.locator),
                conversion@,
            ),
    {
        match conversion {
            Conversion::Markdown(markdown) => self.keep_item_document(&lookup, markdown),
            Conversion::Failed(e) => joined_strings(CONVERSION_FAILED, e.as_str()),
        }
    }

    /// Stores `markdown` as the document of the item that `lookup` names, and
    /// hands it back as the payload of the lookup.
    pub fn keep_item_document(&mut self, lookup: &ItemLookup, markdown: String) -> (payload:
        String)
        ensures
            payload@ == markdown@,
            final(self).cache@ == old(self).cache@.with_doc(item_key(lookup@.locator), markdown@),
    {
        let key = string_of(&lookup.locator.item_key());
        self.cache.set(key, markdown.clone());
        markdown
    }

    /// The address at which the registry is searched for `query`.
    pub fn search_crates(query: String, limit: Option<u32>) -> (url: String)
        ensures
            url@ == search_url(query@, limit),
    {
        string_of(&write_search_url(query.as_str(), limit))
    }

    /// Goes on with a search after the outcome of its request.
    pub fn search_fetched(outcome: FetchOutcome) -> (step: SearchStep)
        ensures
            step@ == advance_search(outcome@),
    {
        match outcome {
            FetchOutcome::Unreachable(e) => SearchStep::Done(
                joined_strings("Failed to search crates.io: ", e.as_str()),
            ),
            FetchOutcome::Refused(s) => SearchStep::Done(
                joined_strings("Failed to search crates.io. Status: ", s.as_str()),
            ),
            FetchOutcome::Unreadable(e) => SearchStep::Done(
                joined_strings("Failed to read response body: ", e.as_str()),
            ),
            FetchOutcome::Body(b) => {
                if begins_with_char(b.as_str(), '{') {
                    SearchStep::Done(b)
                } else {
                    SearchStep::Convert(b)
                }
            },
        }
    }

    /// Ends a search with what the conversion of its result gave.
    pub fn search_converted(conversion: Conversion) -> (payload: String)
        ensures
            payload@ == converted_payload(conversion@),
    {
        match conversion {
            Conversion::Markdown(markdown) => markdown,
            Conversion::Failed(e) => joined_strings(CONVERSION_FAILED, e.as_str()),
        }
    }

    /// Begins a request for usage examples of an item.
    pub fn lookup_item_examples(
        &self,
        crate_name: String,
        item_path: String,
        version: Option<String>,
    ) -> (step: DerivedStep)
        ensures
            step@ == begin_examples(
                self.cache@,
                locate(crate_name@, item_path@, opt_str_view(version)),
            ),
    {
        let at = ItemLocator::new(crate_name, item_path, version);
        let key = string_of(&at.examples_key());
        match self.cache.get(key.as_str()) {
            Some(text) => DerivedStep::Done(text),
            None => DerivedStep::Resolve(at),
        }
    }

    /// Writes the usage examples of the item at `at`, whose documentation was
    /// resolved as `doc`.
    pub fn write_examples(at: &ItemLocator, doc: &str) -> (examples: String)
        ensures
            examples@ == examples_for(at@, doc@),
    {
        let text = extract_examples(
            &chars_of(doc),
            &chars_of(at.package.as_str()),
            &chars_of(at.item_path.as_str()),
        );
        string_of(&text)
    }

    /// Stores `examples` as the usage examples of the item at `at`, and hands
    /// them back as the payload of the request.
    pub fn keep_examples(&mut self, at: &ItemLocator, examples: String) -> (payload: String)
        ensures
            payload@ == examples@,
            final(self).cache@ == old(self).cache@.with_doc(examples_key(at@), examples@),
    {
        self.cache.set(string_of(&at.examples_key()), examples.clone());
        examples
    }

    /// Begins a request for the relationship report of an item.
    pub fn analyze_type_relationships(
        &self,
        crate_name: String,
        item_path: String,
        version: Option<String>,
    ) -> (step: DerivedStep)
        ensures
            step@ == begin_relationships(
                self.cache@,
                locate(crate_name@, item_path@, opt_str_view(version)),
            ),
    {
        let at = ItemLocator::new(crate_name, item_path, version);
        let key = string_of(&at.relationships_key());
        match self.cache.get(key.as_str()) {
            Some(text) => DerivedStep::Done(text),
            None => DerivedStep::Resolve(at),
        }
    }

    /// Writes the relationship report of the item at `at`, whose
    /// documentation was resolved as `doc`.
    pub fn write_relationships(at: &ItemLocator, doc: &str) -> (report: String)
        ensures
            report@ == relationships_for(at@, doc@),
    {
        let text = analyze_relationships(
            &chars_of(doc),
            &chars_of(at.package.as_str()),
            &chars_of(at.item_path.as_str()),
        );
        string_of(&text)
    }

    /// Stores `report` as the relationship report of the item at `at`, and
    /// hands it back as the payload of the request.
    pub fn keep_relationships(&mut self, at: &ItemLocator, report: String) -> (payload: String)
        ensures
            payload@ == report@,
            final(self).cache@ == old(self).cache@.with_doc(relationships_key(at@), report@),
    {
        self.cache.set(string_of(&at.relationships_key()), report.clone());
        report
    }
}

impl Default for CargoDocRouter {
    fn default() -> (r: Self)
        ensures
            r.cache@ == DocCacheView::empty(),
    {
        CargoDocRouter::new()
    }
}

} // verus!
