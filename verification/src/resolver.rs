//! The rules by which documents are resolved: what is asked of the
//! documentation host and in which order, what is made of each answer, and
//! what the store holds afterwards.
//!
//! The rules are functions of the store's content and of the answers alone.
//! The requests themselves are made elsewhere, and so is the conversion of a
//! page into Markdown: a lookup says which page is to be converted and takes
//! what came of it.

use crate::cache::DocCacheView;
use crate::examples::examples_document;
use crate::kind::ItemKind;
use crate::locator::{
    crate_key, crate_url, examples_key, item_key, item_url, locate, normalized_path,
    package_prefix, relationships_key, ItemLocator, ItemLocatorView,
};
use crate::report::relationship_report;
use crate::text::{joined_strings, starts_with, string_of};
use vstd::prelude::*;

verus! {

pub const CLIENT_NAME: &'static str = "CrateDocs/0.1.0 (https://github.com/d6e/cratedocs-mcp)";

pub const INVALID_PATH: &'static str =
    "Invalid item path. Expected format: module::path::ItemName";

pub const NOT_FOUND: &'static str =
    "Failed to fetch item documentation. No matching item found. Last error: ";

pub const CONVERSION_FAILED: &'static str = "Failed to convert response body: ";

/// How one request ended.
#[derive(Debug)]
pub enum FetchOutcome {
    /// No response arrived. The text says why.
    Unreachable(String),
    /// A response arrived whose status is no success. The text is the status.
    Refused(String),
    /// A response arrived with a success status, but its body could not be
    /// read. The text says why.
    Unreadable(String),
    /// A response arrived with a success status and this body.
    Body(String),
}

/// The end of a request with its text as a sequence.
pub enum FetchOutcomeView {
    Unreachable(Seq<char>),
    Refused(Seq<char>),
    Unreadable(Seq<char>),
    Body(Seq<char>),
}

impl View for FetchOutcome {
    type V = FetchOutcomeView;

    open spec fn view(&self) -> FetchOutcomeView {
        match self {
            FetchOutcome::Unreachable(e) => FetchOutcomeView::Unreachable(e@),
            FetchOutcome::Refused(s) => FetchOutcomeView::Refused(s@),
            FetchOutcome::Unreadable(e) => FetchOutcomeView::Unreadable(e@),
            FetchOutcome::Body(b) => FetchOutcomeView::Body(b@),
        }
    }
}

/// How the conversion of a page into Markdown ended.
#[derive(Debug)]
pub enum Conversion {
    /// The page was converted into this Markdown.
    Markdown(String),
    /// The page could not be converted. The text says why.
    Failed(String),
}

/// The end of a conversion with its text as a sequence.
pub enum ConversionView {
    Markdown(Seq<char>),
    Failed(Seq<char>),
}

impl View for Conversion {
    type V = ConversionView;

    open spec fn view(&self) -> ConversionView {
        match self {
            Conversion::Markdown(m) => ConversionView::Markdown(m@),
            Conversion::Failed(e) => ConversionView::Failed(e@),
        }
    }
}

/// A package whose page is being fetched.
pub struct CrateLookup {
    pub package: String,
    pub version: Option<String>,
}

/// A package and version as texts.
pub struct CrateLookupView {
    pub package: Seq<char>,
    pub version: Option<Seq<char>>,
}

impl View for CrateLookup {
    type V = CrateLookupView;

    open spec fn view(&self) -> CrateLookupView {
        CrateLookupView {
            package: self.package@,
            version: crate::cache::opt_str_view(self.version),
        }
    }
}

/// What a package lookup does next.
pub enum CrateStep {
    /// The lookup is over, with this payload.
    Done(String),
    /// The page at this address is to be fetched, and the outcome handed back
    /// together with the lookup.
    Fetch(String, CrateLookup),
    /// This page is to be converted into Markdown, and what came of it handed
    /// back together with the lookup.
    Convert(String, CrateLookup),
}

/// A step of a package lookup as texts.
pub enum CrateStepView {
    Done(Seq<char>),
    Fetch(Seq<char>, CrateLookupView),
    Convert(Seq<char>, CrateLookupView),
}

impl View for CrateStep {
    type V = CrateStepView;

    open spec fn view(&self) -> CrateStepView {
        match self {
            CrateStep::Done(t) => CrateStepView::Done(t@),
            CrateStep::Fetch(url, lookup) => CrateStepView::Fetch(url@, lookup@),
            CrateStep::Convert(page, lookup) => CrateStepView::Convert(page@, lookup@),
        }
    }
}

/// An item whose page is being fetched under the assumption that it is of
/// kind `kind`. The kinds before `kind` have been tried without success.
pub struct ItemLookup {
    pub locator: ItemLocator,
    pub kind: ItemKind,
}

/// An item lookup as texts.
pub struct ItemLookupView {
    pub locator: ItemLocatorView,
    pub kind: ItemKind,
}

impl View for ItemLookup {
    type V = ItemLookupView;

    open spec fn view(&self) -> ItemLookupView {
        ItemLookupView { locator: self.locator@, kind: self.kind }
    }
}

/// What an item lookup does next.
pub enum ItemStep {
    /// The lookup is over, with this payload.
    Done(String),
    /// The page at this address is to be fetched, and the outcome handed back
    /// together with the lookup.
    Fetch(String, ItemLookup),
    /// This page is to be converted into Markdown, and what came of it handed
    /// back together with the lookup.
    Convert(String, ItemLookup),
}

/// A step of an item lookup as texts.
pub enum ItemStepView {
    Done(Seq<char>),
    Fetch(Seq<char>, ItemLookupView),
    Convert(Seq<char>, ItemLookupView),
}

impl View for ItemStep {
    type V = ItemStepView;

    open spec fn view(&self) -> ItemStepView {
        match self {
            ItemStep::Done(t) => ItemStepView::Done(t@),
            ItemStep::Fetch(url, lookup) => ItemStepView::Fetch(url@, lookup@),
            ItemStep::Convert(page, lookup) => ItemStepView::Convert(page@, lookup@),
        }
    }
}

/// What a search does after its request.
pub enum SearchStep {
    /// The search is over, with this payload.
    Done(String),
    /// This page is to be converted into Markdown, and what came of it handed
    /// back.
    Convert(String),
}

/// A step of a search as texts.
pub enum SearchStepView {
    Done(Seq<char>),
    Convert(Seq<char>),
}

impl View for SearchStep {
    type V = SearchStepView;

    open spec fn view(&self) -> SearchStepView {
        match self {
            SearchStep::Done(t) => SearchStepView::Done(t@),
            SearchStep::Convert(page) => SearchStepView::Convert(page@),
        }
    }
}

/// What a request for something derived from an item's document does next.
pub enum DerivedStep {
    /// The request is over, with this payload.
    Done(String),
    /// The document of this item is to be resolved and handed back.
    Resolve(ItemLocator),
}

/// A step of such a request as texts.
pub enum DerivedStepView {
    Done(Seq<char>),
    Resolve(ItemLocatorView),
}

impl View for DerivedStep {
    type V = DerivedStepView;

    open spec fn view(&self) -> DerivedStepView {
        match self {
            DerivedStep::Done(t) => DerivedStepView::Done(t@),
            DerivedStep::Resolve(at) => DerivedStepView::Resolve(at@),
        }
    }
}

/// The kinds under which an item is looked for, in the order in which they
/// are tried. The first kind whose page is found decides.
pub open spec fn candidate_kinds() -> Seq<ItemKind> {
    seq![ItemKind::Struct, ItemKind::Enum, ItemKind::Trait, ItemKind::Function, ItemKind::Macro]
}

/// The place of a kind in the order of the candidates.
pub open spec fn rank(kind: ItemKind) -> int {
    match kind {
        ItemKind::Struct => 0,
        ItemKind::Enum => 1,
        ItemKind::Trait => 2,
        ItemKind::Function => 3,
        ItemKind::Macro => 4,
    }
}

/// The candidate that is tried after `kind`, if any is left.
pub open spec fn next_candidate(kind: ItemKind) -> Option<ItemKind> {
    if rank(kind) + 1 < candidate_kinds().len() {
        Some(candidate_kinds()[rank(kind) + 1])
    } else {
        None
    }
}

/// The first step of a package lookup: the stored document if there is one,
/// else the request for the package's page.
pub open spec fn begin_crate(cache: DocCacheView, lookup: CrateLookupView) -> CrateStepView {
    match cache.doc(crate_key(lookup.package, lookup.version)) {
        Some(doc) => CrateStepView::Done(doc),
        None => CrateStepView::Fetch(crate_url(lookup.package, lookup.version), lookup),
    }
}

/// The payload in which an operation ends after a conversion: the Markdown,
/// or the failure of the conversion.
pub open spec fn converted_payload(conversion: ConversionView) -> Seq<char> {
    match conversion {
        ConversionView::Markdown(m) => m,
        ConversionView::Failed(e) => CONVERSION_FAILED@ + e,
    }
}

/// The store after a conversion whose Markdown belongs under `key`: the
/// Markdown is stored there, and a failed conversion changes nothing.
pub open spec fn cache_after_conversion(
    cache: DocCacheView,
    key: Seq<char>,
    conversion: ConversionView,
) -> DocCacheView {
    match conversion {
        ConversionView::Markdown(m) => cache.with_doc(key, m),
        ConversionView::Failed(_) => cache,
    }
}

/// The step of a package lookup after its request ended with `outcome`: a
/// page that was found is to be converted, and a failure ends the lookup.
pub open spec fn advance_crate(lookup: CrateLookupView, outcome: FetchOutcomeView) -> CrateStepView {
    match outcome {
        FetchOutcomeView::Unreachable(e) => CrateStepView::Done(
            "Failed to fetch documentation: "@ + e,
        ),
        FetchOutcomeView::Refused(s) => CrateStepView::Done(
            "Failed to fetch documentation. Status: "@ + s,
        ),
        FetchOutcomeView::Unreadable(e) => CrateStepView::Done(
            "Failed to read response body: "@ + e,
        ),
        FetchOutcomeView::Body(b) => CrateStepView::Convert(b, lookup),
    }
}

/// The request for an item's page under the kind that the lookup stands at.
pub open spec fn fetch_item(lookup: ItemLookupView) -> ItemStepView {
    ItemStepView::Fetch(item_url(lookup.locator, lookup.kind), lookup)
}

/// The first step of an item lookup: the stored document if there is one;
/// else, for an empty path, the refusal of the path; else the request for the
/// item's page under the first candidate kind.
pub open spec fn begin_item(cache: DocCacheView, at: ItemLocatorView) -> ItemStepView {
    match cache.doc(item_key(at)) {
        Some(doc) => ItemStepView::Done(doc),
        None => if at.item_path.len() == 0 {
            ItemStepView::Done(INVALID_PATH@)
        } else {
            fetch_item(ItemLookupView { locator: at, kind: ItemKind::Struct })
        },
    }
}

/// The step after a failed request, whose failure reads `error`: the request
/// under the next candidate kind, or, where none is left, the end of the
/// lookup with the last failure in its payload.
pub open spec fn after_failure(lookup: ItemLookupView, error: Seq<char>) -> ItemStepView {
    match next_candidate(lookup.kind) {
        Some(kind) => fetch_item(ItemLookupView { kind, ..lookup }),
        None => ItemStepView::Done(NOT_FOUND@ + error),
    }
}

/// The step of an item lookup after its request ended with `outcome`. A page
/// that was found is to be converted, and no further candidate is tried,
/// whatever the remaining candidates would have given.
pub open spec fn advance_item(lookup: ItemLookupView, outcome: FetchOutcomeView) -> ItemStepView {
    match outcome {
        FetchOutcomeView::Unreachable(e) => after_failure(lookup, e),
        FetchOutcomeView::Refused(s) => after_failure(lookup, "Status code: "@ + s),
        FetchOutcomeView::Unreadable(e) => ItemStepView::Done(
            "Failed to read response body: "@ + e,
        ),
        FetchOutcomeView::Body(b) => ItemStepView::Convert(b, lookup),
    }
}

/// The step of a search after its request ended with `outcome`: a body that
/// begins with an opening brace is the payload as it is, any other body is to
/// be converted, and a failure ends the search.
pub open spec fn advance_search(outcome: FetchOutcomeView) -> SearchStepView {
    match outcome {
        FetchOutcomeView::Unreachable(e) => SearchStepView::Done(
            "Failed to search crates.io: "@ + e,
        ),
        FetchOutcomeView::Refused(s) => SearchStepView::Done(
            "Failed to search crates.io. Status: "@ + s,
        ),
        FetchOutcomeView::Unreadable(e) => SearchStepView::Done(
            "Failed to read response body: "@ + e,
        ),
        FetchOutcomeView::Body(b) => if starts_with(b, seq!['{']) {
            SearchStepView::Done(b)
        } else {
            SearchStepView::Convert(b)
        },
    }
}

/// The first step of a request for an item's examples: the stored examples if
/// there are any, else the resolution of the item's document.
pub open spec fn begin_examples(cache: DocCacheView, at: ItemLocatorView) -> DerivedStepView {
    match cache.doc(examples_key(at)) {
        Some(text) => DerivedStepView::Done(text),
        None => DerivedStepView::Resolve(at),
    }
}

/// The first step of a request for an item's relationship report: the stored
/// report if there is one, else the resolution of the item's document.
pub open spec fn begin_relationships(cache: DocCacheView, at: ItemLocatorView) -> DerivedStepView {
    match cache.doc(relationships_key(at)) {
        Some(text) => DerivedStepView::Done(text),
        None => DerivedStepView::Resolve(at),
    }
}

/// The examples of the item at `at`, whose document is `doc`.
pub open spec fn examples_for(at: ItemLocatorView, doc: Seq<char>) -> Seq<char> {
    examples_document(doc, at.package, at.item_path)
}

/// The relationship report of the item at `at`, whose document is `doc`.
pub open spec fn relationships_for(at: ItemLocatorView, doc: Seq<char>) -> Seq<char> {
    relationship_report(doc, at.package, at.item_path)
}

/// The payload in which an item lookup ends when the host answers each
/// address as `host` says and each page is converted as `convert` says.
pub open spec fn resolution(
    lookup: ItemLookupView,
    host: spec_fn(Seq<char>) -> FetchOutcomeView,
    convert: spec_fn(Seq<char>) -> ConversionView,
) -> Seq<char>
    decreases candidate_kinds().len() - rank(lookup.kind),
{
    match advance_item(lookup, host(item_url(lookup.locator, lookup.kind))) {
        ItemStepView::Done(payload) => payload,
        ItemStepView::Fetch(_, next) => resolution(next, host, convert),
        ItemStepView::Convert(page, _) => converted_payload(convert(page)),
    }
}

/// A request that ended without a page: no response, or a status that is no
/// success.
pub open spec fn is_failure(outcome: FetchOutcomeView) -> bool {
    outcome is Unreachable || outcome is Refused
}

/// The candidate kind that is tried after `kind`.
pub fn kind_after(kind: ItemKind) -> (r: Option<ItemKind>)
    ensures
        r == next_candidate(kind),
{
    match kind {
        ItemKind::Struct => Some(ItemKind::Enum),
        ItemKind::Enum => Some(ItemKind::Trait),
        ItemKind::Trait => Some(ItemKind::Function),
        ItemKind::Function => Some(ItemKind::Macro),
        ItemKind::Macro => None,
    }
}

/// The request for an item's page under the kind that `lookup` stands at.
pub fn request_item(lookup: ItemLookup) -> (step: ItemStep)
    ensures
        step@ == fetch_item(lookup@),
{
    let url = string_of(&lookup.locator.url(lookup.kind));
    ItemStep::Fetch(url, lookup)
}

/// The step after a failed request of `lookup`, whose failure reads `error`.
pub fn retry_item(lookup: ItemLookup, error: &str) -> (step: ItemStep)
    ensures
        step@ == after_failure(lookup@, error@),
{
    match kind_after(lookup.kind) {
        Some(kind) => request_item(ItemLookup { locator: lookup.locator, kind }),
        None => ItemStep::Done(joined_strings(NOT_FOUND, error)),
    }
}

/// The lookup of an item from its first candidate kind.
pub open spec fn first_lookup(at: ItemLocatorView) -> ItemLookupView {
    ItemLookupView { locator: at, kind: ItemKind::Struct }
}

/// The lookup of an item at the candidate kind of rank `k`.
pub open spec fn lookup_at(at: ItemLocatorView, k: int) -> ItemLookupView {
    ItemLookupView { locator: at, kind: candidate_kinds()[k] }
}

/// The order of the candidate kinds decides. Where the pages of the kinds
/// before the one of rank `k` are not found and the page of that kind is, the
/// lookup ends with what the conversion of that page gives, whatever the host
/// holds under the kinds after it.
pub proof fn lemma_first_found_kind_wins(
    at: ItemLocatorView,
    host: spec_fn(Seq<char>) -> FetchOutcomeView,
    convert: spec_fn(Seq<char>) -> ConversionView,
    k: int,
    page: Seq<char>,
)
    requires
        0 <= k < candidate_kinds().len(),
        forall|j: int| 0 <= j < k ==> is_failure(#[trigger] host(item_url(at, candidate_kinds()[j]))),
        host(item_url(at, candidate_kinds()[k])) == FetchOutcomeView::Body(page),
    ensures
        resolution(first_lookup(at), host, convert) == converted_payload(convert(page)),
{
    lemma_found_kind_wins_from(at, host, convert, 0, k, page);
}

/// The same from any candidate on: where the pages of the kinds of rank
/// `from` up to `k` are not found and the page of the kind of rank `k` is, the
/// lookup that stands at rank `from` ends with what the conversion of that
/// page gives.
pub proof fn lemma_found_kind_wins_from(
    at: ItemLocatorView,
    host: spec_fn(Seq<char>) -> FetchOutcomeView,
    convert: spec_fn(Seq<char>) -> ConversionView,
    from: int,
    k: int,
    page: Seq<char>,
)
    requires
        0 <= from <= k < candidate_kinds().len(),
        forall|j: int|
            from <= j < k ==> is_failure(#[trigger] host(item_url(at, candidate_kinds()[j]))),
        host(item_url(at, candidate_kinds()[k])) == FetchOutcomeView::Body(page),
    ensures
        resolution(lookup_at(at, from), host, convert) == converted_payload(convert(page)),
    decreases k - from,
{
    if from < k {
        assert(is_failure(host(item_url(at, candidate_kinds()[from]))));
        lemma_found_kind_wins_from(at, host, convert, from + 1, k, page);
        assert(lookup_at(at, from + 1) == (ItemLookupView {
            kind: candidate_kinds()[from + 1],
            ..lookup_at(at, from)
        }));
    }
}

/// An item whose page is found under both the struct and the function
/// address is resolved as the struct: with a conversion that gives Markdown,
/// the payload is the Markdown of the struct's page.
pub proof fn lemma_struct_before_function(
    at: ItemLocatorView,
    host: spec_fn(Seq<char>) -> FetchOutcomeView,
    convert: spec_fn(Seq<char>) -> ConversionView,
    struct_page: Seq<char>,
    function_page: Seq<char>,
    markdown: Seq<char>,
)
    requires
        host(item_url(at, ItemKind::Struct)) == FetchOutcomeView::Body(struct_page),
        host(item_url(at, ItemKind::Function)) == FetchOutcomeView::Body(function_page),
        convert(struct_page) == ConversionView::Markdown(markdown),
    ensures
        resolution(first_lookup(at), host, convert) == markdown,
{
    lemma_first_found_kind_wins(at, host, convert, 0, struct_page);
}

/// Where no page is found under any candidate kind, the lookup ends with the
/// failure of the last candidate in its payload.
pub proof fn lemma_no_kind_found(
    at: ItemLocatorView,
    host: spec_fn(Seq<char>) -> FetchOutcomeView,
    convert: spec_fn(Seq<char>) -> ConversionView,
)
    requires
        forall|j: int|
            0 <= j < candidate_kinds().len() ==> is_failure(
                #[trigger] host(item_url(at, candidate_kinds()[j])),
            ),
    ensures
        resolution(first_lookup(at), host, convert) == advance_item(
            lookup_at(at, 4),
            host(item_url(at, ItemKind::Macro)),
        )->Done_0,
        starts_with(resolution(first_lookup(at), host, convert), NOT_FOUND@),
{
    assert(is_failure(host(item_url(at, candidate_kinds()[0]))));
    assert(is_failure(host(item_url(at, candidate_kinds()[1]))));
    assert(is_failure(host(item_url(at, candidate_kinds()[2]))));
    assert(is_failure(host(item_url(at, candidate_kinds()[3]))));
    assert(is_failure(host(item_url(at, candidate_kinds()[4]))));
    let l0 = lookup_at(at, 0);
    let l1 = lookup_at(at, 1);
    let l2 = lookup_at(at, 2);
    let l3 = lookup_at(at, 3);
    let l4 = lookup_at(at, 4);
    assert(l1 == (ItemLookupView { kind: ItemKind::Enum, ..l0 }));
    assert(l2 == (ItemLookupView { kind: ItemKind::Trait, ..l1 }));
    assert(l3 == (ItemLookupView { kind: ItemKind::Function, ..l2 }));
    assert(l4 == (ItemLookupView { kind: ItemKind::Macro, ..l3 }));
    assert(resolution(l4, host, convert) == advance_item(
        l4,
        host(item_url(at, ItemKind::Macro)),
    )->Done_0);
    assert(resolution(l3, host, convert) == resolution(l4, host, convert));
    assert(resolution(l2, host, convert) == resolution(l3, host, convert));
    assert(resolution(l1, host, convert) == resolution(l2, host, convert));
    assert(resolution(l0, host, convert) == resolution(l1, host, convert));
    let payload = resolution(l4, host, convert);
    match host(item_url(at, ItemKind::Macro)) {
        FetchOutcomeView::Unreachable(e) => {
            assert(payload == NOT_FOUND@ + e);
            assert(payload.subrange(0, NOT_FOUND@.len() as int) =~= NOT_FOUND@);
        },
        FetchOutcomeView::Refused(s) => {
            assert(payload == NOT_FOUND@ + ("Status code: "@ + s));
            assert(payload.subrange(0, NOT_FOUND@.len() as int) =~= NOT_FOUND@);
        },
        _ => {},
    }
}

/// A lookup whose page was found and converted is answered from the store
/// when it is made again: the second lookup ends at its first step, without a
/// request, and with the very payload of the first.
pub proof fn lemma_item_lookup_repeats(
    cache: DocCacheView,
    lookup: ItemLookupView,
    markdown: Seq<char>,
)
    ensures
        begin_item(
            cache_after_conversion(
                cache,
                item_key(lookup.locator),
                ConversionView::Markdown(markdown),
            ),
            lookup.locator,
        ) == ItemStepView::Done(converted_payload(ConversionView::Markdown(markdown))),
{
}

/// A lookup that is answered from the store is answered alike when it is made
/// again, and leaves the store as it was.
pub proof fn lemma_stored_item_repeats(cache: DocCacheView, at: ItemLocatorView)
    requires
        cache.doc(item_key(at)) is Some,
    ensures
        begin_item(cache, at) == ItemStepView::Done(cache.doc(item_key(at))->0),
{
}

/// A package lookup whose page was found and converted is answered from the
/// store when it is made again, with the very payload of the first.
pub proof fn lemma_crate_lookup_repeats(
    cache: DocCacheView,
    lookup: CrateLookupView,
    markdown: Seq<char>,
)
    ensures
        begin_crate(
            cache_after_conversion(
                cache,
                crate_key(lookup.package, lookup.version),
                ConversionView::Markdown(markdown),
            ),
            lookup,
        ) == CrateStepView::Done(converted_payload(ConversionView::Markdown(markdown))),
{
}

/// A search result that begins with an opening brace is the payload as it
/// came, with no conversion; any other result is converted, and the payload
/// is the Markdown that the conversion gives.
pub proof fn lemma_search_passes_json(body: Seq<char>, markdown: Seq<char>)
    ensures
        starts_with(body, seq!['{']) ==> advance_search(FetchOutcomeView::Body(body))
            == SearchStepView::Done(body),
        !starts_with(body, seq!['{']) ==> advance_search(FetchOutcomeView::Body(body))
            == SearchStepView::Convert(body),
        converted_payload(ConversionView::Markdown(markdown)) == markdown,
{
}

/// Examples that were written once are answered from the store afterwards.
pub proof fn lemma_examples_repeat(cache: DocCacheView, at: ItemLocatorView, doc: Seq<char>)
    ensures
        begin_examples(cache.with_doc(examples_key(at), examples_for(at, doc)), at)
            == DerivedStepView::Done(examples_for(at, doc)),
{
}

/// A relationship report that was written once is answered from the store
/// afterwards.
pub proof fn lemma_relationships_repeat(cache: DocCacheView, at: ItemLocatorView, doc: Seq<char>)
    ensures
        begin_relationships(
            cache.with_doc(relationships_key(at), relationships_for(at, doc)),
            at,
        ) == DerivedStepView::Done(relationships_for(at, doc)),
{
}

/// The package's own name in front of an item path changes nothing: the path
/// with it and the path without it name the same item, so every lookup of the
/// one is the lookup of the other. The path itself must not begin with the
/// package's name, since the name is taken off once only.
pub proof fn lemma_package_prefix_is_dropped(
    cache: DocCacheView,
    package: Seq<char>,
    path: Seq<char>,
    version: Option<Seq<char>>,
)
    requires
        !starts_with(path, package_prefix(package)),
    ensures
        normalized_path(package, package_prefix(package) + path) == path,
        locate(package, package_prefix(package) + path, version) == locate(package, path, version),
        begin_item(cache, locate(package, package_prefix(package) + path, version)) == begin_item(
            cache,
            locate(package, path, version),
        ),
        begin_examples(cache, locate(package, package_prefix(package) + path, version))
            == begin_examples(cache, locate(package, path, version)),
        begin_relationships(cache, locate(package, package_prefix(package) + path, version))
            == begin_relationships(cache, locate(package, path, version)),
{
    let prefix = package_prefix(package);
    let whole = prefix + path;
    assert(whole.subrange(0, prefix.len() as int) =~= prefix);
    assert(whole.skip(prefix.len() as int) =~= path);
}

} // verus!
