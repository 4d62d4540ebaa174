use cratedocs_mcp::locator::ItemLocator;
use cratedocs_mcp::resolver::{
    Conversion, CrateStep, DerivedStep, FetchOutcome, ItemStep, SearchStep,
};
use cratedocs_mcp::router::CargoDocRouter;

/// A service whose requests are answered from pages kept in memory, and which
/// counts the requests that it makes.
struct Service {
    router: CargoDocRouter,
    fetches: usize,
}

fn crate_page(name: &str, version: &str) -> String {
    format!(
        "<html><head><title>{name} - Rust</title></head><body>\
         <h1>Crate {name}</h1>\
         <p>Version {version} of <code>{name}</code>, a library for light and shade.</p>\
         <h2>Metadata</h2>\
         <ul><li>License: MIT</li><li>Repository: example.org/{name}</li>\
         <li>Dependencies: none</li></ul>\
         <p>This page describes the crate, its modules and the items they export.</p>\
         </body></html>"
    )
}

const LUMIN_STRUCT_PAGE: &str = "<html><body><h1>Struct lumin::core::Lumin</h1>\
<pre>pub struct Lumin { /* private fields */ }</pre>\
<p>The entry point of the library.</p></body></html>";

const VEC_STRUCT_PAGE: &str = "<html><body><h1>Struct std::vec::Vec</h1>\
<p>A contiguous growable array type.</p>\
<h2>Examples</h2>\
<pre><code class=\"language-rust\">let mut vec = Vec::new();\nvec.push(1);</code></pre>\
</body></html>";

const RESULT_ENUM_PAGE: &str = "<html><body><h1>Enum std::result::Result</h1>\
<pre>pub enum Result&lt;T, E&gt; { Ok(T), Err(E) }</pre>\
<p>pub fn and&lt;U&gt;(self, res: Result&lt;U, E&gt;) -&gt; Result&lt;U, E&gt;</p>\
<p>pub fn ok(self) -&gt; Option&lt;T&gt;</p>\
</body></html>";

const SERIALIZE_TRAIT_PAGE: &str = "<html><body><h1>Trait serde::Serialize</h1>\
<pre>pub trait Serialize { }</pre>\
<p>A value that can be serialized.</p></body></html>";

const SEARCH_JSON: &str = "{\"crates\":[{\"name\":\"lumin\",\"description\":\"light\",\"downloads\":7}],\"meta\":{\"total\":1}}";

fn host(url: &str) -> FetchOutcome {
    let found = |page: &str| FetchOutcome::Body(page.to_string());
    match url {
        "https://docs.rs/crate/lumin/" => found(&crate_page("lumin", "0.2.3")),
        "https://docs.rs/crate/lumin/0.1.0/" => found(&crate_page("lumin", "0.1.0")),
        "https://docs.rs/crate/serde/" => found(&crate_page("serde", "1.0.152")),
        "https://docs.rs/crate/regex/" => found(&crate_page("regex", "1.10.0")),
        "https://docs.rs/lumin/lumin/core/struct.Lumin.html" => found(LUMIN_STRUCT_PAGE),
        "https://docs.rs/std/std/vec/struct.Vec.html" => found(VEC_STRUCT_PAGE),
        "https://docs.rs/std/std/result/enum.Result.html" => found(RESULT_ENUM_PAGE),
        "https://docs.rs/serde/serde/trait.Serialize.html" => found(SERIALIZE_TRAIT_PAGE),
        "https://crates.io/api/v1/crates?q=lumin&per_page=5" => found(SEARCH_JSON),
        _ => FetchOutcome::Refused("404 Not Found".to_string()),
    }
}

/// Converts a page as the service does.
fn convert(page: &str) -> Conversion {
    Conversion::Markdown(html2md::parse_html(page))
}

impl Service {
    fn new() -> Self {
        Service { router: CargoDocRouter::new(), fetches: 0 }
    }

    fn fetch(&mut self, url: &str) -> FetchOutcome {
        self.fetches += 1;
        host(url)
    }

    fn lookup_crate(&mut self, crate_name: String, version: Option<String>) -> String {
        let mut step = self.router.lookup_crate(crate_name, version);
        loop {
            match step {
                CrateStep::Done(doc) => return doc,
                CrateStep::Fetch(url, lookup) => {
                    let outcome = self.fetch(&url);
                    step = CargoDocRouter::crate_fetched(lookup, outcome);
                }
                CrateStep::Convert(page, lookup) => {
                    return self.router.crate_converted(lookup, convert(&page));
                }
            }
        }
    }

    fn resolve(&mut self, first: ItemStep) -> String {
        let mut step = first;
        loop {
            match step {
                ItemStep::Done(payload) => return payload,
                ItemStep::Fetch(url, lookup) => {
                    let outcome = self.fetch(&url);
                    step = CargoDocRouter::item_fetched(lookup, outcome);
                }
                ItemStep::Convert(page, lookup) => {
                    return self.router.item_converted(lookup, convert(&page));
                }
            }
        }
    }

    fn lookup_item_tool(
        &mut self,
        crate_name: String,
        item_path: String,
        version: Option<String>,
    ) -> String {
        let first = self.router.lookup_item(crate_name, item_path, version);
        self.resolve(first)
    }

    fn document(&mut self, at: &ItemLocator) -> String {
        let at = ItemLocator {
            package: at.package.clone(),
            item_path: at.item_path.clone(),
            version: at.version.clone(),
        };
        let first = self.router.resolve_item(at);
        self.resolve(first)
    }

    fn search_crates(&mut self, query: String, limit: Option<u32>) -> String {
        let url = CargoDocRouter::search_crates(query, limit);
        let outcome = self.fetch(&url);
        match CargoDocRouter::search_fetched(outcome) {
            SearchStep::Done(payload) => payload,
            SearchStep::Convert(page) => CargoDocRouter::search_converted(convert(&page)),
        }
    }

    fn lookup_item_examples(
        &mut self,
        crate_name: String,
        item_path: String,
        version: Option<String>,
    ) -> String {
        match self.router.lookup_item_examples(crate_name, item_path, version) {
            DerivedStep::Done(examples) => examples,
            DerivedStep::Resolve(at) => {
                let doc = self.document(&at);
                let examples = CargoDocRouter::write_examples(&at, &doc);
                self.router.keep_examples(&at, examples)
            }
        }
    }

    fn analyze_type_relationships(
        &mut self,
        crate_name: String,
        item_path: String,
        version: Option<String>,
    ) -> String {
        match self.router.analyze_type_relationships(crate_name, item_path, version) {
            DerivedStep::Done(relationships) => relationships,
            DerivedStep::Resolve(at) => {
                let doc = self.document(&at);
                let report = CargoDocRouter::write_relationships(&at, &doc);
                self.router.keep_relationships(&at, report)
            }
        }
    }
}

#[test]
fn test_lookup_crate() {
    let mut router = Service::new();
    let result = router.lookup_crate("lumin".to_string(), None);

    assert!(result.contains("lumin"));
    assert!(!result.is_empty());
    assert!(result.len() > 100);
    assert_eq!(router.fetches, 1);
    assert_eq!(router.router.cache.get("lumin"), Some(result));
}

#[test]
fn test_lookup_crate_with_version() {
    let mut router = Service::new();
    let result = router.lookup_crate("lumin".to_string(), Some("0.1.0".to_string()));

    assert!(result.contains("lumin"));
    assert!(!result.is_empty());
    assert!(result.contains("0.1.0") || result.contains("Version"));
    assert!(
        result.to_lowercase().contains("license")
            || result.to_lowercase().contains("repository")
            || result.to_lowercase().contains("dependencies")
    );
    assert!(result.contains("0.1.0") && !result.contains("0.2.3"));
}

#[test]
fn test_lookup_item() {
    let mut router = Service::new();
    let result = router.lookup_item_tool("lumin".to_string(), "core::Lumin".to_string(), None);

    assert!(!result.is_empty());
    assert!(result.len() > 10);
    assert!(result.contains("Lumin"));
    assert_eq!(router.fetches, 1);
}

#[test]
fn test_search_crates() {
    let mut router = Service::new();
    let result = router.search_crates("lumin".to_string(), Some(5));

    assert!(result.contains("lumin"));
    assert!(!result.is_empty());

    if result.starts_with('{') {
        assert!(result.contains("\"crates\"") || result.contains("\"total\""));
        assert!(result.contains("\"description\"") || result.contains("\"name\""));
    } else {
        assert!(result.to_lowercase().contains("results") || result.to_lowercase().contains("crates"));
        assert!(
            result.contains("downloads") || result.contains("version") || result.contains("description")
        );
    }
    assert_eq!(result, SEARCH_JSON);
}

#[test]
fn test_content_transformation() {
    let mut router = Service::new();

    let serde_result = router.lookup_crate("serde".to_string(), None);

    assert!(!serde_result.is_empty());
    assert!(serde_result.len() > 100);
    assert!(!serde_result.contains("<html>"));
    assert!(!serde_result.contains("<li>"));
}

#[test]
fn test_cache_in_lookup() {
    let mut router = Service::new();

    let first_result = router.lookup_crate("regex".to_string(), None);
    assert!(!first_result.is_empty());
    assert_eq!(router.fetches, 1);

    let second_result = router.lookup_crate("regex".to_string(), None);

    assert_eq!(first_result, second_result);
    assert_eq!(router.fetches, 1);
}

#[test]
fn test_lookup_item_examples() {
    let mut router = Service::new();

    let examples = router.lookup_item_examples("std".to_string(), "vec::Vec".to_string(), None);

    assert!(!examples.is_empty());
    assert!(examples.contains("Usage Examples"));
    assert!(examples.contains("```rust") || examples.contains("```"));
    assert!(examples.contains("let mut vec = Vec::new();\nvec.push(1);"));
    assert!(!examples.contains("This is a generated example."));
}

#[test]
fn test_analyze_type_relationships() {
    let mut router = Service::new();

    let relationships =
        router.analyze_type_relationships("std".to_string(), "result::Result".to_string(), None);

    assert!(!relationships.is_empty());
    assert!(relationships.contains("Type Relationships"));
    assert!(
        relationships.contains("Usage Patterns")
            || relationships.contains("Working with Result types")
            || relationships.contains("impl")
            || relationships.contains("match")
    );
    assert!(relationships.starts_with("# Type Relationships for result::Result\n\n"));
    assert_eq!(router.fetches, 2);
}

#[test]
fn test_generated_examples() {
    let mut router = Service::new();

    let examples = router.lookup_item_examples("lumin".to_string(), "core::Lumin".to_string(), None);

    assert!(!examples.is_empty());
    assert!(examples.contains("Usage Examples"));
}

#[test]
fn test_relationship_analysis_impl() {
    let mut router = Service::new();

    let relationships =
        router.analyze_type_relationships("serde".to_string(), "Serialize".to_string(), None);

    assert!(!relationships.is_empty());
    assert!(
        relationships.contains("Type Relationships")
            || relationships.contains("trait")
            || relationships.contains("impl")
    );
    assert!(
        relationships.contains("Usage Patterns")
            || relationships.contains("Implementing")
            || relationships.contains("Common")
    );
    assert!(relationships.contains("`Serialize` is a trait in the `serde` crate."));
    assert!(relationships.contains("### Implementing the Serialize trait"));
}

#[test]
fn derived_requests_share_the_resolved_document() {
    let mut service = Service::new();
    let examples = service.lookup_item_examples("std".to_string(), "vec::Vec".to_string(), None);
    assert_eq!(service.fetches, 1);
    let report = service.analyze_type_relationships("std".to_string(), "vec::Vec".to_string(), None);
    assert_eq!(service.fetches, 1);
    let again = service.lookup_item_examples("std".to_string(), "std::vec::Vec".to_string(), None);
    assert_eq!(service.fetches, 1);
    assert_eq!(examples, again);
    assert!(report.starts_with("# Type Relationships for vec::Vec\n\n"));
    assert!(service.router.cache.get("std:vec::Vec").is_some());
    assert!(service.router.cache.get("examples:std:vec::Vec").is_some());
    assert!(service.router.cache.get("relationships:std:vec::Vec").is_some());
}

#[test]
fn an_item_that_is_not_found_is_looked_for_again() {
    let mut service = Service::new();
    let first = service.lookup_item_tool("lumin".to_string(), "Missing".to_string(), None);
    assert_eq!(service.fetches, 5);
    let second = service.lookup_item_tool("lumin".to_string(), "Missing".to_string(), None);
    assert_eq!(service.fetches, 10);
    assert_eq!(first, second);
    assert_eq!(
        first,
        "Failed to fetch item documentation. No matching item found. Last error: Status code: 404 Not Found"
    );
}

#[test]
fn examples_of_an_item_that_is_not_found_are_generated() {
    let mut service = Service::new();
    let examples = service.lookup_item_examples("lumin".to_string(), "Missing".to_string(), None);
    assert!(examples.starts_with("# Usage Examples\n\n"));
    assert!(examples.contains("```rust\n"));
    assert!(examples.contains("use lumin::Missing;"));
}
