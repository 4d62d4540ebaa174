use cratedocs_mcp::list::{split_lines, TextList};
use cratedocs_mcp::relationships::{
    add_line_parameters, associated_type, implemented_trait, parameter_type, parameters,
    return_type, survey,
};
use cratedocs_mcp::report::{analyze_relationships, unwrap_type, OPTION_GUIDANCE, RESULT_GUIDANCE};
use cratedocs_mcp::text::{chars_of, string_of};

fn report(doc: &str, package: &str, item_path: &str) -> String {
    string_of(&analyze_relationships(&chars_of(doc), &chars_of(package), &chars_of(item_path)))
}

fn strings(list: &TextList) -> Vec<String> {
    let mut out = Vec::new();
    let mut i = 0;
    while i < list.len() {
        out.push(string_of(list.get(i)));
        i += 1;
    }
    out
}

fn opt(v: Option<Vec<char>>) -> Option<String> {
    v.map(|t| string_of(&t))
}

fn some(s: &str) -> Option<String> {
    Some(s.to_string())
}

const CLIENT_DOC: &str = "pub struct Client\nimpl Clone for Client\nimpl<T> From<T> for Client\npub fn get(&self, url: &str) -> Result<Response, Error> {\npub fn name(&self) -> Option<String>;\npub fn with(self, other: Self) -> Self\npub fn send(&mut self, body: impl Into<Body>, n: usize) -> usize,\ntype Output = Response;\ntype Item: Clone;\n";

#[test]
fn a_signature_gives_its_return_and_parameter_types() {
    let out = report("pub fn foo(&self, x: i32) -> Result<String, Error>", "demo", "foo");
    let returns = out.find("## Return Types").unwrap();
    let params = out.find("## Parameter Types").unwrap();
    let usage = out.find("## Common Usage Patterns").unwrap();
    assert!(returns < params && params < usage);
    let return_section = &out[returns..params];
    let parameter_section = &out[params..usage];
    assert!(return_section.contains("- `Result<String, Error>` \n"));
    assert!(return_section.contains(
        "  - This is a Result type that must be handled with `?`, `.unwrap()`, or pattern matching\n"
    ));
    assert!(parameter_section.contains("- `i32` \n"));
    assert!(!parameter_section.contains("&self"));
    assert!(out.contains("## Working with Result types"));
}

#[test]
fn the_report_of_one_signature_in_full() {
    let expected = String::new()
        + "# Type Relationships for foo\n\n## Overview\n\n`foo` is a function in the `demo` crate.\n\n"
        + "## Return Types\n\nThis item's methods return the following types:\n\n"
        + "- `Result<String, Error>` \n"
        + "  - This is a Result type that must be handled with `?`, `.unwrap()`, or pattern matching\n"
        + "  - When successful, it returns `String, Error`\n\n"
        + "## Parameter Types\n\nThis item's methods accept the following types as parameters:\n\n"
        + "- `i32` \n\n"
        + "## Common Usage Patterns\n\n### Calling the foo function\n\n```rust\n"
        + "let result = foo(/* parameters */);\n\n// If the function returns Result\n"
        + "let value = foo(/* parameters */)?; // Use ? to propagate errors\n"
        + "// Or handle errors explicitly\nmatch foo(/* parameters */) {\n"
        + "    Ok(value) => { /* use value */ },\n    Err(err) => { /* handle error */ },\n}\n```\n\n"
        + "## Working with Result types\n\nThis item works with Result types. Here are common patterns:\n\n"
        + "```rust\n// Propagate errors with ?\nfn example() -> Result<(), Error> {\n"
        + "    let value = some_function()?; // ? unwraps Ok or returns Err early\n    Ok(())\n}\n\n"
        + "// Handle errors with match\nmatch some_function() {\n    Ok(value) => { /* use value */ },\n"
        + "    Err(error) => { /* handle error */ },\n}\n\n// Using combinators\nsome_function()\n"
        + "    .map(|value| /* transform value */)\n    .map_err(|error| /* transform error */)\n```\n\n";
    assert_eq!(
        report("pub fn foo(&self, x: i32) -> Result<String, Error>", "demo", "foo"),
        expected
    );
}

#[test]
fn the_report_of_a_struct_in_full() {
    let expected = String::new()
        + "# Type Relationships for Client\n\n## Overview\n\n`Client` is a struct in the `web` crate.\n\n"
        + "## Return Types\n\nThis item's methods return the following types:\n\n"
        + "- `Result<Response, Error>` \n"
        + "  - This is a Result type that must be handled with `?`, `.unwrap()`, or pattern matching\n"
        + "  - When successful, it returns `Response, Error`\n"
        + "- `Option<String>` \n  - This is an Option type that may contain None\n"
        + "  - When Some, it contains `String`\n"
        + "- `usize` \n\n"
        + "## Parameter Types\n\nThis item's methods accept the following types as parameters:\n\n"
        + "- `&str` \n  - This is a borrowed reference - no ownership transfer\n"
        + "- `impl Into<Body>` \n  - This accepts any type that implements the specified trait\n"
        + "- `usize` \n\n"
        + "## Associated Types\n\nThis trait has the following associated types that implementors must define:\n\n"
        + "- `Output` \n- `Item` \n\n"
        + "## Implemented Traits\n\nThis type implements the following traits:\n\n"
        + "- `Clone` \n- `T> From<T` \n\n"
        + "## Common Usage Patterns\n\n### Creating a Client\n\n```rust\n// Using new() if available\n"
        + "let instance = Client::new();\n\n// Using a builder pattern if available\n"
        + "// let instance = Client::builder().build();\n```\n\n### Using Client methods\n\n```rust\n"
        + "// Call methods on the instance\n// instance.some_method();\n\n"
        + "// For methods returning Result\nlet result = instance.some_method()?; // Use ? to propagate errors\n"
        + "// Or handle errors explicitly\nmatch instance.some_method() {\n"
        + "    Ok(value) => { /* use value */ },\n    Err(err) => { /* handle error */ },\n}\n```\n\n"
        + RESULT_GUIDANCE
        + OPTION_GUIDANCE;
    assert_eq!(report(CLIENT_DOC, "web", "Client"), expected);
}

#[test]
fn the_guidance_blocks_read_as_written() {
    assert_eq!(
        OPTION_GUIDANCE,
        "## Working with Option types\n\nThis item works with Option types. Here are common patterns:\n\n```rust\n// Check if value exists\nif let Some(value) = optional_value {\n    // Use value\n}\n\n// Provide a default with unwrap_or\nlet value = optional_value.unwrap_or(default_value);\n\n// Using combinators\noptional_value\n    .map(|value| /* transform value */)\n    .filter(|value| /* predicate */)\n```\n\n"
    );
    assert!(RESULT_GUIDANCE.starts_with("## Working with Result types\n\n"));
}

#[test]
fn the_report_of_a_trait_in_full() {
    let doc = "pub trait Shape\ntype Unit;\nfn area(&self) -> f64;\n";
    let expected = String::new()
        + "# Type Relationships for geo::Shape\n\n## Overview\n\n`Shape` is a trait in the `geometry` crate.\n\n"
        + "## Return Types\n\nThis item's methods return the following types:\n\n- `f64` \n\n"
        + "## Associated Types\n\nThis trait has the following associated types that implementors must define:\n\n"
        + "- `Unit` \n\n"
        + "## Common Usage Patterns\n\n### Implementing the Shape trait\n\n```rust\nstruct MyType;\n\n"
        + "impl Shape for MyType {\n    type Unit = /* Your type here */;\n"
        + "    // Implement required methods\n}\n```\n\n### Using types that implement Shape\n\n```rust\n"
        + "fn use_trait<T: Shape>(value: T) {\n    // Use trait methods on value\n}\n```\n\n";
    assert_eq!(report(doc, "geometry", "geo::Shape"), expected);
}

#[test]
fn the_report_of_an_enum_in_full() {
    let expected = String::new()
        + "# Type Relationships for Color\n\n## Overview\n\n`Color` is a enum in the `paint` crate.\n\n"
        + "## Common Usage Patterns\n\n### Pattern matching on Color\n\n```rust\n"
        + "let value: Color = /* ... */;\n\nmatch value {\n    // Match each variant\n"
        + "    Color::Variant1 => { /* handle variant 1 */ },\n"
        + "    Color::Variant2(data) => { /* handle variant 2 with data */ },\n    // ...\n}\n```\n\n";
    assert_eq!(report("pub enum Color", "paint", "Color"), expected);
}

#[test]
fn the_report_of_a_function_without_results() {
    let expected = String::new()
        + "# Type Relationships for run\n\n## Overview\n\n`run` is a function in the `app` crate.\n\n"
        + "## Return Types\n\nThis item's methods return the following types:\n\n"
        + "- `Option<u8>` \n  - This is an Option type that may contain None\n"
        + "  - When Some, it contains `u8`\n\n"
        + "## Common Usage Patterns\n\n### Calling the run function\n\n```rust\n"
        + "let result = run(/* parameters */);\n```\n\n"
        + OPTION_GUIDANCE;
    assert_eq!(report("pub fn run() -> Option<u8>", "app", "run"), expected);
}

#[test]
fn the_report_of_an_item_of_unknown_kind() {
    let expected = String::new()
        + "# Type Relationships for result::Result\n\n## Overview\n\n`Result` is a item in the `std` crate.\n\n"
        + "## Common Usage Patterns\n\n"
        + "Specific usage patterns depend on the exact nature of this item.\n"
        + "Please refer to the main documentation for details.\n\n";
    assert_eq!(report("No matching item found.", "std", "result::Result"), expected);
    assert_eq!(report("", "std", "result::Result"), expected);
}

#[test]
fn a_result_among_the_return_types_brings_its_guidance() {
    let doc = "enum Result\nfn ok(self) -> Result<T, E>;\n";
    let out = report(doc, "std", "result::Result");
    assert!(out.starts_with("# Type Relationships for result::Result\n\n"));
    assert!(out.contains("`Result` is a enum in the `std` crate."));
    assert!(out.ends_with(RESULT_GUIDANCE));
    assert!(!out.contains("## Working with Option types"));
}

#[test]
fn return_types_are_read_after_the_arrow() {
    let read = |line: &str| opt(return_type(&chars_of(line)));
    assert_eq!(read("fn a() -> u8"), some("u8"));
    assert_eq!(read("fn a() ->   Vec<u8>  {"), some("Vec<u8>"));
    assert_eq!(read("fn a() -> u8;;"), some("u8"));
    assert_eq!(read("fn a() -> u8 ; "), some("u8"));
    assert_eq!(read("fn a() -> u8 ;{"), some("u8"));
    assert_eq!(read("fn a() -> u8 {;"), some("u8 {"));
    assert_eq!(read("fn a() -> u8 ,"), some("u8 "));
    assert_eq!(read("fn a() -> u8 {{;; ,"), some("u8 {{;; "));
    assert_eq!(read("fn a() -> A -> B"), some("A -> B"));
    assert_eq!(read("-> u8 fn a()"), some("u8 fn a()"));
    assert_eq!(read("fn a() ->"), None);
    assert_eq!(read("fn a() -> {"), None);
    assert_eq!(read("fn a() -> Self"), None);
    assert_eq!(read("fn a() -> Box<Self>"), None);
    assert_eq!(read("fn a() -> self"), some("self"));
    assert_eq!(read("fn() -> u8"), None);
    assert_eq!(read("a -> u8"), None);
    assert_eq!(read("fn a()"), None);
    assert_eq!(read(""), None);
}

#[test]
fn the_parameter_list_stands_between_the_first_parentheses() {
    let read = |line: &str| opt(parameters(&chars_of(line)));
    assert_eq!(read("fn a( x: u8 , y: u8 )"), some("x: u8 , y: u8"));
    assert_eq!(read("fn a()"), some(""));
    assert_eq!(read("fn a(f: fn(u8) -> u8, g: u8)"), some("f: fn(u8"));
    assert_eq!(read(") fn a(x: u8)"), some("x: u8"));
    assert_eq!(read("fn a(x: u8"), None);
    assert_eq!(read("fn a) x"), None);
    assert_eq!(read(""), None);
}

#[test]
fn a_parameter_type_is_what_follows_the_first_colon() {
    let read = |param: &str| opt(parameter_type(&chars_of(param)));
    assert_eq!(read(" x: i32"), some("i32"));
    assert_eq!(read("e: std::io::Error"), some("std::io::Error"));
    assert_eq!(read("x:u8"), some("u8"));
    assert_eq!(read("&self"), None);
    assert_eq!(read("x"), None);
    assert_eq!(read("x: "), None);
    assert_eq!(read("x: Self"), None);
    assert_eq!(read("x: &Self"), None);
    assert_eq!(read("this: &self"), None);
    assert_eq!(read("this: self"), None);
    assert_eq!(read("this: &mut self"), None);
    assert_eq!(read("this: &mut  self"), some("&mut  self"));
    assert_eq!(read(""), None);
}

#[test]
fn parameter_types_are_kept_once_each() {
    let mut found = TextList::new();
    add_line_parameters(&mut found, &chars_of("fn a(x: u8, y: u16, z: u8) -> u8"));
    add_line_parameters(&mut found, &chars_of("fn b(x: u16, y: u32) -> u8"));
    add_line_parameters(&mut found, &chars_of("fn c(x: u64)"));
    add_line_parameters(&mut found, &chars_of("c(x: i8) -> u8"));
    add_line_parameters(&mut found, &chars_of("fn d x: i8 -> u8"));
    assert_eq!(strings(&found), vec!["u8", "u16", "u32"]);
}

#[test]
fn an_associated_type_ends_at_a_colon_before_an_equals_sign_before_a_semicolon() {
    let read = |line: &str| opt(associated_type(&chars_of(line)));
    assert_eq!(read("type Output = Response;"), some("Output"));
    assert_eq!(read("type Item: Clone;"), some("Item"));
    assert_eq!(read("    type Error;"), some("Error"));
    assert_eq!(read("type A = B; // note: c"), some("A = B; // note"));
    assert_eq!(read("type A = B"), some("A"));
    assert_eq!(read("type type X;"), some("type X"));
    assert_eq!(read("type ;"), some(""));
    assert_eq!(read("type Output"), None);
    assert_eq!(read("; type Output"), None);
    assert_eq!(read("typeOutput;"), None);
    assert_eq!(read(""), None);
}

#[test]
fn an_implemented_trait_stands_between_impl_and_for() {
    let read = |line: &str| opt(implemented_trait(&chars_of(line)));
    assert_eq!(read("impl Clone for Client"), some("Clone"));
    assert_eq!(read("impl<T> From<T> for Client"), some("T> From<T"));
    assert_eq!(read("impl <Debug> for X"), some("Debug"));
    assert_eq!(read("impl  for X"), None);
    assert_eq!(read("implfor X"), None);
    assert_eq!(read("impl for X"), None);
    assert_eq!(read("for X impl Y"), None);
    assert_eq!(read("impl Clone"), None);
    assert_eq!(read("for X"), None);
    assert_eq!(read("a formal implementation"), None);
    assert_eq!(read("implements much for little"), some("ements much"));
}

#[test]
fn findings_keep_the_order_of_first_appearance() {
    let found = survey(&split_lines(&chars_of(CLIENT_DOC)));
    assert_eq!(
        strings(&found.return_types),
        vec!["Result<Response, Error>", "Option<String>", "usize"]
    );
    assert_eq!(strings(&found.parameter_types), vec!["&str", "impl Into<Body>", "usize"]);
    assert_eq!(strings(&found.associated_types), vec!["Output", "Item"]);
    assert_eq!(strings(&found.implemented_traits), vec!["Clone", "T> From<T"]);
}

#[test]
fn repeated_findings_are_kept_once_but_associated_types_are_not() {
    let doc = "fn a(x: u8) -> u8\nfn b(x: u8) -> u8\nimpl A for B\nimpl A for C\ntype T;\ntype T;\n";
    let found = survey(&split_lines(&chars_of(doc)));
    assert_eq!(strings(&found.return_types), vec!["u8"]);
    assert_eq!(strings(&found.parameter_types), vec!["u8"]);
    assert_eq!(strings(&found.implemented_traits), vec!["A"]);
    assert_eq!(strings(&found.associated_types), vec!["T", "T"]);
}

#[test]
fn a_document_without_declarations_has_no_findings() {
    let found = survey(&split_lines(&chars_of("Just words.\nMore words.\n")));
    assert_eq!(found.return_types.len(), 0);
    assert_eq!(found.parameter_types.len(), 0);
    assert_eq!(found.associated_types.len(), 0);
    assert_eq!(found.implemented_traits.len(), 0);
}

#[test]
fn what_a_result_or_an_option_wraps() {
    let read = |t: &str| string_of(&unwrap_type(&chars_of(t)));
    assert_eq!(read("Result<String, Error>"), "String, Error");
    assert_eq!(read("Option<Vec<u8>>"), "Vec<u8");
    assert_eq!(read("Result<Option<u8>, E>"), "u8>, E");
    assert_eq!(read("Option<Result<u8, E>>"), "Result<u8, E");
    assert_eq!(read("Result<Result< u8 >>"), "u8");
    assert_eq!(read("u8"), "u8");
    assert_eq!(read(""), "");
}

#[test]
fn a_long_document_is_surveyed_in_one_pass() {
    let mut doc = String::from("pub struct Big\n");
    for i in 0..5000 {
        doc.push_str(&format!("pub fn get_{}(&self, key: K{}) -> V{};\n", i, i % 50, i % 70));
    }
    let found = survey(&split_lines(&chars_of(&doc)));
    assert_eq!(found.return_types.len(), 70);
    assert_eq!(found.parameter_types.len(), 50);
    assert_eq!(string_of(found.return_types.get(69)), "V69");
    let out = report(&doc, "pkg", "Big");
    assert!(out.contains("`Big` is a struct in the `pkg` crate."));
    assert!(out.contains("- `K49` \n"));
}
