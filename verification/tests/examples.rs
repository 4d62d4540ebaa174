use cratedocs_mcp::examples::{
    extract_examples, fence, generate_examples, read_examples_section, read_numbered_blocks,
    SectionScan,
};
use cratedocs_mcp::kind::{guess_kind, guess_kind_lowered, ItemKind};
use cratedocs_mcp::list::split_lines;
use cratedocs_mcp::text::{chars_of, string_of};

fn examples(doc: &str, package: &str, item_path: &str) -> String {
    string_of(&extract_examples(&chars_of(doc), &chars_of(package), &chars_of(item_path)))
}

fn section(doc: &str) -> String {
    string_of(&read_examples_section(&split_lines(&chars_of(doc))).out)
}

fn blocks(doc: &str) -> String {
    string_of(&read_numbered_blocks(&split_lines(&chars_of(doc))))
}

fn kind(doc: &str, name: &str) -> Option<ItemKind> {
    guess_kind(&chars_of(doc), &chars_of(name))
}

#[test]
fn an_examples_section_is_taken_as_it_stands() {
    let doc = "# Widget\n\nSome text.\n\n## Examples\n\nRun it:\n\n```rust\nlet w = Widget::new();\n```\n";
    let out = examples(doc, "gadgets", "Widget");
    assert_eq!(
        out,
        "# Usage Examples\n\n\nRun it:\n\n\n**Example usage:**\n\n```rust\nlet w = Widget::new();\n```\n"
    );
    assert!(out.contains("```rust\nlet w = Widget::new();\n```\n"));
}

#[test]
fn blocks_outside_a_section_are_numbered() {
    let doc = "Intro\n```\nfirst\n```\nmiddle\n  ```rust\nsecond\n  ```\n";
    assert_eq!(
        examples(doc, "gadgets", "Widget"),
        "# Usage Examples\n\nThe following examples demonstrate how to use this item:\n\n## Example 1\n\n```\nfirst\n```\n## Example 2\n\n  ```rust\nsecond\n  ```\n"
    );
}

#[test]
fn a_document_without_blocks_gets_a_generated_example() {
    let out = examples("A plain description of the Lumin struct.", "lumin", "core::Lumin");
    assert_eq!(
        out,
        "# Usage Examples\n\n## Creating and using a Lumin instance\n\n```rust\nuse lumin::core::Lumin;\n\n// Create a new Lumin instance\nlet instance = Lumin::new();\n\n// Use methods on the Lumin instance\n// instance.some_method();\n```\n\nThis is a generated example. Check the actual documentation for the correct method names and usage patterns.\n"
    );
    assert!(out.contains("Lumin"));
    assert!(out.contains("This is a generated example."));
}

#[test]
fn the_generated_example_of_a_trait() {
    assert_eq!(
        examples("The Serialize trait.", "serde", "Serialize"),
        "# Usage Examples\n\n## Implementing the Serialize trait\n\n```rust\nuse serde::Serialize;\n\nstruct MyType;\n\nimpl Serialize for MyType {\n    // Implement the required trait methods here\n}\n```\n\nThis is a generated example. Check the actual documentation for the required trait methods.\n"
    );
}

#[test]
fn the_generated_example_of_an_enum() {
    assert_eq!(
        examples("Color is an enum.", "paint", "Color"),
        "# Usage Examples\n\n## Using the Color enum\n\n```rust\nuse paint::Color;\n\n// Match on Color variants\nlet value = Color::Variant;\n\nmatch value {\n    Color::Variant => {},\n    // Match other variants...\n}\n```\n\nThis is a generated example. Check the actual documentation for the correct enum variants.\n"
    );
}

#[test]
fn the_generated_example_of_a_function() {
    assert_eq!(
        examples("pub fn run()", "app", "run"),
        "# Usage Examples\n\n## Calling the run function\n\n```rust\nuse app::run;\n\n// Call the function\nlet result = run();\n```\n\nThis is a generated example. Check the actual documentation for the correct function parameters.\n"
    );
}

#[test]
fn the_generated_example_of_an_unknown_kind() {
    assert_eq!(
        examples("nothing else", "pkg", "thing"),
        "# Usage Examples\n\n## Generic Example\n\n```rust\n// Example for using thing\nuse pkg::thing;\n\n// Add your usage code here\n```\n\nThis is a generated example. No specific examples were found in the documentation.\nPlease refer to the main documentation for usage information.\n"
    );
    assert_eq!(
        string_of(&generate_examples(
            Some(ItemKind::Macro),
            &chars_of("pkg"),
            &chars_of("m::thing"),
            &chars_of("thing")
        )),
        "# Usage Examples\n\n## Generic Example\n\n```rust\n// Example for using m::thing\nuse pkg::m::thing;\n\n// Add your usage code here\n```\n\nThis is a generated example. No specific examples were found in the documentation.\nPlease refer to the main documentation for usage information.\n"
    );
}

#[test]
fn the_empty_document_gets_a_generated_example() {
    let out = examples("", "pkg", "a::B");
    assert!(out.starts_with("# Usage Examples\n\n## Generic Example\n\n"));
    assert!(out.contains("use pkg::a::B;"));
}

#[test]
fn a_section_without_a_block_falls_through_to_the_generated_example() {
    let doc = "## Examples\nJust prose about the struct Foo.\n";
    assert_eq!(section(doc), "# Usage Examples\n\nJust prose about the struct Foo.\n");
    let out = examples(doc, "pkg", "Foo");
    assert!(out.starts_with("# Usage Examples\n\n## Creating and using a Foo instance\n\n"));
    assert!(!out.contains("Just prose"));
}

#[test]
fn a_section_wins_over_blocks_before_it() {
    let doc = "```\nearly\n```\n# Examples\n```\nlate\n```\n";
    assert_eq!(examples(doc, "pkg", "Foo"), "# Usage Examples\n\n```\nlate\n```\n");
}

#[test]
fn headings_are_recognised_without_regard_to_case_and_margin() {
    assert_eq!(section("  ## EXAMPLES  \nx\n"), "# Usage Examples\n\nx\n");
    assert_eq!(section("# examples\nx"), "# Usage Examples\n\nx\n");
    assert_eq!(section("### Examples\nx\n"), "");
    assert_eq!(section("## Example\nx\n"), "");
    assert_eq!(section("Examples\nx\n"), "");
    assert_eq!(section(""), "");
}

#[test]
fn the_heading_of_another_section_is_dropped_and_the_rest_kept() {
    let doc = "## Examples\n```\ncode\n```\n## Panics\ntext after\n## More examples\nlast\n";
    assert_eq!(
        section(doc),
        "# Usage Examples\n\n```\ncode\n```\ntext after\n## More examples\nlast\n"
    );
}

#[test]
fn a_second_examples_heading_repeats_the_title() {
    assert_eq!(
        section("## Examples\na\n## Examples\nb\n"),
        "# Usage Examples\n\na\n# Usage Examples\n\nb\n"
    );
}

#[test]
fn a_block_is_annotated_only_after_text() {
    let doc = "## Examples\n```\none\n```\n```\ntwo\n```\n";
    assert_eq!(section(doc), "# Usage Examples\n\n```\none\n```\n```\ntwo\n```\n");
    let doc = "## Examples\n```\none\n```\n\n```\ntwo\n```\n";
    assert_eq!(section(doc), "# Usage Examples\n\n```\none\n```\n\n```\ntwo\n```\n");
    let doc = "## Examples\n```\none\n```\nThen:\n```\ntwo\n```\n```\nthree\n```\n";
    assert_eq!(
        section(doc),
        "# Usage Examples\n\n```\none\n```\nThen:\n\n**Example usage:**\n\n```\ntwo\n```\n```\nthree\n```\n"
    );
}

#[test]
fn a_block_is_kept_as_it_stands() {
    let doc = "## Examples\n```\n#[derive(Debug)]\nstruct A;\n# hidden line\n## Examples\n  \n```\n";
    assert_eq!(
        section(doc),
        "# Usage Examples\n\n```\n#[derive(Debug)]\nstruct A;\n# hidden line\n## Examples\n  \n```\n"
    );
    assert_eq!(examples(doc, "pkg", "A"), section(doc));
}

#[test]
fn text_inside_a_block_is_no_reason_for_an_annotation() {
    let doc = "## Examples\n```\nwords in code\n```\n```\nmore\n```\n";
    assert!(!section(doc).contains("**Example usage:**"));
}

#[test]
fn the_scan_can_be_fed_line_by_line() {
    let mut scan = SectionScan::new();
    scan.take(&chars_of("ignored"));
    assert!(!scan.collecting);
    assert_eq!(string_of(&scan.out), "");
    scan.take(&chars_of("## Examples"));
    assert!(scan.collecting && !scan.in_block && !scan.prose);
    scan.take(&chars_of("words"));
    assert!(scan.prose);
    scan.take(&chars_of("```"));
    assert!(scan.in_block && !scan.prose && scan.fenced);
    scan.take(&chars_of(""));
    scan.take(&chars_of("```"));
    assert!(!scan.in_block && !scan.prose);
    assert_eq!(
        string_of(&scan.out),
        "# Usage Examples\n\nwords\n\n**Example usage:**\n\n```\n\n```\n"
    );
}

#[test]
fn the_lowered_form_decides_what_a_heading_is() {
    let mut scan = SectionScan::new();
    scan.take_with(&chars_of("anything"), &chars_of("## examples"));
    assert!(scan.collecting);
    scan.take_with(&chars_of("#kept"), &chars_of("an example"));
    scan.take_with(&chars_of("#dropped"), &chars_of("#dropped"));
    scan.take_with(&chars_of(" #kept too"), &chars_of("#kept too"));
    assert_eq!(string_of(&scan.out), "# Usage Examples\n\n#kept\n #kept too\n");
}

#[test]
fn blocks_are_numbered_from_one() {
    assert_eq!(
        blocks("nothing here"),
        "# Usage Examples\n\nThe following examples demonstrate how to use this item:\n\n"
    );
    let mut doc = String::new();
    for _ in 0..12 {
        doc.push_str("```\nx\n```\n");
    }
    let out = blocks(&doc);
    assert!(out.contains("## Example 1\n\n```\nx\n```\n## Example 2\n\n"));
    assert!(out.contains("## Example 9\n\n```\nx\n```\n## Example 10\n\n"));
    assert!(out.ends_with("## Example 12\n\n```\nx\n```\n"));
    assert!(!out.contains("## Example 13"));
}

#[test]
fn an_unclosed_block_runs_to_the_end() {
    assert_eq!(
        blocks("a\n```\nb\nc"),
        "# Usage Examples\n\nThe following examples demonstrate how to use this item:\n\n## Example 1\n\n```\nb\nc\n"
    );
}

#[test]
fn a_fence_may_be_indented() {
    assert!(fence(&chars_of("```")));
    assert!(fence(&chars_of("   ```rust")));
    assert!(fence(&chars_of("\t````")));
    assert!(!fence(&chars_of("``")));
    assert!(!fence(&chars_of("text ```")));
    assert!(!fence(&chars_of("")));
}

#[test]
fn the_kind_is_guessed_in_a_fixed_order() {
    assert_eq!(kind("struct trait enum fn Foo", "Foo"), Some(ItemKind::Struct));
    assert_eq!(kind("fn enum trait Foo", "Foo"), Some(ItemKind::Trait));
    assert_eq!(kind("fn enum Foo", "Foo"), Some(ItemKind::Enum));
    assert_eq!(kind("fn Foo", "Foo"), Some(ItemKind::Function));
    assert_eq!(kind("macro Foo", "Foo"), None);
    assert_eq!(kind("struct Bar", "Foo"), None);
    assert_eq!(kind("", "Foo"), None);
}

#[test]
fn the_kind_is_guessed_without_regard_to_case() {
    assert_eq!(kind("THE LUMIN STRUCT", "Lumin"), Some(ItemKind::Struct));
    assert_eq!(kind("the lumin trait", "LUMIN"), Some(ItemKind::Trait));
    assert_eq!(kind("An ENUM named Ärger", "ÄRGER"), Some(ItemKind::Enum));
}

#[test]
fn the_guess_on_lowered_texts_is_exact_about_case() {
    assert_eq!(guess_kind_lowered(&chars_of("a struct foo"), &chars_of("foo")), Some(ItemKind::Struct));
    assert_eq!(guess_kind_lowered(&chars_of("a struct foo"), &chars_of("Foo")), None);
    assert_eq!(guess_kind_lowered(&chars_of("a STRUCT fn foo"), &chars_of("foo")), Some(ItemKind::Function));
    assert_eq!(guess_kind_lowered(&chars_of("struct"), &chars_of("")), Some(ItemKind::Struct));
}

#[test]
fn a_long_document_is_read_in_one_pass() {
    let mut doc = String::from("# Long\n\n## Examples\n\n");
    for i in 0..20000 {
        doc.push_str("Some prose about the thing.\n```rust\nlet x = ");
        doc.push_str(&i.to_string());
        doc.push_str(";\n```\n");
    }
    let out = examples(&doc, "pkg", "Thing");
    assert!(out.starts_with("# Usage Examples\n\n\nSome prose about the thing.\n\n**Example usage:**\n\n```rust\nlet x = 0;\n```\n"));
    assert!(out.ends_with("\n**Example usage:**\n\n```rust\nlet x = 19999;\n```\n"));
    assert_eq!(out.matches("**Example usage:**").count(), 20000);
}

#[test]
fn blocks_before_a_heading_without_a_block_are_numbered() {
    let doc = "```\na\n```\n## Examples\nprose only";
    assert_eq!(section(doc), "# Usage Examples\n\nprose only\n");
    let out = examples(doc, "pkg", "Foo");
    assert_eq!(
        out,
        "# Usage Examples\n\nThe following examples demonstrate how to use this item:\n\n## Example 1\n\n```\na\n```\n"
    );
    assert!(!out.contains("generated"));
    assert!(!out.contains("prose only"));
}

#[test]
fn a_section_without_a_block_in_a_document_without_blocks_gets_a_generated_example() {
    let doc = "## Examples\nsee below\n## Usage\nmore\n";
    assert!(examples(doc, "pkg", "Foo").contains("This is a generated example."));
    let doc = "# Examples\n";
    assert!(examples(doc, "pkg", "Foo").contains("This is a generated example."));
}

#[test]
fn an_item_of_unknown_kind_gets_a_snippet_that_says_it_is_generated() {
    let out = examples("nothing relevant here", "c", "Widget");
    assert_eq!(
        out,
        "# Usage Examples\n\n## Generic Example\n\n```rust\n// Example for using Widget\nuse c::Widget;\n\n// Add your usage code here\n```\n\nThis is a generated example. No specific examples were found in the documentation.\nPlease refer to the main documentation for usage information.\n"
    );
    assert_eq!(out.matches("```").count(), 2);
    assert!(out.contains("generated"));
}

#[test]
fn every_generated_snippet_says_that_it_is_generated() {
    let docs = ["a struct Foo", "a trait Foo", "an enum Foo", "fn Foo", "Foo", ""];
    for doc in docs {
        let out = examples(doc, "pkg", "Foo");
        assert!(out.contains("This is a generated example."), "{:?}", doc);
        assert!(out.contains("```rust\n"), "{:?}", doc);
    }
}

#[test]
fn three_backticks_inside_a_line_are_no_block() {
    let doc = "```\na\n```\n## Examples\nwrite ``` to open a block\n";
    let scan = read_examples_section(&split_lines(&chars_of(doc)));
    assert!(scan.collecting && !scan.fenced);
    assert_eq!(
        examples(doc, "pkg", "Foo"),
        "# Usage Examples\n\nThe following examples demonstrate how to use this item:\n\n## Example 1\n\n```\na\n```\n"
    );
    let doc = "## Examples\nwrite ``` to open a block\n";
    assert!(examples(doc, "pkg", "Foo").contains("This is a generated example."));
}

#[test]
fn a_section_with_a_block_is_marked() {
    let scan = read_examples_section(&split_lines(&chars_of("## Examples\ntext\n```\nx\n```\n")));
    assert!(scan.collecting && scan.fenced && !scan.in_block);
    let scan = read_examples_section(&split_lines(&chars_of("```\nx\n```\n## Examples\ntext\n")));
    assert!(scan.collecting && !scan.fenced);
    let scan = read_examples_section(&split_lines(&chars_of("```\nx\n```\n")));
    assert!(!scan.collecting && !scan.fenced);
}
