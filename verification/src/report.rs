//! The relationship report: the findings of an analysis written out as a
//! document with fixed sections.

use crate::kind::{guess_kind, inferred_kind, ItemKind};
use crate::list::{lines, split_lines, TextList};
use crate::locator::{item_name, name_of};
use crate::relationships::{findings_in, survey, Findings, FindingsView};
use crate::text::{
    append, append_str, append_then, begins_with, begins_with_str, chars_of, contains, framed,
    includes_str, lemma_contains_at_end, lemma_contains_itself, lemma_contains_within,
    lemma_starts_with_extended, starts_with, strip_end_char, strip_start_all, trim, trimmed,
    without_leading_all, without_trailing,
};
use vstd::prelude::*;

verus! {

pub const RESULT_NOTE: &'static str =
    "  - This is a Result type that must be handled with `?`, `.unwrap()`, or pattern matching\n";

pub const OPTION_NOTE: &'static str = "  - This is an Option type that may contain None\n";

pub const REFERENCE_NOTE: &'static str =
    "  - This is a borrowed reference - no ownership transfer\n";

pub const IMPL_TRAIT_NOTE: &'static str =
    "  - This accepts any type that implements the specified trait\n";

pub const RETURN_TYPES_HEAD: &'static str =
    "## Return Types\n\nThis item's methods return the following types:\n\n";

pub const PARAMETER_TYPES_HEAD: &'static str =
    "## Parameter Types\n\nThis item's methods accept the following types as parameters:\n\n";

pub const ASSOCIATED_TYPES_HEAD: &'static str =
    "## Associated Types\n\nThis trait has the following associated types that implementors must define:\n\n";

pub const IMPLEMENTED_TRAITS_HEAD: &'static str =
    "## Implemented Traits\n\nThis type implements the following traits:\n\n";

pub const STRUCT_RESULT_HANDLING: &'static str =
    "\n// For methods returning Result\nlet result = instance.some_method()?; // Use ? to propagate errors\n// Or handle errors explicitly\nmatch instance.some_method() {\n    Ok(value) => { /* use value */ },\n    Err(err) => { /* handle error */ },\n}\n";

pub const MATCH_ARMS: &'static str =
    "    Ok(value) => { /* use value */ },\n    Err(err) => { /* handle error */ },\n}\n";

pub const OTHER_USAGE: &'static str =
    "Specific usage patterns depend on the exact nature of this item.\nPlease refer to the main documentation for details.\n\n";

pub const RESULT_GUIDANCE: &'static str =
    "## Working with Result types\n\nThis item works with Result types. Here are common patterns:\n\n```rust\n// Propagate errors with ?\nfn example() -> Result<(), Error> {\n    let value = some_function()?; // ? unwraps Ok or returns Err early\n    Ok(())\n}\n\n// Handle errors with match\nmatch some_function() {\n    Ok(value) => { /* use value */ },\n    Err(error) => { /* handle error */ },\n}\n\n// Using combinators\nsome_function()\n    .map(|value| /* transform value */)\n    .map_err(|error| /* transform error */)\n```\n\n";

pub const OPTION_GUIDANCE: &'static str =
    "## Working with Option types\n\nThis item works with Option types. Here are common patterns:\n\n```rust\n// Check if value exists\nif let Some(value) = optional_value {\n    // Use value\n}\n\n// Provide a default with unwrap_or\nlet value = optional_value.unwrap_or(default_value);\n\n// Using combinators\noptional_value\n    .map(|value| /* transform value */)\n    .filter(|value| /* predicate */)\n```\n\n";

/// A type that is written as a `Result`.
pub open spec fn is_result(t: Seq<char>) -> bool {
    starts_with(t, "Result<"@)
}

/// A type that is written as an `Option`.
pub open spec fn is_option(t: Seq<char>) -> bool {
    starts_with(t, "Option<"@)
}

/// Some type among `types` is written as a `Result`.
pub open spec fn any_result(types: Seq<Seq<char>>) -> bool {
    exists|i: int| 0 <= i < types.len() && is_result(#[trigger] types[i])
}

/// Some type among `types` is written as an `Option`.
pub open spec fn any_option(types: Seq<Seq<char>>) -> bool {
    exists|i: int| 0 <= i < types.len() && is_option(#[trigger] types[i])
}

/// What a `Result` or an `Option` wraps: `t` without those words in front,
/// without closing angle brackets at its end, and without surrounding white space.
pub open spec fn unwrapped(t: Seq<char>) -> Seq<char> {
    trim(strip_end_char(strip_start_all(strip_start_all(t, "Result<"@), "Option<"@), '>'))
}

/// One entry of a list.
pub open spec fn bullet(t: Seq<char>) -> Seq<char> {
    "- `"@ + t + "` \n"@
}

/// The guidance that follows a return type written as a `Result`.
pub open spec fn result_note(t: Seq<char>) -> Seq<char> {
    if is_result(t) {
        RESULT_NOTE@ + "  - When successful, it returns `"@ + unwrapped(t) + "`\n"@
    } else {
        Seq::empty()
    }
}

/// The guidance that follows a return type written as an `Option`.
pub open spec fn option_note(t: Seq<char>) -> Seq<char> {
    if is_option(t) {
        OPTION_NOTE@ + "  - When Some, it contains `"@ + unwrapped(t) + "`\n"@
    } else {
        Seq::empty()
    }
}

/// The entry of one return type, with its guidance.
pub open spec fn return_entry(t: Seq<char>) -> Seq<char> {
    bullet(t) + result_note(t) + option_note(t)
}

/// The guidance that follows a parameter type: for a reference, else for an
/// `impl` of a trait.
pub open spec fn parameter_note(t: Seq<char>) -> Seq<char> {
    if starts_with(t, seq!['&']) {
        REFERENCE_NOTE@
    } else if contains(t, "impl "@) {
        IMPL_TRAIT_NOTE@
    } else {
        Seq::empty()
    }
}

/// The entry of one parameter type, with its guidance.
pub open spec fn parameter_entry(t: Seq<char>) -> Seq<char> {
    bullet(t) + parameter_note(t)
}

/// The entries of the first `n` return types.
pub open spec fn return_entries(types: Seq<Seq<char>>, n: int) -> Seq<char>
    decreases n,
{
    if n <= 0 {
        Seq::empty()
    } else {
        return_entries(types, n - 1) + return_entry(types[n - 1])
    }
}

/// The entries of the first `n` parameter types.
pub open spec fn parameter_entries(types: Seq<Seq<char>>, n: int) -> Seq<char>
    decreases n,
{
    if n <= 0 {
        Seq::empty()
    } else {
        parameter_entries(types, n - 1) + parameter_entry(types[n - 1])
    }
}

/// The first `n` of `items` as a list.
pub open spec fn bullets(items: Seq<Seq<char>>, n: int) -> Seq<char>
    decreases n,
{
    if n <= 0 {
        Seq::empty()
    } else {
        bullets(items, n - 1) + bullet(items[n - 1])
    }
}

/// The section on return types. It is left out where none was found.
pub open spec fn return_section(types: Seq<Seq<char>>) -> Seq<char> {
    if types.len() == 0 {
        Seq::empty()
    } else {
        RETURN_TYPES_HEAD@ + return_entries(types, types.len() as int) + "\n"@
    }
}

/// The section on parameter types. It is left out where none was found.
pub open spec fn parameter_section(types: Seq<Seq<char>>) -> Seq<char> {
    if types.len() == 0 {
        Seq::empty()
    } else {
        PARAMETER_TYPES_HEAD@ + parameter_entries(types, types.len() as int) + "\n"@
    }
}

/// The section on associated types. It is left out where none was found.
pub open spec fn associated_section(types: Seq<Seq<char>>) -> Seq<char> {
    if types.len() == 0 {
        Seq::empty()
    } else {
        ASSOCIATED_TYPES_HEAD@ + bullets(types, types.len() as int) + "\n"@
    }
}

/// The section on implemented traits. It is left out where none was found.
pub open spec fn implemented_section(traits: Seq<Seq<char>>) -> Seq<char> {
    if traits.len() == 0 {
        Seq::empty()
    } else {
        IMPLEMENTED_TRAITS_HEAD@ + bullets(traits, traits.len() as int) + "\n"@
    }
}

/// The word by which the report calls an item of the given kind.
pub open spec fn kind_word(kind: Option<ItemKind>) -> Seq<char> {
    match kind {
        Some(ItemKind::Struct) => "struct"@,
        Some(ItemKind::Enum) => "enum"@,
        Some(ItemKind::Trait) => "trait"@,
        Some(ItemKind::Function) => "function"@,
        _ => "item"@,
    }
}

/// The title and the overview.
pub open spec fn overview(
    package: Seq<char>,
    item_path: Seq<char>,
    name: Seq<char>,
    kind: Option<ItemKind>,
) -> Seq<char> {
    "# Type Relationships for "@ + item_path + "\n\n## Overview\n\n`"@ + name + "` is a "@
        + kind_word(kind) + " in the `"@ + package + "` crate.\n\n"@
}

/// How to handle the `Result` of a method, shown where some return type is one.
pub open spec fn struct_result_handling(return_types: Seq<Seq<char>>) -> Seq<char> {
    if any_result(return_types) {
        STRUCT_RESULT_HANDLING@
    } else {
        Seq::empty()
    }
}

/// The usage patterns of a struct.
pub open spec fn struct_usage(name: Seq<char>, return_types: Seq<Seq<char>>) -> Seq<char> {
    "### Creating a "@ + name
        + "\n\n```rust\n// Using new() if available\nlet instance = "@ + name
        + "::new();\n\n// Using a builder pattern if available\n// let instance = "@ + name
        + "::builder().build();\n```\n\n### Using "@ + name
        + " methods\n\n```rust\n// Call methods on the instance\n// instance.some_method();\n"@
        + struct_result_handling(return_types) + "```\n\n"@
}

/// One line of a trait implementation for each of the first `n` associated types.
pub open spec fn associated_lines(types: Seq<Seq<char>>, n: int) -> Seq<char>
    decreases n,
{
    if n <= 0 {
        Seq::empty()
    } else {
        associated_lines(types, n - 1) + "    type "@ + types[n - 1]
            + " = /* Your type here */;\n"@
    }
}

/// The usage patterns of a trait.
pub open spec fn trait_usage(name: Seq<char>, associated_types: Seq<Seq<char>>) -> Seq<char> {
    "### Implementing the "@ + name + " trait\n\n```rust\nstruct MyType;\n\nimpl "@ + name
        + " for MyType {\n"@ + associated_lines(associated_types, associated_types.len() as int)
        + "    // Implement required methods\n}\n```\n\n### Using types that implement "@ + name
        + "\n\n```rust\nfn use_trait<T: "@ + name
        + ">(value: T) {\n    // Use trait methods on value\n}\n```\n\n"@
}

/// The usage patterns of an enum.
pub open spec fn enum_usage(name: Seq<char>) -> Seq<char> {
    "### Pattern matching on "@ + name + "\n\n```rust\nlet value: "@ + name
        + " = /* ... */;\n\nmatch value {\n    // Match each variant\n    "@ + name
        + "::Variant1 => { /* handle variant 1 */ },\n    "@ + name
        + "::Variant2(data) => { /* handle variant 2 with data */ },\n    // ...\n}\n```\n\n"@
}

/// How to handle the `Result` of a function, shown where some return type is one.
pub open spec fn function_result_handling(
    name: Seq<char>,
    return_types: Seq<Seq<char>>,
) -> Seq<char> {
    if any_result(return_types) {
        "\n// If the function returns Result\nlet value = "@ + name
            + "(/* parameters */)?; // Use ? to propagate errors\n// Or handle errors explicitly\nmatch "@
            + name + "(/* parameters */) {\n"@ + MATCH_ARMS@
    } else {
        Seq::empty()
    }
}

/// The usage patterns of a function.
pub open spec fn function_usage(name: Seq<char>, return_types: Seq<Seq<char>>) -> Seq<char> {
    "### Calling the "@ + name + " function\n\n```rust\nlet result = "@ + name
        + "(/* parameters */);\n"@ + function_result_handling(name, return_types) + "```\n\n"@
}

/// The section on common usage patterns, which depends on the item's kind.
pub open spec fn usage_section(
    kind: Option<ItemKind>,
    name: Seq<char>,
    found: FindingsView,
) -> Seq<char> {
    "## Common Usage Patterns\n\n"@ + match kind {
        Some(ItemKind::Struct) => struct_usage(name, found.return_types),
        Some(ItemKind::Trait) => trait_usage(name, found.associated_types),
        Some(ItemKind::Enum) => enum_usage(name),
        Some(ItemKind::Function) => function_usage(name, found.return_types),
        _ => OTHER_USAGE@,
    }
}

/// The closing guidance on `Result`, shown where some return type is one.
pub open spec fn result_guidance(return_types: Seq<Seq<char>>) -> Seq<char> {
    if any_result(return_types) {
        RESULT_GUIDANCE@
    } else {
        Seq::empty()
    }
}

/// The closing guidance on `Option`, shown where some return type is one.
pub open spec fn option_guidance(return_types: Seq<Seq<char>>) -> Seq<char> {
    if any_option(return_types) {
        OPTION_GUIDANCE@
    } else {
        Seq::empty()
    }
}

/// The whole report.
pub open spec fn report(
    found: FindingsView,
    package: Seq<char>,
    item_path: Seq<char>,
    name: Seq<char>,
    kind: Option<ItemKind>,
) -> Seq<char> {
    overview(package, item_path, name, kind) + return_section(found.return_types)
        + parameter_section(found.parameter_types) + associated_section(found.associated_types)
        + implemented_section(found.implemented_traits) + usage_section(kind, name, found)
        + result_guidance(found.return_types) + option_guidance(found.return_types)
}

/// Whether some type among `types` is written as a `Result`.
pub fn has_result(types: &TextList) -> (r: bool)
    ensures
        r == any_result(types@),
{
    let mut i: usize = 0;
    while i < types.len()
        invariant
            i <= types@.len(),
            forall|j: int| 0 <= j < i ==> !is_result(#[trigger] types@[j]),
        decreases types@.len() - i,
    {
        if begins_with_str(types.get(i), "Result<") {
            return true;
        }
        i += 1;
    }
    false
}

/// Whether some type among `types` is written as an `Option`.
pub fn has_option(types: &TextList) -> (r: bool)
    ensures
        r == any_option(types@),
{
    let mut i: usize = 0;
    while i < types.len()
        invariant
            i <= types@.len(),
            forall|j: int| 0 <= j < i ==> !is_option(#[trigger] types@[j]),
        decreases types@.len() - i,
    {
        if begins_with_str(types.get(i), "Option<") {
            return true;
        }
        i += 1;
    }
    false
}

/// What a `Result` or an `Option` wraps.
pub fn unwrap_type(t: &Vec<char>) -> (r: Vec<char>)
    ensures
        r@ == unwrapped(t@),
{
    let result = chars_of("Result<");
    let option = chars_of("Option<");
    let t = without_leading_all(t, &result);
    let t = without_leading_all(&t, &option);
    let t = without_trailing(&t, '>');
    trimmed(&t)
}

/// The entry of one return type, with its guidance.
pub fn write_return_entry(t: &Vec<char>) -> (r: Vec<char>)
    ensures
        r@ == return_entry(t@),
{
    let mut r = framed("- `", t, "` \n");
    let mut note: Vec<char> = Vec::new();
    if begins_with_str(t, "Result<") {
        note = chars_of(RESULT_NOTE);
        append_str(&mut note, "  - When successful, it returns `");
        append_then(&mut note, &unwrap_type(t), "`\n");
    }
    append(&mut r, &note);
    let mut note: Vec<char> = Vec::new();
    if begins_with_str(t, "Option<") {
        note = chars_of(OPTION_NOTE);
        append_str(&mut note, "  - When Some, it contains `");
        append_then(&mut note, &unwrap_type(t), "`\n");
    }
    append(&mut r, &note);
    r
}

/// The entry of one parameter type, with its guidance.
pub fn write_parameter_entry(t: &Vec<char>) -> (r: Vec<char>)
    ensures
        r@ == parameter_entry(t@),
{
    let mut r = framed("- `", t, "` \n");
    let mut amp: Vec<char> = Vec::new();
    amp.push('&');
    assert(amp@ =~= seq!['&']);
    if begins_with(t, &amp) {
        append_str(&mut r, REFERENCE_NOTE);
    } else if includes_str(t, "impl ") {
        append_str(&mut r, IMPL_TRAIT_NOTE);
    } else {
        assert(r@ + Seq::<char>::empty() =~= r@);
    }
    r
}

/// The section on return types.
pub fn write_return_section(types: &TextList) -> (r: Vec<char>)
    ensures
        r@ == return_section(types@),
{
    if types.len() == 0 {
        return Vec::new();
    }
    let mut entries: Vec<char> = Vec::new();
    let mut i: usize = 0;
    while i < types.len()
        invariant
            i <= types@.len(),
            entries@ == return_entries(types@, i as int),
        decreases types@.len() - i,
    {
        append(&mut entries, &write_return_entry(types.get(i)));
        i += 1;
    }
    framed(RETURN_TYPES_HEAD, &entries, "\n")
}

/// The section on parameter types.
pub fn write_parameter_section(types: &TextList) -> (r: Vec<char>)
    ensures
        r@ == parameter_section(types@),
{
    if types.len() == 0 {
        return Vec::new();
    }
    let mut entries: Vec<char> = Vec::new();
    let mut i: usize = 0;
    while i < types.len()
        invariant
            i <= types@.len(),
            entries@ == parameter_entries(types@, i as int),
        decreases types@.len() - i,
    {
        append(&mut entries, &write_parameter_entry(types.get(i)));
        i += 1;
    }
    framed(PARAMETER_TYPES_HEAD, &entries, "\n")
}

/// The texts of `items` as a list.
pub fn write_bullets(items: &TextList) -> (r: Vec<char>)
    ensures
        r@ == bullets(items@, items@.len() as int),
{
    let mut r: Vec<char> = Vec::new();
    let mut i: usize = 0;
    while i < items.len()
        invariant
            i <= items@.len(),
            r@ == bullets(items@, i as int),
        decreases items@.len() - i,
    {
        append(&mut r, &framed("- `", items.get(i), "` \n"));
        i += 1;
    }
    r
}

/// The section on associated types.
pub fn write_associated_section(types: &TextList) -> (r: Vec<char>)
    ensures
        r@ == associated_section(types@),
{
    if types.len() == 0 {
        return Vec::new();
    }
    framed(ASSOCIATED_TYPES_HEAD, &write_bullets(types), "\n")
}

/// The section on implemented traits.
pub fn write_implemented_section(traits: &TextList) -> (r: Vec<char>)
    ensures
        r@ == implemented_section(traits@),
{
    if traits.len() == 0 {
        return Vec::new();
    }
    framed(IMPLEMENTED_TRAITS_HEAD, &write_bullets(traits), "\n")
}

/// The word by which the report calls an item of the given kind.
pub fn kind_word_str(kind: Option<ItemKind>) -> (r: &'static str)
    ensures
        r@ == kind_word(kind),
{
    match kind {
        Some(ItemKind::Struct) => "struct",
        Some(ItemKind::Enum) => "enum",
        Some(ItemKind::Trait) => "trait",
        Some(ItemKind::Function) => "function",
        _ => "item",
    }
}

/// The title and the overview.
pub fn write_overview(
    package: &Vec<char>,
    item_path: &Vec<char>,
    name: &Vec<char>,
    kind: Option<ItemKind>,
) -> (r: Vec<char>)
    ensures
        r@ == overview(package@, item_path@, name@, kind),
{
    let mut r = framed("# Type Relationships for ", item_path, "\n\n## Overview\n\n`");
    append_then(&mut r, name, "` is a ");
    append_str(&mut r, kind_word_str(kind));
    append_str(&mut r, " in the `");
    append_then(&mut r, package, "` crate.\n\n");
    r
}

/// The usage patterns of a struct.
pub fn write_struct_usage(name: &Vec<char>, return_types: &TextList) -> (r: Vec<char>)
    ensures
        r@ == struct_usage(name@, return_types@),
{
    let mut r = framed(
        "### Creating a ",
        name,
        "\n\n```rust\n// Using new() if available\nlet instance = ",
    );
    append_then(
        &mut r,
        name,
        "::new();\n\n// Using a builder pattern if available\n// let instance = ",
    );
    append_then(&mut r, name, "::builder().build();\n```\n\n### Using ");
    append_then(
        &mut r,
        name,
        " methods\n\n```rust\n// Call methods on the instance\n// instance.some_method();\n",
    );
    let handling = if has_result(return_types) {
        chars_of(STRUCT_RESULT_HANDLING)
    } else {
        Vec::new()
    };
    append_then(&mut r, &handling, "```\n\n");
    r
}

/// The usage patterns of a trait.
pub fn write_trait_usage(name: &Vec<char>, associated_types: &TextList) -> (r: Vec<char>)
    ensures
        r@ == trait_usage(name@, associated_types@),
{
    let mut lines: Vec<char> = Vec::new();
    let mut i: usize = 0;
    while i < associated_types.len()
        invariant
            i <= associated_types@.len(),
            lines@ == associated_lines(associated_types@, i as int),
        decreases associated_types@.len() - i,
    {
        append_str(&mut lines, "    type ");
        append_then(&mut lines, associated_types.get(i), " = /* Your type here */;\n");
        i += 1;
    }
    let mut r = framed("### Implementing the ", name, " trait\n\n```rust\nstruct MyType;\n\nimpl ");
    append_then(&mut r, name, " for MyType {\n");
    append_then(
        &mut r,
        &lines,
        "    // Implement required methods\n}\n```\n\n### Using types that implement ",
    );
    append_then(&mut r, name, "\n\n```rust\nfn use_trait<T: ");
    append_then(&mut r, name, ">(value: T) {\n    // Use trait methods on value\n}\n```\n\n");
    r
}

/// The usage patterns of an enum.
pub fn write_enum_usage(name: &Vec<char>) -> (r: Vec<char>)
    ensures
        r@ == enum_usage(name@),
{
    let mut r = framed("### Pattern matching on ", name, "\n\n```rust\nlet value: ");
    append_then(
        &mut r,
        name,
        " = /* ... */;\n\nmatch value {\n    // Match each variant\n    ",
    );
    append_then(&mut r, name, "::Variant1 => { /* handle variant 1 */ },\n    ");
    append_then(
        &mut r,
        name,
        "::Variant2(data) => { /* handle variant 2 with data */ },\n    // ...\n}\n```\n\n",
    );
    r
}

/// The usage patterns of a function.
pub fn write_function_usage(name: &Vec<char>, return_types: &TextList) -> (r: Vec<char>)
    ensures
        r@ == function_usage(name@, return_types@),
{
    let mut handling: Vec<char> = Vec::new();
    if has_result(return_types) {
        handling = framed(
            "\n// If the function returns Result\nlet value = ",
            name,
            "(/* parameters */)?; // Use ? to propagate errors\n// Or handle errors explicitly\nmatch ",
        );
        append_then(&mut handling, name, "(/* parameters */) {\n");
        append_str(&mut handling, MATCH_ARMS);
    }
    let mut r = framed("### Calling the ", name, " function\n\n```rust\nlet result = ");
    append_then(&mut r, name, "(/* parameters */);\n");
    append_then(&mut r, &handling, "```\n\n");
    r
}

/// The section on common usage patterns.
pub fn write_usage_section(kind: Option<ItemKind>, name: &Vec<char>, found: &Findings) -> (r: Vec<
    char,
>)
    ensures
        r@ == usage_section(kind, name@, found@),
{
    let mut r = chars_of("## Common Usage Patterns\n\n");
    match kind {
        Some(ItemKind::Struct) => {
            append(&mut r, &write_struct_usage(name, &found.return_types));
        },
        Some(ItemKind::Trait) => {
            append(&mut r, &write_trait_usage(name, &found.associated_types));
        },
        Some(ItemKind::Enum) => {
            append(&mut r, &write_enum_usage(name));
        },
        Some(ItemKind::Function) => {
            append(&mut r, &write_function_usage(name, &found.return_types));
        },
        _ => {
            append_str(&mut r, OTHER_USAGE);
        },
    }
    r
}

/// Writes the whole report.
pub fn write_report(
    found: &Findings,
    package: &Vec<char>,
    item_path: &Vec<char>,
    name: &Vec<char>,
    kind: Option<ItemKind>,
) -> (r: Vec<char>)
    ensures
        r@ == report(found@, package@, item_path@, name@, kind),
{
    let mut r = write_overview(package, item_path, name, kind);
    append(&mut r, &write_return_section(&found.return_types));
    append(&mut r, &write_parameter_section(&found.parameter_types));
    append(&mut r, &write_associated_section(&found.associated_types));
    append(&mut r, &write_implemented_section(&found.implemented_traits));
    append(&mut r, &write_usage_section(kind, name, found));
    let guidance = if has_result(&found.return_types) {
        chars_of(RESULT_GUIDANCE)
    } else {
        Vec::new()
    };
    append(&mut r, &guidance);
    let guidance = if has_option(&found.return_types) {
        chars_of(OPTION_GUIDANCE)
    } else {
        Vec::new()
    };
    append(&mut r, &guidance);
    r
}

/// The relationship report for the item at `item_path` of `package`, whose
/// documentation is `doc`.
pub open spec fn relationship_report(
    doc: Seq<char>,
    package: Seq<char>,
    item_path: Seq<char>,
) -> Seq<char> {
    report(
        findings_in(lines(doc)),
        package,
        item_path,
        item_name(item_path),
        inferred_kind(doc, item_name(item_path)),
    )
}

/// Analyses the documentation `doc` of the item at `item_path` of `package`
/// and writes the relationship report.
pub fn analyze_relationships(doc: &Vec<char>, package: &Vec<char>, item_path: &Vec<char>) -> (r:
    Vec<char>)
    ensures
        r@ == relationship_report(doc@, package@, item_path@),
{
    let found = survey(&split_lines(doc));
    let name = name_of(item_path);
    let kind = guess_kind(doc, &name);
    write_report(&found, package, item_path, &name, kind)
}

/// The title of the report of the item at `item_path`.
pub open spec fn report_title(item_path: Seq<char>) -> Seq<char> {
    "# Type Relationships for "@ + item_path
}

/// Whatever was found, a report begins with its title, which names the item
/// by its path. Where some return type is written as a `Result`, the report
/// holds the guidance on `Result`, and likewise for `Option`.
pub proof fn lemma_report_shape(
    found: FindingsView,
    package: Seq<char>,
    item_path: Seq<char>,
    name: Seq<char>,
    kind: Option<ItemKind>,
)
    ensures
        starts_with(report(found, package, item_path, name, kind), report_title(item_path)),
        any_result(found.return_types) ==> contains(
            report(found, package, item_path, name, kind),
            RESULT_GUIDANCE@,
        ),
        any_option(found.return_types) ==> contains(
            report(found, package, item_path, name, kind),
            OPTION_GUIDANCE@,
        ),
{
    let title = report_title(item_path);
    lemma_contains_itself(title);
    let a = title + "\n\n## Overview\n\n`"@;
    lemma_starts_with_extended(title, "\n\n## Overview\n\n`"@, title);
    let b = a + name;
    lemma_starts_with_extended(a, name, title);
    let c = b + "` is a "@;
    lemma_starts_with_extended(b, "` is a "@, title);
    let d = c + kind_word(kind);
    lemma_starts_with_extended(c, kind_word(kind), title);
    let e = d + " in the `"@;
    lemma_starts_with_extended(d, " in the `"@, title);
    let f = e + package;
    lemma_starts_with_extended(e, package, title);
    let g = f + "` crate.\n\n"@;
    lemma_starts_with_extended(f, "` crate.\n\n"@, title);
    assert(g == overview(package, item_path, name, kind));
    let h = g + return_section(found.return_types);
    lemma_starts_with_extended(g, return_section(found.return_types), title);
    let i = h + parameter_section(found.parameter_types);
    lemma_starts_with_extended(h, parameter_section(found.parameter_types), title);
    let j = i + associated_section(found.associated_types);
    lemma_starts_with_extended(i, associated_section(found.associated_types), title);
    let k = j + implemented_section(found.implemented_traits);
    lemma_starts_with_extended(j, implemented_section(found.implemented_traits), title);
    let l = k + usage_section(kind, name, found);
    lemma_starts_with_extended(k, usage_section(kind, name, found), title);
    let m = l + result_guidance(found.return_types);
    lemma_starts_with_extended(l, result_guidance(found.return_types), title);
    let n = m + option_guidance(found.return_types);
    lemma_starts_with_extended(m, option_guidance(found.return_types), title);
    assert(n == report(found, package, item_path, name, kind));
    if any_result(found.return_types) {
        lemma_contains_itself(RESULT_GUIDANCE@);
        lemma_contains_within(l, RESULT_GUIDANCE@, option_guidance(found.return_types), RESULT_GUIDANCE@);
    }
    if any_option(found.return_types) {
        lemma_contains_itself(OPTION_GUIDANCE@);
        lemma_contains_at_end(m, OPTION_GUIDANCE@, OPTION_GUIDANCE@);
    }
}

} // verus!
