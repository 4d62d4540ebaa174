//! Usage examples for an item, taken from the text of its documentation.
//!
//! Three sources are tried in turn, and the first that gives a fenced block
//! is taken. What stands under an "Examples" heading comes first; then every
//! fenced block of the document, numbered; then a snippet made up from the
//! item's name and its likely kind, which says of itself that it is made up.

use crate::decimal::{decimal, write_decimal};
use crate::kind::{guess_kind, inferred_kind, ItemKind};
use crate::list::{lines, split_lines, TextList};
use crate::locator::{item_name, name_of};
use crate::text::{
    append, append_str, append_then, begins_with_str, chars_of, contains, framed, includes_str,
    is_space, lemma_contains, lemma_contains_at_end, lemma_contains_extended,
    lemma_contains_itself, lemma_contains_needs_first, lemma_contains_part,
    lemma_contains_within, lemma_find_from, lemma_starts_with_extended, lemma_trim,
    lowercase_of, lowered, occurs_at, position_of_char, same_str, starts_with, trim, trimmed,
};
use vstd::prelude::*;

verus! {

pub const TITLE: &'static str = "# Usage Examples\n\n";

pub const INTRODUCTION: &'static str =
    "The following examples demonstrate how to use this item:\n\n";

pub const ANNOTATION: &'static str = "\n**Example usage:**\n\n";

pub const FENCE: &'static str = "```";

pub const GENERATED_NOTE: &'static str = "This is a generated example.";

pub const STRUCT_DISCLAIMER: &'static str =
    "// instance.some_method();\n```\n\nThis is a generated example. Check the actual documentation for the correct method names and usage patterns.\n";

pub const TRAIT_DISCLAIMER: &'static str =
    " for MyType {\n    // Implement the required trait methods here\n}\n```\n\nThis is a generated example. Check the actual documentation for the required trait methods.\n";

pub const ENUM_DISCLAIMER: &'static str =
    "::Variant => {},\n    // Match other variants...\n}\n```\n\nThis is a generated example. Check the actual documentation for the correct enum variants.\n";

pub const FUNCTION_DISCLAIMER: &'static str =
    "();\n```\n\nThis is a generated example. Check the actual documentation for the correct function parameters.\n";

pub const GENERIC_DISCLAIMER: &'static str =
    ";\n\n// Add your usage code here\n```\n\nThis is a generated example. No specific examples were found in the documentation.\nPlease refer to the main documentation for usage information.\n";

/// A line that opens or closes a fenced block.
pub open spec fn is_fence(line: Seq<char>) -> bool {
    starts_with(trim(line), FENCE@)
}

/// A trimmed line in lowercase that is the heading of an examples section.
pub open spec fn is_examples_heading(lowered: Seq<char>) -> bool {
    lowered == "## examples"@ || lowered == "# examples"@
}

/// A heading of another section, given the line and its trimmed lowercase form.
pub open spec fn is_other_heading(line: Seq<char>, lowered: Seq<char>) -> bool {
    starts_with(line, seq!['#']) && !contains(lowered, "example"@)
}

/// Where the reading of an examples section stands.
pub struct SectionScan {
    /// An examples heading has been passed.
    pub collecting: bool,
    /// The last fence opened a block that is not closed yet.
    pub in_block: bool,
    /// Text outside of blocks was collected since the last annotation.
    pub prose: bool,
    /// A block was opened while collecting.
    pub fenced: bool,
    /// What was collected.
    pub out: Vec<char>,
}

/// The state of a `SectionScan` with its text as a sequence.
pub struct SectionScanView {
    pub collecting: bool,
    pub in_block: bool,
    pub prose: bool,
    pub fenced: bool,
    pub out: Seq<char>,
}

impl View for SectionScan {
    type V = SectionScanView;

    open spec fn view(&self) -> SectionScanView {
        SectionScanView {
            collecting: self.collecting,
            in_block: self.in_block,
            prose: self.prose,
            fenced: self.fenced,
            out: self.out@,
        }
    }
}

/// The scan before the first line.
pub open spec fn section_start() -> SectionScanView {
    SectionScanView {
        collecting: false,
        in_block: false,
        prose: false,
        fenced: false,
        out: Seq::empty(),
    }
}

/// The scan after one more line, given the line's trimmed lowercase form.
///
/// Inside a block every line is kept as it stands, and a fence closes the
/// block. Outside a block, an examples heading starts the collecting and is
/// replaced by the title. While collecting, the heading of another section is
/// dropped and every other line is kept. A fence that opens a block is
/// preceded by an annotation if text came since the last block; a fence is no
/// such text.
pub open spec fn section_step_with(
    s: SectionScanView,
    line: Seq<char>,
    lowered: Seq<char>,
) -> SectionScanView {
    if s.in_block {
        SectionScanView { in_block: !is_fence(line), out: s.out + line + "\n"@, ..s }
    } else if is_examples_heading(lowered) {
        SectionScanView { collecting: true, out: s.out + TITLE@, ..s }
    } else if !s.collecting || is_other_heading(line, lowered) {
        s
    } else if is_fence(line) {
        SectionScanView {
            collecting: true,
            in_block: true,
            prose: false,
            fenced: true,
            out: (if s.prose {
                s.out + ANNOTATION@
            } else {
                s.out
            }) + line + "\n"@,
        }
    } else {
        SectionScanView {
            prose: s.prose || trim(line).len() > 0,
            out: s.out + line + "\n"@,
            ..s
        }
    }
}

/// The scan after one more line.
pub open spec fn section_step(s: SectionScanView, line: Seq<char>) -> SectionScanView {
    section_step_with(s, line, lowercase_of(trim(line)))
}

/// The scan after the first `n` of `lines`.
pub open spec fn section_scan(lines: Seq<Seq<char>>, n: int) -> SectionScanView
    decreases n,
{
    if n <= 0 {
        section_start()
    } else {
        section_step(section_scan(lines, n - 1), lines[n - 1])
    }
}

/// What stands under the examples headings of a document.
pub open spec fn examples_section(lines: Seq<Seq<char>>) -> Seq<char> {
    section_scan(lines, lines.len() as int).out
}

/// Some fenced block stands under an examples heading of a document.
pub open spec fn section_holds_block(lines: Seq<Seq<char>>) -> bool {
    section_scan(lines, lines.len() as int).fenced
}

/// Where the collecting of fenced blocks stands.
pub struct BlockScan {
    /// The last fence opened a block that is not closed yet.
    pub in_block: bool,
    /// The number of blocks opened so far.
    pub count: usize,
    /// What was collected.
    pub out: Vec<char>,
}

/// The state of a `BlockScan` with its text as a sequence.
pub struct BlockScanView {
    pub in_block: bool,
    pub count: nat,
    pub out: Seq<char>,
}

impl View for BlockScan {
    type V = BlockScanView;

    open spec fn view(&self) -> BlockScanView {
        BlockScanView { in_block: self.in_block, count: self.count as nat, out: self.out@ }
    }
}

/// The heading of the `n`th block.
pub open spec fn block_heading(n: nat) -> Seq<char> {
    "## Example "@ + decimal(n) + "\n\n"@
}

/// The scan after one more line: a fence that opens a block is preceded by
/// the block's heading, and fences and the lines between them are kept.
pub open spec fn block_step(s: BlockScanView, line: Seq<char>) -> BlockScanView {
    if is_fence(line) {
        if s.in_block {
            BlockScanView { in_block: false, count: s.count, out: s.out + line + "\n"@ }
        } else {
            BlockScanView {
                in_block: true,
                count: s.count + 1,
                out: s.out + block_heading(s.count + 1) + line + "\n"@,
            }
        }
    } else if s.in_block {
        BlockScanView { out: s.out + line + "\n"@, ..s }
    } else {
        s
    }
}

/// The scan after the first `n` of `lines`.
pub open spec fn block_scan(lines: Seq<Seq<char>>, n: int) -> BlockScanView
    decreases n,
{
    if n <= 0 {
        BlockScanView { in_block: false, count: 0, out: TITLE@ + INTRODUCTION@ }
    } else {
        block_step(block_scan(lines, n - 1), lines[n - 1])
    }
}

/// Every fenced block of a document, numbered, under the title.
pub open spec fn numbered_blocks(lines: Seq<Seq<char>>) -> Seq<char> {
    block_scan(lines, lines.len() as int).out
}

/// The line that imports the item.
pub open spec fn import_line(package: Seq<char>, item_path: Seq<char>) -> Seq<char> {
    "use "@ + package + "::"@ + item_path
}

/// The made-up example for a struct.
pub open spec fn struct_example(
    package: Seq<char>,
    item_path: Seq<char>,
    name: Seq<char>,
) -> Seq<char> {
    "## Creating and using a "@ + name + " instance\n\n```rust\n"@ + import_line(
        package,
        item_path,
    ) + ";\n\n// Create a new "@ + name + " instance\nlet instance = "@ + name
        + "::new();\n\n// Use methods on the "@ + name + " instance\n"@ + STRUCT_DISCLAIMER@
}

/// The made-up example for a trait.
pub open spec fn trait_example(
    package: Seq<char>,
    item_path: Seq<char>,
    name: Seq<char>,
) -> Seq<char> {
    "## Implementing the "@ + name + " trait\n\n```rust\n"@ + import_line(package, item_path)
        + ";\n\nstruct MyType;\n\nimpl "@ + name + TRAIT_DISCLAIMER@
}

/// The made-up example for an enum.
pub open spec fn enum_example(
    package: Seq<char>,
    item_path: Seq<char>,
    name: Seq<char>,
) -> Seq<char> {
    "## Using the "@ + name + " enum\n\n```rust\n"@ + import_line(package, item_path)
        + ";\n\n// Match on "@ + name + " variants\nlet value = "@ + name
        + "::Variant;\n\nmatch value {\n    "@ + name + ENUM_DISCLAIMER@
}

/// The made-up example for a function.
pub open spec fn function_example(
    package: Seq<char>,
    item_path: Seq<char>,
    name: Seq<char>,
) -> Seq<char> {
    "## Calling the "@ + name + " function\n\n```rust\n"@ + import_line(package, item_path)
        + ";\n\n// Call the function\nlet result = "@ + name + FUNCTION_DISCLAIMER@
}

/// The made-up example for an item of no known kind.
pub open spec fn generic_example(package: Seq<char>, item_path: Seq<char>) -> Seq<char> {
    "## Generic Example\n\n```rust\n// Example for using "@ + item_path + "\n"@ + import_line(
        package,
        item_path,
    ) + GENERIC_DISCLAIMER@
}

/// The made-up examples document for an item of the given kind.
pub open spec fn generated_examples(
    kind: Option<ItemKind>,
    package: Seq<char>,
    item_path: Seq<char>,
    name: Seq<char>,
) -> Seq<char> {
    TITLE@ + match kind {
        Some(ItemKind::Struct) => struct_example(package, item_path, name),
        Some(ItemKind::Trait) => trait_example(package, item_path, name),
        Some(ItemKind::Enum) => enum_example(package, item_path, name),
        Some(ItemKind::Function) => function_example(package, item_path, name),
        _ => generic_example(package, item_path),
    }
}

/// What the document itself offers as examples: its examples section if that
/// holds a fenced block, else its fenced blocks, numbered.
pub open spec fn extracted_examples(doc: Seq<char>) -> Seq<char> {
    if section_holds_block(lines(doc)) {
        examples_section(lines(doc))
    } else {
        numbered_blocks(lines(doc))
    }
}

/// The examples document for an item: what its documentation offers, if that
/// holds a fence, and a made-up example for the item's likely kind otherwise.
pub open spec fn examples_document(
    doc: Seq<char>,
    package: Seq<char>,
    item_path: Seq<char>,
) -> Seq<char> {
    if contains(extracted_examples(doc), FENCE@) {
        extracted_examples(doc)
    } else {
        generated_examples(
            inferred_kind(doc, item_name(item_path)),
            package,
            item_path,
            item_name(item_path),
        )
    }
}

/// Whether `line` opens or closes a fenced block.
pub fn fence(line: &Vec<char>) -> (r: bool)
    ensures
        r == is_fence(line@),
{
    begins_with_str(&trimmed(line), FENCE)
}

impl SectionScan {
    /// The scan before the first line.
    pub fn new() -> (r: Self)
        ensures
            r@ == section_start(),
    {
        SectionScan {
            collecting: false,
            in_block: false,
            prose: false,
            fenced: false,
            out: Vec::new(),
        }
    }

    /// Takes one more line, whose trimmed lowercase form is `lowered`.
    pub fn take_with(&mut self, line: &Vec<char>, lowered: &Vec<char>)
        ensures
            final(self)@ == section_step_with(old(self)@, line@, lowered@),
    {
        if self.in_block {
            if fence(line) {
                self.in_block = false;
            }
            append_then(&mut self.out, line, "\n");
            return ;
        }
        if same_str(lowered, "## examples") || same_str(lowered, "# examples") {
            self.collecting = true;
            append_str(&mut self.out, TITLE);
            return ;
        }
        if !self.collecting {
            return ;
        }
        let heading = match position_of_char(line, '#', 0) {
            Some(at) => at == 0,
            None => false,
        };
        proof {
            lemma_find_from(line@, seq!['#'], 0);
            if line@.len() > 0 && line@[0] == '#' {
                assert(line@.subrange(0, 1) =~= seq!['#']);
            }
            if starts_with(line@, seq!['#']) {
                assert(line@.subrange(0, 1)[0] == '#');
            }
        }
        assert(heading == starts_with(line@, seq!['#']));
        if heading && !includes_str(lowered, "example") {
            return ;
        }
        if fence(line) {
            if self.prose {
                append_str(&mut self.out, ANNOTATION);
            }
            self.in_block = true;
            self.prose = false;
            self.fenced = true;
        } else if trimmed(line).len() > 0 {
            self.prose = true;
        }
        append_then(&mut self.out, line, "\n");
    }

    /// Takes one more line.
    pub fn take(&mut self, line: &Vec<char>)
        ensures
            final(self)@ == section_step(old(self)@, line@),
    {
        let lowered = lowered(&trimmed(line));
        self.take_with(line, &lowered);
    }
}

/// Reads a document for what stands under its examples headings.
pub fn read_examples_section(lines: &TextList) -> (scan: SectionScan)
    ensures
        scan@ == section_scan(lines@, lines@.len() as int),
{
    let mut scan = SectionScan::new();
    let mut i: usize = 0;
    while i < lines.len()
        invariant
            i <= lines@.len(),
            scan@ == section_scan(lines@, i as int),
        decreases lines@.len() - i,
    {
        scan.take(lines.get(i));
        i += 1;
    }
    scan
}

/// Collects every fenced block of a document, numbered, under the title.
pub fn read_numbered_blocks(lines: &TextList) -> (r: Vec<char>)
    ensures
        r@ == numbered_blocks(lines@),
{
    let mut scan = BlockScan { in_block: false, count: 0, out: chars_of(TITLE) };
    append_str(&mut scan.out, INTRODUCTION);
    let mut i: usize = 0;
    while i < lines.len()
        invariant
            i <= lines@.len(),
            scan.count <= i,
            scan@ == block_scan(lines@, i as int),
        decreases lines@.len() - i,
    {
        let line = lines.get(i);
        if fence(line) {
            if scan.in_block {
                scan.in_block = false;
            } else {
                scan.in_block = true;
                scan.count = scan.count + 1;
                append(
                    &mut scan.out,
                    &framed("## Example ", &write_decimal(scan.count as u64), "\n\n"),
                );
            }
            append_then(&mut scan.out, line, "\n");
        } else if scan.in_block {
            append_then(&mut scan.out, line, "\n");
        }
        i += 1;
    }
    scan.out
}

/// The line that imports the item.
pub fn write_import(package: &Vec<char>, item_path: &Vec<char>) -> (r: Vec<char>)
    ensures
        r@ == import_line(package@, item_path@),
{
    let mut r = framed("use ", package, "::");
    append(&mut r, item_path);
    r
}

/// Makes up the examples document for an item of the given kind.
pub fn generate_examples(
    kind: Option<ItemKind>,
    package: &Vec<char>,
    item_path: &Vec<char>,
    name: &Vec<char>,
) -> (r: Vec<char>)
    ensures
        r@ == generated_examples(kind, package@, item_path@, name@),
{
    let import = write_import(package, item_path);
    let example = match kind {
        Some(ItemKind::Struct) => {
            let mut e = framed("## Creating and using a ", name, " instance\n\n```rust\n");
            append_then(&mut e, &import, ";\n\n// Create a new ");
            append_then(&mut e, name, " instance\nlet instance = ");
            append_then(&mut e, name, "::new();\n\n// Use methods on the ");
            append_then(&mut e, name, " instance\n");
            append_str(&mut e, STRUCT_DISCLAIMER);
            e
        },
        Some(ItemKind::Trait) => {
            let mut e = framed("## Implementing the ", name, " trait\n\n```rust\n");
            append_then(&mut e, &import, ";\n\nstruct MyType;\n\nimpl ");
            append_then(&mut e, name, TRAIT_DISCLAIMER);
            e
        },
        Some(ItemKind::Enum) => {
            let mut e = framed("## Using the ", name, " enum\n\n```rust\n");
            append_then(&mut e, &import, ";\n\n// Match on ");
            append_then(&mut e, name, " variants\nlet value = ");
            append_then(&mut e, name, "::Variant;\n\nmatch value {\n    ");
            append_then(&mut e, name, ENUM_DISCLAIMER);
            e
        },
        Some(ItemKind::Function) => {
            let mut e = framed("## Calling the ", name, " function\n\n```rust\n");
            append_then(&mut e, &import, ";\n\n// Call the function\nlet result = ");
            append_then(&mut e, name, FUNCTION_DISCLAIMER);
            e
        },
        _ => {
            let mut e = framed("## Generic Example\n\n```rust\n// Example for using ", item_path, "\n");
            append_then(&mut e, &import, GENERIC_DISCLAIMER);
            e
        },
    };
    let mut r = chars_of(TITLE);
    append(&mut r, &example);
    r
}

/// Writes the examples document for the item at `item_path` of `package`,
/// whose documentation is `doc`.
pub fn extract_examples(doc: &Vec<char>, package: &Vec<char>, item_path: &Vec<char>) -> (r: Vec<
    char,
>)
    ensures
        r@ == examples_document(doc@, package@, item_path@),
{
    let lines = split_lines(doc);
    let section = read_examples_section(&lines);
    let content = if section.fenced {
        section.out
    } else {
        read_numbered_blocks(&lines)
    };
    if includes_str(&content, FENCE) {
        content
    } else {
        let name = name_of(item_path);
        generate_examples(guess_kind(doc, &name), package, item_path, &name)
    }
}

/// A line that is the heading of an examples section.
pub open spec fn is_heading_line(line: Seq<char>) -> bool {
    is_examples_heading(lowercase_of(trim(line)))
}

/// Some line is the heading of an examples section.
pub open spec fn has_examples_heading(lines: Seq<Seq<char>>) -> bool {
    exists|i: int| 0 <= i < lines.len() && is_heading_line(#[trigger] lines[i])
}

/// Some line opens or closes a fenced block.
pub open spec fn has_fence(lines: Seq<Seq<char>>) -> bool {
    exists|i: int| 0 <= i < lines.len() && is_fence(#[trigger] lines[i])
}

/// Some fence, on a line that is no heading itself, stands below the heading
/// of an examples section.
pub open spec fn has_fence_under_heading(lines: Seq<Seq<char>>) -> bool {
    exists|i: int, j: int|
        0 <= i < j < lines.len() && is_heading_line(#[trigger] lines[i]) && is_fence(
            #[trigger] lines[j],
        ) && !is_heading_line(lines[j])
}

/// A fence holds the three backticks, and does not begin with a hash.
pub proof fn lemma_fence_line(line: Seq<char>)
    requires
        is_fence(line),
    ensures
        contains(line, FENCE@),
        !starts_with(line, seq!['#']),
{
    reveal_strlit("```");
    let bounds = lemma_trim(line);
    let inner = trim(line);
    lemma_contains(inner, FENCE@);
    assert(occurs_at(inner, FENCE@, 0));
    lemma_contains_part(line, bounds.0, bounds.1, FENCE@);
    assert(inner.subrange(0, 3)[0] == '`');
    if starts_with(line, seq!['#']) {
        assert(line.subrange(0, 1)[0] == '#');
        assert(!is_space(line[0]));
        assert(bounds.0 == 0);
        assert(inner[0] == line[0]);
    }
}

/// A scan in which a block is open only after the collecting has begun, and
/// which holds a fence if a block was opened.
pub open spec fn is_orderly(s: SectionScanView) -> bool {
    &&& s.in_block ==> s.fenced
    &&& s.fenced ==> s.collecting && contains(s.out, FENCE@)
}

/// One more line only adds to what a section scan has collected, so that a
/// text that was in it stays in it.
pub proof fn lemma_section_step_keeps(s: SectionScanView, line: Seq<char>, pat: Seq<char>)
    requires
        contains(s.out, pat),
    ensures
        contains(section_step(s, line).out, pat),
{
    let lowered = lowercase_of(trim(line));
    if s.in_block {
        lemma_contains_extended(s.out, line, pat);
        lemma_contains_extended(s.out + line, "\n"@, pat);
    } else if is_examples_heading(lowered) {
        lemma_contains_extended(s.out, TITLE@, pat);
    } else if !s.collecting || is_other_heading(line, lowered) {
    } else {
        let before = if is_fence(line) && s.prose {
            s.out + ANNOTATION@
        } else {
            s.out
        };
        if is_fence(line) && s.prose {
            lemma_contains_extended(s.out, ANNOTATION@, pat);
        }
        lemma_contains_extended(before, line, pat);
        lemma_contains_extended(before + line, "\n"@, pat);
    }
}

/// One more line never stops the collecting and never forgets that a block
/// was opened; it opens no block before the collecting has begun. An
/// examples heading outside a block begins the collecting. A fence that is
/// read while collecting counts as a block of the section, unless the line
/// counts as an examples heading; and nothing but a fence does.
pub proof fn lemma_section_step(s: SectionScanView, line: Seq<char>)
    requires
        is_orderly(s),
    ensures
        is_orderly(section_step(s, line)),
        s.collecting ==> section_step(s, line).collecting,
        s.fenced ==> section_step(s, line).fenced,
        !s.in_block && is_heading_line(line) ==> section_step(s, line).collecting,
        s.collecting && is_fence(line) && !is_heading_line(line) ==> section_step(s, line).fenced,
        section_step(s, line).fenced && !s.fenced ==> is_fence(line),
{
    let lowered = lowercase_of(trim(line));
    let next = section_step(s, line);
    if s.fenced {
        lemma_section_step_keeps(s, line, FENCE@);
    }
    if is_fence(line) {
        lemma_fence_line(line);
        if !s.in_block && !is_examples_heading(lowered) && s.collecting {
            let before = if s.prose {
                s.out + ANNOTATION@
            } else {
                s.out
            };
            assert(next.out == before + line + "\n"@);
            lemma_contains_within(before, line, "\n"@, FENCE@);
        }
    }
}

/// No block is open in a section scan before its collecting has begun.
pub proof fn lemma_section_scan_orderly(lines: Seq<Seq<char>>, n: int)
    requires
        0 <= n <= lines.len(),
    ensures
        is_orderly(section_scan(lines, n)),
    decreases n,
{
    if n > 0 {
        lemma_section_scan_orderly(lines, n - 1);
        lemma_section_step(section_scan(lines, n - 1), lines[n - 1]);
    }
}

/// Without an examples heading among the first `n` lines, the section scan
/// has collected nothing after them.
pub proof fn lemma_section_without_heading(lines: Seq<Seq<char>>, n: int)
    requires
        0 <= n <= lines.len(),
        forall|i: int| 0 <= i < n ==> !is_heading_line(#[trigger] lines[i]),
    ensures
        section_scan(lines, n) == section_start(),
    decreases n,
{
    if n > 0 {
        lemma_section_without_heading(lines, n - 1);
        assert(!is_heading_line(lines[n - 1]));
    }
}

/// After an examples heading at line `i`, the section scan is collecting.
pub proof fn lemma_section_collects_after(lines: Seq<Seq<char>>, i: int, n: int)
    requires
        0 <= i < n <= lines.len(),
        is_heading_line(lines[i]),
    ensures
        section_scan(lines, n).collecting,
    decreases n,
{
    lemma_section_scan_orderly(lines, n - 1);
    if n - 1 > i {
        lemma_section_collects_after(lines, i, n - 1);
    }
    lemma_section_step(section_scan(lines, n - 1), lines[n - 1]);
}

/// A fence at line `j` below an examples heading at line `i` counts as a
/// block of the section.
pub proof fn lemma_section_holds_fence(lines: Seq<Seq<char>>, i: int, j: int, n: int)
    requires
        0 <= i < j < n <= lines.len(),
        is_heading_line(lines[i]),
        is_fence(lines[j]),
        !is_heading_line(lines[j]),
    ensures
        section_scan(lines, n).fenced,
    decreases n,
{
    lemma_section_scan_orderly(lines, n - 1);
    if n - 1 > j {
        lemma_section_holds_fence(lines, i, j, n - 1);
    } else {
        lemma_section_collects_after(lines, i, j);
    }
    lemma_section_step(section_scan(lines, n - 1), lines[n - 1]);
}

/// Without a fence among the first `n` lines, no block was opened in the
/// section scan after them.
pub proof fn lemma_section_without_fence(lines: Seq<Seq<char>>, n: int)
    requires
        0 <= n <= lines.len(),
        forall|i: int| 0 <= i < n ==> !is_fence(#[trigger] lines[i]),
    ensures
        !section_scan(lines, n).fenced,
    decreases n,
{
    if n > 0 {
        lemma_section_without_fence(lines, n - 1);
        lemma_section_scan_orderly(lines, n - 1);
        assert(!is_fence(lines[n - 1]));
        lemma_section_step(section_scan(lines, n - 1), lines[n - 1]);
    }
}

/// One more line never takes a fence out of what a block scan has collected,
/// and a fence that is read is collected.
pub proof fn lemma_block_step(s: BlockScanView, line: Seq<char>)
    ensures
        contains(s.out, FENCE@) ==> contains(block_step(s, line).out, FENCE@),
        is_fence(line) ==> contains(block_step(s, line).out, FENCE@),
        !is_fence(line) && !s.in_block ==> block_step(s, line) == s,
{
    if is_fence(line) {
        lemma_fence_line(line);
        if s.in_block {
            lemma_contains_within(s.out, line, "\n"@, FENCE@);
        } else {
            lemma_contains_within(s.out + block_heading(s.count + 1), line, "\n"@, FENCE@);
        }
    } else if s.in_block {
        if contains(s.out, FENCE@) {
            lemma_contains_extended(s.out, line, FENCE@);
            lemma_contains_extended(s.out + line, "\n"@, FENCE@);
        }
    }
}

/// Without a fence among the first `n` lines, the block scan has collected
/// nothing but the title and the introduction after them.
pub proof fn lemma_blocks_without_fence(lines: Seq<Seq<char>>, n: int)
    requires
        0 <= n <= lines.len(),
        forall|i: int| 0 <= i < n ==> !is_fence(#[trigger] lines[i]),
    ensures
        block_scan(lines, n) == block_scan(lines, 0),
    decreases n,
{
    if n > 0 {
        lemma_blocks_without_fence(lines, n - 1);
        assert(!is_fence(lines[n - 1]));
        lemma_block_step(block_scan(lines, n - 1), lines[n - 1]);
    }
}

/// A fence at line `j` is in what the block scan has collected after it.
pub proof fn lemma_blocks_hold_fence(lines: Seq<Seq<char>>, j: int, n: int)
    requires
        0 <= j < n <= lines.len(),
        is_fence(lines[j]),
    ensures
        contains(block_scan(lines, n).out, FENCE@),
    decreases n,
{
    if n - 1 > j {
        lemma_blocks_hold_fence(lines, j, n - 1);
    }
    lemma_block_step(block_scan(lines, n - 1), lines[n - 1]);
}

/// The title and the introduction hold no fence.
pub proof fn lemma_introduction_has_no_fence()
    ensures
        !contains(TITLE@ + INTRODUCTION@, FENCE@),
{
    reveal_strlit("# Usage Examples\n\n");
    reveal_strlit("The following examples demonstrate how to use this item:\n\n");
    reveal_strlit("```");
    let text = TITLE@ + INTRODUCTION@;
    assert forall|i: int| 0 <= i < text.len() implies text[i] != FENCE@[0] by {
        if i < TITLE@.len() {
            assert(text[i] == TITLE@[i]);
        } else {
            assert(text[i] == INTRODUCTION@[i - TITLE@.len()]);
        }
    }
    lemma_contains_needs_first(text, FENCE@);
}

/// The three sources of an examples document, and when each is used.
///
/// Where a fenced block stands under an examples heading, the document is
/// what stands under the examples headings. Where none does but the document
/// has a fence elsewhere, the document is the numbered blocks. Where the
/// document has no fence at all, it is the example made up for the item's
/// likely kind.
///
/// A fence below an examples heading is a block under it, and without an
/// examples heading there is none.
pub proof fn lemma_examples_sources(doc: Seq<char>, package: Seq<char>, item_path: Seq<char>)
    ensures
        section_holds_block(lines(doc)) ==> examples_document(doc, package, item_path)
            == examples_section(lines(doc)),
        !section_holds_block(lines(doc)) && has_fence(lines(doc)) ==> examples_document(
            doc,
            package,
            item_path,
        ) == numbered_blocks(lines(doc)),
        !has_fence(lines(doc)) ==> examples_document(doc, package, item_path)
            == generated_examples(
            inferred_kind(doc, item_name(item_path)),
            package,
            item_path,
            item_name(item_path),
        ),
        has_fence_under_heading(lines(doc)) ==> section_holds_block(lines(doc)),
        !has_examples_heading(lines(doc)) ==> !section_holds_block(lines(doc)),
        !has_fence(lines(doc)) ==> !section_holds_block(lines(doc)),
{
    let ls = lines(doc);
    let n = ls.len() as int;
    lemma_section_scan_orderly(ls, n);
    if has_fence_under_heading(ls) {
        let (i, j) = choose|i: int, j: int|
            0 <= i < j < ls.len() && is_heading_line(#[trigger] ls[i]) && is_fence(
                #[trigger] ls[j],
            ) && !is_heading_line(ls[j]);
        lemma_section_holds_fence(ls, i, j, n);
    }
    if !has_examples_heading(ls) {
        lemma_section_without_heading(ls, n);
    }
    if has_fence(ls) {
        let j = choose|j: int| 0 <= j < ls.len() && is_fence(#[trigger] ls[j]);
        lemma_blocks_hold_fence(ls, j, n);
    } else {
        lemma_section_without_fence(ls, n);
        lemma_blocks_without_fence(ls, n);
        lemma_introduction_has_no_fence();
    }
}

/// What a section scan has collected is empty until the first examples
/// heading, and begins with the title from then on.
pub proof fn lemma_section_begins_with_title(lines: Seq<Seq<char>>, n: int)
    requires
        0 <= n <= lines.len(),
    ensures
        !section_scan(lines, n).collecting ==> section_scan(lines, n).out.len() == 0,
        section_scan(lines, n).collecting ==> starts_with(section_scan(lines, n).out, TITLE@),
    decreases n,
{
    if n > 0 {
        lemma_section_begins_with_title(lines, n - 1);
        lemma_section_scan_orderly(lines, n - 1);
        let s = section_scan(lines, n - 1);
        let line = lines[n - 1];
        if s.in_block {
            lemma_starts_with_extended(s.out, line, TITLE@);
            lemma_starts_with_extended(s.out + line, "\n"@, TITLE@);
        } else if is_heading_line(line) {
            if s.collecting {
                lemma_starts_with_extended(s.out, TITLE@, TITLE@);
            } else {
                assert(s.out + TITLE@ =~= TITLE@);
                assert(TITLE@.subrange(0, TITLE@.len() as int) =~= TITLE@);
            }
        } else if s.collecting && !is_other_heading(line, lowercase_of(trim(line))) {
            let before = if is_fence(line) && s.prose {
                s.out + ANNOTATION@
            } else {
                s.out
            };
            if is_fence(line) && s.prose {
                lemma_starts_with_extended(s.out, ANNOTATION@, TITLE@);
            }
            lemma_starts_with_extended(before, line, TITLE@);
            lemma_starts_with_extended(before + line, "\n"@, TITLE@);
        }
    }
}

/// What a block scan has collected begins with the title.
pub proof fn lemma_blocks_begin_with_title(lines: Seq<Seq<char>>, n: int)
    requires
        0 <= n <= lines.len(),
    ensures
        starts_with(block_scan(lines, n).out, TITLE@),
    decreases n,
{
    if n > 0 {
        lemma_blocks_begin_with_title(lines, n - 1);
        let s = block_scan(lines, n - 1);
        let line = lines[n - 1];
        if is_fence(line) {
            if s.in_block {
                lemma_starts_with_extended(s.out, line, TITLE@);
                lemma_starts_with_extended(s.out + line, "\n"@, TITLE@);
            } else {
                let heading = block_heading(s.count + 1);
                lemma_starts_with_extended(s.out, heading, TITLE@);
                lemma_starts_with_extended(s.out + heading, line, TITLE@);
                lemma_starts_with_extended(s.out + heading + line, "\n"@, TITLE@);
            }
        } else if s.in_block {
            lemma_starts_with_extended(s.out, line, TITLE@);
            lemma_starts_with_extended(s.out + line, "\n"@, TITLE@);
        }
    } else {
        assert((TITLE@ + INTRODUCTION@).subrange(0, TITLE@.len() as int) =~= TITLE@);
    }
}

/// Each of the texts that end a made-up example holds a fence.
pub proof fn lemma_disclaimers_hold_fence()
    ensures
        contains(STRUCT_DISCLAIMER@, FENCE@),
        contains(TRAIT_DISCLAIMER@, FENCE@),
        contains(ENUM_DISCLAIMER@, FENCE@),
        contains(FUNCTION_DISCLAIMER@, FENCE@),
        contains(GENERIC_DISCLAIMER@, FENCE@),
{
    reveal_strlit("```");
    reveal_strlit("// instance.some_method();\n```\n\nThis is a generated example. Check the actual documentation for the correct method names and usage patterns.\n");
    reveal_strlit(" for MyType {\n    // Implement the required trait methods here\n}\n```\n\nThis is a generated example. Check the actual documentation for the required trait methods.\n");
    reveal_strlit("::Variant => {},\n    // Match other variants...\n}\n```\n\nThis is a generated example. Check the actual documentation for the correct enum variants.\n");
    reveal_strlit("();\n```\n\nThis is a generated example. Check the actual documentation for the correct function parameters.\n");
    reveal_strlit(";\n\n// Add your usage code here\n```\n\nThis is a generated example. No specific examples were found in the documentation.\nPlease refer to the main documentation for usage information.\n");
    assert(STRUCT_DISCLAIMER@.subrange(27, 30) =~= FENCE@);
    assert(occurs_at(STRUCT_DISCLAIMER@, FENCE@, 27));
    lemma_contains(STRUCT_DISCLAIMER@, FENCE@);
    assert(TRAIT_DISCLAIMER@.subrange(65, 68) =~= FENCE@);
    assert(occurs_at(TRAIT_DISCLAIMER@, FENCE@, 65));
    lemma_contains(TRAIT_DISCLAIMER@, FENCE@);
    assert(ENUM_DISCLAIMER@.subrange(50, 53) =~= FENCE@);
    assert(occurs_at(ENUM_DISCLAIMER@, FENCE@, 50));
    lemma_contains(ENUM_DISCLAIMER@, FENCE@);
    assert(FUNCTION_DISCLAIMER@.subrange(4, 7) =~= FENCE@);
    assert(occurs_at(FUNCTION_DISCLAIMER@, FENCE@, 4));
    lemma_contains(FUNCTION_DISCLAIMER@, FENCE@);
    assert(GENERIC_DISCLAIMER@.subrange(31, 34) =~= FENCE@);
    assert(occurs_at(GENERIC_DISCLAIMER@, FENCE@, 31));
    lemma_contains(GENERIC_DISCLAIMER@, FENCE@);
}

/// Each of the texts that end a made-up example says that the example is
/// generated.
pub proof fn lemma_disclaimers_say_generated()
    ensures
        contains(STRUCT_DISCLAIMER@, GENERATED_NOTE@),
        contains(TRAIT_DISCLAIMER@, GENERATED_NOTE@),
        contains(ENUM_DISCLAIMER@, GENERATED_NOTE@),
        contains(FUNCTION_DISCLAIMER@, GENERATED_NOTE@),
        contains(GENERIC_DISCLAIMER@, GENERATED_NOTE@),
{
    reveal_strlit("This is a generated example.");
    reveal_strlit("// instance.some_method();\n```\n\nThis is a generated example. Check the actual documentation for the correct method names and usage patterns.\n");
    reveal_strlit(" for MyType {\n    // Implement the required trait methods here\n}\n```\n\nThis is a generated example. Check the actual documentation for the required trait methods.\n");
    reveal_strlit("::Variant => {},\n    // Match other variants...\n}\n```\n\nThis is a generated example. Check the actual documentation for the correct enum variants.\n");
    reveal_strlit("();\n```\n\nThis is a generated example. Check the actual documentation for the correct function parameters.\n");
    reveal_strlit(";\n\n// Add your usage code here\n```\n\nThis is a generated example. No specific examples were found in the documentation.\nPlease refer to the main documentation for usage information.\n");
    let note = GENERATED_NOTE@;
    assert(STRUCT_DISCLAIMER@.subrange(32, 60) =~= note);
    assert(occurs_at(STRUCT_DISCLAIMER@, note, 32));
    lemma_contains(STRUCT_DISCLAIMER@, note);
    assert(TRAIT_DISCLAIMER@.subrange(70, 98) =~= note);
    assert(occurs_at(TRAIT_DISCLAIMER@, note, 70));
    lemma_contains(TRAIT_DISCLAIMER@, note);
    assert(ENUM_DISCLAIMER@.subrange(55, 83) =~= note);
    assert(occurs_at(ENUM_DISCLAIMER@, note, 55));
    lemma_contains(ENUM_DISCLAIMER@, note);
    assert(FUNCTION_DISCLAIMER@.subrange(9, 37) =~= note);
    assert(occurs_at(FUNCTION_DISCLAIMER@, note, 9));
    lemma_contains(FUNCTION_DISCLAIMER@, note);
    assert(GENERIC_DISCLAIMER@.subrange(36, 64) =~= note);
    assert(occurs_at(GENERIC_DISCLAIMER@, note, 36));
    lemma_contains(GENERIC_DISCLAIMER@, note);
}

/// A made-up examples document begins with the title, holds a fence, and
/// says that it is generated.
pub proof fn lemma_generated_examples_shape(
    kind: Option<ItemKind>,
    package: Seq<char>,
    item_path: Seq<char>,
    name: Seq<char>,
)
    ensures
        starts_with(generated_examples(kind, package, item_path, name), TITLE@),
        contains(generated_examples(kind, package, item_path, name), FENCE@),
        contains(generated_examples(kind, package, item_path, name), GENERATED_NOTE@),
{
    lemma_disclaimers_hold_fence();
    lemma_disclaimers_say_generated();
    let import = import_line(package, item_path);
    let example = match kind {
        Some(ItemKind::Struct) => struct_example(package, item_path, name),
        Some(ItemKind::Trait) => trait_example(package, item_path, name),
        Some(ItemKind::Enum) => enum_example(package, item_path, name),
        Some(ItemKind::Function) => function_example(package, item_path, name),
        _ => generic_example(package, item_path),
    };
    match kind {
        Some(ItemKind::Struct) => {
            lemma_contains_at_end(
                "## Creating and using a "@ + name + " instance\n\n```rust\n"@ + import
                    + ";\n\n// Create a new "@ + name + " instance\nlet instance = "@ + name
                    + "::new();\n\n// Use methods on the "@ + name + " instance\n"@,
                STRUCT_DISCLAIMER@,
                FENCE@,
            );
            lemma_contains_at_end(
                "## Creating and using a "@ + name + " instance\n\n```rust\n"@ + import
                    + ";\n\n// Create a new "@ + name + " instance\nlet instance = "@ + name
                    + "::new();\n\n// Use methods on the "@ + name + " instance\n"@,
                STRUCT_DISCLAIMER@,
                GENERATED_NOTE@,
            );
        },
        Some(ItemKind::Trait) => {
            lemma_contains_at_end(
                "## Implementing the "@ + name + " trait\n\n```rust\n"@ + import
                    + ";\n\nstruct MyType;\n\nimpl "@ + name,
                TRAIT_DISCLAIMER@,
                FENCE@,
            );
            lemma_contains_at_end(
                "## Implementing the "@ + name + " trait\n\n```rust\n"@ + import
                    + ";\n\nstruct MyType;\n\nimpl "@ + name,
                TRAIT_DISCLAIMER@,
                GENERATED_NOTE@,
            );
        },
        Some(ItemKind::Enum) => {
            lemma_contains_at_end(
                "## Using the "@ + name + " enum\n\n```rust\n"@ + import + ";\n\n// Match on "@
                    + name + " variants\nlet value = "@ + name
                    + "::Variant;\n\nmatch value {\n    "@ + name,
                ENUM_DISCLAIMER@,
                FENCE@,
            );
            lemma_contains_at_end(
                "## Using the "@ + name + " enum\n\n```rust\n"@ + import + ";\n\n// Match on "@
                    + name + " variants\nlet value = "@ + name
                    + "::Variant;\n\nmatch value {\n    "@ + name,
                ENUM_DISCLAIMER@,
                GENERATED_NOTE@,
            );
        },
        Some(ItemKind::Function) => {
            lemma_contains_at_end(
                "## Calling the "@ + name + " function\n\n```rust\n"@ + import
                    + ";\n\n// Call the function\nlet result = "@ + name,
                FUNCTION_DISCLAIMER@,
                FENCE@,
            );
            lemma_contains_at_end(
                "## Calling the "@ + name + " function\n\n```rust\n"@ + import
                    + ";\n\n// Call the function\nlet result = "@ + name,
                FUNCTION_DISCLAIMER@,
                GENERATED_NOTE@,
            );
        },
        _ => {
            lemma_contains_at_end(
                "## Generic Example\n\n```rust\n// Example for using "@ + item_path + "\n"@
                    + import,
                GENERIC_DISCLAIMER@,
                FENCE@,
            );
            lemma_contains_at_end(
                "## Generic Example\n\n```rust\n// Example for using "@ + item_path + "\n"@
                    + import,
                GENERIC_DISCLAIMER@,
                GENERATED_NOTE@,
            );
        },
    }
    assert(contains(example, FENCE@));
    assert(contains(example, GENERATED_NOTE@));
    lemma_contains_at_end(TITLE@, example, FENCE@);
    lemma_contains_at_end(TITLE@, example, GENERATED_NOTE@);
    assert((TITLE@ + example).subrange(0, TITLE@.len() as int) =~= TITLE@);
}

/// Whatever the documentation holds, the examples document begins with the
/// title and holds a fenced block.
pub proof fn lemma_examples_document_shape(
    doc: Seq<char>,
    package: Seq<char>,
    item_path: Seq<char>,
)
    ensures
        starts_with(examples_document(doc, package, item_path), TITLE@),
        contains(examples_document(doc, package, item_path), FENCE@),
{
    let ls = lines(doc);
    lemma_section_begins_with_title(ls, ls.len() as int);
    lemma_section_scan_orderly(ls, ls.len() as int);
    lemma_blocks_begin_with_title(ls, ls.len() as int);
    lemma_generated_examples_shape(
        inferred_kind(doc, item_name(item_path)),
        package,
        item_path,
        item_name(item_path),
    );
}

/// The lines from `from` up to, not including, `to`, each followed by a line
/// feed.
pub open spec fn lines_text(lines: Seq<Seq<char>>, from: int, to: int) -> Seq<char>
    decreases to - from,
{
    if to <= from {
        Seq::empty()
    } else {
        lines_text(lines, from, to - 1) + lines[to - 1] + "\n"@
    }
}

/// Line `open` is a fence, and line `close` is the next fence after it.
pub open spec fn is_block(lines: Seq<Seq<char>>, open: int, close: int) -> bool {
    &&& 0 <= open < close < lines.len()
    &&& is_fence(lines[open])
    &&& is_fence(lines[close])
    &&& forall|m: int| open < m < close ==> !is_fence(#[trigger] lines[m])
}

/// The fence at line `open` opens a block of an examples section: the scan
/// is collecting when it comes to the line, no block is open, and the line
/// does not count as an examples heading.
pub open spec fn opens_example(lines: Seq<Seq<char>>, open: int) -> bool {
    &&& section_scan(lines, open).collecting
    &&& !section_scan(lines, open).in_block
    &&& is_fence(lines[open])
    &&& !is_heading_line(lines[open])
}

/// What the scan has collected before the fence at line `open`, with the
/// annotation if one is due.
pub open spec fn before_block(lines: Seq<Seq<char>>, open: int) -> Seq<char> {
    if section_scan(lines, open).prose {
        section_scan(lines, open).out + ANNOTATION@
    } else {
        section_scan(lines, open).out
    }
}

/// Between the fences of a block of an examples section, the scan has
/// collected the lines of the block so far as they stand.
pub proof fn lemma_inside_block(lines: Seq<Seq<char>>, open: int, close: int, m: int)
    requires
        is_block(lines, open, close),
        opens_example(lines, open),
        open < m <= close,
    ensures
        section_scan(lines, m).in_block,
        section_scan(lines, m).out == before_block(lines, open) + lines_text(lines, open, m),
    decreases m,
{
    let base = before_block(lines, open);
    lemma_fence_line(lines[open]);
    if m == open + 1 {
        assert(lines_text(lines, open, open) =~= Seq::<char>::empty());
        assert(base + lines[open] + "\n"@ =~= base + lines_text(lines, open, m));
    } else {
        lemma_inside_block(lines, open, close, m - 1);
        assert(!is_fence(lines[m - 1]));
        let before = lines_text(lines, open, m - 1);
        assert((base + before) + lines[m - 1] + "\n"@ =~= base + (before + lines[m - 1] + "\n"@));
    }
}

/// What a section scan has collected after `from` lines is still in what it
/// has collected after `to` lines.
pub proof fn lemma_section_keeps(lines: Seq<Seq<char>>, from: int, to: int, pat: Seq<char>)
    requires
        0 <= from <= to <= lines.len(),
        contains(section_scan(lines, from).out, pat),
    ensures
        contains(section_scan(lines, to).out, pat),
    decreases to - from,
{
    if from < to {
        lemma_section_keeps(lines, from, to - 1, pat);
        lemma_section_step_keeps(section_scan(lines, to - 1), lines[to - 1], pat);
    }
}

/// The fence at line `open` opens a block of an examples section, so that a
/// block stands under an examples heading.
pub proof fn lemma_opened_block_counts(lines: Seq<Seq<char>>, open: int, n: int)
    requires
        0 <= open < n <= lines.len(),
        opens_example(lines, open),
    ensures
        section_scan(lines, n).fenced,
    decreases n,
{
    lemma_section_scan_orderly(lines, n - 1);
    if n - 1 > open {
        lemma_opened_block_counts(lines, open, n - 1);
    }
    lemma_section_step(section_scan(lines, n - 1), lines[n - 1]);
}

/// A block of an examples section is in the section as it stands, from its
/// opening fence to its closing fence.
pub proof fn lemma_block_is_kept(lines: Seq<Seq<char>>, open: int, close: int)
    requires
        is_block(lines, open, close),
        opens_example(lines, open),
    ensures
        !section_scan(lines, close + 1).in_block,
        section_holds_block(lines),
        contains(examples_section(lines), lines_text(lines, open, close + 1)),
{
    let base = before_block(lines, open);
    let block = lines_text(lines, open, close + 1);
    lemma_inside_block(lines, open, close, close);
    let inside = lines_text(lines, open, close);
    assert((base + inside) + lines[close] + "\n"@ =~= base + block);
    assert(section_scan(lines, close + 1).out == base + block);
    lemma_contains_itself(block);
    lemma_contains_at_end(base, block, block);
    lemma_section_keeps(lines, close + 1, lines.len() as int, block);
    lemma_opened_block_counts(lines, open, lines.len() as int);
}

/// A fenced block that stands under an examples heading is in the examples
/// document as it stands, from its opening fence to its closing fence.
pub proof fn lemma_example_block_verbatim(
    doc: Seq<char>,
    package: Seq<char>,
    item_path: Seq<char>,
    open: int,
    close: int,
)
    requires
        is_block(lines(doc), open, close),
        opens_example(lines(doc), open),
    ensures
        examples_document(doc, package, item_path) == examples_section(lines(doc)),
        contains(
            examples_document(doc, package, item_path),
            lines_text(lines(doc), open, close + 1),
        ),
{
    lemma_block_is_kept(lines(doc), open, close);
    lemma_section_scan_orderly(lines(doc), lines(doc).len() as int);
}

/// A document without any fence gets a made-up example, which says that it
/// is generated.
pub proof fn lemma_generated_without_fence(
    doc: Seq<char>,
    package: Seq<char>,
    item_path: Seq<char>,
)
    requires
        !has_fence(lines(doc)),
    ensures
        examples_document(doc, package, item_path) == generated_examples(
            inferred_kind(doc, item_name(item_path)),
            package,
            item_path,
            item_name(item_path),
        ),
        contains(examples_document(doc, package, item_path), GENERATED_NOTE@),
{
    lemma_examples_sources(doc, package, item_path);
    lemma_generated_examples_shape(
        inferred_kind(doc, item_name(item_path)),
        package,
        item_path,
        item_name(item_path),
    );
}

} // verus!
