//! The kinds of item that documentation distinguishes, and the guess at an
//! item's kind from the text of its documentation.

use crate::text::{contains, includes, includes_str, lowercase_of, lowered};
use vstd::prelude::*;

verus! {

/// The kind of a documented item.
#[derive(Clone, Copy, Debug, PartialEq, Eq, Structural)]
pub enum ItemKind {
    Struct,
    Enum,
    Trait,
    Function,
    Macro,
}

impl ItemKind {
    /// The word that stands for this kind in the address of a documentation page.
    pub open spec fn tag(self) -> Seq<char> {
        match self {
            ItemKind::Struct => "struct"@,
            ItemKind::Enum => "enum"@,
            ItemKind::Trait => "trait"@,
            ItemKind::Function => "fn"@,
            ItemKind::Macro => "macro"@,
        }
    }

    /// The word that stands for this kind in the address of a documentation page.
    pub fn tag_str(self) -> (r: &'static str)
        ensures
            r@ == self.tag(),
    {
        match self {
            ItemKind::Struct => "struct",
            ItemKind::Enum => "enum",
            ItemKind::Trait => "trait",
            ItemKind::Function => "fn",
            ItemKind::Macro => "macro",
        }
    }
}

/// The kind that a documentation text suggests for an item, given both the
/// text and the item's name in lowercase: the first of struct, trait, enum and
/// function whose keyword the text holds, provided that it holds the name too.
pub open spec fn kind_in_lowered(doc: Seq<char>, name: Seq<char>) -> Option<ItemKind> {
    if !contains(doc, name) {
        None
    } else if contains(doc, "struct"@) {
        Some(ItemKind::Struct)
    } else if contains(doc, "trait"@) {
        Some(ItemKind::Trait)
    } else if contains(doc, "enum"@) {
        Some(ItemKind::Enum)
    } else if contains(doc, "fn"@) {
        Some(ItemKind::Function)
    } else {
        None
    }
}

/// The kind that the documentation text `doc` suggests for the item called
/// `name`, without regard to case.
pub open spec fn inferred_kind(doc: Seq<char>, name: Seq<char>) -> Option<ItemKind> {
    kind_in_lowered(lowercase_of(doc), lowercase_of(name))
}

/// Guesses a kind from a documentation text and an item's name, both already
/// in lowercase.
pub fn guess_kind_lowered(doc: &Vec<char>, name: &Vec<char>) -> (r: Option<ItemKind>)
    ensures
        r == kind_in_lowered(doc@, name@),
{
    if !includes(doc, name) {
        None
    } else if includes_str(doc, "struct") {
        Some(ItemKind::Struct)
    } else if includes_str(doc, "trait") {
        Some(ItemKind::Trait)
    } else if includes_str(doc, "enum") {
        Some(ItemKind::Enum)
    } else if includes_str(doc, "fn") {
        Some(ItemKind::Function)
    } else {
        None
    }
}

/// Guesses the kind of the item called `name` from its documentation text.
pub fn guess_kind(doc: &Vec<char>, name: &Vec<char>) -> (r: Option<ItemKind>)
    ensures
        r == inferred_kind(doc@, name@),
{
    let doc_lower = lowered(doc);
    let name_lower = lowered(name);
    guess_kind_lowered(&doc_lower, &name_lower)
}

} // verus!
