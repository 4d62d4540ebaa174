//! Where an item's documentation is found: the package, the path of the item
//! inside it, and the version if one is asked for.

use crate::cache::opt_str_view;
use crate::decimal::{decimal, write_decimal};
use crate::kind::ItemKind;
use crate::list::{lemma_split_nonempty, split, split_text, TextList};
use crate::text::{
    append, append_str, append_then, begins_with, chars_of, rest_from, starts_with, string_of,
};
use vstd::prelude::*;

verus! {

/// The start of an item path that names the package itself.
pub open spec fn package_prefix(package: Seq<char>) -> Seq<char> {
    package + "::"@
}

/// The path of an item inside its package: `item_path` without the package's
/// own name in front of it, if it stands there.
pub open spec fn normalized_path(package: Seq<char>, item_path: Seq<char>) -> Seq<char> {
    if starts_with(item_path, package_prefix(package)) {
        item_path.skip(package_prefix(package).len() as int)
    } else {
        item_path
    }
}

/// The segments of an item path.
pub open spec fn segments(item_path: Seq<char>) -> Seq<Seq<char>> {
    split(item_path, "::"@)
}

/// The name of the item: the last segment of its path.
pub open spec fn item_name(item_path: Seq<char>) -> Seq<char> {
    segments(item_path).last()
}

/// The first `n` of `parts`, joined by a slash.
pub open spec fn joined(parts: Seq<Seq<char>>, n: int) -> Seq<char>
    decreases n,
{
    if n <= 0 {
        Seq::empty()
    } else if n == 1 {
        parts[0]
    } else {
        joined(parts, n - 1) + "/"@ + parts[n - 1]
    }
}

/// The modules that lead to the item: all segments of its path but the last,
/// joined by a slash. It is empty for an item at the root of the package.
pub open spec fn module_part(item_path: Seq<char>) -> Seq<char> {
    joined(segments(item_path), segments(item_path).len() - 1)
}

/// The path of an item inside its package.
pub fn normalize_path(package: &Vec<char>, item_path: &Vec<char>) -> (r: Vec<char>)
    ensures
        r@ == normalized_path(package@, item_path@),
{
    let mut prefix: Vec<char> = Vec::new();
    append(&mut prefix, package);
    append_str(&mut prefix, "::");
    assert(prefix@ =~= package_prefix(package@));
    if begins_with(item_path, &prefix) {
        rest_from(item_path, prefix.len())
    } else {
        rest_from(item_path, 0)
    }
}

/// The segments of an item path.
pub fn path_segments(item_path: &Vec<char>) -> (r: TextList)
    ensures
        r@ == segments(item_path@),
        r@.len() >= 1,
{
    proof {
        lemma_split_nonempty(item_path@, "::"@);
    }
    let sep = chars_of("::");
    split_text(item_path, &sep)
}

/// The name of the item at `item_path`.
pub fn name_of(item_path: &Vec<char>) -> (r: Vec<char>)
    ensures
        r@ == item_name(item_path@),
{
    let parts = path_segments(item_path);
    rest_from(parts.get(parts.len() - 1), 0)
}

/// The modules that lead to the item at `item_path`, joined by a slash.
pub fn modules_of(item_path: &Vec<char>) -> (r: Vec<char>)
    ensures
        r@ == module_part(item_path@),
{
    let parts = path_segments(item_path);
    let mut r: Vec<char> = Vec::new();
    let count: usize = parts.len() - 1;
    let mut i: usize = 0;
    while i < count
        invariant
            i <= count == parts@.len() - 1,
            r@ == joined(parts@, i as int),
        decreases count - i,
    {
        if i > 0 {
            append_str(&mut r, "/");
        }
        append(&mut r, parts.get(i));
        proof {
            if i == 0 {
                assert(r@ =~= parts@[0]);
            }
        }
        i += 1;
    }
    r
}

/// An item of a package, and the version of the package if one is asked for.
pub struct ItemLocator {
    pub package: String,
    /// The path of the item inside the package.
    pub item_path: String,
    pub version: Option<String>,
}

/// An item locator as texts.
pub struct ItemLocatorView {
    pub package: Seq<char>,
    pub item_path: Seq<char>,
    pub version: Option<Seq<char>>,
}

impl View for ItemLocator {
    type V = ItemLocatorView;

    open spec fn view(&self) -> ItemLocatorView {
        ItemLocatorView {
            package: self.package@,
            item_path: self.item_path@,
            version: opt_str_view(self.version),
        }
    }
}

/// The locator of the item that a caller names by `item_path`.
pub open spec fn locate(
    package: Seq<char>,
    item_path: Seq<char>,
    version: Option<Seq<char>>,
) -> ItemLocatorView {
    ItemLocatorView { package, item_path: normalized_path(package, item_path), version }
}

/// The key of a package's document: the package's name, and the version after
/// a colon if one is asked for.
pub open spec fn crate_key(package: Seq<char>, version: Option<Seq<char>>) -> Seq<char> {
    match version {
        Some(v) => package + ":"@ + v,
        None => package,
    }
}

/// The key of an item's document: the key of its package, a colon, and its path.
pub open spec fn item_key(at: ItemLocatorView) -> Seq<char> {
    crate_key(at.package, at.version) + ":"@ + at.item_path
}

/// The key of an item's examples.
pub open spec fn examples_key(at: ItemLocatorView) -> Seq<char> {
    "examples:"@ + item_key(at)
}

/// The key of an item's relationship report.
pub open spec fn relationships_key(at: ItemLocatorView) -> Seq<char> {
    "relationships:"@ + item_key(at)
}

/// A version as a segment of an address. It is empty where no version is asked for.
pub open spec fn version_segment(version: Option<Seq<char>>) -> Seq<char> {
    match version {
        Some(v) => v + "/"@,
        None => Seq::empty(),
    }
}

/// The modules of an item as a segment of an address. It is empty for an item
/// at the root of its package.
pub open spec fn module_segment(item_path: Seq<char>) -> Seq<char> {
    if module_part(item_path).len() > 0 {
        module_part(item_path) + "/"@
    } else {
        Seq::empty()
    }
}

/// The address of a package's page.
pub open spec fn crate_url(package: Seq<char>, version: Option<Seq<char>>) -> Seq<char> {
    "https://docs.rs/crate/"@ + package + "/"@ + version_segment(version)
}

/// The address of an item's page, if the item is of the given kind.
pub open spec fn item_url(at: ItemLocatorView, kind: ItemKind) -> Seq<char> {
    "https://docs.rs/"@ + at.package + "/"@ + version_segment(at.version) + at.package + "/"@
        + module_segment(at.item_path) + kind.tag() + "."@ + item_name(at.item_path) + ".html"@
}

/// The number of results asked of a search: `limit` held between 1 and 100,
/// and 10 where no limit is given.
pub open spec fn search_limit(limit: Option<u32>) -> nat {
    match limit {
        Some(n) => if n < 1 {
            1
        } else if n > 100 {
            100
        } else {
            n as nat
        },
        None => 10,
    }
}

/// The address of a search of the registry.
pub open spec fn search_url(query: Seq<char>, limit: Option<u32>) -> Seq<char> {
    "https://crates.io/api/v1/crates?q="@ + query + "&per_page="@ + decimal(search_limit(limit))
}

impl ItemLocator {
    /// The locator of the item that a caller names by `item_path`.
    pub fn new(package: String, item_path: String, version: Option<String>) -> (r: Self)
        ensures
            r@ == locate(package@, item_path@, opt_str_view(version)),
    {
        let path = normalize_path(&chars_of(package.as_str()), &chars_of(item_path.as_str()));
        ItemLocator { package, item_path: string_of(&path), version }
    }

    /// The key of the package's document.
    pub fn crate_key(&self) -> (r: Vec<char>)
        ensures
            r@ == crate_key(self@.package, self@.version),
    {
        write_crate_key(self.package.as_str(), &self.version)
    }

    /// The key of the item's document.
    pub fn item_key(&self) -> (r: Vec<char>)
        ensures
            r@ == item_key(self@),
    {
        let mut r = self.crate_key();
        append_str(&mut r, ":");
        append_str(&mut r, self.item_path.as_str());
        r
    }

    /// The key of the item's examples.
    pub fn examples_key(&self) -> (r: Vec<char>)
        ensures
            r@ == examples_key(self@),
    {
        let mut r = chars_of("examples:");
        append(&mut r, &self.item_key());
        r
    }

    /// The key of the item's relationship report.
    pub fn relationships_key(&self) -> (r: Vec<char>)
        ensures
            r@ == relationships_key(self@),
    {
        let mut r = chars_of("relationships:");
        append(&mut r, &self.item_key());
        r
    }

    /// The address of the item's page, if the item is of the given kind.
    pub fn url(&self, kind: ItemKind) -> (r: Vec<char>)
        ensures
            r@ == item_url(self@, kind),
    {
        let path = chars_of(self.item_path.as_str());
        let modules = modules_of(&path);
        let module_segment = if modules.len() > 0 {
            let mut m = modules;
            append_str(&mut m, "/");
            m
        } else {
            Vec::new()
        };
        let mut r = chars_of("https://docs.rs/");
        append_str(&mut r, self.package.as_str());
        append_str(&mut r, "/");
        append(&mut r, &write_version_segment(&self.version));
        append_str(&mut r, self.package.as_str());
        append_str(&mut r, "/");
        append(&mut r, &module_segment);
        append_str(&mut r, kind.tag_str());
        append_str(&mut r, ".");
        append_then(&mut r, &name_of(&path), ".html");
        r
    }
}

/// The key of a package's document.
pub fn write_crate_key(package: &str, version: &Option<String>) -> (r: Vec<char>)
    ensures
        r@ == crate_key(package@, opt_str_view(*version)),
{
    let mut r = chars_of(package);
    match version {
        Some(v) => {
            append_str(&mut r, ":");
            append_str(&mut r, v.as_str());
        },
        None => {},
    }
    r
}

/// A version as a segment of an address.
pub fn write_version_segment(version: &Option<String>) -> (r: Vec<char>)
    ensures
        r@ == version_segment(opt_str_view(*version)),
{
    match version {
        Some(v) => {
            let mut r = chars_of(v.as_str());
            append_str(&mut r, "/");
            r
        },
        None => Vec::new(),
    }
}

/// The address of a package's page.
pub fn write_crate_url(package: &str, version: &Option<String>) -> (r: Vec<char>)
    ensures
        r@ == crate_url(package@, opt_str_view(*version)),
{
    let mut r = chars_of("https://docs.rs/crate/");
    append_str(&mut r, package);
    append_str(&mut r, "/");
    append(&mut r, &write_version_segment(version));
    r
}

/// The number of results asked of a search.
pub fn clamp_limit(limit: Option<u32>) -> (r: u32)
    ensures
        r == search_limit(limit),
        1 <= r <= 100,
{
    match limit {
        Some(n) => if n < 1 {
            1
        } else if n > 100 {
            100
        } else {
            n
        },
        None => 10,
    }
}

/// The address of a search of the registry.
pub fn write_search_url(query: &str, limit: Option<u32>) -> (r: Vec<char>)
    ensures
        r@ == search_url(query@, limit),
{
    let mut r = chars_of("https://crates.io/api/v1/crates?q=");
    append_str(&mut r, query);
    append_str(&mut r, "&per_page=");
    append(&mut r, &write_decimal(clamp_limit(limit) as u64));
    r
}

} // verus!
