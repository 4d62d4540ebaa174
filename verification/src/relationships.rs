//! How an item relates to other types, read off the text of its documentation.
//!
//! The analysis is textual. It looks at each line for the shape of a function
//! signature, of an associated type and of a trait implementation, and keeps
//! what it finds in the order of first appearance.

use crate::list::{lemma_split_pieces_are_parts, split, split_text, with_unique, TextList};
use crate::text::{
    chars_of, contains, find, find_from, includes_str, lemma_find_from, lemma_part_of_part,
    lemma_strip_end_char_is_part, lemma_strip_start_char_is_part, lemma_subrange_is_part,
    lemma_trim_is_part, opt_view, position, position_of_char, rest_from, same_str, slice,
    strip_end_char, strip_start_char, trim, trim_end, trimmed, trimmed_end, up_to,
    without_leading, without_trailing,
};
use vstd::prelude::*;

verus! {

/// A line that declares a function with a return type.
pub open spec fn is_signature(line: Seq<char>) -> bool {
    contains(line, "fn "@) && contains(line, "->"@)
}

/// A type that refers to the implementing type itself.
pub open spec fn is_self_referential(t: Seq<char>) -> bool {
    contains(t, "Self"@)
}

/// The return type that `line` declares: what follows the first arrow of a
/// signature, without surrounding white space and without the brace,
/// semicolons or comma that end the declaration. An empty or self-referential
/// type does not count.
pub open spec fn return_type_of(line: Seq<char>) -> Option<Seq<char>> {
    if is_signature(line) {
        let after = line.skip(find(line, "->"@).unwrap() + "->"@.len());
        let t = strip_end_char(
            trim_end(strip_end_char(strip_end_char(trim(after), '{'), ';')),
            ',',
        );
        if t.len() > 0 && !is_self_referential(t) {
            Some(t)
        } else {
            None
        }
    } else {
        None
    }
}

/// What stands between the first opening parenthesis of `line` and the first
/// closing one after it, without surrounding white space.
pub open spec fn parameter_list(line: Seq<char>) -> Option<Seq<char>> {
    match find(line, seq!['(']) {
        Some(open) => match find_from(line, seq![')'], open) {
            Some(close) => Some(trim(line.subrange(open + 1, close))),
            None => None,
        },
        None => None,
    }
}

/// A parameter that stands for the receiver of a method.
pub open spec fn is_receiver(t: Seq<char>) -> bool {
    t == "self"@ || t == "&self"@ || t == "&mut self"@
}

/// The type of one parameter: what follows its first colon, without
/// surrounding white space. An empty or self-referential type and a receiver
/// do not count.
pub open spec fn parameter_type_of(param: Seq<char>) -> Option<Seq<char>> {
    match find(param, seq![':']) {
        Some(colon) => {
            let t = trim(param.skip(colon + 1));
            if t.len() > 0 && !is_self_referential(t) && !is_receiver(t) {
                Some(t)
            } else {
                None
            }
        },
        None => None,
    }
}

/// `found` extended by the types of the first `n` of `params`, each once.
pub open spec fn with_parameter_types(
    found: Seq<Seq<char>>,
    params: Seq<Seq<char>>,
    n: int,
) -> Seq<Seq<char>>
    decreases n,
{
    if n <= 0 {
        found
    } else {
        let before = with_parameter_types(found, params, n - 1);
        match parameter_type_of(params[n - 1]) {
            Some(t) => with_unique(before, t),
            None => before,
        }
    }
}

/// `found` extended by the parameter types that `line` declares, each once.
pub open spec fn with_line_parameters(found: Seq<Seq<char>>, line: Seq<char>) -> Seq<Seq<char>> {
    if is_signature(line) {
        match parameter_list(line) {
            Some(list) => {
                let params = split(list, seq![',']);
                with_parameter_types(found, params, params.len() as int)
            },
            None => found,
        }
    } else {
        found
    }
}

/// The name between the first `type ` of `line` and what ends it there: a
/// colon if one follows, else an equals sign, else a semicolon.
pub open spec fn associated_type_of(line: Seq<char>) -> Option<Seq<char>> {
    match find(line, "type "@) {
        Some(at) => {
            let rest = line.skip(at + "type "@.len());
            match find(rest, seq![':']) {
                Some(end) => Some(trim(rest.take(end))),
                None => match find(rest, seq!['=']) {
                    Some(end) => Some(trim(rest.take(end))),
                    None => match find(rest, seq![';']) {
                        Some(end) => Some(trim(rest.take(end))),
                        None => None,
                    },
                },
            }
        },
        None => None,
    }
}

/// The trait that `line` implements: what stands between its first `impl` and
/// its first `for`, without surrounding white space and angle brackets, if
/// that is not empty.
pub open spec fn implemented_trait_of(line: Seq<char>) -> Option<Seq<char>> {
    match find(line, "impl"@) {
        Some(start) => match find(line, "for"@) {
            Some(end) => {
                if start + "impl"@.len() < end {
                    let name = strip_end_char(
                        strip_start_char(trim(line.subrange(start + "impl"@.len(), end)), '<'),
                        '>',
                    );
                    if name.len() > 0 {
                        Some(name)
                    } else {
                        None
                    }
                } else {
                    None
                }
            },
            None => None,
        },
        None => None,
    }
}

/// The return type that `line` declares.
pub fn return_type(line: &Vec<char>) -> (r: Option<Vec<char>>)
    ensures
        opt_view(r) == return_type_of(line@),
{
    if !(includes_str(line, "fn ") && includes_str(line, "->")) {
        return None;
    }
    let arrow = chars_of("->");
    match position(line, &arrow) {
        Some(at) => {
            let after = rest_from(line, at + arrow.len());
            let t = trimmed(&after);
            let t = without_trailing(&t, '{');
            let t = without_trailing(&t, ';');
            let t = trimmed_end(&t);
            let t = without_trailing(&t, ',');
            if t.len() > 0 && !includes_str(&t, "Self") {
                Some(t)
            } else {
                None
            }
        },
        None => None,
    }
}

/// The parameter list of `line`.
pub fn parameters(line: &Vec<char>) -> (r: Option<Vec<char>>)
    ensures
        opt_view(r) == parameter_list(line@),
{
    match position_of_char(line, '(', 0) {
        Some(open) => match position_of_char(line, ')', open) {
            Some(close) => {
                let inner = slice(line, open + 1, close);
                Some(trimmed(&inner))
            },
            None => None,
        },
        None => None,
    }
}

/// Whether `t` stands for the receiver of a method.
pub fn receiver(t: &Vec<char>) -> (r: bool)
    ensures
        r == is_receiver(t@),
{
    same_str(t, "self") || same_str(t, "&self") || same_str(t, "&mut self")
}

/// The type of the parameter `param`.
pub fn parameter_type(param: &Vec<char>) -> (r: Option<Vec<char>>)
    ensures
        opt_view(r) == parameter_type_of(param@),
{
    match position_of_char(param, ':', 0) {
        Some(colon) => {
            let after = rest_from(param, colon + 1);
            let t = trimmed(&after);
            if t.len() > 0 && !includes_str(&t, "Self") && !receiver(&t) {
                Some(t)
            } else {
                None
            }
        },
        None => None,
    }
}

/// Adds the parameter types that `line` declares to `found`.
pub fn add_line_parameters(found: &mut TextList, line: &Vec<char>)
    ensures
        final(found)@ == with_line_parameters(old(found)@, line@),
{
    if !(includes_str(line, "fn ") && includes_str(line, "->")) {
        return ;
    }
    match parameters(line) {
        Some(list) => {
            let mut comma: Vec<char> = Vec::new();
            comma.push(',');
            assert(comma@ =~= seq![',']);
            let params = split_text(&list, &comma);
            let mut i: usize = 0;
            while i < params.len()
                invariant
                    i <= params@.len(),
                    found@ == with_parameter_types(old(found)@, params@, i as int),
                decreases params@.len() - i,
            {
                match parameter_type(params.get(i)) {
                    Some(t) => {
                        found.push_unique(t);
                    },
                    None => {},
                }
                i += 1;
            }
        },
        None => {},
    }
}

/// The first of `:`, `=` and `;`, in this order of preference, that occurs in `rest`.
fn name_end(rest: &Vec<char>) -> (r: Option<usize>)
    ensures
        match r {
            Some(end) => end < rest.len() && Some(end as int) == (match find(rest@, seq![':']) {
                Some(e) => Some(e),
                None => match find(rest@, seq!['=']) {
                    Some(e) => Some(e),
                    None => find(rest@, seq![';']),
                },
            }),
            None => find(rest@, seq![':']) is None && find(rest@, seq!['=']) is None && find(
                rest@,
                seq![';'],
            ) is None,
        },
{
    match position_of_char(rest, ':', 0) {
        Some(e) => Some(e),
        None => match position_of_char(rest, '=', 0) {
            Some(e) => Some(e),
            None => position_of_char(rest, ';', 0),
        },
    }
}

/// The associated type that `line` declares.
pub fn associated_type(line: &Vec<char>) -> (r: Option<Vec<char>>)
    ensures
        opt_view(r) == associated_type_of(line@),
{
    let keyword = chars_of("type ");
    match position(line, &keyword) {
        Some(at) => {
            let rest = rest_from(line, at + keyword.len());
            match name_end(&rest) {
                Some(end) => {
                    let name = up_to(&rest, end);
                    Some(trimmed(&name))
                },
                None => None,
            }
        },
        None => None,
    }
}

/// The trait that `line` implements.
pub fn implemented_trait(line: &Vec<char>) -> (r: Option<Vec<char>>)
    ensures
        opt_view(r) == implemented_trait_of(line@),
{
    let keyword = chars_of("impl");
    let target = chars_of("for");
    match position(line, &keyword) {
        Some(start) => match position(line, &target) {
            Some(end) => {
                if start + keyword.len() < end {
                    let between = slice(line, start + keyword.len(), end);
                    let name = trimmed(&between);
                    let name = without_leading(&name, '<');
                    let name = without_trailing(&name, '>');
                    if name.len() > 0 {
                        Some(name)
                    } else {
                        None
                    }
                } else {
                    None
                }
            },
            None => None,
        },
        None => None,
    }
}

/// The return types that the first `n` of `lines` declare, each once, in the
/// order of first appearance.
pub open spec fn return_types_in(lines: Seq<Seq<char>>, n: int) -> Seq<Seq<char>>
    decreases n,
{
    if n <= 0 {
        Seq::empty()
    } else {
        let before = return_types_in(lines, n - 1);
        match return_type_of(lines[n - 1]) {
            Some(t) => with_unique(before, t),
            None => before,
        }
    }
}

/// The parameter types that the first `n` of `lines` declare, each once, in
/// the order of first appearance.
pub open spec fn parameter_types_in(lines: Seq<Seq<char>>, n: int) -> Seq<Seq<char>>
    decreases n,
{
    if n <= 0 {
        Seq::empty()
    } else {
        with_line_parameters(parameter_types_in(lines, n - 1), lines[n - 1])
    }
}

/// The associated types that the first `n` of `lines` declare, in order.
pub open spec fn associated_types_in(lines: Seq<Seq<char>>, n: int) -> Seq<Seq<char>>
    decreases n,
{
    if n <= 0 {
        Seq::empty()
    } else {
        let before = associated_types_in(lines, n - 1);
        match associated_type_of(lines[n - 1]) {
            Some(t) => before.push(t),
            None => before,
        }
    }
}

/// The traits that the first `n` of `lines` implement, each once, in the order
/// of first appearance.
pub open spec fn implemented_traits_in(lines: Seq<Seq<char>>, n: int) -> Seq<Seq<char>>
    decreases n,
{
    if n <= 0 {
        Seq::empty()
    } else {
        let before = implemented_traits_in(lines, n - 1);
        match implemented_trait_of(lines[n - 1]) {
            Some(t) => with_unique(before, t),
            None => before,
        }
    }
}

/// What the analysis found in a document.
pub struct Findings {
    pub return_types: TextList,
    pub parameter_types: TextList,
    pub associated_types: TextList,
    pub implemented_traits: TextList,
}

/// The findings of an analysis as sequences of texts.
pub struct FindingsView {
    pub return_types: Seq<Seq<char>>,
    pub parameter_types: Seq<Seq<char>>,
    pub associated_types: Seq<Seq<char>>,
    pub implemented_traits: Seq<Seq<char>>,
}

impl View for Findings {
    type V = FindingsView;

    open spec fn view(&self) -> FindingsView {
        FindingsView {
            return_types: self.return_types@,
            parameter_types: self.parameter_types@,
            associated_types: self.associated_types@,
            implemented_traits: self.implemented_traits@,
        }
    }
}

/// What the analysis finds in the lines of a document.
pub open spec fn findings_in(lines: Seq<Seq<char>>) -> FindingsView {
    FindingsView {
        return_types: return_types_in(lines, lines.len() as int),
        parameter_types: parameter_types_in(lines, lines.len() as int),
        associated_types: associated_types_in(lines, lines.len() as int),
        implemented_traits: implemented_traits_in(lines, lines.len() as int),
    }
}

/// Reads the lines of a document for what they declare.
pub fn survey(lines: &TextList) -> (r: Findings)
    ensures
        r@ == findings_in(lines@),
{
    let mut found = Findings {
        return_types: TextList::new(),
        parameter_types: TextList::new(),
        associated_types: TextList::new(),
        implemented_traits: TextList::new(),
    };
    let mut i: usize = 0;
    while i < lines.len()
        invariant
            i <= lines@.len(),
            found.return_types@ == return_types_in(lines@, i as int),
            found.parameter_types@ == parameter_types_in(lines@, i as int),
            found.associated_types@ == associated_types_in(lines@, i as int),
            found.implemented_traits@ == implemented_traits_in(lines@, i as int),
        decreases lines@.len() - i,
    {
        let line = lines.get(i);
        match return_type(line) {
            Some(t) => {
                found.return_types.push_unique(t);
            },
            None => {},
        }
        add_line_parameters(&mut found.parameter_types, line);
        match associated_type(line) {
            Some(t) => {
                found.associated_types.push(t);
            },
            None => {},
        }
        match implemented_trait(line) {
            Some(t) => {
                found.implemented_traits.push_unique(t);
            },
            None => {},
        }
        i += 1;
    }
    found
}

/// `with_unique` keeps a list free of repetitions and adds nothing but the
/// text that it is given.
pub proof fn lemma_with_unique(list: Seq<Seq<char>>, t: Seq<char>)
    ensures
        list.no_duplicates() ==> with_unique(list, t).no_duplicates(),
        forall|x: Seq<char>|
            #![trigger with_unique(list, t).contains(x)]
            with_unique(list, t).contains(x) <==> list.contains(x) || x == t,
{
    let next = with_unique(list, t);
    if !list.contains(t) {
        assert(next[list.len() as int] == t);
        assert forall|x: Seq<char>| next.contains(x) <==> list.contains(x) || x == t by {
            if list.contains(x) {
                let i = choose|i: int| 0 <= i < list.len() && list[i] == x;
                assert(next[i] == x);
            }
        }
    }
}

/// The line `line` declares a parameter of type `t`.
pub open spec fn declares_parameter(line: Seq<char>, t: Seq<char>) -> bool {
    is_signature(line) && match parameter_list(line) {
        Some(list) => exists|k: int|
            0 <= k < split(list, seq![',']).len() && #[trigger] parameter_type_of(
                split(list, seq![','])[k],
            ) == Some(t),
        None => false,
    }
}

/// The return types that were found are those that some line declares, each
/// once.
pub proof fn lemma_return_types(lines: Seq<Seq<char>>, n: int)
    requires
        0 <= n <= lines.len(),
    ensures
        return_types_in(lines, n).no_duplicates(),
        forall|t: Seq<char>|
            return_types_in(lines, n).contains(t) <==> exists|i: int|
                0 <= i < n && #[trigger] return_type_of(lines[i]) == Some(t),
    decreases n,
{
    if n > 0 {
        lemma_return_types(lines, n - 1);
        let before = return_types_in(lines, n - 1);
        let found = return_types_in(lines, n);
        match return_type_of(lines[n - 1]) {
            Some(new) => {
                lemma_with_unique(before, new);
            },
            None => {},
        }
        assert forall|t: Seq<char>| found.contains(t) <==> exists|i: int|
            0 <= i < n && #[trigger] return_type_of(lines[i]) == Some(t) by {
            if found.contains(t) {
                if before.contains(t) {
                    let i = choose|i: int|
                        0 <= i < n - 1 && #[trigger] return_type_of(lines[i]) == Some(t);
                    assert(0 <= i < n && return_type_of(lines[i]) == Some(t));
                } else {
                    assert(return_type_of(lines[n - 1]) == Some(t));
                }
            }
            if exists|i: int| 0 <= i < n && #[trigger] return_type_of(lines[i]) == Some(t) {
                let i = choose|i: int| 0 <= i < n && #[trigger] return_type_of(lines[i]) == Some(t);
                if i < n - 1 {
                    assert(before.contains(t));
                }
            }
        }
    }
}

/// The implemented traits that were found are those that some line names,
/// each once.
pub proof fn lemma_implemented_traits(lines: Seq<Seq<char>>, n: int)
    requires
        0 <= n <= lines.len(),
    ensures
        implemented_traits_in(lines, n).no_duplicates(),
        forall|t: Seq<char>|
            implemented_traits_in(lines, n).contains(t) <==> exists|i: int|
                0 <= i < n && #[trigger] implemented_trait_of(lines[i]) == Some(t),
    decreases n,
{
    if n > 0 {
        lemma_implemented_traits(lines, n - 1);
        let before = implemented_traits_in(lines, n - 1);
        let found = implemented_traits_in(lines, n);
        match implemented_trait_of(lines[n - 1]) {
            Some(new) => {
                lemma_with_unique(before, new);
            },
            None => {},
        }
        assert forall|t: Seq<char>| found.contains(t) <==> exists|i: int|
            0 <= i < n && #[trigger] implemented_trait_of(lines[i]) == Some(t) by {
            if found.contains(t) {
                if before.contains(t) {
                    let i = choose|i: int|
                        0 <= i < n - 1 && #[trigger] implemented_trait_of(lines[i]) == Some(t);
                    assert(0 <= i < n && implemented_trait_of(lines[i]) == Some(t));
                } else {
                    assert(implemented_trait_of(lines[n - 1]) == Some(t));
                }
            }
            if exists|i: int| 0 <= i < n && #[trigger] implemented_trait_of(lines[i]) == Some(t) {
                let i = choose|i: int|
                    0 <= i < n && #[trigger] implemented_trait_of(lines[i]) == Some(t);
                if i < n - 1 {
                    assert(before.contains(t));
                }
            }
        }
    }
}

/// The associated types that were found are those that some line declares.
pub proof fn lemma_associated_types(lines: Seq<Seq<char>>, n: int)
    requires
        0 <= n <= lines.len(),
    ensures
        forall|t: Seq<char>|
            associated_types_in(lines, n).contains(t) <==> exists|i: int|
                0 <= i < n && #[trigger] associated_type_of(lines[i]) == Some(t),
    decreases n,
{
    if n > 0 {
        lemma_associated_types(lines, n - 1);
        let before = associated_types_in(lines, n - 1);
        let found = associated_types_in(lines, n);
        assert forall|t: Seq<char>| found.contains(t) <==> exists|i: int|
            0 <= i < n && #[trigger] associated_type_of(lines[i]) == Some(t) by {
            if found.contains(t) {
                let at = choose|at: int| 0 <= at < found.len() && found[at] == t;
                if at < before.len() {
                    assert(before[at] == t);
                    assert(before.contains(t));
                    let i = choose|i: int|
                        0 <= i < n - 1 && #[trigger] associated_type_of(lines[i]) == Some(t);
                    assert(0 <= i < n && associated_type_of(lines[i]) == Some(t));
                } else {
                    assert(associated_type_of(lines[n - 1]) == Some(t));
                }
            }
            if exists|i: int| 0 <= i < n && #[trigger] associated_type_of(lines[i]) == Some(t) {
                let i = choose|i: int|
                    0 <= i < n && #[trigger] associated_type_of(lines[i]) == Some(t);
                if i < n - 1 {
                    assert(before.contains(t));
                    let at = choose|at: int| 0 <= at < before.len() && before[at] == t;
                    assert(found[at] == t);
                } else {
                    assert(found[found.len() - 1] == t);
                }
            }
        }
    }
}

/// Adding the types of parameters keeps a list free of repetitions and adds
/// nothing but those types.
pub proof fn lemma_with_parameter_types(found: Seq<Seq<char>>, params: Seq<Seq<char>>, n: int)
    requires
        0 <= n <= params.len(),
    ensures
        found.no_duplicates() ==> with_parameter_types(found, params, n).no_duplicates(),
        forall|t: Seq<char>|
            #![trigger with_parameter_types(found, params, n).contains(t)]
            with_parameter_types(found, params, n).contains(t) <==> found.contains(t) || exists|
                k: int,
            |
                0 <= k < n && #[trigger] parameter_type_of(params[k]) == Some(t),
    decreases n,
{
    if n > 0 {
        lemma_with_parameter_types(found, params, n - 1);
        let before = with_parameter_types(found, params, n - 1);
        let after = with_parameter_types(found, params, n);
        match parameter_type_of(params[n - 1]) {
            Some(new) => {
                lemma_with_unique(before, new);
            },
            None => {},
        }
        assert forall|t: Seq<char>| after.contains(t) <==> found.contains(t) || exists|k: int|
            0 <= k < n && #[trigger] parameter_type_of(params[k]) == Some(t) by {
            if after.contains(t) && !found.contains(t) {
                if before.contains(t) {
                    let k = choose|k: int|
                        0 <= k < n - 1 && #[trigger] parameter_type_of(params[k]) == Some(t);
                    assert(0 <= k < n && parameter_type_of(params[k]) == Some(t));
                } else {
                    assert(parameter_type_of(params[n - 1]) == Some(t));
                }
            }
            if exists|k: int| 0 <= k < n && #[trigger] parameter_type_of(params[k]) == Some(t) {
                let k = choose|k: int|
                    0 <= k < n && #[trigger] parameter_type_of(params[k]) == Some(t);
                if k < n - 1 {
                    assert(0 <= k < n - 1 && parameter_type_of(params[k]) == Some(t));
                    assert(before.contains(t));
                }
            }
        }
    }
}

/// Adding the parameter types of a line keeps a list free of repetitions and
/// adds nothing but the types that the line declares.
pub proof fn lemma_with_line_parameters(found: Seq<Seq<char>>, line: Seq<char>)
    ensures
        found.no_duplicates() ==> with_line_parameters(found, line).no_duplicates(),
        forall|t: Seq<char>|
            #![trigger with_line_parameters(found, line).contains(t)]
            with_line_parameters(found, line).contains(t) <==> found.contains(t)
                || declares_parameter(line, t),
{
    let after = with_line_parameters(found, line);
    if is_signature(line) && parameter_list(line) is Some {
        let params = split(parameter_list(line).unwrap(), seq![',']);
        lemma_with_parameter_types(found, params, params.len() as int);
        assert forall|t: Seq<char>| after.contains(t) <==> found.contains(t) || declares_parameter(
            line,
            t,
        ) by {
            if declares_parameter(line, t) {
                let k = choose|k: int|
                    0 <= k < params.len() && #[trigger] parameter_type_of(params[k]) == Some(t);
                assert(0 <= k < params.len() && parameter_type_of(params[k]) == Some(t));
            }
            if after.contains(t) && !found.contains(t) {
                let k = choose|k: int|
                    0 <= k < params.len() && #[trigger] parameter_type_of(params[k]) == Some(t);
                assert(0 <= k < split(parameter_list(line).unwrap(), seq![',']).len()
                    && parameter_type_of(split(parameter_list(line).unwrap(), seq![','])[k])
                    == Some(t));
            }
        }
    }
}

/// The parameter types that were found are those that some line declares,
/// each once.
pub proof fn lemma_parameter_types(lines: Seq<Seq<char>>, n: int)
    requires
        0 <= n <= lines.len(),
    ensures
        parameter_types_in(lines, n).no_duplicates(),
        forall|t: Seq<char>|
            parameter_types_in(lines, n).contains(t) <==> exists|i: int|
                0 <= i < n && #[trigger] declares_parameter(lines[i], t),
    decreases n,
{
    if n > 0 {
        lemma_parameter_types(lines, n - 1);
        let before = parameter_types_in(lines, n - 1);
        let found = parameter_types_in(lines, n);
        lemma_with_line_parameters(before, lines[n - 1]);
        assert forall|t: Seq<char>| found.contains(t) <==> exists|i: int|
            0 <= i < n && #[trigger] declares_parameter(lines[i], t) by {
            if found.contains(t) {
                if before.contains(t) {
                    let i = choose|i: int| 0 <= i < n - 1 && #[trigger] declares_parameter(lines[i], t);
                    assert(0 <= i < n && declares_parameter(lines[i], t));
                } else {
                    assert(declares_parameter(lines[n - 1], t));
                }
            }
            if exists|i: int| 0 <= i < n && #[trigger] declares_parameter(lines[i], t) {
                let i = choose|i: int| 0 <= i < n && #[trigger] declares_parameter(lines[i], t);
                if i < n - 1 {
                    assert(before.contains(t));
                }
            }
        }
    }
}

/// What an analysis finds, said without regard to order: each list holds what
/// some line of the document declares, and the lists of return types, of
/// parameter types and of implemented traits hold nothing twice.
pub proof fn lemma_findings(lines: Seq<Seq<char>>)
    ensures
        findings_in(lines).return_types.no_duplicates(),
        findings_in(lines).parameter_types.no_duplicates(),
        findings_in(lines).implemented_traits.no_duplicates(),
        forall|t: Seq<char>|
            findings_in(lines).return_types.contains(t) <==> exists|i: int|
                0 <= i < lines.len() && #[trigger] return_type_of(lines[i]) == Some(t),
        forall|t: Seq<char>|
            findings_in(lines).parameter_types.contains(t) <==> exists|i: int|
                0 <= i < lines.len() && #[trigger] declares_parameter(lines[i], t),
        forall|t: Seq<char>|
            findings_in(lines).associated_types.contains(t) <==> exists|i: int|
                0 <= i < lines.len() && #[trigger] associated_type_of(lines[i]) == Some(t),
        forall|t: Seq<char>|
            findings_in(lines).implemented_traits.contains(t) <==> exists|i: int|
                0 <= i < lines.len() && #[trigger] implemented_trait_of(lines[i]) == Some(t),
{
    lemma_return_types(lines, lines.len() as int);
    lemma_parameter_types(lines, lines.len() as int);
    lemma_associated_types(lines, lines.len() as int);
    lemma_implemented_traits(lines, lines.len() as int);
}

/// No type that an analysis reports is empty or refers to the implementing
/// type itself, and no parameter type is a receiver.
pub proof fn lemma_reported_types(lines: Seq<Seq<char>>, t: Seq<char>)
    ensures
        findings_in(lines).return_types.contains(t) ==> t.len() > 0 && !is_self_referential(t),
        findings_in(lines).parameter_types.contains(t) ==> t.len() > 0 && !is_self_referential(t)
            && !is_receiver(t),
        findings_in(lines).implemented_traits.contains(t) ==> t.len() > 0,
{
    lemma_findings(lines);
    if findings_in(lines).return_types.contains(t) {
        let i = choose|i: int| 0 <= i < lines.len() && #[trigger] return_type_of(lines[i]) == Some(t);
        assert(return_type_of(lines[i]) == Some(t));
    }
    if findings_in(lines).parameter_types.contains(t) {
        let i = choose|i: int| 0 <= i < lines.len() && #[trigger] declares_parameter(lines[i], t);
        let params = split(parameter_list(lines[i]).unwrap(), seq![',']);
        let k = choose|k: int|
            0 <= k < params.len() && #[trigger] parameter_type_of(params[k]) == Some(t);
        assert(parameter_type_of(params[k]) == Some(t));
    }
    if findings_in(lines).implemented_traits.contains(t) {
        let i = choose|i: int|
            0 <= i < lines.len() && #[trigger] implemented_trait_of(lines[i]) == Some(t);
        assert(implemented_trait_of(lines[i]) == Some(t));
    }
}

/// The return type that a line declares is a part of the line.
pub proof fn lemma_return_type_is_part(line: Seq<char>)
    ensures
        return_type_of(line) matches Some(t) ==> contains(line, t),
{
    if is_signature(line) {
        lemma_find_from(line, "->"@, 0);
        let at = find(line, "->"@).unwrap() + "->"@.len();
        let after = line.skip(at);
        let a = trim(after);
        let b = strip_end_char(a, '{');
        let c = strip_end_char(b, ';');
        let d = trim_end(c);
        let e = strip_end_char(d, ',');
        assert(after =~= line.subrange(at, line.len() as int));
        lemma_subrange_is_part(line, at, line.len() as int);
        lemma_trim_is_part(after);
        lemma_part_of_part(line, after, a);
        lemma_strip_end_char_is_part(a, '{');
        lemma_part_of_part(line, a, b);
        lemma_strip_end_char_is_part(b, ';');
        lemma_part_of_part(line, b, c);
        lemma_trim_is_part(c);
        lemma_part_of_part(line, c, d);
        lemma_strip_end_char_is_part(d, ',');
        lemma_part_of_part(line, d, e);
    }
}

/// The type of a parameter is a part of the parameter.
pub proof fn lemma_parameter_type_is_part(param: Seq<char>)
    ensures
        parameter_type_of(param) matches Some(t) ==> contains(param, t),
{
    lemma_find_from(param, seq![':'], 0);
    match find(param, seq![':']) {
        Some(colon) => {
            let after = param.skip(colon + 1);
            assert(after =~= param.subrange(colon + 1, param.len() as int));
            lemma_subrange_is_part(param, colon + 1, param.len() as int);
            lemma_trim_is_part(after);
            lemma_part_of_part(param, after, trim(after));
        },
        None => {},
    }
}

/// A parameter type that a line declares is a part of the line.
pub proof fn lemma_declared_parameter_is_part(line: Seq<char>, t: Seq<char>)
    requires
        declares_parameter(line, t),
    ensures
        contains(line, t),
{
    lemma_find_from(line, seq!['('], 0);
    let open = find(line, seq!['(']).unwrap();
    lemma_find_from(line, seq![')'], open);
    let close = find_from(line, seq![')'], open).unwrap();
    assert(line.subrange(open, open + 1)[0] == '(');
    assert(line.subrange(close, close + 1)[0] == ')');
    let inner = line.subrange(open + 1, close);
    let list = trim(inner);
    let params = split(list, seq![',']);
    let k = choose|k: int|
        0 <= k < params.len() && #[trigger] parameter_type_of(params[k]) == Some(t);
    lemma_subrange_is_part(line, open + 1, close);
    lemma_trim_is_part(inner);
    lemma_part_of_part(line, inner, list);
    lemma_split_pieces_are_parts(list, seq![','], k);
    lemma_part_of_part(line, list, params[k]);
    lemma_parameter_type_is_part(params[k]);
    lemma_part_of_part(line, params[k], t);
}

/// The associated type that a line declares is a part of the line.
pub proof fn lemma_associated_type_is_part(line: Seq<char>)
    ensures
        associated_type_of(line) matches Some(t) ==> contains(line, t),
{
    lemma_find_from(line, "type "@, 0);
    match find(line, "type "@) {
        Some(start) => {
            let at = start + "type "@.len();
            let rest = line.skip(at);
            assert(rest =~= line.subrange(at, line.len() as int));
            lemma_subrange_is_part(line, at, line.len() as int);
            lemma_find_from(rest, seq![':'], 0);
            lemma_find_from(rest, seq!['='], 0);
            lemma_find_from(rest, seq![';'], 0);
            let end = match find(rest, seq![':']) {
                Some(e) => Some(e),
                None => match find(rest, seq!['=']) {
                    Some(e) => Some(e),
                    None => find(rest, seq![';']),
                },
            };
            match end {
                Some(e) => {
                    let name = rest.take(e);
                    assert(name =~= rest.subrange(0, e));
                    lemma_subrange_is_part(rest, 0, e);
                    lemma_part_of_part(line, rest, name);
                    lemma_trim_is_part(name);
                    lemma_part_of_part(line, name, trim(name));
                },
                None => {},
            }
        },
        None => {},
    }
}

/// The trait that a line implements is a part of the line.
pub proof fn lemma_implemented_trait_is_part(line: Seq<char>)
    ensures
        implemented_trait_of(line) matches Some(t) ==> contains(line, t),
{
    lemma_find_from(line, "impl"@, 0);
    lemma_find_from(line, "for"@, 0);
    if implemented_trait_of(line) is Some {
        let start = find(line, "impl"@).unwrap() + "impl"@.len();
        let end = find(line, "for"@).unwrap();
        let between = line.subrange(start, end);
        let a = trim(between);
        let b = strip_start_char(a, '<');
        let c = strip_end_char(b, '>');
        lemma_subrange_is_part(line, start, end);
        lemma_trim_is_part(between);
        lemma_part_of_part(line, between, a);
        lemma_strip_start_char_is_part(a, '<');
        lemma_part_of_part(line, a, b);
        lemma_strip_end_char_is_part(b, '>');
        lemma_part_of_part(line, b, c);
    }
}

/// Whatever an analysis finds is a part of some line of the document.
pub proof fn lemma_findings_are_parts(lines: Seq<Seq<char>>, t: Seq<char>)
    requires
        findings_in(lines).return_types.contains(t) || findings_in(lines).parameter_types.contains(
            t,
        ) || findings_in(lines).associated_types.contains(t) || findings_in(
            lines,
        ).implemented_traits.contains(t),
    ensures
        exists|i: int| 0 <= i < lines.len() && contains(#[trigger] lines[i], t),
{
    lemma_findings(lines);
    if findings_in(lines).return_types.contains(t) {
        let i = choose|i: int| 0 <= i < lines.len() && #[trigger] return_type_of(lines[i]) == Some(t);
        lemma_return_type_is_part(lines[i]);
    } else if findings_in(lines).parameter_types.contains(t) {
        let i = choose|i: int| 0 <= i < lines.len() && #[trigger] declares_parameter(lines[i], t);
        lemma_declared_parameter_is_part(lines[i], t);
    } else if findings_in(lines).associated_types.contains(t) {
        let i = choose|i: int|
            0 <= i < lines.len() && #[trigger] associated_type_of(lines[i]) == Some(t);
        lemma_associated_type_is_part(lines[i]);
    } else {
        let i = choose|i: int|
            0 <= i < lines.len() && #[trigger] implemented_trait_of(lines[i]) == Some(t);
        lemma_implemented_trait_is_part(lines[i]);
    }
}

} // verus!
