//! Filter expressions: `Name=<name>` or `Name=<name>,Values=<v1>,<v2>,...`.

use vstd::prelude::*;
use vstd::string::*;
use crate::error::{Error, ErrorView};
use crate::text::{
    find, find_from, has_prefix, join, lemma_find_is, lemma_split_join, lemma_split_nonempty,
    slice_string, split, split_from, starts_with_at, strings_view, to_chars,
};

verus! {

/// One criterion of a tag lookup: a name, and the values it may take where any are given.
#[derive(Debug, PartialEq, Eq)]
pub struct Filter {
    pub name: String,
    pub values: Option<Vec<String>>,
}

/// The mathematical reading of a [`Filter`].
pub struct FilterView {
    pub name: Seq<char>,
    pub values: Option<Seq<Seq<char>>>,
}

impl View for Filter {
    type V = FilterView;

    open spec fn view(&self) -> FilterView {
        FilterView {
            name: self.name@,
            values: match self.values {
                Some(values) => Some(strings_view(values@)),
                None => None,
            },
        }
    }
}

/// The literal every filter expression starts with.
pub open spec fn name_prefix() -> Seq<char> {
    "Name="@
}

/// The literal that starts the part after the first comma.
pub open spec fn values_prefix() -> Seq<char> {
    "Values="@
}

/// The separator between the name and the values, and between values.
pub open spec fn comma() -> char {
    ','
}

/// What a filter expression means, or `None` where it does not follow the grammar.
///
/// After `Name=`, the text up to the first comma is the name. Without a comma there are no
/// values. After the comma `Values=` must follow, and what is left is split at every comma,
/// each piece kept as it is.
pub open spec fn parse_filter(text: Seq<char>) -> Option<FilterView> {
    if !has_prefix(text, name_prefix()) {
        None
    } else {
        let rest = text.skip(name_prefix().len() as int);
        let at = find(rest, comma());
        if at >= rest.len() {
            Some(FilterView { name: rest, values: None })
        } else {
            let tail = rest.skip(at + 1);
            if !has_prefix(tail, values_prefix()) {
                None
            } else {
                Some(
                    FilterView {
                        name: rest.take(at),
                        values: Some(split(tail.skip(values_prefix().len() as int), comma())),
                    },
                )
            }
        }
    }
}

/// A name alone: for every name without a comma, `Name=<name>` is the filter of that name
/// with no values.
pub proof fn lemma_parse_name_only(name: Seq<char>)
    requires
        !name.contains(comma()),
    ensures
        parse_filter(name_prefix() + name) == Some(FilterView { name, values: None }),
{
    let text = name_prefix() + name;
    assert(text.take(name_prefix().len() as int) =~= name_prefix());
    assert(text.skip(name_prefix().len() as int) =~= name);
    lemma_find_is(name, comma(), name.len() as int);
}

/// A name with values: for every name and every non-empty list of values, none of them
/// holding a comma, `Name=<name>,Values=<v1>,...,<vk>` is the filter of that name with
/// exactly those values, in order, empty ones included.
pub proof fn lemma_parse_name_and_values(name: Seq<char>, values: Seq<Seq<char>>)
    requires
        !name.contains(comma()),
        values.len() >= 1,
        forall|i: int| 0 <= i < values.len() ==> !values[i].contains(comma()),
    ensures
        parse_filter(name_prefix() + name + ",Values="@ + join(values, comma())) == Some(
            FilterView { name, values: Some(values) },
        ),
{
    reveal_strlit(",Values=");
    reveal_strlit("Values=");
    let joined = join(values, comma());
    let text = name_prefix() + name + ",Values="@ + joined;
    assert(",Values="@ =~= seq![comma()] + values_prefix());
    assert(text.take(name_prefix().len() as int) =~= name_prefix());
    let rest = text.skip(name_prefix().len() as int);
    assert(rest =~= name + seq![comma()] + values_prefix() + joined);
    lemma_find_is(rest, comma(), name.len() as int);
    assert(rest.take(name.len() as int) =~= name);
    let tail = rest.skip(name.len() as int + 1);
    assert(tail =~= values_prefix() + joined);
    assert(tail.take(values_prefix().len() as int) =~= values_prefix());
    assert(tail.skip(values_prefix().len() as int) =~= joined);
    lemma_split_join(values, comma());
}

/// Where values are given there is at least one: what follows `Values=` is one value, which
/// may be empty, or more.
pub proof fn lemma_values_nonempty(text: Seq<char>)
    ensures
        parse_filter(text) matches Some(filter) ==> (filter.values matches Some(values)
            ==> values.len() >= 1),
{
    if has_prefix(text, name_prefix()) {
        let rest = text.skip(name_prefix().len() as int);
        let tail = rest.skip(find(rest, comma()) + 1);
        lemma_split_nonempty(tail.skip(values_prefix().len() as int), comma());
    }
}

/// The view of an optional filter.
pub open spec fn filter_option_view(filter: Option<Filter>) -> Option<FilterView> {
    match filter {
        Some(filter) => Some(filter@),
        None => None,
    }
}

/// Parses a filter expression; `None` where it does not follow the grammar.
pub fn try_parse_filter_as_option(s: &str) -> (filter: Option<Filter>)
    ensures
        filter_option_view(filter) == parse_filter(s@),
{
    let chars = to_chars(s);
    let n = chars.len();
    if !starts_with_at(&chars, 0, "Name=") {
        assert(chars@.skip(0) =~= s@);
        return None;
    }
    assert(chars@.skip(0) =~= s@);
    let start = "Name=".unicode_len();
    let at = find_from(&chars, start, ',');
    let ghost rest = s@.skip(start as int);
    if at >= n {
        let name = slice_string(s, start, n);
        assert(name@ =~= rest);
        return Some(Filter { name, values: None });
    }
    let tail_start = at + 1;
    let ghost tail = rest.skip(at - start + 1);
    assert(tail =~= s@.skip(tail_start as int));
    if !starts_with_at(&chars, tail_start, "Values=") {
        return None;
    }
    let first = tail_start + "Values=".unicode_len();
    let values = split_from(s, &chars, first, ',');
    let name = slice_string(s, start, at);
    assert(name@ =~= rest.take(at - start));
    assert(tail.skip(values_prefix().len() as int) =~= s@.skip(first as int));
    Some(Filter { name, values: Some(values) })
}

/// Parses a filter expression, or says which expression could not be parsed.
pub fn try_parse_filter(s: &str) -> (parsed: Result<Filter, Error>)
    ensures
        match parsed {
            Ok(filter) => parse_filter(s@) == Some(filter@),
            Err(error) => parse_filter(s@) is None && error@ == (ErrorView::FilterSyntaxError {
                input: s@,
            }),
        },
{
    match try_parse_filter_as_option(s) {
        Some(filter) => Ok(filter),
        None => Err(Error::FilterSyntaxError { input: String::from_str(s) }),
    }
}

} // verus!
