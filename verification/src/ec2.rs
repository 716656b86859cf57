//! The tag lookup: filters in, a list of tag records out.

use vstd::prelude::*;
use vstd::string::*;
use crate::args::{as_string_list, as_text_list, wrong_type};
use crate::error::{result_view, Error, ErrorView, Expected};
use crate::filter::{parse_filter, try_parse_filter, Filter, FilterView};
use crate::text::{option_text, strings_view};
use crate::value::{get, lemma_members_same, lookup, members_view, Json, JsonView};

verus! {

/// One tag as the provider describes it. Any field may be missing.
#[derive(Debug, PartialEq, Eq)]
pub struct TagDescription {
    pub key: Option<String>,
    pub resource_id: Option<String>,
    pub resource_type: Option<String>,
    pub value: Option<String>,
}

/// The mathematical reading of a [`TagDescription`].
pub struct TagView {
    pub key: Option<Seq<char>>,
    pub resource_id: Option<Seq<char>>,
    pub resource_type: Option<Seq<char>>,
    pub value: Option<Seq<char>>,
}

impl View for TagDescription {
    type V = TagView;

    open spec fn view(&self) -> TagView {
        TagView {
            key: option_text(self.key),
            resource_id: option_text(self.resource_id),
            resource_type: option_text(self.resource_type),
            value: option_text(self.value),
        }
    }
}

/// The name under which the tag lookup is called.
pub open spec fn function_name() -> Seq<char> {
    "ec2_describe_tags"@
}

/// The name of the one argument of the tag lookup.
pub open spec fn filters_key() -> Seq<char> {
    "filters"@
}

/// The views of a list of filters, in order.
pub open spec fn filters_view(filters: Seq<Filter>) -> Seq<FilterView> {
    Seq::new(filters.len(), |i: int| filters[i]@)
}

/// The views of a list of tags, in order.
pub open spec fn tags_view(tags: Seq<TagDescription>) -> Seq<TagView> {
    Seq::new(tags.len(), |i: int| tags[i]@)
}

/// All the filter expressions parsed, or the failure of the first that cannot be.
pub open spec fn parse_filters(texts: Seq<Seq<char>>) -> Result<Seq<FilterView>, ErrorView>
    decreases texts.len(),
{
    if texts.len() == 0 {
        Ok(Seq::empty())
    } else {
        match parse_filter(texts[0]) {
            None => Err(ErrorView::FilterSyntaxError { input: texts[0] }),
            Some(filter) => match parse_filters(texts.drop_first()) {
                Ok(rest) => Ok(seq![filter] + rest),
                Err(error) => Err(error),
            },
        }
    }
}

/// What a call's arguments ask for: no filters where `filters` is absent, the parsed filters
/// where it is a list of filter expressions, and a failure otherwise.
pub open spec fn tag_request(args: Seq<(String, Json)>) -> Result<
    Option<Seq<FilterView>>,
    ErrorView,
> {
    match lookup(args, filters_key()) {
        None => Ok(None),
        Some(value) => match as_text_list(value@) {
            None => Err(wrong_type(function_name(), filters_key(), value@, Expected::StringList)),
            Some(texts) => match parse_filters(texts) {
                Ok(filters) => Ok(Some(filters)),
                Err(error) => Err(error),
            },
        },
    }
}

/// The value that stands for a field: its string, or null where the field is missing.
pub open spec fn nullable(field: Option<Seq<char>>) -> JsonView {
    match field {
        Some(text) => JsonView::String(text),
        None => JsonView::Null,
    }
}

/// The four members that a tag is shaped into.
pub open spec fn tag_members(tag: TagView) -> Map<Seq<char>, JsonView> {
    Map::empty().insert("key"@, nullable(tag.key)).insert(
        "resource_id"@,
        nullable(tag.resource_id),
    ).insert("resource_type"@, nullable(tag.resource_type)).insert("value"@, nullable(tag.value))
}

/// A tag as a structured value.
pub open spec fn tag_json(tag: TagView) -> JsonView {
    JsonView::Object(tag_members(tag))
}

/// A provider's answer as a structured value: null where it holds no tag collection,
/// else the list of its tags.
pub open spec fn tags_json(tags: Option<Seq<TagView>>) -> JsonView {
    match tags {
        None => JsonView::Null,
        Some(tags) => JsonView::Array(Seq::new(tags.len(), |i: int| tag_json(tags[i]))),
    }
}

/// What the call returns for what came back from the provider.
pub open spec fn tag_response(outcome: Result<Option<Seq<TagView>>, Seq<char>>) -> Result<
    JsonView,
    ErrorView,
> {
    match outcome {
        Ok(tags) => Ok(tags_json(tags)),
        Err(cause) => Err(ErrorView::ApiError { cause }),
    }
}

/// The view of a decoded request.
pub open spec fn request_view(request: Result<Option<Vec<Filter>>, Error>) -> Result<
    Option<Seq<FilterView>>,
    ErrorView,
> {
    match request {
        Ok(Some(filters)) => Ok(Some(filters_view(filters@))),
        Ok(None) => Ok(None),
        Err(error) => Err(error@),
    }
}

/// The view of what the provider answered.
pub open spec fn outcome_view(outcome: Result<Option<Vec<TagDescription>>, String>) -> Result<
    Option<Seq<TagView>>,
    Seq<char>,
> {
    match outcome {
        Ok(Some(tags)) => Ok(Some(tags_view(tags@))),
        Ok(None) => Ok(None),
        Err(cause) => Err(cause@),
    }
}

/// Without a `filters` argument the call asks for all tags: the request holds no filters.
pub proof fn lemma_no_filters_argument(args: Seq<(String, Json)>)
    requires
        lookup(args, filters_key()) is None,
    ensures
        tag_request(args) == Ok::<Option<Seq<FilterView>>, ErrorView>(None),
{
}

/// Where an expression cannot be parsed, parsing the list fails at the first such
/// expression, which is at or before the given one. The place of that first one is returned.
pub proof fn lemma_parse_filters_invalid(texts: Seq<Seq<char>>, at: int) -> (first: int)
    requires
        0 <= at < texts.len(),
        parse_filter(texts[at]) is None,
    ensures
        0 <= first <= at,
        parse_filter(texts[first]) is None,
        forall|i: int| 0 <= i < first ==> parse_filter(texts[i]) is Some,
        parse_filters(texts) == Err::<Seq<FilterView>, ErrorView>(
            ErrorView::FilterSyntaxError { input: texts[first] },
        ),
    decreases at,
{
    if parse_filter(texts[0]) is None {
        0
    } else {
        let rest = texts.drop_first();
        assert(rest[at - 1] == texts[at]);
        let first = lemma_parse_filters_invalid(rest, at - 1);
        assert(rest[first] == texts[first + 1]);
        assert forall|i: int| 0 <= i < first + 1 implies parse_filter(texts[i]) is Some by {
            if i > 0 {
                assert(rest[i - 1] == texts[i]);
            }
        }
        first + 1
    }
}

/// A call whose `filters` hold an expression that cannot be parsed fails with a syntax
/// error that names such an expression of the list, whatever the other expressions are:
/// the first of them, so the given one where those before it can be parsed.
pub proof fn lemma_invalid_filter_fails(args: Seq<(String, Json)>, texts: Seq<Seq<char>>, at: int)
    requires
        lookup(args, filters_key()) matches Some(value) && as_text_list(value@) == Some(texts),
        0 <= at < texts.len(),
        parse_filter(texts[at]) is None,
    ensures
        tag_request(args) matches Err(ErrorView::FilterSyntaxError { input }) && exists|j: int|
            0 <= j <= at && input == texts[j] && parse_filter(#[trigger] texts[j]) is None,
        (forall|i: int| 0 <= i < at ==> parse_filter(texts[i]) is Some) ==> tag_request(args)
            == Err::<Option<Seq<FilterView>>, ErrorView>(
            ErrorView::FilterSyntaxError { input: texts[at] },
        ),
{
    let first = lemma_parse_filters_invalid(texts, at);
    assert(parse_filter(texts[first]) is None);
}

/// A shaped tag has the four keys `key`, `resource_id`, `resource_type` and `value`, and no
/// other; each holds the field's string, or null where the field is missing.
pub proof fn lemma_tag_members(tag: TagView)
    ensures
        tag_members(tag).dom() =~= set!["key"@, "resource_id"@, "resource_type"@, "value"@],
        tag_members(tag)["key"@] == nullable(tag.key),
        tag_members(tag)["resource_id"@] == nullable(tag.resource_id),
        tag_members(tag)["resource_type"@] == nullable(tag.resource_type),
        tag_members(tag)["value"@] == nullable(tag.value),
{
    reveal_strlit("key");
    reveal_strlit("resource_id");
    reveal_strlit("resource_type");
    reveal_strlit("value");
    assert("key"@.len() == 3);
    assert("resource_id"@.len() == 11);
    assert("resource_type"@.len() == 13);
    assert("value"@.len() == 5);
}

/// Every element of a shaped answer is a shaped tag, in the provider's order.
pub proof fn lemma_tags_json(tags: Seq<TagView>, i: int)
    requires
        0 <= i < tags.len(),
    ensures
        tags_json(Some(tags)) is Array,
        tags_json(Some(tags))->Array_0.len() == tags.len(),
        tags_json(Some(tags))->Array_0[i] == JsonView::Object(tag_members(tags[i])),
{
}

/// The value that stands for a field: its string, or null where the field is missing.
pub fn nullable_string(field: &Option<String>) -> (value: Json)
    ensures
        value@ == nullable(option_text(*field)),
{
    match field {
        Some(text) => Json::String(text.clone()),
        None => Json::Null,
    }
}

/// Puts a field into a map under `key`, as a string or as null: one member more, which
/// replaces what the map held under `key`.
pub fn insert_nullable_string(field: &Option<String>, map: &mut Vec<(String, Json)>, key: &str)
    ensures
        final(map)@.len() == old(map)@.len() + 1,
        final(map)@.drop_last() == old(map)@,
        final(map)@.last().0@ == key@,
        final(map)@.last().1@ == nullable(option_text(*field)),
        members_view(*final(map), final(map)@.len()) == members_view(
            *old(map),
            old(map)@.len(),
        ).insert(key@, nullable(option_text(*field))),
{
    let ghost before = *map;
    let value = nullable_string(field);
    map.push((String::from_str(key), value));
    proof {
        assert(map@.drop_last() =~= before@);
        lemma_members_same(*map, before, before@.len());
    }
}

/// Shapes a tag into a map of its four fields.
pub fn shape_tag(tag: &TagDescription) -> (shaped: Json)
    ensures
        shaped@ == tag_json(tag@),
{
    let mut map: Vec<(String, Json)> = Vec::new();
    insert_nullable_string(&tag.key, &mut map, "key");
    insert_nullable_string(&tag.resource_id, &mut map, "resource_id");
    insert_nullable_string(&tag.resource_type, &mut map, "resource_type");
    insert_nullable_string(&tag.value, &mut map, "value");
    Json::Object(map)
}

/// Shapes a provider's answer: null where it holds no tag collection, else the list of its
/// tags, each shaped.
pub fn shape_tags(tags: &Option<Vec<TagDescription>>) -> (shaped: Json)
    ensures
        shaped@ == tags_json(
            match *tags {
                Some(tags) => Some(tags_view(tags@)),
                None => None,
            },
        ),
{
    match tags {
        None => Json::Null,
        Some(tags) => {
            let mut items: Vec<Json> = Vec::new();
            let mut i: usize = 0;
            while i < tags.len()
                invariant
                    i <= tags.len(),
                    items@.len() == i,
                    forall|k: int| 0 <= k < i ==> items@[k]@ == tag_json(tags@[k]@),
                decreases tags.len() - i,
            {
                items.push(shape_tag(&tags[i]));
                i += 1;
            }
            let shaped = Json::Array(items);
            assert(shaped@->Array_0 =~= tags_json(Some(tags_view(tags@)))->Array_0);
            shaped
        },
    }
}

/// Parses every filter expression, stopping at the first that cannot be parsed.
pub fn parse_all_filters(texts: &Vec<String>) -> (parsed: Result<Vec<Filter>, Error>)
    ensures
        match parsed {
            Ok(filters) => parse_filters(strings_view(texts@)) == Ok::<
                Seq<FilterView>,
                ErrorView,
            >(filters_view(filters@)),
            Err(error) => parse_filters(strings_view(texts@)) == Err::<Seq<FilterView>, ErrorView>(
                error@,
            ),
        },
{
    let ghost all = strings_view(texts@);
    let mut filters: Vec<Filter> = Vec::new();
    let mut i: usize = 0;
    assert(all.skip(0) =~= all);
    assert(Seq::<FilterView>::empty() + filters_view(filters@) =~= filters_view(filters@));
    while i < texts.len()
        invariant
            i <= texts.len(),
            all == strings_view(texts@),
            parse_filters(all) == match parse_filters(all.skip(i as int)) {
                Ok(rest) => Ok::<Seq<FilterView>, ErrorView>(filters_view(filters@) + rest),
                Err(error) => Err(error),
            },
        decreases texts.len() - i,
    {
        let ghost rest = all.skip(i as int);
        assert(rest[0] == texts@[i as int]@);
        assert(rest.drop_first() =~= all.skip(i + 1));
        match try_parse_filter(texts[i].as_str()) {
            Ok(filter) => {
                proof {
                    let ghost done = filters_view(filters@);
                    assert(filters_view(filters@.push(filter)) =~= done + seq![filter@]);
                    match parse_filters(all.skip(i + 1)) {
                        Ok(more) => {
                            assert((done + seq![filter@]) + more =~= done + (seq![filter@] + more));
                        },
                        Err(_) => {},
                    }
                }
                filters.push(filter);
            },
            Err(error) => {
                return Err(error);
            },
        }
        i += 1;
    }
    assert(all.skip(i as int) =~= Seq::<Seq<char>>::empty());
    assert(filters_view(filters@) + Seq::<FilterView>::empty() =~= filters_view(filters@));
    Ok(filters)
}

/// The tag lookup, as far as it decides: what to ask the provider for, and what to make of
/// the answer. Asking is left to the caller.
#[derive(Clone, Copy, Debug, PartialEq, Eq)]
pub struct Ec2DescribeTags {}

impl Ec2DescribeTags {
    pub fn new() -> Self {
        Ec2DescribeTags {  }
    }

    /// The name under which the function is called.
    pub fn name(&self) -> (name: &'static str)
        ensures
            name@ == function_name(),
    {
        "ec2_describe_tags"
    }

    /// Decodes the arguments of a call into the filters to ask the provider with.
    pub fn request(&self, args: &Vec<(String, Json)>) -> (request: Result<
        Option<Vec<Filter>>,
        Error,
    >)
        ensures
            request_view(request) == tag_request(args@),
    {
        match get(args, "filters") {
            None => Ok(None),
            Some(value) => match as_string_list(value, "ec2_describe_tags", "filters") {
                Err(error) => Err(error),
                Ok(texts) => match parse_all_filters(&texts) {
                    Ok(filters) => Ok(Some(filters)),
                    Err(error) => Err(error),
                },
            },
        }
    }

    /// Shapes what came back from the provider: its tags, or its failure as the call's own.
    pub fn respond(&self, outcome: Result<Option<Vec<TagDescription>>, String>) -> (result: Result<
        Json,
        Error,
    >)
        ensures
            result_view(result) == tag_response(outcome_view(outcome)),
    {
        match outcome {
            Ok(tags) => Ok(shape_tags(&tags)),
            Err(cause) => Err(Error::ApiError { cause }),
        }
    }
}

} // verus!
