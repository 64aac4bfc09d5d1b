//! The analytics query: its GraphQL text, and the request payload that
//! carries that text as the one string of a JSON object.

use vstd::prelude::*;
use crate::json_text::{
    is_plain, is_single_string_object, lemma_string_value_concat, lemma_string_value_escaped_quote,
    lemma_string_value_plain, string_value,
};
use crate::text::{decimal, decimal_text, lemma_occurs_between, lemma_occurs_widen, occurs_in};

verus! {

/// What to ask for: the zone, the window of time with both ends included,
/// and the largest number of status groups to get back.
///
/// The texts are taken as they are; nothing checks that the dates are dates.
pub struct CfFetchOptions<'a> {
    pub zone_id: &'a str,
    pub start_date: &'a str,
    pub end_date: &'a str,
    pub limit: u32,
}

/// The query up to the zone's identifier.
pub open spec fn selection_head() -> Seq<char> {
    "{ viewer { zones(filter: {zoneTag: "@
}

/// The query between the zone's identifier and the limit.
pub open spec fn groups_head() -> Seq<char> {
    "}) { httpRequestsAdaptiveGroups(limit: "@
}

/// The query between the limit and the window's start.
pub open spec fn window_head() -> Seq<char> {
    ", filter: {datetime_geq: "@
}

/// The query between the window's start and its end.
pub open spec fn window_middle() -> Seq<char> {
    ", datetime_leq: "@
}

/// The query after the window's end: the order and the fields to return.
pub open spec fn projection() -> Seq<char> {
    "}, orderBy: [count_DESC]) { count dimensions { edgeResponseStatus } }}}}"@
}

/// A text between double quotes.
pub open spec fn quoted(text: Seq<char>) -> Seq<char> {
    seq!['"'] + text + seq!['"']
}

/// A text between double quotes that are each preceded by a backslash.
pub open spec fn quoted_escaped(text: Seq<char>) -> Seq<char> {
    seq!['\\', '"'] + text + seq!['\\', '"']
}

/// The GraphQL query: for the zone `zone`, at most `limit` groups of requests
/// by response status within `[start, end]`, largest count first, each with
/// its count and its status.
pub open spec fn graphql_text(zone: Seq<char>, start: Seq<char>, end: Seq<char>, limit: nat) -> Seq<
    char,
> {
    selection_head() + quoted(zone) + groups_head() + decimal(limit) + window_head() + quoted(start)
        + window_middle() + quoted(end) + projection()
}

/// The query as it stands inside the payload: the quotes round the three
/// texts escaped, the texts themselves untouched.
pub open spec fn embedded_query(zone: Seq<char>, start: Seq<char>, end: Seq<char>, limit: nat) -> Seq<
    char,
> {
    selection_head() + quoted_escaped(zone) + groups_head() + decimal(limit) + window_head()
        + quoted_escaped(start) + window_middle() + quoted_escaped(end) + projection()
}

/// The request payload: `{"query": "` and `"}` round the embedded query.
pub open spec fn payload_text(zone: Seq<char>, start: Seq<char>, end: Seq<char>, limit: nat) -> Seq<
    char,
> {
    "{\"query\": \""@ + embedded_query(zone, start, end, limit) + "\"}"@
}

impl<'a> CfFetchOptions<'a> {
    /// The payload that these options ask for.
    pub open spec fn payload(&self) -> Seq<char> {
        payload_text(self.zone_id@, self.start_date@, self.end_date@, self.limit as nat)
    }
}

/// Builds the request payload for `opts`.
///
/// The zone and the two dates go into the text unchanged and unchecked, the
/// limit as a decimal numeral.
pub fn build_query(opts: &CfFetchOptions) -> (payload: String)
    ensures
        payload@ == opts.payload(),
{
    proof {
        reveal_strlit("\\\"");
    }
    let limit = decimal_text(opts.limit as u64);
    let mut text = String::from_str("{\"query\": \"");
    text.append("{ viewer { zones(filter: {zoneTag: ");
    text.append("\\\"");
    text.append(opts.zone_id);
    text.append("\\\"");
    text.append("}) { httpRequestsAdaptiveGroups(limit: ");
    text.append(limit.as_str());
    text.append(", filter: {datetime_geq: ");
    text.append("\\\"");
    text.append(opts.start_date);
    text.append("\\\"");
    text.append(", datetime_leq: ");
    text.append("\\\"");
    text.append(opts.end_date);
    text.append("\\\"");
    text.append("}, orderBy: [count_DESC]) { count dimensions { edgeResponseStatus } }}}}");
    text.append("\"}");
    assert("\\\""@ =~= seq!['\\', '"']);
    assert(text@ =~= opts.payload());
    text
}

proof fn lemma_decimal_is_plain(n: nat)
    ensures
        is_plain(decimal(n)),
    decreases n,
{
    if n >= 10 {
        lemma_decimal_is_plain(n / 10);
    }
}

proof fn lemma_fixed_parts_are_plain()
    ensures
        is_plain(selection_head()),
        is_plain(groups_head()),
        is_plain(window_head()),
        is_plain(window_middle()),
        is_plain(projection()),
{
    reveal_strlit("{ viewer { zones(filter: {zoneTag: ");
    reveal_strlit("}) { httpRequestsAdaptiveGroups(limit: ");
    reveal_strlit(", filter: {datetime_geq: ");
    reveal_strlit(", datetime_leq: ");
    reveal_strlit("}, orderBy: [count_DESC]) { count dimensions { edgeResponseStatus } }}}}");
}

/// Between the quotes of a string literal, a plain text with escaped quotes
/// round it stands for the text with quotes round it.
proof fn lemma_quoted_escaped_value(text: Seq<char>)
    requires
        is_plain(text),
    ensures
        string_value(quoted_escaped(text)) == Some(quoted(text)),
{
    let escaped_quote = seq!['\\', '"'];
    let quote = seq!['"'];
    lemma_string_value_escaped_quote();
    lemma_string_value_plain(text);
    lemma_string_value_concat(escaped_quote, quote, text, text);
    lemma_string_value_concat(escaped_quote + text, quote + text, escaped_quote, quote);
}

/// Between the quotes of a string literal, the embedded query of plain
/// texts stands for the GraphQL query.
proof fn lemma_embedded_query_value(zone: Seq<char>, start: Seq<char>, end: Seq<char>, limit: nat)
    requires
        is_plain(zone),
        is_plain(start),
        is_plain(end),
    ensures
        string_value(embedded_query(zone, start, end, limit)) == Some(
            graphql_text(zone, start, end, limit),
        ),
{
    lemma_fixed_parts_are_plain();
    lemma_decimal_is_plain(limit);
    lemma_string_value_plain(selection_head());
    lemma_string_value_plain(groups_head());
    lemma_string_value_plain(decimal(limit));
    lemma_string_value_plain(window_head());
    lemma_string_value_plain(window_middle());
    lemma_string_value_plain(projection());
    lemma_quoted_escaped_value(zone);
    lemma_quoted_escaped_value(start);
    lemma_quoted_escaped_value(end);
    let e1 = selection_head();
    let t1 = selection_head();
    lemma_string_value_concat(e1, t1, quoted_escaped(zone), quoted(zone));
    let e2 = e1 + quoted_escaped(zone);
    let t2 = t1 + quoted(zone);
    lemma_string_value_concat(e2, t2, groups_head(), groups_head());
    let e3 = e2 + groups_head();
    let t3 = t2 + groups_head();
    lemma_string_value_concat(e3, t3, decimal(limit), decimal(limit));
    let e4 = e3 + decimal(limit);
    let t4 = t3 + decimal(limit);
    lemma_string_value_concat(e4, t4, window_head(), window_head());
    let e5 = e4 + window_head();
    let t5 = t4 + window_head();
    lemma_string_value_concat(e5, t5, quoted_escaped(start), quoted(start));
    let e6 = e5 + quoted_escaped(start);
    let t6 = t5 + quoted(start);
    lemma_string_value_concat(e6, t6, window_middle(), window_middle());
    let e7 = e6 + window_middle();
    let t7 = t6 + window_middle();
    lemma_string_value_concat(e7, t7, quoted_escaped(end), quoted(end));
    let e8 = e7 + quoted_escaped(end);
    let t8 = t7 + quoted(end);
    lemma_string_value_concat(e8, t8, projection(), projection());
}

/// Equal options give the same payload, character for character, and so
/// byte for byte.
pub proof fn lemma_payload_is_a_function(a: CfFetchOptions, b: CfFetchOptions)
    requires
        a.zone_id@ == b.zone_id@,
        a.start_date@ == b.start_date@,
        a.end_date@ == b.end_date@,
        a.limit == b.limit,
    ensures
        a.payload() == b.payload(),
{
}

/// For a zone and dates that hold no double quote, backslash or control
/// character, the payload is the JSON text of an object with the single
/// member `query`, a string whose value is the GraphQL query.
pub proof fn lemma_payload_is_json(zone: Seq<char>, start: Seq<char>, end: Seq<char>, limit: nat)
    requires
        is_plain(zone),
        is_plain(start),
        is_plain(end),
    ensures
        is_single_string_object(
            payload_text(zone, start, end, limit),
            "query"@,
            graphql_text(zone, start, end, limit),
        ),
{
    lemma_embedded_query_value(zone, start, end, limit);
    reveal_strlit("query");
    reveal_strlit("{\"query\": \"");
    reveal_strlit("\"}");
    let name = "query"@;
    let embedded = embedded_query(zone, start, end, limit);
    assert(is_plain(name));
    lemma_string_value_plain(name);
    assert("{\"query\": \""@ =~= seq!['{', '"'] + name + seq!['"', ':', ' ', '"']);
    assert("\"}"@ =~= seq!['"', '}']);
    assert(payload_text(zone, start, end, limit) =~= seq!['{', '"'] + name + seq![
        '"',
        ':',
        ' ',
        '"',
    ] + embedded + seq!['"', '}']);
    assert(string_value(name) == Some(name) && string_value(embedded) == Some(
        graphql_text(zone, start, end, limit),
    ));
}

/// The GraphQL query holds the zone, both dates and the limit's numeral as
/// they are.
pub proof fn lemma_query_holds_its_parameters(zone: Seq<char>, start: Seq<char>, end: Seq<char>, limit: nat)
    ensures
        occurs_in(zone, graphql_text(zone, start, end, limit)),
        occurs_in(start, graphql_text(zone, start, end, limit)),
        occurs_in(end, graphql_text(zone, start, end, limit)),
        occurs_in(decimal(limit), graphql_text(zone, start, end, limit)),
{
    let query = graphql_text(zone, start, end, limit);
    let quote = seq!['"'];
    let number = decimal(limit);
    assert(occurs_in(zone, query)) by {
        let before = selection_head();
        let after = groups_head() + number + window_head() + quoted(start) + window_middle()
            + quoted(end) + projection();
        lemma_occurs_between(quote, zone, quote);
        lemma_occurs_widen(zone, before, quoted(zone), after);
        assert(query =~= before + quoted(zone) + after);
    }
    assert(occurs_in(number, query)) by {
        let before = selection_head() + quoted(zone) + groups_head();
        let after = window_head() + quoted(start) + window_middle() + quoted(end) + projection();
        lemma_occurs_between(before, number, after);
        assert(query =~= before + number + after);
    }
    assert(occurs_in(start, query)) by {
        let before = selection_head() + quoted(zone) + groups_head() + number + window_head();
        let after = window_middle() + quoted(end) + projection();
        lemma_occurs_between(quote, start, quote);
        lemma_occurs_widen(start, before, quoted(start), after);
        assert(query =~= before + quoted(start) + after);
    }
    assert(occurs_in(end, query)) by {
        let before = selection_head() + quoted(zone) + groups_head() + number + window_head()
            + quoted(start) + window_middle();
        let after = projection();
        lemma_occurs_between(quote, end, quote);
        lemma_occurs_widen(end, before, quoted(end), after);
        assert(query =~= before + quoted(end) + after);
    }
}

} // verus!
