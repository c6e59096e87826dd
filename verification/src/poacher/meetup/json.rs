//! Reading the JSON of meetup.com's search responses: which members of the
//! response the searches read, and how serde reads each of them.
use vstd::prelude::*;

use serde_json::{Number, Value};
use url::Url;

use super::search::{
    EventFields, EventNode, EventSearchResponse, EventSearchResults, GroupNode,
    GroupSearchResponse, GroupSearchResults,
};
use super::MeetupGroup;

verus! {

/// `serde_json::Value`: a JSON document.
#[verifier::external_type_specification]
#[verifier::external_body]
pub struct ExJsonValue(Value);

/// `serde_json::Number`: a JSON number.
#[verifier::external_type_specification]
#[verifier::external_body]
pub struct ExJsonNumber(Number);

/// What `serde_json::from_str::<Value>(text)` reads from `text`.
pub uninterp spec fn json_text_parse(text: Seq<char>) -> Result<Value, serde_json::Error>;

/// `&v[key]`: the member `key` of the object `v`; null where `v` is no
/// object or has no such member.
pub uninterp spec fn json_member(v: Value, key: Seq<char>) -> Value;

/// `Value::is_null`.
pub uninterp spec fn json_is_null(v: Value) -> bool;

/// `Value::as_array`: the elements of `v`, where it is an array.
pub uninterp spec fn json_array(v: Value) -> Option<Seq<Value>>;

/// `Value::as_str`: the text of `v`, where it is a string.
pub uninterp spec fn json_str(v: Value) -> Option<Seq<char>>;

/// The JSON text of `v`, as its `Display` writes it.
pub uninterp spec fn json_text(v: Value) -> Seq<char>;

/// What `serde_json::from_value::<bool>(v)` gives.
pub uninterp spec fn json_bool_read(v: Value) -> Result<bool, serde_json::Error>;

/// What `serde_json::from_value::<Url>(v)` gives.
pub uninterp spec fn json_url_read(v: Value) -> Result<Url, serde_json::Error>;

/// What `serde_json::from_value::<String>(v)` gives.
pub uninterp spec fn json_string_read(v: Value) -> Result<Seq<char>, serde_json::Error>;

/// What `serde_json::from_value::<Option<String>>(v)` gives.
pub uninterp spec fn json_opt_string_read(v: Value) -> Result<Option<Seq<char>>, serde_json::Error>;

/// What `serde_json::from_value::<Option<Number>>(v)` gives.
pub uninterp spec fn json_opt_number_read(v: Value) -> Result<Option<Number>, serde_json::Error>;

/// The error that serde reports for a struct whose member `field` is missing.
pub uninterp spec fn missing_field_error(field: Seq<char>) -> serde_json::Error;

/// `serde_json::from_str::<Value>`.
#[verifier::external_body]
pub(crate) fn parse_json(text: &str) -> (r: Result<Value, serde_json::Error>)
    ensures
        r == json_text_parse(text@),
{
    serde_json::from_str(text)
}

/// `Index<&str> for Value`.
#[verifier::external_body]
fn json_get<'a>(v: &'a Value, key: &str) -> (r: &'a Value)
    ensures
        *r == json_member(*v, key@),
{
    &v[key]
}

/// `Value::is_null`.
#[verifier::external_body]
fn json_null(v: &Value) -> (b: bool)
    ensures
        b == json_is_null(*v),
{
    v.is_null()
}

/// `Value::as_array`.
#[verifier::external_body]
fn json_as_array(v: &Value) -> (r: Option<&Vec<Value>>)
    ensures
        match r {
            Some(a) => json_array(*v) == Some(a@),
            None => json_array(*v) is None,
        },
{
    v.as_array()
}

/// `Value::as_str`.
#[verifier::external_body]
fn json_as_str(v: &Value) -> (r: Option<&str>)
    ensures
        match r {
            Some(s) => json_str(*v) == Some(s@),
            None => json_str(*v) is None,
        },
{
    v.as_str()
}

/// `Value::to_string`.
#[verifier::external_body]
fn json_display(v: &Value) -> (s: String)
    ensures
        s@ == json_text(*v),
{
    v.to_string()
}

/// `serde_json::from_value::<bool>`.
#[verifier::external_body]
fn read_bool(v: &Value) -> (r: Result<bool, serde_json::Error>)
    ensures
        r == json_bool_read(*v),
{
    serde_json::from_value(v.clone())
}

/// `serde_json::from_value::<Url>`.
#[verifier::external_body]
fn read_url(v: &Value) -> (r: Result<Url, serde_json::Error>)
    ensures
        r == json_url_read(*v),
{
    serde_json::from_value(v.clone())
}

/// `serde_json::from_value::<String>`.
#[verifier::external_body]
fn read_string(v: &Value) -> (r: Result<String, serde_json::Error>)
    ensures
        match r {
            Ok(s) => json_string_read(*v) == Ok::<Seq<char>, serde_json::Error>(s@),
            Err(e) => json_string_read(*v) == Err::<Seq<char>, serde_json::Error>(e),
        },
{
    serde_json::from_value(v.clone())
}

/// `serde_json::from_value::<Option<String>>`.
#[verifier::external_body]
fn read_opt_string(v: &Value) -> (r: Result<Option<String>, serde_json::Error>)
    ensures
        match r {
            Ok(o) => json_opt_string_read(*v) == Ok::<Option<Seq<char>>, serde_json::Error>(
                opt_view(o),
            ),
            Err(e) => json_opt_string_read(*v) == Err::<Option<Seq<char>>, serde_json::Error>(e),
        },
{
    serde_json::from_value(v.clone())
}

/// `serde_json::from_value::<Option<Number>>`.
#[verifier::external_body]
fn read_opt_number(v: &Value) -> (r: Result<Option<Number>, serde_json::Error>)
    ensures
        r == json_opt_number_read(*v),
{
    serde_json::from_value(v.clone())
}

/// `serde::de::Error::missing_field` for `serde_json::Error`.
#[verifier::external_body]
fn missing_field(field: &'static str) -> (e: serde_json::Error)
    ensures
        e == missing_field_error(field@),
{
    <serde_json::Error as serde::de::Error>::missing_field(field)
}

/// The texts of an optional string.
pub open spec fn opt_view(o: Option<String>) -> Option<Seq<char>> {
    match o {
        Some(s) => Some(s@),
        None => None,
    }
}

/// `r` is what serde reads as a group from a JSON object whose members, in
/// the order of their keys, are `city`, `country`, `description`, `id`,
/// `is_private`, `link`, `name`, then `slug` where `has_slug`, then `state`
/// (a `photo` member always reads): the first member that does not read
/// gives the error; an object without `slug` then misses it; otherwise the
/// group, without a photo.
pub open spec fn is_group_read(
    r: Result<MeetupGroup, serde_json::Error>,
    city: Value,
    country: Value,
    description: Value,
    id: Value,
    is_private: Value,
    link: Value,
    name: Value,
    slug: Value,
    has_slug: bool,
    state: Value,
) -> bool {
    match json_string_read(city) {
        Err(e) => r == Err::<MeetupGroup, serde_json::Error>(e),
        Ok(ci) => match json_string_read(country) {
            Err(e) => r == Err::<MeetupGroup, serde_json::Error>(e),
            Ok(co) => match json_string_read(description) {
                Err(e) => r == Err::<MeetupGroup, serde_json::Error>(e),
                Ok(de) => match json_string_read(id) {
                    Err(e) => r == Err::<MeetupGroup, serde_json::Error>(e),
                    Ok(i) => match json_bool_read(is_private) {
                        Err(e) => r == Err::<MeetupGroup, serde_json::Error>(e),
                        Ok(p) => match json_string_read(link) {
                            Err(e) => r == Err::<MeetupGroup, serde_json::Error>(e),
                            Ok(l) => match json_string_read(name) {
                                Err(e) => r == Err::<MeetupGroup, serde_json::Error>(e),
                                Ok(n) => match (if has_slug {
                                    json_string_read(slug)
                                } else {
                                    Ok(Seq::empty())
                                }) {
                                    Err(e) => r == Err::<MeetupGroup, serde_json::Error>(e),
                                    Ok(sl) => match json_string_read(state) {
                                        Err(e) => r == Err::<MeetupGroup, serde_json::Error>(e),
                                        Ok(st) => if !has_slug {
                                            r == Err::<MeetupGroup, serde_json::Error>(
                                                missing_field_error("slug"@),
                                            )
                                        } else {
                                            r matches Ok(g) && {
                                                &&& g.city@ == ci
                                                &&& g.country@ == co
                                                &&& g.description@ == de
                                                &&& g.id@ == i
                                                &&& g.is_private == p
                                                &&& g.link@ == l
                                                &&& g.name@ == n
                                                &&& g.slug@ == sl
                                                &&& g.state@ == st
                                                &&& g.photo is None
                                            }
                                        },
                                    },
                                },
                            },
                        },
                    },
                },
            },
        },
    }
}

/// Reads a group from the members of a JSON object as serde does: see
/// [`is_group_read`].
fn read_group(
    city: &Value,
    country: &Value,
    description: &Value,
    id: &Value,
    is_private: &Value,
    link: &Value,
    name: &Value,
    slug: &Value,
    has_slug: bool,
    state: &Value,
) -> (r: Result<MeetupGroup, serde_json::Error>)
    ensures
        is_group_read(
            r,
            *city,
            *country,
            *description,
            *id,
            *is_private,
            *link,
            *name,
            *slug,
            has_slug,
            *state,
        ),
{
    let city = match read_string(city) {
        Ok(s) => s,
        Err(e) => {
            return Err(e);
        },
    };
    let country = match read_string(country) {
        Ok(s) => s,
        Err(e) => {
            return Err(e);
        },
    };
    let description = match read_string(description) {
        Ok(s) => s,
        Err(e) => {
            return Err(e);
        },
    };
    let id = match read_string(id) {
        Ok(s) => s,
        Err(e) => {
            return Err(e);
        },
    };
    let is_private = match read_bool(is_private) {
        Ok(b) => b,
        Err(e) => {
            return Err(e);
        },
    };
    let link = match read_string(link) {
        Ok(s) => s,
        Err(e) => {
            return Err(e);
        },
    };
    let name = match read_string(name) {
        Ok(s) => s,
        Err(e) => {
            return Err(e);
        },
    };
    let slug = if has_slug {
        match read_string(slug) {
            Ok(s) => Some(s),
            Err(e) => {
                return Err(e);
            },
        }
    } else {
        None
    };
    let state = match read_string(state) {
        Ok(s) => s,
        Err(e) => {
            return Err(e);
        },
    };
    match slug {
        None => Err(missing_field("slug")),
        Some(slug) => Ok(
            MeetupGroup {
                id,
                slug,
                name,
                link,
                description,
                city,
                state,
                country,
                is_private,
                photo: None,
            },
        ),
    }
}

/// `r` is what serde reads as the fields of an event from a JSON object whose
/// members, in the order of their keys, are `charges`, `description`,
/// `group_slug`, `id`, `link`, `slug` and `title` (its other members always
/// read): the first member that does not read gives the error.
pub open spec fn is_event_fields_read(
    r: Result<EventFields, serde_json::Error>,
    charges: Value,
    description: Value,
    group_slug: Value,
    id: Value,
    link: Value,
    slug: Value,
    title: Value,
) -> bool {
    match json_opt_number_read(charges) {
        Err(e) => r == Err::<EventFields, serde_json::Error>(e),
        Ok(c) => match json_opt_string_read(description) {
            Err(e) => r == Err::<EventFields, serde_json::Error>(e),
            Ok(d) => match json_string_read(group_slug) {
                Err(e) => r == Err::<EventFields, serde_json::Error>(e),
                Ok(gs) => match json_string_read(id) {
                    Err(e) => r == Err::<EventFields, serde_json::Error>(e),
                    Ok(i) => match json_string_read(link) {
                        Err(e) => r == Err::<EventFields, serde_json::Error>(e),
                        Ok(l) => match json_string_read(slug) {
                            Err(e) => r == Err::<EventFields, serde_json::Error>(e),
                            Ok(sl) => match json_string_read(title) {
                                Err(e) => r == Err::<EventFields, serde_json::Error>(e),
                                Ok(t) => r matches Ok(f) && {
                                    &&& f.charges == c
                                    &&& opt_view(f.description) == d
                                    &&& f.group_slug@ == gs
                                    &&& f.id@ == i
                                    &&& f.link@ == l
                                    &&& f.slug@ == sl
                                    &&& f.title@ == t
                                },
                            },
                        },
                    },
                },
            },
        },
    }
}

/// Reads the fields of an event as serde does: see [`is_event_fields_read`].
fn read_event_fields(
    charges: &Value,
    description: &Value,
    group_slug: &Value,
    id: &Value,
    link: &Value,
    slug: &Value,
    title: &Value,
) -> (r: Result<EventFields, serde_json::Error>)
    ensures
        is_event_fields_read(r, *charges, *description, *group_slug, *id, *link, *slug, *title),
{
    let charges = match read_opt_number(charges) {
        Ok(c) => c,
        Err(e) => {
            return Err(e);
        },
    };
    let description = match read_opt_string(description) {
        Ok(d) => d,
        Err(e) => {
            return Err(e);
        },
    };
    let group_slug = match read_string(group_slug) {
        Ok(s) => s,
        Err(e) => {
            return Err(e);
        },
    };
    let id = match read_string(id) {
        Ok(s) => s,
        Err(e) => {
            return Err(e);
        },
    };
    let link = match read_string(link) {
        Ok(s) => s,
        Err(e) => {
            return Err(e);
        },
    };
    let slug = match read_string(slug) {
        Ok(s) => s,
        Err(e) => {
            return Err(e);
        },
    };
    let title = match read_string(title) {
        Ok(s) => s,
        Err(e) => {
            return Err(e);
        },
    };
    Ok(EventFields { id, slug, group_slug, title, description, charges, link })
}

/// `n` is the group search result that the JSON node `node` gives: the photo
/// under `groupPhoto`, and the group that serde reads from the object
/// `{id, name, link, description, city, state, country, is_private:
/// isPrivate, photo, member_count}` made of the node's members, which has no
/// `slug`.
pub open spec fn is_group_node_of(n: GroupNode, node: Value) -> bool {
    let photo = json_member(node, "groupPhoto"@);
    &&& n.photo_base_url == json_url_read(json_member(photo, "baseUrl"@))
    &&& opt_view(n.photo_id) == json_str(json_member(photo, "id"@))
    &&& is_group_read(
        n.group,
        json_member(node, "city"@),
        json_member(node, "country"@),
        json_member(node, "description"@),
        json_member(node, "id"@),
        json_member(node, "isPrivate"@),
        json_member(node, "link"@),
        json_member(node, "name"@),
        json_member(node, "slug"@),
        false,
        json_member(node, "state"@),
    )
}

/// The group search result that a JSON node gives.
pub fn group_node_of(node: &Value) -> (n: GroupNode)
    ensures
        is_group_node_of(n, *node),
{
    let photo = json_get(node, "groupPhoto");
    let photo_base_url = read_url(json_get(photo, "baseUrl"));
    let photo_id = match json_as_str(json_get(photo, "id")) {
        Some(s) => Some(s.to_owned()),
        None => None,
    };
    let group = read_group(
        json_get(node, "city"),
        json_get(node, "country"),
        json_get(node, "description"),
        json_get(node, "id"),
        json_get(node, "isPrivate"),
        json_get(node, "link"),
        json_get(node, "name"),
        json_get(node, "slug"),
        false,
        json_get(node, "state"),
    );
    GroupNode { photo_base_url, photo_id, group }
}

/// `r` is the group search response that the JSON document `v` gives:
/// `data.results`, where it is not null, with its `pageInfo.hasNextPage`
/// read as a bool and, where `edges` is an array, the result of each
/// element's `node.result`.
pub open spec fn is_group_response_of(r: GroupSearchResponse, v: Value) -> bool {
    let results = json_member(json_member(v, "data"@), "results"@);
    if json_is_null(results) {
        r.results is None
    } else {
        match r.results {
            None => false,
            Some(res) => {
                &&& res.has_next_page == json_bool_read(
                    json_member(json_member(results, "pageInfo"@), "hasNextPage"@),
                )
                &&& match json_array(json_member(results, "edges"@)) {
                    None => res.edges is None,
                    Some(a) => match res.edges {
                        None => false,
                        Some(ns) => ns@.len() == a.len() && forall|i: int|
                            0 <= i < a.len() ==> is_group_node_of(
                                #[trigger] ns@[i],
                                json_member(json_member(a[i], "node"@), "result"@),
                            ),
                    },
                }
            },
        }
    }
}

/// The group search response that a JSON document gives.
pub fn group_search_response_of(v: &Value) -> (r: GroupSearchResponse)
    ensures
        is_group_response_of(r, *v),
{
    let results = json_get(json_get(v, "data"), "results");
    if json_null(results) {
        return GroupSearchResponse { results: None };
    }
    let has_next_page = read_bool(json_get(json_get(results, "pageInfo"), "hasNextPage"));
    let edges = match json_as_array(json_get(results, "edges")) {
        None => None,
        Some(a) => {
            let mut ns: Vec<GroupNode> = Vec::new();
            let n = a.len();
            for i in 0..n
                invariant
                    n == a@.len(),
                    ns@.len() == i,
                    forall|j: int|
                        0 <= j < i ==> is_group_node_of(
                            #[trigger] ns@[j],
                            json_member(json_member(a@[j], "node"@), "result"@),
                        ),
            {
                let node = group_node_of(json_get(json_get(&a[i], "node"), "result"));
                ns.push(node);
            }
            Some(ns)
        },
    };
    GroupSearchResponse { results: Some(GroupSearchResults { has_next_page, edges }) }
}

/// `r` holds the text of `v` where it is a string, else the JSON text of `v`.
pub open spec fn is_raw_text_of(r: Result<String, String>, v: Value) -> bool {
    match json_str(v) {
        Some(s) => r matches Ok(t) && t@ == s,
        None => r matches Err(t) && t@ == json_text(v),
    }
}

fn raw_text_of(v: &Value) -> (r: Result<String, String>)
    ensures
        is_raw_text_of(r, *v),
{
    match json_as_str(v) {
        Some(s) => Ok(s.to_owned()),
        None => Err(json_display(v)),
    }
}

/// `n` is the event search result that the JSON node `node` gives: the photo
/// of its group under `group.groupPhoto`, `dateTime`, `endTime` and
/// `eventType`; the group that serde reads from the object `{id, slug, name,
/// link, description, city, state, country, is_private: isPrivate, photo}`
/// made of the members of `group`; the event fields that serde reads from
/// `{id, group_slug: group.slug, slug, title, description, charges: fees,
/// link: eventUrl}` (with its start, end, online flag and a currency under
/// another key, which always read).
pub open spec fn is_event_node_of(n: EventNode, node: Value) -> bool {
    let group = json_member(node, "group"@);
    let photo = json_member(group, "groupPhoto"@);
    &&& n.photo_base_url == json_url_read(json_member(photo, "baseUrl"@))
    &&& opt_view(n.photo_id) == json_str(json_member(photo, "id"@))
    &&& is_raw_text_of(n.date_time, json_member(node, "dateTime"@))
    &&& is_raw_text_of(n.end_time, json_member(node, "endTime"@))
    &&& opt_view(n.event_type) == json_str(json_member(node, "eventType"@))
    &&& is_group_read(
        n.group,
        json_member(group, "city"@),
        json_member(group, "country"@),
        json_member(group, "description"@),
        json_member(group, "id"@),
        json_member(group, "isPrivate"@),
        json_member(group, "link"@),
        json_member(group, "name"@),
        json_member(group, "slug"@),
        true,
        json_member(group, "state"@),
    )
    &&& is_event_fields_read(
        n.event,
        json_member(node, "fees"@),
        json_member(node, "description"@),
        json_member(group, "slug"@),
        json_member(node, "id"@),
        json_member(node, "eventUrl"@),
        json_member(node, "slug"@),
        json_member(node, "title"@),
    )
}

/// The event search result that a JSON node gives.
pub fn event_node_of(node: &Value) -> (n: EventNode)
    ensures
        is_event_node_of(n, *node),
{
    let group = json_get(node, "group");
    let photo = json_get(group, "groupPhoto");
    let photo_base_url = read_url(json_get(photo, "baseUrl"));
    let photo_id = match json_as_str(json_get(photo, "id")) {
        Some(s) => Some(s.to_owned()),
        None => None,
    };
    let date_time = raw_text_of(json_get(node, "dateTime"));
    let end_time = raw_text_of(json_get(node, "endTime"));
    let event_type = match json_as_str(json_get(node, "eventType")) {
        Some(s) => Some(s.to_owned()),
        None => None,
    };
    let group_read = read_group(
        json_get(group, "city"),
        json_get(group, "country"),
        json_get(group, "description"),
        json_get(group, "id"),
        json_get(group, "isPrivate"),
        json_get(group, "link"),
        json_get(group, "name"),
        json_get(group, "slug"),
        true,
        json_get(group, "state"),
    );
    let event = read_event_fields(
        json_get(node, "fees"),
        json_get(node, "description"),
        json_get(group, "slug"),
        json_get(node, "id"),
        json_get(node, "eventUrl"),
        json_get(node, "slug"),
        json_get(node, "title"),
    );
    EventNode { photo_base_url, photo_id, date_time, end_time, event_type, group: group_read, event }
}

/// `r` is the event search response that the JSON document `v` gives:
/// `data.rankedEvents`, where it is not null, with its
/// `pageInfo.hasNextPage` read as a bool and, where `edges` is an array, the
/// result of each element's `node`.
pub open spec fn is_event_response_of(r: EventSearchResponse, v: Value) -> bool {
    let results = json_member(json_member(v, "data"@), "rankedEvents"@);
    if json_is_null(results) {
        r.results is None
    } else {
        match r.results {
            None => false,
            Some(res) => {
                &&& res.has_next_page == json_bool_read(
                    json_member(json_member(results, "pageInfo"@), "hasNextPage"@),
                )
                &&& match json_array(json_member(results, "edges"@)) {
                    None => res.edges is None,
                    Some(a) => match res.edges {
                        None => false,
                        Some(ns) => ns@.len() == a.len() && forall|i: int|
                            0 <= i < a.len() ==> is_event_node_of(
                                #[trigger] ns@[i],
                                json_member(a[i], "node"@),
                            ),
                    },
                }
            },
        }
    }
}

/// The event search response that a JSON document gives.
pub fn event_search_response_of(v: &Value) -> (r: EventSearchResponse)
    ensures
        is_event_response_of(r, *v),
{
    let results = json_get(json_get(v, "data"), "rankedEvents");
    if json_null(results) {
        return EventSearchResponse { results: None };
    }
    let has_next_page = read_bool(json_get(json_get(results, "pageInfo"), "hasNextPage"));
    let edges = match json_as_array(json_get(results, "edges")) {
        None => None,
        Some(a) => {
            let mut ns: Vec<EventNode> = Vec::new();
            let n = a.len();
            for i in 0..n
                invariant
                    n == a@.len(),
                    ns@.len() == i,
                    forall|j: int|
                        0 <= j < i ==> is_event_node_of(
                            #[trigger] ns@[j],
                            json_member(a@[j], "node"@),
                        ),
            {
                let node = event_node_of(json_get(&a[i], "node"));
                ns.push(node);
            }
            Some(ns)
        },
    };
    EventSearchResponse { results: Some(EventSearchResults { has_next_page, edges }) }
}

/// Where every member reads, serde reads the group member by member: each
/// field is what its own member reads as, and the group has no photo; an
/// object without a slug misses it.
pub proof fn law_group_read_takes_each_member(
    r: Result<MeetupGroup, serde_json::Error>,
    city: Value,
    country: Value,
    description: Value,
    id: Value,
    is_private: Value,
    link: Value,
    name: Value,
    slug: Value,
    has_slug: bool,
    state: Value,
    ci: Seq<char>,
    co: Seq<char>,
    de: Seq<char>,
    i: Seq<char>,
    p: bool,
    l: Seq<char>,
    n: Seq<char>,
    sl: Seq<char>,
    st: Seq<char>,
)
    requires
        is_group_read(r, city, country, description, id, is_private, link, name, slug, has_slug, state),
        json_string_read(city) == Ok::<Seq<char>, serde_json::Error>(ci),
        json_string_read(country) == Ok::<Seq<char>, serde_json::Error>(co),
        json_string_read(description) == Ok::<Seq<char>, serde_json::Error>(de),
        json_string_read(id) == Ok::<Seq<char>, serde_json::Error>(i),
        json_bool_read(is_private) == Ok::<bool, serde_json::Error>(p),
        json_string_read(link) == Ok::<Seq<char>, serde_json::Error>(l),
        json_string_read(name) == Ok::<Seq<char>, serde_json::Error>(n),
        has_slug ==> json_string_read(slug) == Ok::<Seq<char>, serde_json::Error>(sl),
        json_string_read(state) == Ok::<Seq<char>, serde_json::Error>(st),
    ensures
        !has_slug ==> r == Err::<MeetupGroup, serde_json::Error>(missing_field_error("slug"@)),
        has_slug ==> (r matches Ok(g) && {
            &&& g.city@ == ci
            &&& g.country@ == co
            &&& g.description@ == de
            &&& g.id@ == i
            &&& g.is_private == p
            &&& g.link@ == l
            &&& g.name@ == n
            &&& g.slug@ == sl
            &&& g.state@ == st
            &&& g.photo is None
        }),
{
}

/// Where every member reads, serde reads the event's fields member by
/// member: each field is what its own member reads as.
pub proof fn law_event_fields_read_takes_each_member(
    r: Result<EventFields, serde_json::Error>,
    charges: Value,
    description: Value,
    group_slug: Value,
    id: Value,
    link: Value,
    slug: Value,
    title: Value,
    c: Option<Number>,
    d: Option<Seq<char>>,
    gs: Seq<char>,
    i: Seq<char>,
    l: Seq<char>,
    sl: Seq<char>,
    t: Seq<char>,
)
    requires
        is_event_fields_read(r, charges, description, group_slug, id, link, slug, title),
        json_opt_number_read(charges) == Ok::<Option<Number>, serde_json::Error>(c),
        json_opt_string_read(description) == Ok::<Option<Seq<char>>, serde_json::Error>(d),
        json_string_read(group_slug) == Ok::<Seq<char>, serde_json::Error>(gs),
        json_string_read(id) == Ok::<Seq<char>, serde_json::Error>(i),
        json_string_read(link) == Ok::<Seq<char>, serde_json::Error>(l),
        json_string_read(slug) == Ok::<Seq<char>, serde_json::Error>(sl),
        json_string_read(title) == Ok::<Seq<char>, serde_json::Error>(t),
    ensures
        r matches Ok(f) && {
            &&& f.charges == c
            &&& opt_view(f.description) == d
            &&& f.group_slug@ == gs
            &&& f.id@ == i
            &&& f.link@ == l
            &&& f.slug@ == sl
            &&& f.title@ == t
        },
{
}

/// The group of a group search result is read from the result's own
/// members of the same names (`isPrivate` for the privacy), and has no slug
/// member to read; the photo from `groupPhoto.baseUrl` and `groupPhoto.id`.
pub proof fn law_group_node_reads_the_result_members(n: GroupNode, node: Value)
    requires
        is_group_node_of(n, node),
    ensures
        n.photo_base_url == json_url_read(json_member(json_member(node, "groupPhoto"@), "baseUrl"@)),
        opt_view(n.photo_id) == json_str(json_member(json_member(node, "groupPhoto"@), "id"@)),
        is_group_read(
            n.group,
            json_member(node, "city"@),
            json_member(node, "country"@),
            json_member(node, "description"@),
            json_member(node, "id"@),
            json_member(node, "isPrivate"@),
            json_member(node, "link"@),
            json_member(node, "name"@),
            json_member(node, "slug"@),
            false,
            json_member(node, "state"@),
        ),
{
}

/// An event search result is read from the node's own members: the group
/// from `group` (its members of the same names, `isPrivate` for the
/// privacy), the photo from `group.groupPhoto`, the times from `dateTime`
/// and `endTime`, the type from `eventType`, and the event from `fees`,
/// `description`, `group.slug`, `id`, `eventUrl`, `slug` and `title`.
pub proof fn law_event_node_reads_the_result_members(n: EventNode, node: Value)
    requires
        is_event_node_of(n, node),
    ensures
        n.photo_base_url == json_url_read(
            json_member(json_member(json_member(node, "group"@), "groupPhoto"@), "baseUrl"@),
        ),
        opt_view(n.photo_id) == json_str(
            json_member(json_member(json_member(node, "group"@), "groupPhoto"@), "id"@),
        ),
        is_raw_text_of(n.date_time, json_member(node, "dateTime"@)),
        is_raw_text_of(n.end_time, json_member(node, "endTime"@)),
        opt_view(n.event_type) == json_str(json_member(node, "eventType"@)),
        is_group_read(
            n.group,
            json_member(json_member(node, "group"@), "city"@),
            json_member(json_member(node, "group"@), "country"@),
            json_member(json_member(node, "group"@), "description"@),
            json_member(json_member(node, "group"@), "id"@),
            json_member(json_member(node, "group"@), "isPrivate"@),
            json_member(json_member(node, "group"@), "link"@),
            json_member(json_member(node, "group"@), "name"@),
            json_member(json_member(node, "group"@), "slug"@),
            true,
            json_member(json_member(node, "group"@), "state"@),
        ),
        is_event_fields_read(
            n.event,
            json_member(node, "fees"@),
            json_member(node, "description"@),
            json_member(json_member(node, "group"@), "slug"@),
            json_member(node, "id"@),
            json_member(node, "eventUrl"@),
            json_member(node, "slug"@),
            json_member(node, "title"@),
        ),
{
}

} // verus!
