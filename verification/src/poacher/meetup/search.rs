//! What a search on meetup.com's GraphQL API reports: the groups and events
//! that a response carries, or why it could not be read, as the messages the
//! consumer receives.
//!
//! What the logic reads of a response is held as plain values (see
//! `json.rs` for how they are read from the response's JSON), a field that
//! the JSON could not give carrying the error that reading it met.
use vstd::prelude::*;

use chrono::{DateTime, NaiveDateTime, ParseError};
use url::Url;

use crate::poacher::{PoacherError, PoacherMessage, PoacherResult, PoacherWarning};

use super::util::{
    image_url_fits, make_meetup_image_url, meetup_image_url_text, percent_encode,
    percent_encode_bytes, url_as_str, url_text,
};
use super::json::{
    event_search_response_of, group_search_response_of, is_event_response_of,
    is_event_node_of, is_group_response_of, is_raw_text_of, json_array, json_member,
    json_text_parse, opt_view, parse_json,
};
use super::{MeetupEvent, MeetupGroup, MeetupResult};

verus! {

/// The percent-encoded serialization of a URL, as it goes into the query of
/// an image URL.
pub open spec fn encoded_url_text(base: Url) -> Seq<char> {
    percent_encode_bytes(vstd::utf8::encode_utf8(url_text(base)))
}

/// The image URL of a group photo with base URL `base` and id `id` can be
/// built without `url` panicking.
pub open spec fn photo_url_fits(base: Url, id: Seq<char>) -> bool {
    image_url_fits(url_text(base), id, encoded_url_text(base))
}

/// The image URL of a group photo with base URL `base` and id `id`.
pub open spec fn photo_url_text(base: Url, id: Seq<char>) -> Seq<char> {
    meetup_image_url_text(url_text(base), encoded_url_text(base), id)
}

/// Whether the image URL of a group photo can be built.
pub fn photo_url_buildable(base: &Url, id: &String) -> (b: bool)
    ensures
        b == photo_url_fits(*base, id@),
{
    let text = url_as_str(base);
    let base_len = text.unicode_len();
    let encoded = percent_encode(text);
    let encoded_len = encoded.as_str().unicode_len();
    let id_len = id.as_str().unicode_len();
    (base_len as u64) < 0x1_0000_0000 && (id_len as u64) < 0x1_0000_0000 && (encoded_len as u64)
        < 0x1_0000_0000 && (base_len as u64) + 12 * (id_len as u64) + 12 * (encoded_len as u64)
        + 154 < 0x1_0000_0000
}

/// The image URL of a group photo.
pub fn photo_url(base: &Url, id: &String) -> (s: String)
    requires
        photo_url_fits(*base, id@),
    ensures
        s@ == photo_url_text(*base, id@),
{
    let url = make_meetup_image_url(base, id.as_str());
    url_as_str(&url).to_owned()
}

/// Where a search result gives a photo base URL and id, its image URL can be
/// built.
pub open spec fn node_photo_fits(base: Result<Url, serde_json::Error>, id: Option<String>) -> bool {
    match (base, id) {
        (Ok(b), Some(i)) => photo_url_fits(b, i@),
        _ => true,
    }
}

/// Whether the image URL of a search result's photo can be built where the
/// result gives one.
pub fn node_photo_buildable(base: &Result<Url, serde_json::Error>, id: &Option<String>) -> (b: bool)
    ensures
        b == node_photo_fits(*base, *id),
{
    match (base, id) {
        (Ok(b), Some(i)) => photo_url_buildable(b, i),
        _ => true,
    }
}

/// `m` reports the error `text`.
pub open spec fn is_unknown_error(m: PoacherMessage, text: Seq<char>) -> bool {
    m matches PoacherMessage::Error(PoacherError::UnknownResponseError(s)) && s@ == text
}

/// `m` reports that JSON could not be read, with the error `e` and the
/// context `context`.
pub open spec fn is_json_error(m: PoacherMessage, e: serde_json::Error, context: Seq<char>) -> bool {
    m matches PoacherMessage::Error(PoacherError::JsonParseError(e2, Some(s))) && e2 == e && s@
        == context
}

/// `m` warns with `text`.
pub open spec fn is_warning(m: PoacherMessage, text: Seq<char>) -> bool {
    m matches PoacherMessage::Warning(PoacherWarning::FailedPresumption(s)) && s@ == text
}

/// `f` is the group `g` with the photo `photo`.
pub open spec fn is_group_with_photo(f: MeetupGroup, g: MeetupGroup, photo: Seq<char>) -> bool {
    &&& f.id == g.id
    &&& f.slug == g.slug
    &&& f.name == g.name
    &&& f.link == g.link
    &&& f.description == g.description
    &&& f.city == g.city
    &&& f.state == g.state
    &&& f.country == g.country
    &&& f.is_private == g.is_private
    &&& f.photo matches Some(p) && p@ == photo
}

/// `m` hands the group `g`, with the photo `photo`, to the consumer.
pub open spec fn is_group_found(m: PoacherMessage, g: MeetupGroup, photo: Seq<char>) -> bool {
    m matches PoacherMessage::ResultItem(PoacherResult::Meetup(MeetupResult::Group(f)))
        && is_group_with_photo(f, g, photo)
}

fn unknown_error(text: &str) -> (m: PoacherMessage)
    ensures
        is_unknown_error(m, text@),
{
    PoacherMessage::Error(PoacherError::UnknownResponseError(text.to_owned()))
}

fn json_error(e: serde_json::Error, context: &str) -> (m: PoacherMessage)
    ensures
        is_json_error(m, e, context@),
{
    PoacherMessage::Error(PoacherError::JsonParseError(e, Some(context.to_owned())))
}

fn warning(text: &str) -> (m: PoacherMessage)
    ensures
        is_warning(m, text@),
{
    PoacherMessage::Warning(PoacherWarning::FailedPresumption(text.to_owned()))
}

fn group_found(g: MeetupGroup, photo: String) -> (m: PoacherMessage)
    ensures
        is_group_found(m, g, photo@),
{
    let mut f = g;
    f.photo = Some(photo);
    PoacherMessage::ResultItem(PoacherResult::Meetup(MeetupResult::Group(f)))
}

/// One result of a group search.
#[derive(Debug)]
pub struct GroupNode {
    /// `groupPhoto.baseUrl`, read as a URL.
    pub photo_base_url: Result<Url, serde_json::Error>,
    /// `groupPhoto.id`, where it is a string.
    pub photo_id: Option<String>,
    /// The group's other fields, read as a group without a photo.
    pub group: Result<MeetupGroup, serde_json::Error>,
}

/// `data.results` of a group search response.
#[derive(Debug)]
pub struct GroupSearchResults {
    /// `pageInfo.hasNextPage`, read as a bool.
    pub has_next_page: Result<bool, serde_json::Error>,
    /// `edges`, where it is an array.
    pub edges: Option<Vec<GroupNode>>,
}

/// A group search response: `data.results`, where it is not null.
#[derive(Debug)]
pub struct GroupSearchResponse {
    pub results: Option<GroupSearchResults>,
}

/// `m` is what the consumer hears of the search result `n`: the group with
/// its photo, or why it could not be read.
pub open spec fn is_group_node_message(n: GroupNode, m: PoacherMessage) -> bool {
    match n.photo_base_url {
        Err(e) => is_json_error(m, e, "Parsing group photo base URL"@),
        Ok(base) => match n.photo_id {
            None => is_unknown_error(m, "Group photo ID not found"@),
            Some(id) => match n.group {
                Err(e) => is_json_error(m, e, "Parsing Group node"@),
                Ok(g) => is_group_found(m, g, photo_url_text(base, id@)),
            },
        },
    }
}

/// `msgs` is what the consumer hears of one group search: a warning where
/// the results go on to a next page, then one message per result; or the
/// one error that stopped reading the response.
pub open spec fn is_group_search_outcome(resp: GroupSearchResponse, msgs: Seq<PoacherMessage>) -> bool {
    match resp.results {
        None => msgs.len() == 1 && is_unknown_error(
            msgs[0],
            "Group search response has unexpected shape"@,
        ),
        Some(res) => match res.has_next_page {
            Err(e) => msgs.len() == 1 && msgs[0] == PoacherMessage::Error(
                PoacherError::JsonParseError(e, None),
            ),
            Ok(more) => {
                let w: int = if more {
                    1
                } else {
                    0
                };
                &&& more ==> msgs.len() > 0 && is_warning(
                    msgs[0],
                    "Groups search has next page to fetch"@,
                )
                &&& match res.edges {
                    None => msgs.len() == w + 1 && is_unknown_error(
                        msgs[w],
                        "Group search response has no edges"@,
                    ),
                    Some(nodes) => msgs.len() == w + nodes@.len() && forall|i: int|
                        0 <= i < nodes@.len() ==> is_group_node_message(
                            #[trigger] nodes@[i],
                            msgs[w + i],
                        ),
                }
            },
        },
    }
}

/// What the consumer hears of one result of a group search.
pub fn group_node_message(n: GroupNode) -> (m: PoacherMessage)
    requires
        node_photo_fits(n.photo_base_url, n.photo_id),
    ensures
        is_group_node_message(n, m),
{
    match n.photo_base_url {
        Err(e) => json_error(e, "Parsing group photo base URL"),
        Ok(base) => match n.photo_id {
            None => unknown_error("Group photo ID not found"),
            Some(id) => {
                let photo = photo_url(&base, &id);
                match n.group {
                    Err(e) => json_error(e, "Parsing Group node"),
                    Ok(g) => group_found(g, photo),
                }
            },
        },
    }
}

/// Every image URL that a group search builds can be built: that of each
/// result that gives a photo base URL and id.
pub open spec fn group_search_fits(resp: GroupSearchResponse) -> bool {
    match resp.results {
        Some(res) => res.has_next_page is Ok ==> match res.edges {
            Some(ns) => forall|i: int|
                0 <= i < ns@.len() ==> node_photo_fits(
                    (#[trigger] ns@[i]).photo_base_url,
                    ns@[i].photo_id,
                ),
            None => true,
        },
        None => true,
    }
}

/// Whether every image URL that a group search builds can be built.
pub fn group_search_buildable(resp: &GroupSearchResponse) -> (b: bool)
    ensures
        b == group_search_fits(*resp),
{
    match &resp.results {
        Some(res) => match &res.has_next_page {
            Err(_) => true,
            Ok(_) => match &res.edges {
            None => true,
            Some(ns) => {
                let n = ns.len();
                for i in 0..n
                    invariant
                        n == ns@.len(),
                        resp.results is Some,
                        resp.results->0.has_next_page is Ok,
                        resp.results->0.edges == Some(*ns),
                        forall|j: int|
                            0 <= j < i ==> node_photo_fits(
                                (#[trigger] ns@[j]).photo_base_url,
                                ns@[j].photo_id,
                            ),
                {
                    if !node_photo_buildable(&ns[i].photo_base_url, &ns[i].photo_id) {
                        assert(!node_photo_fits(ns@[i as int].photo_base_url, ns@[i as int].photo_id));
                        return false;
                    }
                }
                true
            },
            },
        },
        None => true,
    }
}

/// What the consumer hears of one group search, in order.
pub fn group_search_messages(resp: GroupSearchResponse) -> (msgs: Vec<PoacherMessage>)
    requires
        group_search_fits(resp),
    ensures
        is_group_search_outcome(resp, msgs@),
{
    let mut msgs: Vec<PoacherMessage> = Vec::new();
    match resp.results {
        None => {
            msgs.push(unknown_error("Group search response has unexpected shape"));
        },
        Some(res) => match res.has_next_page {
            Err(e) => {
                msgs.push(PoacherMessage::Error(PoacherError::from(e)));
            },
            Ok(more) => {
                if more {
                    msgs.push(warning("Groups search has next page to fetch"));
                }
                let ghost w: int = if more {
                    1
                } else {
                    0
                };
                match res.edges {
                    None => {
                        msgs.push(unknown_error("Group search response has no edges"));
                    },
                    Some(nodes) => {
                        let ghost all = nodes@;
                        for n in it: nodes.into_iter()
                            invariant
                                it.seq() == all,
                                forall|j: int|
                                    0 <= j < all.len() ==> node_photo_fits(
                                        (#[trigger] all[j]).photo_base_url,
                                        all[j].photo_id,
                                    ),
                                w == (if more {
                                    1int
                                } else {
                                    0int
                                }),
                                msgs@.len() == w + it.index(),
                                more ==> is_warning(
                                    msgs@[0],
                                    "Groups search has next page to fetch"@,
                                ),
                                forall|i: int|
                                    0 <= i < it.index() ==> is_group_node_message(
                                        #[trigger] all[i],
                                        msgs@[w + i],
                                    ),
                        {
                            assert(all[it.index() as int] == n);
                            let m = group_node_message(n);
                            msgs.push(m);
                        }
                    },
                }
            },
        },
    }
    msgs
}

/// `chrono::ParseError`: a date and time that could not be read.
#[verifier::external_type_specification]
#[verifier::external_body]
pub struct ExParseError(ParseError);

/// What `DateTime::parse_from_str(text, "%FT%H:%M%z")` reads from `text`,
/// taken in UTC without its offset (`naive_utc`), or why it cannot.
pub uninterp spec fn meetup_time_parse(text: Seq<char>) -> Result<NaiveDateTime, ParseError>;

/// The `Debug` text (`{:?}`) of a parse error.
pub uninterp spec fn parse_error_text(e: ParseError) -> Seq<char>;

/// The alternate `Debug` text (`{:#?}`) of a parse error.
pub uninterp spec fn parse_error_pretty_text(e: ParseError) -> Seq<char>;

/// `DateTime::parse_from_str(text, "%FT%H:%M%z")` followed by `naive_utc`:
/// a date and time with an offset, such as `2021-07-18T18:30+05:30`, in UTC.
#[verifier::external_body]
fn parse_meetup_time(text: &str) -> (r: Result<NaiveDateTime, ParseError>)
    ensures
        r == meetup_time_parse(text@),
{
    match DateTime::parse_from_str(text, "%FT%H:%M%z") {
        Ok(t) => Ok(t.naive_utc()),
        Err(e) => Err(e),
    }
}

/// `format!("{:?}", e)` of a `chrono::ParseError`.
#[verifier::external_body]
fn parse_error_debug(e: &ParseError) -> (s: String)
    ensures
        s@ == parse_error_text(*e),
{
    format!("{:?}", e)
}

/// `format!("{:#?}", e)` of a `chrono::ParseError`.
#[verifier::external_body]
fn parse_error_pretty_debug(e: &ParseError) -> (s: String)
    ensures
        s@ == parse_error_pretty_text(*e),
{
    format!("{:#?}", e)
}

/// The fields of an event that a search result gives as they are.
#[derive(Debug)]
pub struct EventFields {
    pub id: String,
    pub slug: String,
    pub group_slug: String,
    pub title: String,
    pub description: Option<String>,
    /// `fees`, read as an optional JSON number.
    pub charges: Option<serde_json::Number>,
    pub link: String,
}

/// One result of an event search.
#[derive(Debug)]
pub struct EventNode {
    /// `group.groupPhoto.baseUrl`, read as a URL.
    pub photo_base_url: Result<Url, serde_json::Error>,
    /// `group.groupPhoto.id`, where it is a string.
    pub photo_id: Option<String>,
    /// `dateTime` where it is a string, else the JSON text of what is there.
    pub date_time: Result<String, String>,
    /// `endTime` where it is a string, else the JSON text of what is there.
    pub end_time: Result<String, String>,
    /// `eventType`, where it is a string.
    pub event_type: Option<String>,
    /// The event's group, read as a group without a photo.
    pub group: Result<MeetupGroup, serde_json::Error>,
    /// The event's other fields.
    pub event: Result<EventFields, serde_json::Error>,
}

/// `data.rankedEvents` of an event search response.
#[derive(Debug)]
pub struct EventSearchResults {
    /// `pageInfo.hasNextPage`, read as a bool.
    pub has_next_page: Result<bool, serde_json::Error>,
    /// `edges`, where it is an array.
    pub edges: Option<Vec<EventNode>>,
}

/// An event search response: `data.rankedEvents`, where it is not null.
#[derive(Debug)]
pub struct EventSearchResponse {
    pub results: Option<EventSearchResults>,
}

/// The photo URL of a result's group, where its base URL and id are there
/// and fit.
pub open spec fn node_photo(base: Result<Url, serde_json::Error>, id: Option<String>) -> Option<
    Seq<char>,
> {
    match base {
        Ok(b) => match id {
            Some(i) => Some(photo_url_text(b, i@)),
            None => None,
        },
        Err(_) => None,
    }
}

/// The date and time that a result gives, where it gives one that reads.
pub open spec fn read_time(raw: Result<String, String>) -> Option<NaiveDateTime> {
    match raw {
        Ok(t) => match meetup_time_parse(t@) {
            Ok(d) => Some(d),
            Err(_) => None,
        },
        Err(_) => None,
    }
}

/// A result that stops the event search: its group photo URL, its start or
/// its end cannot be read.
pub open spec fn event_node_fails(n: EventNode) -> bool {
    ||| node_photo(n.photo_base_url, n.photo_id) is None
    ||| read_time(n.date_time) is None
    ||| read_time(n.end_time) is None
}

/// `m` reports the first thing that could not be read of the result `n`.
pub open spec fn is_event_node_error(n: EventNode, m: PoacherMessage) -> bool {
    match n.photo_base_url {
        Err(e) => is_json_error(m, e, "Parsing group photo base URL"@),
        Ok(base) => match n.photo_id {
            None => is_unknown_error(m, "Group photo ID not found"@),
            Some(id) => {
                match n.date_time {
                    Err(json) => is_unknown_error(
                        m,
                        "Got invalid data type in MeetupEvent.dateTime: "@ + json@,
                    ),
                    Ok(t) => match meetup_time_parse(t@) {
                        Err(pe) => is_unknown_error(
                            m,
                            "Failed to parse MeetupEvent.dateTime ("@ + t@ + "): "@
                                + parse_error_text(pe),
                        ),
                        Ok(_) => match n.end_time {
                            Err(json) => is_unknown_error(
                                m,
                                "Got invalid data type in MeetupEvent.endTime: "@ + json@,
                            ),
                            Ok(t2) => match meetup_time_parse(t2@) {
                                Err(pe) => is_unknown_error(
                                    m,
                                    "Failed to parse MeetupEvent endTime: "@
                                        + parse_error_pretty_text(pe),
                                ),
                                Ok(_) => false,
                            },
                        },
                    },
                }
            },
        },
    }
}

/// `m` hands the event with fields `f` to the consumer: it starts at
/// `start`, ends at `end`, is online where `online`, and records neither a
/// currency nor a venue.
pub open spec fn is_event_found(
    m: PoacherMessage,
    f: EventFields,
    start: NaiveDateTime,
    end: NaiveDateTime,
    online: bool,
) -> bool {
    m matches PoacherMessage::ResultItem(PoacherResult::Meetup(MeetupResult::Event(e))) && {
        &&& e.id == f.id
        &&& e.slug == f.slug
        &&& e.group_slug == f.group_slug
        &&& e.title == f.title
        &&& e.description == f.description
        &&& e.start_time == start
        &&& e.end_time == end
        &&& e.is_online == online
        &&& e.charges == f.charges
        &&& e.currency is None
        &&& e.venue is None
        &&& e.link == f.link
    }
}

/// An event is online when its `eventType` is `online`.
pub open spec fn is_online_type(event_type: Option<String>) -> bool {
    match event_type {
        Some(t) => t@ == "online"@,
        None => false,
    }
}

/// `a` and `b` are what the consumer hears of a result that reads: its
/// group, with the photo, then the event.
pub open spec fn is_event_node_messages(n: EventNode, a: PoacherMessage, b: PoacherMessage) -> bool {
    match (node_photo(n.photo_base_url, n.photo_id), read_time(n.date_time), read_time(n.end_time)) {
        (Some(photo), Some(start), Some(end)) => {
            &&& match n.group {
                Err(e) => is_json_error(a, e, "Parsing Event->Group node"@),
                Ok(g) => is_group_found(a, g, photo),
            }
            &&& match n.event {
                Err(e) => is_json_error(b, e, "Parsing Event node"@),
                Ok(f) => is_event_found(b, f, start, end, is_online_type(n.event_type)),
            }
        },
        _ => false,
    }
}

/// The index of the first result that stops the search, or the number of
/// results where none does.
pub open spec fn first_failing_node(ns: Seq<EventNode>) -> int
    decreases ns.len(),
{
    if ns.len() == 0 {
        0
    } else if event_node_fails(ns[0]) {
        0
    } else {
        1 + first_failing_node(ns.drop_first())
    }
}

proof fn lemma_first_failing_node(ns: Seq<EventNode>)
    ensures
        0 <= first_failing_node(ns) <= ns.len(),
        forall|j: int| 0 <= j < first_failing_node(ns) ==> !event_node_fails(#[trigger] ns[j]),
        first_failing_node(ns) < ns.len() ==> event_node_fails(ns[first_failing_node(ns)]),
    decreases ns.len(),
{
    if ns.len() > 0 && !event_node_fails(ns[0]) {
        lemma_first_failing_node(ns.drop_first());
        assert forall|j: int| 0 <= j < first_failing_node(ns) implies !event_node_fails(
            #[trigger] ns[j],
        ) by {
            if j > 0 {
                assert(ns[j] == ns.drop_first()[j - 1]);
            }
        }
    }
}

/// The search can go through the results `ns` up to the one that stops it:
/// each result it reaches has an image URL that can be built, where it gives
/// a photo base URL and id, and each result it reaches without stopping
/// gives its `eventType` as a string, which the search reads without
/// checking.
pub open spec fn event_nodes_complete(ns: Seq<EventNode>) -> bool {
    forall|i: int|
        0 <= i < ns.len() && i <= first_failing_node(ns) ==> node_photo_fits(
            (#[trigger] ns[i]).photo_base_url,
            ns[i].photo_id,
        ) && (i < first_failing_node(ns) ==> ns[i].event_type is Some)
}

/// The search can go through every result it reaches.
pub open spec fn event_search_completes(resp: EventSearchResponse) -> bool {
    match resp.results {
        Some(res) => res.has_next_page is Ok ==> match res.edges {
            Some(ns) => event_nodes_complete(ns@),
            None => true,
        },
        None => true,
    }
}

/// `msgs`, from index `w` on, is what the consumer hears of the results
/// `ns`: two messages for each result up to the first one that stops the
/// search, then the error that stopped it.
pub open spec fn is_event_nodes_outcome(ns: Seq<EventNode>, msgs: Seq<PoacherMessage>, w: int) -> bool {
    let k = first_failing_node(ns);
    &&& msgs.len() == w + 2 * k + if k < ns.len() {
        1int
    } else {
        0int
    }
    &&& forall|i: int|
        0 <= i < k ==> is_event_node_messages(#[trigger] ns[i], msgs[w + 2 * i], msgs[w + 2 * i + 1])
    &&& k < ns.len() ==> is_event_node_error(ns[k], msgs[w + 2 * k])
}

/// `msgs` is what the consumer hears of one event search: a warning where
/// the results go on to a next page, then what each result gives up to the
/// first one that stops the search; or the one error that stopped reading
/// the response.
pub open spec fn is_event_search_outcome(resp: EventSearchResponse, msgs: Seq<PoacherMessage>) -> bool {
    match resp.results {
        None => msgs.len() == 1 && is_unknown_error(
            msgs[0],
            "Event search response has unexpected shape"@,
        ),
        Some(res) => match res.has_next_page {
            Err(e) => msgs.len() == 1 && msgs[0] == PoacherMessage::Error(
                PoacherError::JsonParseError(e, None),
            ),
            Ok(more) => {
                let w: int = if more {
                    1
                } else {
                    0
                };
                &&& more ==> msgs.len() > 0 && is_warning(
                    msgs[0],
                    "Events search has next page to fetch"@,
                )
                &&& match res.edges {
                    None => msgs.len() == w + 1 && is_unknown_error(
                        msgs[w],
                        "Event search response has no edges"@,
                    ),
                    Some(nodes) => is_event_nodes_outcome(nodes@, msgs, w),
                }
            },
        },
    }
}

fn unknown_error_with(prefix: &str, detail: &String) -> (m: PoacherMessage)
    ensures
        is_unknown_error(m, prefix@ + detail@),
{
    let mut text = prefix.to_owned();
    text.append(detail.as_str());
    PoacherMessage::Error(PoacherError::UnknownResponseError(text))
}

fn event_found(f: EventFields, start: NaiveDateTime, end: NaiveDateTime, online: bool) -> (m:
    PoacherMessage)
    ensures
        is_event_found(m, f, start, end, online),
{
    let e = MeetupEvent {
        id: f.id,
        slug: f.slug,
        group_slug: f.group_slug,
        title: f.title,
        description: f.description,
        start_time: start,
        end_time: end,
        is_online: online,
        charges: f.charges,
        currency: None,
        link: f.link,
        venue: None,
    };
    PoacherMessage::ResultItem(PoacherResult::Meetup(MeetupResult::Event(e)))
}

/// What the consumer hears of one result of an event search: its group and
/// the event, or the error that stops the search.
pub fn event_node_messages(n: EventNode) -> (r: Result<(PoacherMessage, PoacherMessage), PoacherMessage>)
    requires
        node_photo_fits(n.photo_base_url, n.photo_id),
        !event_node_fails(n) ==> n.event_type is Some,
    ensures
        match r {
            Ok(p) => !event_node_fails(n) && is_event_node_messages(n, p.0, p.1),
            Err(m) => event_node_fails(n) && is_event_node_error(n, m),
        },
{
    let base = match n.photo_base_url {
        Ok(b) => b,
        Err(e) => {
            return Err(json_error(e, "Parsing group photo base URL"));
        },
    };
    let id = match n.photo_id {
        Some(i) => i,
        None => {
            return Err(unknown_error("Group photo ID not found"));
        },
    };
    let photo = photo_url(&base, &id);
    let start_text = match n.date_time {
        Ok(t) => t,
        Err(json) => {
            return Err(unknown_error_with("Got invalid data type in MeetupEvent.dateTime: ", &json));
        },
    };
    let start = match parse_meetup_time(start_text.as_str()) {
        Ok(d) => d,
        Err(pe) => {
            let mut text = "Failed to parse MeetupEvent.dateTime (".to_owned();
            text.append(start_text.as_str());
            text.append("): ");
            let detail = parse_error_debug(&pe);
            text.append(detail.as_str());
            return Err(PoacherMessage::Error(PoacherError::UnknownResponseError(text)));
        },
    };
    let end_text = match n.end_time {
        Ok(t) => t,
        Err(json) => {
            return Err(unknown_error_with("Got invalid data type in MeetupEvent.endTime: ", &json));
        },
    };
    let end = match parse_meetup_time(end_text.as_str()) {
        Ok(d) => d,
        Err(pe) => {
            let detail = parse_error_pretty_debug(&pe);
            return Err(unknown_error_with("Failed to parse MeetupEvent endTime: ", &detail));
        },
    };
    let online = n.event_type.unwrap() == "online".to_owned();
    let group_msg = match n.group {
        Err(e) => json_error(e, "Parsing Event->Group node"),
        Ok(g) => group_found(g, photo),
    };
    let event_msg = match n.event {
        Err(e) => json_error(e, "Parsing Event node"),
        Ok(f) => event_found(f, start, end, online),
    };
    Ok((group_msg, event_msg))
}

/// Whether a date and time that a result gives cannot be read.
fn time_unreadable(raw: &Result<String, String>) -> (b: bool)
    ensures
        b == read_time(*raw) is None,
{
    match raw {
        Ok(t) => match parse_meetup_time(t.as_str()) {
            Ok(_) => false,
            Err(_) => true,
        },
        Err(_) => true,
    }
}

/// Whether the result `n` stops the event search.
pub fn node_fails(n: &EventNode) -> (b: bool)
    ensures
        b == event_node_fails(*n),
{
    let photo_missing = match &n.photo_base_url {
        Err(_) => true,
        Ok(_) => n.photo_id.is_none(),
    };
    photo_missing || time_unreadable(&n.date_time) || time_unreadable(&n.end_time)
}

/// Whether the search can go through every result it reaches among `ns`.
pub fn event_nodes_completable(ns: &Vec<EventNode>) -> (b: bool)
    ensures
        b == event_nodes_complete(ns@),
{
    let ghost all = ns@;
    proof {
        lemma_first_failing_node(all);
    }
    let n = ns.len();
    for i in 0..n
        invariant
            n == all.len(),
            all == ns@,
            0 <= first_failing_node(all) <= all.len(),
            forall|j: int| 0 <= j < first_failing_node(all) ==> !event_node_fails(#[trigger] all[j]),
            first_failing_node(all) < all.len() ==> event_node_fails(all[first_failing_node(all)]),
            i <= first_failing_node(all),
            forall|j: int|
                0 <= j < i ==> node_photo_fits((#[trigger] all[j]).photo_base_url, all[j].photo_id)
                    && all[j].event_type is Some,
    {
        if !node_photo_buildable(&ns[i].photo_base_url, &ns[i].photo_id) {
            return false;
        }
        if node_fails(&ns[i]) {
            assert(i == first_failing_node(all));
            return true;
        }
        if ns[i].event_type.is_none() {
            assert(i < first_failing_node(all));
            return false;
        }
        assert(i < first_failing_node(all));
    }
    true
}

/// What the consumer hears of one event search, in order.
pub fn event_search_messages(resp: EventSearchResponse) -> (msgs: Vec<PoacherMessage>)
    requires
        event_search_completes(resp),
    ensures
        is_event_search_outcome(resp, msgs@),
{
    let mut msgs: Vec<PoacherMessage> = Vec::new();
    match resp.results {
        None => {
            msgs.push(unknown_error("Event search response has unexpected shape"));
        },
        Some(res) => match res.has_next_page {
            Err(e) => {
                msgs.push(PoacherMessage::Error(PoacherError::from(e)));
            },
            Ok(more) => {
                if more {
                    msgs.push(warning("Events search has next page to fetch"));
                }
                let ghost w: int = if more {
                    1
                } else {
                    0
                };
                match res.edges {
                    None => {
                        msgs.push(unknown_error("Event search response has no edges"));
                    },
                    Some(nodes) => {
                        let ghost all = nodes@;
                        let ghost k = first_failing_node(all);
                        proof {
                            lemma_first_failing_node(all);
                        }
                        let mut stopped = false;
                        for n in it: nodes.into_iter()
                            invariant
                                it.seq() == all,
                                k == first_failing_node(all),
                                0 <= k <= all.len(),
                                forall|j: int| 0 <= j < k ==> !event_node_fails(#[trigger] all[j]),
                                k < all.len() ==> event_node_fails(all[k]),
                                event_nodes_complete(all),
                                w == (if more {
                                    1int
                                } else {
                                    0int
                                }),
                                more ==> msgs@.len() > 0 && is_warning(
                                    msgs@[0],
                                    "Events search has next page to fetch"@,
                                ),
                                !stopped ==> it.index() <= k && msgs@.len() == w + 2 * it.index(),
                                stopped ==> k < it.index() && msgs@.len() == w + 2 * k + 1
                                    && is_event_node_error(all[k], msgs@[w + 2 * k]),
                                forall|i: int|
                                    0 <= i < k && (stopped || i < it.index())
                                        ==> is_event_node_messages(
                                        #[trigger] all[i],
                                        msgs@[w + 2 * i],
                                        msgs@[w + 2 * i + 1],
                                    ),
                        {
                            if !stopped {
                                let ghost i = it.index();
                                assert(all[i] == n);
                                match event_node_messages(n) {
                                    Ok((a, b)) => {
                                        assert(i < k);
                                        msgs.push(a);
                                        msgs.push(b);
                                    },
                                    Err(m) => {
                                        assert(i == k);
                                        msgs.push(m);
                                        stopped = true;
                                    },
                                }
                            }
                        }
                    },
                }
            },
        },
    }
    msgs
}

/// What the consumer hears of one event search, where the search can go
/// through every result it reaches; none where it cannot: a result it reaches
/// gives no `eventType` string, or an image URL too long for `url` to build.
pub fn checked_event_search_messages(resp: EventSearchResponse) -> (r: Option<Vec<PoacherMessage>>)
    ensures
        r is None <==> !event_search_completes(resp),
        r matches Some(msgs) ==> is_event_search_outcome(resp, msgs@),
{
    let completes = match &resp.results {
        Some(res) => match &res.has_next_page {
            Err(_) => true,
            Ok(_) => match &res.edges {
                None => true,
                Some(ns) => event_nodes_completable(ns),
            },
        },
        None => true,
    };
    if completes {
        Some(event_search_messages(resp))
    } else {
        None
    }
}

/// Every image URL that the group search of the response body `body` builds
/// can be built (by `url`, under 4 GiB).
pub open spec fn group_body_fits(body: Seq<char>) -> bool {
    match json_text_parse(body) {
        Err(_) => true,
        Ok(v) => forall|r: GroupSearchResponse| #[trigger]
            is_group_response_of(r, v) ==> group_search_fits(r),
    }
}

/// `msgs` is what the consumer hears of one group search whose response body
/// is `body`: the error of a body that is no JSON, or else what the search
/// reports of the response that the JSON document gives.
pub open spec fn is_group_body_outcome(body: Seq<char>, msgs: Seq<PoacherMessage>) -> bool {
    match json_text_parse(body) {
        Err(e) => msgs.len() == 1 && msgs[0] == PoacherMessage::Error(
            PoacherError::JsonParseError(e, None),
        ),
        Ok(v) => exists|r: GroupSearchResponse| #[trigger]
            is_group_response_of(r, v) && is_group_search_outcome(r, msgs),
    }
}

proof fn lemma_group_fits_determined(r1: GroupSearchResponse, r2: GroupSearchResponse, v: serde_json::Value)
    requires
        is_group_response_of(r1, v),
        is_group_response_of(r2, v),
    ensures
        group_search_fits(r1) == group_search_fits(r2),
{
    if r1.results is Some && r2.results is Some {
        let a = r1.results->0;
        let b = r2.results->0;
        if a.has_next_page is Ok && a.edges is Some && b.edges is Some {
            let n1 = a.edges->0@;
            let n2 = b.edges->0@;
            assert forall|i: int| 0 <= i < n1.len() implies node_photo_fits(
                n1[i].photo_base_url,
                n1[i].photo_id,
            ) == node_photo_fits(n2[i].photo_base_url, n2[i].photo_id) by {
                assert(opt_view(n1[i].photo_id) == opt_view(n2[i].photo_id));
            }
            if !group_search_fits(r1) {
                let i = choose|i: int|
                    0 <= i < n1.len() && !node_photo_fits(n1[i].photo_base_url, n1[i].photo_id);
                assert(!node_photo_fits(n2[i].photo_base_url, n2[i].photo_id));
            }
            if !group_search_fits(r2) {
                let i = choose|i: int|
                    0 <= i < n2.len() && !node_photo_fits(n2[i].photo_base_url, n2[i].photo_id);
                assert(!node_photo_fits(n1[i].photo_base_url, n1[i].photo_id));
            }
        }
    }
}

fn body_error(e: serde_json::Error) -> (msgs: Vec<PoacherMessage>)
    ensures
        msgs@.len() == 1,
        msgs@[0] == PoacherMessage::Error(PoacherError::JsonParseError(e, None)),
{
    let mut msgs: Vec<PoacherMessage> = Vec::new();
    msgs.push(PoacherMessage::Error(PoacherError::from(e)));
    msgs
}

/// What the consumer hears of one group search, in order, from the text of
/// its response.
pub fn group_search_outcome(body: &str) -> (msgs: Vec<PoacherMessage>)
    requires
        group_body_fits(body@),
    ensures
        is_group_body_outcome(body@, msgs@),
{
    match parse_json(body) {
        Err(e) => body_error(e),
        Ok(v) => {
            let resp = group_search_response_of(&v);
            let ghost r = resp;
            assert(group_search_fits(resp));
            let msgs = group_search_messages(resp);
            assert(is_group_response_of(r, v) && is_group_search_outcome(r, msgs@));
            msgs
        },
    }
}

/// What the consumer hears of one group search from the text of its
/// response, where every image URL it builds can be built; none where one
/// is too long for `url`.
pub fn checked_group_search_outcome(body: &str) -> (r: Option<Vec<PoacherMessage>>)
    ensures
        r is None <==> !group_body_fits(body@),
        r matches Some(msgs) ==> is_group_body_outcome(body@, msgs@),
{
    match parse_json(body) {
        Err(e) => Some(body_error(e)),
        Ok(v) => {
            let resp = group_search_response_of(&v);
            if !group_search_buildable(&resp) {
                assert(is_group_response_of(resp, v));
                return None;
            }
            proof {
                assert forall|r2: GroupSearchResponse| #[trigger]
                    is_group_response_of(r2, v) implies group_search_fits(r2) by {
                    lemma_group_fits_determined(resp, r2, v);
                }
            }
            let ghost r = resp;
            let msgs = group_search_messages(resp);
            assert(is_group_response_of(r, v) && is_group_search_outcome(r, msgs@));
            Some(msgs)
        },
    }
}

/// The search can go through every result that the event search of the
/// response body `body` reaches.
pub open spec fn event_body_completes(body: Seq<char>) -> bool {
    match json_text_parse(body) {
        Err(_) => true,
        Ok(v) => forall|r: EventSearchResponse| #[trigger]
            is_event_response_of(r, v) ==> event_search_completes(r),
    }
}

/// `msgs` is what the consumer hears of one event search whose response body
/// is `body`: the error of a body that is no JSON, or else what the search
/// reports of the response that the JSON document gives.
pub open spec fn is_event_body_outcome(body: Seq<char>, msgs: Seq<PoacherMessage>) -> bool {
    match json_text_parse(body) {
        Err(e) => msgs.len() == 1 && msgs[0] == PoacherMessage::Error(
            PoacherError::JsonParseError(e, None),
        ),
        Ok(v) => exists|r: EventSearchResponse| #[trigger]
            is_event_response_of(r, v) && is_event_search_outcome(r, msgs),
    }
}

/// Two results that the same JSON node gives read alike.
pub open spec fn same_event_node(a: EventNode, b: EventNode) -> bool {
    &&& a.photo_base_url == b.photo_base_url
    &&& opt_view(a.photo_id) == opt_view(b.photo_id)
    &&& read_time(a.date_time) == read_time(b.date_time)
    &&& read_time(a.end_time) == read_time(b.end_time)
    &&& opt_view(a.event_type) == opt_view(b.event_type)
}

proof fn lemma_raw_text_same(a: Result<String, String>, b: Result<String, String>, v: serde_json::Value)
    requires
        is_raw_text_of(a, v),
        is_raw_text_of(b, v),
    ensures
        read_time(a) == read_time(b),
{
}

proof fn lemma_first_failing_same(n1: Seq<EventNode>, n2: Seq<EventNode>)
    requires
        n1.len() == n2.len(),
        forall|i: int| 0 <= i < n1.len() ==> same_event_node(#[trigger] n1[i], n2[i]),
    ensures
        first_failing_node(n1) == first_failing_node(n2),
    decreases n1.len(),
{
    if n1.len() > 0 {
        assert(same_event_node(n1[0], n2[0]));
        assert(opt_view(n1[0].photo_id) == opt_view(n2[0].photo_id));
        assert(event_node_fails(n1[0]) == event_node_fails(n2[0]));
        assert forall|i: int| 0 <= i < n1.drop_first().len() implies same_event_node(
            #[trigger] n1.drop_first()[i],
            n2.drop_first()[i],
        ) by {
            assert(same_event_node(n1[i + 1], n2[i + 1]));
        }
        lemma_first_failing_same(n1.drop_first(), n2.drop_first());
    }
}

proof fn lemma_event_complete_determined(
    r1: EventSearchResponse,
    r2: EventSearchResponse,
    v: serde_json::Value,
)
    requires
        is_event_response_of(r1, v),
        is_event_response_of(r2, v),
    ensures
        event_search_completes(r1) == event_search_completes(r2),
{
    if r1.results is Some && r2.results is Some {
        let a = r1.results->0;
        let b = r2.results->0;
        if a.has_next_page is Ok && a.edges is Some && b.edges is Some {
            let n1 = a.edges->0@;
            let n2 = b.edges->0@;
            let results = json_member(json_member(v, "data"@), "rankedEvents"@);
            let arr = json_array(json_member(results, "edges"@))->0;
            assert forall|i: int| 0 <= i < n1.len() implies same_event_node(
                #[trigger] n1[i],
                n2[i],
            ) by {
                let node = json_member(arr[i], "node"@);
                assert(is_event_node_of(n1[i], node));
                assert(is_event_node_of(n2[i], node));
                lemma_raw_text_same(n1[i].date_time, n2[i].date_time, json_member(node, "dateTime"@));
                lemma_raw_text_same(n1[i].end_time, n2[i].end_time, json_member(node, "endTime"@));
            }
            lemma_first_failing_same(n1, n2);
            let k = first_failing_node(n1);
            assert forall|i: int| 0 <= i < n1.len() && i <= k implies (node_photo_fits(
                n1[i].photo_base_url,
                n1[i].photo_id,
            ) && (i < k ==> n1[i].event_type is Some)) == (node_photo_fits(
                n2[i].photo_base_url,
                n2[i].photo_id,
            ) && (i < k ==> n2[i].event_type is Some)) by {
                assert(same_event_node(n1[i], n2[i]));
                assert(opt_view(n1[i].photo_id) == opt_view(n2[i].photo_id));
                assert(opt_view(n1[i].event_type) == opt_view(n2[i].event_type));
            }
            if !event_nodes_complete(n1) {
                let i = choose|i: int|
                    !(0 <= i < n1.len() && i <= k ==> node_photo_fits(
                        n1[i].photo_base_url,
                        n1[i].photo_id,
                    ) && (i < k ==> n1[i].event_type is Some));
                assert(!(node_photo_fits(n2[i].photo_base_url, n2[i].photo_id) && (i < k
                    ==> n2[i].event_type is Some)));
            }
            if !event_nodes_complete(n2) {
                let i = choose|i: int|
                    !(0 <= i < n2.len() && i <= k ==> node_photo_fits(
                        n2[i].photo_base_url,
                        n2[i].photo_id,
                    ) && (i < k ==> n2[i].event_type is Some));
                assert(!(node_photo_fits(n1[i].photo_base_url, n1[i].photo_id) && (i < k
                    ==> n1[i].event_type is Some)));
            }
        }
    }
}

/// What the consumer hears of one event search, in order, from the text of
/// its response.
pub fn event_search_outcome(body: &str) -> (msgs: Vec<PoacherMessage>)
    requires
        event_body_completes(body@),
    ensures
        is_event_body_outcome(body@, msgs@),
{
    match parse_json(body) {
        Err(e) => body_error(e),
        Ok(v) => {
            let resp = event_search_response_of(&v);
            let ghost r = resp;
            assert(event_search_completes(resp));
            let msgs = event_search_messages(resp);
            assert(is_event_response_of(r, v) && is_event_search_outcome(r, msgs@));
            msgs
        },
    }
}

/// What the consumer hears of one event search from the text of its
/// response, where the search can go through every result it reaches; none
/// where it cannot: a result it reaches gives no `eventType` string, or an
/// image URL too long for `url` to build.
pub fn checked_event_search_outcome(body: &str) -> (r: Option<Vec<PoacherMessage>>)
    ensures
        r is None <==> !event_body_completes(body@),
        r matches Some(msgs) ==> is_event_body_outcome(body@, msgs@),
{
    match parse_json(body) {
        Err(e) => Some(body_error(e)),
        Ok(v) => {
            let resp = event_search_response_of(&v);
            let ghost r = resp;
            match checked_event_search_messages(resp) {
                None => {
                    assert(is_event_response_of(r, v));
                    None
                },
                Some(msgs) => {
                    proof {
                        assert forall|r2: EventSearchResponse| #[trigger]
                            is_event_response_of(r2, v) implies event_search_completes(r2) by {
                            lemma_event_complete_determined(r, r2, v);
                        }
                    }
                    assert(is_event_response_of(r, v) && is_event_search_outcome(r, msgs@));
                    Some(msgs)
                },
            }
        },
    }
}

/// A group search result that gives a photo base URL, a photo id and a
/// group hands that very group to the consumer: every field the result gives
/// (id, slug, name, link, description, city, state, country, privacy)
/// unchanged, only the photo set, to the image URL built from the base URL
/// and the id.
pub proof fn law_group_search_keeps_the_group(
    n: GroupNode,
    base: Url,
    id: String,
    g: MeetupGroup,
    m: PoacherMessage,
)
    requires
        n.photo_base_url == Ok::<Url, serde_json::Error>(base),
        n.photo_id == Some(id),
        n.group == Ok::<MeetupGroup, serde_json::Error>(g),
        is_group_node_message(n, m),
    ensures
        m matches PoacherMessage::ResultItem(PoacherResult::Meetup(MeetupResult::Group(f))) && {
            &&& f.id == g.id
            &&& f.slug == g.slug
            &&& f.name == g.name
            &&& f.link == g.link
            &&& f.description == g.description
            &&& f.city == g.city
            &&& f.state == g.state
            &&& f.country == g.country
            &&& f.is_private == g.is_private
            &&& f.photo matches Some(p) && p@ == meetup_image_url_text(
                url_text(base),
                percent_encode_bytes(vstd::utf8::encode_utf8(url_text(base))),
                id@,
            )
        },
{
}

/// An event search result that reads hands the consumer first its group,
/// with every field the result gives unchanged and the photo set to the
/// image URL built from the base URL and the id, then its event: every field
/// of the result unchanged (id, slug, group slug, title, description, fees,
/// link), starting and ending at the times that `dateTime` and `endTime`
/// read as, online exactly when `eventType` is `online`, with no currency or
/// venue.
pub proof fn law_event_search_keeps_the_event(
    n: EventNode,
    base: Url,
    id: String,
    start_text: String,
    end_text: String,
    event_type: String,
    g: MeetupGroup,
    f: EventFields,
    a: PoacherMessage,
    b: PoacherMessage,
)
    requires
        n.photo_base_url == Ok::<Url, serde_json::Error>(base),
        n.photo_id == Some(id),
        n.date_time == Ok::<String, String>(start_text),
        n.end_time == Ok::<String, String>(end_text),
        n.event_type == Some(event_type),
        n.group == Ok::<MeetupGroup, serde_json::Error>(g),
        n.event == Ok::<EventFields, serde_json::Error>(f),
        is_event_node_messages(n, a, b),
    ensures
        a matches PoacherMessage::ResultItem(PoacherResult::Meetup(MeetupResult::Group(h))) && {
            &&& h.id == g.id
            &&& h.slug == g.slug
            &&& h.name == g.name
            &&& h.link == g.link
            &&& h.description == g.description
            &&& h.city == g.city
            &&& h.state == g.state
            &&& h.country == g.country
            &&& h.is_private == g.is_private
            &&& h.photo matches Some(p) && p@ == meetup_image_url_text(
                url_text(base),
                percent_encode_bytes(vstd::utf8::encode_utf8(url_text(base))),
                id@,
            )
        },
        b matches PoacherMessage::ResultItem(PoacherResult::Meetup(MeetupResult::Event(e))) && {
            &&& e.id == f.id
            &&& e.slug == f.slug
            &&& e.group_slug == f.group_slug
            &&& e.title == f.title
            &&& e.description == f.description
            &&& e.charges == f.charges
            &&& e.link == f.link
            &&& meetup_time_parse(start_text@) == Ok::<NaiveDateTime, ParseError>(e.start_time)
            &&& meetup_time_parse(end_text@) == Ok::<NaiveDateTime, ParseError>(e.end_time)
            &&& e.is_online == (event_type@ == "online"@)
            &&& e.currency is None
            &&& e.venue is None
        },
{
}

/// A group search whose response reads hands the consumer one message per
/// result, in order, after a warning where the results go on to a next
/// page: no result is dropped, none is reported twice.
pub proof fn law_group_search_reports_every_result(
    resp: GroupSearchResponse,
    nodes: Vec<GroupNode>,
    more: bool,
    msgs: Seq<PoacherMessage>,
)
    requires
        resp.results matches Some(res) && res.has_next_page == Ok::<bool, serde_json::Error>(more)
            && res.edges == Some(nodes),
        is_group_search_outcome(resp, msgs),
    ensures
        msgs.len() == nodes@.len() + if more {
            1int
        } else {
            0int
        },
        more ==> (msgs[0] matches PoacherMessage::Warning(PoacherWarning::FailedPresumption(s))
            && s@ == "Groups search has next page to fetch"@),
        forall|i: int|
            0 <= i < nodes@.len() ==> is_group_node_message(
                #[trigger] nodes@[i],
                msgs[i + if more {
                    1int
                } else {
                    0int
                }],
            ),
{
}

/// An event search whose response reads hands the consumer two messages
/// (group, then event) for each result up to the first one that does not
/// read, then one error for that result, and nothing for the results after
/// it; all this after a warning where the results go on to a next page.
pub proof fn law_event_search_stops_at_first_unreadable_result(
    resp: EventSearchResponse,
    nodes: Vec<EventNode>,
    more: bool,
    msgs: Seq<PoacherMessage>,
    k: int,
)
    requires
        resp.results matches Some(res) && res.has_next_page == Ok::<bool, serde_json::Error>(more)
            && res.edges == Some(nodes),
        is_event_search_outcome(resp, msgs),
        0 <= k <= nodes@.len(),
        forall|j: int| 0 <= j < k ==> !event_node_fails(#[trigger] nodes@[j]),
        k < nodes@.len() ==> event_node_fails(nodes@[k]),
    ensures
        ({
            let w: int = if more {
                1
            } else {
                0
            };
            &&& msgs.len() == w + 2 * k + if k < nodes@.len() {
                1int
            } else {
                0int
            }
            &&& more ==> (msgs[0] matches PoacherMessage::Warning(
                PoacherWarning::FailedPresumption(s),
            ) && s@ == "Events search has next page to fetch"@)
            &&& forall|i: int|
                0 <= i < k ==> is_event_node_messages(
                    #[trigger] nodes@[i],
                    msgs[w + 2 * i],
                    msgs[w + 2 * i + 1],
                )
            &&& k < nodes@.len() ==> is_event_node_error(nodes@[k], msgs[w + 2 * k])
            &&& k < nodes@.len() ==> msgs[w + 2 * k] is Error
        }),
{
    lemma_first_failing_node(nodes@);
    let f = first_failing_node(nodes@);
    if f < k {
        assert(!event_node_fails(nodes@[f]));
    }
    if k < f {
        assert(!event_node_fails(nodes@[k]));
    }
    if k < nodes@.len() {
        lemma_node_error_is_error(nodes@[k], msgs[(if more { 1int } else { 0int }) + 2 * k]);
    }
}

proof fn lemma_node_error_is_error(n: EventNode, m: PoacherMessage)
    requires
        event_node_fails(n),
        is_event_node_error(n, m),
    ensures
        m is Error,
{
}

} // verus!
