//! The place-detail lookup's data shaping: the plain-value model of a
//! detail response, the link-URL query extraction, and the assembly of a
//! `Place` from a response. The RPC exchange itself is the embedding's
//! job; everything decided about its payload is decided here.

use vstd::prelude::*;

use crate::config::str_eq;
use crate::numfmt::{parse_i64, parse_i64_spec};

verus! {

/// Failure of one place-detail request.
#[derive(Clone, Debug)]
pub enum RequestError {
    TonicTransport,
    TonicStatus(u32),
    InvalidMetadata,
    RateLimited,
    Unauthorized,
    NotFound,
    Other(String),
}

/// Failure of the place-detail lookup as a whole.
#[derive(Clone, Debug)]
pub enum GetPlaceError {
    RequestError(RequestError),
}

/// Classify the status code of a failed detail call: resource exhaustion
/// (code 8) is a rate-limit signal, a missing entity (code 5) is not
/// found, and any other code is carried as the status itself.
pub open spec fn classify_status_spec(code: u32) -> RequestError {
    if code == 8 {
        RequestError::RateLimited
    } else if code == 5 {
        RequestError::NotFound
    } else {
        RequestError::TonicStatus(code)
    }
}

/// Classify the status code of a failed detail call.
pub fn classify_place_status(code: u32) -> (r: RequestError)
    ensures
        r == classify_status_spec(code),
{
    if code == 8 {
        RequestError::RateLimited
    } else if code == 5 {
        RequestError::NotFound
    } else {
        RequestError::TonicStatus(code)
    }
}

/// One place, as the lookup reports it.
#[derive(Clone, Debug)]
pub struct Place {
    pub location_id: String,
    pub title: Option<String>,
    pub local_language_title: Option<String>,
    pub rating: Option<i32>,
    pub phone: Option<String>,
    pub url: Option<String>,
    pub menu_url: Option<String>,
    pub global_code: Option<String>,
    pub compound_code: Option<String>,
    pub altitude: Option<i64>,
    pub longitude: Option<i64>,
    pub latitude: Option<i64>,
}

/// The plus-code block of a detail response, as plain values.
#[derive(Clone, Debug)]
pub struct PlusCode {
    pub global_code: Option<String>,
    pub compound_code: Option<String>,
}

/// The entity-details block of a detail response, as plain values; each
/// link is carried as its URL text.
#[derive(Clone, Debug)]
pub struct EntityDetails {
    pub title: String,
    pub local_language_title: String,
    pub num_rating_stars: i32,
    pub phone_number: String,
    pub authority_page_link: Option<String>,
    pub menu_link: Option<String>,
    pub plus_code: Option<PlusCode>,
}

/// The camera position of a detail response: coordinates as the decimal
/// texts the endpoint sends.
#[derive(Clone, Debug)]
pub struct CameraLocation {
    pub altitude: String,
    pub longitude: String,
    pub latitude: String,
}

/// The camera block of a detail response.
#[derive(Clone, Debug)]
pub struct Camera {
    pub location: Option<CameraLocation>,
}

/// A whole detail response, as plain values.
#[derive(Clone, Debug)]
pub struct PlaceResponse {
    pub entity_details_result: Option<EntityDetails>,
    pub camera: Option<Camera>,
}

/// An optional text as its characters.
pub open spec fn opt_text(o: Option<String>) -> Option<Seq<char>> {
    match o {
        Some(s) => Some(s@),
        None => None,
    }
}

/// Where the link-URL marker "/url?q=" first occurs at or after `from`.
pub open spec fn find_marker(s: Seq<char>, from: int) -> Option<int>
    recommends
        0 <= from <= s.len(),
    decreases s.len() - from,
        when 0 <= from <= s.len()
{
    if from + 7 > s.len() {
        None
    } else if s.subrange(from, from + 7) == "/url?q="@ {
        Some(from)
    } else {
        find_marker(s, from + 1)
    }
}

/// Where `c` first occurs at or after `from`.
pub open spec fn find_char(s: Seq<char>, c: char, from: int) -> Option<int>
    recommends
        0 <= from <= s.len(),
    decreases s.len() - from,
        when 0 <= from <= s.len()
{
    if from >= s.len() {
        None
    } else if s[from] == c {
        Some(from)
    } else {
        find_char(s, c, from + 1)
    }
}

/// The query a link URL embeds: the text between the first "/url?q=" and
/// the following '&', both of which must be present.
pub open spec fn url_capture(s: Seq<char>) -> Option<Seq<char>> {
    match find_marker(s, 0) {
        Some(i) => match find_char(s, '&', i + 7) {
            Some(j) => Some(s.subrange(i + 7, j)),
            None => None,
        },
        None => None,
    }
}

/// Find the embedded query of a link URL, if the URL carries one.
fn capture_url_query<'a>(s: &'a str) -> (r: Option<&'a str>)
    ensures
        match r {
            Some(q) => url_capture(s@) == Some(q@),
            None => url_capture(s@) is None,
        },
{
    proof {
        reveal_strlit("/url?q=");
    }
    let len = s.unicode_len();
    if len < 7 {
        return None;
    }
    let mut i: usize = 0;
    while i <= len - 7
        invariant
            7 <= len == s@.len(),
            i <= len - 7 + 1,
            "/url?q="@.len() == 7,
            find_marker(s@, 0) == find_marker(s@, i as int),
        decreases len - i,
    {
        let seg = s.substring_char(i, i + 7);
        if str_eq(seg, "/url?q=") {
            proof {
                assert(find_marker(s@, i as int) == Some(i as int));
            }
            let start = i + 7;
            let mut j: usize = start;
            while j < len
                invariant
                    7 <= len == s@.len(),
                    start == i + 7,
                    start <= j <= len,
                    find_marker(s@, 0) == Some(i as int),
                    find_char(s@, '&', i + 7) == find_char(s@, '&', j as int),
                decreases len - j,
            {
                if s.get_char(j) == '&' {
                    proof {
                        assert(find_char(s@, '&', j as int) == Some(j as int));
                    }
                    let q = s.substring_char(start, j);
                    proof {
                        assert(url_capture(s@) == Some(s@.subrange(i + 7, j as int)));
                    }
                    return Some(q);
                }
                j = j + 1;
            }
            proof {
                assert(find_char(s@, '&', len as int) is None);
            }
            return None;
        }
        proof {
            assert(s@.subrange(i as int, i + 7) != "/url?q="@);
            assert(find_marker(s@, i as int) == find_marker(s@, i + 1));
        }
        i = i + 1;
    }
    None
}

/// What a text percent-decodes to: its percent escapes read as bytes and
/// reassembled as UTF-8, a function of the text alone; nothing when the
/// decoded bytes are not valid UTF-8.
pub uninterp spec fn percent_decoded(s: Seq<char>) -> Option<Seq<char>>;

/// Relies on urlencoding::decode: percent-escaped bytes are decoded and
/// reassembled as UTF-8, a function of the input text alone; an input
/// without a percent sign comes back unchanged; invalid UTF-8 yields an
/// error, carried here as nothing.
#[verifier::external_body]
fn percent_decode(s: &str) -> (r: Option<String>)
    ensures
        match r {
            Some(d) => percent_decoded(s@) == Some(d@),
            None => percent_decoded(s@) is None,
        },
        !s@.contains('%') ==> r is Some && r.unwrap()@ == s@,
{
    match urlencoding::decode(s) {
        Ok(c) => Some(c.into_owned()),
        Err(_) => None,
    }
}

/// What extracting a link yields: the decoded embedded query of the URL,
/// or nothing.
pub open spec fn extracted_url(u: Option<Seq<char>>) -> Option<Seq<char>> {
    match u {
        Some(s) => match url_capture(s) {
            Some(q) => percent_decoded(q),
            None => None,
        },
        None => None,
    }
}

/// Reduce an optional link URL to the decoded query it embeds, as the
/// place assembler does with each link of a response.
pub fn extract_and_decode_url(url: Option<String>) -> (r: Option<String>)
    ensures
        match r {
            Some(d) => extracted_url(opt_text(url)) == Some(d@),
            None => extracted_url(opt_text(url)) is None,
        },
{
    match url {
        Some(u) => match capture_url_query(u.as_str()) {
            Some(q) => percent_decode(q),
            None => None,
        },
        None => None,
    }
}

/// Assemble the place a detail response describes, as the sender does
/// after a successful call: the entity-details, camera and location parts
/// must all be present, each link is reduced to its decoded embedded
/// query, the plus codes are carried through, and each coordinate is
/// parsed as a signed integer or dropped.
pub fn build_place(location_id: String, resp: PlaceResponse) -> (r: Result<Place, GetPlaceError>)
    ensures
        match r {
            Ok(p) => {
                &&& resp.entity_details_result is Some
                &&& resp.camera is Some
                &&& resp.camera.unwrap().location is Some
                &&& {
                    let ed = resp.entity_details_result.unwrap();
                    let loc = resp.camera.unwrap().location.unwrap();
                    &&& p.location_id@ == location_id@
                    &&& opt_text(p.title) == Some(ed.title@)
                    &&& opt_text(p.local_language_title) == Some(ed.local_language_title@)
                    &&& p.rating == Some(ed.num_rating_stars)
                    &&& opt_text(p.phone) == Some(ed.phone_number@)
                    &&& opt_text(p.url) == extracted_url(opt_text(ed.authority_page_link))
                    &&& opt_text(p.menu_url) == extracted_url(opt_text(ed.menu_link))
                    &&& opt_text(p.global_code) == (match ed.plus_code {
                        Some(pc) => opt_text(pc.global_code),
                        None => None,
                    })
                    &&& opt_text(p.compound_code) == (match ed.plus_code {
                        Some(pc) => opt_text(pc.compound_code),
                        None => None,
                    })
                    &&& p.altitude == parse_i64_spec(loc.altitude@)
                    &&& p.longitude == parse_i64_spec(loc.longitude@)
                    &&& p.latitude == parse_i64_spec(loc.latitude@)
                }
            },
            Err(e) => {
                &&& (resp.entity_details_result is None || resp.camera is None || resp.camera.unwrap().location is None)
                &&& match e {
                    GetPlaceError::RequestError(RequestError::Other(msg)) => {
                        if resp.entity_details_result is None {
                            msg@ == "Missing entity details"@
                        } else if resp.camera is None {
                            msg@ == "Missing camera information"@
                        } else {
                            msg@ == "Missing location information"@
                        }
                    },
                    _ => false,
                }
            },
        },
{
    let PlaceResponse { entity_details_result, camera } = resp;
    let entity_details = match entity_details_result {
        Some(ed) => ed,
        None => {
            return Err(GetPlaceError::RequestError(RequestError::Other(
                "Missing entity details".to_owned(),
            )));
        },
    };
    let camera = match camera {
        Some(c) => c,
        None => {
            return Err(GetPlaceError::RequestError(RequestError::Other(
                "Missing camera information".to_owned(),
            )));
        },
    };
    let location = match camera.location {
        Some(l) => l,
        None => {
            return Err(GetPlaceError::RequestError(RequestError::Other(
                "Missing location information".to_owned(),
            )));
        },
    };
    let url = extract_and_decode_url(entity_details.authority_page_link);
    let menu_url = extract_and_decode_url(entity_details.menu_link);
    let (global_code, compound_code) = match entity_details.plus_code {
        Some(pc) => (pc.global_code, pc.compound_code),
        None => (None, None),
    };
    let altitude = parse_i64(location.altitude.as_str());
    let longitude = parse_i64(location.longitude.as_str());
    let latitude = parse_i64(location.latitude.as_str());
    Ok(Place {
        location_id,
        title: Some(entity_details.title),
        local_language_title: Some(entity_details.local_language_title),
        rating: Some(entity_details.num_rating_stars),
        phone: Some(entity_details.phone_number),
        url,
        menu_url,
        global_code,
        compound_code,
        altitude,
        longitude,
        latitude,
    })
}

} // verus!
