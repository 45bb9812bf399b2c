//! The codec of the wire protocol: what a request and a response are, how the
//! bytes of a frame become a request, and how a response becomes bytes.
use crate::tools::json::{parse_object, parsed_object, quote, shape_error, string_literal};
use crate::{ErrorKind, ErrorType};
use vstd::prelude::*;
use vstd::string::StringExecFns;
use vstd::string::StrSliceExecFns;
use vstd::utf8::encode_utf8;

verus! {

/// What a client may ask for.
#[derive(Debug, PartialEq, Eq)]
pub enum Request {
    /// Keep `hash` under `key`, replacing what was there.
    Store { key: String, hash: String },
    /// Hand out what is kept under `key`.
    Load { key: String },
}

/// What the service answers.
#[derive(Debug, PartialEq, Eq)]
pub enum Response {
    /// The pair of a store request is kept.
    SuccessStore,
    /// The hash kept under the key of a load request.
    SuccessLoad { key: String, hash: String },
    /// Nothing is kept under the key of a load request.
    NoKey,
    /// The bytes received were no request.
    Error,
}

/// A request as the contracts see it.
pub enum RequestView {
    Store { key: Seq<char>, hash: Seq<char> },
    Load { key: Seq<char> },
}

/// A response as the contracts see it.
pub enum ResponseView {
    SuccessStore,
    SuccessLoad { key: Seq<char>, hash: Seq<char> },
    NoKey,
    Error,
}

impl View for Request {
    type V = RequestView;

    open spec fn view(&self) -> RequestView {
        match *self {
            Request::Store { key, hash } => RequestView::Store { key: key@, hash: hash@ },
            Request::Load { key } => RequestView::Load { key: key@ },
        }
    }
}

impl View for Response {
    type V = ResponseView;

    open spec fn view(&self) -> ResponseView {
        match *self {
            Response::SuccessStore => ResponseView::SuccessStore,
            Response::SuccessLoad { key, hash } => ResponseView::SuccessLoad {
                key: key@,
                hash: hash@,
            },
            Response::NoKey => ResponseView::NoKey,
            Response::Error => ResponseView::Error,
        }
    }
}

impl Clone for Request {
    fn clone(&self) -> (copy: Self)
        ensures
            copy == *self,
    {
        match self {
            Request::Store { key, hash } => Request::Store { key: key.clone(), hash: hash.clone() },
            Request::Load { key } => Request::Load { key: key.clone() },
        }
    }
}

impl Clone for Response {
    fn clone(&self) -> (copy: Self)
        ensures
            copy == *self,
    {
        match self {
            Response::SuccessStore => Response::SuccessStore,
            Response::SuccessLoad { key, hash } => Response::SuccessLoad {
                key: key.clone(),
                hash: hash.clone(),
            },
            Response::NoKey => Response::NoKey,
            Response::Error => Response::Error,
        }
    }
}

/// The text of the first member called `name`, where that member's value is a
/// JSON string; `None` where no member has that name or the first that has it
/// holds something else.
pub open spec fn member_text(
    members: Seq<(Seq<char>, Option<Seq<char>>)>,
    name: Seq<char>,
) -> Option<Seq<char>>
    decreases members.len(),
{
    if members.len() == 0 {
        None
    } else if members[0].0 == name {
        members[0].1
    } else {
        member_text(members.drop_first(), name)
    }
}

/// The request that an object with these members spells, if it spells one:
/// `request_type` is `store` or `load`, `key` is a string, and a store has a
/// string `hash` too. Other members are ignored.
pub open spec fn request_of(members: Seq<(Seq<char>, Option<Seq<char>>)>) -> Option<RequestView> {
    match member_text(members, "request_type"@) {
        Some(kind) => {
            if kind == "store"@ {
                match (member_text(members, "key"@), member_text(members, "hash"@)) {
                    (Some(key), Some(hash)) => Some(RequestView::Store { key, hash }),
                    _ => None,
                }
            } else if kind == "load"@ {
                match member_text(members, "key"@) {
                    Some(key) => Some(RequestView::Load { key }),
                    None => None,
                }
            } else {
                None
            }
        },
        None => None,
    }
}

/// The request that the bytes of one frame spell: they must parse as a JSON
/// object, and the object must have the shape of a request.
pub open spec fn decoded(data: Seq<u8>) -> Option<RequestView> {
    match parsed_object(data) {
        Some(members) => request_of(members),
        None => None,
    }
}

/// What reading one frame comes to. No bytes at all: the peer is gone, a
/// `BadReading`. Bytes that spell no request: a `JsonErr`.
pub open spec fn frame_request(data: Seq<u8>) -> Result<RequestView, ErrorKind> {
    if data.len() == 0 {
        Err(ErrorKind::BadReading)
    } else {
        match decoded(data) {
            Some(request) => Ok(request),
            None => Err(ErrorKind::JsonErr),
        }
    }
}

fn text_of(members: &Vec<(String, Option<String>)>, name: &str) -> (text: Option<String>)
    ensures
        text.deep_view() == member_text(members.deep_view(), name@),
{
    let wanted = String::from_str(name);
    let ghost all = members.deep_view();
    let mut i: usize = 0;
    assert(all.skip(0) =~= all);
    while i < members.len()
        invariant
            i <= members.len(),
            wanted@ == name@,
            all == members.deep_view(),
            member_text(all, name@) == member_text(all.skip(i as int), name@),
        decreases members.len() - i,
    {
        proof {
            let rest = all.skip(i as int);
            assert(rest[0] == all[i as int]);
            assert(rest.drop_first() =~= all.skip(i + 1));
        }
        if members[i].0 == wanted {
            return match &members[i].1 {
                Some(text) => Some(text.clone()),
                None => None,
            };
        }
        i += 1;
    }
    None
}

/// Reads a request off the members of a parsed object.
///
/// `None` where the members do not have the shape of a request: no string
/// `request_type`, one that is neither `store` nor `load`, no string `key`, or
/// a store without a string `hash`.
pub fn request_from_members(members: &Vec<(String, Option<String>)>) -> (request: Option<Request>)
    ensures
        match request {
            Some(found) => request_of(members.deep_view()) == Some(found@),
            None => request_of(members.deep_view()) is None,
        },
{
    let kind = match text_of(members, "request_type") {
        Some(kind) => kind,
        None => { return None; },
    };
    if kind == String::from_str("store") {
        match (text_of(members, "key"), text_of(members, "hash")) {
            (Some(key), Some(hash)) => Some(Request::Store { key, hash }),
            _ => None,
        }
    } else if kind == String::from_str("load") {
        match text_of(members, "key") {
            Some(key) => Some(Request::Load { key }),
            None => None,
        }
    } else {
        None
    }
}

/// Decodes the bytes of one frame: everything read up to and including the
/// first `}`, or up to the end of the stream.
///
/// No bytes at all means the peer is gone: `BadReading`. Bytes that are not a
/// JSON object, or an object that is no request, are a `JsonErr`.
pub fn get_request(data: &[u8]) -> (request: Result<Request, ErrorType>)
    ensures
        match request {
            Ok(found) => frame_request(data@) == Ok::<RequestView, ErrorKind>(found@),
            Err(error) => frame_request(data@) == Err::<RequestView, ErrorKind>(error@),
        },
{
    if data.len() == 0 {
        return Err(ErrorType::BadReading);
    }
    match parse_object(data) {
        Ok(members) => match request_from_members(&members) {
            Some(found) => Ok(found),
            None => Err(ErrorType::JsonErr(shape_error("not a store or load request"))),
        },
        Err(reason) => Err(ErrorType::JsonErr(reason)),
    }
}

/// The byte that ends a frame: `}`.
pub const FRAME_END: u8 = 125;

/// Whether the first `length` bytes of `stream` are its first frame: they run
/// up to and including the first `}`, or to the end of the stream where it
/// holds none.
pub open spec fn is_first_frame(stream: Seq<u8>, length: int) -> bool {
    &&& 0 <= length <= stream.len()
    &&& forall|i: int| 0 <= i < length - 1 ==> stream[i] != FRAME_END
    &&& length == stream.len() || (length > 0 && stream[length - 1] == FRAME_END)
}

/// The length of the first frame of `stream`, which is what one read takes
/// off the stream.
pub fn frame_length(stream: &[u8]) -> (length: usize)
    ensures
        is_first_frame(stream@, length as int),
{
    let mut i: usize = 0;
    while i < stream.len()
        invariant
            i <= stream.len(),
            forall|j: int| 0 <= j < i ==> stream@[j] != FRAME_END,
        decreases stream.len() - i,
    {
        if stream[i] == FRAME_END {
            return i + 1;
        }
        i += 1;
    }
    i
}

/// A stream has one first frame only.
pub proof fn law_first_frame_is_unique(stream: Seq<u8>, one: int, other: int)
    requires
        is_first_frame(stream, one),
        is_first_frame(stream, other),
    ensures
        one == other,
{
    if one < other {
        assert(stream[one - 1] == FRAME_END);
    } else if other < one {
        assert(stream[other - 1] == FRAME_END);
    }
}

/// The text of a successful load's answer around the two JSON strings in it.
pub open spec fn success_load_text(key_literal: Seq<char>, hash_literal: Seq<char>) -> Seq<char> {
    "{\"response_status\":\"success\",\"requested_key\":"@ + key_literal
        + ",\"requested_hash\":"@ + hash_literal + "}"@
}

/// The text of a response on the wire: compact JSON, members in this order.
pub open spec fn response_text(response: ResponseView) -> Seq<char> {
    match response {
        ResponseView::SuccessStore => "{\"response_status\":\"success\"}"@,
        ResponseView::SuccessLoad { key, hash } => success_load_text(
            string_literal(key),
            string_literal(hash),
        ),
        ResponseView::NoKey => "{\"response_status\":\"key not found\"}"@,
        ResponseView::Error => "{\"response_status\":\"error\"}"@,
    }
}

/// Lays out the answer to a successful load around the key and the hash, each
/// already written as a JSON string.
pub fn success_load(key_literal: &str, hash_literal: &str) -> (text: String)
    ensures
        text@ == success_load_text(key_literal@, hash_literal@),
{
    let mut text = String::from_str("{\"response_status\":\"success\",\"requested_key\":");
    text.append(key_literal);
    text.append(",\"requested_hash\":");
    text.append(hash_literal);
    text.append("}");
    text
}

/// Writes a response as the text that goes on the wire.
pub fn encode_response(response: &Response) -> (text: String)
    ensures
        text@ == response_text(response@),
{
    match response {
        Response::SuccessStore => String::from_str("{\"response_status\":\"success\"}"),
        Response::SuccessLoad { key, hash } => {
            let key_literal = quote(key.as_str());
            let hash_literal = quote(hash.as_str());
            success_load(key_literal.as_str(), hash_literal.as_str())
        },
        Response::NoKey => String::from_str("{\"response_status\":\"key not found\"}"),
        Response::Error => String::from_str("{\"response_status\":\"error\"}"),
    }
}

/// The bytes to write for a response: its text in UTF-8. The caller writes
/// them to the stream in one go.
pub fn send_response(response: Response) -> (payload: Vec<u8>)
    ensures
        payload@ == encode_utf8(response_text(response@)),
{
    encode_response(&response).as_str().as_bytes_vec()
}

} // verus!
