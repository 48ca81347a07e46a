//! Framing of the exchange with the query backend.
//!
//! The backend is reached over a socket that the caller owns. This file
//! holds what is computed on either side of it: the text of a request,
//! the bytes kept from what comes back, and the body cut out of them.

use vstd::prelude::*;
use vstd::string::*;
use vstd::utf8::{
    decode_utf8, encode_utf8, encode_utf8_decode_utf8, encode_utf8_valid_utf8,
    is_char_boundary_iff_not_is_continuation_byte, length_of_first_scalar, pop_first_scalar,
    valid_utf8, valid_utf8_split,
};
use vstd::slice::slice_subrange;

verus! {

pub const SERVER_HOST: &'static str = "your-server.com";

pub const SERVER_PORT: u16 = 80;

pub const API_ENDPOINT: &'static str = "/api";

// HTTP buffer sizes, in bytes.
pub const REQUEST_BUFFER_SIZE: usize = 2048;

pub const RESPONSE_BUFFER_SIZE: usize = 4096;

/// Data structure for trip directions.
#[derive(Debug, PartialEq, Eq)]
pub struct TripDirections {
    pub from: String,
    pub to: String,
    pub duration: String,
    pub distance: String,
    pub instructions: Vec<String>,
}

/// Trip directions as plain values.
pub struct TripDirectionsView {
    pub from: Seq<char>,
    pub to: Seq<char>,
    pub duration: Seq<char>,
    pub distance: Seq<char>,
    pub instructions: Seq<Seq<char>>,
}

impl View for TripDirections {
    type V = TripDirectionsView;

    open spec fn view(&self) -> TripDirectionsView {
        TripDirectionsView {
            from: self.from@,
            to: self.to@,
            duration: self.duration@,
            distance: self.distance@,
            instructions: Seq::new(self.instructions@.len(), |i: int| self.instructions@[i]@),
        }
    }
}

/// The text of a decimal digit.
pub open spec fn digit_text(digit: nat) -> Seq<char> {
    if digit == 0 {
        "0"@
    } else if digit == 1 {
        "1"@
    } else if digit == 2 {
        "2"@
    } else if digit == 3 {
        "3"@
    } else if digit == 4 {
        "4"@
    } else if digit == 5 {
        "5"@
    } else if digit == 6 {
        "6"@
    } else if digit == 7 {
        "7"@
    } else if digit == 8 {
        "8"@
    } else {
        "9"@
    }
}

/// A number in decimal, without leading zeros.
pub open spec fn decimal_text(n: nat) -> Seq<char>
    decreases n,
{
    if n < 10 {
        digit_text(n)
    } else {
        decimal_text(n / 10) + digit_text(n % 10)
    }
}

/// The body of a query: the query as the one member of a JSON object.
/// The query goes in as it is.
pub open spec fn query_body_text(query: Seq<char>) -> Seq<char> {
    "{\"query\": \""@ + query + "\"}"@
}

/// The request that carries a body of `length` bytes to the backend.
pub open spec fn request_text(body: Seq<char>, length: nat) -> Seq<char> {
    "POST "@ + API_ENDPOINT@ + "/query HTTP/1.1\r\nHost: "@ + SERVER_HOST@
        + "\r\nConnection: close\r\nContent-Type: application/json\r\nContent-Length: "@
        + decimal_text(length) + "\r\n\r\n"@ + body
}

/// The query that asks for directions.
pub open spec fn directions_query_text(from: Seq<char>, to: Seq<char>) -> Seq<char> {
    "directions from "@ + from + " to "@ + to
}

fn digit_str(digit: usize) -> (text: &'static str)
    requires
        digit < 10,
    ensures
        text@ == digit_text(digit as nat),
{
    if digit == 0 {
        "0"
    } else if digit == 1 {
        "1"
    } else if digit == 2 {
        "2"
    } else if digit == 3 {
        "3"
    } else if digit == 4 {
        "4"
    } else if digit == 5 {
        "5"
    } else if digit == 6 {
        "6"
    } else if digit == 7 {
        "7"
    } else if digit == 8 {
        "8"
    } else {
        "9"
    }
}

/// Writes a number in decimal.
pub fn decimal(n: usize) -> (text: String)
    ensures
        text@ == decimal_text(n as nat),
    decreases n,
{
    if n < 10 {
        String::from_str(digit_str(n))
    } else {
        let mut text = decimal(n / 10);
        text.append(digit_str(n % 10));
        text
    }
}

/// The body of the request for a query.
pub fn query_body(query: &str) -> (body: String)
    ensures
        body@ == query_body_text(query@),
{
    let mut body = String::from_str("{\"query\": \"");
    body.append(query);
    body.append("\"}");
    body
}

/// The HTTP request that puts `query` to the backend: a `POST` to the
/// query endpoint with the body of `query_body` and its length in bytes.
pub fn query_request(query: &str) -> (request: String)
    ensures
        request@ == request_text(
            query_body_text(query@),
            encode_utf8(query_body_text(query@)).len(),
        ),
{
    let body = query_body(query);
    let length: usize = body.as_str().as_bytes().len();
    let mut request = String::from_str("POST ");
    request.append(API_ENDPOINT);
    request.append("/query HTTP/1.1\r\nHost: ");
    request.append(SERVER_HOST);
    request.append("\r\nConnection: close\r\nContent-Type: application/json\r\nContent-Length: ");
    request.append(decimal(length).as_str());
    request.append("\r\n\r\n");
    request.append(body.as_str());
    assert(request@ =~= request_text(
        query_body_text(query@),
        encode_utf8(query_body_text(query@)).len(),
    ));
    request
}

/// `core::str::from_utf8`: it succeeds exactly on bytes that are
/// well-formed UTF-8, and the text it gives is the one that these bytes
/// encode.
#[verifier::external_body]
fn text_of(bytes: &[u8]) -> (text: Option<&str>)
    ensures
        text is Some <==> valid_utf8(bytes@),
        text matches Some(s) ==> s.spec_bytes() == bytes@,
{
    core::str::from_utf8(bytes).ok()
}

/// Takes in one chunk read from the socket. A chunk that is text is
/// appended to the response; one that is not is dropped whole.
pub fn append_chunk(response: &mut String, chunk: &[u8])
    ensures
        final(response)@ == (if valid_utf8(chunk@) {
            old(response)@ + decode_utf8(chunk@)
        } else {
            old(response)@
        }),
{
    match text_of(chunk) {
        Some(text) => {
            proof {
                encode_utf8_decode_utf8(text@);
            }
            response.append(text);
        },
        None => {},
    }
}

/// The blank line that ends the headers starts at index `i` of `bytes`.
pub open spec fn headers_end_at(bytes: Seq<u8>, i: int) -> bool {
    &&& 0 <= i
    &&& i + 4 <= bytes.len()
    &&& bytes[i] == 13
    &&& bytes[i + 1] == 10
    &&& bytes[i + 2] == 13
    &&& bytes[i + 3] == 10
}

/// Index `i` is where the headers of `bytes` end first.
pub open spec fn first_headers_end(bytes: Seq<u8>, i: int) -> bool {
    headers_end_at(bytes, i) && forall|j: int| 0 <= j < i ==> !headers_end_at(bytes, j)
}

/// What follows a line feed in well-formed text is well-formed text.
proof fn lemma_text_after_line_feed(bytes: Seq<u8>, at: int)
    requires
        valid_utf8(bytes),
        0 <= at < bytes.len(),
        bytes[at] == 10,
    ensures
        valid_utf8(bytes.subrange(at + 1, bytes.len() as int)),
{
    is_char_boundary_iff_not_is_continuation_byte(bytes, at);
    valid_utf8_split(bytes, at);
    let tail = bytes.subrange(at, bytes.len() as int);
    assert(tail[0] == 10);
    assert(length_of_first_scalar(tail) == 1);
    assert(pop_first_scalar(tail) =~= bytes.subrange(at + 1, bytes.len() as int));
}

/// Extracts the body of a response: the text that follows the first
/// blank line. The blank line is looked for in the bytes of the
/// response, as they came over the wire. A response without a blank
/// line is not one.
pub fn response_body(response: &str) -> (body: Result<String, &'static str>)
    ensures
        body is Ok <==> exists|i: int| headers_end_at(response.spec_bytes(), i),
        body matches Ok(text) ==> exists|i: int|
            first_headers_end(response.spec_bytes(), i) && text@ == decode_utf8(
                response.spec_bytes().subrange(i + 4, response.spec_bytes().len() as int),
            ),
        body matches Err(message) ==> message@ == "Invalid HTTP response"@,
{
    let bytes = response.as_bytes();
    let len: usize = bytes.len();
    proof {
        encode_utf8_valid_utf8(response@);
    }
    let mut i: usize = 0;
    while len >= 4 && i <= len - 4
        invariant
            len == bytes@.len(),
            bytes@ == response.spec_bytes(),
            valid_utf8(bytes@),
            forall|j: int| 0 <= j < i ==> !headers_end_at(bytes@, j),
        decreases len - i,
    {
        if bytes[i] == 13 && bytes[i + 1] == 10 && bytes[i + 2] == 13 && bytes[i + 3] == 10 {
            assert(first_headers_end(bytes@, i as int));
            let rest = slice_subrange(bytes, i + 4, len);
            proof {
                lemma_text_after_line_feed(bytes@, i + 3);
            }
            match text_of(rest) {
                Some(text) => {
                    proof {
                        encode_utf8_decode_utf8(text@);
                    }
                    return Ok(String::from_str(text));
                },
                None => {
                    proof {
                        assert(false);
                    }
                    return Err("Invalid HTTP response");
                },
            }
        }
        i = i + 1;
    }
    assert forall|j: int| !headers_end_at(bytes@, j) by {
        if 0 <= j && j + 4 <= len {
            assert(j < i);
        }
    }
    Err("Invalid HTTP response")
}

/// The query to send for directions from one place to another.
pub fn directions_query(from: &str, to: &str) -> (query: String)
    ensures
        query@ == directions_query_text(from@, to@),
{
    let mut query = String::from_str("directions from ");
    query.append(from);
    query.append(" to ");
    query.append(to);
    query
}

/// The directions that stand in for an answer of the backend.
pub open spec fn stock_directions(from: Seq<char>, to: Seq<char>) -> TripDirectionsView {
    TripDirectionsView {
        from,
        to,
        duration: "25 min"@,
        distance: "3.2 km"@,
        instructions: seq![
            "Head north on Main St"@,
            "Turn right onto First Ave"@,
            "Continue for 500m"@,
            "Destination will be on your left"@,
        ],
    }
}

/// Turns the outcome of the directions query into directions. `response`
/// is what the backend gave for `directions_query(from, to)`. A failed
/// query is passed on. The answer itself is not read yet: every answer
/// gives the same stock directions between the two places.
pub fn get_trip_directions(from: &str, to: &str, response: Result<String, &'static str>) -> (
    directions: Result<TripDirections, &'static str>)
    ensures
        response matches Err(message) ==> directions == Err::<TripDirections, &'static str>(
            message,
        ),
        response is Ok ==> directions is Ok && directions->Ok_0@ == stock_directions(from@, to@),
{
    match response {
        Err(message) => Err(message),
        Ok(_) => {
            let mut instructions: Vec<String> = Vec::new();
            instructions.push(String::from_str("Head north on Main St"));
            instructions.push(String::from_str("Turn right onto First Ave"));
            instructions.push(String::from_str("Continue for 500m"));
            instructions.push(String::from_str("Destination will be on your left"));
            let directions = TripDirections {
                from: String::from_str(from),
                to: String::from_str(to),
                duration: String::from_str("25 min"),
                distance: String::from_str("3.2 km"),
                instructions,
            };
            assert(directions@.instructions =~= stock_directions(from@, to@).instructions);
            Ok(directions)
        },
    }
}

/// The query that carries recorded audio. The samples are not encoded
/// yet: whatever they are, a fixed text goes in their place.
pub fn send_audio_for_processing(audio_data: &[i16]) -> (query: String)
    ensures
        query@ == "{\"audio_data\": \""@ + "audio_data_placeholder"@ + "\"}"@,
{
    let encoded_data = "audio_data_placeholder";
    let mut query = String::from_str("{\"audio_data\": \"");
    query.append(encoded_data);
    query.append("\"}");
    query
}

} // verus!
