//! The rules of the traffic service: which requests are served, and the
//! response that carries the traffic picture.

use crate::decimal::{decimal_digits, push_decimal};
use crate::flight::Flight;
use vstd::prelude::*;
use vstd::string::{StrSliceExecFns, StringExecFns, StringSliceAdditionalSpecFns};

verus! {

/// Takes up the next line read from a request. The head of a request ends
/// at its first empty line: any other line joins the head, and the result
/// tells whether to read on.
pub fn take_line(http_request: &mut Vec<String>, line: String) -> (more: bool)
    ensures
        more == (line@.len() > 0),
        final(http_request)@ == if more {
            old(http_request)@.push(line)
        } else {
            old(http_request)@
        },
{
    if line.as_str().is_empty() {
        false
    } else {
        http_request.push(line);
        true
    }
}

/// The request line begins with the six characters `GET / `.
pub open spec fn asks_for_traffic(line: Seq<char>) -> bool {
    line.len() >= 6 && line.subrange(0, 6) == "GET / "@
}

/// The request, given as the lines of its head, is one that the service
/// answers: it has a first line, and that line begins with `GET / `.
pub open spec fn is_served(http_request: Seq<String>) -> bool {
    http_request.len() > 0 && asks_for_traffic(http_request[0]@)
}

/// Decides whether a request is served. Any other request is dropped without
/// an answer.
pub fn accepts_request(http_request: &Vec<String>) -> (served: bool)
    ensures
        served == is_served(http_request@),
{
    if http_request.len() == 0 {
        return false;
    }
    let line: &str = http_request[0].as_str();
    proof {
        reveal_strlit("GET / ");
    }
    if line.unicode_len() < 6 {
        return false;
    }
    let served = line.get_char(0) == 'G' && line.get_char(1) == 'E' && line.get_char(2) == 'T'
        && line.get_char(3) == ' ' && line.get_char(4) == '/' && line.get_char(5) == ' ';
    proof {
        let head = line@.subrange(0, 6);
        if served {
            assert(head =~= "GET / "@);
        } else {
            assert(head[0] == line@[0] && head[1] == line@[1] && head[2] == line@[2] && head[3]
                == line@[3] && head[4] == line@[4] && head[5] == line@[5]);
        }
    }
    served
}

/// The traffic picture that a reply stands for: the copy that arrived, or an
/// empty picture where none did.
pub fn traffic_or_empty(reply: Option<Vec<Flight>>) -> (traffic: Vec<Flight>)
    ensures
        traffic@ == match reply {
            Some(data) => data@,
            None => Seq::<Flight>::empty(),
        },
{
    match reply {
        Some(data) => data,
        None => Vec::new(),
    }
}

/// The body of the response: the serialized traffic picture, or the empty
/// list `[]` where serializing failed.
pub fn body_or_empty(serialized: Option<String>) -> (payload: String)
    ensures
        payload@ == match serialized {
            Some(text) => text@,
            None => "[]"@,
        },
{
    match serialized {
        Some(text) => text,
        None => String::from_str("[]"),
    }
}

/// The response that carries `payload`: the status line, the three header
/// lines, of which the first gives the payload's length in bytes, an empty
/// line, and the payload.
pub open spec fn response_text(payload: &str) -> Seq<char> {
    "HTTP/1.1 200 OK\r\nContent-Length: "@ + decimal_digits(payload.spec_bytes().len())
        + "\r\nAccess-Control-Allow-Origin: *\r\nContent-Type: application/json\r\n\r\n"@
        + payload@
}

/// Frames the payload as the response of the service.
pub fn http_response(payload: &str) -> (response: String)
    ensures
        response@ == response_text(payload),
{
    let mut response = String::from_str("HTTP/1.1 200 OK\r\nContent-Length: ");
    let content_length: usize = payload.as_bytes().len();
    push_decimal(&mut response, content_length as u64);
    response.append("\r\nAccess-Control-Allow-Origin: *\r\nContent-Type: application/json\r\n\r\n");
    response.append(payload);
    assert(response@ =~= response_text(payload));
    response
}

} // verus!
