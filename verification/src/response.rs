//! The received response and its exact printed form.
//!
//! The program prints one status line, `<version> <status>` and a newline,
//! and then every header in receipt order, each rendered as the transport
//! renders a header line — `name: value` followed by CRLF — with no
//! separator between consecutive headers and nothing after the last one.

use vstd::prelude::*;
use vstd::string::StringExecFns;

verus! {

/// One response header, as received.
#[derive(Clone, PartialEq, Eq, Debug)]
pub struct Header {
    pub name: String,
    pub value: String,
}

/// Specification-level image of a header.
pub struct HeaderV {
    pub name: Seq<char>,
    pub value: Seq<char>,
}

impl View for Header {
    type V = HeaderV;

    open spec fn view(&self) -> HeaderV {
        HeaderV { name: self.name@, value: self.value@ }
    }
}

/// The parts of the transport's response that the program prints: the
/// protocol version, the status, and the headers in receipt order.
#[derive(Clone, PartialEq, Eq, Debug)]
pub struct Response {
    pub version: String,
    pub status: String,
    pub headers: Vec<Header>,
}

/// Specification-level image of a response.
pub struct ResponseV {
    pub version: Seq<char>,
    pub status: Seq<char>,
    pub headers: Seq<HeaderV>,
}

impl View for Response {
    type V = ResponseV;

    open spec fn view(&self) -> ResponseV {
        ResponseV {
            version: self.version@,
            status: self.status@,
            headers: Seq::new(self.headers@.len(), |i: int| self.headers@[i]@),
        }
    }
}

/// The rendering of one header line: `name: value` and CRLF.
pub open spec fn spec_header_line(h: HeaderV) -> Seq<char> {
    h.name + ": "@ + h.value + "\r\n"@
}

/// All header lines in order, concatenated with no separator.
pub open spec fn spec_header_block(hs: Seq<HeaderV>) -> Seq<char>
    decreases hs.len(),
{
    if hs.len() == 0 {
        Seq::empty()
    } else {
        spec_header_block(hs.drop_last()) + spec_header_line(hs.last())
    }
}

/// Everything the program prints for a response: the status line, a
/// newline, and the header block.
pub open spec fn spec_render_response(r: ResponseV) -> Seq<char> {
    r.version + " "@ + r.status + "\n"@ + spec_header_block(r.headers)
}

/// Renders a response exactly as the program prints it.
pub fn render_response(r: &Response) -> (out: String)
    ensures
        out@ == spec_render_response(r@),
{
    let mut out = r.version.clone();
    out.append(" ");
    out.append(r.status.as_str());
    out.append("\n");
    proof {
        assert(r@.headers.take(0) =~= Seq::<HeaderV>::empty());
        assert(out@ =~= r@.version + " "@ + r@.status + "\n"@ + spec_header_block(
            r@.headers.take(0),
        ));
    }
    let mut i: usize = 0;
    while i < r.headers.len()
        invariant
            i <= r.headers.len(),
            r.headers@.len() == r@.headers.len(),
            out@ == r@.version + " "@ + r@.status + "\n"@ + spec_header_block(
                r@.headers.take(i as int),
            ),
        decreases r.headers.len() - i,
    {
        let h = &r.headers[i];
        out.append(h.name.as_str());
        out.append(": ");
        out.append(h.value.as_str());
        out.append("\r\n");
        proof {
            assert(r@.headers.take(i as int + 1).drop_last() =~= r@.headers.take(i as int));
            assert(r@.headers.take(i as int + 1).last() == r@.headers[i as int]);
            assert(r@.headers[i as int] == h@);
            assert(out@ =~= r@.version + " "@ + r@.status + "\n"@ + spec_header_block(
                r@.headers.take(i as int + 1),
            ));
        }
        i += 1;
    }
    proof {
        assert(r@.headers.take(r.headers@.len() as int) =~= r@.headers);
    }
    out
}

} // verus!
