//! Framing of a request for a local rtorrent socket (SCGI), and the cut
//! between the headers and the body of what comes back.

use vstd::prelude::*;
use vstd::string::*;
use crate::request::{all_writable, request_document, request_xml, MethodCall};
use crate::text::{digits, lemma_digits_ascii, lemma_digits_len_u64, unsigned_to_string};

verus! {

/// The header fields of a request whose body has `size` bytes: each name and
/// each value is followed by a NUL.
pub open spec fn header_block(size: nat) -> Seq<char> {
    "CONTENT_LENGTH\0"@ + digits(size)
        + "\0SCGI\x001\0REQUEST_METHOD\0POST\0SERVER_PROTOCOL\0HTTP/1.1\0"@
}

/// The netstring that opens a request: the length of the header fields in
/// decimal, a colon, the fields, a comma.
pub open spec fn scgi_headers_spec(size: nat) -> Seq<char> {
    digits(header_block(size).len()) + ":"@ + header_block(size) + ","@
}

/// The bytes that go to the socket for a request with the body `body`: the
/// netstring of headers, in UTF-8, then the body.
pub open spec fn frame_spec(body: Seq<u8>) -> Seq<u8> {
    vstd::utf8::encode_utf8(scgi_headers_spec(body.len())) + body
}

/// Whether the blank line that ends the headers of a reply starts at `at`.
pub open spec fn is_header_end(bytes: Seq<u8>, at: int) -> bool {
    &&& 0 <= at
    &&& at + 4 <= bytes.len()
    &&& bytes[at] == 13
    &&& bytes[at + 1] == 10
    &&& bytes[at + 2] == 13
    &&& bytes[at + 3] == 10
}

/// Where the body of a reply starts: behind the first blank line, if there
/// is one.
pub open spec fn header_cut_spec(bytes: Seq<u8>) -> Option<int> {
    if exists|at: int| is_header_end(bytes, at) {
        Some(first_header_end(bytes) + 4)
    } else {
        None
    }
}

/// The first position at which a blank line starts.
pub open spec fn first_header_end(bytes: Seq<u8>) -> int {
    choose|at: int| is_header_end(bytes, at) && forall|j: int| 0 <= j < at ==> !is_header_end(bytes, j)
}

/// A transport that reaches rtorrent through a local socket.
#[derive(Debug, PartialEq, Eq)]
pub struct UnixSocketTransport {
    socket: String,
}

impl Clone for UnixSocketTransport {
    fn clone(&self) -> (r: Self)
        ensures
            r == *self,
    {
        UnixSocketTransport { socket: self.socket.clone() }
    }
}

impl UnixSocketTransport {
    /// The path of the socket.
    pub closed spec fn path(&self) -> Seq<char> {
        self.socket@
    }

    /// The transport through the socket at the path `socket`.
    pub fn new(socket: &str) -> (t: Self)
        ensures
            t.path() == socket@,
    {
        UnixSocketTransport { socket: socket.to_owned() }
    }

    /// The path of the socket.
    pub fn socket(&self) -> (s: &str)
        ensures
            s@ == self.path(),
    {
        self.socket.as_str()
    }

    /// The netstring of headers that precedes a body of `size` bytes.
    pub fn scgi_headers(size: usize) -> (s: String)
        ensures
            s@ == scgi_headers_spec(size as nat),
    {
        let mut headers = String::from_str("CONTENT_LENGTH\0");
        let size_text = unsigned_to_string(size as u64);
        headers.append(size_text.as_str());
        headers.append("\0SCGI\x001\0REQUEST_METHOD\0POST\0SERVER_PROTOCOL\0HTTP/1.1\0");
        assert(headers@ =~= header_block(size as nat));
        proof {
            lemma_header_block_ascii(size as nat);
            lemma_digits_len_u64(size as u64);
            reveal_strlit("CONTENT_LENGTH\0");
            reveal_strlit("\0SCGI\x001\0REQUEST_METHOD\0POST\0SERVER_PROTOCOL\0HTTP/1.1\0");
            assert(header_block(size as nat).len() <= 100);
        }
        let length: usize = headers.as_str().len();
        let mut framed = unsigned_to_string(length as u64);
        framed.append(":");
        framed.append(headers.as_str());
        framed.append(",");
        assert(framed@ =~= scgi_headers_spec(size as nat));
        framed
    }

    /// The bytes that go to the socket for a request with the body `body`.
    pub fn frame(body: &[u8]) -> (framed: Vec<u8>)
        ensures
            framed@ == frame_spec(body@),
    {
        let headers = Self::scgi_headers(body.len());
        let mut framed = headers.as_str().as_bytes_vec();
        let mut i: usize = 0;
        while i < body.len()
            invariant
                i <= body@.len(),
                framed@ == vstd::utf8::encode_utf8(scgi_headers_spec(body@.len())) + body@.subrange(
                    0,
                    i as int,
                ),
            decreases body@.len() - i,
        {
            framed.push(body[i]);
            assert(body@.subrange(0, i + 1) =~= body@.subrange(0, i as int).push(body@[i as int]));
            assert(framed@ =~= vstd::utf8::encode_utf8(scgi_headers_spec(body@.len()))
                + body@.subrange(0, i + 1));
            i += 1;
        }
        assert(body@.subrange(0, i as int) =~= body@);
        framed
    }

    /// The bytes that go to the socket for `request`: the document that the
    /// client writes for it, framed. The arguments must be ones that can be
    /// written; `can_write` tests that.
    pub fn payload(request: &MethodCall) -> (framed: Vec<u8>)
        requires
            all_writable(request.args@),
        ensures
            framed@ == frame_spec(request_document(request.method@, request.args@)),
    {
        let body = request_xml(request);
        Self::frame(body.as_slice())
    }

    /// The bytes that go to the socket for `request`, where its arguments can
    /// be written; `None` where one of them cannot.
    pub fn try_payload(request: &MethodCall) -> (framed: Option<Vec<u8>>)
        ensures
            match framed {
                Some(bytes) => all_writable(request.args@) && bytes@ == frame_spec(
                    request_document(request.method@, request.args@),
                ),
                None => !all_writable(request.args@),
            },
    {
        if request.can_write() {
            Some(Self::payload(request))
        } else {
            None
        }
    }

    /// Finds where the body of a reply starts.
    pub fn header_cut(response: &[u8]) -> (r: Option<usize>)
        ensures
            match r {
                Some(cut) => header_cut_spec(response@) == Some(cut as int),
                None => header_cut_spec(response@) is None,
            },
            r matches Some(cut) ==> 4 <= cut <= response@.len() && is_header_end(
                response@,
                cut - 4,
            ) && forall|j: int| 0 <= j < cut - 4 ==> !is_header_end(response@, j),
            r is None ==> forall|j: int| !is_header_end(response@, j),
    {
        let n: usize = response.len();
        if n < 4 {
            assert(forall|j: int| !is_header_end(response@, j));
            return None;
        }
        let mut at: usize = 0;
        while at <= n - 4
            invariant
                n == response@.len(),
                4 <= n,
                at <= n - 3,
                forall|j: int| 0 <= j < at ==> !is_header_end(response@, j),
            decreases n - at,
        {
            if response[at] == 13 && response[at + 1] == 10 && response[at + 2] == 13
                && response[at + 3] == 10 {
                proof {
                    lemma_first_header_end(response@, at as int);
                }
                return Some(at + 4);
            }
            at += 1;
        }
        assert(forall|j: int| !is_header_end(response@, j));
        None
    }

    /// The body of a reply: what follows the first blank line. `None` where
    /// the reply holds no blank line.
    pub fn strip_headers(response: &[u8]) -> (r: Option<Vec<u8>>)
        ensures
            match header_cut_spec(response@) {
                Some(cut) => r matches Some(body) && body@ == response@.subrange(
                    cut,
                    response@.len() as int,
                ),
                None => r is None,
            },
    {
        match Self::header_cut(response) {
            Some(cut) => {
                let mut body: Vec<u8> = Vec::new();
                let mut i: usize = cut;
                while i < response.len()
                    invariant
                        cut <= i <= response@.len(),
                        body@ == response@.subrange(cut as int, i as int),
                    decreases response@.len() - i,
                {
                    body.push(response[i]);
                    assert(body@ =~= response@.subrange(cut as int, i + 1));
                    i += 1;
                }
                Some(body)
            },
            None => None,
        }
    }
}

/// The header fields are ASCII, so they take as many bytes as they have
/// characters: the length in the netstring counts both.
pub proof fn lemma_header_block_ascii(size: nat)
    ensures
        vstd::utf8::is_ascii_chars(header_block(size)),
        vstd::utf8::encode_utf8(header_block(size)).len() == header_block(size).len(),
{
    reveal_strlit("CONTENT_LENGTH\0");
    reveal_strlit("\0SCGI\x001\0REQUEST_METHOD\0POST\0SERVER_PROTOCOL\0HTTP/1.1\0");
    lemma_digits_ascii(size);
    let names = "CONTENT_LENGTH\0"@;
    let rest = "\0SCGI\x001\0REQUEST_METHOD\0POST\0SERVER_PROTOCOL\0HTTP/1.1\0"@;
    assert(vstd::utf8::is_ascii_chars(names));
    assert(vstd::utf8::is_ascii_chars(rest));
    vstd::utf8::is_ascii_chars_concat(names + digits(size), names, digits(size));
    vstd::utf8::is_ascii_chars_concat(header_block(size), names + digits(size), rest);
    vstd::utf8::is_ascii_chars_encode_utf8(header_block(size));
}

/// A blank line with none before it is the first one.
pub proof fn lemma_first_header_end(bytes: Seq<u8>, at: int)
    requires
        is_header_end(bytes, at),
        forall|j: int| 0 <= j < at ==> !is_header_end(bytes, j),
    ensures
        first_header_end(bytes) == at,
        header_cut_spec(bytes) == Some(at + 4),
{
    let f = first_header_end(bytes);
    assert(is_header_end(bytes, f) && forall|j: int| 0 <= j < f ==> !is_header_end(bytes, j));
    if f < at {
        assert(!is_header_end(bytes, f));
    } else if at < f {
        assert(!is_header_end(bytes, at));
    }
}

} // verus!
