use vstd::prelude::*;

verus! {

/// The prompt shown after every redraw.
pub const PROMPT: &'static str = "Type your message (or 'exit' to quit): ";

/// The separator between the origin label and the text of a display line.
pub open spec fn separator() -> Seq<char> {
    seq![':', ' ']
}

/// A display line: the origin label, the separator, then the text.
pub open spec fn display_line(label: Seq<char>, text: Seq<char>) -> Seq<char> {
    label + separator() + text
}

/// Builds `"<label>: <text>"`.
pub fn format_line(label: &str, text: &str) -> (r: String)
    ensures
        r@ == display_line(label@, text@),
{
    let mut r = String::from_str(label);
    r.append(": ");
    r.append(text);
    proof {
        reveal_strlit(": ");
        assert(": "@ =~= separator());
    }
    r
}

} // verus!

verus! {

/// Size of the receive buffer: longer datagrams are cut to this many bytes.
pub const RECV_BUFFER_SIZE: usize = 1024;

/// What `str::trim` returns for a text.
pub uninterp spec fn trimmed(s: Seq<char>) -> Seq<char>;

/// What `String::from_utf8_lossy` decodes from a byte sequence.
pub uninterp spec fn lossy_text(b: Seq<u8>) -> Seq<char>;

/// Relies on `str::trim`: the result is the text with leading and trailing
/// whitespace removed, a function of the text alone.
#[verifier::external_body]
pub(crate) fn trim_text(s: &str) -> (r: &str)
    ensures
        r@ == trimmed(s@),
{
    s.trim()
}

/// Relies on `String::from_utf8_lossy`: the bytes decoded as UTF-8, each
/// invalid sequence replaced, a function of the bytes alone.
#[verifier::external_body]
pub(crate) fn decode_lossy(b: &[u8]) -> (r: String)
    ensures
        r@ == lossy_text(b@),
{
    String::from_utf8_lossy(b).into_owned()
}

/// The bytes of a datagram that fit in the receive buffer.
pub open spec fn received_bytes(payload: Seq<u8>) -> Seq<u8> {
    if payload.len() <= RECV_BUFFER_SIZE {
        payload
    } else {
        payload.subrange(0, RECV_BUFFER_SIZE as int)
    }
}

/// The display line of a datagram from `source`.
pub open spec fn received_line(source: Seq<char>, payload: Seq<u8>) -> Seq<char> {
    display_line(source, lossy_text(received_bytes(payload)))
}

/// Builds `"<source>: <text>"` for a datagram, where the text is the part of
/// the payload that fits in the receive buffer, decoded leniently.
pub fn format_received(source: &str, payload: &[u8]) -> (r: String)
    ensures
        r@ == received_line(source@, payload@),
{
    let n: usize = if payload.len() <= RECV_BUFFER_SIZE {
        payload.len()
    } else {
        RECV_BUFFER_SIZE
    };
    let kept = vstd::slice::slice_subrange(payload, 0, n);
    assert(kept@ == received_bytes(payload@));
    let text = decode_lossy(kept);
    format_line(source, text.as_str())
}

} // verus!
