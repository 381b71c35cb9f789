//! The header lines of a discovery reply.

use vstd::prelude::*;

verus! {

/// The number of header lines that a discovery reply may hold.
pub const N_HEADERS: usize = 17;

/// One header line: its name, and the bytes of its value.
#[derive(Debug, Clone, PartialEq, Eq)]
pub struct HeaderField {
    pub name: String,
    pub value: Vec<u8>,
}

impl View for HeaderField {
    type V = (Seq<char>, Seq<u8>);

    open spec fn view(&self) -> (Seq<char>, Seq<u8>) {
        (self.name@, self.value@)
    }
}

/// The names and values of a list of header lines, in order.
pub open spec fn fields_of(headers: Seq<HeaderField>) -> Seq<(Seq<char>, Seq<u8>)> {
    headers.map_values(|h: HeaderField| h@)
}

#[verifier::external_type_specification]
#[verifier::external_body]
pub struct ExHttparseError(httparse::Error);

/// The header table that `httparse::Response::parse` leaves when it reads
/// `datagram` as an HTTP response into a table of `slots` empty headers;
/// `None` where it reports an error.
pub uninterp spec fn response_headers(datagram: Seq<u8>, slots: nat) -> Option<
    Seq<(Seq<char>, Seq<u8>)>,
>;

/// Reads a datagram with `httparse::Response::parse`, into a table of `slots`
/// headers that start out empty, and hands back the table as the parser left
/// it, or the parser's error. A reply that ends before its closing blank line
/// is no error to the parser: the table then keeps all its slots, those that
/// were not reached with an empty name and value.
#[verifier::external_body]
pub(crate) fn read_response(datagram: &[u8], slots: usize) -> (table: Result<
    Vec<HeaderField>,
    httparse::Error,
>)
    requires
        slots <= N_HEADERS,
    ensures
        table is Ok <==> response_headers(datagram@, slots as nat) is Some,
        table matches Ok(headers) ==> response_headers(datagram@, slots as nat) == Some(
            fields_of(headers@),
        ),
{
    let mut empty = vec![httparse::EMPTY_HEADER; slots];
    let mut response = httparse::Response::new(&mut empty);
    match response.parse(datagram) {
        Ok(_) => Ok(
            response.headers.iter().map(
                |h| HeaderField { name: h.name.to_string(), value: h.value.to_vec() },
            ).collect(),
        ),
        Err(error) => Err(error),
    }
}

} // verus!
