//! The protocol version of a response, rendered as its textual token.

use vstd::prelude::*;

verus! {

/// The HTTP version of a message, fixed at construction of a response.
#[derive(Clone, Copy, PartialEq, Eq, Structural, Debug)]
pub enum HttpVersion {
    /// `HTTP/0.9`
    Http09,
    /// `HTTP/1.0`
    Http10,
    /// `HTTP/1.1`
    Http11,
    /// `HTTP/2.0`
    Http20,
}

impl HttpVersion {
    /// The textual token of this version on the wire: `HTTP/` and the two
    /// version digits separated by a dot, in ASCII.
    pub open spec fn rendered(self) -> Seq<u8> {
        seq![72u8, 84u8, 84u8, 80u8, 47u8] + match self {
            HttpVersion::Http09 => seq![48u8, 46u8, 57u8],
            HttpVersion::Http10 => seq![49u8, 46u8, 48u8],
            HttpVersion::Http11 => seq![49u8, 46u8, 49u8],
            HttpVersion::Http20 => seq![50u8, 46u8, 48u8],
        }
    }

    /// Appends the version token to `out`.
    pub fn push_rendered(self, out: &mut Vec<u8>)
        ensures
            final(out)@ == old(out)@ + self.rendered(),
    {
        out.push(72u8);
        out.push(84u8);
        out.push(84u8);
        out.push(80u8);
        out.push(47u8);
        match self {
            HttpVersion::Http09 => {
                out.push(48u8);
                out.push(46u8);
                out.push(57u8);
            },
            HttpVersion::Http10 => {
                out.push(49u8);
                out.push(46u8);
                out.push(48u8);
            },
            HttpVersion::Http11 => {
                out.push(49u8);
                out.push(46u8);
                out.push(49u8);
            },
            HttpVersion::Http20 => {
                out.push(50u8);
                out.push(46u8);
                out.push(48u8);
            },
        }
        proof {
            assert(out@ =~= old(out)@ + self.rendered());
        }
    }
}

} // verus!
