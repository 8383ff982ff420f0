//! The status of a response, rendered as numeric code and reason phrase.

use vstd::prelude::*;

use crate::rfc7230::SP;

verus! {

/// The decimal ASCII digits of `n`, most significant first.
pub open spec fn dec_digits(n: nat) -> Seq<u8>
    decreases n,
{
    if n < 10 {
        seq![(48 + n) as u8]
    } else {
        dec_digits(n / 10) + seq![(48 + n % 10) as u8]
    }
}

/// Appends the decimal ASCII digits of `n`.
pub fn push_decimal(out: &mut Vec<u8>, n: u16)
    ensures
        final(out)@ == old(out)@ + dec_digits(n as nat),
    decreases n,
{
    if n < 10 {
        out.push(48 + (n as u8));
        proof {
            assert(out@ =~= old(out)@ + dec_digits(n as nat));
        }
    } else {
        push_decimal(out, n / 10);
        out.push(48 + ((n % 10) as u8));
        proof {
            assert(out@ =~= old(out)@ + dec_digits(n as nat));
        }
    }
}

/// The status of a response: a registered code with its canonical reason
/// phrase, `200 OK` by default.
#[derive(Clone, Copy, PartialEq, Eq, Structural, Debug)]
pub enum StatusCode {
    /// `200 OK`
    Okay,
    /// `201 Created`
    Created,
    /// `202 Accepted`
    Accepted,
    /// `204 No Content`
    NoContent,
    /// `301 Moved Permanently`
    MovedPermanently,
    /// `302 Found`
    Found,
    /// `304 Not Modified`
    NotModified,
    /// `400 Bad Request`
    BadRequest,
    /// `401 Unauthorized`
    Unauthorized,
    /// `403 Forbidden`
    Forbidden,
    /// `404 Not Found`
    NotFound,
    /// `405 Method Not Allowed`
    MethodNotAllowed,
    /// `500 Internal Server Error`
    InternalServerError,
    /// `501 Not Implemented`
    NotImplemented,
    /// `502 Bad Gateway`
    BadGateway,
    /// `503 Service Unavailable`
    ServiceUnavailable,
}

impl StatusCode {
    /// The numeric code of this status.
    pub open spec fn spec_code(self) -> u16 {
        match self {
            StatusCode::Okay => 200,
            StatusCode::Created => 201,
            StatusCode::Accepted => 202,
            StatusCode::NoContent => 204,
            StatusCode::MovedPermanently => 301,
            StatusCode::Found => 302,
            StatusCode::NotModified => 304,
            StatusCode::BadRequest => 400,
            StatusCode::Unauthorized => 401,
            StatusCode::Forbidden => 403,
            StatusCode::NotFound => 404,
            StatusCode::MethodNotAllowed => 405,
            StatusCode::InternalServerError => 500,
            StatusCode::NotImplemented => 501,
            StatusCode::BadGateway => 502,
            StatusCode::ServiceUnavailable => 503,
        }
    }

    /// The canonical reason phrase of this status, in ASCII.
    pub open spec fn reason(self) -> Seq<u8> {
        match self {
            // `OK`
            StatusCode::Okay => seq![79u8, 75u8],
            // `Created`
            StatusCode::Created => seq![67u8, 114u8, 101u8, 97u8, 116u8, 101u8, 100u8],
            // `Accepted`
            StatusCode::Accepted => seq![65u8, 99u8, 99u8, 101u8, 112u8, 116u8, 101u8, 100u8],
            // `No Content`
            StatusCode::NoContent => seq![78u8, 111u8, 32u8, 67u8, 111u8, 110u8, 116u8, 101u8, 110u8, 116u8],
            // `Moved Permanently`
            StatusCode::MovedPermanently => seq![77u8, 111u8, 118u8, 101u8, 100u8, 32u8, 80u8, 101u8, 114u8, 109u8, 97u8, 110u8, 101u8, 110u8, 116u8, 108u8, 121u8],
            // `Found`
            StatusCode::Found => seq![70u8, 111u8, 117u8, 110u8, 100u8],
            // `Not Modified`
            StatusCode::NotModified => seq![78u8, 111u8, 116u8, 32u8, 77u8, 111u8, 100u8, 105u8, 102u8, 105u8, 101u8, 100u8],
            // `Bad Request`
            StatusCode::BadRequest => seq![66u8, 97u8, 100u8, 32u8, 82u8, 101u8, 113u8, 117u8, 101u8, 115u8, 116u8],
            // `Unauthorized`
            StatusCode::Unauthorized => seq![85u8, 110u8, 97u8, 117u8, 116u8, 104u8, 111u8, 114u8, 105u8, 122u8, 101u8, 100u8],
            // `Forbidden`
            StatusCode::Forbidden => seq![70u8, 111u8, 114u8, 98u8, 105u8, 100u8, 100u8, 101u8, 110u8],
            // `Not Found`
            StatusCode::NotFound => seq![78u8, 111u8, 116u8, 32u8, 70u8, 111u8, 117u8, 110u8, 100u8],
            // `Method Not Allowed`
            StatusCode::MethodNotAllowed => seq![77u8, 101u8, 116u8, 104u8, 111u8, 100u8, 32u8, 78u8, 111u8, 116u8, 32u8, 65u8, 108u8, 108u8, 111u8, 119u8, 101u8, 100u8],
            // `Internal Server Error`
            StatusCode::InternalServerError => seq![73u8, 110u8, 116u8, 101u8, 114u8, 110u8, 97u8, 108u8, 32u8, 83u8, 101u8, 114u8, 118u8, 101u8, 114u8, 32u8, 69u8, 114u8, 114u8, 111u8, 114u8],
            // `Not Implemented`
            StatusCode::NotImplemented => seq![78u8, 111u8, 116u8, 32u8, 73u8, 109u8, 112u8, 108u8, 101u8, 109u8, 101u8, 110u8, 116u8, 101u8, 100u8],
            // `Bad Gateway`
            StatusCode::BadGateway => seq![66u8, 97u8, 100u8, 32u8, 71u8, 97u8, 116u8, 101u8, 119u8, 97u8, 121u8],
            // `Service Unavailable`
            StatusCode::ServiceUnavailable => seq![83u8, 101u8, 114u8, 118u8, 105u8, 99u8, 101u8, 32u8, 85u8, 110u8, 97u8, 118u8, 97u8, 105u8, 108u8, 97u8, 98u8, 108u8, 101u8],
        }
    }

    /// How this status stands in the status line: decimal code, a space,
    /// and the reason phrase.
    pub open spec fn rendered(self) -> Seq<u8> {
        dec_digits(self.spec_code() as nat) + seq![SP] + self.reason()
    }

    /// The numeric code of this status.
    pub fn code(&self) -> (r: u16)
        ensures
            r == self.spec_code(),
    {
        match self {
            StatusCode::Okay => 200,
            StatusCode::Created => 201,
            StatusCode::Accepted => 202,
            StatusCode::NoContent => 204,
            StatusCode::MovedPermanently => 301,
            StatusCode::Found => 302,
            StatusCode::NotModified => 304,
            StatusCode::BadRequest => 400,
            StatusCode::Unauthorized => 401,
            StatusCode::Forbidden => 403,
            StatusCode::NotFound => 404,
            StatusCode::MethodNotAllowed => 405,
            StatusCode::InternalServerError => 500,
            StatusCode::NotImplemented => 501,
            StatusCode::BadGateway => 502,
            StatusCode::ServiceUnavailable => 503,
        }
    }

    /// Appends the reason phrase to `out`.
    pub fn push_reason(&self, out: &mut Vec<u8>)
        ensures
            final(out)@ == old(out)@ + self.reason(),
    {
        match self {
            StatusCode::Okay => {
                out.push(79u8);
                out.push(75u8);
                proof {
                    assert(out@ =~= old(out)@ + self.reason());
                }
            },
            StatusCode::Created => {
                out.push(67u8);
                out.push(114u8);
                out.push(101u8);
                out.push(97u8);
                out.push(116u8);
                out.push(101u8);
                out.push(100u8);
                proof {
                    assert(out@ =~= old(out)@ + self.reason());
                }
            },
            StatusCode::Accepted => {
                out.push(65u8);
                out.push(99u8);
                out.push(99u8);
                out.push(101u8);
                out.push(112u8);
                out.push(116u8);
                out.push(101u8);
                out.push(100u8);
                proof {
                    assert(out@ =~= old(out)@ + self.reason());
                }
            },
            StatusCode::NoContent => {
                out.push(78u8);
                out.push(111u8);
                out.push(32u8);
                out.push(67u8);
                out.push(111u8);
                out.push(110u8);
                out.push(116u8);
                out.push(101u8);
                out.push(110u8);
                out.push(116u8);
                proof {
                    assert(out@ =~= old(out)@ + self.reason());
                }
            },
            StatusCode::MovedPermanently => {
                out.push(77u8);
                out.push(111u8);
                out.push(118u8);
                out.push(101u8);
                out.push(100u8);
                out.push(32u8);
                out.push(80u8);
                out.push(101u8);
                out.push(114u8);
                out.push(109u8);
                out.push(97u8);
                out.push(110u8);
                out.push(101u8);
                out.push(110u8);
                out.push(116u8);
                out.push(108u8);
                out.push(121u8);
                proof {
                    assert(out@ =~= old(out)@ + self.reason());
                }
            },
            StatusCode::Found => {
                out.push(70u8);
                out.push(111u8);
                out.push(117u8);
                out.push(110u8);
                out.push(100u8);
                proof {
                    assert(out@ =~= old(out)@ + self.reason());
                }
            },
            StatusCode::NotModified => {
                out.push(78u8);
                out.push(111u8);
                out.push(116u8);
                out.push(32u8);
                out.push(77u8);
                out.push(111u8);
                out.push(100u8);
                out.push(105u8);
                out.push(102u8);
                out.push(105u8);
                out.push(101u8);
                out.push(100u8);
                proof {
                    assert(out@ =~= old(out)@ + self.reason());
                }
            },
            StatusCode::BadRequest => {
                out.push(66u8);
                out.push(97u8);
                out.push(100u8);
                out.push(32u8);
                out.push(82u8);
                out.push(101u8);
                out.push(113u8);
                out.push(117u8);
                out.push(101u8);
                out.push(115u8);
                out.push(116u8);
                proof {
                    assert(out@ =~= old(out)@ + self.reason());
                }
            },
            StatusCode::Unauthorized => {
                out.push(85u8);
                out.push(110u8);
                out.push(97u8);
                out.push(117u8);
                out.push(116u8);
                out.push(104u8);
                out.push(111u8);
                out.push(114u8);
                out.push(105u8);
                out.push(122u8);
                out.push(101u8);
                out.push(100u8);
                proof {
                    assert(out@ =~= old(out)@ + self.reason());
                }
            },
            StatusCode::Forbidden => {
                out.push(70u8);
                out.push(111u8);
                out.push(114u8);
                out.push(98u8);
                out.push(105u8);
                out.push(100u8);
                out.push(100u8);
                out.push(101u8);
                out.push(110u8);
                proof {
                    assert(out@ =~= old(out)@ + self.reason());
                }
            },
            StatusCode::NotFound => {
                out.push(78u8);
                out.push(111u8);
                out.push(116u8);
                out.push(32u8);
                out.push(70u8);
                out.push(111u8);
                out.push(117u8);
                out.push(110u8);
                out.push(100u8);
                proof {
                    assert(out@ =~= old(out)@ + self.reason());
                }
            },
            StatusCode::MethodNotAllowed => {
                out.push(77u8);
                out.push(101u8);
                out.push(116u8);
                out.push(104u8);
                out.push(111u8);
                out.push(100u8);
                out.push(32u8);
                out.push(78u8);
                out.push(111u8);
                out.push(116u8);
                out.push(32u8);
                out.push(65u8);
                out.push(108u8);
                out.push(108u8);
                out.push(111u8);
                out.push(119u8);
                out.push(101u8);
                out.push(100u8);
                proof {
                    assert(out@ =~= old(out)@ + self.reason());
                }
            },
            StatusCode::InternalServerError => {
                out.push(73u8);
                out.push(110u8);
                out.push(116u8);
                out.push(101u8);
                out.push(114u8);
                out.push(110u8);
                out.push(97u8);
                out.push(108u8);
                out.push(32u8);
                out.push(83u8);
                out.push(101u8);
                out.push(114u8);
                out.push(118u8);
                out.push(101u8);
                out.push(114u8);
                out.push(32u8);
                out.push(69u8);
                out.push(114u8);
                out.push(114u8);
                out.push(111u8);
                out.push(114u8);
                proof {
                    assert(out@ =~= old(out)@ + self.reason());
                }
            },
            StatusCode::NotImplemented => {
                out.push(78u8);
                out.push(111u8);
                out.push(116u8);
                out.push(32u8);
                out.push(73u8);
                out.push(109u8);
                out.push(112u8);
                out.push(108u8);
                out.push(101u8);
                out.push(109u8);
                out.push(101u8);
                out.push(110u8);
                out.push(116u8);
                out.push(101u8);
                out.push(100u8);
                proof {
                    assert(out@ =~= old(out)@ + self.reason());
                }
            },
            StatusCode::BadGateway => {
                out.push(66u8);
                out.push(97u8);
                out.push(100u8);
                out.push(32u8);
                out.push(71u8);
                out.push(97u8);
                out.push(116u8);
                out.push(101u8);
                out.push(119u8);
                out.push(97u8);
                out.push(121u8);
                proof {
                    assert(out@ =~= old(out)@ + self.reason());
                }
            },
            StatusCode::ServiceUnavailable => {
                out.push(83u8);
                out.push(101u8);
                out.push(114u8);
                out.push(118u8);
                out.push(105u8);
                out.push(99u8);
                out.push(101u8);
                out.push(32u8);
                out.push(85u8);
                out.push(110u8);
                out.push(97u8);
                out.push(118u8);
                out.push(97u8);
                out.push(105u8);
                out.push(108u8);
                out.push(97u8);
                out.push(98u8);
                out.push(108u8);
                out.push(101u8);
                proof {
                    assert(out@ =~= old(out)@ + self.reason());
                }
            },
        }
    }

    /// Appends `<code> <reason>` to `out`.
    pub fn push_rendered(&self, out: &mut Vec<u8>)
        ensures
            final(out)@ == old(out)@ + self.rendered(),
    {
        push_decimal(out, self.code());
        out.push(SP);
        self.push_reason(out);
        proof {
            assert(out@ =~= old(out)@ + self.rendered());
        }
    }
}

} // verus!
