//! Stored responses, and the replies that are made of them.

use actix_web::http::header::HeaderMap;
use vstd::prelude::*;
use vstd::utf8::encode_utf8;

use crate::foreign::header::{
    header_fields, header_insert, is_header_name, is_header_value, no_fields, status_from_u16,
};
use crate::foreign::msgpack::{text_pairs, unpack, unpacked};
use crate::foreign::text::ascii_lower;

verus! {

/// A response as the store keeps it.
pub struct CachedResponse {
    /// The status code
    pub status: u16,
    /// Names and values of the headers
    pub headers: Vec<(String, String)>,
    /// The whole body
    pub body: Vec<u8>,
}

/// What is sent to the client on a cache hit.
pub enum Reply {
    /// The stored response
    Response {
        /// The status code
        status: u16,
        /// The headers, with the mark of a hit among them
        headers: HeaderMap,
        /// The whole body
        body: Vec<u8>,
    },
    /// A stored header that no response can carry: an error is sent in place of the
    /// stored response
    Rejected {
        /// The name of the first such header
        name: String,
        /// The value of the first such header
        value: String,
    },
}

/// A name and a value that a response can carry as a header.
pub open spec fn is_acceptable(pair: (Seq<char>, Seq<char>)) -> bool {
    is_header_name(pair.0) && is_header_value(pair.1)
}

/// Every pair can be carried as a header.
pub open spec fn all_acceptable(pairs: Seq<(Seq<char>, Seq<char>)>) -> bool {
    forall|i: int| 0 <= i < pairs.len() ==> is_acceptable(#[trigger] pairs[i])
}

/// `pair` is the first of `pairs` that cannot be carried as a header.
pub open spec fn is_first_rejected(
    pairs: Seq<(Seq<char>, Seq<char>)>,
    pair: (Seq<char>, Seq<char>),
) -> bool {
    exists|i: int|
        0 <= i < pairs.len() && #[trigger] pairs[i] == pair && !is_acceptable(pair)
            && all_acceptable(pairs.take(i))
}

/// The header fields after the pairs are set one by one, each replacing what stood under
/// its name.
pub open spec fn replayed(pairs: Seq<(Seq<char>, Seq<char>)>) -> Map<Seq<char>, Seq<Seq<u8>>>
    decreases pairs.len(),
{
    if pairs.len() == 0 {
        no_fields()
    } else {
        replayed(pairs.drop_last()).insert(
            ascii_lower(pairs.last().0),
            seq![encode_utf8(pairs.last().1)],
        )
    }
}

/// The header fields of a reply: the stored ones and the mark of a hit.
pub open spec fn hit_fields(pairs: Seq<(Seq<char>, Seq<char>)>) -> Map<Seq<char>, Seq<Seq<u8>>> {
    replayed(pairs).insert("x-cache"@, seq![encode_utf8("HIT"@)])
}

/// The status of a reply: the stored one, and 200 where that is no status code.
pub open spec fn hit_status(status: u16) -> u16 {
    if 100 <= status <= 999 {
        status
    } else {
        200
    }
}

/// The three parts of a stored response.
pub open spec fn parts_of(stored: CachedResponse) -> (u16, Seq<(Seq<char>, Seq<char>)>, Seq<u8>) {
    (stored.status, text_pairs(stored.headers@), stored.body@)
}

/// `reply` is what a client is sent for a stored response of these parts.
pub open spec fn answers(
    reply: Reply,
    parts: (u16, Seq<(Seq<char>, Seq<char>)>, Seq<u8>),
) -> bool {
    match reply {
        Reply::Response { status, headers, body } => {
            &&& all_acceptable(parts.1)
            &&& status == hit_status(parts.0)
            &&& header_fields(headers) == hit_fields(parts.1)
            &&& body@ == parts.2
        },
        Reply::Rejected { name, value } => is_first_rejected(parts.1, (name@, value@)),
    }
}

/// The mark of a hit is a header that a response can carry.
pub(crate) proof fn lemma_hit_mark()
    ensures
        is_header_name("X-Cache"@),
        is_header_value("HIT"@),
        ascii_lower("X-Cache"@) == "x-cache"@,
{
    reveal_strlit("X-Cache");
    reveal_strlit("x-cache");
    reveal_strlit("HIT");
    assert(ascii_lower("X-Cache"@) =~= "x-cache"@);
}

impl CachedResponse {
    /// Reads a stored response out of an entry that is an array of the three fields;
    /// nothing where it is none.
    pub fn from_entry(data: &[u8]) -> (stored: Option<CachedResponse>)
        ensures
            match stored {
                Some(response) => unpacked(data@) == Some(parts_of(response)),
                None => unpacked(data@) is None,
            },
    {
        match unpack(data) {
            Some((status, headers, body)) => Some(CachedResponse { status, headers, body }),
            None => None,
        }
    }

    /// The reply that is made of a stored response: its status, its headers set one by
    /// one, `X-Cache: HIT`, and its body.
    pub fn into_reply(self) -> (reply: Reply)
        ensures
            answers(reply, parts_of(self)),
    {
        let status = match status_from_u16(self.status) {
            Some(code) => code,
            None => 200,
        };
        let ghost pairs = text_pairs(self.headers@);
        let mut headers = HeaderMap::new();
        let mut i: usize = 0;
        assert(pairs.take(0) =~= Seq::empty());
        while i < self.headers.len()
            invariant
                i <= self.headers@.len(),
                pairs == text_pairs(self.headers@),
                all_acceptable(pairs.take(i as int)),
                header_fields(headers) == replayed(pairs.take(i as int)),
            decreases self.headers@.len() - i,
        {
            let accepted = header_insert(
                &mut headers,
                self.headers[i].0.as_str(),
                self.headers[i].1.as_str(),
            );
            assert(pairs[i as int] == (self.headers@[i as int].0@, self.headers@[i as int].1@));
            if !accepted {
                return Reply::Rejected {
                    name: self.headers[i].0.clone(),
                    value: self.headers[i].1.clone(),
                };
            }
            proof {
                let next = pairs.take(i + 1);
                assert(next.drop_last() =~= pairs.take(i as int));
                assert forall|j: int| 0 <= j < next.len() implies is_acceptable(
                    #[trigger] next[j],
                ) by {
                    if j < i {
                        assert(next[j] == pairs.take(i as int)[j]);
                    }
                }
            }
            i += 1;
        }
        assert(pairs.take(i as int) =~= pairs);
        proof {
            lemma_hit_mark();
        }
        header_insert(&mut headers, "X-Cache", "HIT");
        Reply::Response { status, headers, body: self.body }
    }
}

} // verus!
