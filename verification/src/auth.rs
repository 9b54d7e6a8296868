//! The bearer-token check on requests for the server.
use vstd::prelude::*;

use crate::text::join;

verus! {

/// The HTTP status of a request without the right token.
pub const UNAUTHORIZED: u16 = 401;

/// A byte that a header value may hold as text: printable ASCII, or a tab.
pub open spec fn is_visible_ascii(b: u8) -> bool {
    32 <= b < 127 || b == 9
}

/// The text of a header value, if all of it is visible ASCII.
pub open spec fn header_text(value: Seq<u8>) -> Option<Seq<char>> {
    if forall|i: int| 0 <= i < value.len() ==> is_visible_ascii(#[trigger] value[i]) {
        Some(Seq::new(value.len(), |i: int| value[i] as char))
    } else {
        None
    }
}

/// `axum::http::HeaderValue::to_str`, on the header value made of the bytes, gives its text
/// if every byte is visible ASCII, and an error otherwise. `HeaderValue::from_bytes`, which
/// makes the value, refuses only bytes that are not visible ASCII.
#[verifier::external_body]
fn header_to_str(value: &[u8]) -> (r: Option<String>)
    ensures
        r.deep_view() == header_text(value@),
{
    let header = axum::http::HeaderValue::from_bytes(value).ok()?;
    match header.to_str() {
        Ok(text) => Some(text.to_owned()),
        Err(_) => None,
    }
}

/// The credentials that a request shows: the text of its `Authorization` header, and the
/// empty text where there is no such header or it has no text.
pub open spec fn credentials(authorization: Option<Seq<u8>>) -> Seq<char> {
    match authorization {
        Some(value) => match header_text(value) {
            Some(text) => text,
            None => Seq::empty(),
        },
        None => Seq::empty(),
    }
}

/// The request shows the token as its bearer.
pub open spec fn bears(authorization: Option<Seq<u8>>, token: Seq<char>) -> bool {
    credentials(authorization) == "Bearer "@ + token
}

/// Lets a request through if its `Authorization` header bears the token. Otherwise gives the
/// HTTP status to answer with.
pub fn auth_middleware(token: &str, authorization: Option<&[u8]>) -> (r: Result<(), u16>)
    ensures
        r == (if bears(
            match authorization {
                Some(value) => Some(value@),
                None => None,
            },
            token@,
        ) {
            Ok::<(), u16>(())
        } else {
            Err::<(), u16>(401)
        }),
{
    let text = match authorization {
        Some(value) => header_to_str(value),
        None => None,
    };
    let provided = match text {
        Some(text) => text,
        None => String::new(),
    };
    if provided == join("Bearer ", token) {
        Ok(())
    } else {
        Err(UNAUTHORIZED)
    }
}

/// A character that the text of a header value may hold.
pub open spec fn is_visible_char(c: char) -> bool {
    ' ' <= c <= '~' || c == '\t'
}

/// A token of visible ASCII is borne by exactly one header value, the one that spells out
/// `Bearer` and the token. Any other token is borne by none.
pub proof fn law_bearer(authorization: Option<Seq<u8>>, token: Seq<char>)
    ensures
        bears(authorization, token) <==> {
            &&& authorization == Some(vstd::utf8::encode_utf8("Bearer "@ + token))
            &&& forall|i: int|
                0 <= i < token.len() ==> (' ' <= #[trigger] token[i] <= '~' || token[i] == '\t')
        },
{
    let want = "Bearer "@ + token;
    reveal_strlit("Bearer ");
    assert forall|i: int| 0 <= i < token.len() implies is_visible_char(#[trigger] token[i]) == (
    ' ' <= token[i] <= '~' || token[i] == '\t') by {}
    if forall|i: int| 0 <= i < token.len() ==> is_visible_char(#[trigger] token[i]) {
        assert forall|i: int| 0 <= i < want.len() implies is_visible_char(#[trigger] want[i]) by {
            if i >= 7 {
                assert(want[i] == token[i - 7]);
            }
        }
        assert(vstd::utf8::is_ascii_chars(want));
        vstd::utf8::is_ascii_chars_encode_utf8(want);
        let bytes = vstd::utf8::encode_utf8(want);
        assert forall|i: int| 0 <= i < bytes.len() implies is_visible_ascii(
            #[trigger] bytes[i],
        ) by {
            assert(is_visible_char(want[i]));
        }
        assert(header_text(bytes)->0 =~= want);
        if bears(authorization, token) {
            let value = authorization->0;
            assert forall|i: int| 0 <= i < value.len() implies value[i] == bytes[i] by {
                assert(is_visible_ascii(value[i]));
                assert(want[i] == value[i] as char);
            }
            assert(value =~= bytes);
        }
    } else {
        let k = choose|i: int| 0 <= i < token.len() && !is_visible_char(#[trigger] token[i]);
        if bears(authorization, token) {
            let value = authorization->0;
            assert(want[k + 7] == token[k]);
            assert(header_text(value) == Some(want));
            assert(is_visible_ascii(value[k + 7]));
            assert(want[k + 7] == value[k + 7] as char);
        }
    }
}

/// A request bears at most one token, and without the header it bears none.
pub proof fn law_one_token(authorization: Option<Seq<u8>>, token: Seq<char>, other: Seq<char>)
    ensures
        bears(authorization, token) && bears(authorization, other) ==> token == other,
        authorization is None ==> !bears(authorization, token),
{
    law_bearer(authorization, token);
    law_bearer(authorization, other);
    reveal_strlit("Bearer ");
    assert(("Bearer "@ + token).skip(7) =~= token);
    assert(("Bearer "@ + other).skip(7) =~= other);
}

} // verus!
