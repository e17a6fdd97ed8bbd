//! The authenticated transport: which headers a call carries, and when a
//! call is given up before it is sent.
//!
//! The interceptor itself keeps no state of a call. Each call takes a
//! [`Call`] of its own, which owns a handle to the transport, waits for a
//! token, and is then either sent with its two headers or given up.

use crate::text::join3;
use http::header::InvalidHeaderValue;
use http::HeaderValue;
use vstd::prelude::*;
use vstd::string::StringExecFns;
use vstd::string::StringSliceAdditionalSpecFns;
use vstd::utf8::{
    encode_scalar, encode_utf8, has_width_1_encoding, has_width_2_encoding, has_width_3_encoding,
};

verus! {

/// The name of the header that carries the bearer token.
pub const HEADER_AUTHORIZATION: &'static str = "authorization";

/// The name of the header that carries the routing parameters.
pub const HEADER_REQUEST_PARAMS: &'static str = "x-goog-request-params";

/// The one scope that every token is asked for.
pub const AUTH_SCOPE: &'static str = "https://www.googleapis.com/auth/cloud-platform";

/// Makes `http::HeaderValue` known to Verus, which sees nothing inside of
/// it: a header value is carried from where it is parsed to the request.
#[verifier::external_type_specification]
#[verifier::external_body]
pub struct ExHeaderValue(HeaderValue);

/// Makes `http::header::InvalidHeaderValue` known to Verus: the error of a
/// text that is no header value. It holds nothing.
#[verifier::external_type_specification]
#[verifier::external_body]
pub struct ExInvalidHeaderValue(InvalidHeaderValue);

/// The bytes that a header value holds, as `http::HeaderValue::as_bytes`
/// gives them. A header value is a sequence of bytes and nothing else that
/// this crate reads.
pub uninterp spec fn header_value_bytes(value: HeaderValue) -> Seq<u8>;

/// Whether `http` takes the byte into a header value: a tab, or anything
/// from the space upwards but the delete character.
pub open spec fn is_header_byte(b: u8) -> bool {
    (b >= 32 && b != 127) || b == 9
}

/// Whether `http` takes the bytes as a header value.
pub open spec fn is_header_text(bytes: Seq<u8>) -> bool {
    forall|i: int| 0 <= i < bytes.len() ==> is_header_byte(#[trigger] bytes[i])
}

/// Calls `http::HeaderValue::from_str`. That function walks over the bytes
/// of the text, fails if one of them is a control character other than the
/// tab (below 32, or 127), and otherwise holds a copy of the bytes. Bytes
/// from 128 upwards pass, so text beyond ASCII is taken.
#[verifier::external_body]
fn parse_header_value(text: &str) -> (result: Result<HeaderValue, InvalidHeaderValue>)
    ensures
        result is Ok <==> is_header_text(text.spec_bytes()),
        result matches Ok(value) ==> header_value_bytes(value) == text.spec_bytes(),
{
    HeaderValue::from_str(text)
}

/// Whether a header value may hold the character: any character but the
/// control characters, of which only the tab may stand.
pub open spec fn is_header_char(c: char) -> bool {
    (c as u32 >= 32 && c as u32 != 127) || c as u32 == 9
}

/// Whether a header value may hold the text.
pub open spec fn is_header_string(text: Seq<char>) -> bool {
    forall|i: int| 0 <= i < text.len() ==> is_header_char(#[trigger] text[i])
}

proof fn lemma_or_sets_high_bit(mask: u8, x: u8)
    by (bit_vector)
    requires
        mask == 0x80 || mask == 0xC0 || mask == 0xE0 || mask == 0xF0,
    ensures
        (mask | x) >= 0x80,
{
}

proof fn lemma_low_seven_bits(v: u32)
    by (bit_vector)
    requires
        v <= 0x7F,
    ensures
        ((v & 0x7F) as u8) as u32 == v,
{
}

/// The bytes of one character's encoding pass exactly if the character
/// does: a character of one byte is that byte, and every byte of a longer
/// encoding lies above the control characters.
proof fn lemma_header_char_by_bytes(c: char)
    ensures
        is_header_text(encode_scalar(c as u32)) <==> is_header_char(c),
{
    let v = c as u32;
    let bytes = encode_scalar(v);
    if has_width_1_encoding(v) {
        lemma_low_seven_bits(v);
        assert(bytes[0] as u32 == v);
        if is_header_text(bytes) {
            assert(is_header_byte(bytes[0]));
        }
    } else {
        lemma_or_sets_high_bit(0x80, (v & 0x3F) as u8);
        lemma_or_sets_high_bit(0x80, ((v >> 6) & 0x3F) as u8);
        lemma_or_sets_high_bit(0x80, ((v >> 12) & 0x3F) as u8);
        lemma_or_sets_high_bit(0xC0, ((v >> 6) & 0x1F) as u8);
        lemma_or_sets_high_bit(0xE0, ((v >> 12) & 0x0F) as u8);
        lemma_or_sets_high_bit(0xF0, ((v >> 18) & 0x7) as u8);
        if has_width_2_encoding(v) {
            assert(is_header_text(bytes));
        } else if has_width_3_encoding(v) {
            assert(is_header_text(bytes));
        } else {
            assert(is_header_text(bytes));
        }
    }
}

/// A text's bytes pass as a header value exactly if each of its characters
/// does.
pub proof fn lemma_header_text_by_chars(text: Seq<char>)
    ensures
        is_header_text(encode_utf8(text)) <==> is_header_string(text),
    decreases text.len(),
{
    if text.len() > 0 {
        let head = encode_scalar(text[0] as u32);
        let rest = text.drop_first();
        let tail = encode_utf8(rest);
        lemma_header_char_by_bytes(text[0]);
        lemma_header_text_by_chars(rest);
        assert(encode_utf8(text) == head + tail);
        if is_header_text(head + tail) {
            assert forall|i: int| 0 <= i < head.len() implies is_header_byte(
                #[trigger] head[i],
            ) by {
                assert((head + tail)[i] == head[i]);
            }
            assert forall|i: int| 0 <= i < tail.len() implies is_header_byte(
                #[trigger] tail[i],
            ) by {
                assert((head + tail)[head.len() + i] == tail[i]);
            }
            assert forall|i: int| 0 <= i < text.len() implies is_header_char(
                #[trigger] text[i],
            ) by {
                if i > 0 {
                    assert(rest[i - 1] == text[i]);
                }
            }
        }
        if is_header_string(text) {
            assert(is_header_char(text[0]));
            assert forall|i: int| 0 <= i < rest.len() implies is_header_char(
                #[trigger] rest[i],
            ) by {
                assert(rest[i] == text[i + 1]);
            }
            assert forall|i: int| 0 <= i < (head + tail).len() implies is_header_byte(
                #[trigger] (head + tail)[i],
            ) by {
                if i < head.len() {
                    assert((head + tail)[i] == head[i]);
                } else {
                    assert((head + tail)[i] == tail[i - head.len()]);
                }
            }
        }
    }
}

/// The routing parameters of a project and, where one is named, a database.
pub open spec fn request_params(project_id: Seq<char>, database_id: Option<Seq<char>>) -> Seq<
    char,
> {
    match database_id {
        Some(database_id) => "project_id="@ + project_id + "&database_id="@ + database_id,
        None => "project_id="@ + project_id,
    }
}

/// The authorization header's text for a token.
pub open spec fn bearer(token: Seq<char>) -> Seq<char> {
    "Bearer "@ + token
}

/// Two texts one after the other pass exactly if both do.
pub proof fn lemma_header_string_concat(a: Seq<char>, b: Seq<char>)
    ensures
        is_header_string(a + b) <==> is_header_string(a) && is_header_string(b),
{
    if is_header_string(a + b) {
        assert forall|i: int| 0 <= i < a.len() implies is_header_char(#[trigger] a[i]) by {
            assert((a + b)[i] == a[i]);
        }
        assert forall|i: int| 0 <= i < b.len() implies is_header_char(#[trigger] b[i]) by {
            assert((a + b)[a.len() + i] == b[i]);
        }
    }
    if is_header_string(a) && is_header_string(b) {
        assert forall|i: int| 0 <= i < (a + b).len() implies is_header_char(
            #[trigger] (a + b)[i],
        ) by {
            if i < a.len() {
                assert((a + b)[i] == a[i]);
            } else {
                assert((a + b)[i] == b[i - a.len()]);
            }
        }
    }
}

/// The authorization header passes exactly if the token does.
pub proof fn lemma_bearer_passes(token: Seq<char>)
    ensures
        is_header_string(bearer(token)) <==> is_header_string(token),
{
    reveal_strlit("Bearer ");
    assert(is_header_string("Bearer "@));
    lemma_header_string_concat("Bearer "@, token);
}

/// The routing parameters pass exactly if the project's identifier does
/// and, where a database is named, its identifier does.
pub proof fn lemma_request_params_pass(project_id: Seq<char>, database_id: Option<Seq<char>>)
    ensures
        is_header_string(request_params(project_id, database_id)) <==> is_header_string(
            project_id,
        ) && (database_id matches Some(id) ==> is_header_string(id)),
{
    reveal_strlit("project_id=");
    reveal_strlit("&database_id=");
    assert(is_header_string("project_id="@));
    assert(is_header_string("&database_id="@));
    lemma_header_string_concat("project_id="@, project_id);
    match database_id {
        Some(id) => {
            lemma_header_string_concat("project_id="@ + project_id, "&database_id="@);
            lemma_header_string_concat("project_id="@ + project_id + "&database_id="@, id);
        },
        None => {},
    }
}

/// Why a call was given up before it was sent.
#[derive(Debug)]
pub enum AuthError {
    /// The token source gave no token; its message is kept.
    Token(String),
    /// The named header's text holds a character that no header may hold.
    InvalidHeader(&'static str),
}

/// The mathematical value of an [`AuthError`].
pub enum AuthErrorView {
    Token(Seq<char>),
    InvalidHeader(Seq<char>),
}

impl View for AuthError {
    type V = AuthErrorView;

    open spec fn view(&self) -> AuthErrorView {
        match self {
            AuthError::Token(message) => AuthErrorView::Token(message@),
            AuthError::InvalidHeader(name) => AuthErrorView::InvalidHeader(name@),
        }
    }
}

/// Wraps a transport and knows the routing parameters of its project and
/// database, which it computes once.
#[derive(Debug)]
pub struct AuthInterceptor<I> {
    inner: I,
    request_params: String,
}

/// What one call owns: its handle to the transport and its copy of the
/// routing parameters.
#[derive(Debug)]
pub struct Call<I> {
    inner: I,
    request_params: String,
}

/// A call that is ready to be sent: the transport handle to send it on and
/// the two header values to set on the request.
#[derive(Debug)]
pub struct Authorized<I> {
    pub inner: I,
    pub authorization: HeaderValue,
    pub request_params: HeaderValue,
}

impl<I> AuthInterceptor<I> {
    /// The transport that the interceptor holds.
    pub closed spec fn inner(self) -> I {
        self.inner
    }

    /// The routing parameters that every call carries.
    pub closed spec fn params(self) -> Seq<char> {
        self.request_params@
    }

    /// An interceptor around `inner` for the given project and database.
    pub fn new(inner: I, project_id: &str, database_id: Option<&str>) -> (interceptor:
        AuthInterceptor<I>)
        ensures
            interceptor.inner() == inner,
            interceptor.params() == request_params(
                project_id@,
                match database_id {
                    Some(id) => Some(id@),
                    None => None,
                },
            ),
    {
        let request_params = match database_id {
            Some(database_id) => join3("project_id=", project_id, "&database_id=").concat(
                database_id,
            ),
            None => "project_id=".to_owned().concat(project_id),
        };
        AuthInterceptor { inner, request_params }
    }

    /// The routing parameters that every call carries.
    pub fn request_params(&self) -> (params: &str)
        ensures
            params@ == self.params(),
    {
        self.request_params.as_str()
    }

    /// The transport that the interceptor holds, to ask whether it is ready.
    pub fn inner_mut(&mut self) -> (inner: &mut I)
        ensures
            *inner == old(self).inner(),
            final(self).inner() == *final(inner),
            final(self).params() == old(self).params(),
    {
        &mut self.inner
    }

    /// Starts a call. The call takes the interceptor's handle to the
    /// transport, and the interceptor keeps a fresh clone of it, so that
    /// nothing a call does to its handle reaches the interceptor or another
    /// call.
    pub fn call(&mut self) -> (call: Call<I>) where I: Clone
        ensures
            call.inner() == old(self).inner(),
            call.params() == old(self).params(),
            cloned(old(self).inner(), final(self).inner()),
            final(self).params() == old(self).params(),
    {
        let mut inner = self.inner.clone();
        std::mem::swap(&mut self.inner, &mut inner);
        Call { inner, request_params: self.request_params.clone() }
    }
}

impl<I: Clone> Clone for AuthInterceptor<I> {
    /// Another handle to the same service: a clone of the transport, and
    /// the same routing parameters.
    fn clone(&self) -> (copy: AuthInterceptor<I>)
        ensures
            cloned(self.inner(), copy.inner()),
            copy.params() == self.params(),
    {
        AuthInterceptor { inner: self.inner.clone(), request_params: self.request_params.clone() }
    }
}

impl<I> Call<I> {
    /// The call's handle to the transport.
    pub closed spec fn inner(self) -> I {
        self.inner
    }

    /// The call's routing parameters.
    pub closed spec fn params(self) -> Seq<char> {
        self.request_params@
    }

    /// Decides what becomes of the call once the token source has answered.
    ///
    /// Without a token the call is given up. With one, the call gets the
    /// authorization header `Bearer <token>` and the routing parameters
    /// header. Where the token or the routing parameters hold a character
    /// that no header value may hold, the call is given up and the error
    /// names the header, the authorization header first.
    pub fn authorize(self, token: Result<&str, String>) -> (result: Result<
        Authorized<I>,
        AuthError,
    >)
        ensures
            match token {
                Err(message) => result matches Err(e) && e@ == AuthErrorView::Token(message@),
                Ok(token) => if !is_header_string(token@) {
                    result matches Err(e) && e@ == AuthErrorView::InvalidHeader(
                        HEADER_AUTHORIZATION@,
                    )
                } else if !is_header_string(self.params()) {
                    result matches Err(e) && e@ == AuthErrorView::InvalidHeader(
                        HEADER_REQUEST_PARAMS@,
                    )
                } else {
                    result matches Ok(sent) && sent.inner == self.inner()
                        && header_value_bytes(sent.authorization) == encode_utf8(bearer(token@))
                        && header_value_bytes(sent.request_params) == encode_utf8(self.params())
                },
            },
    {
        let token = match token {
            Ok(token) => token,
            Err(message) => {
                return Err(AuthError::Token(message));
            },
        };
        let text = "Bearer ".to_owned().concat(token);
        proof {
            lemma_bearer_passes(token@);
            lemma_header_text_by_chars(bearer(token@));
            lemma_header_text_by_chars(self.params());
        }
        let authorization = match parse_header_value(text.as_str()) {
            Ok(value) => value,
            Err(_) => {
                return Err(AuthError::InvalidHeader(HEADER_AUTHORIZATION));
            },
        };
        let request_params = match parse_header_value(self.request_params.as_str()) {
            Ok(value) => value,
            Err(_) => {
                return Err(AuthError::InvalidHeader(HEADER_REQUEST_PARAMS));
            },
        };
        Ok(Authorized { inner: self.inner, authorization, request_params })
    }
}

} // verus!
