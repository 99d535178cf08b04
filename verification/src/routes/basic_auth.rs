use std::string::FromUtf8Error;
use vstd::prelude::*;
use vstd::string::*;
use vstd::utf8::*;

verus! {

// ---------- Outside items ----------

#[verifier::external_type_specification]
#[verifier::external_body]
pub struct ExFromUtf8Error(FromUtf8Error);

/// `String::from_utf8`: std documents that it succeeds exactly on valid UTF-8
/// and then holds the decoded characters.
pub assume_specification[ String::from_utf8 ](vec: Vec<u8>) -> (r: Result<String, FromUtf8Error>)
    ensures
        r is Ok <==> valid_utf8(vec@),
        r matches Ok(s) ==> s@ == decode_utf8(vec@),
;

#[verifier::external_type_specification]
#[verifier::external_body]
pub struct ExDecodeError(base64::DecodeError);

/// What `base64::decode_config` with `base64::STANDARD` (the standard
/// alphabet) yields for `input`: `None` where it reports an error.
pub uninterp spec fn base64_standard_decode(input: Seq<u8>) -> Option<Seq<u8>>;

/// Calls `base64::decode_config(input, base64::STANDARD)`.
///
/// Claims only that the outcome is `base64_standard_decode` of the input.
/// The call panics when `input.len() + 3` overflows, so that input is excluded.
#[verifier::external_body]
fn decode_base64_standard(input: &[u8]) -> (r: Result<Vec<u8>, base64::DecodeError>)
    requires
        input@.len() + 3 <= usize::MAX,
    ensures
        r is Ok <==> base64_standard_decode(input@) is Some,
        r matches Ok(v) ==> base64_standard_decode(input@) == Some(v@),
{
    base64::decode_config(input, base64::STANDARD)
}

// ---------- Model ----------

/// A byte that `http::HeaderValue::to_str` accepts: visible ASCII or a tab.
pub open spec fn is_visible_header_byte(b: u8) -> bool {
    (32 <= b && b < 127) || b == 9
}

/// The header value can be read as text.
pub open spec fn is_header_text(bytes: Seq<u8>) -> bool {
    forall|i: int| 0 <= i < bytes.len() ==> is_visible_header_byte(#[trigger] bytes[i])
}

/// The ASCII bytes of `Basic ` (the scheme name and the space after it).
pub open spec fn basic_scheme_prefix() -> Seq<u8> {
    seq![66u8, 97u8, 115u8, 105u8, 99u8, 32u8]
}

pub open spec fn has_basic_prefix(bytes: Seq<u8>) -> bool {
    bytes.len() >= 6 && bytes.take(6) == basic_scheme_prefix()
}

/// The index of the first `:` of `text` (meaningful when `text` holds one).
pub open spec fn first_colon(text: Seq<char>) -> int {
    choose|i: int| 0 <= i < text.len() && text[i] == ':' && !text.take(i).contains(':')
}

/// Why a request carries no usable Basic credentials.
#[derive(Debug, Clone, Copy, PartialEq, Eq, Structural)]
pub enum CredentialsError {
    MissingHeader,
    InvalidHeaderText,
    NotBasicScheme,
    NotBase64,
    NotUtf8,
    MissingPassword,
}

impl CredentialsError {
    pub open spec fn spec_message(self) -> Seq<char> {
        match self {
            CredentialsError::MissingHeader => "The 'Authorization' header was missing"@,
            CredentialsError::InvalidHeaderText =>
                "The 'Authorization' header was not a valid UTF-8 string."@,
            CredentialsError::NotBasicScheme => "The authorization scheme was not 'Basic'."@,
            CredentialsError::NotBase64 => "Failed to base64-decode 'Basic' credentials."@,
            CredentialsError::NotUtf8 => "The decoded credential string is not valid UTF-8."@,
            CredentialsError::MissingPassword => "A password must be provided in 'Basic' auth."@,
        }
    }

    /// The human-readable reason.
    pub fn message(&self) -> (m: String)
        ensures
            m@ == self.spec_message(),
    {
        match self {
            CredentialsError::MissingHeader => "The 'Authorization' header was missing".to_owned(),
            CredentialsError::InvalidHeaderText =>
                "The 'Authorization' header was not a valid UTF-8 string.".to_owned(),
            CredentialsError::NotBasicScheme => "The authorization scheme was not 'Basic'.".to_owned(),
            CredentialsError::NotBase64 => "Failed to base64-decode 'Basic' credentials.".to_owned(),
            CredentialsError::NotUtf8 => "The decoded credential string is not valid UTF-8.".to_owned(),
            CredentialsError::MissingPassword => "A password must be provided in 'Basic' auth.".to_owned(),
        }
    }
}

/// The username and password held by the decoded bytes of a Basic
/// credentials segment: UTF-8 text, split at its first `:`.
pub open spec fn spec_credentials_from_decoded(decoded: Seq<u8>) -> Result<(Seq<char>, Seq<char>), CredentialsError> {
    if !valid_utf8(decoded) {
        Err(CredentialsError::NotUtf8)
    } else {
        let text = decode_utf8(decoded);
        if !text.contains(':') {
            Err(CredentialsError::MissingPassword)
        } else {
            let i = first_colon(text);
            Ok((text.take(i), text.skip(i + 1)))
        }
    }
}

/// The username and password of a Basic `Authorization` header value
/// (`None`: no such header), or why there are none.
pub open spec fn spec_basic_credentials(header: Option<Seq<u8>>) -> Result<(Seq<char>, Seq<char>), CredentialsError> {
    match header {
        None => Err(CredentialsError::MissingHeader),
        Some(bytes) => if !is_header_text(bytes) {
            Err(CredentialsError::InvalidHeaderText)
        } else if !has_basic_prefix(bytes) {
            Err(CredentialsError::NotBasicScheme)
        } else {
            match base64_standard_decode(bytes.skip(6)) {
                None => Err(CredentialsError::NotBase64),
                Some(decoded) => spec_credentials_from_decoded(decoded),
            }
        },
    }
}

/// Credentials presented with HTTP Basic authentication.
pub struct Credentials {
    pub username: String,
    pub password: String,
}

// ---------- Code ----------

proof fn lemma_first_colon_is(text: Seq<char>, i: int)
    requires
        0 <= i < text.len(),
        text[i] == ':',
        forall|j: int| 0 <= j < i ==> text[j] != ':',
    ensures
        text.contains(':'),
        first_colon(text) == i,
{
    assert(!text.take(i).contains(':')) by {
        if text.take(i).contains(':') {
            let j = choose|j: int| 0 <= j < text.take(i).len() && text.take(i)[j] == ':';
            assert(text[j] == ':');
        }
    }
    let k = first_colon(text);
    assert(0 <= k < text.len() && text[k] == ':' && !text.take(k).contains(':'));
    if k > i {
        assert(text.take(k)[i] == ':');
    }
}

fn is_header_text_exec(bytes: &[u8]) -> (r: bool)
    ensures
        r == is_header_text(bytes@),
{
    let mut i: usize = 0;
    while i < bytes.len()
        invariant
            i <= bytes@.len(),
            forall|j: int| 0 <= j < i ==> is_visible_header_byte(#[trigger] bytes@[j]),
        decreases bytes@.len() - i,
    {
        let b = bytes[i];
        if !((32 <= b && b < 127) || b == 9) {
            return false;
        }
        i = i + 1;
    }
    true
}

fn has_basic_prefix_exec(bytes: &[u8]) -> (r: bool)
    ensures
        r == has_basic_prefix(bytes@),
{
    if bytes.len() < 6 {
        return false;
    }
    let r = bytes[0] == 66 && bytes[1] == 97 && bytes[2] == 115 && bytes[3] == 105 && bytes[4]
        == 99 && bytes[5] == 32;
    assert(r == (bytes@.take(6) =~= basic_scheme_prefix()));
    r
}

/// Splits `text` at its first `:`.
fn split_at_first_colon(text: &str) -> (r: Option<(String, String)>)
    ensures
        r is None <==> !text@.contains(':'),
        r matches Some((u, p)) ==> u@ == text@.take(first_colon(text@)) && p@ == text@.skip(
            first_colon(text@) + 1,
        ),
{
    let n = text.unicode_len();
    let mut i: usize = 0;
    while i < n
        invariant
            n == text@.len(),
            i <= n,
            forall|j: int| 0 <= j < i ==> text@[j] != ':',
        decreases n - i,
    {
        if text.get_char(i) == ':' {
            proof {
                lemma_first_colon_is(text@, i as int);
            }
            let username = text.substring_char(0, i).to_owned();
            let password = text.substring_char(i + 1, n).to_owned();
            assert(text@.subrange(0, i as int) =~= text@.take(i as int));
            assert(text@.subrange(i + 1, n as int) =~= text@.skip(i + 1));
            return Some((username, password));
        }
        i = i + 1;
    }
    assert(!text@.contains(':'));
    None
}

/// Reads the credentials of an HTTP Basic `Authorization` header value:
/// `Basic `, then base64 (standard alphabet) of `username:password` in UTF-8.
/// The username ends at the first `:`; the password is the rest.
pub fn basic_authenticate(authorization: Option<&[u8]>) -> (r: Result<Credentials, CredentialsError>)
    ensures
        r matches Ok(c) ==> spec_basic_credentials(
            match authorization { Some(b) => Some(b@), None => None },
        ) == Ok::<(Seq<char>, Seq<char>), CredentialsError>((c.username@, c.password@)),
        r matches Err(e) ==> spec_basic_credentials(
            match authorization { Some(b) => Some(b@), None => None },
        ) == Err::<(Seq<char>, Seq<char>), CredentialsError>(e),
{
    let bytes = match authorization {
        None => return Err(CredentialsError::MissingHeader),
        Some(b) => b,
    };
    if !is_header_text_exec(bytes) {
        return Err(CredentialsError::InvalidHeaderText);
    }
    if !has_basic_prefix_exec(bytes) {
        return Err(CredentialsError::NotBasicScheme);
    }
    let segment = vstd::slice::slice_subrange(bytes, 6, bytes.len());
    assert(segment@ == bytes@.skip(6));
    match decode_base64_standard(segment) {
        Ok(decoded) => credentials_from_decoded(decoded),
        Err(_) => Err(CredentialsError::NotBase64),
    }
}

/// Reads the credentials from the decoded bytes of a Basic credentials
/// segment: UTF-8 text `username:password`, split at the first `:`.
pub fn credentials_from_decoded(decoded: Vec<u8>) -> (r: Result<Credentials, CredentialsError>)
    ensures
        r matches Ok(c) ==> spec_credentials_from_decoded(decoded@) == Ok::<
            (Seq<char>, Seq<char>),
            CredentialsError,
        >((c.username@, c.password@)),
        r matches Err(e) ==> spec_credentials_from_decoded(decoded@) == Err::<
            (Seq<char>, Seq<char>),
            CredentialsError,
        >(e),
{
    let text = match String::from_utf8(decoded) {
        Ok(s) => s,
        Err(_) => return Err(CredentialsError::NotUtf8),
    };
    match split_at_first_colon(text.as_str()) {
        Some((username, password)) => Ok(Credentials { username, password }),
        None => Err(CredentialsError::MissingPassword),
    }
}

// ---------- Laws ----------

/// The username is everything before the first `:` of the decoded
/// credentials and the password everything after it, so a password may hold
/// `:`: a header `Basic <segment>` whose segment decodes to the UTF-8 bytes
/// of `username:password`, with no `:` in the username, yields exactly that
/// username and password.
pub proof fn law_basic_credentials_round_trip(segment: Seq<u8>, username: Seq<char>, password: Seq<char>)
    requires
        is_header_text(segment),
        !username.contains(':'),
        base64_standard_decode(segment) == Some(encode_utf8(username + seq![':'] + password)),
    ensures
        spec_basic_credentials(Some(basic_scheme_prefix() + segment)) == Ok::<
            (Seq<char>, Seq<char>),
            CredentialsError,
        >((username, password)),
{
    let bytes = basic_scheme_prefix() + segment;
    assert(is_header_text(bytes)) by {
        assert forall|i: int| 0 <= i < bytes.len() implies is_visible_header_byte(#[trigger] bytes[i]) by {
            if i >= 6 {
                assert(bytes[i] == segment[i - 6]);
            }
        }
    }
    assert(bytes.take(6) =~= basic_scheme_prefix());
    assert(bytes.skip(6) =~= segment);
    let text = username + seq![':'] + password;
    encode_utf8_valid_utf8(text);
    encode_utf8_decode_utf8(text);
    let i = username.len() as int;
    assert forall|j: int| 0 <= j < i implies text[j] != ':' by {
        assert(text[j] == username[j]);
        if username[j] == ':' {
            assert(username.contains(':'));
        }
    }
    lemma_first_colon_is(text, i);
    assert(text.take(i) =~= username);
    assert(text.skip(i + 1) =~= password);
}

/// A header `Basic <segment>` whose segment is printable ASCII (bytes 32 to
/// 126, which covers the whole base64 alphabet) and decodes to the UTF-8
/// bytes of `username:password`, with no `:` in the username, is read as
/// exactly that username and password.
pub proof fn law_printable_basic_header_is_read(segment: Seq<u8>, username: Seq<char>, password: Seq<char>)
    requires
        forall|i: int| 0 <= i < segment.len() ==> 32 <= #[trigger] segment[i] && segment[i] < 127,
        !username.contains(':'),
        base64_standard_decode(segment) == Some(encode_utf8(username + seq![':'] + password)),
    ensures
        spec_basic_credentials(Some(seq![66u8, 97u8, 115u8, 105u8, 99u8, 32u8] + segment)) == Ok::<
            (Seq<char>, Seq<char>),
            CredentialsError,
        >((username, password)),
{
    assert(is_header_text(segment));
    assert(seq![66u8, 97u8, 115u8, 105u8, 99u8, 32u8] =~= basic_scheme_prefix());
    law_basic_credentials_round_trip(segment, username, password);
}

/// `header` is `Basic <segment>` where the segment is printable ASCII
/// (bytes 32 to 126) and decodes, as standard base64, to the UTF-8 bytes of
/// `username:password`, with no `:` in the username: the header a client
/// such as `curl -u username:password` sends.
#[verifier::opaque]
pub open spec fn is_basic_header_for(header: Seq<u8>, username: Seq<char>, password: Seq<char>) -> bool {
    exists|segment: Seq<u8>|
        {
            &&& header == seq![66u8, 97u8, 115u8, 105u8, 99u8, 32u8] + segment
            &&& forall|i: int| 0 <= i < segment.len() ==> 32 <= #[trigger] segment[i] && segment[i] < 127
            &&& !username.contains(':')
            &&& #[trigger] base64_standard_decode(segment) == Some(
                encode_utf8(username + seq![':'] + password),
            )
        }
}

/// The header that a client sends for `username:password` is read as
/// exactly that username and password.
pub proof fn law_basic_header_is_read(header: Seq<u8>, username: Seq<char>, password: Seq<char>)
    requires
        is_basic_header_for(header, username, password),
    ensures
        spec_basic_credentials(Some(header)) == Ok::<(Seq<char>, Seq<char>), CredentialsError>(
            (username, password),
        ),
{
    reveal(is_basic_header_for);
    let segment = choose|segment: Seq<u8>|
        {
            &&& header == seq![66u8, 97u8, 115u8, 105u8, 99u8, 32u8] + segment
            &&& forall|i: int| 0 <= i < segment.len() ==> 32 <= #[trigger] segment[i] && segment[i] < 127
            &&& !username.contains(':')
            &&& #[trigger] base64_standard_decode(segment) == Some(
                encode_utf8(username + seq![':'] + password),
            )
        };
    law_printable_basic_header_is_read(segment, username, password);
}

} // verus!
