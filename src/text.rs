use vstd::prelude::*;

verus! {

/// The text that a byte sequence encodes as UTF-8, or `None` where the bytes
/// are not valid UTF-8.
pub uninterp spec fn utf8_text(bytes: Seq<u8>) -> Option<Seq<char>>;

/// The decoder's diagnostic for bytes that are not valid UTF-8: the `Debug`
/// form of the error, which says where the first invalid sequence starts.
pub uninterp spec fn utf8_error_text(bytes: Seq<u8>) -> Seq<char>;

/// What precedes the decoder's own diagnostic when a body is not valid text.
pub open spec fn unreadable_prefix() -> Seq<char> {
    "could not read message body as a string: "@
}

/// `text` renders `bytes`: their text where they are valid UTF-8, else a
/// diagnostic that says so. Only no bytes render as no text.
pub open spec fn renders(bytes: Seq<u8>, text: Seq<char>) -> bool {
    &&& match utf8_text(bytes) {
        Some(t) => text == t,
        None => text == unreadable_prefix() + utf8_error_text(bytes),
    }
    &&& (text.len() == 0 <==> bytes.len() == 0)
}

/// Relies on std::str::from_utf8: the text of valid UTF-8, else the decoder's
/// error, handed on in its `Debug` form. Valid UTF-8 decodes to no characters
/// exactly when there are no bytes.
#[verifier::external_body]
fn decode_utf8(bytes: &[u8]) -> (r: Result<String, String>)
    ensures
        match r {
            Ok(t) => utf8_text(bytes@) == Some(t@),
            Err(d) => utf8_text(bytes@) is None && d@ == utf8_error_text(bytes@),
        },
        r is Ok ==> (r->Ok_0@.len() == 0 <==> bytes@.len() == 0),
        bytes@.len() == 0 ==> r is Ok,
{
    match std::str::from_utf8(bytes) {
        Ok(t) => Ok(t.to_owned()),
        Err(e) => Err(format!("{e:?}")),
    }
}

/// What a decoded body becomes as text: the text itself, or, for a decoder
/// diagnostic, that diagnostic after a sentence that says so.
pub open spec fn rendering(decoded: Result<Seq<char>, Seq<char>>) -> Seq<char> {
    match decoded {
        Ok(t) => t,
        Err(d) => unreadable_prefix() + d,
    }
}

/// Turns the outcome of decoding a body as UTF-8 into the text shown for it.
pub fn render_decoded(decoded: Result<String, String>) -> (r: String)
    ensures
        r@ == rendering(
            match decoded {
                Ok(t) => Ok(t@),
                Err(d) => Err(d@),
            },
        ),
{
    match decoded {
        Ok(t) => t,
        Err(d) => {
            let mut message = String::from_str("could not read message body as a string: ");
            message.append(d.as_str());
            message
        },
    }
}

/// Renders a response body as text. This never fails: bytes that are not
/// valid UTF-8 give the decoder's diagnostic instead.
pub fn body_bytes_to_str(bytes: &[u8]) -> (r: String)
    ensures
        renders(bytes@, r@),
{
    let decoded = decode_utf8(bytes);
    proof {
        reveal_strlit("could not read message body as a string: ");
    }
    render_decoded(decoded)
}

} // verus!
