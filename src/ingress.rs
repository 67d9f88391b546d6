use vstd::prelude::*;
use base64::Engine as _;

verus! {

/// Why a request could not be turned into image bytes.
#[derive(Clone, Debug, PartialEq, Eq)]
pub enum IngressError {
    /// No image was supplied.
    MissingImage,
    /// The image text is not standard base64; the decoder's explanation.
    InvalidBase64(String),
}

/// The bytes that `text` decodes to as standard, padded base64, if it is valid.
pub uninterp spec fn base64_decoded(text: Seq<char>) -> Option<Seq<u8>>;

/// Relies on `base64::Engine::decode` with the `STANDARD` engine: the bytes
/// depend on the text alone, and a failure is reported as its message.
#[verifier::external_body]
fn decode_standard(text: &str) -> (r: Result<Vec<u8>, String>)
    ensures
        match r {
            Ok(bytes) => base64_decoded(text@) == Some(bytes@),
            Err(_) => base64_decoded(text@).is_none(),
        },
{
    match base64::prelude::BASE64_STANDARD.decode(text) {
        Ok(bytes) => Ok(bytes),
        Err(e) => Err(e.to_string()),
    }
}

/// The image bytes carried by an `image` text in standard base64.
pub fn image_from_base64(image: Option<&str>) -> (r: Result<Vec<u8>, IngressError>)
    ensures
        match image {
            None => r == Err::<Vec<u8>, IngressError>(IngressError::MissingImage),
            Some(text) => match base64_decoded(text@) {
                Some(bytes) => r matches Ok(v) && v@ == bytes,
                None => r matches Err(IngressError::InvalidBase64(_)),
            },
        },
{
    match image {
        None => Err(IngressError::MissingImage),
        Some(text) => match decode_standard(text) {
            Ok(bytes) => Ok(bytes),
            Err(reason) => Err(IngressError::InvalidBase64(reason)),
        },
    }
}

/// Whether an upload field of this name carries the image.
pub fn is_image_field(name: &str) -> (r: bool)
    ensures
        r == (name@ == "image"@ || name@ == "file"@),
{
    let n = name.to_string();
    let image = "image".to_string();
    let file = "file".to_string();
    proof {
        vstd::string::to_string_from_display_ensures_for_str(name, n);
        vstd::string::to_string_from_display_ensures_for_str("image", image);
        vstd::string::to_string_from_display_ensures_for_str("file", file);
    }
    n == image || n == file
}

} // verus!
