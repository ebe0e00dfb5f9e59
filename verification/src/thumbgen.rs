//! The checks on the thumbnail generator's answer: which status codes mean what, and which
//! files are accepted as thumbnails.

use vstd::prelude::*;
use vstd::string::{StrSliceExecFns, StringExecFns};

use url::ParseError;

use crate::links::thumbgen_api_url;
use crate::thumbs::{without_errors, LocalThumbGenerator};
use crate::web_url::{parse_url, parsed_url, url_with_segments};
use crate::worker_api::RemoteThumbnailGenerationError;

verus! {

/// What the status code of the generator's answer calls for next.
#[derive(Clone, Copy, PartialEq, Eq, Debug, Structural)]
pub enum StatusStep {
    /// 200: read the thumbnail.
    ReadBlob,
    /// 204: the generator refused; read its reason from the `X-Failure-Reason` header.
    ReadFailureReason,
    /// Anything else: the generation failed.
    Unexpected(u16),
}

/// What the status code of the generator's answer calls for next.
pub fn check_status(status: u16) -> (s: StatusStep)
    ensures
        s == (if status == 200 {
            StatusStep::ReadBlob
        } else if status == 204 {
            StatusStep::ReadFailureReason
        } else {
            StatusStep::Unexpected(status)
        }),
{
    if status == 200 {
        StatusStep::ReadBlob
    } else if status == 204 {
        StatusStep::ReadFailureReason
    } else {
        StatusStep::Unexpected(status)
    }
}

/// The failure the generator reported: its reason, or a silent failure without one.
pub fn refusal(reason: Option<String>) -> (e: RemoteThumbnailGenerationError)
    ensures
        match reason {
            Some(r) => e matches RemoteThumbnailGenerationError::ServerError(x) && x@ == r@,
            None => e matches RemoteThumbnailGenerationError::SilentFailure,
        },
{
    match reason {
        Some(r) => RemoteThumbnailGenerationError::ServerError(r),
        None => RemoteThumbnailGenerationError::SilentFailure,
    }
}

/// Whether a file type is an image type.
pub open spec fn is_image_type(t: Seq<char>) -> bool {
    t.len() >= 6 && t.take(6) == "image/"@
}

/// Checks the file the generator sent: it must not be empty and must be an image.
pub fn check_blob(nonempty: bool, file_type: &str) -> (r: Result<(), RemoteThumbnailGenerationError>)
    ensures
        !nonempty ==> r matches Err(RemoteThumbnailGenerationError::ZeroSizeBlob),
        nonempty && !is_image_type(file_type@) ==> (r matches Err(RemoteThumbnailGenerationError::UnexpectedType(t)) && t@ == file_type@),
        nonempty && is_image_type(file_type@) ==> r is Ok,
{
    if !nonempty {
        return Err(RemoteThumbnailGenerationError::ZeroSizeBlob);
    }
    let n = file_type.unicode_len();
    let image = if n >= 6 {
        let prefix = file_type.substring_char(0, 6).to_owned();
        proof { reveal_strlit("image/"); }
        prefix == String::from_str("image/")
    } else {
        false
    };
    if image {
        Ok(())
    } else {
        Err(RemoteThumbnailGenerationError::UnexpectedType(file_type.to_owned()))
    }
}

/// Why a new base URL for the generator was not taken.
#[derive(Debug)]
pub enum BaseUrlUpdateError {
    /// It did not parse.
    Unparsable(ParseError),
    /// It cannot be a base.
    NotABase,
}

/// Points a local generator at a new base URL: its endpoint becomes `<base>/api/v1/getThumbnail`
/// and the failures cached so far are cleared, as they may be the old server's. A URL that
/// does not parse or cannot be a base changes nothing. Returns the number of failures cleared.
pub fn update_base_url<E>(generator: &mut LocalThumbGenerator<E>, new_url: &str) -> (r: Result<usize, BaseUrlUpdateError>)
    requires
        old(generator).wf(),
    ensures
        final(generator).wf(),
        final(generator).threshold() == old(generator).threshold(),
        match parsed_url(new_url@) {
            None => r matches Err(BaseUrlUpdateError::Unparsable(_))
                && final(generator).entries() == old(generator).entries()
                && final(generator).api_url() == old(generator).api_url(),
            Some(v) => if v.cannot_be_a_base {
                r matches Err(BaseUrlUpdateError::NotABase)
                    && final(generator).entries() == old(generator).entries()
                    && final(generator).api_url() == old(generator).api_url()
            } else {
                r matches Ok(n)
                    && Some(final(generator).api_url()) == url_with_segments(new_url@, seq!["api"@, "v1"@, "getThumbnail"@])
                    && final(generator).entries() == without_errors(old(generator).entries())
                    && n == old(generator).entries().len() - final(generator).entries().len()
            },
        },
{
    match parse_url(new_url) {
        Err(e) => { return Err(BaseUrlUpdateError::Unparsable(e)); },
        Ok(_) => {},
    }
    match thumbgen_api_url(new_url) {
        None => Err(BaseUrlUpdateError::NotABase),
        Some(endpoint) => {
            generator.set_api_url(endpoint);
            let removed = generator.clear_errors();
            Ok(removed)
        },
    }
}

} // verus!
