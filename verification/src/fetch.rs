//! Fetching a source image: the decisions taken while the response arrives.
//!
//! The request and the body are read by whoever holds the HTTP client; each
//! step it takes is judged here: the status, the advertised length, and every
//! chunk as it comes in, against the configured size limit.

use vstd::prelude::*;

verus! {

/// Bytes reserved up front when the server does not say how many to expect.
pub const DEFAULT_INITIAL_BUFFER_CAPACITY: usize = 65_536;

/// An HTTP client error, kept as the client reported it.
#[verifier::external_type_specification]
#[verifier::external_body]
pub struct ExHttpError(reqwest::Error);

/// A body of bytes, shared without copying.
#[verifier::external_type_specification]
#[verifier::external_body]
pub struct ExBytes(bytes::Bytes);

/// Errors that can occur while fetching a source image.
#[derive(Debug)]
#[non_exhaustive]
pub enum FetchError {
    /// The request could not be made.
    Request(reqwest::Error),
    /// The response body could not be read.
    ResponseBody(reqwest::Error),
    /// The source is larger than the limit; `actual` is what was known of its
    /// size when that became clear.
    SourceTooLarge { limit: usize, actual: Option<u64> },
    /// The source URL is not one the rules permit.
    SourceNotAllowed,
    /// The source answered with a status that is not a success.
    UpstreamStatus { status: u16 },
}

/// A source image and the response headers worth carrying forward.
#[derive(Debug)]
pub struct FetchedImage {
    pub bytes: bytes::Bytes,
    /// The URL the bytes actually came from, after any redirects.
    pub final_url: String,
    pub content_type: Option<String>,
    pub cache_control: Option<String>,
    pub last_modified: Option<String>,
    pub etag: Option<String>,
}

/// How much to reserve for the body: the tightest known bound, and no
/// unbounded reservation when the server omits `Content-Length`.
pub open spec fn buffer_capacity(content_length: Option<usize>, max_bytes: Option<usize>) -> usize {
    match (content_length, max_bytes) {
        (Some(len), Some(limit)) => if len < limit {
            len
        } else {
            limit
        },
        (Some(len), None) => len,
        (None, Some(limit)) => if limit < DEFAULT_INITIAL_BUFFER_CAPACITY {
            limit
        } else {
            DEFAULT_INITIAL_BUFFER_CAPACITY
        },
        (None, None) => 0,
    }
}

/// How much to reserve for the body, as [`buffer_capacity`] says.
pub fn initial_buffer_capacity(content_length: Option<usize>, max_bytes: Option<usize>) -> (r: usize)
    ensures
        r == buffer_capacity(content_length, max_bytes),
{
    match (content_length, max_bytes) {
        (Some(len), Some(limit)) => if len < limit {
            len
        } else {
            limit
        },
        (Some(len), None) => len,
        (None, Some(limit)) => if limit < DEFAULT_INITIAL_BUFFER_CAPACITY {
            limit
        } else {
            DEFAULT_INITIAL_BUFFER_CAPACITY
        },
        (None, None) => 0,
    }
}

/// An error page is not an image: any status outside 200 to 299 is refused.
pub fn check_status(status: u16) -> (r: Result<(), FetchError>)
    ensures
        200 <= status <= 299 ==> r is Ok,
        !(200 <= status <= 299) ==> (r matches Err(FetchError::UpstreamStatus { status: s })
            && s == status),
{
    if 200 <= status && status <= 299 {
        Ok(())
    } else {
        Err(FetchError::UpstreamStatus { status })
    }
}

/// Refuses a response whose advertised length is already over the limit.
pub fn check_advertised_length(max_bytes: Option<usize>, advertised: Option<usize>) -> (r: Result<
    (),
    FetchError,
>)
    ensures
        match (max_bytes, advertised) {
            (Some(limit), Some(len)) => if len > limit {
                r matches Err(FetchError::SourceTooLarge { limit: l, actual: Some(a) }) && l
                    == limit && a == len
            } else {
                r is Ok
            },
            _ => r is Ok,
        },
{
    match (max_bytes, advertised) {
        (Some(limit), Some(len)) => {
            if len > limit {
                Err(FetchError::SourceTooLarge { limit, actual: Some(len as u64) })
            } else {
                Ok(())
            }
        },
        _ => Ok(()),
    }
}

/// Takes in one more chunk of `chunk_len` bytes after `received`, and gives
/// how many bytes are then in hand; refuses it when that would pass the limit,
/// with the total when it can be counted.
pub fn admit_chunk(received: usize, chunk_len: usize, max_bytes: Option<usize>) -> (r: Result<
    usize,
    FetchError,
>)
    requires
        max_bytes is Some || received + chunk_len <= usize::MAX,
    ensures
        match max_bytes {
            None => r == Ok::<usize, FetchError>((received + chunk_len) as usize),
            Some(limit) => if received + chunk_len > usize::MAX {
                r matches Err(FetchError::SourceTooLarge { limit: l, actual: None }) && l == limit
            } else if received + chunk_len > limit {
                r matches Err(FetchError::SourceTooLarge { limit: l, actual: Some(a) }) && l
                    == limit && a == received + chunk_len
            } else {
                r == Ok::<usize, FetchError>((received + chunk_len) as usize)
            },
        },
{
    match max_bytes {
        None => Ok(received + chunk_len),
        Some(limit) => match received.checked_add(chunk_len) {
            None => Err(FetchError::SourceTooLarge { limit, actual: None }),
            Some(size) => {
                if size > limit {
                    Err(FetchError::SourceTooLarge { limit, actual: Some(size as u64) })
                } else {
                    Ok(size)
                }
            },
        },
    }
}

} // verus!
