//! The uploader's settings and the metadata of an upload to YouTube.
use vstd::prelude::*;
use crate::media_control::errors::AppError;
use crate::text::{chars_of, string_of};
use crate::vpsupload::upload::first_chars;

verus! {

/// Uploads videos with the OAuth token kept in `token_file`, in chunks of `chunk_size` bytes.
pub struct YoutubeUploader {
    token_file: String,
    chunk_size: usize,
}

/// The metadata a video is uploaded with: a private video, not made for kids, in
/// category 22 (People & Blogs), with an empty description.
pub struct VideoRequest {
    pub title: String,
    pub description: String,
    pub category_id: String,
    pub privacy_status: String,
    pub made_for_kids: bool,
}

impl YoutubeUploader {
    /// The token file.
    pub closed spec fn spec_token_file(&self) -> Seq<char> {
        self.token_file@
    }

    /// The chunk size in bytes.
    pub closed spec fn spec_chunk_size(&self) -> usize {
        self.chunk_size
    }

    /// An uploader for the token in `token_file`, sending chunks of `chunk_size` bytes.
    pub fn new(token_file: String, chunk_size: usize) -> (u: Self)
        ensures
            u.spec_token_file() == token_file@,
            u.spec_chunk_size() == chunk_size,
    {
        YoutubeUploader { token_file, chunk_size }
    }

    /// The token file.
    pub fn token_file(&self) -> (r: &str)
        ensures
            r@ == self.spec_token_file(),
    {
        self.token_file.as_str()
    }

    /// The chunk size in bytes.
    pub fn chunk_size(&self) -> (n: usize)
        ensures
            n == self.spec_chunk_size(),
    {
        self.chunk_size
    }

    /// The metadata for uploading a video titled `title`: the title is cut to its first
    /// 95 characters (YouTube allows 100).
    pub fn video_request(&self, title: &str) -> (r: VideoRequest)
        ensures
            r.title@ == first_chars(title@, 95),
            r.description@ == Seq::<char>::empty(),
            r.category_id@ == "22"@,
            r.privacy_status@ == "private"@,
            !r.made_for_kids,
    {
        let c = chars_of(title);
        let n: usize = if c.len() < 95 { c.len() } else { 95 };
        let t = string_of(&c.as_slice()[0..n]);
        assert(c@.subrange(0, n as int) =~= first_chars(title@, 95));
        VideoRequest {
            title: t,
            description: String::new(),
            category_id: "22".to_owned(),
            privacy_status: "private".to_owned(),
            made_for_kids: false,
        }
    }
}

/// The video id the upload API answered with: an upload whose answer holds no id fails.
pub fn video_id_from(id: Option<String>) -> (r: Result<String, AppError>)
    ensures
        id is Some ==> (r matches Ok(v) && v@ == id->0@),
        id is None ==> (r matches Err(AppError::YoutubeApiError { message: m }) && m@
            == "YouTube API returned no video ID"@),
{
    match id {
        Some(v) => Ok(v),
        None => Err(AppError::YoutubeApiError { message: "YouTube API returned no video ID".to_owned() }),
    }
}

} // verus!
