//! Command lines for FFmpeg: merging, remuxing and RTMP streaming.
use vstd::prelude::*;
use crate::media_control::storage::texts;

verus! {

/// Runs FFmpeg jobs; the processes themselves are started by the caller.
pub struct FfmpegRunner;

impl FfmpegRunner {
    /// A runner.
    pub fn new() -> (r: Self) {
        FfmpegRunner
    }

    /// Arguments of a concat merge: `-y -f concat -safe 0 -i {list} -c copy -movflags +faststart {output}`.
    pub fn concat_args(&self, list_file: &str, output: &str) -> (args: Vec<String>)
        ensures
            texts(args@) == seq!["-y"@, "-f"@, "concat"@, "-safe"@, "0"@, "-i"@, list_file@, "-c"@,
                "copy"@, "-movflags"@, "+faststart"@, output@],
    {
        let args = vec![
            "-y".to_owned(), "-f".to_owned(), "concat".to_owned(), "-safe".to_owned(), "0".to_owned(),
            "-i".to_owned(), list_file.to_owned(), "-c".to_owned(), "copy".to_owned(),
            "-movflags".to_owned(), "+faststart".to_owned(), output.to_owned(),
        ];
        assert(texts(args@) =~= seq!["-y"@, "-f"@, "concat"@, "-safe"@, "0"@, "-i"@, list_file@, "-c"@,
                "copy"@, "-movflags"@, "+faststart"@, output@]);
        args
    }

    /// Arguments of a lossless remux to MPEG-TS: `-y -i {input} -c copy -f mpegts {output}`.
    pub fn remux_args(&self, input: &str, output: &str) -> (args: Vec<String>)
        ensures
            texts(args@) == seq!["-y"@, "-i"@, input@, "-c"@, "copy"@, "-f"@, "mpegts"@, output@],
    {
        let args = vec![
            "-y".to_owned(), "-i".to_owned(), input.to_owned(), "-c".to_owned(), "copy".to_owned(),
            "-f".to_owned(), "mpegts".to_owned(), output.to_owned(),
        ];
        assert(texts(args@) =~= seq!["-y"@, "-i"@, input@, "-c"@, "copy"@, "-f"@, "mpegts"@, output@]);
        args
    }

    /// Arguments of a remux to MP4: `-y -i {input} -c copy -movflags +faststart {output}`.
    pub fn convert_args(&self, input: &str, output: &str) -> (args: Vec<String>)
        ensures
            texts(args@) == seq!["-y"@, "-i"@, input@, "-c"@, "copy"@, "-movflags"@, "+faststart"@, output@],
    {
        let args = vec![
            "-y".to_owned(), "-i".to_owned(), input.to_owned(), "-c".to_owned(), "copy".to_owned(),
            "-movflags".to_owned(), "+faststart".to_owned(), output.to_owned(),
        ];
        assert(texts(args@) =~= seq!["-y"@, "-i"@, input@, "-c"@, "copy"@, "-movflags"@, "+faststart"@, output@]);
        args
    }
}

impl Default for FfmpegRunner {
    /// A runner.
    fn default() -> (r: Self) {
        FfmpegRunner::new()
    }
}

/// Streams a file to an RTMP address.
pub struct RtmpStreamer {
    rtmp_url: String,
}

impl RtmpStreamer {
    /// The RTMP address.
    pub closed spec fn url(&self) -> Seq<char> {
        self.rtmp_url@
    }

    /// A streamer for `rtmp_url`.
    pub fn new(rtmp_url: String) -> (s: Self)
        ensures
            s.url() == rtmp_url@,
    {
        RtmpStreamer { rtmp_url }
    }

    /// Arguments of a real-time stream: `-re -i {input} -c copy -f flv {url}`.
    pub fn build_args(&self, input: &str) -> (args: Vec<String>)
        ensures
            texts(args@) == seq!["-re"@, "-i"@, input@, "-c"@, "copy"@, "-f"@, "flv"@, self.url()],
    {
        let args = vec![
            "-re".to_owned(), "-i".to_owned(), input.to_owned(), "-c".to_owned(), "copy".to_owned(),
            "-f".to_owned(), "flv".to_owned(), self.rtmp_url.as_str().to_owned(),
        ];
        assert(texts(args@) =~= seq!["-re"@, "-i"@, input@, "-c"@, "copy"@, "-f"@, "flv"@, self.url()]);
        args
    }
}

} // verus!
