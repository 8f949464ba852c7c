//! Domain errors of the media control panel.
use vstd::prelude::*;
use crate::text::{decimal, push_decimal, push_signed_decimal, push_str, push_zero_padded, signed_decimal, string_of, zero_padded};

verus! {

/// The errors the panel reports. Paths are carried as text.
#[derive(Debug, Clone, PartialEq)]
pub enum AppError {
    /// The user is not the administrator.
    PermissionDenied { user_id: i64 },
    /// A path lies outside the base directory.
    PathTraversal { path: String },
    /// An exclusive task is already running.
    TaskAlreadyRunning { task_name: String },
    /// Uploads are running, so no exclusive task may start.
    YoutubeUploadBlocking { count: usize },
    /// No such task.
    TaskNotFound { task_id: String },
    /// The file does not exist.
    FileNotFound { path: String },
    /// The directory does not exist.
    DirectoryNotFound { path: String },
    /// A file I/O failure.
    FileIo { path: String, message: String },
    /// A general I/O failure.
    Io(String),
    /// FFmpeg exited with a failure code.
    FfmpegFailed { exit_code: i32, stderr: String },
    /// FFprobe could not read a duration.
    FfprobeFailed { path: String },
    /// A merge result failed validation; ratios are given in thousandths.
    MergeValidationFailed { duration_ratio_permille: u64, size_ratio_permille: u64 },
    /// Fewer than two files were chosen for a merge.
    ConcatInsufficientFiles { count: usize },
    /// The OAuth token file is missing.
    YoutubeTokenMissing { path: String },
    /// The upload API failed.
    YoutubeApiError { message: String },
    /// An upload was cancelled.
    YoutubeUploadCancelled { filename: String },
    /// No RTMP address is configured.
    RtmpUrlNotConfigured,
    /// Streaming exited with a failure code.
    RtmpStreamFailed { exit_code: i32 },
    /// The configuration is invalid.
    ConfigError { message: String },
    /// The Telegram API failed.
    TelegramError(String),
    /// The user cancelled the operation.
    Cancelled,
    /// An argument or state is invalid.
    InvalidArgument { message: String },
}

impl AppError {
    /// A path-traversal error for `path`.
    pub fn path_traversal(path: &str) -> (e: AppError)
        ensures
            e matches AppError::PathTraversal { path: p } && p@ == path@,
    {
        AppError::PathTraversal { path: path.to_owned() }
    }

    /// A missing-file error for `path`.
    pub fn file_not_found(path: &str) -> (e: AppError)
        ensures
            e matches AppError::FileNotFound { path: p } && p@ == path@,
    {
        AppError::FileNotFound { path: path.to_owned() }
    }

    /// A missing-directory error for `path`.
    pub fn directory_not_found(path: &str) -> (e: AppError)
        ensures
            e matches AppError::DirectoryNotFound { path: p } && p@ == path@,
    {
        AppError::DirectoryNotFound { path: path.to_owned() }
    }

    /// An invalid-argument error with `message`.
    pub fn invalid_argument(message: &str) -> (e: AppError)
        ensures
            e matches AppError::InvalidArgument { message: m } && m@ == message@,
    {
        AppError::InvalidArgument { message: message.to_owned() }
    }
}

/// The text `str`'s `Debug` formatting gives: the text in double quotes, with quotes,
/// backslashes and characters that do not print escaped.
pub uninterp spec fn debug_text(s: Seq<char>) -> Seq<char>;

/// `format!("{:?}", s)` (`<str as Debug>::fmt`).
#[verifier::external_body]
fn debug_quoted(s: &str) -> (r: String)
    ensures
        r@ == debug_text(s@),
{
    format!("{:?}", s)
}

/// A ratio given in thousandths, written with three decimals.
pub open spec fn permille_text(p: nat) -> Seq<char> {
    decimal(p / 1000) + seq!['.'] + zero_padded(p % 1000, 3)
}

/// What each error says.
pub open spec fn message_text(e: AppError) -> Seq<char> {
    match e {
        AppError::PermissionDenied { user_id } => "Permission denied: user "@ + signed_decimal(user_id as int)
            + " is not an administrator"@,
        AppError::PathTraversal { path } => "Path traversal detected: "@ + debug_text(path@) + " is outside BASE_DIR"@,
        AppError::TaskAlreadyRunning { task_name } => "An exclusive task is already running: "@ + task_name@,
        AppError::YoutubeUploadBlocking { count } => "YouTube upload tasks are running ("@ + decimal(count as nat)
            + " active), cannot start exclusive task"@,
        AppError::TaskNotFound { task_id } => "Task not found: "@ + task_id@,
        AppError::FileNotFound { path } => "File not found: "@ + debug_text(path@),
        AppError::DirectoryNotFound { path } => "Directory not found: "@ + debug_text(path@),
        AppError::FileIo { path, message } => "File I/O error on "@ + debug_text(path@) + ": "@ + message@,
        AppError::Io(m) => "I/O error: "@ + m@,
        AppError::FfmpegFailed { exit_code, stderr } => "FFmpeg failed with exit code "@ + signed_decimal(exit_code as int)
            + ": "@ + stderr@,
        AppError::FfprobeFailed { path } => "FFprobe failed to get duration for "@ + debug_text(path@),
        AppError::MergeValidationFailed { duration_ratio_permille, size_ratio_permille } =>
            "Merge validation failed: duration ratio="@ + permille_text(duration_ratio_permille as nat) + ", size ratio="@
            + permille_text(size_ratio_permille as nat),
        AppError::ConcatInsufficientFiles { count } => "Concat requires at least 2 files, got "@ + decimal(count as nat),
        AppError::YoutubeTokenMissing { path } => "YouTube token file not found: "@ + debug_text(path@)
            + ". Run OAuth flow first."@,
        AppError::YoutubeApiError { message } => "YouTube API error: "@ + message@,
        AppError::YoutubeUploadCancelled { filename } => "YouTube upload cancelled for: "@ + filename@,
        AppError::RtmpUrlNotConfigured => "RTMP_URL is not configured. Set it in .env or environment variables."@,
        AppError::RtmpStreamFailed { exit_code } => "RTMP stream failed with exit code "@ + signed_decimal(exit_code as int),
        AppError::ConfigError { message } => "Configuration error: "@ + message@,
        AppError::TelegramError(m) => "Telegram API error: "@ + m@,
        AppError::Cancelled => "Operation cancelled by user"@,
        AppError::InvalidArgument { message } => "Invalid argument: "@ + message@,
    }
}

fn push_permille(out: &mut Vec<char>, p: u64)
    ensures
        final(out)@ == old(out)@ + permille_text(p as nat),
{
    push_decimal(out, p / 1000);
    out.push('.');
    push_zero_padded(out, p % 1000, 3);
}

impl AppError {
    /// What the error says.
    pub fn message(&self) -> (r: String)
        ensures
            r@ == message_text(*self),
    {
        let mut out: Vec<char> = Vec::new();
        match self {
            AppError::PermissionDenied { user_id } => {
                push_str(&mut out, "Permission denied: user ");
                push_signed_decimal(&mut out, *user_id);
                push_str(&mut out, " is not an administrator");
            },
            AppError::PathTraversal { path } => {
                push_str(&mut out, "Path traversal detected: ");
                push_str(&mut out, debug_quoted(path.as_str()).as_str());
                push_str(&mut out, " is outside BASE_DIR");
            },
            AppError::TaskAlreadyRunning { task_name } => {
                push_str(&mut out, "An exclusive task is already running: ");
                push_str(&mut out, task_name.as_str());
            },
            AppError::YoutubeUploadBlocking { count } => {
                push_str(&mut out, "YouTube upload tasks are running (");
                push_decimal(&mut out, *count as u64);
                push_str(&mut out, " active), cannot start exclusive task");
            },
            AppError::TaskNotFound { task_id } => {
                push_str(&mut out, "Task not found: ");
                push_str(&mut out, task_id.as_str());
            },
            AppError::FileNotFound { path } => {
                push_str(&mut out, "File not found: ");
                push_str(&mut out, debug_quoted(path.as_str()).as_str());
            },
            AppError::DirectoryNotFound { path } => {
                push_str(&mut out, "Directory not found: ");
                push_str(&mut out, debug_quoted(path.as_str()).as_str());
            },
            AppError::FileIo { path, message } => {
                push_str(&mut out, "File I/O error on ");
                push_str(&mut out, debug_quoted(path.as_str()).as_str());
                push_str(&mut out, ": ");
                push_str(&mut out, message.as_str());
            },
            AppError::Io(m) => {
                push_str(&mut out, "I/O error: ");
                push_str(&mut out, m.as_str());
            },
            AppError::FfmpegFailed { exit_code, stderr } => {
                push_str(&mut out, "FFmpeg failed with exit code ");
                push_signed_decimal(&mut out, *exit_code as i64);
                push_str(&mut out, ": ");
                push_str(&mut out, stderr.as_str());
            },
            AppError::FfprobeFailed { path } => {
                push_str(&mut out, "FFprobe failed to get duration for ");
                push_str(&mut out, debug_quoted(path.as_str()).as_str());
            },
            AppError::MergeValidationFailed { duration_ratio_permille, size_ratio_permille } => {
                push_str(&mut out, "Merge validation failed: duration ratio=");
                push_permille(&mut out, *duration_ratio_permille);
                push_str(&mut out, ", size ratio=");
                push_permille(&mut out, *size_ratio_permille);
            },
            AppError::ConcatInsufficientFiles { count } => {
                push_str(&mut out, "Concat requires at least 2 files, got ");
                push_decimal(&mut out, *count as u64);
            },
            AppError::YoutubeTokenMissing { path } => {
                push_str(&mut out, "YouTube token file not found: ");
                push_str(&mut out, debug_quoted(path.as_str()).as_str());
                push_str(&mut out, ". Run OAuth flow first.");
            },
            AppError::YoutubeApiError { message } => {
                push_str(&mut out, "YouTube API error: ");
                push_str(&mut out, message.as_str());
            },
            AppError::YoutubeUploadCancelled { filename } => {
                push_str(&mut out, "YouTube upload cancelled for: ");
                push_str(&mut out, filename.as_str());
            },
            AppError::RtmpUrlNotConfigured => {
                push_str(&mut out, "RTMP_URL is not configured. Set it in .env or environment variables.");
            },
            AppError::RtmpStreamFailed { exit_code } => {
                push_str(&mut out, "RTMP stream failed with exit code ");
                push_signed_decimal(&mut out, *exit_code as i64);
            },
            AppError::ConfigError { message } => {
                push_str(&mut out, "Configuration error: ");
                push_str(&mut out, message.as_str());
            },
            AppError::TelegramError(m) => {
                push_str(&mut out, "Telegram API error: ");
                push_str(&mut out, m.as_str());
            },
            AppError::Cancelled => {
                push_str(&mut out, "Operation cancelled by user");
            },
            AppError::InvalidArgument { message } => {
                push_str(&mut out, "Invalid argument: ");
                push_str(&mut out, message.as_str());
            },
        }
        string_of(out.as_slice())
    }
}

} // verus!
