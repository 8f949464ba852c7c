use vps_telegram_bot::media_control::errors::AppError;
use vps_telegram_bot::media_control::jobs::{
    job_name_of, refusal, run_id, ConcatEvent, ConcatJob, ConcatStage, JobAction,
};
use vps_telegram_bot::media_control::state::{ActionType, AppState};
use vps_telegram_bot::media_control::tasks::{
    convert_progress, ffmpeg_progress_secs, rtmp_missing, seconds_from_captures, stream_progress, upload_created,
    uploads_started, ConvertEvent, ConvertJob, ConvertStage, DeleteEvent, DeleteJob, DeleteStage, StreamEvent,
    StreamJob, StreamStage, UploadEvent, UploadJob, UploadStage,
};

fn nothing_taken(_: &str) -> bool {
    false
}

fn is_work(a: &JobAction) -> bool {
    matches!(
        a,
        JobAction::Probe(_)
            | JobAction::WriteList { .. }
            | JobAction::RunConcat { .. }
            | JobAction::Remux { .. }
            | JobAction::Validate(_)
            | JobAction::Convert { .. }
            | JobAction::Stream { .. }
            | JobAction::Upload { .. }
    )
}

fn files(names: &[&str]) -> Vec<String> {
    names.iter().map(|s| s.to_string()).collect()
}

#[test]
fn job_names_and_refusals() {
    assert_eq!(job_name_of(ActionType::Concat), "视频合并");
    assert_eq!(job_name_of(ActionType::Stream), "RTMP 推流");
    let busy = AppError::TaskAlreadyRunning { task_name: "批量转码".into() };
    assert_eq!(refusal(ActionType::Concat, &busy).unwrap(), "已有任务正在运行：批量转码\n请先发送 /stop 或等待完成。");
    let uploads = AppError::YoutubeUploadBlocking { count: 3 };
    assert_eq!(
        refusal(ActionType::Convert, &uploads).unwrap(),
        "当前有 3 个 YouTube 上传任务在运行/排队，请先 /stop 或等待完成后再转码。"
    );
    assert!(refusal(ActionType::Delete, &uploads).is_none());
    assert!(refusal(ActionType::Concat, &AppError::Cancelled).is_none());
    assert_eq!(run_id(42, 1700), "42_1700");
}

#[test]
fn concat_needs_two_files() {
    let mut state = AppState::new("/srv", 2);
    assert_eq!(state.begin_concat(1), Err(AppError::ConcatInsufficientFiles { count: 1 }));
    assert!(!state.has_active_task());
    assert!(state.begin_concat(2).is_ok());
    assert_eq!(state.active_task_name(), Some("视频合并"));
}

#[test]
fn concat_direct_success() {
    let (mut job, first) = ConcatJob::start(files(&["/srv/rec/a.mp4", "/srv/rec/b.mp4"]), "/srv", "1_2", &nothing_taken);
    assert_eq!(job.work_dir, "/srv/rec");
    assert_eq!(job.list_file, "/srv/rec/.concat_list_1_2.txt");
    assert_eq!(job.list_file_ts, "/srv/rec/.concat_list_ts_1_2.txt");
    assert!(job.output_path.starts_with("/srv/rec/") && job.output_path.ends_with(".mp4"));
    assert!(matches!(&first[..], [JobAction::SendText(_)]));
    let acts = job.step(ConcatEvent::CancelCheck { cancelled: false });
    assert!(matches!(&acts[..], [JobAction::Probe(p)] if p == "/srv/rec/a.mp4"));
    let acts = job.step(ConcatEvent::CancelCheck { cancelled: false });
    assert!(matches!(acts.last(), Some(JobAction::Remove(p)) if p == "/srv/rec/.concat_list_1_2.txt"));
    assert!(acts.iter().any(|a| matches!(a, JobAction::RunConcat { .. })));
    assert!(matches!(job.stage, ConcatStage::DirectRan));
    let acts = job.step(ConcatEvent::CancelCheck { cancelled: false });
    assert!(matches!(&acts[..], [JobAction::Validate(_)]));
    job.step(ConcatEvent::Validated { success: true, report: "ok".into() });
    let acts = job.step(ConcatEvent::CancelCheck { cancelled: false });
    assert!(matches!(acts.last(), Some(JobAction::Finish(None))));
    assert!(matches!(job.stage, ConcatStage::Done));
}

#[test]
fn concat_cancel_starts_no_more_work() {
    let (mut job, _) = ConcatJob::start(files(&["/srv/a.mp4", "/srv/b.mp4"]), "/srv", "9_9", &nothing_taken);
    let acts = job.step(ConcatEvent::CancelCheck { cancelled: true });
    assert!(!acts.iter().any(is_work));
    assert!(matches!(acts.last(), Some(JobAction::Finish(Some(AppError::Cancelled)))));
    assert!(matches!(job.stage, ConcatStage::Done));
}

#[test]
fn concat_falls_back_to_mpegts() {
    let (mut job, _) = ConcatJob::start(files(&["/srv/a.mp4", "/srv/b.mp4"]), "/srv", "7", &nothing_taken);
    job.step(ConcatEvent::CancelCheck { cancelled: false });
    job.step(ConcatEvent::CancelCheck { cancelled: false });
    job.step(ConcatEvent::CancelCheck { cancelled: false });
    let acts = job.step(ConcatEvent::Validated { success: false, report: "short".into() });
    assert!(matches!(&acts[..], [JobAction::EditText(_)]));
    let acts = job.step(ConcatEvent::CancelCheck { cancelled: false });
    assert!(acts.iter().any(|a| matches!(a, JobAction::Remux { input, .. } if input == "/srv/a.mp4")));
    job.step(ConcatEvent::Remuxed { ok: true });
    job.step(ConcatEvent::CancelCheck { cancelled: false });
    job.step(ConcatEvent::Remuxed { ok: true });
    assert_eq!(job.ts_files.len(), 2);
    let acts = job.step(ConcatEvent::CancelCheck { cancelled: false });
    assert!(acts.iter().any(|a| matches!(a, JobAction::RunConcat { list, .. } if list == &job.list_file_ts)));
    job.step(ConcatEvent::Validated { success: false, report: "bad".into() });
    let acts = job.step(ConcatEvent::CancelCheck { cancelled: false });
    assert!(acts.iter().any(|a| matches!(a, JobAction::Remove(p) if p == &job.output_path)));
    assert!(matches!(job.stage, ConcatStage::Done));
}

#[test]
fn ffmpeg_progress_lines() {
    assert_eq!(ffmpeg_progress_secs("frame=1 time=01:02:03.45 bitrate=1"), Some(3723));
    assert_eq!(ffmpeg_progress_secs("no stamp here"), None);
    let groups = vec![Some("x".to_string()), Some("00".to_string()), None, Some("09".to_string())];
    assert_eq!(seconds_from_captures(&groups), Some(9));
}

#[test]
fn progress_messages() {
    assert_eq!(
        convert_progress(0, 2, "a<b>.mp4", "[██░░]", 5, 10),
        "🔄 <b>正在转换</b> (1/2):\n<code>a&lt;b&gt;.mp4</code>\n\n<code>[██░░]</code>\n⏱️ 5s / 10s"
    );
    assert!(stream_progress("v.mp4", "[█]", 3, 9).contains("3s / 9s"));
    assert!(rtmp_missing().contains("RTMP"));
    assert_eq!(upload_created("a.mp4"), "⏳ 创建 YouTube 上传任务:\n`a.mp4`");
    assert!(uploads_started(2, 3).starts_with("✅ 已启动 `2` 个 YouTube 上传任务。\n并发上限: `3`"));
}

#[test]
fn convert_batch_counts_successes() {
    let (mut job, first) = ConvertJob::start(files(&["/srv/a.mkv"]));
    assert!(matches!(&first[..], [JobAction::SendText(_)]));
    assert!(matches!(job.stage, ConvertStage::Before { idx: 0 }));
    job.step(ConvertEvent::CancelCheck { cancelled: false }, &nothing_taken);
    let acts = job.step(ConvertEvent::CancelCheck { cancelled: false }, &nothing_taken);
    assert!(acts.iter().any(|a| matches!(a, JobAction::Convert { input, output } if input == "/srv/a.mkv" && output == "/srv/a.mp4")));
    let acts = job.step(ConvertEvent::Converted { cancelled: false, ok: true }, &nothing_taken);
    assert_eq!(job.success_count, 1);
    assert!(matches!(job.stage, ConvertStage::Done));
    assert!(matches!(acts.last(), Some(JobAction::Finish(None))));
    let (empty, acts) = ConvertJob::start(Vec::new());
    assert!(matches!(empty.stage, ConvertStage::Done));
    assert!(!acts.is_empty());
}

#[test]
fn stream_reports_failure_code() {
    let (mut job, first) = StreamJob::start("/srv/v.flv", "1.00MB", "rtmp://x/y");
    assert_eq!(job.filename, "v.flv");
    assert!(matches!(&first[..], [JobAction::SendText(t)] if t == "⏳ 正在分析推流文件: <code>v.flv</code> (1.00MB)..."));
    job.step(StreamEvent::CancelCheck { cancelled: false });
    assert!(matches!(job.stage, StreamStage::Probing));
    let acts = job.step(StreamEvent::DurationKnown { positive: true });
    assert!(acts.iter().any(|a| matches!(a, JobAction::Stream { url, .. } if url == "rtmp://x/y")));
    let acts = job.step(StreamEvent::Ended { cancelled: false, success: false, code: 2 });
    assert!(matches!(acts.last(), Some(JobAction::Finish(Some(AppError::RtmpStreamFailed { exit_code: 2 })))));
    assert!(matches!(job.stage, StreamStage::Done));
}

#[test]
fn delete_batch_counts_results() {
    let (mut job, first) = DeleteJob::start(files(&["/srv/a.mp4", "/srv/b.mp4"]));
    assert!(first.is_empty());
    let acts = job.step(DeleteEvent::CancelCheck { cancelled: false });
    assert!(matches!(&acts[..], [JobAction::DeleteFile(p)] if p == "/srv/a.mp4"));
    job.step(DeleteEvent::Deleted { ok: true });
    job.step(DeleteEvent::CancelCheck { cancelled: false });
    job.step(DeleteEvent::Deleted { ok: false });
    assert_eq!((job.deleted, job.failed), (1, 1));
    assert!(matches!(job.stage, DeleteStage::Ending));
    let acts = job.step(DeleteEvent::CancelCheck { cancelled: false });
    assert!(acts.iter().any(|a| matches!(a, JobAction::EditText(t) if t.contains("成功删除 1 个文件，失败 1 个"))));
    assert!(matches!(job.stage, DeleteStage::Done));
}

#[test]
fn upload_course() {
    let (mut job, first) = UploadJob::start("/srv/a.mp4", "a.mp4", 2);
    assert!(matches!(&first[0], JobAction::SetStatus { status, progress: Some(0) } if status == "排队中"));
    let acts = job.step(UploadEvent::Admitted { cancelled: false });
    assert!(acts.iter().any(|a| matches!(a, JobAction::Upload { path, .. } if path == "/srv/a.mp4")));
    assert!(matches!(job.stage, UploadStage::Uploading));
    let acts = job.step(UploadEvent::Uploaded { outcome: Ok("vid123".into()) });
    assert!(acts.iter().any(|a| matches!(a, JobAction::EditText(t) if t.contains("vid123"))));
    assert!(matches!(job.stage, UploadStage::Done));
    let (mut cancelled, _) = UploadJob::start("/srv/b.mp4", "b.mp4", 2);
    let acts = cancelled.step(UploadEvent::Admitted { cancelled: true });
    assert!(!acts.iter().any(is_work));
}

#[test]
fn upload_planning_and_batches() {
    let mut state = AppState::new("/srv", 2);
    let chosen = files(&["/srv/a.mp4", "/srv/gone.mp4"]);
    let none = state.plan_uploads(&chosen, &[false, false], true, "/srv/token.json", 5);
    assert!(matches!(none, Err(AppError::InvalidArgument { message }) if message == "没有可上传的视频文件。"));
    let no_token = state.plan_uploads(&chosen, &[true, false], false, "/srv/token.json", 5);
    assert!(matches!(no_token, Err(AppError::YoutubeTokenMissing { path }) if path == "/srv/token.json"));
    let plans = state.plan_uploads(&chosen, &[true, false], true, "/srv/token.json", 5).unwrap();
    assert_eq!(plans.len(), 1);
    assert_eq!(plans[0].filename, "a.mp4");
    assert!(plans[0].task_id.starts_with("yt_5_0_"));
    state.toggle_selection(&ActionType::Delete, "/srv/b.mp4");
    state.toggle_selection(&ActionType::Delete, "/srv/a.mp4");
    assert_eq!(state.batch_files(ActionType::Delete, &[true, true]).unwrap(), files(&["/srv/a.mp4", "/srv/b.mp4"]));
    assert_eq!(state.batch_files(ActionType::Delete, &[false, false]).unwrap_err(), "❌ 请先选择至少一个文件！");
}
