use vod_collector::batch_delete::{may_start, report_uncounted, requested_source};
use vod_collector::picture::{
    after_download, download_attempts, file_extension, http_failure, image_target,
    new_image_target, DownloadStep, WEBP_QUALITY,
};
use vod_collector::progress::{BatchDeleteProgress, CollectProgress, TaskStatus};
use vod_collector::registry::TaskRegistry;
use vod_collector::remote::{
    after_failure, backoff_seconds, categories_url, detail_url, listing_pages, listing_url,
    page_url, probe_step, total_pages, videos_url, CollectError, ErrorKind, ProbeStep, RetryStep,
    FETCH_TIMEOUT_SECONDS, PROBE_ATTEMPTS,
};
use vod_collector::dto::{deserialize_empty_string_to_none, FieldError, VideoListResponse};
use vod_collector::models::{default_convert_webp, default_download_retry};
use vod_collector::requests::may_collect;
use vod_collector::requests::{
    BatchDeleteSourceRequest, BindingRequest, CollectCategoriesQuery, CollectRequest,
    CollectStartRequest, CollectVideosQuery, CollectionRequest, ScheduledTaskConfigRequest,
    ScheduledTaskLogsQuery,
};
use vod_collector::scheduler::{
    checked_next_run, log_limit, new_object_id_text, next_run_after, on_tick, time_text,
    videos_collected, CycleRun, CycleStep, CycleTotals, ScheduledTaskConfig, SchedulerMirror,
    TaskExecutionLog,
    TickAction, DEFAULT_INTERVAL_HOURS, SCHEDULED_WINDOW_HOURS, SOURCE_DELAY_SECONDS, TICK_SECONDS,
};

#[test]
fn listing_address_joins_the_action() {
    assert_eq!(listing_url("http://x/api", &None), "http://x/api?ac=detail");
    assert_eq!(listing_url("http://x/api?", &None), "http://x/api?ac=detail");
    assert_eq!(listing_url("http://x/api?k=v", &None), "http://x/api?k=v&ac=detail");
    assert_eq!(listing_url("http://x/api?k=v", &Some("6".to_string())), "http://x/api?k=v&ac=detail&h=6");
    assert_eq!(listing_url("", &None), "?ac=detail");
    assert_eq!(listing_url("a?b?", &None), "a?b?ac=detail");
    assert_eq!(categories_url("http://x/api"), "http://x/api?ac=list");
    assert_eq!(categories_url("http://x/api?a=1"), "http://x/api?a=1&ac=list");
    assert_eq!(page_url("http://x/api?ac=detail", 12), "http://x/api?ac=detail&pg=12");
    assert_eq!(detail_url("http://x/api", "88"), "http://x/api?ac=detail&h=24&ids=88");
}

#[test]
fn video_query_address_encodes_the_search_term() {
    assert_eq!(videos_url("http://x", None, &None, &None), "http://x?ac=detail");
    assert_eq!(
        videos_url("http://x", Some(2), &Some("5".to_string()), &Some("a b".to_string())),
        "http://x?ac=detail&pg=2&t=5&wd=a%20b"
    );
    assert_eq!(
        videos_url("http://x", None, &None, &Some("流浪&地球/~_-.A9".to_string())),
        "http://x?ac=detail&wd=%E6%B5%81%E6%B5%AA%26%E5%9C%B0%E7%90%83%2F~_-.A9"
    );
    assert_eq!(videos_url("http://x", Some(0), &None, &Some(String::new())), "http://x?ac=detail&pg=0&wd=");
}

#[test]
fn page_count_rounds_up() {
    assert_eq!(total_pages(0, 20), Some(0));
    assert_eq!(total_pages(1, 20), Some(1));
    assert_eq!(total_pages(20, 20), Some(1));
    assert_eq!(total_pages(21, 20), Some(2));
    assert_eq!(total_pages(41, 20), Some(3));
    assert_eq!(total_pages(0, 0), Some(0));
    assert_eq!(total_pages(5, 0), None);
    assert_eq!(total_pages(u64::MAX, 1), None);
    assert_eq!(total_pages(u64::MAX, 2), None);
    assert_eq!(total_pages(u64::MAX, u64::MAX), Some(1));
    assert_eq!(total_pages(4294967295, 1), Some(4294967295));
    assert_eq!(total_pages(4294967296, 1), None);
    assert_eq!(total_pages(8589934589, 2), Some(4294967295));
    assert_eq!(total_pages(8589934591, 2), None);
    assert_eq!(listing_pages(45, None), Some(3));
    assert_eq!(listing_pages(45, Some(10)), Some(5));
    assert_eq!(listing_pages(45, Some(0)), None);
}

#[test]
fn backoff_doubles() {
    assert_eq!(backoff_seconds(1), 1);
    assert_eq!(backoff_seconds(2), 2);
    assert_eq!(backoff_seconds(3), 4);
    assert_eq!(backoff_seconds(11), 1024);
    assert_eq!(backoff_seconds(64), 1u64 << 63);
    assert_eq!(after_failure(1, 3), RetryStep::Retry { wait_seconds: 1 });
    assert_eq!(after_failure(2, 3), RetryStep::Retry { wait_seconds: 2 });
    assert_eq!(after_failure(3, 3), RetryStep::GiveUp);
    assert_eq!(after_failure(1, 0), RetryStep::GiveUp);
    assert_eq!(after_failure(200, 3), RetryStep::GiveUp);
    assert_eq!(PROBE_ATTEMPTS, 3);
    assert_eq!(FETCH_TIMEOUT_SECONDS, 30);
}

#[test]
fn probe_step_by_reply() {
    let ok = VideoListResponse {
        code: 1,
        msg: String::new(),
        page: 1,
        pagecount: 9,
        limit: 20,
        total: 61,
        list: Vec::new(),
    };
    assert_eq!(probe_step(1, 3, &Ok(ok.clone())), ProbeStep::Done(4));
    assert_eq!(probe_step(3, 3, &Ok(ok.clone())), ProbeStep::Done(4));
    let bad = VideoListResponse { code: 2, ..ok };
    assert_eq!(probe_step(2, 3, &Ok(bad.clone())), ProbeStep::Retry { wait_seconds: 2 });
    assert_eq!(probe_step(3, 3, &Ok(bad)), ProbeStep::GiveUp(CollectError::api_code(2)));
    assert_eq!(
        probe_step(3, 3, &Err(CollectError::network("refused"))),
        ProbeStep::GiveUp(CollectError {
            kind: ErrorKind::Network,
            message: "获取总页数失败: 请求失败: refused".to_string()
        })
    );
    assert_eq!(
        probe_step(3, 3, &Err(CollectError::unreadable("cut"))),
        ProbeStep::GiveUp(CollectError {
            kind: ErrorKind::Network,
            message: "获取总页数失败: 读取响应失败: cut".to_string()
        })
    );
}

#[test]
fn a_stop_by_hand_is_its_own_kind() {
    let stop = CollectError::cancelled();
    assert_eq!(stop.kind, ErrorKind::Cancelled);
    assert_eq!(stop.message, "任务已手动停止");
    assert_eq!(CollectError::storage("x").kind, ErrorKind::Storage);
    assert_eq!(CollectError::timeout().kind, ErrorKind::Timeout);
}

#[test]
fn picture_place_and_extension() {
    assert_eq!(file_extension("http://img/a.b/pic.jpeg", false), "jpeg");
    assert_eq!(file_extension("http://img/a.b/pic.jpeg", true), "webp");
    assert_eq!(file_extension("nodot", false), "nodot");
    assert_eq!(file_extension("trailing.", false), "");
    let t = image_target("ID".to_string(), "http://img/p.png", false);
    assert_eq!(t.file_name, "ID.png");
    assert_eq!(t.local_path, "static/images/ID.png");
    assert_eq!(t.public_path, "/static/images/ID.png");
    let a = new_image_target("http://img/p.png", true);
    let b = new_image_target("http://img/p.png", true);
    assert_ne!(a.id, b.id);
    assert_eq!(a.id.chars().count(), 36);
    assert_eq!(a.file_name, format!("{}.webp", a.id));
    assert_eq!(a.local_path, format!("static/images/{}.webp", a.id));
    assert_eq!(a.public_path, format!("/static/images/{}.webp", a.id));
    assert_eq!(WEBP_QUALITY, 75);
}

#[test]
fn download_is_tried_as_often_as_the_source_says() {
    assert_eq!(download_attempts(5), 5);
    assert_eq!(download_attempts(0), 3);
    assert_eq!(download_attempts(-2), 3);
    assert_eq!(default_download_retry(), 3);
    assert_eq!(default_convert_webp(), 0);
    let t = image_target("ID".to_string(), "http://img/p.png", false);
    assert_eq!(after_download(1, 3, &t, &Ok(())), DownloadStep::Stored("/static/images/ID.png".to_string()));
    assert_eq!(after_download(99, 3, &t, &Ok(())), DownloadStep::Stored("/static/images/ID.png".to_string()));
    let fail = Err(http_failure(404));
    assert_eq!(after_download(1, 3, &t, &fail), DownloadStep::Retry { wait_seconds: 1 });
    assert_eq!(after_download(2, 3, &t, &fail), DownloadStep::Retry { wait_seconds: 2 });
    assert_eq!(
        after_download(3, 3, &t, &fail),
        DownloadStep::GiveUp(CollectError { kind: ErrorKind::Network, message: "HTTP错误: 404".to_string() })
    );
}

#[test]
fn config_times() {
    let hour = 3_600_000i64;
    assert_eq!(next_run_after(1_000, 12), 1_000 + 12 * hour);
    assert_eq!(next_run_after(1_000, -1), 1_000 - hour);
    assert_eq!(checked_next_run(i64::MAX, 1), None);
    assert_eq!(checked_next_run(i64::MIN, -1), None);
    assert_eq!(checked_next_run(5, 2), Some(5 + 2 * hour));
    let mut c = ScheduledTaskConfig::initial(10);
    assert!(!c.enabled);
    assert_eq!(c.interval_hours, 12);
    assert_eq!(DEFAULT_INTERVAL_HOURS, 12);
    assert_eq!(c.last_run, None);
    assert_eq!(c.next_run, Some(10 + 12 * hour));
    assert_eq!((c.created_at, c.updated_at), (10, 10));
    assert!(!c.is_due(i64::MAX));
    c.running_collections.push("x".to_string());
    c.current_collection_index = 4;
    c.update(true, Some(6), 100);
    assert!(c.enabled);
    assert_eq!(c.interval_hours, 6);
    assert_eq!(c.next_run, Some(100 + 6 * hour));
    assert_eq!(c.updated_at, 100);
    assert_eq!(c.created_at, 10);
    assert!(c.running_collections.is_empty());
    assert_eq!(c.current_collection_index, 0);
    assert!(!c.is_due(100 + 6 * hour - 1));
    assert!(c.is_due(100 + 6 * hour));
    c.cycle_done(200 + 6 * hour);
    assert_eq!(c.last_run, Some(200 + 6 * hour));
    assert_eq!(c.next_run, Some(200 + 12 * hour));
    c.update(true, None, 300);
    assert_eq!(c.interval_hours, 12);
    c.update(false, Some(6), 400);
    assert_eq!(c.next_run, None);
    assert!(!c.is_due(i64::MAX));
}

#[test]
fn start_keeps_the_interval() {
    let hour = 3_600_000i64;
    let mut stored = ScheduledTaskConfig::initial(0);
    stored.update(false, Some(6), 0);
    stored.running_collections.push("x".to_string());
    let mut config = Some(stored);
    let mut m = SchedulerMirror::new();
    let id = m.start(&mut config, 1_000).unwrap();
    assert_eq!(id.len(), 24);
    assert_eq!(m.current_task, Some(id));
    assert!(m.is_running);
    let c = config.clone().unwrap();
    assert!(c.enabled);
    assert_eq!(c.interval_hours, 6);
    assert_eq!(c.next_run, Some(1_000 + 6 * hour));
    assert_eq!(c.updated_at, 1_000);
    assert!(c.running_collections.is_empty());
    let before = (m.clone(), config.clone());
    assert_eq!(m.start(&mut config, 2_000), None);
    assert_eq!((m.clone(), config.clone()), before);
    let mut none = None;
    let mut fresh = SchedulerMirror::new();
    assert!(fresh.start(&mut none, 5).is_some());
    assert!(fresh.is_running);
    assert_eq!(none, None);
    let mut c = config.unwrap();
    c.switch_off(3_000);
    assert!(!c.enabled);
    assert_eq!(c.interval_hours, 6);
    assert_eq!(c.next_run, None);
    assert_eq!(c.updated_at, 3_000);
    c.update(false, Some(7), i64::MAX);
    assert_eq!(c.next_run, None);
    assert_eq!(new_object_id_text().len(), 24);
}

#[test]
fn cycle_goes_over_every_source_whatever_the_scheduler_does() {
    let mut m = SchedulerMirror::new();
    m.mark_running();
    let mut run = CycleRun::begin(false, 3);
    assert_eq!(run.next_step(), CycleStep::Collect { index: 0 });
    assert_eq!(run.source_done(Some(4)), 5);
    m.stop(&None);
    assert_eq!(run.next_step(), CycleStep::Collect { index: 1 });
    assert_eq!(run.source_done(None), 5);
    assert_eq!(run.next_step(), CycleStep::Collect { index: 2 });
    run.source_done(Some(1));
    assert_eq!(run.totals, CycleTotals { videos: 5, succeeded: 2, failed: 1 });
    assert_eq!(run.next_step(), CycleStep::Close);
    let mut config = ScheduledTaskConfig::initial(0);
    config.update(true, Some(2), 0);
    run.close(&mut config, 10_000);
    assert_eq!(config.last_run, Some(10_000));
    assert_eq!(config.next_run, Some(10_000 + 7_200_000));
    assert_eq!(run.next_step(), CycleStep::Done);
    let mut at_once = CycleRun::begin(true, 1);
    assert_eq!(at_once.next_step(), CycleStep::Collect { index: 0 });
    at_once.source_done(Some(0));
    assert_eq!(at_once.next_step(), CycleStep::Done);
    assert_eq!(CycleRun::begin(false, 0).next_step(), CycleStep::Done);
    assert_eq!(CycleRun::begin(true, 0).next_step(), CycleStep::Done);
    let full = CycleTotals { videos: i64::MAX, succeeded: 0, failed: u32::MAX };
    assert!(!full.has_room_for(Some(1)));
    assert!(full.has_room_for(Some(0)));
    assert!(full.has_room_for(Some(-1)));
    assert!(!full.has_room_for(None));
}

#[test]
fn tick_decisions() {
    let mut c = ScheduledTaskConfig::initial(0);
    c.update(true, Some(1), 0);
    assert_eq!(on_tick(false, &Some(c.clone()), i64::MAX), TickAction::Exit);
    assert_eq!(on_tick(true, &None, 0), TickAction::Wait);
    assert_eq!(on_tick(true, &Some(c.clone()), 3_599_999), TickAction::Wait);
    assert_eq!(on_tick(true, &Some(c.clone()), 3_600_000), TickAction::RunCycle);
    c.update(false, Some(1), 0);
    assert_eq!(on_tick(true, &Some(c), i64::MAX), TickAction::Wait);
    assert_eq!(TICK_SECONDS, 60);
    assert_eq!(SOURCE_DELAY_SECONDS, 5);
    assert_eq!(SCHEDULED_WINDOW_HOURS, 24);
}

#[test]
fn mirror_start_and_stop() {
    let mut on = ScheduledTaskConfig::initial(0);
    on.update(true, None, 0);
    let off = ScheduledTaskConfig::initial(0);
    let mut m = SchedulerMirror::new();
    assert!(!m.reports_running(&Some(on.clone())));
    assert!(m.begin_start_as(&Some(off.clone()), "t1".to_string()));
    assert_eq!(m.current_task, Some("t1".to_string()));
    assert!(m.reports_running(&Some(on.clone())));
    assert!(!m.reports_running(&Some(off.clone())));
    assert!(!m.reports_running(&None));
    m.mark_running();
    assert!(!m.begin_start_as(&Some(on.clone()), "t2".to_string()));
    assert_eq!(m.begin_start(&Some(on.clone())), None);
    assert_eq!(m.current_task, Some("t1".to_string()));
    assert!(m.begin_start_as(&Some(off.clone()), "t3".to_string()));
    assert!(m.begin_start_as(&None, "t4".to_string()));
    assert!(m.before_immediate_cycle(Some(2), &Some(on.clone())));
    assert_eq!(m.current_task, Some("t4".to_string()));
    assert!(!m.before_immediate_cycle(Some(0), &Some(on.clone())));
    assert_eq!(m.current_task, None);
    m.claim("a");
    assert!(!m.before_immediate_cycle(None, &Some(on.clone())));
    assert_eq!(m.current_task, None);
    m.claim("a");
    assert!(!m.before_immediate_cycle(Some(1), &None));
    m.claim("a");
    m.claim("b");
    assert_eq!(m.current_task, Some("a".to_string()));
    m.release("b");
    assert_eq!(m.current_task, Some("a".to_string()));
    m.release("a");
    assert_eq!(m.current_task, None);
    m.claim("c");
    m.clear_task();
    assert_eq!(m.current_task, None);
    assert!(m.stop(&Some(on.clone())));
    assert!(!m.is_running);
    m.mark_running();
    assert!(!m.stop(&Some(off)));
    assert!(!m.is_running);
    assert!(m.stop(&None));
    assert_eq!(on_tick(m.is_running, &Some(on), i64::MAX), TickAction::Exit);
}

fn is_object_id(id: &str) -> bool {
    id.chars().count() == 24 && id.chars().all(|c| c.is_ascii_digit() || ('a'..='f').contains(&c))
}

#[test]
fn fresh_ids_have_their_shape() {
    let mut m = SchedulerMirror::new();
    let id = m.begin_start(&None).unwrap();
    assert!(is_object_id(&id));
    assert_eq!(m.current_task, Some(id.clone()));
    m.claim_fresh();
    assert_eq!(m.current_task, Some(id.clone()));
    m.clear_task();
    m.claim_fresh();
    let second = m.current_task.clone().unwrap();
    assert!(is_object_id(&second));
    assert_ne!(second, id);
    let log = TaskExecutionLog::open(Some("abc".to_string()), "源".to_string(), 5);
    assert!(is_object_id(&log.task_id));
    assert_eq!(log.collection_id, "abc");
    assert_eq!(log.message, Some("开始采集 源".to_string()));
    let other = TaskExecutionLog::open(None, "源".to_string(), 5);
    assert!(is_object_id(&other.collection_id));
    assert_ne!(other.task_id, log.task_id);
    assert_ne!(other.task_id, other.collection_id);
    let a = vod_collector::registry::new_task_id();
    let b = vod_collector::registry::new_task_id();
    assert_ne!(a, b);
    assert_eq!(a.len(), 36);
    assert_eq!(a.matches('-').count(), 4);
    let mut r: TaskRegistry<BatchDeleteProgress> = TaskRegistry::new();
    let run = vod_collector::batch_delete::BatchDeleteRun::begin_new("A".to_string(), 3, &mut r);
    assert_eq!(run.task_id.len(), 36);
    assert_eq!(r.get(&run.task_id).unwrap().status, TaskStatus::Running);
    let mut c: TaskRegistry<CollectProgress> = TaskRegistry::new();
    let source = CollectionRequest {
        collect_name: "n".to_string(),
        collect_url: "http://x".to_string(),
        collect_type: 1,
        collect_mid: 1,
        collect_appid: String::new(),
        collect_appkey: String::new(),
        collect_param: String::new(),
        collect_filter: String::new(),
        collect_filter_from: String::new(),
        collect_opt: 0,
        collect_sync_pic_opt: 0,
        collect_remove_ad: 0,
        collect_convert_webp: 0,
        collect_download_retry: 3,
        collect_status: 1,
    }
    .to_collection(0);
    let run = vod_collector::collect::BatchRun::start_new(&source, &None, &mut c);
    assert_eq!(run.task_id.len(), 36);
    assert_eq!(c.entries[0].task_id, run.task_id);
    assert_eq!(c.entries[0].name, "n");
}

#[test]
fn execution_log_of_a_source() {
    let mut log = TaskExecutionLog::started("t".to_string(), "c1".to_string(), "源A".to_string(), 50);
    assert_eq!(log.status, TaskStatus::Running);
    assert_eq!(log.message, Some("开始采集 源A".to_string()));
    assert_eq!((log.started_at, log.completed_at), (50, None));
    assert_eq!((log.videos_collected, log.errors.clone()), (None, None));
    let mut failed = log.clone();
    log.finish(&Ok(17), 90);
    assert_eq!(log.status, TaskStatus::Completed);
    assert_eq!(log.completed_at, Some(90));
    assert_eq!(log.videos_collected, Some(17));
    assert_eq!(log.message, Some("采集完成，获取 17 个视频".to_string()));
    assert_eq!(log.errors, None);
    failed.finish(&Err(CollectError::timeout()), 91);
    assert_eq!(failed.status, TaskStatus::Failed);
    assert_eq!(failed.completed_at, Some(91));
    assert_eq!(failed.errors, Some("请求超时".to_string()));
    assert_eq!(failed.message, Some("采集失败: 请求超时".to_string()));
    assert_eq!(failed.videos_collected, None);
    assert_eq!(failed.collection_id, "c1");
}

#[test]
fn cycle_counts_and_limits() {
    let mut p = CollectProgress::default();
    p.success = 12;
    assert_eq!(videos_collected(&Some(p.clone())), 12);
    assert_eq!(videos_collected(&None), 0);
    p.success = u32::MAX;
    assert_eq!(videos_collected(&Some(p.clone())), -1);
    p.success = 0x8000_0000;
    assert_eq!(videos_collected(&Some(p.clone())), i32::MIN);
    p.success = 0x7fff_ffff;
    assert_eq!(videos_collected(&Some(p)), i32::MAX);
    let mut t = CycleTotals::new();
    t.record(Some(5));
    t.record(None);
    t.record(Some(-2));
    assert_eq!(t, CycleTotals { videos: 3, succeeded: 2, failed: 1 });
    assert_eq!(log_limit(None), 50);
    assert_eq!(log_limit(Some(7)), 7);
    assert_eq!(time_text(None, "从未运行"), "从未运行");
    assert_eq!(time_text(Some(1_700_000_000_123), "未设置"), "1700000000123");
    assert_eq!(time_text(Some(-5), "未设置"), "-5");
}

#[test]
fn removal_requests() {
    assert_eq!(requested_source("  线路A\t"), Some("线路A".to_string()));
    assert_eq!(requested_source(" \u{3000} "), None);
    assert_eq!(requested_source(""), None);
    assert_eq!(BatchDeleteSourceRequest { source_name: " x ".to_string() }.source(), Some("x".to_string()));
    let mut r: TaskRegistry<BatchDeleteProgress> = TaskRegistry::new();
    assert!(may_start(&r));
    report_uncounted("t0", "A", &mut r);
    assert_eq!(r.get("t0").unwrap().status, TaskStatus::Failed);
    assert_eq!(r.get("t0").unwrap().log, "无法获取视频总数");
    assert_eq!(r.entries[0].name, "批量删除播放源: A");
    assert!(may_start(&r));
    let mut running = BatchDeleteProgress::default();
    assert_eq!(running.status, TaskStatus::Unknown);
    assert_eq!(running.log, "未知状态");
    running.status = TaskStatus::Running;
    r.upsert("t1", running, "n".to_string());
    assert!(!may_start(&r));
    assert!(r.stop("t1").found);
    assert_eq!(r.get("t1").unwrap().log, "任务已手动停止");
    assert!(may_start(&r));
    assert_eq!(BatchDeleteProgress::not_found().status, TaskStatus::NotFound);
    assert_eq!(BatchDeleteProgress::not_found().log, "任务不存在");
}

#[test]
fn admin_requests() {
    assert_eq!(may_collect(0), Err("请先绑定分类".to_string()));
    assert_eq!(may_collect(3), Ok(()));
    let c = CollectRequest { hours: Some(24) };
    assert_eq!(c.hours_param(), Some("24".to_string()));
    assert_eq!(c.accepted(), "采集任务已启动 (24小时内)");
    let all = CollectRequest { hours: None };
    assert_eq!(all.hours_param(), None);
    assert_eq!(all.accepted(), "采集任务已启动 (全部数据)");
    let s = CollectStartRequest {
        collection_id: "c".to_string(),
        source_flag: "f".to_string(),
        api_url: "u".to_string(),
        collect_type: "all".to_string(),
        video_ids: None,
        hours: Some(6),
    };
    assert_eq!(s.hours_param(), Some("6".to_string()));
    assert_eq!(CollectCategoriesQuery { url: "http://x".to_string() }.address(), "http://x?ac=list");
    let q = CollectVideosQuery {
        url: "http://x".to_string(),
        page: Some(3),
        limit: None,
        type_id: None,
        wd: Some("a+b".to_string()),
    };
    assert_eq!(q.address(), "http://x?ac=detail&pg=3&wd=a%2Bb");
    assert_eq!(q.pages(21), Some(2));
    assert_eq!(ScheduledTaskLogsQuery { limit: None }.row_limit(), 50);
    assert_eq!(ScheduledTaskLogsQuery { limit: Some(3) }.row_limit(), 3);
    let req = ScheduledTaskConfigRequest { enabled: true, interval_hours: Some(2) };
    let mut config = ScheduledTaskConfig::initial(0);
    config.update(req.enabled, req.interval_hours, 0);
    assert_eq!(config.next_run, Some(7_200_000));
    let b = BindingRequest { source_flag: "s".to_string(), external_id: "7".to_string(), local_type_id: 3 };
    let made = b.to_binding(None, 9);
    assert_eq!(made.id, "s_7");
    assert_eq!(made.local_type_name, "Unknown Type");
    assert_eq!((made.created_at, made.updated_at, made.local_type_id), (9, 9, 3));
    assert_eq!(b.to_binding(Some("电影".to_string()), 9).local_type_name, "电影");
    let cr = CollectionRequest {
        collect_name: "n".to_string(),
        collect_url: "u".to_string(),
        collect_type: 1,
        collect_mid: 2,
        collect_appid: "a".to_string(),
        collect_appkey: "k".to_string(),
        collect_param: "p".to_string(),
        collect_filter: "f".to_string(),
        collect_filter_from: "ff".to_string(),
        collect_opt: 3,
        collect_sync_pic_opt: 1,
        collect_remove_ad: 1,
        collect_convert_webp: 1,
        collect_download_retry: 4,
        collect_status: 1,
    };
    let made = cr.to_collection(77);
    assert!(made.is_enabled() && made.syncs_pictures() && made.converts_pictures());
    assert_eq!(made.id, None);
    assert_eq!(made.collect_name, "n");
    assert_eq!(made.collect_filter_from, "ff");
    assert_eq!(made.collect_download_retry, 4);
    assert_eq!((made.created_at, made.updated_at), (77, 77));
}

#[test]
fn optional_number_from_text() {
    assert_eq!(deserialize_empty_string_to_none(&None), Ok(None));
    assert_eq!(deserialize_empty_string_to_none(&Some(String::new())), Ok(None));
    assert_eq!(deserialize_empty_string_to_none(&Some("12".to_string())), Ok(Some(12)));
    assert_eq!(deserialize_empty_string_to_none(&Some("-2147483648".to_string())), Ok(Some(i32::MIN)));
    assert_eq!(deserialize_empty_string_to_none(&Some("2147483648".to_string())), Err(FieldError::NotANumber));
    assert_eq!(deserialize_empty_string_to_none(&Some("x".to_string())), Err(FieldError::NotANumber));
}
