use vod_collector::collect::{check_response, detail_entry, record_progress};
use vod_collector::dto::JsonResponse;
use vod_collector::collect::{
    accept_task, binding_key, check_envelope, local_category, may_continue, picture_wanted,
    resolve_binding, settle, with_local_picture, BatchRun, PageDecision, PageOutcome, PageTally,
    RunPhase, PAGE_DELAY_MS,
};
use vod_collector::dto::{VideoListResponse, VodApiListEntry, VodId};
use vod_collector::merge::{new_video, refresh_video, WriteKind};
use vod_collector::models::{Binding, Collection};
use vod_collector::progress::{
    clock_text, poll_response, CollectProgress, TaskStatus,
};
use vod_collector::registry::{StopOutcome, TaskRegistry};
use vod_collector::remote::{CollectError, ErrorKind, ProbeStep};

fn blank_entry() -> VodApiListEntry {
    VodApiListEntry {
        vod_id: VodId::Number(1),
        vod_name: String::new(),
        type_id: 0,
        category_name: None,
        vod_time: String::new(),
        vod_remarks: String::new(),
        vod_play_from: String::new(),
        vod_status: None,
        vod_letter: None,
        vod_color: None,
        vod_tag: None,
        vod_class: None,
        vod_pic: None,
        vod_pic_thumb: None,
        vod_pic_slide: None,
        vod_pic_screenshot: None,
        vod_actor: None,
        vod_director: None,
        vod_writer: None,
        vod_behind: None,
        vod_blurb: None,
        vod_pubdate: None,
        vod_total: None,
        vod_serial: None,
        vod_tv: None,
        vod_weekday: None,
        vod_area: None,
        vod_lang: None,
        vod_year: None,
        vod_version: None,
        vod_state: None,
        vod_author: None,
        vod_jumpurl: None,
        vod_tpl: None,
        vod_tpl_play: None,
        vod_tpl_down: None,
        vod_isend: None,
        vod_lock: None,
        vod_level: None,
        vod_copyright: None,
        vod_points: None,
        vod_points_play: None,
        vod_points_down: None,
        vod_hits: None,
        vod_hits_day: None,
        vod_hits_week: None,
        vod_hits_month: None,
        vod_duration: None,
        vod_up: None,
        vod_down: None,
        vod_score: None,
        vod_score_all: None,
        vod_score_num: None,
        vod_time_add: None,
        vod_time_hits: None,
        vod_time_make: None,
        vod_trysee: None,
        vod_douban_id: None,
        vod_douban_score: None,
        vod_reurl: None,
        vod_rel_vod: None,
        vod_rel_art: None,
        vod_pwd: None,
        vod_pwd_url: None,
        vod_pwd_play: None,
        vod_pwd_play_url: None,
        vod_pwd_down: None,
        vod_pwd_down_url: None,
        vod_content: None,
        vod_play_server: None,
        vod_play_note: None,
        vod_play_url: None,
        vod_down_from: None,
        vod_down_server: None,
        vod_down_note: None,
        vod_down_url: None,
    }
}

fn entry(name: &str, year: Option<&str>, from: &str, url: Option<&str>) -> VodApiListEntry {
    let mut e = blank_entry();
    e.vod_name = name.to_string();
    e.vod_year = year.map(|y| y.to_string());
    e.vod_play_from = from.to_string();
    e.vod_play_url = url.map(|u| u.to_string());
    e.vod_remarks = "HD".to_string();
    e.type_id = 7;
    e
}

fn source(name: &str, url: &str) -> Collection {
    Collection {
        id: Some(1),
        collect_name: name.to_string(),
        collect_url: url.to_string(),
        collect_type: 1,
        collect_mid: 1,
        collect_appid: String::new(),
        collect_appkey: String::new(),
        collect_param: String::new(),
        collect_filter: String::new(),
        collect_filter_from: String::new(),
        collect_opt: 0,
        collect_sync_pic_opt: 1,
        collect_remove_ad: 0,
        collect_convert_webp: 0,
        collect_download_retry: 3,
        collect_status: 1,
        created_at: 0,
        updated_at: 0,
    }
}

fn listing(code: i32, total: u64, limit: u64) -> VideoListResponse {
    VideoListResponse {
        code,
        msg: String::new(),
        page: 1,
        pagecount: 0,
        limit,
        total,
        list: Vec::new(),
    }
}

fn progress(status: TaskStatus, log: &str) -> CollectProgress {
    CollectProgress {
        status,
        current_page: 0,
        total_pages: 1,
        success: 0,
        failed: 0,
        log: log.to_string(),
    }
}

#[test]
fn registry_upsert_get_and_order() {
    let mut r: TaskRegistry<CollectProgress> = TaskRegistry::new();
    assert_eq!(r.get("a"), None);
    r.upsert("a", progress(TaskStatus::Running, "one"), "src-a".to_string());
    r.upsert("b", progress(TaskStatus::Completed, "two"), "src-b".to_string());
    r.upsert("c", progress(TaskStatus::Running, "three"), "src-c".to_string());
    assert_eq!(r.get("a").unwrap().log, "one");
    assert_eq!(r.status("b"), Some(TaskStatus::Completed));
    assert_eq!(r.status("zz"), None);
    assert_eq!(r.position("b"), 1);
    assert_eq!(r.position("zz"), 3);
    r.upsert("a", progress(TaskStatus::Running, "again"), "renamed".to_string());
    assert_eq!(r.entries.len(), 3);
    assert_eq!(r.entries[0].name, "renamed");
    assert_eq!(r.get("a").unwrap().log, "again");
    let running: Vec<String> = r.list_running().into_iter().map(|e| e.task_id).collect();
    assert_eq!(running, vec!["a".to_string(), "c".to_string()]);
    assert_eq!(r.list_all().len(), 3);
}

#[test]
fn upsert_keeps_an_attached_handle() {
    let mut r: TaskRegistry<CollectProgress> = TaskRegistry::new();
    assert!(!r.attach_handle("a"));
    r.upsert("a", progress(TaskStatus::Running, "one"), "n".to_string());
    assert!(!r.entries[0].has_handle);
    assert!(r.attach_handle("a"));
    assert!(r.entries[0].has_handle);
    r.upsert("a", progress(TaskStatus::Running, "two"), "n".to_string());
    assert!(r.entries[0].has_handle);
}

#[test]
fn stop_marks_the_record_and_drops_the_handle() {
    let mut r: TaskRegistry<CollectProgress> = TaskRegistry::new();
    assert_eq!(r.stop("a"), StopOutcome { found: false, abort: false });
    let mut p = progress(TaskStatus::Running, "one");
    p.success = 4;
    p.current_page = 2;
    r.upsert("a", p, "n".to_string());
    r.upsert("b", progress(TaskStatus::Running, "other"), "m".to_string());
    r.attach_handle("a");
    assert_eq!(r.stop("a"), StopOutcome { found: true, abort: true });
    let stopped = r.get("a").unwrap();
    assert_eq!(stopped.status, TaskStatus::Stopped);
    assert_eq!(stopped.log, "任务已手动停止");
    assert_eq!(stopped.success, 4);
    assert_eq!(stopped.current_page, 2);
    assert!(!r.entries[0].has_handle);
    assert_eq!(r.get("b").unwrap().log, "other");
    assert_eq!(r.list_running().len(), 1);
    assert_eq!(r.stop("a"), StopOutcome { found: true, abort: false });
}

#[test]
fn status_is_read_back_from_its_word() {
    for s in [
        TaskStatus::Running,
        TaskStatus::Completed,
        TaskStatus::Failed,
        TaskStatus::Stopped,
        TaskStatus::NotFound,
        TaskStatus::Unknown,
    ] {
        assert_eq!(TaskStatus::from_text(s.as_str()), s);
    }
    assert_eq!(TaskStatus::from_text("Running"), TaskStatus::Unknown);
    assert_eq!(TaskStatus::from_text(""), TaskStatus::Unknown);
}

#[test]
fn page_of_a_listing_is_taken_in() {
    let table = vec![binding("s1", "7", 70)];
    let mut unbound = entry("b", None, "A", Some("u"));
    unbound.type_id = 8;
    let mut page = listing(1, 3, 20);
    page.list = vec![
        entry("a", None, "A", Some("1$u1")),
        unbound,
        entry("a", None, "B", Some("1$u2")),
        entry("c", Some("2020"), "A", None),
    ];
    let mut catalog = vod_collector::catalog::Catalog::new();
    let tally = catalog.collect_listing(&page, &table, "s1", 9).unwrap();
    assert_eq!(tally, PageTally { success: 3, failed: 1 });
    assert_eq!(catalog.len(), 2);
    assert_eq!(catalog.rows[0].vod_name, "a");
    assert_eq!(catalog.rows[0].type_id, 70);
    assert_eq!(catalog.rows[0].vod_play_urls.len(), 2);
    assert_eq!(catalog.rows[1].vod_name, "c");
    assert!(catalog.rows[1].vod_play_urls.is_empty());
    let before = catalog.rows.clone();
    page.code = 0;
    let err = catalog.collect_listing(&page, &table, "s1", 9).unwrap_err();
    assert_eq!(err.message, "API返回错误: 0");
    assert_eq!(catalog.rows, before);
    page.code = 1;
    let tally = catalog.collect_listing(&page, &table, "other", 9).unwrap();
    assert_eq!(tally, PageTally { success: 0, failed: 4 });
    assert_eq!(catalog.rows, before);
}

#[test]
fn status_texts() {
    assert_eq!(TaskStatus::Running.as_str(), "running");
    assert_eq!(TaskStatus::Completed.as_str(), "completed");
    assert_eq!(TaskStatus::Failed.as_str(), "failed");
    assert_eq!(TaskStatus::Stopped.as_str(), "stopped");
    assert_eq!(TaskStatus::NotFound.as_str(), "not_found");
    assert_eq!(TaskStatus::Unknown.as_str(), "unknown");
}

#[test]
fn default_and_missing_records() {
    let d = CollectProgress::default();
    assert_eq!(d.status, TaskStatus::Unknown);
    assert_eq!(d.log, "未知状态");
    assert_eq!((d.current_page, d.total_pages, d.success, d.failed), (0, 0, 0, 0));
    let missing = poll_response(None);
    assert!(!missing.success);
    assert_eq!(missing.progress.status, TaskStatus::NotFound);
    assert_eq!(missing.progress.log, "任务不存在");
    let found = poll_response(Some(progress(TaskStatus::Running, "x")));
    assert!(found.success);
    assert_eq!(found.progress.log, "x");
}

#[test]
fn clock_is_padded() {
    assert_eq!(clock_text(7, 5, 0), "07:05:00");
    assert_eq!(clock_text(23, 59, 10), "23:59:10");
}

#[test]
fn probe_that_always_fails_asks_three_times_and_fails_the_run() {
    let mut r: TaskRegistry<CollectProgress> = TaskRegistry::new();
    let mut run = BatchRun::start(&source("s", "http://x/api"), &None, "t".to_string(), &mut r);
    assert_eq!(run.probe_url(), "http://x/api?ac=detail&pg=1");
    assert_eq!(r.get("t").unwrap().log, "正在获取总页数...");
    assert_eq!(r.get("t").unwrap().total_pages, 1);
    let reply = Err(CollectError::timeout());
    let mut waits = Vec::new();
    let mut attempts = 0;
    let cause = loop {
        attempts += 1;
        match run.on_probe_reply(&reply, &mut r) {
            ProbeStep::Retry { wait_seconds } => waits.push(wait_seconds),
            ProbeStep::GiveUp(cause) => break cause,
            ProbeStep::Done(_) => panic!("a failed probe gave a page count"),
        }
    };
    assert_eq!(attempts, 3);
    assert_eq!(waits, vec![1, 2]);
    assert_eq!(cause.kind, ErrorKind::Timeout);
    assert_eq!(cause.message, "获取总页数失败: 获取总页数失败: 请求超时");
    assert_eq!(run.phase, RunPhase::Failed);
    assert!(!run.ended_well());
    let shown = r.get("t").unwrap();
    assert_eq!(shown.status, TaskStatus::Failed);
    assert_eq!(shown.log, "采集失败: 获取总页数失败: 获取总页数失败: 请求超时");
    assert_eq!((shown.success, shown.failed, shown.current_page), (0, 0, 0));
    assert_eq!(run.begin_page(&mut r), PageDecision::Finished);
    assert_eq!(run.pages_done, 0);
}

#[test]
fn probe_reads_bad_code_and_bad_body() {
    let mut r: TaskRegistry<CollectProgress> = TaskRegistry::new();
    let mut run = BatchRun::start(&source("s", "http://x/api"), &None, "t".to_string(), &mut r);
    run.attempt = 3;
    match run.on_probe_reply(&Ok(listing(0, 10, 5)), &mut r) {
        ProbeStep::GiveUp(cause) => {
            assert_eq!(cause.kind, ErrorKind::ApiProtocol);
            assert_eq!(cause.message, "获取总页数失败: API返回错误: 0");
        }
        other => panic!("{other:?}"),
    }
    let mut run = BatchRun::start(&source("s", "http://x/api"), &None, "u".to_string(), &mut r);
    run.attempt = 3;
    match run.on_probe_reply(&Err(CollectError::undecodable("EOF")), &mut r) {
        ProbeStep::GiveUp(cause) => {
            assert_eq!(cause.message, "获取总页数失败: 解析API响应失败: EOF");
        }
        other => panic!("{other:?}"),
    }
}

#[test]
fn probe_succeeds_on_a_later_attempt() {
    let mut r: TaskRegistry<CollectProgress> = TaskRegistry::new();
    let mut run =
        BatchRun::start(&source("s", "http://x/api?"), &Some("24".to_string()), "t".to_string(), &mut r);
    assert_eq!(run.api_url, "http://x/api?ac=detail&h=24");
    assert_eq!(
        run.on_probe_reply(&Err(CollectError::network("reset")), &mut r),
        ProbeStep::Retry { wait_seconds: 1 }
    );
    assert_eq!(r.get("t").unwrap().log, "正在获取总页数...");
    assert_eq!(run.on_probe_reply(&Ok(listing(1, 41, 20)), &mut r), ProbeStep::Done(3));
    assert_eq!(run.phase, RunPhase::Paging);
    let shown = r.get("t").unwrap();
    assert_eq!(shown.total_pages, 3);
    assert_eq!(shown.log, "开始采集，总页数: 3");
    assert_eq!(shown.status, TaskStatus::Running);
}

fn paging_run(r: &mut TaskRegistry<CollectProgress>, pages: u64) -> BatchRun {
    let mut run = BatchRun::start(&source("s", "http://x/api"), &None, "t".to_string(), r);
    assert_eq!(run.on_probe_reply(&Ok(listing(1, pages * 10, 10)), r), ProbeStep::Done(pages as u32));
    run
}

#[test]
fn pages_are_collected_in_order_and_counted() {
    let mut r: TaskRegistry<CollectProgress> = TaskRegistry::new();
    let mut run = paging_run(&mut r, 3);
    assert_eq!(
        run.begin_page(&mut r),
        PageDecision::Fetch { page: 1, url: "http://x/api?ac=detail&pg=1".to_string() }
    );
    assert_eq!(r.get("t").unwrap().log, "正在采集第 1/3 页");
    assert_eq!(r.get("t").unwrap().current_page, 1);
    let wait = run.page_done(&PageOutcome::Collected { success: 18, failed: 2 }, &mut r);
    assert_eq!(wait, PAGE_DELAY_MS);
    assert_eq!(wait, 500);
    assert_eq!(r.get("t").unwrap().log, "本页采集完成，成功: 18，失败: 2");
    assert_eq!(
        run.begin_page(&mut r),
        PageDecision::Fetch { page: 2, url: "http://x/api?ac=detail&pg=2".to_string() }
    );
    let wait = run.page_done(&PageOutcome::Failed(CollectError::timeout()), &mut r);
    assert_eq!(wait, 0);
    let shown = r.get("t").unwrap();
    assert_eq!(shown.log, "第 2 页采集失败: 请求超时");
    assert_eq!((shown.success, shown.failed), (18, 3));
    assert_eq!(
        run.begin_page(&mut r),
        PageDecision::Fetch { page: 3, url: "http://x/api?ac=detail&pg=3".to_string() }
    );
    run.page_done(&PageOutcome::Collected { success: 5, failed: 0 }, &mut r);
    assert_eq!(run.begin_page(&mut r), PageDecision::Finished);
    assert_eq!(run.phase, RunPhase::Completed);
    assert!(run.ended_well());
    let shown = r.get("t").unwrap();
    assert_eq!(shown.status, TaskStatus::Completed);
    assert_eq!(shown.log, "采集完成，成功: 23，失败: 3");
    assert_eq!((shown.success, shown.failed, shown.current_page, shown.total_pages), (23, 3, 3, 3));
    assert_eq!(run.begin_page(&mut r), PageDecision::Finished);
}

#[test]
fn stop_ends_the_run_before_the_next_page() {
    let mut r: TaskRegistry<CollectProgress> = TaskRegistry::new();
    let mut run = paging_run(&mut r, 5);
    assert!(matches!(run.begin_page(&mut r), PageDecision::Fetch { page: 1, .. }));
    run.page_done(&PageOutcome::Collected { success: 1, failed: 0 }, &mut r);
    assert!(r.stop("t").found);
    let before = r.get("t").unwrap();
    assert_eq!(run.begin_page(&mut r), PageDecision::Halt);
    assert_eq!(run.phase, RunPhase::Stopped);
    assert!(run.ended_well());
    assert_eq!(run.pages_done, 1);
    assert_eq!(r.get("t").unwrap(), before);
    assert_eq!(before.status, TaskStatus::Stopped);
    r.upsert("t", CollectProgress::default(), "s".to_string());
    assert_eq!(run.begin_page(&mut r), PageDecision::Halt);
    assert_eq!(run.pages_done, 1);
}

#[test]
fn stop_during_the_probe_is_not_lost() {
    let mut r: TaskRegistry<CollectProgress> = TaskRegistry::new();
    let mut run = BatchRun::start(&source("s", "http://x/api"), &None, "t".to_string(), &mut r);
    assert!(r.stop("t").found);
    let stopped = r.get("t").unwrap();
    assert_eq!(run.on_probe_reply(&Ok(listing(1, 100, 10)), &mut r), ProbeStep::Done(10));
    assert_eq!(r.get("t").unwrap(), stopped);
    assert_eq!(run.begin_page(&mut r), PageDecision::Halt);
    assert_eq!(run.pages_done, 0);
    assert!(run.ended_well());
    assert_eq!(r.get("t").unwrap(), stopped);
}

#[test]
fn stop_during_a_page_is_not_lost() {
    let mut r: TaskRegistry<CollectProgress> = TaskRegistry::new();
    let mut run = paging_run(&mut r, 3);
    assert!(matches!(run.begin_page(&mut r), PageDecision::Fetch { page: 1, .. }));
    assert!(r.stop("t").found);
    let stopped = r.get("t").unwrap();
    run.page_done(&PageOutcome::Collected { success: 20, failed: 0 }, &mut r);
    assert_eq!(r.get("t").unwrap(), stopped);
    assert_eq!(run.begin_page(&mut r), PageDecision::Halt);
    assert_eq!(r.get("t").unwrap().status, TaskStatus::Stopped);
}

#[test]
fn stop_after_the_last_page_stays_the_last_word() {
    let mut r: TaskRegistry<CollectProgress> = TaskRegistry::new();
    let mut run = paging_run(&mut r, 1);
    run.begin_page(&mut r);
    run.page_done(&PageOutcome::Collected { success: 1, failed: 0 }, &mut r);
    r.stop("t");
    assert_eq!(run.begin_page(&mut r), PageDecision::Halt);
    settle(&mut r, "t", "s".to_string(), &Ok(()));
    assert_eq!(r.get("t").unwrap().status, TaskStatus::Stopped);
    assert_eq!(r.get("t").unwrap().log, "任务已手动停止");
    record_progress(&mut r, "t", CollectProgress::default(), "s".to_string());
    assert_eq!(r.get("t").unwrap().status, TaskStatus::Stopped);
    record_progress(&mut r, "fresh", CollectProgress::default(), "s".to_string());
    assert_eq!(r.get("fresh").unwrap().status, TaskStatus::Unknown);
}

#[test]
fn listing_without_a_limit_has_no_page_count() {
    let mut r: TaskRegistry<CollectProgress> = TaskRegistry::new();
    let mut run = BatchRun::start(&source("s", "http://x/api"), &None, "t".to_string(), &mut r);
    assert_eq!(
        run.on_probe_reply(&Ok(listing(1, 7, 0)), &mut r),
        ProbeStep::Retry { wait_seconds: 1 }
    );
    run.attempt = 3;
    match run.on_probe_reply(&Ok(listing(1, 7, 0)), &mut r) {
        ProbeStep::GiveUp(cause) => {
            assert_eq!(cause.kind, ErrorKind::ApiProtocol);
            assert_eq!(cause.message, "获取总页数失败: API返回错误: total 7, limit 0");
        }
        other => panic!("{other:?}"),
    }
    assert_eq!(r.get("t").unwrap().status, TaskStatus::Failed);
}

#[test]
fn answers_are_read_by_their_code() {
    let mut answer: JsonResponse<VodApiListEntry> = JsonResponse {
        code: 1,
        msg: String::new(),
        page: 1,
        pagecount: 1,
        limit: 20,
        total: 1,
        list: Vec::new(),
        categories: Vec::new(),
    };
    assert_eq!(check_response(&answer), Ok(()));
    let err = detail_entry(&answer).unwrap_err();
    assert_eq!(err.kind, ErrorKind::ApiProtocol);
    assert_eq!(err.message, "获取视频详情失败");
    answer.list = vec![entry("first", None, "A", None), entry("second", None, "A", None)];
    assert_eq!(detail_entry(&answer).unwrap().vod_name, "first");
    answer.code = 2;
    assert_eq!(detail_entry(&answer).unwrap_err().message, "获取视频详情失败");
    assert_eq!(check_response(&answer).unwrap_err().message, "API返回错误: 2");
}

#[test]
fn interrupted_page_adds_nothing() {
    let mut r: TaskRegistry<CollectProgress> = TaskRegistry::new();
    let mut run = paging_run(&mut r, 2);
    run.begin_page(&mut r);
    r.stop("t");
    let shown = r.get("t").unwrap();
    assert_eq!(run.page_done(&PageOutcome::Interrupted, &mut r), 500);
    assert_eq!(r.get("t").unwrap(), shown);
    assert_eq!(run.begin_page(&mut r), PageDecision::Halt);
}

#[test]
fn listing_without_pages_completes_at_once() {
    let mut r: TaskRegistry<CollectProgress> = TaskRegistry::new();
    let mut run = paging_run(&mut r, 0);
    assert_eq!(run.begin_page(&mut r), PageDecision::Finished);
    assert_eq!(r.get("t").unwrap().log, "采集完成，成功: 0，失败: 0");
}

#[test]
fn task_is_accepted_and_settled() {
    let mut r: TaskRegistry<CollectProgress> = TaskRegistry::new();
    accept_task(&mut r, "t", "s".to_string());
    assert_eq!(r.get("t").unwrap().log, "正在启动采集任务...");
    assert_eq!(r.get("t").unwrap().status, TaskStatus::Running);
    let mut p = r.get("t").unwrap();
    p.success = 9;
    p.failed = 1;
    r.upsert("t", p, "s".to_string());
    settle(&mut r, "t", "s".to_string(), &Ok(()));
    assert_eq!(r.get("t").unwrap().status, TaskStatus::Completed);
    assert_eq!(r.get("t").unwrap().log, "采集完成，成功: 9，失败: 1");
    settle(&mut r, "u", "s".to_string(), &Err(CollectError::storage("写入失败")));
    assert_eq!(r.get("u").unwrap().status, TaskStatus::Failed);
    assert_eq!(r.get("u").unwrap().log, "采集失败: 写入失败");
    assert_eq!(r.get("u").unwrap().total_pages, 0);
}

#[test]
fn envelope_code_must_be_one() {
    assert_eq!(check_envelope(&listing(1, 0, 0)), Ok(()));
    let err = check_envelope(&listing(-3, 0, 0)).unwrap_err();
    assert_eq!(err.kind, ErrorKind::ApiProtocol);
    assert_eq!(err.message, "API返回错误: -3");
}

#[test]
fn items_stop_when_the_task_is_stopped() {
    assert!(may_continue(None));
    assert!(may_continue(Some(TaskStatus::Running)));
    assert!(may_continue(Some(TaskStatus::Completed)));
    assert!(!may_continue(Some(TaskStatus::Stopped)));
}

#[test]
fn tally_counts_each_video() {
    let mut t = PageTally::new();
    t.record(true);
    t.record(false);
    t.record(true);
    assert_eq!(t, PageTally { success: 2, failed: 1 });
    assert_eq!(t.outcome(), PageOutcome::Collected { success: 2, failed: 1 });
}

fn binding(flag: &str, external: &str, local: i32) -> Binding {
    Binding {
        id: format!("{flag}_{external}"),
        source_flag: flag.to_string(),
        external_id: external.to_string(),
        local_type_id: local,
        local_type_name: String::new(),
        created_at: 0,
        updated_at: 0,
    }
}

#[test]
fn binding_is_looked_up_by_source_and_category() {
    let table = vec![binding("s1", "7", 70), binding("s2", "7", 71), binding("s1", "-8", 80)];
    assert_eq!(binding_key(7), "7");
    assert_eq!(binding_key(-8), "-8");
    assert_eq!(resolve_binding(&table, "s1", 7), Ok(70));
    assert_eq!(resolve_binding(&table, "s2", 7), Ok(71));
    assert_eq!(resolve_binding(&table, "s1", -8), Ok(80));
    let err = resolve_binding(&table, "s3", 7).unwrap_err();
    assert_eq!(err.kind, ErrorKind::BindingNotFound);
    assert_eq!(err.message, "未找到分类绑定");
    assert!(resolve_binding(&table, "s1", 8).is_err());
    assert_eq!(local_category(&Some(binding("s", "1", 5))), Ok(5));
    assert_eq!(local_category(&None).unwrap_err().kind, ErrorKind::BindingNotFound);
}

#[test]
fn picture_is_fetched_for_new_rows_of_syncing_sources() {
    let mut e = entry("t", None, "A", Some("u"));
    e.vod_pic = Some("http://img/p.jpg".to_string());
    let mut s = source("s", "http://x");
    assert_eq!(picture_wanted(&s, WriteKind::Insert, &e), Some("http://img/p.jpg".to_string()));
    assert_eq!(picture_wanted(&s, WriteKind::Replace, &e), None);
    s.collect_sync_pic_opt = 0;
    assert_eq!(picture_wanted(&s, WriteKind::Insert, &e), None);
    s.collect_sync_pic_opt = 1;
    e.vod_pic = None;
    assert_eq!(picture_wanted(&s, WriteKind::Insert, &e), None);
}

#[test]
fn failed_picture_keeps_the_remote_address() {
    let mut e = entry("t", None, "A", Some("u"));
    e.vod_pic = Some("http://img/p.jpg".to_string());
    let row = new_video(&e, 1, 0);
    let kept = with_local_picture(row.clone(), &Err(CollectError::timeout()));
    assert_eq!(kept, row);
    let local = with_local_picture(row.clone(), &Ok("/static/images/a.jpg".to_string()));
    assert_eq!(local.vod_pic, Some("/static/images/a.jpg".to_string()));
    assert_eq!(local.vod_name, row.vod_name);
    assert_eq!(local.vod_play_urls, row.vod_play_urls);
}

#[test]
fn details_overwrite_what_they_carry() {
    let mut old = new_video(&entry("old", Some("2001"), "B", Some("b$ub")), 3, 100);
    old.id = Some(5);
    old.vod_status = 0;
    old.vod_actor = Some("kept".to_string());
    old.vod_hits = Some(12);
    let mut e = entry("new", None, "A", Some("a$ua"));
    e.vod_area = Some("大陆".to_string());
    e.vod_remarks = "完结".to_string();
    let (v, kind) = refresh_video(Some(old.clone()), &e, 9, 200);
    assert_eq!(kind, WriteKind::Replace);
    assert_eq!(v.id, Some(5));
    assert_eq!(v.vod_name, "new");
    assert_eq!(v.type_id, 9);
    assert_eq!(v.vod_status, 1);
    assert_eq!(v.vod_actor, Some("kept".to_string()));
    assert_eq!(v.vod_area, Some("大陆".to_string()));
    assert_eq!(v.vod_year, Some("2001".to_string()));
    assert_eq!(v.vod_remarks, Some("完结".to_string()));
    assert_eq!(v.vod_pubdate, 100);
    assert_eq!(v.vod_hits, Some(12));
    assert_eq!(v.vod_play_urls.len(), 2);
    assert_eq!(v.vod_play_urls[0], old.vod_play_urls[0]);
    assert_eq!(v.vod_play_urls[0].source_name, "B");
    assert_eq!(v.vod_play_urls[1].source_name, "A");
    let mut again = entry("new", None, "B", Some("b2$ub2"));
    again.vod_remarks = "完结".to_string();
    let (w, _) = refresh_video(Some(v.clone()), &again, 9, 300);
    assert_eq!(w.vod_play_urls.len(), 2);
    assert_eq!(w.vod_play_urls[0].urls[0].url, "ub2");
    assert_eq!(w.vod_play_urls[1], v.vod_play_urls[1]);
    e.vod_pubdate = Some("2024-01-01".to_string());
    e.vod_play_from = String::new();
    let (v, _) = refresh_video(Some(old.clone()), &e, 9, 200);
    assert_eq!(v.vod_pubdate, 200);
    assert_eq!(v.vod_play_urls, old.vod_play_urls);
    let (v, kind) = refresh_video(None, &e, 9, 200);
    assert_eq!(kind, WriteKind::Insert);
    assert_eq!(v, new_video(&e, 9, 200));
}
