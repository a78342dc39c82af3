use vod_collector::batch_delete::{without_source, BatchDeleteRun, BATCH_SIZE};
use vod_collector::catalog::Catalog;
use vod_collector::dto::{VodApiListEntry, VodId};
use vod_collector::merge::{find_source, merge_play_sources, merge_video, new_video, WriteKind};
use vod_collector::models::{PlaySource, PlayUrl, Vod};
use vod_collector::progress::{BatchDeleteProgress, TaskStatus};
use vod_collector::registry::TaskRegistry;

fn blank_entry() -> VodApiListEntry {
    VodApiListEntry {
        vod_id: VodId::Number(1),
        vod_name: String::new(),
        type_id: 0,
        category_name: None,
        vod_time: String::new(),
        vod_remarks: String::new(),
        vod_play_from: String::new(),
        vod_status: None,
        vod_letter: None,
        vod_color: None,
        vod_tag: None,
        vod_class: None,
        vod_pic: None,
        vod_pic_thumb: None,
        vod_pic_slide: None,
        vod_pic_screenshot: None,
        vod_actor: None,
        vod_director: None,
        vod_writer: None,
        vod_behind: None,
        vod_blurb: None,
        vod_pubdate: None,
        vod_total: None,
        vod_serial: None,
        vod_tv: None,
        vod_weekday: None,
        vod_area: None,
        vod_lang: None,
        vod_year: None,
        vod_version: None,
        vod_state: None,
        vod_author: None,
        vod_jumpurl: None,
        vod_tpl: None,
        vod_tpl_play: None,
        vod_tpl_down: None,
        vod_isend: None,
        vod_lock: None,
        vod_level: None,
        vod_copyright: None,
        vod_points: None,
        vod_points_play: None,
        vod_points_down: None,
        vod_hits: None,
        vod_hits_day: None,
        vod_hits_week: None,
        vod_hits_month: None,
        vod_duration: None,
        vod_up: None,
        vod_down: None,
        vod_score: None,
        vod_score_all: None,
        vod_score_num: None,
        vod_time_add: None,
        vod_time_hits: None,
        vod_time_make: None,
        vod_trysee: None,
        vod_douban_id: None,
        vod_douban_score: None,
        vod_reurl: None,
        vod_rel_vod: None,
        vod_rel_art: None,
        vod_pwd: None,
        vod_pwd_url: None,
        vod_pwd_play: None,
        vod_pwd_play_url: None,
        vod_pwd_down: None,
        vod_pwd_down_url: None,
        vod_content: None,
        vod_play_server: None,
        vod_play_note: None,
        vod_play_url: None,
        vod_down_from: None,
        vod_down_server: None,
        vod_down_note: None,
        vod_down_url: None,
    }
}

fn entry(name: &str, year: Option<&str>, from: &str, url: Option<&str>) -> VodApiListEntry {
    let mut e = blank_entry();
    e.vod_name = name.to_string();
    e.vod_year = year.map(|y| y.to_string());
    e.vod_play_from = from.to_string();
    e.vod_play_url = url.map(|u| u.to_string());
    e.vod_remarks = "HD".to_string();
    e.type_id = 7;
    e
}

fn ep(name: &str, url: &str) -> PlayUrl {
    PlayUrl { name: name.to_string(), url: url.to_string() }
}

fn src(name: &str, urls: Vec<PlayUrl>) -> PlaySource {
    PlaySource { source_name: name.to_string(), urls }
}

fn row(id: u128, name: &str, sources: Vec<PlaySource>) -> Vod {
    let mut v = new_video(&entry(name, None, "", None), 1, 0);
    v.id = Some(id);
    v.vod_play_urls = sources;
    v
}

#[test]
fn new_title_becomes_a_new_row() {
    let mut e = entry("流浪地球", Some("2019"), "A,B", Some("正片$http://x/1"));
    e.vod_status = None;
    e.vod_pic = Some("http://img/1.jpg".to_string());
    e.vod_actor = Some("吴京".to_string());
    let (v, kind) = merge_video(None, &e, 12, 1_700_000_000_000);
    assert_eq!(kind, WriteKind::Insert);
    assert_eq!(v.id, None);
    assert_eq!(v.vod_name, "流浪地球");
    assert_eq!(v.type_id, 12);
    assert_eq!(v.vod_status, 1);
    assert_eq!(v.vod_pic, Some("http://img/1.jpg".to_string()));
    assert_eq!(v.vod_actor, Some("吴京".to_string()));
    assert_eq!(v.vod_remarks, Some("HD".to_string()));
    assert_eq!(v.vod_pubdate, 1_700_000_000_000);
    assert_eq!(v.vod_year, Some("2019".to_string()));
    assert_eq!(v.vod_hits, Some(0));
    assert_eq!(v.vod_hits_day, Some(0));
    assert_eq!(v.vod_hits_week, Some(0));
    assert_eq!(v.vod_hits_month, Some(0));
    assert_eq!(v.vod_score, Some(["0", "0"].join(".")));
    let eps = vec![ep("正片", "http://x/1")];
    assert_eq!(v.vod_play_urls, vec![src("A", eps.clone()), src("B", eps)]);
}

#[test]
fn listed_status_is_kept() {
    let mut e = entry("t", None, "A", Some("u"));
    e.vod_status = Some(0);
    assert_eq!(new_video(&e, 1, 5).vod_status, 0);
}

#[test]
fn replace_is_scoped_to_the_source() {
    let mut existing = vec![src("A", vec![ep("1", "old")]), src("B", vec![ep("1", "b")])];
    let incoming = vec![src("A", vec![ep("1", "new"), ep("2", "new2")])];
    let updated = merge_play_sources(&mut existing, &incoming);
    assert!(updated);
    assert_eq!(
        existing,
        vec![src("A", vec![ep("1", "new"), ep("2", "new2")]), src("B", vec![ep("1", "b")])]
    );
}

#[test]
fn unknown_source_is_appended() {
    let mut existing = vec![src("A", vec![ep("1", "a")])];
    let updated = merge_play_sources(&mut existing, &vec![src("C", vec![ep("1", "c")])]);
    assert!(updated);
    assert_eq!(existing, vec![src("A", vec![ep("1", "a")]), src("C", vec![ep("1", "c")])]);
}

#[test]
fn merging_nothing_changes_nothing() {
    let mut existing = vec![src("A", vec![ep("1", "a")])];
    assert!(!merge_play_sources(&mut existing, &Vec::new()));
    assert_eq!(existing, vec![src("A", vec![ep("1", "a")])]);
}

#[test]
fn merging_twice_is_merging_once() {
    let mut once = vec![src("B", vec![ep("1", "b")]), src("A", vec![ep("0", "x")])];
    let incoming = vec![src("A", vec![ep("1", "a")]), src("C", vec![ep("1", "c")])];
    merge_play_sources(&mut once, &incoming);
    let mut twice = once.clone();
    merge_play_sources(&mut twice, &incoming);
    assert_eq!(once, twice);
}

#[test]
fn find_source_gives_first_position_or_length() {
    let list = vec![src("A", vec![]), src("B", vec![]), src("A", vec![])];
    assert_eq!(find_source(&list, &"A".to_string()), 0);
    assert_eq!(find_source(&list, &"B".to_string()), 1);
    assert_eq!(find_source(&list, &"Z".to_string()), 3);
}

#[test]
fn known_title_keeps_its_metadata() {
    let mut old = new_video(&entry("t", Some("2020"), "B", Some("b$ub")), 3, 100);
    old.id = Some(77);
    old.vod_actor = Some("kept".to_string());
    let mut e = entry("t", Some("2020"), "A", Some("a$ua"));
    e.vod_actor = Some("ignored".to_string());
    e.vod_remarks = "更新至2集".to_string();
    let (v, kind) = merge_video(Some(old.clone()), &e, 99, 200);
    assert_eq!(kind, WriteKind::Replace);
    assert_eq!(v.id, Some(77));
    assert_eq!(v.type_id, 3);
    assert_eq!(v.vod_actor, Some("kept".to_string()));
    assert_eq!(v.vod_remarks, Some("更新至2集".to_string()));
    assert_eq!(v.vod_pubdate, 200);
    assert_eq!(v.vod_play_urls, vec![src("B", vec![ep("b", "ub")]), src("A", vec![ep("a", "ua")])]);
}

#[test]
fn listing_without_payload_leaves_the_row() {
    let old = new_video(&entry("t", None, "B", Some("b$ub")), 3, 100);
    let e = entry("t", None, "A", None);
    let (v, kind) = merge_video(Some(old.clone()), &e, 3, 200);
    assert_eq!(kind, WriteKind::Unchanged);
    assert_eq!(v, old);
}

#[test]
fn same_video_twice_is_one_row() {
    let mut catalog = Catalog::new();
    let e = entry("三体", Some("2023"), "A,B", Some("1$u1#2$u2"));
    assert_eq!(catalog.ingest(&e, 5, 1000), WriteKind::Insert);
    let once = catalog.rows.clone();
    assert_eq!(catalog.ingest(&e, 5, 1000), WriteKind::Replace);
    assert_eq!(catalog.len(), 1);
    assert_eq!(catalog.rows, once);
    assert_eq!(catalog.ingest(&e, 5, 2000), WriteKind::Replace);
    assert_eq!(catalog.len(), 1);
    assert_eq!(catalog.rows[0].vod_play_urls, once[0].vod_play_urls);
    assert_eq!(catalog.rows[0].vod_pubdate, 2000);
}

#[test]
fn new_row_holds_one_source_of_each_name() {
    let mut catalog = Catalog::new();
    let e = entry("t", None, "A, B ,A", Some("1$u1"));
    catalog.ingest(&e, 5, 1000);
    assert_eq!(
        catalog.rows[0].vod_play_urls,
        vec![src("A", vec![ep("1", "u1")]), src("B", vec![ep("1", "u1")])]
    );
    let once = catalog.rows.clone();
    catalog.ingest(&e, 5, 1000);
    assert_eq!(catalog.rows, once);
    let (row, _) = merge_video(None, &entry("x", None, "A,A", Some("x")), 1, 0);
    assert_eq!(row.vod_play_urls, vec![src("A", vec![ep("", "x")])]);
}

#[test]
fn payload_without_episode_replaces_and_appends_too() {
    let mut catalog = Catalog::new();
    catalog.ingest(&entry("t", None, "A,B", Some("1$old")), 5, 1);
    assert_eq!(catalog.ingest(&entry("t", None, "A", Some("#")), 5, 2), WriteKind::Replace);
    assert_eq!(
        catalog.rows[0].vod_play_urls,
        vec![src("A", vec![]), src("B", vec![ep("1", "old")])]
    );
    assert_eq!(catalog.ingest(&entry("t", None, "C", Some("#")), 5, 3), WriteKind::Replace);
    assert_eq!(
        catalog.rows[0].vod_play_urls,
        vec![src("A", vec![]), src("B", vec![ep("1", "old")]), src("C", vec![])]
    );
    assert_eq!(catalog.rows[0].vod_pubdate, 3);
}

#[test]
fn year_narrows_the_match() {
    let mut catalog = Catalog::new();
    catalog.ingest(&entry("t", Some("2001"), "A", Some("u")), 5, 1);
    assert_eq!(catalog.ingest(&entry("t", Some("2002"), "A", Some("u")), 5, 2), WriteKind::Insert);
    assert_eq!(catalog.len(), 2);
    assert_eq!(catalog.ingest(&entry("t", None, "B", Some("u")), 5, 3), WriteKind::Replace);
    assert_eq!(catalog.len(), 2);
    assert_eq!(catalog.rows[0].vod_play_urls.len(), 2);
    assert_eq!(catalog.rows[1].vod_play_urls.len(), 1);
    assert_eq!(catalog.find_match(&"t".to_string(), &Some("2002".to_string())), Some(1));
    assert_eq!(catalog.find_match(&"t".to_string(), &Some("2003".to_string())), None);
    assert_eq!(catalog.find_match(&"u".to_string(), &None), None);
}

#[test]
fn source_of_another_name_survives_an_ingest() {
    let mut catalog = Catalog::new();
    catalog.ingest(&entry("t", None, "A,B", Some("1$old")), 5, 1);
    catalog.ingest(&entry("t", None, "A", Some("1$new")), 5, 2);
    assert_eq!(
        catalog.rows[0].vod_play_urls,
        vec![src("A", vec![ep("1", "new")]), src("B", vec![ep("1", "old")])]
    );
}

#[test]
fn without_source_filters_by_name() {
    let list = vec![src("A", vec![]), src("B", vec![ep("1", "b")]), src("A", vec![])];
    let (kept, removed) = without_source(&list, "A");
    assert_eq!(kept, vec![src("B", vec![ep("1", "b")])]);
    assert_eq!(removed, 2);
    let (kept, removed) = without_source(&list, "Z");
    assert_eq!(kept, list);
    assert_eq!(removed, 0);
}

fn scan(catalog: &mut Catalog, source: &str, batch: usize) -> (Vec<u128>, u64, u64, usize) {
    let mut registry: TaskRegistry<BatchDeleteProgress> = TaskRegistry::new();
    let total = catalog.len() as u64;
    let mut run =
        BatchDeleteRun::begin("task".to_string(), source.to_string(), total, &mut registry);
    let mut visited = Vec::new();
    let mut queries = 0;
    while !run.done {
        let mut page = catalog.page_after(run.last_id, batch);
        queries += 1;
        assert!(queries < 10_000);
        if !run.begin_page(&page, &mut registry) {
            break;
        }
        for r in page.iter_mut() {
            visited.push(r.id.unwrap());
            if run.absorb_row(r, &mut registry) {
                assert!(catalog.write_back(r.clone()));
            }
        }
        run.end_page(page.len(), batch, &mut registry);
    }
    let p = registry.get("task").unwrap();
    assert_eq!(p.status, TaskStatus::Completed);
    assert_eq!(p.processed_count, total);
    assert_eq!(p.total_count, total);
    assert_eq!(p.deleted_count, run.deleted_count);
    (visited, run.processed_count, run.deleted_count, queries)
}

#[test]
fn keyset_scan_visits_every_row_once() {
    for n in [0u128, 1, 2, 5, 6, 7, 12] {
        for batch in [1usize, 2, 3, 5, 6, 7, 100] {
            let mut catalog = Catalog::new();
            for i in 0..n {
                let mut sources = vec![src("keep", vec![ep("1", "k")])];
                if i % 2 == 0 {
                    sources.push(src("gone", vec![ep("1", "g")]));
                }
                catalog.rows.push(row(10 + 3 * i, "t", sources));
            }
            let (visited, processed, deleted, queries) = scan(&mut catalog, "gone", batch);
            let want: Vec<u128> = (0..n).map(|i| 10 + 3 * i).collect();
            assert_eq!(visited, want, "n={n} batch={batch}");
            assert_eq!(processed, n as u64);
            assert_eq!(deleted, ((n + 1) / 2) as u64);
            assert_eq!(queries, n as usize / batch + 1);
            for r in catalog.rows.iter() {
                assert_eq!(r.vod_play_urls, vec![src("keep", vec![ep("1", "k")])]);
            }
        }
    }
}

#[test]
fn whole_catalog_removal_strips_every_row() {
    for n in [0u128, 1, 4, 5, 9] {
        for batch in [1usize, 2, 4, 5, 2000] {
            let mut catalog = Catalog::new();
            for i in 0..n {
                let mut sources = vec![src("gone", vec![]), src("keep", vec![ep("1", "k")])];
                if i % 3 == 0 {
                    sources.push(src("gone", vec![ep("2", "g")]));
                }
                catalog.rows.push(row(100 + i, "t", sources));
            }
            let mut registry: TaskRegistry<BatchDeleteProgress> = TaskRegistry::new();
            registry.upsert("other", BatchDeleteProgress::default(), "o".to_string());
            let (run, queries) =
                catalog.remove_source("job".to_string(), "gone".to_string(), batch, &mut registry);
            assert_eq!(queries, n as usize / batch + 1);
            assert!(run.done);
            assert_eq!(run.processed_count, n as u64);
            assert_eq!(run.deleted_count, (n + (n + 2) / 3) as u64);
            for (i, r) in catalog.rows.iter().enumerate() {
                assert_eq!(r.id, Some(100 + i as u128));
                assert_eq!(r.vod_play_urls, vec![src("keep", vec![ep("1", "k")])]);
            }
            let p = registry.get("job").unwrap();
            assert_eq!(p.status, TaskStatus::Completed);
            assert_eq!(p.processed_count, n as u64);
            assert_eq!(p.deleted_count, run.deleted_count);
            assert_eq!(
                p.log,
                format!("批量删除完成：处理了 {} 个视频，删除了 {} 个播放源", n, run.deleted_count)
            );
            assert_eq!(registry.get("other").unwrap(), BatchDeleteProgress::default());
            assert_eq!(registry.entries.len(), 2);
        }
    }
}

#[test]
fn rows_without_id_are_counted_but_kept() {
    let mut registry: TaskRegistry<BatchDeleteProgress> = TaskRegistry::new();
    let mut run = BatchDeleteRun::begin("t".to_string(), "A".to_string(), 1, &mut registry);
    let mut r = row(1, "x", vec![src("A", vec![])]);
    r.id = None;
    assert!(!run.absorb_row(&mut r, &mut registry));
    assert_eq!(r.vod_play_urls.len(), 1);
    assert_eq!(run.processed_count, 1);
    assert_eq!(run.deleted_count, 0);
}

#[test]
fn progress_is_published_every_hundred_rows() {
    let mut registry: TaskRegistry<BatchDeleteProgress> = TaskRegistry::new();
    let mut run = BatchDeleteRun::begin("t".to_string(), "A".to_string(), 250, &mut registry);
    assert_eq!(registry.get("t").unwrap().log, "开始批量删除播放源任务");
    assert_eq!(registry.list_all()[0].name, "批量删除播放源: A");
    for i in 0..250u128 {
        let mut r = row(i + 1, "x", vec![src("A", vec![]), src("B", vec![])]);
        assert!(run.absorb_row(&mut r, &mut registry));
        let p = registry.get("t").unwrap();
        let shown = ((i as u64 + 1) / 100) * 100;
        assert_eq!(p.processed_count, shown);
        assert_eq!(p.deleted_count, shown);
        if shown > 0 {
            assert_eq!(p.log, format!("正在处理中... 已处理 {}/250 个视频", shown));
        }
    }
    assert!(run.end_page(250, BATCH_SIZE, &mut registry));
    let p = registry.get("t").unwrap();
    assert_eq!(p.status, TaskStatus::Completed);
    assert_eq!(p.log, "批量删除完成：处理了 250 个视频，删除了 250 个播放源");
    assert!(run.done);
}

#[test]
fn full_page_keeps_the_run_going() {
    let mut registry: TaskRegistry<BatchDeleteProgress> = TaskRegistry::new();
    let mut run = BatchDeleteRun::begin("t".to_string(), "A".to_string(), 4, &mut registry);
    let page = vec![row(5, "a", vec![]), row(9, "b", vec![])];
    assert!(run.begin_page(&page, &mut registry));
    assert_eq!(run.last_id, Some(9));
    assert!(!run.end_page(2, 2, &mut registry));
    assert!(!run.done);
    assert!(!run.begin_page(&Vec::new(), &mut registry));
    assert!(run.done);
    assert_eq!(registry.get("t").unwrap().status, TaskStatus::Completed);
}

#[test]
fn failed_read_fails_the_removal() {
    let mut registry: TaskRegistry<BatchDeleteProgress> = TaskRegistry::new();
    let mut run = BatchDeleteRun::begin("t".to_string(), "A".to_string(), 4, &mut registry);
    let page = vec![row(5, "a", vec![]), row(9, "b", vec![])];
    assert!(run.take_page(&Ok(page), &mut registry));
    assert_eq!(run.last_id, Some(9));
    assert!(!run.done);
    let failed = Err(vod_collector::remote::CollectError::storage("游标中断"));
    assert!(!run.take_page(&failed, &mut registry));
    assert!(run.done);
    let p = registry.get("t").unwrap();
    assert_eq!(p.status, TaskStatus::Failed);
    assert_eq!(p.log, "批量删除失败: 游标中断");
    let mut other = BatchDeleteRun::begin("u".to_string(), "A".to_string(), 0, &mut registry);
    assert!(!other.take_page(&Ok(Vec::new()), &mut registry));
    assert_eq!(registry.get("u").unwrap().status, TaskStatus::Completed);
}

#[test]
fn failed_removal_is_published() {
    let mut registry: TaskRegistry<BatchDeleteProgress> = TaskRegistry::new();
    let mut run = BatchDeleteRun::begin("t".to_string(), "A".to_string(), 4, &mut registry);
    run.fail("连接中断", &mut registry);
    let p = registry.get("t").unwrap();
    assert_eq!(p.status, TaskStatus::Failed);
    assert_eq!(p.log, "批量删除失败: 连接中断");
    assert_eq!(p.total_count, 4);
}
