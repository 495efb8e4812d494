use larkstack::kit::card::CardElement;
use larkstack::standup::config::{AppConfig, LarkConfig, StandupConfig};
use larkstack::standup::date::{days_since, Day};
use larkstack::standup::flow::{
    announce_card_for, build_announce_card, build_reminder_card, cell_text_map, document_title, extract_mention_user,
    find_existing_doc, find_missing_user_ids, is_text_empty, missing_label, name_of, no_members_error, plan_table_updates,
    table_spec, url_of, ChatMember, DocBlock, DriveFile, TextElement, TextUpdate,
};
use larkstack::standup::cli::resolve_date;
use larkstack::standup::scheduler::{scheduler_start, target_date, triggers, wait_from, Action, SchedulerStart, TargetDay};

fn day(y: i32, m: u32, d: u32) -> Day {
    Day::new(y, m, d).expect("valid date")
}

#[test]
fn dates_validate_and_format() {
    assert!(Day::new(2024, 2, 29).is_some());
    assert!(Day::new(2023, 2, 29).is_none());
    assert!(Day::new(1900, 2, 29).is_none());
    assert!(Day::new(2000, 2, 29).is_some());
    assert!(Day::new(2024, 13, 1).is_none());
    assert!(Day::new(2024, 4, 31).is_none());
    assert_eq!(day(2024, 3, 5).ymd(), "2024-03-05");
    assert_eq!(day(987, 12, 31).ymd(), "0987-12-31");
    assert_eq!(day(-1, 1, 1).ymd(), "-0001-01-01");
    assert_eq!(day(12345, 1, 1).ymd(), "+12345-01-01");
    assert_eq!(document_title(&day(2025, 1, 9)), "Daily Scrum - 2025-01-09");
}

fn file(token: &str, name: &str, kind: &str) -> DriveFile {
    DriveFile { token: token.into(), name: name.into(), file_type: kind.into(), url: format!("https://doc/{token}") }
}

#[test]
fn existing_doc_is_the_first_docx_with_the_title() {
    let files = vec![
        file("s1", "Daily Scrum - 2025-01-09", "sheet"),
        file("d1", "Daily Scrum - 2025-01-09", "docx"),
        file("d2", "Daily Scrum - 2025-01-09", "docx"),
    ];
    let doc = find_existing_doc(&files, "Daily Scrum - 2025-01-09").unwrap();
    assert_eq!(doc.doc_id, "d1");
    assert_eq!(doc.url, "https://doc/d1");
    assert!(find_existing_doc(&files, "other").is_none());
    assert_eq!(url_of(&files, "d2"), "https://doc/d2");
    assert_eq!(url_of(&files, "zz"), "");
    assert_eq!(no_members_error("oc_1"), "chat oc_1 has no members");
}

fn block(id: &str, ty: i64, parent: Option<&str>) -> DocBlock {
    DocBlock { block_id: Some(id.into()), block_type: Some(ty), parent_id: parent.map(String::from), cells: vec![], elements: None }
}

fn text(id: &str, parent: &str, elements: Vec<TextElement>) -> DocBlock {
    DocBlock { elements: Some(elements), ..block(id, 2, Some(parent)) }
}

fn run(s: &str) -> TextElement {
    TextElement { mention_user_id: None, content: Some(s.into()) }
}

fn mention(u: &str) -> TextElement {
    TextElement { mention_user_id: Some(u.into()), content: None }
}

/// A 3-row table: header, Ann (filled), Bob (empty).
fn table_doc() -> Vec<DocBlock> {
    let mut blocks = Vec::new();
    let cells: Vec<String> = (0..12).map(|i| format!("c{i}")).collect();
    blocks.push(DocBlock { cells: cells.clone(), ..block("tbl", 31, None) });
    for c in &cells {
        blocks.push(block(c, 32, Some("tbl")));
    }
    blocks.push(text("t4", "c4", vec![mention("ou_ann")]));
    blocks.push(text("t5", "c5", vec![run("shipped it")]));
    blocks.push(text("t8", "c8", vec![run("x"), mention("ou_bob")]));
    blocks.push(text("t9", "c9", vec![run("   ")]));
    blocks.push(text("t10", "c10", vec![]));
    blocks
}

#[test]
fn missing_users_are_rows_with_every_other_cell_empty() {
    let blocks = table_doc();
    assert_eq!(find_missing_user_ids(&blocks).unwrap(), vec!["ou_bob".to_string()]);
    let map = cell_text_map(&blocks);
    assert_eq!(map.get("c4").as_deref(), Some("t4"));
    assert!(map.get("c6").is_none());
    assert_eq!(extract_mention_user(&blocks[blocks.len() - 3]).as_deref(), Some("ou_bob"));
    assert!(is_text_empty(&blocks[blocks.len() - 2]));
    assert!(is_text_empty(&blocks[blocks.len() - 1]));
    assert!(!is_text_empty(&blocks[blocks.len() - 4]));
    assert!(is_text_empty(&block("x", 2, None)));
}

#[test]
fn missing_users_reports_unreadable_tables() {
    assert_eq!(find_missing_user_ids(&[block("p", 2, None)]).unwrap_err(), "no table block found");
    let odd = DocBlock { cells: vec!["a".into(), "b".into(), "c".into()], ..block("tbl", 31, None) };
    assert_eq!(find_missing_user_ids(&[odd]).unwrap_err(), "unexpected cells count: 3");
}

#[test]
fn table_updates_fill_headers_then_members() {
    let blocks = {
        let mut bs = Vec::new();
        let cells: Vec<String> = (0..12).map(|i| format!("c{i}")).collect();
        bs.push(DocBlock { cells: cells.clone(), ..block("tbl", 31, None) });
        for (i, c) in cells.iter().enumerate() {
            bs.push(block(c, 32, Some("tbl")));
            bs.push(text(&format!("t{i}"), c, vec![]));
        }
        bs
    };
    let members = vec!["ou_a".to_string(), "ou_b".to_string()];
    let ups = plan_table_updates(&blocks, &members).unwrap();
    assert_eq!(ups.len(), 5);
    assert!(matches!(&ups[0], TextUpdate::Header { block_id, content } if block_id == "t1" && content == "✅ 昨日完成"));
    assert!(matches!(&ups[2], TextUpdate::Header { block_id, content } if block_id == "t3" && content == "🚫 阻塞"));
    assert!(matches!(&ups[3], TextUpdate::Mention { block_id, user_id } if block_id == "t4" && user_id == "ou_a"));
    assert!(matches!(&ups[4], TextUpdate::Mention { block_id, user_id } if block_id == "t8" && user_id == "ou_b"));
    let three = vec!["a".to_string(), "b".to_string(), "c".to_string()];
    assert_eq!(plan_table_updates(&blocks, &three).unwrap_err(), "unexpected cell count 12 (want 16)");
    let mut partial = blocks.clone();
    partial.retain(|b| b.block_id.as_deref() != Some("t8"));
    assert_eq!(plan_table_updates(&partial, &members).unwrap_err(), "name text block missing for row 2");
    let t = table_spec(2);
    assert_eq!((t.row_size, t.column_size, t.header_row), (3, 4, true));
    assert_eq!(t.column_width, vec![120, 300, 300, 240]);
}

#[test]
fn announcement_wording_depends_on_days_ahead() {
    let d = day(2025, 3, 4);
    let c = announce_card_for("https://doc/x", &d, 1);
    assert_eq!(c.header.template, "blue");
    assert_eq!(c.header.title.content, "明日 Daily Standup · 2025-03-04");
    assert!(matches!(&c.elements[0], CardElement::Markdown(s) if s == "Standup 文档已就位。请在 **明早 10:30 之前** 完成填写。"));
    assert!(matches!(&c.elements[1], CardElement::MultiUrlButton { label, url } if label == "打开文档" && url == "https://doc/x"));
    assert_eq!(announce_card_for("u", &d, 0).header.title.content, "今日 Daily Standup · 2025-03-04");
    let later = announce_card_for("u", &d, 3);
    assert_eq!(later.header.title.content, "Daily Standup · 2025-03-04");
    assert!(matches!(&later.elements[0], CardElement::Markdown(s) if s == "Standup 文档已就位 (3 天后),请按时填写。"));
    assert!(matches!(&announce_card_for("u", &d, -2).elements[0], CardElement::Markdown(s) if s == "Standup 文档链接见下。"));
    let now = build_announce_card("u", &d);
    assert!(now.header.title.content.ends_with("Daily Standup · 2025-03-04"));
}

#[test]
fn reminders_escalate_when_urgent() {
    let r = build_reminder_card("https://doc/y", true);
    assert_eq!(r.header.template, "red");
    assert_eq!(r.header.title.content, "⚠️ Daily Standup 最后提醒");
    let g = build_reminder_card("https://doc/y", false);
    assert_eq!(g.header.template, "orange");
    assert!(matches!(&g.elements[0], CardElement::Markdown(s) if s == "你还没填写今天的 Daily Standup,请尽快完成。"));
}

#[test]
fn missing_rows_are_labelled_by_name() {
    let members = vec![
        ChatMember { member_id: "ou_1".into(), name: "Old".into() },
        ChatMember { member_id: "ou_1".into(), name: "Ann".into() },
    ];
    assert_eq!(name_of(&members, "ou_1").as_deref(), Some("Ann"));
    assert_eq!(missing_label(name_of(&members, "ou_1"), "ou_1"), "Ann (ou_1)");
    assert_eq!(missing_label(name_of(&members, "ou_2"), "ou_2"), "ou_2");
    assert_eq!(missing_label(Some(String::new()), "ou_3"), "ou_3");
}

#[test]
fn scheduler_triggers_and_waits() {
    let ts = triggers();
    assert_eq!(ts.len(), 4);
    assert_eq!((ts[0].name, ts[0].hour, ts[0].minute), ("announce-20", 20, 0));
    assert!(ts[0].target == TargetDay::Tomorrow && ts[0].action == Action::Announce);
    assert!(ts[3].action == Action::UrgentRemind && ts[3].target == TargetDay::Today);
    let nanos = |h: u64, m: u64| (h * 3600 + m * 60) * 1_000_000_000;
    assert_eq!(wait_from(nanos(9, 0), 9, 30), nanos(0, 30));
    assert_eq!(wait_from(nanos(9, 30), 9, 30), nanos(24, 0));
    assert_eq!(wait_from(nanos(23, 0), 9, 30), nanos(10, 30));
    let mut cfg = StandupConfig::default();
    assert_eq!(scheduler_start(&cfg), SchedulerStart::Disabled);
    cfg.enabled = true;
    cfg.chat_id = Some("oc".into());
    assert_eq!(scheduler_start(&cfg), SchedulerStart::MissingTarget);
    assert_eq!(cfg.target().unwrap_err(), "STANDUP_FOLDER_TOKEN not set");
    cfg.folder_token = Some("fld".into());
    assert_eq!(scheduler_start(&cfg), SchedulerStart::Ready);
    assert_eq!(cfg.target().unwrap(), ("fld".to_string(), "oc".to_string()));
}

#[test]
fn config_parts_combine() {
    let lark = LarkConfig::default();
    assert_eq!(lark.base_url, "https://open.larksuite.com");
    assert!(!lark.has_credentials());
    let err = AppConfig::from_env(Err("bad LARK_".into()), Ok(StandupConfig::default())).unwrap_err();
    assert_eq!(err, "bad LARK_");
    let ok = AppConfig::from_env(Ok(LarkConfig { app_id: "a".into(), app_secret: "s".into(), ..LarkConfig::default() }), Ok(StandupConfig::default())).unwrap();
    assert!(ok.lark.has_credentials());
}

fn ymd_of(d: &Day) -> (i32, u32, u32) {
    (d.year(), d.month(), d.day())
}

#[test]
fn next_day_rolls_over_months_years_and_leap_days() {
    assert_eq!(ymd_of(&day(2024, 3, 5).next_day()), (2024, 3, 6));
    assert_eq!(ymd_of(&day(2024, 2, 28).next_day()), (2024, 2, 29));
    assert_eq!(ymd_of(&day(2024, 2, 29).next_day()), (2024, 3, 1));
    assert_eq!(ymd_of(&day(2023, 2, 28).next_day()), (2023, 3, 1));
    assert_eq!(ymd_of(&day(1900, 2, 28).next_day()), (1900, 3, 1));
    assert_eq!(ymd_of(&day(2024, 4, 30).next_day()), (2024, 5, 1));
    assert_eq!(ymd_of(&day(2024, 12, 31).next_day()), (2025, 1, 1));
    assert!(day(262142, 12, 31).is_last());
    assert!(!day(2024, 12, 31).is_last());
}

#[test]
fn triggers_work_on_today_or_tomorrow() {
    let today = day(2024, 6, 30);
    assert_eq!(ymd_of(&target_date(TargetDay::Today, &today)), (2024, 6, 30));
    assert_eq!(ymd_of(&target_date(TargetDay::Tomorrow, &today)), (2024, 7, 1));
}

#[test]
fn date_arguments_resolve_against_today_and_the_default() {
    let today = day(2024, 1, 31);
    let default = day(2000, 1, 1);
    let (d, bad) = resolve_date(None, &default, &today);
    assert_eq!((ymd_of(&d), bad), ((2000, 1, 1), false));
    let (d, bad) = resolve_date(Some("today"), &default, &today);
    assert_eq!((ymd_of(&d), bad), ((2024, 1, 31), false));
    let (d, bad) = resolve_date(Some("tomorrow"), &default, &today);
    assert_eq!((ymd_of(&d), bad), ((2024, 2, 1), false));
    let (d, bad) = resolve_date(Some("2024-03-05"), &default, &today);
    assert_eq!((ymd_of(&d), bad), ((2024, 3, 5), false));
    let (d, bad) = resolve_date(Some("2023-02-29"), &default, &today);
    assert_eq!((ymd_of(&d), bad), ((2000, 1, 1), true));
    let (d, bad) = resolve_date(Some("next week"), &default, &today);
    assert_eq!((ymd_of(&d), bad), ((2000, 1, 1), true));
}

#[test]
fn day_counts_match_the_calendar() {
    assert_eq!(days_since(&day(2024, 3, 1), &day(2024, 2, 28)), 2);
    assert_eq!(days_since(&day(2023, 3, 1), &day(2023, 2, 28)), 1);
    assert_eq!(days_since(&day(2000, 1, 1), &day(1970, 1, 1)), 10957);
    assert_eq!(days_since(&day(1970, 1, 1), &day(2000, 1, 1)), -10957);
    assert_eq!(days_since(&day(0, 1, 1), &day(-1, 12, 31)), 1);
    assert_eq!(days_since(&day(262142, 12, 31), &day(-262143, 1, 1)), 191_491_528);
    // The same as chrono's count.
    let a = chrono::NaiveDate::from_ymd_opt(262142, 12, 31).unwrap();
    let b = chrono::NaiveDate::from_ymd_opt(-262143, 1, 1).unwrap();
    assert_eq!((a - b).num_days(), 191_491_528);
}
