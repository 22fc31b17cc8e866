use aiapp::market::{
    app_detail, chrono_now, clock_text_at, new_project_dir_name, find_app, generated_app, generation_inputs, market_platforms,
    market_tags, mock_app_content, project_dir_name, record_generated, seed_market_apps,
    template_catalogue, template_image, APP_NOT_FOUND, EMPTY_DESCRIPTION,
};

#[test]
fn seeded_catalogue() {
    let apps = seed_market_apps();
    assert_eq!(apps.len(), 8);
    assert_eq!(apps[0].id, "daily-sales");
    assert_eq!(apps[0].name, "每日销售看板");
    assert_eq!(apps[0].tags, vec!["数据看板".to_string(), "办公效率".to_string()]);
    assert_eq!(apps[0].template, "calculator");
    assert_eq!(apps[0].created_at, "2026-08-18 10:00");
    assert!(apps.iter().all(|a| a.source.is_empty()));
    assert_eq!(apps[7].id, "timer-app");
    assert_eq!(apps[7].platforms, vec!["手机".to_string(), "车机".to_string(), "电视盒".to_string()]);
}

#[test]
fn listing_is_sorted_and_deduplicated() {
    let apps = seed_market_apps();
    let mut expected_tags: Vec<String> = apps.iter().flat_map(|a| a.tags.clone()).collect();
    expected_tags.sort();
    expected_tags.dedup();
    assert_eq!(market_tags(&apps), expected_tags);
    let mut expected_platforms: Vec<String> = apps.iter().flat_map(|a| a.platforms.clone()).collect();
    expected_platforms.sort();
    expected_platforms.dedup();
    assert_eq!(market_platforms(&apps), expected_platforms);
    assert_eq!(market_tags(&apps).len(), 6);
    assert_eq!(market_platforms(&apps).len(), 6);
    assert!(market_tags(&Vec::new()).is_empty());
}

#[test]
fn lookup_and_detail() {
    let apps = seed_market_apps();
    assert_eq!(find_app(&apps, "todo-team"), Some(1));
    assert_eq!(find_app(&apps, "missing"), None);
    let d = app_detail(&apps, "todo-team");
    assert!(d.ok);
    let app = d.app.unwrap();
    assert_eq!(app.id, "todo-team");
    assert_eq!(d.mock_content.unwrap(), mock_app_content("todo", "团队待办协作"));
    assert!(d.error.is_none());
    let d = app_detail(&apps, "missing");
    assert!(!d.ok);
    assert!(d.app.is_none());
    assert!(d.mock_content.is_none());
    assert_eq!(d.error.as_deref(), Some(APP_NOT_FOUND));
    assert_eq!(APP_NOT_FOUND, "应用不存在");
}

#[test]
fn simulated_screens() {
    let calc = mock_app_content("calculator", "算");
    assert!(calc.starts_with("应用「算」已启动 [计算器模式]\n\n╔"));
    assert!(calc.ends_with("支持键盘输入，按 Esc 退出应用"));
    let todo = mock_app_content("todo", "T");
    assert!(todo.starts_with("应用「T」已启动 [待办事项]"));
    let img = mock_app_content("image-filter", "I");
    assert!(img.contains("│ 原图 │ 灰度 │ 暖色 │ 冷色 │"));
    let other = mock_app_content("minimal", "Hi");
    assert!(other.starts_with("应用「Hi」已启动 [Hello World]\n\n┌"));
    assert!(other.contains("│ 欢迎使用 Hi       │"));
    assert!(other.contains("当前版本: 1.0.0"));
    assert!(other.ends_with("该应用已就绪，可在设定的平台上运行"));
}

#[test]
fn clock_text_is_the_calendar_date() {
    assert_eq!(clock_text_at(0), "1970-01-01 00:00");
    assert_eq!(clock_text_at(1_700_000_000), "2023-11-14 22:13");
    assert_eq!(clock_text_at(2_678_400), "1970-02-01 00:00");
    assert_eq!(clock_text_at(86_400 * 365 + 59), "1971-01-01 00:00");
    assert_eq!(clock_text_at(86_400 * 366 + 3_599), "1971-01-02 00:59");
    assert_eq!(clock_text_at(951_868_800), "2000-03-01 00:00");
}

#[test]
fn generation_requests() {
    match generation_inputs("  build a todo  ", "") {
        Ok((d, t)) => {
            assert_eq!(d, "build a todo");
            assert_eq!(t, "minimal");
        }
        Err(_) => panic!("a description was given"),
    }
    match generation_inputs("x", "todo") {
        Ok((_, t)) => assert_eq!(t, "todo"),
        Err(_) => panic!("a description was given"),
    }
    assert_eq!(generation_inputs(" \n\t", "todo").unwrap_err(), EMPTY_DESCRIPTION);
    assert_eq!(project_dir_name("My Todo!", 42), "my_todo_42");
    assert_eq!(project_dir_name("日本", 0), "app_0");
}

#[test]
fn generated_entries() {
    let a = generated_app(8, Some("计时"), "desc", "todo", "fn main {}", "2026-01-01 00:00");
    assert_eq!(a.id, "gen_9");
    assert_eq!(a.name, "计时");
    assert_eq!(a.tags, vec!["办公效率".to_string()]);
    assert_eq!(a.platforms, vec!["网页".to_string(), "手机".to_string(), "电脑".to_string()]);
    assert_eq!(a.source, "fn main {}");
    let b = generated_app(0, None, "desc", "todo", "", "t");
    assert_eq!(b.id, "gen_1");
    assert_eq!(b.name, "desc");
    let mut apps = seed_market_apps();
    record_generated(&mut apps, None, "my app", "minimal", "src");
    assert_eq!(apps.len(), 9);
    assert_eq!(apps[8].id, "gen_9");
    assert_eq!(apps[8].name, "my app");
    assert_eq!(apps[8].created_at.len(), "2026-08-18 10:00".len());
}

#[test]
fn template_pictures() {
    assert_eq!(template_image("todo"), "/static/templates/todo.png");
    let list = template_catalogue();
    assert_eq!(list.len(), 4);
    assert_eq!(list[0].name, "minimal");
    assert_eq!(list[3].image, "/static/templates/image-filter.png");
}

#[test]
fn stamps_from_the_clock() {
    let name = new_project_dir_name("My Todo");
    let nanos = name.strip_prefix("my_todo_").expect("slug and underscore first");
    assert!(!nanos.is_empty() && nanos.chars().all(|c| c.is_ascii_digit()));
    assert!(nanos.parse::<u64>().unwrap() < 1_000_000_000);
    let now = chrono_now();
    let b: Vec<char> = now.chars().collect();
    assert_eq!(b.len(), 16);
    assert_eq!((b[4], b[7], b[10], b[13]), ('-', '-', ' ', ':'));
}
