//! The app market of the web front end: the seeded catalogue, the listing of its tags and
//! platforms, looking an app up, its simulated screen, and the entry that a generation adds.

use vstd::prelude::*;

use crate::clock::{unix_now_secs, unix_now_subsec_nanos};
use crate::gen::source::{slug_of, slugify};
use crate::format::date::{calendar_date, date_of_day};
use crate::format::wit::pair_views;
use crate::gen::templates::{template_table, templates};
use crate::order::{insert_sorted, strictly_sorted};
use crate::text::{
    clone_strings, decimal, extend_str, owned, push_decimal, push_padded, str_eq, str_views,
    string_from_chars, trim, trim_chars, chars_of, zero_pad, slice_views,
};

verus! {

/// Opening of every simulated screen, before the app's name.
pub const SCREEN_OPEN: &'static str = "应用「";

/// Rest of the calculator screen.
pub const CALCULATOR_SCREEN: &'static str = "」已启动 [计算器模式]\n\n╔═══════════════╗\n║     0         ║\n╠═══════════════╣\n║ 7 │ 8 │ 9 │ + ║\n║───┼───┼───┼───╢\n║ 4 │ 5 │ 6 │ - ║\n║───┼───┼───┼───╢\n║ 1 │ 2 │ 3 │ × ║\n║───┼───┼───┼───╢\n║ 0 │ . │ = │ ÷ ║\n╚═══════════════╝\n\n支持键盘输入，按 Esc 退出应用";

/// Rest of the to-do screen.
pub const TODO_SCREEN: &'static str = "」已启动 [待办事项]\n\n┌─────────────────────────────┐\n│ 📋 我的待办              +  │\n├─────────────────────────────┤\n│ ☑ 完成周报              ✓  │\n│ ☐ 准备会议材料          ○  │\n│ ☐ 回复客户邮件          ○  │\n│ ☐ 更新项目进度          ○  │\n│ ☐ 团队代码审查          ○  │\n└─────────────────────────────┘\n\n点击 ○ 勾选完成，按 + 添加新事项";

/// Rest of the image-filter screen.
pub const IMAGE_FILTER_SCREEN: &'static str = "」已启动 [图片滤镜]\n\n┌─────────────────────────────┐\n│ 🖼 图片滤镜              ⚙  │\n├─────────────────────────────┤\n│                             │\n│    [ 点击选择图片 ]         │\n│                             │\n├─────────────────────────────┤\n│ 原图 │ 灰度 │ 暖色 │ 冷色 │\n└─────────────────────────────┘\n\n选择滤镜效果，实时预览处理结果";

/// Middle of the welcome screen, between the name's two occurrences.
pub const WELCOME_SCREEN_HEAD: &'static str = "」已启动 [Hello World]\n\n┌─────────────────────────────┐\n│ 欢迎使用 ";

/// End of the welcome screen.
pub const WELCOME_SCREEN_TAIL: &'static str = "       │\n├─────────────────────────────┤\n│                             │\n│    ✨ 应用运行中 ✨          │\n│                             │\n│    当前版本: 1.0.0          │\n│    状态: 正常运行           │\n│                             │\n└─────────────────────────────┘\n\n该应用已就绪，可在设定的平台上运行";

/// The simulated screen of an app made from `template` and named `name`.
pub open spec fn mock_content(template: Seq<char>, name: Seq<char>) -> Seq<char> {
    if template == "calculator"@ {
        SCREEN_OPEN@ + name + CALCULATOR_SCREEN@
    } else if template == "todo"@ {
        SCREEN_OPEN@ + name + TODO_SCREEN@
    } else if template == "image-filter"@ {
        SCREEN_OPEN@ + name + IMAGE_FILTER_SCREEN@
    } else {
        SCREEN_OPEN@ + name + WELCOME_SCREEN_HEAD@ + name + WELCOME_SCREEN_TAIL@
    }
}

/// Renders the simulated screen shown when an app is opened.
pub fn mock_app_content(template: &str, name: &str) -> (r: String)
    ensures
        r@ == mock_content(template@, name@),
{
    let mut out: Vec<char> = Vec::new();
    extend_str(&mut out, SCREEN_OPEN);
    extend_str(&mut out, name);
    if str_eq(template, "calculator") {
        extend_str(&mut out, CALCULATOR_SCREEN);
    } else if str_eq(template, "todo") {
        extend_str(&mut out, TODO_SCREEN);
    } else if str_eq(template, "image-filter") {
        extend_str(&mut out, IMAGE_FILTER_SCREEN);
    } else {
        extend_str(&mut out, WELCOME_SCREEN_HEAD);
        extend_str(&mut out, name);
        extend_str(&mut out, WELCOME_SCREEN_TAIL);
    }
    string_from_chars(&out)
}

/// An entry of the app market, as plain sequences.
pub ghost struct MarketAppView {
    pub id: Seq<char>,
    pub name: Seq<char>,
    pub description: Seq<char>,
    pub tags: Seq<Seq<char>>,
    pub platforms: Seq<Seq<char>>,
    pub template: Seq<char>,
    pub source: Seq<char>,
    pub created_at: Seq<char>,
}

/// An entry of the app market.
pub struct MarketApp {
    pub id: String,
    pub name: String,
    pub description: String,
    pub tags: Vec<String>,
    pub platforms: Vec<String>,
    pub template: String,
    pub source: String,
    pub created_at: String,
}

impl View for MarketApp {
    type V = MarketAppView;

    open spec fn view(&self) -> MarketAppView {
        MarketAppView {
            id: self.id@,
            name: self.name@,
            description: self.description@,
            tags: str_views(self.tags@),
            platforms: str_views(self.platforms@),
            template: self.template@,
            source: self.source@,
            created_at: self.created_at@,
        }
    }
}

impl MarketApp {
    /// A copy of the entry.
    pub fn duplicate(&self) -> (r: MarketApp)
        ensures
            r@ == self@,
    {
        let tags = clone_strings(&self.tags);
        let platforms = clone_strings(&self.platforms);
        MarketApp {
            id: owned(self.id.as_str()),
            name: owned(self.name.as_str()),
            description: owned(self.description.as_str()),
            tags,
            platforms,
            template: owned(self.template.as_str()),
            source: owned(self.source.as_str()),
            created_at: owned(self.created_at.as_str()),
        }
    }
}

/// `String` copies of a list of string slices.
pub fn owned_strings(v: &Vec<&str>) -> (r: Vec<String>)
    ensures
        str_views(r@) == slice_views(v@),
{
    let mut r: Vec<String> = Vec::new();
    let mut i: usize = 0;
    while i < v.len()
        invariant
            i <= v.len(),
            str_views(r@) == slice_views(v@).subrange(0, i as int),
        decreases v.len() - i,
    {
        let ghost prev = r@;
        let item = owned(v[i]);
        r.push(item);
        assert(r@ == prev.push(item));
        assert(str_views(r@) =~= str_views(prev).push(v@[i as int]@));
        i = i + 1;
        assert(str_views(r@) =~= slice_views(v@).subrange(0, i as int));
    }
    assert(slice_views(v@).subrange(0, v.len() as int) =~= slice_views(v@));
    r
}

/// The view of a list of entries.
pub open spec fn market_views(v: Seq<MarketApp>) -> Seq<MarketAppView> {
    v.map_values(|a: MarketApp| a@)
}

/// A catalogue entry with no source attached.
pub open spec fn seeded_app(
    id: Seq<char>,
    name: Seq<char>,
    description: Seq<char>,
    tags: Seq<Seq<char>>,
    platforms: Seq<Seq<char>>,
    template: Seq<char>,
    created_at: Seq<char>,
) -> MarketAppView {
    MarketAppView {
        id,
        name,
        description,
        tags,
        platforms,
        template,
        source: Seq::empty(),
        created_at,
    }
}

/// The example apps that the market starts with.
pub open spec fn seed_catalogue() -> Seq<MarketAppView> {
    seq![
        seeded_app(
            "daily-sales"@,
            "每日销售看板"@,
            "按日期汇总销售额，展示趋势图和TOP商品排行"@,
            seq!["数据看板"@, "办公效率"@],
            seq!["网页"@, "手机"@, "车机"@],
            "calculator"@,
            "2026-08-18 10:00"@,
        ),
        seeded_app(
            "todo-team"@,
            "团队待办协作"@,
            "同事间共享待办清单，分配任务、跟踪进度"@,
            seq!["办公效率"@, "协作"@],
            seq!["网页"@, "手机"@, "电脑"@, "鸿蒙"@],
            "todo"@,
            "2026-08-18 09:30"@,
        ),
        seeded_app(
            "photo-filter"@,
            "极速图片滤镜"@,
            "一键给图片添加滤镜效果，支持灰度、暖色、冷色等"@,
            seq!["创意工具"@, "实用工具"@],
            seq!["网页"@, "手机"@, "电脑"@],
            "image-filter"@,
            "2026-08-17 16:20"@,
        ),
        seeded_app(
            "expense-tracker"@,
            "月度开支记账"@,
            "记录日常开支，分类统计，生成月度报表"@,
            seq!["实用工具"@, "数据看板"@],
            seq!["网页"@, "手机"@, "车机"@, "电视盒"@],
            "calculator"@,
            "2026-08-17 14:00"@,
        ),
        seeded_app(
            "inventory-check"@,
            "库存盘点助手"@,
            "扫码或手动录入库存数据，自动比对差异"@,
            seq!["行业应用"@, "实用工具"@],
            seq!["手机"@, "车机"@],
            "minimal"@,
            "2026-08-16 11:10"@,
        ),
        seeded_app(
            "meeting-notes"@,
            "会议纪要整理"@,
            "记录会议要点，自动生成待办事项和会议结论"@,
            seq!["办公效率"@, "协作"@],
            seq!["网页"@, "电脑"@, "鸿蒙"@],
            "todo"@,
            "2026-08-16 09:00"@,
        ),
        seeded_app(
            "weather-dash"@,
            "天气仪表盘"@,
            "实时天气展示，包含温度曲线、风速、湿度等信息"@,
            seq!["数据看板"@, "实用工具"@],
            seq!["网页"@, "手机"@, "车机"@, "电视盒"@, "鸿蒙"@],
            "calculator"@,
            "2026-08-15 08:30"@,
        ),
        seeded_app(
            "timer-app"@,
            "多任务计时器"@,
            "同时运行多个倒计时提醒，适合厨房、运动等场景"@,
            seq!["实用工具"@],
            seq!["手机"@, "车机"@, "电视盒"@],
            "minimal"@,
            "2026-08-14 19:45"@,
        ),
    ]
}

fn seed_app(
    id: &str,
    name: &str,
    description: &str,
    tags: Vec<&str>,
    platforms: Vec<&str>,
    template: &str,
    created_at: &str,
) -> (a: MarketApp)
    ensures
        a@ == seeded_app(
            id@,
            name@,
            description@,
            slice_views(tags@),
            slice_views(platforms@),
            template@,
            created_at@,
        ),
{
    let tags = owned_strings(&tags);
    let platforms = owned_strings(&platforms);
    let source = String::new();
    MarketApp {
        id: owned(id),
        name: owned(name),
        description: owned(description),
        tags,
        platforms,
        template: owned(template),
        source,
        created_at: owned(created_at),
    }
}

/// The example apps that the market starts with.
pub fn seed_market_apps() -> (v: Vec<MarketApp>)
    ensures
        market_views(v@) == seed_catalogue(),
{
    let mut v: Vec<MarketApp> = Vec::new();
    let tags = vec!["数据看板", "办公效率"];
    let platforms = vec!["网页", "手机", "车机"];
    assert(slice_views(tags@) =~= seq!["数据看板"@, "办公效率"@]);
    assert(slice_views(platforms@) =~= seq!["网页"@, "手机"@, "车机"@]);
    v.push(seed_app("daily-sales", "每日销售看板", "按日期汇总销售额，展示趋势图和TOP商品排行", tags, platforms, "calculator", "2026-08-18 10:00"));
    let tags = vec!["办公效率", "协作"];
    let platforms = vec!["网页", "手机", "电脑", "鸿蒙"];
    assert(slice_views(tags@) =~= seq!["办公效率"@, "协作"@]);
    assert(slice_views(platforms@) =~= seq!["网页"@, "手机"@, "电脑"@, "鸿蒙"@]);
    v.push(seed_app("todo-team", "团队待办协作", "同事间共享待办清单，分配任务、跟踪进度", tags, platforms, "todo", "2026-08-18 09:30"));
    let tags = vec!["创意工具", "实用工具"];
    let platforms = vec!["网页", "手机", "电脑"];
    assert(slice_views(tags@) =~= seq!["创意工具"@, "实用工具"@]);
    assert(slice_views(platforms@) =~= seq!["网页"@, "手机"@, "电脑"@]);
    v.push(seed_app("photo-filter", "极速图片滤镜", "一键给图片添加滤镜效果，支持灰度、暖色、冷色等", tags, platforms, "image-filter", "2026-08-17 16:20"));
    let tags = vec!["实用工具", "数据看板"];
    let platforms = vec!["网页", "手机", "车机", "电视盒"];
    assert(slice_views(tags@) =~= seq!["实用工具"@, "数据看板"@]);
    assert(slice_views(platforms@) =~= seq!["网页"@, "手机"@, "车机"@, "电视盒"@]);
    v.push(seed_app("expense-tracker", "月度开支记账", "记录日常开支，分类统计，生成月度报表", tags, platforms, "calculator", "2026-08-17 14:00"));
    let tags = vec!["行业应用", "实用工具"];
    let platforms = vec!["手机", "车机"];
    assert(slice_views(tags@) =~= seq!["行业应用"@, "实用工具"@]);
    assert(slice_views(platforms@) =~= seq!["手机"@, "车机"@]);
    v.push(seed_app("inventory-check", "库存盘点助手", "扫码或手动录入库存数据，自动比对差异", tags, platforms, "minimal", "2026-08-16 11:10"));
    let tags = vec!["办公效率", "协作"];
    let platforms = vec!["网页", "电脑", "鸿蒙"];
    assert(slice_views(tags@) =~= seq!["办公效率"@, "协作"@]);
    assert(slice_views(platforms@) =~= seq!["网页"@, "电脑"@, "鸿蒙"@]);
    v.push(seed_app("meeting-notes", "会议纪要整理", "记录会议要点，自动生成待办事项和会议结论", tags, platforms, "todo", "2026-08-16 09:00"));
    let tags = vec!["数据看板", "实用工具"];
    let platforms = vec!["网页", "手机", "车机", "电视盒", "鸿蒙"];
    assert(slice_views(tags@) =~= seq!["数据看板"@, "实用工具"@]);
    assert(slice_views(platforms@) =~= seq!["网页"@, "手机"@, "车机"@, "电视盒"@, "鸿蒙"@]);
    v.push(seed_app("weather-dash", "天气仪表盘", "实时天气展示，包含温度曲线、风速、湿度等信息", tags, platforms, "calculator", "2026-08-15 08:30"));
    let tags = vec!["实用工具"];
    let platforms = vec!["手机", "车机", "电视盒"];
    assert(slice_views(tags@) =~= seq!["实用工具"@]);
    assert(slice_views(platforms@) =~= seq!["手机"@, "车机"@, "电视盒"@]);
    v.push(seed_app("timer-app", "多任务计时器", "同时运行多个倒计时提醒，适合厨房、运动等场景", tags, platforms, "minimal", "2026-08-14 19:45"));
    assert(market_views(v@) =~= seed_catalogue());
    v
}

/// Every tag that one of the entries carries.
pub open spec fn tag_union(apps: Seq<MarketAppView>) -> Set<Seq<char>>
    decreases apps.len(),
{
    if apps.len() == 0 {
        Set::empty()
    } else {
        tag_union(apps.drop_last()) + apps.last().tags.to_set()
    }
}

/// Every platform that one of the entries runs on.
pub open spec fn platform_union(apps: Seq<MarketAppView>) -> Set<Seq<char>>
    decreases apps.len(),
{
    if apps.len() == 0 {
        Set::empty()
    } else {
        platform_union(apps.drop_last()) + apps.last().platforms.to_set()
    }
}

/// Adds every string of `items` to a strictly sorted list, skipping those already there.
fn add_all_sorted(acc: &mut Vec<String>, items: &Vec<String>)
    requires
        strictly_sorted(str_views(old(acc)@)),
    ensures
        strictly_sorted(str_views(final(acc)@)),
        str_views(final(acc)@).to_set() == str_views(old(acc)@).to_set() + str_views(
            items@,
        ).to_set(),
{
    let ghost start = str_views(acc@).to_set();
    let mut i: usize = 0;
    while i < items.len()
        invariant
            i <= items.len(),
            strictly_sorted(str_views(acc@)),
            str_views(acc@).to_set() == start + str_views(items@.subrange(0, i as int)).to_set(),
        decreases items.len() - i,
    {
        insert_sorted(acc, items[i].as_str());
        proof {
            let before = str_views(items@.subrange(0, i as int));
            assert(str_views(items@.subrange(0, i + 1)) =~= before.push(items@[i as int]@));
            before.lemma_push_to_set_commute(items@[i as int]@);
            assert((start + before.to_set()).insert(items@[i as int]@) =~= start + before.push(
                items@[i as int]@,
            ).to_set());
        }
        i = i + 1;
    }
    assert(items@.subrange(0, items.len() as int) =~= items@);
}

/// The distinct tags of the market, in ascending order.
pub fn market_tags(apps: &Vec<MarketApp>) -> (r: Vec<String>)
    ensures
        strictly_sorted(str_views(r@)),
        str_views(r@).to_set() == tag_union(market_views(apps@)),
{
    let mut r: Vec<String> = Vec::new();
    let mut i: usize = 0;
    assert(str_views(r@).to_set() =~= Set::empty());
    while i < apps.len()
        invariant
            i <= apps.len(),
            strictly_sorted(str_views(r@)),
            str_views(r@).to_set() == tag_union(market_views(apps@.subrange(0, i as int))),
        decreases apps.len() - i,
    {
        add_all_sorted(&mut r, &apps[i].tags);
        assert(market_views(apps@.subrange(0, i + 1)).drop_last() =~= market_views(
            apps@.subrange(0, i as int),
        ));
        i = i + 1;
    }
    assert(apps@.subrange(0, apps.len() as int) =~= apps@);
    r
}

/// The distinct platforms of the market, in ascending order.
pub fn market_platforms(apps: &Vec<MarketApp>) -> (r: Vec<String>)
    ensures
        strictly_sorted(str_views(r@)),
        str_views(r@).to_set() == platform_union(market_views(apps@)),
{
    let mut r: Vec<String> = Vec::new();
    let mut i: usize = 0;
    assert(str_views(r@).to_set() =~= Set::empty());
    while i < apps.len()
        invariant
            i <= apps.len(),
            strictly_sorted(str_views(r@)),
            str_views(r@).to_set() == platform_union(market_views(apps@.subrange(0, i as int))),
        decreases apps.len() - i,
    {
        add_all_sorted(&mut r, &apps[i].platforms);
        assert(market_views(apps@.subrange(0, i + 1)).drop_last() =~= market_views(
            apps@.subrange(0, i as int),
        ));
        i = i + 1;
    }
    assert(apps@.subrange(0, apps.len() as int) =~= apps@);
    r
}

/// `k` is the first entry whose id is `id`.
pub open spec fn first_with_id(apps: Seq<MarketAppView>, id: Seq<char>, k: int) -> bool {
    &&& 0 <= k < apps.len()
    &&& apps[k].id == id
    &&& forall|j: int| 0 <= j < k ==> (#[trigger] apps[j]).id != id
}

/// The position of the first entry whose id is `id`, if there is one.
pub fn find_app(apps: &Vec<MarketApp>, id: &str) -> (r: Option<usize>)
    ensures
        match r {
            Some(k) => first_with_id(market_views(apps@), id@, k as int),
            None => forall|j: int| 0 <= j < apps@.len() ==> (#[trigger] apps@[j])@.id != id@,
        },
{
    let mut i: usize = 0;
    while i < apps.len()
        invariant
            i <= apps.len(),
            forall|j: int| 0 <= j < i ==> (#[trigger] apps@[j])@.id != id@,
        decreases apps.len() - i,
    {
        if str_eq(apps[i].id.as_str(), id) {
            assert forall|j: int| 0 <= j < i implies (#[trigger] market_views(apps@)[j]).id != id@ by {
                assert(market_views(apps@)[j] == apps@[j]@);
            }
            return Some(i);
        }
        i = i + 1;
    }
    None
}

/// Message of a lookup that found no app.
pub const APP_NOT_FOUND: &'static str = "应用不存在";

/// What opening an app answers.
pub struct AppDetail {
    pub ok: bool,
    pub app: Option<MarketApp>,
    pub mock_content: Option<String>,
    pub error: Option<String>,
}

/// Opens the app with id `id`: the first entry with that id and its simulated screen, or
/// the not-found message.
pub fn app_detail(apps: &Vec<MarketApp>, id: &str) -> (d: AppDetail)
    ensures
        d.ok == exists|k: int| 0 <= k < apps@.len() && (#[trigger] apps@[k])@.id == id@,
        d.ok ==> exists|k: int|
            {
                &&& first_with_id(market_views(apps@), id@, k)
                &&& d.app matches Some(a) && a@ == (#[trigger] apps@[k])@
                &&& d.mock_content matches Some(m) && m@ == mock_content(
                    apps@[k]@.template,
                    apps@[k]@.name,
                )
                &&& d.error is None
            },
        !d.ok ==> {
            &&& d.app is None
            &&& d.mock_content is None
            &&& d.error matches Some(e) && e@ == APP_NOT_FOUND@
        },
{
    match find_app(apps, id) {
        Some(k) => {
            let app = apps[k].duplicate();
            let content = mock_app_content(app.template.as_str(), app.name.as_str());
            assert(market_views(apps@)[k as int] == apps@[k as int]@);
            AppDetail { ok: true, app: Some(app), mock_content: Some(content), error: None }
        },
        None => AppDetail {
            ok: false,
            app: None,
            mock_content: None,
            error: Some(owned(APP_NOT_FOUND)),
        },
    }
}

/// The market's time stamp for `secs` seconds after the UNIX epoch, in UTC:
/// `year-month-day hour:minute` of the calendar date and time, the month, day, hour and
/// minute written with two digits.
pub open spec fn clock_text(secs: nat) -> Seq<char> {
    let date = date_of_day(secs / 86400);
    let time_of_day = secs % 86400;
    decimal(date.0) + seq!['-'] + zero_pad(decimal(date.1), 2) + seq!['-'] + zero_pad(
        decimal(date.2),
        2,
    ) + seq![' '] + zero_pad(decimal(time_of_day / 3600), 2) + seq![':'] + zero_pad(
        decimal((time_of_day % 3600) / 60),
        2,
    )
}

/// The market's time stamp for `secs` seconds after the UNIX epoch.
pub fn clock_text_at(secs: u64) -> (r: String)
    ensures
        r@ == clock_text(secs as nat),
{
    let (year, month, day) = calendar_date(secs / 86400);
    let time_of_day = secs % 86400;
    let mut out: Vec<char> = Vec::new();
    push_decimal(&mut out, year);
    out.push('-');
    push_padded(&mut out, month, 2);
    out.push('-');
    push_padded(&mut out, day, 2);
    out.push(' ');
    push_padded(&mut out, time_of_day / 3600, 2);
    out.push(':');
    push_padded(&mut out, (time_of_day % 3600) / 60, 2);
    assert(out@ =~= clock_text(secs as nat));
    string_from_chars(&out)
}

/// The market's time stamp for the current time of the system clock.
pub fn chrono_now() -> (r: String)
    ensures
        exists|t: u64| r@ == clock_text(t as nat),
{
    let secs = unix_now_secs();
    clock_text_at(secs)
}

/// Answer to a generation request without a description.
pub const EMPTY_DESCRIPTION: &'static str = "请先描述你要做的应用";

/// Template used when a generation request names none.
pub const DEFAULT_TEMPLATE: &'static str = "minimal";

/// The template a generation request runs with.
pub open spec fn chosen_template(template: Seq<char>) -> Seq<char> {
    if template.len() == 0 {
        DEFAULT_TEMPLATE@
    } else {
        template
    }
}

/// Checks a generation request: the trimmed description, which must not be empty, and the
/// template to use.
pub fn generation_inputs(description: &str, template: &str) -> (r: Result<
    (String, String),
    String,
>)
    ensures
        match r {
            Ok((d, t)) => {
                &&& trim(description@).len() > 0
                &&& d@ == trim(description@)
                &&& t@ == chosen_template(template@)
            },
            Err(e) => trim(description@).len() == 0 && e@ == EMPTY_DESCRIPTION@,
        },
{
    let chars = chars_of(description);
    let trimmed = trim_chars(&chars);
    if trimmed.len() == 0 {
        return Err(owned(EMPTY_DESCRIPTION));
    }
    let d = string_from_chars(&trimmed);
    let template_chars = chars_of(template);
    let t = if template_chars.len() == 0 {
        owned(DEFAULT_TEMPLATE)
    } else {
        owned(template)
    };
    Ok((d, t))
}

/// Name of the directory that a generation writes its project to.
pub open spec fn project_dir_name_of(description: Seq<char>, nanos: nat) -> Seq<char> {
    slug_of(description) + seq!['_'] + decimal(nanos)
}

/// Name of the directory for a project generated from `description` at the given
/// nanosecond of the clock: the description's slug, `_` and the nanoseconds.
pub fn project_dir_name(description: &str, nanos: u32) -> (r: String)
    ensures
        r@ == project_dir_name_of(description@, nanos as nat),
{
    let slug = slugify(description);
    let mut out = chars_of(slug.as_str());
    out.push('_');
    push_decimal(&mut out, nanos as u64);
    string_from_chars(&out)
}

/// Name of the directory for a project generated now from `description`.
pub fn new_project_dir_name(description: &str) -> (r: String)
    ensures
        exists|n: u32| n < 1_000_000_000 && r@ == project_dir_name_of(description@, n as nat),
{
    let nanos = unix_now_subsec_nanos();
    project_dir_name(description, nanos)
}

/// Tag of every generated app.
pub const GENERATED_TAG: &'static str = "办公效率";

/// The view of an optional string slice.
pub open spec fn opt_str_view(v: Option<&str>) -> Option<Seq<char>> {
    match v {
        Some(s) => Some(s@),
        None => None,
    }
}

/// The market entry for the app generated as number `count + 1`: named after its manifest
/// when that has a name, else after its description.
pub open spec fn generated_entry(
    count: nat,
    manifest_name: Option<Seq<char>>,
    description: Seq<char>,
    template: Seq<char>,
    source: Seq<char>,
    created_at: Seq<char>,
) -> MarketAppView {
    MarketAppView {
        id: "gen_"@ + decimal(count + 1),
        name: match manifest_name {
            Some(n) => n,
            None => description,
        },
        description,
        tags: seq![GENERATED_TAG@],
        platforms: seq!["网页"@, "手机"@, "电脑"@],
        template,
        source,
        created_at,
    }
}

/// The market entry for a freshly generated app, the market holding `count` entries.
pub fn generated_app(
    count: usize,
    manifest_name: Option<&str>,
    description: &str,
    template: &str,
    source: &str,
    created_at: &str,
) -> (a: MarketApp)
    requires
        count < usize::MAX,
    ensures
        a@ == generated_entry(
            count as nat,
            opt_str_view(manifest_name),
            description@,
            template@,
            source@,
            created_at@,
        ),
{
    let mut id: Vec<char> = Vec::new();
    extend_str(&mut id, "gen_");
    push_decimal(&mut id, (count + 1) as u64);
    let name = match manifest_name {
        Some(n) => owned(n),
        None => owned(description),
    };
    let tag_list = vec![GENERATED_TAG];
    let platform_list = vec!["网页", "手机", "电脑"];
    assert(slice_views(tag_list@) =~= seq![GENERATED_TAG@]);
    assert(slice_views(platform_list@) =~= seq!["网页"@, "手机"@, "电脑"@]);
    MarketApp {
        id: string_from_chars(&id),
        name,
        description: owned(description),
        tags: owned_strings(&tag_list),
        platforms: owned_strings(&platform_list),
        template: owned(template),
        source: owned(source),
        created_at: owned(created_at),
    }
}

/// Adds the entry of a freshly generated app to the market, stamped with the current time.
pub fn record_generated(
    apps: &mut Vec<MarketApp>,
    manifest_name: Option<&str>,
    description: &str,
    template: &str,
    source: &str,
)
    requires
        old(apps)@.len() < usize::MAX,
    ensures
        final(apps)@.len() == old(apps)@.len() + 1,
        final(apps)@.subrange(0, old(apps)@.len() as int) == old(apps)@,
        exists|t: u64|
            (#[trigger] final(apps)@[old(apps)@.len() as int])@ == generated_entry(
                old(apps)@.len() as nat,
                opt_str_view(manifest_name),
                description@,
                template@,
                source@,
                clock_text(t as nat),
            ),
{
    let now = chrono_now();
    let entry = generated_app(apps.len(), manifest_name, description, template, source, now.as_str());
    apps.push(entry);
    assert(apps@.subrange(0, old(apps)@.len() as int) =~= old(apps)@);
}

/// Where the picture of a template is served.
pub open spec fn template_image_path(name: Seq<char>) -> Seq<char> {
    "/static/templates/"@ + name + ".png"@
}

/// Where the picture of the template `name` is served.
pub fn template_image(name: &str) -> (r: String)
    ensures
        r@ == template_image_path(name@),
{
    let mut out: Vec<char> = Vec::new();
    extend_str(&mut out, "/static/templates/");
    extend_str(&mut out, name);
    extend_str(&mut out, ".png");
    string_from_chars(&out)
}

/// A template as the market lists it.
pub struct TemplateInfo {
    pub name: &'static str,
    pub description: &'static str,
    pub image: String,
}

/// The available templates with the paths of their pictures.
pub fn template_catalogue() -> (v: Vec<TemplateInfo>)
    ensures
        v@.len() == template_table().len(),
        forall|i: int|
            0 <= i < v@.len() ==> {
                &&& (#[trigger] v@[i]).name@ == template_table()[i].0
                &&& v@[i].description@ == template_table()[i].1
                &&& v@[i].image@ == template_image_path(template_table()[i].0)
            },
{
    let table = templates();
    let mut v: Vec<TemplateInfo> = Vec::new();
    let mut i: usize = 0;
    while i < table.len()
        invariant
            i <= table.len(),
            v@.len() == i,
            pair_views(table@) == template_table(),
            forall|k: int|
                0 <= k < i ==> {
                    &&& (#[trigger] v@[k]).name@ == template_table()[k].0
                    &&& v@[k].description@ == template_table()[k].1
                    &&& v@[k].image@ == template_image_path(template_table()[k].0)
                },
        decreases table.len() - i,
    {
        let (name, description) = table[i];
        assert(pair_views(table@)[i as int] == (name@, description@));
        let image = template_image(name);
        v.push(TemplateInfo { name, description, image });
        i = i + 1;
    }
    v
}

} // verus!
