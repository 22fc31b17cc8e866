use aiapp::format::manifest::AppManifest;
use aiapp::pack::brand::{color_from_name, default_identifier, valid_identifier, Brand, BrandOverrides};
use aiapp::pack::capacitor::{capacitor_files, slug_name};
use aiapp::pack::target::{default_out_dir, render, PackConfig, PackTarget};
use aiapp::pack::tauri::{html_escape, json_escape, sanitize_crate, sanitize_segment, tauri_files};

#[test]
fn brand_defaults_from_manifest() {
    let m = AppManifest::new("My Todo", "todo", "my_todo");
    let b = Brand::from_manifest(&m, &BrandOverrides::default()).unwrap();
    assert_eq!(b.name, "my todo");
    assert_eq!(b.identifier, format!("aiapp.{}", m.app_id.replace('_', "")));
    assert_eq!(b.version, m.version);
    assert_eq!(b.color(), color_from_name("my todo"));
}

#[test]
fn overrides_win() {
    let m = AppManifest::new("x", "minimal", "x");
    let o = BrandOverrides {
        name: Some("My Brand".into()),
        identifier: Some("com.example.hello".into()),
        version: Some("9.9.9".into()),
        author: Some("me".into()),
        homepage: Some("https://example.com".into()),
        ..Default::default()
    };
    let b = Brand::from_manifest(&m, &o).unwrap();
    assert_eq!(b.name, "My Brand");
    assert_eq!(b.identifier, "com.example.hello");
    assert_eq!(b.version, "9.9.9");
    assert_eq!(b.homepage.as_deref(), Some("https://example.com"));
}

#[test]
fn rejects_bad_identifier() {
    let m = AppManifest::new("x", "minimal", "x");
    let o = BrandOverrides {
        identifier: Some("Bad Identifier!".into()),
        ..Default::default()
    };
    assert!(Brand::from_manifest(&m, &o).is_err());
    // A single segment is also invalid
    let o2 = BrandOverrides {
        identifier: Some("hello".into()),
        ..Default::default()
    };
    assert!(Brand::from_manifest(&m, &o2).is_err());
}

#[test]
fn render_replaces_placeholders() {
    assert_eq!(render("a{{X}}b", &[("X", "1")]), "a1b");
}

#[test]
fn target_parse() {
    assert_eq!(PackTarget::parse("tauri").unwrap(), PackTarget::Tauri);
    assert_eq!(PackTarget::parse("capacitor").unwrap(), PackTarget::Capacitor);
    assert!(PackTarget::parse("windows").is_err());
}

#[test]
fn target_parse_is_case_insensitive_and_names_round_trip() {
    assert_eq!(PackTarget::parse("CAP").unwrap(), PackTarget::Capacitor);
    assert_eq!(PackTarget::parse("Tauri").unwrap(), PackTarget::Tauri);
    for t in [PackTarget::Tauri, PackTarget::Capacitor] {
        assert_eq!(PackTarget::parse(t.as_str()).unwrap(), t);
    }
    assert_eq!(
        PackTarget::parse("Windows").unwrap_err(),
        "Unknown pack target `windows`, available: tauri / capacitor"
    );
}

#[test]
fn render_applies_pairs_in_order() {
    assert_eq!(render("{{A}}-{{B}}-{{A}}", &[("A", "x"), ("B", "{{A}}")]), "x-{{A}}-x");
    assert_eq!(render("no placeholders", &[("A", "x")]), "no placeholders");
}

#[test]
fn identifiers() {
    assert!(valid_identifier("com.example.hello"));
    assert!(!valid_identifier("hello"));
    assert!(!valid_identifier("com..x"));
    assert!(!valid_identifier("Com.example"));
    let m = AppManifest::new_at("x", "minimal", "x", 0);
    assert_eq!(default_identifier(&m), "app0");
}

#[test]
fn colors_depend_on_the_name_only() {
    assert_eq!(color_from_name("abc"), color_from_name("abc"));
    let m = AppManifest::new_at("x", "minimal", "abc", 0);
    let b = Brand::from_manifest(&m, &BrandOverrides::default()).unwrap();
    assert_eq!(b.color(), color_from_name("abc"));
}

#[test]
fn escapes_and_names() {
    assert_eq!(json_escape("a\"b\\c"), "a\\\"b\\\\c");
    assert_eq!(html_escape("<a href=\"x\">&</a>"), "&lt;a href=&quot;x&quot;&gt;&amp;&lt;/a&gt;");
    assert_eq!(sanitize_segment("a b/c"), "a_b_c");
    assert_eq!(sanitize_segment(""), "app");
    assert_eq!(sanitize_crate("com.example.todo"), "com_example_todo");
    assert_eq!(sanitize_crate("1x.y"), "aiapp_1x_y");
    assert_eq!(sanitize_crate("1abc.def"), "aiapp_1abc_def");
    assert_eq!(sanitize_crate("Com.x"), "aiapp_Com_x");
    assert_eq!(sanitize_crate(""), "aiapp_app");
    assert_eq!(slug_name("  My App "), "my-app");
    assert_eq!(slug_name("Ünïcode!"), "n-code");
    assert_eq!(slug_name("!!!"), "aiapp-app");
}

#[test]
fn default_output_directory_names() {
    let m = AppManifest::new_at("x", "minimal", "x", 0);
    let o = BrandOverrides { name: Some("My Todo!".into()), ..Default::default() };
    let b = Brand::from_manifest(&m, &o).unwrap();
    assert_eq!(default_out_dir(PackTarget::Tauri, &b), "My-Todo-tauri");
    let o = BrandOverrides { name: Some("???".into()), ..Default::default() };
    let b = Brand::from_manifest(&m, &o).unwrap();
    assert_eq!(default_out_dir(PackTarget::Capacitor, &b), "app-capacitor");
    let c = PackConfig::default();
    assert_eq!(c.target, PackTarget::Tauri);
    assert!(c.out_dir.is_none());
}

#[test]
fn tauri_scaffold_files() {
    let m = AppManifest::new_at("x", "todo", "x", 0);
    let o = BrandOverrides {
        name: Some("My Todo".into()),
        identifier: Some("com.example.todo".into()),
        author: Some("me".into()),
        homepage: Some("https://example.com".into()),
        ..Default::default()
    };
    let b = Brand::from_manifest(&m, &o).unwrap();
    let files = tauri_files("demo_app", &b);
    let paths: Vec<&str> = files.iter().map(|f| f.path.as_str()).collect();
    assert_eq!(
        paths,
        vec![
            "src-tauri/Cargo.toml",
            "src-tauri/build.rs",
            "src-tauri/tauri.conf.json",
            "src-tauri/src/main.rs",
            "src-tauri/src/aiapp_runner.rs",
            "ui/index.html",
            "README.md",
        ]
    );
    let conf = &files[2].contents;
    assert!(conf.contains("com.example.todo"));
    assert!(conf.contains("My Todo"));
    assert!(conf.contains("https://example.com"));
    assert!(!conf.contains("{{"));
    assert!(files[0].contents.contains("name = \"com_example_todo\""));
}

#[test]
fn capacitor_scaffold_files() {
    let m = AppManifest::new_at("x", "todo", "x", 0);
    let o = BrandOverrides {
        name: Some("My Todo".into()),
        identifier: Some("com.example.todo".into()),
        ..Default::default()
    };
    let b = Brand::from_manifest(&m, &o).unwrap();
    let files = capacitor_files(&b);
    let paths: Vec<&str> = files.iter().map(|f| f.path.as_str()).collect();
    assert_eq!(
        paths,
        vec!["www/index.html", "www/app.js", "package.json", "capacitor.config.ts", "README.md"]
    );
    assert!(files[3].contents.contains("com.example.todo"));
    assert!(files[2].contents.contains("capacitor"));
    assert!(files[2].contents.contains("\"name\": \"my-todo\""));
}

#[test]
fn brand_colors_are_warm() {
    for name in ["my todo", "x", "", "日本", "Brand 42", "zzzzzzzz"] {
        let (r, g, b) = color_from_name(name);
        assert!(r > b && r >= g && g >= b, "{name}: {r} {g} {b}");
    }
}

#[test]
fn parse_ignores_ascii_case() {
    for s in ["TAURI", "tAuRi", "Cap", "CAPACITOR"] {
        assert_eq!(PackTarget::parse(s).ok(), PackTarget::parse(&s.to_ascii_lowercase()).ok());
        assert!(PackTarget::parse(s).is_ok());
    }
}
