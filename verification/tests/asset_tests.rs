use jaya::asset::asset;
use jaya::asset::get_asset_from_manifest;
use jaya::asset::Manifest;

const MANIFEST: &str = r#"{
  "src/resources/assets/app.ts": { "file": "assets/app-4ed993c7.js", "src": "src/resources/assets/app.ts", "isEntry": true },
  "src/resources/assets/app.css": { "file": "assets/app-9f1a.css" },
  "src/resources/assets/nofile.png": { "src": "x" },
  "src/resources/assets/number.png": { "file": 3 },
  "src/resources/assets/flat.png": "assets/flat.png"
}"#;

#[test]
fn without_a_manifest_assets_come_from_the_development_server() {
    assert_eq!(asset("/app.ts", None), "http://localhost:5173/src/resources/assets/app.ts");
    assert_eq!(asset("", None), "http://localhost:5173/src/resources/assets");
}

#[test]
fn a_built_asset_is_found_at_its_file() {
    let m = Manifest::parse(MANIFEST).unwrap();
    assert_eq!(asset("/app.ts", Some(&m)), "/assets/app-4ed993c7.js");
    assert_eq!(get_asset_from_manifest(&m, "/app.css"), "/assets/app-9f1a.css");
}

#[test]
fn an_asset_that_the_manifest_does_not_name_keeps_its_path() {
    let m = Manifest::parse(MANIFEST).unwrap();
    assert_eq!(get_asset_from_manifest(&m, "/missing.js"), "/missing.js");
    assert_eq!(get_asset_from_manifest(&m, "/nofile.png"), "/nofile.png");
    assert_eq!(get_asset_from_manifest(&m, "/number.png"), "/number.png");
    assert_eq!(get_asset_from_manifest(&m, "/flat.png"), "/flat.png");
    assert_eq!(asset("app.ts", Some(&m)), "app.ts");
}

#[test]
fn the_manifest_names_files_by_key() {
    let m = Manifest::parse(MANIFEST).unwrap();
    assert_eq!(m.file("src/resources/assets/app.ts").as_deref(), Some("assets/app-4ed993c7.js"));
    assert_eq!(m.file("src/resources/assets/nofile.png"), None);
    assert_eq!(m.file("/app.ts"), None);
    assert_eq!(m.file(""), None);
}

#[test]
fn a_text_that_is_no_json_is_no_manifest() {
    assert!(Manifest::parse("").is_none());
    assert!(Manifest::parse("{").is_none());
    assert!(Manifest::parse("not json").is_none());
    assert!(Manifest::parse("{\"a\": }").is_none());
}

#[test]
fn a_document_that_is_no_object_names_nothing() {
    for text in ["null", "[]", "3", "\"src/resources/assets/a\"", "{}"] {
        let m = Manifest::parse(text).unwrap();
        assert_eq!(m.file("src/resources/assets/a"), None);
        assert_eq!(get_asset_from_manifest(&m, "/a"), "/a");
    }
}

#[test]
fn an_asset_is_located_at_its_file_or_at_its_path() {
    assert_eq!(jaya::asset::locate(Some("assets/a.js".to_string()), "/a.ts"), "/assets/a.js");
    assert_eq!(jaya::asset::locate(Some(String::new()), "/a.ts"), "/");
    assert_eq!(jaya::asset::locate(None, "/a.ts"), "/a.ts");
    assert_eq!(jaya::asset::locate(None, ""), "");
}

#[test]
fn the_key_of_an_asset() {
    assert_eq!(jaya::asset::manifest_key("/app.ts"), "src/resources/assets/app.ts");
    assert_eq!(jaya::asset::manifest_key(""), "src/resources/assets");
}
