use sparrow_db::studio::{asset_path, serve_file, studio_redirect, StudioBody};

#[test]
fn asset_paths_lose_leading_slashes() {
    assert_eq!(asset_path("//assets/app.js"), "assets/app.js");
    assert_eq!(asset_path("index.html"), "index.html");
    assert_eq!(asset_path("/"), "");
}

#[test]
fn assets_are_served_with_their_type() {
    let r = serve_file("assets/app.js", true, true);
    assert_eq!(r.status, 200);
    assert_eq!(r.body, StudioBody::Asset);
    assert_eq!(r.content_type.as_deref(), Some("text/javascript"));
    assert!(r.long_cache);
    let r = serve_file("index.html", true, true);
    assert_eq!(r.content_type.as_deref(), Some("text/html"));
    assert!(!r.long_cache);
    let r = serve_file("LICENSE", true, true);
    assert_eq!(r.content_type.as_deref(), Some("application/octet-stream"));
}

#[test]
fn unknown_paths_fall_back_to_the_index() {
    let r = serve_file("settings/tokens", false, true);
    assert_eq!(r.status, 200);
    assert_eq!(r.body, StudioBody::Index);
    assert_eq!(r.content_type.as_deref(), Some("text/html; charset=utf-8"));
    let r = serve_file("settings/tokens", false, false);
    assert_eq!(r.status, 404);
    assert_eq!(r.body, StudioBody::NotBuilt);
    assert!(r.content_type.is_none());
}

#[test]
fn redirect_bare_studio() {
    let (status, location) = studio_redirect();
    assert_eq!(status, 301);
    assert_eq!(location, "/__studio/");
}

#[test]
fn index_returns_200() {
    let r = serve_file("index.html", true, true);
    assert_eq!(r.status, 200);
}

#[test]
fn spa_fallback_unknown_path() {
    // SPA fallback serves index.html with 200
    let r = serve_file(&asset_path("some/unknown/route"), false, true);
    assert_eq!(r.status, 200);
    assert_eq!(r.body, StudioBody::Index);
}
