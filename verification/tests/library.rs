use asset_server::config::{Config, RuntimeMode};
use asset_server::error::{PathError, ServeError, WebError};
use asset_server::handler::{
    content_type_for, handle_request, reject_status, status_for_serve_error, success_status,
    RequestDecision, Roots,
};
use asset_server::paths::sanitize;
use asset_server::resolve::resolve;
use asset_server::routes::{route, AssetClass, RouteMatch};
use asset_server::runtime::{is_startup_fatal, next_phase, ServerEvent, ServerPhase};
use asset_server::strutil::{join_path, normalize_separators, str_eq};
use asset_server::utils::data_dir;

fn expect_asset(m: RouteMatch) -> (AssetClass, String) {
    match m {
        RouteMatch::Asset { class, capture } => (class, capture),
        RouteMatch::IndexPage => panic!("expected an asset match, got the index page"),
        RouteMatch::NoMatch => panic!("expected an asset match, got no match"),
    }
}

fn expect_serve(d: RequestDecision) -> (String, String) {
    match d {
        RequestDecision::Serve {
            file_path,
            content_type,
        } => (file_path, content_type),
        RequestDecision::Reject => panic!("expected a serve decision, got a rejection"),
    }
}

fn dev_roots() -> Roots {
    Roots::new(
        RuntimeMode::Development,
        String::from("/home/me/project"),
        String::from("/opt/app/bin"),
    )
}

fn prod_roots() -> Roots {
    Roots::new(
        RuntimeMode::Production,
        String::from("/home/me/project"),
        String::from("/opt/app/bin"),
    )
}

#[test]
fn routes_image_extensions() {
    for name in ["cat.jpg", "cat.png", "cat.webp", "cat.gif"] {
        let (class, capture) = expect_asset(route("GET", &format!("/img/{}", name)));
        assert_eq!(class, AssetClass::Image);
        assert_eq!(capture, name);
    }
}

#[test]
fn routes_other_classes() {
    let (class, capture) = expect_asset(route("GET", "/css/site.css"));
    assert_eq!(class, AssetClass::Stylesheet);
    assert_eq!(capture, "site.css");

    let (class, capture) = expect_asset(route("GET", "/scripts/app.js"));
    assert_eq!(class, AssetClass::Script);
    assert_eq!(capture, "app.js");

    let (class, capture) = expect_asset(route("GET", "/fonts/mono.ttf"));
    assert_eq!(class, AssetClass::Font);
    assert_eq!(capture, "mono.ttf");
}

#[test]
fn routes_index_forms() {
    assert!(matches!(route("GET", "/"), RouteMatch::IndexPage));
    assert!(matches!(route("GET", "/index.html"), RouteMatch::IndexPage));
}

#[test]
fn routes_reject_non_get() {
    assert!(matches!(route("POST", "/img/cat.png"), RouteMatch::NoMatch));
    assert!(matches!(route("PUT", "/"), RouteMatch::NoMatch));
    assert!(matches!(route("HEAD", "/index.html"), RouteMatch::NoMatch));
}

#[test]
fn routes_reject_wrong_extension_or_path() {
    assert!(matches!(route("GET", "/img/cat.css"), RouteMatch::NoMatch));
    assert!(matches!(route("GET", "/css/site.js"), RouteMatch::NoMatch));
    assert!(matches!(route("GET", "/scripts/app.ts"), RouteMatch::NoMatch));
    assert!(matches!(route("GET", "/fonts/mono.otf"), RouteMatch::NoMatch));
    assert!(matches!(route("GET", "/img/"), RouteMatch::NoMatch));
    assert!(matches!(route("GET", "/other/x.png"), RouteMatch::NoMatch));
    assert!(matches!(route("GET", ""), RouteMatch::NoMatch));
}

#[test]
fn routes_capture_may_cross_directories() {
    let (class, capture) = expect_asset(route("GET", "/img/gallery/cat.png"));
    assert_eq!(class, AssetClass::Image);
    assert_eq!(capture, "gallery/cat.png");
}

#[test]
fn sanitize_rejects_dotdot_segments() {
    for bad in [
        "..",
        "../x.png",
        "x/../y.png",
        "x/..",
        "..\\x.png",
        "x\\..\\y.png",
        "a/../../b.png",
        "../../../etc/passwd.png",
    ] {
        assert_eq!(sanitize(bad).err(), Some(PathError::Invalid), "{}", bad);
    }
}

#[test]
fn sanitize_rejects_empty_and_absolute() {
    assert_eq!(sanitize("").err(), Some(PathError::Invalid));
    assert_eq!(sanitize("/etc/passwd").err(), Some(PathError::Invalid));
    assert_eq!(sanitize("\\windows\\sys.css").err(), Some(PathError::Invalid));
    assert_eq!(sanitize("c:\\windows\\sys.css").err(), Some(PathError::Invalid));
}

#[test]
fn sanitize_accepts_clean_names_and_normalizes() {
    let p = sanitize("cat.png").unwrap();
    assert_eq!(p.as_str(), "cat.png");

    let p = sanitize("gallery\\summer\\cat.png").unwrap();
    assert_eq!(p.as_str(), "gallery/summer/cat.png");

    let p = sanitize("a..b/c.png").unwrap();
    assert_eq!(p.as_str(), "a..b/c.png");

    let p = sanitize("..hidden/x.css").unwrap();
    assert_eq!(p.as_str(), "..hidden/x.css");
}

#[test]
fn resolve_is_mode_consistent_for_every_class() {
    let classes = [
        AssetClass::Image,
        AssetClass::Stylesheet,
        AssetClass::Script,
        AssetClass::Font,
        AssetClass::Index,
    ];
    for class in classes {
        let dev = resolve(class, RuntimeMode::Development, "/cwd", "/exe");
        assert!(!dev.is_empty());
        assert!(dev.starts_with("/cwd/resources/"));

        let prod = resolve(class, RuntimeMode::Production, "/cwd", "/exe");
        assert!(!prod.is_empty());
        assert!(prod.starts_with("/exe/"));
        assert!(!prod.contains("resources"));
    }
}

#[test]
fn resolve_exact_roots() {
    assert_eq!(
        resolve(AssetClass::Image, RuntimeMode::Development, "/cwd", "/exe"),
        "/cwd/resources/static/open/img"
    );
    assert_eq!(
        resolve(AssetClass::Font, RuntimeMode::Production, "/cwd", "/exe"),
        "/exe/static/fonts"
    );
    assert_eq!(
        resolve(AssetClass::Index, RuntimeMode::Production, "/cwd", "/exe"),
        "/exe/static/open/index.html"
    );
}

#[test]
fn resolve_is_idempotent() {
    let classes = [
        AssetClass::Image,
        AssetClass::Stylesheet,
        AssetClass::Script,
        AssetClass::Font,
        AssetClass::Index,
    ];
    for class in classes {
        for mode in [RuntimeMode::Development, RuntimeMode::Production] {
            let first = resolve(class, mode, "/cwd", "/exe");
            let second = resolve(class, mode, "/cwd", "/exe");
            assert_eq!(first, second);
        }
    }
}

#[test]
fn handler_serves_image_round_trip() {
    let (path, ct) = expect_serve(handle_request("GET", "/img/cat.png", &dev_roots()));
    assert_eq!(path, "/home/me/project/resources/static/open/img/cat.png");
    assert_eq!(ct, "image/png");

    let (path, ct) = expect_serve(handle_request("GET", "/img/cat.png", &prod_roots()));
    assert_eq!(path, "/opt/app/bin/static/open/img/cat.png");
    assert_eq!(ct, "image/png");
}

#[test]
fn handler_rejects_traversal_uniformly() {
    let d = handle_request("GET", "/img/../../../etc/passwd.png", &dev_roots());
    assert!(matches!(d, RequestDecision::Reject));
    assert_eq!(reject_status(), 404);
}

#[test]
fn handler_missing_file_maps_to_not_found() {
    assert_eq!(status_for_serve_error(&ServeError::NotFound), 404);
    assert_eq!(status_for_serve_error(&ServeError::Denied), 500);
    assert_eq!(success_status(), 200);
}

#[test]
fn handler_index_aliases_agree() {
    let roots = prod_roots();
    let (p1, c1) = expect_serve(handle_request("GET", "/", &roots));
    let (p2, c2) = expect_serve(handle_request("GET", "/index.html", &roots));
    assert_eq!(p1, p2);
    assert_eq!(c1, c2);
    assert_eq!(p1, "/opt/app/bin/static/open/index.html");
    assert_eq!(c1, "text/html");
}

#[test]
fn handler_hundred_distinct_files() {
    let roots = dev_roots();
    for i in 0..100 {
        let name = format!("file{:03}.css", i);
        let (path, ct) = expect_serve(handle_request("GET", &format!("/css/{}", name), &roots));
        assert_eq!(
            path,
            format!("/home/me/project/resources/static/open/css/{}", name)
        );
        assert_eq!(ct, "text/css");
    }
}

#[test]
fn handler_content_types() {
    assert_eq!(content_type_for(AssetClass::Image, "a.jpg"), "image/jpeg");
    assert_eq!(content_type_for(AssetClass::Image, "a.webp"), "image/webp");
    assert_eq!(content_type_for(AssetClass::Image, "a.gif"), "image/gif");
    assert_eq!(content_type_for(AssetClass::Stylesheet, "a.css"), "text/css");
    assert_eq!(content_type_for(AssetClass::Script, "a.js"), "text/javascript");
    assert_eq!(content_type_for(AssetClass::Font, "a.ttf"), "font/ttf");
    assert_eq!(content_type_for(AssetClass::Index, ""), "text/html");
}

#[test]
fn config_default_matches_documented_values() {
    let c = Config::default();
    assert_eq!(c.log_level, "DEBUG");
    assert_eq!(c.server.workers, 4);
    assert_eq!(c.server.bind_address, "0.0.0.0");
    assert_eq!(c.server.port, 8000);
    assert_eq!(c.server.keep_alive, 10);
    assert!(c.debug);
}

#[test]
fn config_mode_follows_debug_flag() {
    let mut c = Config::default();
    c.debug = true;
    assert_eq!(c.runtime_mode(), RuntimeMode::Development);
    c.debug = false;
    assert_eq!(c.runtime_mode(), RuntimeMode::Production);
}

#[test]
fn config_path_under_data_dir() {
    if let Some(p) = Config::config_path() {
        assert!(p.ends_with("/asset_server/config.json"));
    }
}

#[test]
fn data_dir_carries_application_segment() {
    if let Some(d) = data_dir() {
        assert!(d.ends_with("/asset_server"));
    }
}

#[test]
fn web_error_is_internal_server_error() {
    let e = WebError::AnyhowWrapper(String::from("could not open file"));
    assert_eq!(e.status_code(), 500);
    assert_eq!(e.message(), "could not open file");
}

#[test]
fn runtime_phase_transitions() {
    assert_eq!(
        next_phase(ServerPhase::Starting, ServerEvent::BindSucceeded),
        ServerPhase::Listening
    );
    assert_eq!(
        next_phase(ServerPhase::Starting, ServerEvent::BindFailed),
        ServerPhase::Stopped
    );
    assert_eq!(
        next_phase(ServerPhase::Listening, ServerEvent::ConnectionDone),
        ServerPhase::Listening
    );
    assert_eq!(
        next_phase(ServerPhase::Listening, ServerEvent::TerminationSignal),
        ServerPhase::Draining
    );
    assert_eq!(
        next_phase(ServerPhase::Draining, ServerEvent::InFlightDrained),
        ServerPhase::Stopped
    );
    assert_eq!(
        next_phase(ServerPhase::Stopped, ServerEvent::ConnectionDone),
        ServerPhase::Stopped
    );
    assert!(is_startup_fatal(ServerPhase::Starting, ServerEvent::BindFailed));
    assert!(!is_startup_fatal(ServerPhase::Listening, ServerEvent::BindFailed));
}

#[test]
fn strutil_basics() {
    assert!(str_eq("abc", "abc"));
    assert!(!str_eq("abc", "abd"));
    assert_eq!(normalize_separators("a\\b/c"), "a/b/c");
    assert_eq!(join_path("/root", "a/b.css"), "/root/a/b.css");
}
