use hud::server::{
    acceptable_server, capture_token, cover_target, cover_target_within, fetch_target, find_origin,
    guard_target, login_url, member_ws_url, member_ws_url_within, open_target, origins_match,
    same_origin, socket_scheme, socket_text, token_from_url, valid_server, UrlOrigin, UrlParts,
    URL_LIMIT,
};

fn origin(scheme: &str, host: &str, port: u16) -> Option<UrlOrigin> {
    Some(UrlOrigin {
        scheme: scheme.to_string(),
        host: host.to_string(),
        port,
    })
}

fn parts(path: &str, fragment: Option<&str>, query: &[(&str, &str)]) -> UrlParts {
    UrlParts {
        href: format!("https://h{path}"),
        scheme: "https".to_string(),
        host: Some("h".to_string()),
        port: Some(443),
        path: path.to_string(),
        fragment: fragment.map(str::to_string),
        query: query
            .iter()
            .map(|(k, v)| (k.to_string(), v.to_string()))
            .collect(),
    }
}

fn url(s: &str) -> UrlParts {
    UrlParts::parse(s).unwrap()
}

/// A server whose host takes thousands of characters once written in ASCII, more than a reader
/// takes back.
fn long_host_server() -> String {
    let label: String = (0..1000u32)
        .map(|i| char::from_u32(0x9F00 - 20 * i).unwrap())
        .collect();
    format!("http://{label}/")
}

#[test]
fn token_capture_is_origin_gated() {
    let base = url("http://localhost:8080");
    let good = url("http://localhost:8080/auth/desktop/complete#token=abc-123");
    let evil = url("https://evil.com/auth/desktop/complete#token=stolen");
    assert!(same_origin(&good, &base));
    assert!(!same_origin(&evil, &base));
    assert_eq!(token_from_url(&good).as_deref(), Some("abc-123"));
    let q = UrlParts::parse("http://localhost:8080/auth/desktop/complete?token=q-1").unwrap();
    assert_eq!(token_from_url(&q).as_deref(), Some("q-1"));
    assert_eq!(capture_token(&good, &base).as_deref(), Some("abc-123"));
    assert_eq!(capture_token(&evil, &base), None);
}

#[test]
fn server_url_must_be_http_with_host() {
    assert!(valid_server("http://localhost:8080"));
    assert!(valid_server("https://org.example.com"));
    assert!(!valid_server("ftp://x"));
    assert!(!valid_server("not a url"));
    assert!(!valid_server(""));
}

#[test]
fn member_ws_url_swaps_scheme_and_path() {
    assert_eq!(
        member_ws_url("http://localhost:8080").unwrap(),
        "ws://localhost:8080/ws/member"
    );
    assert_eq!(
        member_ws_url("https://org.example.com").unwrap(),
        "wss://org.example.com/ws/member"
    );
    assert!(member_ws_url("not a url").is_err());
}

#[test]
fn a_socket_url_keeps_the_port_and_drops_path_and_query() {
    assert_eq!(
        member_ws_url("https://h:80/a/b/?x=1").unwrap(),
        "wss://h:80/ws/member"
    );
    assert_eq!(
        member_ws_url("http://h:443/#top/").unwrap(),
        "ws://h:443/ws/member#top"
    );
    assert_eq!(
        member_ws_url("ftp://h/").unwrap_err(),
        "unsupported scheme: ftp"
    );
    assert_eq!(
        member_ws_url("h").unwrap_err(),
        "relative URL without a base"
    );
}

#[test]
fn each_web_scheme_has_its_socket_scheme() {
    assert_eq!(socket_scheme("http"), Ok("ws"));
    assert_eq!(socket_scheme("https"), Ok("wss"));
    assert_eq!(
        socket_scheme("HTTP"),
        Err("unsupported scheme: HTTP".to_string())
    );
}

#[test]
fn an_acceptable_server_has_a_web_scheme_and_a_host() {
    assert!(acceptable_server(&parts("/", None, &[])));
    let mut u = parts("/", None, &[]);
    u.host = None;
    assert!(!acceptable_server(&u));
    u.host = Some("h".to_string());
    u.scheme = "ws".to_string();
    assert!(!acceptable_server(&u));
}

#[test]
fn a_url_is_read_into_its_parts() {
    let u = UrlParts::parse("HTTPS://h/a%20b?x=1&token=a+b%21#f&token=z").unwrap();
    assert_eq!(u.href, "https://h/a%20b?x=1&token=a+b%21#f&token=z");
    assert_eq!(u.scheme, "https");
    assert_eq!(u.host.as_deref(), Some("h"));
    assert_eq!(u.port, Some(443));
    assert_eq!(u.path, "/a%20b");
    assert_eq!(u.fragment.as_deref(), Some("f&token=z"));
    assert_eq!(
        u.query,
        vec![
            ("x".to_string(), "1".to_string()),
            ("token".to_string(), "a b!".to_string())
        ]
    );
    assert_eq!(token_from_url(&u).as_deref(), Some("z"));
    assert!(UrlParts::parse("http://").is_err());
}

#[test]
fn the_fragment_speaks_before_the_query() {
    let q: &[(&str, &str)] = &[("a", "1"), ("token", "q"), ("token", "r")];
    assert_eq!(token_from_url(&parts("/", None, q)).as_deref(), Some("q"));
    assert_eq!(
        token_from_url(&parts("/", Some("x&tok&token=f&token=g"), q)).as_deref(),
        Some("f")
    );
    assert_eq!(
        token_from_url(&parts("/", Some("xtoken=f"), q)).as_deref(),
        Some("q")
    );
    assert_eq!(
        token_from_url(&parts("/", Some("token="), q)).as_deref(),
        Some("")
    );
    assert_eq!(token_from_url(&parts("/", Some(""), &[])), None);
}

#[test]
fn only_the_completion_page_of_the_server_hands_over_a_token() {
    let ours = parts("/", None, &[]);
    let page = parts("/auth/desktop/complete", Some("token=t"), &[]);
    assert_eq!(capture_token(&page, &ours).as_deref(), Some("t"));
    for foreign in [
        UrlParts {
            scheme: "http".to_string(),
            ..page.clone()
        },
        UrlParts {
            host: Some("g".to_string()),
            ..page.clone()
        },
        UrlParts {
            port: Some(8443),
            ..page.clone()
        },
    ] {
        assert_eq!(capture_token(&foreign, &ours), None);
    }
    let other = parts("/auth/desktop/complete/", Some("token=t"), &[]);
    assert_eq!(capture_token(&other, &ours), None);
    let opaque = UrlParts {
        scheme: "data".to_string(),
        ..page.clone()
    };
    assert_eq!(capture_token(&opaque, &opaque), None);
    assert_eq!(
        capture_token(
            &url("https://h/auth/desktop/complete?token=t"),
            &url("https://h:443")
        )
        .as_deref(),
        Some("t")
    );
    assert_eq!(
        capture_token(
            &url("https://h:8443/auth/desktop/complete?token=t"),
            &url("https://h")
        ),
        None
    );
}

#[test]
fn opaque_origins_are_never_the_same() {
    let same = |a: &str, b: &str| same_origin(&url(a), &url(b));
    assert!(!same("data:text/plain,x", "data:text/plain,x"));
    assert!(!same("file:///a", "file:///a"));
    assert!(!same("custom://h/a", "custom://h/a"));
    assert!(same("http://H:80/a", "http://h/b"));
    assert!(same("blob:http://h/x", "http://h"));
    assert!(same("http://[::1]/a", "http://[0:0::1]:80/b"));
    assert!(same("http://127.1/", "http://127.0.0.1/"));
    assert!(!origins_match(&None, &None));
    assert!(origins_match(
        &origin("http", "h", 80),
        &origin("http", "h", 80)
    ));
    assert!(!origins_match(
        &origin("http", "h", 80),
        &origin("http", "h", 81)
    ));
}

#[test]
fn the_bearer_token_never_leaves_the_server() {
    let server = "http://localhost:8080";
    assert_eq!(
        fetch_target(server, "/api/events").unwrap(),
        "http://localhost:8080/api/events"
    );
    for path in [
        "//evil.com/x",
        "https://evil.com",
        "http://localhost:8081/x",
        "\\\\evil.com",
        "/\t/evil.com",
    ] {
        assert_eq!(
            fetch_target(server, path).unwrap_err(),
            "refusing cross-origin request",
            "{path}"
        );
        assert_eq!(
            open_target(server, path).unwrap_err(),
            "refusing cross-origin open",
            "{path}"
        );
    }
    assert_eq!(
        open_target(server, "members/1?tab=a").unwrap(),
        "http://localhost:8080/members/1?tab=a"
    );
    assert!(fetch_target("nonsense", "/x").is_err());
    assert!(fetch_target(server, "http://[").is_err());
}

#[test]
fn a_path_with_many_colons_is_still_a_path() {
    let path = format!("/search?q={}", ":".repeat(5000));
    assert_eq!(
        fetch_target("https://h", &path),
        Ok(format!("https://h{path}"))
    );
    assert_eq!(
        open_target("https://h", &path),
        Ok(format!("https://h{path}"))
    );
    let page = format!("https://h/auth/desktop/complete?a={}#token=t", ":".repeat(5000));
    assert_eq!(
        capture_token(&url(&page), &url("https://h")).as_deref(),
        Some("t")
    );
    let long = "a".repeat(0x0100_0000);
    assert_eq!(
        fetch_target("https://h", &long).map(|t| t.len()),
        Ok(long.len() + "https://h/".len())
    );
}

#[test]
fn a_target_is_given_out_only_for_the_servers_origin() {
    let ours = parts("/", None, &[]);
    let target = parts("/x", None, &[]);
    assert_eq!(
        guard_target(Ok(target.clone()), &ours, "no"),
        Ok("https://h/x".to_string())
    );
    let foreign = UrlParts {
        port: Some(80),
        ..target
    };
    assert_eq!(
        guard_target(Ok(foreign.clone()), &ours, "no"),
        Err("no".to_string())
    );
    let opaque = UrlParts {
        scheme: "data".to_string(),
        ..foreign
    };
    assert_eq!(
        guard_target(Ok(opaque.clone()), &opaque, "no"),
        Err("no".to_string())
    );
    assert_eq!(
        guard_target(Err("bad".to_string()), &ours, "no"),
        Err("bad".to_string())
    );
}

#[test]
fn a_host_that_cannot_be_read_back_is_served_all_the_same() {
    let server = long_host_server();
    assert!(valid_server(&server));
    let fetched = fetch_target(&server, "/api/events").unwrap();
    assert!(fetched.starts_with("http://xn--"));
    assert!(fetched.ends_with("/api/events"));
    assert!(UrlParts::parse(&fetched).is_err());
    assert_eq!(open_target(&server, "/api/events"), Ok(fetched));
    assert_eq!(
        fetch_target(&server, "//evil.com/x").unwrap_err(),
        "refusing cross-origin request"
    );
    let cover = cover_target(&server, "k").unwrap();
    assert!(cover.ends_with("/api/voice/bed/cover?key=k"));
    let socket = member_ws_url(&server).unwrap();
    assert!(socket.starts_with("ws://xn--"));
    assert!(socket.ends_with("/ws/member"));
    let mut page = url(&server);
    page.path = "/auth/desktop/complete".to_string();
    page.fragment = Some("token=t".to_string());
    assert_eq!(capture_token(&page, &url(&server)).as_deref(), Some("t"));
}

#[test]
fn a_cover_is_asked_for_by_its_key() {
    assert_eq!(
        cover_target("https://h/base/", "bed/combat & more").unwrap(),
        "https://h/api/voice/bed/cover?key=bed%2Fcombat+%26+more"
    );
    assert!(cover_target("nonsense", "k").is_err());
}

#[test]
fn signing_in_starts_on_the_server() {
    assert_eq!(
        login_url("https://h").unwrap(),
        "https://h/auth/login?desktop=1"
    );
    assert!(login_url("nonsense").is_err());
}

#[test]
fn the_origin_of_a_blob_is_that_of_the_url_inside() {
    let of = |s: &str| find_origin(&url(s));
    assert_eq!(of("https://H:8443/x"), origin("https", "h", 8443));
    assert_eq!(of("ftp://h/"), origin("ftp", "h", 21));
    assert_eq!(of("wss://h/"), origin("wss", "h", 443));
    assert_eq!(of("blob:https://h/x"), origin("https", "h", 443));
    let nested = format!("{}http://h/x", "blob:".repeat(300));
    assert_eq!(of(&nested), origin("http", "h", 80));
    assert_eq!(of("blob:x"), None);
    assert_eq!(of("data:text/plain,x"), None);
    assert_eq!(of("file:///x"), None);
}

#[test]
fn a_url_that_does_not_fit_the_limit_is_not_changed() {
    assert_eq!(
        member_ws_url_within("http://h"),
        Some(Ok("ws://h/ws/member".to_string()))
    );
    assert_eq!(
        member_ws_url_within("ftp://h"),
        Some(Err("unsupported scheme: ftp".to_string()))
    );
    assert!(matches!(member_ws_url_within("nonsense"), Some(Err(_))));
    assert_eq!(
        cover_target_within("http://h/", "k:é"),
        Some(Ok("http://h/api/voice/bed/cover?key=k%3A%C3%A9".to_string()))
    );
    assert!(matches!(cover_target_within("nonsense", "k"), Some(Err(_))));
    // The limit itself, on parts that are not read from a text.
    let u = parts("/", None, &[]);
    let used = u.href.len() as u64;
    assert!(u.leaves_room(URL_LIMIT - used, ""));
    assert!(!u.leaves_room(URL_LIMIT - used + 1, ""));
    assert!(u.leaves_room(URL_LIMIT - used - 24, "ab"));
    assert!(!u.leaves_room(URL_LIMIT - used - 23, "ab"));
}

#[test]
fn a_socket_url_is_given_out_without_trailing_slashes() {
    assert_eq!(
        socket_text(Some(parts("/a//", None, &[]))),
        Ok("https://h/a".to_string())
    );
    assert_eq!(socket_text(None), Err("set_scheme failed".to_string()));
}
