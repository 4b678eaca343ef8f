use spotr::api::{get_auth_header, play_url, player_request, shows_current_after, HttpMethod};
use spotr::args::{plan_run, RunPlan, SubCommand};
use spotr::auth::encode_query_string;
use spotr::config::{AuthTokens, Config, Defaults};
use spotr::http::{decimal_string, http_response};
use spotr::redirect::{find_value, parse_query, parse_redirect, parse_request_target};
use spotr::token::{check_token_response, exchange_code_form, AuthError, TokenResponse};

fn config(access: Option<&str>, refresh: Option<&str>, playlist: Option<&str>, device: Option<&str>) -> Config {
    Config {
        auth: AuthTokens {
            refresh_token: refresh.map(|s| s.to_string()),
            access_token: access.map(|s| s.to_string()),
        },
        defaults: Defaults {
            playlist: playlist.map(|s| s.to_string()),
            device: device.map(|s| s.to_string()),
        },
    }
}

#[test]
fn decimal_strings() {
    assert_eq!(decimal_string(0), "0");
    assert_eq!(decimal_string(7), "7");
    assert_eq!(decimal_string(10), "10");
    assert_eq!(decimal_string(1234), "1234");
    assert_eq!(decimal_string(usize::MAX), usize::MAX.to_string());
}

#[test]
fn responses_carry_byte_length() {
    assert_eq!(http_response("200 OK", ""), "HTTP/1.1 200 OK\r\ncontent-length: 0\r\n\r\n");
    assert_eq!(http_response("200 OK", "héllo"), "HTTP/1.1 200 OK\r\ncontent-length: 6\r\n\r\nhéllo");
}

#[test]
fn request_targets() {
    assert_eq!(parse_request_target("GET /?a=1 HTTP/1.1\r\n").as_deref(), Some("/?a=1"));
    assert_eq!(parse_request_target("  GET   /x  HTTP/1.1").as_deref(), Some("/x"));
    assert_eq!(parse_request_target("GET"), None);
    assert_eq!(parse_request_target(""), None);
}

#[test]
fn queries() {
    assert_eq!(parse_query("/?a=1&b=2#frag").as_deref(), Some("a=1&b=2"));
    assert_eq!(parse_query("/path").as_deref(), None);
    assert_eq!(parse_query("/?").as_deref(), Some(""));
    assert_eq!(parse_query("/?x?y").as_deref(), Some("x?y"));
}

#[test]
fn redirect_params_are_decoded() {
    let p = parse_redirect("GET /?code=A%20B&state=x+y&code=second HTTP/1.1");
    assert_eq!(p.code.as_deref(), Some("A B"));
    assert_eq!(p.state.as_deref(), Some("x y"));
    let p = parse_redirect("GET /?error=access_denied&state=s HTTP/1.1");
    assert_eq!(p.code, None);
    assert_eq!(p.state.as_deref(), Some("s"));
    let p = parse_redirect("garbage");
    assert_eq!(p.code, None);
    assert_eq!(p.state, None);
}

#[test]
fn first_matching_value() {
    let ps = vec![
        ("a".to_string(), "1".to_string()),
        ("b".to_string(), "2".to_string()),
        ("a".to_string(), "3".to_string()),
    ];
    assert_eq!(find_value(&ps, &"a".to_string()).as_deref(), Some("1"));
    assert_eq!(find_value(&ps, &"b".to_string()).as_deref(), Some("2"));
    assert_eq!(find_value(&ps, &"c".to_string()), None);
}

#[test]
fn query_encoding_escapes() {
    let ps = vec![
        ("k y".to_string(), "a&b=c".to_string()),
        ("n".to_string(), "é/~".to_string()),
    ];
    assert_eq!(encode_query_string(&ps), "k+y=a%26b%3Dc&n=%C3%A9%2F%7E");
    assert_eq!(encode_query_string(&vec![]), "");
}

#[test]
fn code_form() {
    let f = exchange_code_form("C", "V", "id", "http://r");
    let names: Vec<&str> = f.iter().map(|p| p.0.as_str()).collect();
    assert_eq!(names, vec!["grant_type", "code", "redirect_uri", "client_id", "code_verifier"]);
    assert_eq!(f[4].1, "V");
    assert_eq!(f[1].1, "C");
}

#[test]
fn token_response_status() {
    let ok = TokenResponse { access_token: "A".to_string(), refresh_token: None, expires_in: Some(1) };
    let r = check_token_response(200, "{}".to_string(), Some(ok)).unwrap();
    assert_eq!(r.access_token, "A");
    assert_eq!(r.expires_in, Some(1));
    let bad = TokenResponse { access_token: "A".to_string(), refresh_token: None, expires_in: None };
    match check_token_response(300, "moved".to_string(), Some(bad)) {
        Err(AuthError::TokenExchange { status, body }) => {
            assert_eq!(status, 300);
            assert_eq!(body, "moved");
        }
        _ => panic!("a 3xx is no token response"),
    }
}

#[test]
fn auth_header() {
    let (k, v) = get_auth_header(&config(Some("tok"), None, None, None)).unwrap();
    assert_eq!(k, "Authorization");
    assert_eq!(v, "Bearer tok");
    assert!(matches!(get_auth_header(&config(None, Some("r"), None, None)), Err(AuthError::MissingAccessToken)));
}

#[test]
fn play_urls() {
    assert_eq!(play_url(&config(None, None, None, None)), "https://api.spotify.com/v1/me/player/play");
    assert_eq!(
        play_url(&config(None, None, None, Some("d1"))),
        "https://api.spotify.com/v1/me/player/play?device_id=d1"
    );
}

#[test]
fn player_requests() {
    let with_playlist = config(Some("a"), None, Some("pl"), Some("d"));
    let (m, u) = player_request(SubCommand::Play, &with_playlist).unwrap();
    assert_eq!(m, HttpMethod::Put);
    assert_eq!(u, "https://api.spotify.com/v1/me/player/play?device_id=d");
    assert!(player_request(SubCommand::Play, &config(Some("a"), None, None, None)).is_none());
    let (m, u) = player_request(SubCommand::Pause, &with_playlist).unwrap();
    assert_eq!((m, u.as_str()), (HttpMethod::Put, "https://api.spotify.com/v1/me/player/pause"));
    let (m, u) = player_request(SubCommand::Skip, &with_playlist).unwrap();
    assert_eq!((m, u.as_str()), (HttpMethod::Post, "https://api.spotify.com/v1/me/player/next"));
    let (m, u) = player_request(SubCommand::Back, &with_playlist).unwrap();
    assert_eq!((m, u.as_str()), (HttpMethod::Post, "https://api.spotify.com/v1/me/player/previous"));
    let (m, u) = player_request(SubCommand::Current, &with_playlist).unwrap();
    assert_eq!((m, u.as_str()), (HttpMethod::Get, "https://api.spotify.com/v1/me/player/currently-playing"));
    assert!(player_request(SubCommand::Alias, &with_playlist).is_none());
    assert!(shows_current_after(SubCommand::Skip));
    assert!(!shows_current_after(SubCommand::Pause));
}

#[test]
fn run_plans() {
    let none = Config::default();
    let logged = config(None, Some("r"), None, None);
    assert_eq!(plan_run(SubCommand::Login, &none), RunPlan::Login);
    assert_eq!(plan_run(SubCommand::Play, &none), RunPlan::NotLoggedIn);
    assert_eq!(plan_run(SubCommand::Play, &logged), RunPlan::RefreshThenRun);
    assert_eq!(plan_run(SubCommand::Login, &logged), RunPlan::Login);
}
