use huiyu_db_mapper::base::error::DatabaseError;
use huiyu_db_mapper::db::dameng::{options_from_parsed, parse_from_url, DamengDbRegister, ParsedUrl};

fn error_text(r: Result<huiyu_db_mapper::db::dameng::ConnectionOptions, DatabaseError>) -> String {
    match r {
        Err(DatabaseError::PoolCreateError(m)) => m,
        _ => "no error".to_string(),
    }
}

#[test]
fn dameng_url_with_query() {
    let o = parse_from_url(
        "dm://10.150.1.88:5234?schema=MEDILINK&useUnicode=true&characterEncoding=utf-8&useSSL=false&serverTimezone=Asia/Shanghai",
    )
    .unwrap();
    assert_eq!(o.server, "10.150.1.88");
    assert_eq!(o.port, 5234);
    assert_eq!(o.schema, "MEDILINK");
    assert_eq!(o.username, "");
    assert_eq!(o.password, "");
    assert_eq!(o.timeout, 30);
    assert!(!o.use_tls);
    assert_eq!(o.driver, "DM");
    assert_eq!(
        o.additional_params,
        vec![
            ("useUnicode".to_string(), "true".to_string()),
            ("characterEncoding".to_string(), "utf-8".to_string()),
            ("serverTimezone".to_string(), "Asia/Shanghai".to_string()),
        ]
    );
}

#[test]
fn dameng_url_prefixes_and_path_schema() {
    let o = DamengDbRegister::parse_from_url("  // dm://u:p@h:1234/SCH?timeout=10&useSSL=true&driver=X ").unwrap();
    assert_eq!((o.server.as_str(), o.port), ("h", 1234));
    assert_eq!((o.username.as_str(), o.password.as_str()), ("u", "p"));
    assert_eq!(o.schema, "SCH");
    assert_eq!(o.timeout, 10);
    assert!(o.use_tls);
    assert_eq!(o.driver, "X");
    let o = parse_from_url("//h:1?timeout=abc").unwrap();
    assert_eq!((o.server.as_str(), o.port, o.timeout), ("h", 1, 30));
    let o = parse_from_url("dm://u@h:2").unwrap();
    assert_eq!((o.username.as_str(), o.password.as_str()), ("u", ""));
}

#[test]
fn dameng_url_errors() {
    assert_eq!(error_text(parse_from_url("http://h:1")), "不支持的协议: http, 期望 'dm'");
    assert_eq!(error_text(parse_from_url("dm://h")), "缺少端口");
    assert_eq!(error_text(parse_from_url("dm:nothing")), "缺少 host");
    assert_eq!(error_text(parse_from_url("not a url")), "relative URL without a base");
}

#[test]
fn options_from_parts() {
    let p = ParsedUrl {
        scheme: "dm".to_string(),
        host: Some("h".to_string()),
        port: Some(9),
        username: String::new(),
        password: Some("ignored".to_string()),
        path: "/".to_string(),
        query_pairs: vec![("schema".to_string(), "A".to_string()), ("schema".to_string(), "B".to_string())],
    };
    let o = options_from_parsed(p).unwrap();
    assert_eq!(o.schema, "B");
    assert_eq!(o.password, "");
    let q = ParsedUrl {
        scheme: "dm".to_string(),
        host: None,
        port: Some(9),
        username: String::new(),
        password: None,
        path: String::new(),
        query_pairs: Vec::new(),
    };
    assert_eq!(error_text(options_from_parsed(q)), "缺少 host");
}

#[test]
fn dameng_prefixes_read_alike() {
    let a = parse_from_url("// dm://h:5236/SYSDBA").unwrap();
    let b = parse_from_url("dm://h:5236/SYSDBA").unwrap();
    let c = parse_from_url("//h:5236/SYSDBA\t").unwrap();
    for o in [a, b, c] {
        assert_eq!((o.server.as_str(), o.port, o.schema.as_str()), ("h", 5236, "SYSDBA"));
    }
}
