use socket_addr_union::{
    AddressError, InetSocketAddr, NamedSocketAddr, SocketAddr, UnixBindPlan, UnixSocketAddr,
    DEFAULT_SOCKET_MODE,
};

fn v4(octets: [u8; 4], port: u16) -> InetSocketAddr {
    InetSocketAddr::V4 { octets, port }
}

#[test]
fn is_pathname_by_first_character() {
    assert!(UnixSocketAddr::is_pathname("/tmp/svc.sock"));
    assert!(UnixSocketAddr::is_pathname("./svc.sock"));
    assert!(UnixSocketAddr::is_pathname("."));
    assert!(!UnixSocketAddr::is_pathname(""));
    assert!(!UnixSocketAddr::is_pathname("127.0.0.1:80"));
    assert!(!UnixSocketAddr::is_pathname("tmp/svc.sock"));
}

#[test]
fn parse_ipv4_and_port() {
    assert_eq!(
        NamedSocketAddr::from_str("127.0.0.1:80"),
        Ok(NamedSocketAddr::Inet(v4([127, 0, 0, 1], 80)))
    );
}

#[test]
fn parse_ipv6_in_brackets() {
    let r = NamedSocketAddr::from_str("[::1]:8080");
    assert_eq!(
        r,
        Ok(NamedSocketAddr::Inet(InetSocketAddr::V6 {
            segments: [0, 0, 0, 0, 0, 0, 0, 1],
            port: 8080,
            flowinfo: 0,
            scope_id: 0,
        }))
    );
}

#[test]
fn parse_absolute_path() {
    assert_eq!(
        NamedSocketAddr::from_str("/tmp/svc.sock"),
        Ok(NamedSocketAddr::Unix("/tmp/svc.sock".to_string()))
    );
}

#[test]
fn parse_relative_path_never_fails() {
    assert_eq!(
        NamedSocketAddr::from_str("./run/x:y:z"),
        Ok(NamedSocketAddr::Unix("./run/x:y:z".to_string()))
    );
    assert_eq!(NamedSocketAddr::from_str("."), Ok(NamedSocketAddr::Unix(".".to_string())));
}

#[test]
fn parse_rejects_bad_syntax() {
    assert_eq!(NamedSocketAddr::from_str("localhost:80"), Err(AddressError::InvalidSyntax));
    assert_eq!(NamedSocketAddr::from_str(""), Err(AddressError::InvalidSyntax));
    assert_eq!(NamedSocketAddr::from_str("127.0.0.1"), Err(AddressError::InvalidSyntax));
    assert_eq!(NamedSocketAddr::from_str("127.0.0.1:70000"), Err(AddressError::InvalidSyntax));
    assert_eq!(SocketAddr::from_str("tmp/x"), Err(AddressError::InvalidSyntax));
}

#[test]
fn observed_parse_widens() {
    assert_eq!(
        SocketAddr::from_str("/tmp/svc.sock"),
        Ok(SocketAddr::Unix(UnixSocketAddr::Pathname("/tmp/svc.sock".to_string())))
    );
    assert_eq!(SocketAddr::from_str("10.1.2.3:443"), Ok(SocketAddr::Inet(v4([10, 1, 2, 3], 443))));
}

#[test]
fn render_parse_round_trip_ipv4() {
    for text in ["127.0.0.1:80", "0.0.0.0:0", "255.255.255.255:65535", "10.20.30.40:8080"] {
        let n = NamedSocketAddr::from_str(text).unwrap();
        assert_eq!(n.to_string(), text);
        assert_eq!(NamedSocketAddr::from_str(&n.to_string()), Ok(n));
    }
}

#[test]
fn render_renormalizes_ipv6() {
    let n = NamedSocketAddr::from_str("[0:0:0:0:0:0:0:1]:80").unwrap();
    assert_eq!(n.to_string(), "[::1]:80");
    assert_eq!(NamedSocketAddr::from_str(&n.to_string()), Ok(n));
}

#[test]
fn render_local_addresses() {
    let n = NamedSocketAddr::Unix("/tmp/svc.sock".to_string());
    assert_eq!(n.to_string(), "local \"/tmp/svc.sock\"");
    let a = SocketAddr::Unix(UnixSocketAddr::Pathname("/tmp/svc.sock".to_string()));
    assert_eq!(a.to_string(), "local \"/tmp/svc.sock\" (pathname)");
    let u = SocketAddr::Unix(UnixSocketAddr::AbstractOrUnnamed);
    assert_eq!(u.to_string(), "local (abstract or unnamed)");
    assert_eq!(UnixSocketAddr::AbstractOrUnnamed.to_string(), "(abstract or unnamed)");
}

#[test]
fn render_escapes_path() {
    let n = NamedSocketAddr::Unix("/tmp/a\"b".to_string());
    assert_eq!(n.to_string(), "local \"/tmp/a\\\"b\"");
}

#[test]
fn render_observed_inet() {
    assert_eq!(SocketAddr::Inet(v4([192, 168, 0, 7], 9)).to_string(), "192.168.0.7:9");
}

#[test]
fn named_observed_round_trip() {
    let all = [
        NamedSocketAddr::Inet(v4([127, 0, 0, 1], 80)),
        NamedSocketAddr::Unix("/tmp/svc.sock".to_string()),
        NamedSocketAddr::Unix("./local".to_string()),
    ];
    for n in all {
        let observed = n.clone().to_socket_addr();
        assert_eq!(observed.to_named_socket_addr(), Ok(n));
    }
}

#[test]
fn to_socket_addr_makes_pathname() {
    assert_eq!(
        NamedSocketAddr::Unix("/tmp/x".to_string()).to_socket_addr(),
        SocketAddr::Unix(UnixSocketAddr::Pathname("/tmp/x".to_string()))
    );
}

#[test]
fn unnamed_cannot_be_named() {
    let a = SocketAddr::Unix(UnixSocketAddr::AbstractOrUnnamed);
    assert_eq!(a.clone().to_named_socket_addr(), Err(AddressError::Unsupported));
    assert_eq!(NamedSocketAddr::try_from(a), Err(AddressError::Unsupported));
}

#[test]
fn conversions() {
    let i = v4([1, 2, 3, 4], 5);
    assert_eq!(SocketAddr::from(i), SocketAddr::Inet(i));
    assert_eq!(NamedSocketAddr::from(i), NamedSocketAddr::Inet(i));
    assert_eq!(
        SocketAddr::from("/p".to_string()),
        SocketAddr::Unix(UnixSocketAddr::Pathname("/p".to_string()))
    );
    assert_eq!(NamedSocketAddr::from("/p".to_string()), NamedSocketAddr::Unix("/p".to_string()));
    assert_eq!(
        SocketAddr::from(UnixSocketAddr::AbstractOrUnnamed),
        SocketAddr::Unix(UnixSocketAddr::AbstractOrUnnamed)
    );
    assert_eq!(
        SocketAddr::from(NamedSocketAddr::Unix("/p".to_string())),
        SocketAddr::Unix(UnixSocketAddr::Pathname("/p".to_string()))
    );
    assert_eq!(
        NamedSocketAddr::try_from(SocketAddr::Inet(i)),
        Ok(NamedSocketAddr::Inet(i))
    );
}

#[test]
fn unix_addr_from_os_pathname() {
    assert_eq!(
        UnixSocketAddr::from_pathname(Some("/tmp/s".to_string())),
        UnixSocketAddr::Pathname("/tmp/s".to_string())
    );
    assert_eq!(UnixSocketAddr::from_pathname(None), UnixSocketAddr::AbstractOrUnnamed);
}

#[test]
fn map_inet_rewrites_port_only() {
    let set_port = |a: InetSocketAddr| match a {
        InetSocketAddr::V4 { octets, .. } => InetSocketAddr::V4 { octets, port: 9000 },
        other => other,
    };
    assert_eq!(
        NamedSocketAddr::Inet(v4([127, 0, 0, 1], 0)).map_inet(set_port),
        NamedSocketAddr::Inet(v4([127, 0, 0, 1], 9000))
    );
    let path = NamedSocketAddr::Unix("/tmp/s".to_string());
    assert_eq!(path.clone().map_inet(set_port), path);
    let observed = SocketAddr::Unix(UnixSocketAddr::AbstractOrUnnamed);
    assert_eq!(observed.clone().map_inet(set_port), observed);
    assert_eq!(
        SocketAddr::Inet(v4([127, 0, 0, 1], 0)).map_inet(set_port),
        SocketAddr::Inet(v4([127, 0, 0, 1], 9000))
    );
}

#[test]
fn map_unix_rewrites_path_only() {
    let n = NamedSocketAddr::Unix("/tmp/s".to_string()).map_unix(|p| p + ".new");
    assert_eq!(n, NamedSocketAddr::Unix("/tmp/s.new".to_string()));
    let i = NamedSocketAddr::Inet(v4([127, 0, 0, 1], 1));
    assert_eq!(i.clone().map_unix(|p| p + ".new"), i);
    let to_unnamed = |_u: UnixSocketAddr| UnixSocketAddr::AbstractOrUnnamed;
    assert_eq!(
        SocketAddr::Unix(UnixSocketAddr::Pathname("/x".to_string())).map_unix(to_unnamed),
        SocketAddr::Unix(UnixSocketAddr::AbstractOrUnnamed)
    );
    let o = SocketAddr::Inet(v4([1, 1, 1, 1], 1));
    assert_eq!(o.clone().map_unix(to_unnamed), o);
}

#[test]
fn observed_ordering_is_structural() {
    assert!(SocketAddr::Inet(v4([127, 0, 0, 1], 80)) < SocketAddr::Inet(v4([127, 0, 0, 1], 81)));
    assert!(SocketAddr::Inet(v4([10, 0, 0, 1], 99)) < SocketAddr::Inet(v4([127, 0, 0, 1], 1)));
    assert!(
        SocketAddr::Unix(UnixSocketAddr::Pathname("/a".to_string()))
            < SocketAddr::Unix(UnixSocketAddr::Pathname("/b".to_string()))
    );
}

#[test]
fn bind_plan_removes_only_when_asked_and_present() {
    assert_eq!(
        UnixBindPlan::new(true, true, Some(0o660)),
        UnixBindPlan { remove_existing: true, mode: 0o660 }
    );
    assert!(!UnixBindPlan::new(true, false, None).remove_existing);
    assert!(!UnixBindPlan::new(false, true, None).remove_existing);
}

#[test]
fn bind_plan_default_mode() {
    assert_eq!(DEFAULT_SOCKET_MODE, 0o222);
    assert_eq!(UnixBindPlan::new(false, false, None).mode, 0o222);
    assert_eq!(UnixBindPlan::new(false, false, Some(0o600)).mode, 0o600);
}
