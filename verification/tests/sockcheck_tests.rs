use hookd::sockcheck::{AddrFamily, Phase, Query, Reply, SockKind, SocketCheck};
use hookd::systemd_socket::Error;
use nix::sys::socket::SockaddrLike;

// Answers a Stat query on a descriptor number.
fn stat_reply(fd_no: i32) -> Reply {
    match nix::sys::stat::fstat(fd_no) {
        Ok(fs) => Reply::StatModeIs(fs.st_mode),
        Err(e) => Reply::Failed(e as i32),
    }
}

// Answers a Name query on a descriptor number.
fn name_reply(fd_no: i32) -> Reply {
    match nix::sys::socket::getsockname::<nix::sys::socket::SockaddrStorage>(fd_no) {
        Ok(sa) => {
            let family = match sa.family() {
                Some(nix::sys::socket::AddressFamily::Inet) => AddrFamily::Inet,
                Some(nix::sys::socket::AddressFamily::Inet6) => AddrFamily::Inet6,
                Some(nix::sys::socket::AddressFamily::Unix) => AddrFamily::Unix,
                _ => AddrFamily::Other,
            };
            let port = sa
                .as_sockaddr_in()
                .map(|s| s.port())
                .or_else(|| sa.as_sockaddr_in6().map(|s| s.port()))
                .unwrap_or(0);
            Reply::NameIs(family, port)
        },
        Err(e) => Reply::Failed(e as i32),
    }
}

// Drives a check to its verdict against a live descriptor.
fn drive(
    fd_no: i32,
    kind_q: impl Fn() -> Reply,
    accept_q: impl Fn() -> Reply,
    mut check: SocketCheck,
) -> Result<bool, Error> {
    loop {
        let query = match check.next_query() {
            Some(q) => q,
            None => return check.verdict().unwrap(),
        };
        let reply = match query {
            Query::Stat => stat_reply(fd_no),
            Query::KindOpt => kind_q(),
            Query::AcceptOpt => accept_q(),
            Query::Name => name_reply(fd_no),
        };
        check.step(reply);
    }
}

#[test]
fn non_socket_mode_decides_without_further_queries() {
    let mut check = SocketCheck::unix_socket(Some(SockKind::Stream), Some(true));
    assert_eq!(check.next_query(), Some(Query::Stat));
    check.step(Reply::StatModeIs(0o100644));
    assert_eq!(check.next_query(), None);
    assert_eq!(check.verdict(), Some(Ok(false)));
}

#[test]
fn plain_check_without_filters_needs_only_the_mode() {
    let mut check = SocketCheck::any_socket(None, None, None);
    check.step(Reply::StatModeIs(0o140755));
    assert_eq!(check.next_query(), None);
    assert_eq!(check.verdict(), Some(Ok(true)));
}

#[test]
fn unix_stream_listening_walk() {
    let mut check = SocketCheck::unix_socket(Some(SockKind::Stream), Some(true));
    check.step(Reply::StatModeIs(0o140755));
    assert_eq!(check.next_query(), Some(Query::KindOpt));
    check.step(Reply::KindIs(SockKind::Stream));
    assert_eq!(check.next_query(), Some(Query::AcceptOpt));
    check.step(Reply::AcceptingIs(true));
    assert_eq!(check.next_query(), Some(Query::Name));
    check.step(Reply::NameIs(AddrFamily::Unix, 0));
    assert_eq!(check.verdict(), Some(Ok(true)));
}

#[test]
fn kind_mismatch_decides_no() {
    let mut check = SocketCheck::unix_socket(Some(SockKind::Stream), Some(true));
    check.step(Reply::StatModeIs(0o140755));
    check.step(Reply::KindIs(SockKind::Datagram));
    assert_eq!(check.verdict(), Some(Ok(false)));
}

#[test]
fn inet_port_filter_compares_the_port() {
    let mut check = SocketCheck::inet_socket(None, None, None, Some(8080));
    check.step(Reply::StatModeIs(0o140755));
    assert_eq!(check.next_query(), Some(Query::Name));
    check.step(Reply::NameIs(AddrFamily::Inet, 8081));
    assert_eq!(check.verdict(), Some(Ok(false)));

    let mut check = SocketCheck::inet_socket(None, None, None, Some(8080));
    check.step(Reply::StatModeIs(0o140755));
    check.step(Reply::NameIs(AddrFamily::Inet6, 8080));
    assert_eq!(check.verdict(), Some(Ok(true)));
}

#[test]
fn unix_target_rejects_inet_family() {
    let mut check = SocketCheck::unix_socket(None, None);
    check.step(Reply::StatModeIs(0o140755));
    check.step(Reply::NameIs(AddrFamily::Inet, 0));
    assert_eq!(check.verdict(), Some(Ok(false)));
}

#[test]
fn unsupported_listening_query_is_skipped() {
    let mut check = SocketCheck::unix_socket(Some(SockKind::Stream), Some(true));
    check.step(Reply::StatModeIs(0o140755));
    check.step(Reply::KindIs(SockKind::Stream));
    assert_eq!(check.next_query(), Some(Query::AcceptOpt));
    check.step(Reply::AcceptingUnsupported);
    assert_eq!(check.next_query(), Some(Query::Name));
    check.step(Reply::NameIs(AddrFamily::Unix, 0));
    assert_eq!(check.verdict(), Some(Ok(true)));
}

#[test]
fn failed_call_decides_with_its_error() {
    let mut check = SocketCheck::any_socket(None, Some(SockKind::Stream), None);
    check.step(Reply::Failed(9));
    match check.verdict() {
        Some(Err(Error::Nix(9))) => {},
        other => panic!("expected a syscall failure, got {:?}", other),
    }
    assert!(matches!(check.phase, Phase::Done(_)));
}

#[test]
fn is_socket() {
    // A fresh test process holds only the standard streams, so the socket
    // takes descriptor 3, as the supervisor would hand it down.
    let fd = nix::sys::socket::socket(
        nix::sys::socket::AddressFamily::Inet,
        nix::sys::socket::SockType::Stream,
        nix::sys::socket::SockFlag::empty(),
        None,
    )
    .unwrap();
    let kind_q = || match nix::sys::socket::getsockopt(&fd, nix::sys::socket::sockopt::SockType) {
        Ok(nix::sys::socket::SockType::Stream) => Reply::KindIs(SockKind::Stream),
        Ok(nix::sys::socket::SockType::Datagram) => Reply::KindIs(SockKind::Datagram),
        Ok(nix::sys::socket::SockType::SeqPacket) => Reply::KindIs(SockKind::SeqPacket),
        Ok(nix::sys::socket::SockType::Raw) => Reply::KindIs(SockKind::Raw),
        Ok(nix::sys::socket::SockType::Rdm) => Reply::KindIs(SockKind::Rdm),
        Ok(_) => Reply::KindIs(SockKind::Other),
        Err(e) => Reply::Failed(e as i32),
    };
    let accept_q = || match nix::sys::socket::getsockopt(&fd, nix::sys::socket::sockopt::AcceptConn)
    {
        Ok(b) => Reply::AcceptingIs(b),
        Err(e) => Reply::Failed(e as i32),
    };
    assert!(drive(3, &kind_q, &accept_q, SocketCheck::any_socket(None, None, None)).unwrap());
    assert!(drive(
        3,
        &kind_q,
        &accept_q,
        SocketCheck::any_socket(Some(AddrFamily::Inet), Some(SockKind::Stream), Some(false)),
    )
    .unwrap());

    let file_fd = nix::fcntl::open(
        "/etc/hosts",
        nix::fcntl::OFlag::O_RDONLY,
        nix::sys::stat::Mode::empty(),
    )
    .unwrap();
    assert_eq!(file_fd, 4);
    assert!(!drive(4, &kind_q, &accept_q, SocketCheck::any_socket(None, None, None)).unwrap());
}

#[test]
fn is_socket_inet() {
    let fd = nix::sys::socket::socket(
        nix::sys::socket::AddressFamily::Inet,
        nix::sys::socket::SockType::Stream,
        nix::sys::socket::SockFlag::empty(),
        None,
    )
    .unwrap();
    let kind_q = || match nix::sys::socket::getsockopt(&fd, nix::sys::socket::sockopt::SockType) {
        Ok(nix::sys::socket::SockType::Stream) => Reply::KindIs(SockKind::Stream),
        Ok(nix::sys::socket::SockType::Datagram) => Reply::KindIs(SockKind::Datagram),
        Ok(nix::sys::socket::SockType::SeqPacket) => Reply::KindIs(SockKind::SeqPacket),
        Ok(nix::sys::socket::SockType::Raw) => Reply::KindIs(SockKind::Raw),
        Ok(nix::sys::socket::SockType::Rdm) => Reply::KindIs(SockKind::Rdm),
        Ok(_) => Reply::KindIs(SockKind::Other),
        Err(e) => Reply::Failed(e as i32),
    };
    let accept_q = || match nix::sys::socket::getsockopt(&fd, nix::sys::socket::sockopt::AcceptConn)
    {
        Ok(b) => Reply::AcceptingIs(b),
        Err(e) => Reply::Failed(e as i32),
    };
    assert!(drive(3, &kind_q, &accept_q, SocketCheck::inet_socket(None, None, None, None))
        .unwrap());
    assert!(drive(
        3,
        &kind_q,
        &accept_q,
        SocketCheck::inet_socket(
            Some(AddrFamily::Inet),
            Some(SockKind::Stream),
            Some(false),
            None,
        ),
    )
    .unwrap());

    let file_fd = nix::fcntl::open(
        "/etc/hosts",
        nix::fcntl::OFlag::O_RDONLY,
        nix::sys::stat::Mode::empty(),
    )
    .unwrap();
    assert_eq!(file_fd, 4);
    assert!(!drive(4, &kind_q, &accept_q, SocketCheck::inet_socket(None, None, None, None))
        .unwrap());
}

#[test]
fn is_socket_unix() {
    let fd = nix::sys::socket::socket(
        nix::sys::socket::AddressFamily::Unix,
        nix::sys::socket::SockType::Stream,
        nix::sys::socket::SockFlag::empty(),
        None,
    )
    .unwrap();
    let kind_q = || match nix::sys::socket::getsockopt(&fd, nix::sys::socket::sockopt::SockType) {
        Ok(nix::sys::socket::SockType::Stream) => Reply::KindIs(SockKind::Stream),
        Ok(nix::sys::socket::SockType::Datagram) => Reply::KindIs(SockKind::Datagram),
        Ok(nix::sys::socket::SockType::SeqPacket) => Reply::KindIs(SockKind::SeqPacket),
        Ok(nix::sys::socket::SockType::Raw) => Reply::KindIs(SockKind::Raw),
        Ok(nix::sys::socket::SockType::Rdm) => Reply::KindIs(SockKind::Rdm),
        Ok(_) => Reply::KindIs(SockKind::Other),
        Err(e) => Reply::Failed(e as i32),
    };
    let accept_q = || match nix::sys::socket::getsockopt(&fd, nix::sys::socket::sockopt::AcceptConn)
    {
        Ok(b) => Reply::AcceptingIs(b),
        Err(e) => Reply::Failed(e as i32),
    };
    assert!(drive(3, &kind_q, &accept_q, SocketCheck::unix_socket(None, None)).unwrap());
    assert!(drive(
        3,
        &kind_q,
        &accept_q,
        SocketCheck::unix_socket(Some(SockKind::Stream), Some(false)),
    )
    .unwrap());

    let file_fd = nix::fcntl::open(
        "/etc/hosts",
        nix::fcntl::OFlag::O_RDONLY,
        nix::sys::stat::Mode::empty(),
    )
    .unwrap();
    assert_eq!(file_fd, 4);
    assert!(!drive(4, &kind_q, &accept_q, SocketCheck::unix_socket(None, None)).unwrap());
}
