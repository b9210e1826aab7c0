//! Socket verification as a question-and-answer protocol.
//!
//! Whether a descriptor is a socket of a given family, kind and listening
//! state can only be learned from the operating system, one query at a time:
//! file status first, then socket options, then the bound address. The
//! decisions between those queries live here, verified: a `SocketCheck`
//! names the next query to perform, consumes the reply, and either decides
//! or names the next query. Later queries are skipped as soon as an earlier
//! reply settles the answer, so a non-socket is never asked for its socket
//! options. The caller performs the queries and feeds the replies back.

use vstd::prelude::*;

use crate::systemd_socket::Error;

verus! {

/// The kind of a socket, as the socket-type option reports it.
#[derive(Debug, Clone, Copy, PartialEq, Eq, Structural)]
pub enum SockKind {
    Stream,
    Datagram,
    SeqPacket,
    Raw,
    Rdm,
    Other,
}

/// The address family of a socket, as its bound address reports it.
#[derive(Debug, Clone, Copy, PartialEq, Eq, Structural)]
pub enum AddrFamily {
    Inet,
    Inet6,
    Unix,
    Other,
}

/// What a check is after: any socket, an Internet socket, or a UNIX socket.
#[derive(Debug, Clone, Copy, PartialEq, Eq, Structural)]
pub enum Target {
    AnySocket,
    InetSocket,
    UnixSocket,
}

/// A query the caller must perform on the descriptor.
#[derive(Debug, Clone, Copy, PartialEq, Eq, Structural)]
pub enum Query {
    /// Ask the file status for the mode bits.
    Stat,
    /// Ask the socket-type option for the socket's kind.
    KindOpt,
    /// Ask the accept-connections option whether the socket is listening.
    AcceptOpt,
    /// Ask the bound address for family and, where it carries one, port.
    Name,
}

/// The reply to a query, or the failure of the underlying call.
#[derive(Debug, Clone, Copy, PartialEq, Eq, Structural)]
pub enum Reply {
    /// The file mode bits from the file status.
    StatModeIs(u32),
    /// The socket's kind.
    KindIs(SockKind),
    /// Whether the socket is listening.
    AcceptingIs(bool),
    /// The OS cannot answer the listening query on this platform; that
    /// sub-check is skipped rather than failed.
    AcceptingUnsupported,
    /// The bound address's family and port; zero where no port applies.
    NameIs(AddrFamily, u16),
    /// The call failed with this error number.
    Failed(i32),
}

/// Where a check stands: which query it waits for, or its decision.
#[derive(Debug, Clone, Copy)]
pub enum Phase {
    AtStat,
    AtKind,
    AtAccept,
    AtName,
    Done(Result<bool, Error>),
}

/// One socket check in progress: the filters it was started with and the
/// phase it has reached.
#[derive(Debug, Clone, Copy)]
pub struct SocketCheck {
    pub target: Target,
    pub family: Option<AddrFamily>,
    pub socktype: Option<SockKind>,
    pub listening: Option<bool>,
    pub port: Option<u16>,
    pub phase: Phase,
}

/// The file mode bits say the descriptor is a socket.
pub open spec fn mode_is_socket(m: u32) -> bool {
    m & 0o140000 == 0o140000
}

/// Whether the check must look at the bound address at all: always for an
/// Internet or UNIX target, and for a plain socket check only when a family
/// filter was supplied.
pub open spec fn name_needed(c: SocketCheck) -> bool {
    !(c.target is AnySocket) || c.family is Some
}

/// The phase that follows a passed file-status check.
pub open spec fn phase_after_stat(c: SocketCheck) -> Phase {
    if c.socktype is Some {
        Phase::AtKind
    } else {
        phase_after_kind(c)
    }
}

/// The phase that follows a passed socket-kind check.
pub open spec fn phase_after_kind(c: SocketCheck) -> Phase {
    if c.listening is Some {
        Phase::AtAccept
    } else {
        phase_after_accept(c)
    }
}

/// The phase that follows a passed listening-state check.
pub open spec fn phase_after_accept(c: SocketCheck) -> Phase {
    if name_needed(c) {
        Phase::AtName
    } else {
        Phase::Done(Ok(true))
    }
}

/// The decision once the bound address is known: a plain check compares the
/// family filter; an Internet check wants one of the two Internet families,
/// then the family and port filters; a UNIX check wants the UNIX family.
pub open spec fn name_verdict(c: SocketCheck, f: AddrFamily, p: u16) -> bool {
    match c.target {
        Target::AnySocket => c.family == Some(f),
        Target::InetSocket => (f is Inet || f is Inet6) && (c.family is None || c.family
            == Some(f)) && (c.port is None || c.port == Some(p)),
        Target::UnixSocket => f is Unix,
    }
}

/// The phase a check moves to on a reply: a failed call decides with its
/// error; a failed filter decides no; a passed filter moves on, skipping the
/// queries no filter asks for. Where the OS cannot answer the listening
/// query, that sub-check alone is skipped and the remaining checks decide.
pub open spec fn spec_step(c: SocketCheck, r: Reply) -> Phase {
    match r {
        Reply::Failed(e) => Phase::Done(Err(Error::Nix(e))),
        Reply::StatModeIs(m) => if mode_is_socket(m) {
            phase_after_stat(c)
        } else {
            Phase::Done(Ok(false))
        },
        Reply::KindIs(k) => if c.socktype == Some(k) {
            phase_after_kind(c)
        } else {
            Phase::Done(Ok(false))
        },
        Reply::AcceptingIs(b) => if c.listening == Some(b) {
            phase_after_accept(c)
        } else {
            Phase::Done(Ok(false))
        },
        Reply::AcceptingUnsupported => phase_after_accept(c),
        Reply::NameIs(f, p) => Phase::Done(Ok(name_verdict(c, f, p))),
    }
}

/// The reply answers the query the check is waiting for.
pub open spec fn reply_fits(phase: Phase, r: Reply) -> bool {
    match r {
        Reply::StatModeIs(_) => phase is AtStat,
        Reply::KindIs(_) => phase is AtKind,
        Reply::AcceptingIs(_) => phase is AtAccept,
        Reply::AcceptingUnsupported => phase is AtAccept,
        Reply::NameIs(_, _) => phase is AtName,
        Reply::Failed(_) => !(phase is Done),
    }
}

/// A check only waits for queries its filters call for, and a target that
/// carries no family or port filter holds none.
pub open spec fn wf(c: SocketCheck) -> bool {
    &&& (c.phase is AtKind ==> c.socktype is Some)
    &&& (c.phase is AtAccept ==> c.listening is Some)
    &&& (c.phase is AtName ==> name_needed(c))
    &&& (c.target is UnixSocket ==> c.family is None && c.port is None)
    &&& (c.target is AnySocket ==> c.port is None)
}

/// How many queries a check in this phase may still ask: the phases strictly
/// descend.
pub open spec fn phase_rank(p: Phase) -> int {
    match p {
        Phase::AtStat => 4,
        Phase::AtKind => 3,
        Phase::AtAccept => 2,
        Phase::AtName => 1,
        Phase::Done(_) => 0,
    }
}

/// Law: every step moves the check strictly towards a decision, so a caller
/// that answers each pending query in turn reaches the verdict after at most
/// four queries and never performs one twice.
pub proof fn lemma_step_descends(c: SocketCheck, r: Reply)
    requires
        wf(c),
        reply_fits(c.phase, r),
    ensures
        phase_rank(spec_step(c, r)) < phase_rank(c.phase),
{
}

impl SocketCheck {
    /// Starts a check whether the descriptor is a socket, with optional
    /// family, kind and listening filters.
    pub fn any_socket(
        family: Option<AddrFamily>,
        socktype: Option<SockKind>,
        listening: Option<bool>,
    ) -> (c: Self)
        ensures
            c.target is AnySocket,
            c.family == family,
            c.socktype == socktype,
            c.listening == listening,
            c.port is None,
            c.phase is AtStat,
            wf(c),
    {
        SocketCheck {
            target: Target::AnySocket,
            family,
            socktype,
            listening,
            port: None,
            phase: Phase::AtStat,
        }
    }

    /// Starts a check whether the descriptor is an Internet socket, with
    /// optional family, kind, listening and port filters.
    pub fn inet_socket(
        family: Option<AddrFamily>,
        socktype: Option<SockKind>,
        listening: Option<bool>,
        port: Option<u16>,
    ) -> (c: Self)
        ensures
            c.target is InetSocket,
            c.family == family,
            c.socktype == socktype,
            c.listening == listening,
            c.port == port,
            c.phase is AtStat,
            wf(c),
    {
        SocketCheck {
            target: Target::InetSocket,
            family,
            socktype,
            listening,
            port,
            phase: Phase::AtStat,
        }
    }

    /// Starts a check whether the descriptor is a UNIX socket, with optional
    /// kind and listening filters.
    pub fn unix_socket(socktype: Option<SockKind>, listening: Option<bool>) -> (c: Self)
        ensures
            c.target is UnixSocket,
            c.family is None,
            c.socktype == socktype,
            c.listening == listening,
            c.port is None,
            c.phase is AtStat,
            wf(c),
    {
        SocketCheck {
            target: Target::UnixSocket,
            family: None,
            socktype,
            listening,
            port: None,
            phase: Phase::AtStat,
        }
    }

    /// The query the caller must perform next, or nothing once decided.
    pub fn next_query(&self) -> (q: Option<Query>)
        ensures
            q == match self.phase {
                Phase::AtStat => Some(Query::Stat),
                Phase::AtKind => Some(Query::KindOpt),
                Phase::AtAccept => Some(Query::AcceptOpt),
                Phase::AtName => Some(Query::Name),
                Phase::Done(_) => None::<Query>,
            },
    {
        match self.phase {
            Phase::AtStat => Some(Query::Stat),
            Phase::AtKind => Some(Query::KindOpt),
            Phase::AtAccept => Some(Query::AcceptOpt),
            Phase::AtName => Some(Query::Name),
            Phase::Done(_) => None,
        }
    }

    /// Consumes the reply to the pending query and moves the check along.
    pub fn step(&mut self, r: Reply)
        requires
            wf(*old(self)),
            reply_fits(old(self).phase, r),
        ensures
            final(self).target == old(self).target,
            final(self).family == old(self).family,
            final(self).socktype == old(self).socktype,
            final(self).listening == old(self).listening,
            final(self).port == old(self).port,
            final(self).phase == spec_step(*old(self), r),
            wf(*final(self)),
    {
        let next: Phase = match r {
            Reply::Failed(e) => Phase::Done(Err(Error::Nix(e))),
            Reply::StatModeIs(m) => {
                if m & 0o140000 == 0o140000 {
                    self.phase_following_stat()
                } else {
                    Phase::Done(Ok(false))
                }
            },
            Reply::KindIs(k) => {
                let pass = match self.socktype {
                    Some(want) => want == k,
                    None => false,
                };
                if pass {
                    self.phase_following_kind()
                } else {
                    Phase::Done(Ok(false))
                }
            },
            Reply::AcceptingIs(b) => {
                let pass = match self.listening {
                    Some(want) => want == b,
                    None => false,
                };
                if pass {
                    self.phase_following_accept()
                } else {
                    Phase::Done(Ok(false))
                }
            },
            Reply::AcceptingUnsupported => self.phase_following_accept(),
            Reply::NameIs(f, p) => {
                let ok = match self.target {
                    Target::AnySocket => match self.family {
                        Some(want) => want == f,
                        None => false,
                    },
                    Target::InetSocket => {
                        let family_is_inet = match f {
                            AddrFamily::Inet => true,
                            AddrFamily::Inet6 => true,
                            _ => false,
                        };
                        let family_passes = match self.family {
                            Some(want) => want == f,
                            None => true,
                        };
                        let port_passes = match self.port {
                            Some(want) => want == p,
                            None => true,
                        };
                        family_is_inet && family_passes && port_passes
                    },
                    Target::UnixSocket => match f {
                        AddrFamily::Unix => true,
                        _ => false,
                    },
                };
                Phase::Done(Ok(ok))
            },
        };
        self.phase = next;
    }

    /// The decision, once every needed query has been answered.
    pub fn verdict(&self) -> (v: Option<Result<bool, Error>>)
        ensures
            v == match self.phase {
                Phase::Done(res) => Some(res),
                _ => None::<Result<bool, Error>>,
            },
    {
        match self.phase {
            Phase::Done(res) => Some(res),
            _ => None,
        }
    }

    /// The phase after the file-status filter passed.
    fn phase_following_stat(&self) -> (p: Phase)
        ensures
            p == phase_after_stat(*self),
    {
        if self.socktype.is_some() {
            Phase::AtKind
        } else {
            self.phase_following_kind()
        }
    }

    /// The phase after the socket-kind filter passed.
    fn phase_following_kind(&self) -> (p: Phase)
        ensures
            p == phase_after_kind(*self),
    {
        if self.listening.is_some() {
            Phase::AtAccept
        } else {
            self.phase_following_accept()
        }
    }

    /// The phase after the listening-state filter passed.
    fn phase_following_accept(&self) -> (p: Phase)
        ensures
            p == phase_after_accept(*self),
    {
        let needed = match self.target {
            Target::AnySocket => self.family.is_some(),
            _ => true,
        };
        if needed {
            Phase::AtName
        } else {
            Phase::Done(Ok(true))
        }
    }
}

} // verus!
