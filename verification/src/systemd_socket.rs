//! The daemon side of socket activation.
//!
//! A supervisor hands a listening socket down through file-descriptor
//! inheritance plus three environment entries: the target process id, a
//! descriptor count, and an optional colon-separated name list. The snapshot
//! of those entries is read once at startup and decided here: the process id
//! must match, the count must parse and be non-negative, and the descriptors
//! occupy a contiguous range starting just above the standard streams. Each
//! claimed descriptor gets close-on-exec set so it does not leak into
//! dispatched commands.

use vstd::prelude::*;
use vstd::string::*;

verus! {

/// The failure modes of socket activation.
#[derive(Debug, Clone, Copy, PartialEq, Eq, Structural)]
pub enum Error {
    /// A required environment entry is missing or unreadable.
    Var,
    /// A numeric environment entry cannot be parsed.
    Parse,
    /// The environment entries are meant for a different process.
    DifferentProcess,
    /// An environment entry holds an invalid value.
    InvalidVariableValue,
    /// A system call on a descriptor failed; carries the error number.
    Nix(i32),
}

impl Error {
    /// A sentence describing the failure.
    pub fn description(&self) -> (d: String)
        ensures
            self is InvalidVariableValue ==> d@ == "Environment variable could not be parsed"@,
            self is DifferentProcess ==> d@
                == "Environment variables are meant for a different process (pid mismatch)"@,
            self is Var ==> d@ == "Required environment variable missing or unreadable"@,
            self is Parse ==> d@ == "Could not parse number in 'LISTEN_FDS'"@,
            self is Nix ==> d@ == "Calling system function on socket failed"@,
    {
        match self {
            Error::InvalidVariableValue => String::from_str(
                "Environment variable could not be parsed",
            ),
            Error::DifferentProcess => String::from_str(
                "Environment variables are meant for a different process (pid mismatch)",
            ),
            Error::Var => String::from_str("Required environment variable missing or unreadable"),
            Error::Parse => String::from_str("Could not parse number in 'LISTEN_FDS'"),
            Error::Nix(_) => String::from_str("Calling system function on socket failed"),
        }
    }
}

/// Number of the first inherited file descriptor, just above the three
/// standard streams.
pub const LISTEN_FDS_START: i32 = 3;

/// A decimal digit.
pub open spec fn is_digit(c: char) -> bool {
    48 <= c as u32 && c as u32 <= 57
}

/// Numeric value of a decimal digit.
pub open spec fn digit_val(c: char) -> int {
    c as u32 - 48
}

/// Every character is a decimal digit.
pub open spec fn all_digits(s: Seq<char>) -> bool {
    forall|i: int| 0 <= i < s.len() ==> is_digit(#[trigger] s[i])
}

/// The number denoted by a run of decimal digits.
pub open spec fn digits_value(s: Seq<char>) -> int
    recommends
        all_digits(s),
    decreases s.len(),
{
    if s.len() == 0 {
        0
    } else {
        digits_value(s.drop_last()) * 10 + digit_val(s.last())
    }
}

/// A well-formed signed decimal numeral: an optional sign, then at least one
/// digit and nothing else.
pub open spec fn numeral_wf(s: Seq<char>) -> bool {
    if s.len() == 0 {
        false
    } else if s[0] == '+' || s[0] == '-' {
        s.len() >= 2 && all_digits(s.skip(1))
    } else {
        all_digits(s)
    }
}

/// The signed value denoted by a well-formed numeral.
pub open spec fn numeral_value(s: Seq<char>) -> int
    recommends
        numeral_wf(s),
{
    if s.len() > 0 && s[0] == '-' {
        -digits_value(s.skip(1))
    } else if s.len() > 0 && s[0] == '+' {
        digits_value(s.skip(1))
    } else {
        digits_value(s)
    }
}

/// The numeral is well-formed and its value fits an `i32`.
pub open spec fn parses_to_i32(s: Seq<char>) -> bool {
    numeral_wf(s) && -2147483648 <= numeral_value(s) && numeral_value(s) <= 2147483647
}

/// Appending a digit multiplies the accumulated value by ten and cannot
/// shrink a non-negative value.
proof fn lemma_digits_value_grow(v: int, d: int)
    requires
        0 <= v,
        0 <= d,
    ensures
        v * 10 + d >= v,
        v * 10 + d >= d,
{
    assert(v * 10 >= v) by (nonlinear_arith)
        requires 0 <= v;
}

/// The value of a digit string is non-negative.
proof fn lemma_digits_value_nonneg(s: Seq<char>)
    requires
        all_digits(s),
    ensures
        digits_value(s) >= 0,
    decreases s.len(),
{
    if s.len() > 0 {
        assert(all_digits(s.drop_last())) by {
            assert(forall|i: int| 0 <= i < s.len() - 1 ==> s.drop_last()[i] == #[trigger] s[i]);
        }
        lemma_digits_value_nonneg(s.drop_last());
        lemma_digits_value_grow(digits_value(s.drop_last()), digit_val(s.last()));
    }
}

/// Parses the digit run of a numeral, from the given position to the end.
///
/// Reports the exact value when it fits below 2^32, or that it overflowed.
fn parse_digits(s: &str, from: usize) -> (r: Result<Option<u64>, Error>)
    requires
        from <= s@.len(),
    ensures
        match r {
            Ok(Some(v)) => all_digits(s@.skip(from as int)) && s@.len() > from
                && v == digits_value(s@.skip(from as int)) && v <= u32::MAX,
            Ok(None) => all_digits(s@.skip(from as int)) && s@.len() > from
                && digits_value(s@.skip(from as int)) > u32::MAX,
            Err(e) => e == Error::Parse
                && !(all_digits(s@.skip(from as int)) && s@.len() > from),
        },
{
    let n = s.unicode_len();
    if from >= n {
        return Err(Error::Parse);
    }
    let mut acc: u64 = 0;
    let mut over: bool = false;
    let mut i: usize = from;
    proof {
        assert(s@.skip(from as int).take(0) =~= Seq::<char>::empty());
    }
    while i < n
        invariant
            from <= i <= n,
            n == s@.len(),
            n > from,
            forall|j: int| from <= j < i ==> is_digit(#[trigger] s@[j]),
            !over ==> acc == digits_value(s@.skip(from as int).take(i - from)) && acc
                <= u32::MAX,
            over ==> digits_value(s@.skip(from as int).take(i - from)) > u32::MAX,
        decreases n - i,
    {
        let c = s.get_char(i);
        let u = c as u32;
        if !(48 <= u && u <= 57) {
            proof {
                assert(!is_digit(s@[i as int]));
                assert(s@.skip(from as int)[i - from] == s@[i as int]);
            }
            return Err(Error::Parse);
        }
        let d: u64 = (u - 48) as u64;
        let ghost prefix = s@.skip(from as int).take(i - from);
        let ghost longer = s@.skip(from as int).take(i + 1 - from);
        proof {
            assert(longer.drop_last() =~= prefix);
            assert(longer.last() == s@[i as int]);
            lemma_digits_value_nonneg(prefix);
        }
        if !over {
            if acc > 429496729 || (acc == 429496729 && d > 5) {
                over = true;
                proof {
                    assert(digits_value(longer) == digits_value(prefix) * 10 + digit_val(
                        s@[i as int]));
                    assert(digits_value(prefix) * 10 + digit_val(s@[i as int]) > u32::MAX)
                        by (nonlinear_arith)
                        requires
                            digits_value(prefix) == acc,
                            digit_val(s@[i as int]) == d,
                            0 <= d <= 9,
                            acc > 429496729 || (acc == 429496729 && d > 5),
                            acc >= 0;
                }
            } else {
                acc = acc * 10 + d;
            }
        } else {
            proof {
                lemma_digits_value_grow(digits_value(prefix), digit_val(s@[i as int]));
            }
        }
        i += 1;
    }
    proof {
        assert(s@.skip(from as int).take(n - from as int) =~= s@.skip(from as int));
    }
    if over {
        Ok(None)
    } else {
        Ok(Some(acc))
    }
}

/// Parses a signed decimal numeral as Rust's integer grammar does: an
/// optional sign followed by one or more digits, rejecting anything else and
/// any value outside the `i32` range.
pub fn parse_i32(s: &str) -> (r: Result<i32, Error>)
    ensures
        match r {
            Ok(v) => parses_to_i32(s@) && v == numeral_value(s@),
            Err(e) => e == Error::Parse && !parses_to_i32(s@),
        },
{
    let n = s.unicode_len();
    if n == 0 {
        return Err(Error::Parse);
    }
    let first = s.get_char(0);
    let negative = first == '-';
    let from: usize = if first == '-' || first == '+' {
        1
    } else {
        0
    };
    let digits = match parse_digits(s, from) {
        Ok(d) => d,
        Err(e) => {
            proof {
                if from == 0 {
                    assert(s@.skip(0) =~= s@);
                }
            }
            return Err(e);
        },
    };
    proof {
        if from == 0 {
            assert(s@.skip(0) =~= s@);
        }
        if (digits matches Some(v)) {
            lemma_digits_value_nonneg(s@.skip(from as int));
        }
    }
    match digits {
        None => Err(Error::Parse),
        Some(v) => {
            if negative {
                if v > 2147483648 {
                    Err(Error::Parse)
                } else {
                    Ok((-(v as i64)) as i32)
                }
            } else {
                if v > 2147483647 {
                    Err(Error::Parse)
                } else {
                    Ok(v as i32)
                }
            }
        },
    }
}

/// What the activation snapshot prescribes: how many descriptors were passed,
/// or which check fails.
///
/// The process-id entry must be present, parse, and name this very process;
/// the count entry must be present, parse, and be non-negative.
pub open spec fn spec_listen_fds_plan(
    pid_var: Option<Seq<char>>,
    fds_var: Option<Seq<char>>,
    my_pid: int,
) -> Result<int, Error> {
    match pid_var {
        None => Err(Error::Var),
        Some(p) => if !parses_to_i32(p) {
            Err(Error::Parse)
        } else if numeral_value(p) != my_pid {
            Err(Error::DifferentProcess)
        } else {
            match fds_var {
                None => Err(Error::Var),
                Some(f) => if !parses_to_i32(f) {
                    Err(Error::Parse)
                } else if numeral_value(f) < 0 {
                    Err(Error::InvalidVariableValue)
                } else {
                    Ok(numeral_value(f))
                },
            }
        },
    }
}

/// Decides, from the activation environment snapshot, how many descriptors
/// this process was handed.
pub fn listen_fds_plan(pid_var: Option<&str>, fds_var: Option<&str>, my_pid: i32) -> (r: Result<
    i32,
    Error,
>)
    ensures
        match r {
            Ok(v) => spec_listen_fds_plan(
                match pid_var {
                    Some(p) => Some(p@),
                    None => None,
                },
                match fds_var {
                    Some(f) => Some(f@),
                    None => None,
                },
                my_pid as int,
            ) == Ok::<int, Error>(v as int),
            Err(e) => spec_listen_fds_plan(
                match pid_var {
                    Some(p) => Some(p@),
                    None => None,
                },
                match fds_var {
                    Some(f) => Some(f@),
                    None => None,
                },
                my_pid as int,
            ) == Err::<int, Error>(e),
        },
{
    let p = match pid_var {
        Some(p) => p,
        None => {
            return Err(Error::Var);
        },
    };
    let pid = match parse_i32(p) {
        Ok(v) => v,
        Err(e) => {
            return Err(e);
        },
    };
    if pid != my_pid {
        return Err(Error::DifferentProcess);
    }
    let f = match fds_var {
        Some(f) => f,
        None => {
            return Err(Error::Var);
        },
    };
    let count = match parse_i32(f) {
        Ok(v) => v,
        Err(e) => {
            return Err(e);
        },
    };
    if count < 0 {
        return Err(Error::InvalidVariableValue);
    }
    Ok(count)
}

/// Relies on nix's fcntl with `F_SETFD(FD_CLOEXEC)`: sets close-on-exec on
/// the descriptor, reporting the error number on failure.
#[verifier::external_body]
fn set_cloexec(fd: i32) -> (r: Result<(), Error>)
    ensures
        r is Err ==> r->Err_0 is Nix,
{
    match nix::fcntl::fcntl(fd, nix::fcntl::FcntlArg::F_SETFD(nix::fcntl::FdFlag::FD_CLOEXEC)) {
        Ok(_) => Ok(()),
        Err(e) => Err(Error::Nix(e as i32)),
    }
}

/// Claims the contiguous range of inherited descriptors: marks each one
/// close-on-exec, so none leaks into a dispatched command, and returns their
/// numbers in order.
pub fn claim_descriptors(count: i32) -> (r: Result<Vec<i32>, Error>)
    requires
        0 <= count,
        count <= i32::MAX - LISTEN_FDS_START,
    ensures
        match r {
            Ok(v) => v@.len() == count && forall|k: int|
                0 <= k < count ==> #[trigger] v@[k] == LISTEN_FDS_START + k,
            Err(e) => e is Nix,
        },
        count == 0 ==> r is Ok,
{
    let mut v: Vec<i32> = Vec::new();
    let mut fd: i32 = LISTEN_FDS_START;
    while fd < LISTEN_FDS_START + count
        invariant
            LISTEN_FDS_START <= fd <= LISTEN_FDS_START + count,
            count <= i32::MAX - LISTEN_FDS_START,
            v@.len() == fd - LISTEN_FDS_START,
            forall|k: int| 0 <= k < v@.len() ==> #[trigger] v@[k] == LISTEN_FDS_START + k,
        decreases LISTEN_FDS_START + count - fd,
    {
        match set_cloexec(fd) {
            Ok(_) => {},
            Err(e) => {
                return Err(e);
            },
        }
        v.push(fd);
        fd += 1;
    }
    Ok(v)
}

/// Picks the single inherited descriptor, if there is exactly one.
///
/// Activation with any other descriptor count fails here, before any socket
/// is used.
pub fn single_descriptor(fds: &Vec<i32>) -> (r: Option<i32>)
    ensures
        (r is Some <==> fds@.len() == 1),
        r matches Some(fd) ==> fd == fds@[0],
{
    if fds.len() == 1 {
        Some(fds[0])
    } else {
        None
    }
}

/// What the file status reports of a descriptor or path: the mode bits and
/// the identity fields the checks compare.
#[derive(Debug, Clone, Copy, PartialEq, Eq, Structural)]
pub struct FdStat {
    pub mode: u32,
    pub dev: u64,
    pub ino: u64,
    pub rdev: u64,
}

/// Relies on nix's fstat: reports the descriptor's file status, or the error
/// number on failure.
#[verifier::external_body]
fn fstat_info(fd: i32) -> (r: Result<FdStat, Error>)
    ensures
        r is Err ==> r->Err_0 is Nix,
{
    match nix::sys::stat::fstat(fd) {
        Ok(fs) => Ok(FdStat { mode: fs.st_mode, dev: fs.st_dev, ino: fs.st_ino, rdev: fs.st_rdev }),
        Err(e) => Err(Error::Nix(e as i32)),
    }
}

/// Relies on nix's stat: reports the file status of the named path, or the
/// error number on failure.
#[verifier::external_body]
fn stat_info(path: &str) -> (r: Result<FdStat, Error>)
    ensures
        r is Err ==> r->Err_0 is Nix,
{
    match nix::sys::stat::stat(std::path::Path::new(path)) {
        Ok(fs) => Ok(FdStat { mode: fs.st_mode, dev: fs.st_dev, ino: fs.st_ino, rdev: fs.st_rdev }),
        Err(e) => Err(Error::Nix(e as i32)),
    }
}

/// The mode bits say the file is a FIFO.
pub open spec fn spec_mode_is_fifo(m: u32) -> bool {
    m & 0o010000 == 0o010000
}

/// The mode bits say the file is a regular file.
pub open spec fn spec_mode_is_regular(m: u32) -> bool {
    m & 0o100000 == 0o100000
}

/// The mode bits say the file is a character device.
pub open spec fn spec_mode_is_char_device(m: u32) -> bool {
    m & 0o020000 == 0o020000
}

/// Whether the mode bits name a FIFO.
pub fn mode_is_fifo(m: u32) -> (r: bool)
    ensures
        r == spec_mode_is_fifo(m),
{
    m & 0o010000 == 0o010000
}

/// Whether two file statuses name the same file: same device, same inode.
pub fn same_file(a: &FdStat, b: &FdStat) -> (r: bool)
    ensures
        r == (a.dev == b.dev && a.ino == b.ino),
{
    a.dev == b.dev && a.ino == b.ino
}

/// A special file is comparable against a path only when it is a regular
/// file or a character device; everything else passes without a path check.
pub fn special_comparable(m: u32) -> (r: bool)
    ensures
        r == (spec_mode_is_regular(m) || spec_mode_is_char_device(m)),
{
    (m & 0o100000 == 0o100000) || (m & 0o020000 == 0o020000)
}

/// Whether a special file matches the file at the checked path: regular
/// files compare by device and inode, character devices by device number,
/// in each case only where both statuses agree on the kind.
pub open spec fn spec_special_match(a: FdStat, b: FdStat) -> bool {
    if spec_mode_is_regular(a.mode) && spec_mode_is_regular(b.mode) {
        a.dev == b.dev && a.ino == b.ino
    } else if spec_mode_is_char_device(a.mode) && spec_mode_is_char_device(b.mode) {
        a.rdev == b.rdev
    } else {
        false
    }
}

/// Decides `spec_special_match` on two file statuses.
pub fn special_match(fd_stat: &FdStat, path_stat: &FdStat) -> (r: bool)
    ensures
        r == spec_special_match(*fd_stat, *path_stat),
{
    let m1 = fd_stat.mode;
    let m2 = path_stat.mode;
    proof {
        assert(((m1 & m2) & 0o100000 == 0o100000) == (m1 & 0o100000 == 0o100000 && m2
            & 0o100000 == 0o100000)) by (bit_vector);
        assert(((m1 & m2) & 0o020000 == 0o020000) == (m1 & 0o020000 == 0o020000 && m2
            & 0o020000 == 0o020000)) by (bit_vector);
    }
    let both = m1 & m2;
    if both & 0o100000 == 0o100000 {
        fd_stat.dev == path_stat.dev && fd_stat.ino == path_stat.ino
    } else if both & 0o020000 == 0o020000 {
        fd_stat.rdev == path_stat.rdev
    } else {
        false
    }
}

/// The FIFO verdict, given the descriptor's file status and what the path
/// check observed: the mode must say FIFO, and where a path was examined it
/// must name the same file; a path that could not be examined is no match.
pub open spec fn spec_fifo_verdict(fs: FdStat, path_reply: Option<Result<FdStat, Error>>) -> bool {
    spec_mode_is_fifo(fs.mode) && match path_reply {
        None => true,
        Some(Ok(ps)) => fs.dev == ps.dev && fs.ino == ps.ino,
        Some(Err(_)) => false,
    }
}

/// Decides `spec_fifo_verdict` on the observed file statuses.
pub fn fifo_verdict(fs: &FdStat, path_reply: &Option<Result<FdStat, Error>>) -> (r: bool)
    ensures
        r == spec_fifo_verdict(*fs, *path_reply),
{
    if !mode_is_fifo(fs.mode) {
        return false;
    }
    match path_reply {
        None => true,
        Some(Ok(ps)) => same_file(fs, ps),
        Some(Err(_)) => false,
    }
}

/// The special-file verdict, given the descriptor's file status and what the
/// path check observed: a file that is neither regular nor a character
/// device is not comparable and counts as special outright; so does one
/// against which no path was examined; a path that could not be examined is
/// no match; otherwise the statuses must match by kind and identity.
pub open spec fn spec_special_verdict(
    fs: FdStat,
    path_reply: Option<Result<FdStat, Error>>,
) -> bool {
    if !(spec_mode_is_regular(fs.mode) || spec_mode_is_char_device(fs.mode)) {
        true
    } else {
        match path_reply {
            None => true,
            Some(Ok(ps)) => spec_special_match(fs, ps),
            Some(Err(_)) => false,
        }
    }
}

/// Decides `spec_special_verdict` on the observed file statuses.
pub fn special_verdict(fs: &FdStat, path_reply: &Option<Result<FdStat, Error>>) -> (r: bool)
    ensures
        r == spec_special_verdict(*fs, *path_reply),
{
    if !special_comparable(fs.mode) {
        return true;
    }
    match path_reply {
        None => true,
        Some(Ok(ps)) => special_match(fs, ps),
        Some(Err(_)) => false,
    }
}

/// Identifies whether the descriptor is a FIFO. If a path is supplied, the
/// descriptor must also name the same file as the path; a path that cannot
/// be examined counts as no match. The path is only examined once the mode
/// bits say FIFO, and the verdict on what was observed is `fifo_verdict`'s.
pub fn is_fifo(fd: i32, path: Option<&str>) -> (r: Result<bool, Error>)
    ensures
        r is Err ==> r->Err_0 is Nix,
{
    let fs = match fstat_info(fd) {
        Ok(fs) => fs,
        Err(e) => {
            return Err(e);
        },
    };
    let path_reply: Option<Result<FdStat, Error>> = if mode_is_fifo(fs.mode) {
        match path {
            Some(p) => Some(stat_info(p)),
            None => None,
        }
    } else {
        None
    };
    Ok(fifo_verdict(&fs, &path_reply))
}

/// Identifies whether the descriptor is a special file. A descriptor that is
/// neither a regular file nor a character device is not comparable against a
/// path and counts as special outright; otherwise a supplied path must match
/// by file kind and identity. The path is only examined for a comparable
/// file, and the verdict on what was observed is `special_verdict`'s.
pub fn is_special(fd: i32, path: Option<&str>) -> (r: Result<bool, Error>)
    ensures
        r is Err ==> r->Err_0 is Nix,
{
    let fs = match fstat_info(fd) {
        Ok(fs) => fs,
        Err(e) => {
            return Err(e);
        },
    };
    let path_reply: Option<Result<FdStat, Error>> = if special_comparable(fs.mode) {
        match path {
            Some(p) => Some(stat_info(p)),
            None => None,
        }
    } else {
        None
    };
    Ok(special_verdict(&fs, &path_reply))
}

/// The pieces of a string split at every colon: a string without colons is
/// one piece, and every colon opens a new, initially empty piece.
pub open spec fn spec_split_colon(s: Seq<char>) -> Seq<Seq<char>>
    decreases s.len(),
{
    if s.len() == 0 {
        seq![Seq::<char>::empty()]
    } else if s.last() == ':' {
        spec_split_colon(s.drop_last()).push(Seq::<char>::empty())
    } else {
        let p = spec_split_colon(s.drop_last());
        p.update(p.len() - 1, p.last().push(s.last()))
    }
}

/// A split always yields at least one piece.
proof fn lemma_split_colon_nonempty(s: Seq<char>)
    ensures
        spec_split_colon(s).len() >= 1,
    decreases s.len(),
{
    if s.len() > 0 {
        lemma_split_colon_nonempty(s.drop_last());
    }
}

/// Splits a name list at every colon, as the activation protocol prescribes.
pub fn split_names(s: &str) -> (r: Vec<String>)
    ensures
        r@.len() == spec_split_colon(s@).len(),
        forall|k: int| 0 <= k < r@.len() ==> #[trigger] r@[k]@ == spec_split_colon(s@)[k],
{
    let n = s.unicode_len();
    let mut r: Vec<String> = Vec::new();
    let mut start: usize = 0;
    let mut i: usize = 0;
    proof {
        assert(s@.take(0) =~= Seq::<char>::empty());
        assert(s@.subrange(0, 0) =~= Seq::<char>::empty());
    }
    while i < n
        invariant
            start <= i <= n,
            n == s@.len(),
            spec_split_colon(s@.take(i as int)).len() == r@.len() + 1,
            forall|k: int| 0 <= k < r@.len()
                ==> #[trigger] r@[k]@ == spec_split_colon(s@.take(i as int))[k],
            spec_split_colon(s@.take(i as int)).last() == s@.subrange(start as int, i as int),
        decreases n - i,
    {
        let ghost pieces = spec_split_colon(s@.take(i as int));
        proof {
            lemma_split_colon_nonempty(s@.take(i as int));
            assert(s@.take(i as int + 1).drop_last() =~= s@.take(i as int));
            assert(s@.take(i as int + 1).last() == s@[i as int]);
        }
        let c = s.get_char(i);
        if c == ':' {
            let ghost prev = r@;
            let piece = s.substring_char(start, i).to_owned();
            proof {
                assert(piece@ == s@.subrange(start as int, i as int));
            }
            r.push(piece);
            start = i + 1;
            proof {
                assert(spec_split_colon(s@.take(i as int + 1)) =~= pieces.push(
                    Seq::<char>::empty()));
                assert(forall|k: int| 0 <= k < prev.len() ==> r@[k] == #[trigger] prev[k]);
                assert(r@[prev.len() as int]@ == pieces.last());
                assert(s@.subrange(i as int + 1, i as int + 1) =~= Seq::<char>::empty());
            }
        } else {
            proof {
                let updated = pieces.update(
                    pieces.len() - 1,
                    pieces.last().push(s@[i as int]),
                );
                assert(spec_split_colon(s@.take(i as int + 1)) =~= updated);
                assert(updated.last() == pieces.last().push(s@[i as int]));
                assert(pieces.last().push(s@[i as int]) =~= s@.subrange(
                    start as int,
                    i as int + 1,
                ));
                assert(forall|k: int| 0 <= k < r@.len() ==> updated[k] == #[trigger] pieces[k]);
            }
        }
        i += 1;
    }
    proof {
        assert(s@.take(n as int) =~= s@);
        lemma_split_colon_nonempty(s@);
    }
    let last_piece = s.substring_char(start, n).to_owned();
    let ghost prev = r@;
    r.push(last_piece);
    proof {
        assert(forall|k: int| 0 <= k < prev.len() ==> r@[k] == #[trigger] prev[k]);
        assert(r@[prev.len() as int]@ == spec_split_colon(s@).last());
    }
    r
}

/// Pairs the supervisor-supplied descriptor names with the descriptors, in
/// order. The name list must be present and name exactly one piece per
/// descriptor; any other shape is an invalid variable value.
pub fn named_descriptors(names_var: Option<&str>, fds: &Vec<i32>) -> (r: Result<
    Vec<(String, i32)>,
    Error,
>)
    ensures
        names_var is None ==> r == Err::<Vec<(String, i32)>, Error>(Error::Var),
        names_var matches Some(s) ==> (spec_split_colon(s@).len() != fds@.len()
            ==> r == Err::<Vec<(String, i32)>, Error>(Error::InvalidVariableValue)),
        names_var matches Some(s) ==> (spec_split_colon(s@).len() == fds@.len() ==> match r {
            Ok(v) => v@.len() == fds@.len() && forall|k: int|
                0 <= k < v@.len()
                    ==> (#[trigger] v@[k]).0@ == spec_split_colon(s@)[k] && v@[k].1 == fds@[k],
            Err(_) => false,
        }),
{
    let s = match names_var {
        Some(s) => s,
        None => {
            return Err(Error::Var);
        },
    };
    let mut names = split_names(s);
    if names.len() != fds.len() {
        return Err(Error::InvalidVariableValue);
    }
    let mut v: Vec<(String, i32)> = Vec::new();
    let n = fds.len();
    let mut i: usize = 0;
    while i < n
        invariant
            i <= n,
            n == fds@.len(),
            names@.len() == n - i,
            v@.len() == i,
            forall|k: int| 0 <= k < names@.len()
                ==> #[trigger] names@[k]@ == spec_split_colon(s@)[i + k],
            forall|k: int| 0 <= k < i
                ==> (#[trigger] v@[k]).0@ == spec_split_colon(s@)[k] && v@[k].1 == fds@[k],
        decreases n - i,
    {
        let name = names.remove(0);
        v.push((name, fds[i]));
        i += 1;
    }
    Ok(v)
}

} // verus!
