//! Framing of the messages between the GUI and the service over a Unix socket, and the decisions
//! around a command sent that way.

use crate::manager_cmd::ManagerCmdErrorCode;
use crate::network_config::str_equal;
use vstd::prelude::*;

verus! {

pub const SOCKET_PATH: &'static str = "/run/obscura.sock";

/// Longest header that a peer accepts.
pub const MAX_HEADER_LEN: u32 = 4096;

/// The header that the service sends before a command's response.
#[derive(Debug, Clone)]
pub struct LinuxIpcHeader {
    pub version: String,
}

/// Why a command could not be run through the service.
#[derive(Debug, Clone)]
pub enum LinuxIpcError {
    InsufficientPermissions,
    NoListener,
    VersionMismatch { service_version: String, app_version: String },
    Other,
}

/// How connecting to the service's socket failed.
#[derive(Debug, Clone, Copy, PartialEq, Eq, Structural)]
pub enum SocketConnectFailure {
    NotFound,
    PermissionDenied,
    ConnectionRefused,
    Other,
}

/// The big-endian bytes of `n`.
pub open spec fn be_u32_bytes(n: u32) -> Seq<u8> {
    seq![
        (n / 0x100_0000) as u8,
        (n / 0x1_0000 % 0x100) as u8,
        (n / 0x100 % 0x100) as u8,
        (n % 0x100) as u8,
    ]
}

/// The number whose big-endian bytes are `b`.
pub open spec fn be_u32_value(b: Seq<u8>) -> int {
    b[0] * 0x100_0000 + b[1] * 0x1_0000 + b[2] * 0x100 + b[3]
}

/// A message as sent over the socket: its length as a big-endian `u32`, then its bytes.
pub open spec fn framed(payload: Seq<u8>) -> Seq<u8> {
    be_u32_bytes(payload.len() as u32) + payload
}

proof fn lemma_be_bytes(n: u32)
    ensures
        be_u32_value(be_u32_bytes(n)) == n,
        (n >> 24u32) as u8 == be_u32_bytes(n)[0],
        (n >> 16u32) as u8 == be_u32_bytes(n)[1],
        (n >> 8u32) as u8 == be_u32_bytes(n)[2],
        n as u8 == be_u32_bytes(n)[3],
{
    assert((n >> 24u32) as u8 == (n / 0x100_0000) as u8) by (bit_vector);
    assert((n >> 16u32) as u8 == (n / 0x1_0000 % 0x100) as u8) by (bit_vector);
    assert((n >> 8u32) as u8 == (n / 0x100 % 0x100) as u8) by (bit_vector);
    assert(n as u8 == (n % 0x100) as u8) by (bit_vector);
    assert(((n / 0x100_0000) as u8) * 0x100_0000 + ((n / 0x1_0000 % 0x100) as u8) * 0x1_0000 + ((n
        / 0x100 % 0x100) as u8) * 0x100 + ((n % 0x100) as u8) == n) by (bit_vector);
}

/// Frames `payload` for the socket; `None` if its length does not fit the 32-bit length field.
pub fn frame_message(payload: &[u8]) -> (r: Option<Vec<u8>>)
    ensures
        r is Some <==> payload@.len() <= u32::MAX,
        r matches Some(f) ==> f@ == framed(payload@),
{
    if payload.len() > u32::MAX as usize {
        return None;
    }
    let len = payload.len() as u32;
    proof {
        lemma_be_bytes(len);
    }
    let mut message: Vec<u8> = Vec::new();
    message.push((len >> 24u32) as u8);
    message.push((len >> 16u32) as u8);
    message.push((len >> 8u32) as u8);
    message.push(len as u8);
    let mut i: usize = 0;
    while i < payload.len()
        invariant
            i <= payload@.len(),
            message@ == be_u32_bytes(len) + payload@.subrange(0, i as int),
        decreases payload@.len() - i,
    {
        message.push(payload[i]);
        i = i + 1;
        assert(message@ =~= be_u32_bytes(len) + payload@.subrange(0, i as int));
    }
    assert(payload@.subrange(0, i as int) =~= payload@);
    Some(message)
}

/// The length of the header that follows the length prefix `prefix`; `None` if it exceeds
/// `MAX_HEADER_LEN`.
pub fn header_len(prefix: [u8; 4]) -> (r: Option<usize>)
    ensures
        r == (if be_u32_value(prefix@) <= MAX_HEADER_LEN {
            Some(be_u32_value(prefix@) as usize)
        } else {
            None
        }),
{
    let len: u32 = (prefix[0] as u32) * 0x100_0000 + (prefix[1] as u32) * 0x1_0000 + (prefix[2] as u32) * 0x100
        + (prefix[3] as u32);
    if len > MAX_HEADER_LEN {
        None
    } else {
        Some(len as usize)
    }
}

/// A header framed for the socket reads back as its own length, as long as the receiver accepts
/// that length.
pub proof fn lemma_header_frame_round_trip(payload: Seq<u8>)
    requires
        payload.len() <= MAX_HEADER_LEN,
    ensures
        framed(payload).subrange(4, framed(payload).len() as int) == payload,
        be_u32_value(framed(payload).subrange(0, 4)) == payload.len(),
{
    lemma_be_bytes(payload.len() as u32);
    assert(framed(payload).subrange(4, framed(payload).len() as int) =~= payload);
    assert(framed(payload).subrange(0, 4) =~= be_u32_bytes(payload.len() as u32));
}

/// The error of a failed connection to the service's socket.
pub fn socket_connect_error(failure: SocketConnectFailure) -> (r: LinuxIpcError)
    ensures
        r == (match failure {
            SocketConnectFailure::NotFound => LinuxIpcError::NoListener,
            SocketConnectFailure::PermissionDenied => LinuxIpcError::InsufficientPermissions,
            SocketConnectFailure::ConnectionRefused => LinuxIpcError::NoListener,
            SocketConnectFailure::Other => LinuxIpcError::Other,
        }),
{
    match failure {
        SocketConnectFailure::NotFound => LinuxIpcError::NoListener,
        SocketConnectFailure::PermissionDenied => LinuxIpcError::InsufficientPermissions,
        SocketConnectFailure::ConnectionRefused => LinuxIpcError::NoListener,
        SocketConnectFailure::Other => LinuxIpcError::Other,
    }
}

/// Accepts the service's header if it comes from the same release as this binary; else the
/// mismatch, with both versions.
pub fn check_header_version(header: LinuxIpcHeader, app_version: &str) -> (r: Result<(), LinuxIpcError>)
    ensures
        r is Ok <==> header.version@ == app_version@,
        r matches Err(e) ==> e matches LinuxIpcError::VersionMismatch { service_version, app_version: a }
            && service_version@ == header.version@ && a@ == app_version@,
{
    if str_equal(header.version.as_str(), app_version) {
        Ok(())
    } else {
        Err(LinuxIpcError::VersionMismatch { service_version: header.version, app_version: String::from_str(app_version) })
    }
}

/// Whether the result of a test command calls for refreshing the group membership: only when the
/// socket refused this user.
pub fn group_refresh_warranted(ping: &Result<Result<(), ManagerCmdErrorCode>, LinuxIpcError>) -> (r: bool)
    ensures
        r == (*ping matches Err(LinuxIpcError::InsufficientPermissions)),
{
    match ping {
        Err(LinuxIpcError::InsufficientPermissions) => true,
        _ => false,
    }
}

/// Whether `user` is among the members of a group.
pub fn is_group_member(members: &[String], user: &str) -> (r: bool)
    ensures
        r == exists|i: int| 0 <= i < members@.len() && #[trigger] members@[i]@ == user@,
{
    let mut i: usize = 0;
    while i < members.len()
        invariant
            i <= members@.len(),
            forall|j: int| 0 <= j < i ==> #[trigger] members@[j]@ != user@,
        decreases members@.len() - i,
    {
        if str_equal(members[i].as_str(), user) {
            return true;
        }
        i = i + 1;
    }
    false
}

/// Passed to every command that the group refresh starts, so that the refresh never runs again
/// in them.
pub const NO_GROUP_REFRESH_ARG: &'static str = "--no-group-refresh";

/// The text that `shlex::try_join` makes of `words`: each word quoted where a shell needs it,
/// separated by single spaces.
pub uninterp spec fn shell_joined(words: Seq<Seq<char>>) -> Seq<char>;

/// Whether a word of `words` holds a nul character, which no shell quoting can carry.
pub open spec fn has_nul(words: Seq<Seq<char>>) -> bool {
    exists|i: int, j: int| 0 <= i < words.len() && 0 <= j < words[i].len() && #[trigger] words[i][j] == '\0'
}

pub open spec fn views(strings: Seq<String>) -> Seq<Seq<char>> {
    strings.map_values(|s: String| s@)
}

/// Joins `words` into one shell command line with `shlex::try_join`. shlex documents that the
/// only error of its default quoter is a nul byte in the input, and that such a byte always gives
/// it; the joined text is the named result.
#[verifier::external_body]
fn shell_join(words: &Vec<String>) -> (r: Option<String>)
    ensures
        r is None <==> has_nul(views(words@)),
        r matches Some(s) ==> s@ == shell_joined(views(words@)),
{
    shlex::try_join(words.iter().map(String::as_str)).ok()
}

/// The words of the command that `sg` runs in its new shell: `exec`, the program, its arguments.
pub open spec fn exec_words(program: Seq<char>, args: Seq<Seq<char>>) -> Seq<Seq<char>> {
    seq!["exec"@, program] + args
}

/// The arguments that run the shell command line `command` with `group` as the group, through
/// `sg`: `sg <group> -c <command>`.
pub open spec fn sg_argv(group: Seq<char>, command: Seq<char>) -> Seq<Seq<char>> {
    seq!["sg"@, group, "-c"@, command]
}

/// The arguments of `sg` for the joined command line `command`, as `sg_argv` says.
pub fn sg_command(group: &str, command: String) -> (r: Vec<String>)
    ensures
        views(r@) == sg_argv(group@, command@),
{
    let mut argv: Vec<String> = Vec::new();
    argv.push(String::from_str("sg"));
    argv.push(String::from_str(group));
    argv.push(String::from_str("-c"));
    argv.push(command);
    assert(views(argv@) =~= sg_argv(group@, argv@[3]@));
    argv
}

fn push_all(words: &mut Vec<String>, more: &Vec<String>)
    ensures
        views(final(words)@) == views(old(words)@) + views(more@),
{
    let ghost start = views(words@);
    let mut i: usize = 0;
    while i < more.len()
        invariant
            i <= more@.len(),
            views(words@) == start + views(more@.subrange(0, i as int)),
        decreases more@.len() - i,
    {
        let ghost before = words@;
        words.push(more[i].clone());
        i = i + 1;
        assert(views(words@) =~= start + views(more@.subrange(0, i as int))) by {
            assert(views(words@) =~= views(before).push(more@[i - 1]@));
            assert(views(more@.subrange(0, i as int)) =~= views(more@.subrange(0, i - 1)).push(more@[i - 1]@));
        }
    }
    assert(more@.subrange(0, i as int) =~= more@);
}

/// The arguments that make `sg` run `program` with `args` as a member of `group`: the words
/// `exec <program> <args..>` joined into one shell command line. `None` if a word holds a nul
/// character, which cannot be quoted.
pub fn sg_exec_command(group: &str, program: &str, args: &Vec<String>) -> (r: Option<Vec<String>>)
    ensures
        r is None <==> has_nul(exec_words(program@, views(args@))),
        r matches Some(argv) ==> views(argv@) == sg_argv(group@, shell_joined(exec_words(program@, views(args@)))),
{
    let mut words: Vec<String> = Vec::new();
    words.push(String::from_str("exec"));
    words.push(String::from_str(program));
    push_all(&mut words, args);
    assert(views(words@) =~= exec_words(program@, views(args@)));
    match shell_join(&words) {
        Some(command) => Some(sg_command(group, command)),
        None => None,
    }
}

/// `NO_GROUP_REFRESH_ARG` followed by `args`.
pub open spec fn guarded(args: Seq<Seq<char>>) -> Seq<Seq<char>> {
    seq![NO_GROUP_REFRESH_ARG@] + args
}

fn guarded_args(args: &Vec<String>) -> (r: Vec<String>)
    ensures
        views(r@) == guarded(views(args@)),
{
    let mut r: Vec<String> = Vec::new();
    r.push(String::from_str(NO_GROUP_REFRESH_ARG));
    push_all(&mut r, args);
    assert(views(r@) =~= guarded(views(args@)));
    r
}

/// The test that starts a group refresh, after the test command `ping` answered: only when the
/// socket refused this user (`user`) and the user is a member of the socket's group `group` (with
/// members `members`; `sg` would ask for a password otherwise), the arguments that run
/// `<program> --no-group-refresh ipc-test` through `sg` in that group. `None` means nothing is run.
pub fn group_refresh_test(
    ping: &Result<Result<(), ManagerCmdErrorCode>, LinuxIpcError>,
    user: &str,
    group: &str,
    members: &[String],
    program: &str,
) -> (r: Option<Vec<String>>)
    ensures
        r is Some <==> {
            &&& *ping matches Err(LinuxIpcError::InsufficientPermissions)
            &&& exists|i: int| 0 <= i < members@.len() && #[trigger] members@[i]@ == user@
            &&& !has_nul(exec_words(program@, guarded(seq!["ipc-test"@])))
        },
        r matches Some(argv) ==> views(argv@) == sg_argv(
            group@,
            shell_joined(exec_words(program@, guarded(seq!["ipc-test"@]))),
        ),
{
    if !group_refresh_warranted(ping) || !is_group_member(members, user) {
        return None;
    }
    let mut test: Vec<String> = Vec::new();
    test.push(String::from_str("ipc-test"));
    let args = guarded_args(&test);
    assert(views(test@) =~= seq!["ipc-test"@]);
    sg_exec_command(group, program, &args)
}

/// The command that replaces this process once the test in the new shell passed
/// (`test_succeeded`): this program, with `NO_GROUP_REFRESH_ARG` before the arguments it was
/// started with (`current_args`), through `sg` in `group`. `None`, and nothing is run, if the
/// test failed or a word cannot be quoted.
pub fn group_refresh_rerun(test_succeeded: bool, group: &str, program: &str, current_args: &Vec<String>) -> (r: Option<
    Vec<String>,
>)
    ensures
        r is Some <==> test_succeeded && !has_nul(exec_words(program@, guarded(views(current_args@)))),
        r matches Some(argv) ==> views(argv@) == sg_argv(
            group@,
            shell_joined(exec_words(program@, guarded(views(current_args@)))),
        ),
{
    if !test_succeeded {
        return None;
    }
    let args = guarded_args(current_args);
    sg_exec_command(group, program, &args)
}

/// Every command that the group refresh runs in the new shell carries `NO_GROUP_REFRESH_ARG`
/// right after the program, so the refresh never starts again there.
pub proof fn lemma_refresh_never_recurses(program: Seq<char>, args: Seq<Seq<char>>)
    ensures
        exec_words(program, guarded(args))[2] == NO_GROUP_REFRESH_ARG@,
        exec_words(program, guarded(args))[1] == program,
{
}

} // verus!
