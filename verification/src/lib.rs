//! Decide whether a process runs with elevated (root / administrator)
//! privileges, from a snapshot of the identity that the operating system
//! reports for it.
//!
//! The snapshot is handed in as plain values: on POSIX the real and the
//! effective user id, on Windows what the token and SID inspection
//! observed. Reading the snapshot from the running process is platform
//! glue that stays outside this library.

use vstd::prelude::*;

verus! {

/// Cross platform representation of the state the current program running.
#[derive(Debug, PartialEq, Eq, Structural)]
pub enum RunningAs {
    /// Root (Linux / Mac OS / Unix) or Administrator (Windows).
    Root,
    /// Running as a normal user.
    User,
}

/// The privilege that a POSIX identity snapshot carries: superuser only
/// when both the real and the effective user id are zero. A process that
/// merely carries a setuid-root bit (effective id zero, real id not) is
/// deliberately classified as a normal user.
pub open spec fn posix_privilege(uid: u32, euid: u32) -> RunningAs {
    if uid == 0 && euid == 0 {
        RunningAs::Root
    } else {
        RunningAs::User
    }
}

/// This checks whether a process whose real user id is `uid` and whose
/// effective user id is `euid` is running as root or not.
/// Returns the RunningAs enum as result.
pub fn check(uid: u32, euid: u32) -> (r: RunningAs)
    ensures
        r == posix_privilege(uid, euid),
        (r == RunningAs::Root) <==> (uid == 0 && euid == 0),
        (r == RunningAs::User) <==> !(uid == 0 && euid == 0),
{
    match (uid, euid) {
        (0, 0) => RunningAs::Root,
        (_, _) => RunningAs::User,
    }
}

/// Repeated checks of one POSIX identity snapshot agree: the outcome is a
/// function of the snapshot alone, so calls without an identity change in
/// between all return the same value.
pub proof fn lemma_check_deterministic(uid: u32, euid: u32, r1: RunningAs, r2: RunningAs)
    requires
        r1 == posix_privilege(uid, euid),
        r2 == posix_privilege(uid, euid),
    ensures
        r1 == r2,
{
}

/// First sub-authority of the SID of a built-in Windows identity.
pub const SECURITY_BUILTIN_DOMAIN_RID: u32 = 32;

/// Second sub-authority of the SID of the built-in Administrators group.
pub const DOMAIN_ALIAS_RID_ADMINS: u32 = 544;

/// What inspecting the process token of a Windows process observed:
/// either the step at which the operating system call failed, or the
/// first two sub-authority fields of the token user's SID.
#[derive(Debug, PartialEq, Eq, Structural)]
pub enum TokenProbe {
    /// Opening the process token for query access failed.
    OpenFailed,
    /// Retrieving the token's user information failed.
    UserInfoFailed,
    /// Measuring the user SID's length failed.
    SidLengthFailed,
    /// Reading a sub-authority field of the user SID failed.
    SubAuthorityFailed,
    /// The SID was read; its first two sub-authority fields.
    Sid { first: u32, second: u32 },
}

/// The privilege that a Windows token snapshot carries: administrator
/// only when the token user's SID is the built-in Administrators
/// identity; any failure along the way collapses to a normal user.
pub open spec fn token_privilege(probe: TokenProbe) -> RunningAs {
    match probe {
        TokenProbe::Sid { first, second } => {
            if first == SECURITY_BUILTIN_DOMAIN_RID && second == DOMAIN_ALIAS_RID_ADMINS {
                RunningAs::Root
            } else {
                RunningAs::User
            }
        },
        _ => RunningAs::User,
    }
}

/// This checks whether a process whose token inspection observed `probe`
/// is running as an elevated administrator or not. A failure of any
/// token or SID step is fail-safe: it never propagates an error and
/// yields a normal user.
pub fn check_token(probe: TokenProbe) -> (r: RunningAs)
    ensures
        r == token_privilege(probe),
        (r == RunningAs::Root) <==> (probe matches TokenProbe::Sid { first, second }
            && first == SECURITY_BUILTIN_DOMAIN_RID && second == DOMAIN_ALIAS_RID_ADMINS),
        !(probe is Sid) ==> r == RunningAs::User,
{
    match probe {
        TokenProbe::Sid { first, second } => {
            if first == SECURITY_BUILTIN_DOMAIN_RID && second == DOMAIN_ALIAS_RID_ADMINS {
                RunningAs::Root
            } else {
                RunningAs::User
            }
        },
        _ => RunningAs::User,
    }
}

/// Repeated checks of one Windows token snapshot agree: the outcome is a
/// function of the snapshot alone.
pub proof fn lemma_check_token_deterministic(probe: TokenProbe, r1: RunningAs, r2: RunningAs)
    requires
        r1 == token_privilege(probe),
        r2 == token_privilege(probe),
    ensures
        r1 == r2,
{
}

} // verus!
