//! The shell to run where the configuration names none.

use vstd::prelude::*;

verus! {

/// Looks up the login shell of the user that runs the process.
///
/// Calls `nix::unistd::User::from_uid` on `nix::unistd::Uid::current`.
/// Trusted, and nothing is claimed of the result: it depends on the user
/// database of the machine. `None` stands for a failed lookup and for a user
/// without an entry.
#[verifier::external_body]
pub fn get_user_shell() -> (shell: Option<String>) {
    match nix::unistd::User::from_uid(nix::unistd::Uid::current()) {
        Ok(Some(user)) => Some(user.shell.to_string_lossy().to_string()),
        _ => None,
    }
}

/// The shell to start: the configured one, else the user's login shell.
pub fn pick_shell(configured: Option<String>, login_shell: Option<String>) -> (shell: Option<
    String,
>)
    ensures
        shell == if configured is Some {
            configured
        } else {
            login_shell
        },
{
    if configured.is_some() {
        configured
    } else {
        login_shell
    }
}

/// The shell to start, with the login shell looked up only where the
/// configuration names none. `None` means that no shell is configured and the
/// lookup failed.
pub fn resolve_shell(configured: Option<String>) -> (shell: Option<String>)
    ensures
        configured is Some ==> shell == configured,
{
    if configured.is_some() {
        configured
    } else {
        pick_shell(None, get_user_shell())
    }
}

} // verus!
