//! Authentication strategies for the push at exit, and their resolution
//! from the invocation's selector.

use vstd::prelude::*;

verus! {

/// How the push authenticates against the remote. Exactly one strategy is
/// active, mutually exclusive by construction.
#[derive(Debug)]
pub enum AuthenticationMethod {
    /// Delegate credential lookup to an external agent process.
    Agent,
    /// Use a key file, unlocked with the given passphrase.
    Key { path: String, passphrase: String },
    /// Authenticate with a username and a password.
    UsernamePassword { username: String, password: String },
}

impl Clone for AuthenticationMethod {
    /// An exact copy: the push task receives the strategy while the
    /// configuration keeps its own.
    fn clone(&self) -> (r: AuthenticationMethod)
        ensures
            r == *self,
    {
        match self {
            AuthenticationMethod::Agent => AuthenticationMethod::Agent,
            AuthenticationMethod::Key { path, passphrase } => AuthenticationMethod::Key {
                path: path.clone(),
                passphrase: passphrase.clone(),
            },
            AuthenticationMethod::UsernamePassword {
                username,
                password,
            } => AuthenticationMethod::UsernamePassword {
                username: username.clone(),
                password: password.clone(),
            },
        }
    }
}

/// A configuration fault found before the run loop starts; fatal.
#[derive(Clone, Copy, Debug, PartialEq, Eq, Structural)]
pub enum SetupError {
    /// The resolved event delay is zero.
    InvalidDelay,
    /// A key file was selected but does not exist.
    KeyNotFound,
    /// Push at exit is requested but no authentication strategy resolves.
    UnresolvedAuthentication,
}

/// The value [`resolve_authentication`] returns: agent if selected; else the
/// key, which must exist; else username and password, which must both be
/// present; else no strategy, an error exactly when a push at exit would
/// need one.
pub open spec fn spec_resolve_authentication(
    use_agent: bool,
    key_path: Option<String>,
    key_exists: bool,
    key_passphrase: String,
    username: Option<String>,
    password: Option<String>,
    push_on_exit: bool,
) -> Result<Option<AuthenticationMethod>, SetupError> {
    if use_agent {
        Ok(Some(AuthenticationMethod::Agent))
    } else if key_path is Some {
        if key_exists {
            Ok(
                Some(
                    AuthenticationMethod::Key {
                        path: key_path->0,
                        passphrase: key_passphrase,
                    },
                ),
            )
        } else {
            Err(SetupError::KeyNotFound)
        }
    } else if username is Some && password is Some {
        Ok(
            Some(
                AuthenticationMethod::UsernamePassword {
                    username: username->0,
                    password: password->0,
                },
            ),
        )
    } else if push_on_exit {
        Err(SetupError::UnresolvedAuthentication)
    } else {
        Ok(None)
    }
}

/// Turn the invocation's mutually exclusive selector into one concrete
/// strategy, or fail before the run loop starts.
///
/// `key_exists` reports whether the file named by `key_path` exists; the
/// caller checks the filesystem and is trusted only for that one bit. It is
/// read only when a key path was given. A missing strategy is an error
/// exactly when `push_on_exit` asks for a push; otherwise no strategy is
/// needed and none is returned.
pub fn resolve_authentication(
    use_agent: bool,
    key_path: &Option<String>,
    key_exists: bool,
    key_passphrase: &String,
    username: &Option<String>,
    password: &Option<String>,
    push_on_exit: bool,
) -> (r: Result<Option<AuthenticationMethod>, SetupError>)
    ensures
        r == spec_resolve_authentication(
            use_agent,
            *key_path,
            key_exists,
            *key_passphrase,
            *username,
            *password,
            push_on_exit,
        ),
{
    if use_agent {
        Ok(Some(AuthenticationMethod::Agent))
    } else if let Some(path) = key_path {
        if key_exists {
            Ok(
                Some(
                    AuthenticationMethod::Key {
                        path: path.clone(),
                        passphrase: key_passphrase.clone(),
                    },
                ),
            )
        } else {
            Err(SetupError::KeyNotFound)
        }
    } else if let Some(user) = username {
        if let Some(pass) = password {
            Ok(
                Some(
                    AuthenticationMethod::UsernamePassword {
                        username: user.clone(),
                        password: pass.clone(),
                    },
                ),
            )
        } else if push_on_exit {
            Err(SetupError::UnresolvedAuthentication)
        } else {
            Ok(None)
        }
    } else if push_on_exit {
        Err(SetupError::UnresolvedAuthentication)
    } else {
        Ok(None)
    }
}

} // verus!
