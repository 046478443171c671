//! Configuration: settings as read from a settings file, the invocation's
//! overrides, and the merger that combines them, explicit values always
//! winning, falling back to settings, falling back to built-in defaults.

use vstd::prelude::*;

use crate::auth::AuthenticationMethod;
use crate::auth::SetupError;

verus! {

/// Default watcher delay (in seconds).
pub const DEFAULT_DELAY: u64 = 30;

/// The delay used when neither the invocation nor a settings file gives one.
pub fn default_delay() -> (d: u64)
    ensures
        d == DEFAULT_DELAY,
{
    DEFAULT_DELAY
}

/// Settings loaded from a settings file: the three fields such a file may
/// hold. Fields missing from the file take the built-in defaults; see
/// [`Config::from_partial`].
pub struct Config {
    /// Quiet interval (in seconds) the filesystem watcher waits before
    /// delivering a notification.
    pub delay: u64,
    /// Directory basenames whose subtrees are not watched.
    pub ignore: Vec<String>,
    /// Whether to push to the remote when the watcher exits.
    pub push_on_exit: bool,
}

impl Config {
    /// What the built-in defaults are: delay of [`DEFAULT_DELAY`] seconds,
    /// only `.git` ignored, no push on exit.
    pub open spec fn is_default(self) -> bool {
        &&& self.delay == DEFAULT_DELAY
        &&& self.ignore@.len() == 1
        &&& self.ignore@[0]@ == ".git"@
        &&& !self.push_on_exit
    }
}

impl Default for Config {
    /// The built-in defaults, used when no settings file exists.
    fn default() -> (c: Config)
        ensures
            c.is_default(),
    {
        let mut ignore: Vec<String> = Vec::new();
        ignore.push(String::from_str(".git"));
        Config { delay: DEFAULT_DELAY, ignore, push_on_exit: false }
    }
}

impl Config {
    /// Build settings from the fields a settings file actually held; a field
    /// missing from the file takes its built-in default. Unknown fields were
    /// never handed in, so they are ignored by construction.
    pub fn from_partial(
        delay: Option<u64>,
        ignore: Option<Vec<String>>,
        push_on_exit: Option<bool>,
    ) -> (c: Config)
        ensures
            c.delay == (match delay {
                Some(d) => d,
                None => DEFAULT_DELAY,
            }),
            (match ignore {
                Some(v) => c.ignore == v,
                None => c.ignore@.len() == 1 && c.ignore@[0]@ == ".git"@,
            }),
            c.push_on_exit == (match push_on_exit {
                Some(p) => p,
                None => false,
            }),
    {
        let defaults = Config::default();
        Config {
            delay: match delay {
                Some(d) => d,
                None => DEFAULT_DELAY,
            },
            ignore: match ignore {
                Some(v) => v,
                None => defaults.ignore,
            },
            push_on_exit: match push_on_exit {
                Some(p) => p,
                None => false,
            },
        }
    }
}

/// Default push timeout (in seconds).
pub const DEFAULT_PUSH_TIMEOUT: u64 = 5;

/// What one invocation asked for: the watched directory and every override
/// the command line may carry. A `None` or an empty list means the field was
/// not given and a settings file or a built-in default decides.
pub struct WatchOptions {
    /// The directory to watch over.
    pub directory: String,
    /// Whether to watch sub-directories.
    pub recursive: bool,
    /// Log intended actions instead of performing them.
    pub dry_run: bool,
    /// Watcher event delay (in seconds), if given.
    pub delay: Option<u64>,
    /// Directory basenames to ignore; empty when not given.
    pub ignore: Vec<String>,
    /// Explicit settings-file path, if given; the caller loads it.
    pub settings_path: Option<String>,
    /// Whether to push to the remote on exit.
    pub push_on_exit: bool,
    /// Push timeout (in seconds), if given.
    pub push_timeout: Option<u64>,
    /// Delegate credential lookup to the agent.
    pub use_agent: bool,
    /// Authenticate with this key file.
    pub key_path: Option<String>,
    /// Passphrase for the key file.
    pub key_passphrase: String,
    /// Username, when authenticating with username and password.
    pub username: Option<String>,
    /// Password, when authenticating with username and password.
    pub password: Option<String>,
}

/// The configuration the watcher runs under, merged once at startup and
/// immutable thereafter.
pub struct WatchConfig {
    /// Root of the watched tree.
    pub root_directory: String,
    /// Whether sub-directories are watched.
    pub recursive: bool,
    /// Log intended actions instead of performing them.
    pub dry_run: bool,
    /// Quiet interval the watcher waits before delivering a notification.
    pub event_delay_seconds: u64,
    /// Directory basenames whose subtrees are not watched.
    pub ignore_names: Vec<String>,
    /// Whether to push to the remote on exit.
    pub push_on_exit: bool,
    /// How long the exit push may run before it is abandoned.
    pub push_timeout_seconds: u64,
    /// The authentication strategy for the exit push; present whenever
    /// `push_on_exit` is set.
    pub auth_method: Option<AuthenticationMethod>,
}

impl WatchConfig {
    /// The configuration's invariant: a positive delay, and a fully
    /// specified authentication strategy whenever a push at exit is asked
    /// for.
    pub open spec fn wf(self) -> bool {
        &&& self.event_delay_seconds > 0
        &&& self.push_on_exit ==> self.auth_method is Some
    }
}

/// The delay the merger resolves to: the invocation's value if given, else
/// the settings file's, else the built-in default.
pub open spec fn resolved_delay(cli_delay: Option<u64>, settings: Option<Config>) -> u64 {
    match cli_delay {
        Some(d) => d,
        None => match settings {
            Some(c) => c.delay,
            None => DEFAULT_DELAY,
        },
    }
}

/// The ignore list the merger resolves to, as a sequence of names: the
/// invocation's list if any name was given, else the settings file's, else
/// the built-in default of `.git` alone.
pub open spec fn resolved_ignore(cli_ignore: Seq<Seq<char>>, settings: Option<Config>) -> Seq<
    Seq<char>,
> {
    if cli_ignore.len() > 0 {
        cli_ignore
    } else {
        match settings {
            Some(c) => c.ignore.deep_view(),
            None => seq![".git"@],
        }
    }
}

/// Whether a push at exit is wanted: asked for on the invocation, or by the
/// settings file.
pub open spec fn resolved_push_on_exit(cli_push: bool, settings: Option<Config>) -> bool {
    cli_push || (settings matches Some(c) && c.push_on_exit)
}

/// The push timeout the merger resolves to: the invocation's value if
/// given, else the built-in default.
pub open spec fn resolved_push_timeout(cli_timeout: Option<u64>) -> u64 {
    match cli_timeout {
        Some(t) => t,
        None => DEFAULT_PUSH_TIMEOUT,
    }
}

impl WatchConfig {
    /// Merge one invocation with the loaded settings, if any, into the
    /// configuration the watcher runs under. Fails, before any run loop
    /// starts, when the resolved delay is zero or when a push at exit is
    /// wanted but no authentication strategy was resolved.
    pub fn merge(
        opts: &WatchOptions,
        settings: Option<Config>,
        auth_method: Option<AuthenticationMethod>,
    ) -> (r: Result<WatchConfig, SetupError>)
        ensures
            ({
                let delay = resolved_delay(opts.delay, settings);
                let push = resolved_push_on_exit(opts.push_on_exit, settings);
                &&& (r is Ok <==> delay > 0 && (push ==> auth_method is Some))
                &&& (delay == 0 ==> r == Err::<WatchConfig, SetupError>(SetupError::InvalidDelay))
                &&& (delay > 0 && push && auth_method is None ==> r == Err::<
                    WatchConfig,
                    SetupError,
                >(SetupError::UnresolvedAuthentication))
                &&& (r matches Ok(c) ==> {
                    &&& c.root_directory@ == opts.directory@
                    &&& c.recursive == opts.recursive
                    &&& c.dry_run == opts.dry_run
                    &&& c.event_delay_seconds == delay
                    &&& c.ignore_names.deep_view() == resolved_ignore(
                        opts.ignore.deep_view(),
                        settings,
                    )
                    &&& c.push_on_exit == push
                    &&& c.push_timeout_seconds == resolved_push_timeout(opts.push_timeout)
                    &&& c.auth_method == auth_method
                    &&& c.wf()
                })
            }),
    {
        let settings_push = match &settings {
            Some(c) => c.push_on_exit,
            None => false,
        };
        let delay: u64 = match opts.delay {
            Some(d) => d,
            None => match &settings {
                Some(c) => c.delay,
                None => DEFAULT_DELAY,
            },
        };
        let push_on_exit = opts.push_on_exit || settings_push;
        if delay == 0 {
            return Err(SetupError::InvalidDelay);
        }
        if push_on_exit && auth_method.is_none() {
            return Err(SetupError::UnresolvedAuthentication);
        }
        let ignore_names: Vec<String> = if opts.ignore.len() > 0 {
            let cloned = opts.ignore.clone();
            proof {
                assert(cloned.deep_view() =~= opts.ignore.deep_view());
            }
            cloned
        } else {
            match settings {
                Some(c) => c.ignore,
                None => {
                    let mut names: Vec<String> = Vec::new();
                    names.push(String::from_str(".git"));
                    proof {
                        assert(names.deep_view() =~= seq![".git"@]);
                    }
                    names
                },
            }
        };
        Ok(
            WatchConfig {
                root_directory: opts.directory.clone(),
                recursive: opts.recursive,
                dry_run: opts.dry_run,
                event_delay_seconds: delay,
                ignore_names,
                push_on_exit,
                push_timeout_seconds: match opts.push_timeout {
                    Some(t) => t,
                    None => DEFAULT_PUSH_TIMEOUT,
                },
                auth_method,
            },
        )
    }
}

/// With no settings file and no override on the invocation, the delay
/// resolves to the built-in default of thirty seconds.
pub proof fn lemma_delay_defaults(cli_delay: Option<u64>)
    requires
        cli_delay is None,
    ensures
        resolved_delay(cli_delay, None) == 30,
{
}

/// A delay given on the invocation wins over any settings file, present or
/// not, conflicting or not.
pub proof fn lemma_cli_delay_wins(cli_delay: Option<u64>, settings: Option<Config>)
    requires
        cli_delay is Some,
    ensures
        resolved_delay(cli_delay, settings) == cli_delay->0,
{
}

} // verus!
