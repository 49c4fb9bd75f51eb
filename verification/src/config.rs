//! The user's configuration: its defaults and where it lives.

use vstd::prelude::*;
use crate::paths::{join_path, joined, relative_name, verbatim_path};
use crate::text::{ends_with, str_ends_with, to_owned};

verus! {

/// The settings of the organiser.
pub struct Config {
    pub inbox_paths: Vec<String>,
    pub quarantine_retention_days: u32,
    pub tag_suggestions: Vec<String>,
    pub always_do_actions: bool,
}

impl Default for Config {
    /// No inboxes, thirty days of quarantine, the tag suggestions `work`,
    /// `personal` and `invoice`, and actions only on request.
    fn default() -> (r: Self)
        ensures
            r.inbox_paths@.len() == 0,
            r.quarantine_retention_days == 30,
            r.tag_suggestions@.map_values(|t: String| t@) == seq!["work"@, "personal"@, "invoice"@],
            !r.always_do_actions,
    {
        let tags = vec![to_owned("work"), to_owned("personal"), to_owned("invoice")];
        let r = Config {
            inbox_paths: Vec::new(),
            quarantine_retention_days: 30,
            tag_suggestions: tags,
            always_do_actions: false,
        };
        assert(r.tag_suggestions@.map_values(|t: String| t@) =~= seq!["work"@, "personal"@, "invoice"@]);
        r
    }
}

/// Why the configuration cannot be located.
pub enum ConfigError {
    /// The platform gives no configuration directory (no home directory).
    NoConfigDir,
}

impl ConfigError {
    /// The error's message.
    pub fn message(&self) -> (r: String)
        ensures
            r@ == "cannot determine config directory"@,
    {
        to_owned("cannot determine config directory")
    }
}

/// The configuration directory that `directories` gives the application
/// `Valet` of organisation `example` (qualifier `com`), as its documentation
/// and source lay it out per platform: the lower-cased application name
/// `valet` under the user's configuration directory (Linux and other Unix
/// systems), the bundle id `com.example.Valet` under `Library/Application
/// Support` (macOS), or `example\Valet\config` under the roaming application
/// data (Windows).
pub open spec fn project_dirs_config_dir(d: Seq<char>) -> bool {
    ||| ends_with(d, "/valet"@)
    ||| ends_with(d, "/com.example.Valet"@)
    ||| ends_with(d, "\\example\\Valet\\config"@)
}

/// The application's configuration directory: `directories`' layout on Linux
/// and other Unix systems (`…/valet`) and on macOS
/// (`…/com.example.Valet`), and `%AppData%\com.example.Valet` on Windows,
/// where the project documents that location.
pub open spec fn application_config_dir(d: Seq<char>) -> bool {
    ||| ends_with(d, "/valet"@)
    ||| ends_with(d, "com.example.Valet"@)
}

/// `directories::ProjectDirs::from("com", "example", "Valet")` and its
/// `config_dir`: the platform's configuration directory for the application,
/// if the platform can say where the user's home is. Whether there is one,
/// and the directories above the application's own, depend on the
/// environment and are left unsaid; the application's part of the path is
/// stated.
#[verifier::external_body]
fn project_config_dir() -> (r: Option<String>)
    ensures
        r matches Some(d) ==> project_dirs_config_dir(d@),
{
    match directories::ProjectDirs::from("com", "example", "Valet") {
        Some(pd) => Some(pd.config_dir().to_string_lossy().into_owned()),
        None => None,
    }
}

/// `directories::BaseDirs::new()` and its `config_dir`: the user's
/// configuration directory (the roaming application data, `%AppData%`, on
/// Windows), if the platform can say where the user's home is. It depends on
/// the environment, so nothing is stated of it.
#[verifier::external_body]
fn user_config_dir() -> (r: Option<String>) {
    match directories::BaseDirs::new() {
        Some(b) => Some(b.config_dir().to_string_lossy().into_owned()),
        None => None,
    }
}

/// `d` is the project directory as `directories` lays it out on Windows.
pub open spec fn windows_project_layout(d: Seq<char>) -> bool {
    ends_with(d, "\\example\\Valet\\config"@)
}

/// The configuration directory chosen from what the platform gave: the
/// project directory `project` of `directories`, and the user's configuration
/// directory `user`. Without a project directory there is none. A project
/// directory in the Windows layout is replaced by the documented
/// `com.example.Valet` under the user's configuration directory (none when
/// there is no such directory); any other is used as it is.
pub fn config_dir_from(project: Option<String>, user: Option<String>) -> (r: Result<String, ConfigError>)
    ensures
        (match project {
            None => r == Err::<String, ConfigError>(ConfigError::NoConfigDir),
            Some(d) => if !windows_project_layout(d@) {
                r matches Ok(x) && x@ == d@
            } else {
                match user {
                    None => r == Err::<String, ConfigError>(ConfigError::NoConfigDir),
                    Some(b) => r matches Ok(x) && ends_with(x@, "com.example.Valet"@)
                        && (!verbatim_path(b@) ==> joined(b@, "com.example.Valet"@, x@)),
                }
            },
        }),
        r matches Err(e) ==> e == ConfigError::NoConfigDir,
{
    proof {
        reveal_strlit("com.example.Valet");
    }
    match project {
        Some(d) => {
            if str_ends_with(d.as_str(), "\\example\\Valet\\config") {
                match user {
                    Some(base) => {
                        assert(relative_name("com.example.Valet"@));
                        assert("com.example.Valet"@ != seq!['.'] && "com.example.Valet"@ != seq!['.', '.']) by {
                            assert("com.example.Valet"@.len() == 17);
                        }
                        Ok(join_path(base.as_str(), "com.example.Valet"))
                    },
                    None => Err(ConfigError::NoConfigDir),
                }
            } else {
                Ok(d)
            }
        },
        None => Err(ConfigError::NoConfigDir),
    }
}

/// The application's configuration directory, or `NoConfigDir` when the
/// platform gives none: chosen by `config_dir_from` from the project
/// directory and the user's configuration directory that `directories`
/// gives.
pub fn config_dir() -> (r: Result<String, ConfigError>)
    ensures
        r matches Ok(d) ==> application_config_dir(d@),
        r matches Err(e) ==> e == ConfigError::NoConfigDir,
{
    let project = project_config_dir();
    let user = user_config_dir();
    proof {
        reveal_strlit("com.example.Valet");
        if project is Some {
            let d = project->0;
            if ends_with(d@, "/com.example.Valet"@) {
                reveal_strlit("/com.example.Valet");
                assert("/com.example.Valet"@.len() == 18);
                assert("/com.example.Valet"@.drop_first() =~= "com.example.Valet"@);
                assert(d@.skip(d@.len() - 17) =~= d@.skip(d@.len() - 18).drop_first());
                assert(ends_with(d@, "com.example.Valet"@));
            }
        }
    }
    config_dir_from(project, user)
}

/// `config.json` in the directory `dir`: the directory, a separator unless
/// it ends in one, then `config.json` (which comes last in any case).
pub fn config_path_in(dir: &str) -> (r: String)
    ensures
        ends_with(r@, "config.json"@),
        !verbatim_path(dir@) ==> joined(dir@, "config.json"@, r@),
{
    proof {
        reveal_strlit("config.json");
        assert(relative_name("config.json"@));
        assert("config.json"@ != seq!['.'] && "config.json"@ != seq!['.', '.']) by {
            assert("config.json"@.len() == 11);
        }
    }
    join_path(dir, "config.json")
}

/// The path of the configuration file from what the platform gave:
/// `config.json` in the directory that `config_dir_from` chooses, and
/// `NoConfigDir` exactly when it chooses none.
pub fn config_path_from(project: Option<String>, user: Option<String>) -> (r: Result<String, ConfigError>)
    ensures
        (match project {
            None => r == Err::<String, ConfigError>(ConfigError::NoConfigDir),
            Some(d) => if !windows_project_layout(d@) {
                r matches Ok(p) && ends_with(p@, "config.json"@)
                    && (!verbatim_path(d@) ==> joined(d@, "config.json"@, p@))
            } else {
                match user {
                    None => r == Err::<String, ConfigError>(ConfigError::NoConfigDir),
                    Some(b) => r matches Ok(p) && ends_with(p@, "config.json"@)
                        && (!verbatim_path(b@) ==> exists|x: Seq<char>| #[trigger] joined(b@, "com.example.Valet"@, x)
                            && ends_with(x, "com.example.Valet"@)
                            && (!verbatim_path(x) ==> joined(x, "config.json"@, p@))),
                }
            },
        }),
        r matches Err(e) ==> e == ConfigError::NoConfigDir,
{
    let dir = config_dir_from(project, user)?;
    let p = config_path_in(dir.as_str());
    assert(ends_with(dir@, "com.example.Valet"@) ==> (!verbatim_path(dir@) ==> joined(dir@, "config.json"@, p@)));
    Ok(p)
}

/// The path of the configuration file: `config.json` in the configuration
/// directory, chosen by `config_path_from` from what `directories` gives.
pub fn config_path() -> (r: Result<String, ConfigError>)
    ensures
        r matches Ok(p) ==> ends_with(p@, "config.json"@),
        r matches Err(e) ==> e == ConfigError::NoConfigDir,
{
    config_path_from(project_config_dir(), user_config_dir())
}

} // verus!
