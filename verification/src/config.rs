//! The bot's configuration, and where the bot looks for its files.
use vstd::prelude::*;
use crate::model::QuarantineRoles;

verus! {

/// The bot's configuration.
pub struct Config {
    /// The file holding the Discord token.
    pub token_file: String,
    /// The file holding the URL of the log channel's webhook.
    pub log_channel_webhook_file: String,
    /// The role whose members may use the moderators' commands.
    pub mod_role: Option<u64>,
    /// The guild whose roles decide a quarantine after an account change.
    pub main_server: u64,
    /// The role a quarantine gives.
    pub qurantine_add_role: Option<u64>,
    /// The role a quarantine takes away.
    pub qurantine_prevent_role: Option<u64>,
}

impl Config {
    /// The roles a quarantine changes.
    pub fn quarantine_roles(&self) -> (r: QuarantineRoles)
        ensures
            r.add_role == self.qurantine_add_role,
            r.prevent_role == self.qurantine_prevent_role,
    {
        QuarantineRoles { add_role: self.qurantine_add_role, prevent_role: self.qurantine_prevent_role }
    }
}

/// Whether the test mode is on: the value of `YASLTEST` is exactly `1`.
pub open spec fn test_mode(yasl_test: Option<Seq<char>>) -> bool {
    yasl_test == Some("1"@)
}

/// Decides the test mode from the value of `YASLTEST`, if it is set (and valid Unicode).
pub fn is_test_mode(yasl_test: &Option<String>) -> (b: bool)
    ensures
        b == test_mode(match yasl_test {
            Some(v) => Some(v@),
            None => None,
        }),
{
    proof {
        reveal_strlit("1");
    }
    match yasl_test {
        Some(v) => {
            let s = v.as_str();
            if s.unicode_len() == 1 {
                let c = s.get_char(0);
                if c == '1' {
                    assert(s@ =~= "1"@);
                    true
                } else {
                    assert(s@[0] != "1"@[0]);
                    false
                }
            } else {
                assert(s@.len() != "1"@.len());
                false
            }
        },
        None => false,
    }
}

/// The configuration file: `yasl.toml` in test mode; otherwise `yasl.toml` in the directory
/// named by `CONFIGURATION_DIRECTORY`, or in `/etc` when that is not set.
pub open spec fn config_file_path(test: bool, configuration_directory: Option<Seq<char>>) -> Seq<char> {
    if test {
        "yasl.toml"@
    } else {
        match configuration_directory {
            Some(dir) => dir + "/yasl.toml"@,
            None => "/etc"@ + "/yasl.toml"@,
        }
    }
}

/// The database file: `yasl.sql` in test mode; otherwise `yasl.sql` in the directory named
/// by `STATE_DIRECTORY`, or in `/var/lib/yasl` when that is not set.
pub open spec fn database_path(test: bool, state_directory: Option<Seq<char>>) -> Seq<char> {
    if test {
        "yasl.sql"@
    } else {
        match state_directory {
            Some(dir) => dir + "/yasl.sql"@,
            None => "/var/lib/yasl"@ + "/yasl.sql"@,
        }
    }
}

/// The view of an optional text.
pub open spec fn text_of(s: Option<String>) -> Option<Seq<char>> {
    match s {
        Some(v) => Some(v@),
        None => None,
    }
}

/// Where the configuration file is.
pub fn config_file(test: bool, configuration_directory: Option<String>) -> (path: String)
    ensures
        path@ == config_file_path(test, text_of(configuration_directory)),
{
    if test {
        String::from_str("yasl.toml")
    } else {
        let dir = match configuration_directory {
            Some(d) => d,
            None => String::from_str("/etc"),
        };
        dir.concat("/yasl.toml")
    }
}

/// Where the database file is.
pub fn database_file(test: bool, state_directory: Option<String>) -> (path: String)
    ensures
        path@ == database_path(test, text_of(state_directory)),
{
    if test {
        String::from_str("yasl.sql")
    } else {
        let dir = match state_directory {
            Some(d) => d,
            None => String::from_str("/var/lib/yasl"),
        };
        dir.concat("/yasl.sql")
    }
}

/// In test mode the configuration file is `yasl.toml` and the database `yasl.sql`, in the
/// working directory, whatever directories are set; otherwise each is its file name after
/// the directory that is set, or after `/etc` and `/var/lib/yasl` when none is.
pub proof fn law_file_paths(test: bool, directory: Option<Seq<char>>)
    ensures
        test ==> config_file_path(test, directory) == "yasl.toml"@,
        test ==> database_path(test, directory) == "yasl.sql"@,
        test ==> config_file_path(test, directory) == config_file_path(test, None)
            && database_path(test, directory) == database_path(test, None),
        forall|dir: Seq<char>| !test && directory == Some(dir) ==> config_file_path(test, directory) == dir + "/yasl.toml"@
            && database_path(test, directory) == dir + "/yasl.sql"@,
        !test && directory is None ==> config_file_path(test, directory) == "/etc/yasl.toml"@
            && database_path(test, directory) == "/var/lib/yasl/yasl.sql"@,
{
    reveal_strlit("/etc");
    reveal_strlit("/yasl.toml");
    reveal_strlit("/etc/yasl.toml");
    reveal_strlit("/var/lib/yasl");
    reveal_strlit("/yasl.sql");
    reveal_strlit("/var/lib/yasl/yasl.sql");
    assert("/etc"@ + "/yasl.toml"@ =~= "/etc/yasl.toml"@);
    assert("/var/lib/yasl"@ + "/yasl.sql"@ =~= "/var/lib/yasl/yasl.sql"@);
}

} // verus!
