use vstd::prelude::*;

verus! {

broadcast use vstd::string::group_string_axioms;

/// A setting read from an environment variable, with a default for when the
/// variable is not set.
pub struct EnvOverride {
    varname: &'static str,
    default: &'static str,
}

impl EnvOverride {
    /// The name of the environment variable.
    pub closed spec fn varname_view(&self) -> Seq<char> {
        self.varname@
    }

    /// The value used when the variable is not set.
    pub closed spec fn default_view(&self) -> Seq<char> {
        self.default@
    }

    pub fn new(varname: &'static str, default: &'static str) -> (r: Self)
        ensures
            r.varname_view() == varname@,
            r.default_view() == default@,
    {
        EnvOverride { varname, default }
    }

    /// The name of the environment variable to look up.
    pub fn varname(&self) -> (r: &'static str)
        ensures
            r@ == self.varname_view(),
    {
        self.varname
    }

    /// The setting, given what the lookup of the variable found: its value when it
    /// is set (to valid Unicode), else the default.
    pub fn get(&self, env_value: Option<String>) -> (r: String)
        ensures
            r@ == match env_value {
                Some(v) => v@,
                None => self.default_view(),
            },
    {
        match env_value {
            Some(v) => v,
            None => self.default.to_string(),
        }
    }
}

/// Where the SQLite database lives.
pub fn db_path() -> (r: EnvOverride)
    ensures
        r.varname_view() == "POTASSIUM_SHOT_API_DB_PATH"@,
        r.default_view() == "/usr/share/potassium-shot-api/db.sqlite"@,
{
    EnvOverride::new("POTASSIUM_SHOT_API_DB_PATH", "/usr/share/potassium-shot-api/db.sqlite")
}

/// The directory the plugins are loaded from.
pub fn plugins_path() -> (r: EnvOverride)
    ensures
        r.varname_view() == "POTASSIUM_SHOT_API_PLUGINS_PATH"@,
        r.default_view() == "/usr/share/potassium-shot-api/plugins"@,
{
    EnvOverride::new("POTASSIUM_SHOT_API_PLUGINS_PATH", "/usr/share/potassium-shot-api/plugins")
}

/// The address the server listens on.
pub fn listen_addr() -> (r: EnvOverride)
    ensures
        r.varname_view() == "POTASSIUM_SHOT_API_LISTEN_ADDR"@,
        r.default_view() == "0.0.0.0"@,
{
    EnvOverride::new("POTASSIUM_SHOT_API_LISTEN_ADDR", "0.0.0.0")
}

/// The port the server listens on.
pub fn listen_port() -> (r: EnvOverride)
    ensures
        r.varname_view() == "POTASSIUM_SHOT_API_LISTEN_PORT"@,
        r.default_view() == "8080"@,
{
    EnvOverride::new("POTASSIUM_SHOT_API_LISTEN_PORT", "8080")
}

} // verus!
