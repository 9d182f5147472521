//! Multi-profile configuration: the profile table, profile resolution, the
//! profile built from environment variables, and URL validation of loaded
//! profiles.
//!
//! Reading the configuration file and the environment is left to the
//! caller; these functions decide what the values read mean.

mod error;
mod profile;

pub use error::ConfigError;
pub use profile::{default_true, AuthMethod, FolderMappings, Profile};

use vstd::prelude::*;

use crate::secret::Secret;
use crate::seqs::{first_match, lemma_first_match, lemma_first_match_at, lemma_first_match_none, lemma_first_match_push, lemma_first_match_update};
use crate::strings::{str_eq, to_owned};
use crate::validate::{url_accepted, url_parse, validate_server_url, ValidateError};

verus! {

/// Profiles by name; each name occurs once.
pub struct ProfileMap {
    entries: Vec<(String, Profile)>,
}

/// The entry carries the name `k`.
pub open spec fn key_is(k: Seq<char>) -> spec_fn((String, Profile)) -> bool {
    |e: (String, Profile)| e.0@ == k
}

impl View for ProfileMap {
    type V = Map<Seq<char>, Profile>;

    closed spec fn view(&self) -> Map<Seq<char>, Profile> {
        Map::new(
            |k: Seq<char>| first_match(self.entries@, key_is(k)) is Some,
            |k: Seq<char>| self.entries@[first_match(self.entries@, key_is(k))->0].1,
        )
    }
}

impl ProfileMap {
    #[verifier::type_invariant]
    spec fn names_unique(&self) -> bool {
        forall|i: int, j: int|
            0 <= i < j < self.entries@.len() ==> self.entries@[i].0@ != self.entries@[j].0@
    }

    /// The empty table.
    pub fn new() -> (r: Self)
        ensures
            r@ == Map::<Seq<char>, Profile>::empty(),
    {
        let r = ProfileMap { entries: Vec::new() };
        assert(r@ =~= Map::<Seq<char>, Profile>::empty());
        r
    }

    /// Position of the entry named `name`.
    fn position(&self, name: &str) -> (r: Option<usize>)
        ensures
            r matches Some(i) ==> first_match(self.entries@, key_is(name@)) == Some(i as int),
            r is None ==> first_match(self.entries@, key_is(name@)) is None,
    {
        let mut i: usize = 0;
        while i < self.entries.len()
            invariant
                i <= self.entries@.len(),
                forall|j: int| 0 <= j < i ==> !key_is(name@)(#[trigger] self.entries@[j]),
            decreases self.entries@.len() - i,
        {
            if str_eq(self.entries[i].0.as_str(), name) {
                proof {
                    lemma_first_match_at(self.entries@, key_is(name@), i as int);
                }
                return Some(i);
            }
            i = i + 1;
        }
        proof {
            lemma_first_match_none(self.entries@, key_is(name@));
        }
        None
    }

    /// Adds a profile under `name`, replacing the one that had that name.
    pub fn insert(&mut self, name: String, profile: Profile)
        ensures
            final(self)@ == old(self)@.insert(name@, profile),
    {
        proof {
            use_type_invariant(&*self);
        }
        let ghost before = self.entries@;
        let ghost k = name@;
        let found = self.position(name.as_str());
        let mut entries: Vec<(String, Profile)> = Vec::new();
        std::mem::swap(&mut entries, &mut self.entries);
        match found {
            Some(i) => {
                proof {
                    lemma_first_match(before, key_is(k));
                }
                entries.set(i, (name, profile));
                self.entries = entries;
                proof {
                    assert forall|k2: Seq<char>| true implies first_match(
                        self.entries@,
                        key_is(k2),
                    ) == first_match(before, key_is(k2)) by {
                        lemma_first_match_update(before, key_is(k2), i as int, self.entries@[i as int]);
                    }
                    assert forall|k2: Seq<char>| #[trigger] old(self)@.contains_key(k2) && k2 != k implies self@[k2]
                        == old(self)@[k2] by {
                        lemma_first_match(before, key_is(k2));
                        let j = first_match(before, key_is(k2))->0;
                        assert(j != i);
                        assert(self.entries@[j] == before[j]);
                    }
                    assert(self@.contains_key(k));
                    assert(self@[k] == profile);
                    assert(self@ =~= old(self)@.insert(k, profile));
                }
            },
            None => {
                proof {
                    lemma_first_match(before, key_is(k));
                }
                entries.push((name, profile));
                self.entries = entries;
                proof {
                    assert forall|k2: Seq<char>| true implies first_match(
                        self.entries@,
                        key_is(k2),
                    ) == match first_match(before, key_is(k2)) {
                        Some(j) => Some(j),
                        None => if key_is(k2)(self.entries@.last()) {
                            Some(before.len() as int)
                        } else {
                            None
                        },
                    } by {
                        assert(self.entries@ == before.push(self.entries@.last()));
                        lemma_first_match_push(before, key_is(k2), self.entries@.last());
                    }
                    assert forall|k2: Seq<char>| #[trigger] old(self)@.contains_key(k2) implies self@[k2]
                        == old(self)@[k2] by {
                        lemma_first_match(before, key_is(k2));
                        let j = first_match(before, key_is(k2))->0;
                        assert(self.entries@[j] == before[j]);
                    }
                    assert(self@ =~= old(self)@.insert(k, profile));
                }
            },
        }
    }

    /// The stored name and the profile for `name`.
    pub fn get_key_value(&self, name: &str) -> (r: Option<(&str, &Profile)>)
        ensures
            self@.contains_key(name@) ==> (r matches Some((k, p)) && k@ == name@ && *p
                == self@[name@]),
            !self@.contains_key(name@) ==> r is None,
    {
        match self.position(name) {
            Some(i) => {
                proof {
                    lemma_first_match(self.entries@, key_is(name@));
                }
                Some((self.entries[i].0.as_str(), &self.entries[i].1))
            },
            None => None,
        }
    }

    /// Every profile with its name, each once, in the table's order.
    pub fn entries(&self) -> (r: Vec<(&str, &Profile)>)
        ensures
            forall|i: int|
                0 <= i < r@.len() ==> self@.contains_key((#[trigger] r@[i]).0@) && *r@[i].1
                    == self@[r@[i].0@],
            forall|i: int, j: int| 0 <= i < j < r@.len() ==> (#[trigger] r@[i]).0@ != (#[trigger] r@[j]).0@,
            forall|k: Seq<char>|
                #[trigger] self@.contains_key(k) ==> exists|i: int| 0 <= i < r@.len() && (#[trigger] r@[i]).0@ == k,
    {
        proof {
            use_type_invariant(self);
        }
        let mut out: Vec<(&str, &Profile)> = Vec::new();
        let mut i: usize = 0;
        while i < self.entries.len()
            invariant
                i <= self.entries@.len(),
                out@.len() == i,
                forall|j: int| 0 <= j < self.entries@.len() ==> forall|l: int|
                    0 <= l < j ==> self.entries@[l].0@ != #[trigger] self.entries@[j].0@,
                forall|j: int|
                    0 <= j < i ==> (#[trigger] out@[j]).0@ == self.entries@[j].0@ && *out@[j].1
                        == self.entries@[j].1,
            decreases self.entries@.len() - i,
        {
            out.push((self.entries[i].0.as_str(), &self.entries[i].1));
            i = i + 1;
        }
        proof {
            assert forall|j: int| 0 <= j < out@.len() implies self@.contains_key((#[trigger] out@[j]).0@)
                && *out@[j].1 == self@[out@[j].0@] by {
                let k = self.entries@[j].0@;
                lemma_first_match_at(self.entries@, key_is(k), j);
            }
            assert forall|k: Seq<char>| #[trigger] self@.contains_key(k) implies exists|j: int|
                0 <= j < out@.len() && (#[trigger] out@[j]).0@ == k by {
                lemma_first_match(self.entries@, key_is(k));
                let j = first_match(self.entries@, key_is(k))->0;
                assert(out@[j].0@ == k);
            }
        }
        out
    }

    /// Whether the table holds no profile.
    pub fn is_empty(&self) -> (r: bool)
        ensures
            r == (self@ == Map::<Seq<char>, Profile>::empty()),
    {
        proof {
            if self.entries@.len() > 0 {
                let k = self.entries@[0].0@;
                lemma_first_match_at(self.entries@, key_is(k), 0);
                assert(self@.contains_key(k));
                assert(!Map::<Seq<char>, Profile>::empty().contains_key(k));
            } else {
                assert(self@ =~= Map::<Seq<char>, Profile>::empty());
            }
        }
        self.entries.len() == 0
    }
}

/// Top-level config structure.
pub struct Config {
    /// Default profile name to use when no profile is named
    pub default_profile: Option<String>,
    /// Named profiles
    pub profiles: ProfileMap,
}

impl Default for Config {
    fn default() -> (r: Self)
        ensures
            r.default_profile is None,
            r.profiles@ == Map::<Seq<char>, Profile>::empty(),
    {
        Config { default_profile: None, profiles: ProfileMap::new() }
    }
}

/// The values of the `HERALD_*` environment variables (`None` when unset).
pub struct EnvVars {
    pub server_url: Option<String>,
    pub auth_method: Option<String>,
    pub username: Option<String>,
    pub password: Option<String>,
    pub api_key: Option<String>,
    pub client_id: Option<String>,
    pub from_email: Option<String>,
    pub from_name: Option<String>,
}

/// The profile name a lookup uses: the one asked for, else the default
/// profile, else `"default"`.
pub open spec fn effective_profile_name(asked: Option<Seq<char>>, default_profile: Option<String>) -> Seq<char> {
    match asked {
        Some(n) => n,
        None => match default_profile {
            Some(d) => d@,
            None => "default"@,
        },
    }
}

/// Whether a profile's server URL passes validation.
pub open spec fn profile_url_ok(p: Profile) -> bool {
    url_parse(p.server_url@) matches Ok(parts) && url_accepted(parts, p.allow_insecure)
}

/// The auth method named in the environment ("app-password" when unset).
pub open spec fn env_method(vars: EnvVars) -> Seq<char> {
    match vars.auth_method {
        Some(m) => m@,
        None => "app-password"@,
    }
}

/// The server URL of the environment is present and acceptable.
pub open spec fn env_server_ok(vars: EnvVars) -> bool {
    vars.server_url matches Some(u) && url_parse(u@) matches Ok(parts) && url_accepted(parts, false)
}

/// The auth method built from the environment.
pub open spec fn env_auth_is(a: AuthMethod, vars: EnvVars) -> bool {
    let m = env_method(vars);
    if m == "app-password"@ {
        a matches AuthMethod::AppPassword { username, password } && Some(username)
            == vars.username && Some(password@) == vars.password
    } else if m == "api-key"@ {
        a matches AuthMethod::ApiKey { token } && Some(token@) == vars.api_key
    } else if m == "oauth-browser"@ {
        a matches AuthMethod::OAuthBrowser { client_id } && Some(client_id) == vars.client_id
    } else {
        a matches AuthMethod::OAuthDevice { client_id } && Some(client_id) == vars.client_id
    }
}

/// The name of the variable whose absence stops the build, if any.
pub open spec fn env_missing(vars: EnvVars) -> Option<Seq<char>> {
    let m = env_method(vars);
    if m == "app-password"@ {
        if vars.username is None {
            Some("HERALD_USERNAME"@)
        } else if vars.password is None {
            Some("HERALD_PASSWORD"@)
        } else {
            None
        }
    } else if m == "api-key"@ {
        if vars.api_key is None {
            Some("HERALD_API_KEY"@)
        } else {
            None
        }
    } else if vars.client_id is None {
        Some("HERALD_CLIENT_ID"@)
    } else {
        None
    }
}

pub open spec fn known_method(m: Seq<char>) -> bool {
    m == "app-password"@ || m == "api-key"@ || m == "oauth-browser"@ || m == "oauth-device"@
}

/// The single profile made from the environment.
pub open spec fn env_profile_is(p: Profile, vars: EnvVars) -> bool {
    &&& Some(p.server_url) == vars.server_url
    &&& env_auth_is(p.auth, vars)
    &&& p.from_email == vars.from_email
    &&& p.from_name == vars.from_name
    &&& p.folders.sent is None && p.folders.archive is None
    &&& p.folders.spam is None && p.folders.trash is None
    &&& p.compose_format is None && p.signature is None
    &&& !p.allow_insecure && p.confirm_actions
}

fn missing(name: &'static str) -> (r: Result<Config, ConfigError>)
    ensures
        r matches Err(ConfigError::MissingEnv(n)) && n == name,
{
    Err(ConfigError::MissingEnv(name))
}

impl Config {
    /// Get a profile by name (or the default profile).
    pub fn get_profile(&self, name: Option<&str>) -> (r: Result<&Profile, ConfigError>)
        ensures
            ({
                let n = effective_profile_name(
                    match name {
                        Some(s) => Some(s@),
                        None => None,
                    },
                    self.default_profile,
                );
                &&& self.profiles@.contains_key(n) ==> (r matches Ok(p) && *p == self.profiles@[n])
                &&& !self.profiles@.contains_key(n) ==> (r matches Err(
                    ConfigError::ProfileNotFound(m),
                ) && m@ == n)
            }),
    {
        match self.get_profile_with_name(name) {
            Ok((_, p)) => Ok(p),
            Err(e) => Err(e),
        }
    }

    /// Get a profile by name (or the default profile) along with the
    /// resolved profile name.
    pub fn get_profile_with_name(&self, name: Option<&str>) -> (r: Result<(&str, &Profile), ConfigError>)
        ensures
            ({
                let n = effective_profile_name(
                    match name {
                        Some(s) => Some(s@),
                        None => None,
                    },
                    self.default_profile,
                );
                &&& self.profiles@.contains_key(n) ==> (r matches Ok((k, p)) && k@ == n && *p
                    == self.profiles@[n])
                &&& !self.profiles@.contains_key(n) ==> (r matches Err(
                    ConfigError::ProfileNotFound(m),
                ) && m@ == n)
            }),
    {
        let profile_name: String = match name {
            Some(s) => to_owned(s),
            None => match &self.default_profile {
                Some(d) => d.clone(),
                None => to_owned("default"),
            },
        };
        match self.profiles.get_key_value(profile_name.as_str()) {
            Some(kv) => Ok(kv),
            None => Err(ConfigError::ProfileNotFound(profile_name)),
        }
    }

    /// Build the single-profile configuration that the `HERALD_*`
    /// environment variables describe.
    ///
    /// - HERALD_SERVER_URL (required, validated without `allow_insecure`)
    /// - HERALD_AUTH_METHOD (app-password | api-key | oauth-browser | oauth-device)
    /// - HERALD_USERNAME, HERALD_PASSWORD (app-password)
    /// - HERALD_API_KEY (api-key)
    /// - HERALD_CLIENT_ID (oauth-browser, oauth-device)
    /// - HERALD_FROM_EMAIL, HERALD_FROM_NAME (optional)
    pub fn from_env_vars(vars: EnvVars) -> (r: Result<Config, ConfigError>)
        ensures
            vars.server_url is None ==> (r matches Err(ConfigError::MissingEnv(n)) && n@
                == "HERALD_SERVER_URL"@),
            vars.server_url matches Some(u) ==> (url_parse(u@) matches Err(e) ==> (r matches Err(
                ConfigError::Validate(ValidateError::UrlParse(f)),
            ) && f == e)),
            vars.server_url matches Some(u) ==> (url_parse(u@) matches Ok(parts) ==> (
            !url_accepted(parts, false) ==> (r matches Err(
                ConfigError::Validate(ValidateError::InsecureUrl(x)),
            ) && x@ == u@))),
            env_server_ok(vars) && !known_method(env_method(vars)) ==> (r matches Err(
                ConfigError::InvalidAuthMethod(m),
            ) && m@ == env_method(vars)),
            env_server_ok(vars) && known_method(env_method(vars)) && env_missing(vars) is Some ==> (
            r matches Err(ConfigError::MissingEnv(v)) && v@ == env_missing(vars)->0),
            env_server_ok(vars) && known_method(env_method(vars)) && env_missing(vars) is None ==> (
            r matches Ok(c) && c.default_profile matches Some(d) && d@ == "default"@
                && c.profiles@.dom() == set!["default"@] && env_profile_is(
                c.profiles@["default"@],
                vars,
            )),
    {
        let EnvVars {
            server_url,
            auth_method,
            username,
            password,
            api_key,
            client_id,
            from_email,
            from_name,
        } = vars;
        let server_url = match server_url {
            Some(u) => u,
            None => {
                return missing("HERALD_SERVER_URL");
            },
        };
        match validate_server_url(server_url.as_str(), false) {
            Ok(()) => {},
            Err(e) => {
                return Err(ConfigError::Validate(e));
            },
        }
        let method: String = match auth_method {
            Some(m) => m,
            None => to_owned("app-password"),
        };
        let auth = if str_eq(method.as_str(), "app-password") {
            let username = match username {
                Some(u) => u,
                None => {
                    return missing("HERALD_USERNAME");
                },
            };
            let password = match password {
                Some(p) => p,
                None => {
                    return missing("HERALD_PASSWORD");
                },
            };
            AuthMethod::AppPassword { username, password: Secret::new(password) }
        } else if str_eq(method.as_str(), "api-key") {
            let token = match api_key {
                Some(t) => t,
                None => {
                    return missing("HERALD_API_KEY");
                },
            };
            AuthMethod::ApiKey { token: Secret::new(token) }
        } else if str_eq(method.as_str(), "oauth-browser") {
            let client_id = match client_id {
                Some(c) => c,
                None => {
                    return missing("HERALD_CLIENT_ID");
                },
            };
            AuthMethod::OAuthBrowser { client_id }
        } else if str_eq(method.as_str(), "oauth-device") {
            let client_id = match client_id {
                Some(c) => c,
                None => {
                    return missing("HERALD_CLIENT_ID");
                },
            };
            AuthMethod::OAuthDevice { client_id }
        } else {
            return Err(ConfigError::InvalidAuthMethod(method));
        };
        let profile = Profile {
            server_url,
            auth,
            from_email,
            from_name,
            folders: FolderMappings::default(),
            compose_format: None,
            signature: None,
            allow_insecure: false,
            confirm_actions: true,
        };
        let mut profiles = ProfileMap::new();
        let ghost p = profile;
        profiles.insert(to_owned("default"), profile);
        assert(profiles@.dom() =~= set!["default"@]);
        Ok(Config { default_profile: Some(to_owned("default")), profiles })
    }

    /// Check the server URL of every profile of a loaded configuration;
    /// the configuration comes back unchanged when all pass.
    pub fn validate_profiles(self) -> (r: Result<Config, ConfigError>)
        ensures
            r is Ok <==> forall|k: Seq<char>| #[trigger]
                self.profiles@.contains_key(k) ==> profile_url_ok(self.profiles@[k]),
            r matches Ok(c) ==> c.default_profile == self.default_profile && c.profiles@
                == self.profiles@,
            r is Err ==> r matches Err(ConfigError::Validate(_)),
    {
        proof {
            use_type_invariant(&self.profiles);
        }
        let mut i: usize = 0;
        while i < self.profiles.entries.len()
            invariant
                i <= self.profiles.entries@.len(),
                forall|j: int| 0 <= j < i ==> profile_url_ok(#[trigger] self.profiles.entries@[j].1),
                self.profiles.names_unique(),
            decreases self.profiles.entries@.len() - i,
        {
            let p = &self.profiles.entries[i].1;
            match validate_server_url(p.server_url.as_str(), p.allow_insecure) {
                Ok(()) => {},
                Err(e) => {
                    proof {
                        let k = self.profiles.entries@[i as int].0@;
                        self.profiles.lemma_entry_in_map(i as int);
                        assert(self.profiles@.contains_key(k));
                        assert(!profile_url_ok(self.profiles@[k]));
                    }
                    return Err(ConfigError::Validate(e));
                },
            }
            i = i + 1;
        }
        proof {
            assert forall|k: Seq<char>| #[trigger]
                self.profiles@.contains_key(k) implies profile_url_ok(self.profiles@[k]) by {
                lemma_first_match(self.profiles.entries@, key_is(k));
            }
        }
        Ok(self)
    }

    /// The configuration to use: the file's when it names any profile,
    /// else the one from the environment.
    pub fn resolve(file_config: Config, env_config: Result<Config, ConfigError>) -> (r: Result<Config, ConfigError>)
        ensures
            file_config.profiles@ != Map::<Seq<char>, Profile>::empty() ==> r == Ok::<
                Config,
                ConfigError,
            >(file_config),
            file_config.profiles@ == Map::<Seq<char>, Profile>::empty() ==> r == env_config,
    {
        if !file_config.profiles.is_empty() {
            return Ok(file_config);
        }
        env_config
    }
}

impl ProfileMap {
    /// Every stored entry is what the map gives for its name.
    proof fn lemma_entry_in_map(&self, i: int)
        requires
            0 <= i < self.entries@.len(),
            self.names_unique(),
        ensures
            self@.contains_key(self.entries@[i].0@),
            self@[self.entries@[i].0@] == self.entries@[i].1,
    {
        let k = self.entries@[i].0@;
        assert forall|j: int| 0 <= j < i implies !key_is(k)(#[trigger] self.entries@[j]) by {}
        lemma_first_match_at(self.entries@, key_is(k), i);
    }
}

} // verus!
