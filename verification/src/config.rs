//! The application configuration: the locked executables and the master password.
use crate::password::{
    argon2_accepts, hash_password, hashable, is_argon2id_phc, parses_as_phc, password_accepts,
    password_matches, phc_valid,
};
use crate::text::{normalize_name, normalized};
use vstd::prelude::*;

verus! {

/// Name of the Windows named pipe used for IPC.
pub const PIPE_NAME: &'static str = "\\\\.\\pipe\\applocker_pipe";

/// Name of the configuration file.
pub const CONFIG_FILENAME: &'static str = "config.json";

/// Internal name of the Windows service.
pub const SERVICE_NAME: &'static str = "AppLockerService";

/// Display name of the Windows service.
pub const SERVICE_DISPLAY_NAME: &'static str = "App Locker Protection Service";

/// The configuration: locked executable names and the master password.
#[derive(Debug, Clone, PartialEq, Eq)]
pub struct AppConfig {
    /// File names of the locked executables (such as `notepad.exe`).
    pub locked_apps: Vec<String>,
    /// Argon2id PHC hash of the password (or a legacy plain-text password).
    pub password: String,
}

/// The list of application names after cleaning: each entry trimmed and lower-cased,
/// empty results dropped, and only the first of equal results kept.
pub open spec fn sanitize_names(s: Seq<Seq<char>>) -> Seq<Seq<char>>
    decreases s.len(),
{
    if s.len() == 0 {
        Seq::empty()
    } else {
        let prev = sanitize_names(s.drop_last());
        let n = normalized(s.last());
        if n.len() == 0 || prev.contains(n) {
            prev
        } else {
            prev.push(n)
        }
    }
}

/// Cleaning leaves no empty name and no name twice.
pub proof fn sanitize_names_clean(s: Seq<Seq<char>>)
    ensures
        forall|i: int| 0 <= i < sanitize_names(s).len() ==> #[trigger] sanitize_names(s)[i].len() > 0,
        forall|i: int, j: int|
            0 <= i < j < sanitize_names(s).len() ==> sanitize_names(s)[i] != sanitize_names(s)[j],
    decreases s.len(),
{
    if s.len() > 0 {
        sanitize_names_clean(s.drop_last());
        let p = sanitize_names(s.drop_last());
        let n = normalized(s.last());
        if !(n.len() == 0 || p.contains(n)) {
            let r = sanitize_names(s);
            assert(r == p.push(n));
            assert forall|i: int, j: int| 0 <= i < j < r.len() implies r[i] != r[j] by {
                if j == p.len() {
                    assert(r[j] == n);
                    assert(r[i] == p[i]);
                    if r[i] == r[j] {
                        assert(p.contains(n));
                    }
                } else {
                    assert(r[i] == p[i] && r[j] == p[j]);
                }
            }
            assert forall|i: int| 0 <= i < r.len() implies #[trigger] r[i].len() > 0 by {
                if i < p.len() {
                    assert(r[i] == p[i]);
                }
            }
        }
    }
}

/// A name is kept by cleaning exactly when it is non-empty and is the normal form of
/// some entry of the original list.
pub proof fn sanitize_names_members(s: Seq<Seq<char>>, x: Seq<char>)
    ensures
        sanitize_names(s).contains(x) <==> (x.len() > 0 && exists|k: int|
            0 <= k < s.len() && normalized(#[trigger] s[k]) == x),
    decreases s.len(),
{
    if s.len() > 0 {
        let p = s.drop_last();
        sanitize_names_members(p, x);
        let r = sanitize_names(s);
        let n = normalized(s.last());
        if x.len() > 0 && exists|k: int| 0 <= k < s.len() && normalized(#[trigger] s[k]) == x {
            let k = choose|k: int| 0 <= k < s.len() && normalized(#[trigger] s[k]) == x;
            if k < s.len() - 1 {
                assert(p[k] == s[k]);
                assert(sanitize_names(p).contains(x));
                if !(n.len() == 0 || sanitize_names(p).contains(n)) {
                    assert(r[sanitize_names(p).len() as int] == n);
                    let i = choose|i: int| 0 <= i < sanitize_names(p).len() && sanitize_names(p)[i] == x;
                    assert(r[i] == x);
                }
            } else {
                if !sanitize_names(p).contains(n) {
                    assert(r[sanitize_names(p).len() as int] == n);
                }
            }
        }
        if r.contains(x) {
            let i = choose|i: int| 0 <= i < r.len() && r[i] == x;
            if i < sanitize_names(p).len() {
                assert(sanitize_names(p).contains(x));
                let k = choose|k: int| 0 <= k < p.len() && normalized(#[trigger] p[k]) == x;
                assert(s[k] == p[k]);
            } else {
                assert(normalized(s[s.len() - 1]) == x);
            }
        }
    }
}

/// Cleaning changes nothing in a list whose entries are already non-empty, in normal
/// form and pairwise distinct.
pub proof fn sanitize_names_fixed(s: Seq<Seq<char>>)
    requires
        forall|i: int| 0 <= i < s.len() ==> (#[trigger] s[i]).len() > 0 && normalized(s[i]) == s[i],
        forall|i: int, j: int| 0 <= i < j < s.len() ==> s[i] != s[j],
    ensures
        sanitize_names(s) == s,
    decreases s.len(),
{
    if s.len() > 0 {
        let p = s.drop_last();
        sanitize_names_fixed(p);
        assert(sanitize_names(p) == p);
        if p.contains(s.last()) {
            let i = choose|i: int| 0 <= i < p.len() && p[i] == s.last();
            assert(s[i] == s[s.len() - 1]);
        }
        assert(p.push(s.last()) =~= s);
    }
}

/// Loading gives back a configuration that is already clean (names non-empty, in
/// normal form and distinct) and holds a hashed password, and asks for no write-back:
/// saving and loading again changes nothing.
pub proof fn load_keeps_clean_config(c: AppConfig, loaded_password: Seq<char>, write_back: bool)
    requires
        forall|i: int|
            0 <= i < c.apps().len() ==> (#[trigger] c.apps()[i]).len() > 0 && normalized(c.apps()[i])
                == c.apps()[i],
        forall|i: int, j: int| 0 <= i < j < c.apps().len() ==> c.apps()[i] != c.apps()[j],
        phc_valid(c.password@),
        migrated_password(c.password@, loaded_password, write_back),
    ensures
        sanitize_names(c.apps()) == c.apps(),
        loaded_password == c.password@,
        !write_back,
{
    sanitize_names_fixed(c.apps());
}

/// The default password: an Argon2id hash of `admin`.
pub open spec fn is_default_password(p: Seq<char>) -> bool {
    phc_valid(p) && argon2_accepts("admin"@, p) && is_argon2id_phc(p)
}

/// What was found where the configuration is stored.
pub enum StoredConfig {
    /// No configuration file could be read.
    Missing,
    /// A file was read but did not hold a configuration.
    Corrupt,
    /// A configuration was read.
    Parsed(AppConfig),
}

/// A configuration as loaded, and whether it has to be written back to storage.
pub struct LoadedConfig {
    pub config: AppConfig,
    pub write_back: bool,
}

/// A legacy plain-text password replaced by its Argon2id hash, to be written back.
pub open spec fn hashed_from(stored: Seq<char>, loaded: Seq<char>, write_back: bool) -> bool {
    write_back && phc_valid(loaded) && argon2_accepts(stored, loaded) && is_argon2id_phc(loaded)
}

/// The password after loading: a stored PHC hash is kept; a legacy plain-text
/// password is replaced by its Argon2id hash (and written back). Only a plain text
/// too long for Argon2 may be kept as it is.
pub open spec fn migrated_password(stored: Seq<char>, loaded: Seq<char>, write_back: bool) -> bool {
    if phc_valid(stored) {
        loaded == stored && !write_back
    } else if hashable(stored) {
        hashed_from(stored, loaded, write_back)
    } else {
        (loaded == stored && !write_back) || hashed_from(stored, loaded, write_back)
    }
}

/// Whether `list` holds `x` (compared as text).
pub fn contains_name(list: &Vec<String>, x: &String) -> (r: bool)
    ensures
        r == list.deep_view().contains(x@),
{
    let n = list.len();
    let mut j: usize = 0;
    while j < n
        invariant
            n == list.len(),
            j <= n,
            forall|k: int| 0 <= k < j ==> list.deep_view()[k] != x@,
        decreases n - j,
    {
        if list[j] == *x {
            assert(list.deep_view()[j as int] == x@);
            return true;
        }
        j = j + 1;
    }
    false
}

impl Default for AppConfig {
    /// No locked applications and the password `admin`, hashed with Argon2id.
    fn default() -> (r: Self)
        ensures
            r.locked_apps@.len() == 0,
            is_default_password(r.password@),
    {
        let default_pw = "admin";
        proof {
            reveal_strlit("admin");
        }
        let hashed = match hash_password(default_pw) {
            Ok(h) => h,
            Err(_) => String::from_str(default_pw),
        };
        AppConfig { locked_apps: Vec::new(), password: hashed }
    }
}

impl AppConfig {
    /// The locked application names as text.
    pub open spec fn apps(&self) -> Seq<Seq<char>> {
        self.locked_apps.deep_view()
    }

    /// Argon2id hash, with a fresh random salt, of a plain-text password (it succeeds
    /// for every password of ordinary length).
    pub fn hash_password(password: &str) -> (r: Result<String, String>)
        ensures
            hashable(password@) ==> r is Ok,
            r matches Ok(h) ==> phc_valid(h@) && argon2_accepts(password@, h@) && is_argon2id_phc(
                h@,
            ),
            r matches Err(m) ==> exists|e: Seq<char>| m@ == "Hashing failed: "@ + e,
    {
        hash_password(password)
    }

    /// Checks a password against the stored Argon2 hash, or against a legacy
    /// plain-text password when the stored value is not a PHC hash (as is any value
    /// that is empty or does not start with `$`).
    pub fn verify_password(&self, input_password: &str) -> (r: bool)
        ensures
            r == password_matches(self.password@, input_password@),
            (self.password@.len() == 0 || self.password@[0] != '$') ==> r == (self.password@
                == input_password@),
    {
        password_accepts(self.password.as_str(), input_password)
    }

    /// Replaces the password by a fresh Argon2id hash of `new_password` (which succeeds
    /// for every password of ordinary length); unchanged on failure.
    pub fn set_password(&mut self, new_password: &str) -> (r: Result<(), String>)
        ensures
            final(self).locked_apps == old(self).locked_apps,
            hashable(new_password@) ==> r is Ok,
            r is Ok ==> phc_valid(final(self).password@) && password_matches(
                final(self).password@,
                new_password@,
            ) && is_argon2id_phc(final(self).password@),
            r matches Err(m) ==> *final(self) == *old(self) && exists|e: Seq<char>|
                m@ == "Hashing failed: "@ + e,
    {
        match hash_password(new_password) {
            Ok(h) => {
                self.password = h;
                Ok(())
            },
            Err(m) => Err(m),
        }
    }

    /// Builds the configuration from what storage held. A missing configuration gives
    /// the default one, to be written back; an unreadable one gives the default
    /// configuration (not written back). The locked applications are cleaned, and a
    /// legacy plain-text password is replaced by its Argon2id hash (the configuration
    /// is then to be written back).
    pub fn load(stored: StoredConfig) -> (r: LoadedConfig)
        ensures
            match stored {
                StoredConfig::Missing => {
                    &&& r.config.apps().len() == 0
                    &&& is_default_password(r.config.password@)
                    &&& r.write_back
                },
                StoredConfig::Corrupt => {
                    &&& r.config.apps().len() == 0
                    &&& is_default_password(r.config.password@)
                    &&& !r.write_back
                },
                StoredConfig::Parsed(c) => {
                    &&& r.config.apps() == sanitize_names(c.apps())
                    &&& migrated_password(c.password@, r.config.password@, r.write_back)
                    &&& !phc_valid(c.password@) ==> password_matches(
                        r.config.password@,
                        c.password@,
                    )
                },
            },
    {
        match stored {
            StoredConfig::Missing => {
                let config = AppConfig::default();
                LoadedConfig { config, write_back: true }
            },
            StoredConfig::Corrupt => {
                let config = AppConfig::default();
                Self::finish_load(config)
            },
            StoredConfig::Parsed(config) => Self::finish_load(config),
        }
    }

    /// Cleans the application list and migrates a plain-text password.
    fn finish_load(config: AppConfig) -> (r: LoadedConfig)
        ensures
            r.config.apps() == sanitize_names(config.apps()),
            migrated_password(config.password@, r.config.password@, r.write_back),
            !phc_valid(config.password@) ==> password_matches(r.config.password@, config.password@),
    {
        let mut config = config;
        config.sanitize_locked_apps();
        if !parses_as_phc(config.password.as_str()) {
            match hash_password(config.password.as_str()) {
                Ok(hashed) => {
                    config.password = hashed;
                    return LoadedConfig { config, write_back: true };
                },
                Err(_) => {},
            }
        }
        LoadedConfig { config, write_back: false }
    }

    /// Trims and lower-cases every locked application name, dropping empty names and
    /// later duplicates.
    pub fn sanitize_locked_apps(&mut self)
        ensures
            final(self).password == old(self).password,
            final(self).apps() == sanitize_names(old(self).apps()),
    {
        let n = self.locked_apps.len();
        let mut out: Vec<String> = Vec::new();
        let mut i: usize = 0;
        while i < n
            invariant
                n == self.locked_apps.len(),
                i <= n,
                out.deep_view() == sanitize_names(self.apps().take(i as int)),
            decreases n - i,
        {
            let name = normalize_name(self.locked_apps[i].as_str());
            proof {
                assert(self.apps().take(i + 1).drop_last() =~= self.apps().take(i as int));
                assert(self.apps().take(i + 1).last() == self.locked_apps[i as int]@);
            }
            if !name.as_str().is_empty() && !contains_name(&out, &name) {
                let ghost before = out.deep_view();
                out.push(name);
                proof {
                    assert(out.deep_view() =~= before.push(normalized(self.apps()[i as int])));
                }
            }
            i = i + 1;
        }
        proof {
            assert(self.apps().take(n as int) =~= self.apps());
        }
        self.locked_apps = out;
    }
}

} // verus!
