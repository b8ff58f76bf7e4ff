//! Image File Execution Options (IFEO): which registry entries make Windows start the
//! interceptor in place of a locked executable, and which entries to clean up.
use crate::config::AppConfig;
use crate::text::{contains_seq, contains_str, copy_string, lowercase, to_lowercase_str};
use vstd::prelude::*;

verus! {

/// Registry key (under `HKEY_LOCAL_MACHINE`) that holds one subkey per executable.
pub const IFEO_BASE_KEY: &'static str =
    "SOFTWARE\\Microsoft\\Windows NT\\CurrentVersion\\Image File Execution Options";

/// The registry path of the IFEO subkey of an executable.
pub open spec fn ifeo_subkey(app_name: Seq<char>) -> Seq<char> {
    IFEO_BASE_KEY@ + "\\"@ + app_name
}

/// The `Debugger` value that routes an executable to the interceptor:
/// `"<interceptor_path>" --interceptor`.
pub open spec fn debugger_command(interceptor_path: Seq<char>) -> Seq<char> {
    "\""@ + interceptor_path + "\" --interceptor"@
}

/// A `Debugger` value installed by this interceptor: it holds `--interceptor` and the
/// interceptor's path.
pub open spec fn is_our_debugger(value: Seq<char>, interceptor_path: Seq<char>) -> bool {
    contains_seq(value, "--interceptor"@) && contains_seq(value, interceptor_path)
}

/// The registry values that lock one executable: the subkey to create and the
/// `Debugger` value to set on it (and on each of its filter subkeys, whose
/// `AppExecutionAliasRedirect` is deleted, as is the subkey's `UseFilter`).
#[derive(Debug, Clone, PartialEq, Eq)]
pub struct IfeoEntry {
    pub subkey: String,
    pub debugger: String,
}

/// How to unlock an executable once its `Debugger` value is deleted.
#[derive(Debug, Clone, PartialEq, Eq)]
pub enum IfeoRemoval {
    /// The subkey has filter subkeys (Windows 11 app aliases): set `UseFilter` to 1, and
    /// on each filter subkey delete `Debugger` and set `AppExecutionAliasRedirect` to 1.
    RestoreFilters { subkey: String },
    /// Delete the whole subkey `app_name` under the IFEO key.
    DeleteKey { app_name: String },
}

/// An IFEO subkey as read from the registry.
#[derive(Debug, Clone, PartialEq, Eq)]
pub struct IfeoKey {
    /// Name of the subkey (an executable file name).
    pub name: String,
    /// Its `Debugger` value, where it has one that reads as text.
    pub debugger: Option<String>,
    /// The `Debugger` values of its filter subkeys that have one.
    pub filter_debuggers: Vec<String>,
}

/// What to do to bring the registry in line with a configuration.
pub struct IfeoSyncPlan {
    /// Entries to install, one per locked application, in order.
    pub install: Vec<IfeoEntry>,
    /// Subkeys to remove (with `remove_ifeo`).
    pub remove: Vec<String>,
}

/// Builds the `Debugger` value for an interceptor path.
pub fn debugger_value(interceptor_path: &str) -> (r: String)
    ensures
        r@ == debugger_command(interceptor_path@),
{
    let mut v = String::from_str("\"");
    v.append(interceptor_path);
    v.append("\" --interceptor");
    v
}

/// The registry path of `app_name`'s IFEO subkey.
pub fn subkey_path(app_name: &str) -> (r: String)
    ensures
        r@ == ifeo_subkey(app_name@),
{
    let mut subkey = String::from_str(IFEO_BASE_KEY);
    subkey.append("\\");
    subkey.append(app_name);
    subkey
}

/// The registry entry that locks `app_name` behind the interceptor.
pub fn set_ifeo(app_name: &str, interceptor_path: &str) -> (r: IfeoEntry)
    ensures
        r.subkey@ == ifeo_subkey(app_name@),
        r.debugger@ == debugger_command(interceptor_path@),
{
    IfeoEntry { subkey: subkey_path(app_name), debugger: debugger_value(interceptor_path) }
}

/// How to unlock `app_name`, given whether its subkey has filter subkeys.
pub fn remove_ifeo(app_name: &str, has_filter_subkeys: bool) -> (r: IfeoRemoval)
    ensures
        has_filter_subkeys ==> (r matches IfeoRemoval::RestoreFilters { subkey } && subkey@
            == ifeo_subkey(app_name@)),
        !has_filter_subkeys ==> (r matches IfeoRemoval::DeleteKey { app_name: n } && n@
            == app_name@),
{
    if has_filter_subkeys {
        IfeoRemoval::RestoreFilters { subkey: subkey_path(app_name) }
    } else {
        IfeoRemoval::DeleteKey { app_name: copy_string(app_name) }
    }
}

/// Whether a `Debugger` value was installed by the interceptor at `interceptor_path`.
pub fn is_ours(value: &str, interceptor_path: &str) -> (r: bool)
    ensures
        r == is_our_debugger(value@, interceptor_path@),
{
    contains_str(value, "--interceptor") && contains_str(value, interceptor_path)
}

/// Some locked application has the same lower-case form as `name`.
pub open spec fn still_locked(apps: Seq<Seq<char>>, name: Seq<char>) -> bool {
    exists|i: int| 0 <= i < apps.len() && lowercase(#[trigger] apps[i]) == lowercase(name)
}

/// An IFEO subkey that this interceptor installed for an application no longer locked.
pub open spec fn is_orphan(key: IfeoKey, apps: Seq<Seq<char>>, interceptor_path: Seq<char>) -> bool {
    &&& key.debugger matches Some(v) && is_our_debugger(v@, interceptor_path)
    &&& !still_locked(apps, key.name@)
}

/// An IFEO subkey that this interceptor installed, on the key itself or on a filter subkey.
pub open spec fn is_installed_by(key: IfeoKey, interceptor_path: Seq<char>) -> bool {
    ||| key.debugger matches Some(v) && is_our_debugger(v@, interceptor_path)
    ||| exists|j: int|
        0 <= j < key.filter_debuggers@.len() && is_our_debugger(
            #[trigger] key.filter_debuggers@[j]@,
            interceptor_path,
        )
}

/// Names of the keys, in order, that satisfy `pick`.
pub open spec fn names_where(keys: Seq<IfeoKey>, pick: spec_fn(IfeoKey) -> bool) -> Seq<Seq<char>>
    decreases keys.len(),
{
    if keys.len() == 0 {
        Seq::empty()
    } else {
        let prev = names_where(keys.drop_last(), pick);
        if pick(keys.last()) {
            prev.push(keys.last().name@)
        } else {
            prev
        }
    }
}

/// Every name that `names_where` gives is the name of a key that satisfies `pick`.
proof fn lemma_names_where_picked(keys: Seq<IfeoKey>, pick: spec_fn(IfeoKey) -> bool, name: Seq<char>)
    requires
        names_where(keys, pick).contains(name),
    ensures
        exists|i: int| 0 <= i < keys.len() && (#[trigger] keys[i]).name@ == name && pick(keys[i]),
    decreases keys.len(),
{
    let prev = names_where(keys.drop_last(), pick);
    if pick(keys.last()) && name == keys.last().name@ {
        assert(keys[keys.len() - 1] == keys.last());
    } else {
        if pick(keys.last()) {
            let k = choose|k: int| 0 <= k < names_where(keys, pick).len() && names_where(keys, pick)[k] == name;
            assert(k < prev.len());
            assert(prev[k] == name);
        }
        assert(prev.contains(name));
        lemma_names_where_picked(keys.drop_last(), pick, name);
        let i = choose|i: int|
            0 <= i < keys.drop_last().len() && (#[trigger] keys.drop_last()[i]).name@ == name && pick(
                keys.drop_last()[i],
            );
        assert(keys[i] == keys.drop_last()[i]);
    }
}

/// A key that `pick` accepts has its name in `names_where`.
proof fn lemma_names_where_includes(keys: Seq<IfeoKey>, pick: spec_fn(IfeoKey) -> bool, i: int)
    requires
        0 <= i < keys.len(),
        pick(keys[i]),
    ensures
        names_where(keys, pick).contains(keys[i].name@),
    decreases keys.len(),
{
    let prev = names_where(keys.drop_last(), pick);
    if i == keys.len() - 1 {
        assert(names_where(keys, pick) == prev.push(keys[i].name@));
        assert(names_where(keys, pick)[prev.len() as int] == keys[i].name@);
    } else {
        assert(keys.drop_last()[i] == keys[i]);
        lemma_names_where_includes(keys.drop_last(), pick, i);
        let k = choose|k: int| 0 <= k < prev.len() && prev[k] == keys[i].name@;
        if pick(keys.last()) {
            assert(names_where(keys, pick)[k] == keys[i].name@);
        }
    }
}

/// Synchronisation removes every entry this interceptor installed (its own `Debugger`
/// value holds `--interceptor` and the interceptor's path) for an application that no
/// locked application matches case-insensitively, whatever filter subkeys it has.
pub proof fn sync_removes_every_orphan(
    keys: Seq<IfeoKey>,
    apps: Seq<Seq<char>>,
    interceptor_path: Seq<char>,
    removed: Seq<Seq<char>>,
    i: int,
)
    requires
        removed == names_where(keys, |k: IfeoKey| is_orphan(k, apps, interceptor_path)),
        0 <= i < keys.len(),
        keys[i].debugger matches Some(v) && contains_seq(v@, "--interceptor"@) && contains_seq(
            v@,
            interceptor_path,
        ),
        forall|j: int| 0 <= j < apps.len() ==> lowercase(#[trigger] apps[j]) != lowercase(
            keys[i].name@,
        ),
    ensures
        removed.contains(keys[i].name@),
{
    lemma_names_where_includes(keys, |k: IfeoKey| is_orphan(k, apps, interceptor_path), i);
}

/// Synchronisation removes only entries that this interceptor installed, and never the
/// entry of an application that is still locked.
pub proof fn sync_spares_locked_and_foreign(
    keys: Seq<IfeoKey>,
    apps: Seq<Seq<char>>,
    interceptor_path: Seq<char>,
    name: Seq<char>,
)
    requires
        names_where(keys, |k: IfeoKey| is_orphan(k, apps, interceptor_path)).contains(name),
    ensures
        !still_locked(apps, name),
        exists|i: int|
            0 <= i < keys.len() && (#[trigger] keys[i]).name@ == name && (keys[i].debugger matches Some(
                v,
            ) && is_our_debugger(v@, interceptor_path)),
{
    lemma_names_where_picked(keys, |k: IfeoKey| is_orphan(k, apps, interceptor_path), name);
}

/// The `Debugger` value that locking installs is the one the clean-up recognises as
/// this interceptor's: it holds `--interceptor` and the interceptor's path.
pub proof fn installed_debugger_is_recognised(interceptor_path: Seq<char>)
    ensures
        contains_seq(debugger_command(interceptor_path), "--interceptor"@),
        contains_seq(debugger_command(interceptor_path), interceptor_path),
        is_our_debugger(debugger_command(interceptor_path), interceptor_path),
{
    reveal_strlit("\"");
    reveal_strlit("\" --interceptor");
    reveal_strlit("--interceptor");
    let d = debugger_command(interceptor_path);
    let n = interceptor_path.len() as int;
    assert(d.subrange(1, 1 + n) =~= interceptor_path);
    assert(d.subrange(n + 3, n + 3 + 13) =~= "--interceptor"@);
}

/// Uninstalling removes every entry this interceptor installed: a key whose own
/// `Debugger` value, or one of whose filter `Debugger` values, holds `--interceptor` and
/// the interceptor's path.
pub proof fn remove_all_removes_every_installed(
    keys: Seq<IfeoKey>,
    interceptor_path: Seq<char>,
    removed: Seq<Seq<char>>,
    i: int,
)
    requires
        removed == names_where(keys, |k: IfeoKey| is_installed_by(k, interceptor_path)),
        0 <= i < keys.len(),
        (keys[i].debugger matches Some(v) && contains_seq(v@, "--interceptor"@) && contains_seq(
            v@,
            interceptor_path,
        )) || exists|j: int|
            0 <= j < keys[i].filter_debuggers@.len() && contains_seq(
                (#[trigger] keys[i].filter_debuggers@[j])@,
                "--interceptor"@,
            ) && contains_seq(keys[i].filter_debuggers@[j]@, interceptor_path),
    ensures
        removed.contains(keys[i].name@),
{
    lemma_names_where_includes(keys, |k: IfeoKey| is_installed_by(k, interceptor_path), i);
}

/// Uninstalling removes only entries that this interceptor installed.
pub proof fn remove_all_spares_foreign(keys: Seq<IfeoKey>, interceptor_path: Seq<char>, name: Seq<char>)
    requires
        names_where(keys, |k: IfeoKey| is_installed_by(k, interceptor_path)).contains(name),
    ensures
        exists|i: int|
            0 <= i < keys.len() && (#[trigger] keys[i]).name@ == name && is_installed_by(
                keys[i],
                interceptor_path,
            ),
{
    lemma_names_where_picked(keys, |k: IfeoKey| is_installed_by(k, interceptor_path), name);
}

/// Whether some locked application has the same lower-case form as `name`.
fn is_still_locked(apps: &Vec<String>, name: &str) -> (r: bool)
    ensures
        r == still_locked(apps.deep_view(), name@),
{
    let target = to_lowercase_str(name);
    let n = apps.len();
    let mut i: usize = 0;
    while i < n
        invariant
            n == apps.len(),
            i <= n,
            target@ == lowercase(name@),
            forall|k: int| 0 <= k < i ==> lowercase(#[trigger] apps.deep_view()[k]) != lowercase(name@),
        decreases n - i,
    {
        let a = to_lowercase_str(apps[i].as_str());
        if a == target {
            assert(lowercase(apps.deep_view()[i as int]) == lowercase(name@));
            return true;
        }
        i = i + 1;
    }
    false
}

/// The registry changes that bring IFEO in line with `config`: an entry for every
/// locked application, and the removal of every subkey this interceptor installed for
/// an application that is no longer locked (compared case-insensitively).
pub fn sync_ifeo_with_config(config: &AppConfig, interceptor_path: &str, keys: &Vec<IfeoKey>) -> (r:
    IfeoSyncPlan)
    ensures
        r.install@.len() == config.locked_apps@.len(),
        forall|i: int|
            0 <= i < r.install@.len() ==> (#[trigger] r.install@[i]).subkey@ == ifeo_subkey(
                config.locked_apps@[i]@,
            ) && r.install@[i].debugger@ == debugger_command(interceptor_path@),
        r.remove.deep_view() == names_where(
            keys@,
            |k: IfeoKey| is_orphan(k, config.apps(), interceptor_path@),
        ),
{
    let mut install: Vec<IfeoEntry> = Vec::new();
    let n = config.locked_apps.len();
    let mut i: usize = 0;
    while i < n
        invariant
            n == config.locked_apps@.len(),
            i <= n,
            install@.len() == i,
            forall|j: int|
                0 <= j < i ==> (#[trigger] install@[j]).subkey@ == ifeo_subkey(
                    config.locked_apps@[j]@,
                ) && install@[j].debugger@ == debugger_command(interceptor_path@),
        decreases n - i,
    {
        install.push(set_ifeo(config.locked_apps[i].as_str(), interceptor_path));
        i = i + 1;
    }
    let ghost pick = |k: IfeoKey| is_orphan(k, config.apps(), interceptor_path@);
    let mut remove: Vec<String> = Vec::new();
    let m = keys.len();
    let mut j: usize = 0;
    while j < m
        invariant
            m == keys@.len(),
            j <= m,
            pick == (|k: IfeoKey| is_orphan(k, config.apps(), interceptor_path@)),
            remove.deep_view() == names_where(keys@.take(j as int), pick),
        decreases m - j,
    {
        let key = &keys[j];
        let orphan = match &key.debugger {
            Some(v) => is_ours(v.as_str(), interceptor_path) && !is_still_locked(
                &config.locked_apps,
                key.name.as_str(),
            ),
            None => false,
        };
        proof {
            assert(keys@.take(j + 1).drop_last() =~= keys@.take(j as int));
            assert(keys@.take(j + 1).last() == keys@[j as int]);
            assert(orphan == pick(keys@[j as int]));
        }
        if orphan {
            let ghost before = remove.deep_view();
            remove.push(copy_string(key.name.as_str()));
            assert(remove.deep_view() =~= before.push(keys@[j as int].name@));
        }
        j = j + 1;
    }
    assert(keys@.take(m as int) =~= keys@);
    IfeoSyncPlan { install, remove }
}

/// Whether some filter `Debugger` value was installed by this interceptor.
fn any_filter_ours(values: &Vec<String>, interceptor_path: &str) -> (r: bool)
    ensures
        r == exists|j: int|
            0 <= j < values@.len() && is_our_debugger(#[trigger] values@[j]@, interceptor_path@),
{
    let n = values.len();
    let mut i: usize = 0;
    while i < n
        invariant
            n == values@.len(),
            i <= n,
            forall|k: int| 0 <= k < i ==> !is_our_debugger(#[trigger] values@[k]@, interceptor_path@),
        decreases n - i,
    {
        if is_ours(values[i].as_str(), interceptor_path) {
            return true;
        }
        i = i + 1;
    }
    false
}

/// The subkeys to remove when uninstalling: every subkey whose `Debugger` value, or a
/// filter subkey's, was installed by the interceptor at `interceptor_path`.
pub fn remove_all_ifeo(interceptor_path: &str, keys: &Vec<IfeoKey>) -> (r: Vec<String>)
    ensures
        r.deep_view() == names_where(keys@, |k: IfeoKey| is_installed_by(k, interceptor_path@)),
{
    let ghost pick = |k: IfeoKey| is_installed_by(k, interceptor_path@);
    let mut remove: Vec<String> = Vec::new();
    let m = keys.len();
    let mut j: usize = 0;
    while j < m
        invariant
            m == keys@.len(),
            j <= m,
            pick == (|k: IfeoKey| is_installed_by(k, interceptor_path@)),
            remove.deep_view() == names_where(keys@.take(j as int), pick),
        decreases m - j,
    {
        let key = &keys[j];
        let main_ours = match &key.debugger {
            Some(v) => is_ours(v.as_str(), interceptor_path),
            None => false,
        };
        let matches = main_ours || any_filter_ours(&key.filter_debuggers, interceptor_path);
        proof {
            assert(keys@.take(j + 1).drop_last() =~= keys@.take(j as int));
            assert(keys@.take(j + 1).last() == keys@[j as int]);
            assert(matches == pick(keys@[j as int]));
        }
        if matches {
            let ghost before = remove.deep_view();
            remove.push(copy_string(key.name.as_str()));
            assert(remove.deep_view() =~= before.push(keys@[j as int].name@));
        }
        j = j + 1;
    }
    assert(keys@.take(m as int) =~= keys@);
    remove
}

/// Holds an executable unlocked: creating it unlocks the executable (`remove_ifeo`),
/// and the executable is locked again with `relock_entry` when the guard ends.
#[derive(Debug)]
pub struct IfeoUnlockGuard {
    app_name: String,
    interceptor_path: String,
}

impl IfeoUnlockGuard {
    /// The executable held unlocked.
    pub closed spec fn app(&self) -> Seq<char> {
        self.app_name@
    }

    /// The interceptor to restore when the guard ends.
    pub closed spec fn interceptor(&self) -> Seq<char> {
        self.interceptor_path@
    }

    /// A guard for `app_name`, restoring `interceptor_path` when it ends.
    pub fn new(app_name: String, interceptor_path: String) -> (r: Self)
        ensures
            r.app() == app_name@,
            r.interceptor() == interceptor_path@,
    {
        IfeoUnlockGuard { app_name, interceptor_path }
    }

    /// The executable held unlocked.
    pub fn app_name(&self) -> (r: &str)
        ensures
            r@ == self.app(),
    {
        self.app_name.as_str()
    }

    /// The interceptor to restore.
    pub fn interceptor_path(&self) -> (r: &str)
        ensures
            r@ == self.interceptor(),
    {
        self.interceptor_path.as_str()
    }

    /// The entry that locks the executable again when the guard ends.
    pub fn relock_entry(&self) -> (r: IfeoEntry)
        ensures
            r.subkey@ == ifeo_subkey(self.app()),
            r.debugger@ == debugger_command(self.interceptor()),
    {
        set_ifeo(self.app_name.as_str(), self.interceptor_path.as_str())
    }
}

} // verus!
