//! The IPC protocol between the interceptor, the management panel and the service, and
//! the service's decisions on each request.
use crate::config::{sanitize_names, AppConfig};
use crate::ifeo::IfeoUnlockGuard;
use crate::password::{hashable, is_argon2id_phc, password_matches, phc_valid};
use crate::text::{debug_quoted, debug_str, normalize_name, normalized};
use vstd::prelude::*;

verus! {

/// How long after an unlock further launches of the same application (such as the
/// child processes of a browser) are approved without a password, in nanoseconds.
pub const AUTO_APPROVE_WINDOW_NANOS: u64 = 30_000_000_000;

/// How long an unlocked application stays out of IFEO before it is locked again, in
/// seconds.
pub const RELOCK_DELAY_SECS: u64 = 5;

/// A request sent to the service.
#[derive(Clone, PartialEq, Eq)]
pub enum IpcRequest {
    /// Launch a locked application after checking the password.
    LaunchApp { app_name: String, app_path: String, password: String },
    /// The user cancelled the launch.
    CancelLaunch { app_name: String },
    /// Change the master password.
    ChangePassword { old_password: String, new_password: String },
    /// Reload the configuration from disk.
    ReloadConfig,
}

/// The service's reply.
#[derive(Debug, Clone, PartialEq, Eq)]
pub enum IpcResponse {
    /// The request was approved or carried out.
    Success,
    /// The password was wrong.
    WrongPassword,
    /// The password was changed.
    PasswordChanged,
    /// The configuration was reloaded.
    ConfigReloaded,
    /// A system error.
    Error(String),
}

/// The `Debug` text of a request with every password replaced by `[REDACTED]`.
pub open spec fn redacted_text(request: IpcRequest) -> Seq<char> {
    match request {
        IpcRequest::LaunchApp { app_name, app_path, .. } => "LaunchApp { app_name: "@
            + debug_quoted(app_name@) + ", app_path: "@ + debug_quoted(app_path@)
            + ", password: \"[REDACTED]\" }"@,
        IpcRequest::CancelLaunch { app_name } => "CancelLaunch { app_name: "@ + debug_quoted(
            app_name@,
        ) + " }"@,
        IpcRequest::ChangePassword { .. } =>
            "ChangePassword { old_password: \"[REDACTED]\", new_password: \"[REDACTED]\" }"@,
        IpcRequest::ReloadConfig => "ReloadConfig"@,
    }
}

/// The `Debug` text of a reply.
pub open spec fn response_text(response: IpcResponse) -> Seq<char> {
    match response {
        IpcResponse::Success => "Success"@,
        IpcResponse::WrongPassword => "WrongPassword"@,
        IpcResponse::PasswordChanged => "PasswordChanged"@,
        IpcResponse::ConfigReloaded => "ConfigReloaded"@,
        IpcResponse::Error(e) => "Error("@ + debug_quoted(e@) + ")"@,
    }
}

impl IpcRequest {
    /// The request as it is logged: its `Debug` text, passwords redacted.
    pub fn redacted(&self) -> (r: String)
        ensures
            r@ == redacted_text(*self),
    {
        match self {
            IpcRequest::LaunchApp { app_name, app_path, .. } => {
                let mut t = String::from_str("LaunchApp { app_name: ");
                t.append(debug_str(app_name.as_str()).as_str());
                t.append(", app_path: ");
                t.append(debug_str(app_path.as_str()).as_str());
                t.append(", password: \"[REDACTED]\" }");
                t
            },
            IpcRequest::CancelLaunch { app_name } => {
                let mut t = String::from_str("CancelLaunch { app_name: ");
                t.append(debug_str(app_name.as_str()).as_str());
                t.append(" }");
                t
            },
            IpcRequest::ChangePassword { .. } => String::from_str(
                "ChangePassword { old_password: \"[REDACTED]\", new_password: \"[REDACTED]\" }",
            ),
            IpcRequest::ReloadConfig => String::from_str("ReloadConfig"),
        }
    }
}

impl IpcResponse {
    /// The reply's `Debug` text.
    pub fn text(&self) -> (r: String)
        ensures
            r@ == response_text(*self),
    {
        match self {
            IpcResponse::Success => String::from_str("Success"),
            IpcResponse::WrongPassword => String::from_str("WrongPassword"),
            IpcResponse::PasswordChanged => String::from_str("PasswordChanged"),
            IpcResponse::ConfigReloaded => String::from_str("ConfigReloaded"),
            IpcResponse::Error(e) => {
                let mut t = String::from_str("Error(");
                t.append(debug_str(e.as_str()).as_str());
                t.append(")");
                t
            },
        }
    }
}

/// When an application was last unlocked (nanoseconds on the service's monotonic clock).
#[derive(Debug, Clone)]
pub struct UnlockRecord {
    pub app_name: String,
    pub unlocked_at: u64,
}

/// The service's state: the configuration, the interceptor's path and the recent unlocks.
pub struct IpcService {
    pub config: AppConfig,
    pub interceptor_path: String,
    pub recently_unlocked: Vec<UnlockRecord>,
}

/// What the service does next for a request.
#[derive(Debug)]
pub enum IpcStep {
    /// Send this reply.
    Reply(IpcResponse),
    /// Unlock the application (create the guard, which removes its IFEO entry), lock it
    /// again after `RELOCK_DELAY_SECS`, and reply `Success`.
    Unlock(IfeoUnlockGuard),
    /// Write `config` to storage, then reply with `finish_password_change`.
    SaveConfig,
    /// Load the configuration from storage and synchronise IFEO, then reply with
    /// `finish_reload`.
    ReloadConfig,
}

/// When `name` was last unlocked, according to the records (the first record wins).
pub open spec fn unlocked_at(records: Seq<UnlockRecord>, name: Seq<char>) -> Option<u64>
    decreases records.len(),
{
    if records.len() == 0 {
        None
    } else if records[0].app_name@ == name {
        Some(records[0].unlocked_at)
    } else {
        unlocked_at(records.drop_first(), name)
    }
}

/// Time elapsed from `then` to `now`, saturating at zero (as `Instant::elapsed` does).
pub open spec fn elapsed(then: u64, now: u64) -> int {
    if now >= then {
        now - then
    } else {
        0
    }
}

/// `name` was unlocked less than `AUTO_APPROVE_WINDOW_NANOS` before `now`.
pub open spec fn auto_approved(records: Seq<UnlockRecord>, name: Seq<char>, now: u64) -> bool {
    match unlocked_at(records, name) {
        Some(t) => elapsed(t, now) < AUTO_APPROVE_WINDOW_NANOS,
        None => false,
    }
}

/// `after` records the unlock of `name` at `now` and agrees with `before` elsewhere.
pub open spec fn unlock_recorded(
    before: Seq<UnlockRecord>,
    after: Seq<UnlockRecord>,
    name: Seq<char>,
    now: u64,
) -> bool {
    forall|m: Seq<char>|
        #[trigger] unlocked_at(after, m) == if m == name {
            Some(now)
        } else {
            unlocked_at(before, m)
        }
}

proof fn lemma_unlocked_at_none(records: Seq<UnlockRecord>, name: Seq<char>)
    requires
        forall|k: int| 0 <= k < records.len() ==> (#[trigger] records[k]).app_name@ != name,
    ensures
        unlocked_at(records, name) is None,
    decreases records.len(),
{
    if records.len() > 0 {
        lemma_unlocked_at_none(records.drop_first(), name);
    }
}

proof fn lemma_unlocked_at_push(records: Seq<UnlockRecord>, rec: UnlockRecord, m: Seq<char>)
    requires
        unlocked_at(records, rec.app_name@) is None,
    ensures
        unlocked_at(records.push(rec), m) == if m == rec.app_name@ {
            Some(rec.unlocked_at)
        } else {
            unlocked_at(records, m)
        },
    decreases records.len(),
{
    reveal_with_fuel(unlocked_at, 2);
    assert(records.push(rec)[0] == if records.len() > 0 {
        records[0]
    } else {
        rec
    });
    if records.len() > 0 {
        assert(records[0].app_name@ != rec.app_name@);
        assert(records.push(rec).drop_first() =~= records.drop_first().push(rec));
        lemma_unlocked_at_push(records.drop_first(), rec, m);
    } else {
        assert(records.push(rec).drop_first() =~= Seq::<UnlockRecord>::empty());
    }
}

proof fn lemma_unlocked_at_update(
    records: Seq<UnlockRecord>,
    i: int,
    rec: UnlockRecord,
    m: Seq<char>,
)
    requires
        0 <= i < records.len(),
        records[i].app_name@ == rec.app_name@,
        forall|k: int| 0 <= k < i ==> (#[trigger] records[k]).app_name@ != rec.app_name@,
    ensures
        unlocked_at(records.update(i, rec), m) == if m == rec.app_name@ {
            Some(rec.unlocked_at)
        } else {
            unlocked_at(records, m)
        },
    decreases records.len(),
{
    if i > 0 {
        assert(records.update(i, rec).drop_first() =~= records.drop_first().update(i - 1, rec));
        assert forall|k: int| 0 <= k < i - 1 implies (#[trigger] records.drop_first()[k]).app_name@
            != rec.app_name@ by {
            assert(records.drop_first()[k] == records[k + 1]);
        }
        lemma_unlocked_at_update(records.drop_first(), i - 1, rec, m);
    } else {
        assert(records.update(i, rec).drop_first() =~= records.drop_first());
    }
}

/// Records that `name` was unlocked at `now`.
fn record_unlock(records: &mut Vec<UnlockRecord>, name: String, now: u64)
    ensures
        unlock_recorded(old(records)@, final(records)@, name@, now),
{
    let ghost before = records@;
    let n = records.len();
    let mut i: usize = 0;
    while i < n
        invariant
            n == records@.len(),
            records@ == before,
            before == old(records)@,
            i <= n,
            forall|k: int| 0 <= k < i ==> (#[trigger] records@[k]).app_name@ != name@,
        decreases n - i,
    {
        if records[i].app_name == name {
            let rec = UnlockRecord { app_name: name, unlocked_at: now };
            let ghost r = rec;
            records.set(i, rec);
            proof {
                assert(records@ == before.update(i as int, r));
                assert forall|m: Seq<char>|
                    #[trigger] unlocked_at(records@, m) == if m == r.app_name@ {
                        Some(now)
                    } else {
                        unlocked_at(before, m)
                    } by {
                    lemma_unlocked_at_update(before, i as int, r, m);
                }
            }
            return;
        }
        i = i + 1;
    }
    let rec = UnlockRecord { app_name: name, unlocked_at: now };
    let ghost r = rec;
    proof {
        lemma_unlocked_at_none(before, r.app_name@);
    }
    records.push(rec);
    proof {
        assert forall|m: Seq<char>|
            #[trigger] unlocked_at(records@, m) == if m == r.app_name@ {
                Some(now)
            } else {
                unlocked_at(before, m)
            } by {
            lemma_unlocked_at_push(before, r, m);
        }
    }
}

/// Whether `name` was unlocked less than the approval window before `now`.
fn is_auto_approved(records: &Vec<UnlockRecord>, name: &String, now: u64) -> (r: bool)
    ensures
        r == auto_approved(records@, name@, now),
{
    let n = records.len();
    let mut i: usize = 0;
    assert(records@.skip(0) =~= records@);
    while i < n
        invariant
            n == records@.len(),
            i <= n,
            forall|k: int| 0 <= k < i ==> (#[trigger] records@[k]).app_name@ != name@,
            unlocked_at(records@.skip(i as int), name@) == unlocked_at(records@, name@),
        decreases n - i,
    {
        assert(records@.skip(i as int).drop_first() =~= records@.skip(i + 1));
        if records[i].app_name == *name {
            let t = records[i].unlocked_at;
            let since = if now >= t {
                now - t
            } else {
                0
            };
            return since < AUTO_APPROVE_WINDOW_NANOS;
        }
        i = i + 1;
    }
    false
}

/// Whether the service approves a launch request: the application was unlocked within
/// the approval window, or the password matches (see `IpcService::handle_request`).
pub open spec fn launch_approved(
    service: &IpcService,
    app_name: Seq<char>,
    password: Seq<char>,
    now: u64,
) -> bool {
    auto_approved(service.recently_unlocked@, normalized(app_name), now) || password_matches(
        service.config.password@,
        password,
    )
}

impl IpcService {
    /// A service with no recent unlocks.
    pub fn new(config: AppConfig, interceptor_path: String) -> (r: Self)
        ensures
            r.config == config,
            r.interceptor_path == interceptor_path,
            r.recently_unlocked@.len() == 0,
    {
        IpcService { config, interceptor_path, recently_unlocked: Vec::new() }
    }

    /// Decides a request received at `now` (nanoseconds on a monotonic clock).
    ///
    /// `LaunchApp` is approved when the normalised application name was unlocked less
    /// than `AUTO_APPROVE_WINDOW_NANOS` ago or the password matches; an approval records
    /// the unlock and asks for the application to be unlocked, a refusal changes
    /// nothing. `ChangePassword` needs the old password; the new one is hashed into the
    /// configuration (hashing fails only for a password too long for Argon2), which is then to
    /// be saved. `CancelLaunch` is acknowledged;
    /// `ReloadConfig` asks for the configuration to be reloaded.
    pub fn handle_request(&mut self, request: IpcRequest, now: u64) -> (r: IpcStep)
        ensures
            match request {
                IpcRequest::LaunchApp { app_name, app_path: _, password } => {
                    let n = normalized(app_name@);
                    if launch_approved(old(self), app_name@, password@, now) {
                        &&& r matches IpcStep::Unlock(g) && g.app() == n && g.interceptor()
                            == old(self).interceptor_path@
                        &&& unlock_recorded(
                            old(self).recently_unlocked@,
                            final(self).recently_unlocked@,
                            n,
                            now,
                        )
                        &&& final(self).config == old(self).config
                        &&& final(self).interceptor_path == old(self).interceptor_path
                    } else {
                        r == IpcStep::Reply(IpcResponse::WrongPassword) && *final(self) == *old(
                            self,
                        )
                    }
                },
                IpcRequest::CancelLaunch { .. } => {
                    r == IpcStep::Reply(IpcResponse::Success) && *final(self) == *old(self)
                },
                IpcRequest::ChangePassword { old_password, new_password } => {
                    if !password_matches(old(self).config.password@, old_password@) {
                        r == IpcStep::Reply(IpcResponse::WrongPassword) && *final(self) == *old(
                            self,
                        )
                    } else {
                        ||| {
                            &&& r == IpcStep::SaveConfig
                            &&& phc_valid(final(self).config.password@)
                            &&& is_argon2id_phc(final(self).config.password@)
                            &&& password_matches(final(self).config.password@, new_password@)
                            &&& final(self).config.apps() == sanitize_names(
                                old(self).config.apps(),
                            )
                            &&& final(self).interceptor_path == old(self).interceptor_path
                            &&& final(self).recently_unlocked == old(self).recently_unlocked
                        }
                        ||| {
                            &&& r matches IpcStep::Reply(IpcResponse::Error(m)) && exists|
                                e: Seq<char>,
                            | m@ == "Hashing failed: "@ + e
                            &&& *final(self) == *old(self)
                            &&& !hashable(new_password@)
                        }
                    }
                },
                IpcRequest::ReloadConfig => r == IpcStep::ReloadConfig && *final(self) == *old(
                    self,
                ),
            },
    {
        match request {
            IpcRequest::LaunchApp { app_name, app_path: _, password } => {
                let norm = normalize_name(app_name.as_str());
                let auto = is_auto_approved(&self.recently_unlocked, &norm, now);
                let valid = auto || self.config.verify_password(password.as_str());
                if valid {
                    let guard_name = norm.clone();
                    record_unlock(&mut self.recently_unlocked, norm, now);
                    let guard = IfeoUnlockGuard::new(guard_name, self.interceptor_path.clone());
                    IpcStep::Unlock(guard)
                } else {
                    IpcStep::Reply(IpcResponse::WrongPassword)
                }
            },
            IpcRequest::CancelLaunch { .. } => IpcStep::Reply(IpcResponse::Success),
            IpcRequest::ChangePassword { old_password, new_password } => {
                if !self.config.verify_password(old_password.as_str()) {
                    IpcStep::Reply(IpcResponse::WrongPassword)
                } else {
                    match self.config.set_password(new_password.as_str()) {
                        Err(e) => IpcStep::Reply(IpcResponse::Error(e)),
                        Ok(()) => {
                            self.config.sanitize_locked_apps();
                            IpcStep::SaveConfig
                        },
                    }
                }
            },
            IpcRequest::ReloadConfig => IpcStep::ReloadConfig,
        }
    }

    /// The reply to a password change once the configuration was written (or not).
    pub fn finish_password_change(saved: Result<(), String>) -> (r: IpcResponse)
        ensures
            saved is Ok ==> r == IpcResponse::PasswordChanged,
            saved matches Err(e) ==> r matches IpcResponse::Error(m) && m@ == "Gagal menyimpan: "@
                + e@,
    {
        match saved {
            Ok(()) => IpcResponse::PasswordChanged,
            Err(e) => {
                let mut m = String::from_str("Gagal menyimpan: ");
                m.append(e.as_str());
                IpcResponse::Error(m)
            },
        }
    }

    /// Installs a reloaded configuration and replies according to the IFEO
    /// synchronisation that followed it.
    pub fn finish_reload(&mut self, loaded: AppConfig, synced: Result<(), String>) -> (r:
        IpcResponse)
        ensures
            final(self).config == loaded,
            final(self).interceptor_path == old(self).interceptor_path,
            final(self).recently_unlocked == old(self).recently_unlocked,
            synced is Ok ==> r == IpcResponse::ConfigReloaded,
            synced matches Err(e) ==> r matches IpcResponse::Error(m) && m@ == "Gagal reload: "@
                + e@,
    {
        self.config = loaded;
        match synced {
            Ok(()) => IpcResponse::ConfigReloaded,
            Err(e) => {
                let mut m = String::from_str("Gagal reload: ");
                m.append(e.as_str());
                IpcResponse::Error(m)
            },
        }
    }
}

/// An approved launch is remembered: a later launch of the same application within the
/// approval window is approved without a password.
pub proof fn approval_is_remembered(
    before: Seq<UnlockRecord>,
    after: Seq<UnlockRecord>,
    name: Seq<char>,
    at: u64,
    later: u64,
)
    requires
        unlock_recorded(before, after, name, at),
        at <= later,
        later - at < AUTO_APPROVE_WINDOW_NANOS,
    ensures
        auto_approved(after, name, later),
{
    assert(unlocked_at(after, name) == Some(at));
}

/// An unlock gives no approval once the window has passed.
pub proof fn approval_expires(records: Seq<UnlockRecord>, name: Seq<char>, at: u64, later: u64)
    requires
        unlocked_at(records, name) == Some(at),
        later >= at + AUTO_APPROVE_WINDOW_NANOS,
    ensures
        !auto_approved(records, name, later),
{
}

/// Recording an unlock of one application leaves the approvals of the others as they were.
pub proof fn unlock_is_per_application(
    before: Seq<UnlockRecord>,
    after: Seq<UnlockRecord>,
    name: Seq<char>,
    other: Seq<char>,
    at: u64,
    now: u64,
)
    requires
        unlock_recorded(before, after, name, at),
        other != name,
    ensures
        auto_approved(after, other, now) == auto_approved(before, other, now),
{
    assert(unlocked_at(after, other) == unlocked_at(before, other));
}

/// Once the password was changed, a launch with the new password is approved.
pub proof fn new_password_unlocks(
    service: &IpcService,
    app_name: Seq<char>,
    new_password: Seq<char>,
    now: u64,
)
    requires
        password_matches(service.config.password@, new_password),
    ensures
        launch_approved(service, app_name, new_password, now),
{
}

/// A launch is refused when the password does not match and the application has no
/// unlock on record.
pub proof fn launch_refused_without_password_or_unlock(
    service: &IpcService,
    app_name: Seq<char>,
    password: Seq<char>,
    now: u64,
)
    requires
        !password_matches(service.config.password@, password),
        unlocked_at(service.recently_unlocked@, normalized(app_name)) is None,
    ensures
        !launch_approved(service, app_name, password, now),
{
}

} // verus!
