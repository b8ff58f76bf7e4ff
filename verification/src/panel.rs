//! Decisions of the management panel: editing the list of locked applications and
//! changing the master password.
use crate::config::AppConfig;
use crate::password::{hashable, is_argon2id_phc, password_matches, phc_valid};
use crate::text::{copy_string, lowercase, normalize_name, normalized, to_lowercase_str, trimmed};
use vstd::prelude::*;

verus! {

/// A row of the panel's application list.
#[derive(Debug, Clone, PartialEq, Eq)]
pub struct AppItem {
    pub name: String,
    pub locked: bool,
}

/// What adding a name to the list does.
#[derive(Debug, Clone, PartialEq, Eq)]
pub enum AddAppOutcome {
    /// The name is blank: nothing happens.
    Ignored,
    /// The list already holds the name (compared in lower case): nothing is added.
    Duplicate,
    /// Append a locked row with this (trimmed, lower-cased) name.
    Added(String),
}

/// Why a password change is refused before it is sent.
#[derive(Debug, Clone, Copy, PartialEq, Eq)]
pub enum PasswordChangeIssue {
    /// A field is empty.
    MissingField,
    /// The new password and its confirmation differ.
    Mismatch,
    /// The new password equals the old one.
    Unchanged,
}

/// The outcome of changing the password on the local configuration (when the service
/// does not answer).
#[derive(Debug, Clone, PartialEq, Eq)]
pub enum LocalPasswordChange {
    /// The old password is wrong; nothing changed.
    WrongOldPassword,
    /// Hashing failed; nothing changed.
    HashFailed(String),
    /// The password was changed; save the configuration.
    Save,
}

/// Some row's name has this lower-case form.
pub open spec fn listed(items: Seq<AppItem>, name: Seq<char>) -> bool {
    exists|i: int| 0 <= i < items.len() && lowercase((#[trigger] items[i]).name@) == name
}

/// The outcome of adding `name` to the list.
pub open spec fn add_outcome(items: Seq<AppItem>, name: Seq<char>, r: AddAppOutcome) -> bool {
    let n = normalized(name);
    if n.len() == 0 {
        r == AddAppOutcome::Ignored
    } else if listed(items, n) {
        r == AddAppOutcome::Duplicate
    } else {
        r matches AddAppOutcome::Added(a) && a@ == n
    }
}

/// Names of the locked rows, in order.
pub open spec fn locked_names(items: Seq<AppItem>) -> Seq<Seq<char>>
    decreases items.len(),
{
    if items.len() == 0 {
        Seq::empty()
    } else if items.last().locked {
        locked_names(items.drop_last()).push(items.last().name@)
    } else {
        locked_names(items.drop_last())
    }
}

/// `idx` picks, in increasing order, exactly the locked rows of `items`, and `names`
/// holds their names in that order.
spec fn picks_locked_rows(items: Seq<AppItem>, names: Seq<Seq<char>>, idx: Seq<int>) -> bool {
    &&& idx.len() == names.len()
    &&& forall|j: int|
        0 <= j < idx.len() ==> 0 <= #[trigger] idx[j] < items.len() && items[idx[j]].locked
            && names[j] == items[idx[j]].name@
    &&& forall|j: int, k: int| 0 <= j < k < idx.len() ==> idx[j] < idx[k]
    &&& forall|r: int|
        0 <= r < items.len() && (#[trigger] items[r]).locked ==> exists|j: int|
            0 <= j < idx.len() && idx[j] == r
}

proof fn lemma_locked_indices(items: Seq<AppItem>) -> (idx: Seq<int>)
    ensures
        picks_locked_rows(items, locked_names(items), idx),
    decreases items.len(),
{
    if items.len() == 0 {
        Seq::empty()
    } else {
        let prev_items = items.drop_last();
        let p = lemma_locked_indices(prev_items);
        let n = items.len() - 1;
        assert forall|r: int| 0 <= r < n implies #[trigger] prev_items[r] == items[r] by {}
        if items.last().locked {
            let idx = p.push(n);
            let names = locked_names(items);
            assert(names == locked_names(prev_items).push(items.last().name@));
            assert forall|r: int| 0 <= r < items.len() && (#[trigger] items[r]).locked implies exists|j: int|
                0 <= j < idx.len() && idx[j] == r by {
                if r == n {
                    assert(idx[p.len() as int] == r);
                } else {
                    assert(prev_items[r].locked);
                    let j = choose|j: int| 0 <= j < p.len() && p[j] == r;
                    assert(idx[j] == r);
                }
            }
            assert forall|j: int|
                0 <= j < idx.len() implies 0 <= #[trigger] idx[j] < items.len() && items[idx[j]].locked
                && names[j] == items[idx[j]].name@ by {
                if j < p.len() {
                    assert(idx[j] == p[j]);
                    assert(prev_items[p[j]] == items[p[j]]);
                }
            }
            idx
        } else {
            assert forall|r: int| 0 <= r < items.len() && (#[trigger] items[r]).locked implies exists|j: int|
                0 <= j < p.len() && p[j] == r by {
                assert(r != n);
                assert(prev_items[r].locked);
            }
            assert forall|j: int|
                0 <= j < p.len() implies 0 <= #[trigger] p[j] < items.len() && items[p[j]].locked
                && locked_names(items)[j] == items[p[j]].name@ by {
                assert(prev_items[p[j]] == items[p[j]]);
            }
            p
        }
    }
}

/// Adding never makes a duplicate: a name is added only when its trimmed, lower-cased
/// form is non-empty and no row has that form, and it is added in that form; a name
/// whose form some row already has is reported as a duplicate, a blank one ignored.
pub proof fn adding_never_duplicates(items: Seq<AppItem>, name: Seq<char>, r: AddAppOutcome)
    requires
        add_outcome(items, name, r),
    ensures
        r matches AddAppOutcome::Added(n) ==> n@ == lowercase(trimmed(name)) && n@.len() > 0
            && forall|i: int| 0 <= i < items.len() ==> lowercase((#[trigger] items[i]).name@) != n@,
        lowercase(trimmed(name)).len() == 0 ==> r == AddAppOutcome::Ignored,
        (lowercase(trimmed(name)).len() > 0 && exists|i: int|
            0 <= i < items.len() && lowercase((#[trigger] items[i]).name@) == lowercase(
                trimmed(name),
            )) ==> r == AddAppOutcome::Duplicate,
{
}

/// The panel's verdict on the three password fields: a missing field first, then a
/// confirmation that differs, then a new password equal to the old one.
pub open spec fn password_change_verdict(
    old_password: Seq<char>,
    new_password: Seq<char>,
    confirm_password: Seq<char>,
) -> Result<(), PasswordChangeIssue> {
    if old_password.len() == 0 || new_password.len() == 0 || confirm_password.len() == 0 {
        Err(PasswordChangeIssue::MissingField)
    } else if new_password != confirm_password {
        Err(PasswordChangeIssue::Mismatch)
    } else if new_password == old_password {
        Err(PasswordChangeIssue::Unchanged)
    } else {
        Ok(())
    }
}

/// A password change passes the panel's checks exactly when all three fields are
/// filled, the new password equals its confirmation, and it differs from the old one;
/// an empty field is always reported as missing.
pub proof fn password_change_accepted_iff(
    old_password: Seq<char>,
    new_password: Seq<char>,
    confirm_password: Seq<char>,
)
    ensures
        (password_change_verdict(old_password, new_password, confirm_password) is Ok) <==> (
        old_password.len() > 0 && new_password.len() > 0 && confirm_password.len() > 0
            && new_password == confirm_password && new_password != old_password),
        (old_password.len() == 0 || new_password.len() == 0 || confirm_password.len() == 0)
            ==> password_change_verdict(old_password, new_password, confirm_password) == Err::<
            (),
            PasswordChangeIssue,
        >(PasswordChangeIssue::MissingField),
{
}

/// The saved list holds exactly the names of the rows marked locked, in row order: each
/// entry comes from a distinct locked row, rows keep their order, and every locked row
/// is there; a row not marked locked contributes nothing, wherever it stands.
pub proof fn saved_names_are_the_locked_rows(items: Seq<AppItem>)
    ensures
        exists|idx: Seq<int>|
            #![trigger idx.len()]
            {
                &&& idx.len() == locked_names(items).len()
                &&& forall|j: int|
                    0 <= j < idx.len() ==> 0 <= #[trigger] idx[j] < items.len() && items[idx[j]].locked
                        && locked_names(items)[j] == items[idx[j]].name@
                &&& forall|j: int, k: int| 0 <= j < k < idx.len() ==> idx[j] < idx[k]
                &&& forall|r: int|
                    0 <= r < items.len() && (#[trigger] items[r]).locked ==> exists|j: int|
                        0 <= j < idx.len() && idx[j] == r
            },
{
    let idx = lemma_locked_indices(items);
    assert(picks_locked_rows(items, locked_names(items), idx));
}

/// Decides what adding `name` (as typed or picked) to the list does.
pub fn add_app(items: &Vec<AppItem>, name: &str) -> (r: AddAppOutcome)
    ensures
        add_outcome(items@, name@, r),
{
    let n = normalize_name(name);
    if n.as_str().is_empty() {
        return AddAppOutcome::Ignored;
    }
    let count = items.len();
    let mut i: usize = 0;
    while i < count
        invariant
            count == items@.len(),
            i <= count,
            n@ == normalized(name@),
            n@.len() > 0,
            forall|k: int| 0 <= k < i ==> lowercase((#[trigger] items@[k]).name@) != n@,
        decreases count - i,
    {
        let existing = to_lowercase_str(items[i].name.as_str());
        if existing == n {
            assert(lowercase(items@[i as int].name@) == n@);
            return AddAppOutcome::Duplicate;
        }
        i = i + 1;
    }
    AddAppOutcome::Added(n)
}

/// The names of the rows marked locked, to be saved as the configuration's list.
pub fn locked_app_names(items: &Vec<AppItem>) -> (r: Vec<String>)
    ensures
        r.deep_view() == locked_names(items@),
{
    let mut out: Vec<String> = Vec::new();
    let count = items.len();
    let mut i: usize = 0;
    while i < count
        invariant
            count == items@.len(),
            i <= count,
            out.deep_view() == locked_names(items@.take(i as int)),
        decreases count - i,
    {
        proof {
            assert(items@.take(i + 1).drop_last() =~= items@.take(i as int));
            assert(items@.take(i + 1).last() == items@[i as int]);
        }
        if items[i].locked {
            let ghost before = out.deep_view();
            out.push(copy_string(items[i].name.as_str()));
            assert(out.deep_view() =~= before.push(items@[i as int].name@));
        }
        i = i + 1;
    }
    assert(items@.take(count as int) =~= items@);
    out
}

/// Checks the three password fields before a change is requested: all filled in, the
/// confirmation equal to the new password, and the new password different from the old.
pub fn check_password_change(old_password: &str, new_password: &str, confirm_password: &str) -> (r:
    Result<(), PasswordChangeIssue>)
    ensures
        r == password_change_verdict(old_password@, new_password@, confirm_password@),
{
    if old_password.is_empty() || new_password.is_empty() || confirm_password.is_empty() {
        return Err(PasswordChangeIssue::MissingField);
    }
    let new_pw = copy_string(new_password);
    if new_pw != copy_string(confirm_password) {
        return Err(PasswordChangeIssue::Mismatch);
    }
    if new_pw == copy_string(old_password) {
        return Err(PasswordChangeIssue::Unchanged);
    }
    Ok(())
}

/// Changes the password on a configuration loaded locally: the old password must
/// match; the configuration is then to be saved.
pub fn change_password_locally(config: &mut AppConfig, old_password: &str, new_password: &str) -> (r:
    LocalPasswordChange)
    ensures
        !password_matches(old(config).password@, old_password@) ==> r
            == LocalPasswordChange::WrongOldPassword && *final(config) == *old(config),
        password_matches(old(config).password@, old_password@) ==> ((r == LocalPasswordChange::Save
            && final(config).locked_apps == old(config).locked_apps && phc_valid(
            final(config).password@,
        ) && password_matches(final(config).password@, new_password@) && is_argon2id_phc(
            final(config).password@,
        )) || (r is HashFailed && *final(config) == *old(config))),
        password_matches(old(config).password@, old_password@) && hashable(new_password@) ==> r
            == LocalPasswordChange::Save,
{
    if !config.verify_password(old_password) {
        return LocalPasswordChange::WrongOldPassword;
    }
    match config.set_password(new_password) {
        Ok(()) => LocalPasswordChange::Save,
        Err(e) => LocalPasswordChange::HashFailed(e),
    }
}

} // verus!
