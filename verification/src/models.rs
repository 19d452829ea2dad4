//! The account roster and the small records kept alongside it.
use vstd::prelude::*;

verus! {

/// A point in time, as seconds and nanoseconds since the Unix epoch (UTC).
#[derive(Clone, Copy, Debug)]
pub struct Timestamp {
    pub seconds: i64,
    pub nanos: u32,
}

/// A single Roblox account managed by the app.
#[derive(Clone, Debug)]
pub struct Account {
    /// Roblox user ID.
    pub user_id: u64,
    /// Display name on Roblox.
    pub display_name: String,
    /// Roblox username.
    pub username: String,
    /// The encrypted `.ROBLOSECURITY` cookie (never stored in plaintext).
    pub encrypted_cookie: Option<String>,
    /// Optional alias set by the user for quick identification.
    pub alias: String,
    /// Optional group/tag for organizing accounts.
    pub group: String,
    /// Cached avatar thumbnail URL.
    pub avatar_url: String,
    /// Last known online presence.
    pub last_presence: Presence,
    /// Time of the last successful login/validation.
    pub last_validated: Option<Timestamp>,
    /// True if the last automatic revalidation found the cookie expired.
    pub cookie_expired: bool,
    /// Latest moderation state (None = not moderated as of the last check, or
    /// never checked).
    pub moderation: Option<ModerationInfo>,
    /// Manual sort position. `u32::MAX` = not yet positioned.
    pub sort_order: u32,
}

/// What `Account::label` shows: the alias when one is set, else the username.
pub open spec fn spec_label(alias: Seq<char>, username: Seq<char>) -> Seq<char> {
    if alias.len() == 0 {
        username
    } else {
        alias
    }
}

impl Account {
    /// A freshly added account: no cookie, alias, group or avatar yet, offline,
    /// never validated, not moderated and not yet positioned.
    pub fn new(user_id: u64, username: String, display_name: String) -> (a: Self)
        ensures
            a.user_id == user_id,
            a.username@ == username@,
            a.display_name@ == display_name@,
            a.encrypted_cookie is None,
            a.alias@.len() == 0,
            a.group@.len() == 0,
            a.avatar_url@.len() == 0,
            a.last_presence.is_default(),
            a.last_validated is None,
            !a.cookie_expired,
            a.moderation is None,
            a.sort_order == u32::MAX,
    {
        Account {
            user_id,
            display_name,
            username,
            encrypted_cookie: None,
            alias: String::new(),
            group: String::new(),
            avatar_url: String::new(),
            last_presence: Presence::default(),
            last_validated: None,
            cookie_expired: false,
            moderation: None,
            sort_order: default_sort_order(),
        }
    }

    /// The label shown in the sidebar (alias if set, otherwise username).
    pub fn label(&self) -> (r: &str)
        ensures
            r@ == spec_label(self.alias@, self.username@),
    {
        if self.alias.as_str().is_empty() {
            self.username.as_str()
        } else {
            self.alias.as_str()
        }
    }
}

/// Moderation / enforcement state on a Roblox account.
///
/// `is_banned` reflects the public banned flag (permanent terminations);
/// `reason` / `expires_at` are best-effort and may be missing even when the
/// account is moderated.
#[derive(Clone, Debug)]
pub struct ModerationInfo {
    /// True if the public profile reports the account as banned (terminated).
    pub is_banned: bool,
    /// Human-readable reason from the moderation page, if it could be read.
    pub reason: Option<String>,
    /// When the moderation expires (None = permanent, or unknown).
    pub expires_at: Option<Timestamp>,
    /// Time of the last moderation check.
    pub last_checked: Option<Timestamp>,
}

impl ModerationInfo {
    /// True when the account is currently restricted in some way (perma or temp).
    pub fn is_active(&self) -> (r: bool)
        ensures
            r == (self.is_banned || self.reason is Some),
    {
        self.is_banned || self.reason.is_some()
    }
}

impl Default for ModerationInfo {
    fn default() -> (m: Self)
        ensures
            !m.is_banned,
            m.reason is None,
            m.expires_at is None,
            m.last_checked is None,
    {
        ModerationInfo { is_banned: false, reason: None, expires_at: None, last_checked: None }
    }
}

/// Roblox user presence information.
#[derive(Clone, Debug)]
pub struct Presence {
    /// 0 = Offline, 1 = Online, 2 = InGame, 3 = InStudio
    pub user_presence_type: u8,
    /// Place ID the user is currently in (if in-game).
    pub place_id: Option<u64>,
    /// Job/server ID (if in-game).
    pub game_id: Option<String>,
    /// Human-readable status text from Roblox.
    pub last_location: String,
}

/// The status word for each presence code.
pub open spec fn spec_status_text(presence_type: u8) -> Seq<char> {
    if presence_type == 0 {
        "Offline"@
    } else if presence_type == 1 {
        "Online"@
    } else if presence_type == 2 {
        "In Game"@
    } else if presence_type == 3 {
        "In Studio"@
    } else {
        "Unknown"@
    }
}

impl Presence {
    /// Offline, nowhere, with no status text.
    pub open spec fn is_default(&self) -> bool {
        &&& self.user_presence_type == 0
        &&& self.place_id is None
        &&& self.game_id is None
        &&& self.last_location@.len() == 0
    }

    pub fn status_text(&self) -> (r: &str)
        ensures
            r@ == spec_status_text(self.user_presence_type),
    {
        match self.user_presence_type {
            0 => "Offline",
            1 => "Online",
            2 => "In Game",
            3 => "In Studio",
            _ => "Unknown",
        }
    }

    pub fn is_online(&self) -> (r: bool)
        ensures
            r == (self.user_presence_type > 0),
    {
        self.user_presence_type > 0
    }
}

impl Default for Presence {
    fn default() -> (p: Self)
        ensures
            p.is_default(),
    {
        Presence { user_presence_type: 0, place_id: None, game_id: None, last_location: String::new() }
    }
}

/// True when some account in `accounts` has the given user ID.
pub open spec fn has_account(accounts: Seq<Account>, user_id: u64) -> bool {
    exists|i: int| 0 <= i < accounts.len() && #[trigger] accounts[i].user_id == user_id
}

/// `i` is the position of the first account with the given user ID.
pub open spec fn is_first_with_id(accounts: Seq<Account>, user_id: u64, i: int) -> bool {
    &&& 0 <= i < accounts.len()
    &&& accounts[i].user_id == user_id
    &&& forall|j: int| 0 <= j < i ==> #[trigger] accounts[j].user_id != user_id
}

/// The accounts whose user ID differs from `user_id`, in their original order.
pub open spec fn without_account(accounts: Seq<Account>, user_id: u64) -> Seq<Account> {
    accounts.filter(|a: Account| a.user_id != user_id)
}

/// The persistent store of all accounts.
#[derive(Clone, Debug)]
pub struct AccountStore {
    pub accounts: Vec<Account>,
}

impl Default for AccountStore {
    fn default() -> (s: Self)
        ensures
            s.accounts@.len() == 0,
    {
        AccountStore { accounts: Vec::new() }
    }
}

impl AccountStore {
    /// Position of the first account with `user_id`, if any.
    fn position_of(&self, user_id: u64) -> (r: Option<usize>)
        ensures
            r is None <==> !has_account(self.accounts@, user_id),
            r matches Some(i) ==> is_first_with_id(self.accounts@, user_id, i as int),
    {
        let mut i: usize = 0;
        while i < self.accounts.len()
            invariant
                i <= self.accounts@.len(),
                forall|j: int| 0 <= j < i ==> #[trigger] self.accounts@[j].user_id != user_id,
            decreases self.accounts@.len() - i,
        {
            if self.accounts[i].user_id == user_id {
                return Some(i);
            }
            i = i + 1;
        }
        None
    }

    /// The first account with the given user ID.
    pub fn find_by_id(&self, user_id: u64) -> (r: Option<&Account>)
        ensures
            r is None <==> !has_account(self.accounts@, user_id),
            r matches Some(a) ==> exists|i: int|
                is_first_with_id(self.accounts@, user_id, i) && *a == self.accounts@[i],
    {
        match self.position_of(user_id) {
            Some(i) => Some(&self.accounts[i]),
            None => None,
        }
    }

    /// The first account with the given user ID, for editing in place.
    pub fn find_by_id_mut(&mut self, user_id: u64) -> (r: Option<&mut Account>)
        ensures
            r is None <==> !has_account(old(self).accounts@, user_id),
            r is None ==> final(self).accounts@ == old(self).accounts@,
            r matches Some(a) ==> exists|i: int|
                {
                    &&& is_first_with_id(old(self).accounts@, user_id, i)
                    &&& *a == old(self).accounts@[i]
                    &&& final(self).accounts@ == old(self).accounts@.update(i, *final(a))
                },
    {
        match self.position_of(user_id) {
            Some(i) => Some(&mut self.accounts[i]),
            None => None,
        }
    }

    /// Remove every account with the given user ID, keeping the others in
    /// order. Returns whether anything was removed.
    pub fn remove_by_id(&mut self, user_id: u64) -> (removed: bool)
        ensures
            final(self).accounts@ == without_account(old(self).accounts@, user_id),
            removed == has_account(old(self).accounts@, user_id),
    {
        let ghost orig = self.accounts@;
        let ghost pred = |a: Account| a.user_id != user_id;
        let before = self.accounts.len();
        let mut i: usize = 0;
        let ghost mut j: int = 0;
        let ghost mut dropped: int = 0;
        assert(orig.take(0).filter(pred) =~= Seq::<Account>::empty()) by {
            reveal_with_fuel(Seq::<_>::filter, 1);
        }
        assert(orig.skip(0) =~= orig);
        while i < self.accounts.len()
            invariant
                0 <= i <= j <= orig.len(),
                self.accounts@ =~= orig.take(j).filter(pred) + orig.skip(j),
                i == orig.take(j).filter(pred).len(),
                self.accounts@.len() + dropped == orig.len(),
                dropped == j - i,
                dropped > 0 <==> (exists|k: int| 0 <= k < j && #[trigger] orig[k].user_id == user_id),
                before == orig.len(),
                pred == (|a: Account| a.user_id != user_id),
            decreases orig.len() - j,
        {
            let ghost kept = orig.take(j).filter(pred);
            assert(self.accounts@[i as int] == orig[j]);
            assert(orig.take(j + 1).drop_last() =~= orig.take(j));
            assert(orig.take(j + 1).last() == orig[j]);
            assert(orig.skip(j).drop_first() =~= orig.skip(j + 1));
            if self.accounts[i].user_id == user_id {
                self.accounts.remove(i);
                proof {
                    reveal_with_fuel(Seq::<_>::filter, 1);
                    assert(orig.take(j + 1).filter(pred) =~= kept);
                    j = j + 1;
                    dropped = dropped + 1;
                }
            } else {
                i = i + 1;
                proof {
                    reveal_with_fuel(Seq::<_>::filter, 1);
                    assert(orig.take(j + 1).filter(pred) =~= kept.push(orig[j]));
                    j = j + 1;
                }
            }
        }
        proof {
            assert(j == orig.len());
            assert(orig.take(j) =~= orig);
            assert(orig.skip(j) =~= Seq::<Account>::empty());
        }
        self.accounts.len() < before
    }
}

/// After removing a user ID, no account with that ID remains, and every
/// account with another ID is still there.
pub proof fn removed_account_is_gone(accounts: Seq<Account>, user_id: u64)
    ensures
        !has_account(without_account(accounts, user_id), user_id),
        forall|a: Account|
            a.user_id != user_id && accounts.contains(a) ==> #[trigger] without_account(
                accounts,
                user_id,
            ).contains(a),
{
    let pred = |a: Account| a.user_id != user_id;
    accounts.filter_lemma(pred);
    assert forall|a: Account| a.user_id != user_id && accounts.contains(a) implies #[trigger] without_account(
        accounts,
        user_id,
    ).contains(a) by {
        accounts.lemma_filter_contains_rev(pred, a);
    }
}

/// Optional metadata for account groupings.
#[derive(Clone, Debug)]
pub struct GroupMeta {
    pub color: [u8; 3],
    pub description: String,
    /// Manual sort position for group ordering. `u32::MAX` = not yet positioned.
    pub sort_order: u32,
}

/// A saved favorite place for quick launching (superseded by
/// [`LaunchPreset`]; kept for migrating older configurations).
#[derive(Clone, Debug)]
pub struct FavoritePlace {
    pub name: String,
    pub place_id: u64,
}

/// A user-defined launch preset: name + Place ID + optional Job ID.
#[derive(Clone, Debug)]
pub struct LaunchPreset {
    pub name: String,
    pub place_id: u64,
    pub job_id: Option<String>,
}

/// The presets that legacy favorite places become, one each, in order.
pub fn favorites_to_presets(favorites: Vec<FavoritePlace>) -> (presets: Vec<LaunchPreset>)
    ensures
        presets@.len() == favorites@.len(),
        forall|i: int|
            0 <= i < favorites@.len() ==> {
                &&& #[trigger] presets@[i].name@ == favorites@[i].name@
                &&& presets@[i].place_id == favorites@[i].place_id
                &&& presets@[i].job_id is None
            },
{
    let mut presets: Vec<LaunchPreset> = Vec::new();
    let mut i: usize = 0;
    while i < favorites.len()
        invariant
            i <= favorites@.len(),
            presets@.len() == i,
            forall|j: int|
                0 <= j < i ==> {
                    &&& #[trigger] presets@[j].name@ == favorites@[j].name@
                    &&& presets@[j].place_id == favorites@[j].place_id
                    &&& presets@[j].job_id is None
                },
        decreases favorites@.len() - i,
    {
        let fav = &favorites[i];
        presets.push(LaunchPreset { name: fav.name.clone(), place_id: fav.place_id, job_id: None });
        i = i + 1;
    }
    presets
}

/// How many of the outcomes are successes.
pub open spec fn count_saved(saved: Seq<bool>) -> nat
    decreases saved.len(),
{
    if saved.len() == 0 {
        0
    } else {
        count_saved(saved.drop_last()) + if saved.last() {
            1nat
        } else {
            0nat
        }
    }
}

/// After legacy favorites were turned into presets and each preset was
/// saved (`saved[i]` tells whether the i-th save succeeded): how many were
/// migrated, and whether the configuration, now without favorites, should be
/// saved. It is saved only when at least one favorite was migrated, so that a
/// run where every save failed leaves the favorites in the file.
pub fn favorites_migration_outcome(saved: &Vec<bool>) -> (r: (usize, bool))
    ensures
        r.0 == count_saved(saved@),
        r.1 == (r.0 > 0),
{
    let mut migrated: usize = 0;
    let mut i: usize = 0;
    while i < saved.len()
        invariant
            i <= saved@.len(),
            migrated == count_saved(saved@.take(i as int)),
            migrated <= i,
        decreases saved@.len() - i,
    {
        assert(saved@.take(i + 1).drop_last() =~= saved@.take(i as int));
        if saved[i] {
            migrated = migrated + 1;
        }
        i = i + 1;
    }
    assert(saved@.take(saved@.len() as int) =~= saved@);
    (migrated, migrated > 0)
}

/// A saved private server for quick launching.
#[derive(Clone, Debug)]
pub struct PrivateServer {
    /// User-assigned name for this private server.
    pub name: String,
    /// The Roblox place ID.
    pub place_id: u64,
    /// The universe (experience) ID.
    pub universe_id: Option<u64>,
    /// The private server link code.
    pub link_code: String,
    /// The UUID access code needed for launching.
    pub access_code: String,
    /// Resolved place name (cached).
    pub place_name: String,
}

/// Sort position of an account or group that has not been placed yet.
pub fn default_sort_order() -> (r: u32)
    ensures
        r == u32::MAX,
{
    u32::MAX
}

/// Default for the boolean settings that start switched on.
pub fn default_true() -> (r: bool)
    ensures
        r,
{
    true
}

/// Default sidebar sort mode.
pub fn default_sort_mode() -> (r: String)
    ensures
        r@ == "Custom"@,
{
    String::from_str("Custom")
}

/// Default theme id: the plain dark look.
pub fn default_theme() -> (r: String)
    ensures
        r@ == "slate"@,
{
    String::from_str("slate")
}

/// Default background fit mode id.
pub fn default_background_fit() -> (r: String)
    ensures
        r@ == "cover"@,
{
    String::from_str("cover")
}

/// Default corner for the overlay image.
pub fn default_overlay_corner() -> (r: String)
    ensures
        r@ == "bottom_right"@,
{
    String::from_str("bottom_right")
}

} // verus!
