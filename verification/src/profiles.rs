//! Saved connections. A saved connection never holds a password.

use vstd::prelude::*;

use crate::checkpoint::AuthKind;
use crate::number::decimal;
use crate::order::{sort, sorted_from, stable_order, Ranked};
use crate::storage::{expand_home, home_dir, home_expanded, new_id, show_dir, shown};
use crate::text::{
    contains, copy_nonempty, copy_opt, mentions, nonempty, opt_view, same, trim, trimmed,
};

verus! {

/// A saved connection.
#[derive(Debug, Clone)]
pub struct ConnectionProfile {
    pub id: String,
    pub name: String,
    pub host: String,
    pub port: u16,
    pub username: String,
    pub auth_kind: AuthKind,
    pub key_path: Option<String>,
    pub password: Option<String>,
    pub key_passphrase: Option<String>,
    pub created_at: i64,
}

/// What a saved connection says.
pub struct Profile {
    pub id: Seq<char>,
    pub name: Seq<char>,
    pub host: Seq<char>,
    pub port: u16,
    pub username: Seq<char>,
    pub auth_kind: AuthKind,
    pub key_path: Option<Seq<char>>,
    pub password: Option<Seq<char>>,
    pub key_passphrase: Option<Seq<char>>,
    pub created_at: i64,
}

impl View for ConnectionProfile {
    type V = Profile;

    open spec fn view(&self) -> Profile {
        Profile {
            id: self.id@,
            name: self.name@,
            host: self.host@,
            port: self.port,
            username: self.username@,
            auth_kind: self.auth_kind,
            key_path: opt_view(self.key_path),
            password: opt_view(self.password),
            key_passphrase: opt_view(self.key_passphrase),
            created_at: self.created_at,
        }
    }
}

impl ConnectionProfile {
    /// A copy of the profile.
    pub fn copy(&self) -> (r: Self)
        ensures
            r@ == self@,
    {
        ConnectionProfile {
            id: self.id.clone(),
            name: self.name.clone(),
            host: self.host.clone(),
            port: self.port,
            username: self.username.clone(),
            auth_kind: self.auth_kind,
            key_path: copy_opt(&self.key_path),
            password: copy_opt(&self.password),
            key_passphrase: copy_opt(&self.key_passphrase),
            created_at: self.created_at,
        }
    }
}

impl Ranked for ConnectionProfile {
    /// Profiles that were made later stand in front.
    open spec fn precedes(self, other: Self) -> bool {
        self.created_at >= other.created_at
    }

    proof fn precedes_total(a: Self, b: Self) {
    }

    proof fn precedes_transitive(a: Self, b: Self, c: Self) {
    }

    fn may_precede(&self, other: &Self) -> (r: bool) {
        self.created_at >= other.created_at
    }
}

/// The saved connections.
#[derive(Debug, Clone)]
pub struct ProfileStore {
    pub profiles: Vec<ConnectionProfile>,
}

impl Default for ProfileStore {
    fn default() -> (r: Self)
        ensures
            r.profiles@ == Seq::<ConnectionProfile>::empty(),
    {
        ProfileStore { profiles: Vec::new() }
    }
}

/// What a list of profiles says.
pub open spec fn profiles_view(profiles: Seq<ConnectionProfile>) -> Seq<Profile> {
    profiles.map_values(|p: ConnectionProfile| p@)
}

/// What stands in the store that was read: nothing if there is no such file.
pub open spec fn stored(read: Result<ProfileStore, String>) -> Result<
    Seq<ConnectionProfile>,
    Seq<char>,
> {
    match read {
        Ok(store) => Ok(store.profiles@),
        Err(e) => if mentions(e@, "not found"@) {
            Ok(Seq::empty())
        } else {
            Err(e@)
        },
    }
}

/// Takes what was read from the profile file; a missing file is an empty store.
pub fn load_store(read: Result<ProfileStore, String>) -> (r: Result<ProfileStore, String>)
    ensures
        match stored(read) {
            Ok(profiles) => r matches Ok(store) && store.profiles@ == profiles,
            Err(e) => r matches Err(x) && x@ == e,
        },
{
    match read {
        Ok(store) => Ok(store),
        Err(e) => if contains(e.as_str(), "not found") {
            Ok(ProfileStore::default())
        } else {
            Err(e)
        },
    }
}

/// Lists the saved connections, the latest first.
pub fn list_profiles(read: Result<ProfileStore, String>) -> (r: Result<
    Vec<ConnectionProfile>,
    String,
>)
    ensures
        match stored(read) {
            Ok(profiles) => r matches Ok(list) && sorted_from(profiles, list@),
            Err(e) => r matches Err(x) && x@ == e,
        },
{
    match load_store(read) {
        Ok(store) => Ok(sort(store.profiles)),
        Err(e) => Err(e),
    }
}

/// A connection that the user wants saved.
#[derive(Debug)]
pub struct SaveProfileRequest {
    pub name: String,
    pub host: String,
    pub port: u16,
    pub username: String,
    pub auth_type: String,
    pub key_path: Option<String>,
    pub password: Option<String>,
    pub key_passphrase: Option<String>,
}

/// What the request says.
pub struct Wish {
    pub name: Seq<char>,
    pub host: Seq<char>,
    pub port: u16,
    pub username: Seq<char>,
    pub auth_type: Seq<char>,
    pub key_path: Option<Seq<char>>,
    pub password: Option<Seq<char>>,
    pub key_passphrase: Option<Seq<char>>,
}

impl View for SaveProfileRequest {
    type V = Wish;

    open spec fn view(&self) -> Wish {
        Wish {
            name: self.name@,
            host: self.host@,
            port: self.port,
            username: self.username@,
            auth_type: self.auth_type@,
            key_path: opt_view(self.key_path),
            password: opt_view(self.password),
            key_passphrase: opt_view(self.key_passphrase),
        }
    }
}

/// A string that is not empty; an empty one counts as none.
pub fn non_empty(value: Option<String>) -> (r: Option<String>)
    ensures
        opt_view(r) == nonempty(opt_view(value)),
{
    match value {
        Some(v) => if v.as_str().is_empty() {
            None
        } else {
            Some(v)
        },
        None => None,
    }
}

/// The path of the key, without white space around it; none if it is blank.
pub open spec fn key_entry(key_path: Option<Seq<char>>) -> Option<Seq<char>> {
    match key_path {
        Some(path) => nonempty(Some(trimmed(path))),
        None => None,
    }
}

fn key_entry_of(key_path: &Option<String>) -> (r: Option<String>)
    ensures
        opt_view(r) == key_entry(opt_view(*key_path)),
{
    match key_path {
        Some(path) => {
            let entry = trim(path.as_str());
            if entry.is_empty() {
                None
            } else {
                Some(entry.to_owned())
            }
        },
        None => None,
    }
}

/// Replaces a leading tilde by the user's home directory.
pub fn expand_key_path(path: &str) -> (r: String)
    ensures
        exists|home: Option<Seq<u8>>| r@ == home_expanded(path@, #[trigger] shown(home)),
{
    let home = show_dir(home_dir());
    expand_home(path, &home)
}

/// The file that must exist before a connection with a key is saved.
pub fn required_key_file(request: &SaveProfileRequest) -> (r: Option<String>)
    ensures
        match key_entry(request@.key_path) {
            Some(entry) => if request@.auth_type == "key"@ {
                r matches Some(path) && exists|home: Option<Seq<u8>>|
                    path@ == home_expanded(entry, #[trigger] shown(home))
            } else {
                r is None
            },
            None => r is None,
        },
{
    if !same(request.auth_type.as_str(), "key") {
        return None;
    }
    match key_entry_of(&request.key_path) {
        Some(entry) => Some(expand_key_path(entry.as_str())),
        None => None,
    }
}

/// The kind of login that a request asks for, if the request is complete.
pub open spec fn checked_kind(wish: Wish, key_exists: bool) -> Result<AuthKind, Seq<char>> {
    if trimmed(wish.name).len() == 0 {
        Err("请填写连接名称"@)
    } else if trimmed(wish.host).len() == 0 {
        Err("请填写主机"@)
    } else if trimmed(wish.username).len() == 0 {
        Err("请填写用户名"@)
    } else if wish.auth_type == "password"@ {
        Ok(AuthKind::Password)
    } else if wish.auth_type == "key"@ {
        match key_entry(wish.key_path) {
            None => Err("私钥认证需要填写私钥路径"@),
            Some(entry) => if key_exists {
                Ok(AuthKind::PrivateKey)
            } else {
                Err("私钥文件不存在: "@ + entry)
            },
        }
    } else {
        Err("未知认证方式"@)
    }
}

fn check_request(request: &SaveProfileRequest, key_exists: bool) -> (r: Result<AuthKind, String>)
    ensures
        match r {
            Ok(kind) => checked_kind(request@, key_exists) == Ok::<AuthKind, Seq<char>>(kind),
            Err(e) => checked_kind(request@, key_exists) == Err::<AuthKind, Seq<char>>(e@),
        },
{
    if trim(request.name.as_str()).is_empty() {
        return Err("请填写连接名称".to_owned());
    }
    if trim(request.host.as_str()).is_empty() {
        return Err("请填写主机".to_owned());
    }
    if trim(request.username.as_str()).is_empty() {
        return Err("请填写用户名".to_owned());
    }
    if same(request.auth_type.as_str(), "password") {
        return Ok(AuthKind::Password);
    }
    if same(request.auth_type.as_str(), "key") {
        return match key_entry_of(&request.key_path) {
            None => Err("私钥认证需要填写私钥路径".to_owned()),
            Some(entry) => if key_exists {
                Ok(AuthKind::PrivateKey)
            } else {
                Err("私钥文件不存在: ".to_owned().concat(entry.as_str()))
            },
        };
    }
    Err("未知认证方式".to_owned())
}

/// The first profile with a given name.
pub open spec fn profile_named(profiles: Seq<Profile>, name: Seq<char>) -> Option<Profile>
    decreases profiles.len(),
{
    if profiles.len() == 0 {
        None
    } else if profiles[0].name == name {
        Some(profiles[0])
    } else {
        profile_named(profiles.drop_first(), name)
    }
}

fn find_profile(profiles: &Vec<ConnectionProfile>, name: &str) -> (r: Option<ConnectionProfile>)
    ensures
        match r {
            Some(p) => profile_named(profiles_view(profiles@), name@) == Some(p@),
            None => profile_named(profiles_view(profiles@), name@) is None,
        },
{
    let ghost all = profiles_view(profiles@);
    let mut i: usize = 0;
    proof {
        assert(all.skip(0) =~= all);
    }
    while i < profiles.len()
        invariant
            i <= profiles@.len(),
            all == profiles_view(profiles@),
            profile_named(all, name@) == profile_named(all.skip(i as int), name@),
        decreases profiles@.len() - i,
    {
        proof {
            assert(all.skip(i as int)[0] == profiles@[i as int]@);
            assert(all.skip(i as int).drop_first() =~= all.skip(i + 1));
        }
        if same(profiles[i].name.as_str(), name) {
            return Some(profiles[i].copy());
        }
        i = i + 1;
    }
    proof {
        assert(all.skip(i as int).len() == 0);
    }
    None
}

/// What was given, or else what was saved before; an empty text counts as none.
pub open spec fn given_or_saved(
    given: Option<Seq<char>>,
    saved: Option<Seq<char>>,
) -> Option<Seq<char>> {
    match nonempty(given) {
        Some(text) => Some(text),
        None => nonempty(saved),
    }
}

fn pick(given: &Option<String>, saved: &Option<String>) -> (r: Option<String>)
    ensures
        opt_view(r) == given_or_saved(opt_view(*given), opt_view(*saved)),
{
    match copy_nonempty(given) {
        Some(text) => Some(text),
        None => copy_nonempty(saved),
    }
}

/// The profile that a request leads to. A profile of the same name keeps its
/// identity, its age and its passphrase. A password has to be there for a
/// login by password, but it is not saved.
pub open spec fn profile_for(
    wish: Wish,
    kind: AuthKind,
    existing: Option<Profile>,
    millis: u128,
    now: i64,
) -> Result<Profile, Seq<char>> {
    let password = given_or_saved(
        wish.password,
        match existing {
            Some(p) => p.password,
            None => None,
        },
    );
    if kind is Password && password is None {
        Err("密码登录保存时请填写密码"@)
    } else {
        Ok(
            Profile {
                id: match existing {
                    Some(p) => p.id,
                    None => decimal(millis as nat),
                },
                name: trimmed(wish.name),
                host: trimmed(wish.host),
                port: wish.port,
                username: trimmed(wish.username),
                auth_kind: kind,
                key_path: match key_entry(wish.key_path) {
                    Some(_) => wish.key_path,
                    None => None,
                },
                password: None,
                key_passphrase: given_or_saved(
                    wish.key_passphrase,
                    match existing {
                        Some(p) => p.key_passphrase,
                        None => None,
                    },
                ),
                created_at: match existing {
                    Some(p) => p.created_at,
                    None => now,
                },
            },
        )
    }
}

fn make_profile(
    request: &SaveProfileRequest,
    kind: AuthKind,
    existing: &Option<ConnectionProfile>,
    millis: u128,
    now: i64,
) -> (r: Result<ConnectionProfile, String>)
    ensures
        ({
            let old_one = match *existing {
                Some(p) => Some(p@),
                None => None,
            };
            match r {
                Ok(p) => profile_for(request@, kind, old_one, millis, now) == Ok::<
                    Profile,
                    Seq<char>,
                >(p@),
                Err(e) => profile_for(request@, kind, old_one, millis, now) == Err::<
                    Profile,
                    Seq<char>,
                >(e@),
            }
        }),
{
    let nothing: Option<String> = None;
    let password = match existing {
        Some(p) => pick(&request.password, &p.password),
        None => pick(&request.password, &nothing),
    };
    if kind == AuthKind::Password && password.is_none() {
        return Err("密码登录保存时请填写密码".to_owned());
    }
    let key_passphrase = match existing {
        Some(p) => pick(&request.key_passphrase, &p.key_passphrase),
        None => pick(&request.key_passphrase, &nothing),
    };
    let id = match existing {
        Some(p) => p.id.clone(),
        None => new_id(millis),
    };
    let created_at: i64 = match existing {
        Some(p) => p.created_at,
        None => now,
    };
    let key_path = match key_entry_of(&request.key_path) {
        Some(_) => copy_opt(&request.key_path),
        None => None,
    };
    Ok(
        ConnectionProfile {
            id,
            name: trim(request.name.as_str()).to_owned(),
            host: trim(request.host.as_str()).to_owned(),
            port: request.port,
            username: trim(request.username.as_str()).to_owned(),
            auth_kind: kind,
            key_path,
            password: None,
            key_passphrase,
            created_at,
        },
    )
}

/// The profiles without those of a given name.
pub open spec fn without_name(profiles: Seq<Profile>, name: Seq<char>) -> Seq<Profile> {
    profiles.filter(|p: Profile| p.name != name)
}

/// The profiles without those of a given identity.
pub open spec fn without_id(profiles: Seq<Profile>, id: Seq<char>) -> Seq<Profile> {
    profiles.filter(|p: Profile| p.id != id)
}

proof fn lemma_filter_step(profiles: Seq<Profile>, i: int, keep: spec_fn(Profile) -> bool)
    requires
        0 <= i < profiles.len(),
    ensures
        profiles.take(i + 1).filter(keep) == if keep(profiles[i]) {
            profiles.take(i).filter(keep).push(profiles[i])
        } else {
            profiles.take(i).filter(keep)
        },
{
    reveal(Seq::filter);
    assert(profiles.take(i + 1).drop_last() =~= profiles.take(i));
}

fn remove_name(profiles: &Vec<ConnectionProfile>, name: &str) -> (r: Vec<ConnectionProfile>)
    ensures
        profiles_view(r@) == without_name(profiles_view(profiles@), name@),
{
    let mut kept: Vec<ConnectionProfile> = Vec::new();
    let ghost all = profiles_view(profiles@);
    let ghost keep = |p: Profile| p.name != name@;
    proof {
        reveal(Seq::filter);
        assert(profiles_view(kept@) =~= all.take(0).filter(keep));
    }
    for i in 0..profiles.len()
        invariant
            all == profiles_view(profiles@),
            keep == (|p: Profile| p.name != name@),
            profiles_view(kept@) == all.take(i as int).filter(keep),
    {
        proof {
            lemma_filter_step(all, i as int, keep);
        }
        if !same(profiles[i].name.as_str(), name) {
            let ghost before = kept@;
            kept.push(profiles[i].copy());
            proof {
                assert(profiles_view(kept@) =~= profiles_view(before).push(all[i as int]));
            }
        }
    }
    proof {
        assert(all.take(all.len() as int) =~= all);
    }
    kept
}

fn remove_id(profiles: &Vec<ConnectionProfile>, id: &str) -> (r: Vec<ConnectionProfile>)
    ensures
        profiles_view(r@) == without_id(profiles_view(profiles@), id@),
{
    let mut kept: Vec<ConnectionProfile> = Vec::new();
    let ghost all = profiles_view(profiles@);
    let ghost keep = |p: Profile| p.id != id@;
    proof {
        reveal(Seq::filter);
        assert(profiles_view(kept@) =~= all.take(0).filter(keep));
    }
    for i in 0..profiles.len()
        invariant
            all == profiles_view(profiles@),
            keep == (|p: Profile| p.id != id@),
            profiles_view(kept@) == all.take(i as int).filter(keep),
    {
        proof {
            lemma_filter_step(all, i as int, keep);
        }
        if !same(profiles[i].id.as_str(), id) {
            let ghost before = kept@;
            kept.push(profiles[i].copy());
            proof {
                assert(profiles_view(kept@) =~= profiles_view(before).push(all[i as int]));
            }
        }
    }
    proof {
        assert(all.take(all.len() as int) =~= all);
    }
    kept
}

/// A profile without its password.
pub open spec fn bare(p: Profile) -> Profile {
    Profile { password: None, ..p }
}

/// The profiles without their passwords.
pub open spec fn bared(profiles: Seq<Profile>) -> Seq<Profile> {
    Seq::new(profiles.len(), |i: int| bare(profiles[i]))
}

fn strip_passwords(profiles: &Vec<ConnectionProfile>) -> (r: Vec<ConnectionProfile>)
    ensures
        profiles_view(r@) == bared(profiles_view(profiles@)),
{
    let mut out: Vec<ConnectionProfile> = Vec::new();
    let ghost all = bared(profiles_view(profiles@));
    proof {
        assert(profiles_view(out@) =~= all.take(0));
    }
    for i in 0..profiles.len()
        invariant
            all == bared(profiles_view(profiles@)),
            profiles_view(out@) == all.take(i as int),
    {
        let ghost before = out@;
        let mut profile = profiles[i].copy();
        profile.password = None;
        proof {
            assert(profile@ == all[i as int]);
        }
        out.push(profile);
        proof {
            assert(profiles_view(out@) =~= profiles_view(before).push(all[i as int]));
            assert(all.take(i as int).push(all[i as int]) =~= all.take(i + 1));
        }
    }
    proof {
        assert(all.take(all.len() as int) =~= all);
    }
    out
}

/// The profile that a request leads to and the store that is to be saved: it
/// holds no password, whatever stood in the store before.
pub open spec fn saved(
    wish: Wish,
    key_exists: bool,
    read: Result<Seq<Profile>, Seq<char>>,
    millis: u128,
    now: i64,
) -> Result<(Profile, Seq<Profile>), Seq<char>> {
    match checked_kind(wish, key_exists) {
        Err(e) => Err(e),
        Ok(kind) => match read {
            Err(e) => Err(e),
            Ok(profiles) => {
                let existing = profile_named(profiles, trimmed(wish.name));
                match profile_for(wish, kind, existing, millis, now) {
                    Err(e) => Err(e),
                    Ok(p) => Ok((p, bared(without_name(profiles, p.name)).push(p))),
                }
            },
        },
    }
}

/// What stands in the store that was read, by its text.
pub open spec fn stored_view(read: Result<ProfileStore, String>) -> Result<
    Seq<Profile>,
    Seq<char>,
> {
    match stored(read) {
        Ok(profiles) => Ok(profiles_view(profiles)),
        Err(e) => Err(e),
    }
}

/// Saves a connection: gives the profile and the store that is to be written.
/// It replaces a profile of the same name. `key_exists` says whether the key
/// file is there, and the time is given in milliseconds and in seconds.
pub fn save_profile(
    request: &SaveProfileRequest,
    key_exists: bool,
    read: Result<ProfileStore, String>,
    millis: u128,
    now: i64,
) -> (r: Result<(ConnectionProfile, ProfileStore), String>)
    ensures
        match r {
            Ok((profile, store)) => saved(request@, key_exists, stored_view(read), millis, now)
                == Ok::<(Profile, Seq<Profile>), Seq<char>>(
                (profile@, profiles_view(store.profiles@)),
            ),
            Err(e) => saved(request@, key_exists, stored_view(read), millis, now) == Err::<
                (Profile, Seq<Profile>),
                Seq<char>,
            >(e@),
        },
{
    let kind = match check_request(request, key_exists) {
        Ok(kind) => kind,
        Err(e) => return Err(e),
    };
    let store = match load_store(read) {
        Ok(store) => store,
        Err(e) => return Err(e),
    };
    let existing = find_profile(&store.profiles, trim(request.name.as_str()));
    let profile = match make_profile(request, kind, &existing, millis, now) {
        Ok(profile) => profile,
        Err(e) => return Err(e),
    };
    let mut profiles = strip_passwords(
        &remove_name(&store.profiles, profile.name.as_str()),
    );
    let ghost kept = profiles@;
    profiles.push(profile.copy());
    proof {
        assert(profiles_view(profiles@) =~= profiles_view(kept).push(profile@));
    }
    Ok((profile, ProfileStore { profiles }))
}

/// Deletes a saved connection, and gives the store that is to be written,
/// which holds no password.
pub fn delete_profile(read: Result<ProfileStore, String>, id: &str) -> (r: Result<
    ProfileStore,
    String,
>)
    ensures
        match stored_view(read) {
            Err(e) => r matches Err(x) && x@ == e,
            Ok(profiles) => {
                let left = without_id(profiles, id@);
                if left.len() == profiles.len() {
                    r matches Err(x) && x@ == "连接配置不存在"@
                } else {
                    r matches Ok(store) && profiles_view(store.profiles@) == bared(left)
                }
            },
        },
{
    let store = match load_store(read) {
        Ok(store) => store,
        Err(e) => return Err(e),
    };
    let profiles = remove_id(&store.profiles, id);
    proof {
        assert(profiles_view(profiles@).len() == profiles@.len());
        assert(profiles_view(store.profiles@).len() == store.profiles@.len());
    }
    if profiles.len() == store.profiles.len() {
        return Err("连接配置不存在".to_owned());
    }
    Ok(ProfileStore { profiles: strip_passwords(&profiles) })
}

/// A store in which no profile holds a password.
pub open spec fn no_passwords(profiles: Seq<Profile>) -> bool {
    forall|i: int| 0 <= i < profiles.len() ==> (#[trigger] profiles[i]).password is None
}

/// A store in which no two profiles have the same name.
pub open spec fn names_differ(profiles: Seq<Profile>) -> bool {
    forall|i: int, j: int|
        0 <= i < j < profiles.len() ==> (#[trigger] profiles[i]).name != (
        #[trigger] profiles[j]).name
}

proof fn lemma_filtered(profiles: Seq<Profile>, keep: spec_fn(Profile) -> bool)
    ensures
        forall|i: int|
            0 <= i < profiles.filter(keep).len() ==> keep(#[trigger] profiles.filter(keep)[i]),
        forall|i: int|
            0 <= i < profiles.filter(keep).len() ==> profiles.contains(
                #[trigger] profiles.filter(keep)[i],
            ),
        names_differ(profiles) ==> names_differ(profiles.filter(keep)),
    decreases profiles.len(),
{
    reveal(Seq::filter);
    if profiles.len() > 0 {
        let front = profiles.drop_last();
        lemma_filtered(front, keep);
        let kept = front.filter(keep);
        assert forall|i: int| 0 <= i < kept.len() implies profiles.contains(
            #[trigger] kept[i],
        ) by {
            let k = choose|k: int| 0 <= k < front.len() && front[k] == kept[i];
            assert(profiles[k] == kept[i]);
        }
        if names_differ(profiles) {
            assert(names_differ(front)) by {
                assert forall|i: int, j: int| 0 <= i < j < front.len() implies (
                #[trigger] front[i]).name != (#[trigger] front[j]).name by {
                    assert(profiles[i].name != profiles[j].name);
                }
            }
            assert forall|i: int| 0 <= i < kept.len() implies (#[trigger] kept[i]).name
                != profiles.last().name by {
                let k = choose|k: int| 0 <= k < front.len() && front[k] == kept[i];
                assert(profiles[k].name != profiles[profiles.len() - 1].name);
            }
        }
    }
}

proof fn lemma_kept_names(profiles: Seq<Profile>, name: Seq<char>)
    ensures
        ({
            let kept = bared(without_name(profiles, name));
            &&& no_passwords(kept)
            &&& forall|i: int| 0 <= i < kept.len() ==> (#[trigger] kept[i]).name != name
            &&& names_differ(profiles) ==> names_differ(kept)
        }),
{
    let keep = |q: Profile| q.name != name;
    lemma_filtered(profiles, keep);
    let left = without_name(profiles, name);
    let kept = bared(left);
    assert forall|i: int| 0 <= i < kept.len() implies (#[trigger] kept[i]).name != name by {
        assert(keep(left[i]));
    }
    if names_differ(profiles) {
        assert forall|i: int, j: int| 0 <= i < j < kept.len() implies (#[trigger] kept[i]).name
            != (#[trigger] kept[j]).name by {
            assert(left[i].name != left[j].name);
        }
    }
}

/// Saving puts the profile last, as the only one of its name, and leaves no
/// password in the store; no name stands in it twice if none did before.
pub proof fn saving_keeps_the_store_clean(
    wish: Wish,
    key_exists: bool,
    profiles: Seq<Profile>,
    millis: u128,
    now: i64,
)
    requires
        saved(wish, key_exists, Ok(profiles), millis, now) is Ok,
    ensures
        ({
            let (p, after) = saved(wish, key_exists, Ok(profiles), millis, now)->Ok_0;
            &&& p.password is None
            &&& after.len() > 0 && after.last() == p
            &&& forall|i: int| 0 <= i < after.len() - 1 ==> (#[trigger] after[i]).name != p.name
            &&& no_passwords(after)
            &&& names_differ(profiles) ==> names_differ(after)
        }),
{
    let (p, after) = saved(wish, key_exists, Ok(profiles), millis, now)->Ok_0;
    lemma_kept_names(profiles, p.name);
}

/// A saved connection is found again by its name, and saving it once more
/// keeps its identity and the time it was made.
pub proof fn saved_profile_is_found(
    wish: Wish,
    key_exists: bool,
    profiles: Seq<Profile>,
    millis: u128,
    now: i64,
)
    requires
        saved(wish, key_exists, Ok(profiles), millis, now) is Ok,
    ensures
        ({
            let (p, after) = saved(wish, key_exists, Ok(profiles), millis, now)->Ok_0;
            &&& p.name == trimmed(wish.name)
            &&& profile_named(after, p.name) == Some(p)
            &&& match profile_named(profiles, p.name) {
                Some(before) => p.id == before.id && p.created_at == before.created_at,
                None => p.id == decimal(millis as nat) && p.created_at == now,
            }
        }),
{
    let (p, after) = saved(wish, key_exists, Ok(profiles), millis, now)->Ok_0;
    lemma_kept_names(profiles, p.name);
    lemma_found_last(after, p.name);
}

proof fn lemma_found_last(profiles: Seq<Profile>, name: Seq<char>)
    requires
        profiles.len() > 0,
        profiles.last().name == name,
        forall|i: int| 0 <= i < profiles.len() - 1 ==> (#[trigger] profiles[i]).name != name,
    ensures
        profile_named(profiles, name) == Some(profiles.last()),
    decreases profiles.len(),
{
    if profiles.len() > 1 {
        assert(profiles[0].name != name);
        let rest = profiles.drop_first();
        assert forall|i: int| 0 <= i < rest.len() - 1 implies (#[trigger] rest[i]).name
            != name by {
            assert(profiles[i + 1].name != name);
        }
        lemma_found_last(rest, name);
    }
}

/// Deleting takes out the profiles with that identity and no others, and the
/// passwords of all of them.
pub proof fn deleting_takes_out_one_identity(profiles: Seq<Profile>, id: Seq<char>)
    ensures
        forall|i: int|
            0 <= i < bared(without_id(profiles, id)).len() ==> (#[trigger] bared(
                without_id(profiles, id),
            )[i]).id != id,
        forall|p: Profile|
            profiles.contains(p) && p.id != id ==> bared(
                without_id(profiles, id),
            ).contains(#[trigger] bare(p)),
        no_passwords(bared(without_id(profiles, id))),
{
    let keep = |p: Profile| p.id != id;
    lemma_filtered(profiles, keep);
    let left = without_id(profiles, id);
    assert forall|i: int| 0 <= i < bared(left).len() implies (#[trigger] bared(left)[i]).id
        != id by {
        assert(keep(left[i]));
    }
    assert forall|p: Profile| profiles.contains(p) && p.id != id implies bared(left).contains(
        #[trigger] bare(p),
    ) by {
        profiles.filter_lemma(keep);
        let k = choose|k: int| 0 <= k < profiles.len() && profiles[k] == p;
        assert(keep(profiles[k]));
        assert(left.contains(profiles[k]));
        let m = choose|m: int| 0 <= m < left.len() && left[m] == p;
        assert(bared(left)[m] == bare(p));
    }
}

/// A connection can be saved exactly if it has a name, a host and a user, and is
/// a login by password, or a login by a key whose path is not blank and whose
/// file is there; its kind is the one that was asked for.
pub proof fn complete_requests_are_accepted(wish: Wish, key_exists: bool)
    ensures
        ({
            let named = trimmed(wish.name).len() > 0 && trimmed(wish.host).len() > 0 && trimmed(
                wish.username,
            ).len() > 0;
            let key_given = wish.key_path is Some && trimmed(wish.key_path.unwrap()).len() > 0;
            &&& checked_kind(wish, key_exists) == Ok::<AuthKind, Seq<char>>(AuthKind::Password)
                <==> named && wish.auth_type == "password"@
            &&& checked_kind(wish, key_exists) == Ok::<AuthKind, Seq<char>>(AuthKind::PrivateKey)
                <==> named && wish.auth_type == "key"@ && key_given && key_exists
            &&& trimmed(wish.name).len() == 0 ==> checked_kind(wish, key_exists) == Err::<
                AuthKind,
                Seq<char>,
            >("请填写连接名称"@)
            &&& trimmed(wish.name).len() > 0 && trimmed(wish.host).len() == 0 ==> checked_kind(
                wish,
                key_exists,
            ) == Err::<AuthKind, Seq<char>>("请填写主机"@)
            &&& named && wish.auth_type == "key"@ && key_given && !key_exists ==> checked_kind(
                wish,
                key_exists,
            ) == Err::<AuthKind, Seq<char>>(
                "私钥文件不存在: "@ + trimmed(wish.key_path.unwrap()),
            )
        }),
{
    reveal_strlit("password");
    reveal_strlit("key");
    assert("password"@.len() != "key"@.len());
}

/// A saved connection says what was entered: the name, the host and the user
/// without white space around them, the port, the kind of login, and the path of
/// the key where one was entered. It holds the passphrase that was entered, or
/// else the one that the profile of that name held; and never the password.
pub proof fn saved_profiles_say_what_was_entered(
    wish: Wish,
    key_exists: bool,
    profiles: Seq<Profile>,
    millis: u128,
    now: i64,
)
    requires
        saved(wish, key_exists, Ok(profiles), millis, now) is Ok,
    ensures
        ({
            let (p, after) = saved(wish, key_exists, Ok(profiles), millis, now)->Ok_0;
            let before = profile_named(profiles, trimmed(wish.name));
            let typed = wish.key_passphrase is Some && wish.key_passphrase.unwrap().len() > 0;
            let kept = before is Some && before.unwrap().key_passphrase is Some
                && before.unwrap().key_passphrase.unwrap().len() > 0;
            let key_given = wish.key_path is Some && trimmed(wish.key_path.unwrap()).len() > 0;
            &&& p.name == trimmed(wish.name)
            &&& p.host == trimmed(wish.host)
            &&& p.port == wish.port
            &&& p.username == trimmed(wish.username)
            &&& p.auth_kind is Password <==> wish.auth_type == "password"@
            &&& p.auth_kind is PrivateKey <==> wish.auth_type == "key"@
            &&& key_given ==> p.key_path == wish.key_path
            &&& !key_given ==> p.key_path is None
            &&& p.password is None
            &&& typed ==> p.key_passphrase == wish.key_passphrase
            &&& !typed && kept ==> p.key_passphrase == before.unwrap().key_passphrase
            &&& !typed && !kept ==> p.key_passphrase is None
        }),
{
    reveal_strlit("password");
    reveal_strlit("key");
    assert("password"@.len() != "key"@.len());
    complete_requests_are_accepted(wish, key_exists);
}

/// Saving is refused exactly where the request is not complete, where the store
/// cannot be read, or where a login by password comes without one and none is
/// known from the profile of that name.
pub proof fn saving_is_refused_for_a_reason(
    wish: Wish,
    key_exists: bool,
    read: Result<Seq<Profile>, Seq<char>>,
    millis: u128,
    now: i64,
)
    ensures
        ({
            let result = saved(wish, key_exists, read, millis, now);
            let before = profile_named(read->Ok_0, trimmed(wish.name));
            let typed = wish.password is Some && wish.password.unwrap().len() > 0;
            let known = before is Some && before.unwrap().password is Some
                && before.unwrap().password.unwrap().len() > 0;
            &&& result is Ok <==> {
                &&& checked_kind(wish, key_exists) is Ok
                &&& read is Ok
                &&& wish.auth_type == "password"@ ==> typed || known
            }
            &&& checked_kind(wish, key_exists) matches Err(e) ==> result == Err::<
                (Profile, Seq<Profile>),
                Seq<char>,
            >(e)
            &&& checked_kind(wish, key_exists) is Ok && read is Err ==> result is Err
                && result->Err_0 == read->Err_0
        }),
{
    reveal_strlit("password");
    reveal_strlit("key");
    assert("password"@.len() != "key"@.len());
}

/// A profile is one of those in the store, without its password, and not of the
/// given name.
pub open spec fn came_from(p: Profile, profiles: Seq<Profile>, name: Seq<char>) -> bool {
    exists|q: Profile| #[trigger]
        profiles.contains(q) && q.name != name && p == (Profile { password: None, ..q })
}

/// Saving leaves every profile of another name in the store as it was, but for
/// its password, and adds none but the one saved.
pub proof fn saving_leaves_other_profiles_alone(
    wish: Wish,
    key_exists: bool,
    profiles: Seq<Profile>,
    millis: u128,
    now: i64,
)
    requires
        saved(wish, key_exists, Ok(profiles), millis, now) is Ok,
    ensures
        ({
            let (p, after) = saved(wish, key_exists, Ok(profiles), millis, now)->Ok_0;
            &&& forall|q: Profile|
                #[trigger] profiles.contains(q) && q.name != p.name ==> after.contains(
                    (Profile { password: None, ..q }),
                )
            &&& forall|i: int|
                0 <= i < after.len() - 1 ==> came_from(#[trigger] after[i], profiles, p.name)
        }),
{
    let (p, after) = saved(wish, key_exists, Ok(profiles), millis, now)->Ok_0;
    let keep = |q: Profile| q.name != p.name;
    let left = without_name(profiles, p.name);
    lemma_filtered(profiles, keep);
    assert forall|q: Profile| #[trigger]
        profiles.contains(q) && q.name != p.name implies after.contains(
        (Profile { password: None, ..q }),
    ) by {
        profiles.filter_lemma(keep);
        let k = choose|k: int| 0 <= k < profiles.len() && profiles[k] == q;
        assert(keep(profiles[k]));
        assert(left.contains(profiles[k]));
        let m = choose|m: int| 0 <= m < left.len() && left[m] == q;
        assert(after[m] == bare(q));
    }
    assert forall|i: int| 0 <= i < after.len() - 1 implies came_from(
        #[trigger] after[i],
        profiles,
        p.name,
    ) by {
        let q = left[i];
        assert(keep(left[i]));
        assert(profiles.contains(left[i]));
        assert(after[i] == (Profile { password: None, ..q }));
    }
}

/// A profile that is looked for by its name is the first one of that name, and
/// none is found exactly if none has it.
pub proof fn found_profile_is_the_first(profiles: Seq<Profile>, name: Seq<char>)
    ensures
        match profile_named(profiles, name) {
            Some(p) => exists|i: int|
                0 <= i < profiles.len() && #[trigger] profiles[i] == p && p.name == name && forall|
                    j: int,
                |
                    0 <= j < i ==> (#[trigger] profiles[j]).name != name,
            None => forall|i: int|
                0 <= i < profiles.len() ==> (#[trigger] profiles[i]).name != name,
        },
    decreases profiles.len(),
{
    if profiles.len() > 0 && profiles[0].name != name {
        let rest = profiles.drop_first();
        found_profile_is_the_first(rest, name);
        match profile_named(profiles, name) {
            Some(p) => {
                let i = choose|i: int|
                    0 <= i < rest.len() && #[trigger] rest[i] == p && p.name == name && forall|
                        j: int,
                    |
                        0 <= j < i ==> (#[trigger] rest[j]).name != name;
                assert(profiles[i + 1] == p);
                assert forall|j: int| 0 <= j < i + 1 implies (#[trigger] profiles[j]).name
                    != name by {
                    if j > 0 {
                        assert(rest[j - 1] == profiles[j]);
                    }
                }
            },
            None => {
                assert forall|i: int| 0 <= i < profiles.len() implies (
                #[trigger] profiles[i]).name != name by {
                    if i > 0 {
                        assert(rest[i - 1] == profiles[i]);
                    }
                }
            },
        }
    } else if profiles.len() > 0 {
        assert(profiles[0].name == name);
    }
}

/// Profiles are listed completely, each once, the one made last in front; of two
/// made at the same time the one that stands first in the store.
pub proof fn profiles_are_listed_latest_first(
    profiles: Seq<ConnectionProfile>,
    list: Seq<ConnectionProfile>,
)
    requires
        sorted_from(profiles, list),
    ensures
        list.len() == profiles.len(),
        exists|from: Seq<int>|
            {
                &&& from.len() == list.len()
                &&& forall|i: int|
                    0 <= i < list.len() ==> 0 <= #[trigger] from[i] < profiles.len() && list[i]
                        == profiles[from[i]]
                &&& forall|i: int, j: int|
                    0 <= i < j < list.len() ==> {
                        &&& #[trigger] from[i] != #[trigger] from[j]
                        &&& list[i].created_at >= list[j].created_at
                        &&& list[i].created_at == list[j].created_at ==> from[i] < from[j]
                    }
            },
{
    let from = choose|from: Seq<int>| stable_order(profiles, list, from);
    assert forall|i: int, j: int| 0 <= i < j < list.len() implies {
        &&& #[trigger] from[i] != #[trigger] from[j]
        &&& list[i].created_at >= list[j].created_at
        &&& list[i].created_at == list[j].created_at ==> from[i] < from[j]
    } by {
        assert(list[i].precedes(list[j]));
        if list[i].created_at == list[j].created_at {
            assert(list[j].precedes(list[i]));
        }
    }
}

/// A store that is not there counts as empty; one that cannot be read for another
/// reason is an error, and that reason is told; one that was read is as it was
/// read.
pub proof fn missing_stores_are_empty(read: Result<ProfileStore, String>)
    ensures
        match read {
            Ok(store) => stored(read) == Ok::<Seq<ConnectionProfile>, Seq<char>>(store.profiles@),
            Err(e) => {
                &&& mentions(e@, "not found"@) ==> stored(read) is Ok && stored(read)->Ok_0.len()
                    == 0
                &&& !mentions(e@, "not found"@) ==> stored(read) == Err::<
                    Seq<ConnectionProfile>,
                    Seq<char>,
                >(e@)
            },
        },
{
}

/// `kept` are the profiles at the places `from`, in the order of the store.
pub open spec fn picked(profiles: Seq<Profile>, kept: Seq<Profile>, from: Seq<int>) -> bool {
    &&& from.len() == kept.len()
    &&& forall|i: int|
        0 <= i < from.len() ==> 0 <= #[trigger] from[i] < profiles.len() && kept[i]
            == profiles[from[i]]
    &&& forall|i: int, j: int| 0 <= i < j < from.len() ==> #[trigger] from[i] < #[trigger] from[j]
}

proof fn lemma_picked(profiles: Seq<Profile>, keep: spec_fn(Profile) -> bool) -> (from: Seq<int>)
    ensures
        picked(profiles, profiles.filter(keep), from),
    decreases profiles.len(),
{
    reveal(Seq::filter);
    if profiles.len() == 0 {
        Seq::empty()
    } else {
        let front = profiles.drop_last();
        let shorter = lemma_picked(front, keep);
        assert forall|i: int| 0 <= i < shorter.len() implies 0 <= #[trigger] shorter[i]
            < front.len() && profiles[shorter[i]] == front[shorter[i]] by {}
        if keep(profiles.last()) {
            shorter.push(profiles.len() - 1)
        } else {
            shorter
        }
    }
}

/// The profiles that saving and deleting leave in the store keep their order.
pub proof fn kept_profiles_keep_their_order(profiles: Seq<Profile>, text: Seq<char>)
    ensures
        exists|from: Seq<int>| picked(profiles, without_name(profiles, text), from),
        exists|from: Seq<int>| picked(profiles, without_id(profiles, text), from),
{
    let a = lemma_picked(profiles, |p: Profile| p.name != text);
    let b = lemma_picked(profiles, |p: Profile| p.id != text);
    assert(picked(profiles, without_name(profiles, text), a));
    assert(picked(profiles, without_id(profiles, text), b));
}

/// Nothing is left to delete exactly if no profile has the given identity.
pub proof fn deleting_needs_a_profile(profiles: Seq<Profile>, id: Seq<char>)
    ensures
        without_id(profiles, id).len() == profiles.len() <==> forall|i: int|
            0 <= i < profiles.len() ==> (#[trigger] profiles[i]).id != id,
    decreases profiles.len(),
{
    reveal(Seq::filter);
    let keep = |p: Profile| p.id != id;
    if profiles.len() > 0 {
        let front = profiles.drop_last();
        deleting_needs_a_profile(front, id);
        let from = lemma_picked(front, keep);
        lemma_increasing(from, front.len() as int);
        assert(profiles[profiles.len() - 1] == profiles.last());
        if without_id(profiles, id).len() == profiles.len() {
            assert forall|i: int| 0 <= i < profiles.len() implies (#[trigger] profiles[i]).id
                != id by {
                if i < front.len() {
                    assert(front[i].id != id);
                }
            }
        }
        if forall|i: int| 0 <= i < profiles.len() ==> (#[trigger] profiles[i]).id != id {
            assert forall|i: int| 0 <= i < front.len() implies (#[trigger] front[i]).id != id by {
                assert(profiles[i].id != id);
            }
        }
    }
}

proof fn lemma_increasing(from: Seq<int>, n: int)
    requires
        0 <= n,
        forall|i: int| 0 <= i < from.len() ==> 0 <= #[trigger] from[i] < n,
        forall|i: int, j: int|
            0 <= i < j < from.len() ==> #[trigger] from[i] < #[trigger] from[j],
    ensures
        from.len() <= n,
    decreases from.len(),
{
    if from.len() > 0 {
        let last = from.last();
        let shorter = from.drop_last();
        assert(0 <= from[from.len() - 1] < n);
        assert forall|i: int| 0 <= i < shorter.len() implies 0 <= #[trigger] shorter[i]
            < last by {
            assert(from[i] < from[from.len() - 1]);
        }
        lemma_increasing(shorter, last);
    }
}

/// What is said of a profile is said of its fields, each of them.
pub proof fn profiles_show_every_field(profile: ConnectionProfile)
    ensures
        profile@.id == profile.id@,
        profile@.name == profile.name@,
        profile@.host == profile.host@,
        profile@.port == profile.port,
        profile@.username == profile.username@,
        profile@.auth_kind == profile.auth_kind,
        profile@.key_path is Some <==> profile.key_path is Some,
        profile.key_path is Some ==> profile@.key_path.unwrap() == profile.key_path.unwrap()@,
        profile@.password is Some <==> profile.password is Some,
        profile.password is Some ==> profile@.password.unwrap() == profile.password.unwrap()@,
        profile@.key_passphrase is Some <==> profile.key_passphrase is Some,
        profile.key_passphrase is Some ==> profile@.key_passphrase.unwrap()
            == profile.key_passphrase.unwrap()@,
        profile@.created_at == profile.created_at,
{
}

/// What is said of a request to save is said of what was entered, field by
/// field.
pub proof fn wishes_show_every_field(request: SaveProfileRequest)
    ensures
        request@.name == request.name@,
        request@.host == request.host@,
        request@.port == request.port,
        request@.username == request.username@,
        request@.auth_type == request.auth_type@,
        request@.key_path is Some <==> request.key_path is Some,
        request.key_path is Some ==> request@.key_path.unwrap() == request.key_path.unwrap()@,
        request@.password is Some <==> request.password is Some,
        request.password is Some ==> request@.password.unwrap() == request.password.unwrap()@,
        request@.key_passphrase is Some <==> request.key_passphrase is Some,
        request.key_passphrase is Some ==> request@.key_passphrase.unwrap()
            == request.key_passphrase.unwrap()@,
{
}

/// The profile that `save_profile` hands out says what was entered, and is the
/// last one in the store that is to be written; that store holds no password.
pub proof fn profiles_are_saved_as_entered(
    request: SaveProfileRequest,
    key_exists: bool,
    read: Result<ProfileStore, String>,
    millis: u128,
    now: i64,
    made: Result<(ConnectionProfile, ProfileStore), String>,
)
    requires
        call_ensures(save_profile, (&request, key_exists, read, millis, now), made),
        made is Ok,
    ensures
        ({
            let (profile, store) = made->Ok_0;
            let passphrase = request.key_passphrase;
            &&& profile.name@ == trimmed(request.name@) && profile.name@.len() > 0
            &&& profile.host@ == trimmed(request.host@) && profile.host@.len() > 0
            &&& profile.port == request.port
            &&& profile.username@ == trimmed(request.username@) && profile.username@.len() > 0
            &&& profile.auth_kind is PrivateKey <==> request.auth_type@ == "key"@
            &&& profile.password is None
            &&& profile.key_path is Some ==> request.key_path is Some
                && profile.key_path.unwrap()@ == request.key_path.unwrap()@
            &&& passphrase is Some && passphrase.unwrap()@.len() > 0
                ==> profile.key_passphrase is Some && profile.key_passphrase.unwrap()@
                == passphrase.unwrap()@
            &&& store.profiles@.len() > 0 && store.profiles@.last()@ == profile@
            &&& forall|i: int|
                0 <= i < store.profiles@.len() ==> (#[trigger] store.profiles@[i]).password is None
        }),
{
    let (profile, store) = made->Ok_0;
    let profiles = stored_view(read)->Ok_0;
    saved_profiles_say_what_was_entered(request@, key_exists, profiles, millis, now);
    complete_requests_are_accepted(request@, key_exists);
    let listed = profiles_view(store.profiles@);
    assert(listed.last() == store.profiles@.last()@);
    assert forall|i: int| 0 <= i < store.profiles@.len() implies (
    #[trigger] store.profiles@[i]).password is None by {
        assert(listed[i] == store.profiles@[i]@);
        assert(listed[i].password is None);
    }
}

/// Deleting succeeds exactly if a profile with the given identity was read, and
/// then none with that identity is left.
pub proof fn deleted_profiles_are_gone(
    read: Result<ProfileStore, String>,
    id: &str,
    left: Result<ProfileStore, String>,
)
    requires
        call_ensures(delete_profile, (read, id), left),
    ensures
        left is Ok <==> read is Ok && exists|i: int|
            0 <= i < read->Ok_0.profiles@.len() && (#[trigger] read->Ok_0.profiles@[i]).id@ == id@,
        left is Ok ==> forall|i: int|
            0 <= i < left->Ok_0.profiles@.len() ==> (#[trigger] left->Ok_0.profiles@[i]).id@ != id@,
{
    match stored_view(read) {
        Ok(profiles) => {
            deleting_needs_a_profile(profiles, id@);
            if read is Ok {
                let before = read->Ok_0.profiles@;
                assert(profiles == profiles_view(before));
                assert forall|i: int| 0 <= i < before.len() implies (#[trigger] before[i]).id@
                    == profiles[i].id by {}
                assert forall|i: int| 0 <= i < profiles.len() implies (#[trigger] profiles[i]).id
                    == before[i].id@ by {}
            }
            if left is Ok {
                let after = left->Ok_0.profiles@;
                let rest = without_id(profiles, id@);
                let keep = |p: Profile| p.id != id@;
                lemma_filtered(profiles, keep);
                assert(profiles_view(after).len() == after.len());
                assert(profiles_view(after) == bared(rest));
                assert forall|i: int| 0 <= i < after.len() implies (#[trigger] after[i]).id@
                    != id@ by {
                    assert(profiles_view(after)[i] == after[i]@);
                    assert(bared(rest)[i].id == rest[i].id);
                    assert(keep(rest[i]));
                }
            }
        },
        Err(_) => {},
    }
}

} // verus!
