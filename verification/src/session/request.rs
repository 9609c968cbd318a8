//! Requests as the user makes them.

use vstd::prelude::*;

use crate::checkpoint::AuthKind;
use crate::sftp::browse::{
    browse_start, create_remote_directory, dir_name, list_remote_directory, Browse, BrowseAction,
};
use crate::sftp::client::{AuthMethod, ConnectionConfig, Credentials, Endpoint};
use crate::text::{
    begins, copy_nonempty, nonempty, opt_view, same, starts_with, taking_off_is_exact, trim,
    trim_end_of, trimmed, without_trailing,
};

verus! {

/// A server and the means to log in, as the user enters them.
#[derive(Debug)]
pub struct ConnectionRequest {
    pub host: String,
    pub port: u16,
    pub username: String,
    pub auth_type: String,
    pub password: Option<String>,
    pub key_path: Option<String>,
    pub key_passphrase: Option<String>,
}

/// What the user has entered.
pub struct Login {
    pub host: Seq<char>,
    pub port: u16,
    pub username: Seq<char>,
    pub auth_type: Seq<char>,
    pub password: Option<Seq<char>>,
    pub key_path: Option<Seq<char>>,
    pub key_passphrase: Option<Seq<char>>,
}

impl View for ConnectionRequest {
    type V = Login;

    open spec fn view(&self) -> Login {
        Login {
            host: self.host@,
            port: self.port,
            username: self.username@,
            auth_type: self.auth_type@,
            password: opt_view(self.password),
            key_path: opt_view(self.key_path),
            key_passphrase: opt_view(self.key_passphrase),
        }
    }
}

/// The credentials that a request gives.
pub open spec fn auth_of(login: Login) -> Result<Credentials, Seq<char>> {
    if login.auth_type == "password"@ {
        match nonempty(login.password) {
            Some(password) => Ok(Credentials::Password(password)),
            None => Err("请填写密码"@),
        }
    } else if login.auth_type == "key"@ {
        match nonempty(login.key_path) {
            Some(key_path) => Ok(
                Credentials::PrivateKey { key_path, passphrase: nonempty(login.key_passphrase) },
            ),
            None => Err("请选择私钥文件"@),
        }
    } else {
        Err("未知认证方式"@)
    }
}

/// Takes the credentials out of a request.
pub fn build_auth(request: &ConnectionRequest) -> (r: Result<AuthMethod, String>)
    ensures
        match r {
            Ok(auth) => auth_of(request@) == Ok::<Credentials, Seq<char>>(auth@),
            Err(e) => auth_of(request@) == Err::<Credentials, Seq<char>>(e@),
        },
{
    if same(request.auth_type.as_str(), "password") {
        return match copy_nonempty(&request.password) {
            Some(password) => Ok(AuthMethod::Password(password)),
            None => Err("请填写密码".to_owned()),
        };
    }
    if same(request.auth_type.as_str(), "key") {
        return match copy_nonempty(&request.key_path) {
            Some(key_path) => Ok(
                AuthMethod::PrivateKey {
                    key_path,
                    passphrase: copy_nonempty(&request.key_passphrase),
                },
            ),
            None => Err("请选择私钥文件".to_owned()),
        };
    }
    Err("未知认证方式".to_owned())
}

/// The server and the credentials that a request gives.
pub open spec fn endpoint_of(login: Login) -> Result<Endpoint, Seq<char>> {
    match auth_of(login) {
        Ok(auth) => Ok(
            Endpoint { host: login.host, port: login.port, username: login.username, auth },
        ),
        Err(e) => Err(e),
    }
}

/// The outcome of reading a request, by its text.
pub open spec fn config_view(r: Result<ConnectionConfig, String>) -> Result<
    Endpoint,
    Seq<char>,
> {
    match r {
        Ok(config) => Ok(config@),
        Err(e) => Err(e@),
    }
}

/// Takes the server and the credentials out of a request.
pub fn build_connection_config(request: &ConnectionRequest) -> (r: Result<
    ConnectionConfig,
    String,
>)
    ensures
        config_view(r) == endpoint_of(request@),
{
    match build_auth(request) {
        Ok(auth) => Ok(
            ConnectionConfig {
                host: request.host.clone(),
                port: request.port,
                username: request.username.clone(),
                auth,
            },
        ),
        Err(e) => Err(e),
    }
}

/// The kind of a login.
pub open spec fn kind_of(auth: Credentials) -> AuthKind {
    match auth {
        Credentials::Password(_) => AuthKind::Password,
        Credentials::PrivateKey { .. } => AuthKind::PrivateKey,
    }
}

/// The kind of a login.
pub fn auth_kind(auth: &AuthMethod) -> (r: AuthKind)
    ensures
        r == kind_of(auth@),
{
    match auth {
        AuthMethod::Password(_) => AuthKind::Password,
        AuthMethod::PrivateKey { .. } => AuthKind::PrivateKey,
    }
}

/// What a request for a trial connection leads to.
pub open spec fn trial_of(login: Login) -> Result<Endpoint, Seq<char>> {
    if trimmed(login.host).len() == 0 {
        Err("请填写主机"@)
    } else if trimmed(login.username).len() == 0 {
        Err("请填写用户名"@)
    } else {
        endpoint_of(login)
    }
}

/// Checks a request for a trial connection.
pub fn check_connection_request(request: &ConnectionRequest) -> (r: Result<
    ConnectionConfig,
    String,
>)
    ensures
        config_view(r) == trial_of(request@),
{
    if trim(request.host.as_str()).is_empty() {
        return Err("请填写主机".to_owned());
    }
    if trim(request.username.as_str()).is_empty() {
        return Err("请填写用户名".to_owned());
    }
    build_connection_config(request)
}

/// A request to list a remote directory.
#[derive(Debug)]
pub struct ListRemoteDirRequest {
    pub connection: ConnectionRequest,
    pub path: Option<String>,
}

/// Checks a request to list a remote directory, and starts browsing.
pub fn list_remote_dir(request: &ListRemoteDirRequest) -> (r: Result<
    (ConnectionConfig, Browse, BrowseAction),
    String,
>)
    ensures
        match trial_of(request.connection@) {
            Err(e) => r matches Err(x) && x@ == e,
            Ok(endpoint) => r matches Ok((config, browse, action)) && config@ == endpoint && (
                browse@,
                action@,
            ) == browse_start(
                match request.path {
                    Some(path) => path@,
                    None => Seq::empty(),
                },
                None,
            ) && browse.wf(),
        },
{
    match check_connection_request(&request.connection) {
        Err(e) => Err(e),
        Ok(config) => {
            let (browse, action) = match &request.path {
                Some(path) => list_remote_directory(Some(path.as_str())),
                None => list_remote_directory(None),
            };
            Ok((config, browse, action))
        },
    }
}

/// A request to create a remote directory.
#[derive(Debug)]
pub struct CreateRemoteDirRequest {
    pub connection: ConnectionRequest,
    pub parent_path: String,
    pub dir_name: String,
}

/// What keeps a request to create a directory from being carried out.
pub open spec fn create_dir_refusal(
    login: Login,
    parent_path: Seq<char>,
    name: Seq<char>,
) -> Option<Seq<char>> {
    if trimmed(login.host).len() == 0 {
        Some("请填写主机"@)
    } else if trimmed(parent_path).len() == 0 {
        Some("请先进入要创建目录的父路径"@)
    } else {
        match (endpoint_of(login), dir_name(name)) {
            (Err(e), _) => Some(e),
            (Ok(_), Err(e)) => Some(e),
            (Ok(_), Ok(_)) => None,
        }
    }
}

/// Checks a request to create a remote directory, and starts to create it.
pub fn create_remote_dir(request: &CreateRemoteDirRequest) -> (r: Result<
    (ConnectionConfig, Browse, BrowseAction),
    String,
>)
    ensures
        match create_dir_refusal(request.connection@, request.parent_path@, request.dir_name@) {
            Some(e) => r matches Err(x) && x@ == e,
            None => r matches Ok((config, browse, action)) && endpoint_of(request.connection@)
                == Ok::<Endpoint, Seq<char>>(config@) && (browse@, action@) == browse_start(
                request.parent_path@,
                Some(dir_name(request.dir_name@)->Ok_0),
            ) && browse.wf(),
        },
{
    if trim(request.connection.host.as_str()).is_empty() {
        return Err("请填写主机".to_owned());
    }
    if trim(request.parent_path.as_str()).is_empty() {
        return Err("请先进入要创建目录的父路径".to_owned());
    }
    let config = match build_connection_config(&request.connection) {
        Ok(config) => config,
        Err(e) => return Err(e),
    };
    match create_remote_directory(request.parent_path.as_str(), request.dir_name.as_str()) {
        Ok((browse, action)) => Ok((config, browse, action)),
        Err(e) => Err(e),
    }
}

/// A request to move a file. The two paths are as the user enters them.
#[derive(Debug)]
pub struct TransferRequest {
    pub connection: ConnectionRequest,
    pub local_path: String,
    pub remote_path: String,
    pub strict_chunk_verify: Option<bool>,
    pub force_overwrite: Option<bool>,
}

/// What a request to move a file says.
pub struct Order {
    pub login: Login,
    pub local: Seq<char>,
    pub remote: Seq<char>,
    pub strict: Option<bool>,
    pub force: Option<bool>,
}

impl View for TransferRequest {
    type V = Order;

    open spec fn view(&self) -> Order {
        Order {
            login: self.connection@,
            local: self.local_path@,
            remote: self.remote_path@,
            strict: self.strict_chunk_verify,
            force: self.force_overwrite,
        }
    }
}

/// The remote path of a checkpoint belongs to what the user has entered: it is
/// the path that the entry stands for, the entry, or a file below it.
pub open spec fn remote_fits(saved: Seq<char>, resolved: Seq<char>, entered: Seq<char>) -> bool {
    let s = trimmed(saved);
    let base = without_trailing(trimmed(entered), '/', '/');
    ||| s == trimmed(resolved)
    ||| s == trimmed(entered)
    ||| s == base
    ||| begins(s, base + "/"@)
}

/// Whether the remote path of a checkpoint belongs to what the user has entered.
pub fn remote_paths_compatible(
    checkpoint_remote: &str,
    resolved_remote: &str,
    user_remote: &str,
) -> (r: bool)
    ensures
        r == remote_fits(checkpoint_remote@, resolved_remote@, user_remote@),
{
    let s = trim(checkpoint_remote);
    let user = trim(user_remote);
    if same(s, trim(resolved_remote)) || same(s, user) {
        return true;
    }
    let base = trim_end_of(user, '/', '/');
    let below = base.to_owned().concat("/");
    same(s, base) || starts_with(s, below.as_str())
}

/// The local path of a checkpoint belongs to what the user has entered. Both
/// slashes separate.
pub open spec fn local_fits(saved: Seq<char>, resolved: Seq<char>, entered: Seq<char>) -> bool {
    let s = trimmed(saved);
    let base = without_trailing(trimmed(entered), '/', '\\');
    ||| s == trimmed(resolved)
    ||| s == trimmed(entered)
    ||| s == base
    ||| begins(s, base + "/"@)
    ||| begins(s, base + "\\"@)
}

/// Whether the local path of a checkpoint belongs to what the user has entered.
pub fn local_paths_compatible(
    checkpoint_local: &str,
    resolved_local: &str,
    user_local: &str,
) -> (r: bool)
    ensures
        r == local_fits(checkpoint_local@, resolved_local@, user_local@),
{
    let s = trim(checkpoint_local);
    let user = trim(user_local);
    if same(s, trim(resolved_local)) || same(s, user) {
        return true;
    }
    let base = trim_end_of(user, '/', '\\');
    let below = base.to_owned().concat("/");
    let below_back = base.to_owned().concat("\\");
    same(s, base) || starts_with(s, below.as_str()) || starts_with(s, below_back.as_str())
}

/// Whether closing the window has to be confirmed: a transfer is going on, and
/// the user has not confirmed yet.
pub fn should_block_app_close(
    confirmed: bool,
    upload_running: bool,
    download_running: bool,
) -> (r: bool)
    ensures
        r == (!confirmed && (upload_running || download_running)),
{
    if confirmed {
        return false;
    }
    upload_running || download_running
}

/// A path that a request was resolved to always belongs to that request.
pub proof fn own_paths_fit(resolved: Seq<char>, entered: Seq<char>)
    ensures
        remote_fits(resolved, resolved, entered),
        local_fits(resolved, resolved, entered),
{
}

/// The credentials are those that were entered: a login by password holds
/// exactly the password; a login by key holds exactly the path of the key and,
/// where a passphrase was entered, exactly the passphrase. A login without its
/// password or its key, and one of any other type, is refused.
pub proof fn credentials_are_those_entered(login: Login)
    ensures
        match auth_of(login) {
            Ok(Credentials::Password(password)) => login.auth_type == "password"@
                && login.password == Some(password) && password.len() > 0,
            Ok(Credentials::PrivateKey { key_path, passphrase }) => {
                &&& login.auth_type == "key"@
                &&& login.key_path == Some(key_path) && key_path.len() > 0
                &&& passphrase is Some ==> passphrase == login.key_passphrase
                    && passphrase.unwrap().len() > 0
                &&& passphrase is None ==> login.key_passphrase is None
                    || login.key_passphrase.unwrap().len() == 0
            },
            Err(e) => {
                &&& login.auth_type == "password"@ ==> login.password is None
                    || login.password.unwrap().len() == 0
                &&& login.auth_type == "key"@ ==> login.key_path is None
                    || login.key_path.unwrap().len() == 0
            },
        },
        auth_of(login) is Ok ==> login.auth_type == "password"@ || login.auth_type == "key"@,
{
    reveal_strlit("password");
    reveal_strlit("key");
    assert("password"@.len() != "key"@.len());
}

/// Each refusal of a login names what is missing: the password, the key, or a
/// known type.
pub proof fn refused_logins_are_told_why(login: Login)
    requires
        auth_of(login) is Err,
    ensures
        ({
            let e = auth_of(login)->Err_0;
            &&& login.auth_type == "password"@ ==> e == "请填写密码"@
            &&& login.auth_type == "key"@ ==> e == "请选择私钥文件"@
            &&& login.auth_type != "password"@ && login.auth_type != "key"@ ==> e
                == "未知认证方式"@
        }),
{
    reveal_strlit("password");
    reveal_strlit("key");
    assert("password"@.len() != "key"@.len());
}

/// A connection is made to the host and the port that were entered, as the user
/// that was entered, with the credentials that were entered.
pub proof fn connections_go_where_they_were_entered(login: Login)
    ensures
        endpoint_of(login) is Ok <==> auth_of(login) is Ok,
        endpoint_of(login) matches Ok(endpoint) ==> endpoint.host == login.host && endpoint.port
            == login.port && endpoint.username == login.username && auth_of(login) == Ok::<
            Credentials,
            Seq<char>,
        >(endpoint.auth),
        endpoint_of(login) matches Err(e) ==> auth_of(login) == Err::<Credentials, Seq<char>>(e),
{
}

/// A trial connection is refused exactly where the host or the user is blank, or
/// the login is refused; otherwise it goes to the server that was entered.
pub proof fn trials_need_a_host_and_a_user(login: Login)
    ensures
        trial_of(login) is Ok <==> trimmed(login.host).len() > 0 && trimmed(login.username).len()
            > 0 && auth_of(login) is Ok,
        trial_of(login) matches Ok(endpoint) ==> endpoint.host == login.host && endpoint.port
            == login.port && endpoint.username == login.username && auth_of(login) == Ok::<
            Credentials,
            Seq<char>,
        >(endpoint.auth),
        trimmed(login.host).len() == 0 ==> trial_of(login) == Err::<Endpoint, Seq<char>>(
            "请填写主机"@,
        ),
        trimmed(login.host).len() > 0 && trimmed(login.username).len() == 0 ==> trial_of(login)
            == Err::<Endpoint, Seq<char>>("请填写用户名"@),
{
}

/// A directory is created exactly where there is a host, a directory to create
/// it in, a login, and a name without slashes that stands for no other
/// directory.
pub proof fn directories_are_created_on_complete_requests(
    login: Login,
    parent_path: Seq<char>,
    name: Seq<char>,
)
    ensures
        create_dir_refusal(login, parent_path, name) is None <==> {
            &&& trimmed(login.host).len() > 0
            &&& trimmed(parent_path).len() > 0
            &&& auth_of(login) is Ok
            &&& trimmed(name).len() > 0
            &&& !trimmed(name).contains('/') && !trimmed(name).contains('\\')
            &&& trimmed(name) != "."@ && trimmed(name) != ".."@
        },
{
}

/// The kind that a checkpoint and a profile remember is that of the login.
pub proof fn kinds_follow_the_login(login: Login)
    requires
        auth_of(login) is Ok,
    ensures
        kind_of(auth_of(login)->Ok_0) is Password <==> login.auth_type == "password"@,
        kind_of(auth_of(login)->Ok_0) is PrivateKey <==> login.auth_type == "key"@,
{
    credentials_are_those_entered(login);
    reveal_strlit("password");
    reveal_strlit("key");
    assert("password"@.len() != "key"@.len());
}

/// `dir` is `base` with slashes behind it, and the path `s` is one of the two or
/// `base`, a slash, and `rest`.
pub open spec fn leads_to(
    dir: Seq<char>,
    s: Seq<char>,
    base: Seq<char>,
    slashes: Seq<char>,
    rest: Seq<char>,
) -> bool {
    &&& dir == base + slashes
    &&& forall|i: int| 0 <= i < slashes.len() ==> #[trigger] slashes[i] == '/'
    &&& s == base || s == dir || s == base + seq!['/'] + rest
}

/// A remote path `s` is the path `dir` or lies below it: slashes at the end of
/// `dir` do not count.
pub open spec fn at_or_below(s: Seq<char>, dir: Seq<char>) -> bool {
    exists|base: Seq<char>, slashes: Seq<char>, rest: Seq<char>| #[trigger]
        leads_to(dir, s, base, slashes, rest)
}

/// A saved remote path belongs to a request only if it is the path that the
/// request stands for, or the path entered, or lies below the path entered;
/// white space around any of them does not count. The path of another file that
/// merely begins with the same letters never belongs to it.
pub proof fn fitting_remote_paths_belong(
    saved: Seq<char>,
    resolved: Seq<char>,
    entered: Seq<char>,
)
    ensures
        remote_fits(saved, resolved, entered) <==> trimmed(saved) == trimmed(resolved)
            || at_or_below(trimmed(saved), trimmed(entered)),
{
    let s = trimmed(saved);
    let dir = trimmed(entered);
    let base = without_trailing(dir, '/', '/');
    reveal_strlit("/");
    assert("/"@ =~= seq!['/']);
    let slashes = taking_off_is_exact(dir, '/', '/');
    if remote_fits(saved, resolved, entered) && s != trimmed(resolved) {
        let rest = if begins(s, base + "/"@) {
            s.skip(base.len() as int + 1)
        } else {
            Seq::empty()
        };
        if begins(s, base + "/"@) {
            assert(s =~= s.subrange(0, (base + "/"@).len() as int) + rest);
            assert(s == base + seq!['/'] + rest);
        }
        assert(leads_to(dir, s, base, slashes, rest));
    }
    if at_or_below(s, dir) {
        let (b, sl, rest) = choose|b: Seq<char>, sl: Seq<char>, rest: Seq<char>| #[trigger]
            leads_to(dir, s, b, sl, rest);
        lemma_base_is_shortest(dir, b, sl);
        let n = base.len() as int;
        assert(dir.take(b.len() as int) =~= b);
        assert(dir.take(n) =~= base);
        if s == dir {
        } else if b.len() == n {
            assert(b =~= base);
            if s != b {
                assert(s.subrange(0, n + 1) =~= base + "/"@);
            }
        } else {
            assert(dir[n] == slashes[0]);
            if s == b {
                assert(s.subrange(0, n + 1) =~= base + "/"@);
            } else {
                assert(s[n] == dir[n]);
                assert(s.subrange(0, n + 1) =~= base + "/"@);
            }
        }
    }
}

proof fn lemma_base_is_shortest(dir: Seq<char>, b: Seq<char>, sl: Seq<char>)
    requires
        dir == b + sl,
        forall|i: int| 0 <= i < sl.len() ==> #[trigger] sl[i] == '/',
    ensures
        without_trailing(dir, '/', '/').len() <= b.len(),
    decreases sl.len(),
{
    if sl.len() > 0 {
        assert(dir.last() == sl[sl.len() - 1]);
        assert(dir.drop_last() =~= b + sl.drop_last());
        lemma_base_is_shortest(dir.drop_last(), b, sl.drop_last());
    } else {
        assert(dir =~= b);
        let tail = taking_off_is_exact(dir, '/', '/');
    }
}

/// A saved local path that belongs to a request is the path that the request
/// stands for, or the path entered, or lies below it; here the backslash
/// separates too. And each of these belongs to it.
pub proof fn fitting_local_paths_belong(
    saved: Seq<char>,
    resolved: Seq<char>,
    entered: Seq<char>,
)
    ensures
        ({
            let s = trimmed(saved);
            let entry = trimmed(entered);
            let base = without_trailing(entry, '/', '\\');
            local_fits(saved, resolved, entered) <==> {
                ||| s == trimmed(resolved)
                ||| s == entry
                ||| s == base
                ||| s.len() > base.len() && s.take(base.len() as int) == base && (s[base.len()
                    as int] == '/' || s[base.len() as int] == '\\')
            }
        }),
{
    let s = trimmed(saved);
    let base = without_trailing(trimmed(entered), '/', '\\');
    let n = base.len() as int;
    reveal_strlit("/");
    reveal_strlit("\\");
    if s.len() > n {
        assert(s.subrange(0, n + 1).take(n) =~= s.take(n));
        assert(s.subrange(0, n + 1)[n] == s[n]);
        if s.take(n) == base && s[n] == '/' {
            assert(s.subrange(0, n + 1) =~= base + "/"@);
        }
        if s.take(n) == base && s[n] == '\\' {
            assert(s.subrange(0, n + 1) =~= base + "\\"@);
        }
        assert((base + "/"@).take(n) =~= base);
        assert((base + "\\"@).take(n) =~= base);
        assert((base + "/"@)[n] == '/');
        assert((base + "\\"@)[n] == '\\');
    }
}

/// What is said of a login is said of what was entered, field by field.
pub proof fn logins_show_every_field(request: ConnectionRequest)
    ensures
        request@.host == request.host@,
        request@.port == request.port,
        request@.username == request.username@,
        request@.auth_type == request.auth_type@,
        request@.password is Some <==> request.password is Some,
        request.password is Some ==> request@.password.unwrap() == request.password.unwrap()@,
        request@.key_path is Some <==> request.key_path is Some,
        request.key_path is Some ==> request@.key_path.unwrap() == request.key_path.unwrap()@,
        request@.key_passphrase is Some <==> request.key_passphrase is Some,
        request.key_passphrase is Some ==> request@.key_passphrase.unwrap()
            == request.key_passphrase.unwrap()@,
{
}

/// What is said of an order is said of what was entered, field by field.
pub proof fn orders_show_every_field(request: TransferRequest)
    ensures
        request@.login == request.connection@,
        request@.local == request.local_path@,
        request@.remote == request.remote_path@,
        request@.strict == request.strict_chunk_verify,
        request@.force == request.force_overwrite,
{
}

/// Closing the window is held up exactly while a transfer runs that the user has
/// not agreed to break off.
pub proof fn closing_waits_for_running_transfers(
    confirmed: bool,
    upload_running: bool,
    download_running: bool,
    blocked: bool,
)
    requires
        call_ensures(
            should_block_app_close,
            (confirmed, upload_running, download_running),
            blocked,
        ),
    ensures
        confirmed ==> !blocked,
        !upload_running && !download_running ==> !blocked,
        !confirmed && upload_running ==> blocked,
        !confirmed && download_running ==> blocked,
{
}

/// What `build_auth` hands out is what was entered, letter for letter: the
/// password; or the path of the key, with the passphrase exactly where one was
/// entered.
pub proof fn built_credentials_are_those_entered(
    request: ConnectionRequest,
    built: Result<AuthMethod, String>,
)
    requires
        call_ensures(build_auth, (&request,), built),
    ensures
        match built {
            Ok(AuthMethod::Password(password)) => {
                &&& request.auth_type@ == "password"@
                &&& request.password matches Some(entered) && password@ == entered@
                &&& password@.len() > 0
            },
            Ok(AuthMethod::PrivateKey { key_path, passphrase }) => {
                &&& request.auth_type@ == "key"@
                &&& request.key_path matches Some(entered) && key_path@ == entered@
                &&& key_path@.len() > 0
                &&& passphrase is Some <==> request.key_passphrase is Some
                    && request.key_passphrase.unwrap()@.len() > 0
                &&& passphrase is Some ==> passphrase.unwrap()@ == request.key_passphrase.unwrap()@
            },
            Err(_) => {
                &&& request.auth_type@ == "password"@ ==> request.password is None
                    || request.password.unwrap()@.len() == 0
                &&& request.auth_type@ == "key"@ ==> request.key_path is None
                    || request.key_path.unwrap()@.len() == 0
            },
        },
{
    credentials_are_those_entered(request@);
    logins_show_every_field(request);
}

/// A connection that is built leads to the host and the port entered, as the user
/// entered.
pub proof fn built_connections_lead_where_they_were_entered(
    request: ConnectionRequest,
    built: Result<ConnectionConfig, String>,
)
    requires
        call_ensures(build_connection_config, (&request,), built),
    ensures
        built matches Ok(config) ==> config.host@ == request.host@ && config.port == request.port
            && config.username@ == request.username@ && auth_of(request@) == Ok::<
            Credentials,
            Seq<char>,
        >(config.auth@),
        built is Ok <==> auth_of(request@) is Ok,
{
    connections_go_where_they_were_entered(request@);
}

} // verus!
