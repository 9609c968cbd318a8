//! Connecting to a server: the address, the order in which ways to
//! authenticate are tried, and what is reported.

use vstd::prelude::*;

use crate::number::{decimal, decimal_is_injective, decimal_text};
use crate::text::{begins, copy_opt, mentions, mentions_stand_inside, opt_view};

verus! {

/// How long a read from or a write to the socket may block.
pub const SSH_SOCKET_TIMEOUT_SECS: u64 = 90;

/// How long one operation of the session may take.
pub const SSH_OPERATION_TIMEOUT_MS: u32 = 30_000;

/// How often an idle session sends a sign of life.
pub const SSH_KEEPALIVE_INTERVAL_SECS: u32 = 30;

/// The credentials to authenticate with.
#[derive(Debug, Clone)]
pub enum AuthMethod {
    Password(String),
    PrivateKey { key_path: String, passphrase: Option<String> },
}

/// A server and the user to log in as.
#[derive(Debug, Clone)]
pub struct ConnectionConfig {
    pub host: String,
    pub port: u16,
    pub username: String,
    pub auth: AuthMethod,
}

/// Why a connection could not be made.
#[derive(Debug)]
pub enum ConnectError {
    Tcp(String),
    Handshake(String),
    Auth(String),
}

/// What credentials say.
pub enum Credentials {
    Password(Seq<char>),
    PrivateKey { key_path: Seq<char>, passphrase: Option<Seq<char>> },
}

impl View for AuthMethod {
    type V = Credentials;

    open spec fn view(&self) -> Credentials {
        match *self {
            AuthMethod::Password(p) => Credentials::Password(p@),
            AuthMethod::PrivateKey { key_path, passphrase } => Credentials::PrivateKey {
                key_path: key_path@,
                passphrase: opt_view(passphrase),
            },
        }
    }
}

/// What a connection request says.
pub struct Endpoint {
    pub host: Seq<char>,
    pub port: u16,
    pub username: Seq<char>,
    pub auth: Credentials,
}

impl View for ConnectionConfig {
    type V = Endpoint;

    open spec fn view(&self) -> Endpoint {
        Endpoint {
            host: self.host@,
            port: self.port,
            username: self.username@,
            auth: self.auth@,
        }
    }
}

/// What a connection error says.
pub enum ConnectFault {
    Tcp(Seq<char>),
    Handshake(Seq<char>),
    Auth(Seq<char>),
}

impl View for ConnectError {
    type V = ConnectFault;

    open spec fn view(&self) -> ConnectFault {
        match *self {
            ConnectError::Tcp(m) => ConnectFault::Tcp(m@),
            ConnectError::Handshake(m) => ConnectFault::Handshake(m@),
            ConnectError::Auth(m) => ConnectFault::Auth(m@),
        }
    }
}

/// The text of a connection error.
pub open spec fn connect_text(fault: ConnectFault) -> Seq<char> {
    match fault {
        ConnectFault::Tcp(m) => "TCP 连接失败: "@ + m,
        ConnectFault::Handshake(m) => "SSH 握手失败: "@ + m,
        ConnectFault::Auth(m) => "认证失败: "@ + m,
    }
}

impl ConnectError {
    /// A copy of the error.
    pub fn copy(&self) -> (r: Self)
        ensures
            r@ == self@,
    {
        match self {
            ConnectError::Tcp(m) => ConnectError::Tcp(m.clone()),
            ConnectError::Handshake(m) => ConnectError::Handshake(m.clone()),
            ConnectError::Auth(m) => ConnectError::Auth(m.clone()),
        }
    }

    /// The text shown to the user.
    pub fn message(&self) -> (r: String)
        ensures
            r@ == connect_text(self@),
    {
        match self {
            ConnectError::Tcp(m) => "TCP 连接失败: ".to_owned().concat(m.as_str()),
            ConnectError::Handshake(m) => "SSH 握手失败: ".to_owned().concat(m.as_str()),
            ConnectError::Auth(m) => "认证失败: ".to_owned().concat(m.as_str()),
        }
    }
}

/// The address of a server: host and port with a colon between them.
pub open spec fn address_text(host: Seq<char>, port: u16) -> Seq<char> {
    host + ":"@ + decimal(port as nat)
}

impl ConnectionConfig {
    /// The address to connect to.
    pub fn address(&self) -> (r: String)
        ensures
            r@ == address_text(self.host@, self.port),
    {
        let port = decimal_text(self.port as u128);
        self.host.clone().concat(":").concat(port.as_str())
    }
}

/// One way to authenticate.
pub enum AuthStep {
    Password(String),
    Agent,
    KeyFile { key_path: String, passphrase: Option<String> },
}

/// What a way to authenticate says.
pub enum Attempt {
    Password(Seq<char>),
    Agent,
    KeyFile { key_path: Seq<char>, passphrase: Option<Seq<char>> },
}

impl View for AuthStep {
    type V = Attempt;

    open spec fn view(&self) -> Attempt {
        match *self {
            AuthStep::Password(p) => Attempt::Password(p@),
            AuthStep::Agent => Attempt::Agent,
            AuthStep::KeyFile { key_path, passphrase } => Attempt::KeyFile {
                key_path: key_path@,
                passphrase: opt_view(passphrase),
            },
        }
    }
}

/// A passphrase that is there and not empty.
pub open spec fn real_passphrase(passphrase: Option<Seq<char>>) -> bool {
    passphrase is Some && passphrase.unwrap().len() > 0
}

/// Whether a passphrase was given.
pub fn has_passphrase(passphrase: &Option<String>) -> (r: bool)
    ensures
        r == real_passphrase(opt_view(*passphrase)),
{
    match passphrase {
        Some(p) => !p.as_str().is_empty(),
        None => false,
    }
}

/// The first way to authenticate: a key with a passphrase is read from its
/// file; without one the agent comes first, if it is running.
pub open spec fn first_attempt(auth: Credentials, agent_running: bool) -> Attempt {
    match auth {
        Credentials::Password(p) => Attempt::Password(p),
        Credentials::PrivateKey { key_path, passphrase } => if real_passphrase(passphrase) {
            Attempt::KeyFile { key_path, passphrase }
        } else if agent_running {
            Attempt::Agent
        } else {
            Attempt::KeyFile { key_path, passphrase: None }
        },
    }
}

/// Picks the first way to authenticate.
pub fn start_auth(auth: &AuthMethod, agent_running: bool) -> (r: AuthStep)
    ensures
        r@ == first_attempt(auth@, agent_running),
{
    match auth {
        AuthMethod::Password(p) => AuthStep::Password(p.clone()),
        AuthMethod::PrivateKey { key_path, passphrase } => {
            if has_passphrase(passphrase) {
                AuthStep::KeyFile {
                    key_path: key_path.clone(),
                    passphrase: copy_opt(passphrase),
                }
            } else if agent_running {
                AuthStep::Agent
            } else {
                AuthStep::KeyFile { key_path: key_path.clone(), passphrase: None }
            }
        },
    }
}

/// What follows an attempt to authenticate: nothing more, another attempt, or
/// an error. An agent that does not log the user in is followed by the key
/// file; any other attempt decides.
pub open spec fn after_attempt(
    auth: Credentials,
    attempt: Attempt,
    reply: Result<(), Seq<char>>,
    authenticated: bool,
) -> Result<Option<Attempt>, ConnectFault> {
    match (attempt, auth) {
        (Attempt::Agent, Credentials::PrivateKey { key_path, passphrase }) => {
            if reply is Ok && authenticated {
                Ok(None)
            } else {
                Ok(Some(Attempt::KeyFile { key_path, passphrase: None }))
            }
        },
        _ => match reply {
            Err(e) => Err(ConnectFault::Auth(e)),
            Ok(_) => if authenticated {
                Ok(None)
            } else {
                Err(ConnectFault::Auth("服务器拒绝了提供的凭据"@))
            },
        },
    }
}

/// Decides what follows an attempt to authenticate.
pub fn next_auth(
    auth: &AuthMethod,
    attempt: &AuthStep,
    reply: Result<(), String>,
    authenticated: bool,
) -> (r: Result<Option<AuthStep>, ConnectError>)
    ensures
        ({
            let said: Result<(), Seq<char>> = match reply {
                Ok(_) => Ok(()),
                Err(e) => Err(e@),
            };
            match r {
                Ok(None) => after_attempt(auth@, attempt@, said, authenticated) == Ok::<
                    Option<Attempt>,
                    ConnectFault,
                >(None),
                Ok(Some(step)) => after_attempt(auth@, attempt@, said, authenticated) == Ok::<
                    Option<Attempt>,
                    ConnectFault,
                >(Some(step@)),
                Err(e) => after_attempt(auth@, attempt@, said, authenticated) == Err::<
                    Option<Attempt>,
                    ConnectFault,
                >(e@),
            }
        }),
{
    match (attempt, auth) {
        (AuthStep::Agent, AuthMethod::PrivateKey { key_path, .. }) => {
            if reply.is_ok() && authenticated {
                Ok(None)
            } else {
                Ok(Some(AuthStep::KeyFile { key_path: key_path.clone(), passphrase: None }))
            }
        },
        _ => match reply {
            Err(e) => Err(ConnectError::Auth(e)),
            Ok(_) => if authenticated {
                Ok(None)
            } else {
                Err(ConnectError::Auth("服务器拒绝了提供的凭据".to_owned()))
            },
        },
    }
}

/// How far a trial connection got.
pub enum ConnectionTrial {
    ConnectFailed(ConnectError),
    SftpFailed(String),
    StatFailed(String),
    Passed,
}

/// Reports on a trial connection: that the handshake, the login and the SFTP
/// subsystem work, or what failed.
pub fn test_connection(config: &ConnectionConfig, trial: ConnectionTrial) -> (r: Result<
    String,
    ConnectError,
>)
    ensures
        match (trial, r) {
            (ConnectionTrial::ConnectFailed(e), Err(x)) => x@ == e@,
            (ConnectionTrial::SftpFailed(e), Err(x)) => x@ == ConnectFault::Handshake(
                "SFTP 子系统不可用: "@ + e@,
            ),
            (ConnectionTrial::StatFailed(e), Err(x)) => x@ == ConnectFault::Handshake(
                "SFTP 访问失败: "@ + e@,
            ),
            (ConnectionTrial::Passed, Ok(text)) => text@ == "连接成功："@ + config.username@
                + "@"@ + address_text(config.host@, config.port) + "，SFTP 可用"@,
            _ => false,
        },
{
    match trial {
        ConnectionTrial::ConnectFailed(e) => Err(e),
        ConnectionTrial::SftpFailed(e) => Err(
            ConnectError::Handshake("SFTP 子系统不可用: ".to_owned().concat(e.as_str())),
        ),
        ConnectionTrial::StatFailed(e) => Err(
            ConnectError::Handshake("SFTP 访问失败: ".to_owned().concat(e.as_str())),
        ),
        ConnectionTrial::Passed => {
            let address = config.address();
            Ok(
                "连接成功：".to_owned().concat(config.username.as_str()).concat("@").concat(
                    address.as_str(),
                ).concat("，SFTP 可用"),
            )
        },
    }
}

/// Authenticating takes at most two attempts, and only an agent is followed by
/// another one.
pub proof fn auth_takes_two_attempts_at_most(
    auth: Credentials,
    agent_running: bool,
    reply: Result<(), Seq<char>>,
    authenticated: bool,
)
    ensures
        after_attempt(auth, first_attempt(auth, agent_running), reply, authenticated) matches Ok(
            Some(second),
        ) ==> first_attempt(auth, agent_running) is Agent && second is KeyFile && forall|
            again: Result<(), Seq<char>>,
            accepted: bool,
        | #[trigger]
            after_attempt(auth, second, again, accepted) is Err || after_attempt(
                auth,
                second,
                again,
                accepted,
            ) == Ok::<Option<Attempt>, ConnectFault>(None),
{
}

/// Whatever was tried, a login succeeds only if the server says that the user
/// is authenticated.
pub proof fn login_needs_authentication(
    auth: Credentials,
    attempt: Attempt,
    reply: Result<(), Seq<char>>,
    authenticated: bool,
)
    ensures
        after_attempt(auth, attempt, reply, authenticated) == Ok::<Option<Attempt>, ConnectFault>(
            None,
        ) ==> authenticated && reply is Ok,
{
}

/// The first attempt to log in uses what was entered: a password exactly as it
/// is; a key from its own file with exactly its passphrase, where there is one.
/// Without a passphrase the agent is asked first, exactly where it is running,
/// and else the key is read from its file.
pub proof fn logins_start_with_what_was_entered(auth: Credentials, agent_running: bool)
    ensures
        match auth {
            Credentials::Password(password) => first_attempt(auth, agent_running)
                == Attempt::Password(password),
            Credentials::PrivateKey { key_path, passphrase } => {
                let locked = passphrase is Some && passphrase.unwrap().len() > 0;
                &&& locked ==> first_attempt(auth, agent_running) == (Attempt::KeyFile {
                    key_path,
                    passphrase,
                })
                &&& !locked && agent_running ==> first_attempt(auth, agent_running)
                    == Attempt::Agent
                &&& !locked && !agent_running ==> first_attempt(auth, agent_running) == (
                Attempt::KeyFile { key_path, passphrase: None })
            },
        },
{
}

/// A server that accepts an attempt ends the login. One that does not accept the
/// agent is shown the key from its file next; one that does not accept a
/// password or a key file ends it with an error, which says what the server
/// said.
pub proof fn logins_go_by_what_the_server_says(
    auth: Credentials,
    attempt: Attempt,
    reply: Result<(), Seq<char>>,
    authenticated: bool,
)
    ensures
        ({
            let after = after_attempt(auth, attempt, reply, authenticated);
            &&& reply is Ok && authenticated <==> after == Ok::<Option<Attempt>, ConnectFault>(None)
            &&& !(reply is Ok && authenticated) && attempt is Agent ==> (
            auth matches Credentials::PrivateKey { key_path, .. } ==> after == Ok::<
                Option<Attempt>,
                ConnectFault,
            >(Some(Attempt::KeyFile { key_path, passphrase: None })))
            &&& !(attempt is Agent) ==> {
                &&& reply matches Err(e) ==> after == Err::<Option<Attempt>, ConnectFault>(
                    ConnectFault::Auth(e),
                )
                &&& reply is Ok && !authenticated ==> after is Err && after->Err_0 is Auth
            }
        }),
{
}

/// An address is the host, a colon, and the port in decimal: another port or
/// another host gives another address.
pub proof fn addresses_name_host_and_port(
    host: Seq<char>,
    port: u16,
    other: Seq<char>,
    other_port: u16,
)
    ensures
        begins(address_text(host, port), host + seq![':']),
        address_text(host, port).skip(host.len() as int + 1) == decimal(port as nat),
        address_text(host, port) == address_text(host, other_port) ==> port == other_port,
        address_text(host, port) == address_text(other, port) ==> host == other,
{
    reveal_strlit(":");
    let n = host.len() as int;
    let text = address_text(host, port);
    assert(text.subrange(0, n + 1) =~= host + seq![':']);
    assert(text.skip(n + 1) =~= decimal(port as nat));
    let same_host = address_text(host, other_port);
    assert(same_host.skip(n + 1) =~= decimal(other_port as nat));
    if text == same_host {
        decimal_is_injective(port as nat, other_port as nat);
    }
    let same_port = address_text(other, port);
    if text == same_port {
        assert(text.len() == same_port.len());
        assert(host =~= text.take(n));
        assert(other =~= same_port.take(n));
    }
}

/// The text of a connection error ends in what was reported, behind words that
/// tell the three kinds apart.
pub proof fn connection_errors_say_what_was_reported(m: Seq<char>)
    ensures
        connect_text(ConnectFault::Tcp(m)) == "TCP 连接失败: "@ + m,
        connect_text(ConnectFault::Handshake(m)) == "SSH 握手失败: "@ + m,
        connect_text(ConnectFault::Auth(m)) == "认证失败: "@ + m,
{
}

/// What is said of a connection is said of its fields, each of them.
pub proof fn connections_show_every_field(config: ConnectionConfig)
    ensures
        config@.host == config.host@,
        config@.port == config.port,
        config@.username == config.username@,
        config@.auth == config.auth@,
{
}

/// A trial connection is reported as passed exactly if it passed, and then names
/// the user and the host; a trial that failed is told as what was reported, or
/// ends in that.
pub proof fn trials_are_reported_as_they_went(
    config: ConnectionConfig,
    trial: ConnectionTrial,
    told: Result<String, ConnectError>,
)
    requires
        call_ensures(test_connection, (&config, trial), told),
    ensures
        told is Ok <==> trial is Passed,
        told matches Ok(text) ==> mentions(text@, config.username@) && mentions(
            text@,
            address_text(config.host@, config.port),
        ),
        trial matches ConnectionTrial::ConnectFailed(e) ==> told->Err_0@ == e@,
        trial matches ConnectionTrial::SftpFailed(e) ==> told->Err_0@ is Handshake && mentions(
            told->Err_0@->Handshake_0,
            e@,
        ),
        trial matches ConnectionTrial::StatFailed(e) ==> told->Err_0@ is Handshake && mentions(
            told->Err_0@->Handshake_0,
            e@,
        ),
{
    let nothing = Seq::<char>::empty();
    match trial {
        ConnectionTrial::SftpFailed(e) => {
            let text = "SFTP 子系统不可用: "@ + e@;
            mentions_stand_inside("SFTP 子系统不可用: "@ + e@ + nothing, e@);
            assert(text =~= text + nothing);
        },
        ConnectionTrial::StatFailed(e) => {
            let text = "SFTP 访问失败: "@ + e@;
            mentions_stand_inside("SFTP 访问失败: "@ + e@ + nothing, e@);
            assert(text =~= text + nothing);
        },
        ConnectionTrial::Passed => {
            let user = config.username@;
            let address = address_text(config.host@, config.port);
            let text = "连接成功："@ + user + "@"@ + address + "，SFTP 可用"@;
            let rest = "@"@ + address + "，SFTP 可用"@;
            assert(text =~= "连接成功："@ + user + rest);
            mentions_stand_inside("连接成功："@ + user + rest, user);
            mentions_stand_inside(text, address);
        },
        _ => {},
    }
}

} // verus!
