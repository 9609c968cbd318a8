use resilissh::checkpoint::AuthKind;
use resilissh::profiles::{
    delete_profile, expand_key_path, list_profiles, non_empty, required_key_file, save_profile,
    ConnectionProfile, ProfileStore, SaveProfileRequest,
};
use resilissh::sftp::client::{
    has_passphrase, next_auth, start_auth, test_connection, AuthMethod, AuthStep, ConnectError,
    ConnectionConfig, ConnectionTrial,
};
use resilissh::ssh_config::{
    expand_path, list_ssh_hosts, parse_ssh_config, parse_ssh_config_at, resolve_host,
    ssh_config_path, ssh_config_path_in,
};

#[test]
fn parses_basic_host_block() {
    let content = r#"
Host myserver
    HostName 192.168.1.10
    User deploy
    Port 2222
    IdentityFile ~/.ssh/id_ed25519
"#;
    let hosts = parse_ssh_config(content);
    assert_eq!(hosts.len(), 1);
    assert_eq!(hosts[0].alias, "myserver");
    assert_eq!(hosts[0].hostname.as_deref(), Some("192.168.1.10"));
    assert_eq!(hosts[0].user.as_deref(), Some("deploy"));
    assert_eq!(hosts[0].port, Some(2222));
    assert!(hosts[0].identity_file.as_ref().unwrap().ends_with(".ssh/id_ed25519"));
}

#[test]
fn patterns_comments_and_odd_lines_in_a_configuration() {
    let content = "user nobody\nHOST *\n User all\nhost web-? # pattern\nhost a extra\r\n\
        Port 99999\n PORT 22 # fine\nIdentityFile ~/k\nunknown x\nUser\n# HostName no\nhost b";
    let home = Some("/h".to_string());
    let hosts = parse_ssh_config_at(content, &home);
    assert_eq!(hosts.len(), 2);
    assert_eq!(hosts[0].alias, "a");
    assert_eq!(hosts[0].port, Some(22));
    assert_eq!(hosts[0].user, None);
    assert_eq!(hosts[0].hostname, None);
    assert_eq!(hosts[0].identity_file.as_deref(), Some("/h/k"));
    assert_eq!(hosts[1].alias, "b");
    assert!(resolve_host(&hosts, "b").is_some());
    assert!(resolve_host(&hosts, "web-?").is_none());
    assert_eq!(parse_ssh_config_at("Host\n", &home)[0].alias, "");
    assert!(parse_ssh_config_at("", &home).is_empty());
}

#[test]
fn a_configuration_in_two_pieces() {
    let home = None;
    let names = |content: &str| -> Vec<String> {
        parse_ssh_config_at(content, &home).into_iter().map(|h| h.alias).collect()
    };
    let first = "Host a\n User x\nHost *";
    let second = "# more\n\nHost b\nPort 7";
    assert_eq!(names(&format!("{}\n{}", first, second)), vec!["a", "b"]);
    assert_eq!([names(first), names(second)].concat(), vec!["a", "b"]);
    let whole = parse_ssh_config_at(&format!("{}\n{}", first, second), &home);
    assert_eq!(whole[0].port, None);
    assert_eq!(whole[1].port, Some(7));
    assert_eq!(whole[1].user, None);
}

#[test]
fn hosts_are_listed_from_what_was_read() {
    assert!(list_ssh_hosts(None).unwrap().is_empty());
    assert_eq!(list_ssh_hosts(Some(Err("denied".into()))).unwrap_err(), "denied");
    assert_eq!(list_ssh_hosts(Some(Ok("Host x".into()))).unwrap()[0].alias, "x");
    assert_eq!(ssh_config_path_in(Some(b"/h".to_vec())).unwrap(), b"/h/.ssh/config");
    assert_eq!(ssh_config_path_in(Some(b"/\xff".to_vec())).unwrap(), b"/\xff/.ssh/config");
    assert_eq!(ssh_config_path_in(None).unwrap_err(), "无法定位用户主目录");
}

#[test]
fn the_home_directory_is_that_of_the_user() {
    match dirs::home_dir() {
        Some(home) => {
            let home = home.to_str().unwrap().to_string();
            assert_eq!(expand_path("~"), home);
            assert_eq!(expand_key_path("~"), home);
            let bytes = Some(home.into_bytes());
            assert_eq!(ssh_config_path().unwrap(), ssh_config_path_in(bytes).unwrap());
        }
        None => assert_eq!(expand_path("~"), "~"),
    }
}

fn config(auth: AuthMethod) -> ConnectionConfig {
    ConnectionConfig { host: "example.org".into(), port: 2222, username: "u".into(), auth }
}

#[test]
fn authentication_takes_its_steps_in_order() {
    let password = AuthMethod::Password("p".into());
    assert!(matches!(start_auth(&password, true), AuthStep::Password(p) if p == "p"));
    let key = AuthMethod::PrivateKey { key_path: "/k".into(), passphrase: None };
    assert!(matches!(start_auth(&key, true), AuthStep::Agent));
    assert!(matches!(start_auth(&key, false), AuthStep::KeyFile { passphrase: None, .. }));
    let locked = AuthMethod::PrivateKey { key_path: "/k".into(), passphrase: Some("s".into()) };
    assert!(
        matches!(start_auth(&locked, true), AuthStep::KeyFile { passphrase: Some(s), .. } if s == "s")
    );
    assert!(matches!(next_auth(&key, &AuthStep::Agent, Ok(()), true), Ok(None)));
    assert!(matches!(
        next_auth(&key, &AuthStep::Agent, Err("no".into()), false),
        Ok(Some(AuthStep::KeyFile { .. }))
    ));
    assert!(matches!(
        next_auth(&key, &AuthStep::Agent, Ok(()), false),
        Ok(Some(AuthStep::KeyFile { .. }))
    ));
    let file = AuthStep::KeyFile { key_path: "/k".into(), passphrase: None };
    let refused = next_auth(&key, &file, Ok(()), false);
    assert!(matches!(refused, Err(ConnectError::Auth(m)) if m == "服务器拒绝了提供的凭据"));
    let failed = next_auth(&key, &file, Err("bad key".into()), false);
    assert!(matches!(failed, Err(ConnectError::Auth(m)) if m == "bad key"));
    assert!(has_passphrase(&Some("x".into())));
    assert!(!has_passphrase(&Some(String::new())));
    assert!(!has_passphrase(&None));
}

#[test]
fn trial_connections_are_reported() {
    let c = config(AuthMethod::Password("p".into()));
    assert_eq!(c.address(), "example.org:2222");
    assert_eq!(
        test_connection(&c, ConnectionTrial::Passed).unwrap(),
        "连接成功：u@example.org:2222，SFTP 可用"
    );
    let e = test_connection(&c, ConnectionTrial::SftpFailed("x".into())).unwrap_err();
    assert_eq!(e.message(), "SSH 握手失败: SFTP 子系统不可用: x");
    let e = test_connection(&c, ConnectionTrial::StatFailed("y".into())).unwrap_err();
    assert_eq!(e.message(), "SSH 握手失败: SFTP 访问失败: y");
    let e = test_connection(&c, ConnectionTrial::ConnectFailed(ConnectError::Tcp("z".into())))
        .unwrap_err();
    assert_eq!(e.message(), "TCP 连接失败: z");
    assert_eq!(ConnectError::Auth("q".into()).message(), "认证失败: q");
}

fn wish(name: &str, kind: &str) -> SaveProfileRequest {
    SaveProfileRequest {
        name: name.into(),
        host: " h ".into(),
        port: 22,
        username: "u".into(),
        auth_type: kind.into(),
        key_path: Some("~/k".into()),
        password: Some("secret".into()),
        key_passphrase: Some("phrase".into()),
    }
}

fn profile(id: &str, name: &str, created_at: i64) -> ConnectionProfile {
    ConnectionProfile {
        id: id.into(),
        name: name.into(),
        host: "h".into(),
        port: 22,
        username: "u".into(),
        auth_kind: AuthKind::Password,
        key_path: None,
        password: None,
        key_passphrase: None,
        created_at,
    }
}

#[test]
fn a_saved_profile_holds_no_password() {
    let (saved, store) =
        save_profile(&wish(" n ", "password"), false, Err("file not found".into()), 7, 3).unwrap();
    assert_eq!(saved.name, "n");
    assert_eq!(saved.host, "h");
    assert_eq!(saved.id, "7");
    assert_eq!(saved.created_at, 3);
    assert_eq!(saved.password, None);
    assert_eq!(saved.key_passphrase.as_deref(), Some("phrase"));
    assert_eq!(saved.key_path.as_deref(), Some("~/k"));
    assert_eq!(store.profiles.len(), 1);
    assert_eq!(store.profiles[0].password, None);
}

#[test]
fn saving_again_replaces_the_profile_of_that_name() {
    let store = ProfileStore {
        profiles: vec![profile("1", "n", 10), profile("2", "m", 20), profile("3", "n", 30)],
    };
    let mut request = wish("n", "key");
    request.key_passphrase = None;
    let (saved, after) = save_profile(&request, true, Ok(store), 99, 99).unwrap();
    assert_eq!(saved.id, "1");
    assert_eq!(saved.created_at, 10);
    assert!(matches!(saved.auth_kind, AuthKind::PrivateKey));
    let names: Vec<&str> = after.profiles.iter().map(|p| p.name.as_str()).collect();
    assert_eq!(names, vec!["m", "n"]);
}

#[test]
fn passwords_in_an_older_store_are_not_written_back() {
    let store = || {
        let mut old = profile("1", "a", 1);
        old.password = Some("secret".into());
        Ok(ProfileStore { profiles: vec![old, profile("2", "b", 2)] })
    };
    let (_, after) = save_profile(&wish("c", "password"), false, store(), 9, 9).unwrap();
    assert_eq!(after.profiles.len(), 3);
    assert!(after.profiles.iter().all(|p| p.password.is_none()));
    let left = delete_profile(store(), "2").unwrap();
    assert_eq!(left.profiles.len(), 1);
    assert_eq!(left.profiles[0].name, "a");
    assert_eq!(left.profiles[0].password, None);
    let mut again = wish("a", "password");
    again.password = None;
    let (saved, after) = save_profile(&again, false, store(), 9, 9).unwrap();
    assert_eq!(saved.id, "1");
    assert!(after.profiles.iter().all(|p| p.password.is_none()));
}

#[test]
fn incomplete_profiles_are_refused() {
    let none = || Err("file not found".to_string());
    let refuse = |r: SaveProfileRequest, key: bool| save_profile(&r, key, none(), 1, 1).unwrap_err();
    assert_eq!(refuse(wish(" ", "password"), true), "请填写连接名称");
    let mut r = wish("n", "password");
    r.host = String::new();
    assert_eq!(refuse(r, true), "请填写主机");
    let mut r = wish("n", "password");
    r.username = "\t".into();
    assert_eq!(refuse(r, true), "请填写用户名");
    assert_eq!(refuse(wish("n", "token"), true), "未知认证方式");
    let mut r = wish("n", "key");
    r.key_path = Some(" ".into());
    assert_eq!(refuse(r, true), "私钥认证需要填写私钥路径");
    assert_eq!(refuse(wish("n", "key"), false), "私钥文件不存在: ~/k");
    let mut r = wish("n", "password");
    r.password = Some(String::new());
    assert_eq!(refuse(r, true), "密码登录保存时请填写密码");
    assert_eq!(save_profile(&wish("n", "key"), true, Err("broken".into()), 1, 1).unwrap_err(), "broken");
}

#[test]
fn the_key_file_to_look_for() {
    let mut r = wish("n", "key");
    r.key_path = Some(" /k ".into());
    assert_eq!(required_key_file(&r).as_deref(), Some("/k"));
    assert_eq!(required_key_file(&wish("n", "password")), None);
    r.key_path = None;
    assert_eq!(required_key_file(&r), None);
    assert_eq!(non_empty(Some(String::new())), None);
    assert_eq!(non_empty(Some("x".into())).as_deref(), Some("x"));
}

#[test]
fn profiles_are_listed_latest_first_and_deleted_by_identity() {
    let store = || {
        Ok(ProfileStore {
            profiles: vec![profile("1", "a", 1), profile("2", "b", 5), profile("3", "c", 5)],
        })
    };
    let ids: Vec<String> = list_profiles(store()).unwrap().into_iter().map(|p| p.id).collect();
    assert_eq!(ids, vec!["2", "3", "1"]);
    let left = delete_profile(store(), "2").unwrap();
    assert_eq!(left.profiles.len(), 2);
    assert_eq!(delete_profile(store(), "9").unwrap_err(), "连接配置不存在");
    assert_eq!(delete_profile(Err("io".into()), "9").unwrap_err(), "io");
    assert!(list_profiles(Err("file not found".into())).unwrap().is_empty());
    assert_eq!(list_profiles(Err("io".into())).unwrap_err(), "io");
}
