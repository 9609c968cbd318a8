//! The hosts that the user's SSH configuration file names.

use vstd::prelude::*;
use vstd::utf8::encode_utf8;

use crate::number::{parse_port, port_value};
use crate::path::{join_bytes, joined_bytes};
use crate::storage::{expand_home, home_dir, home_expanded, show_dir, shown};
use crate::text::{
    ascii_lower, ascii_white_space, chars_of, contains_char, copy_opt, find_char, is_white,
    opt_view, position, positions_are_first, same, string_of, texts, to_ascii_lowercase, trim,
    trim_start, trimmed, trimmed_end, trimmed_start, white,
};

verus! {

/// A host of the configuration file.
#[derive(Debug, Clone)]
pub struct SshHostEntry {
    pub alias: String,
    pub hostname: Option<String>,
    pub user: Option<String>,
    pub port: Option<u16>,
    pub identity_file: Option<String>,
}

/// What a host of the configuration file says.
pub struct Host {
    pub alias: Seq<char>,
    pub hostname: Option<Seq<char>>,
    pub user: Option<Seq<char>>,
    pub port: Option<u16>,
    pub identity_file: Option<Seq<char>>,
}

impl View for SshHostEntry {
    type V = Host;

    open spec fn view(&self) -> Host {
        Host {
            alias: self.alias@,
            hostname: opt_view(self.hostname),
            user: opt_view(self.user),
            port: self.port,
            identity_file: opt_view(self.identity_file),
        }
    }
}

impl SshHostEntry {
    /// A copy of the entry.
    pub fn copy(&self) -> (r: Self)
        ensures
            r@ == self@,
    {
        SshHostEntry {
            alias: self.alias.clone(),
            hostname: copy_opt(&self.hostname),
            user: copy_opt(&self.user),
            port: self.port,
            identity_file: copy_opt(&self.identity_file),
        }
    }
}

/// What a list of hosts says.
pub open spec fn hosts_view(hosts: Seq<SshHostEntry>) -> Seq<Host> {
    hosts.map_values(|h: SshHostEntry| h@)
}

/// The lines of a text.
pub open spec fn lines_of(s: Seq<char>) -> Seq<Seq<char>>
    decreases s.len(),
{
    if s.len() == 0 {
        Seq::empty()
    } else {
        let n = position(s, '\n');
        let rest = if 0 <= n < s.len() {
            s.skip(n + 1)
        } else {
            Seq::empty()
        };
        seq![s.take(n)] + lines_of(rest)
    }
}

/// A line without its comment and without white space on either side.
pub open spec fn statement(line: Seq<char>) -> Seq<char> {
    trimmed(line.take(position(line, '#')))
}

/// How many characters stand in front of the first white space.
pub open spec fn word_end(s: Seq<char>) -> int
    decreases s.len(),
{
    if s.len() == 0 || white(s[0]) {
        0
    } else {
        1 + word_end(s.drop_first())
    }
}

/// The first word of a text that does not start with white space.
pub open spec fn first_word(s: Seq<char>) -> Seq<char> {
    s.take(word_end(s))
}

/// What stands behind the first word.
pub open spec fn after_first_word(s: Seq<char>) -> Seq<char> {
    trimmed_start(s.skip(word_end(s)))
}

/// The keyword of a statement, in small letters.
pub open spec fn keyword(line: Seq<char>) -> Seq<char> {
    ascii_lower(first_word(statement(line)))
}

/// The first argument of a statement; empty if it has none.
pub open spec fn argument(line: Seq<char>) -> Seq<char> {
    first_word(after_first_word(statement(line)))
}

/// What has been read so far: the hosts that are complete, and the one that
/// the next statements belong to.
pub struct Reading {
    pub hosts: Seq<Host>,
    pub current: Option<Host>,
}

/// A name that stands for one host, not for a pattern.
pub open spec fn plain_alias(alias: Seq<char>) -> bool {
    !alias.contains('*') && !alias.contains('?')
}

/// The hosts with the current one among them, unless it is a pattern.
pub open spec fn flushed(st: Reading) -> Seq<Host> {
    match st.current {
        Some(host) => if plain_alias(host.alias) {
            st.hosts.push(host)
        } else {
            st.hosts
        },
        None => st.hosts,
    }
}

/// A host that nothing is known of but its name.
pub open spec fn bare_host(alias: Seq<char>) -> Host {
    Host { alias, hostname: None, user: None, port: None, identity_file: None }
}

/// The current host with what one of its statements says.
pub open spec fn with_setting(
    host: Host,
    key: Seq<char>,
    value: Seq<char>,
    home: Option<Seq<char>>,
) -> Host {
    if value.len() == 0 {
        host
    } else if key == "hostname"@ {
        Host { hostname: Some(value), ..host }
    } else if key == "user"@ {
        Host { user: Some(value), ..host }
    } else if key == "port"@ {
        match port_value(value) {
            Some(port) => Host { port: Some(port), ..host },
            None => host,
        }
    } else if key == "identityfile"@ {
        Host { identity_file: Some(home_expanded(value, home)), ..host }
    } else {
        host
    }
}

/// What one line adds.
pub open spec fn read_line(st: Reading, line: Seq<char>, home: Option<Seq<char>>) -> Reading {
    if statement(line).len() == 0 {
        st
    } else if keyword(line) == "host"@ {
        Reading {
            hosts: flushed(st),
            current: if argument(line) == "*"@ {
                None
            } else {
                Some(bare_host(argument(line)))
            },
        }
    } else {
        match st.current {
            Some(host) => Reading {
                current: Some(with_setting(host, keyword(line), argument(line), home)),
                ..st
            },
            None => st,
        }
    }
}

/// What a number of lines add up to.
pub open spec fn read_lines(lines: Seq<Seq<char>>, home: Option<Seq<char>>) -> Reading
    decreases lines.len(),
{
    if lines.len() == 0 {
        Reading { hosts: Seq::empty(), current: None }
    } else {
        read_line(read_lines(lines.drop_last(), home), lines.last(), home)
    }
}

/// The hosts that a configuration file names.
pub open spec fn hosts_in(content: Seq<char>, home: Option<Seq<char>>) -> Seq<Host> {
    flushed(read_lines(lines_of(content), home))
}

/// Splits a text into its lines.
fn split_lines(content: &str) -> (r: Vec<String>)
    ensures
        texts(r@) == lines_of(content@),
{
    let v = chars_of(content);
    let mut out: Vec<String> = Vec::new();
    let mut i: usize = 0;
    proof {
        assert(v@.skip(0) =~= v@);
        assert(texts(out@) =~= Seq::<Seq<char>>::empty());
        assert(texts(out@) + lines_of(v@.skip(0)) =~= lines_of(v@));
    }
    while i < v.len()
        invariant
            i <= v@.len(),
            texts(out@) + lines_of(v@.skip(i as int)) == lines_of(v@),
        decreases v@.len() - i,
    {
        let ghost rest = v@.skip(i as int);
        let mut j: usize = i;
        proof {
            assert(rest.skip(0) =~= rest);
        }
        while j < v.len() && v[j] != '\n'
            invariant
                i <= j <= v@.len(),
                rest == v@.skip(i as int),
                position(rest, '\n') == (j - i) + position(rest.skip(j - i), '\n'),
            decreases v@.len() - j,
        {
            proof {
                assert(rest.skip(j - i).drop_first() =~= rest.skip(j - i + 1));
            }
            j = j + 1;
        }
        let line = string_of(&v, i, j);
        let next: usize = if j < v.len() {
            j + 1
        } else {
            j
        };
        let ghost before = out@;
        out.push(line);
        proof {
            assert(position(rest, '\n') == j - i);
            assert(line@ =~= rest.take(j - i));
            let tail = if j < v@.len() {
                rest.skip(j - i + 1)
            } else {
                Seq::empty()
            };
            assert(tail =~= v@.skip(next as int));
            assert(lines_of(rest) == seq![line@] + lines_of(tail));
            assert(texts(out@) =~= texts(before) + seq![line@]);
            assert(texts(out@) + lines_of(tail) =~= texts(before) + (seq![line@] + lines_of(
                tail,
            )));
        }
        i = next;
    }
    proof {
        assert(v@.skip(i as int) =~= Seq::<char>::empty());
        assert(texts(out@) + lines_of(Seq::empty()) =~= texts(out@));
    }
    out
}

fn find_word_end(v: &Vec<char>) -> (r: usize)
    ensures
        r == word_end(v@),
        r <= v@.len(),
{
    let mut i: usize = 0;
    proof {
        assert(v@.skip(0) =~= v@);
    }
    while i < v.len() && !is_white(v[i])
        invariant
            i <= v@.len(),
            word_end(v@) == i + word_end(v@.skip(i as int)),
        decreases v@.len() - i,
    {
        proof {
            assert(v@.skip(i as int).drop_first() =~= v@.skip(i + 1));
        }
        i = i + 1;
    }
    i
}

fn word_of(s: &str) -> (r: String)
    ensures
        r@ == first_word(s@),
{
    let v = chars_of(s);
    let end = find_word_end(&v);
    proof {
        assert(v@.subrange(0, end as int) =~= s@.take(end as int));
    }
    string_of(&v, 0, end)
}

fn rest_of(s: &str) -> (r: String)
    ensures
        r@ == after_first_word(s@),
{
    let v = chars_of(s);
    let end = find_word_end(&v);
    let rest = string_of(&v, end, v.len());
    proof {
        assert(rest@ =~= s@.skip(end as int));
    }
    trim_start(rest.as_str()).to_owned()
}

fn statement_of(line: &str) -> (r: String)
    ensures
        r@ == statement(line@),
{
    let v = chars_of(line);
    let end = find_char(&v, '#');
    let code = string_of(&v, 0, end);
    proof {
        assert(code@ =~= line@.take(end as int));
    }
    trim(code.as_str()).to_owned()
}

fn flush(hosts: &mut Vec<SshHostEntry>, current: Option<SshHostEntry>)
    ensures
        hosts_view(final(hosts)@) == flushed(
            Reading {
                hosts: hosts_view(old(hosts)@),
                current: match current {
                    Some(host) => Some(host@),
                    None => None,
                },
            },
        ),
{
    match current {
        Some(host) => {
            if !contains_char(host.alias.as_str(), '*') && !contains_char(
                host.alias.as_str(),
                '?',
            ) {
                let ghost before = hosts@;
                hosts.push(host);
                proof {
                    assert(hosts_view(hosts@) =~= hosts_view(before).push(host@));
                }
            }
        },
        None => {},
    }
}

fn apply_setting(host: SshHostEntry, key: &str, value: &str, home: &Option<String>) -> (r:
    SshHostEntry)
    ensures
        r@ == with_setting(host@, key@, value@, opt_view(*home)),
{
    let mut changed = host;
    if value.is_empty() {
        return changed;
    }
    if same(key, "hostname") {
        changed.hostname = Some(value.to_owned());
    } else if same(key, "user") {
        changed.user = Some(value.to_owned());
    } else if same(key, "port") {
        match parse_port(value) {
            Some(port) => {
                changed.port = Some(port);
            },
            None => {},
        }
    } else if same(key, "identityfile") {
        changed.identity_file = Some(expand_home(value, home));
    }
    changed
}

/// Reads a configuration file, with the given home directory.
pub fn parse_ssh_config_at(content: &str, home: &Option<String>) -> (r: Vec<SshHostEntry>)
    ensures
        hosts_view(r@) == hosts_in(content@, opt_view(*home)),
{
    let lines = split_lines(content);
    let mut hosts: Vec<SshHostEntry> = Vec::new();
    let mut current: Option<SshHostEntry> = None;
    let ghost all = texts(lines@);
    let ghost at = opt_view(*home);
    proof {
        assert(hosts_view(hosts@) =~= Seq::<Host>::empty());
        assert(all.take(0) =~= Seq::<Seq<char>>::empty());
    }
    for i in 0..lines.len()
        invariant
            all == texts(lines@),
            at == opt_view(*home),
            read_lines(all.take(i as int), at) == (Reading {
                hosts: hosts_view(hosts@),
                current: match current {
                    Some(host) => Some(host@),
                    None => None,
                },
            }),
    {
        let line = lines[i].as_str();
        proof {
            assert(all.take(i + 1).drop_last() =~= all.take(i as int));
            assert(all.take(i + 1).last() == line@);
        }
        let code = statement_of(line);
        if !code.as_str().is_empty() {
            let head = word_of(code.as_str());
            let key = to_ascii_lowercase(head.as_str());
            let tail = rest_of(code.as_str());
            let value = word_of(tail.as_str());
            if same(key.as_str(), "host") {
                flush(&mut hosts, current);
                if same(value.as_str(), "*") {
                    current = None;
                } else {
                    current = Some(
                        SshHostEntry {
                            alias: value,
                            hostname: None,
                            user: None,
                            port: None,
                            identity_file: None,
                        },
                    );
                }
            } else {
                current = match current {
                    Some(host) => Some(apply_setting(host, key.as_str(), value.as_str(), home)),
                    None => None,
                };
            }
        }
    }
    proof {
        assert(all.take(lines@.len() as int) =~= all);
    }
    flush(&mut hosts, current);
    hosts
}

/// Reads a configuration file. Tildes stand for the user's home directory.
pub fn parse_ssh_config(content: &str) -> (r: Vec<SshHostEntry>)
    ensures
        exists|home: Option<Seq<u8>>|
            hosts_view(r@) == hosts_in(content@, #[trigger] shown(home)),
{
    let home = show_dir(home_dir());
    parse_ssh_config_at(content, &home)
}

/// Replaces a leading tilde by the user's home directory.
pub fn expand_path(path: &str) -> (r: String)
    ensures
        exists|home: Option<Seq<u8>>| r@ == home_expanded(path@, #[trigger] shown(home)),
{
    let home = show_dir(home_dir());
    expand_home(path, &home)
}

/// The configuration file below a home directory.
pub open spec fn config_file_under(home: Seq<u8>) -> Seq<u8> {
    joined_bytes(joined_bytes(home, encode_utf8(".ssh"@)), encode_utf8("config"@))
}

/// Where the configuration file is, below a home directory.
pub fn ssh_config_path_in(home: Option<Vec<u8>>) -> (r: Result<Vec<u8>, String>)
    ensures
        match home {
            Some(dir) => r matches Ok(path) && path@ == config_file_under(dir@),
            None => r matches Err(e) && e@ == "无法定位用户主目录"@,
        },
{
    match home {
        Some(dir) => Ok(join_bytes(join_bytes(dir, ".ssh"), "config")),
        None => Err("无法定位用户主目录".to_owned()),
    }
}

/// Where the user's configuration file is. It depends on the environment.
pub fn ssh_config_path() -> (r: Result<Vec<u8>, String>)
    ensures
        match r {
            Ok(path) => exists|home: Seq<u8>| path@ == #[trigger] config_file_under(home),
            Err(e) => e@ == "无法定位用户主目录"@,
        },
{
    ssh_config_path_in(home_dir())
}

/// Lists the hosts of the configuration file, given what reading it has led
/// to; without such a file there are none.
pub fn list_ssh_hosts(config: Option<Result<String, String>>) -> (r: Result<
    Vec<SshHostEntry>,
    String,
>)
    ensures
        match config {
            None => r matches Ok(hosts) && hosts@.len() == 0,
            Some(Err(e)) => r matches Err(x) && x@ == e@,
            Some(Ok(content)) => r matches Ok(hosts) && exists|home: Option<Seq<u8>>|
                hosts_view(hosts@) == hosts_in(content@, #[trigger] shown(home)),
        },
{
    match config {
        None => Ok(Vec::new()),
        Some(Err(e)) => Err(e),
        Some(Ok(content)) => Ok(parse_ssh_config(content.as_str())),
    }
}

/// The first host with a given name.
pub open spec fn host_named(hosts: Seq<Host>, alias: Seq<char>) -> Option<Host>
    decreases hosts.len(),
{
    if hosts.len() == 0 {
        None
    } else if hosts[0].alias == alias {
        Some(hosts[0])
    } else {
        host_named(hosts.drop_first(), alias)
    }
}

/// Finds a host by its name.
pub fn resolve_host(hosts: &Vec<SshHostEntry>, alias: &str) -> (r: Option<SshHostEntry>)
    ensures
        match r {
            Some(host) => host_named(hosts_view(hosts@), alias@) == Some(host@),
            None => host_named(hosts_view(hosts@), alias@) is None,
        },
{
    let ghost all = hosts_view(hosts@);
    let mut i: usize = 0;
    proof {
        assert(all.skip(0) =~= all);
    }
    while i < hosts.len()
        invariant
            i <= hosts@.len(),
            all == hosts_view(hosts@),
            host_named(all, alias@) == host_named(all.skip(i as int), alias@),
        decreases hosts@.len() - i,
    {
        proof {
            assert(all.skip(i as int)[0] == hosts@[i as int]@);
            assert(all.skip(i as int).drop_first() =~= all.skip(i + 1));
        }
        if same(hosts[i].alias.as_str(), alias) {
            return Some(hosts[i].copy());
        }
        i = i + 1;
    }
    proof {
        assert(all.skip(i as int).len() == 0);
    }
    None
}

/// No host that is listed is a pattern.
pub proof fn listed_hosts_are_plain(content: Seq<char>, home: Option<Seq<char>>, i: int)
    requires
        0 <= i < hosts_in(content, home).len(),
    ensures
        plain_alias(hosts_in(content, home)[i].alias),
{
    let st = read_lines(lines_of(content), home);
    if i < st.hosts.len() {
        lemma_read_hosts_are_plain(lines_of(content), home, i);
    }
}

proof fn lemma_read_hosts_are_plain(lines: Seq<Seq<char>>, home: Option<Seq<char>>, i: int)
    requires
        0 <= i < read_lines(lines, home).hosts.len(),
    ensures
        plain_alias(read_lines(lines, home).hosts[i].alias),
    decreases lines.len(),
{
    let before = read_lines(lines.drop_last(), home);
    if i < before.hosts.len() {
        lemma_read_hosts_are_plain(lines.drop_last(), home, i);
    }
}

/// A host that is found has the name that was asked for, and is in the list.
pub proof fn found_host_is_listed(hosts: Seq<Host>, alias: Seq<char>)
    ensures
        match host_named(hosts, alias) {
            Some(host) => host.alias == alias && hosts.contains(host),
            None => forall|i: int| 0 <= i < hosts.len() ==> (#[trigger] hosts[i]).alias != alias,
        },
    decreases hosts.len(),
{
    if hosts.len() > 0 && hosts[0].alias != alias {
        let rest = hosts.drop_first();
        found_host_is_listed(rest, alias);
        match host_named(hosts, alias) {
            Some(host) => {
                let k = choose|k: int| 0 <= k < rest.len() && rest[k] == host;
                assert(hosts[k + 1] == host);
            },
            None => {
                assert forall|i: int| 0 <= i < hosts.len() implies (#[trigger] hosts[i]).alias
                    != alias by {
                    if i > 0 {
                        assert(rest[i - 1] == hosts[i]);
                    }
                }
            },
        }
    }
}

/// A statement that starts a host.
pub open spec fn starts_host(line: Seq<char>) -> bool {
    statement(line).len() > 0 && keyword(line) == "host"@
}

/// Line `k` starts a host, and no statement stands in front of it.
pub open spec fn host_comes_first(lines: Seq<Seq<char>>, k: int) -> bool {
    &&& 0 <= k < lines.len()
    &&& starts_host(lines[k])
    &&& forall|j: int| 0 <= j < k ==> statement(#[trigger] lines[j]).len() == 0
}

/// A text whose first statement starts a host.
pub open spec fn opens_with_host(content: Seq<char>) -> bool {
    exists|k: int| #[trigger] host_comes_first(lines_of(content), k)
}

/// The hosts of a file that is put together from two pieces are those of the
/// first piece and then those of the second, if the second starts with a host:
/// no statement reaches across a `Host` line.
pub proof fn pieces_are_read_one_by_one(a: Seq<char>, b: Seq<char>, home: Option<Seq<char>>)
    requires
        opens_with_host(b),
    ensures
        hosts_in(a + "\n"@ + b, home) == hosts_in(a, home) + hosts_in(b, home),
{
    let k = choose|k: int| #[trigger] host_comes_first(lines_of(b), k);
    lemma_lines_of_pieces(a, b);
    lemma_all_lines(a);
    lemma_empty_lines(lines_of(a), seq![Seq::<char>::empty()], home);
    assert(lines_of(a) + seq![Seq::<char>::empty()] =~= lines_of(a).push(Seq::empty()));
    lemma_reading_pieces(all_lines(a), lines_of(b), k, home);
    let first = read_lines(lines_of(a), home);
    let second = read_lines(lines_of(b), home);
    assert(hosts_in(a + "\n"@ + b, home) =~= flushed(first) + flushed(second));
}

/// The lines of a text, the one behind the last line break counted even where
/// it is empty.
spec fn all_lines(s: Seq<char>) -> Seq<Seq<char>>
    decreases s.len(),
{
    let n = position(s, '\n');
    if 0 <= n < s.len() {
        seq![s.take(n)] + all_lines(s.skip(n + 1))
    } else {
        seq![s]
    }
}

proof fn lemma_all_lines(s: Seq<char>)
    ensures
        all_lines(s) == lines_of(s) || all_lines(s) == lines_of(s).push(Seq::empty()),
    decreases s.len(),
{
    let n = position(s, '\n');
    lemma_position_before(s, seq!['\n'], '\n');
    if n < s.len() {
        let rest = s.skip(n + 1);
        lemma_all_lines(rest);
        if all_lines(rest) == lines_of(rest) {
            assert(all_lines(s) == lines_of(s));
        } else {
            assert(all_lines(s) =~= lines_of(s).push(Seq::empty()));
        }
    } else if s.len() == 0 {
        assert(s =~= Seq::empty());
        assert(all_lines(s) =~= lines_of(s).push(Seq::empty()));
    } else {
        assert(s.take(n) =~= s);
        assert(lines_of(Seq::<char>::empty()).len() == 0);
        assert(all_lines(s) =~= lines_of(s));
    }
}

proof fn lemma_position_before(s: Seq<char>, t: Seq<char>, c: char)
    requires
        t.len() > 0,
        t[0] == c,
    ensures
        position(s + t, c) == position(s, c),
        0 <= position(s, c) <= s.len(),
    decreases s.len(),
{
    if s.len() > 0 {
        assert((s + t).drop_first() =~= s.drop_first() + t);
        lemma_position_before(s.drop_first(), t, c);
    } else {
        assert(s + t =~= t);
    }
}

proof fn lemma_lines_of_pieces(a: Seq<char>, b: Seq<char>)
    ensures
        lines_of(a + "\n"@ + b) == all_lines(a) + lines_of(b),
    decreases a.len(),
{
    reveal_strlit("\n");
    let s = a + "\n"@ + b;
    let n = position(a, '\n');
    assert(s =~= a + ("\n"@ + b));
    lemma_position_before(a, "\n"@ + b, '\n');
    if n < a.len() {
        let rest = a.skip(n + 1);
        assert(s.take(n) =~= a.take(n));
        assert(s.skip(n + 1) =~= rest + "\n"@ + b);
        lemma_lines_of_pieces(rest, b);
    } else {
        assert(s.take(n) =~= a);
        assert(s.skip(n + 1) =~= b);
    }
    assert(lines_of(s) =~= all_lines(a) + lines_of(b));
}

proof fn lemma_empty_lines(lines: Seq<Seq<char>>, blank: Seq<Seq<char>>, home: Option<Seq<char>>)
    requires
        forall|j: int| 0 <= j < blank.len() ==> statement(#[trigger] blank[j]).len() == 0,
    ensures
        read_lines(lines + blank, home) == read_lines(lines, home),
    decreases blank.len(),
{
    if blank.len() == 0 {
        assert(lines + blank =~= lines);
    } else {
        assert((lines + blank).drop_last() =~= lines + blank.drop_last());
        assert(statement(blank[blank.len() - 1]).len() == 0);
        lemma_empty_lines(lines, blank.drop_last(), home);
    }
}

proof fn lemma_reading_pieces(
    a: Seq<Seq<char>>,
    b: Seq<Seq<char>>,
    k: int,
    home: Option<Seq<char>>,
)
    requires
        host_comes_first(b, k),
    ensures
        ({
            let second = read_lines(b, home);
            read_lines(a + b, home) == (Reading {
                hosts: flushed(read_lines(a, home)) + second.hosts,
                current: second.current,
            })
        }),
    decreases b.len(),
{
    let front = b.drop_last();
    assert((a + b).drop_last() =~= a + front);
    assert((a + b).last() == b.last());
    let first = flushed(read_lines(a, home));
    if k == b.len() - 1 {
        lemma_empty_lines(a, front, home);
        lemma_empty_lines(Seq::empty(), front, home);
        assert(Seq::<Seq<char>>::empty() + front =~= front);
        assert(read_lines(b, home).hosts =~= Seq::<Host>::empty());
    } else {
        assert(host_comes_first(front, k));
        lemma_reading_pieces(a, front, k, home);
        let so_far = read_lines(front, home);
        assert(flushed(Reading { hosts: first + so_far.hosts, current: so_far.current }) =~= first
            + flushed(so_far));
    }
    assert(read_lines(a + b, home).hosts =~= first + read_lines(b, home).hosts);
}

/// A statement changes no setting of the current host but the one that its
/// keyword names, and sets that one to its argument. A statement without an
/// argument, and a port that is no number, change nothing.
pub proof fn settings_change_what_they_name(
    host: Host,
    key: Seq<char>,
    value: Seq<char>,
    home: Option<Seq<char>>,
)
    ensures
        ({
            let after = with_setting(host, key, value, home);
            &&& after.alias == host.alias
            &&& key != "hostname"@ || value.len() == 0 ==> after.hostname == host.hostname
            &&& key != "user"@ || value.len() == 0 ==> after.user == host.user
            &&& key != "port"@ || value.len() == 0 || port_value(value) is None ==> after.port
                == host.port
            &&& key != "identityfile"@ || value.len() == 0 ==> after.identity_file
                == host.identity_file
            &&& value.len() > 0 ==> {
                &&& key == "hostname"@ ==> after.hostname == Some(value)
                &&& key == "user"@ ==> after.user == Some(value)
                &&& key == "port"@ && port_value(value) is Some ==> after.port == port_value(value)
                &&& key == "identityfile"@ ==> after.identity_file == Some(
                    home_expanded(value, home),
                )
            }
        }),
{
    lemma_keywords_differ();
}

proof fn lemma_keywords_differ()
    ensures
        "hostname"@ != "user"@,
        "hostname"@ != "port"@,
        "hostname"@ != "identityfile"@,
        "user"@ != "port"@,
        "user"@ != "identityfile"@,
        "port"@ != "identityfile"@,
{
    reveal_strlit("hostname");
    reveal_strlit("user");
    reveal_strlit("port");
    reveal_strlit("identityfile");
    assert("user"@[0] == 'u' && "port"@[0] == 'p');
    assert("hostname"@.len() == 8 && "user"@.len() == 4 && "identityfile"@.len() == 12);
}

/// Statements with different keywords may stand in any order.
pub proof fn settings_do_not_depend_on_their_order(
    host: Host,
    key: Seq<char>,
    value: Seq<char>,
    other_key: Seq<char>,
    other_value: Seq<char>,
    home: Option<Seq<char>>,
)
    requires
        key != other_key,
    ensures
        with_setting(with_setting(host, key, value, home), other_key, other_value, home)
            == with_setting(with_setting(host, other_key, other_value, home), key, value, home),
{
    lemma_keywords_differ();
}

/// Of two lines that start no host the one may stand in front of the other or
/// behind it, if their keywords differ.
pub proof fn lines_do_not_depend_on_their_order(
    st: Reading,
    a: Seq<char>,
    b: Seq<char>,
    home: Option<Seq<char>>,
)
    requires
        !starts_host(a),
        !starts_host(b),
        keyword(a) != keyword(b),
    ensures
        read_line(read_line(st, a, home), b, home) == read_line(read_line(st, b, home), a, home),
{
    match st.current {
        Some(host) => {
            settings_do_not_depend_on_their_order(
                host,
                keyword(a),
                argument(a),
                keyword(b),
                argument(b),
                home,
            );
        },
        None => {},
    }
}

/// A line that says nothing changes nothing. A line that starts a host completes
/// the one before it, which is listed unless its name is a pattern, and starts
/// one of which only the name is known; the name `*` starts none. Any other line
/// touches nothing but the current host, and nothing at all where there is none.
pub proof fn lines_do_what_they_say(st: Reading, line: Seq<char>, home: Option<Seq<char>>)
    ensures
        ({
            let after = read_line(st, line, home);
            &&& statement(line).len() == 0 ==> after == st
            &&& starts_host(line) ==> {
                &&& after.hosts == if st.current is Some && !st.current.unwrap().alias.contains('*')
                    && !st.current.unwrap().alias.contains('?') {
                    st.hosts.push(st.current.unwrap())
                } else {
                    st.hosts
                }
                &&& argument(line) == "*"@ ==> after.current is None
                &&& argument(line) != "*"@ ==> {
                    &&& after.current is Some
                    &&& after.current.unwrap().alias == argument(line)
                    &&& after.current.unwrap().hostname is None
                    &&& after.current.unwrap().user is None
                    &&& after.current.unwrap().port is None
                    &&& after.current.unwrap().identity_file is None
                }
            }
            &&& !starts_host(line) ==> {
                &&& after.hosts == st.hosts
                &&& after.current is Some <==> st.current is Some
                &&& statement(line).len() > 0 && st.current is Some ==> after.current == Some(
                    with_setting(st.current.unwrap(), keyword(line), argument(line), home),
                )
            }
        }),
{
}

/// The lines of a file are what stands between its line breaks: the first one
/// reaches to the first break, and the others are the lines of the rest.
pub proof fn lines_stand_between_breaks(line: Seq<char>, rest: Seq<char>)
    requires
        !line.contains('\n'),
    ensures
        lines_of(line + "\n"@ + rest) == seq![line] + lines_of(rest),
        line.len() > 0 ==> lines_of(line) == seq![line],
        lines_of(Seq::empty()) == Seq::<Seq<char>>::empty(),
{
    lemma_lines_of_pieces(line, rest);
    lemma_no_break(line);
    assert(all_lines(line) =~= seq![line]);
    lemma_all_lines(line);
    assert(line.take(line.len() as int) =~= line);
    assert(lines_of(Seq::<char>::empty()) =~= Seq::<Seq<char>>::empty());
    if line.len() > 0 {
        assert(lines_of(line) =~= seq![line]);
    }
}

proof fn lemma_no_break(line: Seq<char>)
    requires
        !line.contains('\n'),
    ensures
        position(line, '\n') == line.len(),
    decreases line.len(),
{
    if line.len() > 0 {
        assert(line.contains(line[0]));
        let rest = line.drop_first();
        assert forall|i: int| 0 <= i < rest.len() implies rest[i] != '\n' by {
            assert(line.contains(line[i + 1]));
        }
        lemma_no_break(rest);
    }
}

/// What stands behind a `#` does not count, nor does white space around a
/// statement.
pub proof fn comments_do_not_count(line: Seq<char>, comment: Seq<char>)
    requires
        !line.contains('#'),
    ensures
        statement(line) == trimmed(line),
        statement(line + seq!['#'] + comment) == trimmed(line),
{
    positions_are_first(line, '#');
    if position(line, '#') < line.len() {
        assert(line.contains(line[position(line, '#')]));
    }
    assert(line.take(line.len() as int) =~= line);
    let whole = line + seq!['#'] + comment;
    positions_are_first(whole, '#');
    let n = position(whole, '#');
    assert(whole[line.len() as int] == '#');
    if n < line.len() {
        assert(whole[n] == line[n]);
        assert(line.contains(line[n]));
    }
    assert(n == line.len());
    assert(whole.take(n) =~= line);
}

/// Text without white space and without the sign of a comment.
pub open spec fn one_word(s: Seq<char>) -> bool {
    &&& s.len() > 0
    &&& forall|i: int| 0 <= i < s.len() ==> !white(#[trigger] s[i]) && s[i] != '#'
}

/// White space and nothing else.
pub open spec fn blank(s: Seq<char>) -> bool {
    forall|i: int| 0 <= i < s.len() ==> white(#[trigger] s[i])
}

/// A line says its first word, in small letters, as the keyword, and its second
/// word as the argument, however it is indented and whatever follows behind white
/// space or the sign of a comment.
pub proof fn lines_say_their_first_two_words(
    indent: Seq<char>,
    word: Seq<char>,
    gap: Seq<char>,
    value: Seq<char>,
    rest: Seq<char>,
)
    requires
        blank(indent),
        one_word(word),
        gap.len() > 0,
        blank(gap),
        one_word(value),
        rest.len() == 0 || white(rest[0]) || rest[0] == '#',
    ensures
        ({
            let line = indent + word + gap + value + rest;
            keyword(line) == ascii_lower(word) && argument(line) == value
        }),
{
    let line = indent + word + gap + value + rest;
    let core = word + gap + value;
    let k = indent.len() as int;
    let n = k + core.len();
    let at = position(line, '#');
    positions_are_first(line, '#');
    assert forall|i: int| 0 <= i < n implies line[i] != '#' by {
        if i < k {
            assert(line[i] == indent[i]);
            ascii_white_space('#');
        } else if i < k + word.len() {
            assert(line[i] == word[i - k]);
        } else if i < k + word.len() + gap.len() {
            assert(line[i] == gap[i - k - word.len()]);
            ascii_white_space('#');
        } else {
            assert(line[i] == value[i - k - word.len() - gap.len()]);
        }
    }
    assert(at >= n);
    let cut = line.take(at);
    let tail = cut.skip(n);
    assert(cut =~= indent + (core + tail));
    lemma_leading_blank(indent, core + tail);
    assert((core + tail)[0] == word[0]);
    let s = trimmed_start(cut);
    assert(s == core + tail);
    assert(s[core.len() - 1] == value[value.len() - 1]);
    lemma_end_is_kept(s, core.len() - 1);
    let st = statement(line);
    let m = st.len() as int;
    let end = st.skip(core.len() as int);
    assert(st =~= core + end);
    assert(end.len() > 0 ==> end[0] == tail[0] && tail[0] == rest[0] && rest[0] != '#') by {
        if end.len() > 0 {
            assert(tail[0] == line[n]);
            assert(line[n] == rest[0]);
            if rest[0] == '#' {
                assert(at == n);
            }
        }
    }
    assert(st =~= word + (gap + value + end));
    lemma_word(word, gap + value + end);
    assert((gap + value + end)[0] == gap[0]);
    assert(st.skip(word.len() as int) =~= gap + (value + end));
    lemma_leading_blank(gap, value + end);
    assert((value + end)[0] == value[0]);
    assert(after_first_word(st) == value + end);
    lemma_word(value, end);
}

proof fn lemma_leading_blank(front: Seq<char>, s: Seq<char>)
    requires
        blank(front),
        s.len() > 0 ==> !white(s[0]),
    ensures
        trimmed_start(front + s) == s,
    decreases front.len(),
{
    let whole = front + s;
    if front.len() > 0 {
        assert(whole[0] == front[0]);
        assert(whole.drop_first() =~= front.drop_first() + s);
        lemma_leading_blank(front.drop_first(), s);
    } else {
        assert(whole =~= s);
    }
}

proof fn lemma_end_is_kept(s: Seq<char>, i: int)
    requires
        0 <= i < s.len(),
        !white(s[i]),
    ensures
        i < trimmed_end(s).len() <= s.len(),
        trimmed_end(s) == s.take(trimmed_end(s).len() as int),
    decreases s.len(),
{
    if white(s.last()) {
        lemma_end_is_kept(s.drop_last(), i);
        let n = trimmed_end(s).len() as int;
        assert(s.drop_last().take(n) =~= s.take(n));
    } else {
        assert(s.take(s.len() as int) =~= s);
    }
}

proof fn lemma_word(word: Seq<char>, rest: Seq<char>)
    requires
        forall|i: int| 0 <= i < word.len() ==> !white(#[trigger] word[i]),
        rest.len() > 0 ==> white(rest[0]),
    ensures
        word_end(word + rest) == word.len(),
        first_word(word + rest) == word,
    decreases word.len(),
{
    let whole = word + rest;
    if word.len() > 0 {
        assert(whole[0] == word[0]);
        assert(whole.drop_first() =~= word.drop_first() + rest);
        lemma_word(word.drop_first(), rest);
    } else {
        assert(whole =~= rest);
    }
    assert(whole.take(word.len() as int) =~= word);
}

/// A line put at the end of a file that starts no host leaves all hosts but the
/// last one as they were, and keeps the name of the last one; one that starts a
/// host leaves all of them as they were.
pub proof fn later_lines_leave_earlier_hosts_alone(
    content: Seq<char>,
    line: Seq<char>,
    home: Option<Seq<char>>,
    i: int,
)
    requires
        line.len() > 0,
        !line.contains('\n'),
        0 <= i < hosts_in(content, home).len(),
    ensures
        ({
            let before = hosts_in(content, home);
            let after = hosts_in(content + "\n"@ + line, home);
            &&& i < after.len()
            &&& after[i].alias == before[i].alias
            &&& i < before.len() - 1 || starts_host(line) ==> after[i] == before[i]
            &&& !starts_host(line) ==> after.len() == before.len()
        }),
{
    lemma_lines_of_pieces(content, line);
    lines_stand_between_breaks(line, Seq::empty());
    lemma_all_lines(content);
    lemma_empty_lines(lines_of(content), seq![Seq::<char>::empty()], home);
    assert(lines_of(content) + seq![Seq::<char>::empty()] =~= lines_of(content).push(Seq::empty()));
    let lines = all_lines(content) + seq![line];
    assert(lines.drop_last() =~= all_lines(content));
    assert(lines.last() == line);
    assert(lines_of(content + "\n"@ + line) == lines);
}

/// A host that is looked for by its name is the first one of that name.
pub proof fn found_host_is_the_first(hosts: Seq<Host>, alias: Seq<char>, i: int)
    requires
        0 <= i < hosts.len(),
        hosts[i].alias == alias,
        forall|j: int| 0 <= j < i ==> (#[trigger] hosts[j]).alias != alias,
    ensures
        host_named(hosts, alias) == Some(hosts[i]),
    decreases hosts.len(),
{
    if i > 0 {
        assert(hosts[0].alias != alias);
        let rest = hosts.drop_first();
        assert forall|j: int| 0 <= j < i - 1 implies (#[trigger] rest[j]).alias != alias by {
            assert(hosts[j + 1].alias != alias);
        }
        found_host_is_the_first(rest, alias, i - 1);
    }
}

/// What is said of a host is said of its fields, each of them.
pub proof fn hosts_show_every_field(host: SshHostEntry)
    ensures
        host@.alias == host.alias@,
        host@.hostname is Some <==> host.hostname is Some,
        host.hostname is Some ==> host@.hostname.unwrap() == host.hostname.unwrap()@,
        host@.user is Some <==> host.user is Some,
        host.user is Some ==> host@.user.unwrap() == host.user.unwrap()@,
        host@.port == host.port,
        host@.identity_file is Some <==> host.identity_file is Some,
        host.identity_file is Some ==> host@.identity_file.unwrap() == host.identity_file.unwrap()@,
{
}

/// A host that is found has the alias asked for, and is one of those listed; where
/// none is found, none listed has that alias.
pub proof fn resolved_hosts_have_their_alias(
    hosts: Vec<SshHostEntry>,
    alias: &str,
    found: Option<SshHostEntry>,
)
    requires
        call_ensures(resolve_host, (&hosts, alias), found),
    ensures
        found matches Some(host) ==> host.alias@ == alias@ && exists|i: int|
            0 <= i < hosts@.len() && (#[trigger] hosts@[i])@ == host@,
        found is None ==> forall|i: int|
            0 <= i < hosts@.len() ==> (#[trigger] hosts@[i]).alias@ != alias@,
{
    let listed = hosts_view(hosts@);
    found_host_is_listed(listed, alias@);
    assert forall|i: int| 0 <= i < hosts@.len() implies listed[i] == (#[trigger] hosts@[i])@ by {}
}

} // verus!
