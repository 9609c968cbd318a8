//! Browsing directories on the server: which directory is shown, and in what
//! order its entries appear.

use vstd::prelude::*;

use super::upload::{remote_joined, REMOTE_DIR_MODE};
use crate::order::{
    lemma_text_le_total, lemma_text_le_transitive, sort, sorted_from, stable_order, text_at_most, text_le,
    Ranked,
};
use crate::path::{file_name, last_name, parent, upper_path};
use crate::text::{
    contains_char, mentions, mentions_stand_inside, opt_view, same, trim, trimmed,
};
use crate::transfer::model::FileStat;

pub use super::upload::join_remote_path;

verus! {

/// An entry of a remote directory.
#[derive(Debug, Clone)]
pub struct RemoteDirEntry {
    pub name: String,
    pub path: String,
    pub is_dir: bool,
    pub size: u64,
}

/// A remote directory as it is shown.
#[derive(Debug, Clone)]
pub struct RemoteDirListing {
    pub path: String,
    pub parent: Option<String>,
    pub entries: Vec<RemoteDirEntry>,
}

/// What an entry of a remote directory says.
pub struct Entry {
    pub name: Seq<char>,
    pub path: Seq<char>,
    pub is_dir: bool,
    pub size: u64,
}

impl View for RemoteDirEntry {
    type V = Entry;

    open spec fn view(&self) -> Entry {
        Entry { name: self.name@, path: self.path@, is_dir: self.is_dir, size: self.size }
    }
}

/// What the server says about one entry of a directory.
#[derive(Debug, Clone)]
pub struct RawEntry {
    pub path: String,
    pub is_dir: bool,
    pub size: Option<u64>,
}

/// What the server says about one entry, by its text.
pub struct Found {
    pub path: Seq<char>,
    pub is_dir: bool,
    pub size: Option<u64>,
}

impl View for RawEntry {
    type V = Found;

    open spec fn view(&self) -> Found {
        Found { path: self.path@, is_dir: self.is_dir, size: self.size }
    }
}

/// The text in small letters, as Unicode maps them.
pub uninterp spec fn lowercased(s: Seq<char>) -> Seq<char>;

/// `str::to_lowercase`: the text in small letters, named but not spelled out.
#[verifier::external_body]
fn to_lowercase(s: &str) -> (r: String)
    ensures
        r@ == lowercased(s@),
{
    s.to_lowercase()
}

impl Ranked for RemoteDirEntry {
    /// Directories stand in front of files; within each, names are in
    /// dictionary order without regard to case.
    open spec fn precedes(self, other: Self) -> bool {
        if self.is_dir == other.is_dir {
            text_le(lowercased(self.name@), lowercased(other.name@))
        } else {
            self.is_dir
        }
    }

    proof fn precedes_total(a: Self, b: Self) {
        lemma_text_le_total(lowercased(a.name@), lowercased(b.name@));
    }

    proof fn precedes_transitive(a: Self, b: Self, c: Self) {
        if a.is_dir == b.is_dir && b.is_dir == c.is_dir {
            lemma_text_le_transitive(
                lowercased(a.name@),
                lowercased(b.name@),
                lowercased(c.name@),
            );
        }
    }

    fn may_precede(&self, other: &Self) -> (r: bool) {
        if self.is_dir == other.is_dir {
            let a = to_lowercase(self.name.as_str());
            let b = to_lowercase(other.name.as_str());
            text_at_most(a.as_str(), b.as_str())
        } else {
            self.is_dir
        }
    }
}

/// The name of a directory that may be created.
pub open spec fn dir_name(name: Seq<char>) -> Result<Seq<char>, Seq<char>> {
    let entry = trimmed(name);
    if entry.len() == 0 {
        Err("目录名不能为空"@)
    } else if entry.contains('/') || entry.contains('\\') {
        Err("目录名不能包含 / 或 \\"@)
    } else if entry == "."@ || entry == ".."@ {
        Err("无效的目录名"@)
    } else {
        Ok(entry)
    }
}

/// Checks the name of a directory that is to be created.
pub fn validate_dir_name(name: &str) -> (r: Result<&str, String>)
    ensures
        match r {
            Ok(entry) => dir_name(name@) == Ok::<Seq<char>, Seq<char>>(entry@),
            Err(e) => dir_name(name@) == Err::<Seq<char>, Seq<char>>(e@),
        },
{
    let entry = trim(name);
    if entry.is_empty() {
        return Err("目录名不能为空".to_owned());
    }
    if contains_char(entry, '/') || contains_char(entry, '\\') {
        return Err("目录名不能包含 / 或 \\".to_owned());
    }
    if same(entry, ".") || same(entry, "..") {
        return Err("无效的目录名".to_owned());
    }
    Ok(entry)
}

/// The directory above a directory; none above the root.
pub open spec fn dir_above(path: Seq<char>) -> Option<Seq<char>> {
    if path == "/"@ {
        None
    } else {
        match upper_path(path) {
            Some(dir) => if dir.len() > 0 {
                Some(dir)
            } else {
                None
            },
            None => None,
        }
    }
}

/// The directory above a directory; none above the root.
pub fn parent_remote_path(path: &str) -> (r: Option<String>)
    ensures
        opt_view(r) == dir_above(path@),
{
    if same(path, "/") {
        return None;
    }
    match parent(path) {
        Some(dir) => if dir.is_empty() {
            None
        } else {
            Some(dir.to_owned())
        },
        None => None,
    }
}

/// The name of an entry; empty if its path names nothing.
pub open spec fn name_of_entry(path: Seq<char>) -> Seq<char> {
    match last_name(path) {
        Some(name) => name,
        None => Seq::empty(),
    }
}

/// The name of an entry; empty if its path names nothing.
pub fn entry_name(path: &str) -> (r: String)
    ensures
        r@ == name_of_entry(path@),
{
    match file_name(path) {
        Some(name) => name.to_owned(),
        None => String::new(),
    }
}

/// The entries of a directory in the order in which the server names them,
/// without the directory itself and the one above it.
pub open spec fn entries_of(dir: Seq<char>, raw: Seq<Found>) -> Seq<Entry>
    decreases raw.len(),
{
    if raw.len() == 0 {
        Seq::empty()
    } else {
        let front = entries_of(dir, raw.drop_last());
        let item = raw.last();
        let name = name_of_entry(item.path);
        if name == "."@ || name == ".."@ {
            front
        } else {
            front.push(
                Entry {
                    name,
                    path: remote_joined(dir, name),
                    is_dir: item.is_dir,
                    size: item.size.unwrap_or(0),
                },
            )
        }
    }
}

/// What the server says about the entries of a directory.
pub open spec fn all_found(raw: Seq<RawEntry>) -> Seq<Found> {
    raw.map_values(|r: RawEntry| r@)
}

/// What a list of entries says.
pub open spec fn all_entries(entries: Seq<RemoteDirEntry>) -> Seq<Entry> {
    entries.map_values(|e: RemoteDirEntry| e@)
}

/// `listing` shows the directory `dir` with the entries `raw`: directories
/// first, then files, each by name without regard to case.
pub open spec fn shows(listing: RemoteDirListing, dir: Seq<char>, raw: Seq<Found>) -> bool {
    &&& listing.path@ == dir
    &&& opt_view(listing.parent) == dir_above(dir)
    &&& exists|unsorted: Seq<RemoteDirEntry>|
        all_entries(unsorted) == entries_of(dir, raw) && #[trigger] sorted_from(
            unsorted,
            listing.entries@,
        )
}

/// Makes the listing of a directory from what the server says about it.
pub fn read_directory_listing(dir_path: &str, raw: &Vec<RawEntry>) -> (r: RemoteDirListing)
    ensures
        shows(r, dir_path@, all_found(raw@)),
{
    let mut entries: Vec<RemoteDirEntry> = Vec::new();
    let ghost found = all_found(raw@);
    proof {
        assert(all_entries(entries@) =~= entries_of(dir_path@, found.take(0)));
    }
    for i in 0..raw.len()
        invariant
            found == all_found(raw@),
            all_entries(entries@) == entries_of(dir_path@, found.take(i as int)),
    {
        let item = &raw[i];
        let name = entry_name(item.path.as_str());
        let ghost before = entries@;
        proof {
            assert(found.take(i + 1).drop_last() =~= found.take(i as int));
            assert(found.take(i + 1).last() == item@);
        }
        if !(same(name.as_str(), ".") || same(name.as_str(), "..")) {
            let path = join_remote_path(dir_path, name.as_str());
            let size: u64 = item.size.unwrap_or(0);
            entries.push(RemoteDirEntry { name, path, is_dir: item.is_dir, size });
            proof {
                assert(all_entries(entries@) =~= all_entries(before).push(entries@.last()@));
            }
        }
    }
    proof {
        assert(found.take(raw@.len() as int) =~= found);
    }
    let ghost unsorted = entries@;
    let listing = RemoteDirListing {
        path: dir_path.to_owned(),
        parent: parent_remote_path(dir_path),
        entries: sort(entries),
    };
    proof {
        assert(all_entries(unsorted) == entries_of(dir_path@, found));
        assert(sorted_from(unsorted, listing.entries@));
    }
    listing
}

/// What browsing waits for.
#[derive(Debug, Clone, Copy)]
pub enum BrowsePhase {
    /// Is the path a file?
    InspectingPath,
    /// What is the full path of the directory?
    Canonicalizing,
    /// Does the directory that is to be created exist already?
    CheckingNew,
    MakingDir,
    /// Is the path a directory?
    CheckingDir,
    ReadingDir,
    /// The entries of the directory are there.
    Listed,
    Failed,
}

/// What browsing wants done.
pub enum BrowseTask {
    Stat { path: Seq<char> },
    RealPath { path: Seq<char> },
    MakeDir { path: Seq<char>, mode: i32 },
    ReadDir { path: Seq<char> },
    Finish,
}

/// What came of a task.
pub enum BrowseReply {
    Stat(FileStat),
    Path(Seq<char>),
    Done,
    Entries(Seq<Found>),
    Failed(Seq<char>),
}

/// The state of browsing.
pub struct BrowseState {
    pub phase: BrowsePhase,
    /// The path that was entered.
    pub entry: Seq<char>,
    /// The path that is being made complete.
    pub asked: Seq<char>,
    /// The directory to create.
    pub create: Option<Seq<char>>,
    /// The directory that is shown.
    pub dir: Seq<char>,
    pub raw: Seq<Found>,
    pub error: Seq<char>,
}

/// Whether a reply answers what browsing waits for.
pub open spec fn browse_answers(phase: BrowsePhase, reply: BrowseReply) -> bool {
    match phase {
        BrowsePhase::InspectingPath
        | BrowsePhase::CheckingNew
        | BrowsePhase::CheckingDir => reply is Stat || reply is Failed,
        BrowsePhase::Canonicalizing => reply is Path || reply is Failed,
        BrowsePhase::MakingDir => reply is Done || reply is Failed,
        BrowsePhase::ReadingDir => reply is Entries || reply is Failed,
        BrowsePhase::Listed | BrowsePhase::Failed => false,
    }
}

pub open spec fn browse_fail(st: BrowseState, error: Seq<char>) -> (BrowseState, BrowseTask) {
    (BrowseState { phase: BrowsePhase::Failed, error, ..st }, BrowseTask::Finish)
}

pub open spec fn canonicalize(st: BrowseState, path: Seq<char>) -> (BrowseState, BrowseTask) {
    (
        BrowseState { phase: BrowsePhase::Canonicalizing, asked: path, ..st },
        BrowseTask::RealPath { path },
    )
}

/// The directory is known: create another one in it, or show it.
pub open spec fn located(st: BrowseState, dir: Seq<char>) -> (BrowseState, BrowseTask) {
    match st.create {
        Some(name) => (
            BrowseState { phase: BrowsePhase::CheckingNew, dir, ..st },
            BrowseTask::Stat { path: remote_joined(dir, name) },
        ),
        None => show(BrowseState { dir, ..st }),
    }
}

pub open spec fn show(st: BrowseState) -> (BrowseState, BrowseTask) {
    (BrowseState { phase: BrowsePhase::CheckingDir, ..st }, BrowseTask::Stat { path: st.dir })
}

/// How browsing starts: at the home directory of the server if no path was
/// entered.
pub open spec fn browse_start(path: Seq<char>, create: Option<Seq<char>>) -> (
    BrowseState,
    BrowseTask,
) {
    let entry = trimmed(path);
    let st = BrowseState {
        phase: BrowsePhase::InspectingPath,
        entry,
        asked: Seq::empty(),
        create,
        dir: Seq::empty(),
        raw: Seq::empty(),
        error: Seq::empty(),
    };
    if entry.len() == 0 {
        canonicalize(st, "."@)
    } else {
        (st, BrowseTask::Stat { path: entry })
    }
}

/// What browsing does next. A path that names a file stands for the directory
/// that the file is in.
pub open spec fn browse_step(st: BrowseState, reply: BrowseReply) -> (BrowseState, BrowseTask) {
    match (st.phase, reply) {
        (BrowsePhase::InspectingPath, reply) => {
            if reply matches BrowseReply::Stat(stat) && stat.is_file {
                match upper_path(st.entry) {
                    Some(dir) => if dir.len() > 0 {
                        located(st, dir)
                    } else {
                        canonicalize(st, "."@)
                    },
                    None => canonicalize(st, "."@),
                }
            } else {
                canonicalize(st, st.entry)
            }
        },
        (BrowsePhase::Canonicalizing, BrowseReply::Path(dir)) => located(st, dir),
        (BrowsePhase::Canonicalizing, BrowseReply::Failed(e)) => browse_fail(
            st,
            "无法访问远端路径「"@ + st.asked + "」: "@ + e,
        ),
        (BrowsePhase::CheckingNew, BrowseReply::Failed(_)) => (
            BrowseState { phase: BrowsePhase::MakingDir, ..st },
            BrowseTask::MakeDir {
                path: remote_joined(st.dir, st.create.unwrap()),
                mode: REMOTE_DIR_MODE,
            },
        ),
        (BrowsePhase::CheckingNew, _) => browse_fail(
            st,
            "「"@ + st.create.unwrap() + "」已存在"@,
        ),
        (BrowsePhase::MakingDir, BrowseReply::Failed(e)) => browse_fail(
            st,
            "创建目录失败: "@ + e,
        ),
        (BrowsePhase::MakingDir, _) => show(st),
        (BrowsePhase::CheckingDir, BrowseReply::Stat(stat)) => if stat.is_dir {
            (
                BrowseState { phase: BrowsePhase::ReadingDir, ..st },
                BrowseTask::ReadDir { path: st.dir },
            )
        } else {
            browse_fail(st, "「"@ + st.dir + "」不是目录"@)
        },
        (BrowsePhase::CheckingDir, BrowseReply::Failed(e)) => browse_fail(
            st,
            "无法读取远端目录「"@ + st.dir + "」: "@ + e,
        ),
        (BrowsePhase::ReadingDir, BrowseReply::Entries(raw)) => (
            BrowseState { phase: BrowsePhase::Listed, raw, ..st },
            BrowseTask::Finish,
        ),
        (BrowsePhase::ReadingDir, BrowseReply::Failed(e)) => browse_fail(
            st,
            "无法列出目录「"@ + st.dir + "」: "@ + e,
        ),
        _ => browse_fail(st, Seq::empty()),
    }
}

/// What browsing wants done.
#[derive(Debug)]
pub enum BrowseAction {
    Stat { path: String },
    RealPath { path: String },
    MakeDir { path: String, mode: i32 },
    ReadDir { path: String },
    Finish,
}

impl View for BrowseAction {
    type V = BrowseTask;

    open spec fn view(&self) -> BrowseTask {
        match *self {
            BrowseAction::Stat { path } => BrowseTask::Stat { path: path@ },
            BrowseAction::RealPath { path } => BrowseTask::RealPath { path: path@ },
            BrowseAction::MakeDir { path, mode } => BrowseTask::MakeDir { path: path@, mode },
            BrowseAction::ReadDir { path } => BrowseTask::ReadDir { path: path@ },
            BrowseAction::Finish => BrowseTask::Finish,
        }
    }
}

/// What came of an action.
#[derive(Debug)]
pub enum BrowseEvent {
    Stat(FileStat),
    Path(String),
    Done,
    Entries(Vec<RawEntry>),
    Failed(String),
}

impl View for BrowseEvent {
    type V = BrowseReply;

    open spec fn view(&self) -> BrowseReply {
        match *self {
            BrowseEvent::Stat(stat) => BrowseReply::Stat(stat),
            BrowseEvent::Path(path) => BrowseReply::Path(path@),
            BrowseEvent::Done => BrowseReply::Done,
            BrowseEvent::Entries(raw) => BrowseReply::Entries(all_found(raw@)),
            BrowseEvent::Failed(e) => BrowseReply::Failed(e@),
        }
    }
}

/// Browsing that is going on.
#[derive(Debug)]
pub struct Browse {
    phase: BrowsePhase,
    entry: String,
    asked: String,
    create: Option<String>,
    dir: String,
    raw: Vec<RawEntry>,
    error: String,
}

impl View for Browse {
    type V = BrowseState;

    closed spec fn view(&self) -> BrowseState {
        BrowseState {
            phase: self.phase,
            entry: self.entry@,
            asked: self.asked@,
            create: opt_view(self.create),
            dir: self.dir@,
            raw: all_found(self.raw@),
            error: self.error@,
        }
    }
}

impl Browse {
    /// A directory is only checked or made where there is one to create.
    pub open spec fn wf(&self) -> bool {
        self@.phase is CheckingNew || self@.phase is MakingDir ==> self@.create is Some
    }

    fn start(path: &str, create: Option<String>) -> (r: (Browse, BrowseAction))
        ensures
            (r.0@, r.1@) == browse_start(path@, opt_view(create)),
            r.0.wf(),
    {
        let mut browse = Browse {
            phase: BrowsePhase::InspectingPath,
            entry: trim(path).to_owned(),
            asked: String::new(),
            create,
            dir: String::new(),
            raw: Vec::new(),
            error: String::new(),
        };
        proof {
            assert(browse@.asked =~= Seq::<char>::empty());
            assert(browse@.dir =~= Seq::<char>::empty());
            assert(browse@.raw =~= Seq::<Found>::empty());
            assert(browse@.error =~= Seq::<char>::empty());
        }
        if browse.entry.as_str().is_empty() {
            let action = browse.canonicalize(".".to_owned());
            (browse, action)
        } else {
            let path = browse.entry.clone();
            (browse, BrowseAction::Stat { path })
        }
    }

    fn fail(&mut self, error: String) -> (r: BrowseAction)
        ensures
            (final(self)@, r@) == browse_fail(old(self)@, error@),
    {
        self.phase = BrowsePhase::Failed;
        self.error = error;
        BrowseAction::Finish
    }

    fn canonicalize(&mut self, path: String) -> (r: BrowseAction)
        ensures
            (final(self)@, r@) == canonicalize(old(self)@, path@),
    {
        self.phase = BrowsePhase::Canonicalizing;
        self.asked = path.clone();
        BrowseAction::RealPath { path }
    }

    fn new_path(&self) -> (r: String)
        requires
            self@.create is Some,
        ensures
            r@ == remote_joined(self@.dir, self@.create.unwrap()),
    {
        match &self.create {
            Some(name) => join_remote_path(self.dir.as_str(), name.as_str()),
            None => String::new(),
        }
    }

    fn located(&mut self, dir: String) -> (r: BrowseAction)
        ensures
            (final(self)@, r@) == located(old(self)@, dir@),
    {
        self.dir = dir;
        if self.create.is_some() {
            self.phase = BrowsePhase::CheckingNew;
            let path = self.new_path();
            BrowseAction::Stat { path }
        } else {
            self.show()
        }
    }

    fn show(&mut self) -> (r: BrowseAction)
        ensures
            (final(self)@, r@) == show(old(self)@),
    {
        self.phase = BrowsePhase::CheckingDir;
        let path = self.dir.clone();
        BrowseAction::Stat { path }
    }

    fn inspected(&mut self, is_file: bool) -> (r: BrowseAction)
        requires
            old(self)@.phase is InspectingPath,
        ensures
            (final(self)@, r@) == if is_file {
                match upper_path(old(self)@.entry) {
                    Some(dir) => if dir.len() > 0 {
                        located(old(self)@, dir)
                    } else {
                        canonicalize(old(self)@, "."@)
                    },
                    None => canonicalize(old(self)@, "."@),
                }
            } else {
                canonicalize(old(self)@, old(self)@.entry)
            },
    {
        if is_file {
            let dir = match parent(self.entry.as_str()) {
                Some(dir) => dir.to_owned(),
                None => String::new(),
            };
            if dir.as_str().is_empty() {
                self.canonicalize(".".to_owned())
            } else {
                self.located(dir)
            }
        } else {
            let path = self.entry.clone();
            self.canonicalize(path)
        }
    }

    fn exists_already(&mut self) -> (r: BrowseAction)
        requires
            old(self)@.create is Some,
        ensures
            (final(self)@, r@) == browse_fail(
                old(self)@,
                "「"@ + old(self)@.create.unwrap() + "」已存在"@,
            ),
    {
        let message = match &self.create {
            Some(name) => "「".to_owned().concat(name.as_str()).concat("」已存在"),
            None => String::new(),
        };
        self.fail(message)
    }

    /// Whether an event answers what browsing waits for.
    pub fn accepts(&self, event: &BrowseEvent) -> (r: bool)
        ensures
            r == browse_answers(self@.phase, event@),
    {
        match (self.phase, event) {
            (BrowsePhase::Listed, _) | (BrowsePhase::Failed, _) => false,
            (_, BrowseEvent::Failed(_)) => true,
            (BrowsePhase::InspectingPath, BrowseEvent::Stat(_)) => true,
            (BrowsePhase::CheckingNew, BrowseEvent::Stat(_)) => true,
            (BrowsePhase::CheckingDir, BrowseEvent::Stat(_)) => true,
            (BrowsePhase::Canonicalizing, BrowseEvent::Path(_)) => true,
            (BrowsePhase::MakingDir, BrowseEvent::Done) => true,
            (BrowsePhase::ReadingDir, BrowseEvent::Entries(_)) => true,
            _ => false,
        }
    }

    /// Takes in what came of the last action, and says what to do next.
    pub fn step(&mut self, event: BrowseEvent) -> (r: BrowseAction)
        requires
            old(self).wf(),
            browse_answers(old(self)@.phase, event@),
        ensures
            (final(self)@, r@) == browse_step(old(self)@, event@),
            final(self).wf(),
    {
        match (self.phase, event) {
            (BrowsePhase::InspectingPath, BrowseEvent::Stat(stat)) => self.inspected(stat.is_file),
            (BrowsePhase::InspectingPath, _) => self.inspected(false),
            (BrowsePhase::Canonicalizing, BrowseEvent::Path(dir)) => self.located(dir),
            (BrowsePhase::Canonicalizing, BrowseEvent::Failed(e)) => {
                let message = "无法访问远端路径「".to_owned().concat(
                    self.asked.as_str(),
                ).concat("」: ").concat(e.as_str());
                self.fail(message)
            },
            (BrowsePhase::CheckingNew, BrowseEvent::Failed(_)) => {
                self.phase = BrowsePhase::MakingDir;
                let path = self.new_path();
                BrowseAction::MakeDir { path, mode: REMOTE_DIR_MODE }
            },
            (BrowsePhase::CheckingNew, _) => self.exists_already(),
            (BrowsePhase::MakingDir, BrowseEvent::Failed(e)) => {
                let message = "创建目录失败: ".to_owned().concat(e.as_str());
                self.fail(message)
            },
            (BrowsePhase::MakingDir, _) => self.show(),
            (BrowsePhase::CheckingDir, BrowseEvent::Stat(stat)) => {
                if stat.is_dir {
                    self.phase = BrowsePhase::ReadingDir;
                    let path = self.dir.clone();
                    BrowseAction::ReadDir { path }
                } else {
                    let message = "「".to_owned().concat(self.dir.as_str()).concat("」不是目录");
                    self.fail(message)
                }
            },
            (BrowsePhase::CheckingDir, BrowseEvent::Failed(e)) => {
                let message = "无法读取远端目录「".to_owned().concat(self.dir.as_str()).concat(
                    "」: ",
                ).concat(e.as_str());
                self.fail(message)
            },
            (BrowsePhase::ReadingDir, BrowseEvent::Entries(raw)) => {
                self.raw = raw;
                self.phase = BrowsePhase::Listed;
                BrowseAction::Finish
            },
            (BrowsePhase::ReadingDir, BrowseEvent::Failed(e)) => {
                let message = "无法列出目录「".to_owned().concat(self.dir.as_str()).concat(
                    "」: ",
                ).concat(e.as_str());
                self.fail(message)
            },
            _ => {
                let message = String::new();
                self.fail(message)
            },
        }
    }

    /// How browsing ended; nothing while it goes on.
    pub fn outcome(&self) -> (r: Option<Result<RemoteDirListing, String>>)
        ensures
            match r {
                Some(Ok(listing)) => self@.phase is Listed && shows(
                    listing,
                    self@.dir,
                    self@.raw,
                ),
                Some(Err(e)) => self@.phase is Failed && e@ == self@.error,
                None => !(self@.phase is Listed) && !(self@.phase is Failed),
            },
    {
        match self.phase {
            BrowsePhase::Listed => Some(Ok(read_directory_listing(self.dir.as_str(), &self.raw))),
            BrowsePhase::Failed => Some(Err(self.error.clone())),
            _ => None,
        }
    }
}

/// The path that was entered; empty if none was.
pub open spec fn entered(path: Option<&str>) -> Seq<char> {
    match path {
        Some(p) => p@,
        None => Seq::empty(),
    }
}

/// Starts to list a remote directory. Without a path it is the user's home
/// directory on the server.
pub fn list_remote_directory(path: Option<&str>) -> (r: (Browse, BrowseAction))
    ensures
        (r.0@, r.1@) == browse_start(entered(path), None),
        r.0.wf(),
{
    match path {
        Some(p) => Browse::start(p, None),
        None => {
            let nothing = String::new();
            proof {
                assert(nothing@ =~= Seq::<char>::empty());
            }
            Browse::start(nothing.as_str(), None)
        },
    }
}

/// Starts to create a directory below `parent_path`, and to list the directory
/// that it was created in.
pub fn create_remote_directory(parent_path: &str, dir_name: &str) -> (r: Result<
    (Browse, BrowseAction),
    String,
>)
    ensures
        match self::dir_name(dir_name@) {
            Err(e) => r matches Err(x) && x@ == e,
            Ok(name) => r matches Ok(b) && (b.0@, b.1@) == browse_start(parent_path@, Some(name))
                && b.0.wf(),
        },
{
    match validate_dir_name(dir_name) {
        Err(e) => Err(e),
        Ok(name) => Ok(Browse::start(parent_path, Some(name.to_owned()))),
    }
}

/// How many steps browsing may still take.
pub open spec fn steps_left(phase: BrowsePhase) -> nat {
    match phase {
        BrowsePhase::InspectingPath => 6,
        BrowsePhase::Canonicalizing => 5,
        BrowsePhase::CheckingNew => 4,
        BrowsePhase::MakingDir => 3,
        BrowsePhase::CheckingDir => 2,
        BrowsePhase::ReadingDir => 1,
        BrowsePhase::Listed | BrowsePhase::Failed => 0,
    }
}

/// Browsing ends: every step leads nearer to its end.
pub proof fn browsing_ends(st: BrowseState, reply: BrowseReply)
    requires
        browse_answers(st.phase, reply),
    ensures
        steps_left(browse_step(st, reply).0.phase) < steps_left(st.phase),
{
}

/// A directory is created only where nothing of that name was found, and only
/// with a name that cannot lead out of the directory it is created in.
pub proof fn creates_only_what_is_missing(st: BrowseState, reply: BrowseReply)
    requires
        browse_answers(st.phase, reply),
        browse_step(st, reply).1 is MakeDir,
    ensures
        st.phase is CheckingNew,
        reply is Failed,
        browse_step(st, reply).1 == (BrowseTask::MakeDir {
            path: remote_joined(st.dir, st.create.unwrap()),
            mode: REMOTE_DIR_MODE,
        }),
{
}

/// A directory is created directly below its parent: its name holds no slash,
/// and is neither of the two names that stand for another directory.
pub proof fn created_names_are_plain(name: Seq<char>)
    requires
        dir_name(name) is Ok,
    ensures
        ({
            let entry = dir_name(name)->Ok_0;
            &&& entry.len() > 0
            &&& !entry.contains('/') && !entry.contains('\\')
            &&& entry != "."@ && entry != ".."@
        }),
{
}

proof fn lemma_entries_are_named(dir: Seq<char>, raw: Seq<Found>, i: int)
    requires
        0 <= i < entries_of(dir, raw).len(),
    ensures
        entries_of(dir, raw)[i].name != "."@,
        entries_of(dir, raw)[i].name != ".."@,
        entries_of(dir, raw)[i].path == remote_joined(dir, entries_of(dir, raw)[i].name),
    decreases raw.len(),
{
    if i < entries_of(dir, raw.drop_last()).len() {
        lemma_entries_are_named(dir, raw.drop_last(), i);
    }
}

/// A listing shows directories in front of files, each group by name without
/// regard to case, and neither the directory itself nor the one above it.
pub proof fn listings_are_ordered(
    listing: RemoteDirListing,
    dir: Seq<char>,
    raw: Seq<Found>,
    i: int,
    j: int,
)
    requires
        shows(listing, dir, raw),
        0 <= i < j < listing.entries@.len(),
    ensures
        ({
            let a = listing.entries@[i];
            let b = listing.entries@[j];
            &&& b.is_dir ==> a.is_dir
            &&& a.is_dir == b.is_dir ==> text_le(lowercased(a.name@), lowercased(b.name@))
            &&& a.name@ != "."@ && a.name@ != ".."@
            &&& a.path@ == remote_joined(dir, a.name@)
            &&& listing.entries@.len() == entries_of(dir, raw).len()
        }),
{
    let unsorted = choose|unsorted: Seq<RemoteDirEntry>|
        all_entries(unsorted) == entries_of(dir, raw) && #[trigger] sorted_from(
            unsorted,
            listing.entries@,
        );
    let out = listing.entries@;
    let from = choose|from: Seq<int>| stable_order(unsorted, out, from);
    assert(out[i].precedes(out[j]));
    assert(out[i] == unsorted[from[i]]);
    assert(all_entries(unsorted)[from[i]] == unsorted[from[i]]@);
    assert(all_entries(unsorted).len() == unsorted.len());
    lemma_entries_are_named(dir, raw, from[i]);
}

/// The name of a directory that is created is the one that was entered, without
/// white space around it; it is refused exactly where it is blank, holds a slash
/// or a backslash, or stands for another directory.
pub proof fn created_names_are_those_entered(name: Seq<char>)
    ensures
        ({
            let entry = trimmed(name);
            &&& dir_name(name) is Ok <==> entry.len() > 0 && !entry.contains('/')
                && !entry.contains('\\') && entry != "."@ && entry != ".."@
            &&& dir_name(name) is Ok ==> dir_name(name)->Ok_0 == entry
            &&& entry.len() == 0 ==> dir_name(name) == Err::<Seq<char>, Seq<char>>(
                "目录名不能为空"@,
            )
        }),
{
}

/// The directory above the root is none; above any other it is the path without
/// its last name, if something is left of it.
pub proof fn directories_above(path: Seq<char>)
    ensures
        path == seq!['/'] ==> dir_above(path) is None,
        path != seq!['/'] ==> (dir_above(path) is Some <==> upper_path(path) is Some && upper_path(
            path,
        ).unwrap().len() > 0),
        dir_above(path) is Some ==> dir_above(path) == upper_path(path),
{
    reveal_strlit("/");
    assert("/"@ =~= seq!['/']);
}

/// The entry that the directory `dir` shows of what the server has named `item`.
pub open spec fn shown_as(dir: Seq<char>, item: Found, entry: Entry) -> bool {
    &&& entry.name == match last_name(item.path) {
        Some(name) => name,
        None => Seq::empty(),
    }
    &&& entry.path == if dir.len() > 0 && dir.last() == '/' {
        dir + entry.name
    } else {
        dir + seq!['/'] + entry.name
    }
    &&& entry.is_dir == item.is_dir
    &&& entry.size == match item.size {
        Some(size) => size,
        None => 0,
    }
}

/// What the server has named stands for neither the directory itself nor the one
/// above it.
pub open spec fn worth_showing(item: Found) -> bool {
    let name = last_name(item.path);
    name != Some(seq!['.']) && name != Some(seq!['.', '.'])
}

/// `found` gives, for each entry, the place of the item that it shows; each item
/// that is worth showing is shown, and no place comes twice.
pub open spec fn shown_from(
    dir: Seq<char>,
    raw: Seq<Found>,
    entries: Seq<Entry>,
    found: Seq<int>,
) -> bool {
    &&& found.len() == entries.len()
    &&& forall|i: int|
        0 <= i < found.len() ==> 0 <= #[trigger] found[i] < raw.len() && worth_showing(
            raw[found[i]],
        ) && shown_as(dir, raw[found[i]], entries[i])
    &&& forall|i: int, j: int|
        0 <= i < j < found.len() ==> #[trigger] found[i] != #[trigger] found[j]
    &&& forall|k: int|
        0 <= k < raw.len() && worth_showing(#[trigger] raw[k]) ==> found.contains(k)
}

proof fn lemma_shown(dir: Seq<char>, raw: Seq<Found>) -> (found: Seq<int>)
    ensures
        shown_from(dir, raw, entries_of(dir, raw), found),
    decreases raw.len(),
{
    reveal_strlit(".");
    reveal_strlit("..");
    reveal_strlit("/");
    assert("."@ =~= seq!['.']);
    assert(".."@ =~= seq!['.', '.']);
    assert("/"@ =~= seq!['/']);
    if raw.len() == 0 {
        Seq::empty()
    } else {
        let front = raw.drop_last();
        let item = raw.last();
        let shorter = lemma_shown(dir, front);
        let name = name_of_entry(item.path);
        let n = raw.len() - 1;
        assert(raw[n] == item);
        let entries = entries_of(dir, raw);
        assert(Seq::<char>::empty().len() == 0);
        if name == "."@ || name == ".."@ {
            assert(!worth_showing(item));
            assert forall|k: int| 0 <= k < raw.len() && worth_showing(
                #[trigger] raw[k],
            ) implies shorter.contains(k) by {
                assert(raw[k] == front[k]);
            }
            shorter
        } else {
            let found = shorter.push(n);
            assert forall|k: int| 0 <= k < raw.len() && worth_showing(
                #[trigger] raw[k],
            ) implies found.contains(k) by {
                if k < n {
                    assert(raw[k] == front[k]);
                    let m = choose|m: int| 0 <= m < shorter.len() && shorter[m] == k;
                    assert(found[m] == k);
                } else {
                    assert(found[shorter.len() as int] == k);
                }
            }
            found
        }
    }
}

/// A listing shows of a directory each thing that the server has named in it,
/// once, with its name, its path, its kind and its size, but for the directory
/// itself and the one above it; and nothing else.
pub proof fn listings_are_complete(listing: RemoteDirListing, dir: Seq<char>, raw: Seq<Found>)
    requires
        shows(listing, dir, raw),
    ensures
        listing.path@ == dir,
        opt_view(listing.parent) == dir_above(dir),
        exists|found: Seq<int>| shown_from(dir, raw, all_entries(listing.entries@), found),
{
    let unsorted = choose|unsorted: Seq<RemoteDirEntry>|
        all_entries(unsorted) == entries_of(dir, raw) && #[trigger] sorted_from(
            unsorted,
            listing.entries@,
        );
    let out = listing.entries@;
    let from = choose|from: Seq<int>| stable_order(unsorted, out, from);
    let first = lemma_shown(dir, raw);
    let n = out.len();
    assert(all_entries(unsorted).len() == unsorted.len());
    let found = Seq::new(n, |i: int| first[from[i]]);
    let entries = all_entries(out);
    assert forall|i: int| 0 <= i < found.len() implies 0 <= #[trigger] found[i] < raw.len()
        && worth_showing(raw[found[i]]) && shown_as(dir, raw[found[i]], entries[i]) by {
        let k = from[i];
        assert(out[i] == unsorted[k]);
        assert(all_entries(unsorted)[k] == unsorted[k]@);
        assert(0 <= first[k] < raw.len());
        assert(entries[i] == out[i]@);
    }
    assert forall|i: int, j: int| 0 <= i < j < found.len() implies #[trigger] found[i]
        != #[trigger] found[j] by {
        let a = from[i];
        let b = from[j];
        assert(a != b);
        assert(0 <= a < first.len() && 0 <= b < first.len());
        if a < b {
            assert(first[a] != first[b]);
        } else {
            assert(first[b] != first[a]);
        }
    }
    assert forall|k: int| 0 <= k < raw.len() && worth_showing(
        #[trigger] raw[k],
    ) implies found.contains(k) by {
        assert(first.contains(k));
        let m = choose|m: int| 0 <= m < first.len() && first[m] == k;
        lemma_hits_all(from, m);
        let i = choose|i: int| 0 <= i < from.len() && from[i] == m;
        assert(found[i] == k);
    }
    assert(shown_from(dir, raw, entries, found));
}

proof fn lemma_hits_all(from: Seq<int>, m: int)
    requires
        forall|i: int| 0 <= i < from.len() ==> 0 <= #[trigger] from[i] < from.len(),
        forall|i: int, j: int| 0 <= i < j < from.len() ==> from[i] != from[j],
        0 <= m < from.len(),
    ensures
        from.contains(m),
{
    if !from.contains(m) {
        let n = from.len() as int;
        let squeezed = Seq::new(
            from.len(),
            |i: int| if from[i] > m { from[i] - 1 } else { from[i] },
        );
        assert forall|i: int| 0 <= i < n implies 0 <= #[trigger] squeezed[i] < n - 1 by {
            assert(from.contains(from[i]));
        }
        assert forall|i: int, j: int| 0 <= i < j < n implies squeezed[i] != squeezed[j] by {
            assert(from[i] != from[j]);
            assert(from.contains(from[i]) && from.contains(from[j]));
        }
        lemma_pigeons(squeezed, n - 1);
    }
}

proof fn lemma_pigeons(s: Seq<int>, n: int)
    requires
        0 <= n,
        forall|i: int| 0 <= i < s.len() ==> 0 <= #[trigger] s[i] < n,
        forall|i: int, j: int| 0 <= i < j < s.len() ==> s[i] != s[j],
    ensures
        s.len() <= n,
    decreases n,
{
    if s.len() > 0 {
        if s.contains(n - 1) {
            let k = choose|k: int| 0 <= k < s.len() && s[k] == n - 1;
            let rest = s.remove(k);
            assert forall|i: int| 0 <= i < rest.len() implies 0 <= #[trigger] rest[i] < n - 1 by {
                if i < k {
                    assert(rest[i] == s[i]);
                } else {
                    assert(rest[i] == s[i + 1]);
                }
            }
            assert forall|i: int, j: int| 0 <= i < j < rest.len() implies rest[i] != rest[j] by {
                let a = if i < k { i } else { i + 1 };
                let b = if j < k { j } else { j + 1 };
                assert(rest[i] == s[a] && rest[j] == s[b]);
            }
            lemma_pigeons(rest, n - 1);
        } else {
            assert forall|i: int| 0 <= i < s.len() implies 0 <= #[trigger] s[i] < n - 1 by {
                assert(s.contains(s[i]));
            }
            if n == 0 {
                assert(0 <= s[0] < n);
            }
            lemma_pigeons(s, n - 1);
        }
    }
}

/// Browsing starts with a look at the path that was entered, without white space
/// around it; without a path, at the directory that the server starts in.
pub proof fn browsing_starts_at_the_path_entered(path: Seq<char>, create: Option<Seq<char>>)
    ensures
        ({
            let (st, task) = browse_start(path, create);
            let entry = trimmed(path);
            &&& st.entry == entry
            &&& st.create == create
            &&& entry.len() > 0 ==> st.phase is InspectingPath && task == (BrowseTask::Stat {
                path: entry,
            })
            &&& entry.len() == 0 ==> st.phase is Canonicalizing && task == (BrowseTask::RealPath {
                path: seq!['.'],
            })
        }),
{
    reveal_strlit(".");
    assert("."@ =~= seq!['.']);
}

/// Browsing goes on from what it finds: a file leads to the directory that it is
/// in, anything else to the full path that the server gives for it. In that
/// directory one is made if one is to be created and nothing of its name is
/// there, and then it is shown, if it is a directory, with all that the server
/// names in it. The path entered and the name to create never change.
pub proof fn browsing_goes_by_what_it_finds(st: BrowseState, reply: BrowseReply)
    requires
        browse_answers(st.phase, reply),
        st.phase is CheckingNew || st.phase is MakingDir ==> st.create is Some,
    ensures
        ({
            let (next, task) = browse_step(st, reply);
            let above = upper_path(st.entry);
            &&& next.entry == st.entry && next.create == st.create
            &&& task is Finish <==> next.phase is Listed || next.phase is Failed
            &&& match st.phase {
                BrowsePhase::InspectingPath => {
                    let file = reply is Stat && reply->Stat_0.is_file;
                    &&& file && above is Some && above.unwrap().len() > 0 ==> next.dir
                        == above.unwrap() && arrived(next, task)
                    &&& file && (above is None || above.unwrap().len() == 0)
                        ==> next.phase is Canonicalizing && task == (BrowseTask::RealPath {
                        path: seq!['.'],
                    })
                    &&& !file ==> next.phase is Canonicalizing && next.asked == st.entry && task
                        == (BrowseTask::RealPath { path: st.entry })
                },
                BrowsePhase::Canonicalizing => {
                    &&& reply matches BrowseReply::Path(dir) ==> next.dir == dir && arrived(
                        next,
                        task,
                    )
                    &&& reply is Failed ==> next.phase is Failed
                },
                BrowsePhase::CheckingNew => {
                    &&& reply is Failed ==> next.phase is MakingDir && next.dir == st.dir && task == (
                    BrowseTask::MakeDir {
                        path: remote_joined(st.dir, st.create.unwrap()),
                        mode: 0o755,
                    })
                    &&& reply is Stat ==> next.phase is Failed && mentions(
                        next.error,
                        st.create.unwrap(),
                    )
                },
                BrowsePhase::MakingDir => {
                    &&& reply is Done ==> next.phase is CheckingDir && next.dir == st.dir && task
                        == (BrowseTask::Stat { path: st.dir })
                    &&& reply matches BrowseReply::Failed(e) ==> next.phase is Failed && mentions(
                        next.error,
                        e,
                    )
                },
                BrowsePhase::CheckingDir => {
                    &&& reply matches BrowseReply::Stat(stat) ==> (if stat.is_dir {
                        next.phase is ReadingDir && next.dir == st.dir && task == (
                        BrowseTask::ReadDir { path: st.dir })
                    } else {
                        next.phase is Failed && mentions(next.error, st.dir)
                    })
                    &&& reply is Failed ==> next.phase is Failed
                },
                BrowsePhase::ReadingDir => {
                    &&& reply matches BrowseReply::Entries(raw) ==> next.phase is Listed && next.dir
                        == st.dir && next.raw == raw
                    &&& reply is Failed ==> next.phase is Failed
                },
                BrowsePhase::Listed | BrowsePhase::Failed => true,
            }
        }),
{
    reveal_strlit(".");
    reveal_strlit("/");
    assert("."@ =~= seq!['.']);
    assert("/"@ =~= seq!['/']);
    if st.create is Some {
        let name = st.create.unwrap();
        mentions_stand_inside("「"@ + name + "」已存在"@, name);
    }
    mentions_stand_inside("「"@ + st.dir + "」不是目录"@, st.dir);
    if reply is Failed {
        let e = reply->Failed_0;
        let text = "创建目录失败: "@ + e;
        mentions_stand_inside(text, e);
        assert(text =~= "创建目录失败: "@ + e + Seq::<char>::empty());
    }
}

/// The directory is known: the next look is at it, or at the one that is to be
/// created in it.
pub open spec fn arrived(st: BrowseState, task: BrowseTask) -> bool {
    match st.create {
        None => st.phase is CheckingDir && task == (BrowseTask::Stat { path: st.dir }),
        Some(name) => st.phase is CheckingNew && task == (BrowseTask::Stat {
            path: if st.dir.len() > 0 && st.dir.last() == '/' {
                st.dir + name
            } else {
                st.dir + seq!['/'] + name
            },
        }),
    }
}

/// When browsing fails at a path or a directory, the error names it and ends in
/// what the server said.
pub proof fn browsing_errors_name_the_place(st: BrowseState, e: Seq<char>)
    requires
        st.phase is Canonicalizing || st.phase is CheckingDir || st.phase is ReadingDir,
    ensures
        ({
            let next = browse_step(st, BrowseReply::Failed(e)).0;
            let place = if st.phase is Canonicalizing {
                st.asked
            } else {
                st.dir
            };
            next.phase is Failed && mentions(next.error, place) && mentions(next.error, e)
        }),
{
    let place = if st.phase is Canonicalizing {
        st.asked
    } else {
        st.dir
    };
    let head = if st.phase is Canonicalizing {
        "无法访问远端路径「"@
    } else if st.phase is CheckingDir {
        "无法读取远端目录「"@
    } else {
        "无法列出目录「"@
    };
    let text = head + place + "」: "@ + e;
    mentions_stand_inside(text, place);
    assert(text =~= head + place + ("」: "@ + e));
    mentions_stand_inside(text, e);
    assert(text =~= head + place + "」: "@ + e + Seq::<char>::empty());
}

/// What is said of a listed entry is said of its fields, each of them.
pub proof fn listed_entries_show_every_field(entry: RemoteDirEntry)
    ensures
        entry@.name == entry.name@,
        entry@.path == entry.path@,
        entry@.is_dir == entry.is_dir,
        entry@.size == entry.size,
{
}

/// What is said of an entry that was found is said of its fields, each of them.
pub proof fn found_entries_show_every_field(entry: RawEntry)
    ensures
        entry@.path == entry.path@,
        entry@.is_dir == entry.is_dir,
        entry@.size == entry.size,
{
}

/// Browsing understands every way in which what it has asked for can end, and
/// nothing else.
pub proof fn every_answer_to_browsing_is_understood(phase: BrowsePhase, reply: BrowseReply)
    ensures
        browse_answers(phase, reply) ==> !(phase is Listed) && !(phase is Failed),
        !(phase is Listed) && !(phase is Failed) && reply is Failed ==> browse_answers(
            phase,
            reply,
        ),
        reply is Stat ==> (browse_answers(phase, reply) <==> phase is InspectingPath
            || phase is CheckingNew || phase is CheckingDir),
        reply is Path ==> (browse_answers(phase, reply) <==> phase is Canonicalizing),
        reply is Done ==> (browse_answers(phase, reply) <==> phase is MakingDir),
        reply is Entries ==> (browse_answers(phase, reply) <==> phase is ReadingDir),
{
}

} // verus!
