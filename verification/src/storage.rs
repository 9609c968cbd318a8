//! Where the program keeps its files, and how their names are made.

use vstd::prelude::*;
use vstd::utf8::{decode_utf8, encode_utf8, is_ascii_chars_encode_utf8, valid_utf8};

use crate::number::{decimal, decimal_text};
use crate::path::{
    file_name, join, join_bytes, joined, joined_byte_paths, joined_bytes, joined_paths, last_name,
    last_names_are_plain, neighbours_share_their_directory, parent, upper_path,
};
use crate::text::{begins, chars_of, opt_view, same, starts_with, string_of};

verus! {

/// `dirs::data_local_dir`: the user's directory for local data, by its bytes;
/// none if there is none. Which one it is depends on the environment, so nothing
/// is claimed of it.
#[verifier::external_body]
fn data_local_dir() -> (r: Option<Vec<u8>>) {
    match dirs::data_local_dir() {
        Some(path) => Some(path.as_os_str().as_encoded_bytes().to_vec()),
        None => None,
    }
}

/// `dirs::home_dir`: the user's home directory, by its bytes; none if it is not
/// known. Which one it is depends on the environment, so nothing is claimed of
/// it.
#[verifier::external_body]
pub(crate) fn home_dir() -> (r: Option<Vec<u8>>) {
    match dirs::home_dir() {
        Some(path) => Some(path.as_os_str().as_encoded_bytes().to_vec()),
        None => None,
    }
}

/// The text that `String::from_utf8_lossy` makes of bytes.
pub uninterp spec fn lossy_text(bytes: Seq<u8>) -> Seq<char>;

/// `String::from_utf8_lossy`: the text that bytes stand for. Bytes that are
/// UTF-8 give the text that they encode; what stands for other bytes is left to
/// the name.
#[verifier::external_body]
fn text_of_bytes(bytes: &Vec<u8>) -> (r: String)
    ensures
        r@ == lossy_text(bytes@),
        valid_utf8(bytes@) ==> r@ == decode_utf8(bytes@),
{
    String::from_utf8_lossy(bytes.as_slice()).into_owned()
}

/// A directory as it is shown, and put into paths that are text.
pub open spec fn shown(dir: Option<Seq<u8>>) -> Option<Seq<char>> {
    match dir {
        Some(bytes) => Some(lossy_text(bytes)),
        None => None,
    }
}

/// The bytes of a path that may be missing.
pub open spec fn bytes_view(path: Option<Vec<u8>>) -> Option<Seq<u8>> {
    match path {
        Some(bytes) => Some(bytes@),
        None => None,
    }
}

/// A directory as text.
pub fn show_dir(dir: Option<Vec<u8>>) -> (r: Option<String>)
    ensures
        opt_view(r) == shown(bytes_view(dir)),
        match dir {
            Some(bytes) => valid_utf8(bytes@) ==> (r matches Some(text) && text@ == decode_utf8(
                bytes@,
            )),
            None => r is None,
        },
{
    match dir {
        Some(bytes) => Some(text_of_bytes(&bytes)),
        None => None,
    }
}

/// The program's directory under a directory for local data; under the current
/// directory where there is none.
pub open spec fn data_dir_under(base: Option<Seq<u8>>) -> Seq<u8> {
    match base {
        Some(dir) => joined_bytes(dir, encode_utf8("sshutil"@)),
        None => joined_bytes(encode_utf8("."@), encode_utf8("sshutil"@)),
    }
}

/// The program's directory under the given directory for local data.
pub fn app_data_dir_in(base: Option<Vec<u8>>) -> (r: Vec<u8>)
    ensures
        r@ == data_dir_under(bytes_view(base)),
{
    match base {
        Some(dir) => join_bytes(dir, "sshutil"),
        None => join_bytes(".".as_bytes_vec(), "sshutil"),
    }
}

/// The program's directory for this user. It depends on the environment.
pub fn app_data_dir() -> (r: Vec<u8>)
    ensures
        exists|base: Option<Seq<u8>>| r@ == #[trigger] data_dir_under(base),
{
    app_data_dir_in(data_local_dir())
}

/// A file of the program's directory for this user.
pub fn data_file_path(filename: &str) -> (r: Vec<u8>)
    ensures
        exists|base: Option<Seq<u8>>|
            r@ == joined_bytes(#[trigger] data_dir_under(base), encode_utf8(filename@)),
{
    join_bytes(app_data_dir(), filename)
}

/// The name that a path's content is first written to, next to its target;
/// none for a path that names no file.
pub open spec fn temp_path_of(path: Seq<char>) -> Option<Seq<char>> {
    match last_name(path) {
        Some(name) => Some(joined(upper_path(path).unwrap(), "."@ + name + ".tmp"@)),
        None => None,
    }
}

/// The file that new content is written to before it replaces `path`.
pub fn temp_path(path: &str) -> (r: Result<String, String>)
    ensures
        match r {
            Ok(temp) => temp_path_of(path@) == Some(temp@),
            Err(e) => temp_path_of(path@) is None && e@ == "invalid checkpoint path"@,
        },
{
    match (file_name(path), parent(path)) {
        (Some(name), Some(dir)) => {
            let temp = ".".to_owned().concat(name).concat(".tmp");
            Ok(join(dir, temp.as_str()))
        },
        _ => Err("invalid checkpoint path".to_owned()),
    }
}

/// A name made of a time stamp in milliseconds.
pub fn new_id(millis: u128) -> (r: String)
    ensures
        r@ == decimal(millis as nat),
{
    decimal_text(millis)
}

/// A path with a leading tilde replaced by the home directory, where there is
/// one.
pub open spec fn home_expanded(path: Seq<char>, home: Option<Seq<char>>) -> Seq<char> {
    match home {
        Some(dir) => if begins(path, "~/"@) {
            joined(dir, path.skip(2))
        } else if path == "~"@ {
            dir
        } else {
            path
        },
        None => path,
    }
}

/// Replaces a leading tilde by the given home directory.
pub fn expand_home(path: &str, home: &Option<String>) -> (r: String)
    ensures
        r@ == home_expanded(path@, opt_view(*home)),
{
    match home {
        Some(dir) => {
            if starts_with(path, "~/") {
                let v = chars_of(path);
                proof {
                    reveal_strlit("~/");
                }
                let rest = string_of(&v, 2, v.len());
                proof {
                    assert(rest@ =~= path@.skip(2));
                }
                join(dir.as_str(), rest.as_str())
            } else if same(path, "~") {
                dir.clone()
            } else {
                path.to_owned()
            }
        },
        None => path.to_owned(),
    }
}

/// New content is first written to another file in the directory of its target,
/// so that it only has to be renamed.
pub proof fn temp_file_is_a_neighbour(path: Seq<char>)
    requires
        temp_path_of(path) is Some,
    ensures
        upper_path(temp_path_of(path).unwrap()) == upper_path(path),
        last_name(temp_path_of(path).unwrap()) != last_name(path),
        temp_path_of(path).unwrap() != path,
{
    let name = last_name(path).unwrap();
    let temp = "."@ + name + ".tmp"@;
    last_names_are_plain(path);
    reveal_strlit(".");
    reveal_strlit(".tmp");
    assert(temp.len() == name.len() + 5);
    assert forall|i: int| 0 <= i < temp.len() implies temp[i] != '/' by {
        if 1 <= i <= name.len() {
            assert(temp[i] == name[i - 1]);
            assert(name.contains(name[i - 1]));
        } else if i > name.len() {
            let j = i - 1 - name.len();
            assert(temp[i] == ".tmp"@[j]);
            assert(j == 0 || j == 1 || j == 2 || j == 3);
        }
    }
    neighbours_share_their_directory(path, temp);
}

/// A leading tilde stands for the home directory: alone for the directory itself,
/// with a slash behind it for what follows in that directory. Any other path, and
/// every path where there is no home directory, is left as it is.
pub proof fn tildes_stand_for_the_home_directory(
    home: Seq<char>,
    rest: Seq<char>,
    path: Seq<char>,
)
    ensures
        home_expanded(seq!['~'], Some(home)) == home,
        rest.len() == 0 || rest[0] != '/' ==> home_expanded(seq!['~', '/'] + rest, Some(home)) == if
            home.len() == 0 || home.last() == '/' {
            home + rest
        } else {
            home + seq!['/'] + rest
        },
        rest.len() > 0 && rest[0] == '/' ==> home_expanded(seq!['~', '/'] + rest, Some(home))
            == rest,
        path.len() == 0 || path[0] != '~' || (path.len() > 1 && path[1] != '/') ==> home_expanded(
            path,
            Some(home),
        ) == path,
        home_expanded(path, None) == path,
{
    reveal_strlit("~");
    reveal_strlit("~/");
    assert("~"@ =~= seq!['~']);
    assert("~/"@ =~= seq!['~', '/']);
    let whole = seq!['~', '/'] + rest;
    assert(whole.subrange(0, 2) =~= seq!['~', '/']);
    assert(begins(whole, "~/"@));
    assert(whole.skip(2) =~= rest);
    joined_paths(home, rest);
    if begins(path, "~/"@) {
        assert(path.subrange(0, 2)[0] == path[0]);
        assert(path.subrange(0, 2)[1] == path[1]);
    }
}

/// The program keeps its files in a directory of its own below the directory for
/// local data, or below the current one.
pub proof fn the_data_directory_has_its_own_name(base: Seq<u8>)
    requires
        base.len() > 0,
        base.last() != 0x2f,
    ensures
        data_dir_under(Some(base)) == base + seq![0x2fu8] + encode_utf8("sshutil"@),
        data_dir_under(None) == data_dir_under(Some(encode_utf8("."@))),
{
    reveal_strlit("sshutil");
    is_ascii_chars_encode_utf8("sshutil"@);
    let name = encode_utf8("sshutil"@);
    assert(name[0] == 's' as u8);
    joined_byte_paths(base, name);
}

/// A temporary file has the name of its target with a dot in front and `.tmp`
/// behind, in the same directory.
pub proof fn temp_files_are_named_after_their_target(path: Seq<char>)
    ensures
        temp_path_of(path) is Some <==> last_name(path) is Some,
        temp_path_of(path) is Some ==> last_name(temp_path_of(path).unwrap()) == Some(
            "."@ + last_name(path).unwrap() + ".tmp"@,
        ) && upper_path(temp_path_of(path).unwrap()) == upper_path(path),
{
    if last_name(path) is Some {
        temp_file_is_a_neighbour(path);
        let name = last_name(path).unwrap();
        let temp = "."@ + name + ".tmp"@;
        last_names_are_plain(path);
        reveal_strlit(".");
        reveal_strlit(".tmp");
        assert forall|i: int| 0 <= i < temp.len() implies temp[i] != '/' by {
            if 1 <= i <= name.len() {
                assert(temp[i] == name[i - 1]);
                assert(name.contains(name[i - 1]));
            } else if i > name.len() {
                let j = i - 1 - name.len();
                assert(temp[i] == ".tmp"@[j]);
                assert(j == 0 || j == 1 || j == 2 || j == 3);
            }
        }
        assert(temp.len() == name.len() + 5);
        neighbours_share_their_directory(path, temp);
    }
}

} // verus!
