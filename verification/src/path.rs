//! Slash-separated paths: the last component of a path and the path above it.

use vstd::prelude::*;
use vstd::utf8::encode_utf8;

use crate::text::{chars_of, ends_with_char, same};

verus! {

/// How many leading characters belong to no component: the root slash, or the
/// dot of a path that starts in the current directory.
pub open spec fn body_start(s: Seq<char>) -> int {
    if s.len() > 0 && s[0] == '/' {
        1
    } else if s.len() > 0 && s[0] == '.' && (s.len() == 1 || s[1] == '/') {
        1
    } else {
        0
    }
}

/// Where the last piece of `s[from..to]` starts: behind its last slash, or at
/// `from` when it holds none.
pub open spec fn piece_start(s: Seq<char>, from: int, to: int) -> int
    decreases to - from,
{
    if to <= from {
        from
    } else if s[to - 1] == '/' {
        to
    } else {
        piece_start(s, from, to - 1)
    }
}

/// A piece between slashes that names nothing: an empty one, or a single dot.
pub open spec fn blank_piece(piece: Seq<char>) -> bool {
    piece.len() == 0 || piece == seq!['.']
}

/// Where the text ends that is left of a piece starting at `start`: in front of
/// the slash before it, if there is one.
pub open spec fn end_before(start: int, from: int) -> int {
    if start > from {
        start - 1
    } else {
        from
    }
}

/// The end of `s[from..to]` once its trailing blank pieces are gone.
pub open spec fn body_end(s: Seq<char>, from: int, to: int) -> int
    decreases to - from,
{
    if to <= from {
        from
    } else {
        let start = piece_start(s, from, to);
        if from <= start <= to && blank_piece(s.subrange(start, to)) {
            body_end(s, from, end_before(start, from))
        } else {
            to
        }
    }
}

/// The last component of a path; none for a path that ends in the root, in the
/// current directory or in `..`.
pub open spec fn last_name(s: Seq<char>) -> Option<Seq<char>> {
    let from = body_start(s);
    let to = body_end(s, from, s.len() as int);
    if to <= from {
        None
    } else {
        let name = s.subrange(piece_start(s, from, to), to);
        if name == seq!['.', '.'] {
            None
        } else {
            Some(name)
        }
    }
}

/// The path without its last component; none for the root and the empty path.
pub open spec fn upper_path(s: Seq<char>) -> Option<Seq<char>> {
    let from = body_start(s);
    let to = body_end(s, from, s.len() as int);
    if to > from {
        let cut = end_before(piece_start(s, from, to), from);
        Some(s.subrange(0, body_end(s, from, cut)))
    } else if s.len() > 0 && s[0] == '.' {
        Some(Seq::empty())
    } else {
        None
    }
}

/// The path `name` taken relative to the path `base`.
pub open spec fn joined(base: Seq<char>, name: Seq<char>) -> Seq<char> {
    if name.len() > 0 && name[0] == '/' {
        name
    } else if base.len() == 0 || base.last() == '/' {
        base + name
    } else {
        base + "/"@ + name
    }
}

/// The byte of a slash.
pub const SLASH: u8 = 0x2f;

/// The path `name` taken relative to the path `base`, both as the bytes that the
/// system knows them by. Such a path need not be text.
pub open spec fn joined_bytes(base: Seq<u8>, name: Seq<u8>) -> Seq<u8> {
    if name.len() > 0 && name[0] == SLASH {
        name
    } else if base.len() == 0 || base.last() == SLASH {
        base + name
    } else {
        base + seq![SLASH] + name
    }
}

proof fn lemma_piece_start(s: Seq<char>, from: int, to: int)
    requires
        0 <= from <= to <= s.len(),
    ensures
        from <= piece_start(s, from, to) <= to,
    decreases to - from,
{
    if from < to && s[to - 1] != '/' {
        lemma_piece_start(s, from, to - 1);
    }
}

proof fn lemma_body_end(s: Seq<char>, from: int, to: int)
    requires
        0 <= from <= to <= s.len(),
    ensures
        from <= body_end(s, from, to) <= to,
    decreases to - from,
{
    if from < to {
        lemma_piece_start(s, from, to);
        let start = piece_start(s, from, to);
        if blank_piece(s.subrange(start, to)) {
            lemma_body_end(s, from, end_before(start, from));
        }
    }
}

fn find_body_start(v: &Vec<char>) -> (r: usize)
    ensures
        r == body_start(v@),
        r <= v@.len(),
{
    if v.len() > 0 && v[0] == '/' {
        1
    } else if v.len() > 0 && v[0] == '.' && (v.len() == 1 || v[1] == '/') {
        1
    } else {
        0
    }
}

fn find_piece_start(v: &Vec<char>, from: usize, to: usize) -> (r: usize)
    requires
        from <= to <= v@.len(),
    ensures
        r == piece_start(v@, from as int, to as int),
        from <= r <= to,
{
    let mut i: usize = to;
    while i > from && v[i - 1] != '/'
        invariant
            from <= i <= to <= v@.len(),
            piece_start(v@, from as int, to as int) == piece_start(v@, from as int, i as int),
        decreases i,
    {
        i = i - 1;
    }
    i
}

fn find_body_end(v: &Vec<char>, from: usize, to: usize) -> (r: usize)
    requires
        from <= to <= v@.len(),
    ensures
        r == body_end(v@, from as int, to as int),
        from <= r <= to,
{
    let mut end: usize = to;
    while end > from
        invariant
            from <= end <= to <= v@.len(),
            body_end(v@, from as int, to as int) == body_end(v@, from as int, end as int),
        decreases end,
    {
        let start = find_piece_start(v, from, end);
        let ghost piece = v@.subrange(start as int, end as int);
        if start == end {
            end = if start > from {
                start - 1
            } else {
                from
            };
        } else if end - start == 1 && v[start] == '.' {
            proof {
                assert(piece =~= seq!['.']);
            }
            end = if start > from {
                start - 1
            } else {
                from
            };
        } else {
            proof {
                assert(piece.len() == end - start);
                assert(piece[0] == v@[start as int]);
                assert(!blank_piece(piece));
            }
            return end;
        }
    }
    end
}

/// The last component of a path.
pub fn file_name(s: &str) -> (r: Option<&str>)
    ensures
        match r {
            Some(name) => last_name(s@) == Some(name@),
            None => last_name(s@) is None,
        },
{
    let v = chars_of(s);
    let from = find_body_start(&v);
    let to = find_body_end(&v, from, v.len());
    if to == from {
        return None;
    }
    let start = find_piece_start(&v, from, to);
    let name = s.substring_char(start, to);
    proof {
        reveal_strlit("..");
        assert(".."@ =~= seq!['.', '.']);
    }
    if same(name, "..") {
        None
    } else {
        Some(name)
    }
}

/// The path without its last component.
pub fn parent(s: &str) -> (r: Option<&str>)
    ensures
        match r {
            Some(path) => upper_path(s@) == Some(path@),
            None => upper_path(s@) is None,
        },
{
    let v = chars_of(s);
    let from = find_body_start(&v);
    let to = find_body_end(&v, from, v.len());
    if to > from {
        let start = find_piece_start(&v, from, to);
        let cut: usize = if start > from {
            start - 1
        } else {
            from
        };
        let end = find_body_end(&v, from, cut);
        Some(s.substring_char(0, end))
    } else if v.len() > 0 && v[0] == '.' {
        let empty = s.substring_char(0, 0);
        proof {
            assert(empty@ =~= Seq::<char>::empty());
        }
        Some(empty)
    } else {
        None
    }
}

/// Takes the path `name` relative to the path `base`.
pub fn join(base: &str, name: &str) -> (r: String)
    ensures
        r@ == joined(base@, name@),
{
    if starts_with_slash(name) {
        name.to_owned()
    } else if base.is_empty() || ends_with_char(base, '/') {
        base.to_owned().concat(name)
    } else {
        base.to_owned().concat("/").concat(name)
    }
}

/// The path `name` taken relative to the bytes of the path `base`.
pub fn join_bytes(base: Vec<u8>, name: &str) -> (r: Vec<u8>)
    ensures
        r@ == joined_bytes(base@, encode_utf8(name@)),
{
    let mut tail = name.as_bytes_vec();
    if tail.len() > 0 && tail[0] == SLASH {
        return tail;
    }
    let mut path = base;
    if path.len() > 0 && path[path.len() - 1] != SLASH {
        path.push(SLASH);
    }
    path.append(&mut tail);
    path
}

fn starts_with_slash(s: &str) -> (r: bool)
    ensures
        r == (s@.len() > 0 && s@[0] == '/'),
{
    !s.is_empty() && s.get_char(0) == '/'
}

proof fn lemma_piece_start_at(s: Seq<char>, from: int, to: int, k: int)
    requires
        0 <= from <= k <= to <= s.len(),
        k == from || s[k - 1] == '/',
        forall|i: int| k <= i < to ==> s[i] != '/',
    ensures
        piece_start(s, from, to) == k,
    decreases to - k,
{
    if k < to {
        lemma_piece_start_at(s, from, to - 1, k);
    }
}

proof fn lemma_piece_is_slash_free(s: Seq<char>, from: int, to: int, i: int)
    requires
        0 <= from <= to <= s.len(),
        piece_start(s, from, to) <= i < to,
    ensures
        s[i] != '/',
    decreases to - from,
{
    lemma_piece_start(s, from, to);
    if from < to && s[to - 1] != '/' && i < to - 1 {
        lemma_piece_is_slash_free(s, from, to - 1, i);
    }
}

proof fn lemma_body_ends_in_a_piece(s: Seq<char>, from: int, to: int)
    requires
        0 <= from <= to <= s.len(),
        body_end(s, from, to) > from,
    ensures
        ({
            let end = body_end(s, from, to);
            let start = piece_start(s, from, end);
            from <= start <= end <= to && !blank_piece(s.subrange(start, end))
        }),
    decreases to - from,
{
    lemma_piece_start(s, from, to);
    let start = piece_start(s, from, to);
    if blank_piece(s.subrange(start, to)) {
        lemma_body_ends_in_a_piece(s, from, end_before(start, from));
    }
}

/// A name that can be the last component of a path.
pub open spec fn plain_name(name: Seq<char>) -> bool {
    name.len() > 0 && !name.contains('/') && name != seq!['.'] && name != seq!['.', '.']
}

/// The last component of a path is a plain name.
pub proof fn last_names_are_plain(s: Seq<char>)
    requires
        last_name(s) is Some,
    ensures
        plain_name(last_name(s).unwrap()),
{
    let from = body_start(s);
    let n = s.len() as int;
    lemma_body_end(s, from, n);
    let to = body_end(s, from, n);
    lemma_body_ends_in_a_piece(s, from, n);
    let start = piece_start(s, from, to);
    let name = s.subrange(start, to);
    assert forall|i: int| 0 <= i < name.len() implies name[i] != '/' by {
        lemma_piece_is_slash_free(s, from, to, start + i);
    }
}

/// The path above a path is a beginning of it.
pub proof fn upper_path_is_a_prefix(s: Seq<char>)
    requires
        upper_path(s) is Some,
    ensures
        upper_path(s).unwrap().len() <= s.len(),
        upper_path(s).unwrap() == s.take(upper_path(s).unwrap().len() as int),
        last_name(s) is Some ==> upper_path(s).unwrap().len() < s.len(),
{
    let from = body_start(s);
    let n = s.len() as int;
    lemma_body_end(s, from, n);
    let to = body_end(s, from, n);
    if to > from {
        lemma_piece_start(s, from, to);
        let start = piece_start(s, from, to);
        lemma_body_ends_in_a_piece(s, from, n);
        let cut = end_before(start, from);
        lemma_body_end(s, from, cut);
        let end = body_end(s, from, cut);
        assert(s.subrange(0, end) =~= s.take(end));
        if start == to {
            assert(s.subrange(start, to).len() == 0);
        }
    } else {
        assert(s.take(0) =~= Seq::<char>::empty());
    }
}

/// A plain name put behind a path with a slash between them is the last
/// component of the whole.
pub proof fn joined_name_is_last(base: Seq<char>, name: Seq<char>)
    requires
        plain_name(name),
        base.len() == 0 || base.last() == '/',
    ensures
        last_name(base + name) == Some(name),
{
    let s = base + name;
    let from = body_start(s);
    let k = base.len() as int;
    let n = s.len() as int;
    assert(s.subrange(k, n) =~= name);
    assert forall|i: int| k <= i < n implies s[i] != '/' by {
        assert(name[i - k] != '/');
    }
    if k == 0 {
        assert(s =~= name);
        assert(name[0] != '/');
        if name[0] == '.' {
            if name.len() == 1 {
                assert(name =~= seq!['.']);
            } else {
                assert(name[1] != '/');
            }
        }
        assert(from == 0);
    } else {
        assert(s[k - 1] == '/');
    }
    lemma_piece_start_at(s, from, n, k);
    assert(!blank_piece(name));
}

proof fn lemma_piece_start_of_prefix(s: Seq<char>, t: Seq<char>, from: int, to: int)
    requires
        0 <= from <= to <= s.len(),
        to <= t.len(),
        s.take(to) == t.take(to),
    ensures
        piece_start(s, from, to) == piece_start(t, from, to),
    decreases to - from,
{
    if from < to {
        assert(s.take(to)[to - 1] == s[to - 1]);
        assert(t.take(to)[to - 1] == t[to - 1]);
        assert(s.take(to - 1) =~= s.take(to).take(to - 1));
        assert(t.take(to - 1) =~= t.take(to).take(to - 1));
        lemma_piece_start_of_prefix(s, t, from, to - 1);
    }
}

/// A name put into the directory of a path gives a path in that directory, with
/// that name.
pub proof fn neighbours_share_their_directory(s: Seq<char>, name: Seq<char>)
    requires
        last_name(s) is Some,
        plain_name(name),
    ensures
        upper_path(s) is Some,
        last_name(joined(upper_path(s).unwrap(), name)) == Some(name),
        upper_path(joined(upper_path(s).unwrap(), name)) == upper_path(s),
{
    let from = body_start(s);
    let n = s.len() as int;
    lemma_body_end(s, from, n);
    let to = body_end(s, from, n);
    lemma_piece_start(s, from, to);
    let start = piece_start(s, from, to);
    let cut = end_before(start, from);
    lemma_body_end(s, from, cut);
    let e = body_end(s, from, cut);
    let upper = s.subrange(0, e);
    if e > from {
        lemma_body_ends_in_a_piece(s, from, cut);
        lemma_piece_start(s, from, e);
        let p = piece_start(s, from, e);
        assert(p < e) by {
            if p == e {
                assert(s.subrange(p, e).len() == 0);
            }
        }
        lemma_piece_is_slash_free(s, from, e, e - 1);
    }
    reveal_strlit("/");
    assert(name[0] != '/');
    let base = if upper.len() == 0 || upper.last() == '/' {
        upper
    } else {
        upper + "/"@
    };
    let t = joined(upper, name);
    assert(t =~= base + name);
    joined_name_is_last(base, name);
    let k = base.len() as int;
    let m = t.len() as int;
    assert(t.subrange(k, m) =~= name);
    assert forall|i: int| k <= i < m implies t[i] != '/' by {
        assert(name[i - k] != '/');
    }
    assert(t.take(e) =~= s.take(e));
    assert(t.subrange(0, e) =~= upper);
    if e == 0 {
        assert(t =~= name);
        if name[0] == '.' {
            if name.len() == 1 {
                assert(name =~= seq!['.']);
            } else {
                assert(name[1] != '/');
            }
        }
    } else {
        assert(t[0] == s[0]);
        if e > 1 {
            assert(t[1] == s[1]);
        } else if s[0] == '.' && from == 0 {
            assert(piece_start(s, 0, 1) == 0) by {
                reveal_with_fuel(piece_start, 2);
            }
            assert(s.subrange(0, 1) =~= seq!['.']);
        }
    }
    assert(body_start(t) == from);
    assert(k == from || t[k - 1] == '/');
    lemma_piece_start_at(t, from, m, k);
    assert(!blank_piece(name));
    assert(body_end(t, from, m) == m);
    assert(end_before(k, from) == e);
    if e > from {
        lemma_piece_start_of_prefix(s, t, from, e);
        let p = piece_start(s, from, e);
        assert(t.subrange(p, e) =~= s.subrange(p, e));
    }
    assert(body_end(t, from, e) == e);
}

/// A path taken relative to another one is itself if it is absolute; otherwise
/// it stands behind the other one, with one slash between them, and with none
/// where there is nothing in front.
pub proof fn joined_paths(base: Seq<char>, name: Seq<char>)
    ensures
        name.len() > 0 && name[0] == '/' ==> joined(base, name) == name,
        name.len() == 0 || name[0] != '/' ==> joined(base, name) == if base.len() == 0 || base.last()
            == '/' {
            base + name
        } else {
            base + seq!['/'] + name
        },
{
    reveal_strlit("/");
    assert("/"@ =~= seq!['/']);
}

/// Joining paths by their bytes goes by the same rule.
pub proof fn joined_byte_paths(base: Seq<u8>, name: Seq<u8>)
    ensures
        name.len() > 0 && name[0] == 0x2f ==> joined_bytes(base, name) == name,
        name.len() == 0 || name[0] != 0x2f ==> joined_bytes(base, name) == if base.len() == 0
            || base.last() == 0x2f {
            base + name
        } else {
            base + seq![0x2fu8] + name
        },
{
}

/// The path above a file is the path of its directory: of a directory's path, a
/// slash, and a name, the directory's path is left, if that ends in a name
/// itself.
pub proof fn files_stand_below_their_directory(
    above: Seq<char>,
    dir_name: Seq<char>,
    name: Seq<char>,
)
    requires
        plain_name(dir_name),
        plain_name(name),
        above.len() == 0 || above.last() == '/',
    ensures
        upper_path(above + dir_name + seq!['/'] + name) == Some(above + dir_name),
        last_name(above + dir_name + seq!['/'] + name) == Some(name),
{
    let dir = above + dir_name;
    let base = dir + seq!['/'];
    let t = base + name;
    let from = body_start(t);
    let k = base.len() as int;
    let m = t.len() as int;
    let e = dir.len() as int;
    let p = above.len() as int;
    joined_name_is_last(base, name);
    assert(dir_name[0] != '/');
    assert(t[p] == dir_name[0]);
    assert(from <= p) by {
        if p == 0 {
            if t[0] == '.' && t[1] == '/' {
                if dir_name.len() == 1 {
                    assert(dir_name =~= seq!['.']);
                } else {
                    assert(t[1] == dir_name[1]);
                }
            }
        }
    }
    assert(p == 0 || t[p - 1] == '/');
    assert(p == from || t[p - 1] == '/');
    assert(t.subrange(k, m) =~= name);
    assert forall|i: int| k <= i < m implies t[i] != '/' by {
        assert(name[i - k] != '/');
    }
    assert(t[k - 1] == '/');
    lemma_piece_start_at(t, from, m, k);
    assert(!blank_piece(name));
    assert(body_end(t, from, m) == m);
    assert(end_before(k, from) == e);
    assert forall|i: int| p <= i < e implies t[i] != '/' by {
        assert(dir_name[i - p] != '/');
    }
    lemma_piece_start_at(t, from, e, p);
    assert(t.subrange(p, e) =~= dir_name);
    assert(!blank_piece(dir_name));
    assert(body_end(t, from, e) == e);
    assert(t.subrange(0, e) =~= dir);
}

} // verus!
