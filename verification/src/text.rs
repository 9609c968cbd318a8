//! Text: the string operations that paths, messages and configuration files
//! need, each stated over the sequence of characters of a string.

use vstd::prelude::*;

verus! {

/// `String::push` appends one character.
pub assume_specification[ String::push ](s: &mut String, c: char)
    ensures
        final(s)@ == old(s)@.push(c),
;

/// A character with the Unicode property `White_Space`.
pub open spec fn white(c: char) -> bool {
    let n = c as u32;
    ||| 0x09 <= n <= 0x0d
    ||| n == 0x20
    ||| n == 0x85
    ||| n == 0xa0
    ||| n == 0x1680
    ||| 0x2000 <= n <= 0x200a
    ||| n == 0x2028
    ||| n == 0x2029
    ||| n == 0x202f
    ||| n == 0x205f
    ||| n == 0x3000
}

/// The text without its leading white space.
pub open spec fn trimmed_start(s: Seq<char>) -> Seq<char>
    decreases s.len(),
{
    if s.len() > 0 && white(s[0]) {
        trimmed_start(s.drop_first())
    } else {
        s
    }
}

/// The text without its trailing white space.
pub open spec fn trimmed_end(s: Seq<char>) -> Seq<char>
    decreases s.len(),
{
    if s.len() > 0 && white(s.last()) {
        trimmed_end(s.drop_last())
    } else {
        s
    }
}

/// The text without white space on either side.
pub open spec fn trimmed(s: Seq<char>) -> Seq<char> {
    trimmed_end(trimmed_start(s))
}

/// The text without the trailing characters that are `a` or `b`.
pub open spec fn without_trailing(s: Seq<char>, a: char, b: char) -> Seq<char>
    decreases s.len(),
{
    if s.len() > 0 && (s.last() == a || s.last() == b) {
        without_trailing(s.drop_last(), a, b)
    } else {
        s
    }
}

/// `p` stands in `s` at position `i`.
pub open spec fn occurs_at(s: Seq<char>, p: Seq<char>, i: int) -> bool {
    0 <= i && i + p.len() <= s.len() && s.subrange(i, i + p.len()) == p
}

/// `s` begins with `p`.
pub open spec fn begins(s: Seq<char>, p: Seq<char>) -> bool {
    occurs_at(s, p, 0)
}

/// `s` ends in the character `c`.
pub open spec fn ends_in(s: Seq<char>, c: char) -> bool {
    s.len() > 0 && s.last() == c
}

/// `p` stands somewhere in `s`.
pub open spec fn mentions(s: Seq<char>, p: Seq<char>) -> bool {
    exists|i: int| #[trigger] occurs_at(s, p, i)
}

/// How many characters of `s` stand before the first `c`; all of them if it
/// holds none.
pub open spec fn position(s: Seq<char>, c: char) -> int
    decreases s.len(),
{
    if s.len() == 0 || s[0] == c {
        0
    } else {
        1 + position(s.drop_first(), c)
    }
}

/// The character with an ASCII capital replaced by its small letter.
pub open spec fn ascii_lower_char(c: char) -> char {
    if 'A' <= c <= 'Z' {
        ((c as u8) + 32) as char
    } else {
        c
    }
}

/// The text with ASCII capitals replaced by small letters.
pub open spec fn ascii_lower(s: Seq<char>) -> Seq<char> {
    s.map_values(|c: char| ascii_lower_char(c))
}

/// The text of an optional string.
pub open spec fn opt_view(s: Option<String>) -> Option<Seq<char>> {
    match s {
        Some(t) => Some(t@),
        None => None,
    }
}

/// The texts of a list of strings.
pub open spec fn texts(list: Seq<String>) -> Seq<Seq<char>> {
    list.map_values(|s: String| s@)
}

/// A copy of an optional string.
pub fn copy_opt(s: &Option<String>) -> (r: Option<String>)
    ensures
        opt_view(r) == opt_view(*s),
{
    match s {
        Some(t) => Some(t.clone()),
        None => None,
    }
}

/// An optional string, where an empty one counts as none.
pub open spec fn nonempty(s: Option<Seq<char>>) -> Option<Seq<char>> {
    match s {
        Some(t) => if t.len() > 0 {
            Some(t)
        } else {
            None
        },
        None => None,
    }
}

/// A copy of an optional string, where an empty one counts as none.
pub fn copy_nonempty(s: &Option<String>) -> (r: Option<String>)
    ensures
        opt_view(r) == nonempty(opt_view(*s)),
{
    match s {
        Some(t) => if t.as_str().is_empty() {
            None
        } else {
            Some(t.clone())
        },
        None => None,
    }
}

/// Whether a character is white space.
pub fn is_white(c: char) -> (r: bool)
    ensures
        r == white(c),
{
    let n: u32 = c as u32;
    (0x09 <= n && n <= 0x0d) || n == 0x20 || n == 0x85 || n == 0xa0 || n == 0x1680 || (0x2000 <= n
        && n <= 0x200a) || n == 0x2028 || n == 0x2029 || n == 0x202f || n == 0x205f || n == 0x3000
}

/// The characters of a string.
pub fn chars_of(s: &str) -> (r: Vec<char>)
    ensures
        r@ == s@,
{
    let mut v: Vec<char> = Vec::new();
    for c in it: s.chars()
        invariant
            v@ == it.seq().take(it.index() as int),
    {
        v.push(c);
    }
    v
}

/// The string made of the characters `from..to` of `v`.
pub fn string_of(v: &Vec<char>, from: usize, to: usize) -> (r: String)
    requires
        from <= to <= v@.len(),
    ensures
        r@ == v@.subrange(from as int, to as int),
{
    let mut s = String::new();
    for i in from..to
        invariant
            from <= to <= v@.len(),
            s@ == v@.subrange(from as int, i as int),
    {
        s.push(v[i]);
    }
    s
}

/// Whether two strings are equal.
pub fn same(a: &str, b: &str) -> (r: bool)
    ensures
        r == (a@ == b@),
{
    a.to_owned() == b.to_owned()
}

/// Drops white space at the start.
pub fn trim_start(s: &str) -> (r: &str)
    ensures
        r@ == trimmed_start(s@),
{
    let v = chars_of(s);
    let mut i: usize = 0;
    proof {
        assert(s@.skip(0) == s@);
    }
    while i < v.len() && is_white(v[i])
        invariant
            v@ == s@,
            i <= v@.len(),
            trimmed_start(s@) == trimmed_start(s@.skip(i as int)),
        decreases v@.len() - i,
    {
        proof {
            assert(s@.skip(i as int).drop_first() == s@.skip(i + 1));
        }
        i = i + 1;
    }
    proof {
        assert(s@.skip(i as int) == s@.subrange(i as int, s@.len() as int));
    }
    s.substring_char(i, v.len())
}

/// Drops white space at the end.
pub fn trim_end(s: &str) -> (r: &str)
    ensures
        r@ == trimmed_end(s@),
{
    let v = chars_of(s);
    let mut n: usize = v.len();
    proof {
        assert(s@.take(n as int) == s@);
    }
    while n > 0 && is_white(v[n - 1])
        invariant
            v@ == s@,
            n <= v@.len(),
            trimmed_end(s@) == trimmed_end(s@.take(n as int)),
        decreases n,
    {
        proof {
            assert(s@.take(n as int).drop_last() == s@.take(n - 1));
        }
        n = n - 1;
    }
    proof {
        assert(s@.take(n as int) == s@.subrange(0, n as int));
    }
    s.substring_char(0, n)
}

/// Drops white space on either side.
pub fn trim(s: &str) -> (r: &str)
    ensures
        r@ == trimmed(s@),
{
    trim_end(trim_start(s))
}

/// Drops the trailing characters that are `a` or `b`.
pub fn trim_end_of(s: &str, a: char, b: char) -> (r: &str)
    ensures
        r@ == without_trailing(s@, a, b),
{
    let v = chars_of(s);
    let mut n: usize = v.len();
    proof {
        assert(s@.take(n as int) == s@);
    }
    while n > 0 && (v[n - 1] == a || v[n - 1] == b)
        invariant
            v@ == s@,
            n <= v@.len(),
            without_trailing(s@, a, b) == without_trailing(s@.take(n as int), a, b),
        decreases n,
    {
        proof {
            assert(s@.take(n as int).drop_last() == s@.take(n - 1));
        }
        n = n - 1;
    }
    proof {
        assert(s@.take(n as int) == s@.subrange(0, n as int));
    }
    s.substring_char(0, n)
}

/// Whether `p` stands in `s` at position `at`.
pub fn stands_at(s: &Vec<char>, p: &Vec<char>, at: usize) -> (r: bool)
    ensures
        r == occurs_at(s@, p@, at as int),
{
    if at > s.len() || p.len() > s.len() - at {
        return false;
    }
    let n: usize = s.len();
    let mut i: usize = 0;
    while i < p.len()
        invariant
            n == s@.len(),
            at + p@.len() <= n,
            i <= p@.len(),
            forall|k: int| 0 <= k < i ==> s@[at + k] == p@[k],
        decreases p@.len() - i,
    {
        if s[at + i] != p[i] {
            proof {
                assert(s@.subrange(at as int, at + p@.len())[i as int] == s@[at + i]);
            }
            return false;
        }
        i = i + 1;
    }
    proof {
        assert(s@.subrange(at as int, at + p@.len()) == p@);
    }
    true
}

/// Whether `s` begins with `p`.
pub fn starts_with(s: &str, p: &str) -> (r: bool)
    ensures
        r == begins(s@, p@),
{
    stands_at(&chars_of(s), &chars_of(p), 0)
}

/// Whether `s` ends in the character `c`.
pub fn ends_with_char(s: &str, c: char) -> (r: bool)
    ensures
        r == ends_in(s@, c),
{
    let v = chars_of(s);
    v.len() > 0 && v[v.len() - 1] == c
}

/// Whether `p` stands somewhere in `s`.
pub fn contains(s: &str, p: &str) -> (r: bool)
    ensures
        r == mentions(s@, p@),
{
    let sv = chars_of(s);
    let pv = chars_of(p);
    let mut i: usize = 0;
    while i < sv.len()
        invariant
            sv@ == s@,
            pv@ == p@,
            i <= sv@.len(),
            forall|k: int| 0 <= k < i ==> !#[trigger] occurs_at(s@, p@, k),
        decreases sv@.len() - i,
    {
        if stands_at(&sv, &pv, i) {
            return true;
        }
        i = i + 1;
    }
    stands_at(&sv, &pv, i)
}

/// Whether the character `c` stands somewhere in `s`.
pub fn contains_char(s: &str, c: char) -> (r: bool)
    ensures
        r == s@.contains(c),
{
    let v = chars_of(s);
    let mut i: usize = 0;
    while i < v.len()
        invariant
            v@ == s@,
            i <= v@.len(),
            forall|k: int| 0 <= k < i ==> s@[k] != c,
        decreases v@.len() - i,
    {
        if v[i] == c {
            return true;
        }
        i = i + 1;
    }
    false
}

/// How many characters of `v` stand before the first `c`.
pub fn find_char(v: &Vec<char>, c: char) -> (r: usize)
    ensures
        r == position(v@, c),
        r <= v@.len(),
        r < v@.len() <==> v@.contains(c),
        r < v@.len() ==> v@[r as int] == c,
{
    let mut i: usize = 0;
    proof {
        assert(v@.skip(0) == v@);
    }
    while i < v.len() && v[i] != c
        invariant
            i <= v@.len(),
            position(v@, c) == i + position(v@.skip(i as int), c),
            forall|k: int| 0 <= k < i ==> v@[k] != c,
        decreases v@.len() - i,
    {
        proof {
            assert(v@.skip(i as int).drop_first() == v@.skip(i + 1));
        }
        i = i + 1;
    }
    i
}

/// Replaces ASCII capitals by small letters.
pub fn to_ascii_lowercase(s: &str) -> (r: String)
    ensures
        r@ == ascii_lower(s@),
{
    let v = chars_of(s);
    let mut out = String::new();
    for i in 0..v.len()
        invariant
            v@ == s@,
            out@ == ascii_lower(s@.take(i as int)),
    {
        let c = v[i];
        proof {
            assert(s@.take(i + 1) == s@.take(i as int).push(c));
            assert(ascii_lower(s@.take(i + 1)) == ascii_lower(s@.take(i as int)).push(
                ascii_lower_char(c),
            ));
        }
        if 'A' <= c && c <= 'Z' {
            let small: u8 = (c as u8) + 32;
            out.push(small as char);
        } else {
            out.push(c);
        }
    }
    proof {
        assert(s@.take(s@.len() as int) == s@);
    }
    out
}

proof fn lemma_trimmed_start(s: Seq<char>)
    ensures
        trimmed_start(s).len() > 0 ==> !white(trimmed_start(s)[0]),
    decreases s.len(),
{
    if s.len() > 0 && white(s[0]) {
        lemma_trimmed_start(s.drop_first());
    }
}

proof fn lemma_trimmed_end(s: Seq<char>)
    ensures
        trimmed_end(s).len() <= s.len(),
        trimmed_end(s) == s.take(trimmed_end(s).len() as int),
        trimmed_end(s).len() > 0 ==> !white(trimmed_end(s).last()),
    decreases s.len(),
{
    if s.len() > 0 && white(s.last()) {
        lemma_trimmed_end(s.drop_last());
        let n = trimmed_end(s).len() as int;
        assert(s.drop_last().take(n) =~= s.take(n));
    } else {
        assert(s.take(s.len() as int) =~= s);
    }
}

proof fn lemma_trimmed_end_keeps(s: Seq<char>, i: int)
    requires
        0 <= i < s.len(),
        !white(s[i]),
    ensures
        i < trimmed_end(s).len(),
    decreases s.len(),
{
    if white(s.last()) {
        lemma_trimmed_end_keeps(s.drop_last(), i);
    }
}

/// Trimming a text that starts with no white space keeps every beginning of it
/// that ends in none.
pub proof fn trimming_keeps_bare_beginnings(s: Seq<char>, head: Seq<char>)
    requires
        begins(s, head),
        head.len() > 0,
        !white(head[0]),
        !white(head.last()),
    ensures
        begins(trimmed(s), head),
{
    let n = head.len() as int;
    assert(s.subrange(0, n)[0] == s[0]);
    assert(s.subrange(0, n)[n - 1] == s[n - 1]);
    assert(trimmed_start(s) == s);
    lemma_trimmed_end(s);
    lemma_trimmed_end_keeps(s, n - 1);
    assert(trimmed(s).subrange(0, n) =~= s.subrange(0, n));
}

proof fn lemma_without_trailing(s: Seq<char>, a: char, b: char)
    ensures
        without_trailing(s, a, b).len() <= s.len(),
        without_trailing(s, a, b) == s.take(without_trailing(s, a, b).len() as int),
        without_trailing(s, a, b).len() < s.len() ==> ({
            let c = s[without_trailing(s, a, b).len() as int];
            c == a || c == b
        }),
    decreases s.len(),
{
    if s.len() > 0 && (s.last() == a || s.last() == b) {
        let t = s.drop_last();
        lemma_without_trailing(t, a, b);
        let n = without_trailing(s, a, b).len() as int;
        assert(t.take(n) =~= s.take(n));
    } else {
        assert(s.take(s.len() as int) =~= s);
    }
}

/// What is taken off the end of a text are characters that were to be taken
/// off: the text begins with the rest and one of them.
pub proof fn taking_off_leaves_a_beginning(s: Seq<char>, c: char)
    requires
        ends_in(s, c),
    ensures
        begins(s, without_trailing(s, c, c).push(c)),
{
    lemma_without_trailing(s, c, c);
    lemma_without_trailing(s.drop_last(), c, c);
    let head = without_trailing(s, c, c).push(c);
    assert(s.subrange(0, head.len() as int) =~= head);
}

/// A text that does not end in a character loses nothing when that is taken off.
pub proof fn nothing_to_take_off(s: Seq<char>, c: char)
    requires
        !ends_in(s, c),
    ensures
        without_trailing(s, c, c) == s,
{
}

/// Trimmed text has no white space at either end.
pub proof fn trimmed_text_is_bare(s: Seq<char>)
    ensures
        trimmed(s).len() > 0 ==> !white(trimmed(s)[0]) && !white(trimmed(s).last()),
{
    lemma_trimmed_start(s);
    lemma_trimmed_end(trimmed_start(s));
}

/// Text without white space at either end is left as it is.
pub proof fn bare_text_is_kept(s: Seq<char>)
    requires
        s.len() > 0 ==> !white(s[0]) && !white(s.last()),
    ensures
        trimmed(s) == s,
{
}

/// Trimming twice is trimming once.
pub proof fn trimming_is_stable(s: Seq<char>)
    ensures
        trimmed(trimmed(s)) == trimmed(s),
{
    trimmed_text_is_bare(s);
    bare_text_is_kept(trimmed(s));
}

/// Among the ASCII characters exactly the space and the five control characters
/// from tab to carriage return are white space; no letter, digit or mark is.
pub proof fn ascii_white_space(c: char)
    requires
        (c as u32) < 0x80,
    ensures
        white(c) <==> c == ' ' || c == '\t' || c == '\n' || c == '\r' || c as u32 == 0x0b
            || c as u32 == 0x0c,
{
}

proof fn lemma_leading_white(s: Seq<char>)
    ensures
        trimmed_start(s).len() <= s.len(),
        trimmed_start(s) == s.skip(s.len() - trimmed_start(s).len()),
        forall|i: int| 0 <= i < s.len() - trimmed_start(s).len() ==> white(#[trigger] s[i]),
    decreases s.len(),
{
    if s.len() > 0 && white(s[0]) {
        let t = s.drop_first();
        lemma_leading_white(t);
        let n = s.len() - trimmed_start(s).len();
        assert(t.skip(n - 1) =~= s.skip(n));
        assert forall|i: int| 0 <= i < n implies white(#[trigger] s[i]) by {
            if i > 0 {
                assert(t[i - 1] == s[i]);
            }
        }
    } else {
        assert(s.skip(0) =~= s);
    }
}

proof fn lemma_trailing_white(s: Seq<char>)
    ensures
        trimmed_end(s).len() <= s.len(),
        trimmed_end(s) == s.take(trimmed_end(s).len() as int),
        forall|i: int| trimmed_end(s).len() <= i < s.len() ==> white(#[trigger] s[i]),
    decreases s.len(),
{
    if s.len() > 0 && white(s.last()) {
        let t = s.drop_last();
        lemma_trailing_white(t);
        let n = trimmed_end(s).len() as int;
        assert(t.take(n) =~= s.take(n));
        assert forall|i: int| n <= i < s.len() implies white(#[trigger] s[i]) by {
            if i < t.len() {
                assert(t[i] == s[i]);
            }
        }
    } else {
        assert(s.take(s.len() as int) =~= s);
    }
}

/// Trimming takes white space off the two ends of a text, all of it, and changes
/// nothing else: the text is what was taken off in front, the result, and what
/// was taken off behind.
pub proof fn trimming_takes_off_white_space_only(s: Seq<char>) -> (ends: (Seq<char>, Seq<char>))
    ensures
        s == ends.0 + trimmed(s) + ends.1,
        forall|i: int| 0 <= i < ends.0.len() ==> white(#[trigger] ends.0[i]),
        forall|i: int| 0 <= i < ends.1.len() ==> white(#[trigger] ends.1[i]),
        trimmed(s).len() > 0 ==> !white(trimmed(s)[0]) && !white(trimmed(s).last()),
{
    let rest = trimmed_start(s);
    lemma_leading_white(s);
    lemma_trailing_white(rest);
    trimmed_text_is_bare(s);
    let front = s.take(s.len() - rest.len());
    let back = rest.skip(trimmed(s).len() as int);
    assert(s =~= front + trimmed(s) + back);
    (front, back)
}

/// White space put round a text does not matter to its trimmed form.
pub proof fn white_space_around_does_not_matter(front: Seq<char>, s: Seq<char>, back: Seq<char>)
    requires
        forall|i: int| 0 <= i < front.len() ==> white(#[trigger] front[i]),
        forall|i: int| 0 <= i < back.len() ==> white(#[trigger] back[i]),
    ensures
        trimmed(front + s + back) == trimmed(s),
    decreases front.len() + back.len(),
{
    let whole = front + s + back;
    if front.len() > 0 {
        assert(whole[0] == front[0]);
        assert(whole.drop_first() =~= front.drop_first() + s + back);
        white_space_around_does_not_matter(front.drop_first(), s, back);
    } else if back.len() > 0 {
        let t = s + back;
        assert(whole =~= t);
        let shorter = s + back.drop_last();
        assert(t.drop_last() =~= shorter);
        assert(t.last() == back.last());
        assert(t.last() == t[t.len() - 1]);
        lemma_white_behind(t);
        white_space_around_does_not_matter(front, s, back.drop_last());
        assert(front + s + back.drop_last() =~= shorter);
    } else {
        assert(whole =~= s);
    }
}

proof fn lemma_white_behind(t: Seq<char>)
    requires
        t.len() > 0,
        white(t.last()),
    ensures
        trimmed(t) == trimmed(t.drop_last()),
    decreases t.len(),
{
    if white(t[0]) {
        if t.len() > 1 {
            lemma_white_behind(t.drop_first());
            assert(t.drop_first().drop_last() =~= t.drop_last().drop_first());
        } else {
            assert(t.drop_first() =~= Seq::empty());
            assert(t.drop_last() =~= Seq::empty());
        }
    }
}

/// Taking characters off the end of a text takes all of them off, and nothing
/// else: the text is the result followed by such characters only, and the
/// result does not end in one.
pub proof fn taking_off_is_exact(s: Seq<char>, a: char, b: char) -> (tail: Seq<char>)
    ensures
        s == without_trailing(s, a, b) + tail,
        forall|i: int| 0 <= i < tail.len() ==> #[trigger] tail[i] == a || tail[i] == b,
        !ends_in(without_trailing(s, a, b), a),
        !ends_in(without_trailing(s, a, b), b),
    decreases s.len(),
{
    if s.len() > 0 && (s.last() == a || s.last() == b) {
        let shorter = taking_off_is_exact(s.drop_last(), a, b);
        let tail = shorter.push(s.last());
        assert(s =~= s.drop_last().push(s.last()));
        assert(s =~= without_trailing(s, a, b) + tail);
        tail
    } else {
        assert(s =~= s + Seq::<char>::empty());
        Seq::empty()
    }
}

/// A text begins with another one exactly if it is that text with something
/// behind it.
pub proof fn beginnings_are_followed_by_the_rest(s: Seq<char>, p: Seq<char>)
    ensures
        begins(s, p) <==> exists|rest: Seq<char>| s == #[trigger] (p + rest),
{
    if begins(s, p) {
        let rest = s.skip(p.len() as int);
        assert(s =~= s.subrange(0, p.len() as int) + rest);
        assert(s == p + rest);
    }
    if exists|rest: Seq<char>| s == #[trigger] (p + rest) {
        let rest = choose|rest: Seq<char>| s == #[trigger] (p + rest);
        assert(s.subrange(0, p.len() as int) =~= p);
    }
}

/// A text mentions another one exactly if it is that text with something in
/// front of it and something behind it.
pub proof fn mentions_stand_inside(s: Seq<char>, p: Seq<char>)
    ensures
        mentions(s, p) <==> exists|a: Seq<char>, b: Seq<char>| s == #[trigger] (a + p + b),
{
    if mentions(s, p) {
        let i = choose|i: int| #[trigger] occurs_at(s, p, i);
        let a = s.take(i);
        let b = s.skip(i + p.len());
        assert(s =~= a + s.subrange(i, i + p.len()) + b);
        assert(s == a + p + b);
    }
    if exists|a: Seq<char>, b: Seq<char>| s == #[trigger] (a + p + b) {
        let (a, b) = choose|a: Seq<char>, b: Seq<char>| s == #[trigger] (a + p + b);
        assert(s.subrange(a.len() as int, (a.len() + p.len()) as int) =~= p);
        assert(occurs_at(s, p, a.len() as int));
    }
}

/// The position of a character is that of its first occurrence; behind the end
/// if there is none.
pub proof fn positions_are_first(s: Seq<char>, c: char)
    ensures
        0 <= position(s, c) <= s.len(),
        forall|i: int| 0 <= i < position(s, c) ==> #[trigger] s[i] != c,
        position(s, c) < s.len() ==> s[position(s, c)] == c,
    decreases s.len(),
{
    if s.len() > 0 && s[0] != c {
        let t = s.drop_first();
        positions_are_first(t, c);
        assert forall|i: int| 0 <= i < position(s, c) implies #[trigger] s[i] != c by {
            if i > 0 {
                assert(t[i - 1] == s[i]);
            }
        }
    }
}

/// Putting a text in small letters changes the ASCII capitals, each into the
/// letter that stands as far from 'a' as it stands from 'A', and nothing else.
pub proof fn small_letters_replace_capitals(s: Seq<char>, i: int)
    requires
        0 <= i < s.len(),
    ensures
        ascii_lower(s).len() == s.len(),
        'A' <= s[i] <= 'Z' ==> 'a' <= ascii_lower(s)[i] <= 'z' && ascii_lower(s)[i] as int
            - 'a' as int == s[i] as int - 'A' as int,
        !('A' <= s[i] <= 'Z') ==> ascii_lower(s)[i] == s[i],
{
}

/// A text that was entered is kept as it was entered; a missing one and an empty
/// one count alike as none.
pub proof fn empty_text_counts_as_none(s: Option<Seq<char>>)
    ensures
        nonempty(s) is Some <==> s is Some && s.unwrap().len() > 0,
        nonempty(s) is Some ==> nonempty(s) == s,
{
}

} // verus!
