//! Character-level text operations with their mathematical meaning: the
//! trimming, prefix and replacement steps that the card logic is made of.

use vstd::prelude::*;

verus! {

broadcast use vstd::string::axiom_spec_iter;

/// The Unicode `White_Space` property, by which `str::trim` decides what to
/// strip.
pub open spec fn is_white_space(c: char) -> bool {
    let u = c as u32;
    ||| 0x09 <= u <= 0x0d
    ||| u == 0x20
    ||| u == 0x85
    ||| u == 0xa0
    ||| u == 0x1680
    ||| 0x2000 <= u <= 0x200a
    ||| u == 0x2028
    ||| u == 0x2029
    ||| u == 0x202f
    ||| u == 0x205f
    ||| u == 0x3000
}

/// A set of characters that a trim strips from the ends of a text.
#[derive(Clone, Copy, Debug)]
pub enum CharClass {
    /// Characters with the Unicode `White_Space` property.
    WhiteSpace,
    /// One given character.
    Exactly(char),
}

pub open spec fn in_class(c: char, class: CharClass) -> bool {
    match class {
        CharClass::WhiteSpace => is_white_space(c),
        CharClass::Exactly(d) => c == d,
    }
}

/// `s` without its leading characters of `class`.
pub open spec fn trim_start_class(s: Seq<char>, class: CharClass) -> Seq<char>
    decreases s.len(),
{
    if s.len() > 0 && in_class(s[0], class) {
        trim_start_class(s.drop_first(), class)
    } else {
        s
    }
}

/// `s` without its trailing characters of `class`.
pub open spec fn trim_end_class(s: Seq<char>, class: CharClass) -> Seq<char>
    decreases s.len(),
{
    if s.len() > 0 && in_class(s.last(), class) {
        trim_end_class(s.drop_last(), class)
    } else {
        s
    }
}

/// `s` without its leading and trailing characters of `class`.
pub open spec fn trim_class(s: Seq<char>, class: CharClass) -> Seq<char> {
    trim_end_class(trim_start_class(s, class), class)
}

/// What `str::trim` gives back.
pub open spec fn trimmed(s: Seq<char>) -> Seq<char> {
    trim_class(s, CharClass::WhiteSpace)
}

pub open spec fn is_prefix(p: Seq<char>, s: Seq<char>) -> bool {
    p.len() <= s.len() && s.subrange(0, p.len() as int) == p
}

/// `s` with every `from` replaced by `to`.
pub open spec fn replace_char(s: Seq<char>, from: char, to: char) -> Seq<char> {
    Seq::new(s.len(), |i: int| if s[i] == from { to } else { s[i] })
}

/// The characters of `s`, in order.
pub fn chars_of(s: &str) -> (v: Vec<char>)
    ensures
        v@ == s@,
{
    let mut v: Vec<char> = Vec::new();
    for c in it: s.chars()
        invariant
            it.seq() == s@,
            v@ == it.seq().take(it.index()),
    {
        v.push(c);
    }
    v
}

/// Collects characters into a `String` (std's `FromIterator<&char>` for
/// `String`); claimed: the string holds exactly those characters, in order.
#[verifier::external_body]
pub(crate) fn string_of(v: &[char]) -> (s: String)
    ensures
        s@ == v@,
{
    String::from_iter(v)
}

/// The text of a string literal or slice as an owned `String`.
pub fn owned(s: &str) -> (r: String)
    ensures
        r@ == s@,
{
    s.to_owned()
}

/// Whether `c` has the Unicode `White_Space` property.
pub fn is_white_space_char(c: char) -> (b: bool)
    ensures
        b == is_white_space(c),
{
    let u = c as u32;
    (0x09 <= u && u <= 0x0d) || u == 0x20 || u == 0x85 || u == 0xa0 || u == 0x1680 || (0x2000
        <= u && u <= 0x200a) || u == 0x2028 || u == 0x2029 || u == 0x202f || u == 0x205f || u
        == 0x3000
}

pub fn class_contains(c: char, class: CharClass) -> (b: bool)
    ensures
        b == in_class(c, class),
{
    match class {
        CharClass::WhiteSpace => is_white_space_char(c),
        CharClass::Exactly(d) => c == d,
    }
}

/// The characters of `v` from `lo` up to `hi`.
pub fn copy_range(v: &[char], lo: usize, hi: usize) -> (r: Vec<char>)
    requires
        lo <= hi <= v@.len(),
    ensures
        r@ == v@.subrange(lo as int, hi as int),
{
    let mut r: Vec<char> = Vec::new();
    let mut i = lo;
    while i < hi
        invariant
            lo <= i <= hi <= v@.len(),
            r@ == v@.subrange(lo as int, i as int),
        decreases hi - i,
    {
        r.push(v[i]);
        i = i + 1;
        assert(r@ =~= v@.subrange(lo as int, i as int));
    }
    r
}

/// Index of the first character of `v` at or after `lo` that is not in
/// `class`, with what trimming the front of `v[lo..hi]` leaves.
fn first_kept(v: &[char], lo: usize, hi: usize, class: CharClass) -> (i: usize)
    requires
        lo <= hi <= v@.len(),
    ensures
        lo <= i <= hi,
        trim_start_class(v@.subrange(lo as int, hi as int), class) == v@.subrange(
            i as int,
            hi as int,
        ),
{
    let mut i = lo;
    while i < hi && class_contains(v[i], class)
        invariant
            lo <= i <= hi <= v@.len(),
            trim_start_class(v@.subrange(lo as int, hi as int), class) == trim_start_class(
                v@.subrange(i as int, hi as int),
                class,
            ),
        decreases hi - i,
    {
        assert(v@.subrange(i as int, hi as int).drop_first() =~= v@.subrange(
            i + 1,
            hi as int,
        ));
        i = i + 1;
    }
    i
}

/// End of what trimming the back of `v[lo..hi]` leaves.
fn last_kept(v: &[char], lo: usize, hi: usize, class: CharClass) -> (j: usize)
    requires
        lo <= hi <= v@.len(),
    ensures
        lo <= j <= hi,
        trim_end_class(v@.subrange(lo as int, hi as int), class) == v@.subrange(
            lo as int,
            j as int,
        ),
{
    let mut j = hi;
    while j > lo && class_contains(v[j - 1], class)
        invariant
            lo <= j <= hi <= v@.len(),
            trim_end_class(v@.subrange(lo as int, hi as int), class) == trim_end_class(
                v@.subrange(lo as int, j as int),
                class,
            ),
        decreases j - lo,
    {
        assert(v@.subrange(lo as int, j as int).drop_last() =~= v@.subrange(
            lo as int,
            j - 1,
        ));
        j = j - 1;
    }
    j
}

/// `v` without its leading characters of `class` (`trim_start_matches`).
pub fn trim_start_chars(v: &[char], class: CharClass) -> (r: Vec<char>)
    ensures
        r@ == trim_start_class(v@, class),
{
    assert(v@.subrange(0, v@.len() as int) =~= v@);
    let i = first_kept(v, 0, v.len(), class);
    copy_range(v, i, v.len())
}

/// `v` without its trailing characters of `class` (`trim_end_matches`).
pub fn trim_end_chars(v: &[char], class: CharClass) -> (r: Vec<char>)
    ensures
        r@ == trim_end_class(v@, class),
{
    assert(v@.subrange(0, v@.len() as int) =~= v@);
    let j = last_kept(v, 0, v.len(), class);
    copy_range(v, 0, j)
}

/// `v` without its leading and trailing characters of `class`
/// (`trim_matches`, or `trim` for white space).
pub fn trim_chars(v: &[char], class: CharClass) -> (r: Vec<char>)
    ensures
        r@ == trim_class(v@, class),
{
    assert(v@.subrange(0, v@.len() as int) =~= v@);
    let i = first_kept(v, 0, v.len(), class);
    let j = last_kept(v, i, v.len(), class);
    copy_range(v, i, j)
}

/// `s` without leading and trailing white space, as `str::trim` gives it.
pub fn trim(s: &str) -> (r: String)
    ensures
        r@ == trimmed(s@),
{
    let v = chars_of(s);
    let t = trim_chars(v.as_slice(), CharClass::WhiteSpace);
    string_of(t.as_slice())
}

/// Whether `s` begins with `p`.
pub fn starts_with_chars(s: &[char], p: &[char]) -> (b: bool)
    ensures
        b == is_prefix(p@, s@),
{
    if p.len() > s.len() {
        return false;
    }
    let mut i: usize = 0;
    while i < p.len()
        invariant
            p@.len() <= s@.len(),
            0 <= i <= p@.len(),
            forall|k: int| 0 <= k < i ==> s@[k] == p@[k],
        decreases p@.len() - i,
    {
        if s[i] != p[i] {
            assert(s@.subrange(0, p@.len() as int)[i as int] != p@[i as int]);
            return false;
        }
        i = i + 1;
    }
    assert(s@.subrange(0, p@.len() as int) =~= p@);
    true
}

/// Whether `a` and `b` hold the same characters.
pub fn chars_equal(a: &[char], b: &[char]) -> (e: bool)
    ensures
        e == (a@ == b@),
{
    if a.len() != b.len() {
        return false;
    }
    let mut i: usize = 0;
    while i < a.len()
        invariant
            a@.len() == b@.len(),
            0 <= i <= a@.len(),
            forall|k: int| 0 <= k < i ==> a@[k] == b@[k],
        decreases a@.len() - i,
    {
        if a[i] != b[i] {
            return false;
        }
        i = i + 1;
    }
    assert(a@ =~= b@);
    true
}

/// `v` with every `from` replaced by `to` (`str::replace` with characters).
pub fn replace_chars(v: &[char], from: char, to: char) -> (r: Vec<char>)
    ensures
        r@ == replace_char(v@, from, to),
{
    let mut r: Vec<char> = Vec::new();
    let mut i: usize = 0;
    while i < v.len()
        invariant
            0 <= i <= v@.len(),
            r@ == replace_char(v@.subrange(0, i as int), from, to),
        decreases v@.len() - i,
    {
        let c = if v[i] == from {
            to
        } else {
            v[i]
        };
        r.push(c);
        i = i + 1;
        assert(r@ =~= replace_char(v@.subrange(0, i as int), from, to));
    }
    assert(v@.subrange(0, v@.len() as int) =~= v@);
    r
}

proof fn lemma_trim_start_shape(s: Seq<char>, class: CharClass)
    ensures
        trim_start_class(s, class).len() <= s.len(),
        trim_start_class(s, class) == s.subrange(
            s.len() - trim_start_class(s, class).len(),
            s.len() as int,
        ),
        trim_start_class(s, class).len() > 0 ==> !in_class(trim_start_class(s, class)[0], class),
    decreases s.len(),
{
    if s.len() > 0 && in_class(s[0], class) {
        lemma_trim_start_shape(s.drop_first(), class);
        let t = trim_start_class(s.drop_first(), class);
        assert(s.drop_first().subrange(
            s.drop_first().len() - t.len(),
            s.drop_first().len() as int,
        ) =~= s.subrange(s.len() - t.len(), s.len() as int));
    } else {
        assert(s.subrange(0, s.len() as int) =~= s);
    }
}

proof fn lemma_trim_end_shape(s: Seq<char>, class: CharClass)
    ensures
        trim_end_class(s, class).len() <= s.len(),
        trim_end_class(s, class) == s.subrange(0, trim_end_class(s, class).len() as int),
        trim_end_class(s, class).len() > 0 ==> !in_class(trim_end_class(s, class).last(), class),
    decreases s.len(),
{
    if s.len() > 0 && in_class(s.last(), class) {
        lemma_trim_end_shape(s.drop_last(), class);
        let t = trim_end_class(s.drop_last(), class);
        assert(s.drop_last().subrange(0, t.len() as int) =~= s.subrange(0, t.len() as int));
    } else {
        assert(s.subrange(0, s.len() as int) =~= s);
    }
}

/// Trimming is idempotent: a trimmed text has nothing left to trim.
pub proof fn lemma_trim_idempotent(s: Seq<char>, class: CharClass)
    ensures
        trim_class(trim_class(s, class), class) == trim_class(s, class),
{
    let u = trim_start_class(s, class);
    let t = trim_end_class(u, class);
    lemma_trim_start_shape(s, class);
    lemma_trim_end_shape(u, class);
    if t.len() > 0 {
        assert(t[0] == u[0]);
        assert(trim_start_class(t, class) == t);
        assert(trim_end_class(t, class) == t);
    } else {
        assert(trim_start_class(t, class) == t);
        assert(trim_end_class(t, class) == t);
    }
}

/// Replacing a character changes the positions that hold it into the new
/// character and leaves every other position as it was; a text without the
/// character comes back unchanged.
pub proof fn lemma_replace_char_positions(s: Seq<char>, from: char, to: char)
    ensures
        replace_char(s, from, to).len() == s.len(),
        forall|i: int|
            0 <= i < s.len() && s[i] == from ==> #[trigger] replace_char(s, from, to)[i] == to,
        forall|i: int|
            0 <= i < s.len() && s[i] != from ==> #[trigger] replace_char(s, from, to)[i] == s[i],
        !s.contains(from) ==> replace_char(s, from, to) == s,
{
    if !s.contains(from) {
        assert forall|i: int| 0 <= i < s.len() implies replace_char(s, from, to)[i] == s[i] by {
            if s[i] == from {
                assert(s.contains(from));
            }
        }
        assert(replace_char(s, from, to) =~= s);
    }
}

/// The line terminators (LF, VT, FF, CR, NEL, LS, PS) and the ASCII
/// white-space characters (tab, LF, FF, CR, space) all carry the Unicode
/// `White_Space` property, so trimming strips them.
pub proof fn lemma_line_breaks_are_white_space(c: char)
    requires
        c == '\n' || c == '\u{b}' || c == '\u{c}' || c == '\r' || c == '\u{85}' || c
            == '\u{2028}' || c == '\u{2029}' || c == '\t' || c == ' ',
    ensures
        is_white_space(c),
        in_class(c, CharClass::WhiteSpace),
{
}

/// Adding a character of the trimmed class at either end of a text does not
/// change what trimming leaves.
pub proof fn lemma_trim_ignores_padding(s: Seq<char>, c: char, class: CharClass)
    requires
        in_class(c, class),
    ensures
        trim_class(s.push(c), class) == trim_class(s, class),
        trim_class(seq![c] + s, class) == trim_class(s, class),
    decreases s.len(),
{
    assert((seq![c] + s).drop_first() =~= s);
    if s.len() == 0 {
        assert(s.push(c).drop_first() =~= s);
    } else if in_class(s[0], class) {
        assert(s.push(c).drop_first() =~= s.drop_first().push(c));
        lemma_trim_ignores_padding(s.drop_first(), c, class);
    } else {
        assert(trim_start_class(s.push(c), class) == s.push(c));
        assert(s.push(c).drop_last() =~= s);
    }
}

/// A line break sent at the end of a text field (CR LF, or LF alone) does
/// not change what trimming leaves; a field holding only a line break is
/// blank.
pub proof fn lemma_trim_drops_line_break(s: Seq<char>)
    ensures
        trimmed(s + seq!['\r', '\n']) == trimmed(s),
        trimmed(s.push('\n')) == trimmed(s),
        trimmed(seq!['\r', '\n']).len() == 0,
{
    lemma_line_breaks_are_white_space('\r');
    lemma_line_breaks_are_white_space('\n');
    assert(s + seq!['\r', '\n'] =~= s.push('\r').push('\n'));
    lemma_trim_ignores_padding(s.push('\r'), '\n', CharClass::WhiteSpace);
    lemma_trim_ignores_padding(s, '\r', CharClass::WhiteSpace);
    lemma_trim_ignores_padding(s, '\n', CharClass::WhiteSpace);
    let e = Seq::<char>::empty();
    assert(seq!['\r', '\n'] =~= e.push('\r').push('\n'));
    lemma_trim_ignores_padding(e.push('\r'), '\n', CharClass::WhiteSpace);
    lemma_trim_ignores_padding(e, '\r', CharClass::WhiteSpace);
}

} // verus!
