//! Texts as sequences of characters: trimming, splitting, searching.

use vstd::prelude::*;

verus! {

/// A set of characters that text is trimmed of or split at.
#[derive(Clone, Copy, Debug, PartialEq, Eq)]
pub enum CharClass {
    /// The characters with the Unicode property White_Space.
    Whitespace,
    /// One character only.
    Only(char),
}

/// Whether `c` has the Unicode property White_Space.
pub open spec fn is_space(c: char) -> bool {
    let n = c as u32;
    ||| 0x09 <= n <= 0x0d
    ||| n == 0x20
    ||| n == 0x85
    ||| n == 0xa0
    ||| n == 0x1680
    ||| 0x2000 <= n <= 0x200a
    ||| n == 0x2028
    ||| n == 0x2029
    ||| n == 0x202f
    ||| n == 0x205f
    ||| n == 0x3000
}

impl CharClass {
    /// Whether `c` belongs to the class.
    pub open spec fn has(self, c: char) -> bool {
        match self {
            CharClass::Whitespace => is_space(c),
            CharClass::Only(only) => c == only,
        }
    }

    /// Whether `c` belongs to the class.
    pub fn holds(self, c: char) -> (b: bool)
        ensures
            b == self.has(c),
    {
        match self {
            CharClass::Whitespace => {
                let n: u32 = c as u32;
                let control = 0x09 <= n && n <= 0x0d;
                let latin = n == 0x20 || n == 0x85 || n == 0xa0;
                let spaces = n == 0x1680 || (0x2000 <= n && n <= 0x200a);
                let separators = n == 0x2028 || n == 0x2029;
                let narrow = n == 0x202f || n == 0x205f || n == 0x3000;
                control || latin || spaces || separators || narrow
            },
            CharClass::Only(only) => c == only,
        }
    }
}

/// How many characters at the start of `s` are in `class`.
pub open spec fn leading(s: Seq<char>, class: CharClass) -> nat
    decreases s.len(),
{
    if s.len() > 0 && class.has(s[0]) {
        1 + leading(s.drop_first(), class)
    } else {
        0
    }
}

/// How many characters at the end of `s` are in `class`.
pub open spec fn trailing(s: Seq<char>, class: CharClass) -> nat
    decreases s.len(),
{
    if s.len() > 0 && class.has(s.last()) {
        1 + trailing(s.drop_last(), class)
    } else {
        0
    }
}

/// `s` without the characters of `class` at its start and at its end.
pub open spec fn shave(s: Seq<char>, class: CharClass) -> Seq<char> {
    let rest = s.skip(leading(s, class) as int);
    rest.take(rest.len() - trailing(rest, class))
}

/// `s` without the whitespace around it.
pub open spec fn trim(s: Seq<char>) -> Seq<char> {
    shave(s, CharClass::Whitespace)
}

/// `s` without the run of `c` at its start and at its end.
pub open spec fn strip(s: Seq<char>, c: char) -> Seq<char> {
    shave(s, CharClass::Only(c))
}

/// Where the first `k` characters of `s` are in `class` and the next one is
/// not, `k` is the count of leading characters in the class.
pub proof fn lemma_leading(s: Seq<char>, class: CharClass, k: int)
    requires
        0 <= k <= s.len(),
        forall|j: int| 0 <= j < k ==> class.has(s[j]),
        k == s.len() || !class.has(s[k]),
    ensures
        leading(s, class) == k,
    decreases k,
{
    if k > 0 {
        lemma_leading(s.drop_first(), class, k - 1);
    }
}

/// Where the last `k` characters of `s` are in `class` and the one before
/// them is not, `k` is the count of trailing characters in the class.
pub proof fn lemma_trailing(s: Seq<char>, class: CharClass, k: int)
    requires
        0 <= k <= s.len(),
        forall|j: int| s.len() - k <= j < s.len() ==> class.has(s[j]),
        k == s.len() || !class.has(s[s.len() - k - 1]),
    ensures
        trailing(s, class) == k,
    decreases k,
{
    if k > 0 {
        lemma_trailing(s.drop_last(), class, k - 1);
    }
}

/// The characters of `v` from `from` up to `to`.
pub fn slice(v: &Vec<char>, from: usize, to: usize) -> (out: Vec<char>)
    requires
        from <= to <= v.len(),
    ensures
        out@ == v@.subrange(from as int, to as int),
{
    let mut out: Vec<char> = Vec::new();
    let mut i: usize = from;
    while i < to
        invariant
            from <= i <= to <= v.len(),
            out@ == v@.subrange(from as int, i as int),
        decreases to - i,
    {
        out.push(v[i]);
        i += 1;
    }
    out
}

/// Removes the characters of `class` from both ends of `v`.
pub fn shaved(v: &Vec<char>, class: CharClass) -> (out: Vec<char>)
    ensures
        out@ == shave(v@, class),
{
    let mut a: usize = 0;
    while a < v.len() && class.holds(v[a])
        invariant
            a <= v.len(),
            forall|j: int| 0 <= j < a ==> class.has(v@[j]),
        decreases v.len() - a,
    {
        a += 1;
    }
    let mut b: usize = v.len();
    while b > a && class.holds(v[b - 1])
        invariant
            a <= b <= v.len(),
            forall|j: int| b <= j < v.len() ==> class.has(v@[j]),
        decreases b,
    {
        b -= 1;
    }
    proof {
        lemma_leading(v@, class, a as int);
        let rest = v@.skip(a as int);
        lemma_trailing(rest, class, v.len() - b);
    }
    slice(v, a, b)
}

/// The index of the first character of `s` that is in `class`, or the length
/// of `s` where there is none.
pub open spec fn first_in(s: Seq<char>, class: CharClass) -> int
    decreases s.len(),
{
    if s.len() == 0 || class.has(s[0]) {
        0
    } else {
        1 + first_in(s.drop_first(), class)
    }
}

/// The pieces of `s` between the characters of `class`: one more piece than
/// there are such characters, empty pieces included.
pub open spec fn split(s: Seq<char>, class: CharClass) -> Seq<Seq<char>>
    decreases s.len(),
{
    let i = first_in(s, class);
    if 0 <= i < s.len() {
        seq![s.take(i)] + split(s.skip(i + 1), class)
    } else {
        seq![s]
    }
}

/// Where none of the first `k` characters of `s` is in `class` and the next
/// one is, or `s` ends there, `k` is the index of the first character in the
/// class.
pub proof fn lemma_first_in(s: Seq<char>, class: CharClass, k: int)
    requires
        0 <= k <= s.len(),
        forall|j: int| 0 <= j < k ==> !class.has(s[j]),
        k == s.len() || class.has(s[k]),
    ensures
        first_in(s, class) == k,
    decreases k,
{
    if k > 0 {
        lemma_first_in(s.drop_first(), class, k - 1);
    }
}

/// The texts that a vector of character vectors holds.
pub open spec fn views(pieces: Seq<Vec<char>>) -> Seq<Seq<char>> {
    Seq::new(pieces.len(), |i: int| pieces[i]@)
}

/// The text that an optional character vector holds.
pub open spec fn view_of(v: Option<Vec<char>>) -> Option<Seq<char>> {
    match v {
        Some(v) => Some(v@),
        None => None,
    }
}

/// Splits `v` at each character of `class`.
pub fn split_at(v: &Vec<char>, class: CharClass) -> (pieces: Vec<Vec<char>>)
    ensures
        views(pieces@) == split(v@, class),
{
    let mut pieces: Vec<Vec<char>> = Vec::new();
    let mut start: usize = 0;
    let mut i: usize = 0;
    assert(views(pieces@) + split(v@.skip(0), class) =~= split(v@, class)) by {
        assert(v@.skip(0) =~= v@);
    }
    while i < v.len()
        invariant
            start <= i <= v.len(),
            forall|j: int| start <= j < i ==> !class.has(v@[j]),
            views(pieces@) + split(v@.skip(start as int), class) == split(v@, class),
        decreases v.len() - i,
    {
        if class.holds(v[i]) {
            let piece = slice(v, start, i);
            proof {
                let rest = v@.skip(start as int);
                lemma_first_in(rest, class, i - start);
                assert(rest.take(i - start) =~= piece@);
                assert(rest.skip(i - start + 1) =~= v@.skip(i + 1));
            }
            pieces.push(piece);
            start = i + 1;
        }
        i += 1;
    }
    let piece = slice(v, start, v.len());
    proof {
        let rest = v@.skip(start as int);
        lemma_first_in(rest, class, rest.len() as int);
    }
    pieces.push(piece);
    pieces
}

/// Whether `needle` stands in `hay` at index `i`.
pub open spec fn occurs_at(hay: Seq<char>, needle: Seq<char>, i: int) -> bool {
    0 <= i && i + needle.len() <= hay.len() && hay.subrange(i, i + needle.len()) == needle
}

/// Whether `needle` occurs somewhere in `hay`.
pub open spec fn contains(hay: Seq<char>, needle: Seq<char>) -> bool {
    exists|i: int| occurs_at(hay, needle, i)
}

/// Whether `needle` stands in `hay` at index `i`.
pub fn matches_at(hay: &Vec<char>, needle: &Vec<char>, i: usize) -> (b: bool)
    requires
        i + needle.len() <= hay.len(),
    ensures
        b == occurs_at(hay@, needle@, i as int),
{
    let mut k: usize = 0;
    while k < needle.len()
        invariant
            k <= needle.len(),
            i + needle.len() <= hay.len(),
            forall|j: int| 0 <= j < k ==> hay@[i + j] == needle@[j],
        decreases needle.len() - k,
    {
        if hay[i + k] != needle[k] {
            return false;
        }
        k += 1;
    }
    assert(hay@.subrange(i as int, i + needle.len()) =~= needle@);
    true
}

/// Whether `needle` occurs somewhere in `hay`.
pub fn has_substring(hay: &Vec<char>, needle: &Vec<char>) -> (b: bool)
    ensures
        b == contains(hay@, needle@),
{
    if needle.len() > hay.len() {
        return false;
    }
    let last: usize = hay.len() - needle.len();
    let mut i: usize = 0;
    while i < last
        invariant
            i <= last,
            last == hay.len() - needle.len(),
            forall|j: int| 0 <= j < i ==> !occurs_at(hay@, needle@, j),
        decreases last - i,
    {
        if matches_at(hay, needle, i) {
            return true;
        }
        i += 1;
    }
    matches_at(hay, needle, last)
}

/// The lower-case form of an ASCII capital letter; any other character itself.
pub open spec fn lower(c: char) -> char {
    if 'A' <= c <= 'Z' {
        ((c as u8 + 32) as u8) as char
    } else {
        c
    }
}

/// `s` with its ASCII capital letters in lower case.
pub open spec fn folded(s: Seq<char>) -> Seq<char> {
    Seq::new(s.len(), |i: int| lower(s[i]))
}

/// Puts the ASCII capital letters of `v` in lower case.
pub fn fold_case(v: &Vec<char>) -> (out: Vec<char>)
    ensures
        out@ == folded(v@),
{
    let mut out: Vec<char> = Vec::new();
    let mut i: usize = 0;
    while i < v.len()
        invariant
            i <= v.len(),
            out@ == folded(v@).take(i as int),
        decreases v.len() - i,
    {
        let c = v[i];
        let l = if 'A' <= c && c <= 'Z' {
            ((c as u8) + 32) as char
        } else {
            c
        };
        out.push(l);
        i += 1;
    }
    out
}

/// The characters of `s`.
pub fn chars_of(s: &str) -> (v: Vec<char>)
    ensures
        v@ == s@,
{
    let mut v: Vec<char> = Vec::new();
    for c in it: s.chars()
        invariant
            v@ == it.seq().take(it.index()),
            it.seq() == s@,
    {
        v.push(c);
    }
    v
}

/// `String::push` of the standard library: appends `c` to `s`.
#[verifier::external_body]
fn push_char(s: &mut String, c: char)
    ensures
        final(s)@ == old(s)@.push(c),
{
    s.push(c)
}

/// The string that holds the characters of `v`.
pub fn string_of(v: &Vec<char>) -> (s: String)
    ensures
        s@ == v@,
{
    let mut s = String::new();
    let mut i: usize = 0;
    while i < v.len()
        invariant
            i <= v.len(),
            s@ == v@.take(i as int),
        decreases v.len() - i,
    {
        push_char(&mut s, v[i]);
        i += 1;
    }
    s
}

/// Whether `needle` occurs somewhere in `hay`.
pub fn includes(hay: &str, needle: &str) -> (b: bool)
    ensures
        b == contains(hay@, needle@),
{
    let h = chars_of(hay);
    let n = chars_of(needle);
    has_substring(&h, &n)
}

/// `a` followed by `b`.
pub fn joined(a: &str, b: &str) -> (s: String)
    ensures
        s@ == a@ + b@,
{
    a.to_owned().concat(b)
}

/// Whether `a` and `b` hold the same characters.
pub fn same_chars(a: &Vec<char>, b: &Vec<char>) -> (eq: bool)
    ensures
        eq == (a@ == b@),
{
    if a.len() != b.len() {
        return false;
    }
    let mut i: usize = 0;
    while i < a.len()
        invariant
            i <= a.len(),
            a.len() == b.len(),
            forall|j: int| 0 <= j < i ==> a@[j] == b@[j],
        decreases a.len() - i,
    {
        if a[i] != b[i] {
            return false;
        }
        i += 1;
    }
    assert(a@ =~= b@);
    true
}

/// Whether `a` and `b` hold the same characters.
pub fn same_text(a: &str, b: &str) -> (eq: bool)
    ensures
        eq == (a@ == b@),
{
    let x = chars_of(a);
    let y = chars_of(b);
    same_chars(&x, &y)
}

/// `s` without the whitespace around it.
pub fn trimmed(s: &str) -> (out: String)
    ensures
        out@ == trim(s@),
{
    string_of(&shaved(&chars_of(s), CharClass::Whitespace))
}

/// What the standard library writes for a string under `{:?}`: the text in
/// double quotes, with the characters that cannot stand there as they are
/// written as escapes.
pub uninterp spec fn debug_form(text: Seq<char>) -> Seq<char>;

/// `format!("{:?}", text)` of the standard library: writes a string slice in
/// its `Debug` form. The contract gives that form a name and no more: it is
/// the same for the same text.
#[verifier::external_body]
pub(crate) fn quoted(text: &str) -> (out: String)
    ensures
        out@ == debug_form(text@),
{
    format!("{:?}", text)
}

/// Splitting gives at least one piece.
pub proof fn lemma_split_has_pieces(s: Seq<char>, class: CharClass)
    ensures
        split(s, class).len() >= 1,
    decreases s.len(),
{
    let i = first_in(s, class);
    if 0 <= i < s.len() {
        lemma_split_has_pieces(s.skip(i + 1), class);
    }
}

/// `s` without one carriage return at its end.
pub open spec fn without_cr(s: Seq<char>) -> Seq<char> {
    if s.len() > 0 && s.last() == '\r' {
        s.drop_last()
    } else {
        s
    }
}

/// The lines of `s`. A line ends at a line feed, or at a carriage return
/// with a line feed behind it; neither belongs to the line. What stands
/// behind the last line feed is a line too, unless it is empty.
pub open spec fn lines(s: Seq<char>) -> Seq<Seq<char>> {
    let parts = split(s, CharClass::Only('\n'));
    let ended = Seq::new((parts.len() - 1) as nat, |i: int| without_cr(parts[i]));
    if parts.last().len() == 0 {
        ended
    } else {
        ended.push(parts.last())
    }
}

/// The lines of `v`.
pub fn lines_of(v: &Vec<char>) -> (out: Vec<Vec<char>>)
    ensures
        views(out@) == lines(v@),
{
    let parts = split_at(v, CharClass::Only('\n'));
    proof {
        lemma_split_has_pieces(v@, CharClass::Only('\n'));
    }
    let ghost all = split(v@, CharClass::Only('\n'));
    let ghost ended = Seq::new((all.len() - 1) as nat, |i: int| without_cr(all[i]));
    let mut out: Vec<Vec<char>> = Vec::new();
    let mut i: usize = 0;
    while i + 1 < parts.len()
        invariant
            i + 1 <= parts.len(),
            all == views(parts@),
            ended == Seq::new((all.len() - 1) as nat, |i: int| without_cr(all[i])),
            views(out@) == ended.take(i as int),
        decreases parts.len() - i,
    {
        let part = &parts[i];
        let n = part.len();
        let line = if n > 0 && part[n - 1] == '\r' {
            slice(part, 0, n - 1)
        } else {
            let line = slice(part, 0, n);
            assert(line@ =~= part@);
            line
        };
        let ghost before = views(out@);
        out.push(line);
        assert(views(out@) =~= before.push(line@));
        i += 1;
    }
    let last = &parts[parts.len() - 1];
    if last.len() > 0 {
        let line = slice(last, 0, last.len());
        assert(line@ =~= last@);
        let ghost before = views(out@);
        out.push(line);
        assert(views(out@) =~= before.push(line@));
    }
    out
}

/// The pieces of `parts` that are not empty, in their order.
pub open spec fn non_empty(parts: Seq<Seq<char>>) -> Seq<Seq<char>>
    decreases parts.len(),
{
    if parts.len() == 0 {
        Seq::empty()
    } else if parts.last().len() > 0 {
        non_empty(parts.drop_last()).push(parts.last())
    } else {
        non_empty(parts.drop_last())
    }
}

/// The words of `s`: the runs of characters between its whitespace.
pub open spec fn words(s: Seq<char>) -> Seq<Seq<char>> {
    non_empty(split(s, CharClass::Whitespace))
}

/// The words of `v`.
pub fn words_of(v: &Vec<char>) -> (out: Vec<Vec<char>>)
    ensures
        views(out@) == words(v@),
{
    let mut parts = split_at(v, CharClass::Whitespace);
    let ghost all = views(parts@);
    let mut out: Vec<Vec<char>> = Vec::new();
    let mut i: usize = 0;
    while i < parts.len()
        invariant
            i <= parts.len(),
            all == views(parts@),
            views(out@) == non_empty(all.take(i as int)),
        decreases parts.len() - i,
    {
        proof {
            assert(all.take(i + 1).drop_last() =~= all.take(i as int));
        }
        if parts[i].len() > 0 {
            let word = slice(&parts[i], 0, parts[i].len());
            assert(word@ =~= parts@[i as int]@);
            out.push(word);
        }
        i += 1;
    }
    assert(all.take(i as int) =~= all);
    out
}

/// `lines` put together again, with a line feed between one and the next.
pub open spec fn join_lines(lines: Seq<Seq<char>>) -> Seq<char>
    decreases lines.len(),
{
    if lines.len() == 0 {
        Seq::empty()
    } else if lines.len() == 1 {
        lines[0]
    } else {
        join_lines(lines.drop_last()) + seq!['\n'] + lines.last()
    }
}

/// Appends the characters of `more` to `v`.
pub fn append_chars(v: &mut Vec<char>, more: &Vec<char>)
    ensures
        final(v)@ == old(v)@ + more@,
{
    let mut i: usize = 0;
    while i < more.len()
        invariant
            i <= more.len(),
            v@ == old(v)@ + more@.take(i as int),
        decreases more.len() - i,
    {
        v.push(more[i]);
        i += 1;
    }
}

/// Puts `lines` together, with a line feed between one and the next.
pub fn joined_lines(lines: &Vec<Vec<char>>) -> (out: Vec<char>)
    ensures
        out@ == join_lines(views(lines@)),
{
    let mut out: Vec<char> = Vec::new();
    let ghost all = views(lines@);
    let mut i: usize = 0;
    while i < lines.len()
        invariant
            i <= lines.len(),
            all == views(lines@),
            out@ == join_lines(all.take(i as int)),
        decreases lines.len() - i,
    {
        proof {
            assert(all.take(i + 1).drop_last() =~= all.take(i as int));
        }
        if i > 0 {
            out.push('\n');
        }
        append_chars(&mut out, &lines[i]);
        i += 1;
    }
    assert(all.take(i as int) =~= all);
    out
}

/// `n` spaces.
pub open spec fn spaces(n: nat) -> Seq<char> {
    Seq::new(n, |i: int| ' ')
}

/// `s` filled up with spaces at its end to `width` characters, where it is
/// shorter.
pub open spec fn align_left(s: Seq<char>, width: nat) -> Seq<char> {
    if s.len() >= width {
        s
    } else {
        s + spaces((width - s.len()) as nat)
    }
}

/// `s` filled up with spaces at its start to `width` characters, where it is
/// shorter.
pub open spec fn align_right(s: Seq<char>, width: nat) -> Seq<char> {
    if s.len() >= width {
        s
    } else {
        spaces((width - s.len()) as nat) + s
    }
}

/// `n` spaces.
pub fn blank(n: usize) -> (out: Vec<char>)
    ensures
        out@ == spaces(n as nat),
{
    let mut out: Vec<char> = Vec::new();
    let mut i: usize = 0;
    while i < n
        invariant
            i <= n,
            out@ == spaces(i as nat),
        decreases n - i,
    {
        out.push(' ');
        i += 1;
    }
    out
}

/// Fills `v` up with spaces at its end to `width` characters.
pub fn aligned_left(v: &Vec<char>, width: usize) -> (out: Vec<char>)
    ensures
        out@ == align_left(v@, width as nat),
{
    let mut out = slice(v, 0, v.len());
    if v.len() < width {
        append_chars(&mut out, &blank(width - v.len()));
    }
    out
}

/// Fills `v` up with spaces at its start to `width` characters.
pub fn aligned_right(v: &Vec<char>, width: usize) -> (out: Vec<char>)
    ensures
        out@ == align_right(v@, width as nat),
{
    if v.len() < width {
        let mut out = blank(width - v.len());
        append_chars(&mut out, v);
        out
    } else {
        let out = slice(v, 0, v.len());
        out
    }
}

/// A text that holds no character of `class` is one piece.
pub proof fn lemma_split_whole(s: Seq<char>, class: CharClass)
    requires
        forall|i: int| 0 <= i < s.len() ==> !class.has(s[i]),
    ensures
        split(s, class) == seq![s],
{
    lemma_first_in(s, class, s.len() as int);
}

/// A text that holds no character of `class`, then such a character, then
/// more: the first text is the first piece, and the others are those of the
/// rest.
pub proof fn lemma_split_joined(a: Seq<char>, sep: char, b: Seq<char>, class: CharClass)
    requires
        class.has(sep),
        forall|i: int| 0 <= i < a.len() ==> !class.has(a[i]),
    ensures
        split(a + seq![sep] + b, class) == seq![a] + split(b, class),
{
    let s = a + seq![sep] + b;
    lemma_first_in(s, class, a.len() as int);
    assert(s.take(a.len() as int) =~= a);
    assert(s.skip(a.len() as int + 1) =~= b);
}

/// A text that neither starts nor ends with whitespace has nothing to trim.
pub proof fn lemma_trim_keeps(s: Seq<char>)
    requires
        s.len() > 0,
        !is_space(s[0]),
        !is_space(s.last()),
    ensures
        trim(s) == s,
{
    lemma_leading(s, CharClass::Whitespace, 0);
    lemma_trailing(s, CharClass::Whitespace, 0);
}

/// A text without `c`, set between two of `c`, is what is left when `c` is
/// stripped from both ends.
pub proof fn lemma_strip_enclosed(inner: Seq<char>, c: char)
    requires
        forall|i: int| 0 <= i < inner.len() ==> inner[i] != c,
    ensures
        strip(seq![c] + inner + seq![c], c) == inner,
{
    let class = CharClass::Only(c);
    let s = seq![c] + inner + seq![c];
    if inner.len() == 0 {
        lemma_leading(s, class, 2);
        let rest = s.skip(2);
        lemma_trailing(rest, class, 0);
    } else {
        lemma_leading(s, class, 1);
        let rest = s.skip(1);
        lemma_trailing(rest, class, 1);
    }
}

} // verus!
