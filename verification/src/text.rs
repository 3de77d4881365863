//! Character-level helpers shared by the library: decimal rendering of
//! integers, conversion between `String` and character vectors, and
//! concatenation with exact contracts over `Seq<char>`.

use vstd::prelude::*;

verus! {

/// The decimal digits of a natural number, most significant first.
pub open spec fn decimal_digits(n: nat) -> Seq<char>
    decreases n,
{
    if n < 10 {
        seq![digit_char(n)]
    } else {
        decimal_digits(n / 10) + seq![digit_char(n % 10)]
    }
}

/// The ASCII digit for a value below ten.
pub open spec fn digit_char(d: nat) -> char {
    if d == 0 { '0' }
    else if d == 1 { '1' }
    else if d == 2 { '2' }
    else if d == 3 { '3' }
    else if d == 4 { '4' }
    else if d == 5 { '5' }
    else if d == 6 { '6' }
    else if d == 7 { '7' }
    else if d == 8 { '8' }
    else { '9' }
}

/// How an integer is written by `Display`: an optional minus sign followed by
/// the decimal digits of its magnitude.
pub open spec fn int_text(n: int) -> Seq<char> {
    if n < 0 {
        seq!['-'] + decimal_digits((-n) as nat)
    } else {
        decimal_digits(n as nat)
    }
}

/// The characters of a string, as a vector.
pub fn chars_of(s: &str) -> (v: Vec<char>)
    ensures
        v@ == s@,
{
    broadcast use vstd::string::axiom_spec_iter;
    let mut v: Vec<char> = Vec::new();
    for c in it: s.chars()
        invariant
            v@ == it.seq().take(it.index() as int),
            it.seq() == s@,
    {
        v.push(c);
    }
    v
}

/// A string holding exactly the given characters (std's `String::from_iter`
/// over chars, which appends each character in order).
#[verifier::external_body]
pub(crate) fn string_from_chars(v: Vec<char>) -> (s: String)
    ensures
        s@ == v@,
{
    String::from_iter(v)
}

fn digit_of(d: u64) -> (c: char)
    requires
        d < 10,
    ensures
        c == digit_char(d as nat),
{
    if d == 0 { '0' }
    else if d == 1 { '1' }
    else if d == 2 { '2' }
    else if d == 3 { '3' }
    else if d == 4 { '4' }
    else if d == 5 { '5' }
    else if d == 6 { '6' }
    else if d == 7 { '7' }
    else if d == 8 { '8' }
    else { '9' }
}

/// Decimal digits of an unsigned value.
pub fn u64_digits(n: u64) -> (v: Vec<char>)
    ensures
        v@ == decimal_digits(n as nat),
    decreases n,
{
    if n < 10 {
        let mut v: Vec<char> = Vec::new();
        v.push(digit_of(n));
        v
    } else {
        let mut v = u64_digits(n / 10);
        v.push(digit_of(n % 10));
        v
    }
}

/// `Display` text of a signed integer.
pub fn i64_to_string(n: i64) -> (s: String)
    ensures
        s@ == int_text(n as int),
{
    if n < 0 {
        let magnitude: u64 = if n == i64::MIN {
            9223372036854775808u64
        } else {
            (-n) as u64
        };
        let mut v: Vec<char> = Vec::new();
        v.push('-');
        let mut digits = u64_digits(magnitude);
        v.append(&mut digits);
        string_from_chars(v)
    } else {
        let v = u64_digits(n as u64);
        string_from_chars(v)
    }
}

/// The concatenation of two strings.
pub fn concat(a: &str, b: &str) -> (s: String)
    ensures
        s@ == a@ + b@,
{
    let mut s = a.to_string();
    s.append(b);
    s
}

/// How `Debug` writes a string: quoted, with special characters escaped.
/// Rendered by std's `Debug` implementation for `str`.
pub uninterp spec fn str_debug(s: Seq<char>) -> Seq<char>;

/// The `Debug` text of a string slice (std's `Debug` for `str`).
#[verifier::external_body]
pub(crate) fn debug_str(s: &str) -> (r: String)
    ensures
        r@ == str_debug(s@),
{
    format!("{:?}", s)
}

/// The items of a `Debug` list, separated by `", "`.
pub open spec fn debug_items(items: Seq<Seq<char>>) -> Seq<char>
    decreases items.len(),
{
    if items.len() == 0 {
        Seq::empty()
    } else if items.len() == 1 {
        str_debug(items[0])
    } else {
        debug_items(items.drop_last()) + ", "@ + str_debug(items.last())
    }
}

/// How `Debug` writes a `Vec<String>`: `["a", "b"]`.
pub open spec fn string_list_debug(items: Seq<Seq<char>>) -> Seq<char> {
    "["@ + debug_items(items) + "]"@
}

/// How `Debug` writes an `Option<String>`.
pub open spec fn option_string_debug(o: Option<Seq<char>>) -> Seq<char> {
    match o {
        Some(s) => "Some("@ + str_debug(s) + ")"@,
        None => "None"@,
    }
}

/// The `Debug` text of a list of strings.
pub fn debug_string_list(items: &Vec<String>) -> (r: String)
    ensures
        r@ == string_list_debug(items.deep_view()),
{
    let mut body = String::new();
    let mut i: usize = 0;
    while i < items.len()
        invariant
            i <= items.len(),
            body@ == debug_items(items.deep_view().take(i as int)),
        decreases items.len() - i,
    {
        let item = debug_str(items[i].as_str());
        if i > 0 {
            body.append(", ");
        }
        body.append(item.as_str());
        proof {
            let d = items.deep_view();
            assert(d.take(i + 1).drop_last() =~= d.take(i as int));
            assert(d.take(i + 1).last() == items[i as int]@);
        }
        i = i + 1;
    }
    assert(items.deep_view().take(items.len() as int) =~= items.deep_view());
    let mut r = "[".to_string();
    r.append(body.as_str());
    r.append("]");
    r
}

/// The `Debug` text of an optional string.
pub fn debug_option_string(o: &Option<String>) -> (r: String)
    ensures
        r@ == option_string_debug(match o {
            Some(s) => Some(s@),
            None => None,
        }),
{
    match o {
        Some(s) => {
            let mut r = "Some(".to_string();
            r.append(debug_str(s.as_str()).as_str());
            r.append(")");
            r
        },
        None => "None".to_string(),
    }
}

/// A copy of a list of strings.
pub fn clone_strings(v: &Vec<String>) -> (r: Vec<String>)
    ensures
        r.deep_view() == v.deep_view(),
{
    let mut r: Vec<String> = Vec::new();
    let mut i: usize = 0;
    while i < v.len()
        invariant
            i <= v.len(),
            r.deep_view() =~= v.deep_view().take(i as int),
        decreases v.len() - i,
    {
        let s = v[i].clone();
        let ghost before = r.deep_view();
        r.push(s);
        proof {
            assert(r.deep_view() =~= before.push(v.deep_view()[i as int]));
            assert(v.deep_view().take(i + 1) =~= v.deep_view().take(i as int).push(
                v.deep_view()[i as int],
            ));
        }
        i = i + 1;
    }
    assert(v.deep_view().take(v.len() as int) =~= v.deep_view());
    r
}

/// Whether two strings hold the same characters.
pub fn string_equal(a: &String, b: &String) -> (r: bool)
    ensures
        r == (a@ == b@),
{
    a.eq(b)
}

/// Whether two string slices hold the same characters.
pub fn str_equal(a: &str, b: &str) -> (r: bool)
    ensures
        r == (a@ == b@),
{
    let x = chars_of(a);
    let y = chars_of(b);
    if x.len() != y.len() {
        return false;
    }
    let mut i: usize = 0;
    while i < x.len()
        invariant
            x@ == a@,
            y@ == b@,
            x.len() == y.len(),
            i <= x.len(),
            forall|j: int| 0 <= j < i ==> x@[j] == y@[j],
        decreases x.len() - i,
    {
        if x[i] != y[i] {
            return false;
        }
        i = i + 1;
    }
    assert(x@ =~= y@);
    true
}

/// Whether `needle` occurs in `hay` at position `i`.
pub open spec fn occurs_at(hay: Seq<char>, needle: Seq<char>, i: int) -> bool {
    0 <= i && i + needle.len() <= hay.len() && hay.subrange(i, i + needle.len()) == needle
}

/// Whether `needle` occurs anywhere in `hay`.
pub open spec fn contains_text(hay: Seq<char>, needle: Seq<char>) -> bool {
    exists|i: int| occurs_at(hay, needle, i)
}

/// Whether `needle` occurs in `hay` at position `i`, checked character by character.
pub fn matches_at(hay: &Vec<char>, needle: &Vec<char>, i: usize) -> (r: bool)
    ensures
        r == occurs_at(hay@, needle@, i as int),
{
    if needle.len() > hay.len() || i > hay.len() - needle.len() {
        return false;
    }
    let mut k: usize = 0;
    while k < needle.len()
        invariant
            i + needle.len() <= hay.len(),
            k <= needle.len(),
            forall|j: int| 0 <= j < k ==> hay@[i + j] == needle@[j],
        decreases needle.len() - k,
    {
        if hay[i + k] != needle[k] {
            proof {
                assert(hay@.subrange(i as int, i + needle.len())[k as int] != needle@[k as int]);
            }
            return false;
        }
        k = k + 1;
    }
    assert(hay@.subrange(i as int, i + needle.len()) =~= needle@);
    true
}

/// The first position at or after `from` where `needle` occurs in `hay`.
pub fn find_from(hay: &Vec<char>, needle: &Vec<char>, from: usize) -> (r: Option<usize>)
    ensures
        match r {
            Some(i) => from <= i && occurs_at(hay@, needle@, i as int) && forall|j: int|
                from <= j < i ==> !occurs_at(hay@, needle@, j),
            None => forall|j: int| from <= j ==> !occurs_at(hay@, needle@, j),
        },
{
    let mut i = from;
    while i < hay.len()
        invariant
            from <= i,
            forall|j: int| from <= j < i ==> !occurs_at(hay@, needle@, j),
        decreases hay.len() - i,
    {
        if matches_at(hay, needle, i) {
            return Some(i);
        }
        i = i + 1;
    }
    if i == hay.len() && matches_at(hay, needle, i) {
        return Some(i);
    }
    None
}

/// Whether `needle` occurs in `hay`.
pub fn str_contains(hay: &str, needle: &str) -> (r: bool)
    ensures
        r == contains_text(hay@, needle@),
{
    let h = chars_of(hay);
    let n = chars_of(needle);
    match find_from(&h, &n, 0) {
        Some(i) => true,
        None => false,
    }
}

/// Appends the characters of a string to a character vector.
pub fn push_str(v: &mut Vec<char>, s: &str)
    ensures
        final(v)@ == old(v)@ + s@,
{
    let mut c = chars_of(s);
    v.append(&mut c);
}

/// A class of characters that trimming removes.
#[derive(Debug, Clone, Copy, PartialEq, Eq, Structural)]
pub enum TrimClass {
    /// Unicode white space.
    WhiteSpace,
    /// The table bar `|`.
    Bar,
}

/// Whether a character is Unicode white space (the `White_Space` property,
/// which `char::is_whitespace`, `str::trim` and `str::split_whitespace` use).
pub open spec fn is_white_space(c: char) -> bool {
    ('\u{9}' <= c && c <= '\u{d}') || c == ' ' || c == '\u{85}' || c == '\u{a0}' || c == '\u{1680}'
        || ('\u{2000}' <= c && c <= '\u{200a}') || c == '\u{2028}' || c == '\u{2029}' || c
        == '\u{202f}' || c == '\u{205f}' || c == '\u{3000}'
}

/// Whether a character is white space.
pub fn char_is_white_space(c: char) -> (r: bool)
    ensures
        r == is_white_space(c),
{
    ('\u{9}' <= c && c <= '\u{d}') || c == ' ' || c == '\u{85}' || c == '\u{a0}' || c == '\u{1680}'
        || ('\u{2000}' <= c && c <= '\u{200a}') || c == '\u{2028}' || c == '\u{2029}' || c
        == '\u{202f}' || c == '\u{205f}' || c == '\u{3000}'
}

/// Whether a text is empty once trimmed: it holds only white space.
pub open spec fn is_blank(s: Seq<char>) -> bool {
    forall|i: int| 0 <= i < s.len() ==> is_white_space(#[trigger] s[i])
}

/// Whether a text holds only white space.
pub fn str_is_blank(s: &str) -> (r: bool)
    ensures
        r == is_blank(s@),
{
    let chars = chars_of(s);
    let mut i: usize = 0;
    while i < chars.len()
        invariant
            chars@ == s@,
            i <= chars.len(),
            forall|j: int| 0 <= j < i ==> is_white_space(#[trigger] chars@[j]),
        decreases chars.len() - i,
    {
        if !char_is_white_space(chars[i]) {
            return false;
        }
        i = i + 1;
    }
    true
}

/// Whether a character is in a trim class.
pub open spec fn in_class(c: char, k: TrimClass) -> bool {
    match k {
        TrimClass::WhiteSpace => is_white_space(c),
        TrimClass::Bar => c == '|',
    }
}

/// Whether a character is in a trim class.
pub fn char_in_class(c: char, k: TrimClass) -> (r: bool)
    ensures
        r == in_class(c, k),
{
    match k {
        TrimClass::WhiteSpace => char_is_white_space(c),
        TrimClass::Bar => c == '|',
    }
}

/// A text without its leading characters of the class.
pub open spec fn trim_start_of(s: Seq<char>, k: TrimClass) -> Seq<char>
    decreases s.len(),
{
    if s.len() > 0 && in_class(s[0], k) {
        trim_start_of(s.drop_first(), k)
    } else {
        s
    }
}

/// A text without its trailing characters of the class.
pub open spec fn trim_end_of(s: Seq<char>, k: TrimClass) -> Seq<char>
    decreases s.len(),
{
    if s.len() > 0 && in_class(s.last(), k) {
        trim_end_of(s.drop_last(), k)
    } else {
        s
    }
}

/// A text without its leading and trailing characters of the class.
pub open spec fn trim_of(s: Seq<char>, k: TrimClass) -> Seq<char> {
    trim_end_of(trim_start_of(s, k), k)
}

/// Removes the trailing characters of a class from a character vector.
pub fn trim_end_chars(v: &Vec<char>, k: TrimClass) -> (r: Vec<char>)
    ensures
        r@ == trim_end_of(v@, k),
{
    let mut j = v.len();
    assert(v@.take(j as int) =~= v@);
    while j > 0 && char_in_class(v[j - 1], k)
        invariant
            j <= v.len(),
            trim_end_of(v@, k) == trim_end_of(v@.take(j as int), k),
        decreases j,
    {
        assert(v@.take(j as int).drop_last() =~= v@.take(j - 1));
        j = j - 1;
    }
    let mut r: Vec<char> = Vec::new();
    let mut i: usize = 0;
    while i < j
        invariant
            j <= v.len(),
            i <= j,
            r@ =~= v@.take(i as int),
        decreases j - i,
    {
        r.push(v[i]);
        i = i + 1;
    }
    r
}

/// Removes the leading and trailing characters of a class from a character vector.
pub fn trim_chars(v: &Vec<char>, k: TrimClass) -> (r: Vec<char>)
    ensures
        r@ == trim_of(v@, k),
{
    let mut i: usize = 0;
    assert(v@.skip(0) =~= v@);
    while i < v.len() && char_in_class(v[i], k)
        invariant
            i <= v.len(),
            trim_start_of(v@, k) == trim_start_of(v@.skip(i as int), k),
        decreases v.len() - i,
    {
        assert(v@.skip(i as int).drop_first() =~= v@.skip(i + 1));
        i = i + 1;
    }
    let mut rest: Vec<char> = Vec::new();
    let mut m: usize = i;
    while m < v.len()
        invariant
            i <= m <= v.len(),
            rest@ =~= v@.subrange(i as int, m as int),
        decreases v.len() - m,
    {
        rest.push(v[m]);
        m = m + 1;
    }
    assert(rest@ =~= v@.skip(i as int));
    trim_end_chars(&rest, k)
}

/// Trims a string of a class of characters.
pub fn trim_str(s: &str, k: TrimClass) -> (r: String)
    ensures
        r@ == trim_of(s@, k),
{
    let v = chars_of(s);
    let t = trim_chars(&v, k);
    string_from_chars(t)
}

/// The words of a text, split on runs of white space, left to right; `done`
/// holds the words found so far and `cur` the word being read.
pub open spec fn words_from(s: Seq<char>, done: Seq<Seq<char>>, cur: Seq<char>) -> Seq<Seq<char>>
    decreases s.len(),
{
    if s.len() == 0 {
        if cur.len() > 0 { done.push(cur) } else { done }
    } else if is_white_space(s[0]) {
        words_from(s.drop_first(), if cur.len() > 0 { done.push(cur) } else { done }, Seq::empty())
    } else {
        words_from(s.drop_first(), done, cur.push(s[0]))
    }
}

/// The white-space separated words of a text, as `str::split_whitespace` gives them.
pub open spec fn split_white_space(s: Seq<char>) -> Seq<Seq<char>> {
    words_from(s, Seq::empty(), Seq::empty())
}

/// The pieces of a text between separators, left to right.
pub open spec fn pieces_from(s: Seq<char>, sep: char, done: Seq<Seq<char>>, cur: Seq<char>) -> Seq<
    Seq<char>,
>
    decreases s.len(),
{
    if s.len() == 0 {
        done.push(cur)
    } else if s[0] == sep {
        pieces_from(s.drop_first(), sep, done.push(cur), Seq::empty())
    } else {
        pieces_from(s.drop_first(), sep, done, cur.push(s[0]))
    }
}

/// The pieces of a text split on a separator, as `str::split` gives them: an
/// empty text is one empty piece.
pub open spec fn split_on(s: Seq<char>, sep: char) -> Seq<Seq<char>> {
    pieces_from(s, sep, Seq::empty(), Seq::empty())
}

/// The white-space separated words of a string.
pub fn split_whitespace(s: &str) -> (r: Vec<String>)
    ensures
        r.deep_view() == split_white_space(s@),
{
    let v = chars_of(s);
    let mut done: Vec<String> = Vec::new();
    let mut cur: Vec<char> = Vec::new();
    let mut i: usize = 0;
    assert(v@.skip(0) =~= v@);
    assert(done.deep_view() =~= Seq::<Seq<char>>::empty());
    assert(cur@ =~= Seq::<char>::empty());
    while i < v.len()
        invariant
            v@ == s@,
            i <= v.len(),
            split_white_space(s@) == words_from(v@.skip(i as int), done.deep_view(), cur@),
        decreases v.len() - i,
    {
        let c = v[i];
        assert(v@.skip(i as int)[0] == c);
        assert(v@.skip(i as int).drop_first() =~= v@.skip(i + 1));
        if char_is_white_space(c) {
            if cur.len() > 0 {
                let ghost before = done.deep_view();
                done.push(string_from_chars(cur));
                assert(done.deep_view() =~= before.push(cur@));
            }
            cur = Vec::new();
            assert(cur@ =~= Seq::<char>::empty());
        } else {
            cur.push(c);
        }
        i = i + 1;
    }
    assert(v@.skip(i as int) =~= Seq::<char>::empty());
    if cur.len() > 0 {
        let ghost before = done.deep_view();
        done.push(string_from_chars(cur));
        assert(done.deep_view() =~= before.push(cur@));
    }
    done
}

/// The pieces of a character vector split on a separator.
pub fn split_chars(v: &Vec<char>, sep: char) -> (r: Vec<String>)
    ensures
        r.deep_view() == split_on(v@, sep),
{
    let mut done: Vec<String> = Vec::new();
    let mut cur: Vec<char> = Vec::new();
    let mut i: usize = 0;
    assert(v@.skip(0) =~= v@);
    assert(done.deep_view() =~= Seq::<Seq<char>>::empty());
    assert(cur@ =~= Seq::<char>::empty());
    while i < v.len()
        invariant
            i <= v.len(),
            split_on(v@, sep) == pieces_from(v@.skip(i as int), sep, done.deep_view(), cur@),
        decreases v.len() - i,
    {
        let c = v[i];
        assert(v@.skip(i as int)[0] == c);
        assert(v@.skip(i as int).drop_first() =~= v@.skip(i + 1));
        if c == sep {
            let ghost before = done.deep_view();
            done.push(string_from_chars(cur));
            assert(done.deep_view() =~= before.push(cur@));
            cur = Vec::new();
            assert(cur@ =~= Seq::<char>::empty());
        } else {
            cur.push(c);
        }
        i = i + 1;
    }
    assert(v@.skip(i as int) =~= Seq::<char>::empty());
    let ghost before = done.deep_view();
    done.push(string_from_chars(cur));
    assert(done.deep_view() =~= before.push(cur@));
    done
}

/// The string of the characters of `v` from `a` up to `b`.
pub fn string_of_range(v: &Vec<char>, a: usize, b: usize) -> (r: String)
    requires
        a <= b <= v.len(),
    ensures
        r@ == v@.subrange(a as int, b as int),
{
    let mut part: Vec<char> = Vec::new();
    let mut i: usize = a;
    while i < b
        invariant
            a <= i <= b <= v.len(),
            part@ =~= v@.subrange(a as int, i as int),
        decreases b - i,
    {
        part.push(v[i]);
        i = i + 1;
    }
    string_from_chars(part)
}

/// A line without the carriage return of a `"\r\n"` ending.
pub open spec fn strip_cr(line: Seq<char>) -> Seq<char> {
    if line.len() > 0 && line.last() == '\r' {
        line.drop_last()
    } else {
        line
    }
}

/// The lines of a text, left to right; `done` holds the lines found so far
/// and `cur` the line being read.
pub open spec fn lines_from(s: Seq<char>, done: Seq<Seq<char>>, cur: Seq<char>) -> Seq<Seq<char>>
    decreases s.len(),
{
    if s.len() == 0 {
        if cur.len() > 0 {
            done.push(cur)
        } else {
            done
        }
    } else if s[0] == '\n' {
        lines_from(s.drop_first(), done.push(strip_cr(cur)), Seq::empty())
    } else {
        lines_from(s.drop_first(), done, cur.push(s[0]))
    }
}

/// The lines of a text as `str::lines` gives them: split at `"\n"` or
/// `"\r\n"`, with no empty last line after a final line ending.
pub open spec fn lines_of(s: Seq<char>) -> Seq<Seq<char>> {
    lines_from(s, Seq::empty(), Seq::empty())
}

/// The lines of a text.
pub fn text_lines(s: &str) -> (r: Vec<String>)
    ensures
        r.deep_view() == lines_of(s@),
{
    let v = chars_of(s);
    let mut done: Vec<String> = Vec::new();
    let mut cur: Vec<char> = Vec::new();
    let mut i: usize = 0;
    assert(v@.skip(0) =~= v@);
    assert(done.deep_view() =~= Seq::<Seq<char>>::empty());
    assert(cur@ =~= Seq::<char>::empty());
    while i < v.len()
        invariant
            v@ == s@,
            i <= v.len(),
            lines_of(s@) == lines_from(v@.skip(i as int), done.deep_view(), cur@),
        decreases v.len() - i,
    {
        let c = v[i];
        assert(v@.skip(i as int)[0] == c);
        assert(v@.skip(i as int).drop_first() =~= v@.skip(i + 1));
        if c == '\n' {
            let ghost line = strip_cr(cur@);
            if cur.len() > 0 && cur[cur.len() - 1] == '\r' {
                cur.pop();
            }
            assert(cur@ == line);
            let ghost before = done.deep_view();
            done.push(string_from_chars(cur));
            assert(done.deep_view() =~= before.push(line));
            cur = Vec::new();
            assert(cur@ =~= Seq::<char>::empty());
        } else {
            cur.push(c);
        }
        i = i + 1;
    }
    assert(v@.skip(i as int) =~= Seq::<char>::empty());
    if cur.len() > 0 {
        let ghost before = done.deep_view();
        done.push(string_from_chars(cur));
        assert(done.deep_view() =~= before.push(cur@));
    }
    done
}

/// The parts joined with a separator between each two.
pub open spec fn join_with(parts: Seq<Seq<char>>, sep: Seq<char>) -> Seq<char>
    decreases parts.len(),
{
    if parts.len() == 0 {
        Seq::empty()
    } else if parts.len() == 1 {
        parts[0]
    } else {
        join_with(parts.drop_last(), sep) + sep + parts.last()
    }
}

/// The strings joined with a separator between each two.
pub fn join_strings(parts: &Vec<String>, sep: &str) -> (r: String)
    ensures
        r@ == join_with(parts.deep_view(), sep@),
{
    let mut out = String::new();
    let mut i: usize = 0;
    while i < parts.len()
        invariant
            i <= parts.len(),
            out@ == join_with(parts.deep_view().take(i as int), sep@),
        decreases parts.len() - i,
    {
        let ghost done = parts.deep_view().take(i as int);
        assert(parts.deep_view().take(i + 1).drop_last() =~= done);
        if i > 0 {
            out.append(sep);
        }
        out.append(parts[i].as_str());
        proof {
            if i == 0 {
                assert(out@ =~= parts.deep_view().take(1)[0]);
            }
        }
        i = i + 1;
    }
    assert(parts.deep_view().take(parts.len() as int) =~= parts.deep_view());
    out
}

proof fn lemma_lines_from_no_break(s: Seq<char>, done: Seq<Seq<char>>, cur: Seq<char>)
    requires
        forall|i: int| 0 <= i < done.len() ==> !done[i].contains('\n'),
        !cur.contains('\n'),
    ensures
        forall|i: int|
            0 <= i < lines_from(s, done, cur).len() ==> !(#[trigger] lines_from(s, done, cur)[i]).contains(
                '\n',
            ),
    decreases s.len(),
{
    if s.len() == 0 {
        if cur.len() > 0 {
            assert forall|i: int| 0 <= i < done.push(cur).len() implies !(
            #[trigger] done.push(cur)[i]).contains('\n') by {
                if i < done.len() {
                    assert(done.push(cur)[i] == done[i]);
                }
            }
        }
    } else if s[0] == '\n' {
        let line = strip_cr(cur);
        assert(!line.contains('\n')) by {
            if line.contains('\n') {
                let k = choose|k: int| 0 <= k < line.len() && line[k] == '\n';
                assert(cur[k] == '\n');
            }
        }
        assert forall|i: int| 0 <= i < done.push(line).len() implies !(
        #[trigger] done.push(line)[i]).contains('\n') by {
            if i < done.len() {
                assert(done.push(line)[i] == done[i]);
            }
        }
        assert(!Seq::<char>::empty().contains('\n'));
        lemma_lines_from_no_break(s.drop_first(), done.push(line), Seq::empty());
        assert(lines_from(s, done, cur) == lines_from(s.drop_first(), done.push(line), Seq::empty()));
    } else {
        assert(!cur.push(s[0]).contains('\n')) by {
            if cur.push(s[0]).contains('\n') {
                let k = choose|k: int| 0 <= k < cur.push(s[0]).len() && cur.push(s[0])[k] == '\n';
                if k < cur.len() {
                    assert(cur[k] == '\n');
                }
            }
        }
        lemma_lines_from_no_break(s.drop_first(), done, cur.push(s[0]));
        assert(lines_from(s, done, cur) == lines_from(s.drop_first(), done, cur.push(s[0])));
    }
}

/// The lines of a text hold no line break.
pub proof fn lemma_lines_have_no_break(s: Seq<char>)
    ensures
        forall|i: int| 0 <= i < lines_of(s).len() ==> !(#[trigger] lines_of(s)[i]).contains('\n'),
{
    assert(!Seq::<char>::empty().contains('\n'));
    lemma_lines_from_no_break(s, Seq::empty(), Seq::empty());
}

proof fn lemma_words_from_clean(s: Seq<char>, done: Seq<Seq<char>>, cur: Seq<char>)
    requires
        forall|i: int| 0 <= i < done.len() ==> done[i].len() > 0 && forall|j: int|
            0 <= j < done[i].len() ==> !is_white_space(#[trigger] done[i][j]),
        forall|j: int| 0 <= j < cur.len() ==> !is_white_space(#[trigger] cur[j]),
    ensures
        forall|i: int|
            0 <= i < words_from(s, done, cur).len() ==> (#[trigger] words_from(s, done, cur)[i]).len()
                > 0 && forall|j: int|
                0 <= j < words_from(s, done, cur)[i].len() ==> !is_white_space(
                    #[trigger] words_from(s, done, cur)[i][j],
                ),
    decreases s.len(),
{
    let pushed = if cur.len() > 0 {
        done.push(cur)
    } else {
        done
    };
    assert forall|i: int| 0 <= i < pushed.len() implies pushed[i].len() > 0 && forall|j: int|
        0 <= j < pushed[i].len() ==> !is_white_space(#[trigger] pushed[i][j]) by {
        if i < done.len() {
            assert(pushed[i] == done[i]);
        }
    }
    if s.len() > 0 {
        if is_white_space(s[0]) {
            lemma_words_from_clean(s.drop_first(), pushed, Seq::empty());
            assert(words_from(s, done, cur) == words_from(s.drop_first(), pushed, Seq::empty()));
        } else {
            assert forall|j: int| 0 <= j < cur.push(s[0]).len() implies !is_white_space(
                #[trigger] cur.push(s[0])[j],
            ) by {
                if j < cur.len() {
                    assert(cur.push(s[0])[j] == cur[j]);
                }
            }
            lemma_words_from_clean(s.drop_first(), done, cur.push(s[0]));
            assert(words_from(s, done, cur) == words_from(s.drop_first(), done, cur.push(s[0])));
        }
    }
}

/// The words of a text are never empty and hold no white space.
pub proof fn lemma_words_are_clean(s: Seq<char>)
    ensures
        forall|i: int|
            0 <= i < split_white_space(s).len() ==> (#[trigger] split_white_space(s)[i]).len() > 0
                && forall|j: int|
                0 <= j < split_white_space(s)[i].len() ==> !is_white_space(
                    #[trigger] split_white_space(s)[i][j],
                ),
{
    lemma_words_from_clean(s, Seq::empty(), Seq::empty());
}

} // verus!
