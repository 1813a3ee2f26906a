//! Text primitives on which topics, ids and payloads are built.

use vstd::prelude::*;

verus! {

/// Specifies `String::push`: the character is appended to the text.
pub assume_specification[ String::push ](s: &mut String, c: char)
    ensures
        final(s)@ == old(s)@.push(c),
;

/// The characters of `s`, in order.
pub fn chars_of(s: &str) -> (r: Vec<char>)
    ensures
        r@ == s@,
{
    let mut r: Vec<char> = Vec::new();
    for c in it: s.chars()
        invariant
            it.seq() == s@,
            r@ == s@.take(it.index() as int),
    {
        r.push(c);
        assert(s@.take(it.index() + 1) =~= s@.take(it.index() as int).push(c));
    }
    assert(s@.take(s@.len() as int) =~= s@);
    r
}

/// The text made of the characters `v[from..to]`.
pub fn string_of(v: &Vec<char>, from: usize, to: usize) -> (r: String)
    requires
        from <= to <= v.len(),
    ensures
        r@ == v@.subrange(from as int, to as int),
{
    let mut r = String::new();
    let mut i: usize = from;
    while i < to
        invariant
            from <= i <= to <= v.len(),
            r@ == v@.subrange(from as int, i as int),
        decreases to - i,
    {
        r.push(v[i]);
        i += 1;
        assert(v@.subrange(from as int, i as int) =~= v@.subrange(from as int, i - 1).push(v@[i - 1]));
    }
    r
}


/// The views of the texts in `v`, in order.
pub open spec fn texts(v: Seq<String>) -> Seq<Seq<char>> {
    Seq::new(v.len(), |i: int| v[i]@)
}

/// What `str::to_lowercase` makes of a text.
pub uninterp spec fn lowercased(s: Seq<char>) -> Seq<char>;

/// What `str::to_uppercase` makes of a text.
pub uninterp spec fn uppercased(s: Seq<char>) -> Seq<char>;

/// Whether `char::is_whitespace` holds of a character.
pub uninterp spec fn white_space(c: char) -> bool;

/// The lower-case form of an ASCII capital; every other character is kept.
pub open spec fn ascii_lower(c: char) -> char {
    if 'A' <= c <= 'Z' {
        ((c as u8) + 32) as char
    } else {
        c
    }
}

/// The upper-case form of an ASCII small letter; every other character is
/// kept.
pub open spec fn ascii_upper(c: char) -> char {
    if 'a' <= c <= 'z' {
        ((c as u8) - 32) as char
    } else {
        c
    }
}

/// `s` with each of the small letters `a` to `z` replaced by its capital.
pub open spec fn ascii_uppercased(s: Seq<char>) -> Seq<char> {
    s.map_values(|c: char| ascii_upper(c))
}

/// Whether `c` is the space or one of the five control characters from the
/// horizontal tab to the carriage return: the ASCII characters with the
/// Unicode property White_Space.
pub open spec fn ascii_white_space(c: char) -> bool {
    c == ' ' || '\t' <= c <= '\r'
}

/// Calls `str::to_lowercase`. The result is the Unicode lower-case form of `s`,
/// which is named and not spelled out. One thing is claimed beyond the name:
/// of a text of ASCII characters alone, the result is the text with each of
/// the capital letters `A` to `Z` replaced by its small letter, as std
/// documents it for `to_ascii_lowercase`, which lower-cases the ASCII letters
/// as `to_lowercase` does.
#[verifier::external_body]
pub(crate) fn lowercase(s: &str) -> (r: String)
    ensures
        r@ == lowercased(s@),
        vstd::utf8::is_ascii_chars(s@) ==> r@ == s@.map_values(|c: char| ascii_lower(c)),
{
    s.to_lowercase()
}

/// Calls `str::to_uppercase`. The result is the Unicode upper-case form of `s`,
/// which is named and not spelled out. One thing is claimed beyond the name:
/// of a text of ASCII characters alone, the result is the text with each of
/// the small letters `a` to `z` replaced by its capital, as std documents it
/// for `to_ascii_uppercase`, which upper-cases the ASCII letters as
/// `to_uppercase` does.
#[verifier::external_body]
pub(crate) fn uppercase(s: &str) -> (r: String)
    ensures
        r@ == uppercased(s@),
        vstd::utf8::is_ascii_chars(s@) ==> r@ == ascii_uppercased(s@),
{
    s.to_uppercase()
}

/// Calls `char::is_whitespace`: whether `c` has the Unicode property
/// White_Space, which is named and not spelled out. One thing is claimed
/// beyond the name: among the ASCII characters the property holds of the
/// space and of the characters from the horizontal tab to the carriage
/// return, and of no other.
#[verifier::external_body]
pub(crate) fn is_white_space(c: char) -> (r: bool)
    ensures
        r == white_space(c),
        c <= '\u{7f}' ==> r == ascii_white_space(c),
{
    c.is_whitespace()
}

/// Calls `std::str::from_utf8`. The bytes are decoded if and only if they are
/// well-formed UTF-8, and then to the characters that they encode.
#[verifier::external_body]
pub(crate) fn decode(bytes: &[u8]) -> (r: Option<String>)
    ensures
        r is Some <==> vstd::utf8::valid_utf8(bytes@),
        r matches Some(s) ==> s@ == vstd::utf8::decode_utf8(bytes@),
{
    match std::str::from_utf8(bytes) {
        Ok(s) => Some(s.to_owned()),
        Err(_) => None,
    }
}

/// Whether two texts hold the same characters.
pub fn same_text(a: &str, b: &str) -> (r: bool)
    ensures
        r == (a@ == b@),
{
    let x = chars_of(a);
    let y = chars_of(b);
    if x.len() != y.len() {
        return false;
    }
    let mut i: usize = 0;
    while i < x.len()
        invariant
            i <= x.len(),
            x.len() == y.len(),
            x@ == a@,
            y@ == b@,
            forall|j: int| 0 <= j < i ==> x@[j] == y@[j],
        decreases x.len() - i,
    {
        if x[i] != y[i] {
            return false;
        }
        i += 1;
    }
    assert(x@ =~= y@);
    true
}

/// Whether no two of `all` hold the same characters.
pub fn all_distinct(all: &Vec<String>) -> (r: bool)
    ensures
        r == (forall|i: int, j: int| 0 <= i < j < all.len() ==> all@[i]@ != all@[j]@),
{
    let mut j: usize = 0;
    while j < all.len()
        invariant
            j <= all.len(),
            forall|a: int, b: int| 0 <= a < b < j ==> all@[a]@ != all@[b]@,
        decreases all.len() - j,
    {
        let mut i: usize = 0;
        while i < j
            invariant
                i <= j < all.len(),
                forall|a: int| 0 <= a < i ==> all@[a]@ != all@[j as int]@,
            decreases j - i,
        {
            if same_text(all[i].as_str(), all[j].as_str()) {
                return false;
            }
            i += 1;
        }
        j += 1;
    }
    true
}

/// Whether `p` stands in `s` from position `at` on.
pub fn starts_with_at(s: &Vec<char>, at: usize, p: &Vec<char>) -> (r: bool)
    requires
        at <= s.len(),
    ensures
        r == p@.is_prefix_of(s@.skip(at as int)),
{
    if p.len() > s.len() - at {
        return false;
    }
    let mut i: usize = 0;
    while i < p.len()
        invariant
            at <= s.len(),
            i <= p.len() <= s.len() - at,
            forall|j: int| 0 <= j < i ==> p@[j] == s@[at + j],
        decreases p.len() - i,
    {
        if p[i] != s[at + i] {
            assert(s@.skip(at as int)[i as int] == s@[at + i]);
            return false;
        }
        i += 1;
    }
    assert(p@ =~= s@.skip(at as int).subrange(0, p@.len() as int));
    true
}

/// The characters that trimming removes from the two ends of a text.
#[derive(Clone, Copy, Debug, PartialEq, Eq, Structural)]
pub enum CharClass {
    /// Characters with the Unicode property White_Space.
    WhiteSpace,
    /// The ASCII characters among them: the space, and the characters from
    /// the horizontal tab to the carriage return.
    AsciiWhiteSpace,
    /// The topic separator `/`.
    Separator,
}

/// Whether `c` belongs to `class`.
pub open spec fn in_class(class: CharClass, c: char) -> bool {
    match class {
        CharClass::WhiteSpace => white_space(c),
        CharClass::AsciiWhiteSpace => ascii_white_space(c),
        CharClass::Separator => c == '/',
    }
}

/// Whether `c` belongs to `class`. An ASCII character is white space exactly
/// where it is ASCII white space.
pub fn is_in_class(class: CharClass, c: char) -> (r: bool)
    ensures
        r == in_class(class, c),
        class == CharClass::WhiteSpace && c <= '\u{7f}' ==> r == in_class(
            CharClass::AsciiWhiteSpace,
            c,
        ),
{
    match class {
        CharClass::WhiteSpace => is_white_space(c),
        CharClass::AsciiWhiteSpace => c == ' ' || ('\t' <= c && c <= '\r'),
        CharClass::Separator => c == '/',
    }
}

/// `s` without its leading characters of `class`.
pub open spec fn trim_front(s: Seq<char>, class: CharClass) -> Seq<char>
    decreases s.len(),
{
    if s.len() > 0 && in_class(class, s.first()) {
        trim_front(s.drop_first(), class)
    } else {
        s
    }
}

/// `s` without its trailing characters of `class`.
pub open spec fn trim_back(s: Seq<char>, class: CharClass) -> Seq<char>
    decreases s.len(),
{
    if s.len() > 0 && in_class(class, s.last()) {
        trim_back(s.drop_last(), class)
    } else {
        s
    }
}

/// `s` without the characters of `class` at either end.
pub open spec fn trimmed(s: Seq<char>, class: CharClass) -> Seq<char> {
    trim_back(trim_front(s, class), class)
}

/// Whether trimming white space from `s` is trimming ASCII white space from
/// it: that is so where `s` is ASCII.
pub open spec fn trims_ascii(s: Seq<char>, class: CharClass) -> bool {
    class == CharClass::WhiteSpace && vstd::utf8::is_ascii_chars(s)
}

/// The bounds of what trimming `class` leaves of `s[from..]`. Of an ASCII
/// text, trimming white space leaves what trimming ASCII white space leaves.
pub fn trim_bounds(s: &Vec<char>, from: usize, class: CharClass) -> (r: (usize, usize))
    requires
        from <= s.len(),
    ensures
        from <= r.0 <= r.1 <= s.len(),
        s@.subrange(r.0 as int, r.1 as int) == trimmed(s@.skip(from as int), class),
        trims_ascii(s@.skip(from as int), class) ==> s@.subrange(r.0 as int, r.1 as int)
            == trimmed(s@.skip(from as int), CharClass::AsciiWhiteSpace),
{
    let ghost ascii = trims_ascii(s@.skip(from as int), class);
    assert(ascii ==> forall|i: int| from <= i < s.len() ==> s@[i] <= '\u{7f}') by {
        if ascii {
            assert forall|i: int| from <= i < s.len() implies s@[i] <= '\u{7f}' by {
                assert(s@.skip(from as int)[i - from] == s@[i]);
            }
        }
    }
    let mut a: usize = from;
    while a < s.len() && is_in_class(class, s[a])
        invariant
            from <= a <= s.len(),
            ascii ==> class == CharClass::WhiteSpace,
            ascii ==> forall|i: int| from <= i < s.len() ==> s@[i] <= '\u{7f}',
            trim_front(s@.skip(a as int), class) == trim_front(s@.skip(from as int), class),
            ascii ==> trim_front(s@.skip(a as int), CharClass::AsciiWhiteSpace) == trim_front(
                s@.skip(from as int),
                CharClass::AsciiWhiteSpace,
            ),
        decreases s.len() - a,
    {
        assert(s@.skip(a as int).drop_first() =~= s@.skip(a + 1));
        assert(s@.skip(a as int).first() == s@[a as int]);
        a += 1;
    }
    assert(s@.skip(a as int) =~= s@.subrange(a as int, s@.len() as int));
    assert(a < s.len() ==> s@.skip(a as int).first() == s@[a as int]);
    let mut b: usize = s.len();
    while b > a && is_in_class(class, s[b - 1])
        invariant
            a <= b <= s.len(),
            from <= a,
            ascii ==> class == CharClass::WhiteSpace,
            ascii ==> forall|i: int| from <= i < s.len() ==> s@[i] <= '\u{7f}',
            trim_back(s@.subrange(a as int, b as int), class) == trimmed(
                s@.skip(from as int),
                class,
            ),
            ascii ==> trim_back(s@.subrange(a as int, b as int), CharClass::AsciiWhiteSpace)
                == trimmed(s@.skip(from as int), CharClass::AsciiWhiteSpace),
        decreases b,
    {
        assert(s@.subrange(a as int, b as int).drop_last() =~= s@.subrange(a as int, b - 1));
        assert(s@.subrange(a as int, b as int).last() == s@[b - 1]);
        b -= 1;
    }
    assert(b > a ==> s@.subrange(a as int, b as int).last() == s@[b - 1]);
    (a, b)
}

/// `s` without white space at either end. Of an ASCII text that is the text
/// without ASCII white space at either end.
pub fn trim(s: &str) -> (r: String)
    ensures
        r@ == trimmed(s@, CharClass::WhiteSpace),
        vstd::utf8::is_ascii_chars(s@) ==> r@ == trimmed(s@, CharClass::AsciiWhiteSpace),
{
    let v = chars_of(s);
    let (a, b) = trim_bounds(&v, 0, CharClass::WhiteSpace);
    assert(v@.skip(0) =~= v@);
    string_of(&v, a, b)
}

/// The pieces of `s` between the occurrences of `sep`: one more than there are
/// occurrences, empty ones included.
pub open spec fn split(s: Seq<char>, sep: char) -> Seq<Seq<char>>
    decreases s.len(),
{
    if s.len() == 0 {
        seq![Seq::<char>::empty()]
    } else {
        let head = split(s.drop_last(), sep);
        if s.last() == sep {
            head.push(Seq::<char>::empty())
        } else {
            head.update(head.len() - 1, head.last().push(s.last()))
        }
    }
}

/// A text without `sep` is a single piece.
pub proof fn split_without_separator(s: Seq<char>, sep: char)
    requires
        forall|i: int| 0 <= i < s.len() ==> s[i] != sep,
    ensures
        split(s, sep) == seq![s],
    decreases s.len(),
{
    if s.len() == 0 {
        assert(s =~= Seq::<char>::empty());
    } else {
        split_without_separator(s.drop_last(), sep);
        assert(s.drop_last().push(s.last()) =~= s);
        assert(seq![s.drop_last()].update(0, s.drop_last().push(s.last())) =~= seq![s]);
    }
}

/// Behind a separator, a text without `sep` is a piece of its own, and what
/// stands before the separator is split as it would be alone.
pub proof fn split_at_separator(a: Seq<char>, b: Seq<char>, sep: char)
    requires
        forall|i: int| 0 <= i < b.len() ==> b[i] != sep,
    ensures
        split(a + seq![sep] + b, sep) == split(a, sep).push(b),
    decreases b.len(),
{
    let whole = a + seq![sep] + b;
    if b.len() == 0 {
        assert(whole.drop_last() =~= a);
        assert(b =~= Seq::<char>::empty());
    } else {
        split_at_separator(a, b.drop_last(), sep);
        assert(whole.drop_last() =~= a + seq![sep] + b.drop_last());
        assert(whole.last() == b.last());
        let head = split(a, sep).push(b.drop_last());
        assert(b.drop_last().push(b.last()) =~= b);
        assert(head.update(head.len() - 1, head.last().push(b.last())) =~= split(a, sep).push(
            b,
        ));
    }
}

/// The pieces of `s[from..to]` between the occurrences of `sep`.
pub fn split_range(s: &Vec<char>, from: usize, to: usize, sep: char) -> (r: Vec<String>)
    requires
        from <= to <= s.len(),
    ensures
        texts(r@) == split(s@.subrange(from as int, to as int), sep),
{
    let mut done: Vec<String> = Vec::new();
    let mut start: usize = from;
    let mut i: usize = from;
    assert(s@.subrange(from as int, from as int) =~= Seq::<char>::empty());
    assert(texts(done@) =~= Seq::<Seq<char>>::empty());
    assert(texts(done@).push(s@.subrange(start as int, i as int)) =~= split(
        s@.subrange(from as int, i as int),
        sep,
    ));
    while i < to
        invariant
            from <= start <= i <= to <= s.len(),
            texts(done@).push(s@.subrange(start as int, i as int)) == split(
                s@.subrange(from as int, i as int),
                sep,
            ),
        decreases to - i,
    {
        let ghost before = s@.subrange(from as int, i as int);
        let ghost now = s@.subrange(from as int, i + 1);
        let ghost open = s@.subrange(start as int, i as int);
        let ghost closed = texts(done@);
        assert(now.drop_last() =~= before);
        assert(now.last() == s@[i as int]);
        if s[i] == sep {
            let piece = string_of(s, start, i);
            done.push(piece);
            start = i + 1;
            assert(texts(done@) =~= closed.push(open));
            assert(s@.subrange(start as int, i + 1) =~= Seq::<char>::empty());
        } else {
            assert(s@.subrange(start as int, i + 1) =~= open.push(s@[i as int]));
            assert(closed.push(open).update(closed.len() as int, open.push(s@[i as int]))
                =~= closed.push(open.push(s@[i as int])));
        }
        i += 1;
    }
    let piece = string_of(s, start, to);
    let ghost closed = texts(done@);
    done.push(piece);
    assert(texts(done@) =~= closed.push(s@.subrange(start as int, to as int)));
    done
}

/// `s` with each occurrence of `from` replaced by `to`.
pub open spec fn replaced(s: Seq<char>, from: char, to: char) -> Seq<char> {
    Seq::new(s.len(), |i: int| if s[i] == from { to } else { s[i] })
}

/// `s` with each occurrence of `from` replaced by `to`.
pub fn replace(s: &str, from: char, to: char) -> (r: String)
    ensures
        r@ == replaced(s@, from, to),
{
    let v = chars_of(s);
    let mut r = String::new();
    let mut i: usize = 0;
    while i < v.len()
        invariant
            i <= v.len(),
            v@ == s@,
            r@ == replaced(s@.take(i as int), from, to),
        decreases v.len() - i,
    {
        let c = v[i];
        if c == from {
            r.push(to);
        } else {
            r.push(c);
        }
        i += 1;
        assert(r@ =~= replaced(s@.take(i as int), from, to));
    }
    assert(s@.take(i as int) =~= s@);
    r
}

} // verus!
