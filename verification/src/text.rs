//! Text as the tool prints it: decoding, trimming, lines and fields.
//!
//! Every function here is specified over `Seq<char>`, the view of `str` and `String`.

use vstd::prelude::*;
use vstd::utf8::{decode_utf8, valid_utf8};

verus! {

/// The views of a list of strings.
pub open spec fn texts(list: Seq<String>) -> Seq<Seq<char>> {
    list.map_values(|s: String| s@)
}

/// The views of a list of borrowed strings.
pub open spec fn names(list: Seq<&str>) -> Seq<Seq<char>> {
    list.map_values(|a: &str| a@)
}

/// The view of a string that may be missing.
pub open spec fn maybe(text: Option<String>) -> Option<Seq<char>> {
    match text {
        Some(t) => Some(t@),
        None => None,
    }
}

/// The characters with the Unicode property `White_Space`.
pub open spec fn is_whitespace(c: char) -> bool {
    let n = c as u32;
    ||| 0x09 <= n <= 0x0D
    ||| n == 0x20
    ||| n == 0x85
    ||| n == 0xA0
    ||| n == 0x1680
    ||| 0x2000 <= n <= 0x200A
    ||| n == 0x2028
    ||| n == 0x2029
    ||| n == 0x202F
    ||| n == 0x205F
    ||| n == 0x3000
}

/// How many white-space characters `s` starts with.
pub open spec fn leading(s: Seq<char>) -> nat
    decreases s.len(),
{
    if s.len() > 0 && is_whitespace(s[0]) {
        1 + leading(s.drop_first())
    } else {
        0
    }
}

/// How many white-space characters `s` ends with.
pub open spec fn trailing(s: Seq<char>) -> nat
    decreases s.len(),
{
    if s.len() > 0 && is_whitespace(s.last()) {
        1 + trailing(s.drop_last())
    } else {
        0
    }
}

/// `s` without its leading white space.
pub open spec fn trim_start(s: Seq<char>) -> Seq<char> {
    s.skip(leading(s) as int)
}

/// `s` without its trailing white space.
pub open spec fn trim_end(s: Seq<char>) -> Seq<char> {
    s.take(s.len() - trailing(s))
}

/// `s` without its leading and trailing white space.
pub open spec fn trim(s: Seq<char>) -> Seq<char> {
    trim_end(trim_start(s))
}

/// Index of the first `c` in `s`, or `s.len()` where `s` holds none.
pub open spec fn position(s: Seq<char>, c: char) -> nat
    decreases s.len(),
{
    if s.len() == 0 || s[0] == c {
        0
    } else {
        1 + position(s.drop_first(), c)
    }
}

/// What stands in `s` before the first `c`: all of `s` where it holds none.
pub open spec fn before(s: Seq<char>, c: char) -> Seq<char> {
    s.take(position(s, c) as int)
}

/// What stands in `s` behind the first `c`, if there is one.
pub open spec fn after(s: Seq<char>, c: char) -> Option<Seq<char>> {
    if position(s, c) < s.len() {
        Some(s.skip(position(s, c) as int + 1))
    } else {
        None
    }
}

/// The lines of `list` that hold more than white space, each without the white space
/// around it.
pub open spec fn stripped(list: Seq<Seq<char>>) -> Seq<Seq<char>>
    decreases list.len(),
{
    if list.len() == 0 {
        Seq::empty()
    } else if trim(list.last()).len() > 0 {
        stripped(list.drop_last()).push(trim(list.last()))
    } else {
        stripped(list.drop_last())
    }
}

/// What a text lists, line by line: its lines that hold more than white space, each
/// without the white space around it.
pub open spec fn listed(s: Seq<char>) -> Seq<Seq<char>> {
    stripped(lines(s))
}

/// The object identifier of a line that a remote lists: what stands before the first tab.
pub open spec fn object_id(line: Seq<char>) -> Seq<char> {
    before(line, '\t')
}

/// The name of the reference in a line that a remote lists: what stands behind the second
/// slash, with every slash that follows. A line with fewer than two slashes names none.
pub open spec fn reference_name(line: Seq<char>) -> Option<Seq<char>> {
    match after(line, '/') {
        Some(rest) => after(rest, '/'),
        None => None,
    }
}

/// The names of the references in the lines of `list` that name one.
pub open spec fn reference_names(list: Seq<Seq<char>>) -> Seq<Seq<char>>
    decreases list.len(),
{
    if list.len() == 0 {
        Seq::empty()
    } else {
        match reference_name(list.last()) {
            Some(name) => reference_names(list.drop_last()).push(name),
            None => reference_names(list.drop_last()),
        }
    }
}

/// The first line of `s`, if it has one.
pub open spec fn first_line(s: Seq<char>) -> Option<Seq<char>> {
    if lines(s).len() > 0 {
        Some(lines(s)[0])
    } else {
        None
    }
}

/// `line` without one final carriage return.
pub open spec fn without_return(line: Seq<char>) -> Seq<char> {
    if line.len() > 0 && line.last() == '\r' {
        line.drop_last()
    } else {
        line
    }
}

/// The lines of `s`. A line ends with a line feed, or with a carriage return and a line
/// feed; neither belongs to the line. The last line needs no line ending, and a carriage
/// return without a line feed behind it stays in its line.
pub open spec fn lines(s: Seq<char>) -> Seq<Seq<char>>
    decreases s.len(),
{
    if s.len() == 0 {
        Seq::empty()
    } else {
        match after(s, '\n') {
            Some(rest) => seq![without_return(before(s, '\n'))] + lines(rest),
            None => seq![s],
        }
    }
}

/// `position(s, c)` is where the first `c` stands: no `c` stands before it, and a `c`
/// stands there unless `s` holds none.
pub proof fn position_is_the_first(s: Seq<char>, c: char)
    ensures
        position(s, c) <= s.len(),
        forall|i: int| 0 <= i < position(s, c) ==> s[i] != c,
        position(s, c) < s.len() ==> s[position(s, c) as int] == c,
    decreases s.len(),
{
    if s.len() > 0 && s[0] != c {
        let rest = s.drop_first();
        position_is_the_first(rest, c);
        assert forall|i: int| 0 <= i < position(s, c) implies s[i] != c by {
            if i > 0 {
                assert(s[i] == rest[i - 1]);
            }
        }
    }
}

/// A text that holds `c` is what stands before the first `c`, that `c`, and what stands
/// behind it.
pub proof fn first_separator_parts(s: Seq<char>, c: char)
    ensures
        match after(s, c) {
            Some(tail) => s == before(s, c) + seq![c] + tail,
            None => before(s, c) == s,
        },
{
    position_is_the_first(s, c);
    match after(s, c) {
        Some(tail) => {
            assert(s =~= before(s, c) + seq![c] + tail);
        },
        None => {
            assert(before(s, c) =~= s);
        },
    }
}

/// White space, and nothing else, stands before the place that `leading` counts to.
pub proof fn leading_is_white(s: Seq<char>)
    ensures
        leading(s) <= s.len(),
        forall|i: int| 0 <= i < leading(s) ==> is_whitespace(s[i]),
        leading(s) < s.len() ==> !is_whitespace(s[leading(s) as int]),
    decreases s.len(),
{
    if s.len() > 0 && is_whitespace(s[0]) {
        let rest = s.drop_first();
        leading_is_white(rest);
        assert forall|i: int| 0 <= i < leading(s) implies is_whitespace(s[i]) by {
            if i > 0 {
                assert(s[i] == rest[i - 1]);
            }
        }
    }
}

/// White space, and nothing else, stands behind the place that `trailing` counts from.
pub proof fn trailing_is_white(s: Seq<char>)
    ensures
        trailing(s) <= s.len(),
        forall|i: int| s.len() - trailing(s) <= i < s.len() ==> is_whitespace(s[i]),
        trailing(s) < s.len() ==> !is_whitespace(s[s.len() - trailing(s) - 1]),
    decreases s.len(),
{
    if s.len() > 0 && is_whitespace(s.last()) {
        let rest = s.drop_last();
        trailing_is_white(rest);
        assert forall|i: int| s.len() - trailing(s) <= i < s.len() implies is_whitespace(s[i]) by {
            if i < s.len() - 1 {
                assert(s[i] == rest[i]);
            }
        }
    }
}

/// What `trim` leaves is the part of `s` between its outer white space: white space
/// alone was dropped at both ends, and what is left neither starts nor ends with any.
pub proof fn trim_is_the_core(s: Seq<char>)
    ensures
        leading(s) + trailing(trim_start(s)) <= s.len(),
        trim(s) == s.subrange(leading(s) as int, s.len() - trailing(trim_start(s))),
        forall|i: int| 0 <= i < leading(s) ==> is_whitespace(s[i]),
        forall|i: int| s.len() - trailing(trim_start(s)) <= i < s.len() ==> is_whitespace(s[i]),
        trim(s).len() > 0 ==> !is_whitespace(trim(s).first()) && !is_whitespace(trim(s).last()),
{
    let from = leading(s) as int;
    let rest = trim_start(s);
    let behind = trailing(rest) as int;
    leading_is_white(s);
    trailing_is_white(rest);
    assert(trim(s) =~= s.subrange(from, s.len() - behind));
    assert forall|i: int| s.len() - behind <= i < s.len() implies is_whitespace(s[i]) by {
        assert(s[i] == rest[i - from]);
    }
    if trim(s).len() > 0 {
        assert(trim(s).first() == s[from]);
        assert(trim(s).last() == rest[rest.len() - behind - 1]);
    }
}

/// No line holds a line feed.
pub proof fn lines_hold_no_line_feed(s: Seq<char>)
    ensures
        forall|i: int, j: int|
            0 <= i < lines(s).len() && 0 <= j < lines(s)[i].len() ==> lines(s)[i][j] != '\n',
    decreases s.len(),
{
    if s.len() > 0 {
        position_is_the_first(s, '\n');
        match after(s, '\n') {
            Some(rest) => {
                lines_hold_no_line_feed(rest);
                let head = without_return(before(s, '\n'));
                assert forall|i: int, j: int|
                    0 <= i < lines(s).len() && 0 <= j < lines(s)[i].len() implies lines(s)[i][j]
                    != '\n' by {
                    if i == 0 {
                        assert(lines(s)[0] == head);
                        assert(head[j] == s[j]);
                    } else {
                        assert(lines(s)[i] == lines(rest)[i - 1]);
                    }
                }
            },
            None => {
                assert(lines(s) =~= seq![s]);
            },
        }
    }
}

proof fn lemma_leading(s: Seq<char>, k: int)
    requires
        0 <= k <= s.len(),
        forall|j: int| 0 <= j < k ==> is_whitespace(#[trigger] s[j]),
    ensures
        leading(s) == k + leading(s.skip(k)),
    decreases k,
{
    if k == 0 {
        assert(s.skip(0) =~= s);
    } else {
        assert(is_whitespace(s[0]));
        let t = s.drop_first();
        assert forall|j: int| 0 <= j < k - 1 implies is_whitespace(#[trigger] t[j]) by {
            assert(t[j] == s[j + 1]);
        }
        lemma_leading(t, k - 1);
        assert(t.skip(k - 1) =~= s.skip(k));
    }
}

proof fn lemma_trailing(s: Seq<char>, k: int)
    requires
        0 <= k <= s.len(),
        forall|j: int| s.len() - k <= j < s.len() ==> is_whitespace(#[trigger] s[j]),
    ensures
        trailing(s) == k + trailing(s.take(s.len() - k)),
    decreases k,
{
    if k == 0 {
        assert(s.take(s.len() as int) =~= s);
    } else {
        assert(is_whitespace(s[s.len() - 1]));
        let t = s.drop_last();
        assert forall|j: int| t.len() - (k - 1) <= j < t.len() implies is_whitespace(
            #[trigger] t[j],
        ) by {
            assert(t[j] == s[j]);
        }
        lemma_trailing(t, k - 1);
        assert(t.take(t.len() - (k - 1)) =~= s.take(s.len() - k));
    }
}

proof fn lemma_position(s: Seq<char>, c: char, k: int)
    requires
        0 <= k <= s.len(),
        forall|j: int| 0 <= j < k ==> #[trigger] s[j] != c,
    ensures
        position(s, c) == k + position(s.skip(k), c),
        position(s, c) <= s.len(),
    decreases s.len(),
{
    if s.len() == 0 {
        assert(s.skip(0) =~= s);
    } else if k == 0 {
        assert(s.skip(0) =~= s);
        if s[0] != c {
            lemma_position(s.drop_first(), c, 0);
        }
    } else {
        let t = s.drop_first();
        assert(s[0] != c);
        assert forall|j: int| 0 <= j < k - 1 implies #[trigger] t[j] != c by {
            assert(t[j] == s[j + 1]);
        }
        lemma_position(t, c, k - 1);
        assert(t.skip(k - 1) =~= s.skip(k));
    }
}

/// Whether `c` has the Unicode property `White_Space`.
pub fn whitespace(c: char) -> (b: bool)
    ensures
        b == is_whitespace(c),
{
    let n: u32 = c as u32;
    (0x09 <= n && n <= 0x0D) || n == 0x20 || n == 0x85 || n == 0xA0 || n == 0x1680 || (0x2000 <= n
        && n <= 0x200A) || n == 0x2028 || n == 0x2029 || n == 0x202F || n == 0x205F || n == 0x3000
}

/// The characters of `text`, one by one.
pub fn chars_of(text: &str) -> (chars: Vec<char>)
    ensures
        chars@ == text@,
{
    let mut chars: Vec<char> = Vec::new();
    for c in it: text.chars()
        invariant
            chars@ == it.seq().take(it.index() as int),
            it.seq() == text@,
    {
        chars.push(c);
    }
    chars
}

/// `String::from_iter` over a slice of characters: the string that holds exactly these
/// characters, in this order.
#[verifier::external_body]
pub(crate) fn string_of(chars: &[char]) -> (text: String)
    ensures
        text@ == chars@,
{
    chars.iter().collect()
}

/// The characters `from..to` of `chars` as a string.
pub(crate) fn piece(chars: &Vec<char>, from: usize, to: usize) -> (text: String)
    requires
        from <= to <= chars.len(),
    ensures
        text@ == chars@.subrange(from as int, to as int),
{
    string_of(vstd::slice::slice_subrange(chars.as_slice(), from, to))
}

/// Where the leading white space of `chars[from..to]` ends.
pub(crate) fn skip_leading(chars: &Vec<char>, from: usize, to: usize) -> (at: usize)
    requires
        from <= to <= chars.len(),
    ensures
        at == from + leading(chars@.subrange(from as int, to as int)),
        from <= at <= to,
{
    let ghost s = chars@.subrange(from as int, to as int);
    let mut at: usize = from;
    while at < to && whitespace(chars[at])
        invariant
            from <= at <= to <= chars.len(),
            s == chars@.subrange(from as int, to as int),
            forall|j: int| 0 <= j < at - from ==> is_whitespace(#[trigger] s[j]),
        decreases to - at,
    {
        at += 1;
    }
    proof {
        lemma_leading(s, at - from);
        if at < to {
            assert(s.skip(at - from)[0] == chars@[at as int]);
        }
    }
    at
}

/// Where the trailing white space of `chars[from..to]` begins.
pub(crate) fn skip_trailing(chars: &Vec<char>, from: usize, to: usize) -> (at: usize)
    requires
        from <= to <= chars.len(),
    ensures
        at == to - trailing(chars@.subrange(from as int, to as int)),
        from <= at <= to,
{
    let ghost s = chars@.subrange(from as int, to as int);
    let mut at: usize = to;
    while at > from && whitespace(chars[at - 1])
        invariant
            from <= at <= to <= chars.len(),
            s == chars@.subrange(from as int, to as int),
            forall|j: int| at - from <= j < s.len() ==> is_whitespace(#[trigger] s[j]),
        decreases at - from,
    {
        at -= 1;
    }
    proof {
        lemma_trailing(s, to - at);
        if at > from {
            assert(s.take(s.len() - (to - at)).last() == chars@[at - 1]);
        }
    }
    at
}

/// Where the first `c` of `chars[from..to]` stands: `to` if there is none.
pub(crate) fn find(chars: &Vec<char>, from: usize, to: usize, c: char) -> (at: usize)
    requires
        from <= to <= chars.len(),
    ensures
        at == from + position(chars@.subrange(from as int, to as int), c),
        from <= at <= to,
{
    let ghost s = chars@.subrange(from as int, to as int);
    let mut at: usize = from;
    while at < to && chars[at] != c
        invariant
            from <= at <= to <= chars.len(),
            s == chars@.subrange(from as int, to as int),
            forall|j: int| 0 <= j < at - from ==> #[trigger] s[j] != c,
        decreases to - at,
    {
        at += 1;
    }
    proof {
        lemma_position(s, c, at - from);
        if at < to {
            assert(s.skip(at - from)[0] == chars@[at as int]);
        }
    }
    at
}

/// The text that `String::from_utf8_lossy` makes of `bytes`: each malformed sequence has
/// become one replacement character.
pub uninterp spec fn lossy_text(bytes: Seq<u8>) -> Seq<char>;

/// `String::from_utf8_lossy`, as an owned string. Bytes that are UTF-8 give the text
/// that they encode.
#[verifier::external_body]
pub(crate) fn lossy(bytes: &[u8]) -> (text: String)
    ensures
        text@ == lossy_text(bytes@),
        valid_utf8(bytes@) ==> text@ == decode_utf8(bytes@),
{
    String::from_utf8_lossy(bytes).into_owned()
}

/// `String::from_utf8`: the text that the bytes encode, where they are UTF-8.
#[verifier::external_body]
pub(crate) fn strict(bytes: &[u8]) -> (text: Option<String>)
    ensures
        match text {
            Some(t) => valid_utf8(bytes@) && t@ == decode_utf8(bytes@),
            None => !valid_utf8(bytes@),
        },
{
    match String::from_utf8(bytes.to_vec()) {
        Ok(t) => Some(t),
        Err(_) => None,
    }
}

/// Whether `a` and `b` hold the same characters.
pub fn same(a: &str, b: &str) -> (equal: bool)
    ensures
        equal == (a@ == b@),
{
    let x = chars_of(a);
    let y = chars_of(b);
    if x.len() != y.len() {
        return false;
    }
    let mut i: usize = 0;
    while i < x.len()
        invariant
            0 <= i <= x.len(),
            x.len() == y.len(),
            x@ == a@,
            y@ == b@,
            forall|j: int| 0 <= j < i ==> x@[j] == y@[j],
        decreases x.len() - i,
    {
        if x[i] != y[i] {
            return false;
        }
        i += 1;
    }
    assert(x@ =~= y@);
    true
}

/// `text` without the white space at its start and at its end.
pub fn trimmed(text: &str) -> (short: String)
    ensures
        short@ == trim(text@),
{
    let chars = chars_of(text);
    let from = skip_leading(&chars, 0, chars.len());
    let to = skip_trailing(&chars, from, chars.len());
    proof {
        let s = chars@;
        assert(s.subrange(0, s.len() as int) =~= s);
        assert(s.subrange(from as int, s.len() as int) =~= trim_start(s));
        assert(s.subrange(from as int, to as int) =~= trim(s));
    }
    piece(&chars, from, to)
}

/// `text` without the white space at its end.
pub fn trimmed_end(text: &str) -> (short: String)
    ensures
        short@ == trim_end(text@),
{
    let chars = chars_of(text);
    let to = skip_trailing(&chars, 0, chars.len());
    proof {
        let s = chars@;
        assert(s.subrange(0, s.len() as int) =~= s);
        assert(s.subrange(0, to as int) =~= trim_end(s));
    }
    piece(&chars, 0, to)
}

/// What stands in `text` before the first `c`: all of it where it holds none.
pub fn before_first(text: &str, c: char) -> (head: String)
    ensures
        head@ == before(text@, c),
{
    let chars = chars_of(text);
    let at = find(&chars, 0, chars.len(), c);
    proof {
        let s = chars@;
        assert(s.subrange(0, s.len() as int) =~= s);
        assert(s.subrange(0, at as int) =~= before(s, c));
    }
    piece(&chars, 0, at)
}

/// What stands in `text` behind the first `c`, if it holds one.
pub fn after_first(text: &str, c: char) -> (tail: Option<String>)
    ensures
        maybe(tail) == after(text@, c),
{
    let chars = chars_of(text);
    let at = find(&chars, 0, chars.len(), c);
    proof {
        let s = chars@;
        assert(s.subrange(0, s.len() as int) =~= s);
    }
    if at < chars.len() {
        proof {
            let s = chars@;
            assert(s.subrange(at + 1, s.len() as int) =~= s.skip(at + 1));
        }
        Some(piece(&chars, at + 1, chars.len()))
    } else {
        None
    }
}

/// The lines of `text`.
pub fn lines_of(text: &str) -> (list: Vec<String>)
    ensures
        texts(list@) == lines(text@),
{
    let chars = chars_of(text);
    let mut list: Vec<String> = Vec::new();
    let mut from: usize = 0;
    assert(chars@.skip(0) =~= chars@);
    assert(texts(list@) =~= Seq::empty());
    while from < chars.len()
        invariant
            0 <= from <= chars.len(),
            chars@ == text@,
            texts(list@) + lines(chars@.skip(from as int)) == lines(text@),
        decreases chars.len() - from,
    {
        let ghost rest = chars@.skip(from as int);
        let ghost done = texts(list@);
        let at = find(&chars, from, chars.len(), '\n');
        assert(chars@.subrange(from as int, chars.len() as int) =~= rest);
        if at < chars.len() {
            let to = if at > from && chars[at - 1] == '\r' {
                at - 1
            } else {
                at
            };
            let line = piece(&chars, from, to);
            proof {
                let raw = before(rest, '\n');
                assert(raw =~= chars@.subrange(from as int, at as int));
                if at > from {
                    assert(raw.last() == chars@[at - 1]);
                }
                assert(line@ =~= without_return(raw));
                assert(after(rest, '\n') == Some(rest.skip(at - from + 1)));
                assert(rest.skip(at - from + 1) =~= chars@.skip(at + 1));
                assert(texts(list@.push(line)) =~= done.push(line@));
                assert(done.push(line@) + lines(chars@.skip(at + 1)) =~= done + lines(rest));
            }
            list.push(line);
            from = at + 1;
        } else {
            let line = piece(&chars, from, chars.len());
            proof {
                assert(after(rest, '\n').is_none());
                assert(line@ =~= rest);
                assert(lines(rest) == seq![rest]);
                assert(chars@.skip(chars.len() as int) =~= Seq::<char>::empty());
                assert(texts(list@.push(line)) =~= done.push(line@));
                assert(done.push(line@) + lines(Seq::<char>::empty()) =~= done + lines(rest));
            }
            list.push(line);
            from = chars.len();
        }
    }
    proof {
        assert(chars@.skip(from as int) =~= Seq::<char>::empty());
        assert(texts(list@) + lines(Seq::<char>::empty()) =~= texts(list@));
    }
    list
}


/// The object identifier of a line that a remote lists.
pub fn object_id_of(line: &str) -> (id: String)
    ensures
        id@ == object_id(line@),
{
    before_first(line, '\t')
}

/// The name of the reference in a line that a remote lists.
pub fn reference_name_of(line: &str) -> (name: Option<String>)
    ensures
        maybe(name) == reference_name(line@),
{
    match after_first(line, '/') {
        Some(rest) => after_first(rest.as_str(), '/'),
        None => None,
    }
}

/// The first line of `text`, if it has one.
pub fn first_line_of(text: &str) -> (line: Option<String>)
    ensures
        maybe(line) == first_line(text@),
{
    let all = lines_of(text);
    if all.len() > 0 {
        Some(all[0].clone())
    } else {
        None
    }
}

/// What `text` lists, line by line: its lines that hold more than white space, each
/// without the white space around it.
pub fn listed_of(text: &str) -> (found: Vec<String>)
    ensures
        texts(found@) == listed(text@),
{
    let all = lines_of(text);
    let ghost wanted = texts(all@);
    let mut found: Vec<String> = Vec::new();
    let mut i: usize = 0;
    assert(wanted.take(0) =~= Seq::empty());
    assert(texts(found@) =~= Seq::empty());
    while i < all.len()
        invariant
            0 <= i <= all.len(),
            wanted == texts(all@),
            texts(found@) == stripped(wanted.take(i as int)),
        decreases all.len() - i,
    {
        let ghost done = texts(found@);
        proof {
            let next = wanted.take(i + 1);
            assert(next.drop_last() =~= wanted.take(i as int));
            assert(next.last() == all@[i as int]@);
        }
        let line = trimmed(all[i].as_str());
        if !line.as_str().is_empty() {
            assert(texts(found@.push(line)) =~= done.push(line@));
            found.push(line);
        }
        i += 1;
    }
    assert(wanted.take(i as int) =~= wanted);
    found
}

/// The names of the references that `text` lists. A line with fewer than two slashes
/// names none and is passed over.
pub fn reference_names_of(text: &str) -> (found: Vec<String>)
    ensures
        texts(found@) == reference_names(listed(text@)),
{
    let all = listed_of(text);
    let ghost wanted = texts(all@);
    let mut found: Vec<String> = Vec::new();
    let mut i: usize = 0;
    assert(wanted.take(0) =~= Seq::empty());
    assert(texts(found@) =~= Seq::empty());
    while i < all.len()
        invariant
            0 <= i <= all.len(),
            wanted == texts(all@),
            texts(found@) == reference_names(wanted.take(i as int)),
        decreases all.len() - i,
    {
        let ghost done = texts(found@);
        proof {
            let next = wanted.take(i + 1);
            assert(next.drop_last() =~= wanted.take(i as int));
            assert(next.last() == all@[i as int]@);
        }
        match reference_name_of(all[i].as_str()) {
            Some(name) => {
                assert(texts(found@.push(name)) =~= done.push(name@));
                found.push(name);
            },
            None => {},
        }
        i += 1;
    }
    assert(wanted.take(i as int) =~= wanted);
    found
}

} // verus!
