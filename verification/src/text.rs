//! Character-level text operations: trimming, splitting, searching, ASCII classes.

use vstd::prelude::*;
use vstd::string::*;

verus! {

/// `String::push` appends one character and changes nothing before it.
pub assume_specification[ String::push ](buffer: &mut String, c: char)
    ensures
        final(buffer)@ == old(buffer)@.push(c),
;

/// The characters with the Unicode `White_Space` property.
pub open spec fn white_space(c: char) -> bool {
    let n = c as u32;
    ||| 0x09 <= n <= 0x0d
    ||| n == 0x20
    ||| n == 0x85
    ||| n == 0xa0
    ||| n == 0x1680
    ||| 0x2000 <= n <= 0x200a
    ||| n == 0x2028
    ||| n == 0x2029
    ||| n == 0x202f
    ||| n == 0x205f
    ||| n == 0x3000
}

pub fn is_white_space(c: char) -> (r: bool)
    ensures
        r == white_space(c),
{
    let n: u32 = c as u32;
    (0x09 <= n && n <= 0x0d) || n == 0x20 || n == 0x85 || n == 0xa0 || n == 0x1680 || (0x2000 <= n
        && n <= 0x200a) || n == 0x2028 || n == 0x2029 || n == 0x202f || n == 0x205f || n == 0x3000
}

/// `s` without its leading white space.
pub open spec fn trimmed_start(s: Seq<char>) -> Seq<char>
    decreases s.len(),
{
    if s.len() > 0 && white_space(s[0]) {
        trimmed_start(s.drop_first())
    } else {
        s
    }
}

/// `s` without its trailing white space.
pub open spec fn trimmed_end(s: Seq<char>) -> Seq<char>
    decreases s.len(),
{
    if s.len() > 0 && white_space(s.last()) {
        trimmed_end(s.drop_last())
    } else {
        s
    }
}

/// `s` without white space at either end.
pub open spec fn trimmed(s: Seq<char>) -> Seq<char> {
    trimmed_end(trimmed_start(s))
}

/// `s` without the trailing run of `c`.
pub open spec fn without_trailing(s: Seq<char>, c: char) -> Seq<char>
    decreases s.len(),
{
    if s.len() > 0 && s.last() == c {
        without_trailing(s.drop_last(), c)
    } else {
        s
    }
}

/// The texts that a sequence of strings holds.
pub open spec fn texts(list: Seq<String>) -> Seq<Seq<char>> {
    list.map_values(|s: String| s@)
}

/// The text that an optional string holds.
pub open spec fn opt_text(value: Option<String>) -> Option<Seq<char>> {
    match value {
        Some(s) => Some(s@),
        None => None,
    }
}

/// The text that an optional string slice holds.
pub open spec fn opt_str(value: Option<&str>) -> Option<Seq<char>> {
    match value {
        Some(s) => Some(s@),
        None => None,
    }
}

pub fn chars_of(text: &str) -> (r: Vec<char>)
    ensures
        r@ == text@,
{
    let mut out: Vec<char> = Vec::new();
    for c in iter: text.chars()
        invariant
            out@ == text@.take(iter.index()),
            iter.seq() == text@,
    {
        out.push(c);
        assert(text@.take(iter.index() + 1) =~= text@.take(iter.index()).push(c));
    }
    assert(text@.take(text@.len() as int) =~= text@);
    out
}

/// The characters of `chars` from `from` up to, not including, `to`.
pub fn text_between(chars: &Vec<char>, from: usize, to: usize) -> (r: String)
    requires
        from <= to <= chars@.len(),
    ensures
        r@ == chars@.subrange(from as int, to as int),
{
    let mut out = String::new();
    let mut i: usize = from;
    while i < to
        invariant
            from <= i <= to <= chars@.len(),
            out@ == chars@.subrange(from as int, i as int),
        decreases to - i,
    {
        out.push(chars[i]);
        i += 1;
        assert(chars@.subrange(from as int, i as int) =~= chars@.subrange(
            from as int,
            i - 1,
        ).push(chars@[i - 1]));
    }
    out
}

/// One text after another.
pub fn joined(a: &str, b: &str) -> (r: String)
    ensures
        r@ == a@ + b@,
{
    a.to_owned().concat(b)
}

pub fn same_text(a: &str, b: &str) -> (r: bool)
    ensures
        r == (a@ == b@),
{
    a.to_owned() == b.to_owned()
}

proof fn lemma_trimmed_start_skip(s: Seq<char>, n: int)
    requires
        0 <= n <= s.len(),
        forall|i: int| 0 <= i < n ==> white_space(#[trigger] s[i]),
    ensures
        trimmed_start(s) == trimmed_start(s.skip(n)),
    decreases n,
{
    if n == 0 {
        assert(s.skip(0) =~= s);
    } else {
        assert(white_space(s[0]));
        assert(s.drop_first().skip(n - 1) =~= s.skip(n));
        assert forall|i: int| 0 <= i < n - 1 implies white_space(#[trigger] s.drop_first()[i]) by {
            assert(s.drop_first()[i] == s[i + 1]);
        }
        lemma_trimmed_start_skip(s.drop_first(), n - 1);
    }
}

proof fn lemma_trimmed_end_take(s: Seq<char>, n: int)
    requires
        0 <= n <= s.len(),
        forall|i: int| n <= i < s.len() ==> white_space(#[trigger] s[i]),
    ensures
        trimmed_end(s) == trimmed_end(s.take(n)),
    decreases s.len() - n,
{
    if n == s.len() {
        assert(s.take(n) =~= s);
    } else {
        assert(white_space(s[s.len() - 1]));
        assert(s.drop_last().take(n) =~= s.take(n));
        assert forall|i: int| n <= i < s.len() - 1 implies white_space(
            #[trigger] s.drop_last()[i],
        ) by {
            assert(s.drop_last()[i] == s[i]);
        }
        lemma_trimmed_end_take(s.drop_last(), n);
    }
}

pub fn trim(text: &str) -> (r: String)
    ensures
        r@ == trimmed(text@),
{
    let chars = chars_of(text);
    let n: usize = chars.len();
    let mut start: usize = 0;
    while start < n && is_white_space(chars[start])
        invariant
            start <= n,
            n == chars@.len(),
            forall|i: int| 0 <= i < start ==> white_space(#[trigger] chars@[i]),
        decreases n - start,
    {
        start += 1;
    }
    let mut end: usize = n;
    while end > start && is_white_space(chars[end - 1])
        invariant
            start <= end <= n,
            n == chars@.len(),
            forall|i: int| end <= i < n ==> white_space(#[trigger] chars@[i]),
        decreases end - start,
    {
        end -= 1;
    }
    proof {
        let s = chars@;
        lemma_trimmed_start_skip(s, start as int);
        let rest = s.skip(start as int);
        if start < n {
            assert(rest[0] == s[start as int]);
        }
        assert(trimmed_start(s) == rest);
        assert forall|i: int| end - start <= i < rest.len() implies white_space(
            #[trigger] rest[i],
        ) by {
            assert(rest[i] == s[start + i]);
        }
        lemma_trimmed_end_take(rest, end - start);
        let kept = rest.take(end - start);
        assert(kept =~= s.subrange(start as int, end as int));
        if end > start {
            assert(kept.last() == s[end - 1]);
        }
        assert(trimmed_end(kept) == kept);
    }
    text_between(&chars, start, end)
}

/// Trimming twice is the same as trimming once.
pub proof fn trimming_is_idempotent(s: Seq<char>)
    ensures
        trimmed(trimmed(s)) == trimmed(s),
{
    lemma_trimmed_start_head(s);
    let t = trimmed_start(s);
    lemma_trimmed_end_shape(t);
    let u = trimmed_end(t);
    if u.len() > 0 {
        assert(u[0] == t[0]);
    }
    assert(trimmed_start(u) == u);
}

proof fn lemma_trimmed_start_head(s: Seq<char>)
    ensures
        trimmed_start(s).len() > 0 ==> !white_space(trimmed_start(s)[0]),
    decreases s.len(),
{
    if s.len() > 0 && white_space(s[0]) {
        lemma_trimmed_start_head(s.drop_first());
    }
}

proof fn lemma_trimmed_end_shape(s: Seq<char>)
    ensures
        trimmed_end(s).len() <= s.len(),
        trimmed_end(s) == s.take(trimmed_end(s).len() as int),
        trimmed_end(s).len() > 0 ==> !white_space(trimmed_end(s).last()),
    decreases s.len(),
{
    if s.len() > 0 && white_space(s.last()) {
        lemma_trimmed_end_shape(s.drop_last());
        assert(s.drop_last().take(trimmed_end(s).len() as int) =~= s.take(
            trimmed_end(s).len() as int,
        ));
    } else {
        assert(s.take(s.len() as int) =~= s);
    }
}

pub fn trim_trailing(text: &str, c: char) -> (r: String)
    ensures
        r@ == without_trailing(text@, c),
{
    let chars = chars_of(text);
    let mut end: usize = chars.len();
    assert(chars@.take(end as int) =~= chars@);
    while end > 0 && chars[end - 1] == c
        invariant
            end <= chars@.len(),
            without_trailing(chars@.take(end as int), c) == without_trailing(chars@, c),
        decreases end,
    {
        assert(chars@.take(end as int).drop_last() =~= chars@.take(end - 1));
        end -= 1;
    }
    proof {
        let kept = chars@.take(end as int);
        if end > 0 {
            assert(kept.last() == chars@[end - 1]);
        }
        assert(kept =~= chars@.subrange(0, end as int));
    }
    text_between(&chars, 0, end)
}

/// The pieces of `s` between the occurrences of `c`: one more than there are occurrences.
pub open spec fn split_on(s: Seq<char>, c: char) -> Seq<Seq<char>>
    decreases s.len(),
{
    if !s.contains(c) {
        seq![s]
    } else {
        proof {
            s.index_of_first_ensures(c);
        }
        let at = s.index_of_first(c)->Some_0;
        seq![s.take(at)] + split_on(s.skip(at + 1), c)
    }
}

/// The first position at or after `from` that holds `c`.
fn find_char(chars: &Vec<char>, from: usize, c: char) -> (r: Option<usize>)
    requires
        from <= chars@.len(),
    ensures
        r matches Some(at) ==> from <= at < chars@.len() && chars@[at as int] == c && forall|i: int|
            from <= i < at ==> chars@[i] != c,
        r is None ==> forall|i: int| from <= i < chars@.len() ==> chars@[i] != c,
{
    let mut i: usize = from;
    while i < chars.len()
        invariant
            from <= i <= chars@.len(),
            forall|j: int| from <= j < i ==> chars@[j] != c,
        decreases chars@.len() - i,
    {
        if chars[i] == c {
            return Some(i);
        }
        i += 1;
    }
    None
}

pub fn split(text: &str, c: char) -> (r: Vec<String>)
    ensures
        texts(r@) == split_on(text@, c),
        r@.len() >= 1,
{
    let chars = chars_of(text);
    let mut out: Vec<String> = Vec::new();
    let n: usize = chars.len();
    let mut from: usize = 0;
    assert(chars@.skip(0) =~= chars@);
    assert(texts(out@) =~= Seq::<Seq<char>>::empty());
    assert(texts(out@) + split_on(chars@.skip(0), c) =~= split_on(chars@, c));
    loop
        invariant
            from <= n,
            n == chars@.len(),
            chars@ == text@,
            texts(out@) + split_on(chars@.skip(from as int), c) == split_on(chars@, c),
        decreases chars@.len() - from,
    {
        let ghost rest = chars@.skip(from as int);
        match find_char(&chars, from, c) {
            Some(at) => {
                let piece = text_between(&chars, from, at);
                let ghost before = out@;
                out.push(piece);
                proof {
                    assert(rest[at - from] == c);
                    rest.index_of_first_ensures(c);
                    let first = rest.index_of_first(c)->Some_0;
                    assert(rest[first] == chars@[from + first]);
                    if first < at - from {
                        assert(chars@[from + first] != c);
                    }
                    if at - from < first {
                        assert(rest[at - from] != c);
                    }
                    assert(first == at - from);
                    assert(rest.take(first) =~= piece@);
                    assert(rest.skip(first + 1) =~= chars@.skip(at + 1));
                    assert(texts(out@) =~= texts(before).push(piece@));
                    assert(texts(out@) + split_on(chars@.skip(at + 1), c) =~= texts(before)
                        + split_on(rest, c));
                }
                from = at + 1;
            },
            None => {
                let piece = text_between(&chars, from, n);
                let ghost before = out@;
                out.push(piece);
                proof {
                    assert forall|i: int| 0 <= i < rest.len() implies rest[i] != c by {
                        assert(rest[i] == chars@[from + i]);
                    }
                    assert(!rest.contains(c));
                    assert(rest =~= piece@);
                    assert(texts(out@) =~= texts(before).push(piece@));
                    assert(texts(out@) =~= texts(before) + split_on(rest, c));
                }
                return out;
            },
        }
    }
}

/// What stands before and after the first `c` in `s`.
pub open spec fn parted_at(s: Seq<char>, c: char) -> Option<(Seq<char>, Seq<char>)> {
    match s.index_of_first(c) {
        Some(at) => Some((s.take(at), s.skip(at + 1))),
        None => None,
    }
}

pub fn split_once(text: &str, c: char) -> (r: Option<(String, String)>)
    ensures
        (match r {
            Some((before, after)) => Some((before@, after@)),
            None => None,
        }) == parted_at(text@, c),
{
    let chars = chars_of(text);
    let n: usize = chars.len();
    proof {
        chars@.index_of_first_ensures(c);
    }
    match find_char(&chars, 0, c) {
        Some(at) => {
            let before = text_between(&chars, 0, at);
            let after = text_between(&chars, at + 1, n);
            proof {
                assert(chars@[at as int] == c);
                let first = chars@.index_of_first(c)->Some_0;
                if first < at {
                    assert(chars@[first] != c);
                }
                if at < first {
                    assert(chars@[at as int] != c);
                }
                assert(before@ =~= chars@.take(first));
                assert(after@ =~= chars@.skip(first + 1));
            }
            Some((before, after))
        },
        None => {
            assert(!chars@.contains(c));
            None
        },
    }
}

/// `Some` of what follows `prefix` in `s`, when `s` begins with it.
pub open spec fn after_prefix(s: Seq<char>, prefix: Seq<char>) -> Option<Seq<char>> {
    if prefix.is_prefix_of(s) {
        Some(s.skip(prefix.len() as int))
    } else {
        None
    }
}

/// Whether `part` stands in `chars` at position `at`.
pub open spec fn stands_at(s: Seq<char>, part: Seq<char>, at: int) -> bool {
    &&& 0 <= at
    &&& at + part.len() <= s.len()
    &&& s.subrange(at, at + part.len()) == part
}

pub fn matches_at(chars: &Vec<char>, part: &Vec<char>, at: usize) -> (r: bool)
    requires
        at <= chars@.len(),
    ensures
        r == stands_at(chars@, part@, at as int),
{
    let n: usize = chars.len();
    if n - at < part.len() {
        return false;
    }
    let mut i: usize = 0;
    while i < part.len()
        invariant
            i <= part@.len(),
            n == chars@.len(),
            at + part@.len() <= n,
            forall|j: int| 0 <= j < i ==> #[trigger] part@[j] == chars@[at + j],
        decreases part@.len() - i,
    {
        if chars[at + i] != part[i] {
            assert(chars@.subrange(at as int, at + part@.len())[i as int] != part@[i as int]);
            return false;
        }
        i += 1;
    }
    assert(chars@.subrange(at as int, at + part@.len()) =~= part@);
    true
}

/// The first position at or after `at` where `part` stands in `s`.
pub open spec fn found_from(s: Seq<char>, part: Seq<char>, at: int) -> Option<int>
    decreases s.len() + 1 - at,
{
    if at < 0 || at > s.len() {
        None
    } else if stands_at(s, part, at) {
        Some(at)
    } else {
        found_from(s, part, at + 1)
    }
}

/// What is found is the first place where the part stands, and nothing is found only where it
/// stands nowhere.
pub proof fn the_first_occurrence_is_found(s: Seq<char>, part: Seq<char>, from: int, at: int)
    requires
        0 <= from <= at,
        forall|i: int|
            from <= i < at && i + part.len() <= s.len() ==> s.subrange(
                i,
                #[trigger] (i + part.len()),
            ) != part,
    ensures
        at + part.len() <= s.len() && s.subrange(at, at + part.len()) == part ==> found_from(
            s,
            part,
            from,
        ) == Some(at),
        at + part.len() > s.len() ==> found_from(s, part, from) is None,
    decreases s.len() + 1 - from,
{
    if from <= s.len() {
        if from < at {
            assert(from + part.len() <= s.len() ==> s.subrange(from, from + part.len()) != part);
            the_first_occurrence_is_found(s, part, from + 1, at);
        } else if at + part.len() > s.len() {
            the_first_occurrence_is_found(s, part, from + 1, at + 1);
        }
    }
}

pub fn find(chars: &Vec<char>, part: &Vec<char>) -> (r: Option<usize>)
    ensures
        (match r {
            Some(at) => Some(at as int),
            None => None,
        }) == found_from(chars@, part@, 0),
        r matches Some(at) ==> at + part@.len() <= chars@.len(),
{
    let n: usize = chars.len();
    let mut at: usize = 0;
    loop
        invariant
            n == chars@.len(),
            at <= n,
            found_from(chars@, part@, at as int) == found_from(chars@, part@, 0),
        decreases n - at,
    {
        if matches_at(chars, part, at) {
            return Some(at);
        }
        if at == n {
            assert(found_from(chars@, part@, at + 1) is None);
            return None;
        }
        at += 1;
    }
}

pub fn strip_prefix(text: &str, prefix: &str) -> (r: Option<String>)
    ensures
        opt_text(r) == after_prefix(text@, prefix@),
{
    let chars = chars_of(text);
    let part = chars_of(prefix);
    proof {
        if part@.is_prefix_of(chars@) {
            assert(chars@.subrange(0, part@.len() as int) =~= part@);
        }
        if stands_at(chars@, part@, 0) {
            assert(chars@.subrange(0, part@.len() as int) == part@);
            assert forall|i: int| 0 <= i < part@.len() implies part@[i] == chars@[i] by {
                assert(part@[i] == chars@.subrange(0, part@.len() as int)[i]);
            }
        }
    }
    if matches_at(&chars, &part, 0) {
        let from: usize = part.len();
        let to: usize = chars.len();
        let rest = text_between(&chars, from, to);
        assert(rest@ =~= text@.skip(prefix@.len() as int));
        Some(rest)
    } else {
        None
    }
}

pub open spec fn ascii_digit(c: char) -> bool {
    '0' <= c <= '9'
}

pub open spec fn ascii_alphanumeric(c: char) -> bool {
    ascii_digit(c) || 'a' <= c <= 'z' || 'A' <= c <= 'Z'
}

pub open spec fn ascii_hex_digit(c: char) -> bool {
    ascii_digit(c) || 'a' <= c <= 'f' || 'A' <= c <= 'F'
}

/// The characters below U+0020, and U+007F.
pub open spec fn ascii_control(c: char) -> bool {
    (c as u32) < 0x20 || c as u32 == 0x7f
}

/// The lower-case form of an ASCII letter, any other character unchanged.
pub open spec fn ascii_lower(c: char) -> char {
    if 'A' <= c <= 'Z' {
        (c as u32 + 32) as char
    } else {
        c
    }
}

pub fn is_ascii_digit(c: char) -> (r: bool)
    ensures
        r == ascii_digit(c),
{
    '0' <= c && c <= '9'
}

pub fn is_ascii_alphanumeric(c: char) -> (r: bool)
    ensures
        r == ascii_alphanumeric(c),
{
    is_ascii_digit(c) || ('a' <= c && c <= 'z') || ('A' <= c && c <= 'Z')
}

pub fn is_ascii_hex_digit(c: char) -> (r: bool)
    ensures
        r == ascii_hex_digit(c),
{
    is_ascii_digit(c) || ('a' <= c && c <= 'f') || ('A' <= c && c <= 'F')
}

pub fn is_ascii_control(c: char) -> (r: bool)
    ensures
        r == ascii_control(c),
{
    (c as u32) < 0x20 || c as u32 == 0x7f
}

pub fn to_ascii_lower(c: char) -> (r: char)
    ensures
        r == ascii_lower(c),
{
    if 'A' <= c && c <= 'Z' {
        ((c as u8) + 32) as char
    } else {
        c
    }
}

/// Trimming takes the white space off both ends and nothing else: a text that neither begins nor
/// ends with white space comes back whatever white space is put around it.
pub proof fn trimming_takes_only_white_space(front: Seq<char>, core: Seq<char>, back: Seq<char>)
    requires
        forall|i: int| 0 <= i < front.len() ==> white_space(#[trigger] front[i]),
        forall|i: int| 0 <= i < back.len() ==> white_space(#[trigger] back[i]),
        core.len() > 0 ==> !white_space(core[0]) && !white_space(core.last()),
    ensures
        trimmed(front + core + back) == core,
{
    let s = front + core + back;
    assert forall|i: int| 0 <= i < front.len() implies white_space(#[trigger] s[i]) by {
        assert(s[i] == front[i]);
    }
    lemma_trimmed_start_skip(s, front.len() as int);
    let rest = s.skip(front.len() as int);
    assert(rest =~= core + back);
    if core.len() > 0 {
        assert(rest[0] == core[0]);
        assert(trimmed_start(rest) == rest);
        assert forall|i: int| core.len() <= i < rest.len() implies white_space(
            #[trigger] rest[i],
        ) by {
            assert(rest[i] == back[i - core.len()]);
        }
        lemma_trimmed_end_take(rest, core.len() as int);
        assert(rest.take(core.len() as int) =~= core);
        assert(trimmed_end(core) == core);
    } else {
        assert(rest =~= back);
        lemma_trimmed_start_skip(back, back.len() as int);
        assert(back.skip(back.len() as int) =~= core);
        assert(trimmed_start(core) =~= core);
        assert(trimmed_end(core) =~= core);
    }
}

/// The blank, the tab and the line ends are white space; letters, digits, signs and every other
/// character that is printed in ASCII are not.
pub proof fn white_space_is_not_printed(c: char)
    ensures
        c == ' ' || c == '\t' || c == '\n' || c == '\r' ==> white_space(c),
        '!' <= c <= '~' ==> !white_space(c),
        white_space(c) <==> seq![
            0x09u32,
            0x0a,
            0x0b,
            0x0c,
            0x0d,
            0x20,
            0x85,
            0xa0,
            0x1680,
            0x2000,
            0x2001,
            0x2002,
            0x2003,
            0x2004,
            0x2005,
            0x2006,
            0x2007,
            0x2008,
            0x2009,
            0x200a,
            0x2028,
            0x2029,
            0x202f,
            0x205f,
            0x3000,
        ].contains(c as u32),
{
    let all = seq![
        0x09u32,
        0x0a,
        0x0b,
        0x0c,
        0x0d,
        0x20,
        0x85,
        0xa0,
        0x1680,
        0x2000,
        0x2001,
        0x2002,
        0x2003,
        0x2004,
        0x2005,
        0x2006,
        0x2007,
        0x2008,
        0x2009,
        0x200a,
        0x2028,
        0x2029,
        0x202f,
        0x205f,
        0x3000,
    ];
    let n = c as u32;
    if white_space(c) {
        let i = if n <= 0x0d {
            n - 0x09
        } else if n == 0x20 {
            5
        } else if n == 0x85 {
            6
        } else if n == 0xa0 {
            7
        } else if n == 0x1680 {
            8
        } else if n <= 0x200a {
            9 + n - 0x2000
        } else if n == 0x2028 {
            20
        } else if n == 0x2029 {
            21
        } else if n == 0x202f {
            22
        } else if n == 0x205f {
            23
        } else {
            24
        };
        assert(all[i] == n);
    }
}

/// The pieces of a text at a character, put together again.
pub open spec fn rejoined(pieces: Seq<Seq<char>>, c: char) -> Seq<char>
    decreases pieces.len(),
{
    if pieces.len() == 0 {
        Seq::empty()
    } else if pieces.len() == 1 {
        pieces[0]
    } else {
        pieces[0].push(c) + rejoined(pieces.drop_first(), c)
    }
}

/// Splitting loses nothing: the pieces with the character between them are the text again, and no
/// piece holds the character.
pub proof fn splitting_loses_nothing(s: Seq<char>, c: char)
    ensures
        split_on(s, c).len() >= 1,
        rejoined(split_on(s, c), c) == s,
        forall|i: int| 0 <= i < split_on(s, c).len() ==> !(#[trigger] split_on(s, c)[i]).contains(c),
    decreases s.len(),
{
    let pieces = split_on(s, c);
    if s.contains(c) {
        s.index_of_first_ensures(c);
        let at = s.index_of_first(c)->Some_0;
        let head = s.take(at);
        let tail = s.skip(at + 1);
        splitting_loses_nothing(tail, c);
        let rest = split_on(tail, c);
        assert(pieces.drop_first() =~= rest);
        assert(pieces[0] == head);
        assert(head.push(c) + tail =~= s);
        assert(!head.contains(c)) by {
            if head.contains(c) {
                let i = choose|i: int| 0 <= i < head.len() && head[i] == c;
                assert(s[i] == c);
            }
        }
        assert forall|i: int| 0 <= i < pieces.len() implies !(#[trigger] pieces[i]).contains(c) by {
            if i > 0 {
                assert(pieces[i] == rest[i - 1]);
            }
        }
    }
}

/// A text is parted at the first of the characters in it.
pub proof fn texts_part_at_the_first(front: Seq<char>, c: char, back: Seq<char>)
    requires
        !front.contains(c),
    ensures
        parted_at(front.push(c) + back, c) == Some((front, back)),
        parted_at(front, c) is None,
{
    let s = front.push(c) + back;
    front.index_of_first_ensures(c);
    s.index_of_first_ensures(c);
    assert(s[front.len() as int] == c);
    let at = s.index_of_first(c)->Some_0;
    assert(s[at] == c);
    if at < front.len() {
        assert(front[at] == c);
        assert(front.contains(c));
    }
    assert(at == front.len());
    assert(s.take(at) =~= front);
    assert(s.skip(at + 1) =~= back);
}

/// What follows a prefix is what was put behind it.
pub proof fn prefixes_come_off(prefix: Seq<char>, rest: Seq<char>, other: Seq<char>)
    ensures
        after_prefix(prefix + rest, prefix) == Some(rest),
        after_prefix(other, prefix) matches Some(tail) ==> prefix + tail == other,
{
    assert((prefix + rest).skip(prefix.len() as int) =~= rest);
    assert(prefix.is_prefix_of(prefix + rest));
    if prefix.is_prefix_of(other) {
        assert(prefix + other.skip(prefix.len() as int) =~= other);
    }
}

/// A trailing run of a character is taken off whole, and nothing else is.
pub proof fn trailing_runs_come_off(kept: Seq<char>, c: char, n: nat)
    requires
        kept.len() > 0 ==> kept.last() != c,
    ensures
        without_trailing(kept + Seq::new(n, |i: int| c), c) == kept,
    decreases n,
{
    let s = kept + Seq::new(n, |i: int| c);
    if n == 0 {
        assert(s =~= kept);
    } else {
        assert(s.last() == c);
        assert(s.drop_last() =~= kept + Seq::new((n - 1) as nat, |i: int| c));
        trailing_runs_come_off(kept, c, (n - 1) as nat);
    }
}

/// The ASCII classes, by their characters.
pub proof fn ascii_classes_are_ranges(c: char)
    ensures
        ascii_digit(c) <==> 0x30 <= c as u32 <= 0x39,
        ascii_alphanumeric(c) <==> 0x30 <= c as u32 <= 0x39 || 0x61 <= c as u32 <= 0x7a || 0x41
            <= c as u32 <= 0x5a,
        ascii_hex_digit(c) <==> 0x30 <= c as u32 <= 0x39 || 0x61 <= c as u32 <= 0x66 || 0x41
            <= c as u32 <= 0x46,
        ascii_control(c) <==> (c as u32) <= 0x1f || c as u32 == 0x7f,
        0x41 <= c as u32 <= 0x5a ==> ascii_lower(c) as u32 == c as u32 + 32,
        !(0x41 <= c as u32 <= 0x5a) ==> ascii_lower(c) == c,
{
}

} // verus!
