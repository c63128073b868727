//! The texts that the widget puts together: numbers, searches and joins.

use vstd::prelude::*;

verus! {

/// `String::push`: appends one character.
pub assume_specification[ String::push ](s: &mut String, c: char)
    ensures
        final(s)@ == old(s)@.push(c),
;

/// A code unit that opens a pair.
pub open spec fn opens_pair(unit: u16) -> bool {
    0xD800 <= unit < 0xDC00
}

/// A code unit that closes a pair.
pub open spec fn closes_pair(unit: u16) -> bool {
    0xDC00 <= unit < 0xE000
}

/// The text that UTF-16 code units spell: a pair is one character, any other unit
/// stands for itself, and one that belongs to a pair and has no partner is replaced.
pub open spec fn utf16_lossy(units: Seq<u16>) -> Seq<char>
    decreases units.len(),
{
    if units.len() == 0 {
        Seq::empty()
    } else if opens_pair(units[0]) && units.len() > 1 && closes_pair(units[1]) {
        let c = (0x10000 + (units[0] - 0xD800) * 0x400 + (units[1] - 0xDC00)) as char;
        seq![c] + utf16_lossy(units.skip(2))
    } else if opens_pair(units[0]) || closes_pair(units[0]) {
        seq!['\u{FFFD}'] + utf16_lossy(units.skip(1))
    } else {
        seq![units[0] as char] + utf16_lossy(units.skip(1))
    }
}

/// `String::from_utf16_lossy`: the text that UTF-16 code units spell, with a
/// replacement character for each unit without its partner.
#[verifier::external_body]
pub(crate) fn decode_utf16_lossy(units: &Vec<u16>) -> (r: String)
    ensures
        r@ == utf16_lossy(units@),
{
    String::from_utf16_lossy(units)
}

/// A zero unit belongs to no pair: at the end it spells a zero character behind the
/// rest.
pub proof fn lemma_last_zero_stands_alone(units: Seq<u16>)
    ensures
        utf16_lossy(units.push(0)) == utf16_lossy(units).push('\0'),
    decreases units.len(),
{
    let longer = units.push(0);
    if units.len() == 0 {
        reveal_with_fuel(utf16_lossy, 2);
        assert(utf16_lossy(longer) =~= seq!['\0']);
    } else {
        assert(longer.skip(1) =~= units.skip(1).push(0));
        lemma_last_zero_stands_alone(units.skip(1));
        if opens_pair(units[0]) && units.len() > 1 && closes_pair(units[1]) {
            assert(longer.skip(2) =~= units.skip(2).push(0));
            lemma_last_zero_stands_alone(units.skip(2));
        }
        assert(utf16_lossy(longer) =~= utf16_lossy(units).push('\0'));
    }
}

/// A text ends in a zero character only where its units end in a zero.
pub proof fn lemma_zero_comes_from_a_zero(units: Seq<u16>)
    requires
        units.len() > 0,
        units.last() != 0,
    ensures
        utf16_lossy(units).len() > 0,
        utf16_lossy(units).last() != '\0',
    decreases units.len(),
{
    reveal_with_fuel(utf16_lossy, 2);
    if opens_pair(units[0]) && units.len() > 1 && closes_pair(units[1]) {
        if units.len() > 2 {
            lemma_zero_comes_from_a_zero(units.skip(2));
        }
    } else if units.len() > 1 {
        lemma_zero_comes_from_a_zero(units.skip(1));
    }
}

/// `str::to_uppercase`: a function of the text alone.
pub uninterp spec fn uppercase(text: Seq<char>) -> Seq<char>;

/// `str::to_uppercase`: the Unicode uppercase of a text.
#[verifier::external_body]
pub(crate) fn to_uppercase(text: &str) -> (r: String)
    ensures
        r@ == uppercase(text@),
{
    text.to_uppercase()
}

/// The characters of a text.
pub fn chars_of(text: &str) -> (r: Vec<char>)
    ensures
        r@ == text@,
{
    let mut out: Vec<char> = Vec::new();
    for c in it: text.chars()
        invariant
            out@ == text@.take(it.index()),
            it.seq() == text@,
    {
        out.push(c);
        assert(text@.take(it.index() + 1) == text@.take(it.index()).push(c));
    }
    assert(text@.take(text@.len() as int) == text@);
    out
}

/// The text that characters spell.
pub fn text_of(chars: &Vec<char>) -> (r: String)
    ensures
        r@ == chars@,
{
    let mut out = String::new();
    let mut i: usize = 0;
    while i < chars.len()
        invariant
            i <= chars.len(),
            out@ == chars@.take(i as int),
        decreases chars.len() - i,
    {
        out.push(chars[i]);
        assert(chars@.take(i + 1) == chars@.take(i as int).push(chars@[i as int]));
        i += 1;
    }
    assert(chars@.take(chars@.len() as int) == chars@);
    out
}

/// Two texts, one behind the other.
pub fn join2(a: &str, b: &str) -> (r: String)
    ensures
        r@ == a@ + b@,
{
    let mut out = a.to_owned();
    out.append(b);
    out
}

/// Three texts, one behind the other.
pub fn join3(a: &str, b: &str, c: &str) -> (r: String)
    ensures
        r@ == a@ + b@ + c@,
{
    let mut out = join2(a, b);
    out.append(c);
    out
}

/// The decimal digit of a number below ten.
pub open spec fn digit(n: nat) -> char {
    ('0' as nat + n) as char
}

/// The decimal notation of a number.
pub open spec fn digits(n: nat) -> Seq<char>
    decreases n,
{
    if n < 10 {
        seq![digit(n)]
    } else {
        digits(n / 10).push(digit(n % 10))
    }
}

fn digit_of(n: u64) -> (c: char)
    requires
        n < 10,
    ensures
        c == digit(n as nat),
{
    (48u8 + n as u8) as char
}

/// The decimal notation of `n`.
pub fn decimal_chars(n: u64) -> (r: Vec<char>)
    ensures
        r@ == digits(n as nat),
    decreases n,
{
    if n < 10 {
        let mut out: Vec<char> = Vec::new();
        out.push(digit_of(n));
        out
    } else {
        let mut out = decimal_chars(n / 10);
        out.push(digit_of(n % 10));
        out
    }
}

/// The decimal notation of `n`.
pub fn decimal(n: u64) -> (r: String)
    ensures
        r@ == digits(n as nat),
{
    let chars = decimal_chars(n);
    text_of(&chars)
}

/// A digit string with a comma before each group of three, counted from the right.
pub open spec fn grouped(s: Seq<char>) -> Seq<char>
    decreases s.len(),
{
    if s.len() <= 3 {
        s
    } else {
        grouped(s.take(s.len() - 3)).push(',') + s.skip(s.len() - 3)
    }
}

/// One more digit on the left opens a new group when the groups behind it are full.
proof fn lemma_grouped_cons(c: char, t: Seq<char>)
    ensures
        grouped(seq![c] + t) == if t.len() > 0 && t.len() % 3 == 0 {
            seq![c, ','] + grouped(t)
        } else {
            seq![c] + grouped(t)
        },
    decreases t.len(),
{
    let s = seq![c] + t;
    if t.len() < 3 {
    } else if t.len() == 3 {
        assert(s.take(1) =~= seq![c]);
        assert(s.skip(1) =~= t);
        assert(grouped(s.take(1)) == seq![c]);
        assert(grouped(s) =~= seq![c, ','] + t);
    } else {
        let t0 = t.take(t.len() - 3);
        let t1 = t.skip(t.len() - 3);
        assert(s.take(s.len() - 3) =~= seq![c] + t0);
        assert(s.skip(s.len() - 3) =~= t1);
        lemma_grouped_cons(c, t0);
        assert(t0.len() % 3 == t.len() % 3);
        assert(grouped(s) == grouped(seq![c] + t0).push(',') + t1);
        if t.len() % 3 == 0 {
            assert(grouped(s) =~= seq![c, ','] + grouped(t));
        } else {
            assert(grouped(s) =~= seq![c] + grouped(t));
        }
    }
}

/// A number in decimal notation, with a comma before each group of three digits.
pub fn format_with_commas(n: u64) -> (r: String)
    ensures
        r@ == grouped(digits(n as nat)),
{
    let chars = decimal_chars(n);
    let len: usize = chars.len();
    let mut reversed: Vec<char> = Vec::new();
    let mut i: usize = 0;
    assert(chars@.skip(len as int) =~= Seq::<char>::empty());
    while i < len
        invariant
            i <= len,
            len == chars.len(),
            reversed@.reverse() =~= grouped(chars@.skip(len - i)),
        decreases len - i,
    {
        let ghost before = reversed@;
        let c = chars[len - 1 - i];
        if i > 0 && i % 3 == 0 {
            reversed.push(',');
        }
        reversed.push(c);
        proof {
            let t = chars@.skip(len - i);
            assert(chars@.skip(len - (i + 1)) =~= seq![c] + t);
            lemma_grouped_cons(c, t);
            if i > 0 && i % 3 == 0 {
                assert(reversed@.reverse() =~= seq![c, ','] + before.reverse());
            } else {
                assert(reversed@.reverse() =~= seq![c] + before.reverse());
            }
        }
        i += 1;
    }
    assert(chars@.skip(0) =~= chars@);
    let mut out = String::new();
    let total: usize = reversed.len();
    let mut j: usize = 0;
    while j < total
        invariant
            j <= total,
            total == reversed.len(),
            out@ =~= reversed@.reverse().take(j as int),
        decreases total - j,
    {
        out.push(reversed[total - 1 - j]);
        j += 1;
    }
    out
}

/// A text without its commas.
pub open spec fn without_commas(s: Seq<char>) -> Seq<char>
    decreases s.len(),
{
    if s.len() == 0 {
        s
    } else if s.last() == ',' {
        without_commas(s.drop_last())
    } else {
        without_commas(s.drop_last()).push(s.last())
    }
}

/// The number that decimal digits stand for.
pub open spec fn number(s: Seq<char>) -> int
    decreases s.len(),
{
    if s.len() == 0 {
        0
    } else {
        10 * number(s.drop_last()) + (s.last() as int - '0' as int)
    }
}

proof fn lemma_without_commas_adds(a: Seq<char>, b: Seq<char>)
    ensures
        without_commas(a + b) == without_commas(a) + without_commas(b),
    decreases b.len(),
{
    if b.len() == 0 {
        assert(a + b =~= a);
        assert(without_commas(a) + without_commas(b) =~= without_commas(a));
    } else {
        assert((a + b).drop_last() =~= a + b.drop_last());
        lemma_without_commas_adds(a, b.drop_last());
        assert(without_commas(a + b) =~= without_commas(a) + without_commas(b));
    }
}

proof fn lemma_without_commas_keeps(s: Seq<char>)
    requires
        !s.contains(','),
    ensures
        without_commas(s) == s,
    decreases s.len(),
{
    if s.len() > 0 {
        assert(s.contains(s.last()));
        assert forall|c: char| s.drop_last().contains(c) implies s.contains(c) by {
            let i = choose|i: int| 0 <= i < s.drop_last().len() && s.drop_last()[i] == c;
            assert(s[i] == c);
        }
        lemma_without_commas_keeps(s.drop_last());
        assert(s.drop_last().push(s.last()) =~= s);
    }
}

proof fn lemma_grouping_keeps_the_digits(s: Seq<char>)
    requires
        !s.contains(','),
    ensures
        without_commas(grouped(s)) == s,
    decreases s.len(),
{
    if s.len() <= 3 {
        lemma_without_commas_keeps(s);
    } else {
        let a = s.take(s.len() - 3);
        let b = s.skip(s.len() - 3);
        assert(!a.contains(',')) by {
            if a.contains(',') {
                let i = choose|i: int| 0 <= i < a.len() && a[i] == ',';
                assert(s[i] == ',');
            }
        }
        assert(!b.contains(',')) by {
            if b.contains(',') {
                let i = choose|i: int| 0 <= i < b.len() && b[i] == ',';
                assert(s[s.len() - 3 + i] == ',');
            }
        }
        lemma_grouping_keeps_the_digits(a);
        lemma_without_commas_keeps(b);
        lemma_without_commas_adds(grouped(a).push(','), b);
        assert(grouped(a).push(',').drop_last() =~= grouped(a));
        assert(a + b =~= s);
    }
}

proof fn lemma_digits(n: nat)
    ensures
        number(digits(n)) == n,
        !digits(n).contains(','),
    decreases n,
{
    if n < 10 {
        let s = seq![digit(n)];
        assert(s.drop_last() =~= Seq::<char>::empty());
        assert(number(Seq::<char>::empty()) == 0);
    } else {
        lemma_digits(n / 10);
        let s = digits(n);
        assert(s.drop_last() =~= digits(n / 10));
        assert(!s.contains(',')) by {
            if s.contains(',') {
                let i = choose|i: int| 0 <= i < s.len() && s[i] == ',';
                if i < s.len() - 1 {
                    assert(digits(n / 10)[i] == ',');
                }
            }
        }
    }
}

/// The commas only set groups apart: without them the text of a number stands for
/// that number, so no two numbers read the same.
pub proof fn lemma_commas_keep_the_number(n: nat)
    ensures
        without_commas(grouped(digits(n))) == digits(n),
        number(digits(n)) == n,
{
    lemma_digits(n);
    lemma_grouping_keeps_the_digits(digits(n));
}

/// Whether `needle` stands in `hay` at position `i`.
pub open spec fn occurs_at(hay: Seq<char>, needle: Seq<char>, i: int) -> bool {
    0 <= i && i + needle.len() <= hay.len() && hay.subrange(i, i + needle.len()) == needle
}

fn stands_at(hay: &Vec<char>, needle: &Vec<char>, at: usize) -> (r: bool)
    requires
        at <= hay.len(),
    ensures
        r == occurs_at(hay@, needle@, at as int),
{
    if needle.len() > hay.len() - at {
        return false;
    }
    let mut i: usize = 0;
    while i < needle.len()
        invariant
            i <= needle.len(),
            at + needle.len() <= hay.len(),
            forall|k: int| 0 <= k < i ==> hay@[at + k] == needle@[k],
        decreases needle.len() - i,
    {
        if hay[at + i] != needle[i] {
            assert(hay@.subrange(at as int, at + needle@.len())[i as int] != needle@[i as int]);
            return false;
        }
        i += 1;
    }
    assert(hay@.subrange(at as int, at + needle@.len()) =~= needle@);
    true
}

/// What `split_once` gives: the parts before and behind the first occurrence.
pub open spec fn splits_at_first(
    text: Seq<char>,
    separator: Seq<char>,
    head: Seq<char>,
    tail: Seq<char>,
) -> bool {
    &&& text == head + separator + tail
    &&& forall|i: int| 0 <= i < head.len() ==> !#[trigger] occurs_at(text, separator, i)
}

/// Where `needle` first stands in `hay` from position `from` on.
pub open spec fn first_at(hay: Seq<char>, needle: Seq<char>, from: int) -> Option<int>
    decreases hay.len() - from,
{
    if occurs_at(hay, needle, from) {
        Some(from)
    } else if from >= hay.len() {
        None
    } else {
        first_at(hay, needle, from + 1)
    }
}

/// The parts of a text before and behind the first occurrence of a separator.
pub open spec fn split(text: Seq<char>, separator: Seq<char>) -> Option<(Seq<char>, Seq<char>)> {
    match first_at(text, separator, 0) {
        Some(i) => Some((text.take(i), text.skip(i + separator.len()))),
        None => None,
    }
}

proof fn lemma_first_at(hay: Seq<char>, needle: Seq<char>, from: int, at: int)
    requires
        0 <= from <= at,
        occurs_at(hay, needle, at),
        forall|i: int| from <= i < at ==> !#[trigger] occurs_at(hay, needle, i),
    ensures
        first_at(hay, needle, from) == Some(at),
    decreases at - from,
{
    if from < at {
        lemma_first_at(hay, needle, from + 1, at);
    }
}

/// A text is split at an occurrence of the separator that none comes before.
pub proof fn lemma_first_occurrence(text: Seq<char>, separator: Seq<char>, at: int)
    requires
        occurs_at(text, separator, at),
        forall|i: int| 0 <= i < at ==> !#[trigger] occurs_at(text, separator, i),
    ensures
        split(text, separator) == Some((text.take(at), text.skip(at + separator.len()))),
{
    lemma_first_at(text, separator, 0, at);
}

proof fn lemma_no_first_at(hay: Seq<char>, needle: Seq<char>, from: int)
    requires
        0 <= from,
        forall|i: int| !#[trigger] occurs_at(hay, needle, i),
    ensures
        first_at(hay, needle, from) is None,
    decreases hay.len() - from,
{
    if from < hay.len() {
        lemma_no_first_at(hay, needle, from + 1);
    }
}

/// The parts of `text` before and behind the first occurrence of `separator`.
pub fn split_once(text: &str, separator: &str) -> (r: Option<(String, String)>)
    ensures
        match r {
            Some((head, tail)) => splits_at_first(text@, separator@, head@, tail@) && split(
                text@,
                separator@,
            ) == Some((head@, tail@)),
            None => split(text@, separator@) is None,
        },
{
    let hay = chars_of(text);
    let needle = chars_of(separator);
    let mut at: usize = 0;
    while needle.len() <= hay.len() - at
        invariant
            hay@ == text@,
            needle@ == separator@,
            at <= hay.len(),
            forall|i: int| 0 <= i < at ==> !#[trigger] occurs_at(text@, separator@, i),
        decreases hay.len() - at,
    {
        if stands_at(&hay, &needle, at) {
            let mut head: Vec<char> = Vec::new();
            let mut i: usize = 0;
            while i < at
                invariant
                    i <= at <= hay.len(),
                    head@ =~= hay@.take(i as int),
                decreases at - i,
            {
                head.push(hay[i]);
                i += 1;
            }
            let mut tail: Vec<char> = Vec::new();
            let mut j: usize = at + needle.len();
            while j < hay.len()
                invariant
                    at + needle.len() <= j <= hay.len(),
                    tail@ =~= hay@.subrange(at + needle.len(), j as int),
                decreases hay.len() - j,
            {
                tail.push(hay[j]);
                j += 1;
            }
            assert(hay@ =~= head@ + needle@ + tail@) by {
                assert(hay@.subrange(at as int, at + needle@.len()) == needle@);
                assert(forall|k: int|
                    0 <= k < needle@.len() ==> needle@[k] == hay@.subrange(
                        at as int,
                        at + needle@.len(),
                    )[k]);
            }
            proof {
                lemma_first_at(text@, separator@, 0, at as int);
                assert(text@.take(at as int) =~= head@);
                assert(text@.skip(at + separator@.len()) =~= tail@);
            }
            return Some((text_of(&head), text_of(&tail)));
        }
        assert(needle.len() > 0) by {
            if needle.len() == 0 {
                assert(hay@.subrange(at as int, at as int) =~= needle@);
            }
        }
        at += 1;
    }
    proof {
        lemma_no_first_at(text@, separator@, 0);
    }
    None
}

/// `hay` with `with` in the place of each occurrence of `needle`, from the left.
pub open spec fn replaced(hay: Seq<char>, needle: Seq<char>, with: Seq<char>) -> Seq<char>
    decreases hay.len(),
{
    if needle.len() == 0 || hay.len() < needle.len() {
        hay
    } else if hay.take(needle.len() as int) == needle {
        with + replaced(hay.skip(needle.len() as int), needle, with)
    } else {
        seq![hay[0]] + replaced(hay.skip(1), needle, with)
    }
}

/// Replaces each occurrence of `needle`, from the left.
pub fn replace(hay: &str, needle: &str, with: &str) -> (r: String)
    requires
        needle@.len() > 0,
    ensures
        r@ == replaced(hay@, needle@, with@),
{
    let h = chars_of(hay);
    let n = chars_of(needle);
    let mut out = String::new();
    let mut at: usize = 0;
    assert(h@.skip(0) =~= h@);
    while at < h.len()
        invariant
            n@.len() > 0,
            at <= h.len(),
            out@ + replaced(h@.skip(at as int), n@, with@) =~= replaced(h@, n@, with@),
        decreases h.len() - at,
    {
        let ghost rest = h@.skip(at as int);
        let found = stands_at(&h, &n, at);
        if found {
            out.append(with);
            proof {
                assert(rest.take(n@.len() as int) =~= h@.subrange(at as int, at + n@.len()));
                assert(rest.skip(n@.len() as int) =~= h@.skip(at + n@.len()));
            }
            at += n.len();
        } else {
            out.push(h[at]);
            proof {
                if rest.len() >= n@.len() {
                    assert(rest.take(n@.len() as int) =~= h@.subrange(at as int, at + n@.len()));
                } else {
                    assert(h@.skip(at + 1).len() < n@.len());
                    assert(rest =~= seq![rest[0]] + rest.skip(1));
                }
                assert(rest.skip(1) =~= h@.skip(at + 1));
            }
            at += 1;
        }
    }
    assert(h@.skip(h@.len() as int) =~= Seq::<char>::empty());
    out
}

/// The ASCII lower case of a character; all other characters stay.
pub open spec fn ascii_lower(c: char) -> char {
    if 'A' <= c <= 'Z' {
        (c as u32 + 32) as char
    } else {
        c
    }
}

/// Equality of texts up to the case of ASCII letters.
pub open spec fn equal_ignoring_ascii_case(a: Seq<char>, b: Seq<char>) -> bool {
    a.len() == b.len() && forall|i: int|
        0 <= i < a.len() ==> ascii_lower(#[trigger] a[i]) == ascii_lower(b[i])
}

fn lower(c: char) -> (r: char)
    ensures
        r == ascii_lower(c),
{
    if 'A' <= c && c <= 'Z' {
        (c as u8 + 32) as char
    } else {
        c
    }
}

/// Compares two texts up to the case of ASCII letters.
pub fn eq_ignore_ascii_case(a: &str, b: &str) -> (r: bool)
    ensures
        r == equal_ignoring_ascii_case(a@, b@),
{
    let x = chars_of(a);
    let y = chars_of(b);
    if x.len() != y.len() {
        return false;
    }
    let mut i: usize = 0;
    while i < x.len()
        invariant
            i <= x.len(),
            x.len() == y.len(),
            x@ == a@,
            y@ == b@,
            forall|k: int| 0 <= k < i ==> ascii_lower(#[trigger] x@[k]) == ascii_lower(y@[k]),
        decreases x.len() - i,
    {
        if lower(x[i]) != lower(y[i]) {
            assert(ascii_lower(a@[i as int]) != ascii_lower(b@[i as int]));
            return false;
        }
        i += 1;
    }
    true
}

/// A text without the run of `c` at its end.
pub open spec fn trimmed_end(s: Seq<char>, c: char) -> Seq<char>
    decreases s.len(),
{
    if s.len() > 0 && s.last() == c {
        trimmed_end(s.drop_last(), c)
    } else {
        s
    }
}

/// Drops the run of `c` at the end of a text.
pub fn trim_end(text: &str, c: char) -> (r: String)
    ensures
        r@ == trimmed_end(text@, c),
{
    let mut chars = chars_of(text);
    while chars.len() > 0 && chars[chars.len() - 1] == c
        invariant
            trimmed_end(chars@, c) == trimmed_end(text@, c),
        decreases chars.len(),
    {
        let ghost before = chars@;
        let _ = chars.pop();
        assert(chars@ =~= before.drop_last());
    }
    text_of(&chars)
}

/// Whether two texts are the same.
pub fn same_text(a: &str, b: &str) -> (r: bool)
    ensures
        r == (a@ == b@),
{
    let x = chars_of(a);
    let y = chars_of(b);
    if x.len() != y.len() {
        return false;
    }
    let mut i: usize = 0;
    while i < x.len()
        invariant
            i <= x.len(),
            x.len() == y.len(),
            x@ == a@,
            y@ == b@,
            forall|k: int| 0 <= k < i ==> x@[k] == y@[k],
        decreases x.len() - i,
    {
        if x[i] != y[i] {
            return false;
        }
        i += 1;
    }
    assert(x@ =~= y@);
    true
}

} // verus!
