//! Character-sequence helpers shared by the configuration checks, the
//! package-manager command builders and the network naming rules.

use vstd::prelude::*;

verus! {

/// The text `item` wrapped in backquotes.
pub open spec fn backquoted(item: Seq<char>) -> Seq<char> {
    seq!['`'] + item + seq!['`']
}

/// The pieces of `items` laid end to end with `separator` between neighbours.
pub open spec fn joined(items: Seq<Seq<char>>, separator: Seq<char>) -> Seq<char>
    decreases items.len(),
{
    if items.len() == 0 {
        Seq::empty()
    } else if items.len() == 1 {
        items[0]
    } else {
        joined(items.drop_last(), separator) + separator + items.last()
    }
}

/// The views of a slice of string slices.
pub open spec fn views(items: Seq<&str>) -> Seq<Seq<char>> {
    items.map_values(|item: &str| item@)
}

/// A human-readable enumeration: every item in backquotes, the last one
/// introduced by " or ", the others separated by ", "; "(none)" when empty.
pub open spec fn quoted_list(items: Seq<Seq<char>>) -> Seq<char> {
    let quoted = items.map_values(|item: Seq<char>| backquoted(item));
    if items.len() == 0 {
        "(none)"@
    } else if items.len() == 1 {
        quoted[0]
    } else {
        joined(quoted.drop_last(), ", "@) + " or "@ + quoted.last()
    }
}

/// Appends one character to a string.
#[verifier::external_body]
pub(crate) fn push_char(text: &mut String, c: char)
    ensures
        final(text)@ == old(text)@.push(c),
{
    text.push(c);
}

fn append_backquoted(out: &mut String, item: &str)
    ensures
        final(out)@ == old(out)@ + backquoted(item@),
{
    push_char(out, '`');
    out.append(item);
    push_char(out, '`');
}

/// Renders `items` as a human-readable list (see `quoted_list`).
pub fn format_quoted(items: &[&str]) -> (rendered: String)
    ensures
        rendered@ == quoted_list(views(items@)),
{
    let n = items.len();
    let ghost quoted = views(items@).map_values(|item: Seq<char>| backquoted(item));
    if n == 0 {
        let mut empty = String::new();
        empty.append("(none)");
        return empty;
    }
    let mut out = String::new();
    let mut i: usize = 0;
    while i + 1 < n
        invariant
            n == items@.len(),
            n >= 1,
            i + 1 <= n,
            quoted == views(items@).map_values(|item: Seq<char>| backquoted(item)),
            out@ == joined(quoted.take(i as int), ", "@),
        decreases n - i,
    {
        if i > 0 {
            out.append(", ");
        }
        append_backquoted(&mut out, items[i]);
        proof {
            assert(quoted.take(i + 1).drop_last() =~= quoted.take(i as int));
            if i == 0 {
                assert(out@ =~= quoted.take(1)[0]);
            }
        }
        i = i + 1;
    }
    if n >= 2 {
        out.append(" or ");
    }
    append_backquoted(&mut out, items[n - 1]);
    proof {
        assert(quoted.take(n - 1) =~= quoted.drop_last());
    }
    out
}

/// Whether two string slices hold the same characters.
pub fn same_text(left: &str, right: &str) -> (same: bool)
    ensures
        same == (left@ == right@),
{
    let n = left.unicode_len();
    if n != right.unicode_len() {
        return false;
    }
    let mut i: usize = 0;
    while i < n
        invariant
            n == left@.len(),
            n == right@.len(),
            i <= n,
            forall|j: int| 0 <= j < i ==> left@[j] == right@[j],
        decreases n - i,
    {
        if left.get_char(i) != right.get_char(i) {
            return false;
        }
        i = i + 1;
    }
    assert(left@ =~= right@);
    true
}

/// `str::chars`, collected: the characters of a text, in order.
#[verifier::external_body]
pub(crate) fn char_vec(text: &str) -> (chars: Vec<char>)
    ensures
        chars@ == text@,
{
    text.chars().collect()
}

/// Copies a string slice into an owned string.
pub fn owned(text: &str) -> (copy: String)
    ensures
        copy@ == text@,
{
    let mut out = String::new();
    out.append(text);
    out
}

/// Whether every character is in the ASCII range.
pub open spec fn all_ascii(text: Seq<char>) -> bool {
    forall|i: int| 0 <= i < text.len() ==> (text[i] as u32) < 128
}

/// ASCII upper-case letters mapped to lower case, everything else unchanged.
pub open spec fn ascii_lower_char(c: char) -> char {
    if 'A' <= c && c <= 'Z' {
        ((c as u32) + 32) as char
    } else {
        c
    }
}

/// `ascii_lower_char` applied to every character.
pub open spec fn ascii_lowercase(text: Seq<char>) -> Seq<char> {
    text.map_values(|c: char| ascii_lower_char(c))
}

/// ASCII lower-case letters mapped to upper case, everything else unchanged.
pub open spec fn ascii_upper_char(c: char) -> char {
    if 'a' <= c && c <= 'z' {
        ((c as u32) - 32) as char
    } else {
        c
    }
}

/// `ascii_upper_char` applied to every character.
pub open spec fn ascii_uppercase(text: Seq<char>) -> Seq<char> {
    text.map_values(|c: char| ascii_upper_char(c))
}

/// What `str::to_lowercase` returns for a text: the Unicode lower-case mapping.
pub uninterp spec fn unicode_lowercase(text: Seq<char>) -> Seq<char>;

/// `str::to_lowercase`. Its documentation defines the result by the Unicode
/// `Lowercase` property of each character, independent of locale; that mapping
/// is named `unicode_lowercase` here. On ASCII text it coincides with
/// `to_ascii_lowercase`, which the contract states; the non-ASCII part of the
/// mapping is left unsaid.
#[verifier::external_body]
pub(crate) fn to_lowercase(text: &str) -> (lowered: String)
    ensures
        lowered@ == unicode_lowercase(text@),
        all_ascii(text@) ==> lowered@ == ascii_lowercase(text@),
{
    text.to_lowercase()
}

/// Membership in the Unicode `White_Space` property (PropList.txt): U+0009
/// to U+000D, U+0020, U+0085, U+00A0, U+1680, U+2000 to U+200A, U+2028,
/// U+2029, U+202F, U+205F and U+3000.
pub open spec fn white_space(c: char) -> bool {
    let v = c as u32;
    ||| 0x09 <= v <= 0x0D
    ||| v == 0x20
    ||| v == 0x85
    ||| v == 0xA0
    ||| v == 0x1680
    ||| 0x2000 <= v <= 0x200A
    ||| v == 0x2028
    ||| v == 0x2029
    ||| v == 0x202F
    ||| v == 0x205F
    ||| v == 0x3000
}

/// Whether the character has the Unicode `White_Space` property, as
/// `char::is_whitespace` answers: the set that `white_space` lists.
pub(crate) fn is_whitespace(c: char) -> (answer: bool)
    ensures
        answer == white_space(c),
{
    let v = c as u32;
    (0x09 <= v && v <= 0x0D) || v == 0x20 || v == 0x85 || v == 0xA0 || v == 0x1680 || (0x2000 <= v
        && v <= 0x200A) || v == 0x2028 || v == 0x2029 || v == 0x202F || v == 0x205F || v == 0x3000
}

/// `text` without its leading white space.
pub open spec fn trim_start(text: Seq<char>) -> Seq<char>
    decreases text.len(),
{
    if text.len() > 0 && white_space(text[0]) {
        trim_start(text.drop_first())
    } else {
        text
    }
}

/// `text` without its trailing white space.
pub open spec fn trim_end(text: Seq<char>) -> Seq<char>
    decreases text.len(),
{
    if text.len() > 0 && white_space(text.last()) {
        trim_end(text.drop_last())
    } else {
        text
    }
}

/// `text` without leading and trailing white space, as `str::trim` gives it.
pub open spec fn trimmed(text: Seq<char>) -> Seq<char> {
    trim_end(trim_start(text))
}

/// Whether `text` holds nothing but white space.
pub open spec fn blank(text: Seq<char>) -> bool {
    forall|i: int| 0 <= i < text.len() ==> white_space(#[trigger] text[i])
}

proof fn lemma_trim_start_at(text: Seq<char>, i: int)
    requires
        0 <= i <= text.len(),
        forall|j: int| 0 <= j < i ==> white_space(#[trigger] text[j]),
        i == text.len() || !white_space(text[i]),
    ensures
        trim_start(text) == text.subrange(i, text.len() as int),
    decreases i,
{
    if i > 0 {
        assert(white_space(text[0]));
        let rest = text.drop_first();
        assert forall|j: int| 0 <= j < i - 1 implies white_space(#[trigger] rest[j]) by {
            assert(rest[j] == text[j + 1]);
        }
        lemma_trim_start_at(rest, i - 1);
        assert(rest.subrange(i - 1, rest.len() as int) =~= text.subrange(i, text.len() as int));
    } else {
        assert(text.subrange(0, text.len() as int) =~= text);
    }
}

proof fn lemma_trim_end_at(text: Seq<char>, k: int)
    requires
        0 <= k <= text.len(),
        forall|j: int| k <= j < text.len() ==> white_space(#[trigger] text[j]),
        k == 0 || !white_space(text[k - 1]),
    ensures
        trim_end(text) == text.subrange(0, k),
    decreases text.len() - k,
{
    if k < text.len() {
        assert(white_space(text.last()));
        let rest = text.drop_last();
        assert forall|j: int| k <= j < rest.len() implies white_space(#[trigger] rest[j]) by {
            assert(rest[j] == text[j]);
        }
        lemma_trim_end_at(rest, k);
        assert(rest.subrange(0, k) =~= text.subrange(0, k));
    } else {
        assert(text.subrange(0, k) =~= text);
    }
}

/// An all-white-space text trims to nothing, and any other text trims to
/// something.
pub proof fn lemma_blank_iff_trims_empty(text: Seq<char>)
    ensures
        blank(text) <==> trimmed(text).len() == 0,
{
    let n = text.len() as int;
    if blank(text) {
        lemma_trim_start_at(text, n);
        assert(trim_start(text) =~= Seq::<char>::empty());
    } else {
        let i = choose|i: int| 0 <= i < n && !white_space(#[trigger] text[i]);
        lemma_first_non_white(text, 0);
        let first = first_non_white(text, 0);
        lemma_trim_start_at(text, first);
        let rest = text.subrange(first, n);
        assert(rest.len() > 0);
        assert(!white_space(rest[0]));
        lemma_last_non_white(rest, rest.len() as int);
        let last = last_non_white(rest, rest.len() as int);
        if last == 0 {
            assert(white_space(rest[0]));
        }
        lemma_trim_end_at(rest, last);
    }
}

spec fn first_non_white(text: Seq<char>, from: int) -> int
    decreases text.len() - from,
{
    if from >= text.len() {
        text.len() as int
    } else if !white_space(text[from]) {
        from
    } else {
        first_non_white(text, from + 1)
    }
}

proof fn lemma_first_non_white(text: Seq<char>, from: int)
    requires
        0 <= from <= text.len(),
        forall|j: int| 0 <= j < from ==> white_space(#[trigger] text[j]),
    ensures
        from <= first_non_white(text, from) <= text.len(),
        forall|j: int| 0 <= j < first_non_white(text, from) ==> white_space(#[trigger] text[j]),
        first_non_white(text, from) == text.len() || !white_space(text[first_non_white(text, from)]),
    decreases text.len() - from,
{
    if from < text.len() && white_space(text[from]) {
        lemma_first_non_white(text, from + 1);
    }
}

spec fn last_non_white(text: Seq<char>, upto: int) -> int
    decreases upto,
{
    if upto <= 0 {
        0
    } else if !white_space(text[upto - 1]) {
        upto
    } else {
        last_non_white(text, upto - 1)
    }
}

proof fn lemma_last_non_white(text: Seq<char>, upto: int)
    requires
        0 <= upto <= text.len(),
        forall|j: int| upto <= j < text.len() ==> white_space(#[trigger] text[j]),
    ensures
        0 <= last_non_white(text, upto) <= upto,
        forall|j: int| last_non_white(text, upto) <= j < text.len() ==> white_space(#[trigger] text[j]),
        last_non_white(text, upto) == 0 || !white_space(text[last_non_white(text, upto) - 1]),
    decreases upto,
{
    if upto > 0 && white_space(text[upto - 1]) {
        lemma_last_non_white(text, upto - 1);
    }
}

/// `str::trim`: the text without leading and trailing white space.
pub fn trim(text: &str) -> (result: String)
    ensures
        result@ == trimmed(text@),
{
    let n = text.unicode_len();
    let mut start: usize = 0;
    while start < n && is_whitespace(text.get_char(start))
        invariant
            n == text@.len(),
            start <= n,
            forall|j: int| 0 <= j < start ==> white_space(#[trigger] text@[j]),
        decreases n - start,
    {
        start = start + 1;
    }
    let mut end: usize = n;
    while end > start && is_whitespace(text.get_char(end - 1))
        invariant
            n == text@.len(),
            start <= end <= n,
            forall|j: int| end <= j < n ==> white_space(#[trigger] text@[j]),
            start == n || !white_space(text@[start as int]),
        decreases end,
    {
        end = end - 1;
    }
    proof {
        lemma_trim_start_at(text@, start as int);
        let rest = text@.subrange(start as int, n as int);
        assert forall|j: int| end - start <= j < rest.len() implies white_space(#[trigger] rest[j]) by {
            assert(rest[j] == text@[j + start]);
        }
        if end > start {
            assert(rest[end - start - 1] == text@[end - 1]);
        }
        lemma_trim_end_at(rest, end - start);
        assert(rest.subrange(0, end - start) =~= text@.subrange(start as int, end as int));
    }
    owned(text.substring_char(start, end))
}

/// Whether `text` holds nothing but white space, i.e. trims to nothing.
pub fn is_blank(text: &str) -> (answer: bool)
    ensures
        answer == blank(text@),
        answer == (trimmed(text@).len() == 0),
{
    proof {
        lemma_blank_iff_trims_empty(text@);
    }
    let n = text.unicode_len();
    let mut i: usize = 0;
    while i < n
        invariant
            n == text@.len(),
            i <= n,
            forall|j: int| 0 <= j < i ==> white_space(#[trigger] text@[j]),
        decreases n - i,
    {
        if !is_whitespace(text.get_char(i)) {
            assert(!blank(text@));
            proof {
                lemma_blank_iff_trims_empty(text@);
            }
            return false;
        }
        i = i + 1;
    }
    true
}

/// The character of a decimal digit.
pub open spec fn digit(d: nat) -> char {
    ((48 + d) as u32) as char
}

/// The decimal numeral of `n`, without sign or leading zeros.
pub open spec fn decimal(n: nat) -> Seq<char>
    decreases n,
{
    if n < 10 {
        seq![digit(n)]
    } else {
        decimal(n / 10).push(digit(n % 10))
    }
}

fn digit_char(d: u64) -> (c: char)
    requires
        d < 10,
    ensures
        c == digit(d as nat),
{
    match d {
        0 => '0',
        1 => '1',
        2 => '2',
        3 => '3',
        4 => '4',
        5 => '5',
        6 => '6',
        7 => '7',
        8 => '8',
        _ => '9',
    }
}

/// Appends the decimal numeral of a 128-bit `n`.
pub fn push_decimal_wide(out: &mut String, n: u128)
    ensures
        final(out)@ == old(out)@ + decimal(n as nat),
    decreases n,
{
    if n >= 10 {
        push_decimal_wide(out, n / 10);
    }
    push_char(out, digit_char((n % 10) as u64));
    proof {
        if n >= 10 {
            assert(decimal(n as nat) == decimal((n / 10) as nat).push(digit((n % 10) as nat)));
        }
    }
}

/// Appends the decimal numeral of `n`.
pub fn push_decimal(out: &mut String, n: u64)
    ensures
        final(out)@ == old(out)@ + decimal(n as nat),
    decreases n,
{
    if n >= 10 {
        push_decimal(out, n / 10);
    }
    push_char(out, digit_char(n % 10));
    proof {
        if n >= 10 {
            assert(decimal(n as nat) == decimal((n / 10) as nat).push(digit((n % 10) as nat)));
        }
    }
}

/// The decimal numeral of `n`, as `u64`'s `Display` writes it.
pub fn decimal_string(n: u64) -> (numeral: String)
    ensures
        numeral@ == decimal(n as nat),
{
    let mut out = String::new();
    push_decimal(&mut out, n);
    assert(out@ =~= decimal(n as nat));
    out
}

/// Whether `text` begins with the character `c`.
pub fn starts_with_char(text: &str, c: char) -> (answer: bool)
    ensures
        answer == (text@.len() > 0 && text@[0] == c),
{
    text.unicode_len() > 0 && text.get_char(0) == c
}


/// A line with the carriage return that ended it, if any, removed.
pub open spec fn strip_carriage_return(line: Seq<char>) -> Seq<char> {
    if line.len() > 0 && line.last() == '\r' {
        line.drop_last()
    } else {
        line
    }
}

/// The lines that `text` has completed, each ended by a line feed (and its
/// carriage return dropped), and the unfinished line after the last feed.
pub open spec fn line_state(text: Seq<char>) -> (Seq<Seq<char>>, Seq<char>)
    decreases text.len(),
{
    if text.len() == 0 {
        (Seq::empty(), Seq::empty())
    } else {
        let (done, current) = line_state(text.drop_last());
        if text.last() == '\n' {
            (done.push(strip_carriage_return(current)), Seq::empty())
        } else {
            (done, current.push(text.last()))
        }
    }
}

/// The lines of `text` as `str::lines` gives them: split at each line feed,
/// a carriage return before the feed dropped, and a last line only where
/// characters follow the last feed.
pub open spec fn lines_of(text: Seq<char>) -> Seq<Seq<char>> {
    let (done, current) = line_state(text);
    if current.len() == 0 {
        done
    } else {
        done.push(current)
    }
}

/// The lines of `text` (see `lines_of`).
pub fn lines(text: &str) -> (result: Vec<String>)
    ensures
        crate::sequences::texts(result@) == lines_of(text@),
{
    let n = text.unicode_len();
    let mut done: Vec<String> = Vec::new();
    let mut current = String::new();
    let mut i: usize = 0;
    while i < n
        invariant
            n == text@.len(),
            i <= n,
            (crate::sequences::texts(done@), current@) == line_state(text@.take(i as int)),
        decreases n - i,
    {
        let c = text.get_char(i);
        proof {
            assert(text@.take(i + 1).drop_last() =~= text@.take(i as int));
        }
        if c == '\n' {
            let ghost before = current@;
            let line = strip_line(&current);
            done.push(line);
            current = String::new();
            proof {
                assert(crate::sequences::texts(done@) =~= line_state(text@.take(i as int)).0.push(
                    strip_carriage_return(before),
                ));
            }
        } else {
            push_char(&mut current, c);
        }
        i = i + 1;
    }
    proof {
        assert(text@.take(n as int) =~= text@);
    }
    if current.unicode_len() > 0 {
        let ghost before = crate::sequences::texts(done@);
        done.push(current);
        proof {
            assert(crate::sequences::texts(done@) =~= before.push(lines_of(text@).last()));
        }
    }
    done
}

fn strip_line(line: &String) -> (stripped: String)
    ensures
        stripped@ == strip_carriage_return(line@),
{
    let n = line.unicode_len();
    let keep = if n > 0 && line.as_str().get_char(n - 1) == '\r' {
        n - 1
    } else {
        n
    };
    let mut out = String::new();
    let mut i: usize = 0;
    while i < keep
        invariant
            n == line@.len(),
            keep <= n,
            i <= keep,
            out@ == line@.take(i as int),
        decreases keep - i,
    {
        push_char(&mut out, line.as_str().get_char(i));
        proof {
            assert(line@.take(i + 1) =~= line@.take(i as int).push(line@[i as int]));
        }
        i = i + 1;
    }
    proof {
        assert(line@.take(n as int) =~= line@);
        assert(line@.take(n - 1) =~= line@.drop_last());
    }
    out
}

} // verus!
