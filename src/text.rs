use vstd::prelude::*;

verus! {

/// What compiling `pattern` with the regex crate and testing `text` against it
/// gives: `None` when the pattern does not compile.
pub uninterp spec fn regex_outcome(pattern: Seq<char>, text: Seq<char>) -> Option<bool>;

/// The `Uppercase` property of a char, as std reports it.
pub uninterp spec fn uppercase_char(c: char) -> bool;

/// The `Lowercase` property of a char, as std reports it.
pub uninterp spec fn lowercase_char(c: char) -> bool;

/// Whether std counts the char as numeric.
pub uninterp spec fn numeric_char(c: char) -> bool;

/// Whether std counts the char as alphabetic or numeric.
pub uninterp spec fn alphanumeric_char(c: char) -> bool;

/// The `White_Space` property of a char, which std's `char::is_whitespace`
/// reports: tab to carriage return, space, next line, no-break space, ogham
/// space mark, the spaces from en quad to hair space, line and paragraph
/// separators, narrow no-break space, medium mathematical space and
/// ideographic space.
pub open spec fn whitespace_char(c: char) -> bool {
    ('\u{9}' <= c && c <= '\u{d}') || c == ' ' || c == '\u{85}' || c == '\u{a0}' || c
        == '\u{1680}' || ('\u{2000}' <= c && c <= '\u{200a}') || c == '\u{2028}' || c
        == '\u{2029}' || c == '\u{202f}' || c == '\u{205f}' || c == '\u{3000}'
}

/// The words of a text: its maximal runs of non-whitespace chars, in order.
/// A non-whitespace char followed by another one starts the word that
/// follows; else it is a word of its own.
pub open spec fn whitespace_words(s: Seq<char>) -> Seq<Seq<char>>
    decreases s.len(),
{
    if s.len() == 0 {
        Seq::empty()
    } else {
        let rest = whitespace_words(s.drop_first());
        if whitespace_char(s[0]) {
            rest
        } else if s.len() > 1 && !whitespace_char(s[1]) && rest.len() > 0 {
            rest.update(0, seq![s[0]] + rest[0])
        } else {
            seq![seq![s[0]]] + rest
        }
    }
}

/// A text that is not all whitespace has a word.
pub proof fn lemma_words_of_non_blank(s: Seq<char>)
    requires
        !all_whitespace(s),
    ensures
        whitespace_words(s).len() > 0,
    decreases s.len(),
{
    if whitespace_char(s[0]) {
        let t = s.drop_first();
        assert(!all_whitespace(t)) by {
            let i = choose|i: int| 0 <= i < s.len() && !whitespace_char(#[trigger] s[i]);
            assert(t[i - 1] == s[i]);
        }
        lemma_words_of_non_blank(t);
    }
}

/// Relies on `regex::Regex::new` and `regex::Regex::is_match`: compiles the
/// pattern, and where it compiles, tests the text against it.
#[verifier::external_body]
pub(crate) fn regex_matches(pattern: &str, text: &str) -> (r: Option<bool>)
    ensures
        r == regex_outcome(pattern@, text@),
{
    regex::Regex::new(pattern).ok().map(|re| re.is_match(text))
}

/// Relies on `char::is_uppercase`.
#[verifier::external_body]
pub(crate) fn is_uppercase(c: char) -> (r: bool)
    ensures
        r == uppercase_char(c),
{
    c.is_uppercase()
}

/// Relies on `char::is_lowercase`.
#[verifier::external_body]
pub(crate) fn is_lowercase(c: char) -> (r: bool)
    ensures
        r == lowercase_char(c),
{
    c.is_lowercase()
}

/// Relies on `char::is_numeric`.
#[verifier::external_body]
pub(crate) fn is_numeric(c: char) -> (r: bool)
    ensures
        r == numeric_char(c),
{
    c.is_numeric()
}

/// Relies on `char::is_alphanumeric`.
#[verifier::external_body]
pub(crate) fn is_alphanumeric(c: char) -> (r: bool)
    ensures
        r == alphanumeric_char(c),
{
    c.is_alphanumeric()
}

/// Whether the char has the `White_Space` property.
pub fn is_whitespace(c: char) -> (r: bool)
    ensures
        r == whitespace_char(c),
{
    ('\u{9}' <= c && c <= '\u{d}') || c == ' ' || c == '\u{85}' || c == '\u{a0}' || c
        == '\u{1680}' || ('\u{2000}' <= c && c <= '\u{200a}') || c == '\u{2028}' || c
        == '\u{2029}' || c == '\u{202f}' || c == '\u{205f}' || c == '\u{3000}'
}

/// Relies on `str::split_whitespace`: the words of the text, in order.
#[verifier::external_body]
pub(crate) fn split_words(s: &str) -> (r: Vec<String>)
    ensures
        r@.len() == whitespace_words(s@).len(),
        forall|i: int| 0 <= i < r@.len() ==> #[trigger] r@[i]@ == whitespace_words(s@)[i],
{
    s.split_whitespace().map(|w| w.to_string()).collect()
}

/// Whether some char of `s` is uppercase.
pub open spec fn some_uppercase(s: Seq<char>) -> bool {
    exists|i: int| 0 <= i < s.len() && uppercase_char(#[trigger] s[i])
}

/// Whether some char of `s` is lowercase.
pub open spec fn some_lowercase(s: Seq<char>) -> bool {
    exists|i: int| 0 <= i < s.len() && lowercase_char(#[trigger] s[i])
}

/// Whether some char of `s` is numeric.
pub open spec fn some_numeric(s: Seq<char>) -> bool {
    exists|i: int| 0 <= i < s.len() && numeric_char(#[trigger] s[i])
}

/// Whether some char of `s` is neither alphabetic nor numeric.
pub open spec fn some_symbol(s: Seq<char>) -> bool {
    exists|i: int| 0 <= i < s.len() && !alphanumeric_char(#[trigger] s[i])
}

/// Whether every char of `s` is whitespace.
pub open spec fn all_whitespace(s: Seq<char>) -> bool {
    forall|i: int| 0 <= i < s.len() ==> whitespace_char(#[trigger] s[i])
}

/// Whether the text is empty or holds only whitespace.
pub fn is_blank(s: &str) -> (r: bool)
    ensures
        r == all_whitespace(s@),
{
    let n = s.unicode_len();
    let mut i: usize = 0;
    while i < n
        invariant
            n == s@.len(),
            i <= n,
            forall|j: int| 0 <= j < i ==> whitespace_char(#[trigger] s@[j]),
        decreases n - i,
    {
        if !is_whitespace(s.get_char(i)) {
            return false;
        }
        i = i + 1;
    }
    true
}

/// Whether some char of the text is uppercase.
pub fn has_uppercase(s: &str) -> (r: bool)
    ensures
        r == some_uppercase(s@),
{
    let n = s.unicode_len();
    let mut i: usize = 0;
    while i < n
        invariant
            n == s@.len(),
            i <= n,
            forall|j: int| 0 <= j < i ==> !uppercase_char(#[trigger] s@[j]),
        decreases n - i,
    {
        if is_uppercase(s.get_char(i)) {
            assert(uppercase_char(s@[i as int]));
            return true;
        }
        i = i + 1;
    }
    false
}

/// Whether some char of the text is lowercase.
pub fn has_lowercase(s: &str) -> (r: bool)
    ensures
        r == some_lowercase(s@),
{
    let n = s.unicode_len();
    let mut i: usize = 0;
    while i < n
        invariant
            n == s@.len(),
            i <= n,
            forall|j: int| 0 <= j < i ==> !lowercase_char(#[trigger] s@[j]),
        decreases n - i,
    {
        if is_lowercase(s.get_char(i)) {
            assert(lowercase_char(s@[i as int]));
            return true;
        }
        i = i + 1;
    }
    false
}

/// Whether some char of the text is numeric.
pub fn has_numeric(s: &str) -> (r: bool)
    ensures
        r == some_numeric(s@),
{
    let n = s.unicode_len();
    let mut i: usize = 0;
    while i < n
        invariant
            n == s@.len(),
            i <= n,
            forall|j: int| 0 <= j < i ==> !numeric_char(#[trigger] s@[j]),
        decreases n - i,
    {
        if is_numeric(s.get_char(i)) {
            assert(numeric_char(s@[i as int]));
            return true;
        }
        i = i + 1;
    }
    false
}

/// Whether some char of the text is neither alphabetic nor numeric.
pub fn has_symbol(s: &str) -> (r: bool)
    ensures
        r == some_symbol(s@),
{
    let n = s.unicode_len();
    let mut i: usize = 0;
    while i < n
        invariant
            n == s@.len(),
            i <= n,
            forall|j: int| 0 <= j < i ==> alphanumeric_char(#[trigger] s@[j]),
        decreases n - i,
    {
        if !is_alphanumeric(s.get_char(i)) {
            assert(!alphanumeric_char(s@[i as int]));
            return true;
        }
        i = i + 1;
    }
    false
}

/// Whether `p` is the part of `s` before its first `@`, or all of `s` where
/// it holds none.
pub open spec fn is_local_part(s: Seq<char>, p: Seq<char>) -> bool {
    &&& p.len() <= s.len()
    &&& p == s.take(p.len() as int)
    &&& forall|i: int| 0 <= i < p.len() ==> p[i] != '@'
    &&& p.len() < s.len() ==> s[p.len() as int] == '@'
}

/// The part of an email address before its first `@`.
pub fn local_part(s: &str) -> (r: String)
    ensures
        is_local_part(s@, r@),
{
    let n = s.unicode_len();
    let mut i: usize = 0;
    while i < n && s.get_char(i) != '@'
        invariant
            n == s@.len(),
            i <= n,
            forall|j: int| 0 <= j < i ==> s@[j] != '@',
        decreases n - i,
    {
        i = i + 1;
    }
    let r = String::from_str(s.substring_char(0, i));
    proof {
        assert(r@ =~= s@.take(i as int));
    }
    r
}

} // verus!

verus! {

/// A copy of an optional text.
pub fn clone_opt(o: &Option<String>) -> (r: Option<String>)
    ensures
        r == *o,
{
    match o {
        Some(s) => Some(s.clone()),
        None => None,
    }
}

/// Whether `c` occurs in `s`.
pub open spec fn has_char(s: Seq<char>, c: char) -> bool {
    exists|i: int| 0 <= i < s.len() && s[i] == c
}

/// Whether the text holds the char `c`.
pub fn contains_char(s: &str, c: char) -> (r: bool)
    ensures
        r == has_char(s@, c),
{
    let n = s.unicode_len();
    let mut i: usize = 0;
    while i < n
        invariant
            n == s@.len(),
            i <= n,
            forall|j: int| 0 <= j < i ==> s@[j] != c,
        decreases n - i,
    {
        if s.get_char(i) == c {
            return true;
        }
        i = i + 1;
    }
    false
}

/// The words joined by single spaces.
pub open spec fn join_words(ws: Seq<Seq<char>>) -> Seq<char>
    decreases ws.len(),
{
    if ws.len() == 0 {
        Seq::empty()
    } else if ws.len() == 1 {
        ws[0]
    } else {
        join_words(ws.drop_last()) + seq![' '] + ws.last()
    }
}

/// The char sequences of a list of strings.
pub open spec fn texts_of(v: Seq<String>) -> Seq<Seq<char>> {
    Seq::new(v.len(), |i: int| v[i]@)
}

/// Joins `words[from..]` with single spaces.
pub fn join_from(words: &Vec<String>, from: usize) -> (r: String)
    requires
        from <= words@.len(),
    ensures
        r@ == join_words(texts_of(words@.subrange(from as int, words@.len() as int))),
{
    let n = words.len();
    if from == n {
        let r = String::new();
        proof {
            assert(texts_of(words@.subrange(from as int, n as int)) =~= Seq::<Seq<char>>::empty());
        }
        return r;
    }
    let mut r = words[from].clone();
    let mut i: usize = from + 1;
    proof {
        let ws = texts_of(words@.subrange(from as int, i as int));
        assert(ws.len() == 1);
        assert(ws[0] == words@[from as int]@);
    }
    while i < n
        invariant
            from < i <= n,
            n == words@.len(),
            r@ == join_words(texts_of(words@.subrange(from as int, i as int))),
        decreases n - i,
    {
        let ghost before = texts_of(words@.subrange(from as int, i as int));
        let ghost r0 = r@;
        r.append(" ");
        r.append(words[i].as_str());
        proof {
            reveal_strlit(" ");
            let after = texts_of(words@.subrange(from as int, i + 1));
            assert(after.len() == i + 1 - from);
            assert(after.drop_last() =~= before);
            assert(after.last() == words@[i as int]@);
            assert(" "@ =~= seq![' ']);
            assert(r@ =~= r0 + seq![' '] + words@[i as int]@);
        }
        i = i + 1;
    }
    r
}

} // verus!

verus! {

/// The digits of a non-negative number, most significant first.
pub open spec fn digits_of(n: nat) -> Seq<char>
    decreases n,
{
    if n < 10 {
        "0123456789"@.subrange(n as int, n + 1int)
    } else {
        digits_of(n / 10) + "0123456789"@.subrange((n % 10) as int, (n % 10) as int + 1)
    }
}

/// The decimal form of an integer, with a leading `-` when negative.
pub open spec fn decimal(n: int) -> Seq<char> {
    if n < 0 {
        seq!['-'] + digits_of((-n) as nat)
    } else {
        digits_of(n as nat)
    }
}

fn digits(n: u64) -> (r: String)
    ensures
        r@ == digits_of(n as nat),
    decreases n,
{
    let table = "0123456789";
    proof {
        reveal_strlit("0123456789");
    }
    if n < 10 {
        let d = n as usize;
        String::from_str(table.substring_char(d, d + 1))
    } else {
        let mut r = digits(n / 10);
        let d = (n % 10) as usize;
        r.append(table.substring_char(d, d + 1));
        r
    }
}

/// The decimal form of `n`.
pub fn decimal_string(n: i64) -> (r: String)
    ensures
        r@ == decimal(n as int),
{
    if n < 0 {
        let magnitude: u64 = if n == i64::MIN {
            9223372036854775808u64
        } else {
            (-n) as u64
        };
        let mut r = String::from_str("-");
        proof {
            reveal_strlit("-");
        }
        r.append(digits(magnitude).as_str());
        proof {
            assert(r@ =~= seq!['-'] + digits_of((-n) as nat));
        }
        r
    } else {
        digits(n as u64)
    }
}

} // verus!
