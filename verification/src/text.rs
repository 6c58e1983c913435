//! Small, verified string building blocks: decimal rendering, substring
//! search and character-level copying.
use vstd::prelude::*;

verus! {

/// The ASCII digit for a value below ten.
pub open spec fn digit_char(d: nat) -> char {
    (48 + d) as char
}

/// Decimal rendering of a natural number, most significant digit first.
pub open spec fn decimal(n: nat) -> Seq<char>
    decreases n,
{
    if n < 10 {
        seq![digit_char(n)]
    } else {
        decimal(n / 10).push(digit_char(n % 10))
    }
}

/// Decimal rendering of an integer, with a leading `-` for negatives.
pub open spec fn signed_decimal(i: int) -> Seq<char> {
    if i < 0 {
        seq!['-'] + decimal((-i) as nat)
    } else {
        decimal(i as nat)
    }
}

/// Appends one character to a `String` (std's `String::push`).
#[verifier::external_body]
pub(crate) fn push_char(s: &mut String, c: char)
    ensures
        final(s)@ == old(s)@.push(c),
{
    s.push(c);
}

/// Renders `n` in decimal.
pub fn u64_to_decimal(n: u64) -> (s: String)
    ensures
        s@ == decimal(n as nat),
{
    let mut digits: Vec<char> = Vec::new();
    let mut m: u64 = n;
    // digits are collected least significant first
    loop
        invariant_except_break
            m <= n,
            decimal(n as nat) == decimal(m as nat) + digits@.reverse(),
        ensures
            decimal(n as nat) == digits@.reverse(),
        decreases m,
    {
        let d: u64 = m % 10;
        proof {
            assert(d < 10);
        }
        let c = ((48u64 + d) as u8) as char;
        assert(c == digit_char(d as nat));
        if m < 10 {
            let ghost old_digits = digits@;
            digits.push(c);
            proof {
                assert(decimal(m as nat) == seq![c]);
                assert(old_digits.push(c).reverse() =~= seq![c] + old_digits.reverse());
                assert(decimal(n as nat) =~= digits@.reverse());
            }
            break;
        }
        proof {
            assert(decimal(m as nat) == decimal((m / 10) as nat).push(c));
            let old_digits = digits@;
            assert(old_digits.push(c).reverse() =~= seq![c] + old_digits.reverse());
            assert(decimal(n as nat) =~= decimal((m / 10) as nat) + old_digits.push(c).reverse());
        }
        digits.push(c);
        m = m / 10;
    }
    let mut s = String::new();
    let mut i: usize = digits.len();
    while i > 0
        invariant
            i <= digits.len(),
            s@ == digits@.subrange(i as int, digits.len() as int).reverse(),
            decimal(n as nat) == digits@.reverse(),
        decreases i,
    {
        i = i - 1;
        proof {
            assert(digits@.subrange(i as int, digits.len() as int).reverse() =~= digits@.subrange(
                (i + 1) as int,
                digits.len() as int,
            ).reverse().push(digits@[i as int]));
        }
        push_char(&mut s, digits[i]);
    }
    assert(digits@.subrange(0, digits.len() as int) =~= digits@);
    s
}

} // verus!

verus! {

/// `c` occurs in `s`.
pub open spec fn has_char(s: Seq<char>, c: char) -> bool {
    exists|i: int| 0 <= i < s.len() && s[i] == c
}

/// `i` is the position of the first `c` in `s`.
pub open spec fn is_first_index(s: Seq<char>, c: char, i: int) -> bool {
    &&& 0 <= i < s.len()
    &&& s[i] == c
    &&& forall|j: int| 0 <= j < i ==> s[j] != c
}

/// The position of the first `c` in `s` (meaningful when `has_char(s, c)`).
pub open spec fn first_index(s: Seq<char>, c: char) -> int {
    choose|i: int| is_first_index(s, c, i)
}

/// `s` split around its first `c`, as `str::split_once` does.
pub open spec fn split_once(s: Seq<char>, c: char) -> Option<(Seq<char>, Seq<char>)> {
    if has_char(s, c) {
        let i = first_index(s, c);
        Some((s.subrange(0, i), s.subrange(i + 1, s.len() as int)))
    } else {
        None
    }
}

/// The first position of a character is unique.
pub proof fn lemma_first_index_unique(s: Seq<char>, c: char, i: int)
    requires
        is_first_index(s, c, i),
    ensures
        has_char(s, c),
        first_index(s, c) == i,
{
    let k = first_index(s, c);
    assert(is_first_index(s, c, k));
    if k < i {
        assert(s[k] != c);
    } else if i < k {
        assert(s[i] != c);
    }
}

proof fn lemma_first_at_or_before(s: Seq<char>, c: char, k: int)
    requires
        0 <= k < s.len(),
        s[k] == c,
    ensures
        exists|j: int| is_first_index(s, c, j),
    decreases k,
{
    if forall|j: int| 0 <= j < k ==> s[j] != c {
        assert(is_first_index(s, c, k));
    } else {
        let j = choose|j: int| 0 <= j < k && s[j] == c;
        lemma_first_at_or_before(s, c, j);
    }
}

/// A character that occurs has a first position.
pub proof fn lemma_first_index_exists(s: Seq<char>, c: char)
    requires
        has_char(s, c),
    ensures
        is_first_index(s, c, first_index(s, c)),
{
    let k = choose|k: int| 0 <= k < s.len() && s[k] == c;
    lemma_first_at_or_before(s, c, k);
}

/// Position of the first `c` in `s`, if any.
pub fn find_char(s: &str, c: char) -> (res: Option<usize>)
    ensures
        match res {
            Some(i) => is_first_index(s@, c, i as int) && first_index(s@, c) == i,
            None => !has_char(s@, c),
        },
{
    let n = s.unicode_len();
    let mut i: usize = 0;
    while i < n
        invariant
            n == s@.len(),
            i <= n,
            forall|j: int| 0 <= j < i ==> s@[j] != c,
        decreases n - i,
    {
        if s.get_char(i) == c {
            proof {
                lemma_first_index_unique(s@, c, i as int);
            }
            return Some(i);
        }
        i = i + 1;
    }
    None
}

/// `str::split_once` on a single character.
pub fn split_once_char<'a>(s: &'a str, c: char) -> (res: Option<(&'a str, &'a str)>)
    ensures
        match res {
            Some((a, b)) => split_once(s@, c) == Some((a@, b@)),
            None => split_once(s@, c) is None,
        },
{
    match find_char(s, c) {
        Some(i) => {
            let n = s.unicode_len();
            let a = s.substring_char(0, i);
            let b = s.substring_char(i + 1, n);
            Some((a, b))
        },
        None => None,
    }
}

/// `str::contains` on a single character.
pub fn contains_char(s: &str, c: char) -> (res: bool)
    ensures
        res == has_char(s@, c),
{
    find_char(s, c).is_some()
}

} // verus!

verus! {

/// What `str::to_lowercase` returns for a string: its lowercase form as
/// defined by Unicode's `Lowercase` derived property.
pub uninterp spec fn lowercase(s: Seq<char>) -> Seq<char>;

/// Every character is ASCII.
pub open spec fn is_ascii_text(s: Seq<char>) -> bool {
    forall|i: int| 0 <= i < s.len() ==> (#[trigger] s[i] as u32) < 128
}

/// The ASCII lowercase of a character: `A`..=`Z` become `a`..=`z`, every
/// other character stays.
pub open spec fn ascii_lower_char(c: char) -> char {
    if 'A' <= c && c <= 'Z' {
        ((c as u32) + 32) as char
    } else {
        c
    }
}

/// The ASCII lowercase of a text, character by character.
pub open spec fn ascii_lower(s: Seq<char>) -> Seq<char> {
    s.map_values(|c: char| ascii_lower_char(c))
}

/// std's `str::to_lowercase`. The result is named by `lowercase`; its
/// Unicode case mapping is not restated here, except for ASCII text, whose
/// lowercase maps `A`..=`Z` to `a`..=`z` and keeps every other character
/// (the Unicode lowercase mapping of the ASCII letters, and the identity on
/// the other ASCII characters, which have no lowercase mapping).
#[verifier::external_body]
pub(crate) fn to_lowercase(s: &str) -> (res: String)
    ensures
        res@ == lowercase(s@),
        is_ascii_text(s@) ==> res@ == ascii_lower(s@),
{
    s.to_lowercase()
}

/// String equality, character by character.
pub fn str_eq(a: &str, b: &str) -> (res: bool)
    ensures
        res == (a@ == b@),
{
    let n = a.unicode_len();
    if n != b.unicode_len() {
        return false;
    }
    let mut i: usize = 0;
    while i < n
        invariant
            n == a@.len(),
            n == b@.len(),
            i <= n,
            forall|j: int| 0 <= j < i ==> a@[j] == b@[j],
        decreases n - i,
    {
        if a.get_char(i) != b.get_char(i) {
            return false;
        }
        i = i + 1;
    }
    assert(a@ =~= b@);
    true
}

/// `needle` occurs in `hay` at position `i`.
pub open spec fn occurs_at(hay: Seq<char>, needle: Seq<char>, i: int) -> bool {
    0 <= i && i + needle.len() <= hay.len() && hay.subrange(i, i + needle.len()) == needle
}

/// `needle` occurs somewhere in `hay` (as `str::contains` on a string pattern).
pub open spec fn contains_seq(hay: Seq<char>, needle: Seq<char>) -> bool {
    exists|i: int| occurs_at(hay, needle, i)
}

/// Substring search (`str::contains` with a string pattern).
pub fn contains_str(hay: &str, needle: &str) -> (res: bool)
    ensures
        res == contains_seq(hay@, needle@),
{
    let n = hay.unicode_len();
    let m = needle.unicode_len();
    if m > n {
        proof {
            assert forall|i: int| !occurs_at(hay@, needle@, i) by {}
        }
        return false;
    }
    let mut i: usize = 0;
    while i <= n - m
        invariant
            n == hay@.len(),
            m == needle@.len(),
            m <= n,
            i <= n - m + 1,
            forall|k: int| 0 <= k < i ==> !occurs_at(hay@, needle@, k),
        decreases n - m + 1 - i,
    {
        let mut j: usize = 0;
        let mut matched = true;
        while j < m
            invariant
                n == hay@.len(),
                m == needle@.len(),
                i + m <= n,
                j <= m,
                matched == (forall|k: int| 0 <= k < j ==> hay@[i + k] == needle@[k]),
            decreases m - j,
        {
            if hay.get_char(i + j) != needle.get_char(j) {
                matched = false;
            }
            j = j + 1;
        }
        if matched {
            assert(hay@.subrange(i as int, i + m) =~= needle@);
            assert(occurs_at(hay@, needle@, i as int));
            return true;
        }
        proof {
            if occurs_at(hay@, needle@, i as int) {
                assert forall|k: int| 0 <= k < m implies hay@[i + k] == needle@[k] by {
                    assert(hay@.subrange(i as int, i + m)[k] == hay@[i + k]);
                }
            }
        }
        i = i + 1;
    }
    proof {
        assert forall|k: int| !occurs_at(hay@, needle@, k) by {
            if 0 <= k && k + m <= n {
                assert(k < i);
            }
        }
    }
    false
}

} // verus!

verus! {

/// `parts` joined with `sep` between neighbours.
pub open spec fn join(parts: Seq<Seq<char>>, sep: Seq<char>) -> Seq<char>
    decreases parts.len(),
{
    if parts.len() == 0 {
        Seq::empty()
    } else if parts.len() == 1 {
        parts[0]
    } else {
        join(parts.drop_last(), sep) + sep + parts.last()
    }
}

/// The views of a list of strings.
pub open spec fn views(v: Seq<String>) -> Seq<Seq<char>> {
    v.map_values(|s: String| s@)
}

/// Joins `parts` with `sep` (as `[String]::join`).
pub fn join_strings(parts: &Vec<String>, sep: &str) -> (res: String)
    ensures
        res@ == join(views(parts@), sep@),
{
    let mut res = String::new();
    let mut i: usize = 0;
    while i < parts.len()
        invariant
            i <= parts.len(),
            res@ == join(views(parts@).take(i as int), sep@),
        decreases parts.len() - i,
    {
        proof {
            let t = views(parts@).take(i + 1);
            assert(t.drop_last() =~= views(parts@).take(i as int));
        }
        if i != 0 {
            res.append(sep);
        }
        res.append(parts[i].as_str());
        proof {
            if i == 0 {
                assert(res@ =~= views(parts@).take(1)[0]);
            }
        }
        i = i + 1;
    }
    assert(views(parts@).take(parts.len() as int) =~= views(parts@));
    res
}

} // verus!

verus! {

/// Renders `n` in decimal.
pub fn usize_to_decimal(n: usize) -> (s: String)
    ensures
        s@ == decimal(n as nat),
{
    u64_to_decimal(n as u64)
}

/// Renders `i` in decimal, with a leading `-` for negatives.
pub fn i64_to_decimal(i: i64) -> (s: String)
    ensures
        s@ == signed_decimal(i as int),
{
    if i < 0 {
        let magnitude: u64 = if i == i64::MIN {
            9_223_372_036_854_775_808u64
        } else {
            (-i) as u64
        };
        let digits = u64_to_decimal(magnitude);
        let mut s = String::from_str("-");
        s.append(digits.as_str());
        proof {
            reveal_strlit("-");
            assert("-"@ =~= seq!['-']);
        }
        s
    } else {
        u64_to_decimal(i as u64)
    }
}

} // verus!

verus! {

/// Unicode `White_Space`, the set that `char::is_whitespace` tests.
pub open spec fn is_whitespace(c: char) -> bool {
    let u = c as u32;
    (0x9 <= u <= 0xD) || u == 0x20 || u == 0x85 || u == 0xA0 || u == 0x1680 || (0x2000 <= u
        <= 0x200A) || u == 0x2028 || u == 0x2029 || u == 0x202F || u == 0x205F || u == 0x3000
}

/// Whether `c` is Unicode whitespace.
pub fn char_is_whitespace(c: char) -> (res: bool)
    ensures
        res == is_whitespace(c),
{
    let u = c as u32;
    (0x9 <= u && u <= 0xD) || u == 0x20 || u == 0x85 || u == 0xA0 || u == 0x1680 || (0x2000 <= u
        && u <= 0x200A) || u == 0x2028 || u == 0x2029 || u == 0x202F || u == 0x205F || u == 0x3000
}

/// Scanning `s` left to right: the finished words and the word in progress.
pub open spec fn scan_words(s: Seq<char>) -> (Seq<Seq<char>>, Seq<char>)
    decreases s.len(),
{
    if s.len() == 0 {
        (Seq::empty(), Seq::empty())
    } else {
        let (done, cur) = scan_words(s.drop_last());
        let c = s.last();
        if is_whitespace(c) {
            if cur.len() > 0 {
                (done.push(cur), Seq::empty())
            } else {
                (done, Seq::empty())
            }
        } else {
            (done, cur.push(c))
        }
    }
}

/// The words of `s`: its maximal runs of non-whitespace characters, in
/// order (what `str::split_whitespace` yields).
pub open spec fn words(s: Seq<char>) -> Seq<Seq<char>> {
    let (done, cur) = scan_words(s);
    if cur.len() > 0 {
        done.push(cur)
    } else {
        done
    }
}

/// Splits `s` at whitespace into its non-empty words.
pub fn split_whitespace(s: &str) -> (res: Vec<String>)
    ensures
        views(res@) == words(s@),
{
    let n = s.unicode_len();
    let mut done: Vec<String> = Vec::new();
    let mut cur = String::new();
    let mut i: usize = 0;
    while i < n
        invariant
            n == s@.len(),
            i <= n,
            (views(done@), cur@) == scan_words(s@.take(i as int)),
        decreases n - i,
    {
        let c = s.get_char(i);
        proof {
            assert(s@.take(i + 1).drop_last() =~= s@.take(i as int));
            assert(s@.take(i + 1).last() == c);
        }
        if char_is_whitespace(c) {
            if cur.as_str().unicode_len() > 0 {
                let ghost prev = done@;
                done.push(cur);
                cur = String::new();
                proof {
                    assert(views(done@) =~= views(prev).push(done@.last()@));
                }
            }
        } else {
            push_char(&mut cur, c);
        }
        i = i + 1;
    }
    assert(s@.take(n as int) =~= s@);
    if cur.as_str().unicode_len() > 0 {
        let ghost prev = done@;
        done.push(cur);
        proof {
            assert(views(done@) =~= views(prev).push(done@.last()@));
        }
    }
    done
}

/// Every word is non-empty and holds no whitespace.
pub proof fn lemma_words_are_nonblank(s: Seq<char>)
    ensures
        forall|k: int| 0 <= k < words(s).len() ==> (#[trigger] words(s)[k]).len() > 0 && !exists|
            j: int,
        | 0 <= j < words(s)[k].len() && is_whitespace(words(s)[k][j]),
    decreases s.len(),
{
    lemma_scan_words_nonblank(s);
}

proof fn lemma_scan_words_nonblank(s: Seq<char>)
    ensures
        forall|k: int| 0 <= k < scan_words(s).0.len() ==> (#[trigger] scan_words(s).0[k]).len() > 0
            && !exists|j: int| 0 <= j < scan_words(s).0[k].len() && is_whitespace(scan_words(s).0[k][j]),
        forall|j: int| 0 <= j < scan_words(s).1.len() ==> !is_whitespace(#[trigger] scan_words(s).1[j]),
    decreases s.len(),
{
    if s.len() > 0 {
        lemma_scan_words_nonblank(s.drop_last());
        let (done, cur) = scan_words(s.drop_last());
        let c = s.last();
        if !is_whitespace(c) {
            assert forall|j: int| 0 <= j < cur.push(c).len() implies !is_whitespace(#[trigger] cur.push(c)[j]) by {
                if j < cur.len() {
                    assert(cur.push(c)[j] == cur[j]);
                }
            }
        }
    }
}

} // verus!

verus! {

/// ASCII lowercasing keeps text ASCII and changes nothing when done again.
pub proof fn law_ascii_lower_is_idempotent(s: Seq<char>)
    requires
        is_ascii_text(s),
    ensures
        is_ascii_text(ascii_lower(s)),
        ascii_lower(ascii_lower(s)) == ascii_lower(s),
{
    assert forall|i: int| 0 <= i < ascii_lower(s).len() implies (#[trigger] ascii_lower(s)[i] as u32)
        < 128 by {
        assert(ascii_lower(s)[i] == ascii_lower_char(s[i]));
    }
    assert(ascii_lower(ascii_lower(s)) =~= ascii_lower(s));
}

} // verus!

verus! {

/// The characters of `s` that are not whitespace, in order.
pub open spec fn non_space_chars(s: Seq<char>) -> Seq<char> {
    s.filter(|c: char| !is_whitespace(c))
}

proof fn lemma_non_space_chars_push(s: Seq<char>, c: char)
    ensures
        non_space_chars(s.push(c)) == if is_whitespace(c) {
            non_space_chars(s)
        } else {
            non_space_chars(s).push(c)
        },
{
    s.lemma_filter_push(c, |c: char| !is_whitespace(c));
}

proof fn lemma_scan_words_keep_chars(s: Seq<char>)
    ensures
        scan_words(s).0.flatten() + scan_words(s).1 == non_space_chars(s),
    decreases s.len(),
{
    if s.len() == 0 {
        assert(scan_words(s).0.flatten() + scan_words(s).1 =~= Seq::<char>::empty());
        assert(non_space_chars(s) =~= Seq::<char>::empty()) by {
            reveal_with_fuel(Seq::filter, 1);
        }
    } else {
        let t = s.drop_last();
        let c = s.last();
        lemma_scan_words_keep_chars(t);
        assert(s =~= t.push(c));
        lemma_non_space_chars_push(t, c);
        let (done, cur) = scan_words(t);
        if is_whitespace(c) {
            if cur.len() > 0 {
                done.lemma_flatten_push(cur);
                assert(done.push(cur).flatten() + Seq::<char>::empty() =~= done.flatten() + cur);
            } else {
                assert(done.flatten() + Seq::<char>::empty() =~= done.flatten() + cur);
            }
        } else {
            assert(done.flatten() + cur.push(c) =~= (done.flatten() + cur).push(c));
        }
    }
}

/// Splitting at whitespace loses no other character: the words of `s`,
/// put together, are `s` without its whitespace; so a text without
/// whitespace is its own single word, and every URL of a reply is kept.
pub proof fn law_words_keep_every_non_space_char(s: Seq<char>)
    ensures
        words(s).flatten() == non_space_chars(s),
        s.len() > 0 && (forall|i: int| 0 <= i < s.len() ==> !is_whitespace(#[trigger] s[i]))
            ==> words(s) == seq![s],
{
    lemma_scan_words_keep_chars(s);
    let (done, cur) = scan_words(s);
    if cur.len() > 0 {
        done.lemma_flatten_push(cur);
    } else {
        assert(done.flatten() + cur =~= done.flatten());
    }
    if s.len() > 0 && (forall|i: int| 0 <= i < s.len() ==> !is_whitespace(#[trigger] s[i])) {
        lemma_no_space_one_word(s);
    }
}

proof fn lemma_no_space_one_word(s: Seq<char>)
    requires
        forall|i: int| 0 <= i < s.len() ==> !is_whitespace(#[trigger] s[i]),
    ensures
        scan_words(s) == (Seq::<Seq<char>>::empty(), s),
        s.len() > 0 ==> words(s) == seq![s],
    decreases s.len(),
{
    if s.len() > 0 {
        let t = s.drop_last();
        assert forall|i: int| 0 <= i < t.len() implies !is_whitespace(#[trigger] t[i]) by {
            assert(t[i] == s[i]);
        }
        lemma_no_space_one_word(t);
        assert(!is_whitespace(s[s.len() - 1]));
        assert(t.push(s.last()) =~= s);
        assert(Seq::<Seq<char>>::empty().push(s) =~= seq![s]);
    }
}

} // verus!
