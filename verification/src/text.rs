//! Operations on text that the rest of the crate shares.
use vstd::prelude::*;

verus! {

/// Whether `c` is white space in the sense of Unicode's `White_Space`
/// property, as `char::is_whitespace` decides it.
pub uninterp spec fn is_whitespace(c: char) -> bool;

/// Calls `char::is_whitespace`. The contract gives the answer its name.
#[verifier::external_body]
fn char_is_whitespace(c: char) -> (white: bool)
    ensures
        white == is_whitespace(c),
{
    c.is_whitespace()
}

/// `s` in lower case, as `str::to_lowercase` maps it.
pub uninterp spec fn lowercase(s: Seq<char>) -> Seq<char>;

/// Calls `str::to_lowercase`. The contract gives the result its name.
#[verifier::external_body]
pub(crate) fn to_lowercase(s: &str) -> (lower: String)
    ensures
        lower@ == lowercase(s@),
{
    s.to_lowercase()
}

/// Number of leading white-space characters of `s`.
pub open spec fn leading_whitespace(s: Seq<char>) -> nat
    decreases s.len(),
{
    if s.len() > 0 && is_whitespace(s.first()) {
        1 + leading_whitespace(s.drop_first())
    } else {
        0
    }
}

/// Number of trailing white-space characters of `s`.
pub open spec fn trailing_whitespace(s: Seq<char>) -> nat
    decreases s.len(),
{
    if s.len() > 0 && is_whitespace(s.last()) {
        1 + trailing_whitespace(s.drop_last())
    } else {
        0
    }
}

/// `s` without its leading and trailing white space.
pub open spec fn trimmed(s: Seq<char>) -> Seq<char> {
    let start = leading_whitespace(s);
    if start == s.len() {
        Seq::empty()
    } else {
        s.subrange(start as int, s.len() - trailing_whitespace(s))
    }
}

/// Whether `s` consists of white space only.
pub open spec fn is_blank(s: Seq<char>) -> bool {
    forall|i: int| 0 <= i < s.len() ==> is_whitespace(#[trigger] s[i])
}

/// The leading white space ends at the first character that is none.
pub proof fn lemma_leading_whitespace(s: Seq<char>, k: int)
    requires
        0 <= k <= s.len(),
        forall|i: int| 0 <= i < k ==> is_whitespace(#[trigger] s[i]),
        k < s.len() ==> !is_whitespace(s[k]),
    ensures
        leading_whitespace(s) == k,
    decreases k,
{
    if k > 0 {
        let rest = s.drop_first();
        assert forall|i: int| 0 <= i < k - 1 implies is_whitespace(#[trigger] rest[i]) by {
            assert(rest[i] == s[i + 1]);
        }
        lemma_leading_whitespace(rest, k - 1);
    }
}

/// The trailing white space begins after the last character that is none.
pub proof fn lemma_trailing_whitespace(s: Seq<char>, k: int)
    requires
        0 <= k <= s.len(),
        forall|i: int| s.len() - k <= i < s.len() ==> is_whitespace(#[trigger] s[i]),
        k < s.len() ==> !is_whitespace(s[s.len() - k - 1]),
    ensures
        trailing_whitespace(s) == k,
    decreases k,
{
    if k > 0 {
        let rest = s.drop_last();
        assert forall|i: int| rest.len() - (k - 1) <= i < rest.len() implies is_whitespace(
            #[trigger] rest[i],
        ) by {
            assert(rest[i] == s[i]);
        }
        lemma_trailing_whitespace(rest, k - 1);
    }
}

/// Trimming leaves nothing exactly of blank text.
pub proof fn lemma_trimmed_empty_iff_blank(s: Seq<char>)
    ensures
        trimmed(s).len() == 0 <==> is_blank(s),
    decreases s.len(),
{
    lemma_whitespace_counts(s);
    if is_blank(s) {
        lemma_leading_whitespace(s, s.len() as int);
    } else {
        let i = choose|i: int| 0 <= i < s.len() && !is_whitespace(#[trigger] s[i]);
        let start = leading_whitespace(s) as int;
        let end = s.len() - trailing_whitespace(s);
        assert(start <= i);
        assert(i < end);
    }
}

/// Leading white space is white space and ends before a character that is
/// none; likewise the trailing white space.
pub proof fn lemma_whitespace_counts(s: Seq<char>)
    ensures
        leading_whitespace(s) <= s.len(),
        trailing_whitespace(s) <= s.len(),
        forall|i: int| 0 <= i < leading_whitespace(s) ==> is_whitespace(#[trigger] s[i]),
        leading_whitespace(s) < s.len() ==> !is_whitespace(s[leading_whitespace(s) as int]),
        forall|i: int|
            s.len() - trailing_whitespace(s) <= i < s.len() ==> is_whitespace(#[trigger] s[i]),
        trailing_whitespace(s) < s.len() ==> !is_whitespace(
            s[s.len() - trailing_whitespace(s) - 1],
        ),
    decreases s.len(),
{
    if s.len() > 0 {
        if is_whitespace(s.first()) {
            let rest = s.drop_first();
            lemma_whitespace_counts(rest);
            assert forall|i: int| 0 <= i < leading_whitespace(s) implies is_whitespace(
                #[trigger] s[i],
            ) by {
                if i > 0 {
                    assert(s[i] == rest[i - 1]);
                }
            }
            if leading_whitespace(s) < s.len() {
                assert(s[leading_whitespace(s) as int] == rest[leading_whitespace(rest) as int]);
            }
        }
        if is_whitespace(s.last()) {
            let rest = s.drop_last();
            lemma_whitespace_counts(rest);
            assert forall|i: int|
                s.len() - trailing_whitespace(s) <= i < s.len() implies is_whitespace(
                #[trigger] s[i],
            ) by {
                if i < s.len() - 1 {
                    assert(s[i] == rest[i]);
                }
            }
            if trailing_whitespace(s) < s.len() {
                assert(s[s.len() - trailing_whitespace(s) - 1] == rest[rest.len()
                    - trailing_whitespace(rest) - 1]);
            }
        }
    }
}

/// Whether `pattern` stands in `text` at position `i`.
pub open spec fn occurs_at(text: Seq<char>, pattern: Seq<char>, i: int) -> bool {
    0 <= i && i + pattern.len() <= text.len() && text.subrange(i, i + pattern.len()) == pattern
}

/// The first position at or after `from` at which `pattern` stands in
/// `text`.
pub open spec fn find(text: Seq<char>, pattern: Seq<char>, from: int) -> Option<int>
    decreases text.len() - from + 1,
{
    if from < 0 || from + pattern.len() > text.len() {
        None
    } else if occurs_at(text, pattern, from) {
        Some(from)
    } else {
        find(text, pattern, from + 1)
    }
}

/// The decimal digits of `n`, most significant first.
pub open spec fn decimal(n: nat) -> Seq<char>
    decreases n,
{
    if n < 10 {
        seq![digit_char(n)]
    } else {
        decimal(n / 10).push(digit_char(n % 10))
    }
}

/// The text that digits spell which stand least significant first.
pub open spec fn spelled(digits: Seq<u8>) -> Seq<char>
    decreases digits.len(),
{
    if digits.len() == 0 {
        Seq::empty()
    } else {
        spelled(digits.drop_first()).push(digit_char(digits.first() as nat))
    }
}

/// A digit more at the significant end stands first in the text.
pub proof fn lemma_spelled_push(digits: Seq<u8>, d: u8)
    ensures
        spelled(digits.push(d)) == seq![digit_char(d as nat)] + spelled(digits),
    decreases digits.len(),
{
    let longer = digits.push(d);
    if digits.len() == 0 {
        assert(longer.drop_first() =~= Seq::<u8>::empty());
        assert(longer.first() == d);
        assert(spelled(longer) == spelled(longer.drop_first()).push(digit_char(d as nat)));
        assert(spelled(longer) =~= seq![digit_char(d as nat)] + spelled(digits));
    } else {
        lemma_spelled_push(digits.drop_first(), d);
        assert(longer.drop_first() =~= digits.drop_first().push(d));
        assert(longer.first() == digits.first());
        assert(spelled(longer) == spelled(longer.drop_first()).push(
            digit_char(longer.first() as nat),
        ));
        assert(spelled(longer) =~= seq![digit_char(d as nat)] + spelled(digits));
    }
}

/// The character of a decimal digit.
pub open spec fn digit_char(d: nat) -> char {
    if d == 0 {
        '0'
    } else if d == 1 {
        '1'
    } else if d == 2 {
        '2'
    } else if d == 3 {
        '3'
    } else if d == 4 {
        '4'
    } else if d == 5 {
        '5'
    } else if d == 6 {
        '6'
    } else if d == 7 {
        '7'
    } else if d == 8 {
        '8'
    } else {
        '9'
    }
}

/// The texts of `segments` that are present, each followed by `separator`,
/// in one text.
pub open spec fn joined(segments: Seq<Option<String>>, separator: Seq<char>) -> Seq<char>
    decreases segments.len(),
{
    if segments.len() == 0 {
        Seq::empty()
    } else {
        let front = joined(segments.drop_last(), separator);
        match segments.last() {
            Some(text) => front + text@ + separator,
            None => front,
        }
    }
}

/// The characters of `s`.
pub fn chars_of(s: &str) -> (chars: Vec<char>)
    ensures
        chars@ == s@,
{
    let mut chars: Vec<char> = Vec::new();
    for c in it: s.chars()
        invariant
            chars@ == s@.subrange(0, it.index() as int),
            it.seq() == s@,
    {
        chars.push(c);
    }
    chars
}

/// Whether two texts hold the same characters.
pub fn str_eq(a: &str, b: &str) -> (same: bool)
    ensures
        same == (a@ == b@),
{
    let x = a.to_owned();
    let y = b.to_owned();
    x == y
}

/// `s` without its leading and trailing white space.
pub fn trim(s: &str) -> (out: &str)
    ensures
        out@ == trimmed(s@),
{
    let chars = chars_of(s);
    let len = chars.len();
    let mut start: usize = 0;
    while start < len && char_is_whitespace(chars[start])
        invariant
            0 <= start <= len,
            len == chars@.len(),
            forall|i: int| 0 <= i < start ==> is_whitespace(#[trigger] chars@[i]),
        decreases len - start,
    {
        start = start + 1;
    }
    proof {
        lemma_leading_whitespace(chars@, start as int);
    }
    if start == len {
        return s.substring_char(0, 0);
    }
    let mut end: usize = len;
    while end > start && char_is_whitespace(chars[end - 1])
        invariant
            start <= end <= len,
            start < len,
            len == chars@.len(),
            !is_whitespace(chars@[start as int]),
            forall|i: int| end <= i < len ==> is_whitespace(#[trigger] chars@[i]),
        decreases end,
    {
        end = end - 1;
    }
    proof {
        lemma_trailing_whitespace(chars@, len - end);
    }
    s.substring_char(start, end)
}

/// Whether `s` consists of white space only.
pub fn is_blank_text(s: &str) -> (blank: bool)
    ensures
        blank == is_blank(s@),
        blank == (trimmed(s@).len() == 0),
{
    proof {
        lemma_trimmed_empty_iff_blank(s@);
    }
    let mut blank = true;
    for c in it: s.chars()
        invariant
            it.seq() == s@,
            blank == is_blank(s@.subrange(0, it.index() as int)),
    {
        let ghost before = s@.subrange(0, it.index() as int);
        let ghost after = s@.subrange(0, it.index() + 1);
        let white = char_is_whitespace(c);
        proof {
            assert(after.drop_last() =~= before);
            if blank && white {
                assert forall|i: int| 0 <= i < after.len() implies is_whitespace(
                    #[trigger] after[i],
                ) by {
                    if i < before.len() {
                        assert(after[i] == before[i]);
                    }
                }
            } else if !white {
                assert(!is_whitespace(after[after.len() - 1]));
            } else {
                let i = choose|i: int| 0 <= i < before.len() && !is_whitespace(#[trigger] before[i]);
                assert(after[i] == before[i]);
            }
        }
        blank = blank && white;
    }
    proof {
        assert(s@.subrange(0, s@.len() as int) =~= s@);
    }
    blank
}

/// Joins the texts of `segments` that are present, each followed by
/// `separator`. A segment whose text could not be had is passed over.
pub fn join_segments(segments: &Vec<Option<String>>, separator: &str) -> (text: String)
    ensures
        text@ == joined(segments@, separator@),
{
    let mut text = String::new();
    let mut i: usize = 0;
    while i < segments.len()
        invariant
            0 <= i <= segments@.len(),
            text@ == joined(segments@.subrange(0, i as int), separator@),
        decreases segments.len() - i,
    {
        proof {
            let next = segments@.subrange(0, i + 1);
            assert(next.drop_last() =~= segments@.subrange(0, i as int));
        }
        match &segments[i] {
            Some(segment) => {
                text.append(segment.as_str());
                text.append(separator);
            },
            None => {},
        }
        i = i + 1;
    }
    proof {
        assert(segments@.subrange(0, i as int) =~= segments@);
    }
    text
}

/// The first position at or after `from` at which `pattern` stands in
/// `text`.
pub fn find_from(text: &Vec<char>, pattern: &Vec<char>, from: usize) -> (found: Option<usize>)
    ensures
        found is Some <==> find(text@, pattern@, from as int) is Some,
        found matches Some(i) ==> find(text@, pattern@, from as int) == Some(i as int) && from
            <= i && i + pattern@.len() <= text@.len(),
{
    if pattern.len() > text.len() || from > text.len() - pattern.len() {
        return None;
    }
    let last = text.len() - pattern.len();
    let mut i: usize = from;
    loop
        invariant
            from <= i <= last,
            last + pattern@.len() == text@.len(),
            text@.len() <= usize::MAX,
            find(text@, pattern@, from as int) == find(text@, pattern@, i as int),
        decreases last - i,
    {
        let mut j: usize = 0;
        let mut same = true;
        while j < pattern.len()
            invariant
                0 <= j <= pattern@.len(),
                i + pattern@.len() <= text@.len(),
                text@.len() <= usize::MAX,
                same ==> forall|k: int| 0 <= k < j ==> text@[i + k] == pattern@[k],
                !same ==> !occurs_at(text@, pattern@, i as int),
            decreases pattern.len() - j,
        {
            if text[i + j] != pattern[j] {
                proof {
                    let part = text@.subrange(i as int, i + pattern@.len());
                    assert(part[j as int] == text@[i + j]);
                }
                same = false;
            }
            j = j + 1;
        }
        if same {
            proof {
                assert(text@.subrange(i as int, i + pattern@.len()) =~= pattern@);
            }
            return Some(i);
        }
        if i == last {
            proof {
                assert(find(text@, pattern@, i + 1) is None);
            }
            return None;
        }
        i = i + 1;
    }
}

/// The decimal digits of `n`.
pub fn to_decimal(n: u128) -> (text: String)
    ensures
        text@ == decimal(n as nat),
{
    let mut digits: Vec<u8> = Vec::new();
    let mut rest = n;
    while rest >= 10
        invariant
            decimal(n as nat) == decimal(rest as nat) + spelled(digits@),
        decreases rest,
    {
        proof {
            lemma_spelled_push(digits@, (rest % 10) as u8);
            assert(decimal(rest as nat / 10) + (seq![digit_char(rest as nat % 10)] + spelled(
                digits@,
            )) =~= decimal(rest as nat) + spelled(digits@));
        }
        digits.push((rest % 10) as u8);
        rest = rest / 10;
    }
    proof {
        lemma_spelled_push(digits@, rest as u8);
    }
    digits.push(rest as u8);
    let mut text = String::new();
    let mut i: usize = digits.len();
    proof {
        assert(digits@.subrange(i as int, digits@.len() as int) =~= Seq::<u8>::empty());
        reveal_strlit("0");
        reveal_strlit("1");
        reveal_strlit("2");
        reveal_strlit("3");
        reveal_strlit("4");
        reveal_strlit("5");
        reveal_strlit("6");
        reveal_strlit("7");
        reveal_strlit("8");
        reveal_strlit("9");
    }
    while i > 0
        invariant
            0 <= i <= digits@.len(),
            text@ == spelled(digits@.subrange(i as int, digits@.len() as int)),
            "0"@ =~= seq!['0'],
            "1"@ =~= seq!['1'],
            "2"@ =~= seq!['2'],
            "3"@ =~= seq!['3'],
            "4"@ =~= seq!['4'],
            "5"@ =~= seq!['5'],
            "6"@ =~= seq!['6'],
            "7"@ =~= seq!['7'],
            "8"@ =~= seq!['8'],
            "9"@ =~= seq!['9'],
        decreases i,
    {
        i = i - 1;
        let d = digits[i];
        let piece = if d == 0 {
            "0"
        } else if d == 1 {
            "1"
        } else if d == 2 {
            "2"
        } else if d == 3 {
            "3"
        } else if d == 4 {
            "4"
        } else if d == 5 {
            "5"
        } else if d == 6 {
            "6"
        } else if d == 7 {
            "7"
        } else if d == 8 {
            "8"
        } else {
            "9"
        };
        proof {
            let part = digits@.subrange(i as int, digits@.len() as int);
            assert(part.drop_first() =~= digits@.subrange(i + 1, digits@.len() as int));
            assert(piece@ =~= seq![digit_char(d as nat)]);
            assert(text@ + piece@ =~= spelled(part));
        }
        text.append(piece);
    }
    proof {
        assert(digits@.subrange(0, digits@.len() as int) =~= digits@);
    }
    text
}

/// Whether `s` begins with `prefix`.
pub fn starts_with(s: &str, prefix: &str) -> (found: bool)
    ensures
        found == prefix@.is_prefix_of(s@),
{
    let text = chars_of(s);
    let head = chars_of(prefix);
    if head.len() > text.len() {
        return false;
    }
    let mut i: usize = 0;
    while i < head.len()
        invariant
            0 <= i <= head@.len() <= text@.len(),
            head@ == prefix@,
            text@ == s@,
            forall|j: int| 0 <= j < i ==> head@[j] == text@[j],
        decreases head.len() - i,
    {
        if head[i] != text[i] {
            proof {
                let front = text@.subrange(0, head@.len() as int);
                assert(front[i as int] == text@[i as int]);
            }
            return false;
        }
        i = i + 1;
    }
    proof {
        assert(head@ =~= text@.subrange(0, head@.len() as int));
    }
    true
}

} // verus!
