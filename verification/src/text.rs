//! Text helpers shared by the generator, the token reader and the row readers:
//! decimal rendering, joining and splitting on a separator, prefix removal.

use vstd::prelude::*;

verus! {

/// `==` of `str`: true exactly when both hold the same characters.
#[verifier::external_body]
pub(crate) fn str_eq(a: &str, b: &str) -> (same: bool)
    ensures
        same == (a@ == b@),
{
    a == b
}

/// The character of a decimal digit.
pub open spec fn digit_char(d: int) -> char {
    if d == 0 {
        '0'
    } else if d == 1 {
        '1'
    } else if d == 2 {
        '2'
    } else if d == 3 {
        '3'
    } else if d == 4 {
        '4'
    } else if d == 5 {
        '5'
    } else if d == 6 {
        '6'
    } else if d == 7 {
        '7'
    } else if d == 8 {
        '8'
    } else {
        '9'
    }
}

/// Decimal digits of `n`, most significant first, without leading zeros.
pub open spec fn decimal_spec(n: nat) -> Seq<char>
    decreases n,
{
    if n < 10 {
        seq![digit_char(n as int)]
    } else {
        decimal_spec(n / 10).push(digit_char((n % 10) as int))
    }
}

/// The last `width` decimal digits of `n`, zero-padded on the left.
pub open spec fn padded_spec(n: nat, width: nat) -> Seq<char>
    decreases width,
{
    if width == 0 {
        Seq::empty()
    } else {
        padded_spec(n / 10, (width - 1) as nat).push(digit_char((n % 10) as int))
    }
}

/// A count of millionths written as a decimal number with six places:
/// an optional minus sign, the whole part, a point, six digits.
pub open spec fn fixed6_spec(v: int) -> Seq<char> {
    let magnitude: nat = if v < 0 {
        (-v) as nat
    } else {
        v as nat
    };
    let sign: Seq<char> = if v < 0 {
        seq!['-']
    } else {
        Seq::empty()
    };
    sign + decimal_spec(magnitude / 1_000_000) + seq!['.'] + padded_spec(
        magnitude % 1_000_000,
        6,
    )
}

/// The pieces of `parts`, each two neighbours separated by `sep`.
pub open spec fn join_spec(parts: Seq<Seq<char>>, sep: Seq<char>) -> Seq<char>
    decreases parts.len(),
{
    if parts.len() == 0 {
        Seq::empty()
    } else if parts.len() == 1 {
        parts[0]
    } else {
        join_spec(parts.drop_last(), sep) + sep + parts.last()
    }
}

/// The pieces of `s` between occurrences of `sep`; always at least one piece.
pub open spec fn split_spec(s: Seq<char>, sep: char) -> Seq<Seq<char>>
    decreases s.len(),
{
    if s.len() == 0 {
        seq![Seq::empty()]
    } else {
        let rest = split_spec(s.drop_first(), sep);
        if s[0] == sep {
            seq![Seq::<char>::empty()] + rest
        } else {
            rest.update(0, seq![s[0]] + rest[0])
        }
    }
}

/// True when `sep` does not occur in `s`.
pub open spec fn free_of(s: Seq<char>, sep: char) -> bool {
    forall|i: int| 0 <= i < s.len() ==> s[i] != sep
}

/// A text without the separator is its own single piece.
pub proof fn lemma_split_without_separator(s: Seq<char>, sep: char)
    requires
        free_of(s, sep),
    ensures
        split_spec(s, sep) == seq![s],
    decreases s.len(),
{
    if s.len() > 0 {
        let tail = s.drop_first();
        assert forall|i: int| 0 <= i < tail.len() implies tail[i] != sep by {
            assert(tail[i] == s[i + 1]);
        }
        lemma_split_without_separator(tail, sep);
        assert(seq![s[0]] + tail == s);
        assert(seq![tail].update(0, seq![s[0]] + tail) == seq![s]);
    } else {
        assert(s == Seq::<char>::empty());
    }
}

/// The first piece ends at the first separator; the rest is the split of what follows it.
pub proof fn lemma_split_at_first_separator(s: Seq<char>, sep: char, k: int)
    requires
        0 <= k < s.len(),
        s[k] == sep,
        free_of(s.take(k), sep),
    ensures
        split_spec(s, sep) == seq![s.take(k)] + split_spec(s.skip(k + 1), sep),
    decreases k,
{
    let tail = s.drop_first();
    if k == 0 {
        assert(s.take(0) == Seq::<char>::empty());
        assert(s.skip(1) == tail);
    } else {
        assert(s.take(k)[0] == s[0]);
        let head = tail.take(k - 1);
        assert forall|i: int| 0 <= i < head.len() implies #[trigger] head[i] != sep by {
            assert(head[i] == s.take(k)[i + 1]);
        }
        lemma_split_at_first_separator(tail, sep, k - 1);
        assert(tail.skip(k) == s.skip(k + 1));
        assert(seq![s[0]] + tail.take(k - 1) == s.take(k));
        let rest = split_spec(tail, sep);
        assert(rest.update(0, seq![s[0]] + rest[0]) == seq![s.take(k)] + split_spec(
            s.skip(k + 1),
            sep,
        ));
    }
}

fn digit_str(d: u64) -> (s: &'static str)
    requires
        d < 10,
    ensures
        s@ == seq![digit_char(d as int)],
{
    proof {
        reveal_strlit("0");
        reveal_strlit("1");
        reveal_strlit("2");
        reveal_strlit("3");
        reveal_strlit("4");
        reveal_strlit("5");
        reveal_strlit("6");
        reveal_strlit("7");
        reveal_strlit("8");
        reveal_strlit("9");
    }
    let s = if d == 0 {
        "0"
    } else if d == 1 {
        "1"
    } else if d == 2 {
        "2"
    } else if d == 3 {
        "3"
    } else if d == 4 {
        "4"
    } else if d == 5 {
        "5"
    } else if d == 6 {
        "6"
    } else if d == 7 {
        "7"
    } else if d == 8 {
        "8"
    } else {
        "9"
    };
    assert(s@ =~= seq![digit_char(d as int)]);
    s
}

/// Renders `n` in decimal.
pub fn decimal(n: u64) -> (text: String)
    ensures
        text@ == decimal_spec(n as nat),
    decreases n,
{
    if n < 10 {
        let text = String::from_str(digit_str(n));
        text
    } else {
        let mut text = decimal(n / 10);
        text.append(digit_str(n % 10));
        assert(text@ =~= decimal_spec(n as nat));
        text
    }
}

/// Renders the last `width` digits of `n`, zero-padded.
pub fn padded(n: u64, width: u8) -> (text: String)
    ensures
        text@ == padded_spec(n as nat, width as nat),
    decreases width,
{
    if width == 0 {
        let text = String::new();
        assert(text@ =~= padded_spec(n as nat, 0));
        text
    } else {
        let mut text = padded(n / 10, width - 1);
        text.append(digit_str(n % 10));
        assert(text@ =~= padded_spec(n as nat, width as nat));
        text
    }
}

/// Renders a count of millionths as a decimal number with six places.
pub fn fixed6(v: i64) -> (text: String)
    ensures
        text@ == fixed6_spec(v as int),
{
    let magnitude: u64 = if v >= 0 {
        v as u64
    } else if v == i64::MIN {
        0x8000_0000_0000_0000u64
    } else {
        (-v) as u64
    };
    let mut text = String::new();
    if v < 0 {
        text.append("-");
    }
    let whole = decimal(magnitude / 1_000_000);
    text.append(whole.as_str());
    text.append(".");
    let fraction = padded(magnitude % 1_000_000, 6);
    text.append(fraction.as_str());
    proof {
        reveal_strlit("-");
        reveal_strlit(".");
        assert("-"@ =~= seq!['-']);
        assert("."@ =~= seq!['.']);
        assert(text@ =~= fixed6_spec(v as int));
    }
    text
}

/// The views of the strings of a vector.
pub open spec fn views(parts: Seq<String>) -> Seq<Seq<char>> {
    parts.map_values(|p: String| p@)
}

/// Joins `parts` with `sep` between neighbours.
pub fn join(parts: &Vec<String>, sep: &str) -> (text: String)
    ensures
        text@ == join_spec(views(parts@), sep@),
{
    let mut text = String::new();
    let mut i: usize = 0;
    assert(views(parts@).take(0) =~= Seq::<Seq<char>>::empty());
    while i < parts.len()
        invariant
            i <= parts.len(),
            text@ == join_spec(views(parts@).take(i as int), sep@),
        decreases parts.len() - i,
    {
        let ghost before = views(parts@).take(i as int);
        let ghost after = views(parts@).take(i + 1);
        if i > 0 {
            text.append(sep);
        }
        text.append(parts[i].as_str());
        proof {
            assert(after.drop_last() =~= before);
            assert(after.last() == parts@[i as int]@);
            assert(text@ =~= join_spec(after, sep@));
        }
        i = i + 1;
    }
    assert(views(parts@).take(parts.len() as int) =~= views(parts@));
    text
}

/// Splits `s` at every occurrence of `sep`.
pub fn split(s: &str, sep: char) -> (parts: Vec<String>)
    ensures
        views(parts@) == split_spec(s@, sep),
        parts.len() >= 1,
{
    let n = s.unicode_len();
    let mut parts: Vec<String> = Vec::new();
    let mut start: usize = 0;
    let mut i: usize = 0;
    assert(s@.skip(0) =~= s@);
    assert(views(parts@) =~= Seq::<Seq<char>>::empty());
    while i < n
        invariant
            n == s@.len(),
            start <= i <= n,
            split_spec(s@, sep) == views(parts@) + split_spec(s@.skip(start as int), sep),
            forall|j: int| start <= j < i ==> s@[j] != sep,
        decreases n - i,
    {
        let c = s.get_char(i);
        if c == sep {
            let piece = String::from_str(s.substring_char(start, i));
            proof {
                let rest = s@.skip(start as int);
                let k = i - start;
                assert(rest[k] == sep);
                let head = rest.take(k);
                assert forall|j: int| 0 <= j < head.len() implies #[trigger] head[j] != sep by {
                    assert(head[j] == s@[start + j]);
                }
                lemma_split_at_first_separator(rest, sep, k);
                assert(rest.take(k) =~= s@.subrange(start as int, i as int));
                assert(rest.skip(k + 1) =~= s@.skip(i + 1));
                assert(views(parts@.push(piece)) =~= views(parts@) + seq![piece@]);
            }
            parts.push(piece);
            start = i + 1;
        }
        i = i + 1;
    }
    let piece = String::from_str(s.substring_char(start, n));
    proof {
        let rest = s@.skip(start as int);
        assert forall|j: int| 0 <= j < rest.len() implies rest[j] != sep by {
            assert(rest[j] == s@[start + j]);
        }
        lemma_split_without_separator(rest, sep);
        assert(rest =~= s@.subrange(start as int, n as int));
        assert(views(parts@.push(piece)) =~= views(parts@) + seq![piece@]);
    }
    parts.push(piece);
    parts
}

/// True when `s` begins with `prefix`.
pub open spec fn has_prefix(s: Seq<char>, prefix: Seq<char>) -> bool {
    prefix.len() <= s.len() && s.take(prefix.len() as int) == prefix
}

/// What follows `prefix` in `s`, where `s` begins with it.
pub fn strip_prefix<'a>(s: &'a str, prefix: &str) -> (rest: Option<&'a str>)
    ensures
        has_prefix(s@, prefix@) ==> rest.is_some() && rest.unwrap()@ == s@.skip(
            prefix@.len() as int,
        ),
        !has_prefix(s@, prefix@) ==> rest.is_none(),
{
    let n = s.unicode_len();
    let m = prefix.unicode_len();
    if m > n {
        return None;
    }
    let head = s.substring_char(0, m);
    if str_eq(head, prefix) {
        let rest = s.substring_char(m, n);
        assert(s@.subrange(0, m as int) =~= s@.take(m as int));
        assert(s@.subrange(m as int, n as int) =~= s@.skip(m as int));
        Some(rest)
    } else {
        assert(s@.subrange(0, m as int) =~= s@.take(m as int));
        None
    }
}

/// A copy of a text that may be absent.
pub fn copy_optional(value: &Option<String>) -> (copy: Option<String>)
    ensures
        copy.deep_view() == value.deep_view(),
{
    match value {
        Some(s) => Some(s.clone()),
        None => None,
    }
}

/// The replacement where there is one, else the current text.
pub fn replaced(current: &String, replacement: &Option<String>) -> (value: String)
    ensures
        value@ == match replacement.deep_view() {
            Some(r) => r,
            None => current@,
        },
{
    match replacement {
        Some(r) => r.clone(),
        None => current.clone(),
    }
}

/// The replacement where there is one, else the current text, which may be absent.
pub fn replaced_optional(current: &Option<String>, replacement: &Option<String>) -> (value: Option<
    String,
>)
    ensures
        value.deep_view() == match replacement.deep_view() {
            Some(r) => Some(r),
            None => current.deep_view(),
        },
{
    match replacement {
        Some(r) => Some(r.clone()),
        None => copy_optional(current),
    }
}

} // verus!
