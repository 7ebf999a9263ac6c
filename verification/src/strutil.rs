//! Shared string helpers: equality, joining, trimming, splitting and decimal
//! parsing, each proved against a direct specification over `Seq<char>`.

use vstd::prelude::*;

verus! {

/// The character sequences of a vector of strings.
pub open spec fn str_views(v: Seq<String>) -> Seq<Seq<char>> {
    v.map_values(|s: String| s@)
}

/// Copies a vector of strings; the copy's view is the original's.
pub fn clone_string_vec(v: &Vec<String>) -> (r: Vec<String>)
    ensures
        r@ == v@,
{
    let mut copy: Vec<String> = Vec::new();
    let mut i: usize = 0;
    while i < v.len()
        invariant
            0 <= i <= v.len(),
            copy@ == v@.take(i as int),
        decreases v.len() - i,
    {
        copy.push(v[i].clone());
        proof {
            assert(copy@ =~= v@.take(i + 1));
        }
        i += 1;
    }
    proof {
        assert(v@.take(v@.len() as int) =~= v@);
    }
    copy
}

/// Character-sequence equality of two string slices.
pub fn str_eq(a: &str, b: &str) -> (r: bool)
    ensures
        r == (a@ == b@),
{
    let sa = a.to_owned();
    let sb = b.to_owned();
    sa == sb
}

/// The parts joined with a `", "` separator between neighbours.
pub open spec fn join_comma(parts: Seq<Seq<char>>) -> Seq<char>
    decreases parts.len(),
{
    if parts.len() == 0 {
        Seq::empty()
    } else if parts.len() == 1 {
        parts[0]
    } else {
        parts[0] + ", "@ + join_comma(parts.skip(1))
    }
}

proof fn lemma_join_comma_push(parts: Seq<Seq<char>>, x: Seq<char>)
    ensures
        parts.len() == 0 ==> join_comma(parts.push(x)) == x,
        parts.len() > 0 ==> join_comma(parts.push(x)) == join_comma(parts) + ", "@ + x,
    decreases parts.len(),
{
    if parts.len() == 0 {
        assert(parts.push(x)[0] == x);
    } else if parts.len() == 1 {
        assert(parts.push(x).skip(1) =~= seq![x]);
        assert(parts.push(x)[0] == parts[0]);
        assert(join_comma(seq![x]) == x);
        assert(join_comma(parts.push(x)) == parts[0] + ", "@ + x);
    } else {
        assert(parts.push(x).skip(1) =~= parts.skip(1).push(x));
        lemma_join_comma_push(parts.skip(1), x);
    }
}

/// Joins the strings with `", "`, as the specification `join_comma` says.
pub fn join_with_comma(parts: &Vec<String>) -> (r: String)
    ensures
        r@ == join_comma(parts@.map_values(|s: String| s@)),
{
    let ghost vs = parts@.map_values(|s: String| s@);
    let mut out = String::new();
    let mut i: usize = 0;
    while i < parts.len()
        invariant
            0 <= i <= parts.len(),
            vs == parts@.map_values(|s: String| s@),
            out@ == join_comma(vs.take(i as int)),
        decreases parts.len() - i,
    {
        if i > 0 {
            out.append(", ");
        }
        out.append(parts[i].as_str());
        proof {
            lemma_join_comma_push(vs.take(i as int), vs[i as int]);
            assert(vs.take(i + 1) =~= vs.take(i as int).push(vs[i as int]));
        }
        i += 1;
    }
    proof {
        assert(vs.take(parts.len() as int) =~= vs);
    }
    out
}

/// What `char::is_whitespace` returns for a character.
pub uninterp spec fn white_space(c: char) -> bool;

/// Relies on char::is_whitespace: whether a character has the Unicode
/// white-space property, a function of the character alone.
#[verifier::external_body]
fn is_space(c: char) -> (r: bool)
    ensures
        r == white_space(c),
{
    c.is_whitespace()
}

/// The sequence with leading white space removed.
pub open spec fn trim_front(s: Seq<char>) -> Seq<char>
    decreases s.len(),
{
    if s.len() > 0 && white_space(s[0]) {
        trim_front(s.skip(1))
    } else {
        s
    }
}

/// The sequence with trailing white space removed.
pub open spec fn trim_back(s: Seq<char>) -> Seq<char>
    decreases s.len(),
{
    if s.len() > 0 && white_space(s.last()) {
        trim_back(s.drop_last())
    } else {
        s
    }
}

/// The sequence with both leading and trailing white space removed.
pub open spec fn trim_spec(s: Seq<char>) -> Seq<char> {
    trim_back(trim_front(s))
}

proof fn lemma_trim_front_skip(s: Seq<char>, a: int)
    requires
        0 <= a <= s.len(),
        forall|j: int| 0 <= j < a ==> white_space(s[j]),
        a < s.len() ==> !white_space(s[a]),
    ensures
        trim_front(s) == s.skip(a),
    decreases a,
{
    if a == 0 {
        assert(s.skip(0) =~= s);
    } else {
        lemma_trim_front_skip(s.skip(1), a - 1);
        assert(s.skip(1).skip(a - 1) =~= s.skip(a));
    }
}

proof fn lemma_trim_back_take(s: Seq<char>, b: int)
    requires
        0 <= b <= s.len(),
        forall|j: int| b <= j < s.len() ==> white_space(s[j]),
        b > 0 ==> !white_space(s[b - 1]),
    ensures
        trim_back(s) == s.take(b),
    decreases s.len() - b,
{
    if b == s.len() {
        assert(s.take(b) =~= s);
    } else {
        lemma_trim_back_take(s.drop_last(), b);
        assert(s.drop_last().take(b) =~= s.take(b));
    }
}

/// Removes leading and trailing white space, as `trim_spec` says.
pub fn trim_str(s: &str) -> (r: String)
    ensures
        r@ == trim_spec(s@),
{
    let len = s.unicode_len();
    let mut a: usize = 0;
    while a < len && is_space(s.get_char(a))
        invariant
            0 <= a <= len,
            len == s@.len(),
            forall|j: int| 0 <= j < a ==> white_space(s@[j]),
        decreases len - a,
    {
        a += 1;
    }
    let mut b: usize = len;
    while b > a && is_space(s.get_char(b - 1))
        invariant
            a <= b <= len,
            len == s@.len(),
            forall|j: int| 0 <= j < a ==> white_space(s@[j]),
            a < len ==> !white_space(s@[a as int]),
            forall|j: int| b <= j < len ==> white_space(s@[j]),
        decreases b,
    {
        b -= 1;
    }
    proof {
        lemma_trim_front_skip(s@, a as int);
        if b == a {
            lemma_trim_back_take(s@.skip(a as int), 0);
        } else {
            lemma_trim_back_take(s@.skip(a as int), b - a);
        }
        assert(s@.skip(a as int).take(b - a) =~= s@.subrange(a as int, b as int));
    }
    let piece = s.substring_char(a, b);
    String::from_str(piece)
}

/// The pieces of `s` between commas; always at least one piece.
pub open spec fn split_commas(s: Seq<char>) -> Seq<Seq<char>>
    decreases s.len(),
{
    if s.len() == 0 {
        seq![Seq::empty()]
    } else if s[0] == ',' {
        seq![Seq::<char>::empty()] + split_commas(s.skip(1))
    } else {
        let rest = split_commas(s.skip(1));
        seq![seq![s[0]] + rest[0]] + rest.skip(1)
    }
}

proof fn lemma_split_commas_len(s: Seq<char>)
    ensures
        split_commas(s).len() >= 1,
    decreases s.len(),
{
    if s.len() > 0 {
        lemma_split_commas_len(s.skip(1));
    }
}

proof fn lemma_split_commas_step(s: Seq<char>, i: int)
    requires
        0 <= i <= s.len(),
        forall|j: int| 0 <= j < i ==> s[j] != ',',
        i < s.len() ==> s[i] == ',',
    ensures
        i == s.len() ==> split_commas(s) == seq![s],
        i < s.len() ==> split_commas(s) == seq![s.take(i)] + split_commas(s.skip(i + 1)),
    decreases i,
{
    lemma_split_commas_len(s.skip(1));
    if i == 0 {
        if 0 < s.len() {
            assert(s.take(0) =~= Seq::<char>::empty());
        } else {
            assert(s =~= Seq::<char>::empty());
        }
    } else {
        lemma_split_commas_step(s.skip(1), i - 1);
        if i == s.len() {
            assert(split_commas(s.skip(1)) == seq![s.skip(1)]);
            assert(seq![s[0]] + s.skip(1) =~= s);
            assert(split_commas(s) =~= seq![s]);
        } else {
            assert(split_commas(s.skip(1)) == seq![s.skip(1).take(i - 1)] + split_commas(
                s.skip(1).skip(i),
            ));
            assert(seq![s[0]] + s.skip(1).take(i - 1) =~= s.take(i));
            assert(s.skip(1).skip(i) =~= s.skip(i + 1));
            assert((seq![s.skip(1).take(i - 1)] + split_commas(s.skip(i + 1))).skip(1)
                =~= split_commas(s.skip(i + 1)));
            assert(split_commas(s) =~= seq![s.take(i)] + split_commas(s.skip(i + 1)));
        }
    }
}

/// Splits on commas and trims each piece, as the configuration's list
/// values are read.
pub fn split_and_trim(s: &str) -> (r: Vec<String>)
    ensures
        r@.map_values(|p: String| p@) == split_commas(s@).map_values(|p: Seq<char>| trim_spec(p)),
{
    let ghost goal = split_commas(s@).map_values(|p: Seq<char>| trim_spec(p));
    let len = s.unicode_len();
    let mut out: Vec<String> = Vec::new();
    let mut p: usize = 0;
    proof {
        assert(s@.skip(0) =~= s@);
        assert(out@.map_values(|q: String| q@) =~= Seq::<Seq<char>>::empty());
    }
    loop
        invariant_except_break
            goal =~= out@.map_values(|q: String| q@) + split_commas(s@.skip(p as int)).map_values(
                |q: Seq<char>| trim_spec(q),
            ),
        invariant
            0 <= p <= len,
            len == s@.len(),
            goal == split_commas(s@).map_values(|q: Seq<char>| trim_spec(q)),
        ensures
            out@.map_values(|q: String| q@) =~= goal,
        decreases len - p + 1,
    {
        let mut i: usize = p;
        while i < len && s.get_char(i) != ','
            invariant
                p <= i <= len,
                len == s@.len(),
                forall|j: int| p <= j < i ==> s@[j] != ',',
            decreases len - i,
        {
            i += 1;
        }
        let piece = s.substring_char(p, i);
        let trimmed = trim_str(piece);
        proof {
            lemma_split_commas_step(s@.skip(p as int), i - p);
            assert(s@.skip(p as int).take(i - p) =~= s@.subrange(p as int, i as int));
        }
        let ghost out_pre = out@;
        out.push(trimmed);
        proof {
            assert(out@.map_values(|q: String| q@) =~= out_pre.map_values(|q: String| q@).push(
                trimmed@,
            ));
        }
        if i == len {
            proof {
                assert(split_commas(s@.skip(p as int)) == seq![s@.skip(p as int)]);
                assert(s@.skip(p as int) =~= s@.subrange(p as int, i as int));
                assert(split_commas(s@.skip(p as int)).map_values(|q: Seq<char>| trim_spec(q))
                    =~= seq![trimmed@]);
                assert(out@.map_values(|q: String| q@) =~= goal);
            }
            break;
        }
        proof {
            assert(s@.skip(p as int).skip(i - p + 1) =~= s@.skip(i + 1));
            assert(split_commas(s@.skip(p as int)) == seq![s@.subrange(p as int, i as int)]
                + split_commas(s@.skip(i + 1)));
            assert(split_commas(s@.skip(p as int)).map_values(|q: Seq<char>| trim_spec(q)) =~= seq![
                trimmed@,
            ] + split_commas(s@.skip(i + 1)).map_values(|q: Seq<char>| trim_spec(q)));
        }
        p = i + 1;
    }
    out
}

/// A decimal digit (code points 48 through 57).
pub open spec fn dec_digit(c: char) -> bool {
    48 <= c as int <= 57
}

/// The numeric value of a decimal digit.
pub open spec fn digit_val(c: char) -> int {
    c as int - 48
}

/// The value of a sequence of decimal digits read in base ten.
pub open spec fn dec_value(s: Seq<char>) -> int
    decreases s.len(),
{
    if s.len() == 0 {
        0
    } else {
        dec_value(s.drop_last()) * 10 + digit_val(s.last())
    }
}

/// The digit part of a decimal string: an optional leading `+` is dropped.
pub open spec fn dec_digits_of(s: Seq<char>) -> Seq<char> {
    if s.len() > 0 && s[0] == '+' {
        s.skip(1)
    } else {
        s
    }
}

/// Whether `s` is what `str::parse::<u64>` accepts: an optional leading
/// `+`, then one or more decimal digits, with a value that fits in a `u64`.
pub open spec fn parses_as_u64(s: Seq<char>) -> bool {
    let digits = dec_digits_of(s);
    &&& digits.len() > 0
    &&& forall|i: int| 0 <= i < digits.len() ==> dec_digit(digits[i])
    &&& dec_value(digits) <= u64::MAX
}

/// The numeric value of a decimal string.
pub open spec fn u64_value(s: Seq<char>) -> int {
    dec_value(dec_digits_of(s))
}

proof fn lemma_dec_value_bounds(s: Seq<char>)
    requires
        forall|i: int| 0 <= i < s.len() ==> dec_digit(s[i]),
    ensures
        0 <= dec_value(s),
    decreases s.len(),
{
    if s.len() > 0 {
        lemma_dec_value_bounds(s.drop_last());
    }
}

proof fn lemma_dec_value_prefix(s: Seq<char>, k: int)
    requires
        0 <= k <= s.len(),
        forall|i: int| 0 <= i < s.len() ==> dec_digit(s[i]),
    ensures
        dec_value(s.take(k)) <= dec_value(s),
    decreases s.len() - k,
{
    if k == s.len() {
        assert(s.take(k) =~= s);
    } else {
        lemma_dec_value_prefix(s, k + 1);
        assert(s.take(k + 1).drop_last() =~= s.take(k));
        assert(s.take(k + 1).last() == s[k]);
        lemma_dec_value_bounds(s.take(k));
        assert(dec_value(s.take(k)) <= dec_value(s.take(k + 1)));
    }
}

/// Reads a non-negative integer as `str::parse::<u64>` does: `Some` exactly
/// on the strings `parses_as_u64` admits, with the value `u64_value` gives.
pub fn parse_u64_str(s: &str) -> (r: Option<u64>)
    ensures
        r == if parses_as_u64(s@) {
            Some(u64_value(s@) as u64)
        } else {
            None::<u64>
        },
{
    let len = s.unicode_len();
    let start: usize = if len > 0 && s.get_char(0) == '+' {
        1
    } else {
        0
    };
    let ghost digits = dec_digits_of(s@);
    proof {
        assert(digits =~= s@.skip(start as int));
    }
    if start == len {
        return None;
    }
    let mut acc: u64 = 0;
    let mut i: usize = start;
    while i < len
        invariant
            start <= i <= len,
            len == s@.len(),
            start <= 1,
            digits == dec_digits_of(s@),
            digits =~= s@.skip(start as int),
            forall|j: int| 0 <= j < i - start ==> dec_digit(digits[j]),
            acc == dec_value(digits.take(i - start)),
        decreases len - i,
    {
        let c = s.get_char(i);
        let d = c as u32;
        if d < 48 || d > 57 {
            proof {
                assert(!dec_digit(digits[i - start]));
            }
            return None;
        }
        proof {
            assert(digits.take(i - start + 1).drop_last() =~= digits.take(i - start));
            assert(digits.take(i - start + 1).last() == digits[i - start]);
        }
        let step = match acc.checked_mul(10) {
            Some(m) => m.checked_add((d - 48) as u64),
            None => None,
        };
        match step {
            Some(next) => {
                acc = next;
            },
            None => {
                proof {
                    if parses_as_u64(s@) {
                        lemma_dec_value_prefix(digits, i - start + 1);
                        assert(dec_value(digits.take(i - start + 1)) <= dec_value(digits));
                        assert(false);
                    }
                }
                return None;
            },
        }
        i += 1;
    }
    proof {
        assert(digits.take(len - start) =~= digits);
    }
    Some(acc)
}

/// What `str::to_lowercase` returns for a string.
pub uninterp spec fn lower_of(s: Seq<char>) -> Seq<char>;

/// Relies on str::to_lowercase: the lowercase mapping of the characters,
/// a function of the characters alone.
#[verifier::external_body]
pub fn lowercase(s: &str) -> (r: String)
    ensures
        r@ == lower_of(s@),
{
    s.to_lowercase()
}

/// Whether a vector of strings holds one with the given characters.
pub fn contains_str(v: &Vec<String>, s: &str) -> (r: bool)
    ensures
        r == str_views(v@).contains(s@),
{
    let mut i: usize = 0;
    while i < v.len()
        invariant
            0 <= i <= v.len(),
            forall|j: int| 0 <= j < i ==> v@[j]@ != s@,
        decreases v.len() - i,
    {
        if str_eq(v[i].as_str(), s) {
            proof {
                assert(str_views(v@)[i as int] == s@);
            }
            return true;
        }
        i += 1;
    }
    proof {
        assert forall|j: int| 0 <= j < str_views(v@).len() implies str_views(v@)[j] != s@ by {
            assert(str_views(v@)[j] == v@[j]@);
        }
    }
    false
}

/// What `str::parse::<bool>` yields: the two exact literals and nothing else.
pub open spec fn bool_lit_value(s: Seq<char>) -> Option<bool> {
    if s == "true"@ {
        Some(true)
    } else if s == "false"@ {
        Some(false)
    } else {
        None
    }
}

/// Recognises the boolean literals `true` and `false`.
pub fn parse_bool_str(s: &str) -> (r: Option<bool>)
    ensures
        r == bool_lit_value(s@),
{
    if str_eq(s, "true") {
        Some(true)
    } else if str_eq(s, "false") {
        Some(false)
    } else {
        None
    }
}

} // verus!
