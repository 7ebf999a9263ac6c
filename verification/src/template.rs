//! The row template engine: each template holds at most one bracketed field
//! reference, which is substituted by the stringified metadata value for the
//! `xesam:`-namespaced field of that name.

use vstd::prelude::*;
use crate::errors::AppError;
use crate::metadata::{value_str, value_to_string, Metadata, MetaModel};
use crate::strutil::str_views;

verus! {

/// The pattern occurs in `s` at position `k`.
pub open spec fn matches_at(s: Seq<char>, pat: Seq<char>, k: int) -> bool {
    &&& 0 <= k
    &&& k + pat.len() <= s.len()
    &&& s.subrange(k, k + pat.len()) == pat
}

/// Every occurrence of a non-empty pattern replaced, leftmost first and
/// without overlap, as `str::replace` does.
pub open spec fn replace_spec(s: Seq<char>, pat: Seq<char>, to: Seq<char>) -> Seq<char>
    recommends
        pat.len() > 0,
    decreases s.len(),
{
    if s.len() == 0 {
        s
    } else if pat.len() > 0 && matches_at(s, pat, 0) {
        to + replace_spec(s.skip(pat.len() as int), pat, to)
    } else {
        seq![s[0]] + replace_spec(s.skip(1), pat, to)
    }
}

/// Whether the pattern occurs in `s` at position `i`.
fn match_at(s: &str, pat: &str, i: usize) -> (r: bool)
    requires
        i <= s@.len(),
    ensures
        r == matches_at(s@, pat@, i as int),
{
    let slen = s.unicode_len();
    let plen = pat.unicode_len();
    if slen - i < plen {
        return false;
    }
    let mut j: usize = 0;
    while j < plen
        invariant
            0 <= j <= plen,
            i + plen <= slen,
            slen == s@.len(),
            plen == pat@.len(),
            forall|k: int| 0 <= k < j ==> s@[i + k] == pat@[k],
        decreases plen - j,
    {
        if s.get_char(i + j) != pat.get_char(j) {
            proof {
                if matches_at(s@, pat@, i as int) {
                    assert(s@.subrange(i as int, i + pat@.len())[j as int] == s@[i + j]);
                }
            }
            return false;
        }
        j += 1;
    }
    proof {
        assert(s@.subrange(i as int, i + pat@.len()) =~= pat@);
    }
    true
}

/// Replaces every occurrence of a non-empty pattern, as `replace_spec` says.
pub fn replace_all(s: &str, pat: &str, to: &str) -> (r: String)
    requires
        pat@.len() > 0,
    ensures
        r@ == replace_spec(s@, pat@, to@),
{
    let slen = s.unicode_len();
    let plen = pat.unicode_len();
    let mut out = String::new();
    let mut i: usize = 0;
    proof {
        assert(s@.skip(0) =~= s@);
        assert(out@ + replace_spec(s@, pat@, to@) =~= replace_spec(s@, pat@, to@));
    }
    while i < slen
        invariant
            0 <= i <= slen,
            slen == s@.len(),
            plen == pat@.len(),
            plen > 0,
            replace_spec(s@, pat@, to@) == out@ + replace_spec(s@.skip(i as int), pat@, to@),
        decreases slen - i,
    {
        if match_at(s, pat, i) {
            out.append(to);
            proof {
                assert(s@.skip(i as int).subrange(0, pat@.len() as int) =~= s@.subrange(
                    i as int,
                    i + pat@.len(),
                ));
                assert(matches_at(s@.skip(i as int), pat@, 0));
                assert(s@.skip(i as int).skip(pat@.len() as int) =~= s@.skip(i + plen));
            }
            i += plen;
        } else {
            let piece = s.substring_char(i, i + 1);
            out.append(piece);
            proof {
                if matches_at(s@.skip(i as int), pat@, 0) {
                    assert(s@.subrange(i as int, i + pat@.len()) =~= s@.skip(i as int).subrange(
                        0,
                        pat@.len() as int,
                    ));
                }
                assert(s@.skip(i as int)[0] == s@[i as int]);
                assert(piece@ =~= seq![s@[i as int]]);
                assert(s@.skip(i as int).skip(1) =~= s@.skip(i + 1));
            }
            i += 1;
        }
    }
    proof {
        assert(s@.skip(slen as int) =~= Seq::<char>::empty());
    }
    out
}

/// The first closing brace at or after position `p`.
pub open spec fn next_close(s: Seq<char>, p: int) -> Option<int>
    recommends
        0 <= p,
    decreases s.len() - p,
{
    if p < 0 || p >= s.len() {
        None
    } else if s[p] == '}' {
        Some(p)
    } else {
        next_close(s, p + 1)
    }
}

/// The leftmost bracket pair `{f}` with a non-empty `f`, searched from
/// position `i`: a `{` whose very next `}` leaves at least one character
/// between them.
pub open spec fn find_ph_from(s: Seq<char>, i: int) -> Option<(int, int)>
    recommends
        0 <= i,
    decreases s.len() - i,
{
    if i < 0 || i >= s.len() {
        None
    } else if s[i] == '{' {
        match next_close(s, i + 1) {
            Some(j) => if j > i + 1 {
                Some((i, j))
            } else {
                find_ph_from(s, i + 1)
            },
            None => find_ph_from(s, i + 1),
        }
    } else {
        find_ph_from(s, i + 1)
    }
}

/// The field name a template references: the text of its first bracket
/// pair, or the empty string when it has none.
pub open spec fn field_of(s: Seq<char>) -> Seq<char> {
    match find_ph_from(s, 0) {
        Some((i, j)) => s.subrange(i + 1, j),
        None => Seq::empty(),
    }
}

proof fn lemma_next_close_bounds(s: Seq<char>, p: int)
    requires
        0 <= p,
        next_close(s, p) is Some,
    ensures
        p <= next_close(s, p)->Some_0 < s.len(),
        s[next_close(s, p)->Some_0] == '}',
    decreases s.len() - p,
{
    if p < s.len() && s[p] != '}' {
        lemma_next_close_bounds(s, p + 1);
    }
}

proof fn lemma_find_ph_bounds(s: Seq<char>, i: int)
    requires
        0 <= i,
        find_ph_from(s, i) is Some,
    ensures
        ({
            let (a, b) = find_ph_from(s, i)->Some_0;
            &&& i <= a
            &&& a + 1 < b < s.len()
            &&& s[a] == '{'
            &&& s[b] == '}'
        }),
    decreases s.len() - i,
{
    if i < s.len() {
        if s[i] == '{' {
            match next_close(s, i + 1) {
                Some(j) => {
                    lemma_next_close_bounds(s, i + 1);
                    if j <= i + 1 {
                        lemma_find_ph_bounds(s, i + 1);
                    }
                },
                None => {
                    lemma_find_ph_bounds(s, i + 1);
                },
            }
        } else {
            lemma_find_ph_bounds(s, i + 1);
        }
    }
}

/// Finds the template's first bracket pair, as `find_ph_from` says.
pub fn find_placeholder(t: &str) -> (r: Option<(usize, usize)>)
    ensures
        match r {
            Some(p) => find_ph_from(t@, 0) == Some((p.0 as int, p.1 as int)),
            None => find_ph_from(t@, 0) is None,
        },
{
    let len = t.unicode_len();
    let mut i: usize = 0;
    while i < len
        invariant
            0 <= i <= len,
            len == t@.len(),
            find_ph_from(t@, 0) == find_ph_from(t@, i as int),
        decreases len - i,
    {
        if t.get_char(i) == '{' {
            let mut p: usize = i + 1;
            while p < len && t.get_char(p) != '}'
                invariant
                    i + 1 <= p <= len,
                    len == t@.len(),
                    next_close(t@, i + 1) == next_close(t@, p as int),
                decreases len - p,
            {
                p += 1;
            }
            if p < len && p > i + 1 {
                return Some((i, p));
            }
        }
        i += 1;
    }
    None
}

/// What rendering one template row yields: the substituted text, or the
/// missing field's name.
pub open spec fn render_row(t: Seq<char>, md: Map<Seq<char>, MetaModel>) -> Result<
    Seq<char>,
    Seq<char>,
> {
    let field = field_of(t);
    if md.contains_key("xesam:"@ + field) {
        Ok(replace_spec(t, "{"@ + field + "}"@, value_str(md["xesam:"@ + field])))
    } else {
        Err(field)
    }
}

/// Renders templates in order, failing on the first missing field.
pub open spec fn render_list(ts: Seq<Seq<char>>, md: Map<Seq<char>, MetaModel>) -> Result<
    Seq<Seq<char>>,
    Seq<char>,
>
    decreases ts.len(),
{
    if ts.len() == 0 {
        Ok(Seq::empty())
    } else {
        match render_row(ts[0], md) {
            Ok(row) => match render_list(ts.skip(1), md) {
                Ok(rest) => Ok(seq![row] + rest),
                Err(f) => Err(f),
            },
            Err(f) => Err(f),
        }
    }
}

/// At most the first three templates are considered.
pub open spec fn take3(ts: Seq<Seq<char>>) -> Seq<Seq<char>> {
    if ts.len() <= 3 {
        ts
    } else {
        ts.take(3)
    }
}

/// Pads with empty rows until exactly three rows exist.
pub open spec fn pad3(rows: Seq<Seq<char>>) -> Seq<Seq<char>>
    recommends
        rows.len() <= 3,
{
    rows + Seq::new((3 - rows.len()) as nat, |i: int| Seq::<char>::empty())
}

/// What a whole render yields: exactly three rows, or the first missing
/// field's name.
pub open spec fn render_rows_spec(ts: Seq<Seq<char>>, md: Map<Seq<char>, MetaModel>) -> Result<
    Seq<Seq<char>>,
    Seq<char>,
> {
    match render_list(take3(ts), md) {
        Ok(rows) => Ok(pad3(rows)),
        Err(f) => Err(f),
    }
}

/// Renders up to the first three templates against the metadata map and
/// pads the result to exactly three rows; a missing field aborts the whole
/// render, as `render_rows_spec` says.
pub fn render(templates: &Vec<String>, metadata: &Metadata) -> (r: Result<Vec<String>, AppError>)
    ensures
        r is Ok <==> render_rows_spec(str_views(templates@), metadata@) is Ok,
        r is Ok ==> str_views(r->Ok_0@) == render_rows_spec(str_views(templates@), metadata@)->Ok_0
            && r->Ok_0@.len() == 3,
        r is Err ==> r->Err_0 is FieldNotFound && r->Err_0->FieldNotFound_0@ == render_rows_spec(
            str_views(templates@),
            metadata@,
        )->Err_0,
{
    let ghost tv = take3(str_views(templates@));
    let count: usize = if templates.len() > 3 {
        3
    } else {
        templates.len()
    };
    proof {
        assert(tv.len() == count);
        assert(forall|k: int| 0 <= k < count ==> tv[k] == templates@[k]@);
    }
    let mut out: Vec<String> = Vec::new();
    let mut i: usize = 0;
    proof {
        assert(tv.skip(0) =~= tv);
        assert(str_views(out@) =~= Seq::<Seq<char>>::empty());
        match render_list(tv, metadata@) {
            Ok(rest) => {
                assert(str_views(out@) + rest =~= rest);
            },
            Err(_) => {},
        }
    }
    while i < count
        invariant
            0 <= i <= count,
            count <= templates.len(),
            count == tv.len(),
            tv == take3(str_views(templates@)),
            forall|k: int| 0 <= k < count ==> tv[k] == templates@[k]@,
            out@.len() == i,
            render_list(tv, metadata@) == match render_list(tv.skip(i as int), metadata@) {
                Ok(rest) => Ok::<Seq<Seq<char>>, Seq<char>>(str_views(out@) + rest),
                Err(f) => Err::<Seq<Seq<char>>, Seq<char>>(f),
            },
        decreases count - i,
    {
        let t: &String = &templates[i];
        let field: String = match find_placeholder(t.as_str()) {
            Some(p) => {
                proof {
                    lemma_find_ph_bounds(t@, 0);
                }
                String::from_str(t.as_str().substring_char(p.0 + 1, p.1))
            },
            None => String::new(),
        };
        proof {
            assert(field@ == field_of(t@));
        }
        let key = String::from_str("xesam:").concat(field.as_str());
        proof {
            assert(key@ == "xesam:"@ + field@);
        }
        let value = match metadata.get(key.as_str()) {
            Some(v) => v,
            None => {
                proof {
                    assert(render_row(tv[i as int], metadata@) == Err::<Seq<char>, Seq<char>>(
                        field@,
                    ));
                    assert(render_list(tv.skip(i as int), metadata@) == Err::<
                        Seq<Seq<char>>,
                        Seq<char>,
                    >(field@));
                }
                return Err(AppError::FieldNotFound(field));
            },
        };
        let rendered_value = value_to_string(value);
        let pat = String::from_str("{").concat(field.as_str()).concat("}");
        proof {
            reveal_strlit("{");
            reveal_strlit("}");
            assert(pat@ =~= "{"@ + field@ + "}"@);
            assert(pat@.len() > 0);
        }
        let row = replace_all(t.as_str(), pat.as_str(), rendered_value.as_str());
        let ghost out_pre = out@;
        out.push(row);
        proof {
            assert(render_row(tv[i as int], metadata@) == Ok::<Seq<char>, Seq<char>>(row@));
            assert(str_views(out@) =~= str_views(out_pre).push(row@));
            assert(tv.skip(i as int).skip(1) =~= tv.skip(i + 1));
            match render_list(tv.skip(i + 1), metadata@) {
                Ok(rest) => {
                    assert(str_views(out_pre) + (seq![row@] + rest) =~= str_views(out@) + rest);
                },
                Err(_) => {},
            }
        }
        i += 1;
    }
    proof {
        assert(tv.skip(count as int) =~= Seq::<Seq<char>>::empty());
        assert(str_views(out@) + Seq::<Seq<char>>::empty() =~= str_views(out@));
        assert(render_list(tv, metadata@) == Ok::<Seq<Seq<char>>, Seq<char>>(str_views(out@)));
    }
    let ghost rows = str_views(out@);
    proof {
        assert(str_views(out@) =~= rows + Seq::new(0nat, |k: int| Seq::<char>::empty()));
    }
    while out.len() < 3
        invariant
            rows == render_list(tv, metadata@)->Ok_0,
            render_list(tv, metadata@) is Ok,
            rows.len() <= out@.len() <= 3,
            str_views(out@) == rows + Seq::new((out@.len() - rows.len()) as nat, |k: int| Seq::<char>::empty()),
        decreases 3 - out.len(),
    {
        let ghost out_pre = out@;
        out.push(String::new());
        proof {
            assert(str_views(out@) =~= str_views(out_pre).push(Seq::<char>::empty()));
            assert(str_views(out_pre).push(Seq::<char>::empty()) =~= rows + Seq::new(
                (out@.len() - rows.len()) as nat,
                |k: int| Seq::<char>::empty(),
            ));
        }
    }
    proof {
        assert(rows.len() <= 3);
        assert(str_views(out@) =~= pad3(rows));
    }
    Ok(out)
}

} // verus!
