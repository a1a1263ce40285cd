use vstd::prelude::*;

verus! {

/// The views of a sequence of strings.
pub open spec fn views_of(v: Seq<String>) -> Seq<Seq<char>> {
    v.map_values(|s: String| s@)
}

/// The parts joined with a single space between consecutive parts.
pub open spec fn join_spaces(parts: Seq<Seq<char>>) -> Seq<char>
    decreases parts.len(),
{
    if parts.len() == 0 {
        Seq::empty()
    } else if parts.len() == 1 {
        parts[0]
    } else {
        parts[0] + seq![' '] + join_spaces(parts.skip(1))
    }
}

proof fn lemma_join_spaces_push(parts: Seq<Seq<char>>, x: Seq<char>)
    ensures
        join_spaces(parts.push(x)) == if parts.len() == 0 {
            x
        } else {
            (join_spaces(parts) + seq![' '] + x)
        },
    decreases parts.len(),
{
    if parts.len() == 0 {
        assert(parts.push(x) =~= seq![x]);
        assert(join_spaces(seq![x]) == x);
    } else if parts.len() == 1 {
        assert(parts.push(x)[0] == parts[0]);
        assert(parts.push(x).skip(1) =~= seq![x]);
        assert(join_spaces(seq![x]) == x);
    } else {
        lemma_join_spaces_push(parts.skip(1), x);
        assert(parts.push(x).skip(1) =~= parts.skip(1).push(x));
        assert(parts.push(x)[0] == parts[0]);
        assert(join_spaces(parts) + seq![' '] + x =~= parts[0] + seq![' ']
            + (join_spaces(parts.skip(1)) + seq![' '] + x));
    }
}

/// Joins the parts with a single space between consecutive parts.
pub fn join_with_spaces(parts: &Vec<String>) -> (r: String)
    ensures
        r@ == join_spaces(views_of(parts@)),
{
    let mut out = String::new();
    let mut i: usize = 0;
    proof {
        assert(views_of(parts@).take(0) =~= Seq::<Seq<char>>::empty());
    }
    while i < parts.len()
        invariant
            i <= parts@.len(),
            out@ == join_spaces(views_of(parts@).take(i as int)),
        decreases parts@.len() - i,
    {
        if i > 0 {
            out.append(" ");
            proof {
                reveal_strlit(" ");
                assert(" "@ =~= seq![' ']);
            }
        }
        out.append(parts[i].as_str());
        proof {
            let vs = views_of(parts@);
            assert(vs[i as int] == parts@[i as int]@);
            lemma_join_spaces_push(vs.take(i as int), vs[i as int]);
            assert(vs.take(i as int).push(vs[i as int]) =~= vs.take(i + 1));
        }
        i += 1;
    }
    proof {
        assert(views_of(parts@).take(parts@.len() as int) =~= views_of(parts@));
    }
    out
}

proof fn lemma_views_push(v: Seq<String>, x: String)
    ensures
        views_of(v.push(x)) == views_of(v).push(x@),
{
    assert(views_of(v.push(x)).len() == v.push(x).len());
    assert(views_of(v).len() == v.len());
    assert forall|k: int| 0 <= k < v.push(x).len() implies views_of(v.push(x))[k] == views_of(
        v,
    ).push(x@)[k] by {
        assert(views_of(v.push(x))[k] == v.push(x)[k]@);
        if k < v.len() {
            assert(v.push(x)[k] == v[k]);
            assert(views_of(v)[k] == v[k]@);
        }
    }
    assert(views_of(v.push(x)) =~= views_of(v).push(x@));
}

/// A line with one carriage return stripped from its end, if one is there.
pub open spec fn strip_cr(line: Seq<char>) -> Seq<char> {
    if line.len() > 0 && line.last() == '\r' {
        line.drop_last()
    } else {
        line
    }
}

/// The lines still to come, with `acc` the part of the current line read so
/// far: a newline ends the current line, whose trailing carriage return is
/// stripped; a last line is kept as read, and a trailing newline adds none.
pub open spec fn split_lines_from(s: Seq<char>, acc: Seq<char>) -> Seq<Seq<char>>
    decreases s.len(),
{
    if s.len() == 0 {
        if acc.len() == 0 {
            Seq::empty()
        } else {
            seq![acc]
        }
    } else if s[0] == '\n' {
        seq![strip_cr(acc)] + split_lines_from(s.skip(1), Seq::empty())
    } else {
        split_lines_from(s.skip(1), acc.push(s[0]))
    }
}

/// The lines of a text, split at newlines, a carriage return before each
/// newline stripped, the optional final newline adding no empty line.
pub open spec fn lines_of(s: Seq<char>) -> Seq<Seq<char>> {
    split_lines_from(s, Seq::empty())
}

/// Splits a text into its lines.
pub fn split_lines(s: &str) -> (r: Vec<String>)
    ensures
        views_of(r@) == lines_of(s@),
{
    let n = s.unicode_len();
    let mut out: Vec<String> = Vec::new();
    let mut start: usize = 0;
    let mut i: usize = 0;
    proof {
        assert(s@.skip(0) =~= s@);
        assert(s@.subrange(0, 0) =~= Seq::<char>::empty());
        assert(views_of(out@) =~= Seq::<Seq<char>>::empty());
        assert(Seq::<Seq<char>>::empty() + lines_of(s@) =~= lines_of(s@));
    }
    while i < n
        invariant
            s@.len() == n,
            start <= i <= n,
            views_of(out@) + split_lines_from(s@.skip(i as int), s@.subrange(start as int, i as int))
                == lines_of(s@),
        decreases n - i,
    {
        let ghost acc = s@.subrange(start as int, i as int);
        let ghost rest = s@.skip(i as int);
        proof {
            assert(rest[0] == s@[i as int]);
            assert(rest.skip(1) =~= s@.skip(i + 1));
        }
        if s.get_char(i) == '\n' {
            let end: usize = if i > start && s.get_char(i - 1) == '\r' {
                i - 1
            } else {
                i
            };
            proof {
                if i > start && s@[i - 1] == '\r' {
                    assert(acc.len() > 0);
                    assert(acc.last() == s@[i - 1]);
                    assert(acc.drop_last() =~= s@.subrange(start as int, i - 1));
                } else {
                    assert(acc.len() > 0 ==> acc.last() != '\r');
                }
                assert(strip_cr(acc) =~= s@.subrange(start as int, end as int));
            }
            let line = s.substring_char(start, end).to_owned();
            proof {
                lemma_views_push(out@, line);
                assert(s@.subrange(i + 1, i + 1) =~= Seq::<char>::empty());
                assert((views_of(out@).push(line@)) + split_lines_from(
                    s@.skip(i + 1),
                    Seq::empty(),
                ) =~= views_of(out@) + (seq![strip_cr(acc)] + split_lines_from(
                    s@.skip(i + 1),
                    Seq::empty(),
                )));
            }
            out.push(line);
            start = i + 1;
        } else {
            proof {
                assert(acc.push(s@[i as int]) =~= s@.subrange(start as int, i + 1));
            }
        }
        i += 1;
    }
    proof {
        assert(s@.skip(n as int) =~= Seq::<char>::empty());
    }
    if start < n {
        let line = s.substring_char(start, n).to_owned();
        proof {
            let acc = s@.subrange(start as int, n as int);
            assert(acc.len() > 0);
            lemma_views_push(out@, line);
            assert((views_of(out@).push(line@)) =~= views_of(out@) + seq![acc]);
        }
        out.push(line);
    } else {
        proof {
            assert(s@.subrange(start as int, n as int).len() == 0);
            assert(views_of(out@) + Seq::<Seq<char>>::empty() =~= views_of(out@));
        }
    }
    out
}

/// `needle` occurs in `hay` as a contiguous run of characters.
pub open spec fn is_substring(needle: Seq<char>, hay: Seq<char>) -> bool {
    exists|i: int|
        0 <= i && i + needle.len() <= hay.len() && #[trigger] hay.subrange(i, i + needle.len())
            == needle
}

/// Whether `needle` occurs in `hay` as a contiguous run of characters.
pub fn contains_substring(hay: &str, needle: &str) -> (r: bool)
    ensures
        r == is_substring(needle@, hay@),
{
    let n = hay.unicode_len();
    let m = needle.unicode_len();
    if m == 0 {
        proof {
            assert(hay@.subrange(0, 0 + needle@.len() as int) =~= needle@);
        }
        return true;
    }
    if m > n {
        return false;
    }
    let mut i: usize = 0;
    while i <= n - m
        invariant
            hay@.len() == n,
            needle@.len() == m,
            1 <= m <= n,
            i <= n - m + 1,
            forall|s: int| 0 <= s < i ==> #[trigger] hay@.subrange(s, s + m as int) != needle@,
        decreases n - m - i + 1,
    {
        let mut j: usize = 0;
        let mut matched = true;
        while j < m
            invariant
                hay@.len() == n,
                needle@.len() == m,
                1 <= m <= n,
                i <= n - m,
                j <= m,
                matched ==> forall|k: int| 0 <= k < j ==> hay@[i + k] == needle@[k],
                !matched ==> hay@.subrange(i as int, i + m as int) != needle@,
            decreases m - j,
        {
            if hay.get_char(i + j) != needle.get_char(j) {
                proof {
                    let sub = hay@.subrange(i as int, i + m as int);
                    assert(sub[j as int] == hay@[i + j]);
                }
                matched = false;
                j = m;
            } else {
                j += 1;
            }
        }
        if matched {
            proof {
                assert(hay@.subrange(i as int, i + m as int) =~= needle@);
            }
            return true;
        }
        i += 1;
    }
    proof {
        assert forall|s: int| 0 <= s && s + needle@.len() <= hay@.len() implies #[trigger] hay@
            .subrange(s, s + needle@.len()) != needle@ by {
            assert(s < i);
        }
    }
    false
}

} // verus!
