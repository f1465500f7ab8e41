use vstd::prelude::*;
use vstd::string::StrSliceExecFns;
use vstd::string::StringExecFns;

verus! {

/// Splitting `s` at every occurrence of `sep`, with `cur` the piece
/// gathered so far: the auxiliary recursion behind [`split_char`].
pub open spec fn split_rec(s: Seq<char>, sep: char, cur: Seq<char>) -> Seq<Seq<char>>
    decreases s.len(),
{
    if s.len() == 0 {
        seq![cur]
    } else if s[0] == sep {
        seq![cur] + split_rec(s.drop_first(), sep, Seq::empty())
    } else {
        split_rec(s.drop_first(), sep, cur.push(s[0]))
    }
}

/// The pieces of `s` between occurrences of `sep`; always at least one,
/// and separators at the ends contribute empty pieces.
pub open spec fn split_char(s: Seq<char>, sep: char) -> Seq<Seq<char>> {
    split_rec(s, sep, Seq::empty())
}

/// The elements of `lines` that are not empty, in order.
pub open spec fn keep_nonempty(lines: Seq<Seq<char>>) -> Seq<Seq<char>>
    decreases lines.len(),
{
    if lines.len() == 0 {
        Seq::empty()
    } else if lines[0].len() == 0 {
        keep_nonempty(lines.drop_first())
    } else {
        seq![lines[0]] + keep_nonempty(lines.drop_first())
    }
}

/// `lines` without its first `n` elements, or nothing when fewer remain.
pub open spec fn skip_clamped(lines: Seq<Seq<char>>, n: int) -> Seq<Seq<char>> {
    if n <= lines.len() {
        lines.skip(n)
    } else {
        Seq::empty()
    }
}

/// The elements of `lines` joined by `sep`.
pub open spec fn join_seq(lines: Seq<Seq<char>>, sep: Seq<char>) -> Seq<char>
    decreases lines.len(),
{
    if lines.len() == 0 {
        Seq::empty()
    } else if lines.len() == 1 {
        lines[0]
    } else {
        join_seq(lines.drop_last(), sep) + sep + lines.last()
    }
}

/// The suffix of `path` after its last `/`; the whole of `path` when it
/// holds no `/`, and empty when `path` ends in `/`.
pub open spec fn last_segment(path: Seq<char>) -> Seq<char>
    decreases path.len(),
{
    if path.len() == 0 {
        Seq::empty()
    } else if path.last() == '/' {
        Seq::empty()
    } else {
        last_segment(path.drop_last()).push(path.last())
    }
}

/// `path` without its trailing separators.
pub open spec fn strip_trailing_seps(path: Seq<char>) -> Seq<char>
    decreases path.len(),
{
    if path.len() > 0 && path.last() == '/' {
        strip_trailing_seps(path.drop_last())
    } else {
        path
    }
}

/// The final component of `path`, as a filesystem path has it:
/// trailing separators are ignored, and a path whose last component is
/// empty, `.` or `..` has none.
pub open spec fn file_name_of(path: Seq<char>) -> Option<Seq<char>> {
    let seg = last_segment(strip_trailing_seps(path));
    if seg.len() == 0 || seg == "."@ || seg == ".."@ {
        None
    } else {
        Some(seg)
    }
}

/// The views of a sequence of string pairs.
pub open spec fn str_pairs_view(ps: Seq<(String, String)>) -> Seq<(Seq<char>, Seq<char>)> {
    ps.map_values(|p: (String, String)| (p.0@, p.1@))
}

/// `c` with a hyphen turned into an underscore.
pub open spec fn dash_to_underscore(c: char) -> char {
    if c == '-' {
        '_'
    } else {
        c
    }
}

/// A suffix that starts right after a `/` (or at the very start) and
/// holds no further `/` is exactly the last segment.
proof fn lemma_last_segment_at(s: Seq<char>, k: int)
    requires
        0 <= k <= s.len(),
        k == 0 || s[k - 1] == '/',
        forall|j: int| k <= j < s.len() ==> s[j] != '/',
    ensures
        last_segment(s) == s.subrange(k, s.len() as int),
    decreases s.len(),
{
    if s.len() == 0 {
        assert(last_segment(s) =~= s.subrange(k, s.len() as int));
    } else if s.len() == k {
        assert(s.last() == '/');
        assert(last_segment(s) =~= s.subrange(k, s.len() as int));
    } else {
        assert(s.last() != '/');
        lemma_last_segment_at(s.drop_last(), k);
        assert(last_segment(s.drop_last()).push(s.last()) =~= s.subrange(k, s.len() as int));
    }
}

/// The pieces of `s` between occurrences of `sep`.
pub fn split_str(s: &str, sep: char) -> (r: Vec<String>)
    ensures
        r.deep_view() == split_char(s@, sep),
{
    let n = s.unicode_len();
    let mut out: Vec<String> = Vec::new();
    let mut start: usize = 0;
    let mut i: usize = 0;
    proof {
        assert(s@.subrange(0, n as int) =~= s@);
        assert(s@.subrange(0, 0) =~= Seq::<char>::empty());
        assert(out.deep_view() =~= Seq::<Seq<char>>::empty());
        assert(out.deep_view() + split_char(s@, sep) =~= split_char(s@, sep));
    }
    while i < n
        invariant
            n == s@.len(),
            start <= i <= n,
            out.deep_view() + split_rec(
                s@.subrange(i as int, n as int),
                sep,
                s@.subrange(start as int, i as int),
            ) == split_char(s@, sep),
        decreases n - i,
    {
        let ghost rest = s@.subrange(i as int, n as int);
        let ghost cur = s@.subrange(start as int, i as int);
        proof {
            assert(rest[0] == s@[i as int]);
            assert(rest.drop_first() =~= s@.subrange(i as int + 1, n as int));
        }
        if s.get_char(i) == sep {
            let ghost old_dv = out.deep_view();
            let piece = s.substring_char(start, i).to_owned();
            out.push(piece);
            start = i + 1;
            proof {
                assert(out.deep_view() =~= old_dv.push(cur));
                assert(old_dv.push(cur) =~= old_dv + seq![cur]);
                assert(s@.subrange(start as int, i as int + 1) =~= Seq::<char>::empty());
                assert(out.deep_view() + split_rec(
                    s@.subrange(i as int + 1, n as int),
                    sep,
                    Seq::empty(),
                ) =~~= split_char(s@, sep));
            }
        } else {
            proof {
                assert(cur.push(s@[i as int]) =~= s@.subrange(start as int, i as int + 1));
            }
        }
        i += 1;
    }
    let ghost old_dv = out.deep_view();
    let last_piece = s.substring_char(start, n).to_owned();
    out.push(last_piece);
    proof {
        assert(s@.subrange(n as int, n as int) =~= Seq::<char>::empty());
        assert(out.deep_view() =~= old_dv.push(s@.subrange(start as int, n as int)));
        assert(old_dv.push(s@.subrange(start as int, n as int)) =~= old_dv + seq![
            s@.subrange(start as int, n as int),
        ]);
        assert(out.deep_view() =~~= split_char(s@, sep));
    }
    out
}

/// The non-empty lines of `lines` after its first `from` ones.
pub fn nonempty_from(lines: &Vec<String>, from: usize) -> (r: Vec<String>)
    ensures
        r.deep_view() == keep_nonempty(skip_clamped(lines.deep_view(), from as int)),
{
    let mut out: Vec<String> = Vec::new();
    let mut i: usize = if from <= lines.len() {
        from
    } else {
        lines.len()
    };
    proof {
        assert(lines.deep_view().len() == lines@.len());
        assert(lines.deep_view().subrange(i as int, lines.deep_view().len() as int)
            =~= skip_clamped(lines.deep_view(), from as int));
        assert(out.deep_view() =~= Seq::<Seq<char>>::empty());
        assert(out.deep_view() + keep_nonempty(skip_clamped(lines.deep_view(), from as int))
            =~= keep_nonempty(skip_clamped(lines.deep_view(), from as int)));
    }
    while i < lines.len()
        invariant
            i <= lines.len(),
            lines.deep_view().len() == lines.len(),
            out.deep_view() + keep_nonempty(
                lines.deep_view().subrange(i as int, lines.deep_view().len() as int),
            ) == keep_nonempty(skip_clamped(lines.deep_view(), from as int)),
        decreases lines.len() - i,
    {
        let ghost dv = lines.deep_view();
        let ghost rest = dv.subrange(i as int, dv.len() as int);
        proof {
            assert(rest[0] == dv[i as int]);
            assert(dv[i as int] == lines@[i as int]@);
            assert(rest.drop_first() =~= dv.subrange(i as int + 1, dv.len() as int));
        }
        if !lines[i].as_str().is_empty() {
            let ghost old_dv = out.deep_view();
            let kept = lines[i].clone();
            out.push(kept);
            proof {
                assert(out.deep_view() =~= old_dv.push(dv[i as int]));
                assert(old_dv.push(dv[i as int]) =~= old_dv + seq![dv[i as int]]);
                assert(out.deep_view() + keep_nonempty(
                    dv.subrange(i as int + 1, dv.len() as int),
                ) =~~= keep_nonempty(skip_clamped(dv, from as int)));
            }
        }
        i += 1;
    }
    proof {
        assert(lines.deep_view().subrange(
            lines.len() as int,
            lines.deep_view().len() as int,
        ) =~= Seq::<Seq<char>>::empty());
    }
    out
}

/// The elements of `lines` joined by `sep`.
pub fn join_with(lines: &Vec<String>, sep: &str) -> (r: String)
    ensures
        r@ == join_seq(lines.deep_view(), sep@),
{
    let mut r = String::new();
    let mut i: usize = 0;
    proof {
        assert(lines.deep_view().subrange(0, 0) =~= Seq::<Seq<char>>::empty());
    }
    while i < lines.len()
        invariant
            i <= lines.len(),
            lines.deep_view().len() == lines.len(),
            r@ == join_seq(lines.deep_view().subrange(0, i as int), sep@),
        decreases lines.len() - i,
    {
        let ghost dv = lines.deep_view();
        if i > 0 {
            r.append(sep);
        }
        r.append(lines[i].as_str());
        proof {
            let ext = dv.subrange(0, i as int + 1);
            assert(ext.last() == dv[i as int]);
            assert(dv[i as int] == lines@[i as int]@);
            if i == 0 {
                assert(ext.len() == 1);
                assert(r@ == ext[0]);
            } else {
                assert(ext.drop_last() =~= dv.subrange(0, i as int));
            }
        }
        i += 1;
    }
    proof {
        assert(lines.deep_view().subrange(0, lines.len() as int) =~= lines.deep_view());
    }
    r
}

/// The final component of `path`: trailing separators are ignored,
/// and an empty component, `.` and `..` yield nothing.
pub fn file_name_str(path: &str) -> (r: Option<String>)
    ensures
        (match r {
            Some(c) => file_name_of(path@) == Some(c@),
            None => file_name_of(path@) is None,
        }),
{
    let n = path.unicode_len();
    let mut end: usize = n;
    proof {
        assert(path@.subrange(0, n as int) =~= path@);
    }
    while end > 0 && path.get_char(end - 1) == '/'
        invariant
            end <= n,
            n == path@.len(),
            strip_trailing_seps(path@) == strip_trailing_seps(path@.subrange(0, end as int)),
        decreases end,
    {
        proof {
            let cur = path@.subrange(0, end as int);
            assert(cur.last() == path@[end as int - 1]);
            assert(cur.drop_last() =~= path@.subrange(0, end as int - 1));
        }
        end -= 1;
    }
    let ghost trimmed = path@.subrange(0, end as int);
    proof {
        if end > 0 {
            assert(trimmed.last() == path@[end as int - 1]);
        }
        assert(strip_trailing_seps(trimmed) == trimmed);
        assert(strip_trailing_seps(path@) == trimmed);
    }
    let mut i: usize = end;
    while i > 0 && path.get_char(i - 1) != '/'
        invariant
            i <= end <= n,
            n == path@.len(),
            forall|j: int| i <= j < end ==> path@[j] != '/',
        decreases i,
    {
        i -= 1;
    }
    proof {
        assert(trimmed.len() == end as int);
        assert forall|j: int| i <= j < end implies trimmed[j] != '/' by {
            assert(trimmed[j] == path@[j]);
        }
        if i > 0 {
            assert(trimmed[i as int - 1] == path@[i as int - 1]);
        }
        lemma_last_segment_at(trimmed, i as int);
    }
    let seg = path.substring_char(i, end).to_owned();
    proof {
        assert(path@.subrange(i as int, end as int) =~= trimmed.subrange(
            i as int,
            trimmed.len() as int,
        ));
    }
    if seg.as_str().is_empty() {
        return None;
    }
    let dot = String::from_str(".");
    let dotdot = String::from_str("..");
    if seg.eq(&dot) || seg.eq(&dotdot) {
        return None;
    }
    Some(seg)
}

/// `value` with every hyphen replaced by an underscore.
pub fn replace_dashes(value: &str) -> (r: String)
    ensures
        r@ == value@.map_values(|c: char| dash_to_underscore(c)),
{
    let n = value.unicode_len();
    let mut r = String::new();
    let mut i: usize = 0;
    proof {
        assert(value@.subrange(0, 0) =~= Seq::<char>::empty());
        assert(value@.subrange(0, 0).map_values(|c: char| dash_to_underscore(c))
            =~= Seq::<char>::empty());
    }
    while i < n
        invariant
            i <= n,
            n == value@.len(),
            r@ == value@.subrange(0, i as int).map_values(|c: char| dash_to_underscore(c)),
        decreases n - i,
    {
        if value.get_char(i) == '-' {
            r.append("_");
            proof {
                reveal_strlit("_");
            }
        } else {
            let piece = value.substring_char(i, i + 1);
            proof {
                assert(value@.subrange(i as int, i as int + 1) =~= seq![value@[i as int]]);
            }
            r.append(piece);
        }
        proof {
            let f = |c: char| dash_to_underscore(c);
            assert(value@.subrange(0, i as int + 1).map_values(f) =~= value@.subrange(
                0,
                i as int,
            ).map_values(f).push(f(value@[i as int])));
        }
        i += 1;
    }
    proof {
        assert(value@.subrange(0, n as int) =~= value@);
    }
    r
}

} // verus!
