use vstd::prelude::*;
use vstd::string::*;

verus! {

/// `part` appended to `base` the way a Unix path join does it: an absolute
/// `part` replaces `base`; otherwise one `/` goes between the two, unless
/// `base` is empty or already ends in `/`.
pub open spec fn path_join(base: Seq<char>, part: Seq<char>) -> Seq<char> {
    if part.len() > 0 && part[0] == '/' {
        part
    } else if base.len() == 0 || base.last() == '/' {
        base + part
    } else {
        base + seq!['/'] + part
    }
}

/// Joins two path texts (see `path_join`).
pub fn join_path(base: &str, part: &str) -> (joined: String)
    ensures
        joined@ == path_join(base@, part@),
{
    let part_len = part.unicode_len();
    if part_len > 0 && part.get_char(0) == '/' {
        return part.to_owned();
    }
    let base_len = base.unicode_len();
    let mut joined = String::from_str(base);
    if base_len > 0 && base.get_char(base_len - 1) != '/' {
        proof {
            reveal_strlit("/");
        }
        joined.append("/");
    }
    joined.append(part);
    joined
}

/// The pieces of `s` between the occurrences of `sep`, in order: the empty
/// text gives one empty piece, and two separators in a row give an empty
/// piece between them.
pub open spec fn split_on(s: Seq<char>, sep: char) -> Seq<Seq<char>>
    decreases s.len(),
{
    if s.len() == 0 {
        seq![Seq::<char>::empty()]
    } else {
        let pieces = split_on(s.drop_last(), sep);
        if s.last() == sep {
            pieces.push(Seq::<char>::empty())
        } else {
            pieces.update(pieces.len() - 1, pieces.last().push(s.last()))
        }
    }
}

/// The pieces joined back together, `sep` between each two of them.
pub open spec fn join_with(pieces: Seq<Seq<char>>, sep: char) -> Seq<char>
    decreases pieces.len(),
{
    if pieces.len() == 0 {
        Seq::<char>::empty()
    } else if pieces.len() == 1 {
        pieces[0]
    } else {
        join_with(pieces.drop_last(), sep).push(sep) + pieces.last()
    }
}

/// Splitting always gives at least one piece.
pub proof fn lemma_split_nonempty(s: Seq<char>, sep: char)
    ensures
        split_on(s, sep).len() >= 1,
    decreases s.len(),
{
    if s.len() > 0 {
        lemma_split_nonempty(s.drop_last(), sep);
    }
}

/// Joining a list whose last piece grew by one character gives the joined
/// text grown by that character.
proof fn lemma_join_extend_last(pieces: Seq<Seq<char>>, sep: char, c: char)
    requires
        pieces.len() >= 1,
    ensures
        join_with(pieces.update(pieces.len() - 1, pieces.last().push(c)), sep)
            == join_with(pieces, sep).push(c),
{
    let grown = pieces.update(pieces.len() - 1, pieces.last().push(c));
    if pieces.len() == 1 {
        assert(grown[0] == pieces[0].push(c));
    } else {
        assert(grown.drop_last() =~= pieces.drop_last());
        assert(grown.last() == pieces.last().push(c));
        assert(join_with(grown, sep) == join_with(pieces.drop_last(), sep).push(sep) + pieces.last().push(c));
        assert((join_with(pieces.drop_last(), sep).push(sep) + pieces.last()).push(c)
            =~= join_with(pieces.drop_last(), sep).push(sep) + pieces.last().push(c));
    }
}

/// Law: joining the pieces of a split with the separator gives back the
/// text that was split, and no piece holds the separator.
pub proof fn lemma_split_join_roundtrip(s: Seq<char>, sep: char)
    ensures
        join_with(split_on(s, sep), sep) == s,
        forall|i: int|
            0 <= i < split_on(s, sep).len() ==> !(#[trigger] split_on(s, sep)[i]).contains(sep),
    decreases s.len(),
{
    if s.len() == 0 {
        assert(join_with(split_on(s, sep), sep) =~= s);
        assert forall|i: int| 0 <= i < split_on(s, sep).len() implies !(#[trigger] split_on(
            s,
            sep,
        )[i]).contains(sep) by {
            assert(split_on(s, sep)[i] =~= Seq::<char>::empty());
        }
    } else {
        let rest = s.drop_last();
        lemma_split_join_roundtrip(rest, sep);
        lemma_split_nonempty(rest, sep);
        let pieces = split_on(rest, sep);
        if s.last() == sep {
            let grown = pieces.push(Seq::<char>::empty());
            assert(grown.drop_last() =~= pieces);
            assert(join_with(grown, sep) =~= s);
            assert forall|i: int| 0 <= i < grown.len() implies !(#[trigger] grown[i]).contains(sep) by {
                if i < pieces.len() {
                    assert(grown[i] == pieces[i]);
                } else {
                    assert(grown[i] =~= Seq::<char>::empty());
                }
            }
        } else {
            lemma_join_extend_last(pieces, sep, s.last());
            let grown = pieces.update(pieces.len() - 1, pieces.last().push(s.last()));
            assert(rest.push(s.last()) =~= s);
            assert forall|i: int| 0 <= i < grown.len() implies !(#[trigger] grown[i]).contains(sep) by {
                if i < pieces.len() - 1 {
                    assert(grown[i] == pieces[i]);
                } else {
                    let last = pieces.last();
                    assert(!last.contains(sep));
                    if grown[i].contains(sep) {
                        let k = choose|k: int| 0 <= k < grown[i].len() && grown[i][k] == sep;
                        assert(grown[i] == last.push(s.last()));
                        if k < last.len() {
                            assert(last[k] == sep);
                        }
                    }
                }
            }
        }
    }
}

/// Splits `s` at every `sep` (see `split_on`).
pub fn split_text(s: &str, sep: char) -> (pieces: Vec<String>)
    ensures
        pieces@.map_values(|p: String| p@) == split_on(s@, sep),
{
    let n = s.unicode_len();
    let mut pieces: Vec<String> = Vec::new();
    let mut start: usize = 0;
    let mut i: usize = 0;
    proof {
        assert(s@.take(0) =~= Seq::<char>::empty());
        assert(pieces@.map_values(|p: String| p@) =~= Seq::<Seq<char>>::empty());
        assert(pieces@.map_values(|p: String| p@).push(s@.subrange(0, 0)) =~= split_on(s@.take(0), sep));
    }
    while i < n
        invariant
            n == s@.len(),
            start <= i <= n,
            pieces@.map_values(|p: String| p@).push(s@.subrange(start as int, i as int))
                == split_on(s@.take(i as int), sep),
        decreases n - i,
    {
        let c = s.get_char(i);
        proof {
            assert(s@.take(i + 1).drop_last() =~= s@.take(i as int));
            assert(s@.take(i + 1).last() == c);
        }
        if c == sep {
            let piece = s.substring_char(start, i).to_owned();
            let ghost before = pieces@.map_values(|p: String| p@);
            pieces.push(piece);
            proof {
                assert(pieces@.map_values(|p: String| p@) =~= before.push(s@.subrange(start as int, i as int)));
                assert(s@.subrange(i + 1, i + 1) =~= Seq::<char>::empty());
            }
            start = i + 1;
        } else {
            proof {
                let v = pieces@.map_values(|p: String| p@);
                let old_list = v.push(s@.subrange(start as int, i as int));
                assert(s@.subrange(start as int, i + 1) =~= s@.subrange(start as int, i as int).push(c));
                assert(v.push(s@.subrange(start as int, i + 1)) =~= old_list.update(
                    old_list.len() - 1,
                    old_list.last().push(c),
                ));
            }
        }
        i = i + 1;
    }
    let last = s.substring_char(start, n).to_owned();
    let ghost before = pieces@.map_values(|p: String| p@);
    pieces.push(last);
    proof {
        assert(s@.take(n as int) =~= s@);
        assert(pieces@.map_values(|p: String| p@) =~= before.push(s@.subrange(start as int, n as int)));
    }
    pieces
}

/// `s` with every occurrence of `pat` replaced by `rep`, the occurrences
/// taken from left to right without overlap.
pub open spec fn replace_all(s: Seq<char>, pat: Seq<char>, rep: Seq<char>) -> Seq<char>
    decreases s.len(),
{
    if s.len() == 0 {
        s
    } else if 0 < pat.len() <= s.len() && s.take(pat.len() as int) == pat {
        rep + replace_all(s.skip(pat.len() as int), pat, rep)
    } else {
        seq![s[0]] + replace_all(s.skip(1), pat, rep)
    }
}

/// Whether `pat` occurs in `s` at some position.
pub open spec fn occurs_in(s: Seq<char>, pat: Seq<char>) -> bool {
    exists|i: int| 0 <= i && i + pat.len() <= s.len() && #[trigger] s.subrange(i, i + pat.len()) == pat
}

/// Law: a text in which the pattern does not occur is left as it stands.
pub proof fn lemma_replace_without_occurrence(s: Seq<char>, pat: Seq<char>, rep: Seq<char>)
    requires
        pat.len() > 0,
        !occurs_in(s, pat),
    ensures
        replace_all(s, pat, rep) == s,
    decreases s.len(),
{
    if s.len() > 0 {
        if pat.len() <= s.len() {
            assert(s.take(pat.len() as int) =~= s.subrange(0, pat.len() as int));
            let i: int = 0;
            assert(s.subrange(i, i + pat.len()) != pat);
            assert(s.take(pat.len() as int) != pat);
        }
        let rest = s.skip(1);
        assert forall|i: int| 0 <= i && i + pat.len() <= rest.len() implies #[trigger] rest.subrange(
            i,
            i + pat.len(),
        ) != pat by {
            assert(rest.subrange(i, i + pat.len()) =~= s.subrange(i + 1, i + 1 + pat.len()));
        }
        lemma_replace_without_occurrence(rest, pat, rep);
        assert(seq![s[0]] + rest =~= s);
    }
}

/// Replaces every occurrence of a non-empty `pat` in `s` by `rep`
/// (see `replace_all`).
pub fn replace_text(s: &str, pat: &str, rep: &str) -> (replaced: String)
    requires
        pat@.len() > 0,
    ensures
        replaced@ == replace_all(s@, pat@, rep@),
{
    let n = s.unicode_len();
    let m = pat.unicode_len();
    let pat_text = pat.to_owned();
    let mut replaced = String::new();
    let mut start: usize = 0;
    let mut i: usize = 0;
    proof {
        assert(s@.skip(0) =~= s@);
        assert(replace_all(s@, pat@, rep@) =~= replaced@ + s@.subrange(0, 0) + replace_all(s@.skip(0), pat@, rep@));
    }
    while i < n
        invariant
            n == s@.len(),
            m == pat@.len(),
            m > 0,
            pat_text@ == pat@,
            start <= i <= n,
            replace_all(s@, pat@, rep@) == replaced@ + s@.subrange(start as int, i as int)
                + replace_all(s@.skip(i as int), pat@, rep@),
        decreases n - i,
    {
        let ghost rest = s@.skip(i as int);
        let found = if m <= n - i {
            let window = s.substring_char(i, i + m).to_owned();
            window == pat_text
        } else {
            false
        };
        if found {
            proof {
                assert(rest.take(m as int) =~= s@.subrange(i as int, i + m));
                assert(rest.skip(m as int) =~= s@.skip(i + m));
            }
            replaced.append(s.substring_char(start, i));
            replaced.append(rep);
            proof {
                assert(s@.subrange(i + m, i + m) =~= Seq::<char>::empty());
            }
            i = i + m;
            start = i;
            proof {
                assert(replace_all(s@, pat@, rep@) =~= replaced@ + s@.subrange(start as int, i as int)
                    + replace_all(s@.skip(i as int), pat@, rep@));
            }
        } else {
            proof {
                if m <= n - i {
                    assert(rest.take(m as int) =~= s@.subrange(i as int, i + m));
                }
                assert(rest.skip(1) =~= s@.skip(i + 1));
                assert(rest[0] == s@[i as int]);
                assert(s@.subrange(start as int, i + 1) =~= s@.subrange(start as int, i as int)
                    + seq![s@[i as int]]);
            }
            i = i + 1;
            proof {
                assert(replace_all(s@, pat@, rep@) =~= replaced@ + s@.subrange(start as int, i as int)
                    + replace_all(s@.skip(i as int), pat@, rep@));
            }
        }
    }
    replaced.append(s.substring_char(start, n));
    proof {
        assert(s@.skip(n as int) =~= Seq::<char>::empty());
        assert(replaced@ =~= replace_all(s@, pat@, rep@));
    }
    replaced
}

} // verus!
