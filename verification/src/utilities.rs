use vstd::prelude::*;

use crate::text::{lemma_split_nonempty, path_join, replace_all, replace_text, split_on};

verus! {

/// Whether a piece between two `/` names a path component: the empty pieces
/// that repeated or trailing separators leave, and `.`, do not.
pub open spec fn is_component(piece: Seq<char>) -> bool {
    piece.len() > 0 && piece != seq!['.']
}

/// The pieces that name components, in order.
pub open spec fn components(pieces: Seq<Seq<char>>) -> Seq<Seq<char>>
    decreases pieces.len(),
{
    if pieces.len() == 0 {
        pieces
    } else if is_component(pieces.last()) {
        components(pieces.drop_last()).push(pieces.last())
    } else {
        components(pieces.drop_last())
    }
}

/// Whether a path text starts at the root.
pub open spec fn has_root(p: Seq<char>) -> bool {
    p.len() > 0 && p[0] == '/'
}

/// Whether a relative path text starts with the current folder, `.`: this
/// first `.` is a component of its own, where any later `.` is dropped.
pub open spec fn starts_with_cur_dir(p: Seq<char>) -> bool {
    !has_root(p) && split_on(p, '/')[0] == seq!['.']
}

/// Whether two path texts name the same path, as `std::path::Path` equality
/// decides it on Unix: paths are compared by their components, after the
/// normalization that `Path::components` documents (repeated separators, a
/// trailing separator, and `.` other than at the start are ignored).
pub open spec fn same_path(a: Seq<char>, b: Seq<char>) -> bool {
    &&& has_root(a) == has_root(b)
    &&& starts_with_cur_dir(a) == starts_with_cur_dir(b)
    &&& components(split_on(a, '/')) == components(split_on(b, '/'))
}

/// Calls `<std::path::Path as PartialEq>::eq` on the two texts taken as
/// paths. Paths compare by their components; the contract states the
/// component comparison that `Path::components` documents for Unix (see
/// `same_path`).
#[verifier::external_body]
pub(crate) fn paths_equal(a: &str, b: &str) -> (same: bool)
    ensures
        same == same_path(a@, b@),
{
    std::path::Path::new(a) == std::path::Path::new(b)
}

/// Splitting a text that is empty or ends in `/`, then a piece without `/`,
/// gives the pieces of the first text with its last (empty) piece replaced by
/// that piece.
proof fn lemma_split_after_separator(x: Seq<char>, q: Seq<char>)
    requires
        x.len() == 0 || x.last() == '/',
        !q.contains('/'),
    ensures
        split_on(x + q, '/') == split_on(x, '/').drop_last().push(q),
    decreases q.len(),
{
    lemma_split_nonempty(x, '/');
    if q.len() == 0 {
        assert(q =~= Seq::<char>::empty());
        assert(x + q =~= x);
        if x.len() == 0 {
            assert(split_on(x, '/') =~= seq![Seq::<char>::empty()]);
        } else {
            assert(split_on(x, '/').last() =~= Seq::<char>::empty());
        }
        assert(split_on(x, '/').drop_last().push(q) =~= split_on(x, '/'));
    } else {
        let shorter = q.drop_last();
        assert(!shorter.contains('/')) by {
            if shorter.contains('/') {
                let k = choose|k: int| 0 <= k < shorter.len() && shorter[k] == '/';
                assert(q[k] == '/');
            }
        }
        lemma_split_after_separator(x, shorter);
        assert((x + q).drop_last() =~= x + shorter);
        assert((x + q).last() == q.last());
        assert(q.last() != '/') by {
            assert(q[q.len() - 1] == q.last());
        }
        let before = split_on(x + shorter, '/');
        assert(split_on(x + q, '/') == before.update(before.len() - 1, before.last().push(q.last())));
        assert(shorter.push(q.last()) =~= q);
        assert(split_on(x + q, '/') =~= split_on(x, '/').drop_last().push(q));
    }
}

/// The components of a path text that is empty or ends in `/`, followed by a
/// component name, end with that name.
proof fn lemma_last_component(x: Seq<char>, name: Seq<char>)
    requires
        x.len() == 0 || x.last() == '/',
        !name.contains('/'),
        is_component(name),
    ensures
        components(split_on(x + name, '/')).len() > 0,
        components(split_on(x + name, '/')).last() == name,
{
    lemma_split_after_separator(x, name);
    let pieces = split_on(x + name, '/');
    assert(pieces.last() == name);
    assert(pieces.drop_last() =~= split_on(x, '/').drop_last());
}

/// Law: `base` joined with two different component names gives two different
/// paths.
pub proof fn lemma_joined_names_differ(base: Seq<char>, first: Seq<char>, second: Seq<char>)
    requires
        !first.contains('/'),
        !second.contains('/'),
        is_component(first),
        is_component(second),
        first != second,
    ensures
        !same_path(path_join(base, first), path_join(base, second)),
{
    let x = if base.len() == 0 || base.last() == '/' { base } else { base + seq!['/'] };
    assert((x + seq!['/']).len() > 0);
    if !(base.len() == 0 || base.last() == '/') {
        assert(x.last() == '/');
    }
    assert(first[0] != '/');
    assert(second[0] != '/');
    assert(path_join(base, first) =~= x + first);
    assert(path_join(base, second) =~= x + second);
    lemma_last_component(x, first);
    lemma_last_component(x, second);
}

/// Whether `y` has the shape of a year as chrono writes `%Y`: at least four
/// characters, all ASCII digits except that the first may be a sign.
pub open spec fn is_year_text(y: Seq<char>) -> bool {
    &&& y.len() >= 4
    &&& ('0' <= y[0] <= '9' || y[0] == '+' || y[0] == '-')
    &&& forall|i: int| 1 <= i < y.len() ==> '0' <= #[trigger] y[i] <= '9'
}

/// Reads the clock with `std::time::SystemTime::now`, turns it into a
/// `chrono::DateTime<chrono::Utc>` and formats its year with chrono's `%Y`
/// (`DateTime::format`, then `to_string`). The contract states only the
/// shape that chrono documents for `%Y`; the year itself depends on the clock
/// and is not stated. chrono's conversion panics on a clock more than about
/// 262000 years from 1970, which no `requires` can rule out.
#[verifier::external_body]
fn current_year_text() -> (year: String)
    ensures
        is_year_text(year@),
{
    let now: chrono::DateTime<chrono::Utc> = std::time::SystemTime::now().into();
    now.format("%Y").to_string()
}

/// The placeholder for the current year in a content folder path.
pub open spec fn year_placeholder() -> Seq<char> {
    "{YEAR}"@
}

/// `content_root` with every `{YEAR}` replaced by `year`.
pub fn interpolate_year(content_root: &str, year: &str) -> (path: String)
    ensures
        path@ == replace_all(content_root@, year_placeholder(), year@),
{
    proof {
        reveal_strlit("{YEAR}");
    }
    replace_text(content_root, "{YEAR}", year)
}

/// `content_root` with every `{YEAR}` replaced by the current year, as
/// chrono writes it for `%Y`.
pub fn interpolate_content_folder_path(content_root: String) -> (path: String)
    ensures
        exists|year: Seq<char>|
            is_year_text(year) && path@ == replace_all(content_root@, year_placeholder(), year),
{
    let year = current_year_text();
    interpolate_year(content_root.as_str(), year.as_str())
}

} // verus!
