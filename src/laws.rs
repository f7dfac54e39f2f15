use vstd::prelude::*;
use crate::extract::key_points;
use crate::infer::inferred_points;
use crate::model::ChangedFile;
use crate::summarizer::{
    affected_text, file_line, tag_of, join_lines, merge_new, summary_points, text_points, Summary,
    MIN_TEXT_POINTS,
};

verus! {

/// What `generate_summary` guarantees of its result `s` for a pull request.
pub open spec fn summarizes(
    title: Seq<char>,
    description: Seq<char>,
    fs: Seq<ChangedFile>,
    s: Summary,
) -> bool {
    &&& s.description@ == join_lines(summary_points(title, description, fs))
    &&& s.affected_files@ == affected_text(fs)
}

/// Two summaries of the same pull request are the same text: the result depends on
/// the title, the description and the changed files alone.
pub proof fn summary_is_deterministic(
    title: Seq<char>,
    description: Seq<char>,
    fs: Seq<ChangedFile>,
    s1: Summary,
    s2: Summary,
)
    requires
        summarizes(title, description, fs, s1),
        summarizes(title, description, fs, s2),
    ensures
        s1.description@ == s2.description@,
        s1.affected_files@ == s2.affected_files@,
{
}

/// Merging keeps `ps` in front, adds every bullet of `extra`, and adds none that is
/// already there.
pub proof fn merge_keeps_new_points_distinct(ps: Seq<Seq<char>>, extra: Seq<Seq<char>>)
    ensures
        merge_new(ps, extra).len() >= ps.len(),
        merge_new(ps, extra).take(ps.len() as int) == ps,
        forall|i: int, j: int|
            0 <= i < j < merge_new(ps, extra).len() && j >= ps.len() ==> merge_new(
                ps,
                extra,
            )[i] != merge_new(ps, extra)[j],
        forall|x: Seq<char>| extra.contains(x) ==> merge_new(ps, extra).contains(x),
    decreases extra.len(),
{
    if extra.len() > 0 {
        let prev = merge_new(ps, extra.drop_last());
        merge_keeps_new_points_distinct(ps, extra.drop_last());
        let m = merge_new(ps, extra);
        assert forall|x: Seq<char>| extra.contains(x) implies m.contains(x) by {
            let k = choose|k: int| 0 <= k < extra.len() && extra[k] == x;
            if k < extra.len() - 1 {
                assert(extra.drop_last()[k] == x);
                assert(extra.drop_last().contains(x));
                assert(prev.contains(x));
                let t = choose|t: int| 0 <= t < prev.len() && prev[t] == x;
                if !prev.contains(extra.last()) {
                    assert(m[t] == x);
                }
                assert(m.contains(x));
            } else if !prev.contains(extra.last()) {
                assert(m[prev.len() as int] == x);
            }
            assert(m.contains(x));
        }
        if !prev.contains(extra.last()) {
            assert(m.take(ps.len() as int) =~= prev.take(ps.len() as int));
            assert forall|i: int, j: int| 0 <= i < j < m.len() && j >= ps.len() implies m[i]
                != m[j] by {
                if j == prev.len() {
                    assert(m[i] == prev[i]);
                } else {
                    assert(m[i] == prev[i] && m[j] == prev[j]);
                }
            }
        }
    }
}

/// No inferred bullet repeats one that is already in the summary, be it the title's
/// bullet, a bullet of the description or an earlier inferred one; and when the text
/// gives too few bullets, every inferred bullet is in the summary.
pub proof fn inferred_points_are_not_duplicated(
    title: Seq<char>,
    description: Seq<char>,
    fs: Seq<ChangedFile>,
)
    ensures
        ({
            let t = text_points(title, description);
            let p = summary_points(title, description, fs);
            &&& p.take(t.len() as int) == t
            &&& forall|i: int, j: int| 0 <= i < j < p.len() && j >= t.len() ==> p[i] != p[j]
            &&& t.len() < MIN_TEXT_POINTS ==> forall|x: Seq<char>|
                inferred_points(fs).contains(x) ==> p.contains(x)
        }),
{
    let t = text_points(title, description);
    merge_keeps_new_points_distinct(t, inferred_points(fs));
    if t.len() >= MIN_TEXT_POINTS {
        assert(t.take(t.len() as int) =~= t);
    }
}

/// How many times `c` occurs in `s`.
pub open spec fn count_char(s: Seq<char>, c: char) -> nat
    decreases s.len(),
{
    if s.len() == 0 {
        0
    } else {
        count_char(s.drop_last(), c) + if s.last() == c {
            1nat
        } else {
            0nat
        }
    }
}

proof fn count_char_concat(a: Seq<char>, b: Seq<char>, c: char)
    ensures
        count_char(a + b, c) == count_char(a, c) + count_char(b, c),
    decreases b.len(),
{
    if b.len() > 0 {
        assert((a + b).drop_last() =~= a + b.drop_last());
        count_char_concat(a, b.drop_last(), c);
    } else {
        assert(a + b =~= a);
    }
}

proof fn count_char_absent(s: Seq<char>, c: char)
    requires
        !s.contains(c),
    ensures
        count_char(s, c) == 0,
    decreases s.len(),
{
    if s.len() > 0 {
        assert(s[s.len() - 1] == s.last());
        assert forall|i: int| 0 <= i < s.drop_last().len() implies s.drop_last()[i] != c by {
            assert(s.drop_last()[i] == s[i]);
        }
        count_char_absent(s.drop_last(), c);
    }
}

proof fn file_line_has_one_newline(f: ChangedFile)
    requires
        !f.filename@.contains('\n'),
    ensures
        count_char(file_line(f), '\n') == 1,
{
    reveal_strlit("[+]");
    reveal_strlit("[M]");
    reveal_strlit("[-]");
    reveal_strlit("[R]");
    reveal_strlit(" ");
    reveal_strlit("\n");
    let t = tag_of(f.status);
    assert(count_char(t, '\n') == 0) by {
        assert(!t.contains('\n'));
        count_char_absent(t, '\n');
    }
    assert(count_char(" "@, '\n') == 0) by {
        assert(!" "@.contains('\n'));
        count_char_absent(" "@, '\n');
    }
    count_char_absent(f.filename@, '\n');
    assert(count_char("\n"@, '\n') == 1) by {
        reveal_strlit("\n");
        assert("\n"@.len() == 1);
        assert("\n"@.last() == '\n');
        assert("\n"@.drop_last() =~= Seq::<char>::empty());
        assert(count_char(Seq::<char>::empty(), '\n') == 0);
    }
    count_char_concat(t, " "@, '\n');
    count_char_concat(t + " "@, f.filename@, '\n');
    count_char_concat(t + " "@ + f.filename@, "\n"@, '\n');
}

/// The listing of changed files has one line per file: where no name holds a line
/// break, it holds exactly as many line breaks as there are files, and the listing of
/// the first `k + 1` files is that of the first `k` followed by the line of file `k`,
/// which is its status tag, a space, its name and a line break.
pub proof fn affected_files_one_line_each(fs: Seq<ChangedFile>)
    requires
        forall|i: int| 0 <= i < fs.len() ==> !(#[trigger] fs[i]).filename@.contains('\n'),
    ensures
        count_char(affected_text(fs), '\n') == fs.len(),
        forall|k: int|
            0 <= k < fs.len() ==> affected_text(#[trigger] fs.take(k + 1)) == affected_text(
                fs.take(k),
            ) + tag_of(fs[k].status) + " "@ + fs[k].filename@ + "\n"@,
    decreases fs.len(),
{
    assert forall|k: int| 0 <= k < fs.len() implies affected_text(#[trigger] fs.take(k + 1))
        == affected_text(fs.take(k)) + tag_of(fs[k].status) + " "@ + fs[k].filename@
        + "\n"@ by {
        assert(fs.take(k + 1).drop_last() =~= fs.take(k));
    }
    if fs.len() > 0 {
        let prev = fs.drop_last();
        assert forall|i: int| 0 <= i < prev.len() implies !(#[trigger] prev[i]).filename@.contains(
            '\n',
        ) by {
            assert(prev[i] == fs[i]);
        }
        affected_files_one_line_each(prev);
        assert(fs[fs.len() - 1] == fs.last());
        file_line_has_one_newline(fs.last());
        count_char_concat(affected_text(prev), file_line(fs.last()), '\n');
    }
}

proof fn affected_text_concat(a: Seq<ChangedFile>, b: Seq<ChangedFile>)
    ensures
        affected_text(a + b) == affected_text(a) + affected_text(b),
    decreases b.len(),
{
    if b.len() == 0 {
        assert(a + b =~= a);
        assert(affected_text(a) + Seq::<char>::empty() =~= affected_text(a));
    } else {
        assert((a + b).drop_last() =~= a + b.drop_last());
        affected_text_concat(a, b.drop_last());
        assert(affected_text(a) + affected_text(b.drop_last()) + file_line(b.last())
            =~= affected_text(a) + (affected_text(b.drop_last()) + file_line(b.last())));
    }
}

/// Line `k` of the listing belongs to file `k`: the listing is that of the files before
/// it, which holds exactly `k` line breaks where no name holds one, then the line of
/// file `k` (its status tag, a space, its name, a line break), then the listing of the
/// files after it.
pub proof fn affected_files_line_k_is_file_k(fs: Seq<ChangedFile>, k: int)
    requires
        0 <= k < fs.len(),
        forall|i: int| 0 <= i < fs.len() ==> !(#[trigger] fs[i]).filename@.contains('\n'),
    ensures
        affected_text(fs) == affected_text(fs.take(k)) + (tag_of(fs[k].status) + " "@
            + fs[k].filename@ + "\n"@) + affected_text(fs.skip(k + 1)),
        count_char(affected_text(fs.take(k)), '\n') == k,
{
    let before = fs.take(k);
    let one = seq![fs[k]];
    let after = fs.skip(k + 1);
    assert(fs =~= before + one + after);
    affected_text_concat(before + one, after);
    affected_text_concat(before, one);
    assert(one.drop_last() =~= Seq::<ChangedFile>::empty());
    assert(one.last() == fs[k]);
    assert(affected_text(one.drop_last()) == Seq::<char>::empty());
    assert(Seq::<char>::empty() + file_line(fs[k]) =~= file_line(fs[k]));
    assert(affected_text(one) =~= file_line(fs[k]));
    assert forall|i: int| 0 <= i < before.len() implies !(#[trigger] before[i]).filename@.contains(
        '\n',
    ) by {
        assert(before[i] == fs[i]);
    }
    affected_files_one_line_each(before);
}

/// When the title gives the only bullet of the text, the title's bullet comes first
/// and no other bullet of the summary equals it, even where the files infer the same
/// bullet.
pub proof fn title_point_appears_once(
    title: Seq<char>,
    description: Seq<char>,
    fs: Seq<ChangedFile>,
)
    requires
        title.len() > 0,
        description.len() == 0 || key_points(description).len() == 0,
    ensures
        ({
            let p = summary_points(title, description, fs);
            &&& p.len() >= 1
            &&& p[0] == "- "@ + title
            &&& forall|j: int| 0 < j < p.len() ==> #[trigger] p[j] != p[0]
        }),
{
    let t = text_points(title, description);
    if description.len() > 0 {
        assert(t =~= seq!["- "@ + title]);
    }
    assert(t.len() == 1);
    inferred_points_are_not_duplicated(title, description, fs);
    let p = summary_points(title, description, fs);
    assert(p.take(1)[0] == p[0]);
    assert forall|j: int| 0 < j < p.len() implies #[trigger] p[j] != p[0] by {
        assert(0 <= 0 < j < p.len() && j >= t.len());
    }
}

} // verus!
