use vstd::prelude::*;
use crate::extract::{extract_key_points, key_points};
use crate::text::views;
use crate::infer::{infer_changes_from_files, inferred_points};
use crate::model::{ChangedFile, FileStatus, PrInfo};

verus! {

/// Fewer bullets than this from title and description call for inferred ones.
pub const MIN_TEXT_POINTS: usize = 2;

/// The rendered summary of a pull request.
pub struct Summary {
    pub description: String,
    pub affected_files: String,
}

/// The three-character tag of a status.
pub open spec fn tag_of(st: FileStatus) -> Seq<char> {
    match st {
        FileStatus::Added => "[+]"@,
        FileStatus::Modified => "[M]"@,
        FileStatus::Removed => "[-]"@,
        FileStatus::Renamed => "[R]"@,
    }
}

/// The line that lists one changed file.
pub open spec fn file_line(f: ChangedFile) -> Seq<char> {
    tag_of(f.status) + " "@ + f.filename@ + "\n"@
}

/// One line per file, in order.
pub open spec fn affected_text(fs: Seq<ChangedFile>) -> Seq<char>
    decreases fs.len(),
{
    if fs.len() == 0 {
        Seq::empty()
    } else {
        affected_text(fs.drop_last()) + file_line(fs.last())
    }
}

/// The bullets joined by `\n`, with none after the last.
pub open spec fn join_lines(ps: Seq<Seq<char>>) -> Seq<char>
    decreases ps.len(),
{
    if ps.len() == 0 {
        Seq::empty()
    } else if ps.len() == 1 {
        ps[0]
    } else {
        join_lines(ps.drop_last()) + "\n"@ + ps.last()
    }
}

/// `ps` followed by each of `extra` that is not there yet.
pub open spec fn merge_new(ps: Seq<Seq<char>>, extra: Seq<Seq<char>>) -> Seq<Seq<char>>
    decreases extra.len(),
{
    if extra.len() == 0 {
        ps
    } else {
        let prev = merge_new(ps, extra.drop_last());
        if prev.contains(extra.last()) {
            prev
        } else {
            prev.push(extra.last())
        }
    }
}

/// The bullets that title and description give.
pub open spec fn text_points(title: Seq<char>, description: Seq<char>) -> Seq<Seq<char>> {
    let t: Seq<Seq<char>> = if title.len() > 0 {
        seq!["- "@ + title]
    } else {
        Seq::empty()
    };
    if description.len() > 0 {
        t + key_points(description)
    } else {
        t
    }
}

/// All bullets of a summary.
pub open spec fn summary_points(
    title: Seq<char>,
    description: Seq<char>,
    fs: Seq<ChangedFile>,
) -> Seq<Seq<char>> {
    let t = text_points(title, description);
    if t.len() < MIN_TEXT_POINTS {
        merge_new(t, inferred_points(fs))
    } else {
        t
    }
}

/// Lists the changed files, one line each: its status tag, a space, its name.
pub fn format_affected_files(files: &[ChangedFile]) -> (r: String)
    ensures
        r@ == affected_text(files@),
{
    let mut result = String::new();
    let mut i: usize = 0;
    while i < files.len()
        invariant
            i <= files@.len(),
            result@ == affected_text(files@.take(i as int)),
        decreases files@.len() - i,
    {
        assert(files@.take(i + 1).drop_last() =~= files@.take(i as int));
        let tag = match files[i].status {
            FileStatus::Added => "[+]",
            FileStatus::Modified => "[M]",
            FileStatus::Removed => "[-]",
            FileStatus::Renamed => "[R]",
        };
        result.append(tag);
        result.append(" ");
        result.append(files[i].filename.as_str());
        result.append("\n");
        assert(result@ =~= affected_text(files@.take(i + 1)));
        i = i + 1;
    }
    assert(files@.take(files@.len() as int) =~= files@);
    result
}

fn join_points(points: &Vec<String>) -> (r: String)
    ensures
        r@ == join_lines(views(points@)),
{
    let mut result = String::new();
    let mut i: usize = 0;
    while i < points.len()
        invariant
            i <= points@.len(),
            result@ == join_lines(views(points@).take(i as int)),
        decreases points@.len() - i,
    {
        assert(views(points@).take(i + 1).drop_last() =~= views(points@).take(i as int));
        if i > 0 {
            result.append("\n");
        }
        result.append(points[i].as_str());
        assert(result@ =~= join_lines(views(points@).take(i + 1)));
        i = i + 1;
    }
    assert(views(points@).take(points@.len() as int) =~= views(points@));
    result
}

/// Whether an equal bullet is already among `points`.
fn holds_point(points: &Vec<String>, p: &String) -> (r: bool)
    ensures
        r == views(points@).contains(p@),
{
    let mut i: usize = 0;
    while i < points.len()
        invariant
            i <= points@.len(),
            forall|t: int| 0 <= t < i ==> points@[t]@ != p@,
        decreases points@.len() - i,
    {
        if points[i] == *p {
            assert(views(points@)[i as int] == p@);
            return true;
        }
        i = i + 1;
    }
    false
}

/// Turns a pull request into its bullet summary and its list of changed files.
pub fn generate_summary(pr_info: &PrInfo) -> (r: Summary)
    ensures
        r.description@ == join_lines(
            summary_points(pr_info.title@, pr_info.description@, pr_info.changed_files@),
        ),
        r.affected_files@ == affected_text(pr_info.changed_files@),
{
    let mut points: Vec<String> = Vec::new();
    if pr_info.title.unicode_len() > 0 {
        let mut t = String::from_str("- ");
        t.append(pr_info.title.as_str());
        points.push(t);
    }
    if pr_info.description.unicode_len() > 0 {
        let extracted = extract_key_points(pr_info.description.as_str());
        let ghost before = views(points@);
        let mut k: usize = 0;
        while k < extracted.len()
            invariant
                k <= extracted@.len(),
                views(points@) == before + views(extracted@).take(k as int),
            decreases extracted@.len() - k,
        {
            let ghost prev = views(points@);
            points.push(extracted[k].clone());
            assert(views(points@) =~= prev.push(extracted@[k as int]@));
            assert(views(extracted@).take(k + 1) =~= views(extracted@).take(k as int).push(
                extracted@[k as int]@,
            ));
            assert(views(points@) =~= before + views(extracted@).take(k + 1));
            k = k + 1;
        }
        assert(views(extracted@).take(extracted@.len() as int) =~= views(extracted@));
    }
    assert(views(points@) =~= text_points(pr_info.title@, pr_info.description@));
    if points.len() < MIN_TEXT_POINTS {
        let inferred = infer_changes_from_files(pr_info.changed_files.as_slice());
        let ghost base = views(points@);
        let mut k: usize = 0;
        while k < inferred.len()
            invariant
                k <= inferred@.len(),
                views(points@) == merge_new(base, views(inferred@).take(k as int)),
            decreases inferred@.len() - k,
        {
            assert(views(inferred@).take(k + 1).drop_last() =~= views(inferred@).take(k as int));
            let ghost prev = views(points@);
            if !holds_point(&points, &inferred[k]) {
                points.push(inferred[k].clone());
                assert(views(points@) =~= prev.push(inferred@[k as int]@));
            }
            k = k + 1;
        }
        assert(views(inferred@).take(inferred@.len() as int) =~= views(inferred@));
    }
    let description = join_points(&points);
    let affected_files = format_affected_files(pr_info.changed_files.as_slice());
    Summary { description, affected_files }
}

} // verus!
