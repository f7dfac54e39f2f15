use vstd::prelude::*;
use crate::model::{ChangedFile, FileStatus};
use crate::text::{
    contains_text, ends_with, ends_with_text, has_text, top_dir, top_level_dir, views,
};

verus! {

/// The decimal text of a single digit.
pub open spec fn digit_text(d: int) -> Seq<char> {
    if d == 0 {
        "0"@
    } else if d == 1 {
        "1"@
    } else if d == 2 {
        "2"@
    } else if d == 3 {
        "3"@
    } else if d == 4 {
        "4"@
    } else if d == 5 {
        "5"@
    } else if d == 6 {
        "6"@
    } else if d == 7 {
        "7"@
    } else if d == 8 {
        "8"@
    } else {
        "9"@
    }
}

/// The decimal text of `n`, without leading zeros.
pub open spec fn decimal(n: nat) -> Seq<char>
    decreases n,
{
    if n < 10 {
        digit_text(n as int)
    } else {
        decimal(n / 10) + digit_text((n % 10) as int)
    }
}

pub open spec fn is_test_path(p: Seq<char>) -> bool {
    contains_text(p, "test"@) || contains_text(p, "spec"@)
}

pub open spec fn is_doc_path(p: Seq<char>) -> bool {
    ends_with_text(p, ".md"@) || ends_with_text(p, ".rst"@) || contains_text(p, "doc"@) || p
        == "README.md"@
}

pub open spec fn has_test_file(fs: Seq<ChangedFile>) -> bool {
    exists|i: int| 0 <= i < fs.len() && is_test_path(#[trigger] fs[i].filename@)
}

pub open spec fn has_doc_file(fs: Seq<ChangedFile>) -> bool {
    exists|i: int| 0 <= i < fs.len() && is_doc_path(#[trigger] fs[i].filename@)
}

/// The distinct top-level segments of the paths, in order of first appearance.
pub open spec fn dir_keys(fs: Seq<ChangedFile>) -> Seq<Seq<char>>
    decreases fs.len(),
{
    if fs.len() == 0 {
        Seq::empty()
    } else {
        let prev = dir_keys(fs.drop_last());
        let d = top_dir(fs.last().filename@);
        if prev.contains(d) {
            prev
        } else {
            prev.push(d)
        }
    }
}

/// How many files lie under the top-level segment `g`.
pub open spec fn count_in(fs: Seq<ChangedFile>, g: Seq<char>) -> nat
    decreases fs.len(),
{
    if fs.len() == 0 {
        0
    } else {
        count_in(fs.drop_last(), g) + if top_dir(fs.last().filename@) == g {
            1nat
        } else {
            0nat
        }
    }
}

/// How many files under `g` have status `st`.
pub open spec fn count_with(fs: Seq<ChangedFile>, g: Seq<char>, st: FileStatus) -> nat
    decreases fs.len(),
{
    if fs.len() == 0 {
        0
    } else {
        count_with(fs.drop_last(), g, st) + if top_dir(fs.last().filename@) == g
            && fs.last().status == st {
            1nat
        } else {
            0nat
        }
    }
}

/// The bullet for the group of files under `g`, if the group gives one.
pub open spec fn group_point(fs: Seq<ChangedFile>, g: Seq<char>) -> Option<Seq<char>> {
    let n = count_in(fs, g);
    if g.len() == 0 || n < 2 {
        None
    } else if count_with(fs, g, FileStatus::Added) == n {
        Some("- Added new "@ + g + " component/module"@)
    } else if count_with(fs, g, FileStatus::Removed) == n {
        Some("- Removed "@ + g + " component/module"@)
    } else if count_with(fs, g, FileStatus::Modified) > 0 {
        Some("- Updated "@ + g + " component/module"@)
    } else {
        None
    }
}

/// The bullets of the groups `ks`, in order.
pub open spec fn group_points(fs: Seq<ChangedFile>, ks: Seq<Seq<char>>) -> Seq<Seq<char>>
    decreases ks.len(),
{
    if ks.len() == 0 {
        Seq::empty()
    } else {
        let prev = group_points(fs, ks.drop_last());
        match group_point(fs, ks.last()) {
            Some(p) => prev.push(p),
            None => prev,
        }
    }
}

/// The bullets that the rules on tests, documentation and directories give.
pub open spec fn rule_points(fs: Seq<ChangedFile>) -> Seq<Seq<char>> {
    let t: Seq<Seq<char>> = if has_test_file(fs) {
        seq!["- Added or updated tests"@]
    } else {
        Seq::empty()
    };
    let d: Seq<Seq<char>> = if has_doc_file(fs) {
        seq!["- Updated documentation"@]
    } else {
        Seq::empty()
    };
    t + d + group_points(fs, dir_keys(fs))
}

/// The bullets inferred from the changed files alone.
pub open spec fn inferred_points(fs: Seq<ChangedFile>) -> Seq<Seq<char>> {
    let r = rule_points(fs);
    if r.len() == 0 && fs.len() > 0 {
        seq!["- Modified "@ + decimal(fs.len()) + " files"@]
    } else {
        r
    }
}

fn digit_str(d: usize) -> (r: &'static str)
    requires
        d < 10,
    ensures
        r@ == digit_text(d as int),
{
    if d == 0 {
        "0"
    } else if d == 1 {
        "1"
    } else if d == 2 {
        "2"
    } else if d == 3 {
        "3"
    } else if d == 4 {
        "4"
    } else if d == 5 {
        "5"
    } else if d == 6 {
        "6"
    } else if d == 7 {
        "7"
    } else if d == 8 {
        "8"
    } else {
        "9"
    }
}

/// Writes `n` in decimal.
pub fn decimal_string(n: usize) -> (r: String)
    ensures
        r@ == decimal(n as nat),
    decreases n,
{
    if n < 10 {
        String::from_str(digit_str(n))
    } else {
        let mut s = decimal_string(n / 10);
        s.append(digit_str(n % 10));
        s
    }
}

fn any_test_file(files: &[ChangedFile]) -> (r: bool)
    ensures
        r == has_test_file(files@),
{
    let mut i: usize = 0;
    while i < files.len()
        invariant
            i <= files@.len(),
            forall|j: int| 0 <= j < i ==> !is_test_path(#[trigger] files@[j].filename@),
        decreases files@.len() - i,
    {
        let name = files[i].filename.as_str();
        if has_text(name, "test") || has_text(name, "spec") {
            return true;
        }
        i = i + 1;
    }
    false
}

fn any_doc_file(files: &[ChangedFile]) -> (r: bool)
    ensures
        r == has_doc_file(files@),
{
    let mut i: usize = 0;
    while i < files.len()
        invariant
            i <= files@.len(),
            forall|j: int| 0 <= j < i ==> !is_doc_path(#[trigger] files@[j].filename@),
        decreases files@.len() - i,
    {
        let name = files[i].filename.as_str();
        let readme = String::from_str("README.md");
        if ends_with(name, ".md") || ends_with(name, ".rst") || has_text(name, "doc")
            || files[i].filename == readme {
            return true;
        }
        i = i + 1;
    }
    false
}

/// The distinct top-level segments of the paths, in order of first appearance.
fn collect_dirs(files: &[ChangedFile]) -> (r: Vec<String>)
    ensures
        views(r@) == dir_keys(files@),
{
    let mut keys: Vec<String> = Vec::new();
    let mut i: usize = 0;
    while i < files.len()
        invariant
            i <= files@.len(),
            views(keys@) == dir_keys(files@.take(i as int)),
        decreases files@.len() - i,
    {
        assert(files@.take(i + 1).drop_last() =~= files@.take(i as int));
        let d = top_level_dir(files[i].filename.as_str());
        let mut found = false;
        let mut j: usize = 0;
        while j < keys.len()
            invariant
                j <= keys@.len(),
                !found ==> forall|t: int| 0 <= t < j ==> keys@[t]@ != d@,
                found ==> views(keys@).contains(d@),
            decreases keys@.len() - j,
        {
            if keys[j] == d {
                found = true;
                assert(views(keys@)[j as int] == d@);
            }
            j = j + 1;
        }
        let ghost before = keys@;
        if !found {
            assert(!views(keys@).contains(d@));
            keys.push(d);
            assert(views(keys@) =~= views(before).push(d@));
        }
        i = i + 1;
    }
    assert(files@.take(files@.len() as int) =~= files@);
    keys
}

/// The bullet for the group of files under `g`.
fn point_for_group(files: &[ChangedFile], g: &String) -> (r: Option<String>)
    ensures
        match r {
            Some(p) => group_point(files@, g@) == Some(p@),
            None => group_point(files@, g@) is None,
        },
{
    let mut total: usize = 0;
    let mut added: usize = 0;
    let mut removed: usize = 0;
    let mut modified: usize = 0;
    let mut i: usize = 0;
    while i < files.len()
        invariant
            i <= files@.len(),
            total <= i,
            added <= i,
            removed <= i,
            modified <= i,
            total == count_in(files@.take(i as int), g@),
            added == count_with(files@.take(i as int), g@, FileStatus::Added),
            removed == count_with(files@.take(i as int), g@, FileStatus::Removed),
            modified == count_with(files@.take(i as int), g@, FileStatus::Modified),
        decreases files@.len() - i,
    {
        assert(files@.take(i + 1).drop_last() =~= files@.take(i as int));
        let d = top_level_dir(files[i].filename.as_str());
        if d == *g {
            total = total + 1;
            match files[i].status {
                FileStatus::Added => {
                    added = added + 1;
                },
                FileStatus::Removed => {
                    removed = removed + 1;
                },
                FileStatus::Modified => {
                    modified = modified + 1;
                },
                FileStatus::Renamed => {},
            }
        }
        i = i + 1;
    }
    assert(files@.take(files@.len() as int) =~= files@);
    if g.unicode_len() == 0 || total < 2 {
        return None;
    }
    let mut p = if added == total {
        String::from_str("- Added new ")
    } else if removed == total {
        String::from_str("- Removed ")
    } else if modified > 0 {
        String::from_str("- Updated ")
    } else {
        return None;
    };
    p.append(g.as_str());
    p.append(" component/module");
    Some(p)
}

/// Derives bullets from the structure of the changed-file list alone.
pub fn infer_changes_from_files(files: &[ChangedFile]) -> (r: Vec<String>)
    ensures
        views(r@) == inferred_points(files@),
{
    let mut points: Vec<String> = Vec::new();
    if any_test_file(files) {
        points.push(String::from_str("- Added or updated tests"));
    }
    if any_doc_file(files) {
        points.push(String::from_str("- Updated documentation"));
    }
    let ghost head = views(points@);
    let dirs = collect_dirs(files);
    let mut k: usize = 0;
    while k < dirs.len()
        invariant
            k <= dirs@.len(),
            views(dirs@) == dir_keys(files@),
            views(points@) == head + group_points(files@, views(dirs@).take(k as int)),
        decreases dirs@.len() - k,
    {
        assert(views(dirs@).take(k + 1).drop_last() =~= views(dirs@).take(k as int));
        assert(views(dirs@).take(k + 1).last() == dirs@[k as int]@);
        let ghost prev = views(points@);
        let p = point_for_group(files, &dirs[k]);
        match p {
            Some(q) => {
                points.push(q);
                assert(views(points@) =~= prev.push(q@));
            },
            None => {},
        }
        assert(views(points@) =~= head + group_points(files@, views(dirs@).take(k + 1)));
        k = k + 1;
    }
    assert(views(dirs@).take(dirs@.len() as int) =~= views(dirs@));
    assert(views(points@) =~= rule_points(files@));
    if points.len() == 0 && files.len() > 0 {
        let mut p = String::from_str("- Modified ");
        p.append(decimal_string(files.len()).as_str());
        p.append(" files");
        points.push(p);
        assert(views(points@) =~= inferred_points(files@));
    }
    points
}

} // verus!
