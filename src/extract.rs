use vstd::prelude::*;
use crate::text::{
    cut_trailing_spaces, is_digit, mark_end, skip_marks, skip_spaces, space_end, space_start,
    views,
};

verus! {

/// The most bullets that a description contributes.
pub const MAX_KEY_POINTS: usize = 5;

/// `s` cut at each `\n`; the last piece is what follows the last `\n`.
pub open spec fn split_lines(s: Seq<char>) -> Seq<Seq<char>>
    decreases s.len(),
{
    if s.len() == 0 {
        seq![Seq::empty()]
    } else {
        let prev = split_lines(s.drop_last());
        if s.last() == '\n' {
            prev.push(Seq::empty())
        } else {
            prev.update(prev.len() - 1, prev.last().push(s.last()))
        }
    }
}

/// Whether a trimmed line `line[a..b]` is written as a list item.
pub open spec fn is_list_item(line: Seq<char>, a: int, b: int) -> bool {
    a < b && (line[a] == '-' || line[a] == '*' || (a + 1 < b && is_digit(line[a]) && line[a
        + 1] == '.'))
}

/// The bullet that one line gives, if it is a list item with some text after its marker.
pub open spec fn line_point(line: Seq<char>) -> Option<Seq<char>> {
    let a = space_end(line, 0, line.len() as int);
    let b = space_start(line, a, line.len() as int);
    let m = mark_end(line, a, b);
    let c0 = space_end(line, m, b);
    let c1 = space_start(line, c0, b);
    if is_list_item(line, a, b) && c0 < c1 {
        Some("- "@ + line.subrange(c0, c1))
    } else {
        None
    }
}

/// The bullets of the lines, in order.
pub open spec fn line_points(lines: Seq<Seq<char>>) -> Seq<Seq<char>>
    decreases lines.len(),
{
    if lines.len() == 0 {
        Seq::empty()
    } else {
        let prev = line_points(lines.drop_last());
        match line_point(lines.last()) {
            Some(p) => prev.push(p),
            None => prev,
        }
    }
}

/// The key points of a description: its first five bullets.
pub open spec fn key_points(s: Seq<char>) -> Seq<Seq<char>> {
    let all = line_points(split_lines(s));
    if all.len() <= MAX_KEY_POINTS {
        all
    } else {
        all.take(MAX_KEY_POINTS as int)
    }
}

/// The bullet of one line.
fn point_of_line(line: &str) -> (r: Option<String>)
    ensures
        match r {
            Some(p) => line_point(line@) == Some(p@),
            None => line_point(line@) is None,
        },
{
    let n = line.unicode_len();
    let a = skip_spaces(line, 0, n);
    let b = cut_trailing_spaces(line, a, n);
    if a == b {
        return None;
    }
    let c = line.get_char(a);
    let numbered = a + 1 < b && '0' <= c && c <= '9' && line.get_char(a + 1) == '.';
    if !(c == '-' || c == '*' || numbered) {
        return None;
    }
    let m = skip_marks(line, a, b);
    let c0 = skip_spaces(line, m, b);
    let c1 = cut_trailing_spaces(line, c0, b);
    if c0 == c1 {
        return None;
    }
    let mut p = String::from_str("- ");
    p.append(line.substring_char(c0, c1));
    Some(p)
}

/// Collects the bullets that `description` already has, at most five, in order.
pub fn extract_key_points(description: &str) -> (r: Vec<String>)
    ensures
        views(r@) == key_points(description@),
        r@.len() <= MAX_KEY_POINTS,
{
    let ghost s = description@;
    let n = description.unicode_len();
    let mut points: Vec<String> = Vec::new();
    let ghost mut done: Seq<Seq<char>> = Seq::empty();
    let mut start: usize = 0;
    let mut i: usize = 0;
    assert(s.take(0) =~= Seq::<char>::empty());
    assert(done.push(s.subrange(0, 0)) =~= seq![Seq::<char>::empty()]);
    while i < n
        invariant
            n == s.len(),
            s == description@,
            start <= i <= n,
            split_lines(s.take(i as int)) == done.push(s.subrange(start as int, i as int)),
            views(points@) == line_points(done),
        decreases n - i,
    {
        let ghost old_done = done;
        assert(s.take(i + 1).drop_last() =~= s.take(i as int));
        if description.get_char(i) == '\n' {
            let line = description.substring_char(start, i);
            let p = point_of_line(line);
            proof {
                done = done.push(s.subrange(start as int, i as int));
            }
            assert(done.drop_last() =~= old_done);
            match p {
                Some(q) => {
                    points.push(q);
                    assert(views(points@) =~= line_points(done));
                },
                None => {},
            }
            start = i + 1;
            assert(s.subrange(start as int, i + 1) =~= Seq::<char>::empty());
        } else {
            assert(s.subrange(start as int, i + 1) =~= s.subrange(start as int, i as int).push(
                s[i as int],
            ));
        }
        assert(split_lines(s.take(i + 1)) =~= done.push(s.subrange(start as int, i + 1)));
        i = i + 1;
    }
    let ghost old_done = done;
    let line = description.substring_char(start, n);
    let p = point_of_line(line);
    proof {
        done = done.push(s.subrange(start as int, n as int));
    }
    assert(done.drop_last() =~= old_done);
    assert(s.take(n as int) =~= s);
    match p {
        Some(q) => {
            points.push(q);
            assert(views(points@) =~= line_points(done));
        },
        None => {},
    }
    if points.len() > MAX_KEY_POINTS {
        points.truncate(MAX_KEY_POINTS);
        assert(views(points@) =~= line_points(done).take(MAX_KEY_POINTS as int));
    }
    points
}

} // verus!
