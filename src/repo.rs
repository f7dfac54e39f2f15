use vstd::prelude::*;
use crate::text::slash_index;

verus! {

/// Whether `s` has the shape `OWNER/REPO`: exactly one `/`.
pub open spec fn is_repository_path(s: Seq<char>) -> bool {
    let k = slash_index(s, 0);
    k < s.len() && slash_index(s, k + 1) == s.len()
}

/// Splits an `OWNER/REPO` string into owner and repository; `None` for any other shape.
pub fn split_repository(repo: &str) -> (r: Option<(String, String)>)
    ensures
        r is Some <==> is_repository_path(repo@),
        r matches Some((owner, name)) ==> ({
            let k = slash_index(repo@, 0);
            &&& owner@ == repo@.subrange(0, k)
            &&& name@ == repo@.subrange(k + 1, repo@.len() as int)
        }),
{
    let n = repo.unicode_len();
    let mut k: usize = 0;
    while k < n && repo.get_char(k) != '/'
        invariant
            k <= n,
            n == repo@.len(),
            slash_index(repo@, k as int) == slash_index(repo@, 0),
        decreases n - k,
    {
        k = k + 1;
    }
    if k == n {
        return None;
    }
    let mut j: usize = k + 1;
    while j < n && repo.get_char(j) != '/'
        invariant
            k < j <= n,
            n == repo@.len(),
            slash_index(repo@, j as int) == slash_index(repo@, k + 1),
        decreases n - j,
    {
        j = j + 1;
    }
    if j < n {
        return None;
    }
    let owner = String::from_str(repo.substring_char(0, k));
    let name = String::from_str(repo.substring_char(k + 1, n));
    Some((owner, name))
}

} // verus!
