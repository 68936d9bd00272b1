//! Where the SQLite database file lives.

use vstd::prelude::*;

verus! {

/// The file path of a `sqlite://` database URL (the text after the scheme), if it has
/// that scheme.
pub open spec fn spec_sqlite_path(db_url: Seq<char>) -> Option<Seq<char>> {
    let scheme = "sqlite://"@;
    if scheme.len() <= db_url.len() && db_url.subrange(0, scheme.len() as int) == scheme {
        Some(db_url.subrange(scheme.len() as int, db_url.len() as int))
    } else {
        None
    }
}

/// The file path of a `sqlite://` database URL, whose parent directory is created before
/// the pool opens; nothing for any other URL.
pub fn sqlite_path(db_url: &str) -> (r: Option<&str>)
    ensures
        match r {
            Some(p) => spec_sqlite_path(db_url@) == Some(p@),
            None => spec_sqlite_path(db_url@) is None,
        },
{
    let scheme = "sqlite://";
    let m = scheme.unicode_len();
    let n = db_url.unicode_len();
    if m > n {
        return None;
    }
    let head = db_url.substring_char(0, m);
    let mut i: usize = 0;
    while i < m
        invariant
            scheme@ == "sqlite://"@,
            m == scheme@.len(),
            m == head@.len(),
            m <= db_url@.len(),
            head@ == db_url@.subrange(0, m as int),
            i <= m,
            forall|j: int| 0 <= j < i ==> head@[j] == scheme@[j],
        decreases m - i,
    {
        if head.get_char(i) != scheme.get_char(i) {
            assert(db_url@.subrange(0, m as int)[i as int] != scheme@[i as int]);
            assert(db_url@.subrange(0, m as int) != scheme@);
            return None;
        }
        i = i + 1;
    }
    assert(head@ =~= scheme@);
    Some(db_url.substring_char(m, n))
}

} // verus!
