//! Media uploads, downloads and deletions: file extensions, content types, storage paths,
//! and removing a deleted media id from the jobs that refer to it.

use vstd::prelude::*;
use vstd::utf8::encode_utf8;
use crate::json::{id_list_or_empty, json_string_list_text, media_ids_from_json, media_ids_to_json};
use crate::text::{
    ascii_lower, ascii_lowercase, ends_with, is_ascii_text, no_ascii_capital, str_ends_with, str_eq, to_lowercase, unicode_lowercase,
    utf8_len_at_most,
};

verus! {

/// The index of the last occurrence of `c` in `s`.
pub open spec fn last_index_of(s: Seq<char>, c: char) -> Option<int>
    decreases s.len(),
{
    if s.len() == 0 {
        None
    } else if s.last() == c {
        Some(s.len() - 1)
    } else {
        last_index_of(s.drop_last(), c)
    }
}

/// The extension a file name gives: the lowercase text after its last `.`, when that is
/// not empty and takes at most 5 bytes in UTF-8.
pub open spec fn ext_from_name(name: Seq<char>) -> Option<Seq<char>> {
    match last_index_of(name, '.') {
        Some(dot) => {
            let e = unicode_lowercase(name.subrange(dot + 1, name.len() as int));
            if e.len() > 0 && encode_utf8(e).len() <= 5 {
                Some(e)
            } else {
                None
            }
        },
        None => None,
    }
}

/// The extension a content type gives, `bin` for an unknown or missing one.
pub open spec fn ext_from_content_type(content_type: Option<Seq<char>>) -> Seq<char> {
    match content_type {
        Some(t) => if t == "image/png"@ {
            "png"@
        } else if t == "image/jpeg"@ {
            "jpg"@
        } else if t == "image/webp"@ {
            "webp"@
        } else if t == "video/mp4"@ {
            "mp4"@
        } else if t == "image/gif"@ {
            "gif"@
        } else {
            "bin"@
        },
        None => "bin"@,
    }
}

/// The extension an upload is stored under: the file name's when it gives one,
/// otherwise the content type's.
pub open spec fn spec_ext_for(filename: Option<Seq<char>>, content_type: Option<Seq<char>>) -> Seq<char> {
    match filename {
        Some(n) => match ext_from_name(n) {
            Some(e) => e,
            None => ext_from_content_type(content_type),
        },
        None => ext_from_content_type(content_type),
    }
}

proof fn lemma_last_index_bound(s: Seq<char>, c: char)
    ensures
        last_index_of(s, c) matches Some(i) ==> 0 <= i < s.len() && s[i] == c,
    decreases s.len(),
{
    if s.len() > 0 && s.last() != c {
        lemma_last_index_bound(s.drop_last(), c);
    }
}

/// An extension without dots or ASCII capitals.
pub open spec fn plain_extension(e: Seq<char>) -> bool {
    forall|i: int| 0 <= i < e.len() ==> #[trigger] e[i] != '.' && !('A' <= e[i] && e[i] <= 'Z')
}

proof fn lemma_after_last_index(s: Seq<char>, c: char)
    ensures
        last_index_of(s, c) matches Some(d) ==> forall|j: int| d < j < s.len() ==> s[j] != c,
    decreases s.len(),
{
    if s.len() > 0 && s.last() != c {
        let t = s.drop_last();
        lemma_after_last_index(t, c);
        lemma_last_index_bound(t, c);
        if let Some(d) = last_index_of(s, c) {
            assert forall|j: int| d < j < s.len() implies s[j] != c by {
                if j < s.len() - 1 {
                    assert(s[j] == t[j]);
                }
            }
        }
    }
}

fn last_dot(s: &str) -> (r: Option<usize>)
    ensures
        match r {
            Some(i) => last_index_of(s@, '.') == Some(i as int),
            None => last_index_of(s@, '.') is None,
        },
{
    let n = s.unicode_len();
    let mut end: usize = n;
    assert(s@.subrange(0, n as int) =~= s@);
    while end > 0
        invariant
            n == s@.len(),
            end <= n,
            last_index_of(s@, '.') == last_index_of(s@.subrange(0, end as int), '.'),
        decreases end,
    {
        if s.get_char(end - 1) == '.' {
            return Some(end - 1);
        }
        assert(s@.subrange(0, end as int).drop_last() =~= s@.subrange(0, end - 1));
        end = end - 1;
    }
    None
}

fn ext_from_content_type_exec(content_type: Option<&str>) -> (r: String)
    ensures
        r@ == ext_from_content_type(
            match content_type {
                Some(t) => Some(t@),
                None => None,
            },
        ),
        plain_extension(r@),
{
    proof {
        reveal_strlit("png");
        reveal_strlit("jpg");
        reveal_strlit("webp");
        reveal_strlit("mp4");
        reveal_strlit("gif");
        reveal_strlit("bin");
    }
    let e = match content_type {
        Some(t) => if str_eq(t, "image/png") {
            "png"
        } else if str_eq(t, "image/jpeg") {
            "jpg"
        } else if str_eq(t, "image/webp") {
            "webp"
        } else if str_eq(t, "video/mp4") {
            "mp4"
        } else if str_eq(t, "image/gif") {
            "gif"
        } else {
            "bin"
        },
        None => "bin",
    };
    String::from_str(e)
}

/// The extension an upload is stored under, from its file name or content type.
pub fn ext_for(filename: Option<&str>, content_type: Option<&str>) -> (r: String)
    ensures
        r@ == spec_ext_for(
            match filename {
                Some(n) => Some(n@),
                None => None,
            },
            match content_type {
                Some(t) => Some(t@),
                None => None,
            },
        ),
        no_ascii_capital(r@),
        (match filename {
            Some(n) => is_ascii_text(n@),
            None => true,
        }) ==> plain_extension(r@),
{
    if let Some(name) = filename {
        if let Some(dot) = last_dot(name) {
            proof {
                lemma_last_index_bound(name@, '.');
            }
            let n = name.unicode_len();
            let tail = name.substring_char(dot + 1, n);
            let e = to_lowercase(tail);
            if !e.as_str().is_empty() && utf8_len_at_most(e.as_str(), 5) {
                proof {
                    if is_ascii_text(name@) {
                        lemma_after_last_index(name@, '.');
                        assert forall|i: int| 0 <= i < tail@.len() implies (#[trigger] tail@[i] as u32) < 128 by {
                            assert(tail@[i] == name@[dot + 1 + i]);
                        }
                        assert forall|i: int| 0 <= i < e@.len() implies #[trigger] e@[i] != '.' && !(
                        'A' <= e@[i] && e@[i] <= 'Z') by {
                            assert(tail@[i] == name@[dot + 1 + i]);
                            assert(e@[i] == ascii_lower(tail@[i]));
                        }
                    }
                }
                return e;
            }
        }
    }
    ext_from_content_type_exec(content_type)
}

/// Every upload is stored under a non-empty extension of at most five bytes.
pub proof fn lemma_ext_is_short(filename: Option<Seq<char>>, content_type: Option<Seq<char>>)
    ensures
        spec_ext_for(filename, content_type).len() > 0,
        encode_utf8(spec_ext_for(filename, content_type)).len() <= 5,
{
    reveal_strlit("png");
    reveal_strlit("jpg");
    reveal_strlit("webp");
    reveal_strlit("mp4");
    reveal_strlit("gif");
    reveal_strlit("bin");
    reveal_with_fuel(encode_utf8, 5);
    let c = ext_from_content_type(content_type);
    assert(c.len() > 0 && encode_utf8(c).len() <= 5);
}

/// The content type a stored file is served with, judged by the lowercase path's
/// extension; `application/octet-stream` when the extension is not known.
pub open spec fn spec_media_mime(lower: Seq<char>) -> Seq<char> {
    if ends_with(lower, ".png"@) {
        "image/png"@
    } else if ends_with(lower, ".jpg"@) || ends_with(lower, ".jpeg"@) {
        "image/jpeg"@
    } else if ends_with(lower, ".webp"@) {
        "image/webp"@
    } else if ends_with(lower, ".gif"@) {
        "image/gif"@
    } else if ends_with(lower, ".mp4"@) {
        "video/mp4"@
    } else {
        "application/octet-stream"@
    }
}

/// The content type a stored file is served with, from its path.
pub fn mime_from_path(path: &str) -> (r: &'static str)
    ensures
        r@ == spec_media_mime(unicode_lowercase(path@)),
        is_ascii_text(path@) ==> r@ == spec_media_mime(ascii_lowercase(path@)),
{
    let lower = to_lowercase(path);
    let l = lower.as_str();
    if str_ends_with(l, ".png") {
        "image/png"
    } else if str_ends_with(l, ".jpg") || str_ends_with(l, ".jpeg") {
        "image/jpeg"
    } else if str_ends_with(l, ".webp") {
        "image/webp"
    } else if str_ends_with(l, ".gif") {
        "image/gif"
    } else if str_ends_with(l, ".mp4") {
        "video/mp4"
    } else {
        "application/octet-stream"
    }
}

/// Where a media file is stored: `{media_dir}/{id}.{ext}`.
pub fn media_path(media_dir: &str, id: &str, ext: &str) -> (r: String)
    ensures
        r@ == media_dir@ + "/"@ + id@ + "."@ + ext@,
{
    String::from_str(media_dir).concat("/").concat(id).concat(".").concat(ext)
}

proof fn lemma_ends_with_after(stem: Seq<char>, suffix: Seq<char>, check: Seq<char>)
    ensures
        check.len() <= suffix.len() ==> (ends_with(stem + suffix, check) == ends_with(suffix, check)),
        check.len() > suffix.len() && ends_with(stem + suffix, check) ==> ends_with(check, suffix),
{
    let s = stem + suffix;
    if check.len() <= suffix.len() {
        assert(s.subrange(s.len() - check.len(), s.len() as int) =~= suffix.subrange(
            suffix.len() - check.len(),
            suffix.len() as int,
        ));
    } else if ends_with(s, check) {
        assert(check.subrange(check.len() - suffix.len(), check.len() as int) =~= s.subrange(
            s.len() - check.len(),
            s.len() as int,
        ).subrange(check.len() - suffix.len(), check.len() as int));
        assert(s.subrange(s.len() - check.len(), s.len() as int).subrange(
            check.len() - suffix.len(),
            check.len() as int,
        ) =~= suffix);
    }
}

/// What is stored is served back as what was uploaded: a file stored under the
/// extension of one of the known upload content types (`{stem}.{ext}`, the path already
/// lowercased) is served with that same content type.
pub proof fn lemma_stored_type_served_back(stem: Seq<char>, content_type: Seq<char>)
    requires
        content_type == "image/png"@ || content_type == "image/jpeg"@ || content_type == "image/webp"@
            || content_type == "video/mp4"@ || content_type == "image/gif"@,
    ensures
        spec_media_mime(stem + "."@ + ext_from_content_type(Some(content_type))) == content_type,
{
    reveal_strlit("image/png");
    reveal_strlit("image/jpeg");
    reveal_strlit("image/webp");
    reveal_strlit("video/mp4");
    reveal_strlit("image/gif");
    reveal_strlit("png");
    reveal_strlit("jpg");
    reveal_strlit("webp");
    reveal_strlit("mp4");
    reveal_strlit("gif");
    reveal_strlit(".");
    reveal_strlit(".png");
    reveal_strlit(".jpg");
    reveal_strlit(".jpeg");
    reveal_strlit(".webp");
    reveal_strlit(".gif");
    reveal_strlit(".mp4");
    let ext = ext_from_content_type(Some(content_type));
    let suffix = "."@ + ext;
    assert(stem + "."@ + ext =~= stem + suffix);
    lemma_ends_with_after(stem, suffix, ".png"@);
    lemma_ends_with_after(stem, suffix, ".jpg"@);
    lemma_ends_with_after(stem, suffix, ".jpeg"@);
    lemma_ends_with_after(stem, suffix, ".webp"@);
    lemma_ends_with_after(stem, suffix, ".gif"@);
    lemma_ends_with_after(stem, suffix, ".mp4"@);
    if content_type == "image/png"@ {
        assert(suffix =~= ".png"@);
        assert(ends_with(".png"@, ".png"@)) by {
            assert(".png"@.subrange(0, 4) =~= ".png"@);
        }
    } else if content_type == "image/jpeg"@ {
        assert(suffix =~= ".jpg"@);
        assert(ends_with(".jpg"@, ".jpg"@)) by {
            assert(".jpg"@.subrange(0, 4) =~= ".jpg"@);
        }
        assert(!ends_with(".jpg"@, ".png"@)) by {
            assert(".jpg"@.subrange(0, 4)[1] != ".png"@[1]);
        }
    } else if content_type == "image/webp"@ {
        assert(suffix =~= ".webp"@);
        assert(ends_with(".webp"@, ".webp"@)) by {
            assert(".webp"@.subrange(0, 5) =~= ".webp"@);
        }
        assert(!ends_with(".webp"@, ".png"@)) by {
            assert(".webp"@.subrange(1, 5)[0] != ".png"@[0]);
        }
        assert(!ends_with(".webp"@, ".jpg"@)) by {
            assert(".webp"@.subrange(1, 5)[0] != ".jpg"@[0]);
        }
        assert(!ends_with(".webp"@, ".jpeg"@)) by {
            assert(".webp"@.subrange(0, 5)[1] != ".jpeg"@[1]);
        }
    } else if content_type == "video/mp4"@ {
        assert(suffix =~= ".mp4"@);
        assert(ends_with(".mp4"@, ".mp4"@)) by {
            assert(".mp4"@.subrange(0, 4) =~= ".mp4"@);
        }
        assert(!ends_with(".mp4"@, ".png"@)) by {
            assert(".mp4"@.subrange(0, 4)[1] != ".png"@[1]);
        }
        assert(!ends_with(".mp4"@, ".jpg"@)) by {
            assert(".mp4"@.subrange(0, 4)[1] != ".jpg"@[1]);
        }
        assert(!ends_with(".jpeg"@, ".mp4"@)) by {
            assert(".jpeg"@.subrange(1, 5)[0] != ".mp4"@[0]);
        }
        assert(!ends_with(".webp"@, ".mp4"@)) by {
            assert(".webp"@.subrange(1, 5)[0] != ".mp4"@[0]);
        }
        assert(!ends_with(".mp4"@, ".gif"@)) by {
            assert(".mp4"@.subrange(0, 4)[1] != ".gif"@[1]);
        }
    } else {
        assert(suffix =~= ".gif"@);
        assert(ends_with(".gif"@, ".gif"@)) by {
            assert(".gif"@.subrange(0, 4) =~= ".gif"@);
        }
        assert(!ends_with(".gif"@, ".png"@)) by {
            assert(".gif"@.subrange(0, 4)[1] != ".png"@[1]);
        }
        assert(!ends_with(".gif"@, ".jpg"@)) by {
            assert(".gif"@.subrange(0, 4)[1] != ".jpg"@[1]);
        }
        assert(!ends_with(".jpeg"@, ".gif"@)) by {
            assert(".jpeg"@.subrange(1, 5)[0] != ".gif"@[0]);
        }
        assert(!ends_with(".webp"@, ".gif"@)) by {
            assert(".webp"@.subrange(1, 5)[0] != ".gif"@[0]);
        }
    }
}

/// The ids of `ids` other than `id`, in their order.
pub open spec fn without_id(ids: Seq<Seq<char>>, id: Seq<char>) -> Seq<Seq<char>>
    decreases ids.len(),
{
    if ids.len() == 0 {
        Seq::empty()
    } else {
        let rest = without_id(ids.drop_last(), id);
        if ids.last() == id {
            rest
        } else {
            rest.push(ids.last())
        }
    }
}

/// Removes every occurrence of a media id from a list of ids, keeping the others in order.
pub fn strip_media_id(ids: &Vec<String>, id: &str) -> (r: Vec<String>)
    ensures
        r.deep_view() == without_id(ids.deep_view(), id@),
{
    let ghost v = ids.deep_view();
    let mut out: Vec<String> = Vec::new();
    let n = ids.len();
    let mut i: usize = 0;
    while i < n
        invariant
            n == ids@.len(),
            v == ids.deep_view(),
            v.len() == n,
            i <= n,
            out.deep_view() == without_id(v.take(i as int), id@),
        decreases n - i,
    {
        assert(v.take(i + 1).drop_last() =~= v.take(i as int));
        assert(v.take(i + 1).last() == v[i as int]);
        assert(v[i as int] == ids@[i as int]@);
        if !str_eq(ids[i].as_str(), id) {
            let ghost before = out.deep_view();
            out.push(ids[i].clone());
            assert(out.deep_view() =~= before.push(v[i as int]));
        }
        i = i + 1;
    }
    assert(v.take(n as int) =~= v);
    out
}

/// After removal no occurrence of the id is left, and every other id is still there.
pub proof fn lemma_without_id(ids: Seq<Seq<char>>, id: Seq<char>)
    ensures
        !without_id(ids, id).contains(id),
        forall|x: Seq<char>| x != id ==> (ids.contains(x) <==> without_id(ids, id).contains(x)),
        without_id(without_id(ids, id), id) == without_id(ids, id),
    decreases ids.len(),
{
    if ids.len() > 0 {
        let init = ids.drop_last();
        lemma_without_id(init, id);
        let rest = without_id(init, id);
        assert forall|x: Seq<char>| x != id implies (ids.contains(x) <==> without_id(ids, id).contains(x)) by {
            if ids.contains(x) {
                let k = choose|k: int| 0 <= k < ids.len() && ids[k] == x;
                if k < ids.len() - 1 {
                    assert(init[k] == x);
                    assert(init.contains(x));
                    assert(rest.contains(x));
                    let j = choose|j: int| 0 <= j < rest.len() && rest[j] == x;
                    if ids.last() != id {
                        assert(rest.push(ids.last())[j] == x);
                    }
                } else {
                    assert(rest.push(ids.last())[rest.len() as int] == x);
                }
            }
            if without_id(ids, id).contains(x) {
                let j = choose|j: int| 0 <= j < without_id(ids, id).len() && without_id(ids, id)[j] == x;
                if ids.last() == id || j < rest.len() {
                    if ids.last() != id {
                        assert(rest[j] == x);
                    }
                    assert(rest.contains(x));
                    assert(init.contains(x));
                    let k = choose|k: int| 0 <= k < init.len() && init[k] == x;
                    assert(ids[k] == x);
                } else {
                    assert(ids[ids.len() - 1] == x);
                }
            }
        }
        if without_id(ids, id).contains(id) {
            let j = choose|j: int| 0 <= j < without_id(ids, id).len() && without_id(ids, id)[j] == id;
            if ids.last() == id || j < rest.len() {
                if ids.last() != id {
                    assert(rest[j] == id);
                }
                assert(rest.contains(id));
            }
        }
        lemma_without_id_absent(without_id(ids, id), id);
    }
}

/// Removing an id that does not occur leaves the list as it is.
pub proof fn lemma_without_id_absent(ids: Seq<Seq<char>>, id: Seq<char>)
    requires
        !ids.contains(id),
    ensures
        without_id(ids, id) == ids,
    decreases ids.len(),
{
    if ids.len() > 0 {
        let init = ids.drop_last();
        if init.contains(id) {
            let k = choose|k: int| 0 <= k < init.len() && init[k] == id;
            assert(ids[k] == id);
        }
        lemma_without_id_absent(init, id);
        assert(ids.last() != id) by {
            if ids.last() == id {
                assert(ids[ids.len() - 1] == id);
            }
        }
        assert(init.push(ids.last()) =~= ids);
    }
}

/// The stored input and output id lists of a job, rewritten without a deleted media id.
/// Unreadable lists count as empty; the rewritten lists are written back as JSON.
pub fn rewrite_job_refs(inputs_json: &str, outputs_json: &str, id: &str) -> (r: (String, String))
    ensures
        r.0@ == json_string_list_text(without_id(id_list_or_empty(inputs_json@), id@)),
        r.1@ == json_string_list_text(without_id(id_list_or_empty(outputs_json@), id@)),
{
    let inputs = strip_media_id(&media_ids_from_json(inputs_json), id);
    let outputs = strip_media_id(&media_ids_from_json(outputs_json), id);
    (media_ids_to_json(&inputs), media_ids_to_json(&outputs))
}

} // verus!
