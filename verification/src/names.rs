//! Output file-name resolution: the last path segment of a URL,
//! stripped of any query string, with the target kind's suffix
//! normalized or appended. Every suffix test runs on that cleaned
//! base name, never on the host, earlier path segments, or the query.

use vstd::prelude::*;

verus! {

use crate::ImageType;
use crate::text;
use vstd::string::StrSliceExecFns;
use vstd::string::StringExecFns;

/// `s` truncated at the first `?`; `s` itself when it has none.
pub open spec fn strip_query(s: Seq<char>) -> Seq<char> {
    s.take(text::first_index(s, '?'))
}

/// The substring of `s` after its final `/`; `s` itself when it has
/// none.
pub open spec fn last_segment(s: Seq<char>) -> Seq<char> {
    s.skip(text::last_index(s, '/') + 1)
}

/// The candidate base name a URL yields: its last path segment with
/// the query string removed.
pub open spec fn cleaned_name(url: Seq<char>) -> Seq<char> {
    strip_query(last_segment(url))
}

/// The resolved file name for `url` under `suffix`: the cleaned base
/// name, with `suffix` appended unless the base name already contains
/// `suffix` somewhere.
pub open spec fn file_name_for(url: Seq<char>, suffix: Seq<char>) -> Seq<char> {
    if text::has_substring(cleaned_name(url), suffix) {
        cleaned_name(url)
    } else {
        cleaned_name(url) + suffix
    }
}

/// The file suffix a supported kind uses.
pub open spec fn suffix_of(kind: ImageType) -> Seq<char> {
    match kind {
        ImageType::Jpeg => ".jpg"@,
        ImageType::Png => ".png"@,
        ImageType::Tiff => ".tiff"@,
        ImageType::Other => Seq::empty(),
    }
}

/// The resolved output file name for a URL and a supported kind,
/// computed from the cleaned base name (last path segment, query
/// stripped).
///
/// JPEG normalizes its spelling first, in this precedence: a base
/// name containing `.JPG` has every occurrence replaced by `.jpg`;
/// failing that, `.jpeg` is replaced by `.jpg`; failing both, a base
/// name already containing the literal `.jpg` is kept, and otherwise
/// `.jpg` is appended. PNG and TIFF keep a base name that contains
/// their suffix and append it otherwise. The containment tests are
/// substring tests, not strict suffix tests.
pub open spec fn resolve_spec(url: Seq<char>, kind: ImageType) -> Seq<char> {
    match kind {
        ImageType::Jpeg => {
            if text::has_substring(cleaned_name(url), ".JPG"@) {
                text::replace_all(cleaned_name(url), ".JPG"@, ".jpg"@)
            } else if text::has_substring(cleaned_name(url), ".jpeg"@) {
                text::replace_all(cleaned_name(url), ".jpeg"@, ".jpg"@)
            } else {
                file_name_for(url, ".jpg"@)
            }
        },
        ImageType::Png => file_name_for(url, ".png"@),
        ImageType::Tiff => file_name_for(url, ".tiff"@),
        ImageType::Other => Seq::empty(),
    }
}

/// Removes a trailing query string: everything from the first `?` on.
pub fn clean_name(name: &str) -> (r: &str)
    ensures
        r@ == strip_query(name@),
{
    let q: usize = text::find_char(name, '?');
    let r = name.substring_char(0, q);
    proof {
        assert(r@ =~= strip_query(name@));
    }
    r
}

/// The substring of `url` after its final `/`, or all of `url` when it
/// has no `/`.
pub fn base_name(url: &str) -> (r: &str)
    ensures
        r@ == last_segment(url@),
{
    let n: usize = url.unicode_len();
    let b: usize = text::find_last_char(url, '/');
    let r = url.substring_char(b, n);
    proof {
        assert(r@ =~= last_segment(url@));
    }
    r
}

/// Derives the output file name for `request_string` under `suffix`:
/// the last path segment with any query string stripped, and `suffix`
/// appended unless that base name already contains it somewhere.
pub fn determine_file_name(request_string: &String, suffix: &str) -> (r: String)
    ensures
        r@ == file_name_for(request_string@, suffix@),
{
    let base = clean_name(base_name(request_string.as_str()));
    if text::contains_substring(base, suffix) {
        String::from_str(base)
    } else {
        String::from_str(base).concat(suffix)
    }
}

/// Derives the sanitized, extension-correct output file name for a URL
/// and the supported kind its response was classified as.
pub fn resolve_name(url: &String, kind: ImageType) -> (r: String)
    requires
        kind.is_supported(),
    ensures
        r@ == resolve_spec(url@, kind),
{
    match kind {
        ImageType::Jpeg => {
            proof {
                reveal_strlit(".JPG");
                reveal_strlit(".jpeg");
            }
            let base = clean_name(base_name(url.as_str()));
            if text::contains_substring(base, ".JPG") {
                text::replace_substring(base, ".JPG", ".jpg")
            } else if text::contains_substring(base, ".jpeg") {
                text::replace_substring(base, ".jpeg", ".jpg")
            } else {
                determine_file_name(url, ".jpg")
            }
        },
        ImageType::Png => determine_file_name(url, ".png"),
        ImageType::Tiff => determine_file_name(url, ".tiff"),
        ImageType::Other => String::new(),
    }
}

/// The cleaned base name never holds a `/` or a `?`: it lies after the
/// final `/` and before the first `?` that follows it.
pub proof fn lemma_cleaned_name_clean(url: Seq<char>)
    ensures
        !cleaned_name(url).contains('/'),
        !cleaned_name(url).contains('?'),
{
    let seg = last_segment(url);
    text::lemma_last_index(url, '/');
    assert forall|i: int| 0 <= i < seg.len() implies seg[i] != '/' by {
        assert(seg[i] == url[i + text::last_index(url, '/') + 1]);
    }
    text::lemma_first_index(seg, '?');
    let base = strip_query(seg);
    assert forall|i: int| 0 <= i < base.len() implies base[i] != '?' && base[i] != '/' by {
        assert(base[i] == seg[i]);
    }
}

/// The resolved name never holds a `/` or a `?`: the query string is
/// always stripped, the directory part is always dropped, and the
/// kinds' suffixes add neither.
pub proof fn lemma_resolve_name_clean(url: Seq<char>, kind: ImageType)
    requires
        kind.is_supported(),
    ensures
        !resolve_spec(url, kind).contains('/'),
        !resolve_spec(url, kind).contains('?'),
{
    reveal_strlit(".JPG");
    reveal_strlit(".jpeg");
    reveal_strlit(".jpg");
    reveal_strlit(".png");
    reveal_strlit(".tiff");
    lemma_cleaned_name_clean(url);
    let base = cleaned_name(url);
    match kind {
        ImageType::Jpeg => {
            if text::has_substring(base, ".JPG"@) {
                text::lemma_replace_all_not_contains(base, ".JPG"@, ".jpg"@, '/');
                text::lemma_replace_all_not_contains(base, ".JPG"@, ".jpg"@, '?');
            } else if text::has_substring(base, ".jpeg"@) {
                text::lemma_replace_all_not_contains(base, ".jpeg"@, ".jpg"@, '/');
                text::lemma_replace_all_not_contains(base, ".jpeg"@, ".jpg"@, '?');
            } else if !text::has_substring(base, ".jpg"@) {
                text::lemma_append_not_contains(base, ".jpg"@, '/');
                text::lemma_append_not_contains(base, ".jpg"@, '?');
            }
        },
        ImageType::Png => {
            if !text::has_substring(base, ".png"@) {
                text::lemma_append_not_contains(base, ".png"@, '/');
                text::lemma_append_not_contains(base, ".png"@, '?');
            }
        },
        ImageType::Tiff => {
            if !text::has_substring(base, ".tiff"@) {
                text::lemma_append_not_contains(base, ".tiff"@, '/');
                text::lemma_append_not_contains(base, ".tiff"@, '?');
            }
        },
        ImageType::Other => {},
    }
}

/// Resolution against a fixed suffix is idempotent, for any suffix
/// free of `/` and `?` (every kind's suffix is): re-resolving a
/// resolved name gives it back.
pub proof fn lemma_file_name_idempotent(url: Seq<char>, suffix: Seq<char>)
    requires
        !suffix.contains('/'),
        !suffix.contains('?'),
    ensures
        file_name_for(file_name_for(url, suffix), suffix) == file_name_for(url, suffix),
{
    lemma_cleaned_name_clean(url);
    let base = cleaned_name(url);
    let r = file_name_for(url, suffix);
    if text::has_substring(base, suffix) {
        assert(r == base);
    } else {
        assert(r == base + suffix);
        text::lemma_append_not_contains(base, suffix, '/');
        text::lemma_append_not_contains(base, suffix, '?');
    }
    text::lemma_last_index(r, '/');
    assert(last_segment(r) =~= r);
    text::lemma_first_index(r, '?');
    assert(strip_query(r) =~= r);
    assert(cleaned_name(r) == r);
    if text::has_substring(base, suffix) {
        assert(file_name_for(r, suffix) == r);
    } else {
        assert(r.subrange(base.len() as int, base.len() + suffix.len() as int) =~= suffix);
        assert(text::occurs_at(r, suffix, base.len() as int));
        assert(file_name_for(r, suffix) == r);
    }
}

/// An already-correct file name is a fixed point of resolution: a name
/// with no directory part and no query string that carries its kind's
/// suffix (and, for JPEG, no `.JPG` or `.jpeg` spelling) resolves to
/// itself.
pub proof fn lemma_resolve_name_fixed_point(name: Seq<char>, kind: ImageType)
    requires
        kind.is_supported(),
        !name.contains('/'),
        !name.contains('?'),
        text::has_substring(name, suffix_of(kind)),
        kind is Jpeg ==> !text::has_substring(name, ".JPG"@) && !text::has_substring(
            name,
            ".jpeg"@,
        ),
    ensures
        resolve_spec(name, kind) == name,
{
    text::lemma_last_index(name, '/');
    assert(last_segment(name) =~= name);
    text::lemma_first_index(name, '?');
    assert(strip_query(name) =~= name);
    assert(cleaned_name(name) == name);
}

/// Resolution is idempotent on already-correctly-suffixed names:
/// applying it again to such a name's resolution changes nothing.
pub proof fn lemma_resolve_name_idempotent(name: Seq<char>, kind: ImageType)
    requires
        kind.is_supported(),
        !name.contains('/'),
        !name.contains('?'),
        text::has_substring(name, suffix_of(kind)),
        kind is Jpeg ==> !text::has_substring(name, ".JPG"@) && !text::has_substring(
            name,
            ".jpeg"@,
        ),
    ensures
        resolve_spec(resolve_spec(name, kind), kind) == resolve_spec(name, kind),
{
    lemma_resolve_name_fixed_point(name, kind);
}

} // verus!
