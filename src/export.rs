use vstd::prelude::*;
use vstd::string::*;

use crate::library::PlexLibrarySection;
use crate::media_item::PlexMediaItem;

verus! {

/// No library section carries the requested title.
#[derive(Debug, Clone, PartialEq, Eq)]
pub struct LibraryNotFound {
    pub library_name: String,
}

/// `i` is the first section whose title is `name`.
pub open spec fn is_first_titled(sections: PlexLibrarySection, name: Seq<char>, i: int) -> bool {
    &&& 0 <= i < sections.directory@.len()
    &&& sections.directory@[i].title@ == name
    &&& forall|j: int| 0 <= j < i ==> sections.directory@[j].title@ != name
}

/// Finds the location id of the first library section titled
/// `library_name`: the id the watch history is filtered by.
pub fn find_library_location(sections: &PlexLibrarySection, library_name: &str) -> (r: Result<
    u32,
    LibraryNotFound,
>)
    ensures
        match r {
            Ok(id) => exists|i: int|
                is_first_titled(*sections, library_name@, i) && id
                    == sections.directory@[i].location@[0].id,
            Err(e) => {
                &&& forall|i: int|
                    0 <= i < sections.directory@.len() ==> sections.directory@[i].title@
                        != library_name@
                &&& e.library_name@ == library_name@
            },
        },
{
    let name = String::from_str(library_name);
    let mut i: usize = 0;
    while i < sections.directory.len()
        invariant
            i <= sections.directory@.len(),
            name@ == library_name@,
            forall|j: int| 0 <= j < i ==> sections.directory@[j].title@ != library_name@,
        decreases sections.directory@.len() - i,
    {
        if sections.directory[i].title == name {
            let id = sections.directory[i].location[0].id;
            assert(is_first_titled(*sections, library_name@, i as int));
            return Ok(id);
        }
        i = i + 1;
    }
    Err(LibraryNotFound { library_name: name })
}

/// `s` with every leading repetition of `prefix` removed.
pub open spec fn trim_start_all(s: Seq<char>, prefix: Seq<char>) -> Seq<char>
    decreases s.len(),
{
    if prefix.len() > 0 && prefix.len() <= s.len() && s.subrange(0, prefix.len() as int)
        == prefix {
        trim_start_all(s.subrange(prefix.len() as int, s.len() as int), prefix)
    } else {
        s
    }
}

/// `s` holds `p` at character position `k`.
fn holds_at(s: &str, k: usize, p: &str) -> (r: bool)
    requires
        k <= s@.len(),
    ensures
        r == (k + p@.len() <= s@.len() && s@.subrange(k as int, k + p@.len()) == p@),
{
    let n = s.unicode_len();
    let m = p.unicode_len();
    if m > n - k {
        return false;
    }
    let mut j: usize = 0;
    while j < m
        invariant
            j <= m,
            n == s@.len(),
            m == p@.len(),
            k + m <= n,
            forall|t: int| 0 <= t < j ==> s@[k + t] == p@[t],
        decreases m - j,
    {
        if s.get_char(k + j) != p.get_char(j) {
            assert(s@.subrange(k as int, k + m)[j as int] != p@[j as int]);
            return false;
        }
        j = j + 1;
    }
    assert(s@.subrange(k as int, k + m) =~= p@);
    true
}

/// `s` with every leading repetition of `prefix` removed, as
/// `str::trim_start_matches` does with a string pattern.
pub fn trim_start_matches(s: &str, prefix: &str) -> (r: String)
    ensures
        r@ == trim_start_all(s@, prefix@),
{
    let n = s.unicode_len();
    let m = prefix.unicode_len();
    if m == 0 {
        return String::from_str(s);
    }
    let mut k: usize = 0;
    assert(s@.subrange(0, n as int) =~= s@);
    while holds_at(s, k, prefix)
        invariant
            k <= n,
            n == s@.len(),
            m == prefix@.len(),
            m > 0,
            trim_start_all(s@, prefix@) == trim_start_all(s@.subrange(k as int, n as int), prefix@),
        decreases n - k,
    {
        proof {
            let rest = s@.subrange(k as int, n as int);
            assert(rest.subrange(0, m as int) =~= s@.subrange(k as int, k + m));
            assert(rest.subrange(m as int, rest.len() as int) =~= s@.subrange(k + m, n as int));
        }
        k = k + m;
    }
    proof {
        let rest = s@.subrange(k as int, n as int);
        if m <= rest.len() {
            assert(rest.subrange(0, m as int) =~= s@.subrange(k as int, k + m));
        }
    }
    String::from_str(s.substring_char(k, n))
}

/// The leading text of the server's IMDb identifiers.
pub open spec fn imdb_scheme() -> Seq<char> {
    "imdb://"@
}

/// The IMDb id exported for an item: its first external identifier, with
/// the `imdb://` scheme removed from its front; `None` where the item has no
/// external identifier.
///
/// The first identifier is taken whatever its scheme: one of another scheme
/// is exported as it stands.
pub open spec fn imdb_id_of(item: PlexMediaItem) -> Option<Seq<char>> {
    let guids = item.metadata@[0].guid@;
    if guids.len() == 0 {
        None
    } else {
        Some(trim_start_all(guids[0].id@, imdb_scheme()))
    }
}

/// The IMDb id to export for a media item, or `None` where the item carries
/// no external identifier (the driver then skips the item).
pub fn imdb_id(item: &PlexMediaItem) -> (r: Option<String>)
    ensures
        match r {
            Some(s) => imdb_id_of(*item) == Some(s@),
            None => imdb_id_of(*item) is None,
        },
{
    let metadata = &item.metadata[0];
    if metadata.guid.len() == 0 {
        return None;
    }
    Some(trim_start_matches(metadata.guid[0].id.as_str(), "imdb://"))
}

} // verus!
