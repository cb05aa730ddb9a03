use vstd::prelude::*;
use vstd::string::StrSliceExecFns;

verus! {

/// The text fields of one catalog entry as the catalog service sends them.
pub struct CatalogEntry {
    pub imdb_id: Option<String>,
    pub id: Option<String>,
    pub name: Option<String>,
    pub poster: Option<String>,
    pub background: Option<String>,
    pub released: Option<String>,
    pub description: Option<String>,
    pub imdb_rating: Option<String>,
}

/// One catalog entry in the application's own terms. `rating_text` is the
/// rating as sent, to be read as a number where numbers are read (zero when
/// it is absent or not a number).
pub struct Movie {
    pub id: Option<String>,
    pub title: Option<String>,
    pub poster_path: Option<String>,
    pub backdrop_path: Option<String>,
    pub release_date: Option<String>,
    pub overview: Option<String>,
    pub rating_text: Option<String>,
}

/// `d` is the date part of a timestamp `s`: everything before the first `T`,
/// or all of `s` when it holds none.
pub open spec fn is_date_part(s: Seq<char>, d: Seq<char>) -> bool {
    &&& d.len() <= s.len()
    &&& d == s.take(d.len() as int)
    &&& (d.len() == s.len() || s[d.len() as int] == 'T')
    &&& !d.contains('T')
}

/// The part of `stamp` before its first `T`.
pub fn date_part(stamp: &str) -> (r: String)
    ensures
        is_date_part(stamp@, r@),
{
    let n = stamp.unicode_len();
    let mut k: usize = 0;
    while k < n
        invariant
            n == stamp@.len(),
            k <= n,
            forall|j: int| 0 <= j < k ==> stamp@[j] != 'T',
        ensures
            k <= n,
            k == n || stamp@[k as int] == 'T',
            forall|j: int| 0 <= j < k ==> stamp@[j] != 'T',
        decreases n - k,
    {
        if stamp.get_char(k) == 'T' {
            break;
        }
        k = k + 1;
    }
    let r = String::from_str(stamp.substring_char(0, k));
    assert(!stamp@.take(k as int).contains('T')) by {
        if stamp@.take(k as int).contains('T') {
            let j = choose|j: int| 0 <= j < k && stamp@.take(k as int)[j] == 'T';
            assert(stamp@[j] == 'T');
        }
    }
    assert(r@ == stamp@.take(k as int));
    r
}

fn copy_text(t: &Option<String>) -> (r: Option<String>)
    ensures
        r == *t,
{
    match t {
        Some(s) => Some(s.clone()),
        None => None,
    }
}

/// The identifier of an entry: its IMDb identifier, else its catalog one.
pub open spec fn entry_id(e: CatalogEntry) -> Option<String> {
    if e.imdb_id is Some {
        e.imdb_id
    } else {
        e.id
    }
}

/// Maps one catalog entry to the application's terms: the identifier is the
/// IMDb one where the entry has it and the catalog's own otherwise, the
/// release date keeps the date part only, and every other text is passed on.
pub fn normalize(e: &CatalogEntry) -> (m: Movie)
    ensures
        m.id == entry_id(*e),
        m.title == e.name,
        m.poster_path == e.poster,
        m.backdrop_path == e.background,
        m.release_date is Some <==> e.released is Some,
        e.released is Some ==> is_date_part(e.released->Some_0@, m.release_date->Some_0@),
        m.overview == e.description,
        m.rating_text == e.imdb_rating,
{
    let id = if e.imdb_id.is_some() {
        copy_text(&e.imdb_id)
    } else {
        copy_text(&e.id)
    };
    let release_date = match &e.released {
        Some(r) => Some(date_part(r.as_str())),
        None => None,
    };
    Movie {
        id,
        title: copy_text(&e.name),
        poster_path: copy_text(&e.poster),
        backdrop_path: copy_text(&e.background),
        release_date,
        overview: copy_text(&e.description),
        rating_text: copy_text(&e.imdb_rating),
    }
}

/// Normalizes every entry of a catalog page, in order.
pub fn normalize_all(entries: &Vec<CatalogEntry>) -> (r: Vec<Movie>)
    ensures
        r@.len() == entries@.len(),
        forall|i: int| 0 <= i < r@.len() ==> ({
            let m = #[trigger] r@[i];
            let e = entries@[i];
            &&& m.id == entry_id(e)
            &&& m.title == e.name
            &&& m.poster_path == e.poster
            &&& m.backdrop_path == e.background
            &&& (m.release_date is Some <==> e.released is Some)
            &&& (e.released is Some ==> is_date_part(e.released->Some_0@, m.release_date->Some_0@))
            &&& m.overview == e.description
            &&& m.rating_text == e.imdb_rating
        }),
{
    let mut r: Vec<Movie> = Vec::new();
    let mut i: usize = 0;
    while i < entries.len()
        invariant
            i <= entries@.len(),
            r@.len() == i,
            forall|j: int| 0 <= j < i ==> ({
                let m = #[trigger] r@[j];
                let e = entries@[j];
                &&& m.id == entry_id(e)
                &&& m.title == e.name
                &&& m.poster_path == e.poster
                &&& m.backdrop_path == e.background
                &&& (m.release_date is Some <==> e.released is Some)
                &&& (e.released is Some ==> is_date_part(e.released->Some_0@, m.release_date->Some_0@))
                &&& m.overview == e.description
                &&& m.rating_text == e.imdb_rating
            }),
        decreases entries@.len() - i,
    {
        let m = normalize(&entries[i]);
        r.push(m);
        i = i + 1;
    }
    r
}

} // verus!
