use crate::item::Item;
use crate::text::append;
use vstd::prelude::*;

verus! {

/// An account of the content provider that items are imported for.
#[derive(Debug, Clone, PartialEq, Eq)]
pub struct User {
    pub id: String,
}

/// What an import identifier names at the content provider.
#[derive(Debug, Clone, PartialEq, Eq)]
pub enum ImportTarget {
    Playlist(String),
    Album(String),
}

/// `s` starts with `pre`.
pub open spec fn has_prefix(s: Seq<char>, pre: Seq<char>) -> bool {
    pre.len() <= s.len() && s.take(pre.len() as int) == pre
}

/// Relies on `str::split_once`: splits at the first occurrence of the
/// delimiter, or gives `None` where there is none.
#[verifier::external_body]
fn split_once_char(s: &str, delim: char) -> (r: Option<(&str, &str)>)
    ensures
        match r {
            Some((a, b)) => s@ == a@ + seq![delim] + b@ && !a@.contains(delim),
            None => !s@.contains(delim),
        },
{
    s.split_once(delim)
}

proof fn lemma_first_colon_prefix(s: Seq<char>, a: Seq<char>, b: Seq<char>, word: Seq<char>)
    requires
        s == a + seq![':'] + b,
        !a.contains(':'),
        !word.contains(':'),
        has_prefix(s, word + seq![':']),
    ensures
        a == word,
        b == s.skip(word.len() as int + 1),
{
    let n = word.len() as int;
    assert(s[n] == (word + seq![':'])[n]);
    if a.len() > n {
        assert(a[n] == s[n]);
        assert(a.contains(':'));
    } else if a.len() < n {
        let k = a.len() as int;
        assert(s[k] == ':');
        assert(s[k] == (word + seq![':'])[k]);
        assert(word[k] == ':');
        assert(word.contains(':'));
    }
    assert(a =~= s.take(n));
    assert(s.take(n) =~= (word + seq![':']).take(n));
    assert(a =~= word);
    assert(b =~= s.skip(n + 1));
}

/// Reads an import identifier of the form `playlist:<id>` or `album:<id>`.
pub fn import_target(id: &str) -> (r: Option<ImportTarget>)
    ensures
        match r {
            Some(ImportTarget::Playlist(x)) => id@ == "playlist:"@ + x@,
            Some(ImportTarget::Album(x)) => id@ == "album:"@ + x@,
            None => !has_prefix(id@, "playlist:"@) && !has_prefix(id@, "album:"@),
        },
{
    proof {
        reveal_strlit("playlist:");
        reveal_strlit("album:");
        reveal_strlit("playlist");
        reveal_strlit("album");
        assert("playlist:"@ =~= "playlist"@ + seq![':']);
        assert("album:"@ =~= "album"@ + seq![':']);
        assert(!"playlist"@.contains(':'));
        assert(!"album"@.contains(':'));
    }
    match split_once_char(id, ':') {
        Some((kind, rest)) => {
            let kind = kind.to_owned();
            let playlist = "playlist".to_owned();
            let album = "album".to_owned();
            let ghost s = id@;
            proof {
                if has_prefix(s, "playlist:"@) {
                    lemma_first_colon_prefix(s, kind@, rest@, "playlist"@);
                }
                if has_prefix(s, "album:"@) {
                    lemma_first_colon_prefix(s, kind@, rest@, "album"@);
                }
            }
            if kind == playlist {
                assert(id@ =~= "playlist:"@ + rest@);
                Some(ImportTarget::Playlist(rest.to_owned()))
            } else if kind == album {
                assert(id@ =~= "album:"@ + rest@);
                Some(ImportTarget::Album(rest.to_owned()))
            } else {
                None
            }
        },
        None => {
            proof {
                if has_prefix(id@, "playlist:"@) {
                    assert(id@.take(9)[8] == id@[8]);
                    assert("playlist:"@[8] == ':');
                    assert(id@.contains(':'));
                }
                if has_prefix(id@, "album:"@) {
                    assert(id@.take(6)[5] == id@[5]);
                    assert("album:"@[5] == ':');
                    assert(id@.contains(':'));
                }
            }
            None
        },
    }
}

/// The embed address of the provider for an item of kind `kind`
/// (`track`, `playlist`, `album`) with identifier `id`.
pub open spec fn embed_url_of(kind: Seq<char>, id: Seq<char>) -> Seq<char> {
    "https://open.spotify.com/embed/"@ + kind + "/"@ + id + "?utm_source=generator"@
}

pub fn embed_url(kind: &str, id: &str) -> (r: String)
    ensures
        r@ == embed_url_of(kind@, id@),
{
    let mut out = "https://open.spotify.com/embed/".to_owned();
    append(&mut out, kind);
    append(&mut out, "/");
    append(&mut out, id);
    append(&mut out, "?utm_source=generator");
    out
}

/// A newly imported track: its embed address as preview, an empty record and
/// the baseline score.
pub fn new_spotify_item(id: String, name: String) -> (r: Item)
    ensures
        r.id == id,
        r.name == name,
        r.iframe matches Some(f) && f@ == embed_url_of("track"@, id@),
        r.wins == 0,
        r.losses == 0,
        r.score == crate::item::BASELINE_SCORE,
{
    let iframe = embed_url("track", id.as_str());
    Item::new(id, name, Some(iframe))
}

} // verus!
