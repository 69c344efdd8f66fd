//! Finding a video's id in what a user pasted: a bare id, a short link or
//! a watch address.
use vstd::prelude::*;
use vstd::string::StringSliceAdditionalSpecFns;
use crate::oauth::texts;
use crate::text::same_text;

verus! {

/// The host of `s` read as a URL; `None` where it does not parse or has no
/// host.
pub uninterp spec fn url_host(s: Seq<char>) -> Option<Seq<char>>;

/// The path segments of `s` read as a URL; `None` where it does not parse
/// or cannot be a base.
pub uninterp spec fn url_path_segments(s: Seq<char>) -> Option<Seq<Seq<char>>>;

/// The decoded query pairs of `s` read as a URL, in order; none where it
/// does not parse.
pub uninterp spec fn url_query_pairs(s: Seq<char>) -> Seq<(Seq<char>, Seq<char>)>;

/// The view of an optional text.
pub open spec fn opt_text(o: Option<String>) -> Option<Seq<char>> {
    match o {
        Some(s) => Some(s@),
        None => None,
    }
}

/// The views of a list of pairs of texts.
pub open spec fn pair_texts(v: Seq<(String, String)>) -> Seq<(Seq<char>, Seq<char>)> {
    v.map_values(|p: (String, String)| (p.0@, p.1@))
}

/// The host of `input` read as a URL. Relies on `url::Url::parse` and
/// `Url::host_str`.
#[verifier::external_body]
fn host_of(input: &str) -> (r: Option<String>)
    ensures
        opt_text(r) == url_host(input@),
{
    url::Url::parse(input).ok().and_then(|u| u.host_str().map(String::from))
}

/// The path segments of `input` read as a URL. Relies on `url::Url::parse`
/// and `Url::path_segments`, which splits the path after its leading `/`
/// at each `/`, so yields at least one segment.
#[verifier::external_body]
fn path_segments_of(input: &str) -> (r: Option<Vec<String>>)
    ensures
        match r {
            Some(v) => url_path_segments(input@) == Some(texts(v@)) && v@.len() >= 1,
            None => url_path_segments(input@) is None,
        },
{
    url::Url::parse(input).ok().and_then(|u| u.path_segments().map(|p| p.map(String::from).collect()))
}

/// The query pairs of `input` read as a URL. Relies on `url::Url::parse`
/// and `Url::query_pairs`.
#[verifier::external_body]
fn query_pairs_of(input: &str) -> (r: Vec<(String, String)>)
    ensures
        pair_texts(r@) == url_query_pairs(input@),
{
    match url::Url::parse(input) {
        Ok(u) => u.query_pairs().map(|(k, v)| (k.into_owned(), v.into_owned())).collect(),
        Err(_) => Vec::new(),
    }
}

/// A bare id: eleven bytes, with no `/` and no `?`.
pub open spec fn is_bare_id(bytes: Seq<u8>) -> bool {
    bytes.len() == 11 && !bytes.contains(0x2Fu8) && !bytes.contains(0x3Fu8)
}

/// The value of the first pair whose key is `key`.
pub open spec fn first_value(pairs: Seq<(Seq<char>, Seq<char>)>, key: Seq<char>) -> Option<Seq<char>>
    decreases pairs.len(),
{
    if pairs.len() == 0 {
        None
    } else if pairs[0].0 == key {
        Some(pairs[0].1)
    } else {
        first_value(pairs.drop_first(), key)
    }
}

/// The id that a link with these parts names: the last path segment of a
/// short link, the `v` parameter of a watch address.
pub open spec fn id_from_link(
    host: Option<Seq<char>>,
    segments: Option<Seq<Seq<char>>>,
    pairs: Seq<(Seq<char>, Seq<char>)>,
) -> Option<Seq<char>> {
    match host {
        Some(h) => if h == "youtu.be"@ {
            match segments {
                Some(s) => if s.len() > 0 {
                    Some(s.last())
                } else {
                    None
                },
                None => None,
            }
        } else if h == "youtube.com"@ || h == "www.youtube.com"@ {
            first_value(pairs, "v"@)
        } else {
            None
        },
        None => None,
    }
}

/// The id of the video that `input` names.
pub open spec fn video_id_spec(bytes: Seq<u8>, s: Seq<char>) -> Option<Seq<char>> {
    if is_bare_id(bytes) {
        Some(s)
    } else {
        id_from_link(url_host(s), url_path_segments(s), url_query_pairs(s))
    }
}

fn has_byte(b: &[u8], x: u8) -> (r: bool)
    ensures
        r == b@.contains(x),
{
    let mut i: usize = 0;
    while i < b.len()
        invariant
            i <= b@.len(),
            forall|j: int| 0 <= j < i ==> b@[j] != x,
        decreases b@.len() - i,
    {
        if b[i] == x {
            return true;
        }
        i += 1;
    }
    false
}

/// Whether `input` is a bare id.
pub fn bare_id(input: &str) -> (r: bool)
    ensures
        r == is_bare_id(input.spec_bytes()),
{
    let b = input.as_bytes();
    b.len() == 11 && !has_byte(b, 0x2F) && !has_byte(b, 0x3F)
}

/// The id that a link with these parts names.
pub fn video_id_from_parts(
    host: Option<String>,
    segments: Option<Vec<String>>,
    pairs: Vec<(String, String)>,
) -> (r: Option<String>)
    ensures
        opt_text(r) == id_from_link(
            opt_text(host),
            match segments {
                Some(v) => Some(texts(v@)),
                None => None,
            },
            pair_texts(pairs@),
        ),
{
    let ghost host_view = opt_text(host);
    let h = match host {
        Some(h) => h,
        None => {
            return None;
        },
    };
    assert(host_view == Some(h@));
    if same_text(h.as_str(), "youtu.be") {
        match segments {
            Some(mut s) => {
                let ghost before = s@;
                match s.pop() {
                    Some(last) => {
                        assert(texts(before).last() == last@);
                        Some(last)
                    },
                    None => None,
                }
            },
            None => None,
        }
    } else if same_text(h.as_str(), "youtube.com") || same_text(h.as_str(), "www.youtube.com") {
        let mut i: usize = 0;
        assert(pair_texts(pairs@).subrange(0, pairs@.len() as int) =~= pair_texts(pairs@));
        while i < pairs.len()
            invariant
                i <= pairs@.len(),
                h@ != "youtu.be"@,
                h@ == "youtube.com"@ || h@ == "www.youtube.com"@,
                host_view == Some(h@),
                host_view == opt_text(host),
                first_value(pair_texts(pairs@), "v"@) == first_value(
                    pair_texts(pairs@).subrange(i as int, pairs@.len() as int),
                    "v"@,
                ),
            decreases pairs@.len() - i,
        {
            let ghost rest = pair_texts(pairs@).subrange(i as int, pairs@.len() as int);
            assert(rest.drop_first() =~= pair_texts(pairs@).subrange(i + 1, pairs@.len() as int));
            assert(rest[0] == pair_texts(pairs@)[i as int]);
            if same_text(pairs[i].0.as_str(), "v") {
                let v = pairs[i].1.clone();
                assert(rest[0].0 == "v"@);
                assert(first_value(pair_texts(pairs@), "v"@) == Some(v@));
                return Some(v);
            }
            i += 1;
        }
        None
    } else {
        None
    }
}

/// The id of the video that `input` names: `input` itself where it is a
/// bare id, else the id in the link.
pub fn extract_video_id(input: &str) -> (r: Option<String>)
    ensures
        opt_text(r) == video_id_spec(input.spec_bytes(), input@),
{
    if bare_id(input) {
        return Some(input.to_owned());
    }
    let host = host_of(input);
    let segments = path_segments_of(input);
    let pairs = query_pairs_of(input);
    video_id_from_parts(host, segments, pairs)
}

} // verus!
