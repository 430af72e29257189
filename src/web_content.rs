//! What link enrichment keeps of a fetched page. Fetching and article
//! extraction are done by the caller; this decides which links are fetched
//! and cleans what extraction gave.
use crate::domain::WebContent;
use crate::text::{chars_of, push_char, trim, trim_ws};
use vstd::prelude::*;

verus! {

/// The scheme of `raw` as a URL parser reads it, in lower case; `None` when
/// `raw` is not an absolute URL.
pub uninterp spec fn url_scheme_of(raw: Seq<char>) -> Option<Seq<char>>;

/// Relies on `url::Url::parse` and `Url::scheme`: the scheme of an absolute
/// URL, or nothing when parsing fails.
#[verifier::external_body]
fn url_scheme(raw: &str) -> (r: Option<String>)
    ensures
        match r {
            Some(s) => url_scheme_of(raw@) == Some(s@),
            None => url_scheme_of(raw@) is None,
        },
{
    url::Url::parse(raw).ok().map(|u| u.scheme().to_string())
}

/// Only web pages are fetched: a link whose scheme is `http` or `https`.
pub open spec fn fetchable(raw: Seq<char>) -> bool {
    url_scheme_of(raw) == Some("http"@) || url_scheme_of(raw) == Some("https"@)
}

pub fn is_fetchable(raw: &str) -> (r: bool)
    ensures
        r == fetchable(raw@),
{
    match url_scheme(raw) {
        Some(s) => s == "http".to_owned() || s == "https".to_owned(),
        None => false,
    }
}

/// Trimmed text, or nothing when it is blank.
pub open spec fn cleaned(value: Option<Seq<char>>) -> Option<Seq<char>> {
    match value {
        Some(v) => if trim_ws(v).len() > 0 {
            Some(trim_ws(v))
        } else {
            None
        },
        None => None,
    }
}

pub open spec fn string_view(o: Option<String>) -> Option<Seq<char>> {
    match o {
        Some(s) => Some(s@),
        None => None,
    }
}

pub fn clean_str(value: Option<String>) -> (r: Option<String>)
    ensures
        string_view(r) == cleaned(string_view(value)),
{
    match value {
        Some(v) => {
            let t = trim(v.as_str());
            if t.as_str().is_empty() {
                None
            } else {
                Some(t)
            }
        },
        None => None,
    }
}

/// Bytes that `c` takes in UTF-8.
pub open spec fn utf8_width(c: char) -> nat {
    if (c as u32) < 0x80 {
        1
    } else if (c as u32) < 0x800 {
        2
    } else if (c as u32) < 0x10000 {
        3
    } else {
        4
    }
}

/// Bytes that `s` takes in UTF-8.
pub open spec fn utf8_len(s: Seq<char>) -> nat
    decreases s.len(),
{
    if s.len() == 0 {
        0
    } else {
        utf8_len(s.drop_last()) + utf8_width(s.last())
    }
}

/// The longest prefix of `s` that fits in `max` bytes of UTF-8, taken from
/// the first `n` characters.
pub open spec fn fitting_prefix(s: Seq<char>, max: nat, n: nat) -> Seq<char>
    decreases n,
{
    if n > s.len() {
        fitting_prefix(s, max, s.len())
    } else if utf8_len(s.take(n as int)) <= max {
        s.take(n as int)
    } else if n == 0 {
        Seq::empty()
    } else {
        fitting_prefix(s, max, (n - 1) as nat)
    }
}

/// The longest prefix of `s` that fits in `max` bytes of UTF-8.
pub open spec fn truncated(s: Seq<char>, max: nat) -> Seq<char> {
    fitting_prefix(s, max, s.len())
}

fn width(c: char) -> (r: usize)
    ensures
        r == utf8_width(c),
{
    if (c as u32) < 0x80 {
        1
    } else if (c as u32) < 0x800 {
        2
    } else if (c as u32) < 0x10000 {
        3
    } else {
        4
    }
}

proof fn lemma_fitting_stops(s: Seq<char>, max: nat, n: nat, k: nat)
    requires
        k <= n <= s.len(),
        utf8_len(s.take(k as int)) <= max,
        forall|j: nat| k < j <= n ==> utf8_len(#[trigger] s.take(j as int)) > max,
    ensures
        fitting_prefix(s, max, n) == s.take(k as int),
    decreases n,
{
    if n > k {
        lemma_fitting_stops(s, max, (n - 1) as nat, k);
    }
}

proof fn lemma_utf8_len_grows(s: Seq<char>, i: int, j: int)
    requires
        0 <= i <= j <= s.len(),
    ensures
        utf8_len(s.take(i)) <= utf8_len(s.take(j)),
    decreases j - i,
{
    if i < j {
        lemma_utf8_len_grows(s, i, j - 1);
        assert(s.take(j).drop_last() =~= s.take(j - 1));
    }
}

/// Cuts `s` to the longest prefix that fits in `max` bytes of UTF-8,
/// never inside a character.
pub fn truncate_utf8(s: &str, max: usize) -> (r: String)
    ensures
        r@ == truncated(s@, max as nat),
{
    let v = chars_of(s);
    let mut out = String::new();
    let mut used: usize = 0;
    let mut i: usize = 0;
    while i < v.len()
        invariant
            i <= v@.len(),
            v@ == s@,
            out@ == v@.take(i as int),
            used == utf8_len(v@.take(i as int)),
            used <= max,
        decreases v@.len() - i,
    {
        let w = width(v[i]);
        assert(v@.take(i + 1).drop_last() =~= v@.take(i as int));
        if w > max - used {
            proof {
                assert forall|j: nat| i < j <= v@.len() implies utf8_len(#[trigger] v@.take(j as int)) > max by {
                    lemma_utf8_len_grows(v@, i + 1, j as int);
                }
                lemma_fitting_stops(v@, max as nat, v@.len(), i as nat);
            }
            return out;
        }
        push_char(&mut out, v[i]);
        used = used + w;
        i = i + 1;
    }
    proof {
        assert(v@.take(v@.len() as int) =~= v@);
        lemma_fitting_stops(v@, max as nat, v@.len(), v@.len());
    }
    out
}

/// What is kept of an extracted article: its cleaned title and site name,
/// and its trimmed text cut to `max_len` bytes, when anything is left.
pub open spec fn kept_content(title: Seq<char>, site_name: Option<Seq<char>>, text: Seq<char>, max_len: nat) -> (
    Option<Seq<char>>,
    Option<Seq<char>>,
    Option<Seq<char>>,
) {
    let body = truncated(trim_ws(text), max_len);
    (cleaned(Some(title)), cleaned(site_name), if body.len() > 0 {
        Some(body)
    } else {
        None
    })
}

/// Builds the description of a page from what article extraction gave.
pub fn build_web_content(title: String, site_name: Option<String>, text: String, max_len: usize) -> (r: WebContent)
    ensures
        (string_view(r.title), string_view(r.site_name), string_view(r.content)) == kept_content(
            title@,
            string_view(site_name),
            text@,
            max_len as nat,
        ),
{
    let t = clean_str(Some(title));
    let site = clean_str(site_name);
    let trimmed = trim(text.as_str());
    let body = truncate_utf8(trimmed.as_str(), max_len);
    let content = if body.as_str().is_empty() {
        None
    } else {
        Some(body)
    };
    WebContent { title: t, site_name: site, content }
}

} // verus!
