//! The endpoint and id behind an object's URL.

use vstd::prelude::*;

use crate::error::ErrorChain;
use crate::number::{decimal_text, number_value, parse_u64};
use crate::split::{after_last, tail_after};
use crate::text::{
    cat2,
    chars_of,
    opt_text,
    same,
    string_of,
    trim_end_char,
    trim_start_char,
    trimmed_end_char,
    trimmed_start_char,
    Text,
};

verus! {

/// The path of a URL, as `reqwest::Url` reads it, or what it says of a text that is
/// no URL.
pub uninterp spec fn url_path(url: Seq<char>) -> Result<Seq<char>, Seq<char>>;

/// A URL relative to a base, as `reqwest::Url` makes it; `None` when either is no
/// URL or the base cannot be one for it.
pub uninterp spec fn url_relative(base: Seq<char>, url: Seq<char>) -> Option<Seq<char>>;

/// `reqwest::Url`: `parse`, then `path`. The result depends on the text alone.
#[verifier::external_body]
fn parse_path(url: &str) -> (r: Result<String, String>)
    ensures
        match r {
            Ok(path) => url_path(url@) is Ok && url_path(url@)->Ok_0 == path@,
            Err(e) => url_path(url@) is Err && url_path(url@)->Err_0 == e@,
        },
{
    reqwest::Url::parse(url).map(|u| u.path().to_string()).map_err(|e| e.to_string())
}

/// `reqwest::Url`: `parse` of both, then `make_relative`. The result depends on
/// the two texts alone.
#[verifier::external_body]
fn parse_relative(base: &str, url: &str) -> (r: Option<String>)
    ensures
        opt_text(r) == url_relative(base@, url@),
{
    let base = reqwest::Url::parse(base).ok()?;
    let url = reqwest::Url::parse(url).ok()?;
    base.make_relative(&url)
}

/// A text without its leading copies of `./`.
pub open spec fn trim_dot_slash(s: Text) -> Text
    decreases s.len(),
{
    if s.len() >= 2 && s[0] == '.' && s[1] == '/' {
        trim_dot_slash(s.skip(2))
    } else {
        s
    }
}

fn trimmed_dot_slash(s: &str) -> (r: String)
    ensures
        r@ == trim_dot_slash(s@),
{
    let cs = chars_of(s);
    let mut from: usize = 0;
    proof {
        assert(cs@.skip(0) =~= cs@);
    }
    while cs.len() - from >= 2 && cs[from] == '.' && cs[from + 1] == '/'
        invariant
            from <= cs.len(),
            cs@ == s@,
            trim_dot_slash(s@) == trim_dot_slash(cs@.skip(from as int)),
        decreases cs.len() - from,
    {
        proof {
            assert(cs@.skip(from as int).skip(2) =~= cs@.skip(from as int + 2));
        }
        from = from + 2;
    }
    proof {
        assert(cs@.skip(from as int) =~= cs@.subrange(from as int, cs@.len() as int));
    }
    string_of(&cs, from, cs.len())
}

/// The endpoint for a relative URL: its path, with exactly one leading slash.
pub open spec fn endpoint_text(relative: Text) -> Text {
    "/"@ + trim_start_char(trim_dot_slash(relative), '/')
}

/// The endpoint for a relative URL.
pub fn endpoint_from_relative(relative: &str) -> (r: String)
    ensures
        r@ == endpoint_text(relative@),
{
    let bare = trimmed_dot_slash(relative);
    let path = trimmed_start_char(bare.as_str(), '/');
    cat2("/", path.as_str())
}

/// The id in a path: its last segment, when that is a number.
pub open spec fn path_id(path: Text) -> Option<nat> {
    number_value(after_last(trim_end_char(path, '/'), '/'), u64::MAX as nat)
}

/// The id in a path.
pub fn id_from_path(path: &str) -> (r: Option<u64>)
    ensures
        match r {
            Some(n) => path_id(path@) == Some(n as nat),
            None => path_id(path@) is None,
        },
{
    let trimmed = trimmed_end_char(path, '/');
    let last = tail_after(trimmed.as_str(), '/');
    parse_u64(last.as_str())
}

/// The endpoint and id, from the path of a URL and the URL relative to the base.
/// What is wrong is told by messages, the outermost first.
pub open spec fn target_of(path: Result<Text, Text>, relative: Option<Text>) -> Result<
    (Text, nat),
    Seq<Text>,
> {
    match path {
        Err(cause) => Err(seq!["parsing resolved object URL"@, cause]),
        Ok(p) => match relative {
            None => Err(seq!["stripping base URL from resolved object URL"@]),
            Some(rel) => match path_id(p) {
                None => Err(seq!["extracting object id from resolved URL"@]),
                Some(id) => Ok((endpoint_text(rel), id)),
            },
        },
    }
}

/// Whether a result is the one that a path and a relative URL give.
pub open spec fn is_target(
    r: Result<(String, u64), ErrorChain>,
    path: Result<Text, Text>,
    relative: Option<Text>,
) -> bool {
    match target_of(path, relative) {
        Ok((endpoint, id)) => r is Ok && r->Ok_0.0@ == endpoint && r->Ok_0.1 == id,
        Err(notes) => r is Err && r->Err_0.says(notes),
    }
}

/// The view of a path that was read.
pub open spec fn path_view(path: Result<String, String>) -> Result<Text, Text> {
    match path {
        Ok(p) => Ok(p@),
        Err(e) => Err(e@),
    }
}

/// The endpoint and id, from the path of a URL and the URL relative to the base.
pub fn target_from_parts(path: Result<String, String>, relative: Option<String>) -> (r: Result<
    (String, u64),
    ErrorChain,
>)
    ensures
        is_target(r, path_view(path), opt_text(relative)),
{
    let p = match path {
        Ok(p) => p,
        Err(e) => return Err(ErrorChain::caused("parsing resolved object URL", e)),
    };
    let rel = match relative {
        Some(r) => r,
        None => return Err(
            ErrorChain::note("stripping base URL from resolved object URL".to_owned()),
        ),
    };
    match id_from_path(p.as_str()) {
        Some(id) => Ok((endpoint_from_relative(rel.as_str()), id)),
        None => Err(ErrorChain::note("extracting object id from resolved URL".to_owned())),
    }
}

/// The endpoint and id of the object at a URL, on the server at a base URL.
pub fn resolve_tag_target_endpoint(base_url: &str, url: &str) -> (r: Result<
    (String, u64),
    ErrorChain,
>)
    ensures
        is_target(r, url_path(url@), url_relative(base_url@, url@)),
{
    let path = parse_path(url);
    let relative = parse_relative(base_url, url);
    target_from_parts(path, relative)
}

/// Whether a kind is an address. A write to one must not pick among several.
pub open spec fn is_address_kind(kind: Text) -> bool {
    kind == "ip"@ || kind == "ip-address"@ || kind == "address"@
}

/// Whether a kind is an address.
pub fn names_an_address(kind: &str) -> (r: bool)
    ensures
        r == is_address_kind(kind@),
{
    same(kind, "ip") || same(kind, "ip-address") || same(kind, "address")
}

/// An endpoint has exactly one leading slash.
pub proof fn endpoints_have_one_slash(relative: Text)
    ensures
        endpoint_text(relative).len() > 0,
        endpoint_text(relative)[0] == '/',
        endpoint_text(relative).len() > 1 ==> endpoint_text(relative)[1] != '/',
{
    reveal_strlit("/");
    trim_start_char_stops(trim_dot_slash(relative), '/');
}

proof fn trim_start_char_stops(s: Text, c: char)
    ensures
        trim_start_char(s, c).len() > 0 ==> trim_start_char(s, c)[0] != c,
    decreases s.len(),
{
    if s.len() > 0 && s[0] == c {
        trim_start_char_stops(s.skip(1), c);
    }
}

/// The endpoint of an object is the path behind the base URL: leading `./` and slashes
/// are dropped for one slash, and the rest is kept.
pub proof fn endpoints_keep_the_path(rest: Text)
    ensures
        rest.len() > 0 && rest[0] != '.' && rest[0] != '/' ==> endpoint_text(rest) == "/"@ + rest
            && endpoint_text("/"@ + rest) == "/"@ + rest && endpoint_text("./"@ + rest) == "/"@
            + rest,
        endpoint_text("./"@ + rest) == endpoint_text(rest),
{
    reveal_strlit("/");
    reveal_strlit("./");
    let dotted = "./"@ + rest;
    assert(dotted.skip(2) =~= rest);
    reveal_with_fuel(trim_dot_slash, 2);
    reveal_with_fuel(trim_start_char, 3);
    let slashed = "/"@ + rest;
    assert(slashed.skip(1) =~= rest);
}

/// An object's id is the last number of its path, whether or not a slash follows it.
pub proof fn paths_end_in_their_id(front: Text, id: u64)
    requires
        front.len() > 0,
        front.last() == '/',
    ensures
        path_id(front + decimal_text(id as nat)) == Some(id as nat),
        path_id(front + decimal_text(id as nat) + "/"@) == Some(id as nat),
{
    let d = decimal_text(id as nat);
    let s = front + d;
    reveal_strlit("/");
    crate::number::decimal_reads_back(id as nat);
    crate::split::tails_are_behind_the_last(s, '/');
    assert(s.last() == d.last());
    assert(d.last() != '/');
    assert((s + "/"@).drop_last() =~= s);
    reveal_with_fuel(trim_end_char, 2);
    assert(trim_end_char(s, '/') == s);
    assert(trim_end_char(s + "/"@, '/') == s);
    let at = crate::split::after_last_index(s, '/') as int;
    assert(s[front.len() - 1] == '/');
    if at < front.len() {
        let tail = crate::split::after_last(s, '/');
        assert(tail[front.len() - 1 - at] == '/');
        assert(tail.contains('/'));
    }
    if at > front.len() {
        assert(s[at - 1] == d[at - 1 - front.len()]);
    }
    assert(crate::split::after_last(s, '/') =~= d);
    crate::number::decimal_round_trip(id as nat, u64::MAX as nat);
}

/// A resolved URL gives a target when it can be read, lies under the base URL and ends
/// in an id; each of these that fails is named.
pub proof fn targets_are_found_or_refused(
    r: Result<(String, u64), ErrorChain>,
    path: Result<Text, Text>,
    relative: Option<Text>,
)
    requires
        is_target(r, path, relative),
    ensures
        r is Ok <==> path is Ok && relative is Some && path_id(path->Ok_0) is Some,
        r is Ok ==> r->Ok_0.0@ == endpoint_text(relative->0) && Some(r->Ok_0.1 as nat) == path_id(
            path->Ok_0,
        ),
        path is Err ==> r->Err_0.says(seq!["parsing resolved object URL"@, path->Err_0]),
        path is Ok && relative is None ==> r->Err_0.says(
            seq!["stripping base URL from resolved object URL"@],
        ),
        path is Ok && relative is Some && path_id(path->Ok_0) is None ==> r->Err_0.says(
            seq!["extracting object id from resolved URL"@],
        ),
        forall|kind: Text| #[trigger]
            is_address_kind(kind) <==> (kind == "ip"@ || kind == "ip-address"@ || kind
                == "address"@),
{
}

} // verus!
