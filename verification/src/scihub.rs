//! Building the link a DOI action opens. Probing which mirror hosts answer is
//! network work outside this crate; given the probe's answer, which link to
//! open is decided here.

use vstd::prelude::*;
use vstd::string::StringExecFns;

verus! {

/// The link for `doi` against the probed mirror list: the mirror at `index`,
/// clamped to the last one, joined with the DOI by a slash. Nothing to open
/// when no mirror answered.
pub open spec fn scihub_link_spec(urls: Seq<Seq<char>>, index: int, doi: Seq<char>) -> Option<
    Seq<char>,
> {
    if urls.len() == 0 {
        None
    } else {
        let chosen = if index < urls.len() {
            index
        } else {
            urls.len() - 1
        };
        Some(urls[chosen] + seq!['/'] + doi)
    }
}

/// Pick the mirror and build the link.
pub fn scihub_link(urls: &Vec<String>, index: usize, doi: &str) -> (r: Option<String>)
    ensures
        (r is None) == (urls@.len() == 0),
        r is Some ==> Some(r.unwrap()@) == scihub_link_spec(urls.deep_view(), index as int, doi@),
{
    if urls.len() == 0 {
        return None;
    }
    let chosen = if index < urls.len() {
        index
    } else {
        urls.len() - 1
    };
    let base = urls[chosen].clone();
    let link = base.concat("/").concat(doi);
    proof {
        reveal_strlit("/");
        assert("/"@ =~= seq!['/']);
        assert(urls.deep_view()[chosen as int] == urls@[chosen as int]@);
        assert(link@ =~= urls.deep_view()[chosen as int] + seq!['/'] + doi@);
    }
    Some(link)
}

} // verus!
