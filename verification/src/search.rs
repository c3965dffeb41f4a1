//! A verified line search: given a query and a body of text, find the
//! lines the query occurs in, exactly or ignoring case.

use vstd::prelude::*;
use crate::text::{lower_of, lowercase, spec_contains, spec_lines, split_lines, str_contains,
    views_of};

verus! {

/// How a search is set up: what to look for, where, and whether case
/// matters.
pub struct Config {
    pub query: String,
    pub filename: String,
    pub case_sensitive: bool,
}

impl Config {
    /// Builds a configuration from command-line style arguments — the
    /// argument at position zero is the program's own name — and a
    /// case flag the caller has read from its surroundings.
    pub fn new(args: &Vec<String>, case_sensitive: bool) -> (r: Result<Config, &'static str>)
        ensures
            args@.len() >= 3 ==> (r matches Ok(c) && c.query@ == args@[1]@ && c.filename@
                == args@[2]@ && c.case_sensitive == case_sensitive),
            args@.len() < 3 ==> (r matches Err(m) && m@ == "Not enough input arguments."@),
    {
        if args.len() < 3 {
            return Err("Not enough input arguments.");
        }
        let query = args[1].clone();
        let filename = args[2].clone();
        Ok(Config { query, filename, case_sensitive })
    }
}

/// Whether a line is kept by the search: it holds the query as it
/// stands, or — when case is ignored — in lower-case form.
pub open spec fn line_matches(line: Seq<char>, query: Seq<char>, ignore_case: bool) -> bool {
    if ignore_case {
        spec_contains(lower_of(line), lower_of(query))
    } else {
        spec_contains(line, query)
    }
}

/// The lines among `lines`, in order, that the search keeps.
pub open spec fn matching_lines(lines: Seq<Seq<char>>, query: Seq<char>, ignore_case: bool) -> Seq<
    Seq<char>,
>
    decreases lines.len(),
{
    if lines.len() == 0 {
        Seq::empty()
    } else {
        let rest = matching_lines(lines.drop_last(), query, ignore_case);
        if line_matches(lines.last(), query, ignore_case) {
            rest.push(lines.last())
        } else {
            rest
        }
    }
}

/// The lines of `contents` that contain `query` exactly, in order.
pub fn search(query: &str, contents: &str) -> (res: Vec<String>)
    ensures
        views_of(res@) == matching_lines(spec_lines(contents@), query@, false),
{
    let lines = split_lines(contents);
    let mut res: Vec<String> = Vec::new();
    let n = lines.len();
    let mut i: usize = 0;
    proof {
        assert(lines@.subrange(0, 0).len() == 0);
        assert(views_of(lines@.subrange(0, 0)) =~= Seq::<Seq<char>>::empty());
        assert(views_of(res@) =~= matching_lines(
            views_of(lines@.subrange(0, 0)),
            query@,
            false,
        ));
    }
    while i < n
        invariant
            n == lines@.len(),
            i <= n,
            views_of(lines@) == spec_lines(contents@),
            views_of(res@) == matching_lines(views_of(lines@.subrange(0, i as int)), query@, false),
        decreases n - i,
    {
        let line = &lines[i];
        proof {
            let prefix = views_of(lines@.subrange(0, i as int));
            let next = views_of(lines@.subrange(0, i + 1));
            assert(next.drop_last() =~= prefix);
            assert(next.last() == lines@[i as int]@);
        }
        if str_contains(line.as_str(), query) {
            res.push(line.clone());
        }
        i += 1;
    }
    proof {
        assert(lines@.subrange(0, n as int) =~= lines@);
    }
    res
}

/// The lines of `contents` that contain `query` with case ignored, in
/// order; the lines come back in their original spelling.
pub fn ci_search(query: &str, contents: &str) -> (res: Vec<String>)
    ensures
        views_of(res@) == matching_lines(spec_lines(contents@), query@, true),
{
    let query_lower = lowercase(query);
    let lines = split_lines(contents);
    let mut res: Vec<String> = Vec::new();
    let n = lines.len();
    let mut i: usize = 0;
    proof {
        assert(lines@.subrange(0, 0).len() == 0);
        assert(views_of(lines@.subrange(0, 0)) =~= Seq::<Seq<char>>::empty());
        assert(views_of(res@) =~= matching_lines(views_of(lines@.subrange(0, 0)), query@, true));
    }
    while i < n
        invariant
            n == lines@.len(),
            i <= n,
            query_lower@ == lower_of(query@),
            views_of(lines@) == spec_lines(contents@),
            views_of(res@) == matching_lines(views_of(lines@.subrange(0, i as int)), query@, true),
        decreases n - i,
    {
        let line = &lines[i];
        proof {
            let prefix = views_of(lines@.subrange(0, i as int));
            let next = views_of(lines@.subrange(0, i + 1));
            assert(next.drop_last() =~= prefix);
            assert(next.last() == lines@[i as int]@);
        }
        let line_lower = lowercase(line.as_str());
        if str_contains(line_lower.as_str(), query_lower.as_str()) {
            res.push(line.clone());
        }
        i += 1;
    }
    proof {
        assert(lines@.subrange(0, n as int) =~= lines@);
    }
    res
}

} // verus!
