//! The command line of the server program, as plain data, and the version note of its help.
use vstd::prelude::*;

use crate::text::{chars_of, is_space, is_space_char, lemma_trim_start_skip, string_of, trim_start};

verus! {

/// Command line of the server program.
#[derive(Debug, Clone, PartialEq, Eq)]
pub struct Cli {
    /// Path to the config file.
    pub config: Option<String>,
    /// Verbose output.
    pub verbose: bool,
    pub command: Commands,
}

/// What the program does.
#[derive(Debug, Clone, PartialEq, Eq)]
pub enum Commands {
    /// Start the server on standard input and output.
    Serve,
    /// List the configured accounts.
    Accounts,
    /// Test the connection for an account (the default account if none is named).
    Test { account: Option<String> },
}

/// `line` without a leading `gh version `.
pub open spec fn after_tool_name(line: Seq<char>) -> Seq<char> {
    if "gh version "@.is_prefix_of(line) {
        line.skip("gh version "@.len() as int)
    } else {
        line
    }
}

/// Whether `k` is where the first word of `t` (which starts with no white space) ends.
pub open spec fn is_word_end(t: Seq<char>, k: int) -> bool {
    &&& 0 < k <= t.len()
    &&& forall|j: int| 0 <= j < k ==> !is_space(#[trigger] t[j])
    &&& (k == t.len() || is_space(t[k]))
}

/// The version number in the first line that `gh --version` prints: the first word after
/// `gh version `, or `unknown` where there is none.
pub fn tool_version(line: &str) -> (r: String)
    ensures
        ({
            let t = trim_start(after_tool_name(line@));
            if t.len() == 0 {
                r@ == "unknown"@
            } else {
                exists|k: int| is_word_end(t, k) && r@ == t.take(k)
            }
        }),
{
    let v = chars_of(line);
    let p = chars_of("gh version ");
    let mut matched = v.len() >= p.len();
    let mut i: usize = 0;
    while matched && i < p.len()
        invariant
            i <= p@.len(),
            p@ == "gh version "@,
            v@ == line@,
            matched <==> (p@.len() <= v@.len() && forall|j: int| 0 <= j < i ==> p@[j] == v@[j]),
        decreases p@.len() - i,
    {
        if p[i] != v[i] {
            matched = false;
        }
        i += 1;
    }
    proof {
        if matched {
            assert(p@ =~= v@.take(p@.len() as int));
        } else if "gh version "@.is_prefix_of(line@) {
            assert forall|j: int| 0 <= j < i implies p@[j] == v@[j] by {
                assert(v@.subrange(0, p@.len() as int)[j] == v@[j]);
            }
        }
    }
    let start: usize = if matched { p.len() } else { 0 };
    assert(v@.skip(start as int) =~= after_tool_name(line@)) by {
        if !matched {
            assert(v@.skip(0) =~= v@);
        }
    };
    let mut lo: usize = start;
    while lo < v.len() && is_space_char(v[lo])
        invariant
            start <= lo <= v@.len(),
            forall|j: int| start <= j < lo ==> is_space(#[trigger] v@[j]),
        decreases v@.len() - lo,
    {
        lo += 1;
    }
    let ghost rest = v@.skip(start as int);
    proof {
        assert forall|j: int| 0 <= j < lo - start implies is_space(#[trigger] rest[j]) by {
            assert(rest[j] == v@[start + j]);
        }
        lemma_trim_start_skip(rest, lo - start);
        assert(rest.subrange(lo - start, rest.len() as int) =~= v@.skip(lo as int));
    }
    let ghost t = v@.skip(lo as int);
    assert(t.len() > 0 ==> !is_space(t[0]));
    assert(trim_start(t) == t);
    if lo == v.len() {
        return String::from_str("unknown");
    }
    let mut hi: usize = lo;
    while hi < v.len() && !is_space_char(v[hi])
        invariant
            lo <= hi <= v@.len(),
            forall|j: int| lo <= j < hi ==> !is_space(#[trigger] v@[j]),
        decreases v@.len() - hi,
    {
        hi += 1;
    }
    proof {
        assert forall|j: int| 0 <= j < hi - lo implies !is_space(#[trigger] t[j]) by {
            assert(t[j] == v@[lo + j]);
        }
        assert(is_word_end(t, hi - lo));
    }
    let r = string_of(&v, lo, hi);
    assert(r@ =~= t.take(hi - lo));
    r
}

} // verus!
