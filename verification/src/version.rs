//! Version information about the embedding program, as plain data.

use vstd::prelude::*;

verus! {

use vstd::string::StrSliceExecFns;
use vstd::string::StringExecFns;
use crate::text::push_char;

/// Build and package information the program hands to the pipeline.
#[derive(Debug)]
pub struct Version {
    pub pkg_name: String,
    pub pkg_version: String,
    pub pkg_repo: String,
    pub crate_name: String,
    pub commit_hash: String,
    pub long_version: String,
    pub target: String,
    pub app_crates: Vec<String>,
}

/// `s` with every `-` replaced by `_`: how a package name appears as a
/// crate name.
pub open spec fn spec_underscored(s: Seq<char>) -> Seq<char>
    decreases s.len(),
{
    if s.len() == 0 {
        Seq::empty()
    } else {
        spec_underscored(s.drop_last()) + seq![
            if s.last() == '-' {
                '_'
            } else {
                s.last()
            },
        ]
    }
}

/// Replaces every `-` in `s` by `_`.
pub fn underscored(s: &str) -> (r: String)
    ensures
        r@ == spec_underscored(s@),
{
    let n = s.unicode_len();
    let mut out = String::new();
    let mut i: usize = 0;
    while i < n
        invariant
            n == s@.len(),
            i <= n,
            out@ == spec_underscored(s@.take(i as int)),
        decreases n - i,
    {
        let c = s.get_char(i);
        if c == '-' {
            push_char(&mut out, '_');
        } else {
            push_char(&mut out, c);
        }
        proof {
            assert(s@.take(i + 1).drop_last() =~= s@.take(i as int));
            assert(s@.take(i + 1).last() == c);
        }
        i += 1;
    }
    proof {
        assert(s@.take(n as int) =~= s@);
    }
    out
}

/// The crate names whose events count as the application's own: the
/// package name and crate name in crate-name form, and this library.
pub fn base_app_crates(pkg_name: &str, crate_name: &str) -> (r: Vec<String>)
    ensures
        r@.len() == 3,
        r@[0]@ == spec_underscored(pkg_name@),
        r@[1]@ == spec_underscored(crate_name@),
        r@[2]@ == "cli_batteries"@,
{
    let mut out: Vec<String> = Vec::new();
    out.push(underscored(pkg_name));
    out.push(underscored(crate_name));
    out.push(String::from_str("cli_batteries"));
    out
}

} // verus!
