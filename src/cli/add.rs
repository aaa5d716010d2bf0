//! The `add` command: where a module is looked up and where it is cloned to.

use vstd::prelude::*;

verus! {

/// Arguments of the `add` command.
pub struct Cli {
    /// The module to add.
    pub package: String,
}

/// Endpoint that finds a module by language and name.
pub const MODULES_API: &'static str = "https://customs-server.vercel.app/api/modules/find/";

/// Host of the modules' repositories.
pub const GITHUB: &'static str = "https://github.com/";

/// Directory, under the working directory, that receives added modules.
pub const MODULES_DIR: &'static str = "CustomsModules";

pub open spec fn lookup_url(language: Seq<char>, package: Seq<char>) -> Seq<char> {
    MODULES_API@ + language + "/"@ + package
}

/// `s` without the `"` characters at its start.
pub open spec fn strip_quotes_start(s: Seq<char>) -> Seq<char>
    decreases s.len(),
{
    if s.len() > 0 && s[0] == '"' {
        strip_quotes_start(s.drop_first())
    } else {
        s
    }
}

/// `s` without the `"` characters at its end.
pub open spec fn strip_quotes_end(s: Seq<char>) -> Seq<char>
    decreases s.len(),
{
    if s.len() > 0 && s.last() == '"' {
        strip_quotes_end(s.drop_last())
    } else {
        s
    }
}

pub open spec fn unquoted(s: Seq<char>) -> Seq<char> {
    strip_quotes_end(strip_quotes_start(s))
}

/// The URL that finds `package` for `language`.
pub fn module_url(language: &str, package: &str) -> (r: String)
    ensures
        r@ == lookup_url(language@, package@),
{
    let mut r = String::from_str(MODULES_API);
    r.append(language);
    r.append("/");
    r.append(package);
    r
}

/// `s` with the `"` characters at either end removed.
pub fn strip_quotes(s: &str) -> (r: String)
    ensures
        r@ == unquoted(s@),
{
    let n = s.unicode_len();
    let mut lo: usize = 0;
    assert(s@.subrange(0, n as int) == s@);
    while lo < n && s.get_char(lo) == '"'
        invariant
            n == s@.len(),
            lo <= n,
            strip_quotes_start(s@) == strip_quotes_start(s@.subrange(lo as int, n as int)),
        decreases n - lo,
    {
        assert(s@.subrange(lo as int, n as int).drop_first() == s@.subrange(lo + 1, n as int));
        lo = lo + 1;
    }
    assert(strip_quotes_start(s@) == s@.subrange(lo as int, n as int)) by {
        let rest = s@.subrange(lo as int, n as int);
        if rest.len() > 0 {
            assert(rest[0] == s@[lo as int]);
        }
    }
    let mut hi: usize = n;
    while hi > lo && s.get_char(hi - 1) == '"'
        invariant
            n == s@.len(),
            lo <= hi <= n,
            unquoted(s@) == strip_quotes_end(s@.subrange(lo as int, hi as int)),
        decreases hi - lo,
    {
        assert(s@.subrange(lo as int, hi as int).drop_last() == s@.subrange(lo as int, hi - 1));
        hi = hi - 1;
    }
    assert(unquoted(s@) == s@.subrange(lo as int, hi as int)) by {
        let rest = s@.subrange(lo as int, hi as int);
        if rest.len() > 0 {
            assert(rest.last() == s@[hi - 1]);
        }
    }
    String::from_str(s.substring_char(lo, hi))
}

/// The repository URL for the `gitrepo` field of a lookup reply, as the
/// field's text (quotes around it are dropped).
pub fn repository_url(gitrepo: &str) -> (r: String)
    ensures
        r@ == GITHUB@ + unquoted(gitrepo@),
{
    let mut r = String::from_str(GITHUB);
    let name = strip_quotes(gitrepo);
    r.append(name.as_str());
    r
}

/// Where `package` is cloned, under the working directory `current_dir`.
pub fn module_dir(current_dir: &str, package: &str) -> (r: String)
    ensures
        r@ == current_dir@ + "/"@ + MODULES_DIR@ + "/"@ + package@,
{
    let mut r = String::from_str(current_dir);
    r.append("/");
    r.append(MODULES_DIR);
    r.append("/");
    r.append(package);
    r
}

} // verus!
