//! File-system paths as text, joined the way `PathBuf::push` joins a
//! relative name on Unix.

use vstd::prelude::*;

verus! {

/// `dir` followed by `name`, with one `/` between them unless `dir` is
/// empty or already ends with `/`.
pub open spec fn spec_join(dir: Seq<char>, name: Seq<char>) -> Seq<char> {
    if dir.len() == 0 {
        name
    } else if dir.last() == '/' {
        dir + name
    } else {
        dir + "/"@ + name
    }
}

pub fn join(dir: &str, name: &str) -> (p: String)
    ensures
        p@ == spec_join(dir@, name@),
{
    let n = dir.unicode_len();
    let mut p = dir.to_owned();
    if n > 0 && dir.get_char(n - 1) != '/' {
        p.push('/');
        proof {
            reveal_strlit("/");
            assert(p@ =~= dir@ + "/"@);
        }
    }
    p.append(name);
    p
}

/// The user's configuration directory, from `dirs::config_dir`; it depends
/// on the platform and the environment, so nothing is stated of it.
#[verifier::external_body]
pub(crate) fn dirs_config_dir() -> (r: Option<String>)
{
    match dirs::config_dir() {
        Some(p) => Some(p.to_string_lossy().into_owned()),
        None => None,
    }
}

/// The user's data directory, from `dirs::data_dir`; it depends on the
/// platform and the environment, so nothing is stated of it.
#[verifier::external_body]
pub(crate) fn dirs_data_dir() -> (r: Option<String>)
{
    match dirs::data_dir() {
        Some(p) => Some(p.to_string_lossy().into_owned()),
        None => None,
    }
}

/// A base directory, or `.` when there is none.
pub fn dir_or_current(d: Option<String>) -> (r: String)
    ensures
        r@ == (match d { Some(s) => s@, None => "."@ }),
{
    match d {
        Some(s) => s,
        None => ".".to_owned(),
    }
}

} // verus!
