//! Where proxy cores and their geo assets (`geoip.dat`, `geosite.dat`) are
//! looked for: next to the core binary, in the standard install
//! directories, and along the executable search path.

use vstd::prelude::*;
use crate::backend::GeoAssetStatus;
use crate::paths::{join, spec_join};

verus! {

/// What `Path::parent` gives for a path, as text.
pub uninterp spec fn spec_path_parent(p: Seq<char>) -> Option<Seq<char>>;

/// The parent directory of a path, from `std::path::Path::parent`; which
/// text that is (how trailing separators and `.` components are read) is
/// named, not stated.
#[verifier::external_body]
fn path_parent(p: &str) -> (r: Option<String>)
    ensures
        match r {
            Some(q) => spec_path_parent(p@) == Some(q@),
            None => spec_path_parent(p@) is None,
        },
{
    std::path::Path::new(p).parent().map(|q| q.to_string_lossy().into_owned())
}

/// Whether a regular file exists at the path, from
/// `std::path::Path::is_file`; it depends on the file system, so nothing is
/// stated of it.
#[verifier::external_body]
pub(crate) fn path_is_file(p: &str) -> (r: bool)
{
    std::path::Path::new(p).is_file()
}

/// Whether anything exists at the path, from `std::path::Path::exists`; it
/// depends on the file system, so nothing is stated of it.
#[verifier::external_body]
pub(crate) fn path_exists(p: &str) -> (r: bool)
{
    std::path::Path::new(p).exists()
}

/// The user's home directory, from `dirs::home_dir`; it depends on the
/// platform and the environment, so nothing is stated of it.
#[verifier::external_body]
fn dirs_home_dir() -> (r: Option<String>)
{
    dirs::home_dir().map(|p| p.to_string_lossy().into_owned())
}

/// The standard directories where geo assets are installed.
pub open spec fn spec_standard_geo_dirs(home: Option<Seq<char>>) -> Seq<Seq<char>> {
    let base = seq!["/usr/local/bin"@, "/usr/share/xray"@, "/usr/share/v2ray"@];
    match home {
        Some(h) => base.push(spec_join(h, ".config/xray"@)),
        None => base,
    }
}

/// The directories searched for geo assets: the core binary's directory
/// (empty when it has none) first, then the standard ones.
pub open spec fn spec_geo_candidates(binary_path: Option<Seq<char>>, home: Option<Seq<char>>) -> Seq<Seq<char>> {
    match binary_path {
        Some(b) => seq![
            match spec_path_parent(b) {
                Some(d) => d,
                None => Seq::empty(),
            },
        ] + spec_standard_geo_dirs(home),
        None => spec_standard_geo_dirs(home),
    }
}

/// The views of a list of strings.
pub open spec fn views(v: Seq<String>) -> Seq<Seq<char>> {
    v.map_values(|s: String| s@)
}

fn push_view(v: &mut Vec<String>, s: String)
    ensures
        views(final(v)@) == views(old(v)@).push(s@),
{
    v.push(s);
    proof {
        assert(views(v@) =~= views(old(v)@).push(s@));
    }
}

/// The standard directories where geo assets are installed.
pub fn standard_geo_dirs(home: Option<String>) -> (v: Vec<String>)
    ensures
        views(v@) == spec_standard_geo_dirs(match home { Some(h) => Some(h@), None => None }),
{
    let mut v: Vec<String> = Vec::new();
    push_view(&mut v, "/usr/local/bin".to_owned());
    push_view(&mut v, "/usr/share/xray".to_owned());
    push_view(&mut v, "/usr/share/v2ray".to_owned());
    match home {
        Some(h) => push_view(&mut v, join(h.as_str(), ".config/xray")),
        None => {},
    }
    proof {
        assert(views(v@) =~= spec_standard_geo_dirs(match home { Some(h) => Some(h@), None => None }));
    }
    v
}

/// The directories searched for geo assets.
pub fn geo_candidate_dirs(binary_path: Option<&str>, home: Option<String>) -> (v: Vec<String>)
    ensures
        views(v@) == spec_geo_candidates(
            match binary_path { Some(b) => Some(b@), None => None },
            match home { Some(h) => Some(h@), None => None },
        ),
{
    let standard = standard_geo_dirs(home);
    match binary_path {
        Some(b) => {
            let dir = match path_parent(b) {
                Some(d) => d,
                None => String::new(),
            };
            let ghost first = dir@;
            let mut v: Vec<String> = Vec::new();
            push_view(&mut v, dir);
            let n = standard.len();
            let mut i: usize = 0;
            while i < n
                invariant
                    n == standard@.len(),
                    i <= n,
                    views(v@) == seq![first] + views(standard@).take(i as int),
                decreases n - i,
            {
                let s = standard[i].clone();
                push_view(&mut v, s);
                i = i + 1;
                proof {
                    assert(views(standard@).take(i as int) =~= views(standard@).take(i - 1).push(standard@[i - 1]@));
                    assert(seq![first] + views(standard@).take(i as int) =~= (seq![first] + views(standard@).take(i - 1)).push(standard@[i - 1]@));
                }
            }
            proof {
                assert(views(standard@).take(n as int) =~= views(standard@));
                assert(views(v@).len() == views(standard@).len() + 1);
            }
            v
        },
        None => standard,
    }
}

/// Whether some answer is `true`.
pub open spec fn spec_any(v: Seq<bool>) -> bool {
    exists|i: int| 0 <= i < v.len() && v[i]
}

/// Whether some answer is `true`.
pub fn any_true(v: &Vec<bool>) -> (r: bool)
    ensures
        r == spec_any(v@),
{
    let mut i: usize = 0;
    while i < v.len()
        invariant
            i <= v@.len(),
            forall|j: int| 0 <= j < i ==> !v@[j],
        decreases v@.len() - i,
    {
        if v[i] {
            return true;
        }
        i = i + 1;
    }
    false
}

/// The paths at which a file `name` is looked for, one per directory, in
/// order.
pub fn probe_paths(dirs: &Vec<String>, name: &str) -> (v: Vec<String>)
    ensures
        views(v@) == views(dirs@).map_values(|d: Seq<char>| spec_join(d, name@)),
{
    let mut v: Vec<String> = Vec::new();
    let mut i: usize = 0;
    while i < dirs.len()
        invariant
            i <= dirs@.len(),
            views(v@) == views(dirs@).take(i as int).map_values(|d: Seq<char>| spec_join(d, name@)),
        decreases dirs@.len() - i,
    {
        push_view(&mut v, join(dirs[i].as_str(), name));
        i = i + 1;
        proof {
            assert(views(dirs@).take(i as int).map_values(|d: Seq<char>| spec_join(d, name@))
                =~= views(dirs@).take(i - 1).map_values(|d: Seq<char>| spec_join(d, name@)).push(spec_join(dirs@[i - 1]@, name@)));
        }
    }
    proof {
        assert(views(dirs@).take(dirs@.len() as int) =~= views(dirs@));
    }
    v
}

/// For each path, whether a regular file exists there: answer `i` is what
/// `path_is_file` says of `paths[i]`, which is the file system's answer and
/// so is not stated.
fn file_presence(paths: &Vec<String>) -> (v: Vec<bool>)
    ensures
        v@.len() == paths@.len(),
{
    let mut v: Vec<bool> = Vec::new();
    let mut i: usize = 0;
    while i < paths.len()
        invariant
            i <= paths@.len(),
            v@.len() == i,
        decreases paths@.len() - i,
    {
        v.push(path_is_file(paths[i].as_str()));
        i = i + 1;
    }
    v
}

/// The geo asset status from, for each candidate directory, whether it
/// holds `geoip.dat` and whether it holds `geosite.dat`: available when
/// each file is in some directory (not necessarily the same one).
pub fn geo_status_from_presence(geoip: &Vec<bool>, geosite: &Vec<bool>) -> (s: GeoAssetStatus)
    ensures
        s.available == (spec_any(geoip@) && spec_any(geosite@)),
{
    let a = any_true(geoip);
    let b = any_true(geosite);
    GeoAssetStatus::new(a && b)
}

/// Whether `available` is what `geo_status_from_presence` gives for one
/// answer per candidate directory (for the home directory `home`) to
/// whether it holds `geoip.dat`, and one to whether it holds `geosite.dat`.
pub open spec fn spec_geo_answer(
    binary_path: Option<Seq<char>>,
    home: Option<Seq<char>>,
    geoip: Seq<bool>,
    geosite: Seq<bool>,
    available: bool,
) -> bool {
    &&& geoip.len() == spec_geo_candidates(binary_path, home).len()
    &&& geosite.len() == spec_geo_candidates(binary_path, home).len()
    &&& available == (spec_any(geoip) && spec_any(geosite))
}

/// Detects whether `geoip.dat` and `geosite.dat` are present in the
/// candidate directories of `geo_candidate_dirs`: each file name is joined
/// to each directory (`probe_paths`), the file system answers for each
/// path, and `geo_status_from_presence` decides from the answers. The home
/// directory and the answers are not stated.
pub fn detect_geo_assets(binary_path: Option<&str>) -> (s: GeoAssetStatus)
    ensures
        exists|home: Option<Seq<char>>, geoip: Seq<bool>, geosite: Seq<bool>|
            #[trigger] spec_geo_answer(
                opt_str_view(binary_path),
                home,
                geoip,
                geosite,
                s.available,
            ),
{
    let home = dirs_home_dir();
    let ghost h = opt_view(home);
    let dirs = geo_candidate_dirs(binary_path, home);
    let geoip_paths = probe_paths(&dirs, "geoip.dat");
    let geosite_paths = probe_paths(&dirs, "geosite.dat");
    let geoip = file_presence(&geoip_paths);
    let geosite = file_presence(&geosite_paths);
    let s = geo_status_from_presence(&geoip, &geosite);
    proof {
        let bp = opt_str_view(binary_path);
        assert(views(dirs@).len() == dirs@.len());
        assert(views(geoip_paths@).len() == geoip_paths@.len());
        assert(views(geosite_paths@).len() == geosite_paths@.len());
        assert(spec_geo_answer(bp, h, geoip@, geosite@, s.available));
    }
    s
}

/// The paths a core binary is looked for at, in order: the explicit path,
/// then each name in each search directory, names first.
pub open spec fn spec_core_candidates(names: Seq<Seq<char>>, explicit_path: Option<Seq<char>>, search_dirs: Seq<Seq<char>>) -> Seq<Seq<char>>
    decreases names.len(),
{
    if names.len() == 0 {
        match explicit_path {
            Some(p) => seq![p],
            None => Seq::empty(),
        }
    } else {
        spec_core_candidates(names.drop_last(), explicit_path, search_dirs)
            + search_dirs.map_values(|d: Seq<char>| spec_join(d, names.last()))
    }
}

/// The first candidate that is present, given one answer per candidate.
pub open spec fn spec_first_present(candidates: Seq<Seq<char>>, present: Seq<bool>) -> Option<Seq<char>>
    decreases candidates.len(),
{
    if candidates.len() == 0 || present.len() == 0 {
        None
    } else if present[0] {
        Some(candidates[0])
    } else {
        spec_first_present(candidates.drop_first(), present.drop_first())
    }
}

/// The first candidate whose answer is `true`.
pub fn first_present(candidates: &Vec<String>, present: &Vec<bool>) -> (r: Option<String>)
    requires
        candidates@.len() == present@.len(),
    ensures
        match r {
            Some(p) => spec_first_present(views(candidates@), present@) == Some(p@),
            None => spec_first_present(views(candidates@), present@) is None,
        },
{
    let n = candidates.len();
    let mut i: usize = 0;
    proof {
        assert(views(candidates@).subrange(0, n as int) =~= views(candidates@));
        assert(present@.subrange(0, n as int) =~= present@);
    }
    while i < n
        invariant
            n == candidates@.len(),
            n == present@.len(),
            i <= n,
            spec_first_present(views(candidates@).subrange(i as int, n as int), present@.subrange(i as int, n as int))
                == spec_first_present(views(candidates@), present@),
        decreases n - i,
    {
        proof {
            assert(views(candidates@).subrange(i as int, n as int).drop_first() =~= views(candidates@).subrange(i + 1, n as int));
            assert(present@.subrange(i as int, n as int).drop_first() =~= present@.subrange(i + 1, n as int));
            assert(views(candidates@).subrange(i as int, n as int)[0] == candidates@[i as int]@);
        }
        if present[i] {
            return Some(candidates[i].clone());
        }
        i = i + 1;
    }
    None
}

/// The paths a core binary is looked for at.
pub fn core_candidates(names: &[&str], explicit_path: Option<&str>, search_dirs: &Vec<String>) -> (v: Vec<String>)
    ensures
        views(v@) == spec_core_candidates(
            names@.map_values(|s: &str| s@),
            match explicit_path { Some(p) => Some(p@), None => None },
            views(search_dirs@),
        ),
{
    let ghost gnames = names@.map_values(|s: &str| s@);
    let ghost gexp = match explicit_path { Some(p) => Some(p@), None => None::<Seq<char>> };
    let ghost gdirs = views(search_dirs@);
    let mut v: Vec<String> = Vec::new();
    match explicit_path {
        Some(p) => push_view(&mut v, p.to_owned()),
        None => {},
    }
    proof {
        assert(views(v@) =~= spec_core_candidates(gnames.take(0), gexp, gdirs));
    }
    let mut k: usize = 0;
    while k < names.len()
        invariant
            k <= names@.len(),
            gnames == names@.map_values(|s: &str| s@),
            gdirs == views(search_dirs@),
            views(v@) == spec_core_candidates(gnames.take(k as int), gexp, gdirs),
        decreases names@.len() - k,
    {
        let ghost before = views(v@);
        let name = names[k];
        let mut j: usize = 0;
        while j < search_dirs.len()
            invariant
                j <= search_dirs@.len(),
                gdirs == views(search_dirs@),
                views(v@) == before + gdirs.take(j as int).map_values(|d: Seq<char>| spec_join(d, name@)),
            decreases search_dirs@.len() - j,
        {
            push_view(&mut v, join(search_dirs[j].as_str(), name));
            j = j + 1;
            proof {
                assert(gdirs.take(j as int).map_values(|d: Seq<char>| spec_join(d, name@))
                    =~= gdirs.take(j - 1).map_values(|d: Seq<char>| spec_join(d, name@)).push(spec_join(search_dirs@[j - 1]@, name@)));
            }
        }
        proof {
            assert(gdirs.take(search_dirs@.len() as int) =~= gdirs);
            assert(gnames.take(k + 1).drop_last() =~= gnames.take(k as int));
            assert(gnames.take(k + 1).last() == name@);
        }
        k = k + 1;
    }
    proof {
        assert(gnames.take(names@.len() as int) =~= gnames);
    }
    v
}

/// Whether `r` is the first present candidate for some answer, one per
/// candidate, to whether it is present.
pub open spec fn spec_first_answer(candidates: Seq<Seq<char>>, r: Option<Seq<char>>) -> bool {
    exists|present: Seq<bool>| present.len() == candidates.len() && #[trigger] spec_first_present(candidates, present) == r
}

/// The text of an optional string.
pub open spec fn opt_view(r: Option<String>) -> Option<Seq<char>> {
    match r {
        Some(p) => Some(p@),
        None => None,
    }
}

/// The text of an optional string slice.
pub open spec fn opt_str_view(r: Option<&str>) -> Option<Seq<char>> {
    match r {
        Some(p) => Some(p@),
        None => None,
    }
}

/// The first candidate at which a regular file exists; which files exist
/// is the file system's answer.
pub fn first_file(candidates: &Vec<String>) -> (r: Option<String>)
    ensures
        spec_first_answer(views(candidates@), opt_view(r)),
        match r {
            Some(p) => views(candidates@).contains(p@),
            None => true,
        },
{
    let mut present: Vec<bool> = Vec::new();
    let mut i: usize = 0;
    while i < candidates.len()
        invariant
            i <= candidates@.len(),
            present@.len() == i,
        decreases candidates@.len() - i,
    {
        present.push(path_is_file(candidates[i].as_str()));
        i = i + 1;
    }
    let r = first_present(candidates, &present);
    proof {
        lemma_first_present_in(views(candidates@), present@);
        assert(spec_first_present(views(candidates@), present@) == opt_view(r));
    }
    r
}

/// Locates a core binary: the explicit path if it is a file, else the first
/// name found in a search directory (the entries of `PATH`, in order).
pub fn locate_core_binary(names: &[&str], explicit_path: Option<&str>, search_dirs: &Vec<String>) -> (r: Option<String>)
    ensures
        spec_first_answer(
            spec_core_candidates(
                names@.map_values(|s: &str| s@),
                match explicit_path { Some(p) => Some(p@), None => None },
                views(search_dirs@),
            ),
            opt_view(r),
        ),
        match r {
            Some(p) => spec_core_candidates(
                names@.map_values(|s: &str| s@),
                match explicit_path { Some(p) => Some(p@), None => None },
                views(search_dirs@),
            ).contains(p@),
            None => true,
        },
{
    let candidates = core_candidates(names, explicit_path, search_dirs);
    first_file(&candidates)
}

/// The first present candidate is one of the candidates.
pub proof fn lemma_first_present_in(candidates: Seq<Seq<char>>, present: Seq<bool>)
    ensures
        match spec_first_present(candidates, present) {
            Some(p) => candidates.contains(p),
            None => true,
        },
    decreases candidates.len(),
{
    if candidates.len() > 0 && present.len() > 0 {
        if present[0] {
            assert(candidates[0] == candidates[0]);
        } else {
            lemma_first_present_in(candidates.drop_first(), present.drop_first());
            match spec_first_present(candidates.drop_first(), present.drop_first()) {
                Some(p) => {
                    let k = choose|k: int| 0 <= k < candidates.drop_first().len() && candidates.drop_first()[k] == p;
                    assert(candidates[k + 1] == p);
                },
                None => {},
            }
        }
    }
}

} // verus!
