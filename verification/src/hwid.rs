//! The device's hardware ID: where it is stored, how it is derived from the
//! host, user and machine identity, and how the operating system and device
//! model are described.

use vstd::prelude::*;
use vstd::string::*;
use vstd::utf8::encode_utf8;
use crate::digest::{hex_encode, sha256_digest, spec_hex_lower, spec_sha256};
use crate::error::Error;
use crate::models::HwidInfo;
use crate::paths::{dirs_config_dir, dir_or_current, join, spec_join};
use crate::split::{split_chars, split_on};
use crate::text::{is_whitespace, spec_trim_start, str_chars, string_from_chars};

verus! {

/// Where the hardware ID is kept: `<config dir>/ironpass`.
pub struct SystemHwidProvider {
    pub storage_path: String,
}

/// The storage directory under a configuration directory (`.` when the
/// platform has none).
pub open spec fn spec_storage_path(config_dir: Option<String>) -> Seq<char> {
    spec_join(
        match config_dir {
            Some(d) => d@,
            None => "."@,
        },
        "ironpass"@,
    )
}

impl SystemHwidProvider {
    /// The provider for the user's configuration directory.
    pub fn new() -> (p: Self)
        ensures
            exists|d: Option<String>| p.storage_path@ == spec_storage_path(d),
    {
        let d = dirs_config_dir();
        let ghost gd = d;
        let p = Self::in_config_dir(d);
        proof {
            assert(p.storage_path@ == spec_storage_path(gd));
        }
        p
    }

    /// The provider for a given configuration directory.
    pub fn in_config_dir(config_dir: Option<String>) -> (p: Self)
        ensures
            p.storage_path@ == spec_storage_path(config_dir),
    {
        let base = dir_or_current(config_dir);
        SystemHwidProvider { storage_path: join(base.as_str(), "ironpass") }
    }

    /// The file that holds the device information.
    pub fn hwid_file(&self) -> (p: String)
        ensures
            p@ == spec_join(self.storage_path@, "hwid.json"@),
    {
        join(self.storage_path.as_str(), "hwid.json")
    }

    /// `<model>/<os>` of the stored device information, or `Unknown` when
    /// there is none.
    pub fn device_model_string(&self, info: &Option<HwidInfo>) -> (s: String)
        ensures
            s@ == spec_device_model_string(*info),
    {
        match info {
            Some(i) => {
                let mut s = i.device_model.clone();
                s.push('/');
                s.append(i.os.as_str());
                proof {
                    reveal_strlit("/");
                    assert(s@ =~= i.device_model@ + "/"@ + i.os@);
                }
                s
            },
            None => "Unknown".to_owned(),
        }
    }
}

pub open spec fn spec_device_model_string(info: Option<HwidInfo>) -> Seq<char> {
    match info {
        Some(i) => i.device_model@ + "/"@ + i.os@,
        None => "Unknown"@,
    }
}

/// The text that the hardware ID hashes: host, user, machine ID and device
/// model, joined by `:`.
pub open spec fn spec_hwid_source(hostname: Seq<char>, username: Seq<char>, machine_id: Seq<char>, model: Seq<char>) -> Seq<char> {
    hostname + ":"@ + username + ":"@ + machine_id + ":"@ + model
}

/// The hardware ID: the SHA-256 digest of the source text in lower-case
/// hexadecimal.
pub open spec fn spec_hwid(hostname: Seq<char>, username: Seq<char>, machine_id: Seq<char>, model: Seq<char>) -> Seq<char> {
    spec_hex_lower(spec_sha256(encode_utf8(spec_hwid_source(hostname, username, machine_id, model))))
}

/// Computes the hardware ID.
pub fn compute_hwid(hostname: &str, username: &str, machine_id: &str, model: &str) -> (h: String)
    ensures
        h@ == spec_hwid(hostname@, username@, machine_id@, model@),
{
    let mut raw = hostname.to_owned();
    raw.push(':');
    raw.append(username);
    raw.push(':');
    raw.append(machine_id);
    raw.push(':');
    raw.append(model);
    proof {
        reveal_strlit(":");
        assert(raw@ =~= spec_hwid_source(hostname@, username@, machine_id@, model@));
    }
    let digest = sha256_digest(raw.as_str().as_bytes());
    hex_encode(digest.as_slice())
}

/// The device information for the detected identity; a machine ID that
/// could not be read is a hardware-ID error.
pub fn generate_new(
    hostname: String,
    username: String,
    machine_id: Result<String, String>,
    device_model: String,
    os: String,
) -> (r: Result<HwidInfo, Error>)
    ensures
        match machine_id {
            Ok(m) => r matches Ok(info) && {
                &&& info.hwid@ == spec_hwid(hostname@, username@, m@, device_model@)
                &&& info.device_model == device_model
                &&& info.os == os
                &&& info.hostname == hostname
                &&& info.username == username
                &&& info.machine_id == m
            },
            Err(e) => r matches Err(Error::Hwid(msg)) && msg@ == "Failed to get machine UID: "@ + e@,
        },
{
    match machine_id {
        Ok(m) => {
            let hwid = compute_hwid(hostname.as_str(), username.as_str(), m.as_str(), device_model.as_str());
            Ok(HwidInfo { hwid, device_model, os, hostname, username, machine_id: m })
        },
        Err(e) => {
            let mut msg = "Failed to get machine UID: ".to_owned();
            msg.append(e.as_str());
            Err(Error::Hwid(msg))
        },
    }
}

/// The user name from `USER`, else `USERNAME`, else `unknown`.
pub fn username_or_unknown(user: Option<String>, username: Option<String>) -> (r: String)
    ensures
        r@ == match user {
            Some(u) => u@,
            None => match username {
                Some(u) => u@,
                None => "unknown"@,
            },
        },
{
    match user {
        Some(u) => u,
        None => match username {
            Some(u) => u,
            None => "unknown".to_owned(),
        },
    }
}

// ---------------------------------------------------------------------------
// Text helpers for the detected values
// ---------------------------------------------------------------------------

/// `s` without its trailing occurrences of `c`.
pub open spec fn spec_trim_end(s: Seq<char>, c: char) -> Seq<char>
    decreases s.len(),
{
    if s.len() > 0 && s.last() == c { spec_trim_end(s.drop_last(), c) } else { s }
}

/// `s` without leading and trailing whitespace, as `str::trim` gives it.
pub open spec fn spec_trim(s: Seq<char>) -> Seq<char> {
    spec_trim_ws_end(spec_trim_ws_start(s))
}

pub open spec fn spec_trim_ws_start(s: Seq<char>) -> Seq<char>
    decreases s.len(),
{
    if s.len() > 0 && is_whitespace(s[0]) { spec_trim_ws_start(s.drop_first()) } else { s }
}

pub open spec fn spec_trim_ws_end(s: Seq<char>) -> Seq<char>
    decreases s.len(),
{
    if s.len() > 0 && is_whitespace(s.last()) { spec_trim_ws_end(s.drop_last()) } else { s }
}

/// Whether `ch` is trimmed: whitespace when `ws`, else the character `c`.
fn trimmed(ch: char, ws: bool, c: char) -> (r: bool)
    ensures
        r == (if ws { is_whitespace(ch) } else { ch == c }),
{
    if ws { crate::text::char_is_whitespace(ch) } else { ch == c }
}

/// The index of the first character that is not trimmed.
fn scan_start(cs: &Vec<char>, ws: bool, c: char) -> (i: usize)
    ensures
        i <= cs@.len(),
        ws ==> cs@.subrange(i as int, cs@.len() as int) == spec_trim_ws_start(cs@),
        !ws ==> cs@.subrange(i as int, cs@.len() as int) == spec_trim_start(cs@, c),
{
    let mut i: usize = 0;
    proof {
        assert(cs@.subrange(0, cs@.len() as int) =~= cs@);
    }
    while i < cs.len() && trimmed(cs[i], ws, c)
        invariant
            i <= cs@.len(),
            ws ==> spec_trim_ws_start(cs@.subrange(i as int, cs@.len() as int)) == spec_trim_ws_start(cs@),
            !ws ==> spec_trim_start(cs@.subrange(i as int, cs@.len() as int), c) == spec_trim_start(cs@, c),
        decreases cs@.len() - i,
    {
        proof {
            assert(cs@.subrange(i as int, cs@.len() as int).drop_first() =~= cs@.subrange(i + 1, cs@.len() as int));
        }
        i = i + 1;
    }
    i
}

/// The end of the run from `from` without its trailing trimmed characters.
fn scan_end(cs: &Vec<char>, from: usize, ws: bool, c: char) -> (j: usize)
    requires
        from <= cs@.len(),
    ensures
        from <= j <= cs@.len(),
        ws ==> cs@.subrange(from as int, j as int) == spec_trim_ws_end(cs@.subrange(from as int, cs@.len() as int)),
        !ws ==> cs@.subrange(from as int, j as int) == spec_trim_end(cs@.subrange(from as int, cs@.len() as int), c),
{
    let mut j: usize = cs.len();
    while j > from && trimmed(cs[j - 1], ws, c)
        invariant
            from <= j <= cs@.len(),
            ws ==> spec_trim_ws_end(cs@.subrange(from as int, j as int)) == spec_trim_ws_end(cs@.subrange(from as int, cs@.len() as int)),
            !ws ==> spec_trim_end(cs@.subrange(from as int, j as int), c) == spec_trim_end(cs@.subrange(from as int, cs@.len() as int), c),
        decreases j,
    {
        proof {
            assert(cs@.subrange(from as int, j as int).drop_last() =~= cs@.subrange(from as int, j - 1));
        }
        j = j - 1;
    }
    j
}

/// Removes leading and trailing whitespace.
pub fn trim(s: &str) -> (r: String)
    ensures
        r@ == spec_trim(s@),
{
    let cs = str_chars(s);
    let i = scan_start(&cs, true, ' ');
    let j = scan_end(&cs, i, true, ' ');
    proof {
        assert(cs@.subrange(i as int, cs@.len() as int).subrange(0, (j - i) as int) =~= cs@.subrange(i as int, j as int));
    }
    string_from_chars(cs.as_slice(), i, j)
}

/// Removes leading and trailing occurrences of `c`, as
/// `trim_matches(c)` does.
pub fn trim_char(s: &str, c: char) -> (r: String)
    ensures
        r@ == spec_trim_end(spec_trim_start(s@, c), c),
{
    let cs = str_chars(s);
    let i = scan_start(&cs, false, c);
    let j = scan_end(&cs, i, false, c);
    string_from_chars(cs.as_slice(), i, j)
}


// ---------------------------------------------------------------------------
// Operating system and device model on Linux
// ---------------------------------------------------------------------------

/// A line without the `\r` that a CRLF ending leaves, as `str::lines` gives it.
pub open spec fn spec_strip_cr(p: Seq<char>) -> Seq<char> {
    if p.len() > 0 && p.last() == '\r' { p.drop_last() } else { p }
}

/// Whether `line` starts with `prefix`.
pub open spec fn spec_has_prefix(line: Seq<char>, prefix: Seq<char>) -> bool {
    prefix.len() <= line.len() && line.subrange(0, prefix.len() as int) == prefix
}

/// A piece of a text split at `\n`, as a line of `str::lines`: a piece
/// that a `\n` ends loses one trailing `\r`; the last piece, which no `\n`
/// ends, keeps it.
pub open spec fn spec_line_of(pieces: Seq<Seq<char>>) -> Seq<char> {
    if pieces.len() > 1 { spec_strip_cr(pieces[0]) } else { pieces[0] }
}

/// The first of the lines that starts with `prefix`.
pub open spec fn spec_first_prefixed(pieces: Seq<Seq<char>>, prefix: Seq<char>) -> Option<Seq<char>>
    decreases pieces.len(),
{
    if pieces.len() == 0 {
        None
    } else if spec_has_prefix(spec_line_of(pieces), prefix) {
        Some(spec_line_of(pieces))
    } else {
        spec_first_prefixed(pieces.drop_first(), prefix)
    }
}

/// The distribution name that `/etc/os-release` gives in its first
/// `PRETTY_NAME=` line, without surrounding quotes.
pub open spec fn spec_pretty_name(content: Seq<char>) -> Option<Seq<char>> {
    match spec_first_prefixed(split_on(content, '\n'), "PRETTY_NAME="@) {
        Some(l) => Some(spec_trim_end(spec_trim_start(l.subrange("PRETTY_NAME="@.len() as int, l.len() as int), '"'), '"')),
        None => None,
    }
}

/// The Linux description: the distribution name, else `Linux`, followed by
/// ` (<kernel release>)` when the release is known.
pub open spec fn spec_linux_os(kernel_output: Option<Seq<char>>, os_release: Option<Seq<char>>) -> Seq<char> {
    let kernel = match kernel_output {
        Some(k) => spec_trim(k),
        None => Seq::empty(),
    };
    let name = match os_release {
        Some(c) => match spec_pretty_name(c) {
            Some(n) => n,
            None => "Linux"@,
        },
        None => "Linux"@,
    };
    if kernel.len() == 0 { name } else { name + " ("@ + kernel + ")"@ }
}

fn has_prefix(line: &Vec<char>, prefix: &Vec<char>) -> (r: bool)
    ensures
        r == spec_has_prefix(line@, prefix@),
{
    if prefix.len() > line.len() {
        return false;
    }
    let mut i: usize = 0;
    while i < prefix.len()
        invariant
            prefix@.len() <= line@.len(),
            i <= prefix@.len(),
            forall|k: int| 0 <= k < i ==> line@[k] == prefix@[k],
        decreases prefix@.len() - i,
    {
        if line[i] != prefix[i] {
            proof {
                assert(line@.subrange(0, prefix@.len() as int)[i as int] != prefix@[i as int]);
            }
            return false;
        }
        i = i + 1;
    }
    proof {
        assert(line@.subrange(0, prefix@.len() as int) =~= prefix@);
    }
    true
}

pub(crate) fn strip_cr(p: &Vec<char>) -> (r: Vec<char>)
    ensures
        r@ == spec_strip_cr(p@),
{
    line_piece(p, true)
}

/// A copy of `p`, without one trailing `\r` when `strip` holds.
fn line_piece(p: &Vec<char>, strip: bool) -> (r: Vec<char>)
    ensures
        r@ == (if strip { spec_strip_cr(p@) } else { p@ }),
{
    let n = p.len();
    let end = if strip && n > 0 && p[n - 1] == '\r' { n - 1 } else { n };
    let mut r: Vec<char> = Vec::new();
    let mut i: usize = 0;
    while i < end
        invariant
            end <= p@.len(),
            i <= end,
            r@ == p@.subrange(0, i as int),
        decreases end - i,
    {
        r.push(p[i]);
        i = i + 1;
        proof {
            assert(r@ =~= p@.subrange(0, i as int));
        }
    }
    proof {
        assert(r@ =~= (if strip { spec_strip_cr(p@) } else { p@ }));
    }
    r
}

/// The distribution name of an `/etc/os-release` text, if it has one.
pub fn pretty_name(content: &str) -> (r: Option<String>)
    ensures
        match r {
            Some(n) => spec_pretty_name(content@) == Some(n@),
            None => spec_pretty_name(content@) is None,
        },
{
    let cs = str_chars(content);
    let pieces = split_chars(&cs, '\n');
    let ghost all = split_on(content@, '\n');
    let prefix = str_chars("PRETTY_NAME=");
    let n = pieces.len();
    let mut i: usize = 0;
    proof {
        assert(all.subrange(0, all.len() as int) =~= all);
    }
    while i < n
        invariant
            n == pieces@.len(),
            n == all.len(),
            all == split_on(cs@, '\n'),
            cs@ == content@,
            forall|k: int| 0 <= k < n ==> #[trigger] pieces@[k]@ == all[k],
            prefix@ == "PRETTY_NAME="@,
            i <= n,
            spec_first_prefixed(all.subrange(i as int, n as int), prefix@) == spec_first_prefixed(all, prefix@),
        decreases n - i,
    {
        let line = line_piece(&pieces[i], i + 1 < n);
        proof {
            assert(all.subrange(i as int, n as int).len() == n - i);
            assert(all.subrange(i as int, n as int)[0] == all[i as int]);
            assert(all.subrange(i as int, n as int).drop_first() =~= all.subrange(i + 1, n as int));
        }
        if has_prefix(&line, &prefix) {
            proof {
                assert(pieces@[i as int]@ == all[i as int]);
                assert(spec_first_prefixed(all.subrange(i as int, n as int), prefix@) == Some(line@));
            }
            let value = string_from_chars(line.as_slice(), prefix.len(), line.len());
            let name = trim_char(value.as_str(), '"');
            return Some(name);
        }
        i = i + 1;
    }
    None
}

/// Describes a Linux system from the output of `uname -r` and the text of
/// `/etc/os-release`, each when it could be read.
pub fn linux_os_description(kernel_output: Option<String>, os_release: Option<String>) -> (r: String)
    ensures
        r@ == spec_linux_os(
            match kernel_output { Some(k) => Some(k@), None => None },
            match os_release { Some(c) => Some(c@), None => None },
        ),
{
    let kernel = match &kernel_output {
        Some(k) => trim(k.as_str()),
        None => String::new(),
    };
    let name = match &os_release {
        Some(c) => match pretty_name(c.as_str()) {
            Some(n) => n,
            None => "Linux".to_owned(),
        },
        None => "Linux".to_owned(),
    };
    if kernel.as_str().unicode_len() == 0 {
        name
    } else {
        let mut r = name;
        r.append(" (");
        r.append(kernel.as_str());
        r.append(")");
        r
    }
}

/// The device model on Linux: the DMI product name unless it is empty or
/// the generic `System Product Name`, else the DMI vendor unless empty,
/// else the host name.
pub open spec fn spec_linux_device_model(product_name: Option<Seq<char>>, sys_vendor: Option<Seq<char>>, hostname: Seq<char>) -> Seq<char> {
    let model_ok = match product_name {
        Some(p) => spec_trim(p).len() > 0 && spec_trim(p) != "System Product Name"@,
        None => false,
    };
    let vendor_ok = match sys_vendor {
        Some(v) => spec_trim(v).len() > 0,
        None => false,
    };
    if model_ok {
        spec_trim(product_name->0)
    } else if vendor_ok {
        spec_trim(sys_vendor->0)
    } else {
        hostname
    }
}

/// Picks the device model from the DMI product name and vendor files, each
/// when it could be read, and the host name.
pub fn linux_device_model(product_name: Option<String>, sys_vendor: Option<String>, hostname: String) -> (r: String)
    ensures
        r@ == spec_linux_device_model(
            match product_name { Some(p) => Some(p@), None => None },
            match sys_vendor { Some(v) => Some(v@), None => None },
            hostname@,
        ),
{
    match &product_name {
        Some(p) => {
            let model = trim(p.as_str());
            if model.as_str().unicode_len() > 0 && !crate::text::str_eq(model.as_str(), "System Product Name") {
                return model;
            }
        },
        None => {},
    }
    match &sys_vendor {
        Some(v) => {
            let vendor = trim(v.as_str());
            if vendor.as_str().unicode_len() > 0 {
                return vendor;
            }
        },
        None => {},
    }
    hostname
}

} // verus!
