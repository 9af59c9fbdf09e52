//! What the GUI shows of the platform it runs on.

use vstd::prelude::*;
use vstd::string::StrSliceExecFns;
use crate::bytes_util::str_eq;
use crate::file_transfer::transfer::new_uuid_v4;

verus! {

broadcast use vstd::string::to_string_from_display_ensures_for_str;

/// The platform the GUI runs on.
#[derive(Debug, Clone)]
pub struct PlatformInfo {
    pub os: String,
    pub arch: String,
    pub hostname: String,
    pub device_id: String,
}

/// The display name of an operating system, from its Rust name.
pub open spec fn os_display(os: Seq<char>) -> Seq<char> {
    if os == "windows"@ {
        "Windows"@
    } else if os == "macos"@ {
        "macOS"@
    } else if os == "linux"@ {
        "Linux"@
    } else if os == "android"@ {
        "Android"@
    } else if os == "ios"@ {
        "iOS"@
    } else {
        os
    }
}

/// The display name of an architecture, from its Rust name.
pub open spec fn arch_display(arch: Seq<char>) -> Seq<char> {
    if arch == "x86_64"@ {
        "x64"@
    } else if arch == "aarch64"@ {
        "arm64"@
    } else {
        arch
    }
}

/// The device ID made of a host name and a UUID: the host name without
/// '-' and '_', a '-', and the UUID's first 8 characters.
pub open spec fn device_id_of(hostname: Seq<char>, uuid: Seq<char>) -> Seq<char> {
    hostname.filter(|c: char| c != '-' && c != '_') + "-"@ + uuid.subrange(0, 8)
}

/// `s` without its '-' and '_' characters.
fn strip_separators(s: &str) -> (r: String)
    ensures
        r@ == s@.filter(|c: char| c != '-' && c != '_'),
{
    let n = s.unicode_len();
    let mut r = String::new();
    let mut i: usize = 0;
    while i < n
        invariant
            n == s@.len(),
            i <= n,
            r@ == s@.subrange(0, i as int).filter(|c: char| c != '-' && c != '_'),
        decreases n - i,
    {
        let c = s.get_char(i);
        proof {
            reveal(Seq::filter);
            let t = s@.subrange(0, i + 1);
            assert(t.drop_last() =~= s@.subrange(0, i as int));
            assert(t.last() == c);
        }
        if c != '-' && c != '_' {
            let piece = s.substring_char(i, i + 1);
            assert(piece@ =~= seq![c]);
            r.append(piece);
        }
        i = i + 1;
    }
    assert(s@.subrange(0, n as int) =~= s@);
    r
}

/// The platform information of a machine: display names of its OS and
/// architecture, its host name, and a device ID made of the host name and
/// a UUID.
pub fn platform_info_from(os: &str, arch: &str, hostname: String, uuid: &str) -> (r: PlatformInfo)
    requires
        uuid@.len() >= 8,
        vstd::string::is_ascii(uuid),
    ensures
        r.os@ == os_display(os@),
        r.arch@ == arch_display(arch@),
        r.hostname == hostname,
        r.device_id@ == device_id_of(hostname@, uuid@),
{
    let os_name = if str_eq(os, "windows") {
        "Windows"
    } else if str_eq(os, "macos") {
        "macOS"
    } else if str_eq(os, "linux") {
        "Linux"
    } else if str_eq(os, "android") {
        "Android"
    } else if str_eq(os, "ios") {
        "iOS"
    } else {
        os
    };
    let arch_name = if str_eq(arch, "x86_64") {
        "x64"
    } else if str_eq(arch, "aarch64") {
        "arm64"
    } else {
        arch
    };
    let mut device_id = strip_separators(hostname.as_str());
    device_id.append("-");
    device_id.append(uuid.substring_ascii(0, 8));
    PlatformInfo { os: os_name.to_string(), arch: arch_name.to_string(), hostname, device_id }
}

/// The platform information of this machine, from the names of its OS and
/// architecture and its host name (when it could be read, else "Unknown"),
/// with a fresh random UUID in its device ID.
pub fn get_platform_info(os: &str, arch: &str, hostname: Option<String>) -> (r: PlatformInfo)
    ensures
        r.os@ == os_display(os@),
        r.arch@ == arch_display(arch@),
        r.hostname@ == match hostname {
            Some(h) => h@,
            None => "Unknown"@,
        },
        exists|uuid: Seq<char>| uuid.len() == 36 && #[trigger] device_id_of(r.hostname@, uuid) == r.device_id@,
{
    let host = match hostname {
        Some(h) => h,
        None => "Unknown".to_string(),
    };
    let uuid = new_uuid_v4();
    let u = uuid.as_str();
    assert(vstd::string::is_ascii(u));
    platform_info_from(os, arch, host, u)
}

/// The screen size reported off Windows: 1920 by 1080.
pub fn get_screen_size() -> (r: (u32, u32))
    ensures
        r == (1920u32, 1080u32),
{
    (1920, 1080)
}

} // verus!
