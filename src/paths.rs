//! Names of files: per-CPU kernel control files, and the community store's
//! folder layout.
use vstd::prelude::*;
use crate::text::{decimal, decimal_string, push_decimal};

verus! {

fn push_str(s: &mut String, t: &str)
    ensures
        final(s)@ == old(s)@ + t@,
{
    s.append(t);
}

/// `prefix`, the decimal text of `n`, then `suffix`.
pub fn wrap_decimal(prefix: &str, n: u128, suffix: &str) -> (r: String)
    ensures
        r@ == prefix@ + decimal(n as nat) + suffix@,
{
    let mut s = String::from_str(prefix);
    push_decimal(&mut s, n);
    push_str(&mut s, suffix);
    s
}

/// Kernel file holding whether CPU `index` is online.
pub fn cpu_online_path(index: usize) -> (r: String)
    ensures
        r@ == "/sys/devices/system/cpu/cpu"@ + decimal(index as nat) + "/online"@,
{
    wrap_decimal("/sys/devices/system/cpu/cpu", index as u128, "/online")
}

/// Kernel file holding the governor of CPU `index`.
pub fn cpu_governor_path(index: usize) -> (r: String)
    ensures
        r@ == "/sys/devices/system/cpu/cpu"@ + decimal(index as nat) + "/cpufreq/scaling_governor"@,
{
    wrap_decimal("/sys/devices/system/cpu/cpu", index as u128, "/cpufreq/scaling_governor")
}

/// Kernel file listing the governors CPU `index` offers.
pub fn cpu_available_governors_path(index: usize) -> (r: String)
    ensures
        r@ == "/sys/devices/system/cpu/cpu"@ + decimal(index as nat)
            + "/cpufreq/scaling_available_governors"@,
{
    wrap_decimal(
        "/sys/devices/system/cpu/cpu",
        index as u128,
        "/cpufreq/scaling_available_governors",
    )
}

/// File name of a stored setting: its id, a dot, the extension.
pub fn filename(id: u128, ext: &str) -> (r: String)
    ensures
        r@ == decimal(id as nat) + "."@ + ext@,
{
    let mut s = decimal_string(id);
    push_str(&mut s, ".");
    push_str(&mut s, ext);
    s
}

fn join3(root: &str, a: &str, b: &str, c: &str) -> (r: String)
    ensures
        r@ == root@ + "/"@ + a@ + "/"@ + b@ + "/"@ + c@,
{
    let mut s = String::from_str(root);
    push_str(&mut s, "/");
    push_str(&mut s, a);
    push_str(&mut s, "/");
    push_str(&mut s, b);
    push_str(&mut s, "/");
    push_str(&mut s, c);
    s
}

/// Path of a stored setting by id: `<root>/settings/by_id/<id>.<ext>`.
pub fn setting_path_by_id(root: &str, id: u128, ext: &str) -> (r: String)
    ensures
        r@ == root@ + "/"@ + "settings"@ + "/"@ + "by_id"@ + "/"@ + (decimal(id as nat) + "."@
            + ext@),
{
    let name = filename(id, ext);
    join3(root, "settings", "by_id", name.as_str())
}

/// Folder of the settings of an application: `<root>/settings/by_app_id/<id>`.
pub fn setting_folder_by_app_id(root: &str, steam_app_id: u32) -> (r: String)
    ensures
        r@ == root@ + "/"@ + "settings"@ + "/"@ + "by_app_id"@ + "/"@ + decimal(steam_app_id as nat),
{
    let name = decimal_string(steam_app_id as u128);
    join3(root, "settings", "by_app_id", name.as_str())
}

/// Folder of the settings of a user: `<root>/settings/by_user_id/<id>`.
pub fn setting_folder_by_user_id(root: &str, steam_user_id: u64) -> (r: String)
    ensures
        r@ == root@ + "/"@ + "settings"@ + "/"@ + "by_user_id"@ + "/"@ + decimal(
            steam_user_id as nat,
        ),
{
    let name = decimal_string(steam_user_id as u128);
    join3(root, "settings", "by_user_id", name.as_str())
}

/// Folder of the settings with a tag: `<root>/settings/by_tag/<tag>`.
pub fn setting_folder_by_tag(root: &str, tag: &str) -> (r: String)
    ensures
        r@ == root@ + "/"@ + "settings"@ + "/"@ + "by_tag"@ + "/"@ + tag@,
{
    join3(root, "settings", "by_tag", tag)
}

/// The file recording which version last ran, in the settings directory.
pub fn version_filepath(settings_dir: &str) -> (r: String)
    ensures
        r@ == settings_dir@ + "/.version"@,
{
    let mut s = String::from_str(settings_dir);
    push_str(&mut s, "/.version");
    s
}

} // verus!
