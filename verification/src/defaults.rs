//! The settings a fresh installation starts from.

use crate::settings::{SettingsModel, SettingsSnapshot};
use crate::text::push_str;
use vstd::prelude::*;
use vstd::string::StringExecFns;

verus! {

/// The family of operating systems the application runs on.
#[derive(Clone, Copy, PartialEq, Eq, Debug, Structural)]
pub enum Platform {
    Unix,
    Windows,
    Other,
}

/// The directory to scan when the working directory is not known.
pub open spec fn fallback_root(platform: Platform) -> Seq<char> {
    match platform {
        Platform::Unix => "/home"@,
        Platform::Windows => "C:\\"@,
        Platform::Other => ""@,
    }
}

/// The directories that hold no files of the user: the pseudo file systems
/// of a Unix system.
pub open spec fn default_excluded_directories(platform: Platform) -> Seq<Seq<char>> {
    match platform {
        Platform::Unix => seq!["/proc"@, "/dev"@, "/sys"@, "/run"@, "/snap"@],
        _ => Seq::empty(),
    }
}

/// The items left out by default: version control, dependency caches, lost
/// and found and the trash, and on Windows the system directory as well.
pub open spec fn default_excluded_items(platform: Platform) -> Seq<Seq<char>> {
    match platform {
        Platform::Unix => seq![
            "*/.git/*"@,
            "*/node_modules/*"@,
            "*/lost+found/*"@,
            "*/Trash/*"@,
            "*/.Trash-*/*"@,
        ],
        Platform::Windows => seq![
            "*/.git/*"@,
            "*/node_modules/*"@,
            "*/lost+found/*"@,
            "*/Trash/*"@,
            "*/.Trash-*/*"@,
            "*:/windows/*"@,
        ],
        Platform::Other => Seq::empty(),
    }
}

/// The default settings on `platform` when the working directory is
/// `current_dir`: that directory, or the fallback root, is the one included
/// directory; no extension is singled out; every switch is on.
pub open spec fn default_settings(
    platform: Platform,
    current_dir: Option<Seq<char>>,
) -> SettingsModel {
    SettingsModel {
        included_directories: seq![
            match current_dir {
                Some(dir) => dir,
                None => fallback_root(platform),
            },
        ],
        excluded_directories: default_excluded_directories(platform),
        excluded_items: default_excluded_items(platform),
        allowed_extensions: Seq::empty(),
        save_at_exit: true,
        load_at_start: true,
        confirm_deletion: true,
    }
}

/// The characters of a string that may be missing.
pub open spec fn optional_text(s: Option<String>) -> Option<Seq<char>> {
    match s {
        Some(s) => Some(s@),
        None => None,
    }
}

/// The default settings on `platform`; `current_dir` is the working
/// directory, if the host could find it out.
pub fn defaults(platform: Platform, current_dir: Option<String>) -> (r: SettingsSnapshot)
    ensures
        r@ == default_settings(platform, optional_text(current_dir)),
{
    let ghost want = default_settings(platform, optional_text(current_dir));
    let mut r = SettingsSnapshot::new();
    let first = match current_dir {
        Some(dir) => dir,
        None => match platform {
            Platform::Unix => String::from_str("/home"),
            Platform::Windows => String::from_str("C:\\"),
            Platform::Other => String::from_str(""),
        },
    };
    r.included_directories.push(first);
    match platform {
        Platform::Unix => {
            push_str(&mut r.excluded_directories, "/proc");
            push_str(&mut r.excluded_directories, "/dev");
            push_str(&mut r.excluded_directories, "/sys");
            push_str(&mut r.excluded_directories, "/run");
            push_str(&mut r.excluded_directories, "/snap");
            push_str(&mut r.excluded_items, "*/.git/*");
            push_str(&mut r.excluded_items, "*/node_modules/*");
            push_str(&mut r.excluded_items, "*/lost+found/*");
            push_str(&mut r.excluded_items, "*/Trash/*");
            push_str(&mut r.excluded_items, "*/.Trash-*/*");
        },
        Platform::Windows => {
            push_str(&mut r.excluded_items, "*/.git/*");
            push_str(&mut r.excluded_items, "*/node_modules/*");
            push_str(&mut r.excluded_items, "*/lost+found/*");
            push_str(&mut r.excluded_items, "*/Trash/*");
            push_str(&mut r.excluded_items, "*/.Trash-*/*");
            push_str(&mut r.excluded_items, "*:/windows/*");
        },
        Platform::Other => {},
    }
    proof {
        assert(r@.included_directories =~= want.included_directories);
        assert(r@.excluded_directories =~= want.excluded_directories);
        assert(r@.excluded_items =~= want.excluded_items);
        assert(r@.allowed_extensions =~= want.allowed_extensions);
    }
    r
}

/// The pseudo file system `/proc` is left out by default on a Unix system,
/// and on no other.
pub proof fn lemma_proc_excluded_on_unix_only(platform: Platform, current_dir: Option<Seq<char>>)
    ensures
        default_settings(platform, current_dir).excluded_directories.contains("/proc"@) <==> platform
            == Platform::Unix,
{
    let list = default_settings(platform, current_dir).excluded_directories;
    if platform == Platform::Unix {
        assert(list[0] == "/proc"@);
    }
}

} // verus!
