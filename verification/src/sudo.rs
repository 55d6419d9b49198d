//! The `SUDO_ASKPASS` helper script: where it lives and when it must be
//! (re)written.
//!
//! On first launch the application copies the bundled askpass shell script
//! into the user's data dir and makes it executable (mode 0700 — sudo
//! requires the file to be owned by the invoking user and not
//! world-writable). Later launches rewrite it when it differs from the
//! bundled version, so a new version of `mtui` picks up askpass changes.

use vstd::prelude::*;

use crate::text::{join_path, path_join};

verus! {

/// `dirs::data_dir`: the user's data directory (`$XDG_DATA_HOME`, else
/// `~/.local/share` on Linux; `~/Library/Application Support` on macOS),
/// as text. It depends on the environment, so nothing is promised of it.
#[verifier::external_body]
fn user_data_dir() -> Option<String> {
    dirs::data_dir().map(|p| p.to_string_lossy().into_owned())
}

/// The directory of `mtui`'s data inside the user's data directory.
pub fn data_dir_in(base: &str) -> (r: String)
    ensures
        r@ == path_join(base@, "mtui"@),
{
    join_path(base, "mtui")
}

/// The directory of `mtui`'s data (`<data dir>/mtui`), or `None` if the
/// user's data directory cannot be determined.
pub fn data_dir() -> (r: Option<String>)
    ensures
        r matches Some(d) ==> exists|base: Seq<char>| d@ == path_join(base, "mtui"@),
{
    match user_data_dir() {
        Some(base) => Some(data_dir_in(base.as_str())),
        None => None,
    }
}

/// The path of the askpass helper inside `mtui`'s data directory.
pub fn askpass_path(dir: &str) -> (r: String)
    ensures
        r@ == path_join(dir@, "askpass.sh"@),
{
    join_path(dir, "askpass.sh")
}

/// Whether the helper must be written: it could not be read, or its text
/// differs from the bundled script.
pub fn askpass_needs_write(existing: Option<&str>, bundled: &str) -> (r: bool)
    ensures
        r == match existing {
            Some(e) => e@ != bundled@,
            None => true,
        },
{
    match existing {
        Some(e) => !crate::text::text_eq(e, bundled),
        None => true,
    }
}

} // verus!
