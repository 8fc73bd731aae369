//! The bootloader-configuration writer: what the file must say.
//!
//! The controller rewrites a pre-existing file that the device's
//! bootloader sources over TFTP. Opening and writing the file is the
//! caller's affair; the exact content, and whether the requested target
//! exists at all, are decided here.

use vstd::prelude::*;
use crate::config::TargetConfiguration;
use crate::config::find_menu_entry;
use crate::config::lookup_target;
use crate::errors::Error;
use crate::id::TargetId;

verus! {

/// The full text written to a device's bootloader config file for a
/// menu entry: a `samwise_entry` assignment and its export, two
/// LF-terminated lines, nothing else.
pub open spec fn grub_config_text(menu_entry: Seq<char>) -> Seq<char> {
    "set samwise_entry=\""@ + menu_entry + "\"\nexport samwise_entry\n"@
}

/// Renders the bootloader config file content for a menu entry.
pub fn render_grub_config(menu_entry: &str) -> (r: String)
    ensures
        r@ == grub_config_text(menu_entry@),
{
    let mut s = String::from_str("set samwise_entry=\"");
    s.append(menu_entry);
    s.append("\"\nexport samwise_entry\n");
    s
}

/// Decides what configuring a device for a target writes: the rendered
/// file content when the target is in the device's map,
/// `UnknownTarget` when it is not.
pub fn configure_content(
    targets: &Vec<(TargetId, TargetConfiguration)>,
    target: &TargetId,
) -> (r: Result<String, Error>)
    ensures
        match lookup_target(targets@, target@) {
            Some(tc) => r matches Ok(s) && s@ == grub_config_text(tc.menu_entry_spec()),
            None => r matches Err(e) && e matches Error::UnknownTarget(t) && t@ == target@,
        },
{
    match find_menu_entry(targets, target) {
        Some(entry) => Ok(render_grub_config(entry.as_str())),
        None => Err(Error::UnknownTarget(target.clone())),
    }
}

/// Where a device's bootloader config file lives: its configured
/// relative path under the TFTP directory.
pub fn grub_config_path(tftp_directory: &str, relative: &str) -> (r: String)
    ensures
        r@ == tftp_directory@ + "/"@ + relative@,
{
    let mut s = String::from_str(tftp_directory);
    s.append("/");
    s.append(relative);
    s
}

} // verus!
