//! The AppleScript that puts a PNG file on the system clipboard.

use vstd::prelude::*;

verus! {

/// Script that reads the file at `image_path` as PNG data into the clipboard.
pub open spec fn clipboard_script_text(image_path: Seq<char>) -> Seq<char> {
    "set the clipboard to (read (POSIX file \""@ + image_path + "\") as «class PNGf»)"@
}

/// The script that copies the PNG file at `image_path` to the clipboard.
pub fn clipboard_script(image_path: &str) -> (r: String)
    ensures
        r@ == clipboard_script_text(image_path@),
{
    let mut script = String::from_str("set the clipboard to (read (POSIX file \"");
    script.append(image_path);
    script.append("\") as «class PNGf»)");
    script
}

} // verus!
