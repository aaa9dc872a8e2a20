//! Static files: the content type that goes with a file name.

use crate::text::{chars_of, same_text, string_of};
use vstd::prelude::*;

verus! {

/// Where the extension of a name of `n` characters begins: behind the last
/// dot among them, or at the start where there is none.
pub open spec fn extension_start(name: Seq<char>, n: int) -> int
    decreases n,
{
    if n <= 0 {
        0
    } else if name[n - 1] == '.' {
        n
    } else {
        extension_start(name, n - 1)
    }
}

/// The extension of a file name: what follows its last dot, or the whole
/// name where it has none.
pub open spec fn extension(name: Seq<char>) -> Seq<char> {
    name.skip(extension_start(name, name.len() as int))
}

/// The content type that goes with an extension.
pub open spec fn content_type_of(ext: Seq<char>) -> Seq<char> {
    if ext == "css"@ {
        "text/css"@
    } else if ext == "js"@ {
        "application/javascript"@
    } else if ext == "html"@ {
        "text/html"@
    } else if ext == "png"@ {
        "image/png"@
    } else if ext == "jpg"@ || ext == "jpeg"@ {
        "image/jpeg"@
    } else if ext == "gif"@ {
        "image/gif"@
    } else if ext == "ico"@ {
        "image/x-icon"@
    } else {
        "application/octet-stream"@
    }
}

/// The extension of a file name.
pub fn extension_of(filename: &str) -> (r: String)
    ensures
        r@ == extension(filename@),
{
    let name = chars_of(filename);
    let mut n: usize = name.len();
    while n > 0 && name[n - 1] != '.'
        invariant
            n <= name.len(),
            extension_start(name@, name.len() as int) == extension_start(name@, n as int),
        decreases n,
    {
        n -= 1;
    }
    let mut out: Vec<char> = Vec::new();
    let mut i: usize = n;
    while i < name.len()
        invariant
            n <= i <= name.len(),
            out@ == name@.subrange(n as int, i as int),
        decreases name.len() - i,
    {
        out.push(name[i]);
        i += 1;
    }
    assert(name@.subrange(n as int, name.len() as int) =~= name@.skip(n as int));
    string_of(&out)
}

/// The content type under which a static file is served, by the extension
/// of its name.
pub fn content_type_for(filename: &str) -> (r: String)
    ensures
        r@ == content_type_of(extension(filename@)),
{
    let ext = extension_of(filename);
    let e = ext.as_str();
    if same_text(e, "css") {
        "text/css".to_string()
    } else if same_text(e, "js") {
        "application/javascript".to_string()
    } else if same_text(e, "html") {
        "text/html".to_string()
    } else if same_text(e, "png") {
        "image/png".to_string()
    } else if same_text(e, "jpg") || same_text(e, "jpeg") {
        "image/jpeg".to_string()
    } else if same_text(e, "gif") {
        "image/gif".to_string()
    } else if same_text(e, "ico") {
        "image/x-icon".to_string()
    } else {
        "application/octet-stream".to_string()
    }
}

} // verus!
