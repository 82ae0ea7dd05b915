//! Where the documentation of a crate is rooted.
use vstd::prelude::*;
use crate::text::{chars_of, same_text};

verus! {

/// The crates whose documentation ships with the Rust toolchain.
pub open spec fn is_builtin_crate(name: Seq<char>) -> bool {
    name == "alloc"@ || name == "core"@ || name == "proc_macro"@ || name == "std"@ || name
        == "test"@
}

/// The documentation root of a crate that ships with the toolchain, if `crate_name`
/// is one; no network access is needed for those.
pub fn get_std_rs(crate_name: &str) -> (r: Option<String>)
    ensures
        r is Some <==> is_builtin_crate(crate_name@),
        r matches Some(u) ==> u@ == "https://doc.rust-lang.org/stable/"@ + crate_name@ + "/"@,
{
    if same_text(crate_name, "alloc") || same_text(crate_name, "core") || same_text(
        crate_name,
        "proc_macro",
    ) || same_text(crate_name, "std") || same_text(crate_name, "test") {
        let mut u = String::new();
        u.append("https://doc.rust-lang.org/stable/");
        u.append(crate_name);
        u.append("/");
        Some(u)
    } else {
        None
    }
}

/// `s` with a slash added at its end unless it already ends with one.
pub open spec fn with_trailing_slash(s: Seq<char>) -> Seq<char> {
    if s.len() > 0 && s.last() == '/' {
        s
    } else {
        s + "/"@
    }
}

/// The status code of a redirect that names a crate's documentation root.
pub const FOUND: u16 = 302;

/// The documentation root that a redirector's answer gives: the `Location`
/// of a `302` answer, ending with a slash; any other answer means that the
/// crate is not known.
pub fn origin_from_redirect(status: u16, location: Option<&str>) -> (r: Option<String>)
    ensures
        r is Some <==> (status == FOUND && location is Some),
        r matches Some(u) ==> u@ == with_trailing_slash(location.unwrap()@),
{
    if status != FOUND {
        return None;
    }
    match location {
        None => None,
        Some(loc) => {
            let cs = chars_of(loc);
            let mut u = loc.to_owned();
            if cs.len() == 0 || cs[cs.len() - 1] != '/' {
                u.append("/");
            }
            Some(u)
        },
    }
}

} // verus!
