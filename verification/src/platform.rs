//! Resolution of the shared game-mods directory per operating system.

use vstd::prelude::*;
use vstd::string::StringExecFns;

use crate::errors::RinthaError;

verus! {

/// Compare two string slices by their character content.
fn str_equals(a: &str, b: &str) -> (r: bool)
    ensures
        r == (a@ == b@),
{
    let sa = a.to_owned();
    let sb = b.to_owned();
    sa == sb
}

/// The shared game-mods directory for the given operating system, as path
/// segments below the user's home directory; `UnsupportedPlatform` for any
/// other system, which is fatal for operations that touch the shared
/// directory.
pub fn mod_dir(os: &str) -> (r: Result<Vec<String>, RinthaError>)
    ensures
        r is Ok <==> (os@ == "macos"@ || os@ == "linux"@ || os@ == "windows"@),
        match r {
            Ok(segs) => {
                &&& (os@ == "macos"@ ==> {
                    &&& segs@.len() == 4
                    &&& segs@[0]@ == "Library"@
                    &&& segs@[1]@ == "ApplicationSupport"@
                    &&& segs@[2]@ == "minecraft"@
                    &&& segs@[3]@ == "mods"@
                })
                &&& (os@ == "linux"@ ==> {
                    &&& segs@.len() == 2
                    &&& segs@[0]@ == ".minecraft"@
                    &&& segs@[1]@ == "mods"@
                })
                &&& (os@ == "windows"@ ==> {
                    &&& segs@.len() == 4
                    &&& segs@[0]@ == "AppData"@
                    &&& segs@[1]@ == "Roaming"@
                    &&& segs@[2]@ == ".minecraft"@
                    &&& segs@[3]@ == "mods"@
                })
            },
            Err(e) => e == RinthaError::UnsupportedPlatform,
        },
{
    proof {
        reveal_strlit("macos");
        reveal_strlit("linux");
        reveal_strlit("windows");
        assert("macos"@.len() == 5 && "linux"@.len() == 5 && "windows"@.len() == 7);
        assert("macos"@ != "linux"@) by {
            assert("macos"@[0] == 'm' && "linux"@[0] == 'l');
        }
    }
    if str_equals(os, "macos") {
        let mut segs: Vec<String> = Vec::new();
        segs.push(String::from_str("Library"));
        segs.push(String::from_str("ApplicationSupport"));
        segs.push(String::from_str("minecraft"));
        segs.push(String::from_str("mods"));
        Ok(segs)
    } else if str_equals(os, "linux") {
        let mut segs: Vec<String> = Vec::new();
        segs.push(String::from_str(".minecraft"));
        segs.push(String::from_str("mods"));
        Ok(segs)
    } else if str_equals(os, "windows") {
        let mut segs: Vec<String> = Vec::new();
        segs.push(String::from_str("AppData"));
        segs.push(String::from_str("Roaming"));
        segs.push(String::from_str(".minecraft"));
        segs.push(String::from_str("mods"));
        Ok(segs)
    } else {
        Err(RinthaError::UnsupportedPlatform)
    }
}

} // verus!
