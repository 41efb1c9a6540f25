//! Choosing among the render drivers that the windowing layer offers.

use vstd::prelude::*;
use vstd::string::StringExecFns;

verus! {

/// `at` is the first place in `names` that holds `wanted`.
pub open spec fn first_named(names: Seq<String>, wanted: Seq<char>, at: int) -> bool {
    &&& 0 <= at < names.len()
    &&& names[at]@ == wanted
    &&& forall|k: int| 0 <= k < at ==> (#[trigger] names[k])@ != wanted
}

/// Index of the first driver called `wanted`, if there is one.
pub fn find_driver(names: &Vec<String>, wanted: &str) -> (found: Option<u32>)
    requires
        names@.len() <= u32::MAX,
    ensures
        match found {
            Some(i) => first_named(names@, wanted@, i as int),
            None => forall|k: int| 0 <= k < names@.len() ==> (#[trigger] names@[k])@ != wanted@,
        },
{
    let wanted_name = String::from_str(wanted);
    let mut i: usize = 0;
    while i < names.len()
        invariant
            i <= names@.len() <= u32::MAX,
            wanted_name@ == wanted@,
            forall|k: int| 0 <= k < i ==> (#[trigger] names@[k])@ != wanted@,
        decreases names@.len() - i,
    {
        if names[i] == wanted_name {
            return Some(i as u32);
        }
        i = i + 1;
    }
    None
}

/// Index of the OpenGL render driver, the first one named `opengl`.
pub fn find_sdl_gl_driver(names: &Vec<String>) -> (found: Option<u32>)
    requires
        names@.len() <= u32::MAX,
    ensures
        match found {
            Some(i) => first_named(names@, "opengl"@, i as int),
            None => forall|k: int| 0 <= k < names@.len() ==> (#[trigger] names@[k])@ != "opengl"@,
        },
{
    find_driver(names, "opengl")
}

} // verus!
