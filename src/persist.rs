use vstd::prelude::*;
use vstd::string::*;
use crate::ui_state::{extension_start, find_last};

verus! {

/// `p` with its extension replaced by `tmp`, or `.tmp` appended when it
/// has none.
pub open spec fn temp_path_of(p: Seq<char>) -> Seq<char> {
    let k = extension_start(p);
    if k >= 0 {
        p.subrange(0, k) + "tmp"@
    } else {
        p + ".tmp"@
    }
}

/// Location of the snapshot file. Writing goes through a sibling
/// temporary file that then replaces the target, so the target always
/// holds a complete snapshot.
#[derive(Debug, Clone)]
pub struct Persistence {
    pub state_file: String,
}

impl Persistence {
    pub fn new(state_file: String) -> (r: Self)
        ensures
            r.state_file == state_file,
    {
        Persistence { state_file }
    }

    /// The sibling file written before the atomic rename.
    pub fn temp_file(&self) -> (r: String)
        ensures
            r@ == temp_path_of(self.state_file@),
    {
        let p = self.state_file.as_str();
        let after_slash = find_last(p, '/');
        let after_dot = find_last(p, '.');
        if after_dot > after_slash && after_dot - after_slash > 1 {
            String::from_str(p.substring_char(0, after_dot)).concat("tmp")
        } else {
            String::from_str(p).concat(".tmp")
        }
    }
}

} // verus!
