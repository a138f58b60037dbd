//! The program image: the bytes of a program and its name.

use vstd::prelude::*;
use vstd::string::{StrSliceExecFns, StringExecFns};

verus! {

/// A program: the bytes that are loaded into memory, and a name.
pub struct ROM {
    pub data: Vec<u8>,
    pub name: String,
}

/// Whether `name` is the part of `file_name` that stands before its first
/// dot: all of it, where it has none.
pub open spec fn is_stem(name: Seq<char>, file_name: Seq<char>) -> bool {
    &&& name.len() <= file_name.len()
    &&& name == file_name.take(name.len() as int)
    &&& forall|k: int| 0 <= k < name.len() ==> name[k] != '.'
    &&& name.len() == file_name.len() || file_name[name.len() as int] == '.'
}

impl ROM {
    /// A program of the given bytes and name.
    pub fn new(data: Vec<u8>, name: String) -> (rom: ROM)
        ensures
            rom.data == data,
            rom.name == name,
    {
        ROM { data, name }
    }

    /// The name of the program in a file of the given name: the file name up
    /// to its first dot.
    pub fn name_of(file_name: &str) -> (name: String)
        ensures
            is_stem(name@, file_name@),
    {
        let len = file_name.unicode_len();
        let mut n: usize = 0;
        while n < len && file_name.get_char(n) != '.'
            invariant
                n <= len,
                len == file_name@.len(),
                forall|k: int| 0 <= k < n ==> file_name@[k] != '.',
            decreases len - n,
        {
            n += 1;
        }
        String::from_str(file_name.substring_char(0, n))
    }
}

} // verus!
