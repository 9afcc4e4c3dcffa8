//! Naming of the temporary file that a save writes beside its target before
//! renaming it over the target.
use vstd::prelude::*;

use crate::textops::{decimal, push_char, push_decimal};

verus! {

/// `.<file_name>.tmp.<process_id>`: the temporary file that a save writes
/// in the target's directory.
pub open spec fn temporary_name(file_name: Seq<char>, process_id: nat) -> Seq<char> {
    seq!['.'] + file_name + seq!['.', 't', 'm', 'p', '.'] + decimal(process_id)
}

/// The name that stands for a target path without a (UTF-8) file name.
pub open spec fn fallback_file_name() -> Seq<char> {
    seq!['f', 'i', 'l', 'e']
}

/// The name of the temporary file for a target whose file name is
/// `file_name` (`"file"` where the path has none), written by the process
/// `process_id`.
pub fn temporary_file_name(file_name: Option<&str>, process_id: u32) -> (r: String)
    ensures
        r@ == temporary_name(
            match file_name {
                Some(n) => n@,
                None => fallback_file_name(),
            },
            process_id as nat,
        ),
{
    let mut s = String::new();
    push_char(&mut s, '.');
    match file_name {
        Some(n) => {
            s.append(n);
        },
        None => {
            push_char(&mut s, 'f');
            push_char(&mut s, 'i');
            push_char(&mut s, 'l');
            push_char(&mut s, 'e');
        },
    }
    let ghost named = s@;
    push_char(&mut s, '.');
    push_char(&mut s, 't');
    push_char(&mut s, 'm');
    push_char(&mut s, 'p');
    push_char(&mut s, '.');
    assert(s@ =~= named + seq!['.', 't', 'm', 'p', '.']);
    push_decimal(&mut s, process_id as usize);
    assert(s@ =~= temporary_name(
        match file_name {
            Some(n) => n@,
            None => fallback_file_name(),
        },
        process_id as nat,
    ));
    s
}

} // verus!
