//! What the directory buttons decide around the folder dialog: where the
//! dialog opens, and what the chosen folder leads to.
use vstd::prelude::*;
use crate::listing::{dirlist_result, file_name_of, get_dirlist, DirEntry};

verus! {

/// Where the folder dialog opens: the current directory where it exists,
/// else the root.
pub open spec fn dialog_start_spec(dirval: Seq<char>, exists: bool) -> Seq<char> {
    if exists {
        dirval
    } else {
        "/"@
    }
}

/// Some entry of `es` is a regular file with a valid Unicode name.
pub open spec fn has_file(es: Seq<DirEntry>) -> bool {
    exists|i: int| 0 <= i < es.len() && (file_name_of(es[i].name, es[i].is_file) is Some)
}

/// The view of a directory reading.
pub open spec fn entries_view(entries: Option<Vec<DirEntry>>) -> Option<Seq<DirEntry>> {
    match entries {
        Some(es) => Some(es@),
        None => None,
    }
}

/// What choosing the working directory gives: error code, message, the
/// directory now shown, and its image listing. `picked` is the folder the
/// dialog returned (as displayed) with its entries (`None` where it does not
/// exist), or `None` where the dialog was cancelled.
pub open spec fn dirpress_result(
    start: Seq<char>,
    picked: Option<(Seq<char>, Option<Seq<DirEntry>>)>,
) -> (u32, Seq<char>, Seq<char>, Seq<char>) {
    match picked {
        None => (1, "error getting directory -- possible cancel key hit"@, start, " "@),
        Some((dir, entries)) => {
            let l = dirlist_result(entries);
            if l.0 == 0 {
                (0, "got directory"@, dir, l.2)
            } else {
                (2, l.1, dir, " "@)
            }
        },
    }
}

/// What choosing the output directory gives: error code, message and the
/// directory now shown.
pub open spec fn diroutpress_result(
    start: Seq<char>,
    picked: Option<(Seq<char>, Option<Seq<DirEntry>>)>,
) -> (u32, Seq<char>, Seq<char>) {
    match picked {
        None => (1, "error getting output directory -- possible cancel key hit"@, start),
        Some((dir, None)) => (3, "error output directory does not exist"@, dir),
        Some((dir, Some(es))) => if has_file(es) {
            (2, "the output directory has files in it"@, dir)
        } else {
            (0, "convert output directory selected"@, dir)
        },
    }
}

/// The view of what the folder dialog gave.
pub open spec fn picked_view(picked: Option<(String, Option<Vec<DirEntry>>)>) -> Option<
    (Seq<char>, Option<Seq<DirEntry>>),
> {
    match picked {
        Some((d, e)) => Some((d@, entries_view(e))),
        None => None,
    }
}

/// Where the folder dialog opens for a current directory `dirval`, given
/// whether that directory exists.
pub fn dialog_start(dirval: String, exists: bool) -> (r: String)
    ensures
        r@ == dialog_start_spec(dirval@, exists),
{
    if exists {
        dirval
    } else {
        String::from_str("/")
    }
}

/// The outcome of the working-directory button (error code, message,
/// directory, image listing), from where the dialog opened and what it gave.
pub fn dirpress(start: String, picked: Option<(String, Option<Vec<DirEntry>>)>) -> (r: (
    u32,
    String,
    String,
    String,
))
    requires
        picked matches Some((_, Some(es))) ==> es.len() <= i32::MAX,
    ensures
        (r.0, r.1@, r.2@, r.3@) == dirpress_result(start@, picked_view(picked)),
{
    match picked {
        None => (
            1,
            String::from_str("error getting directory -- possible cancel key hit"),
            start,
            String::from_str(" "),
        ),
        Some((dir, entries)) => {
            let (code, msg, list) = get_dirlist(entries);
            if code == 0 {
                (0, String::from_str("got directory"), dir, list)
            } else {
                (2, msg, dir, String::from_str(" "))
            }
        },
    }
}

/// Whether some entry is a regular file with a valid Unicode name.
pub fn has_file_exec(es: &Vec<DirEntry>) -> (r: bool)
    ensures
        r == has_file(es@),
{
    let mut i: usize = 0;
    while i < es.len()
        invariant
            i <= es.len(),
            forall|k: int| 0 <= k < i ==> (file_name_of(es@[k].name, es@[k].is_file) is None),
        decreases es.len() - i,
    {
        match (&es[i].name, &es[i].is_file) {
            (Some(_), Some(true)) => {
                return true;
            },
            _ => {},
        }
        i = i + 1;
    }
    false
}

/// The outcome of the output-directory button (error code, message,
/// directory), from where the dialog opened and what it gave.
pub fn c8_diroutpress(start: String, picked: Option<(String, Option<Vec<DirEntry>>)>) -> (r: (
    u32,
    String,
    String,
))
    ensures
        (r.0, r.1@, r.2@) == diroutpress_result(start@, picked_view(picked)),
{
    match picked {
        None => (1, String::from_str("error getting output directory -- possible cancel key hit"), start),
        Some((dir, None)) => (3, String::from_str("error output directory does not exist"), dir),
        Some((dir, Some(es))) => {
            if has_file_exec(&es) {
                (2, String::from_str("the output directory has files in it"), dir)
            } else {
                (0, String::from_str("convert output directory selected"), dir)
            }
        },
    }
}

} // verus!
