//! Directory listings: the sorted image list that the directory buttons show,
//! and the sorted list of files with their Exif orientation.
use vstd::prelude::*;
use crate::sorting::{lex_sorted, sort_lex};
use crate::text::{cat, chars_of, decimal, decimal_string, string_of, views};

verus! {

/// One entry read from a directory: its name where it is valid Unicode, and
/// whether it is a regular file where its metadata could be read.
pub struct DirEntry {
    pub name: Option<String>,
    pub is_file: Option<bool>,
}

/// One entry read from a directory together with its contents, or the text
/// of the error met while reading them.
pub struct FileEntry {
    pub name: Option<String>,
    pub is_file: Option<bool>,
    pub contents: Result<Vec<u8>, String>,
}

// ---------------------------------------------------------------------
// Specifications
// ---------------------------------------------------------------------
/// Whether `s` ends with `suffix`.
pub open spec fn ends_with(s: Seq<char>, suffix: Seq<char>) -> bool {
    suffix.len() <= s.len() && s.skip(s.len() - suffix.len()) == suffix
}

/// The file names that the listing takes for images.
pub open spec fn is_image_name(n: Seq<char>) -> bool {
    ||| ends_with(n, ".jpg"@)
    ||| ends_with(n, ".JPG"@)
    ||| ends_with(n, ".jpeg"@)
    ||| ends_with(n, ".JPEG"@)
    ||| ends_with(n, ".png"@)
    ||| ends_with(n, ".PNG"@)
}

/// The name of an entry that is a regular file with a valid Unicode name.
pub open spec fn file_name_of(name: Option<String>, is_file: Option<bool>) -> Option<Seq<char>> {
    match (name, is_file) {
        (Some(n), Some(true)) => Some(n@),
        _ => None,
    }
}

/// The names of the image files among `es`, in directory order.
pub open spec fn image_names(es: Seq<DirEntry>) -> Seq<Seq<char>>
    decreases es.len(),
{
    if es.len() == 0 {
        Seq::empty()
    } else {
        let init = image_names(es.drop_last());
        match file_name_of(es.last().name, es.last().is_file) {
            Some(n) => if is_image_name(n) {
                init.push(n)
            } else {
                init
            },
            None => init,
        }
    }
}

/// A listing: a space, then each item followed by a newline and a space.
pub open spec fn listing_text(items: Seq<Seq<char>>) -> Seq<char>
    decreases items.len(),
{
    if items.len() == 0 {
        seq![' ']
    } else {
        listing_text(items.drop_last()) + items.last() + seq!['\n', ' ']
    }
}

/// What the image listing of a directory gives: its error code, message and
/// listing. `None` stands for a directory that does not exist.
pub open spec fn dirlist_result(entries: Option<Seq<DirEntry>>) -> (u32, Seq<char>, Seq<char>) {
    match entries {
        None => (1, "directory does not exist"@, " "@),
        Some(es) => {
            let names = image_names(es);
            if names.len() > 0 {
                (0, decimal(names.len()) + " files in directory "@, listing_text(lex_sorted(names)))
            } else {
                (2, "********* No images in directory **********"@, " "@)
            }
        },
    }
}

/// What the Exif reader finds in a file's bytes: the text of its error, or
/// whether the primary image has an orientation field and, if so, whether
/// its first value is an unsigned integer.
pub uninterp spec fn exif_orientation_lookup(bytes: Seq<u8>) -> Result<Option<Option<u32>>, Seq<char>>;

/// The orientation column shown for a file.
pub open spec fn orientation_text(contents: Result<Seq<u8>, Seq<char>>) -> Seq<char> {
    match contents {
        Err(e) => "Meta error : "@ + e,
        Ok(bytes) => match exif_orientation_lookup(bytes) {
            Err(e) => "Meta error : "@ + e,
            Ok(None) => "x"@,
            Ok(Some(None)) => "-"@,
            Ok(Some(Some(w))) => decimal(w as nat),
        },
    }
}

/// The view of a file's contents or of the error met reading them.
pub open spec fn contents_view(c: Result<Vec<u8>, String>) -> Result<Seq<u8>, Seq<char>> {
    match c {
        Ok(b) => Ok(b@),
        Err(e) => Err(e@),
    }
}

/// The line shown for a file: its name and its orientation.
pub open spec fn orientation_item(name: Seq<char>, contents: Result<Vec<u8>, String>) -> Seq<char> {
    name + " | orientation: "@ + orientation_text(contents_view(contents))
}

/// The lines for the regular files among `es`, in directory order.
pub open spec fn orientation_items(es: Seq<FileEntry>) -> Seq<Seq<char>>
    decreases es.len(),
{
    if es.len() == 0 {
        Seq::empty()
    } else {
        let init = orientation_items(es.drop_last());
        match file_name_of(es.last().name, es.last().is_file) {
            Some(n) => init.push(orientation_item(n, es.last().contents)),
            None => init,
        }
    }
}

/// What the orientation listing of a directory gives: its error code,
/// message and listing.
pub open spec fn dirlistc_result(es: Seq<FileEntry>) -> (u32, Seq<char>, Seq<char>) {
    let items = orientation_items(es);
    if items.len() > 0 {
        (0, decimal(items.len()) + " files in directory "@, listing_text(lex_sorted(items)))
    } else {
        (1, "********* Directory 1: directory has no images **********"@, " "@)
    }
}

/// A directory has no more image names than entries.
proof fn lemma_image_names_len(es: Seq<DirEntry>)
    ensures
        image_names(es).len() <= es.len(),
    decreases es.len(),
{
    if es.len() > 0 {
        lemma_image_names_len(es.drop_last());
    }
}

/// A directory has no more listed files than entries.
proof fn lemma_orientation_items_len(es: Seq<FileEntry>)
    ensures
        orientation_items(es).len() <= es.len(),
    decreases es.len(),
{
    if es.len() > 0 {
        lemma_orientation_items_len(es.drop_last());
    }
}

// ---------------------------------------------------------------------
// Executable functions
// ---------------------------------------------------------------------
/// Whether `s` ends with `suffix`.
pub fn ends_with_exec(s: &Vec<char>, suffix: &str) -> (r: bool)
    ensures
        r == ends_with(s@, suffix@),
{
    let t = chars_of(suffix);
    if t.len() > s.len() {
        return false;
    }
    let off = s.len() - t.len();
    let mut i: usize = 0;
    while i < t.len()
        invariant
            i <= t.len(),
            off == s.len() - t.len(),
            t@ == suffix@,
            forall|k: int| 0 <= k < i ==> s@[off + k] == t@[k],
        decreases t.len() - i,
    {
        if s[off + i] != t[i] {
            proof {
                assert(s@.skip(off as int)[i as int] != t@[i as int]);
            }
            return false;
        }
        i = i + 1;
    }
    proof {
        assert(s@.skip(off as int) =~= t@);
    }
    true
}

/// Whether a file name is taken for an image.
pub fn is_image_name_exec(n: &Vec<char>) -> (r: bool)
    ensures
        r == is_image_name(n@),
{
    ends_with_exec(n, ".jpg") || ends_with_exec(n, ".JPG") || ends_with_exec(n, ".jpeg")
        || ends_with_exec(n, ".JPEG") || ends_with_exec(n, ".png") || ends_with_exec(n, ".PNG")
}

/// The listing text of `items`.
pub fn listing_string(items: &Vec<Vec<char>>) -> (s: String)
    ensures
        s@ == listing_text(views(items@)),
{
    let mut s = String::from_str(" ");
    let mut i: usize = 0;
    proof {
        reveal_strlit(" ");
        assert(views(items@).take(0) =~= Seq::<Seq<char>>::empty());
    }
    while i < items.len()
        invariant
            i <= items.len(),
            s@ == listing_text(views(items@).take(i as int)),
        decreases items.len() - i,
    {
        let name = string_of(&items[i]);
        s = cat(s, name.as_str());
        s = cat(s, "\n ");
        proof {
            reveal_strlit("\n ");
            let t = views(items@).take(i + 1);
            assert(t.drop_last() =~= views(items@).take(i as int));
            assert(t.last() == items@[i as int]@);
            assert(s@ =~= listing_text(t));
        }
        i = i + 1;
    }
    proof {
        assert(views(items@).take(items.len() as int) =~= views(items@));
    }
    s
}

/// The image listing of a directory: its error code, message and listing.
/// `entries` is `None` where the directory does not exist, else what reading
/// it gave, in the order read.
pub fn get_dirlist(entries: Option<Vec<DirEntry>>) -> (r: (u32, String, String))
    requires
        entries matches Some(es) ==> es.len() <= i32::MAX,
    ensures
        (r.0, r.1@, r.2@) == dirlist_result(match entries {
            Some(es) => Some(es@),
            None => None,
        }),
{
    match entries {
        None => (1, String::from_str("directory does not exist"), String::from_str(" ")),
        Some(es) => {
            let mut names: Vec<Vec<char>> = Vec::new();
            let mut i: usize = 0;
            while i < es.len()
                invariant
                    i <= es.len(),
                    views(names@) == image_names(es@.take(i as int)),
                decreases es.len() - i,
            {
                proof {
                    assert(es@.take(i + 1).drop_last() =~= es@.take(i as int));
                    assert(es@.take(i + 1).last() == es@[i as int]);
                }
                let e = &es[i];
                match (&e.name, &e.is_file) {
                    (Some(n), Some(true)) => {
                        let cs = chars_of(n.as_str());
                        if is_image_name_exec(&cs) {
                            names.push(cs);
                            proof {
                                assert(views(names@) =~= image_names(es@.take(i + 1)));
                            }
                        }
                    },
                    _ => {},
                }
                i = i + 1;
            }
            proof {
                assert(es@.take(es.len() as int) =~= es@);
                lemma_image_names_len(es@);
            }
            let count = names.len();
            if count > 0 {
                let sorted = sort_lex(names);
                let listing = listing_string(&sorted);
                let msg = cat(decimal_string(count as u64), " files in directory ");
                (0, msg, listing)
            } else {
                (2, String::from_str("********* No images in directory **********"), String::from_str(" "))
            }
        },
    }
}

/// Reads the Exif data in `bytes` (a whole image file, as
/// `exif::Reader::read_from_container` reads it from a file) and looks up
/// the orientation field of the primary image (`Exif::get_field` with
/// `Tag::Orientation` and `In::PRIMARY`) and its first value as an unsigned
/// integer (`Value::get_uint(0)`). An error is handed back as its text.
/// The contract names the outcome: it is a function of the bytes alone.
#[verifier::external_body]
fn read_orientation(bytes: &Vec<u8>) -> (r: Result<Option<Option<u32>>, String>)
    ensures
        match r {
            Ok(o) => exif_orientation_lookup(bytes@) == Ok::<Option<Option<u32>>, Seq<char>>(o),
            Err(e) => exif_orientation_lookup(bytes@) == Err::<Option<Option<u32>>, Seq<char>>(e@),
        },
{
    match exif::Reader::new().read_from_container(&mut std::io::Cursor::new(bytes.as_slice())) {
        Ok(data) => Ok(data.get_field(exif::Tag::Orientation, exif::In::PRIMARY).map(|f| f.value.get_uint(0))),
        Err(e) => Err(e.to_string()),
    }
}

/// The orientation column for a file with the given contents.
pub fn orientation_string(contents: &Result<Vec<u8>, String>) -> (s: String)
    ensures
        s@ == orientation_text(contents_view(*contents)),
{
    match contents {
        Err(e) => cat(String::from_str("Meta error : "), e.as_str()),
        Ok(bytes) => match read_orientation(bytes) {
            Err(e) => cat(String::from_str("Meta error : "), e.as_str()),
            Ok(None) => String::from_str("x"),
            Ok(Some(None)) => String::from_str("-"),
            Ok(Some(Some(w))) => decimal_string(w as u64),
        },
    }
}

/// The orientation listing of a directory: its error code, message and
/// listing. `entries` are what reading it gave, in the order read.
pub fn get_dirlistc(entries: Vec<FileEntry>) -> (r: (u32, String, String))
    requires
        entries.len() <= i32::MAX,
    ensures
        (r.0, r.1@, r.2@) == dirlistc_result(entries@),
{
    let mut items: Vec<Vec<char>> = Vec::new();
    let mut i: usize = 0;
    while i < entries.len()
        invariant
            i <= entries.len(),
            views(items@) == orientation_items(entries@.take(i as int)),
        decreases entries.len() - i,
    {
        proof {
            assert(entries@.take(i + 1).drop_last() =~= entries@.take(i as int));
            assert(entries@.take(i + 1).last() == entries@[i as int]);
        }
        let e = &entries[i];
        match (&e.name, &e.is_file) {
            (Some(n), Some(true)) => {
                let orient = orientation_string(&e.contents);
                let line = cat(cat(n.clone(), " | orientation: "), orient.as_str());
                items.push(chars_of(line.as_str()));
                proof {
                    assert(views(items@) =~= orientation_items(entries@.take(i + 1)));
                }
            },
            _ => {},
        }
        i = i + 1;
    }
    proof {
        assert(entries@.take(entries.len() as int) =~= entries@);
        lemma_orientation_items_len(entries@);
    }
    let count = items.len();
    if count > 0 {
        let sorted = sort_lex(items);
        let listing = listing_string(&sorted);
        let msg = cat(decimal_string(count as u64), " files in directory ");
        (0, msg, listing)
    } else {
        (
            1,
            String::from_str("********* Directory 1: directory has no images **********"),
            String::from_str(" "),
        )
    }
}

} // verus!
