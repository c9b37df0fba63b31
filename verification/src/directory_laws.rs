//! What the directory operations are for, stated over the entries
//! themselves: which files each listing shows, when it succeeds, and when an
//! output directory is accepted.
use vstd::prelude::*;
use crate::dialogs::{diroutpress_result, dirpress_result};
use crate::listing::{
    dirlist_result, dirlistc_result, ends_with, image_names, is_image_name, orientation_item,
    orientation_items, DirEntry, FileEntry,
};
use crate::sorting::{lemma_lex_sorted, lex_sorted};
use crate::text::decimal;

verus! {

/// `n` ends with the characters `suf`.
pub open spec fn has_suffix(n: Seq<char>, suf: Seq<char>) -> bool {
    suf.len() <= n.len() && n.subrange(n.len() - suf.len(), n.len() as int) == suf
}

/// A name ending in `.jpg`, `.JPG`, `.jpeg`, `.JPEG`, `.png` or `.PNG`.
pub open spec fn image_suffix(n: Seq<char>) -> bool {
    ||| has_suffix(n, seq!['.', 'j', 'p', 'g'])
    ||| has_suffix(n, seq!['.', 'J', 'P', 'G'])
    ||| has_suffix(n, seq!['.', 'j', 'p', 'e', 'g'])
    ||| has_suffix(n, seq!['.', 'J', 'P', 'E', 'G'])
    ||| has_suffix(n, seq!['.', 'p', 'n', 'g'])
    ||| has_suffix(n, seq!['.', 'P', 'N', 'G'])
}

/// An entry that is a regular file with a valid Unicode name.
pub open spec fn is_regular(name: Option<String>, is_file: Option<bool>) -> bool {
    name is Some && is_file == Some(true)
}

/// A regular file whose name marks it as an image.
pub open spec fn regular_image(e: DirEntry) -> bool {
    is_regular(e.name, e.is_file) && image_suffix(e.name.unwrap()@)
}

/// The image files among `es`, in directory order.
pub open spec fn image_files(es: Seq<DirEntry>) -> Seq<DirEntry> {
    es.filter(|e: DirEntry| regular_image(e))
}

/// The regular files among `es`, in directory order.
pub open spec fn regular_files(es: Seq<FileEntry>) -> Seq<FileEntry> {
    es.filter(|e: FileEntry| is_regular(e.name, e.is_file))
}

proof fn lemma_ends_with_has_suffix(n: Seq<char>, suf: Seq<char>)
    ensures
        ends_with(n, suf) == has_suffix(n, suf),
{
    if suf.len() <= n.len() {
        assert(n.skip(n.len() - suf.len()) =~= n.subrange(n.len() - suf.len(), n.len() as int));
    }
}

/// The names taken for images are those with an image suffix.
proof fn lemma_image_name_is_suffix(n: Seq<char>)
    ensures
        is_image_name(n) == image_suffix(n),
{
    reveal_strlit(".jpg");
    reveal_strlit(".JPG");
    reveal_strlit(".jpeg");
    reveal_strlit(".JPEG");
    reveal_strlit(".png");
    reveal_strlit(".PNG");
    assert(".jpg"@ =~= seq!['.', 'j', 'p', 'g']);
    assert(".JPG"@ =~= seq!['.', 'J', 'P', 'G']);
    assert(".jpeg"@ =~= seq!['.', 'j', 'p', 'e', 'g']);
    assert(".JPEG"@ =~= seq!['.', 'J', 'P', 'E', 'G']);
    assert(".png"@ =~= seq!['.', 'p', 'n', 'g']);
    assert(".PNG"@ =~= seq!['.', 'P', 'N', 'G']);
    lemma_ends_with_has_suffix(n, ".jpg"@);
    lemma_ends_with_has_suffix(n, ".JPG"@);
    lemma_ends_with_has_suffix(n, ".jpeg"@);
    lemma_ends_with_has_suffix(n, ".JPEG"@);
    lemma_ends_with_has_suffix(n, ".png"@);
    lemma_ends_with_has_suffix(n, ".PNG"@);
}

/// The image listing holds, before sorting, exactly the names of the
/// regular files whose names end in `.jpg`, `.JPG`, `.jpeg`, `.JPEG`,
/// `.png` or `.PNG`, in directory order.
pub proof fn lemma_image_listing_is_the_image_files(es: Seq<DirEntry>)
    ensures
        image_names(es) == image_files(es).map_values(|e: DirEntry| e.name.unwrap()@),
    decreases es.len(),
{
    reveal(Seq::filter);
    if es.len() == 0 {
        assert(image_files(es) =~= Seq::<DirEntry>::empty());
        assert(image_names(es) =~= image_files(es).map_values(|e: DirEntry| e.name.unwrap()@));
    } else {
        let init = es.drop_last();
        let last = es.last();
        lemma_image_listing_is_the_image_files(init);
        if is_regular(last.name, last.is_file) {
            lemma_image_name_is_suffix(last.name.unwrap()@);
        }
        let m = image_files(init).map_values(|e: DirEntry| e.name.unwrap()@);
        assert(image_files(init).push(last).map_values(|e: DirEntry| e.name.unwrap()@) =~= m.push(
            last.name.unwrap()@,
        ));
        assert(image_names(es) =~= image_files(es).map_values(|e: DirEntry| e.name.unwrap()@));
    }
}

/// A directory holding a regular file whose name ends in `.jpg`, `.JPG`,
/// `.jpeg`, `.JPEG`, `.png` or `.PNG`, wherever it stands, lists with code 0,
/// its sorted listing holds that name, and choosing the directory as the
/// working directory succeeds with that listing.
pub proof fn lemma_image_file_is_listed(es: Seq<DirEntry>, k: int, start: Seq<char>, dir: Seq<char>)
    requires
        0 <= k < es.len(),
        regular_image(es[k]),
    ensures
        dirlist_result(Some(es)).0 == 0,
        lex_sorted(image_names(es)).contains(es[k].name.unwrap()@),
        dirpress_result(start, Some((dir, Some(es)))) == (
            0u32,
            "got directory"@,
            dir,
            dirlist_result(Some(es)).2,
        ),
{
    lemma_image_listing_is_the_image_files(es);
    es.lemma_filter_contains(|e: DirEntry| regular_image(e), k);
    let f = image_files(es);
    let j = choose|j: int| 0 <= j < f.len() && f[j] == es[k];
    let names = image_names(es);
    assert(names[j] == es[k].name.unwrap()@);
    lemma_lex_sorted(names);
    names.to_multiset_ensures();
    lex_sorted(names).to_multiset_ensures();
    assert(names.contains(names[j]));
    assert(names.to_multiset().count(names[j]) > 0);
}

/// The orientation listing holds, before sorting, one item per regular file,
/// in directory order: its name, then its orientation.
pub proof fn lemma_orientation_items_are_the_files(es: Seq<FileEntry>)
    ensures
        orientation_items(es) == regular_files(es).map_values(
            |e: FileEntry| orientation_item(e.name.unwrap()@, e.contents),
        ),
    decreases es.len(),
{
    reveal(Seq::filter);
    if es.len() == 0 {
        assert(regular_files(es) =~= Seq::<FileEntry>::empty());
        assert(orientation_items(es) =~= regular_files(es).map_values(
            |e: FileEntry| orientation_item(e.name.unwrap()@, e.contents),
        ));
    } else {
        let init = es.drop_last();
        let last = es.last();
        lemma_orientation_items_are_the_files(init);
        let m = regular_files(init).map_values(
            |e: FileEntry| orientation_item(e.name.unwrap()@, e.contents),
        );
        assert(regular_files(init).push(last).map_values(
            |e: FileEntry| orientation_item(e.name.unwrap()@, e.contents),
        ) =~= m.push(orientation_item(last.name.unwrap()@, last.contents)));
        assert(orientation_items(es) =~= regular_files(es).map_values(
            |e: FileEntry| orientation_item(e.name.unwrap()@, e.contents),
        ));
    }
}

/// The orientation listing succeeds (code 0) exactly where the directory
/// holds a regular file; it then counts the regular files and its sorted
/// listing holds the item of each of them. Otherwise it answers code 1 with
/// an empty listing.
pub proof fn lemma_orientation_listing_succeeds(es: Seq<FileEntry>)
    ensures
        (dirlistc_result(es).0 == 0) == (regular_files(es).len() > 0),
        dirlistc_result(es).0 == 0 ==> dirlistc_result(es).1 == decimal(regular_files(es).len())
            + " files in directory "@,
        dirlistc_result(es).0 != 0 ==> dirlistc_result(es).0 == 1 && dirlistc_result(es).2
            == " "@,
        forall|k: int|
            0 <= k < es.len() && is_regular(es[k].name, es[k].is_file) ==> lex_sorted(
                orientation_items(es),
            ).contains(#[trigger] orientation_item(es[k].name.unwrap()@, es[k].contents)),
{
    lemma_orientation_items_are_the_files(es);
    let items = orientation_items(es);
    lemma_lex_sorted(items);
    items.to_multiset_ensures();
    lex_sorted(items).to_multiset_ensures();
    assert forall|k: int|
        0 <= k < es.len() && is_regular(es[k].name, es[k].is_file) implies lex_sorted(
        items,
    ).contains(#[trigger] orientation_item(es[k].name.unwrap()@, es[k].contents)) by {
        es.lemma_filter_contains(|e: FileEntry| is_regular(e.name, e.is_file), k);
        let f = regular_files(es);
        let j = choose|j: int| 0 <= j < f.len() && f[j] == es[k];
        assert(items[j] == orientation_item(es[k].name.unwrap()@, es[k].contents));
        assert(items.contains(items[j]));
        assert(items.to_multiset().count(items[j]) > 0);
    }
}

/// The image listing of a directory that exists succeeds (code 0) exactly
/// where the directory holds an image file, and then counts the image
/// files; otherwise it answers code 2 with an empty listing. A directory
/// that does not exist answers code 1.
pub proof fn lemma_image_listing_succeeds(es: Seq<DirEntry>)
    ensures
        (dirlist_result(Some(es)).0 == 0) == (image_files(es).len() > 0),
        dirlist_result(Some(es)).0 == 0 ==> dirlist_result(Some(es)).1 == decimal(
            image_files(es).len(),
        ) + " files in directory "@,
        dirlist_result(Some(es)).0 != 0 ==> dirlist_result(Some(es)).0 == 2 && dirlist_result(
            Some(es),
        ).2 == " "@,
        dirlist_result(None).0 == 1,
{
    lemma_image_listing_is_the_image_files(es);
}

/// Choosing the working directory: a cancelled dialog keeps the directory
/// it opened in and lists nothing (code 1); a picked folder becomes the
/// directory shown, and is taken (code 0, with its image listing) exactly
/// where it exists and holds an image file, else refused with code 2.
pub proof fn lemma_dirpress_outcomes(
    start: Seq<char>,
    picked: Option<(Seq<char>, Option<Seq<DirEntry>>)>,
)
    ensures
        picked is None ==> dirpress_result(start, picked).0 == 1 && dirpress_result(start, picked).2
            == start && dirpress_result(start, picked).3 == " "@,
        picked matches Some((dir, entries)) ==> {
            &&& dirpress_result(start, picked).2 == dir
            &&& (dirpress_result(start, picked).0 == 0) == (entries matches Some(es)
                && image_files(es).len() > 0)
            &&& dirpress_result(start, picked).0 != 0 ==> dirpress_result(start, picked).0 == 2
                && dirpress_result(start, picked).3 == " "@
            &&& dirpress_result(start, picked).0 == 0 ==> dirpress_result(start, picked).3
                == dirlist_result(entries).2
        },
{
    if let Some((dir, Some(es))) = picked {
        lemma_image_listing_succeeds(es);
    }
}

/// Choosing the output directory: a cancelled dialog keeps the directory it
/// opened in (code 1), and a picked folder that does not exist is refused
/// with code 3; a picked folder is always the directory answered.
pub proof fn lemma_output_dialog_outcomes(
    start: Seq<char>,
    picked: Option<(Seq<char>, Option<Seq<DirEntry>>)>,
)
    ensures
        picked is None ==> diroutpress_result(start, picked) == (
            1u32,
            "error getting output directory -- possible cancel key hit"@,
            start,
        ),
        picked matches Some((dir, None)) ==> diroutpress_result(start, picked).0 == 3
            && diroutpress_result(start, picked).2 == dir,
        picked matches Some((dir, _)) ==> diroutpress_result(start, picked).2 == dir,
{
}

/// A picked output directory that exists is refused with code 2 where any
/// of its entries, wherever it stands, is a regular file with a valid name,
/// and accepted with code 0 where none is.
pub proof fn lemma_output_directory_holds_no_file(start: Seq<char>, dir: Seq<char>, es: Seq<DirEntry>)
    ensures
        (exists|i: int| 0 <= i < es.len() && #[trigger] is_regular(es[i].name, es[i].is_file))
            ==> diroutpress_result(start, Some((dir, Some(es)))) == (
            2u32,
            "the output directory has files in it"@,
            dir,
        ),
        (forall|i: int| 0 <= i < es.len() ==> !#[trigger] is_regular(es[i].name, es[i].is_file))
            ==> diroutpress_result(start, Some((dir, Some(es)))) == (
            0u32,
            "convert output directory selected"@,
            dir,
        ),
{
    if exists|i: int| 0 <= i < es.len() && #[trigger] is_regular(es[i].name, es[i].is_file) {
        let i = choose|i: int| 0 <= i < es.len() && #[trigger] is_regular(es[i].name, es[i].is_file);
        assert(crate::listing::file_name_of(es[i].name, es[i].is_file) is Some);
    }
    if forall|i: int| 0 <= i < es.len() ==> !#[trigger] is_regular(es[i].name, es[i].is_file) {
        assert forall|i: int| 0 <= i < es.len() implies crate::listing::file_name_of(
            es[i].name,
            es[i].is_file,
        ) is None by {
            assert(!is_regular(es[i].name, es[i].is_file));
        }
    }
}

/// Whether a picked output directory is accepted does not depend on the
/// order in which its entries were read.
pub proof fn lemma_output_directory_order_free(
    start: Seq<char>,
    dir: Seq<char>,
    es1: Seq<DirEntry>,
    es2: Seq<DirEntry>,
)
    requires
        es1.to_multiset() == es2.to_multiset(),
    ensures
        diroutpress_result(start, Some((dir, Some(es1)))) == diroutpress_result(
            start,
            Some((dir, Some(es2))),
        ),
{
    es1.to_multiset_ensures();
    es2.to_multiset_ensures();
    lemma_output_directory_holds_no_file(start, dir, es1);
    lemma_output_directory_holds_no_file(start, dir, es2);
    if exists|i: int| 0 <= i < es1.len() && #[trigger] is_regular(es1[i].name, es1[i].is_file) {
        let i = choose|i: int| 0 <= i < es1.len() && #[trigger] is_regular(es1[i].name, es1[i].is_file);
        assert(es1.contains(es1[i]));
        assert(es2.to_multiset().count(es1[i]) > 0);
        assert(es2.contains(es1[i]));
        let j = choose|j: int| 0 <= j < es2.len() && es2[j] == es1[i];
        assert(is_regular(es2[j].name, es2[j].is_file));
    }
    if exists|i: int| 0 <= i < es2.len() && #[trigger] is_regular(es2[i].name, es2[i].is_file) {
        let i = choose|i: int| 0 <= i < es2.len() && #[trigger] is_regular(es2[i].name, es2[i].is_file);
        assert(es2.contains(es2[i]));
        assert(es1.to_multiset().count(es2[i]) > 0);
        assert(es1.contains(es2[i]));
        let j = choose|j: int| 0 <= j < es1.len() && es1[j] == es2[i];
        assert(is_regular(es1[j].name, es1[j].is_file));
    }
}

} // verus!
