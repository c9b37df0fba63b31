//! Properties that tie the listings to the runs that read them back.
use vstd::prelude::*;
use crate::batch::{
    batch_lines_spec, first_field, orientation_mark, orientation_readable, second_field, source_path_spec,
    target_path_spec, wants_rotation,
};
use crate::batch::{next_numprocess, paced, Launch};
use crate::listing::{
    contents_view, dirlist_result, dirlistc_result, exif_orientation_lookup, file_name_of, image_names,
    listing_text, orientation_item, orientation_items, orientation_text, FileEntry,
};
use crate::model::{Copyx, MsgColor, PageChoice, Progstart, Rotatex};
use crate::photo_rot::{
    initial_screen, page_message, resume_spec, update_spec, Message, Outcome, PhotoRotView, Purpose, RequestView,
};
use crate::progress::{lemma_progress_roundtrip, progress_line_spec, progress_report_spec};
use crate::sorting::{lemma_lex_sorted, lex_sorted};
use crate::tab_bar::{bar_resume_spec, bar_update_spec, BarMessage, BarOutcome, TabBarView};
use crate::tabs::{entries_message, missing_dir_message, C8Message, RcMessage, TabRequestView};
use crate::progress::{lemma_split_after_sep, lemma_split_without_sep, no_char};
use crate::text::{
    decimal, digit_char, drops_first_byte, find, find_from, lemma_find_from_bound, lemma_one_byte_shift, one_byte_char_at, parse_i32,
    split_char, utf8_len, utf8_width,
};

verus! {

/// Appending text without `c` extends the last piece.
pub proof fn lemma_split_append_plain(a: Seq<char>, b: Seq<char>, c: char)
    requires
        no_char(b, c),
    ensures
        split_char(a + b, c) == split_char(a, c).update(
            split_char(a, c).len() - 1,
            split_char(a, c).last() + b,
        ),
    decreases b.len(),
{
    crate::text::lemma_split_char_nonempty(a, c);
    if b.len() == 0 {
        assert(a + b =~= a);
        assert(split_char(a, c).last() + b =~= split_char(a, c).last());
        assert(split_char(a, c).update(split_char(a, c).len() - 1, split_char(a, c).last())
            =~= split_char(a, c));
    } else {
        let b0 = b.drop_last();
        lemma_split_append_plain(a, b0, c);
        assert((a + b).drop_last() =~= a + b0);
        assert((a + b).last() == b.last());
        let sa = split_char(a, c);
        let n = sa.len() - 1;
        assert(sa.update(n, sa.last() + b0).last() == sa.last() + b0);
        assert((sa.last() + b0).push(b.last()) =~= sa.last() + b);
        assert(sa.update(n, sa.last() + b0).update(n, sa.last() + b) =~= sa.update(n, sa.last() + b));
    }
}

/// The lines of a listing, split on newlines, are its items each after a
/// space, followed by the lone space that ends the listing.
pub proof fn lemma_split_listing(items: Seq<Seq<char>>)
    requires
        forall|i: int| 0 <= i < items.len() ==> no_char(#[trigger] items[i], '\n'),
    ensures
        split_char(listing_text(items), '\n') == items.map_values(|it: Seq<char>| seq![' '] + it).push(
            seq![' '],
        ),
    decreases items.len(),
{
    if items.len() == 0 {
        assert(no_char(seq![' '], '\n'));
        lemma_split_without_sep(seq![' '], '\n');
        assert(listing_text(items) == seq![' ']);
        assert(items.map_values(|it: Seq<char>| seq![' '] + it) =~= Seq::<Seq<char>>::empty());
    } else {
        let init = items.drop_last();
        let last = items.last();
        assert forall|i: int| 0 <= i < init.len() implies no_char(#[trigger] init[i], '\n') by {
            assert(init[i] == items[i]);
        }
        lemma_split_listing(init);
        let l0 = listing_text(init);
        assert(no_char(last, '\n')) by {
            assert(last == items[items.len() - 1]);
        }
        lemma_split_append_plain(l0, last, '\n');
        assert(no_char(seq![' '], '\n'));
        lemma_split_after_sep(l0 + last, seq![' '], '\n');
        assert(listing_text(items) =~= (l0 + last).push('\n') + seq![' ']);
        let m0 = init.map_values(|it: Seq<char>| seq![' '] + it);
        let sp = m0.push(seq![' ']);
        assert(sp.last() + last =~= seq![' '] + last);
        assert(sp.update(sp.len() - 1, sp.last() + last) =~= m0.push(seq![' '] + last));
        assert(items.map_values(|it: Seq<char>| seq![' '] + it) =~= m0.push(seq![' '] + last));
    }
}

/// The lines a run reads from a listing are the listing's items, each after
/// a space.
pub proof fn lemma_batch_lines_of_listing(items: Seq<Seq<char>>)
    requires
        forall|i: int| 0 <= i < items.len() ==> no_char(#[trigger] items[i], '\n'),
    ensures
        batch_lines_spec(listing_text(items)) == items.map_values(|it: Seq<char>| seq![' '] + it),
{
    lemma_split_listing(items);
    let m = items.map_values(|it: Seq<char>| seq![' '] + it);
    assert(m.push(seq![' ']).drop_last() =~= m);
}

/// Where `pat` first occurs at `k` or later, searching from `i` finds `k`.
proof fn lemma_find_from_at(s: Seq<char>, pat: Seq<char>, i: int, k: int)
    requires
        0 <= i <= k,
        k + pat.len() <= s.len(),
        s.subrange(k, k + pat.len()) == pat,
        forall|j: int| i <= j < k ==> #[trigger] s.subrange(j, j + pat.len()) != pat,
    ensures
        find_from(s, pat, i) == Some(k),
    decreases k - i,
{
    if i < k {
        lemma_find_from_at(s, pat, i + 1, k);
    }
}

/// Where `pat` does not occur from `i` on, searching from `i` finds nothing.
proof fn lemma_find_from_none(s: Seq<char>, pat: Seq<char>, i: int)
    requires
        0 <= i,
        forall|j: int| i <= j && j + pat.len() <= s.len() ==> #[trigger] s.subrange(j, j + pat.len()) != pat,
    ensures
        find_from(s, pat, i) is None,
    decreases s.len() + 1 - i,
{
    if i + pat.len() <= s.len() {
        lemma_find_from_none(s, pat, i + 1);
    }
}

/// Without `|`, a text has no ` | `.
proof fn lemma_no_bar_no_separator(s: Seq<char>)
    requires
        no_char(s, '|'),
    ensures
        find(s, " | "@) is None,
{
    reveal_strlit(" | ");
    assert forall|j: int| 0 <= j && j + 3 <= s.len() implies #[trigger] s.subrange(j, j + 3) != " | "@ by {
        assert(s.subrange(j, j + 3)[1] == s[j + 1]);
        assert(" | "@[1] == '|');
    }
    lemma_find_from_none(s, " | "@, 0);
}

/// An ASCII text takes one byte per character.
proof fn lemma_ascii_len(s: Seq<char>)
    requires
        forall|i: int| 0 <= i < s.len() ==> (#[trigger] s[i] as u32) < 0x80,
    ensures
        utf8_len(s) == s.len(),
    decreases s.len(),
{
    if s.len() > 0 {
        let t = s.drop_first();
        assert forall|i: int| 0 <= i < t.len() implies (#[trigger] t[i] as u32) < 0x80 by {
            assert(t[i] == s[i + 1]);
        }
        lemma_ascii_len(t);
    }
}

/// Where searching from `i` finds nothing, `pat` occurs nowhere from `i` on.
proof fn lemma_find_from_none_all(s: Seq<char>, pat: Seq<char>, i: int)
    requires
        0 <= i,
        find_from(s, pat, i) is None,
    ensures
        forall|j: int| i <= j && j + pat.len() <= s.len() ==> #[trigger] s.subrange(j, j + pat.len()) != pat,
    decreases s.len() + 1 - i,
{
    if i + pat.len() <= s.len() {
        lemma_find_from_none_all(s, pat, i + 1);
    }
}

/// Searching from `i` or from `k` is the same where `pat` does not occur in
/// between.
proof fn lemma_find_from_skip(s: Seq<char>, pat: Seq<char>, i: int, k: int)
    requires
        0 <= i <= k,
        forall|j: int| i <= j < k && j + pat.len() <= s.len() ==> #[trigger] s.subrange(j, j + pat.len()) != pat,
    ensures
        find_from(s, pat, i) == find_from(s, pat, k),
    decreases k - i,
{
    if i < k {
        if i + pat.len() <= s.len() {
            lemma_find_from_skip(s, pat, i + 1, k);
        }
    }
}

/// A name that a listing line keeps whole: between the space before it and
/// the separator after it, no ` | ` forms. That is, it holds no ` | `, does
/// not start with `| ` and does not end with ` |`.
pub open spec fn fits_line(name: Seq<char>) -> bool {
    find(seq![' '] + name + seq![' ', '|'], " | "@) is None
}

/// An orientation text whose first character ends no ` | `: it is not empty
/// and starts with neither a space nor `|`.
pub open spec fn plain_start(o: Seq<char>) -> bool {
    o.len() > 0 && o[0] != ' ' && o[0] != '|'
}

/// A name without `|` fits a listing line.
pub proof fn lemma_plain_name_fits(name: Seq<char>)
    requires
        no_char(name, '|'),
    ensures
        fits_line(name),
{
    reveal_strlit(" | ");
    let t = seq![' '] + name + seq![' ', '|'];
    let sep = " | "@;
    assert forall|j: int| 0 <= j && j + sep.len() <= t.len() implies #[trigger] t.subrange(j, j + sep.len()) != sep by {
        assert(t.subrange(j, j + 3)[1] == t[j + 1]);
        if j + 1 <= name.len() {
            assert(t[j + 1] == name[j]);
        } else {
            assert(t[j + 1] == ' ');
        }
        assert(sep[1] == '|');
    }
    lemma_find_from_none(t, sep, 0);
}

/// The line a run reads for a file listed as `name` with orientation text
/// `o`: the run finds the file as `dir/name`, writes a conversion to
/// `outdir/ name` (the listing's leading space kept), and reads the
/// orientation from the first byte of `o`. This holds for every name that
/// fits a line (`fits_line`) and every orientation text that starts plainly;
/// where `o` holds no `|`, the second field is all of `orientation: o`.
pub proof fn lemma_listed_line(name: Seq<char>, o: Seq<char>, dir: Seq<char>, outdir: Seq<char>)
    requires
        fits_line(name),
        plain_start(o),
    ensures
        ({
            let line = seq![' '] + name + " | orientation: "@ + o;
            &&& first_field(line) == seq![' '] + name
            &&& drops_first_byte(first_field(line))
            &&& source_path_spec(dir, line) == dir + "/"@ + name
            &&& target_path_spec(outdir, line) == outdir + "/"@ + seq![' '] + name
            &&& find(line, " | "@) is Some
            &&& orientation_mark(second_field(line)) == Some(one_byte_char_at(o, 0))
            &&& no_char(o, '|') ==> second_field(line) == "orientation: "@ + o
        }),
{
    reveal_strlit(" | ");
    reveal_strlit(" | orientation: ");
    reveal_strlit("orientation: ");
    reveal_strlit("orientation");
    let line = seq![' '] + name + " | orientation: "@ + o;
    let n: int = name.len() as int;
    let k: int = n + 1;
    let sep = " | "@;
    let t = seq![' '] + name + seq![' ', '|'];
    lemma_find_from_none_all(t, sep, 0);
    assert(line.subrange(k, k + 3) =~= sep);
    assert forall|j: int| 0 <= j < k implies #[trigger] line.subrange(j, j + sep.len()) != sep by {
        assert(line.subrange(j, j + 3) =~= t.subrange(j, j + 3));
    }
    lemma_find_from_at(line, sep, 0, k);
    assert(first_field(line) =~= seq![' '] + name);
    assert(first_field(line).drop_first() =~= name);
    assert(source_path_spec(dir, line) =~= dir + "/"@ + name);
    assert(target_path_spec(outdir, line) =~= outdir + "/"@ + seq![' '] + name);
    let rest = line.skip(k + 3);
    let word = "orientation: "@;
    assert(rest =~= word + o);
    assert forall|j: int| 0 <= j < 14 && j + sep.len() <= rest.len() implies #[trigger] rest.subrange(
        j,
        j + sep.len(),
    ) != sep by {
        if j <= 10 {
            assert(rest.subrange(j, j + 3)[1] == rest[j + 1]);
            assert(rest[j + 1] == word[j + 1]);
        } else if j == 11 {
            assert(rest.subrange(j, j + 3)[0] == rest[11]);
            assert(rest[11] == word[11]);
        } else if j == 12 {
            assert(rest.subrange(j, j + 3)[1] == rest[13]);
            assert(rest[13] == o[0]);
        } else {
            assert(rest.subrange(j, j + 3)[0] == rest[13]);
            assert(rest[13] == o[0]);
        }
    }
    lemma_find_from_skip(rest, sep, 0, 14);
    lemma_find_from_bound(rest, sep, 14);
    let field = second_field(line);
    assert(field.len() >= 14 && forall|i: int| 0 <= i < field.len() ==> field[i] == rest[i]);
    let ow = "orientation"@;
    assert(field.subrange(0, 11) =~= ow);
    lemma_find_from_at(field, ow, 0, 0);
    assert(field.take(0) =~= Seq::<char>::empty());
    assert(utf8_len(field.take(0)) == 0);
    assert(field.take(13) =~= word);
    lemma_ascii_len(field.take(13));
    lemma_one_byte_shift(field, 13, 0);
    assert(field.skip(13)[0] == o[0]);
    if no_char(o, '|') {
        assert(no_char(rest, '|')) by {
            assert forall|i: int| 0 <= i < rest.len() implies rest[i] != '|' by {
                if i < word.len() {
                    assert(rest[i] == word[i]);
                } else {
                    assert(rest[i] == o[i - word.len()]);
                }
            }
        }
        lemma_no_bar_no_separator(rest);
    }
}

/// For the orientation values 1 to 9, a run rotates exactly 3, 6 and 8.
pub proof fn lemma_rotation_choice(w: nat)
    requires
        1 <= w <= 9,
    ensures
        wants_rotation("orientation: "@ + decimal(w)) == (w == 3 || w == 6 || w == 8),
{
    let o = decimal(w);
    assert(o == seq![crate::text::digit_char(w)]);
    let d = crate::text::digit_char(w);
    assert((d as u32) == 48 + w);
    assert(utf8_width(d) == 1);
    assert(no_char(o, '|'));
    assert(no_char(seq!['a'], '|'));
    lemma_plain_name_fits(seq!['a']);
    assert((' ' as u32) == 32 && ('|' as u32) == 124);
    lemma_listed_line(seq!['a'], o, seq!['a'], seq!['a']);
    let line = seq![' '] + seq!['a'] + " | orientation: "@ + o;
    assert(orientation_mark(second_field(line)) == Some(one_byte_char_at(o, 0)));
    assert(one_byte_char_at(o, 0) == Some(d));
    crate::text::lemma_decimal_digits(w);
    assert(seq![d] =~= o);
    assert(parse_i32(seq![d]) == Some(w as i32)) by {
        assert(seq![d].drop_last() =~= Seq::<char>::empty());
        assert(crate::text::digits_value(Seq::<char>::empty()) == 0);
        assert(crate::text::is_digit(d));
    }
}

/// The lines of a sorted listing are its items in sorted order, each after
/// a space: one line per item.
pub proof fn lemma_sorted_listing_lines(items: Seq<Seq<char>>)
    requires
        forall|i: int| 0 <= i < items.len() ==> no_char(#[trigger] items[i], '\n'),
    ensures
        batch_lines_spec(listing_text(lex_sorted(items))) == lex_sorted(items).map_values(
            |it: Seq<char>| seq![' '] + it,
        ),
        batch_lines_spec(listing_text(lex_sorted(items))).len() == items.len(),
        split_char(listing_text(lex_sorted(items)), '\n') == lex_sorted(items).map_values(
            |it: Seq<char>| seq![' '] + it,
        ).push(seq![' ']),
        batch_lines_spec(listing_text(lex_sorted(items))).map_values(|l: Seq<char>| l.drop_first())
            == lex_sorted(items),
        lex_sorted(items).to_multiset() == items.to_multiset(),
{
    lemma_lex_sorted(items);
    let t = lex_sorted(items);
    items.to_multiset_ensures();
    t.to_multiset_ensures();
    assert forall|i: int| 0 <= i < t.len() implies no_char(#[trigger] t[i], '\n') by {
        assert(t.contains(t[i]));
        assert(t.to_multiset().count(t[i]) > 0);
        assert(items.to_multiset().count(t[i]) > 0);
        assert(items.contains(t[i]));
        let k = choose|k: int| 0 <= k < items.len() && items[k] == t[i];
        assert(no_char(items[k], '\n'));
    }
    lemma_batch_lines_of_listing(t);
    lemma_split_listing(t);
    let lines = batch_lines_spec(listing_text(t));
    let dropped = lines.map_values(|l: Seq<char>| l.drop_first());
    assert(dropped =~= t) by {
        assert forall|i: int| 0 <= i < t.len() implies #[trigger] dropped[i] == t[i] by {
            assert(lines[i] == seq![' '] + t[i]);
            assert((seq![' '] + t[i]).drop_first() =~= t[i]);
        }
    }
}

/// A run over a listing that the orientation listing produced goes through
/// the listed files in the listing's (sorted) order, as many as the message
/// counts, each line being a listed item after a space.
pub proof fn lemma_run_reads_listing(es: Seq<crate::listing::FileEntry>)
    requires
        forall|i: int|
            0 <= i < orientation_items(es).len() ==> no_char(#[trigger] orientation_items(es)[i], '\n'),
        dirlistc_result(es).0 == 0,
    ensures
        batch_lines_spec(dirlistc_result(es).2) == lex_sorted(orientation_items(es)).map_values(
            |it: Seq<char>| seq![' '] + it,
        ),
        dirlistc_result(es).1 == decimal(batch_lines_spec(dirlistc_result(es).2).len())
            + " files in directory "@,
{
    lemma_sorted_listing_lines(orientation_items(es));
}

/// The image listing of a directory shows each image name once per line, in
/// sorted order, and its message counts exactly those lines: split on
/// newlines, it gives one piece per name (a space, then the name) and a last
/// piece of a lone space, and dropping the first character of each line
/// gives back the sorted names.
pub proof fn lemma_image_listing_counts_lines(es: Seq<crate::listing::DirEntry>)
    requires
        forall|i: int| 0 <= i < image_names(es).len() ==> no_char(#[trigger] image_names(es)[i], '\n'),
        dirlist_result(Some(es)).0 == 0,
    ensures
        batch_lines_spec(dirlist_result(Some(es)).2) == lex_sorted(image_names(es)).map_values(
            |it: Seq<char>| seq![' '] + it,
        ),
        dirlist_result(Some(es)).1 == decimal(batch_lines_spec(dirlist_result(Some(es)).2).len())
            + " files in directory "@,
        split_char(dirlist_result(Some(es)).2, '\n') == lex_sorted(image_names(es)).map_values(
            |it: Seq<char>| seq![' '] + it,
        ).push(seq![' ']),
        batch_lines_spec(dirlist_result(Some(es)).2).map_values(|l: Seq<char>| l.drop_first())
            == lex_sorted(image_names(es)),
{
    lemma_sorted_listing_lines(image_names(es));
}

/// Whether the Exif data of a file asks for a rotation: its orientation is
/// 3, 6 or 8.
pub open spec fn exif_rotation(contents: Result<Vec<u8>, String>) -> bool {
    match contents_view(contents) {
        Ok(bytes) => match exif_orientation_lookup(bytes) {
            Ok(Some(Some(w))) => w == 3 || w == 6 || w == 8,
            _ => false,
        },
        Err(_) => false,
    }
}

/// The Exif orientation of a file, where it has one, is a single digit.
pub open spec fn single_digit_orientation(contents: Result<Vec<u8>, String>) -> bool {
    match contents_view(contents) {
        Ok(bytes) => match exif_orientation_lookup(bytes) {
            Ok(Some(Some(w))) => w < 10,
            _ => true,
        },
        Err(_) => true,
    }
}

/// What a run makes of the listing line of the file `name` with `contents`:
/// it finds the file as `dir/name`, converts it to `outdir/ name`, can read
/// its orientation, and, where that orientation is a single digit, rotates
/// it exactly where its Exif data asks for it.
pub open spec fn run_reads_item(
    line: Seq<char>,
    name: Seq<char>,
    contents: Result<Vec<u8>, String>,
    dir: Seq<char>,
    outdir: Seq<char>,
) -> bool {
    &&& drops_first_byte(first_field(line))
    &&& source_path_spec(dir, line) == dir + "/"@ + name
    &&& target_path_spec(outdir, line) == outdir + "/"@ + seq![' '] + name
    &&& find(line, " | "@) is Some
    &&& orientation_readable(second_field(line))
    &&& single_digit_orientation(contents) ==> wants_rotation(second_field(line)) == exif_rotation(
        contents,
    )
}

/// `line` is the listing line of the regular file `e`, and a run reads it
/// as that file.
pub open spec fn run_reads_file(e: FileEntry, line: Seq<char>, dir: Seq<char>, outdir: Seq<char>) -> bool {
    match file_name_of(e.name, e.is_file) {
        Some(n) => line == seq![' '] + orientation_item(n, e.contents) && run_reads_item(
            line,
            n,
            e.contents,
            dir,
            outdir,
        ),
        None => false,
    }
}

/// `item` is the listed item of the regular file `e`.
pub open spec fn item_of_file(e: FileEntry, item: Seq<char>) -> bool {
    match file_name_of(e.name, e.is_file) {
        Some(n) => item == orientation_item(n, e.contents),
        None => false,
    }
}

/// `item` is the listed item of some regular file of `es`.
pub open spec fn item_of_some_file(es: Seq<FileEntry>, item: Seq<char>) -> bool {
    exists|k: int| 0 <= k < es.len() && #[trigger] item_of_file(es[k], item)
}

/// A run reads `line` as some regular file of `es`.
pub open spec fn read_as_some_file(es: Seq<FileEntry>, line: Seq<char>, dir: Seq<char>, outdir: Seq<char>) -> bool {
    exists|k: int| 0 <= k < es.len() && #[trigger] run_reads_file(es[k], line, dir, outdir)
}

/// A regular file whose name fits a listing line.
pub open spec fn file_fits(e: FileEntry) -> bool {
    match file_name_of(e.name, e.is_file) {
        Some(n) => fits_line(n),
        None => true,
    }
}

/// One digit reads back as its value.
proof fn lemma_digit_parse(w: nat)
    requires
        w < 10,
    ensures
        parse_i32(seq![digit_char(w)]) == Some(w as i32),
{
    let d = digit_char(w);
    assert((d as u32) == 48 + w);
    assert(seq![d].drop_last() =~= Seq::<char>::empty());
    assert(crate::text::digits_value(Seq::<char>::empty()) == 0);
    assert(crate::text::is_digit(d));
}

/// A character other than a digit or a sign does not read as a number.
proof fn lemma_letter_parse(c: char)
    requires
        !crate::text::is_digit(c),
        c != '+',
    ensures
        parse_i32(seq![c]) is None,
{
    let s = seq![c];
    if c == '-' {
        assert(s.drop_first() =~= Seq::<char>::empty());
    } else {
        assert(!crate::text::all_digits(s)) by {
            assert(!crate::text::is_digit(s[0]));
        }
    }
}

/// Every listed item is the item of some regular file of the directory.
proof fn lemma_items_from_files(es: Seq<FileEntry>)
    ensures
        forall|j: int|
            0 <= j < orientation_items(es).len() ==> item_of_some_file(es, #[trigger] orientation_items(es)[j]),
    decreases es.len(),
{
    if es.len() > 0 {
        let init = es.drop_last();
        lemma_items_from_files(init);
        let items = orientation_items(es);
        let prev = orientation_items(init);
        assert forall|j: int| 0 <= j < items.len() implies item_of_some_file(es, #[trigger] items[j]) by {
            if j < prev.len() {
                assert(items[j] == prev[j]);
                assert(item_of_some_file(init, prev[j]));
                let k = choose|k: int| 0 <= k < init.len() && #[trigger] item_of_file(init[k], prev[j]);
                assert(es[k] == init[k]);
                assert(item_of_file(es[k], items[j]));
            } else {
                assert(item_of_file(es[es.len() - 1], items[j]));
            }
            assert(item_of_some_file(es, items[j]));
        }
    }
}

/// The listing line of a regular file whose name fits a line is read by a
/// run as that file: found as `dir/name` and converted to `outdir/ name`;
/// where its orientation is a single digit, it is rotated exactly where that
/// orientation is 3, 6 or 8.
pub proof fn lemma_listed_file(
    name: Seq<char>,
    contents: Result<Vec<u8>, String>,
    dir: Seq<char>,
    outdir: Seq<char>,
)
    requires
        fits_line(name),
    ensures
        run_reads_item(seq![' '] + orientation_item(name, contents), name, contents, dir, outdir),
{
    reveal_strlit("Meta error : ");
    reveal_strlit("x");
    reveal_strlit("-");
    let o = orientation_text(contents_view(contents));
    let line = seq![' '] + orientation_item(name, contents);
    assert(line =~= seq![' '] + name + " | orientation: "@ + o);
    assert((' ' as u32) == 32 && ('|' as u32) == 124);
    let c = o[0];
    match contents_view(contents) {
        Ok(bytes) => match exif_orientation_lookup(bytes) {
            Ok(Some(Some(w))) => {
                crate::text::lemma_decimal_digits(w as nat);
                assert(crate::text::is_digit(o[0]));
                if w < 10 {
                    assert(o == seq![digit_char(w as nat)]);
                    assert((c as u32) == 48 + w);
                    lemma_digit_parse(w as nat);
                }
            },
            _ => {
                assert(c == 'M' || c == 'x' || c == '-');
                lemma_letter_parse(c);
            },
        },
        Err(_) => {
            assert(c == 'M');
            lemma_letter_parse(c);
        },
    }
    assert(plain_start(o));
    assert(utf8_width(c) == 1);
    assert(one_byte_char_at(o, 0) == Some(c));
    lemma_listed_line(name, o, dir, outdir);
    assert(seq![c] =~= seq![o[0]]);
}

/// A run over the orientation listing of a directory reads one line per
/// regular file, each line standing for one file, in the listing's sorted
/// order: the lines, less their leading space, are the listed items, each
/// once. Each line's file is found as `dir/name` and converted to
/// `outdir/ name`; where its Exif orientation is a single digit, it is
/// rotated exactly where that orientation is 3, 6 or 8. This holds where the
/// listed lines hold no newline and every name fits a listing line.
pub proof fn lemma_run_over_listing(es: Seq<FileEntry>, dir: Seq<char>, outdir: Seq<char>)
    requires
        forall|i: int|
            0 <= i < orientation_items(es).len() ==> no_char(#[trigger] orientation_items(es)[i], '\n'),
        forall|k: int| 0 <= k < es.len() ==> #[trigger] file_fits(es[k]),
        dirlistc_result(es).0 == 0,
    ensures
        ({
            let lines = batch_lines_spec(dirlistc_result(es).2);
            &&& lines.len() == orientation_items(es).len()
            &&& lines.map_values(|l: Seq<char>| l.drop_first()).to_multiset() == orientation_items(
                es,
            ).to_multiset()
            &&& forall|i: int|
                0 <= i < lines.len() ==> read_as_some_file(es, #[trigger] lines[i], dir, outdir)
        }),
{
    let items = orientation_items(es);
    lemma_sorted_listing_lines(items);
    lemma_items_from_files(es);
    let t = lex_sorted(items);
    let lines = batch_lines_spec(dirlistc_result(es).2);
    items.to_multiset_ensures();
    t.to_multiset_ensures();
    assert forall|i: int| 0 <= i < lines.len() implies read_as_some_file(es, #[trigger] lines[i], dir, outdir) by {
        assert(lines[i] == seq![' '] + t[i]);
        assert(t.contains(t[i]));
        assert(t.to_multiset().count(t[i]) > 0);
        assert(items.contains(t[i]));
        let j = choose|j: int| 0 <= j < items.len() && items[j] == t[i];
        assert(item_of_some_file(es, items[j]));
        let k = choose|k: int| 0 <= k < es.len() && #[trigger] item_of_file(es[k], items[j]);
        assert(file_fits(es[k]));
        let n = file_name_of(es[k].name, es[k].is_file).unwrap();
        lemma_listed_file(n, es[k].contents, dir, outdir);
        assert(run_reads_file(es[k], lines[i], dir, outdir));
        assert(read_as_some_file(es, lines[i], dir, outdir));
    }
}

/// A list button on a directory that does not exist is answered with
/// `directory does not exist: <dir>` in red, and nothing more is asked.
pub proof fn lemma_missing_directory_refused(s: PhotoRotView, p: Purpose)
    requires
        p == Purpose::RcList || p == Purpose::C8List || p == Purpose::RcRotate,
    ensures
        resume_spec(s, Outcome::DirChecked(p, false)) == (
            PhotoRotView {
                msg_value: missing_dir_message(s.dir_value),
                mess_color: MsgColor::Red,
                ..s
            },
            RequestView::Done,
        ),
{
}

/// The rotate-correction list button, on a directory that exists and lists
/// without error, shows that listing with `directory entries for: <dir>` in
/// green.
pub proof fn lemma_rotation_list_flow(s: PhotoRotView, err: String, list: String)
    ensures
        ({
            let (s1, r1) = update_spec(s, Message::RCListPressed);
            let (s2, r2) = resume_spec(s1, Outcome::DirChecked(Purpose::RcList, true));
            let (s3, r3) = resume_spec(s2, Outcome::RotationListed(Purpose::RcList, 0, err, list));
            &&& r1 == RequestView::CheckDir(Purpose::RcList, s.dir_value)
            &&& r2 == RequestView::ListRotation(Purpose::RcList, s.dir_value)
            &&& r3 == RequestView::Done
            &&& s3 == PhotoRotView {
                rcscrol_value: list@,
                msg_value: entries_message(s.dir_value),
                mess_color: MsgColor::Green,
                ..s
            }
        }),
{
}

/// While progress is on, of the messages drained at a tick only the last
/// counts: where it is a report `Progress|n|t` sent by a run, it shows as
/// `Convert progress: n of t` in blue with the bar at `n / t`, whatever came
/// before it, and the timer is started again.
pub proof fn lemma_progress_shown(s: PhotoRotView, tick: Progstart, msgs: Vec<String>, n: nat, t: nat)
    requires
        msgs@.len() > 0,
        msgs@.last()@ == progress_report_spec(n, t),
        n <= i32::MAX,
        t <= i32::MAX,
    ensures
        ({
            let (s1, r1) = update_spec(s, Message::ProgressPressed);
            let (s2, r2) = update_spec(s1, Message::ProgRtn(Ok(tick)));
            let (s3, r3) = resume_spec(s2, Outcome::ProgressDrained(msgs));
            &&& r1 == RequestView::StartTimer
            &&& r2 == RequestView::DrainProgress
            &&& r3 == RequestView::StartTimer
            &&& s3 == PhotoRotView {
                do_progress: true,
                progress: Some((n as i32, t as i32)),
                msg_value: progress_line_spec(n as i32, t as i32),
                mess_color: MsgColor::Blue,
                ..s
            }
        }),
{
    lemma_progress_roundtrip(n, t);
}

/// A finished conversion run leaves its message and colour, empties the bar,
/// and the next timer tick stops the timer.
pub proof fn lemma_run_end_stops_progress(s: PhotoRotView, c: Copyx, tick: Progstart)
    ensures
        ({
            let (s1, r1) = update_spec(s, Message::CopyxFound(Ok(c)));
            let (s2, r2) = update_spec(s1, Message::ProgRtn(Ok(tick)));
            &&& r1 == RequestView::Done
            &&& s1.msg_value == c.errval@
            &&& s1.mess_color == c.errcolor
            &&& s1.progress is None
            &&& !s1.do_progress
            &&& r2 == RequestView::Done
            &&& s2 == s1
        }),
{
}

/// Choosing a page shows it and says so in green; choosing it again changes
/// nothing.
pub proof fn lemma_page_choice(s: PhotoRotView, p: PageChoice)
    ensures
        ({
            let (s1, r1) = update_spec(s, Message::PageRadioSelected(p));
            let (s2, r2) = update_spec(s1, Message::PageRadioSelected(p));
            &&& s1.pagechoice_value == p
            &&& s1.msg_value == page_message(p)
            &&& s1.mess_color == MsgColor::Green
            &&& r1 == RequestView::Done
            &&& s2 == s1
            &&& r2 == RequestView::Done
        }),
{
}

/// On the tabbed screen, a chosen working directory becomes the directory of
/// both tabs, and the rotate tab's list button then asks about it.
pub proof fn lemma_picked_directory_reaches_tabs(
    s: TabBarView,
    err: String,
    dir: String,
)
    ensures
        ({
            let (s1, r1) = bar_resume_spec(s, BarOutcome::DirPicked(0, err, dir));
            let (s2, r2) = bar_update_spec(s1, BarMessage::RC(RcMessage::ListPressed));
            &&& s1.dir_value == dir@
            &&& s1.rc_tab.rcdirval == dir@
            &&& s1.c8_tab.c8dirval == dir@
            &&& s1.mess_color == MsgColor::Green
            &&& r2 == crate::tab_bar::BarRequestView::Rc(TabRequestView::CheckDir(dir@))
        }),
{
}

/// A run never has more than four programs started in the background since
/// it last waited for one: after four it waits and reports.
pub proof fn lemma_pacing(numprocess: usize, numrow: usize, total: usize, r: Launch)
    requires
        numprocess <= 4,
        paced(numprocess, numrow, total, r),
    ensures
        next_numprocess(numprocess) <= 4,
        numprocess == 4 <==> (r matches Launch::Run { wait: true, .. }),
{
}

/// A rotation run on the single-window screen starts on the listing that
/// the listing step gave, whatever the check before it answers.
pub proof fn lemma_rotation_runs_on_listing(s: PhotoRotView, e1: String, list: String, e2: String)
    ensures
        ({
            let (s1, r1) = resume_spec(s, Outcome::RotationListed(Purpose::RcRotate, 0, e1, list));
            let (s2, r2) = resume_spec(s1, Outcome::RotateChecked(0, e2));
            &&& r1 == RequestView::CheckRotate(s.dir_value, list@)
            &&& r2 == RequestView::StartRotate(s.dir_value, list@, "/home/jp/gimp.sh"@, MsgColor::Green)
        }),
{
}

/// On the tabbed screen, a rotation run starts on the listing that the
/// listing step gave, and a conversion run on the output directory and
/// listing that the copy button carried.
pub proof fn lemma_bar_runs_on_their_inputs(
    s: TabBarView,
    e1: String,
    list: String,
    e2: String,
    outdir: String,
    scrol: String,
)
    ensures
        ({
            let (s1, r1) = bar_resume_spec(s, BarOutcome::RotationListed(0, e1, list));
            let (_, r2) = bar_resume_spec(s1, BarOutcome::RotateChecked(0, e2));
            &&& r1 == crate::tab_bar::BarRequestView::CheckRotate(s.dir_value, list@)
            &&& r2 == crate::tab_bar::BarRequestView::StartRotate(
                s.dir_value,
                list@,
                "/home/jp/gimp.sh"@,
                MsgColor::Black,
            )
        }),
        ({
            let (s1, r1) = bar_update_spec(s, BarMessage::C8(C8Message::CopyPressed(outdir, scrol)));
            let (_, r2) = bar_resume_spec(s1, BarOutcome::CopyChecked(0, e2));
            &&& r1 == crate::tab_bar::BarRequestView::CheckCopy(s.dir_value, outdir@, scrol@)
            &&& r2 == crate::tab_bar::BarRequestView::StartCopy(
                s.dir_value,
                outdir@,
                scrol@,
                "convert"@,
                MsgColor::Black,
            )
        }),
{
}

/// On the single window, Rotate All on a directory that exists lists that
/// directory for rotation, checks the listing it gave, and starts the
/// rotation script on exactly that listing, reporting success in green.
pub proof fn lemma_rotate_all_runs(s: PhotoRotView, e: String, l: String, e2: String)
    ensures
        ({
            let (s1, r1) = update_spec(s, Message::RCRotallPressed);
            let (s2, r2) = resume_spec(s1, Outcome::DirChecked(Purpose::RcRotate, true));
            let (s3, r3) = resume_spec(s2, Outcome::RotationListed(Purpose::RcRotate, 0, e, l));
            let (_, r4) = resume_spec(s3, Outcome::RotateChecked(0, e2));
            &&& r1 == RequestView::CheckDir(Purpose::RcRotate, s.dir_value)
            &&& r2 == RequestView::ListRotation(Purpose::RcRotate, s.dir_value)
            &&& r3 == RequestView::CheckRotate(s.dir_value, l@)
            &&& r4 == RequestView::StartRotate(s.dir_value, l@, "/home/jp/gimp.sh"@, MsgColor::Green)
        }),
{
}

/// On the single window, the conversion run starts on the same directory,
/// output directory and convert listing that the copy check was asked
/// about, which are the screen's directory, output directory and the
/// listing shown on the convert page.
pub proof fn lemma_copy_runs_on_checked_values(s: PhotoRotView, e: String)
    ensures
        ({
            let (s1, r1) = update_spec(s, Message::C8CopyPressed);
            let (_, r2) = resume_spec(s1, Outcome::CopyChecked(0, e));
            &&& r1 == RequestView::CheckCopy(s.dir_value, s.outdir_value, s.c8scrol_value)
            &&& (r1 matches RequestView::CheckCopy(d, o, l) ==> r2 == RequestView::StartCopy(
                d,
                o,
                l,
                "magick"@,
                MsgColor::Green,
            ))
        }),
{
}

/// On the single window, a conversion after listing the convert page goes
/// through the listing that the list step gave.
pub proof fn lemma_convert_list_then_copy(s: PhotoRotView, e: String, l: String, e2: String)
    ensures
        ({
            let (s1, r1) = update_spec(s, Message::C8ListPressed);
            let (s2, r2) = resume_spec(s1, Outcome::DirChecked(Purpose::C8List, true));
            let (s3, _) = resume_spec(s2, Outcome::ConvertListed(0, e, l));
            let (s4, r4) = update_spec(s3, Message::C8CopyPressed);
            let (_, r5) = resume_spec(s4, Outcome::CopyChecked(0, e2));
            &&& r1 == RequestView::CheckDir(Purpose::C8List, s.dir_value)
            &&& r2 == RequestView::ListConvert(s.dir_value)
            &&& r4 == RequestView::CheckCopy(s.dir_value, s.outdir_value, l@)
            &&& r5 == RequestView::StartCopy(s.dir_value, s.outdir_value, l@, "magick"@, MsgColor::Green)
        }),
{
}

/// On the tabbed screen, Rotate All on a directory that exists lists it
/// for rotation, checks the listing, and starts the rotation script on
/// exactly that listing.
pub proof fn lemma_bar_rotate_all_runs(s: TabBarView, e: String, l: String, e2: String)
    ensures
        ({
            let (s1, r1) = bar_update_spec(s, BarMessage::RC(RcMessage::RotallPressed));
            let (s2, r2) = bar_resume_spec(s1, BarOutcome::RotateDirChecked(true));
            let (s3, r3) = bar_resume_spec(s2, BarOutcome::RotationListed(0, e, l));
            let (_, r4) = bar_resume_spec(s3, BarOutcome::RotateChecked(0, e2));
            &&& r1 == crate::tab_bar::BarRequestView::CheckRotateDir(s.dir_value)
            &&& r2 == crate::tab_bar::BarRequestView::ListRotation(s.dir_value)
            &&& r3 == crate::tab_bar::BarRequestView::CheckRotate(s.dir_value, l@)
            &&& r4 == crate::tab_bar::BarRequestView::StartRotate(
                s.dir_value,
                l@,
                "/home/jp/gimp.sh"@,
                MsgColor::Black,
            )
        }),
{
}

/// The working directory changes to the picked folder exactly where
/// choosing it succeeded (code 0); the answer's message is shown, green on
/// success and red otherwise. On the tabbed screen both tabs follow.
pub proof fn lemma_directory_choice(s: PhotoRotView, b: TabBarView, c: u32, e: String, d: String)
    ensures
        ({
            let (s1, r1) = resume_spec(s, Outcome::DirPicked(c, e, d));
            &&& s1.dir_value == (if c == 0 { d@ } else { s.dir_value })
            &&& s1.msg_value == e@
            &&& (s1.mess_color == MsgColor::Green) == (c == 0)
            &&& r1 == RequestView::Done
        }),
        ({
            let (b1, _) = bar_resume_spec(b, BarOutcome::DirPicked(c, e, d));
            &&& b1.dir_value == (if c == 0 { d@ } else { b.dir_value })
            &&& b1.rc_tab.rcdirval == (if c == 0 { d@ } else { b.rc_tab.rcdirval })
            &&& b1.c8_tab.c8dirval == (if c == 0 { d@ } else { b.c8_tab.c8dirval })
            &&& b1.msg_value == e@
        }),
{
}

/// On the single window, the output-directory dialog opens in the working
/// directory where it exists, else in the current output directory, and the
/// picked folder becomes the output directory exactly where it was accepted.
pub proof fn lemma_output_directory_flow(s: PhotoRotView, exists: bool, c: u32, e: String, d: String)
    ensures
        ({
            let (s1, r1) = update_spec(s, Message::C8OutDirPressed);
            let (s2, r2) = resume_spec(s1, Outcome::DirChecked(Purpose::C8OutDir, exists));
            let (s3, _) = resume_spec(s2, Outcome::OutDirPicked(c, e, d));
            &&& r1 == RequestView::CheckDir(Purpose::C8OutDir, s.dir_value)
            &&& r2 == RequestView::PickOutDir(if exists { s.dir_value } else { s.outdir_value })
            &&& s3.outdir_value == (if c == 0 { d@ } else { s.outdir_value })
            &&& s3.dir_value == s.dir_value
            &&& s3.msg_value == e@
        }),
{
}

/// The progress bar holds `n` of `d` with `0 <= n <= d` and `d > 0`: it
/// shows between 0 and 100 percent.
pub open spec fn bar_in_range(p: Option<(i32, i32)>) -> bool {
    match p {
        Some((n, d)) => 0 <= n <= d && d > 0,
        None => true,
    }
}

/// A report that a run sends: `Progress|n|t` with `n <= t` and `0 < t`, both
/// fitting in an `i32`.
pub open spec fn run_report(m: Seq<char>) -> bool {
    exists|n: nat, t: nat| n <= t && 0 < t <= i32::MAX && m == #[trigger] progress_report_spec(n, t)
}

/// The reports a run makes are run reports: a run over `total` lines
/// reports at most `total` files done, and only once it has handled one.
pub proof fn lemma_runs_report_in_range(numprocess: usize, numrow: usize, total: usize, r: Launch)
    requires
        paced(numprocess, numrow, total, r),
        numrow <= total,
        0 < total <= i32::MAX,
    ensures
        r matches Launch::Run { report: Some(m), .. } ==> run_report(m@),
{
    if let Launch::Run { report: Some(m), .. } = r {
        assert(m@ == progress_report_spec(numrow as nat, total as nat));
    }
}

/// The states of the single-window screen that its own runs lead to: the
/// message is blue, green or red, and the bar is in range.
pub open spec fn screen_in_range(s: PhotoRotView) -> bool {
    &&& (s.mess_color == MsgColor::Blue || s.mess_color == MsgColor::Green || s.mess_color
        == MsgColor::Red)
    &&& bar_in_range(s.progress)
}

/// What the screen's own runs hand back: a result in green, the colour its
/// start requests ask for where a run ends well, or in red.
pub open spec fn from_own_runs(m: Message) -> bool {
    match m {
        Message::CopyxFound(Ok(c)) => c.errcolor == MsgColor::Green || c.errcolor == MsgColor::Red,
        Message::RotatexFound(Ok(c)) => c.errcolor == MsgColor::Green || c.errcolor == MsgColor::Red,
        _ => true,
    }
}

/// What is drained from the progress channel: only reports that runs send.
pub open spec fn drained_from_runs(msgs: Seq<String>) -> bool {
    forall|i: int| 0 <= i < msgs.len() ==> run_report(#[trigger] msgs[i]@)
}

/// The single-window screen starts in range.
pub proof fn lemma_screen_starts_in_range()
    ensures
        screen_in_range(initial_screen()),
{
}

/// What the screen is told keeps it in range, where run results come from
/// its own runs.
pub proof fn lemma_update_keeps_range(s: PhotoRotView, m: Message)
    requires
        screen_in_range(s),
        from_own_runs(m),
    ensures
        screen_in_range(update_spec(s, m).0),
{
}

/// The answers to the screen's requests keep it in range, where what is
/// drained from the progress channel comes from its runs.
pub proof fn lemma_resume_keeps_range(s: PhotoRotView, o: Outcome)
    requires
        screen_in_range(s),
        o matches Outcome::ProgressDrained(msgs) ==> drained_from_runs(msgs@),
    ensures
        screen_in_range(resume_spec(s, o).0),
{
    if let Outcome::ProgressDrained(msgs) = o {
        if msgs@.len() > 0 {
            let last = msgs@[msgs@.len() - 1];
            assert(run_report(last@));
            let (n, t) = choose|n: nat, t: nat|
                n <= t && 0 < t <= i32::MAX && last@ == #[trigger] progress_report_spec(n, t);
            lemma_progress_roundtrip(n, t);
        }
    }
}

/// What the tabbed screen is told or answered keeps its bar in range, where
/// what is drained from the progress channel comes from its runs.
pub proof fn lemma_bar_keeps_range(s: TabBarView, m: BarMessage, o: BarOutcome)
    requires
        bar_in_range(s.progress),
        o matches BarOutcome::ProgressDrained(msgs) ==> drained_from_runs(msgs@),
    ensures
        bar_in_range(bar_update_spec(s, m).0.progress),
        bar_in_range(bar_resume_spec(s, o).0.progress),
{
    if let BarOutcome::ProgressDrained(msgs) = o {
        if msgs@.len() > 0 {
            let last = msgs@[msgs@.len() - 1];
            assert(run_report(last@));
            let (n, t) = choose|n: nat, t: nat|
                n <= t && 0 < t <= i32::MAX && last@ == #[trigger] progress_report_spec(n, t);
            lemma_progress_roundtrip(n, t);
        }
    }
}

/// One thing that happens to the single-window screen: it is told a
/// message, or answered a request.
pub enum ScreenEvent {
    Told(Message),
    Answered(Outcome),
}

/// The screen after `evs`, in order, starting from `s`.
pub open spec fn replay(s: PhotoRotView, evs: Seq<ScreenEvent>) -> PhotoRotView
    decreases evs.len(),
{
    if evs.len() == 0 {
        s
    } else {
        let before = replay(s, evs.drop_last());
        match evs.last() {
            ScreenEvent::Told(m) => update_spec(before, m).0,
            ScreenEvent::Answered(o) => resume_spec(before, o).0,
        }
    }
}

/// An event whose run results and drained reports come from the screen's
/// own runs.
pub open spec fn event_from_own_runs(e: ScreenEvent) -> bool {
    match e {
        ScreenEvent::Told(m) => from_own_runs(m),
        ScreenEvent::Answered(o) => o matches Outcome::ProgressDrained(msgs) ==> drained_from_runs(
            msgs@,
        ),
    }
}

/// Every state the single-window screen reaches from its start, through
/// messages and answers whose run results and reports come from its own
/// runs, shows a blue, green or red message and a bar between 0 and 100
/// percent.
pub proof fn lemma_reachable_screens_in_range(evs: Seq<ScreenEvent>)
    requires
        forall|i: int| 0 <= i < evs.len() ==> event_from_own_runs(#[trigger] evs[i]),
    ensures
        screen_in_range(replay(initial_screen(), evs)),
    decreases evs.len(),
{
    if evs.len() > 0 {
        let init = evs.drop_last();
        assert forall|i: int| 0 <= i < init.len() implies event_from_own_runs(#[trigger] init[i]) by {
            assert(init[i] == evs[i]);
        }
        lemma_reachable_screens_in_range(init);
        let before = replay(initial_screen(), init);
        assert(event_from_own_runs(evs[evs.len() - 1]));
        match evs.last() {
            ScreenEvent::Told(m) => lemma_update_keeps_range(before, m),
            ScreenEvent::Answered(o) => lemma_resume_keeps_range(before, o),
        }
    }
}

} // verus!
