use photorot::dialogs::{c8_diroutpress, dialog_start, dirpress};
use photorot::listing::{get_dirlist, get_dirlistc, DirEntry, FileEntry};

fn file(name: &str) -> DirEntry {
    DirEntry { name: Some(name.to_string()), is_file: Some(true) }
}

fn tiff_with_orientation(v: u16) -> Vec<u8> {
    let mut b = vec![b'I', b'I', 42, 0, 8, 0, 0, 0];
    b.extend_from_slice(&[1, 0]);
    b.extend_from_slice(&[0x12, 0x01, 3, 0, 1, 0, 0, 0]);
    b.extend_from_slice(&v.to_le_bytes());
    b.extend_from_slice(&[0, 0]);
    b.extend_from_slice(&[0, 0, 0, 0]);
    b
}

fn tiff_without_orientation() -> Vec<u8> {
    let mut b = vec![b'I', b'I', 42, 0, 8, 0, 0, 0];
    b.extend_from_slice(&[1, 0]);
    b.extend_from_slice(&[0x00, 0x01, 3, 0, 1, 0, 0, 0, 10, 0, 0, 0]);
    b.extend_from_slice(&[0, 0, 0, 0]);
    b
}

#[test]
fn image_listing_is_sorted_and_counted() {
    let es = vec![
        file("b.jpg"),
        file("notes.txt"),
        file("A.PNG"),
        DirEntry { name: Some("sub.jpg".to_string()), is_file: Some(false) },
        DirEntry { name: None, is_file: Some(true) },
        DirEntry { name: Some("x.jpeg".to_string()), is_file: None },
        file("a.jpeg"),
    ];
    let (code, msg, list) = get_dirlist(Some(es));
    assert_eq!(code, 0);
    assert_eq!(msg, "3 files in directory ");
    assert_eq!(list, " A.PNG\n a.jpeg\n b.jpg\n ");
}

#[test]
fn image_listing_of_missing_directory() {
    assert_eq!(get_dirlist(None), (1, "directory does not exist".to_string(), " ".to_string()));
}

#[test]
fn image_listing_without_images() {
    let (code, msg, list) = get_dirlist(Some(vec![file("a.txt")]));
    assert_eq!(code, 2);
    assert_eq!(msg, "********* No images in directory **********");
    assert_eq!(list, " ");
}

#[test]
fn orientation_listing_reads_exif() {
    let es = vec![
        FileEntry { name: Some("z.tif".into()), is_file: Some(true), contents: Ok(tiff_with_orientation(6)) },
        FileEntry { name: Some("m.tif".into()), is_file: Some(true), contents: Ok(tiff_without_orientation()) },
        FileEntry { name: Some("a.txt".into()), is_file: Some(true), contents: Ok(b"hello".to_vec()) },
        FileEntry { name: Some("gone".into()), is_file: Some(true), contents: Err("permission denied".into()) },
        FileEntry { name: Some("dir".into()), is_file: Some(false), contents: Err("is a directory".into()) },
    ];
    let (code, msg, list) = get_dirlistc(es);
    assert_eq!(code, 0);
    assert_eq!(msg, "4 files in directory ");
    assert_eq!(
        list,
        " a.txt | orientation: Meta error : Unknown image format\n gone | orientation: Meta error : permission denied\n m.tif | orientation: x\n z.tif | orientation: 6\n "
    );
}

#[test]
fn orientation_listing_sorts_whole_lines() {
    let es = vec![
        FileEntry { name: Some("a".into()), is_file: Some(true), contents: Err("e".into()) },
        FileEntry { name: Some("a b".into()), is_file: Some(true), contents: Err("e".into()) },
    ];
    let (_, _, list) = get_dirlistc(es);
    assert_eq!(list, " a b | orientation: Meta error : e\n a | orientation: Meta error : e\n ");
}

#[test]
fn orientation_listing_of_empty_directory() {
    let (code, msg, list) = get_dirlistc(vec![]);
    assert_eq!(code, 1);
    assert_eq!(msg, "********* Directory 1: directory has no images **********");
    assert_eq!(list, " ");
}

#[test]
fn dialog_opens_in_existing_directory() {
    assert_eq!(dialog_start("/photos".into(), true), "/photos");
    assert_eq!(dialog_start("/gone".into(), false), "/");
}

#[test]
fn dirpress_outcomes() {
    assert_eq!(
        dirpress("/".into(), None),
        (1, "error getting directory -- possible cancel key hit".to_string(), "/".to_string(), " ".to_string())
    );
    assert_eq!(
        dirpress("/".into(), Some(("/p".into(), Some(vec![file("b.jpg"), file("a.jpg")])))),
        (0, "got directory".to_string(), "/p".to_string(), " a.jpg\n b.jpg\n ".to_string())
    );
    assert_eq!(
        dirpress("/".into(), Some(("/p".into(), Some(vec![file("b.txt")])))),
        (2, "********* No images in directory **********".to_string(), "/p".to_string(), " ".to_string())
    );
    assert_eq!(
        dirpress("/".into(), Some(("/p".into(), None))),
        (2, "directory does not exist".to_string(), "/p".to_string(), " ".to_string())
    );
}

#[test]
fn output_directory_outcomes() {
    assert_eq!(
        c8_diroutpress("/s".into(), None),
        (1, "error getting output directory -- possible cancel key hit".to_string(), "/s".to_string())
    );
    assert_eq!(
        c8_diroutpress("/s".into(), Some(("/o".into(), None))),
        (3, "error output directory does not exist".to_string(), "/o".to_string())
    );
    assert_eq!(
        c8_diroutpress("/s".into(), Some(("/o".into(), Some(vec![file("x")])))),
        (2, "the output directory has files in it".to_string(), "/o".to_string())
    );
    let only_dirs = vec![DirEntry { name: Some("d".into()), is_file: Some(false) }];
    assert_eq!(
        c8_diroutpress("/s".into(), Some(("/o".into(), Some(only_dirs)))),
        (0, "convert output directory selected".to_string(), "/o".to_string())
    );
}
