use photorot::batch::{
    batch_lines, line_names_file, line_orientation_readable, rotation_wanted, source_path, target_path,
    BatchRun, Launch,
};
use photorot::listing::{get_dirlistc, FileEntry};
use photorot::model::MsgColor;

#[test]
fn lines_of_a_listing() {
    assert_eq!(batch_lines(" a | orientation: 6\n b | orientation: 1\n "), vec![" a | orientation: 6", " b | orientation: 1"]);
    assert_eq!(batch_lines(" "), Vec::<String>::new());
    assert_eq!(batch_lines(""), Vec::<String>::new());
}

#[test]
fn paths_of_a_line() {
    let line = " IMG 1.jpg | orientation: 6";
    assert!(line_names_file(line));
    assert_eq!(source_path("/in", line), "/in/IMG 1.jpg");
    assert_eq!(target_path("/out", line), "/out/ IMG 1.jpg");
    assert!(!line_names_file(""));
    assert!(!line_names_file("éa | x"));
}

#[test]
fn rotation_choice_by_orientation() {
    for (v, want) in [("1", false), ("3", true), ("6", true), ("8", true), ("2", false), ("x", false), ("-", false), ("36", true)] {
        let line = format!(" f.jpg | orientation: {}", v);
        assert!(line_orientation_readable(&line));
        assert_eq!(rotation_wanted(&line), want, "value {}", v);
    }
    assert!(rotation_wanted(" f.jpg | size 3 | orientation: 6") == false);
    assert!(!rotation_wanted(" f.jpg | nothing here"));
    assert!(!line_orientation_readable(" f.jpg | orientation: "));
    assert!(!line_orientation_readable(" f.jpg | orientation:é6"));
    assert!(line_orientation_readable(" f.jpg | orientationé6"));
    assert!(rotation_wanted(" f.jpg | orientationé6"));
    assert!(!line_orientation_readable(" f.jpg"));
}

#[test]
fn conversion_run_paces_and_reports() {
    let mut run = BatchRun::new(6);
    let mut waits = Vec::new();
    for i in 0..6 {
        match run.copy_step(&format!("/in/{}", i), &format!("/out/{}", i), true, false) {
            Launch::Run { wait, report } => waits.push((wait, report)),
            _ => panic!("unexpected"),
        }
    }
    assert_eq!(waits[3], (false, None));
    assert_eq!(waits[4], (true, Some("Progress|4|6".to_string())));
    assert_eq!(waits[5], (false, None));
    let out = run.copy_outcome(12, MsgColor::Green);
    assert_eq!(out.errcolor, MsgColor::Green);
    assert_eq!(out.errval, "converted copied 6 files in 12 seconds");
}

#[test]
fn conversion_run_stops_on_missing_or_existing_files() {
    let mut run = BatchRun::new(2);
    assert!(matches!(run.copy_step(&"/in/a".to_string(), &"/out/ a".to_string(), false, false), Launch::Stop));
    let out = run.copy_outcome(0, MsgColor::Black);
    assert_eq!(out.errcolor, MsgColor::Red);
    assert_eq!(out.errval, "********* convert Copy: ERROR /in/a does not exist **********");
    let mut run = BatchRun::new(2);
    assert!(matches!(run.copy_step(&"/in/a".to_string(), &"/out/ a".to_string(), true, true), Launch::Stop));
    assert_eq!(run.copy_outcome(0, MsgColor::Black).errval, "********* convert Copy: ERROR /out/ a already exists **********");
}

#[test]
fn rotation_run_counts_only_rotated_files() {
    let listing = " a | orientation: 1\n b | orientation: 6\n c | orientation: 3\n d | orientation: 8\n e | orientation: 8\n f | orientation: 6\n g | orientation: 3\n ";
    let lines = batch_lines(listing);
    let mut run = BatchRun::new(lines.len());
    let mut seen = Vec::new();
    for l in &lines {
        let from = source_path("/d", l);
        seen.push(match run.rotate_step(l, &from, true) {
            Launch::Skip => "skip".to_string(),
            Launch::Run { wait: false, .. } => "spawn".to_string(),
            Launch::Run { wait: true, report } => report.unwrap(),
            Launch::Stop => "stop".to_string(),
        });
    }
    assert_eq!(seen, vec!["skip", "spawn", "spawn", "spawn", "spawn", "Progress|5|7", "spawn"]);
    let out = run.rotate_outcome(3, MsgColor::Green);
    assert_eq!(out.errval, "rotated 7 files in 3 seconds");
}

#[test]
fn rotation_run_stops_at_missing_file() {
    let mut run = BatchRun::new(1);
    assert!(matches!(run.rotate_step(" a", &"/d/a".to_string(), false), Launch::Stop));
    let out = run.rotate_outcome(1, MsgColor::Green);
    assert_eq!(out.errcolor, MsgColor::Red);
    assert_eq!(out.errval, "********* convert Copy: ERROR /d/a does not exist **********");
}

#[test]
fn conversion_reads_back_a_listing() {
    let es = vec![
        FileEntry { name: Some("b.jpg".into()), is_file: Some(true), contents: Err("e".into()) },
        FileEntry { name: Some("a.jpg".into()), is_file: Some(true), contents: Err("e".into()) },
    ];
    let (_, _, listing) = get_dirlistc(es);
    let lines = batch_lines(&listing);
    assert_eq!(lines.len(), 2);
    assert_eq!(source_path("/in", &lines[0]), "/in/a.jpg");
    assert_eq!(target_path("/out", &lines[1]), "/out/ b.jpg");
}

#[test]
fn names_with_bars_read_back() {
    let es = vec![
        FileEntry { name: Some("a|b.jpg".into()), is_file: Some(true), contents: Err("e".into()) },
        FileEntry { name: Some("c |d.jpg".into()), is_file: Some(true), contents: Err("e".into()) },
    ];
    let (code, _, listing) = get_dirlistc(es);
    assert_eq!(code, 0);
    let lines = batch_lines(&listing);
    assert_eq!(lines.len(), 2);
    assert_eq!(source_path("/in", &lines[0]), "/in/a|b.jpg");
    assert_eq!(target_path("/out", &lines[0]), "/out/ a|b.jpg");
    assert_eq!(source_path("/in", &lines[1]), "/in/c |d.jpg");
    assert!(line_orientation_readable(&lines[1]));
    assert!(!rotation_wanted(&lines[1]));
}

#[test]
fn rotation_follows_exif_orientation_over_a_listing() {
    fn tiff(v: u16) -> Vec<u8> {
        let mut b = vec![b'I', b'I', 42, 0, 8, 0, 0, 0, 1, 0, 0x12, 0x01, 3, 0, 1, 0, 0, 0];
        b.extend_from_slice(&v.to_le_bytes());
        b.extend_from_slice(&[0, 0, 0, 0, 0, 0]);
        b
    }
    let es = vec![
        FileEntry { name: Some("p|3.tif".into()), is_file: Some(true), contents: Ok(tiff(3)) },
        FileEntry { name: Some("q.tif".into()), is_file: Some(true), contents: Ok(tiff(1)) },
        FileEntry { name: Some("r.tif".into()), is_file: Some(true), contents: Ok(tiff(8)) },
    ];
    let (_, _, listing) = get_dirlistc(es);
    let lines = batch_lines(&listing);
    let wanted: Vec<bool> = lines.iter().map(|l| rotation_wanted(l)).collect();
    assert_eq!(wanted, vec![true, false, true]);
    assert_eq!(source_path("/d", &lines[0]), "/d/p|3.tif");
}
