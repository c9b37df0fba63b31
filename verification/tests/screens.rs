use photorot::model::{Copyx, MsgColor, PageChoice, Progstart, Rotatex};
use photorot::photo_rot::{Message, Outcome, PhotoRot1080, Purpose, Request};
use photorot::tab_bar::{BarMessage, BarOutcome, BarRequest, TabBarExample};
use photorot::tabs::{C8Message, C8Tab, IrsTab, RcMessage, RcTab, TabRequest};

#[test]
fn new_screen() {
    let s = PhotoRot1080::new();
    assert_eq!(s.dir_value, "no directory");
    assert_eq!(s.mess_color, MsgColor::Blue);
    assert_eq!(s.msg_value, "no message");
    assert_eq!(s.pagechoice_value, PageChoice::ROT);
    assert_eq!(s.c8scrol_value, " nothing to process ");
    assert_eq!(s.outdir_value, "");
    assert_eq!(s.title(), "Photo Rotate Convert 1080");
    assert_eq!(PageChoice::default(), PageChoice::ROT);
}

#[test]
fn page_choice_message() {
    let mut s = PhotoRot1080::new();
    assert!(matches!(s.update(Message::PageRadioSelected(PageChoice::CON)), Request::Done));
    assert_eq!(s.msg_value, "page choice convert to 1080 selected");
    assert_eq!(s.mess_color, MsgColor::Green);
    assert_eq!(s.pagechoice_value, PageChoice::CON);
    s.update(Message::PageRadioSelected(PageChoice::IND));
    assert_eq!(s.msg_value, "page choice individual rotate selected");
}

#[test]
fn list_missing_directory() {
    let mut s = PhotoRot1080::new();
    match s.update(Message::RCListPressed) {
        Request::CheckDir(Purpose::RcList, d) => assert_eq!(d, "no directory"),
        _ => panic!("unexpected"),
    }
    assert!(matches!(s.resume(Outcome::DirChecked(Purpose::RcList, false)), Request::Done));
    assert_eq!(s.msg_value, "directory does not exist: no directory");
    assert_eq!(s.mess_color, MsgColor::Red);
    assert_eq!(s.rcscrol_value, " nothing to process ");
}

#[test]
fn convert_listing_flow() {
    let mut s = PhotoRot1080::new();
    s.resume(Outcome::DirPicked(0, "got directory".into(), "/p".into()));
    assert_eq!(s.dir_value, "/p");
    assert!(matches!(s.update(Message::C8ListPressed), Request::CheckDir(Purpose::C8List, _)));
    match s.resume(Outcome::DirChecked(Purpose::C8List, true)) {
        Request::ListConvert(d) => assert_eq!(d, "/p"),
        _ => panic!("unexpected"),
    }
    s.resume(Outcome::ConvertListed(0, "1 files in directory ".into(), " a | orientation: 1\n ".into()));
    assert_eq!(s.c8scrol_value, " a | orientation: 1\n ");
    assert_eq!(s.msg_value, "directory entries for: /p");
    s.resume(Outcome::ConvertListed(1, "bad".into(), "x".into()));
    assert_eq!(s.msg_value, "bad");
    assert_eq!(s.mess_color, MsgColor::Red);
}

#[test]
fn out_dir_dialog_start() {
    let mut s = PhotoRot1080::new();
    s.resume(Outcome::OutDirPicked(0, "convert output directory selected".into(), "/o".into()));
    assert_eq!(s.outdir_value, "/o");
    match s.resume(Outcome::DirChecked(Purpose::C8OutDir, false)) {
        Request::PickOutDir(d) => assert_eq!(d, "/o"),
        _ => panic!("unexpected"),
    }
    match s.resume(Outcome::DirChecked(Purpose::C8OutDir, true)) {
        Request::PickOutDir(d) => assert_eq!(d, "no directory"),
        _ => panic!("unexpected"),
    }
    s.resume(Outcome::OutDirPicked(2, "the output directory has files in it".into(), "/x".into()));
    assert_eq!(s.outdir_value, "/o");
    assert_eq!(s.mess_color, MsgColor::Red);
}

#[test]
fn copy_and_rotate_checks() {
    let mut s = PhotoRot1080::new();
    assert!(matches!(s.update(Message::C8CopyPressed), Request::CheckCopy(..)));
    assert!(matches!(s.resume(Outcome::CopyChecked(0, "ok".into())), Request::StartCopy(..)));
    assert!(matches!(s.resume(Outcome::CopyChecked(1, "no".into())), Request::Done));
    assert_eq!(s.mess_color, MsgColor::Red);
    assert!(matches!(s.resume(Outcome::RotationListed(Purpose::RcRotate, 0, "".into(), "L".into())), Request::CheckRotate(_, _)));
    match s.resume(Outcome::RotateChecked(0, "go".into())) {
        Request::StartRotate(d, l, script, ok) => {
            assert_eq!(d, "no directory");
            assert_eq!(l, "L");
            assert_eq!(script, "/home/jp/gimp.sh");
            assert_eq!(ok, MsgColor::Green);
        },
        _ => panic!("unexpected"),
    }
    assert_eq!(s.msg_value, "go");
}

#[test]
fn individual_start() {
    let mut s = PhotoRot1080::new();
    assert!(matches!(s.update(Message::INStartButton), Request::CheckDir(Purpose::IndStart, _)));
    assert!(matches!(s.resume(Outcome::DirChecked(Purpose::IndStart, true)), Request::LaunchIndividual(_)));
    assert_eq!(s.msg_value, "started indivrotate01310 program");
    assert!(matches!(s.resume(Outcome::DirChecked(Purpose::IndStart, false)), Request::Done));
    assert_eq!(s.msg_value, "The directory does not exist");
}

#[test]
fn progress_cycle() {
    let mut s = PhotoRot1080::new();
    assert!(matches!(s.update(Message::ProgRtn(Ok(Progstart {}))), Request::Done));
    assert!(matches!(s.update(Message::ProgressPressed), Request::StartTimer));
    assert!(matches!(s.update(Message::ProgRtn(Ok(Progstart {}))), Request::DrainProgress));
    assert!(matches!(s.resume(Outcome::ProgressDrained(vec!["Progress|2|8".into()])), Request::StartTimer));
    assert_eq!(s.progress, Some((2, 8)));
    assert_eq!(s.msg_value, "Convert progress: 2 of 8");
    assert_eq!(s.mess_color, MsgColor::Blue);
    assert!(matches!(s.resume(Outcome::ProgressDrained(vec!["hello".into()])), Request::StartTimer));
    assert_eq!(s.progress, Some((2, 8)));
    s.update(Message::RotatexFound(Ok(Rotatex { errcolor: MsgColor::Green, errval: "rotated 2 files in 1 seconds".into() })));
    assert_eq!(s.progress, None);
    assert!(!s.do_progress);
    assert_eq!(s.msg_value, "rotated 2 files in 1 seconds");
    s.update(Message::CopyxFound(Ok(Copyx { errcolor: MsgColor::Red, errval: "boom".into() })));
    assert_eq!(s.mess_color, MsgColor::Red);
}

#[test]
fn tabs_new_and_update() {
    let mut rc = RcTab::new();
    assert_eq!(rc.title(), "Rotate Correction");
    rc.update(RcMessage::Dirupdate("/r".into()));
    assert!(matches!(rc.update(RcMessage::ListPressed), TabRequest::CheckDir(_)));
    assert!(matches!(rc.dir_checked(true), TabRequest::ListRotation(_)));
    rc.listed(0, "".into(), " x\n ".into());
    assert_eq!(rc.scrol_value, " x\n ");
    assert_eq!(rc.msg_value, "directory entries for: /r");
    rc.update(RcMessage::RotallPressed);
    assert_eq!(rc.msg_value, "Rotate All Pressed");

    let mut c8 = C8Tab::new();
    assert_eq!(c8.outdir_value, " No directory selected");
    assert_eq!(c8.scrol_value, " No directory selected \n ");
    c8.update(C8Message::CopyPressed("o".into(), "s".into()));
    assert_eq!(c8.msg_value, "Copy Pressed");
    match c8.update(C8Message::OutDirPressed) {
        TabRequest::CheckOutDirStart(d) => assert_eq!(d, ""),
        _ => panic!("unexpected"),
    }
    match c8.outdir_checked(false) {
        TabRequest::PickOutDir(d) => assert_eq!(d, " No directory selected"),
        _ => panic!("unexpected"),
    }
    c8.dir_checked(false);
    assert_eq!(c8.msg_value, "directory does not exist: ");

    let irs = IrsTab::new();
    assert_eq!(irs.title(), "Individual rotate start");
}

#[test]
fn tab_bar_flows() {
    let mut b = TabBarExample::new();
    assert_eq!(b.title(), "TabBar Example");
    b.update(BarMessage::TabSelected(1));
    assert_eq!(b.active_tab, 1);
    b.resume(BarOutcome::DirPicked(0, "got directory".into(), "/d".into()));
    assert_eq!(b.rc_tab.rcdirval, "/d");
    assert_eq!(b.c8_tab.c8dirval, "/d");
    match b.update(BarMessage::C8(C8Message::CopyPressed("/o".into(), "L".into()))) {
        BarRequest::CheckCopy(d, o, l) => assert_eq!((d.as_str(), o.as_str(), l.as_str()), ("/d", "/o", "L")),
        _ => panic!("unexpected"),
    }
    assert!(matches!(b.resume(BarOutcome::CopyChecked(0, "ok".into())), BarRequest::StartCopy(..)));
    assert!(matches!(b.update(BarMessage::RC(RcMessage::RotallPressed)), BarRequest::CheckRotateDir(_)));
    assert!(matches!(b.resume(BarOutcome::RotateDirChecked(false)), BarRequest::Done));
    assert_eq!(b.msg_value, "directory does not exist: /d");
    assert!(matches!(b.update(BarMessage::RC(RcMessage::ListPressed)), BarRequest::Rc(TabRequest::CheckDir(_))));
    b.update(BarMessage::ProgressPressed);
    assert!(matches!(b.update(BarMessage::ProgRtn(Ok(Progstart {}))), BarRequest::DrainProgress));
    assert!(matches!(b.resume(BarOutcome::ProgressDrained(vec!["Progress|1|4".into()])), BarRequest::ShowProgress));
    assert_eq!(b.progress, Some((1, 4)));
}

#[test]
fn rotation_list_flow_shows_listing() {
    let mut s = PhotoRot1080::new();
    s.resume(Outcome::DirPicked(0, "got directory".into(), "/p".into()));
    assert!(matches!(s.update(Message::RCListPressed), Request::CheckDir(Purpose::RcList, _)));
    match s.resume(Outcome::DirChecked(Purpose::RcList, true)) {
        Request::ListRotation(Purpose::RcList, d) => assert_eq!(d, "/p"),
        _ => panic!("unexpected"),
    }
    assert!(matches!(
        s.resume(Outcome::RotationListed(Purpose::RcList, 0, "2 files in directory ".into(), " a | orientation: 6\n ".into())),
        Request::Done
    ));
    assert_eq!(s.rcscrol_value, " a | orientation: 6\n ");
    assert_eq!(s.msg_value, "directory entries for: /p");
    assert_eq!(s.mess_color, MsgColor::Green);
}

#[test]
fn finished_run_stops_timer_and_page_choice_repeats() {
    let mut s = PhotoRot1080::new();
    s.update(Message::ProgressPressed);
    s.update(Message::CopyxFound(Ok(Copyx { errcolor: MsgColor::Green, errval: "converted copied 1 files in 0 seconds".into() })));
    assert!(matches!(s.update(Message::ProgRtn(Ok(Progstart {}))), Request::Done));
    s.update(Message::PageRadioSelected(PageChoice::ROT));
    let before = (s.msg_value.clone(), s.mess_color, s.pagechoice_value);
    s.update(Message::PageRadioSelected(PageChoice::ROT));
    assert_eq!((s.msg_value.clone(), s.mess_color, s.pagechoice_value), before);
    assert_eq!(s.msg_value, "page choice rotate correction selected");
}

#[test]
fn job_errors_are_reported() {
    let mut s = PhotoRot1080::new();
    s.update(Message::CopyxFound(Err(photorot::model::Error::APIError)));
    assert_eq!(s.msg_value, "error in copyx copyit routine");
    assert_eq!(s.mess_color, MsgColor::Red);
    s.update(Message::ProgRtn(Err(photorot::model::Error::APIError)));
    assert_eq!(s.msg_value, "error in Progstart::pstart routine");
}

#[test]
fn only_last_drained_message_counts() {
    let mut s = PhotoRot1080::new();
    s.update(Message::ProgressPressed);
    assert!(matches!(s.update(Message::ProgRtn(Ok(Progstart {}))), Request::DrainProgress));
    let drained = vec!["Progress|1|4".to_string(), "Progress|3|4".to_string()];
    assert!(matches!(s.resume(Outcome::ProgressDrained(drained)), Request::StartTimer));
    assert_eq!(s.progress, Some((3, 4)));
    assert_eq!(s.msg_value, "Convert progress: 3 of 4");
    let drained = vec!["Progress|4|4".to_string(), "not a report".to_string()];
    s.resume(Outcome::ProgressDrained(drained));
    assert_eq!(s.progress, Some((3, 4)));
    assert_eq!(s.msg_value, "Convert progress: 3 of 4");
    assert!(matches!(s.resume(Outcome::ProgressDrained(vec![])), Request::StartTimer));
    assert_eq!(s.progress, Some((3, 4)));
}

#[test]
fn runs_are_started_with_the_screen_program_and_colour() {
    let mut s = PhotoRot1080::new();
    match s.resume(Outcome::CopyChecked(0, "ok".into())) {
        Request::StartCopy(_, _, _, program, ok) => {
            assert_eq!(program, "magick");
            assert_eq!(ok, MsgColor::Green);
        },
        _ => panic!("unexpected"),
    }
    let mut b = TabBarExample::new();
    match b.resume(BarOutcome::CopyChecked(0, "ok".into())) {
        BarRequest::StartCopy(_, _, _, program, ok) => {
            assert_eq!(program, "convert");
            assert_eq!(ok, MsgColor::Black);
        },
        _ => panic!("unexpected"),
    }
    match b.resume(BarOutcome::RotateChecked(0, "ok".into())) {
        BarRequest::StartRotate(_, _, script, ok) => {
            assert_eq!(script, "/home/jp/gimp.sh");
            assert_eq!(ok, MsgColor::Black);
        },
        _ => panic!("unexpected"),
    }
}

#[test]
fn tab_bar_shows_only_last_report() {
    let mut b = TabBarExample::new();
    b.update(BarMessage::ProgressPressed);
    let drained = vec!["Progress|1|4".to_string(), "Progress|2|4".to_string()];
    assert!(matches!(b.resume(BarOutcome::ProgressDrained(drained)), BarRequest::ShowProgress));
    assert_eq!(b.progress, Some((2, 4)));
}

#[test]
fn runs_start_on_the_values_they_were_checked_with() {
    let mut s = PhotoRot1080::new();
    match s.resume(Outcome::RotationListed(Purpose::RcRotate, 0, "".into(), "L1".into())) {
        Request::CheckRotate(_, l) => assert_eq!(l, "L1"),
        _ => panic!("unexpected"),
    }
    match s.resume(Outcome::RotateChecked(0, "rotate started".into())) {
        Request::StartRotate(_, l, _, _) => assert_eq!(l, "L1"),
        _ => panic!("unexpected"),
    }

    let mut b = TabBarExample::new();
    b.resume(BarOutcome::RotationListed(0, "".into(), "L2".into()));
    match b.resume(BarOutcome::RotateChecked(0, "rotate started".into())) {
        BarRequest::StartRotate(_, l, _, _) => assert_eq!(l, "L2"),
        _ => panic!("unexpected"),
    }
    b.update(BarMessage::C8(C8Message::CopyPressed("/out".into(), "L3".into())));
    match b.resume(BarOutcome::CopyChecked(0, "convert copy started".into())) {
        BarRequest::StartCopy(_, o, l, _, _) => {
            assert_eq!(o, "/out");
            assert_eq!(l, "L3");
        },
        _ => panic!("unexpected"),
    }
    assert!(matches!(b.resume(BarOutcome::CopyChecked(1, "no".into())), BarRequest::Done));
    assert_eq!(b.mess_color, MsgColor::Red);
}

#[test]
fn screen_stays_in_range_through_a_run() {
    let mut s = PhotoRot1080::new();
    let in_range = |s: &PhotoRot1080| {
        matches!(s.mess_color, MsgColor::Blue | MsgColor::Green | MsgColor::Red)
            && s.progress.map_or(true, |(n, d)| 0 <= n && n <= d && d > 0)
    };
    assert!(in_range(&s));
    s.update(Message::ProgressPressed);
    s.update(Message::ProgRtn(Ok(Progstart {})));
    s.resume(Outcome::ProgressDrained(vec!["Progress|5|7".into()]));
    assert!(in_range(&s));
    s.update(Message::RotatexFound(Ok(Rotatex { errcolor: MsgColor::Green, errval: "rotated 7 files in 2 seconds".into() })));
    assert!(in_range(&s));
    s.update(Message::PageRadioSelected(PageChoice::CON));
    s.resume(Outcome::DirChecked(Purpose::C8List, false));
    assert!(in_range(&s));
}
