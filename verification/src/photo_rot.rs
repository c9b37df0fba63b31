//! The single-window screen: a directory, a message line, a progress bar and
//! three pages (rotate correction, convert to 1080, individual rotation).
//!
//! `update` takes what the screen is told and hands back what it asks of
//! the outside next; the answers come back through `resume`.
use vstd::prelude::*;
use crate::model::{Copyx, Error, MsgColor, PageChoice, Progstart, Rotatex};
use crate::progress::{latest_reading, progress_line, progress_line_spec, read_latest};
use crate::tabs::{entries_message, entries_text, missing_dir_message, missing_dir_text};

verus! {

/// What the screen is told.
#[derive(Debug)]
pub enum Message {
    DirPressed,
    ProgressPressed,
    ProgRtn(Result<Progstart, Error>),
    RotatexFound(Result<Rotatex, Error>),
    CopyxFound(Result<Copyx, Error>),
    PageRadioSelected(PageChoice),
    RCListPressed,
    RCRotallPressed,
    C8OutDirPressed,
    C8ListPressed,
    C8CopyPressed,
    INStartButton,
}

/// Why the screen asks whether its directory exists.
#[derive(Clone, Copy, Debug, PartialEq, Eq, Structural)]
pub enum Purpose {
    RcList,
    RcRotate,
    C8List,
    C8OutDir,
    IndStart,
}

/// What the screen asks of the outside next.
pub enum Request {
    /// Nothing more.
    Done,
    /// Whether this directory exists (answer: `DirChecked`).
    CheckDir(Purpose, String),
    /// The orientation listing of this directory (answer: `RotationListed`).
    ListRotation(Purpose, String),
    /// The conversion listing of this directory (answer: `ConvertListed`).
    ListConvert(String),
    /// The working-directory dialog, from this directory (answer: `DirPicked`).
    PickDir(String),
    /// The output-directory dialog, from this directory (answer: `OutDirPicked`).
    PickOutDir(String),
    /// The check before converting: directory, output directory, listing
    /// (answer: `CopyChecked`).
    CheckCopy(String, String, String),
    /// The check before rotating: directory and listing (answer:
    /// `RotateChecked`); the run then goes through that same listing.
    CheckRotate(String, String),
    /// Start the conversion run: directory, output directory, listing, the
    /// conversion program, and the colour of a run that ends well.
    StartCopy(String, String, String, String, MsgColor),
    /// Start the rotation run: directory, listing, the rotation script, and
    /// the colour of a run that ends well.
    StartRotate(String, String, String, MsgColor),
    /// Start the individual-rotation program on this directory.
    LaunchIndividual(String),
    /// Start the progress timer (it answers with `ProgRtn`).
    StartTimer,
    /// Take all the progress messages sent so far, in the order sent
    /// (answer: `ProgressDrained`).
    DrainProgress,
}

/// The answers to the requests.
pub enum Outcome {
    DirChecked(Purpose, bool),
    RotationListed(Purpose, u32, String, String),
    ConvertListed(u32, String, String),
    DirPicked(u32, String, String),
    OutDirPicked(u32, String, String),
    CopyChecked(u32, String),
    RotateChecked(u32, String),
    ProgressDrained(Vec<String>),
}

/// The view of a `Request`: its strings as character sequences.
pub enum RequestView {
    Done,
    CheckDir(Purpose, Seq<char>),
    ListRotation(Purpose, Seq<char>),
    ListConvert(Seq<char>),
    PickDir(Seq<char>),
    PickOutDir(Seq<char>),
    CheckCopy(Seq<char>, Seq<char>, Seq<char>),
    CheckRotate(Seq<char>, Seq<char>),
    StartCopy(Seq<char>, Seq<char>, Seq<char>, Seq<char>, MsgColor),
    StartRotate(Seq<char>, Seq<char>, Seq<char>, MsgColor),
    LaunchIndividual(Seq<char>),
    StartTimer,
    DrainProgress,
}

impl View for Request {
    type V = RequestView;

    open spec fn view(&self) -> RequestView {
        match self {
            Request::Done => RequestView::Done,
            Request::CheckDir(p, d) => RequestView::CheckDir(*p, d@),
            Request::ListRotation(p, d) => RequestView::ListRotation(*p, d@),
            Request::ListConvert(d) => RequestView::ListConvert(d@),
            Request::PickDir(d) => RequestView::PickDir(d@),
            Request::PickOutDir(d) => RequestView::PickOutDir(d@),
            Request::CheckCopy(a, b, c) => RequestView::CheckCopy(a@, b@, c@),
            Request::CheckRotate(a, b) => RequestView::CheckRotate(a@, b@),
            Request::StartCopy(a, b, c, p, k) => RequestView::StartCopy(a@, b@, c@, p@, *k),
            Request::StartRotate(a, b, p, k) => RequestView::StartRotate(a@, b@, p@, *k),
            Request::LaunchIndividual(d) => RequestView::LaunchIndividual(d@),
            Request::StartTimer => RequestView::StartTimer,
            Request::DrainProgress => RequestView::DrainProgress,
        }
    }
}

/// The screen's state. `progress` is the progress bar: `None` for empty,
/// `Some((n, d))` for `100 * n / d` percent.
pub struct PhotoRot1080 {
    pub dir_value: String,
    pub mess_color: MsgColor,
    pub msg_value: String,
    pub do_progress: bool,
    pub progress: Option<(i32, i32)>,
    pub pagechoice_value: PageChoice,
    pub c8scrol_value: String,
    pub rcscrol_value: String,
    pub outdir_value: String,
    /// The listing a rotation run is to go through, kept from the listing
    /// until the check before the run answers.
    pub rotate_list: String,
}

/// The view of the screen's state.
pub struct PhotoRotView {
    pub dir_value: Seq<char>,
    pub mess_color: MsgColor,
    pub msg_value: Seq<char>,
    pub do_progress: bool,
    pub progress: Option<(i32, i32)>,
    pub pagechoice_value: PageChoice,
    pub c8scrol_value: Seq<char>,
    pub rcscrol_value: Seq<char>,
    pub outdir_value: Seq<char>,
    pub rotate_list: Seq<char>,
}

impl View for PhotoRot1080 {
    type V = PhotoRotView;

    open spec fn view(&self) -> PhotoRotView {
        PhotoRotView {
            dir_value: self.dir_value@,
            mess_color: self.mess_color,
            msg_value: self.msg_value@,
            do_progress: self.do_progress,
            progress: self.progress,
            pagechoice_value: self.pagechoice_value,
            c8scrol_value: self.c8scrol_value@,
            rcscrol_value: self.rcscrol_value@,
            outdir_value: self.outdir_value@,
            rotate_list: self.rotate_list@,
        }
    }
}

/// The message shown when a page is chosen.
pub open spec fn page_message(p: PageChoice) -> Seq<char> {
    match p {
        PageChoice::ROT => "page choice rotate correction selected"@,
        PageChoice::CON => "page choice convert to 1080 selected"@,
        PageChoice::IND => "page choice individual rotate selected"@,
    }
}

/// The screen after a message line `msg` in colour `c`.
pub open spec fn say(s: PhotoRotView, msg: Seq<char>, c: MsgColor) -> PhotoRotView {
    PhotoRotView { msg_value: msg, mess_color: c, ..s }
}

/// The screen after a run reported `msg` in colour `c`: the progress stops
/// and the bar empties.
pub open spec fn run_ended(s: PhotoRotView, msg: Seq<char>, c: MsgColor) -> PhotoRotView {
    PhotoRotView { msg_value: msg, mess_color: c, do_progress: false, progress: None, ..s }
}

/// The screen at start.
pub open spec fn initial_screen() -> PhotoRotView {
    PhotoRotView {
        dir_value: "no directory"@,
        mess_color: MsgColor::Blue,
        msg_value: "no message"@,
        do_progress: false,
        progress: None,
        pagechoice_value: PageChoice::ROT,
        c8scrol_value: " nothing to process "@,
        rcscrol_value: " nothing to process "@,
        outdir_value: Seq::empty(),
        rotate_list: Seq::empty(),
    }
}

/// What `update` does to the screen and asks next.
pub open spec fn update_spec(s: PhotoRotView, m: Message) -> (PhotoRotView, RequestView) {
    match m {
        Message::PageRadioSelected(p) => (
            PhotoRotView { pagechoice_value: p, ..say(s, page_message(p), MsgColor::Green) },
            RequestView::Done,
        ),
        Message::RCListPressed => (
            PhotoRotView { rcscrol_value: " nothing to process "@, ..s },
            RequestView::CheckDir(Purpose::RcList, s.dir_value),
        ),
        Message::C8ListPressed => (
            PhotoRotView { c8scrol_value: " nothing to process "@, ..s },
            RequestView::CheckDir(Purpose::C8List, s.dir_value),
        ),
        Message::C8OutDirPressed => (s, RequestView::CheckDir(Purpose::C8OutDir, s.dir_value)),
        Message::C8CopyPressed => (
            s,
            RequestView::CheckCopy(s.dir_value, s.outdir_value, s.c8scrol_value),
        ),
        Message::RCRotallPressed => (s, RequestView::CheckDir(Purpose::RcRotate, s.dir_value)),
        Message::INStartButton => (s, RequestView::CheckDir(Purpose::IndStart, s.dir_value)),
        Message::DirPressed => (s, RequestView::PickDir(s.dir_value)),
        Message::ProgressPressed => (
            PhotoRotView { do_progress: true, ..s },
            RequestView::StartTimer,
        ),
        Message::CopyxFound(Ok(c)) => (run_ended(s, c.errval@, c.errcolor), RequestView::Done),
        Message::CopyxFound(Err(_)) => (
            say(s, "error in copyx copyit routine"@, MsgColor::Red),
            RequestView::Done,
        ),
        Message::RotatexFound(Ok(c)) => (run_ended(s, c.errval@, c.errcolor), RequestView::Done),
        Message::RotatexFound(Err(_)) => (
            say(s, "error in copyx copyit routine"@, MsgColor::Red),
            RequestView::Done,
        ),
        Message::ProgRtn(Ok(_)) => if s.do_progress {
            (s, RequestView::DrainProgress)
        } else {
            (s, RequestView::Done)
        },
        Message::ProgRtn(Err(_)) => (
            say(s, "error in Progstart::pstart routine"@, MsgColor::Red),
            RequestView::Done,
        ),
    }
}

/// What `resume` does to the screen and asks next.
pub open spec fn resume_spec(s: PhotoRotView, o: Outcome) -> (PhotoRotView, RequestView) {
    match o {
        Outcome::DirChecked(p, exists) => match p {
            Purpose::C8OutDir => (
                s,
                RequestView::PickOutDir(
                    if exists {
                        s.dir_value
                    } else {
                        s.outdir_value
                    },
                ),
            ),
            Purpose::IndStart => if exists {
                (
                    say(s, "started indivrotate01310 program"@, MsgColor::Green),
                    RequestView::LaunchIndividual(s.dir_value),
                )
            } else {
                (say(s, "The directory does not exist"@, MsgColor::Red), RequestView::Done)
            },
            _ => if !exists {
                (say(s, missing_dir_message(s.dir_value), MsgColor::Red), RequestView::Done)
            } else if p == Purpose::C8List {
                (s, RequestView::ListConvert(s.dir_value))
            } else {
                (s, RequestView::ListRotation(p, s.dir_value))
            },
        },
        Outcome::RotationListed(p, code, err, list) => if p == Purpose::RcList {
            if code == 0 {
                (
                    PhotoRotView {
                        rcscrol_value: list@,
                        ..say(s, entries_message(s.dir_value), MsgColor::Green)
                    },
                    RequestView::Done,
                )
            } else {
                (say(s, err@, MsgColor::Red), RequestView::Done)
            }
        } else if p == Purpose::RcRotate {
            if code == 0 {
                (
                    PhotoRotView { rotate_list: list@, ..s },
                    RequestView::CheckRotate(s.dir_value, list@),
                )
            } else {
                (say(s, err@, MsgColor::Red), RequestView::Done)
            }
        } else {
            (s, RequestView::Done)
        },
        Outcome::ConvertListed(code, err, list) => if code == 0 {
            (
                PhotoRotView {
                    c8scrol_value: list@,
                    ..say(s, entries_message(s.dir_value), MsgColor::Green)
                },
                RequestView::Done,
            )
        } else {
            (say(s, err@, MsgColor::Red), RequestView::Done)
        },
        Outcome::DirPicked(code, err, newdir) => if code == 0 {
            (
                PhotoRotView { dir_value: newdir@, ..say(s, err@, MsgColor::Green) },
                RequestView::Done,
            )
        } else {
            (say(s, err@, MsgColor::Red), RequestView::Done)
        },
        Outcome::OutDirPicked(code, err, newdir) => if code == 0 {
            (
                PhotoRotView { outdir_value: newdir@, ..say(s, err@, MsgColor::Green) },
                RequestView::Done,
            )
        } else {
            (say(s, err@, MsgColor::Red), RequestView::Done)
        },
        Outcome::CopyChecked(code, err) => if code == 0 {
            (
                say(s, err@, MsgColor::Green),
                RequestView::StartCopy(
                    s.dir_value,
                    s.outdir_value,
                    s.c8scrol_value,
                    "magick"@,
                    MsgColor::Green,
                ),
            )
        } else {
            (say(s, err@, MsgColor::Red), RequestView::Done)
        },
        Outcome::RotateChecked(code, err) => if code == 0 {
            (
                say(s, err@, MsgColor::Green),
                RequestView::StartRotate(
                    s.dir_value,
                    s.rotate_list,
                    "/home/jp/gimp.sh"@,
                    MsgColor::Green,
                ),
            )
        } else {
            (say(s, err@, MsgColor::Red), RequestView::Done)
        },
        Outcome::ProgressDrained(msgs) => match latest_reading(msgs@) {
            Some((n, d)) => (
                PhotoRotView {
                    progress: Some((n, d)),
                    ..say(s, progress_line_spec(n, d), MsgColor::Blue)
                },
                RequestView::StartTimer,
            ),
            None => (s, RequestView::StartTimer),
        },
    }
}

impl PhotoRot1080 {
    /// The screen at start: no directory, nothing listed, the rotate page.
    pub fn new() -> (r: Self)
        ensures
            r@ == initial_screen(),
    {
        PhotoRot1080 {
            dir_value: String::from_str("no directory"),
            mess_color: MsgColor::Blue,
            msg_value: String::from_str("no message"),
            do_progress: false,
            progress: None,
            pagechoice_value: PageChoice::ROT,
            c8scrol_value: String::from_str(" nothing to process "),
            rcscrol_value: String::from_str(" nothing to process "),
            outdir_value: String::new(),
            rotate_list: String::new(),
        }
    }

    /// The window title.
    pub fn title(&self) -> (r: String)
        ensures
            r@ == "Photo Rotate Convert 1080"@,
    {
        String::from_str("Photo Rotate Convert 1080")
    }

    /// Shows `msg` on the message line in colour `c`.
    fn say(&mut self, msg: String, c: MsgColor)
        ensures
            final(self)@ == say(old(self)@, msg@, c),
    {
        self.msg_value = msg;
        self.mess_color = c;
    }

    /// Takes what the screen is told; hands back what it asks next.
    pub fn update(&mut self, message: Message) -> (r: Request)
        ensures
            (final(self)@, r@) == update_spec(old(self)@, message),
    {
        match message {
            Message::PageRadioSelected(xchoice) => {
                let strx = match xchoice {
                    PageChoice::ROT => "page choice rotate correction selected",
                    PageChoice::CON => "page choice convert to 1080 selected",
                    PageChoice::IND => "page choice individual rotate selected",
                };
                self.pagechoice_value = xchoice;
                self.say(String::from_str(strx), MsgColor::Green);
                Request::Done
            },
            Message::RCListPressed => {
                self.rcscrol_value = String::from_str(" nothing to process ");
                Request::CheckDir(Purpose::RcList, self.dir_value.clone())
            },
            Message::C8ListPressed => {
                self.c8scrol_value = String::from_str(" nothing to process ");
                Request::CheckDir(Purpose::C8List, self.dir_value.clone())
            },
            Message::C8OutDirPressed => Request::CheckDir(Purpose::C8OutDir, self.dir_value.clone()),
            Message::C8CopyPressed => Request::CheckCopy(
                self.dir_value.clone(),
                self.outdir_value.clone(),
                self.c8scrol_value.clone(),
            ),
            Message::RCRotallPressed => Request::CheckDir(Purpose::RcRotate, self.dir_value.clone()),
            Message::INStartButton => Request::CheckDir(Purpose::IndStart, self.dir_value.clone()),
            Message::DirPressed => Request::PickDir(self.dir_value.clone()),
            Message::ProgressPressed => {
                self.do_progress = true;
                Request::StartTimer
            },
            Message::CopyxFound(Ok(copyx)) => {
                self.say(copyx.errval, copyx.errcolor);
                self.do_progress = false;
                self.progress = None;
                Request::Done
            },
            Message::CopyxFound(Err(_error)) => {
                self.say(String::from_str("error in copyx copyit routine"), MsgColor::Red);
                Request::Done
            },
            Message::RotatexFound(Ok(rotx)) => {
                self.say(rotx.errval, rotx.errcolor);
                self.do_progress = false;
                self.progress = None;
                Request::Done
            },
            Message::RotatexFound(Err(_error)) => {
                self.say(String::from_str("error in copyx copyit routine"), MsgColor::Red);
                Request::Done
            },
            Message::ProgRtn(Ok(_prx)) => {
                if self.do_progress {
                    Request::DrainProgress
                } else {
                    Request::Done
                }
            },
            Message::ProgRtn(Err(_error)) => {
                self.say(String::from_str("error in Progstart::pstart routine"), MsgColor::Red);
                Request::Done
            },
        }
    }

    /// Takes the answer to the last request; hands back what the screen asks
    /// next.
    pub fn resume(&mut self, outcome: Outcome) -> (r: Request)
        ensures
            (final(self)@, r@) == resume_spec(old(self)@, outcome),
    {
        match outcome {
            Outcome::DirChecked(p, exists) => match p {
                Purpose::C8OutDir => {
                    if exists {
                        Request::PickOutDir(self.dir_value.clone())
                    } else {
                        Request::PickOutDir(self.outdir_value.clone())
                    }
                },
                Purpose::IndStart => {
                    if exists {
                        self.say(String::from_str("started indivrotate01310 program"), MsgColor::Green);
                        Request::LaunchIndividual(self.dir_value.clone())
                    } else {
                        self.say(String::from_str("The directory does not exist"), MsgColor::Red);
                        Request::Done
                    }
                },
                _ => {
                    if !exists {
                        let m = missing_dir_text(&self.dir_value);
                        self.say(m, MsgColor::Red);
                        Request::Done
                    } else if p == Purpose::C8List {
                        Request::ListConvert(self.dir_value.clone())
                    } else {
                        Request::ListRotation(p, self.dir_value.clone())
                    }
                },
            },
            Outcome::RotationListed(p, code, err, list) => {
                if p == Purpose::RcList {
                    if code == 0 {
                        self.rcscrol_value = list;
                        let m = entries_text(&self.dir_value);
                        self.say(m, MsgColor::Green);
                    } else {
                        self.say(err, MsgColor::Red);
                    }
                    Request::Done
                } else if p == Purpose::RcRotate {
                    if code == 0 {
                        self.rotate_list = list;
                        Request::CheckRotate(self.dir_value.clone(), self.rotate_list.clone())
                    } else {
                        self.say(err, MsgColor::Red);
                        Request::Done
                    }
                } else {
                    Request::Done
                }
            },
            Outcome::ConvertListed(code, err, list) => {
                if code == 0 {
                    self.c8scrol_value = list;
                    let m = entries_text(&self.dir_value);
                    self.say(m, MsgColor::Green);
                } else {
                    self.say(err, MsgColor::Red);
                }
                Request::Done
            },
            Outcome::DirPicked(code, err, newdir) => {
                if code == 0 {
                    self.dir_value = newdir;
                    self.say(err, MsgColor::Green);
                } else {
                    self.say(err, MsgColor::Red);
                }
                Request::Done
            },
            Outcome::OutDirPicked(code, err, newdir) => {
                if code == 0 {
                    self.outdir_value = newdir;
                    self.say(err, MsgColor::Green);
                } else {
                    self.say(err, MsgColor::Red);
                }
                Request::Done
            },
            Outcome::CopyChecked(code, err) => {
                if code == 0 {
                    self.say(err, MsgColor::Green);
                    Request::StartCopy(
                        self.dir_value.clone(),
                        self.outdir_value.clone(),
                        self.c8scrol_value.clone(),
                        String::from_str("magick"),
                        MsgColor::Green,
                    )
                } else {
                    self.say(err, MsgColor::Red);
                    Request::Done
                }
            },
            Outcome::RotateChecked(code, err) => {
                if code == 0 {
                    self.say(err, MsgColor::Green);
                    Request::StartRotate(
                        self.dir_value.clone(),
                        self.rotate_list.clone(),
                        String::from_str("/home/jp/gimp.sh"),
                        MsgColor::Green,
                    )
                } else {
                    self.say(err, MsgColor::Red);
                    Request::Done
                }
            },
            Outcome::ProgressDrained(msgs) => {
                match read_latest(msgs) {
                    Some((n, d)) => {
                        self.progress = Some((n, d));
                        self.say(progress_line(n, d), MsgColor::Blue);
                    },
                    None => {},
                }
                Request::StartTimer
            },
        }
    }
}

} // verus!
