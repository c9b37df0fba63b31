//! The tabbed screen: a directory, a message line, a progress bar, and the
//! rotate-correction and convert tabs. The screen answers the tabs' rotate
//! and copy buttons itself and hands every other tab message to its tab.
use vstd::prelude::*;
use crate::model::{Copyx, Error, MsgColor, Progstart, Rotatex};
use crate::progress::{latest_reading, read_latest};
use crate::tabs::{
    c8_dir_checked_spec, c8_listed_spec, c8_outdir_checked_spec, c8_outdir_picked_spec,
    c8_update_spec, missing_dir_message, missing_dir_text, rc_dir_checked_spec, rc_listed_spec,
    rc_update_spec, C8Message, C8Tab, C8TabView, RcMessage, RcTab, RcTabView, TabRequest,
    TabRequestView,
};

verus! {

/// What the tabbed screen is told.
#[derive(Debug)]
pub enum BarMessage {
    DirPressed,
    TabSelected(usize),
    RC(RcMessage),
    C8(C8Message),
    ProgressPressed,
    ProgRtn(Result<Progstart, Error>),
    RotatexFound(Result<Rotatex, Error>),
    CopyxFound(Result<Copyx, Error>),
}

/// What the tabbed screen asks of the outside next.
pub enum BarRequest {
    Done,
    /// What the rotate-correction tab asks (answers: `RcDirChecked`, `RcListed`).
    Rc(TabRequest),
    /// What the convert tab asks (answers: `C8DirChecked`, `C8Listed`,
    /// `C8OutDirChecked`, `C8OutDirPicked`).
    C8(TabRequest),
    /// Whether this directory exists, before rotating (answer: `RotateDirChecked`).
    CheckRotateDir(String),
    /// The orientation listing of this directory, to rotate (answer: `RotationListed`).
    ListRotation(String),
    /// The check before rotating (answer: `RotateChecked`); the run then goes
    /// through that same listing.
    CheckRotate(String, String),
    /// The check before converting (answer: `CopyChecked`); the run then
    /// uses that same output directory and listing.
    CheckCopy(String, String, String),
    /// Start the conversion run: directory, output directory, listing, the
    /// conversion program, and the colour of a run that ends well.
    StartCopy(String, String, String, String, MsgColor),
    /// Start the rotation run: directory, listing, the rotation script, and
    /// the colour of a run that ends well.
    StartRotate(String, String, String, MsgColor),
    /// The working-directory dialog, from this directory (answer: `DirPicked`).
    PickDir(String),
    StartTimer,
    /// Take all the progress messages sent so far, in the order sent
    /// (answer: `ProgressDrained`).
    DrainProgress,
    /// Write the progress bar's percentage into the message line, then start
    /// the timer.
    ShowProgress,
}

/// The answers to the tabbed screen's requests.
pub enum BarOutcome {
    RcDirChecked(bool),
    RcListed(u32, String, String),
    C8DirChecked(bool),
    C8Listed(u32, String, String),
    C8OutDirChecked(bool),
    C8OutDirPicked(u32, String, String),
    RotateDirChecked(bool),
    RotationListed(u32, String, String),
    RotateChecked(u32, String),
    CopyChecked(u32, String),
    DirPicked(u32, String, String),
    ProgressDrained(Vec<String>),
}

/// The view of a `BarRequest`: its strings as character sequences.
pub enum BarRequestView {
    Done,
    Rc(TabRequestView),
    C8(TabRequestView),
    CheckRotateDir(Seq<char>),
    ListRotation(Seq<char>),
    CheckRotate(Seq<char>, Seq<char>),
    CheckCopy(Seq<char>, Seq<char>, Seq<char>),
    StartCopy(Seq<char>, Seq<char>, Seq<char>, Seq<char>, MsgColor),
    StartRotate(Seq<char>, Seq<char>, Seq<char>, MsgColor),
    PickDir(Seq<char>),
    StartTimer,
    DrainProgress,
    ShowProgress,
}

impl View for BarRequest {
    type V = BarRequestView;

    open spec fn view(&self) -> BarRequestView {
        match self {
            BarRequest::Done => BarRequestView::Done,
            BarRequest::Rc(t) => BarRequestView::Rc(t@),
            BarRequest::C8(t) => BarRequestView::C8(t@),
            BarRequest::CheckRotateDir(d) => BarRequestView::CheckRotateDir(d@),
            BarRequest::ListRotation(d) => BarRequestView::ListRotation(d@),
            BarRequest::CheckRotate(a, b) => BarRequestView::CheckRotate(a@, b@),
            BarRequest::CheckCopy(a, b, c) => BarRequestView::CheckCopy(a@, b@, c@),
            BarRequest::StartCopy(a, b, c, p, k) => BarRequestView::StartCopy(a@, b@, c@, p@, *k),
            BarRequest::StartRotate(a, b, p, k) => BarRequestView::StartRotate(a@, b@, p@, *k),
            BarRequest::PickDir(d) => BarRequestView::PickDir(d@),
            BarRequest::StartTimer => BarRequestView::StartTimer,
            BarRequest::DrainProgress => BarRequestView::DrainProgress,
            BarRequest::ShowProgress => BarRequestView::ShowProgress,
        }
    }
}

/// The tabbed screen's state. `progress` is the progress bar: `None` for
/// empty, `Some((n, d))` for `100 * n / d` percent.
pub struct TabBarExample {
    pub dir_value: String,
    pub mess_color: MsgColor,
    pub msg_value: String,
    pub do_progress: bool,
    pub progress: Option<(i32, i32)>,
    pub active_tab: usize,
    pub rc_tab: RcTab,
    pub c8_tab: C8Tab,
    /// The listing a rotation run is to go through, kept from the listing
    /// until the check before the run answers.
    pub rotate_list: String,
    /// The output directory and listing a conversion run is to use, kept
    /// from the copy button until the check before the run answers.
    pub copy_outdir: String,
    pub copy_list: String,
}

/// The view of the tabbed screen's state.
pub struct TabBarView {
    pub dir_value: Seq<char>,
    pub mess_color: MsgColor,
    pub msg_value: Seq<char>,
    pub do_progress: bool,
    pub progress: Option<(i32, i32)>,
    pub active_tab: usize,
    pub rc_tab: RcTabView,
    pub c8_tab: C8TabView,
    pub rotate_list: Seq<char>,
    pub copy_outdir: Seq<char>,
    pub copy_list: Seq<char>,
}

impl View for TabBarExample {
    type V = TabBarView;

    open spec fn view(&self) -> TabBarView {
        TabBarView {
            dir_value: self.dir_value@,
            mess_color: self.mess_color,
            msg_value: self.msg_value@,
            do_progress: self.do_progress,
            progress: self.progress,
            active_tab: self.active_tab,
            rc_tab: self.rc_tab@,
            c8_tab: self.c8_tab@,
            rotate_list: self.rotate_list@,
            copy_outdir: self.copy_outdir@,
            copy_list: self.copy_list@,
        }
    }
}

/// The tabbed screen after a message line `msg` in colour `c`.
pub open spec fn bar_say(s: TabBarView, msg: Seq<char>, c: MsgColor) -> TabBarView {
    TabBarView { msg_value: msg, mess_color: c, ..s }
}

/// The tabbed screen after a run reported `msg` in colour `c`: the
/// progress stops and the bar empties.
pub open spec fn bar_run_ended(s: TabBarView, msg: Seq<char>, c: MsgColor) -> TabBarView {
    TabBarView { msg_value: msg, mess_color: c, do_progress: false, progress: None, ..s }
}

/// What `update` does to the tabbed screen and asks next.
pub open spec fn bar_update_spec(s: TabBarView, m: BarMessage) -> (TabBarView, BarRequestView) {
    match m {
        BarMessage::TabSelected(sel) => (TabBarView { active_tab: sel, ..s }, BarRequestView::Done),
        BarMessage::C8(C8Message::CopyPressed(outdir, scrol)) => (
            TabBarView { copy_outdir: outdir@, copy_list: scrol@, ..s },
            BarRequestView::CheckCopy(s.dir_value, outdir@, scrol@),
        ),
        BarMessage::RC(RcMessage::RotallPressed) => (s, BarRequestView::CheckRotateDir(s.dir_value)),
        BarMessage::RC(msg) => {
            let (t, r) = rc_update_spec(s.rc_tab, msg);
            (TabBarView { rc_tab: t, ..s }, BarRequestView::Rc(r))
        },
        BarMessage::C8(msg) => {
            let (t, r) = c8_update_spec(s.c8_tab, msg);
            (TabBarView { c8_tab: t, ..s }, BarRequestView::C8(r))
        },
        BarMessage::DirPressed => (s, BarRequestView::PickDir(s.dir_value)),
        BarMessage::ProgressPressed => (
            TabBarView { do_progress: true, ..s },
            BarRequestView::StartTimer,
        ),
        BarMessage::CopyxFound(Ok(c)) => (bar_run_ended(s, c.errval@, c.errcolor), BarRequestView::Done),
        BarMessage::CopyxFound(Err(_)) => (
            bar_say(s, "error in copyx copyit routine"@, MsgColor::Red),
            BarRequestView::Done,
        ),
        BarMessage::RotatexFound(Ok(c)) => (
            bar_run_ended(s, c.errval@, c.errcolor),
            BarRequestView::Done,
        ),
        BarMessage::RotatexFound(Err(_)) => (
            bar_say(s, "error in copyx copyit routine"@, MsgColor::Red),
            BarRequestView::Done,
        ),
        BarMessage::ProgRtn(Ok(_)) => if s.do_progress {
            (s, BarRequestView::DrainProgress)
        } else {
            (s, BarRequestView::Done)
        },
        BarMessage::ProgRtn(Err(_)) => (
            bar_say(s, "error in Progstart::pstart routine"@, MsgColor::Red),
            BarRequestView::Done,
        ),
    }
}

/// What `resume` does to the tabbed screen and asks next.
pub open spec fn bar_resume_spec(s: TabBarView, o: BarOutcome) -> (TabBarView, BarRequestView) {
    match o {
        BarOutcome::RcDirChecked(e) => {
            let (t, r) = rc_dir_checked_spec(s.rc_tab, e);
            (TabBarView { rc_tab: t, ..s }, BarRequestView::Rc(r))
        },
        BarOutcome::RcListed(code, err, list) => (
            TabBarView { rc_tab: rc_listed_spec(s.rc_tab, code, err@, list@), ..s },
            BarRequestView::Done,
        ),
        BarOutcome::C8DirChecked(e) => {
            let (t, r) = c8_dir_checked_spec(s.c8_tab, e);
            (TabBarView { c8_tab: t, ..s }, BarRequestView::C8(r))
        },
        BarOutcome::C8Listed(code, err, list) => (
            TabBarView { c8_tab: c8_listed_spec(s.c8_tab, code, err@, list@), ..s },
            BarRequestView::Done,
        ),
        BarOutcome::C8OutDirChecked(e) => {
            let (t, r) = c8_outdir_checked_spec(s.c8_tab, e);
            (TabBarView { c8_tab: t, ..s }, BarRequestView::C8(r))
        },
        BarOutcome::C8OutDirPicked(code, err, newdir) => (
            TabBarView { c8_tab: c8_outdir_picked_spec(s.c8_tab, code, err@, newdir@), ..s },
            BarRequestView::Done,
        ),
        BarOutcome::RotateDirChecked(e) => if e {
            (s, BarRequestView::ListRotation(s.dir_value))
        } else {
            (bar_say(s, missing_dir_message(s.dir_value), MsgColor::Red), BarRequestView::Done)
        },
        BarOutcome::RotationListed(code, err, list) => if code == 0 {
            (
                TabBarView { rotate_list: list@, ..s },
                BarRequestView::CheckRotate(s.dir_value, list@),
            )
        } else {
            (bar_say(s, err@, MsgColor::Red), BarRequestView::Done)
        },
        BarOutcome::RotateChecked(code, err) => if code == 0 {
            (
                bar_say(s, err@, MsgColor::Green),
                BarRequestView::StartRotate(
                    s.dir_value,
                    s.rotate_list,
                    "/home/jp/gimp.sh"@,
                    MsgColor::Black,
                ),
            )
        } else {
            (bar_say(s, err@, MsgColor::Red), BarRequestView::Done)
        },
        BarOutcome::CopyChecked(code, err) => if code == 0 {
            (
                bar_say(s, err@, MsgColor::Green),
                BarRequestView::StartCopy(
                    s.dir_value,
                    s.copy_outdir,
                    s.copy_list,
                    "convert"@,
                    MsgColor::Black,
                ),
            )
        } else {
            (bar_say(s, err@, MsgColor::Red), BarRequestView::Done)
        },
        BarOutcome::DirPicked(code, err, newdir) => if code == 0 {
            (
                TabBarView {
                    dir_value: newdir@,
                    rc_tab: RcTabView { rcdirval: newdir@, ..s.rc_tab },
                    c8_tab: C8TabView { c8dirval: newdir@, ..s.c8_tab },
                    ..bar_say(s, err@, MsgColor::Green)
                },
                BarRequestView::Done,
            )
        } else {
            (bar_say(s, err@, MsgColor::Red), BarRequestView::Done)
        },
        BarOutcome::ProgressDrained(msgs) => match latest_reading(msgs@) {
            Some((n, d)) => (
                TabBarView { progress: Some((n, d)), mess_color: MsgColor::Blue, ..s },
                BarRequestView::ShowProgress,
            ),
            None => (s, BarRequestView::StartTimer),
        },
    }
}

impl TabBarExample {
    /// The tabbed screen at start: no directory, the first tab active.
    pub fn new() -> (r: Self)
        ensures
            r@.dir_value == "no directory"@,
            r@.mess_color == MsgColor::Black,
            r@.msg_value == "no message"@,
            !r@.do_progress,
            r@.progress is None,
            r@.active_tab == 0,
            r@.rc_tab == RcTab::new_spec(),
            r@.c8_tab == C8Tab::new_spec(),
            r@.rotate_list == Seq::<char>::empty(),
            r@.copy_outdir == Seq::<char>::empty(),
            r@.copy_list == Seq::<char>::empty(),
    {
        TabBarExample {
            dir_value: String::from_str("no directory"),
            mess_color: MsgColor::Black,
            msg_value: String::from_str("no message"),
            do_progress: false,
            progress: None,
            active_tab: 0,
            rc_tab: RcTab::new(),
            c8_tab: C8Tab::new(),
            rotate_list: String::new(),
            copy_outdir: String::new(),
            copy_list: String::new(),
        }
    }

    /// The window title.
    pub fn title(&self) -> (r: String)
        ensures
            r@ == "TabBar Example"@,
    {
        String::from_str("TabBar Example")
    }

    /// Shows `msg` on the message line in colour `c`.
    fn say(&mut self, msg: String, c: MsgColor)
        ensures
            final(self)@ == bar_say(old(self)@, msg@, c),
    {
        self.msg_value = msg;
        self.mess_color = c;
    }

    /// Takes what the screen is told; hands back what it asks next.
    pub fn update(&mut self, message: BarMessage) -> (r: BarRequest)
        ensures
            (final(self)@, r@) == bar_update_spec(old(self)@, message),
    {
        match message {
            BarMessage::TabSelected(selected) => {
                self.active_tab = selected;
                BarRequest::Done
            },
            BarMessage::C8(C8Message::CopyPressed(outdir, scrol)) => {
                self.copy_outdir = outdir;
                self.copy_list = scrol;
                BarRequest::CheckCopy(
                    self.dir_value.clone(),
                    self.copy_outdir.clone(),
                    self.copy_list.clone(),
                )
            },
            BarMessage::RC(RcMessage::RotallPressed) => BarRequest::CheckRotateDir(self.dir_value.clone()),
            BarMessage::RC(message) => BarRequest::Rc(self.rc_tab.update(message)),
            BarMessage::C8(message) => BarRequest::C8(self.c8_tab.update(message)),
            BarMessage::DirPressed => BarRequest::PickDir(self.dir_value.clone()),
            BarMessage::ProgressPressed => {
                self.do_progress = true;
                BarRequest::StartTimer
            },
            BarMessage::CopyxFound(Ok(copyx)) => {
                self.say(copyx.errval, copyx.errcolor);
                self.do_progress = false;
                self.progress = None;
                BarRequest::Done
            },
            BarMessage::CopyxFound(Err(_error)) => {
                self.say(String::from_str("error in copyx copyit routine"), MsgColor::Red);
                BarRequest::Done
            },
            BarMessage::RotatexFound(Ok(rotx)) => {
                self.say(rotx.errval, rotx.errcolor);
                self.do_progress = false;
                self.progress = None;
                BarRequest::Done
            },
            BarMessage::RotatexFound(Err(_error)) => {
                self.say(String::from_str("error in copyx copyit routine"), MsgColor::Red);
                BarRequest::Done
            },
            BarMessage::ProgRtn(Ok(_prx)) => {
                if self.do_progress {
                    BarRequest::DrainProgress
                } else {
                    BarRequest::Done
                }
            },
            BarMessage::ProgRtn(Err(_error)) => {
                self.say(String::from_str("error in Progstart::pstart routine"), MsgColor::Red);
                BarRequest::Done
            },
        }
    }

    /// Takes the answer to the last request; hands back what the screen asks
    /// next.
    pub fn resume(&mut self, outcome: BarOutcome) -> (r: BarRequest)
        ensures
            (final(self)@, r@) == bar_resume_spec(old(self)@, outcome),
    {
        match outcome {
            BarOutcome::RcDirChecked(e) => BarRequest::Rc(self.rc_tab.dir_checked(e)),
            BarOutcome::RcListed(code, err, list) => {
                self.rc_tab.listed(code, err, list);
                BarRequest::Done
            },
            BarOutcome::C8DirChecked(e) => BarRequest::C8(self.c8_tab.dir_checked(e)),
            BarOutcome::C8Listed(code, err, list) => {
                self.c8_tab.listed(code, err, list);
                BarRequest::Done
            },
            BarOutcome::C8OutDirChecked(e) => BarRequest::C8(self.c8_tab.outdir_checked(e)),
            BarOutcome::C8OutDirPicked(code, err, newdir) => {
                self.c8_tab.outdir_picked(code, err, newdir);
                BarRequest::Done
            },
            BarOutcome::RotateDirChecked(e) => {
                if e {
                    BarRequest::ListRotation(self.dir_value.clone())
                } else {
                    let m = missing_dir_text(&self.dir_value);
                    self.say(m, MsgColor::Red);
                    BarRequest::Done
                }
            },
            BarOutcome::RotationListed(code, err, list) => {
                if code == 0 {
                    self.rotate_list = list;
                    BarRequest::CheckRotate(self.dir_value.clone(), self.rotate_list.clone())
                } else {
                    self.say(err, MsgColor::Red);
                    BarRequest::Done
                }
            },
            BarOutcome::RotateChecked(code, err) => {
                if code == 0 {
                    self.say(err, MsgColor::Green);
                    BarRequest::StartRotate(
                        self.dir_value.clone(),
                        self.rotate_list.clone(),
                        String::from_str("/home/jp/gimp.sh"),
                        MsgColor::Black,
                    )
                } else {
                    self.say(err, MsgColor::Red);
                    BarRequest::Done
                }
            },
            BarOutcome::CopyChecked(code, err) => {
                if code == 0 {
                    self.say(err, MsgColor::Green);
                    BarRequest::StartCopy(
                        self.dir_value.clone(),
                        self.copy_outdir.clone(),
                        self.copy_list.clone(),
                        String::from_str("convert"),
                        MsgColor::Black,
                    )
                } else {
                    self.say(err, MsgColor::Red);
                    BarRequest::Done
                }
            },
            BarOutcome::DirPicked(code, err, newdir) => {
                if code == 0 {
                    self.dir_value = newdir;
                    self.rc_tab.update(RcMessage::Dirupdate(self.dir_value.clone()));
                    self.c8_tab.update(C8Message::Dirupdate(self.dir_value.clone()));
                    self.say(err, MsgColor::Green);
                } else {
                    self.say(err, MsgColor::Red);
                }
                BarRequest::Done
            },
            BarOutcome::ProgressDrained(msgs) => {
                match read_latest(msgs) {
                    Some((n, d)) => {
                        self.progress = Some((n, d));
                        self.mess_color = MsgColor::Blue;
                        BarRequest::ShowProgress
                    },
                    None => BarRequest::StartTimer,
                }
            },
        }
    }
}

} // verus!
