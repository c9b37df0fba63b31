//! The tabs of the tabbed screen: rotate correction, convert to 1080 and
//! individual rotation. Each tab keeps its own message line; where a button
//! needs the file system, `update` hands back a request, and the answer comes
//! back through the tab's other methods.
use vstd::prelude::*;
use crate::model::MsgColor;
use crate::text::cat;

verus! {

/// What the rotate-correction tab is told.
#[derive(Debug, Clone)]
pub enum RcMessage {
    Dirupdate(String),
    ListPressed,
    RotallPressed,
}

/// What the convert tab is told.
#[derive(Debug, Clone)]
pub enum C8Message {
    Dirupdate(String),
    ListPressed,
    OutDirPressed,
    CopyPressed(String, String),
}

/// What the individual-rotation tab is told.
#[derive(Debug, Clone)]
pub enum IrsMessage {
    StartButton,
}

/// What a tab asks of the file system next.
pub enum TabRequest {
    /// Nothing more.
    Done,
    /// Whether this directory exists, to list it (answer: `dir_checked`).
    CheckDir(String),
    /// The orientation listing of this directory (answer: `listed`).
    ListRotation(String),
    /// The conversion listing of this directory (answer: `listed`).
    ListConvert(String),
    /// Whether this directory exists, to choose the output directory
    /// (answer: `outdir_checked`).
    CheckOutDirStart(String),
    /// The output-directory dialog, opened from this directory
    /// (answer: `outdir_picked`).
    PickOutDir(String),
}

/// The view of a `TabRequest`: its strings as character sequences.
pub enum TabRequestView {
    Done,
    CheckDir(Seq<char>),
    ListRotation(Seq<char>),
    ListConvert(Seq<char>),
    CheckOutDirStart(Seq<char>),
    PickOutDir(Seq<char>),
}

impl View for TabRequest {
    type V = TabRequestView;

    open spec fn view(&self) -> TabRequestView {
        match self {
            TabRequest::Done => TabRequestView::Done,
            TabRequest::CheckDir(d) => TabRequestView::CheckDir(d@),
            TabRequest::ListRotation(d) => TabRequestView::ListRotation(d@),
            TabRequest::ListConvert(d) => TabRequestView::ListConvert(d@),
            TabRequest::CheckOutDirStart(d) => TabRequestView::CheckOutDirStart(d@),
            TabRequest::PickOutDir(d) => TabRequestView::PickOutDir(d@),
        }
    }
}

/// The message for a directory that does not exist.
pub open spec fn missing_dir_message(dir: Seq<char>) -> Seq<char> {
    "directory does not exist: "@ + dir
}

/// The message shown with a listing of `dir`.
pub open spec fn entries_message(dir: Seq<char>) -> Seq<char> {
    "directory entries for: "@ + dir
}

/// The message for a directory that does not exist.
pub fn missing_dir_text(dir: &String) -> (r: String)
    ensures
        r@ == missing_dir_message(dir@),
{
    cat(String::from_str("directory does not exist: "), dir.as_str())
}

/// The message shown with a listing of `dir`.
pub fn entries_text(dir: &String) -> (r: String)
    ensures
        r@ == entries_message(dir@),
{
    cat(String::from_str("directory entries for: "), dir.as_str())
}

// ---------------------------------------------------------------------
// Rotate correction
// ---------------------------------------------------------------------
/// The rotate-correction tab: its directory, message line and listing.
pub struct RcTab {
    pub rcdirval: String,
    pub mess_color: MsgColor,
    pub msg_value: String,
    pub scrol_value: String,
}

/// The view of the rotate-correction tab.
pub struct RcTabView {
    pub rcdirval: Seq<char>,
    pub mess_color: MsgColor,
    pub msg_value: Seq<char>,
    pub scrol_value: Seq<char>,
}

impl View for RcTab {
    type V = RcTabView;

    open spec fn view(&self) -> RcTabView {
        RcTabView {
            rcdirval: self.rcdirval@,
            mess_color: self.mess_color,
            msg_value: self.msg_value@,
            scrol_value: self.scrol_value@,
        }
    }
}

/// What `RcTab::update` does to the tab and asks next.
pub open spec fn rc_update_spec(s: RcTabView, m: RcMessage) -> (RcTabView, TabRequestView) {
    match m {
        RcMessage::Dirupdate(v) => (RcTabView { rcdirval: v@, ..s }, TabRequestView::Done),
        RcMessage::RotallPressed => (
            RcTabView { msg_value: "Rotate All Pressed"@, ..s },
            TabRequestView::Done,
        ),
        RcMessage::ListPressed => (
            RcTabView { scrol_value: " nothing to process "@, ..s },
            TabRequestView::CheckDir(s.rcdirval),
        ),
    }
}

/// What `RcTab::dir_checked` does to the tab and asks next.
pub open spec fn rc_dir_checked_spec(s: RcTabView, exists: bool) -> (RcTabView, TabRequestView) {
    if exists {
        (s, TabRequestView::ListRotation(s.rcdirval))
    } else {
        (
            RcTabView { msg_value: missing_dir_message(s.rcdirval), mess_color: MsgColor::Red, ..s },
            TabRequestView::Done,
        )
    }
}

/// What `RcTab::listed` does to the tab.
pub open spec fn rc_listed_spec(s: RcTabView, code: u32, err: Seq<char>, list: Seq<char>) -> RcTabView {
    if code == 0 {
        RcTabView {
            scrol_value: list,
            msg_value: entries_message(s.rcdirval),
            mess_color: MsgColor::Green,
            ..s
        }
    } else {
        RcTabView { msg_value: err, mess_color: MsgColor::Red, ..s }
    }
}

impl RcTab {
    /// A new tab: no directory, nothing to process.
    pub open spec fn new_spec() -> RcTabView {
        RcTabView {
            rcdirval: Seq::empty(),
            mess_color: MsgColor::Black,
            msg_value: "no message"@,
            scrol_value: " nothing to process "@,
        }
    }

    /// The tab at start.
    pub fn new() -> (r: Self)
        ensures
            r@ == Self::new_spec(),
    {
        RcTab {
            rcdirval: String::new(),
            mess_color: MsgColor::Black,
            msg_value: String::from_str("no message"),
            scrol_value: String::from_str(" nothing to process "),
        }
    }

    /// The tab's title.
    pub fn title(&self) -> (r: String)
        ensures
            r@ == "Rotate Correction"@,
    {
        String::from_str("Rotate Correction")
    }

    /// Takes what the tab is told; hands back what it asks next.
    pub fn update(&mut self, message: RcMessage) -> (r: TabRequest)
        ensures
            (final(self)@, r@) == rc_update_spec(old(self)@, message),
    {
        match message {
            RcMessage::Dirupdate(value) => {
                self.rcdirval = value;
                TabRequest::Done
            },
            RcMessage::RotallPressed => {
                self.msg_value = String::from_str("Rotate All Pressed");
                TabRequest::Done
            },
            RcMessage::ListPressed => {
                self.scrol_value = String::from_str(" nothing to process ");
                TabRequest::CheckDir(self.rcdirval.clone())
            },
        }
    }

    /// The answer to `CheckDir`: whether the tab's directory exists.
    pub fn dir_checked(&mut self, exists: bool) -> (r: TabRequest)
        ensures
            (final(self)@, r@) == rc_dir_checked_spec(old(self)@, exists),
    {
        if !exists {
            self.msg_value = missing_dir_text(&self.rcdirval);
            self.mess_color = MsgColor::Red;
            TabRequest::Done
        } else {
            TabRequest::ListRotation(self.rcdirval.clone())
        }
    }

    /// The answer to `ListRotation`: error code, message and listing.
    pub fn listed(&mut self, code: u32, errstr: String, list: String)
        ensures
            final(self)@ == rc_listed_spec(old(self)@, code, errstr@, list@),
    {
        if code == 0 {
            self.scrol_value = list;
            self.msg_value = entries_text(&self.rcdirval);
            self.mess_color = MsgColor::Green;
        } else {
            self.msg_value = errstr;
            self.mess_color = MsgColor::Red;
        }
    }
}

// ---------------------------------------------------------------------
// Convert to 1080
// ---------------------------------------------------------------------
/// The convert tab: its directory, message line, output directory and
/// listing.
pub struct C8Tab {
    pub c8dirval: String,
    pub mess_color: MsgColor,
    pub msg_value: String,
    pub outdir_value: String,
    pub scrol_value: String,
}

/// The view of the convert tab.
pub struct C8TabView {
    pub c8dirval: Seq<char>,
    pub mess_color: MsgColor,
    pub msg_value: Seq<char>,
    pub outdir_value: Seq<char>,
    pub scrol_value: Seq<char>,
}

impl View for C8Tab {
    type V = C8TabView;

    open spec fn view(&self) -> C8TabView {
        C8TabView {
            c8dirval: self.c8dirval@,
            mess_color: self.mess_color,
            msg_value: self.msg_value@,
            outdir_value: self.outdir_value@,
            scrol_value: self.scrol_value@,
        }
    }
}

/// What `C8Tab::update` does to the tab and asks next.
pub open spec fn c8_update_spec(s: C8TabView, m: C8Message) -> (C8TabView, TabRequestView) {
    match m {
        C8Message::Dirupdate(v) => (C8TabView { c8dirval: v@, ..s }, TabRequestView::Done),
        C8Message::CopyPressed(_, _) => (
            C8TabView { msg_value: "Copy Pressed"@, ..s },
            TabRequestView::Done,
        ),
        C8Message::OutDirPressed => (s, TabRequestView::CheckOutDirStart(s.c8dirval)),
        C8Message::ListPressed => (s, TabRequestView::CheckDir(s.c8dirval)),
    }
}

/// What `C8Tab::dir_checked` does to the tab and asks next.
pub open spec fn c8_dir_checked_spec(s: C8TabView, exists: bool) -> (C8TabView, TabRequestView) {
    if exists {
        (s, TabRequestView::ListConvert(s.c8dirval))
    } else {
        (
            C8TabView { msg_value: missing_dir_message(s.c8dirval), mess_color: MsgColor::Red, ..s },
            TabRequestView::Done,
        )
    }
}

/// What `C8Tab::listed` does to the tab.
pub open spec fn c8_listed_spec(s: C8TabView, code: u32, err: Seq<char>, list: Seq<char>) -> C8TabView {
    if code == 0 {
        C8TabView {
            scrol_value: list,
            msg_value: entries_message(s.c8dirval),
            mess_color: MsgColor::Green,
            ..s
        }
    } else {
        C8TabView { msg_value: err, mess_color: MsgColor::Red, ..s }
    }
}

/// What `C8Tab::outdir_checked` does: the dialog opens in the tab's
/// directory where it exists, else in the current output directory.
pub open spec fn c8_outdir_checked_spec(s: C8TabView, exists: bool) -> (C8TabView, TabRequestView) {
    (
        s,
        TabRequestView::PickOutDir(
            if exists {
                s.c8dirval
            } else {
                s.outdir_value
            },
        ),
    )
}

/// What `C8Tab::outdir_picked` does to the tab.
pub open spec fn c8_outdir_picked_spec(s: C8TabView, code: u32, err: Seq<char>, newdir: Seq<char>) -> C8TabView {
    if code == 0 {
        C8TabView { msg_value: err, outdir_value: newdir, mess_color: MsgColor::Green, ..s }
    } else {
        C8TabView { msg_value: err, mess_color: MsgColor::Red, ..s }
    }
}

impl C8Tab {
    /// A new tab: no directory and no output directory selected.
    pub open spec fn new_spec() -> C8TabView {
        C8TabView {
            c8dirval: Seq::empty(),
            mess_color: MsgColor::Black,
            msg_value: "no message"@,
            outdir_value: " No directory selected"@,
            scrol_value: " No directory selected \n "@,
        }
    }

    /// The tab at start.
    pub fn new() -> (r: Self)
        ensures
            r@ == Self::new_spec(),
    {
        C8Tab {
            c8dirval: String::new(),
            outdir_value: String::from_str(" No directory selected"),
            mess_color: MsgColor::Black,
            msg_value: String::from_str("no message"),
            scrol_value: String::from_str(" No directory selected \n "),
        }
    }

    /// The tab's title.
    pub fn title(&self) -> (r: String)
        ensures
            r@ == "Convert to 1080"@,
    {
        String::from_str("Convert to 1080")
    }

    /// Takes what the tab is told; hands back what it asks next.
    pub fn update(&mut self, message: C8Message) -> (r: TabRequest)
        ensures
            (final(self)@, r@) == c8_update_spec(old(self)@, message),
    {
        match message {
            C8Message::Dirupdate(value) => {
                self.c8dirval = value;
                TabRequest::Done
            },
            C8Message::CopyPressed(_outdir, _scrol) => {
                self.msg_value = String::from_str("Copy Pressed");
                TabRequest::Done
            },
            C8Message::OutDirPressed => TabRequest::CheckOutDirStart(self.c8dirval.clone()),
            C8Message::ListPressed => TabRequest::CheckDir(self.c8dirval.clone()),
        }
    }

    /// The answer to `CheckDir`: whether the tab's directory exists.
    pub fn dir_checked(&mut self, exists: bool) -> (r: TabRequest)
        ensures
            (final(self)@, r@) == c8_dir_checked_spec(old(self)@, exists),
    {
        if !exists {
            self.msg_value = missing_dir_text(&self.c8dirval);
            self.mess_color = MsgColor::Red;
            TabRequest::Done
        } else {
            TabRequest::ListConvert(self.c8dirval.clone())
        }
    }

    /// The answer to `ListConvert`: error code, message and listing.
    pub fn listed(&mut self, code: u32, errstr: String, list: String)
        ensures
            final(self)@ == c8_listed_spec(old(self)@, code, errstr@, list@),
    {
        if code == 0 {
            self.scrol_value = list;
            self.msg_value = entries_text(&self.c8dirval);
            self.mess_color = MsgColor::Green;
        } else {
            self.msg_value = errstr;
            self.mess_color = MsgColor::Red;
        }
    }

    /// The answer to `CheckOutDirStart`: whether the tab's directory exists;
    /// the dialog opens there, else from the current output directory.
    pub fn outdir_checked(&mut self, exists: bool) -> (r: TabRequest)
        ensures
            (final(self)@, r@) == c8_outdir_checked_spec(old(self)@, exists),
    {
        if exists {
            TabRequest::PickOutDir(self.c8dirval.clone())
        } else {
            TabRequest::PickOutDir(self.outdir_value.clone())
        }
    }

    /// The answer to `PickOutDir`: error code, message and chosen directory.
    pub fn outdir_picked(&mut self, code: u32, errstr: String, newdir: String)
        ensures
            final(self)@ == c8_outdir_picked_spec(old(self)@, code, errstr@, newdir@),
    {
        self.msg_value = errstr;
        if code == 0 {
            self.outdir_value = newdir;
            self.mess_color = MsgColor::Green;
        } else {
            self.mess_color = MsgColor::Red;
        }
    }
}

// ---------------------------------------------------------------------
// Individual rotation
// ---------------------------------------------------------------------
/// The individual-rotation tab: the title it shows.
pub struct IrsTab {
    pub value: String,
}

impl IrsTab {
    /// The tab at start: its title.
    pub fn new() -> (r: Self)
        ensures
            r.value@ == "Individual rotate start"@,
    {
        IrsTab { value: String::from_str("Individual rotate start") }
    }

    /// The tab's title.
    pub fn title(&self) -> (r: String)
        ensures
            r@ == self.value@,
    {
        self.value.clone()
    }
}

} // verus!
