//! The background runs over a listing: converting each listed file to
//! 1920x1080 into the output directory, or rotating each listed file whose
//! orientation asks for it. The runs read the listing line by line; each line
//! is `<space><name> | orientation: <value>`, as the listings write them.
use vstd::prelude::*;
use crate::model::{Copyx, MsgColor, Rotatex};
use crate::progress::{progress_report, progress_report_spec};
use crate::text::{
    cat, chars_of, decimal, decimal_string, drops_first_byte, drops_first_byte_exec, find, find_in,
    lemma_split_char_nonempty, lemma_find_bound, one_byte_char_after, one_byte_char_at, parse_i32, parse_i32_str,
    split_char, split_on_char, string_of, utf8_len, lemma_one_byte_shift, views,
};

verus! {

// ---------------------------------------------------------------------
// Specifications
// ---------------------------------------------------------------------
/// The views of a list of strings.
pub open spec fn string_views(s: Seq<String>) -> Seq<Seq<char>> {
    s.map_values(|l: String| l@)
}

/// The lines a run goes through: all but what follows the last newline.
pub open spec fn batch_lines_spec(listing: Seq<char>) -> Seq<Seq<char>> {
    split_char(listing, '\n').drop_last()
}

/// The part of a line before its first ` | `.
pub open spec fn first_field(line: Seq<char>) -> Seq<char> {
    match find(line, " | "@) {
        Some(i) => line.take(i),
        None => line,
    }
}

/// The part of a line between its first ` | ` and the next one (or the end).
pub open spec fn second_field(line: Seq<char>) -> Seq<char> {
    let rest = line.skip(find(line, " | "@).unwrap() + 3);
    match find(rest, " | "@) {
        Some(j) => rest.take(j),
        None => rest,
    }
}

/// The file a line names in `dir`: the first field without its first byte.
pub open spec fn source_path_spec(dir: Seq<char>, line: Seq<char>) -> Seq<char> {
    dir + "/"@ + first_field(line).drop_first()
}

/// Where a conversion writes the file a line names: the whole first field,
/// its leading space included, in `outdir`.
pub open spec fn target_path_spec(outdir: Seq<char>, line: Seq<char>) -> Seq<char> {
    outdir + "/"@ + first_field(line)
}

/// The one-byte character 13 bytes after the start of the first
/// `orientation` in `field`, when there is such a word.
pub open spec fn orientation_mark(field: Seq<char>) -> Option<Option<char>> {
    match find(field, "orientation"@) {
        None => None,
        Some(k) => Some(one_byte_char_at(field, (utf8_len(field.take(k)) + 13) as int)),
    }
}

/// Whether the orientation of a line's second field can be read: where the
/// word `orientation` occurs, 13 bytes after it start a one-byte character.
pub open spec fn orientation_readable(field: Seq<char>) -> bool {
    !(orientation_mark(field) matches Some(None))
}

/// Whether a second field asks for a rotation: the character after the word
/// `orientation`, read as a number (`-99` where it is none), is 3, 6 or 8.
pub open spec fn wants_rotation(field: Seq<char>) -> bool {
    match orientation_mark(field) {
        Some(Some(c)) => {
            let v: int = match parse_i32(seq![c]) {
                Some(v) => v as int,
                None => -99,
            };
            v > 0 && (v == 3 || v == 6 || v == 8)
        },
        _ => false,
    }
}

/// The message of a run that stops at a listed file that is not there.
pub open spec fn missing_message(path: Seq<char>) -> Seq<char> {
    "********* convert Copy: ERROR "@ + path + " does not exist **********"@
}

/// The message of a conversion that stops where its target is already there.
pub open spec fn exists_message(path: Seq<char>) -> Seq<char> {
    "********* convert Copy: ERROR "@ + path + " already exists **********"@
}

/// How a listed file is processed.
pub enum Launch {
    /// The run ends here (its failure says why).
    Stop,
    /// Nothing is done for this file.
    Skip,
    /// The external program is started for this file: in the background, or
    /// (`wait`) waited for, after which `report` is sent to the screen.
    Run { wait: bool, report: Option<String> },
}

/// The state of a run: how many lines it goes through, how many files it has
/// handled, how many programs it has started in the background since it
/// last waited for one, and why it stopped, if it did.
pub struct BatchRun {
    pub total: usize,
    pub numrow: usize,
    pub numprocess: usize,
    pub failure: Option<String>,
}

/// The launch that comes after `numprocess` background starts, with the
/// report that would name `numrow` of `total`.
pub open spec fn paced(numprocess: usize, numrow: usize, total: usize, r: Launch) -> bool {
    if numprocess < 4 {
        r matches Launch::Run { wait: false, report: None }
    } else {
        r matches Launch::Run { wait: true, report: Some(s) } && s@ == progress_report_spec(
            numrow as nat,
            total as nat,
        )
    }
}

/// The count of background starts after the next launch.
pub open spec fn next_numprocess(numprocess: usize) -> usize {
    if numprocess < 4 {
        (numprocess + 1) as usize
    } else {
        0
    }
}

/// The message a finished conversion run leaves.
pub open spec fn copy_done_message(total: nat, secs: nat) -> Seq<char> {
    "converted copied "@ + decimal(total) + " files in "@ + decimal(secs) + " seconds"@
}

/// The message a finished rotation run leaves.
pub open spec fn rotate_done_message(total: nat, secs: nat) -> Seq<char> {
    "rotated "@ + decimal(total) + " files in "@ + decimal(secs) + " seconds"@
}

// ---------------------------------------------------------------------
// Executable functions
// ---------------------------------------------------------------------
/// The lines a run goes through.
pub fn batch_lines(listing: &str) -> (r: Vec<String>)
    ensures
        string_views(r@) == batch_lines_spec(listing@),
{
    let cs = chars_of(listing);
    let pieces = split_on_char(&cs, '\n');
    proof {
        lemma_split_char_nonempty(listing@, '\n');
    }
    let n = pieces.len() - 1;
    let mut r: Vec<String> = Vec::new();
    let mut i: usize = 0;
    while i < n
        invariant
            n == pieces.len() - 1,
            i <= n,
            r.len() == i,
            views(pieces@) == split_char(listing@, '\n'),
            string_views(r@) == batch_lines_spec(listing@).take(i as int),
        decreases n - i,
    {
        let s = string_of(&pieces[i]);
        let ghost prev = r@;
        r.push(s);
        proof {
            assert(pieces@[i as int]@ == views(pieces@)[i as int]);
            assert(r@ == prev.push(r@[i as int]));
            assert(r@[i as int]@ == pieces@[i as int]@);
            assert(string_views(r@) =~= string_views(prev).push(r@[i as int]@));
            assert(string_views(r@) =~= batch_lines_spec(listing@).take(i + 1));
        }
        i = i + 1;
    }
    proof {
        assert(batch_lines_spec(listing@).take(n as int) =~= batch_lines_spec(listing@));
    }
    r
}

/// The field separator of a listing line.
fn separator() -> (r: Vec<char>)
    ensures
        r@ == " | "@,
{
    chars_of(" | ")
}

/// The part of a line before its first ` | `.
pub fn first_field_of(line: &Vec<char>) -> (r: Vec<char>)
    ensures
        r@ == first_field(line@),
{
    let sep = separator();
    match find_in(line, &sep) {
        Some(i) => {
            let mut r: Vec<char> = Vec::new();
            let mut k: usize = 0;
            proof {
                assert(i <= line.len()) by {
                    lemma_find_bound(line@, " | "@);
                }
            }
            while k < i
                invariant
                    k <= i <= line.len(),
                    r@ == line@.take(k as int),
                decreases i - k,
            {
                r.push(line[k]);
                proof {
                    assert(line@.take(k + 1) =~= line@.take(k as int).push(line@[k as int]));
                }
                k = k + 1;
            }
            r
        },
        None => line.clone(),
    }
}

/// The characters of `v` from position `from` on.
fn skip_vec(v: &Vec<char>, from: usize) -> (r: Vec<char>)
    requires
        from <= v.len(),
    ensures
        r@ == v@.skip(from as int),
{
    let mut r: Vec<char> = Vec::new();
    let mut k: usize = from;
    while k < v.len()
        invariant
            from <= k <= v.len(),
            r@ == v@.subrange(from as int, k as int),
        decreases v.len() - k,
    {
        r.push(v[k]);
        proof {
            assert(v@.subrange(from as int, k + 1) =~= v@.subrange(from as int, k as int).push(v@[k as int]));
        }
        k = k + 1;
    }
    proof {
        assert(v@.subrange(from as int, v.len() as int) =~= v@.skip(from as int));
    }
    r
}

/// The part of a line between its first ` | ` and the next one.
pub fn second_field_of(line: &Vec<char>) -> (r: Vec<char>)
    requires
        find(line@, " | "@) is Some,
    ensures
        r@ == second_field(line@),
{
    let sep = separator();
    let found = find_in(line, &sep);
    let i = found.unwrap();
    proof {
        reveal_strlit(" | ");
        assert(" | "@.len() == 3);
        assert(find(line@, " | "@) == Some(i as int));
        lemma_find_bound(line@, " | "@);
        assert(i + 3 <= line.len());
    }
    let rest = skip_vec(line, i + 3);
    first_field_of(&rest)
}

/// The file a line names in `dir`.
pub fn source_path(dir: &str, line: &str) -> (r: String)
    requires
        drops_first_byte(first_field(line@)),
    ensures
        r@ == source_path_spec(dir@, line@),
{
    let f = first_field_of(&chars_of(line));
    let name = skip_vec(&f, 1);
    proof {
        assert(f@.skip(1) =~= f@.drop_first());
    }
    let s = cat(string_of(&chars_of(dir)), "/");
    cat(s, string_of(&name).as_str())
}

/// Where a conversion writes the file a line names.
pub fn target_path(outdir: &str, line: &str) -> (r: String)
    ensures
        r@ == target_path_spec(outdir@, line@),
{
    let f = first_field_of(&chars_of(line));
    let s = cat(string_of(&chars_of(outdir)), "/");
    cat(s, string_of(&f).as_str())
}

/// Whether `s[1..]` is a slice, for the first field of a line.
pub fn line_names_file(line: &str) -> (r: bool)
    ensures
        r == drops_first_byte(first_field(line@)),
{
    drops_first_byte_exec(&first_field_of(&chars_of(line)))
}

/// Whether a line has a second field whose orientation can be read.
pub fn line_orientation_readable(line: &str) -> (r: bool)
    ensures
        r == (find(line@, " | "@) is Some && orientation_readable(second_field(line@))),
{
    let cs = chars_of(line);
    let sep = separator();
    if find_in(&cs, &sep).is_none() {
        return false;
    }
    let f = second_field_of(&cs);
    match orientation_mark_of(&f) {
        Some(None) => false,
        _ => true,
    }
}

/// The character that `orientation_mark` picks out of a field.
fn orientation_mark_of(field: &Vec<char>) -> (r: Option<Option<char>>)
    ensures
        r == orientation_mark(field@),
{
    let word = chars_of("orientation");
    match find_in(field, &word) {
        None => None,
        Some(k) => {
            proof {
                lemma_find_bound(field@, "orientation"@);
                lemma_one_byte_shift(field@, k as int, 13);
            }
            Some(one_byte_char_after(field, k, 13))
        },
    }
}

/// Whether a line asks for a rotation.
pub fn rotation_wanted(line: &str) -> (r: bool)
    requires
        find(line@, " | "@) is Some,
    ensures
        r == wants_rotation(second_field(line@)),
{
    let cs = chars_of(line);
    let f = second_field_of(&cs);
    match orientation_mark_of(&f) {
        Some(Some(c)) => {
            let mut one: Vec<char> = Vec::new();
            one.push(c);
            proof {
                assert(one@ =~= seq![c]);
            }
            let v: i32 = match parse_i32_str(string_of(&one).as_str()) {
                Some(v) => v,
                None => -99,
            };
            v > 0 && (v == 3 || v == 6 || v == 8)
        },
        _ => false,
    }
}

/// The message for a listed file that is not there.
fn missing(path: &String) -> (r: String)
    ensures
        r@ == missing_message(path@),
{
    let s = cat(String::from_str("********* convert Copy: ERROR "), path.as_str());
    cat(s, " does not exist **********")
}

/// The message for a conversion target that is already there.
fn already_there(path: &String) -> (r: String)
    ensures
        r@ == exists_message(path@),
{
    let s = cat(String::from_str("********* convert Copy: ERROR "), path.as_str());
    cat(s, " already exists **********")
}

impl BatchRun {
    /// A run over `total` lines that has not started.
    pub fn new(total: usize) -> (r: BatchRun)
        ensures
            r.total == total,
            r.numrow == 0,
            r.numprocess == 0,
            r.failure is None,
    {
        BatchRun { total, numrow: 0, numprocess: 0, failure: None }
    }

    /// The launch for the next file: in the background for the first four,
    /// then one waited for with a progress report, and so on.
    fn pace(&mut self) -> (r: Launch)
        requires
            old(self).numrow <= old(self).total,
        ensures
            paced(old(self).numprocess, old(self).numrow, old(self).total, r),
            final(self).numprocess == next_numprocess(old(self).numprocess),
            final(self).numrow == old(self).numrow,
            final(self).total == old(self).total,
            final(self).failure == old(self).failure,
    {
        if self.numprocess < 4 {
            self.numprocess = self.numprocess + 1;
            Launch::Run { wait: false, report: None }
        } else {
            self.numprocess = 0;
            Launch::Run { wait: true, report: Some(progress_report(self.numrow, self.total)) }
        }
    }

    /// What a conversion run does with its next line, whose source and
    /// target paths are `from` and `to`, given whether they exist.
    pub fn copy_step(&mut self, from: &String, to: &String, from_exists: bool, to_exists: bool) -> (r:
        Launch)
        requires
            old(self).numrow < old(self).total,
        ensures
            final(self).total == old(self).total,
            !from_exists ==> {
                &&& r is Stop
                &&& final(self).failure matches Some(m) && m@ == missing_message(from@)
                &&& final(self).numrow == old(self).numrow
                &&& final(self).numprocess == old(self).numprocess
            },
            from_exists && to_exists ==> {
                &&& r is Stop
                &&& final(self).failure matches Some(m) && m@ == exists_message(to@)
                &&& final(self).numrow == old(self).numrow
                &&& final(self).numprocess == old(self).numprocess
            },
            from_exists && !to_exists ==> {
                &&& paced(old(self).numprocess, old(self).numrow, old(self).total, r)
                &&& final(self).numprocess == next_numprocess(old(self).numprocess)
                &&& final(self).numrow == old(self).numrow + 1
                &&& final(self).failure == old(self).failure
            },
    {
        if !from_exists {
            self.failure = Some(missing(from));
            return Launch::Stop;
        }
        if to_exists {
            self.failure = Some(already_there(to));
            return Launch::Stop;
        }
        let r = self.pace();
        self.numrow = self.numrow + 1;
        r
    }

    /// What a rotation run does with its next line, whose source path is
    /// `from`, given whether it exists.
    pub fn rotate_step(&mut self, line: &str, from: &String, from_exists: bool) -> (r: Launch)
        requires
            old(self).numrow < old(self).total,
            from_exists ==> find(line@, " | "@) is Some && orientation_readable(second_field(line@)),
        ensures
            final(self).total == old(self).total,
            !from_exists ==> {
                &&& r is Stop
                &&& final(self).failure matches Some(m) && m@ == missing_message(from@)
                &&& final(self).numrow == old(self).numrow
                &&& final(self).numprocess == old(self).numprocess
            },
            from_exists && !wants_rotation(second_field(line@)) ==> {
                &&& r is Skip
                &&& *final(self) == *old(self)
            },
            from_exists && wants_rotation(second_field(line@)) ==> {
                &&& paced(old(self).numprocess, (old(self).numrow + 1) as usize, old(self).total, r)
                &&& final(self).numprocess == next_numprocess(old(self).numprocess)
                &&& final(self).numrow == old(self).numrow + 1
                &&& final(self).failure == old(self).failure
            },
    {
        if !from_exists {
            self.failure = Some(missing(from));
            return Launch::Stop;
        }
        if !rotation_wanted(line) {
            return Launch::Skip;
        }
        self.numrow = self.numrow + 1;
        self.pace()
    }

    /// `verb`, then the run's line count and its duration.
    fn done_message(&self, verb: &str, secs: u64) -> (r: String)
        ensures
            r@ == verb@ + decimal(self.total as nat) + " files in "@ + decimal(secs as nat)
                + " seconds"@,
    {
        let s = cat(String::from_str(verb), decimal_string(self.total as u64).as_str());
        let s = cat(s, " files in ");
        let s = cat(s, decimal_string(secs).as_str());
        cat(s, " seconds")
    }

    /// What a conversion run reports after `secs` seconds: its failure in
    /// red, or its count in `ok`.
    pub fn copy_outcome(&self, secs: u64, ok: MsgColor) -> (r: Copyx)
        ensures
            match self.failure {
                Some(m) => r.errcolor == MsgColor::Red && r.errval@ == m@,
                None => r.errcolor == ok && r.errval@ == copy_done_message(self.total as nat, secs as nat),
            },
    {
        match &self.failure {
            Some(m) => Copyx { errcolor: MsgColor::Red, errval: m.clone() },
            None => Copyx { errcolor: ok, errval: self.done_message("converted copied ", secs) },
        }
    }

    /// What a rotation run reports after `secs` seconds: its failure in red,
    /// or its count in `ok`.
    pub fn rotate_outcome(&self, secs: u64, ok: MsgColor) -> (r: Rotatex)
        ensures
            match self.failure {
                Some(m) => r.errcolor == MsgColor::Red && r.errval@ == m@,
                None => r.errcolor == ok && r.errval@ == rotate_done_message(self.total as nat, secs as nat),
            },
    {
        match &self.failure {
            Some(m) => Rotatex { errcolor: MsgColor::Red, errval: m.clone() },
            None => Rotatex { errcolor: ok, errval: self.done_message("rotated ", secs) },
        }
    }
}

} // verus!
