//! The document session: the buffer, its edit counter, the counter value of
//! the last save that was started, and word-count metrics.

use unicode_segmentation::UnicodeSegmentation;
use vstd::prelude::*;

verus! {

/// `std::io::ErrorKind`, carried through as an opaque value.
#[verifier::external_type_specification]
#[verifier::external_body]
pub struct ExErrorKind(std::io::ErrorKind);

/// The number of words that Unicode word segmentation finds in a text.
pub uninterp spec fn unicode_word_count(s: Seq<char>) -> nat;

/// Relies on `UnicodeSegmentation::unicode_words` (unicode-segmentation),
/// counted: the number of words depends on the characters alone.
#[verifier::external_body]
fn count_words(s: &str) -> (r: usize)
    ensures
        r == unicode_word_count(s@),
{
    s.unicode_words().count()
}

/// Relies on `String::push`: the character is appended at the end.
#[verifier::external_body]
fn push_char(s: &mut String, c: char)
    ensures
        final(s)@ == old(s)@.push(c),
{
    s.push(c)
}

/// Relies on `String::pop`: the last character is removed and returned, and
/// an empty string is left as it is.
#[verifier::external_body]
fn pop_char(s: &mut String) -> (r: Option<char>)
    ensures
        old(s)@.len() == 0 ==> r is None && final(s)@ == old(s)@,
        old(s)@.len() > 0 ==> r == Some(old(s)@.last()) && final(s)@ == old(s)@.drop_last(),
{
    s.pop()
}

/// A point in the edit history of a session.
#[derive(Debug, Clone, Copy, PartialEq, Eq, Structural)]
pub struct Version(pub u64);

/// The one error kind: an I/O operation failed, with the OS classification.
#[derive(Debug, Clone, Copy)]
pub enum Error {
    IOFailed(std::io::ErrorKind),
}

/// One open document and its edit and persistence bookkeeping.
#[derive(Debug, Clone, PartialEq, Eq)]
pub struct Writing {
    filepath: String,
    content: String,
    version: Version,
    last_save: Version,
    baseline_word_count: u64,
}

/// The mathematical model of a session.
pub struct WritingView {
    pub filepath: Seq<char>,
    pub content: Seq<char>,
    pub version: nat,
    pub last_save: nat,
    pub baseline_word_count: nat,
}

/// What a save writes: the target, the buffer, and the version it records.
#[derive(Debug, Clone, PartialEq, Eq)]
pub struct SaveRequest {
    pub filepath: String,
    pub content: String,
    pub version: Version,
}

/// The model of `SaveRequest`.
pub struct SaveRequestView {
    pub filepath: Seq<char>,
    pub content: Seq<char>,
    pub version: nat,
}

impl View for SaveRequest {
    type V = SaveRequestView;

    open spec fn view(&self) -> SaveRequestView {
        SaveRequestView {
            filepath: self.filepath@,
            content: self.content@,
            version: self.version.0 as nat,
        }
    }
}

/// One edit intent: append a character, or remove the last one.
pub enum EditIntent {
    Write(char),
    Amend,
}

impl WritingView {
    /// The counters fit the machine, and no save was started for a version
    /// that does not exist yet.
    pub open spec fn wf(self) -> bool {
        self.last_save <= self.version <= u64::MAX
    }

    pub open spec fn is_dirty(self) -> bool {
        self.version != self.last_save
    }

    pub open spec fn word_count(self) -> nat {
        unicode_word_count(self.content)
    }

    pub open spec fn word_count_difference(self) -> int {
        self.word_count() - self.baseline_word_count
    }

    /// The session after appending `c`.
    pub open spec fn written(self, c: char) -> WritingView {
        WritingView { content: self.content.push(c), version: self.version + 1, ..self }
    }

    /// The session after removing the last character, if any.
    pub open spec fn amended(self) -> WritingView {
        WritingView {
            content: if self.content.len() == 0 {
                self.content
            } else {
                self.content.drop_last()
            },
            version: self.version + 1,
            ..self
        }
    }

    /// The session after one edit intent.
    pub open spec fn edited(self, e: EditIntent) -> WritingView {
        match e {
            EditIntent::Write(c) => self.written(c),
            EditIntent::Amend => self.amended(),
        }
    }

    /// The session after a sequence of edit intents, in order.
    pub open spec fn edited_all(self, es: Seq<EditIntent>) -> WritingView
        decreases es.len(),
    {
        if es.len() == 0 {
            self
        } else {
            self.edited_all(es.drop_last()).edited(es.last())
        }
    }

    /// The session once a save has been started.
    pub open spec fn saved(self) -> WritingView {
        WritingView { last_save: self.version, ..self }
    }

    /// What a save started now writes.
    pub open spec fn snapshot(self) -> SaveRequestView {
        SaveRequestView { filepath: self.filepath, content: self.content, version: self.version }
    }
}

/// A freshly loaded session: counters at zero, the baseline word count taken
/// from `content`.
pub open spec fn fresh(filepath: Seq<char>, content: Seq<char>) -> WritingView {
    WritingView {
        filepath,
        content,
        version: 0,
        last_save: 0,
        baseline_word_count: unicode_word_count(content),
    }
}

/// A session created for a new file: empty, and dirty from the start so
/// that the file gets written.
pub open spec fn created(filepath: Seq<char>) -> WritingView {
    WritingView {
        filepath,
        content: Seq::empty(),
        version: 1,
        last_save: 0,
        baseline_word_count: 0,
    }
}

/// What loading gives for the outcome of reading the file: `Ok(None)` is a
/// file that does not exist, which starts an empty document.
pub open spec fn load_result(
    filepath: Seq<char>,
    read: Result<Option<Seq<char>>, std::io::ErrorKind>,
) -> Result<WritingView, Error> {
    match read {
        Ok(Some(content)) => Ok(fresh(filepath, content)),
        Ok(None) => Ok(fresh(filepath, Seq::empty())),
        Err(kind) => Err(Error::IOFailed(kind)),
    }
}

/// The model of the outcome of reading a file.
pub open spec fn read_view(read: Result<Option<String>, std::io::ErrorKind>) -> Result<
    Option<Seq<char>>,
    std::io::ErrorKind,
> {
    match read {
        Ok(Some(s)) => Ok(Some(s@)),
        Ok(None) => Ok(None),
        Err(k) => Err(k),
    }
}

/// The model of the result of a load.
pub open spec fn result_view(r: Result<Writing, Error>) -> Result<WritingView, Error> {
    match r {
        Ok(w) => Ok(w@),
        Err(e) => Err(e),
    }
}

/// Every edit intent advances the version by exactly one, whatever it does
/// to the buffer: a removal from an empty buffer counts too.
pub proof fn lemma_version_counts_edits(w: WritingView, es: Seq<EditIntent>)
    ensures
        w.edited_all(es).version == w.version + es.len(),
        w.edited_all(es).last_save == w.last_save,
        w.edited_all(es).filepath == w.filepath,
        w.edited_all(es).baseline_word_count == w.baseline_word_count,
    decreases es.len(),
{
    if es.len() > 0 {
        lemma_version_counts_edits(w, es.drop_last());
    }
}

/// After load, the version equals the number of edit intents applied since.
pub proof fn lemma_loaded_version_is_edit_count(
    filepath: Seq<char>,
    content: Seq<char>,
    es: Seq<EditIntent>,
)
    ensures
        fresh(filepath, content).edited_all(es).version == es.len(),
{
    lemma_version_counts_edits(fresh(filepath, content), es);
}

/// A session is clean right after load and right after a save is started,
/// and dirty after any edit intent that follows either.
pub proof fn lemma_dirty_exactly_after_edits(w: WritingView, es: Seq<EditIntent>)
    requires
        w.wf(),
    ensures
        !w.saved().is_dirty(),
        es.len() == 0 ==> w.saved().edited_all(es) == w.saved(),
        es.len() > 0 ==> w.saved().edited_all(es).is_dirty(),
        es.len() > 0 ==> w.edited_all(es).is_dirty(),
        forall|p: Seq<char>, c: Seq<char>| !(#[trigger] fresh(p, c)).is_dirty(),
{
    lemma_version_counts_edits(w, es);
    lemma_version_counts_edits(w.saved(), es);
}

/// Round trip: loading what a save wrote gives back the buffer on the same
/// path, as a clean session.
pub proof fn lemma_save_load_round_trip(w: WritingView)
    ensures
        ({
            let req = w.snapshot();
            let r = load_result(req.filepath, Ok(Some(req.content)));
            &&& r is Ok
            &&& r->Ok_0.content == w.content
            &&& r->Ok_0.filepath == w.filepath
            &&& !r->Ok_0.is_dirty()
        }),
{
}

/// A file that does not exist loads as an empty document, not as an error.
pub proof fn lemma_missing_file_loads_empty(filepath: Seq<char>)
    ensures
        load_result(filepath, Ok(None)) is Ok,
        load_result(filepath, Ok(None))->Ok_0.content.len() == 0,
{
}

impl View for Writing {
    type V = WritingView;

    closed spec fn view(&self) -> WritingView {
        WritingView {
            filepath: self.filepath@,
            content: self.content@,
            version: self.version.0 as nat,
            last_save: self.last_save.0 as nat,
            baseline_word_count: self.baseline_word_count as nat,
        }
    }
}

impl Writing {
    /// Starts a session on `filepath` from the outcome of reading it: the
    /// text, `None` where the file does not exist (an empty document), or the
    /// kind of I/O failure, which is the error.
    pub fn load(filepath: String, read: Result<Option<String>, std::io::ErrorKind>) -> (r: Result<
        Writing,
        Error,
    >)
        ensures
            result_view(r) == load_result(filepath@, read_view(read)),
            r matches Ok(w) ==> w@.wf() && !w@.is_dirty(),
    {
        let content = match read {
            Ok(Some(text)) => text,
            Ok(None) => String::new(),
            Err(kind) => {
                return Err(Error::IOFailed(kind));
            },
        };
        let baseline_word_count = count_words(content.as_str()) as u64;
        Ok(Writing {
            filepath,
            content,
            version: Version(0),
            last_save: Version(0),
            baseline_word_count,
        })
    }

    /// Creates an empty session for a new file at `filepath`, already dirty.
    pub fn create(filepath: String) -> (r: Writing)
        ensures
            r@ == created(filepath@),
            r@.wf(),
            r@.is_dirty(),
    {
        Writing {
            filepath,
            content: String::new(),
            version: Version(1),
            last_save: Version(0),
            baseline_word_count: 0,
        }
    }

    /// Starts a save: records the current version as saved and returns what
    /// is to be written.
    pub fn save(&mut self) -> (r: SaveRequest)
        requires
            old(self)@.wf(),
        ensures
            final(self)@ == old(self)@.saved(),
            r@ == old(self)@.snapshot(),
            final(self)@.wf(),
            !final(self)@.is_dirty(),
    {
        self.last_save = self.version;
        SaveRequest {
            filepath: self.filepath.clone(),
            content: self.content.clone(),
            version: self.version,
        }
    }

    pub fn filepath(&self) -> (r: &str)
        ensures
            r@ == self@.filepath,
    {
        self.filepath.as_str()
    }

    pub fn content(&self) -> (r: &str)
        ensures
            r@ == self@.content,
    {
        self.content.as_str()
    }

    pub fn version(&self) -> (r: Version)
        ensures
            r.0 == self@.version,
    {
        self.version
    }

    pub fn is_dirty(&self) -> (r: bool)
        ensures
            r == self@.is_dirty(),
    {
        self.version.0 != self.last_save.0
    }

    pub fn word_count(&self) -> (r: u64)
        ensures
            r == self@.word_count(),
    {
        count_words(self.content.as_str()) as u64
    }

    /// The word count now less the word count at load time. Both must fit
    /// an `i64`; `checked_word_count_difference` makes that test itself.
    pub fn word_count_difference(&self) -> (r: i64)
        requires
            self@.word_count() <= i64::MAX,
            self@.baseline_word_count <= i64::MAX,
        ensures
            r == self@.word_count_difference(),
    {
        self.word_count() as i64 - self.baseline_word_count as i64
    }

    /// The word-count delta, or `None` where a count does not fit an `i64`.
    pub fn checked_word_count_difference(&self) -> (r: Option<i64>)
        ensures
            r == (if self@.word_count() <= i64::MAX && self@.baseline_word_count <= i64::MAX {
                Some(self@.word_count_difference() as i64)
            } else {
                None::<i64>
            }),
    {
        let count = self.word_count();
        if count <= i64::MAX as u64 && self.baseline_word_count <= i64::MAX as u64 {
            Some(self.word_count_difference())
        } else {
            None
        }
    }

    /// Appends `character` and advances the version.
    pub fn write(&mut self, character: char)
        requires
            old(self)@.wf(),
            old(self)@.version < u64::MAX,
        ensures
            final(self)@ == old(self)@.written(character),
            final(self)@.wf(),
            final(self)@.is_dirty(),
    {
        push_char(&mut self.content, character);
        self.version = Version(self.version.0 + 1);
    }

    /// Removes the last character, if there is one, and advances the version
    /// either way.
    pub fn amend(&mut self)
        requires
            old(self)@.wf(),
            old(self)@.version < u64::MAX,
        ensures
            final(self)@ == old(self)@.amended(),
            final(self)@.wf(),
            final(self)@.is_dirty(),
    {
        let _ = pop_char(&mut self.content);
        self.version = Version(self.version.0 + 1);
    }

    /// Whether one more edit can advance the version counter.
    pub fn has_room_for_edit(&self) -> (r: bool)
        ensures
            r == (self@.version < u64::MAX),
    {
        self.version.0 < u64::MAX
    }
}

} // verus!
