//! The three ways a batch can fail, and the font files a batch is made of.

use crate::engine::{
    concat, draw_error_text, draw_error_words, font_bytes, font_read_failure, parse_font,
    read_error_text, read_error_words,
};
use skrifa::outline::DrawError;
use skrifa::raw::ReadError;
use skrifa::FontRef;
use vstd::prelude::*;

verus! {

/// The stage at which a font failed.
#[derive(Clone, Copy, Debug, PartialEq, Eq)]
pub enum Stage {
    /// The file could not be read.
    Io,
    /// The bytes are not a font the engine recognises.
    Read,
    /// The engine rejected a glyph's outline.
    Draw,
}

/// A failed batch: the stage, the path of the offending file, and the cause.
#[derive(Debug)]
pub enum CoordinateError {
    /// The file at the path could not be read; the second field is the
    /// reader's message.
    Io(String, String),
    Read(String, ReadError),
    Draw(String, DrawError),
}

/// One font file as the caller found it: its path, and either its bytes or
/// the message of the failed read.
pub struct FontFile {
    pub path: String,
    pub contents: Result<Vec<u8>, String>,
}

impl FontFile {
    /// The bytes of a file that was read.
    pub open spec fn data(self) -> Seq<u8> {
        self.contents->Ok_0@
    }

    /// The stage at which loading this file fails, if it does.
    pub open spec fn load_failure(self) -> Option<Stage> {
        if self.contents is Err {
            Some(Stage::Io)
        } else if font_read_failure(self.data()) is Some {
            Some(Stage::Read)
        } else {
            None
        }
    }

    /// Why loading this file fails, where it does: the reader's message for
    /// an unreadable file, the engine's words for bytes that are no font.
    pub open spec fn load_cause(self) -> Seq<char> {
        if self.contents is Err {
            self.contents->Err_0@
        } else {
            font_read_failure(self.data())->Some_0
        }
    }
}

/// The message text of an error: what happened, to which file, and why.
pub open spec fn context_text(stage: Stage, path: Seq<char>, cause: Seq<char>) -> Seq<char> {
    let what = match stage {
        Stage::Io => "Failed to read font "@,
        Stage::Read => "Failed to parse font "@,
        Stage::Draw => "Failed to extract outlines from "@,
    };
    what + path + ": "@ + cause
}

impl CoordinateError {
    pub open spec fn stage(self) -> Stage {
        match self {
            CoordinateError::Io(..) => Stage::Io,
            CoordinateError::Read(..) => Stage::Read,
            CoordinateError::Draw(..) => Stage::Draw,
        }
    }

    pub open spec fn path(self) -> Seq<char> {
        match self {
            CoordinateError::Io(path, _) => path@,
            CoordinateError::Read(path, _) => path@,
            CoordinateError::Draw(path, _) => path@,
        }
    }

    /// The cause in words: the reader's message, or what the engine's error
    /// displays.
    pub open spec fn cause(self) -> Seq<char> {
        match self {
            CoordinateError::Io(_, message) => message@,
            CoordinateError::Read(_, error) => read_error_words(error),
            CoordinateError::Draw(_, error) => draw_error_words(error),
        }
    }

    /// Whether this error is the one owed for `file` failing at `stage`
    /// because of `cause`: it names the stage, the file's path and the cause.
    pub open spec fn reports(self, file: FontFile, stage: Stage, cause: Seq<char>) -> bool {
        &&& self.stage() == stage
        &&& self.path() == file.path@
        &&& self.cause() == cause
    }

    /// The stage of this error.
    pub fn kind(&self) -> (stage: Stage)
        ensures
            stage == self.stage(),
    {
        match self {
            CoordinateError::Io(..) => Stage::Io,
            CoordinateError::Read(..) => Stage::Read,
            CoordinateError::Draw(..) => Stage::Draw,
        }
    }

    /// The path of the file that failed.
    pub fn file_path(&self) -> (path: &String)
        ensures
            path@ == self.path(),
    {
        match self {
            CoordinateError::Io(path, _) => path,
            CoordinateError::Read(path, _) => path,
            CoordinateError::Draw(path, _) => path,
        }
    }

    /// The message for the caller: what failed, for which file, and why.
    pub fn context(self) -> (message: String)
        ensures
            message@ == context_text(self.stage(), self.path(), self.cause()),
    {
        match self {
            CoordinateError::Io(path, cause) => {
                let text = describe("Failed to read font ", &path, &cause);
                assert(text@ == context_text(self.stage(), self.path(), cause@));
                text
            },
            CoordinateError::Read(path, error) => {
                let cause = read_error_text(&error);
                let text = describe("Failed to parse font ", &path, &cause);
                assert(text@ == context_text(self.stage(), self.path(), cause@));
                text
            },
            CoordinateError::Draw(path, error) => {
                let cause = draw_error_text(&error);
                let text = describe("Failed to extract outlines from ", &path, &cause);
                assert(text@ == context_text(self.stage(), self.path(), cause@));
                text
            },
        }
    }
}

fn describe(what: &str, path: &String, cause: &String) -> (text: String)
    ensures
        text@ == what@ + path@ + ": "@ + cause@,
{
    let named = concat(what, path.as_str());
    let open = concat(named.as_str(), ": ");
    concat(open.as_str(), cause.as_str())
}

/// Opens one font file: an unreadable file fails at the I/O stage, bytes the
/// engine does not recognise fail at the read stage, and anything else gives
/// a font over exactly the file's bytes.
pub fn open_font<'a>(file: &'a FontFile) -> (opened: Result<FontRef<'a>, CoordinateError>)
    ensures
        opened is Ok <==> file.load_failure() is None,
        opened is Ok ==> font_bytes(opened->Ok_0) == file.data(),
        opened is Err ==> opened->Err_0.reports(
            *file,
            file.load_failure()->Some_0,
            file.load_cause(),
        ),
{
    match &file.contents {
        Err(cause) => Err(CoordinateError::Io(file.path.clone(), cause.clone())),
        Ok(data) => match parse_font(data) {
            Ok(font) => Ok(font),
            Err(error) => Err(CoordinateError::Read(file.path.clone(), error)),
        },
    }
}

/// Whether `k` is the first file of `files` that fails to load.
pub open spec fn first_load_failure(files: Seq<FontFile>, k: int) -> bool {
    &&& 0 <= k < files.len()
    &&& files[k].load_failure() is Some
    &&& forall|j: int| 0 <= j < k ==> (#[trigger] files[j]).load_failure() is None
}

/// At most one file is the first that fails to load, so the error of a failed
/// batch is owed to one file only.
pub proof fn lemma_first_load_failure_unique(files: Seq<FontFile>, a: int, b: int)
    requires
        first_load_failure(files, a),
        first_load_failure(files, b),
    ensures
        a == b,
{
    if a < b {
        assert(files[a].load_failure() is None);
    } else if b < a {
        assert(files[b].load_failure() is None);
    }
}

/// Whether every file of `files` loads.
pub open spec fn all_load(files: Seq<FontFile>) -> bool {
    forall|j: int| 0 <= j < files.len() ==> (#[trigger] files[j]).load_failure() is None
}

/// Whether `error` is the one owed for a batch in which some file fails to
/// load: it reports the first such file.
pub open spec fn is_load_error(files: Seq<FontFile>, error: CoordinateError) -> bool {
    exists|k: int| #[trigger]
        first_load_failure(files, k) && error.reports(
            files[k],
            files[k].load_failure()->Some_0,
            files[k].load_cause(),
        )
}

} // verus!
