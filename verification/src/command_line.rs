//! What the command line asked this viewer to do.
//!
//! Two commands, not a command with options: `--solver-info` answers a
//! question about the build and opens nothing, and a document opens a window.
//! Nothing takes both.
use vstd::prelude::*;
use vstd::string::{StrSliceExecFns, StringExecFns};

use crate::words::text;

verus! {

/// The name of the diagnostic command, spelled once.
pub const SOLVER_INFO: &'static str = "--solver-info";

/// How this viewer is used, said to whoever typed something else.
pub const USAGE: &'static str = "usage: ferritecad-viewer <file.fcad>, or ferritecad-viewer --solver-info";

/// What the command line asked this binary to do.
#[derive(Debug, Clone, PartialEq, Eq)]
pub enum Request {
    /// Open this document in a window.
    Document(String),
    /// Say which sketch solver this build has, and exit.
    SolverInfo,
}

/// A command line this viewer cannot act on, and what to tell its author.
#[derive(Debug, Clone, PartialEq, Eq)]
pub struct InputError {
    pub message: String,
}

impl InputError {
    /// What went wrong, in the words a person reads.
    pub fn message(&self) -> (said: String)
        ensures
            said@ == self.message@,
    {
        self.message.clone()
    }
}

/// What a [`Request`] asks for, for contracts.
pub enum RequestModel {
    Document(Seq<char>),
    SolverInfo,
}

/// Whether a word looks like an option rather than a file: it begins with a
/// dash.
pub open spec fn looks_like_an_option(word: Seq<char>) -> bool {
    word.len() > 0 && word[0] == '-'
}

/// The one document a command line names, or why it names none.
///
/// One argument and no options: a viewer that guessed which of several files
/// was meant would be doing something the user did not ask for, and a word
/// that looks like an option is a question about how to use this rather than
/// a file to open.
pub open spec fn document_of(arguments: Seq<Seq<char>>) -> Result<Seq<char>, Seq<char>> {
    if arguments.len() == 0 {
        Err(USAGE@)
    } else if arguments.len() > 1 {
        Err(USAGE@ + "; one document at a time"@)
    } else if looks_like_an_option(arguments[0]) {
        Err(USAGE@)
    } else {
        Ok(arguments[0])
    }
}

/// Which of the two commands a command line is, or why it is neither.
///
/// `--solver-info` is recognised only as the whole command and only first:
/// a line that names both a document and the flag has asked for two things.
pub open spec fn request_of(arguments: Seq<Seq<char>>) -> Result<RequestModel, Seq<char>> {
    if arguments.len() > 0 && arguments[0] == SOLVER_INFO@ {
        if arguments.len() > 1 {
            Err(USAGE@ + "; "@ + SOLVER_INFO@ + " takes no arguments"@)
        } else {
            Ok(RequestModel::SolverInfo)
        }
    } else {
        match document_of(arguments) {
            Ok(path) => Ok(RequestModel::Document(path)),
            Err(message) => Err(message),
        }
    }
}

/// The words of a command line.
pub open spec fn words_of(arguments: Vec<String>) -> Seq<Seq<char>> {
    arguments@.map_values(|word: String| word@)
}

/// What an answer about a document says, for contracts.
pub open spec fn document_answer(answer: Result<String, InputError>) -> Result<Seq<char>, Seq<char>> {
    match answer {
        Ok(path) => Ok(path@),
        Err(error) => Err(error.message@),
    }
}

/// What an answer about a request says, for contracts.
pub open spec fn request_answer(answer: Result<Request, InputError>) -> Result<RequestModel, Seq<char>> {
    match answer {
        Ok(Request::Document(path)) => Ok(RequestModel::Document(path@)),
        Ok(Request::SolverInfo) => Ok(RequestModel::SolverInfo),
        Err(error) => Err(error.message@),
    }
}

fn refused(message: String) -> (answer: Result<String, InputError>)
    ensures
        document_answer(answer) == Err::<Seq<char>, Seq<char>>(message@),
{
    Err(InputError { message })
}

/// Whether two texts are the same, character for character.
fn same_text(a: &str, b: &str) -> (same: bool)
    ensures
        same == (a@ == b@),
{
    let length = a.unicode_len();
    if length != b.unicode_len() {
        return false;
    }
    let mut index: usize = 0;
    while index < length
        invariant
            length == a@.len(),
            length == b@.len(),
            index <= length,
            forall|i: int| 0 <= i < index ==> a@[i] == b@[i],
        decreases length - index,
    {
        if a.get_char(index) != b.get_char(index) {
            return false;
        }
        index = index + 1;
    }
    proof {
        assert(a@ =~= b@);
    }
    true
}

/// The document to look at, from the command line.
pub fn document_argument(arguments: &Vec<String>) -> (document: Result<String, InputError>)
    ensures
        document_answer(document) == document_of(words_of(*arguments)),
{
    if arguments.len() == 0 {
        return refused(text(USAGE));
    }
    if arguments.len() > 1 {
        let mut message = text(USAGE);
        message.append("; one document at a time");
        return refused(message);
    }
    let path = &arguments[0];
    // There are no options, so anything that looks like one is a question
    // about how to use this rather than a file to open.
    if path.as_str().unicode_len() > 0 && path.as_str().get_char(0) == '-' {
        return refused(text(USAGE));
    }
    Ok(path.clone())
}

/// Which of the two commands was typed.
pub fn request(arguments: &Vec<String>) -> (requested: Result<Request, InputError>)
    ensures
        request_answer(requested) == request_of(words_of(*arguments)),
{
    if arguments.len() > 0 {
        if same_text(arguments[0].as_str(), SOLVER_INFO) {
            if arguments.len() > 1 {
                let mut message = text(USAGE);
                message.append("; ");
                message.append(SOLVER_INFO);
                message.append(" takes no arguments");
                return Err(InputError { message });
            }
            return Ok(Request::SolverInfo);
        }
    }
    match document_argument(arguments) {
        Ok(path) => Ok(Request::Document(path)),
        Err(error) => Err(error),
    }
}

/// One argument that does not begin with a dash, and is not the diagnostic
/// command, is the document to open, exactly as it was typed; no argument,
/// or more than one, is refused.
pub proof fn one_plain_argument_is_the_document(arguments: Seq<Seq<char>>)
    ensures
        arguments.len() == 1 && !(arguments[0].len() > 0 && arguments[0][0] == '-') ==> document_of(
            arguments,
        ) == Ok::<Seq<char>, Seq<char>>(arguments[0]),
        arguments.len() == 1 && !(arguments[0].len() > 0 && arguments[0][0] == '-')
            && arguments[0] != SOLVER_INFO@ ==> (request_of(arguments) matches Ok(
            RequestModel::Document(path),
        ) && path == arguments[0]),
        arguments.len() != 1 ==> document_of(arguments) is Err,
        arguments.len() == 1 && arguments[0].len() > 0 && arguments[0][0] == '-' ==> document_of(
            arguments,
        ) is Err,
{
}

/// The diagnostic command alone is that command, and with anything after it
/// is refused.
pub proof fn the_diagnostic_command_stands_alone(arguments: Seq<Seq<char>>)
    requires
        arguments.len() >= 1,
        arguments[0] == SOLVER_INFO@,
    ensures
        arguments.len() == 1 ==> request_of(arguments) matches Ok(RequestModel::SolverInfo),
        arguments.len() > 1 ==> request_of(arguments) is Err,
{
}

} // verus!
