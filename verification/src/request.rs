//! What a dialogue asks of its caller, and what the caller answers.

use crate::text::{opt_text, texts};
use vstd::prelude::*;

verus! {

/// Why a dialogue was given up.
#[derive(Clone, Copy, Debug, PartialEq, Eq, Structural)]
pub enum Failure {
    /// The user broke off at a question, or the input ended there.
    Interrupted,
    /// Reading the answer to a question failed otherwise.
    Unknown,
}

impl Failure {
    /// What the user is told of the failure.
    pub open spec fn text(self) -> Seq<char> {
        match self {
            Failure::Interrupted => "Interrupted!"@,
            Failure::Unknown => "Unknown error."@,
        }
    }

    /// What the user is told of the failure.
    pub fn message(&self) -> (message: String)
        ensures
            message@ == self.text(),
    {
        match self {
            Failure::Interrupted => "Interrupted!".to_owned(),
            Failure::Unknown => "Unknown error.".to_owned(),
        }
    }
}

/// How a template is copied into an entry.
#[derive(Clone, Copy, Debug, PartialEq, Eq, Structural)]
pub struct CopyRules {
    /// A file that exists at the target is written over.
    pub overwrite: bool,
    /// A file that exists at the target is passed over.
    pub skip_existing: bool,
    /// The target directory is made where it is missing.
    pub create_target: bool,
    /// What lies in the template goes directly into the target, not into a
    /// directory of the template's name below it.
    pub contents_only: bool,
}

/// The copy of a template into an entry.
#[derive(Debug, PartialEq, Eq)]
pub struct CopyPlan {
    /// The template directory.
    pub template: String,
    /// The directory above the target, which has to exist before the copy;
    /// `None` where nothing lies above the target.
    pub parent: Option<String>,
    /// The entry's directory.
    pub target: String,
    /// How to copy.
    pub rules: CopyRules,
}

/// The next step of the dialogue, for the caller to carry out.
#[derive(Debug, PartialEq, Eq)]
pub enum Request {
    /// Ask the user for the kind.
    AskKind,
    /// Find out whether this path is a directory.
    ProbeTemplate(String),
    /// Warn that this template directory was not found.
    WarnMissing(String),
    /// Look up the directories that match this pattern.
    FindTemplates(String),
    /// Let the user select one line of this menu, the first being preset.
    ChooseTemplate(Vec<String>),
    /// Tell the user that this template is used.
    AnnounceTemplate(String),
    /// Ask the user for the slug.
    AskSlug,
    /// Make this directory, and those missing above it, unless it is there
    /// already, and print its path.  Ends the dialogue.
    CreateDir(String),
    /// Make sure that the directory above the target exists, copy the
    /// template as planned, and print the target's path.  Ends the dialogue.
    CopyTemplate(CopyPlan),
    /// Give up.  Ends the dialogue.
    Abort(Failure),
}

/// What came of carrying out a request.
#[derive(Debug, PartialEq, Eq)]
pub enum Reply {
    /// The line that the user entered.
    Line(String),
    /// The user broke off.
    Interrupted,
    /// The input ended.
    EndOfInput,
    /// Reading the line failed otherwise.
    ReadError,
    /// Whether the probed path is a directory.
    Directory(bool),
    /// The directories found, in the order in which the lookup gave them.
    Found(Vec<String>),
    /// The line of the menu that was selected, counted from 0; `None` where
    /// the user left the menu without selecting.
    Chosen(Option<usize>),
    /// The request was carried out and has nothing to report.
    Done,
}

/// A [`CopyPlan`] as text.
pub struct CopyPlanText {
    pub template: Seq<char>,
    pub parent: Option<Seq<char>>,
    pub target: Seq<char>,
    pub rules: CopyRules,
}

/// A [`Request`] as text.
pub enum RequestText {
    AskKind,
    ProbeTemplate(Seq<char>),
    WarnMissing(Seq<char>),
    FindTemplates(Seq<char>),
    ChooseTemplate(Seq<Seq<char>>),
    AnnounceTemplate(Seq<char>),
    AskSlug,
    CreateDir(Seq<char>),
    CopyTemplate(CopyPlanText),
    Abort(Failure),
}

/// A [`Reply`] as text.
pub enum ReplyText {
    Line(Seq<char>),
    Interrupted,
    EndOfInput,
    ReadError,
    Directory(bool),
    Found(Seq<Seq<char>>),
    Chosen(Option<usize>),
    Done,
}

impl View for CopyPlan {
    type V = CopyPlanText;

    open spec fn view(&self) -> CopyPlanText {
        CopyPlanText {
            template: self.template@,
            parent: opt_text(self.parent),
            target: self.target@,
            rules: self.rules,
        }
    }
}

impl View for Request {
    type V = RequestText;

    open spec fn view(&self) -> RequestText {
        match *self {
            Request::AskKind => RequestText::AskKind,
            Request::ProbeTemplate(path) => RequestText::ProbeTemplate(path@),
            Request::WarnMissing(path) => RequestText::WarnMissing(path@),
            Request::FindTemplates(pattern) => RequestText::FindTemplates(pattern@),
            Request::ChooseTemplate(items) => RequestText::ChooseTemplate(texts(items@)),
            Request::AnnounceTemplate(path) => RequestText::AnnounceTemplate(path@),
            Request::AskSlug => RequestText::AskSlug,
            Request::CreateDir(path) => RequestText::CreateDir(path@),
            Request::CopyTemplate(plan) => RequestText::CopyTemplate(plan@),
            Request::Abort(failure) => RequestText::Abort(failure),
        }
    }
}

impl View for Reply {
    type V = ReplyText;

    open spec fn view(&self) -> ReplyText {
        match *self {
            Reply::Line(line) => ReplyText::Line(line@),
            Reply::Interrupted => ReplyText::Interrupted,
            Reply::EndOfInput => ReplyText::EndOfInput,
            Reply::ReadError => ReplyText::ReadError,
            Reply::Directory(found) => ReplyText::Directory(found),
            Reply::Found(list) => ReplyText::Found(texts(list@)),
            Reply::Chosen(line) => ReplyText::Chosen(line),
            Reply::Done => ReplyText::Done,
        }
    }
}

/// The rules by which a template is copied: files that exist are written
/// over and none is passed over, the target is made where it is missing,
/// and the template's contents go directly into it.
pub open spec fn template_copy_rules() -> CopyRules {
    CopyRules { overwrite: true, skip_existing: false, create_target: true, contents_only: true }
}

/// The rules by which a template is copied.
pub fn copy_rules() -> (rules: CopyRules)
    ensures
        rules == template_copy_rules(),
{
    CopyRules { overwrite: true, skip_existing: false, create_target: true, contents_only: true }
}

} // verus!
