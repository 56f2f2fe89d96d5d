//! The `new` command as a dialogue.
//!
//! Making a draft takes questions to the user and looks at the file system,
//! and what is asked next depends on what came back.  [`NewCommand`] holds
//! what is known so far.  It names the next step as a [`Request`]; the
//! caller carries the request out and hands back a [`Reply`].  The dialogue
//! ends with a request to create the entry's directory, to fill it from a
//! template, or to give up.

use crate::date::DraftDate;
use crate::option::RafConfig;
use crate::path::{build_path, entry_path, parent, parent_text};
use crate::template::{
    menu, menu_items, named_template, pick_template, selected, template_dir, template_pattern,
    templates_pattern,
};
use crate::request::{
    copy_rules, template_copy_rules, CopyPlan, CopyPlanText, Failure, Reply, ReplyText, Request,
    RequestText,
};
use crate::text::{opt_text, texts};
use vstd::prelude::*;

verus! {

/// What the command line gave for a new draft.
#[derive(Debug, PartialEq, Eq)]
pub struct NewArgs {
    /// The kind of the draft.
    pub kind: Option<String>,
    /// The slug of the draft.
    pub slug: Option<String>,
    /// The name of the template to fill the draft from.
    pub template: Option<String>,
}

/// Where a dialogue stands.
#[derive(Clone, Copy, Debug, PartialEq, Eq, Structural)]
pub enum Stage {
    /// The kind is asked for.
    Kind,
    /// The template named on the command line is looked for.
    Probe,
    /// That template was not found, which the user is told.
    Warn,
    /// The templates of the kind are looked up.
    Find,
    /// The user chooses among them.
    Choose,
    /// The user is told the choice.
    Announce,
    /// The slug is asked for.
    Slug,
    /// All is known: the entry is made.
    Ready,
    /// The dialogue was given up.
    Failed(Failure),
}

/// What a dialogue knows, as text.
pub struct NewState {
    /// The drafts root.
    pub root: Seq<char>,
    /// The templates root.
    pub template_root: Seq<char>,
    /// The date under which the entry is filed.
    pub date: DraftDate,
    /// The kind, once known.
    pub kind: Option<Seq<char>>,
    /// The slug, once known.
    pub slug: Option<Seq<char>>,
    /// The template named on the command line.
    pub explicit: Option<Seq<char>>,
    /// The templates that the lookup found.
    pub found: Seq<Seq<char>>,
    /// The template directory settled on.
    pub template: Option<Seq<char>>,
    /// Where the dialogue stands.
    pub stage: Stage,
}

impl NewState {
    /// What each stage needs is known.
    pub open spec fn wf(self) -> bool {
        match self.stage {
            Stage::Kind => true,
            Stage::Probe => self.kind is Some && self.explicit is Some,
            Stage::Warn => self.kind is Some && self.explicit is Some,
            Stage::Find => self.kind is Some,
            Stage::Choose => self.kind is Some,
            Stage::Announce => self.kind is Some && self.template is Some,
            Stage::Slug => self.kind is Some,
            Stage::Ready => self.kind is Some && self.slug is Some,
            Stage::Failed(_) => true,
        }
    }

    /// The dialogue has ended: nothing is left to ask or to look up.
    pub open spec fn ended(self) -> bool {
        self.stage is Ready || self.stage is Failed
    }

    /// The state before anything was asked.  A kind given on the command
    /// line is not asked for.
    pub open spec fn begin(
        root: Seq<char>,
        template_root: Seq<char>,
        date: DraftDate,
        kind: Option<Seq<char>>,
        slug: Option<Seq<char>>,
        explicit: Option<Seq<char>>,
    ) -> NewState {
        let first = NewState {
            root,
            template_root,
            date,
            kind,
            slug,
            explicit,
            found: Seq::empty(),
            template: None,
            stage: Stage::Kind,
        };
        if kind is Some {
            first.with_kind()
        } else {
            first
        }
    }

    /// With the kind known, the template is next: one named on the command
    /// line is looked for, else the templates of the kind are looked up.
    pub open spec fn with_kind(self) -> NewState {
        NewState {
            stage: if self.explicit is Some {
                Stage::Probe
            } else {
                Stage::Find
            },
            ..self
        }
    }

    /// With the template settled, the slug is next; a slug given on the
    /// command line is not asked for.
    pub open spec fn with_template(self, template: Option<Seq<char>>) -> NewState {
        NewState {
            template,
            stage: if self.slug is Some {
                Stage::Ready
            } else {
                Stage::Slug
            },
            ..self
        }
    }

    /// The dialogue given up.
    pub open spec fn failed(self, failure: Failure) -> NewState {
        NewState { stage: Stage::Failed(failure), ..self }
    }

    /// The directory of the template named on the command line.
    pub open spec fn explicit_dir(self) -> Seq<char> {
        named_template(self.template_root, self.kind->0, self.explicit->0)
    }

    /// The entry's directory.
    pub open spec fn target(self) -> Seq<char> {
        entry_path(self.root, self.kind->0, self.date, self.slug->0)
    }

    /// The state after `reply`.  A reply that does not answer the pending
    /// request leaves the state as it is.
    pub open spec fn step(self, reply: ReplyText) -> NewState {
        match self.stage {
            Stage::Kind => match reply {
                ReplyText::Line(line) => NewState { kind: Some(line), ..self }.with_kind(),
                ReplyText::Interrupted => self.failed(Failure::Interrupted),
                ReplyText::EndOfInput => self.failed(Failure::Interrupted),
                ReplyText::ReadError => self.failed(Failure::Unknown),
                _ => self,
            },
            Stage::Probe => match reply {
                ReplyText::Directory(found) => if found {
                    self.with_template(Some(self.explicit_dir()))
                } else {
                    NewState { stage: Stage::Warn, ..self }
                },
                _ => self,
            },
            Stage::Warn => match reply {
                ReplyText::Done => self.with_template(None),
                _ => self,
            },
            Stage::Find => match reply {
                ReplyText::Found(list) => if list.len() == 0 {
                    self.with_template(None)
                } else {
                    NewState { found: list, stage: Stage::Choose, ..self }
                },
                _ => self,
            },
            Stage::Choose => match reply {
                ReplyText::Chosen(line) => match selected(self.found, line) {
                    Some(template) => NewState {
                        template: Some(template),
                        stage: Stage::Announce,
                        ..self
                    },
                    None => self.with_template(None),
                },
                _ => self,
            },
            Stage::Announce => match reply {
                ReplyText::Done => self.with_template(self.template),
                _ => self,
            },
            Stage::Slug => match reply {
                ReplyText::Line(line) => NewState { slug: Some(line), stage: Stage::Ready, ..self },
                ReplyText::Interrupted => self.failed(Failure::Interrupted),
                ReplyText::EndOfInput => self.failed(Failure::Interrupted),
                ReplyText::ReadError => self.failed(Failure::Unknown),
                _ => self,
            },
            Stage::Ready => self,
            Stage::Failed(_) => self,
        }
    }

    /// The request that is pending in this state.
    pub open spec fn request(self) -> RequestText {
        match self.stage {
            Stage::Kind => RequestText::AskKind,
            Stage::Probe => RequestText::ProbeTemplate(self.explicit_dir()),
            Stage::Warn => RequestText::WarnMissing(self.explicit_dir()),
            Stage::Find => RequestText::FindTemplates(
                templates_pattern(self.template_root, self.kind->0),
            ),
            Stage::Choose => RequestText::ChooseTemplate(menu(self.found)),
            Stage::Announce => RequestText::AnnounceTemplate(self.template->0),
            Stage::Slug => RequestText::AskSlug,
            Stage::Ready => match self.template {
                Some(template) => RequestText::CopyTemplate(
                    CopyPlanText {
                        template,
                        parent: parent_text(self.target()),
                        target: self.target(),
                        rules: template_copy_rules(),
                    },
                ),
                None => RequestText::CreateDir(self.target()),
            },
            Stage::Failed(failure) => RequestText::Abort(failure),
        }
    }
}

/// How far a stage lies along the dialogue.
pub open spec fn rank(stage: Stage) -> nat {
    match stage {
        Stage::Kind => 0,
        Stage::Probe => 1,
        Stage::Warn => 2,
        Stage::Find => 1,
        Stage::Choose => 2,
        Stage::Announce => 3,
        Stage::Slug => 4,
        Stage::Ready => 5,
        Stage::Failed(_) => 5,
    }
}

/// A dialogue begins in a well-formed state.
pub proof fn lemma_begin_wf(
    root: Seq<char>,
    template_root: Seq<char>,
    date: DraftDate,
    kind: Option<Seq<char>>,
    slug: Option<Seq<char>>,
    explicit: Option<Seq<char>>,
)
    ensures
        NewState::begin(root, template_root, date, kind, slug, explicit).wf(),
{
}

/// Every reply leaves a well-formed state well formed.
pub proof fn lemma_step_wf(state: NewState, reply: ReplyText)
    requires
        state.wf(),
    ensures
        state.step(reply).wf(),
{
}

/// A reply never changes the roots, the date or the template named on the
/// command line, and a kind or slug that is known stays as it is.
pub proof fn lemma_step_keeps(state: NewState, reply: ReplyText)
    ensures
        state.step(reply).root == state.root,
        state.step(reply).template_root == state.template_root,
        state.step(reply).date == state.date,
        state.step(reply).explicit == state.explicit,
        state.kind is Some && !(state.stage is Kind) ==> state.step(reply).kind == state.kind,
        state.slug is Some && !(state.stage is Slug) ==> state.step(reply).slug == state.slug,
{
}

/// Every reply either leaves the state as it is or takes the dialogue
/// further, so that a dialogue has at most five replies that count.
pub proof fn lemma_step_advances(state: NewState, reply: ReplyText)
    ensures
        state.step(reply) == state || rank(state.step(reply).stage) > rank(state.stage),
        rank(state.step(reply).stage) <= 5,
{
}

/// Once the dialogue has ended, no reply changes anything.
pub proof fn lemma_ended_rests(state: NewState, reply: ReplyText)
    requires
        state.ended(),
    ensures
        state.step(reply) == state,
{
}

/// Breaking off at a question, or the end of the input there, gives the
/// dialogue up as interrupted; any other failure to read gives it up as
/// unknown.
pub proof fn lemma_question_fails(state: NewState)
    requires
        state.stage is Kind || state.stage is Slug,
    ensures
        state.step(ReplyText::Interrupted).request() == RequestText::Abort(Failure::Interrupted),
        state.step(ReplyText::EndOfInput).request() == RequestText::Abort(Failure::Interrupted),
        state.step(ReplyText::ReadError).request() == RequestText::Abort(Failure::Unknown),
{
}

/// With kind and slug given and no template named, a lookup that finds no
/// template leads straight to the creation of the entry's directory.
pub proof fn lemma_no_template_found(
    root: Seq<char>,
    template_root: Seq<char>,
    date: DraftDate,
    kind: Seq<char>,
    slug: Seq<char>,
)
    ensures
        ({
            let first = NewState::begin(root, template_root, date, Some(kind), Some(slug), None);
            &&& first.request() == RequestText::FindTemplates(
                templates_pattern(template_root, kind),
            )
            &&& first.step(ReplyText::Found(Seq::empty())).request() == RequestText::CreateDir(
                entry_path(root, kind, date, slug),
            )
        }),
{
}

/// With kind and slug given, a template that is named but is no directory
/// is warned of, and the entry's directory is then created without a
/// template.
pub proof fn lemma_missing_template(
    root: Seq<char>,
    template_root: Seq<char>,
    date: DraftDate,
    kind: Seq<char>,
    slug: Seq<char>,
    name: Seq<char>,
)
    ensures
        ({
            let first = NewState::begin(
                root,
                template_root,
                date,
                Some(kind),
                Some(slug),
                Some(name),
            );
            let warned = first.step(ReplyText::Directory(false));
            &&& first.request() == RequestText::ProbeTemplate(
                named_template(template_root, kind, name),
            )
            &&& warned.request() == RequestText::WarnMissing(
                named_template(template_root, kind, name),
            )
            &&& warned.step(ReplyText::Done).request() == RequestText::CreateDir(
                entry_path(root, kind, date, slug),
            )
        }),
{
}

/// A dialogue that has ended well names the entry's directory, whether it
/// is created bare or filled from a template.
pub proof fn lemma_ready_names_entry(state: NewState)
    requires
        state.stage is Ready,
    ensures
        match state.request() {
            RequestText::CreateDir(path) => state.template is None && path == state.target(),
            RequestText::CopyTemplate(plan) => {
                &&& state.template == Some(plan.template)
                &&& plan.target == state.target()
                &&& plan.parent == parent_text(plan.target)
                &&& plan.rules.overwrite
                &&& !plan.rules.skip_existing
                &&& plan.rules.contents_only
            },
            _ => false,
        },
{
}

/// The dialogue of one `new` command.
pub struct NewCommand {
    root: String,
    template_root: String,
    date: DraftDate,
    kind: Option<String>,
    slug: Option<String>,
    explicit: Option<String>,
    found: Vec<String>,
    template: Option<String>,
    stage: Stage,
}

impl View for NewCommand {
    type V = NewState;

    closed spec fn view(&self) -> NewState {
        NewState {
            root: self.root@,
            template_root: self.template_root@,
            date: self.date,
            kind: opt_text(self.kind),
            slug: opt_text(self.slug),
            explicit: opt_text(self.explicit),
            found: texts(self.found@),
            template: opt_text(self.template),
            stage: self.stage,
        }
    }
}

/// The text of a string that is known to be there.
fn known(text: &Option<String>) -> (s: &str)
    requires
        text is Some,
    ensures
        Some(s@) == opt_text(*text),
{
    text.as_ref().unwrap().as_str()
}

impl NewCommand {
    #[verifier::type_invariant]
    spec fn inv(self) -> bool {
        self@.wf()
    }

    /// Begins the dialogue for a draft filed under `date`.
    pub fn start(config: &RafConfig, args: NewArgs, date: DraftDate) -> (command: NewCommand)
        ensures
            command@ == NewState::begin(
                config.path.root@,
                config.path.template@,
                date,
                opt_text(args.kind),
                opt_text(args.slug),
                opt_text(args.template),
            ),
    {
        let stage = if args.kind.is_none() {
            Stage::Kind
        } else if args.template.is_some() {
            Stage::Probe
        } else {
            Stage::Find
        };
        let command = NewCommand {
            root: config.path.root.clone(),
            template_root: config.path.template.clone(),
            date,
            kind: args.kind,
            slug: args.slug,
            explicit: args.template,
            found: Vec::new(),
            template: None,
            stage,
        };
        assert(command@.found =~= Seq::empty());
        command
    }

    /// Where the dialogue stands.
    pub fn stage(&self) -> (stage: Stage)
        ensures
            stage == self@.stage,
    {
        self.stage
    }

    /// The request that is pending.
    pub fn request(&self) -> (request: Request)
        ensures
            request@ == self@.request(),
    {
        proof {
            use_type_invariant(self);
        }
        match self.stage {
            Stage::Kind => Request::AskKind,
            Stage::Probe => Request::ProbeTemplate(self.explicit_dir()),
            Stage::Warn => Request::WarnMissing(self.explicit_dir()),
            Stage::Find => Request::FindTemplates(
                template_pattern(self.template_root.as_str(), known(&self.kind)),
            ),
            Stage::Choose => Request::ChooseTemplate(menu_items(&self.found)),
            Stage::Announce => Request::AnnounceTemplate(known(&self.template).to_owned()),
            Stage::Slug => Request::AskSlug,
            Stage::Ready => {
                let target = build_path(
                    self.root.as_str(),
                    known(&self.kind),
                    &self.date,
                    known(&self.slug),
                );
                match &self.template {
                    Some(template) => {
                        let above = parent(target.as_str());
                        Request::CopyTemplate(
                            CopyPlan {
                                template: template.clone(),
                                parent: above,
                                target,
                                rules: copy_rules(),
                            },
                        )
                    },
                    None => Request::CreateDir(target),
                }
            },
            Stage::Failed(failure) => Request::Abort(failure),
        }
    }

    /// Takes the reply to the pending request and moves on.
    pub fn advance(self, reply: Reply) -> (next: NewCommand)
        ensures
            next@ == self@.step(reply@),
    {
        proof {
            use_type_invariant(&self);
        }
        match self.stage {
            Stage::Kind => match reply {
                Reply::Line(line) => self.with_kind(line),
                Reply::Interrupted => self.failed(Failure::Interrupted),
                Reply::EndOfInput => self.failed(Failure::Interrupted),
                Reply::ReadError => self.failed(Failure::Unknown),
                _ => self,
            },
            Stage::Probe => match reply {
                Reply::Directory(found) => {
                    if found {
                        let dir = self.explicit_dir();
                        self.with_template(Some(dir))
                    } else {
                        NewCommand { stage: Stage::Warn, ..self }
                    }
                },
                _ => self,
            },
            Stage::Warn => match reply {
                Reply::Done => self.with_template(None),
                _ => self,
            },
            Stage::Find => match reply {
                Reply::Found(list) => {
                    if list.len() == 0 {
                        self.with_template(None)
                    } else {
                        NewCommand { found: list, stage: Stage::Choose, ..self }
                    }
                },
                _ => self,
            },
            Stage::Choose => match reply {
                Reply::Chosen(line) => match pick_template(&self.found, line) {
                    Some(template) => NewCommand {
                        template: Some(template),
                        stage: Stage::Announce,
                        ..self
                    },
                    None => self.with_template(None),
                },
                _ => self,
            },
            Stage::Announce => match reply {
                Reply::Done => NewCommand {
                    stage: if self.slug.is_some() {
                        Stage::Ready
                    } else {
                        Stage::Slug
                    },
                    ..self
                },
                _ => self,
            },
            Stage::Slug => match reply {
                Reply::Line(line) => NewCommand { slug: Some(line), stage: Stage::Ready, ..self },
                Reply::Interrupted => self.failed(Failure::Interrupted),
                Reply::EndOfInput => self.failed(Failure::Interrupted),
                Reply::ReadError => self.failed(Failure::Unknown),
                _ => self,
            },
            Stage::Ready => self,
            Stage::Failed(_) => self,
        }
    }

    /// The directory of the template named on the command line.
    fn explicit_dir(&self) -> (dir: String)
        requires
            self@.kind is Some,
            self@.explicit is Some,
        ensures
            dir@ == self@.explicit_dir(),
    {
        template_dir(self.template_root.as_str(), known(&self.kind), known(&self.explicit))
    }

    /// Takes the kind and turns to the template.
    fn with_kind(self, kind: String) -> (next: NewCommand)
        ensures
            next@ == (NewState { kind: Some(kind@), ..self@ }).with_kind(),
    {
        let stage = if self.explicit.is_some() {
            Stage::Probe
        } else {
            Stage::Find
        };
        NewCommand { kind: Some(kind), stage, ..self }
    }

    /// Settles the template and turns to the slug.
    fn with_template(self, template: Option<String>) -> (next: NewCommand)
        requires
            self@.kind is Some,
        ensures
            next@ == self@.with_template(opt_text(template)),
    {
        let stage = if self.slug.is_some() {
            Stage::Ready
        } else {
            Stage::Slug
        };
        NewCommand { template, stage, ..self }
    }

    /// Gives the dialogue up.
    fn failed(self, failure: Failure) -> (next: NewCommand)
        ensures
            next@ == self@.failed(failure),
    {
        NewCommand { stage: Stage::Failed(failure), ..self }
    }
}

} // verus!
