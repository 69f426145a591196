//! Posting a generated text, or showing what would have been posted.
//!
//! The text is sanitized first. With posting enabled the outcome is a
//! submission: the address, the authorisation and the note to send. With
//! posting disabled it is a preview for the operator, and nothing is sent.

use vstd::prelude::*;
use crate::endpoint::{bearer_of, bearer_trimmed, create_url, create_url_of, trimmed};
use crate::sanitize::{
    regex_accepts,
    sanitize_mentions,
    sanitized,
    PatternRejected,
    MENTION_PATTERN,
};

verus! {

/// Whether posts carry a content warning, and which.
#[derive(Clone, Debug, PartialEq, Eq)]
pub struct CwConfig {
    /// Whether a content warning is set at all.
    pub enable: bool,
    /// The warning's text; used only when `enable` holds.
    pub cw: String,
}

/// What the operator has configured for posting.
#[derive(Clone, Debug, PartialEq, Eq)]
pub struct PostingConfig {
    /// Host name of the instance.
    pub instance: String,
    /// Token of the account that posts; white space around it is ignored.
    pub posting_token: String,
    /// Who may see the note, in the instance's terms.
    pub visibility: String,
    /// Content warning.
    pub cw: CwConfig,
    /// Dry run: when set, nothing is sent.
    pub disable_post: bool,
}

/// The note as the instance takes it.
#[derive(Clone, Debug, PartialEq, Eq)]
pub struct NoteDraft {
    pub text: String,
    pub visibility: String,
    /// Content warning; absent when none is configured.
    pub cw: Option<String>,
}

/// A note to send, with where and how.
#[derive(Clone, Debug, PartialEq, Eq)]
pub struct Submission {
    /// Address that takes the note.
    pub url: String,
    /// Value of the `Authorization` header.
    pub authorization: String,
    /// The request's body.
    pub note: NoteDraft,
}

/// What a dry run shows to the operator.
#[derive(Clone, Debug, PartialEq, Eq)]
pub struct Preview {
    /// The text that would have been posted.
    pub text: String,
    /// The content warning that would have been set, if any.
    pub cw: Option<String>,
}

/// What is to happen with a generated text.
#[derive(Clone, Debug, PartialEq, Eq)]
pub enum Publication {
    /// Send the note to the instance.
    Submit(Submission),
    /// Send nothing; show the preview.
    DryRun(Preview),
}

/// Model of a [`CwConfig`].
pub struct CwConfigView {
    pub enable: bool,
    pub cw: Seq<char>,
}

/// Model of a [`PostingConfig`].
pub struct PostingConfigView {
    pub instance: Seq<char>,
    pub posting_token: Seq<char>,
    pub visibility: Seq<char>,
    pub cw: CwConfigView,
    pub disable_post: bool,
}

/// Model of a [`NoteDraft`].
pub struct NoteDraftView {
    pub text: Seq<char>,
    pub visibility: Seq<char>,
    pub cw: Option<Seq<char>>,
}

/// Model of a [`Submission`].
pub struct SubmissionView {
    pub url: Seq<char>,
    pub authorization: Seq<char>,
    pub note: NoteDraftView,
}

/// Model of a [`Preview`].
pub struct PreviewView {
    pub text: Seq<char>,
    pub cw: Option<Seq<char>>,
}

/// Model of a [`Publication`].
pub enum PublicationView {
    Submit(SubmissionView),
    DryRun(PreviewView),
}

impl View for CwConfig {
    type V = CwConfigView;

    open spec fn view(&self) -> CwConfigView {
        CwConfigView { enable: self.enable, cw: self.cw@ }
    }
}

impl View for PostingConfig {
    type V = PostingConfigView;

    open spec fn view(&self) -> PostingConfigView {
        PostingConfigView {
            instance: self.instance@,
            posting_token: self.posting_token@,
            visibility: self.visibility@,
            cw: self.cw@,
            disable_post: self.disable_post,
        }
    }
}

impl View for NoteDraft {
    type V = NoteDraftView;

    open spec fn view(&self) -> NoteDraftView {
        NoteDraftView { text: self.text@, visibility: self.visibility@, cw: self.cw.deep_view() }
    }
}

impl View for Submission {
    type V = SubmissionView;

    open spec fn view(&self) -> SubmissionView {
        SubmissionView { url: self.url@, authorization: self.authorization@, note: self.note@ }
    }
}

impl View for Preview {
    type V = PreviewView;

    open spec fn view(&self) -> PreviewView {
        PreviewView { text: self.text@, cw: self.cw.deep_view() }
    }
}

impl View for Publication {
    type V = PublicationView;

    open spec fn view(&self) -> PublicationView {
        match self {
            Publication::Submit(submission) => PublicationView::Submit(submission@),
            Publication::DryRun(preview) => PublicationView::DryRun(preview@),
        }
    }
}

impl CwConfigView {
    /// The warning that a note gets: the configured text when warnings
    /// are enabled, none otherwise.
    pub open spec fn warning(self) -> Option<Seq<char>> {
        if self.enable {
            Some(self.cw)
        } else {
            None
        }
    }
}

/// What happens with the sanitized text `clean` under `config`.
pub open spec fn publication_of(clean: Seq<char>, config: PostingConfigView) -> PublicationView {
    if config.disable_post {
        PublicationView::DryRun(PreviewView { text: clean, cw: config.cw.warning() })
    } else {
        PublicationView::Submit(
            SubmissionView {
                url: create_url_of(config.instance),
                authorization: bearer_of(trimmed(config.posting_token)),
                note: NoteDraftView {
                    text: clean,
                    visibility: config.visibility,
                    cw: config.cw.warning(),
                },
            },
        )
    }
}

/// The lines that a dry run shows.
pub open spec fn report_of(preview: PreviewView) -> Seq<char> {
    "The following post would have been created:\n"@ + preview.text + "\n"@ + match preview.cw {
        Some(cw) => "The following CW would have been set:\n"@ + cw,
        None => "No CW would have been set"@,
    }
}

impl CwConfig {
    /// The warning that a note gets under this configuration.
    pub fn warning(&self) -> (cw: Option<String>)
        ensures
            cw.deep_view() == self@.warning(),
    {
        if self.enable {
            Some(self.cw.clone())
        } else {
            None
        }
    }
}

impl Preview {
    /// The text shown to the operator in place of posting.
    pub fn report(&self) -> (lines: String)
        ensures
            lines@ == report_of(self@),
    {
        let mut lines = String::from_str("The following post would have been created:\n");
        lines.append(self.text.as_str());
        lines.append("\n");
        match &self.cw {
            Some(cw) => {
                lines.append("The following CW would have been set:\n");
                lines.append(cw.as_str());
            },
            None => {
                lines.append("No CW would have been set");
            },
        }
        proof {
            assert(lines@ =~= report_of(self@));
        }
        lines
    }
}

/// Decides what happens with a text that is already sanitized.
///
/// With posting disabled the result is a preview of the text and of the
/// warning. Otherwise it is a submission to the instance's address for
/// new notes, authorised by the posting token without the white space
/// around it, with the configured visibility, and with the warning only
/// if warnings are enabled.
pub fn plan_post(clean: String, config: &PostingConfig) -> (publication: Publication)
    ensures
        publication@ == publication_of(clean@, config@),
{
    let cw = config.cw.warning();
    if config.disable_post {
        Publication::DryRun(Preview { text: clean, cw })
    } else {
        Publication::Submit(
            Submission {
                url: create_url(config.instance.as_str()),
                authorization: bearer_trimmed(config.posting_token.as_str()),
                note: NoteDraft { text: clean, visibility: config.visibility.clone(), cw },
            },
        )
    }
}

/// Sanitizes `text` and decides what happens with it.
///
/// Fails only if the search engine does not accept the pattern for
/// mentions; the configuration has no part in that.
pub fn create_post(text: String, config: &PostingConfig) -> (outcome: Result<
    Publication,
    PatternRejected,
>)
    ensures
        outcome is Ok <==> regex_accepts(MENTION_PATTERN@),
        outcome matches Ok(publication) ==> publication@ == publication_of(
            sanitized(text@),
            config@,
        ),
{
    match sanitize_mentions(text) {
        Ok(clean) => Ok(plan_post(clean, config)),
        Err(e) => Err(e),
    }
}

} // verus!
