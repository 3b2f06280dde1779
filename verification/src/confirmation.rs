//! The confirmation step: whether the operator has to be asked, what is
//! shown before the question, and what the answer means.

use vstd::prelude::*;
use vstd::string::StringExecFns;
use crate::check_submodules::{Bucket, DiagnosticView, SubmodulesDiagnostic, spec_texts};
use crate::config::EffectiveConfig;
use crate::styling::{
    bold, bold_green, bold_red, spec_bold, spec_bold_green, spec_bold_red, spec_shows,
};

verus! {

/// How the question to the operator ended.
#[derive(Clone, Copy, Debug, PartialEq, Eq, Structural)]
pub enum ConfirmationOutcome {
    /// The operator answered yes.
    Confirmed,
    /// The operator answered no.
    Declined,
    /// The question was interrupted and got no answer.
    Cancelled,
}

impl ConfirmationOutcome {
    /// What the prompt's result means: an answer is taken as given, and a
    /// prompt that gave none counts as cancelled, never as a yes.
    pub open spec fn spec_from_answer(answer: Option<bool>) -> ConfirmationOutcome {
        match answer {
            Some(true) => ConfirmationOutcome::Confirmed,
            Some(false) => ConfirmationOutcome::Declined,
            None => ConfirmationOutcome::Cancelled,
        }
    }

    /// The exit code of a run that ended with this outcome.
    pub open spec fn spec_exit_code(self) -> u8 {
        match self {
            ConfirmationOutcome::Confirmed => 0,
            ConfirmationOutcome::Declined => 1,
            ConfirmationOutcome::Cancelled => 2,
        }
    }

    /// The notice that goes to the error stream with this outcome, if any.
    pub open spec fn spec_notice(self) -> Option<Seq<char>> {
        match self {
            ConfirmationOutcome::Confirmed => None,
            ConfirmationOutcome::Declined => Some("Commit aborted by user."@),
            ConfirmationOutcome::Cancelled => Some("Confirmation cancelled by user."@),
        }
    }

    /// Maps the prompt's result to an outcome; `None` stands for a prompt
    /// that failed or was interrupted.
    pub fn from_answer(answer: Option<bool>) -> (outcome: ConfirmationOutcome)
        ensures
            outcome == ConfirmationOutcome::spec_from_answer(answer),
    {
        match answer {
            Some(true) => ConfirmationOutcome::Confirmed,
            Some(false) => ConfirmationOutcome::Declined,
            None => ConfirmationOutcome::Cancelled,
        }
    }

    /// The exit code of a run that ended with this outcome.
    pub fn to_exit_code(&self) -> (code: u8)
        ensures
            code == self.spec_exit_code(),
    {
        match self {
            ConfirmationOutcome::Confirmed => 0,
            ConfirmationOutcome::Declined => 1,
            ConfirmationOutcome::Cancelled => 2,
        }
    }

    /// The notice that goes to the error stream with this outcome: none
    /// where the operator confirmed.
    pub fn notice(&self) -> (text: Option<String>)
        ensures
            match self.spec_notice() {
                Some(expected) => text matches Some(t) && t@ == expected,
                None => text is None,
            },
    {
        match self {
            ConfirmationOutcome::Confirmed => None,
            ConfirmationOutcome::Declined => Some(String::from_str("Commit aborted by user.")),
            ConfirmationOutcome::Cancelled => Some(
                String::from_str("Confirmation cancelled by user."),
            ),
        }
    }
}

/// The question that is put to the operator.
pub const QUESTION: &'static str = "Do you wish to continue anyway?";

/// The answer that the prompt offers where the operator gives none of
/// their own: a refusal.
pub const DEFAULT_ANSWER: bool = false;

/// Whether the operator has to confirm: some submodule is reported under a
/// finding for which the settings ask.
pub open spec fn spec_needs_confirmation(
    diagnostic: DiagnosticView,
    config: EffectiveConfig,
) -> bool {
    (diagnostic.modified_not_staged.len() > 0 && config.confirm_not_staging) || (
    diagnostic.modified_staged.len() > 0 && config.confirm_staging)
}

/// Decides whether the operator has to confirm the commit.
pub fn needs_confirmation(diagnostic: &SubmodulesDiagnostic, config: &EffectiveConfig) -> (needed:
    bool)
    ensures
        needed == spec_needs_confirmation(diagnostic@, *config),
{
    (diagnostic.modified_not_staged_submodules.len() > 0 && config.confirm_not_staging) || (
    diagnostic.modified_staged_submodules.len() > 0 && config.confirm_staging)
}

/// The line that opens the list of a finding, from its three parts as they
/// are to be shown.
pub open spec fn spec_heading_line(lead: Seq<char>, label: Seq<char>, tail: Seq<char>) -> Seq<
    char,
> {
    lead + " "@ + label + " "@ + tail
}

/// The command that undoes the finding for the submodule `name`, with what
/// it does.
pub open spec fn spec_remedy(bucket: Bucket, name: Seq<char>) -> Seq<char> {
    match bucket {
        Bucket::NotStaged => "`git add "@ + name + "` to add submodule to staging"@,
        Bucket::Staged => "`git restore --staged "@ + name
            + "` to remove submodule from staging"@,
    }
}

/// The line for one submodule: its name as it is to be shown, and the
/// remedy in brackets.
pub open spec fn spec_entry_line(bucket: Bucket, shown: Seq<char>, name: Seq<char>) -> Seq<char> {
    "* "@ + shown + " ("@ + spec_remedy(bucket, name) + ")"@
}

/// The lines joined into one text, a line feed between two of them.
pub open spec fn spec_join_lines(lines: Seq<Seq<char>>) -> Seq<char>
    decreases lines.len(),
{
    if lines.len() == 0 {
        Seq::empty()
    } else if lines.len() == 1 {
        lines[0]
    } else {
        spec_join_lines(lines.drop_last()) + "\n"@ + lines.last()
    }
}

/// Whether `line` is the heading of the list of `bucket`: its opening and
/// closing words in bold and the finding's label in the finding's style,
/// each as some terminal is to show it.
pub open spec fn spec_is_heading(line: Seq<char>, bucket: Bucket) -> bool {
    exists|lead: Seq<char>, label: Seq<char>, tail: Seq<char>|
        {
            &&& spec_shows(lead, spec_bold(), "The following submodules are"@)
            &&& spec_shows(label, bucket.spec_style(), bucket.spec_label())
            &&& spec_shows(tail, spec_bold(), "for commit:"@)
            &&& line == #[trigger] spec_heading_line(lead, label, tail)
        }
}

/// Whether `line` is the entry line of the submodule `name` under `bucket`,
/// the name in the finding's style as some terminal is to show it.
pub open spec fn spec_is_entry(line: Seq<char>, bucket: Bucket, name: Seq<char>) -> bool {
    exists|shown: Seq<char>|
        {
            &&& spec_shows(shown, bucket.spec_style(), name)
            &&& line == #[trigger] spec_entry_line(bucket, shown, name)
        }
}

/// The number of lines that the list of a finding takes: none where no
/// submodule is reported, else a heading and a line for each name.
pub open spec fn spec_section_len(names: Seq<Seq<char>>) -> nat {
    if names.len() == 0 {
        0
    } else {
        names.len() + 1
    }
}

/// Whether `lines` is the list of the finding `bucket` for `names`: a
/// heading, then the entry line of each name, in their order.
pub open spec fn spec_is_section(
    lines: Seq<Seq<char>>,
    bucket: Bucket,
    names: Seq<Seq<char>>,
) -> bool {
    &&& lines.len() == spec_section_len(names)
    &&& names.len() > 0 ==> spec_is_heading(lines[0], bucket)
    &&& forall|j: int|
        1 <= j < lines.len() ==> spec_is_entry(#[trigger] lines[j], bucket, names[j - 1])
}

/// Whether `lines` is the report of `diagnostic`: the list of the
/// submodules that are not staged, then the list of those that are.
pub open spec fn spec_is_report(lines: Seq<Seq<char>>, diagnostic: DiagnosticView) -> bool {
    let split = spec_section_len(diagnostic.modified_not_staged) as int;
    &&& lines.len() == split + spec_section_len(diagnostic.modified_staged)
    &&& spec_is_section(lines.take(split), Bucket::NotStaged, diagnostic.modified_not_staged)
    &&& spec_is_section(lines.skip(split), Bucket::Staged, diagnostic.modified_staged)
}

impl Bucket {
    /// The escape sequences that switch the finding's style on: bold red
    /// for what is not staged, bold green for what is.
    pub open spec fn spec_style(self) -> Seq<char> {
        match self {
            Bucket::NotStaged => spec_bold_red(),
            Bucket::Staged => spec_bold_green(),
        }
    }

    /// The words that name the finding in a heading.
    pub open spec fn spec_label(self) -> Seq<char> {
        match self {
            Bucket::NotStaged => "modified but not staged"@,
            Bucket::Staged => "modified and staged"@,
        }
    }

    /// The words that name the finding in a heading.
    pub fn label(&self) -> (text: &'static str)
        ensures
            text@ == self.spec_label(),
    {
        match self {
            Bucket::NotStaged => "modified but not staged",
            Bucket::Staged => "modified and staged",
        }
    }
}

/// Puts a heading line together from its three parts.
pub fn heading_line(lead: &str, label: &str, tail: &str) -> (line: String)
    ensures
        line@ == spec_heading_line(lead@, label@, tail@),
{
    let mut line = String::from_str(lead);
    line.append(" ");
    line.append(label);
    line.append(" ");
    line.append(tail);
    line
}

/// The remedy for the submodule `name` under the finding `bucket`.
pub fn remedy(bucket: Bucket, name: &str) -> (text: String)
    ensures
        text@ == spec_remedy(bucket, name@),
{
    match bucket {
        Bucket::NotStaged => {
            let mut text = String::from_str("`git add ");
            text.append(name);
            text.append("` to add submodule to staging");
            text
        },
        Bucket::Staged => {
            let mut text = String::from_str("`git restore --staged ");
            text.append(name);
            text.append("` to remove submodule from staging");
            text
        },
    }
}

/// Puts the entry line of the submodule `name` together; `shown` is the
/// name as it is to be shown.
pub fn entry_line(bucket: Bucket, shown: &str, name: &str) -> (line: String)
    ensures
        line@ == spec_entry_line(bucket, shown@, name@),
{
    let mut line = String::from_str("* ");
    line.append(shown);
    line.append(" (");
    let text = remedy(bucket, name);
    line.append(text.as_str());
    line.append(")");
    line
}

/// Joins the lines into one text, a line feed between two of them.
pub fn join_lines(lines: &Vec<String>) -> (text: String)
    ensures
        text@ == spec_join_lines(spec_texts(lines@)),
{
    let ghost texts = spec_texts(lines@);
    let mut text = String::new();
    let mut i: usize = 0;
    proof {
        assert(texts.take(0).len() == 0);
    }
    while i < lines.len()
        invariant
            0 <= i <= lines.len(),
            texts == spec_texts(lines@),
            text@ == spec_join_lines(texts.take(i as int)),
        decreases lines.len() - i,
    {
        proof {
            let next = texts.take(i + 1);
            assert(next.drop_last() =~= texts.take(i as int));
            assert(next.last() == lines@[i as int]@);
            if i == 0 {
                assert(text@ + lines@[i as int]@ =~= next[0]);
            }
        }
        if i > 0 {
            text.append("\n");
        }
        text.append(lines[i].as_str());
        i += 1;
    }
    proof {
        assert(texts.take(i as int) =~= texts);
    }
    text
}

/// A text in the style of the finding `bucket`, as the terminal is to show
/// it: the text itself where styling is off, else the text between the
/// sequences that switch the style on and off.
fn emphasize(bucket: Bucket, text: &str) -> (shown: String)
    ensures
        spec_shows(shown@, bucket.spec_style(), text@),
{
    match bucket {
        Bucket::NotStaged => bold_red(text),
        Bucket::Staged => bold_green(text),
    }
}

/// The list of the finding `bucket`: nothing where `names` is empty, else a
/// heading and the entry line of each name, in their order.
///
/// The heading and the names are styled for the terminal: each of them is
/// shown either plain or between escape sequences, as the terminal takes
/// it. The remedies are plain text.
pub fn section_lines(bucket: Bucket, names: &Vec<String>) -> (lines: Vec<String>)
    ensures
        spec_is_section(spec_texts(lines@), bucket, spec_texts(names@)),
{
    let mut lines: Vec<String> = Vec::new();
    if names.len() == 0 {
        return lines;
    }
    let lead = bold("The following submodules are");
    let label = emphasize(bucket, bucket.label());
    let tail = bold("for commit:");
    let heading = heading_line(lead.as_str(), label.as_str(), tail.as_str());
    assert(spec_is_heading(heading@, bucket));
    lines.push(heading);
    let mut i: usize = 0;
    while i < names.len()
        invariant
            0 <= i <= names.len(),
            lines.len() == i + 1,
            spec_is_heading(spec_texts(lines@)[0], bucket),
            forall|j: int|
                1 <= j < lines.len() ==> spec_is_entry(
                    #[trigger] spec_texts(lines@)[j],
                    bucket,
                    spec_texts(names@)[j - 1],
                ),
        decreases names.len() - i,
    {
        let shown = emphasize(bucket, names[i].as_str());
        let line = entry_line(bucket, shown.as_str(), names[i].as_str());
        let ghost before = spec_texts(lines@);
        assert(spec_is_entry(line@, bucket, spec_texts(names@)[i as int]));
        lines.push(line);
        proof {
            let after = spec_texts(lines@);
            assert forall|j: int| 1 <= j < lines.len() implies spec_is_entry(
                #[trigger] after[j],
                bucket,
                spec_texts(names@)[j - 1],
            ) by {
                if j < lines.len() - 1 {
                    assert(after[j] == before[j]);
                }
            }
            assert(after[0] == before[0]);
        }
        i += 1;
    }
    lines
}

/// The lines of the report that is shown before the question: the list of
/// the submodules that are modified and not staged, then the list of those
/// that are staged.
pub fn confirmation_message_lines(diagnostic: &SubmodulesDiagnostic) -> (lines: Vec<String>)
    ensures
        spec_is_report(spec_texts(lines@), diagnostic@),
{
    let mut lines = section_lines(Bucket::NotStaged, &diagnostic.modified_not_staged_submodules);
    let mut staged = section_lines(Bucket::Staged, &diagnostic.modified_staged_submodules);
    let ghost first = spec_texts(lines@);
    let ghost second = spec_texts(staged@);
    lines.append(&mut staged);
    proof {
        let all = spec_texts(lines@);
        assert(all =~= first + second);
        assert(all.take(first.len() as int) =~= first);
        assert(all.skip(first.len() as int) =~= second);
    }
    lines
}

/// The report that is shown before the question, as one text.
pub fn confirmation_message(diagnostic: &SubmodulesDiagnostic) -> (text: String)
    ensures
        exists|lines: Seq<Seq<char>>|
            spec_is_report(lines, diagnostic@) && text@ == #[trigger] spec_join_lines(lines),
{
    let lines = confirmation_message_lines(diagnostic);
    join_lines(&lines)
}

} // verus!
