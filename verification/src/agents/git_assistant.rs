//! The git assistant: reads what the user wants done with a repository, and
//! words the report of what came of it. Running git itself is left to the
//! caller.

use vstd::prelude::*;
use vstd::string::{StrSliceExecFns, StringExecFns};
use crate::ai::{single_turn, ChatRequest};
use crate::error::Error;
use crate::text::{
    count_matches, decimal_of, decimal_text, join_from, joined, lines_of, match_count, same_text,
    split_lines, split_words, trim_text, trimmed_of, words_of,
};
use crate::types::{AgentConfig, AgentConfigView};

verus! {

/// What the assistant says when it is told nothing.
pub const GIT_HELP: &'static str = "I can help you with Git operations! Try these commands:\n- status: Show repository status\n- add <files>: Stage files (use '.' for all)\n- commit [message]: Commit changes with optional message\n- branch <name>: Create a new branch\n- checkout <branch>: Switch branches\n- merge <branch>: Merge a branch\n- push: Push changes to remote\n- pull: Pull changes from remote\n- cd <path>: Change working directory";

/// What the user wants done.
#[derive(Debug, PartialEq)]
pub enum GitCommand {
    /// Nothing was said: show what can be done.
    Help,
    /// Work in another directory.
    ChangeDir(String),
    /// Show the state of the repository.
    Status,
    /// `add` without files.
    AddNothing,
    /// Stage these files.
    Add(Vec<String>),
    /// Commit what is staged, with this message or a generated one.
    Commit(Option<String>),
    /// List the branches.
    ListBranches,
    /// Create this branch and switch to it.
    CreateBranch(String),
    /// Switch to this branch.
    Checkout(String),
    /// Merge the current branch into this one.
    Merge(String),
    Push,
    Pull,
    /// Anything else, by its first word.
    Unknown(String),
}

/// What the user wants done, as mathematical value.
pub enum GitCommandView {
    Help,
    ChangeDir(Seq<char>),
    Status,
    AddNothing,
    Add(Seq<Seq<char>>),
    Commit(Option<Seq<char>>),
    ListBranches,
    CreateBranch(Seq<char>),
    Checkout(Seq<char>),
    Merge(Seq<char>),
    Push,
    Pull,
    Unknown(Seq<char>),
}

impl DeepView for GitCommand {
    type V = GitCommandView;

    open spec fn deep_view(&self) -> GitCommandView {
        match *self {
            GitCommand::Help => GitCommandView::Help,
            GitCommand::ChangeDir(p) => GitCommandView::ChangeDir(p@),
            GitCommand::Status => GitCommandView::Status,
            GitCommand::AddNothing => GitCommandView::AddNothing,
            GitCommand::Add(files) => GitCommandView::Add(files.deep_view()),
            GitCommand::Commit(m) => GitCommandView::Commit(m.deep_view()),
            GitCommand::ListBranches => GitCommandView::ListBranches,
            GitCommand::CreateBranch(b) => GitCommandView::CreateBranch(b@),
            GitCommand::Checkout(b) => GitCommandView::Checkout(b@),
            GitCommand::Merge(b) => GitCommandView::Merge(b@),
            GitCommand::Push => GitCommandView::Push,
            GitCommand::Pull => GitCommandView::Pull,
            GitCommand::Unknown(w) => GitCommandView::Unknown(w@),
        }
    }
}

impl View for GitCommand {
    type V = GitCommandView;

    open spec fn view(&self) -> GitCommandView {
        self.deep_view()
    }
}

/// The command that a sequence of words stands for.
///
/// The first word names the command. `cd`, `checkout` and `merge` need one
/// more word, else they are unknown; the path of `cd` and the message of
/// `commit` are all further words joined by single spaces.
pub open spec fn command_of_words(parts: Seq<Seq<char>>) -> GitCommandView {
    if parts.len() == 0 {
        GitCommandView::Help
    } else if parts[0] == "cd"@ && parts.len() > 1 {
        GitCommandView::ChangeDir(joined(parts.skip(1), " "@))
    } else if parts[0] == "status"@ {
        GitCommandView::Status
    } else if parts[0] == "add"@ {
        if parts.len() < 2 {
            GitCommandView::AddNothing
        } else {
            GitCommandView::Add(parts.skip(1))
        }
    } else if parts[0] == "commit"@ {
        if parts.len() > 1 {
            GitCommandView::Commit(Some(joined(parts.skip(1), " "@)))
        } else {
            GitCommandView::Commit(None)
        }
    } else if parts[0] == "branch"@ {
        if parts.len() < 2 {
            GitCommandView::ListBranches
        } else {
            GitCommandView::CreateBranch(parts[1])
        }
    } else if parts[0] == "checkout"@ && parts.len() > 1 {
        GitCommandView::Checkout(parts[1])
    } else if parts[0] == "merge"@ && parts.len() > 1 {
        GitCommandView::Merge(parts[1])
    } else if parts[0] == "push"@ {
        GitCommandView::Push
    } else if parts[0] == "pull"@ {
        GitCommandView::Pull
    } else {
        GitCommandView::Unknown(parts[0])
    }
}

/// A copy of all words but the first.
fn rest_of(parts: &Vec<String>) -> (r: Vec<String>)
    requires
        parts.len() >= 1,
    ensures
        r.deep_view() == parts.deep_view().skip(1),
{
    let mut out: Vec<String> = Vec::new();
    let mut i: usize = 1;
    while i < parts.len()
        invariant
            1 <= i <= parts.len(),
            out.len() == i - 1,
            forall|j: int| 0 <= j < i - 1 ==> out@[j]@ == parts@[j + 1]@,
        decreases parts.len() - i,
    {
        out.push(parts[i].clone());
        i += 1;
    }
    assert(out.deep_view() =~= parts.deep_view().skip(1));
    out
}

impl GitCommand {
    /// Reads a command from words.
    pub fn from_words(parts: &Vec<String>) -> (r: GitCommand)
        ensures
            r@ == command_of_words(parts.deep_view()),
    {
        if parts.len() == 0 {
            return GitCommand::Help;
        }
        let first = parts[0].as_str();
        assert(parts.deep_view()[0] == first@);
        let more = parts.len() > 1;
        if same_text(first, "cd") && more {
            GitCommand::ChangeDir(join_from(parts, 1, " "))
        } else if same_text(first, "status") {
            GitCommand::Status
        } else if same_text(first, "add") {
            if more {
                GitCommand::Add(rest_of(parts))
            } else {
                GitCommand::AddNothing
            }
        } else if same_text(first, "commit") {
            if more {
                GitCommand::Commit(Some(join_from(parts, 1, " ")))
            } else {
                GitCommand::Commit(None)
            }
        } else if same_text(first, "branch") {
            if more {
                assert(parts.deep_view()[1] == parts@[1]@);
                GitCommand::CreateBranch(parts[1].clone())
            } else {
                GitCommand::ListBranches
            }
        } else if same_text(first, "checkout") && more {
            assert(parts.deep_view()[1] == parts@[1]@);
            GitCommand::Checkout(parts[1].clone())
        } else if same_text(first, "merge") && more {
            assert(parts.deep_view()[1] == parts@[1]@);
            GitCommand::Merge(parts[1].clone())
        } else if same_text(first, "push") {
            GitCommand::Push
        } else if same_text(first, "pull") {
            GitCommand::Pull
        } else {
            GitCommand::Unknown(parts[0].clone())
        }
    }

    /// Reads a command from a message: the command that its words stand for.
    pub fn parse(message: &str) -> (r: GitCommand)
        ensures
            r@ == command_of_words(words_of(message@)),
    {
        let parts = split_words(message);
        GitCommand::from_words(&parts)
    }
}

/// What is said of a command that is not known.
pub open spec fn unknown_text(word: Seq<char>) -> Seq<char> {
    "Unknown command: "@ + word + ". Type 'help' for available commands."@
}

/// What is said of a command that is not known.
pub fn unknown_reply(word: &str) -> (r: String)
    ensures
        r@ == unknown_text(word@),
{
    "Unknown command: ".to_owned().concat(word).concat(". Type 'help' for available commands.")
}

/// The longest diff, in bytes, that a commit message is generated for.
pub const MAX_DIFF_SIZE: usize = 4000;

/// The commit message for a diff too large to describe: it counts the files
/// changed and asks for a message by hand.
pub open spec fn large_update_text(files_changed: nat) -> Seq<char> {
    "feat: large update ("@ + decimal_of(files_changed)
        + " files changed)\n\nLarge changeset detected. Please review the changes and provide a manual commit message."@
}

/// The commit message that needs no text service: for a diff over the size
/// limit, the large-update message with the number of files in the diff;
/// for any other diff, none.
pub fn commit_message_without_service(diff: &str) -> (r: Option<String>)
    ensures
        r.deep_view() == if diff.len() > MAX_DIFF_SIZE {
            Some(large_update_text(match_count(diff@, "diff --git"@)))
        } else {
            None
        },
{
    if diff.len() > MAX_DIFF_SIZE {
        let files = count_matches(diff, "diff --git");
        Some(
            "feat: large update (".to_owned().concat(decimal_text(files).as_str()).concat(
                " files changed)\n\nLarge changeset detected. Please review the changes and provide a manual commit message.",
            ),
        )
    } else {
        None
    }
}

/// What the text service says when it cannot tell what changed.
pub const NEED_MORE_CONTEXT: &'static str = "NEED_MORE_CONTEXT";

/// What is said in place of a commit message that could not be generated.
pub const ASK_FOR_MESSAGE: &'static str = "Please provide a commit message. The changes are too complex for automatic generation.";

/// The commit message that a reply of the text service amounts to: the reply
/// itself, unless there is none or it asks for more context.
pub open spec fn settled_message(reply: Option<Seq<char>>) -> Seq<char> {
    match reply {
        Some(m) => if m == NEED_MORE_CONTEXT@ {
            ASK_FOR_MESSAGE@
        } else {
            m
        },
        None => ASK_FOR_MESSAGE@,
    }
}

/// Settles the commit message from what the text service replied.
pub fn settle_commit_message(reply: Option<String>) -> (r: String)
    ensures
        r@ == settled_message(reply.deep_view()),
{
    match reply {
        Some(m) => {
            if same_text(m.as_str(), NEED_MORE_CONTEXT) {
                ASK_FOR_MESSAGE.to_owned()
            } else {
                m
            }
        },
        None => ASK_FOR_MESSAGE.to_owned(),
    }
}

/// What is said of a repository without changes.
pub const CLEAN_REPOSITORY: &'static str = "Repository is clean. No changes detected.";

/// Whether a line of a status listing carries the two-character mark `a`,
/// `b` and a file name after it.
pub open spec fn is_marked(line: Seq<char>, a: char, b: char) -> bool {
    line.len() >= 3 && line[0] == a && line[1] == b
}

/// The files that a status listing marks with `a`, `b`, in order: of each
/// marked line, what follows the third character, without the white space
/// around it.
pub open spec fn files_marked(lines: Seq<Seq<char>>, a: char, b: char) -> Seq<Seq<char>>
    decreases lines.len(),
{
    if lines.len() == 0 {
        Seq::empty()
    } else if is_marked(lines.last(), a, b) {
        files_marked(lines.drop_last(), a, b).push(trimmed_of(lines.last().skip(3)))
    } else {
        files_marked(lines.drop_last(), a, b)
    }
}

/// One line `  - file` for each file.
pub open spec fn bullets(files: Seq<Seq<char>>) -> Seq<char>
    decreases files.len(),
{
    if files.len() == 0 {
        Seq::empty()
    } else {
        bullets(files.drop_last()) + "  - "@ + files.last() + "\n"@
    }
}

/// A section of the report: nothing where there are no files; else the
/// title, the files, and an empty line where `gap` asks for one.
pub open spec fn section(title: Seq<char>, files: Seq<Seq<char>>, gap: bool) -> Seq<char> {
    if files.len() == 0 {
        Seq::empty()
    } else if gap {
        title + bullets(files) + "\n"@
    } else {
        title + bullets(files)
    }
}

/// The branch line of the report: where the first line of the listing starts
/// with `## `, what follows names the branch.
pub open spec fn branch_header(lines: Seq<Seq<char>>) -> Seq<char> {
    if lines.len() > 0 && lines[0].len() >= 3 && lines[0][0] == '#' && lines[0][1] == '#'
        && lines[0][2] == ' ' {
        "On branch: "@ + lines[0].skip(3) + "\n\n"@
    } else {
        Seq::empty()
    }
}

/// All lines but the first.
pub open spec fn after_first(lines: Seq<Seq<char>>) -> Seq<Seq<char>> {
    if lines.len() > 0 {
        lines.skip(1)
    } else {
        Seq::empty()
    }
}

/// The report for the short status listing that git prints.
///
/// An empty listing means a clean repository. Else the first line may name
/// the branch, and of the lines after it those marked `A ` are staged, `M `
/// modified and `??` untracked.
pub open spec fn status_report(listing: Seq<char>) -> Seq<char> {
    if listing.len() == 0 {
        CLEAN_REPOSITORY@
    } else {
        let lines = lines_of(listing);
        let entries = after_first(lines);
        branch_header(lines) + section(
            "Changes staged for commit:\n"@,
            files_marked(entries, 'A', ' '),
            true,
        ) + section("Modified files:\n"@, files_marked(entries, 'M', ' '), true) + section(
            "Untracked files:\n"@,
            files_marked(entries, '?', '?'),
            false,
        )
    }
}

/// Collects the files that the lines after the first mark with `a`, `b`.
fn collect_marked(lines: &Vec<String>, a: char, b: char) -> (r: Vec<String>)
    ensures
        r.deep_view() == files_marked(after_first(lines.deep_view()), a, b),
{
    let mut out: Vec<String> = Vec::new();
    if lines.len() == 0 {
        assert(out.deep_view() =~= Seq::<Seq<char>>::empty());
        return out;
    }
    let ghost entries = lines.deep_view().skip(1);
    let mut i: usize = 1;
    assert(entries.take(0) =~= Seq::<Seq<char>>::empty());
    assert(out.deep_view() =~= Seq::<Seq<char>>::empty());
    while i < lines.len()
        invariant
            1 <= i <= lines.len(),
            entries == lines.deep_view().skip(1),
            out.deep_view() == files_marked(entries.take(i - 1), a, b),
        decreases lines.len() - i,
    {
        let line = lines[i].as_str();
        let ghost before = out.deep_view();
        proof {
            let next = entries.take(i as int);
            assert(next.drop_last() =~= entries.take(i - 1));
            assert(next.last() == line@);
        }
        let n = line.unicode_len();
        if n >= 3 && line.get_char(0) == a && line.get_char(1) == b {
            let file = trim_text(line.substring_char(3, n));
            assert(line@.subrange(3, n as int) =~= line@.skip(3));
            out.push(file.to_owned());
            assert(out.deep_view() =~= before.push(trimmed_of(line@.skip(3))));
        }
        i += 1;
    }
    assert(entries.take(i - 1) =~= entries);
    out
}

/// Writes one line `  - file` for each file.
fn write_bullets(files: &Vec<String>) -> (r: String)
    ensures
        r@ == bullets(files.deep_view()),
{
    let mut out = String::new();
    let mut i: usize = 0;
    while i < files.len()
        invariant
            i <= files.len(),
            out@ == bullets(files.deep_view().take(i as int)),
        decreases files.len() - i,
    {
        proof {
            let next = files.deep_view().take(i + 1);
            assert(next.drop_last() =~= files.deep_view().take(i as int));
            assert(next.last() == files.deep_view()[i as int]);
        }
        out = out.concat("  - ").concat(files[i].as_str()).concat("\n");
        i += 1;
    }
    assert(files.deep_view().take(i as int) =~= files.deep_view());
    out
}

/// Writes a section of the report.
fn write_section(title: &str, files: &Vec<String>, gap: bool) -> (r: String)
    ensures
        r@ == section(title@, files.deep_view(), gap),
{
    if files.len() == 0 {
        String::new()
    } else if gap {
        title.to_owned().concat(write_bullets(files).as_str()).concat("\n")
    } else {
        title.to_owned().concat(write_bullets(files).as_str())
    }
}

/// Writes the branch line of the report.
fn write_branch_header(lines: &Vec<String>) -> (r: String)
    ensures
        r@ == branch_header(lines.deep_view()),
{
    if lines.len() == 0 {
        return String::new();
    }
    let first = lines[0].as_str();
    assert(lines.deep_view()[0] == first@);
    let n = first.unicode_len();
    if n >= 3 && first.get_char(0) == '#' && first.get_char(1) == '#' && first.get_char(2) == ' ' {
        assert(first@.subrange(3, n as int) =~= first@.skip(3));
        "On branch: ".to_owned().concat(first.substring_char(3, n)).concat("\n\n")
    } else {
        String::new()
    }
}

/// Words the report for the short status listing that git prints.
pub fn render_status(listing: &str) -> (r: String)
    ensures
        r@ == status_report(listing@),
{
    if listing.is_empty() {
        return CLEAN_REPOSITORY.to_owned();
    }
    let lines = split_lines(listing);
    let staged = collect_marked(&lines, 'A', ' ');
    let modified = collect_marked(&lines, 'M', ' ');
    let untracked = collect_marked(&lines, '?', '?');
    write_branch_header(&lines).concat(
        write_section("Changes staged for commit:\n", &staged, true).as_str(),
    ).concat(write_section("Modified files:\n", &modified, true).as_str()).concat(
        write_section("Untracked files:\n", &untracked, false).as_str(),
    )
}

/// What came of a command, as far as the report needs it.
#[derive(Debug, PartialEq)]
pub enum GitOutcome {
    /// Nothing was asked.
    Help,
    /// The working directory is now this one.
    DirChanged(String),
    /// The working directory could not be changed; why.
    DirRefused(String),
    /// The short status listing that git printed.
    Status(String),
    /// `add` was given no files.
    AddNothing,
    /// These files were staged.
    Staged(Vec<String>),
    /// Staging failed for these files; each with what git said.
    StagingFailed(Vec<(String, String)>),
    /// Nothing is staged, so nothing was committed.
    NothingStaged,
    /// A commit was made with this message.
    Committed(String),
    /// The commit failed; what git said.
    CommitFailed(String),
    /// The branch listing that git printed.
    Branches(String),
    BranchCreated(String),
    BranchFailed(String),
    Switched(String),
    SwitchFailed(String),
    Merged(String),
    MergeFailed(String),
    Pushed,
    PushFailed(String),
    Pulled,
    PullFailed(String),
    /// The command was not known; its first word.
    Unknown(String),
}

/// The line that reports a file that could not be staged.
pub open spec fn staging_failure_line(failure: (Seq<char>, Seq<char>)) -> Seq<char> {
    "Failed to stage '"@ + failure.0 + "': "@ + failure.1
}

/// A line of a branch listing, with the current branch pointed out: the
/// line that starts with `*`.
pub open spec fn marked_branch(line: Seq<char>) -> Seq<char> {
    if line.len() > 0 && line[0] == '*' {
        line + " (current)"@
    } else {
        line
    }
}

/// The report of an outcome.
pub open spec fn reply_of(outcome: GitOutcome) -> Seq<char> {
    match outcome {
        GitOutcome::Help => GIT_HELP@,
        GitOutcome::DirChanged(path) => "Working directory changed to: "@ + path@,
        GitOutcome::DirRefused(why) => "Error changing directory: "@ + why@,
        GitOutcome::Status(listing) => status_report(listing@),
        GitOutcome::AddNothing => "Please specify files to stage (use '.' for all files)"@,
        GitOutcome::Staged(files) => "Successfully staged: "@ + joined(files.deep_view(), ", "@),
        GitOutcome::StagingFailed(failures) => "Errors occurred while staging:\n"@ + joined(
            failures.deep_view().map_values(
                |f: (Seq<char>, Seq<char>)| staging_failure_line(f),
            ),
            "\n"@,
        ),
        GitOutcome::NothingStaged => "No staged changes to commit. Use 'git add' to stage files first."@,
        GitOutcome::Committed(message) => "Successfully committed changes with message:\n"@
            + message@,
        GitOutcome::CommitFailed(why) => "Failed to commit: "@ + why@,
        GitOutcome::Branches(listing) => "Available branches:\n"@ + joined(
            lines_of(listing@).map_values(|l: Seq<char>| marked_branch(l)),
            "\n"@,
        ),
        GitOutcome::BranchCreated(branch) => "Created and switched to new branch: "@ + branch@,
        GitOutcome::BranchFailed(why) => "Failed to create branch: "@ + why@,
        GitOutcome::Switched(branch) => "Switched to branch: "@ + branch@,
        GitOutcome::SwitchFailed(why) => "Failed to switch branches: "@ + why@,
        GitOutcome::Merged(branch) => "Successfully merged branch: "@ + branch@,
        GitOutcome::MergeFailed(why) => "Failed to merge branch: "@ + why@,
        GitOutcome::Pushed => "Successfully pushed changes to remote"@,
        GitOutcome::PushFailed(why) => "Failed to push changes: "@ + why@,
        GitOutcome::Pulled => "Successfully pulled changes from remote"@,
        GitOutcome::PullFailed(why) => "Failed to pull changes: "@ + why@,
        GitOutcome::Unknown(word) => unknown_text(word@),
    }
}

/// Writes one line for each file that could not be staged.
fn write_staging_failures(failures: &Vec<(String, String)>) -> (r: Vec<String>)
    ensures
        r.deep_view() == failures.deep_view().map_values(
            |f: (Seq<char>, Seq<char>)| staging_failure_line(f),
        ),
{
    let mut out: Vec<String> = Vec::new();
    let mut i: usize = 0;
    while i < failures.len()
        invariant
            i <= failures.len(),
            out.len() == i,
            forall|j: int|
                0 <= j < i ==> out@[j]@ == staging_failure_line(#[trigger] failures.deep_view()[j]),
        decreases failures.len() - i,
    {
        out.push(
            "Failed to stage '".to_owned().concat(failures[i].0.as_str()).concat("': ").concat(
                failures[i].1.as_str(),
            ),
        );
        i += 1;
    }
    assert(out.deep_view() =~= failures.deep_view().map_values(
        |f: (Seq<char>, Seq<char>)| staging_failure_line(f),
    ));
    out
}

/// Points out the current branch in each line of a listing.
fn mark_branches(lines: &Vec<String>) -> (r: Vec<String>)
    ensures
        r.deep_view() == lines.deep_view().map_values(|l: Seq<char>| marked_branch(l)),
{
    let mut out: Vec<String> = Vec::new();
    let mut i: usize = 0;
    while i < lines.len()
        invariant
            i <= lines.len(),
            out.len() == i,
            forall|j: int| 0 <= j < i ==> out@[j]@ == marked_branch(#[trigger] lines.deep_view()[j]),
        decreases lines.len() - i,
    {
        let line = lines[i].as_str();
        assert(lines.deep_view()[i as int] == line@);
        if line.unicode_len() > 0 && line.get_char(0) == '*' {
            out.push(line.to_owned().concat(" (current)"));
        } else {
            out.push(line.to_owned());
        }
        i += 1;
    }
    assert(out.deep_view() =~= lines.deep_view().map_values(|l: Seq<char>| marked_branch(l)));
    out
}

impl GitOutcome {
    /// Words the report of an outcome.
    pub fn reply_text(&self) -> (r: String)
        ensures
            r@ == reply_of(*self),
    {
        match self {
            GitOutcome::Help => GIT_HELP.to_owned(),
            GitOutcome::DirChanged(path) => "Working directory changed to: ".to_owned().concat(
                path.as_str(),
            ),
            GitOutcome::DirRefused(why) => "Error changing directory: ".to_owned().concat(
                why.as_str(),
            ),
            GitOutcome::Status(listing) => render_status(listing.as_str()),
            GitOutcome::AddNothing => "Please specify files to stage (use '.' for all files)".to_owned(),
            GitOutcome::Staged(files) => {
                assert(files.deep_view().skip(0) =~= files.deep_view());
                "Successfully staged: ".to_owned().concat(join_from(files, 0, ", ").as_str())
            },
            GitOutcome::StagingFailed(failures) => {
                let lines = write_staging_failures(failures);
                assert(lines.deep_view().skip(0) =~= lines.deep_view());
                "Errors occurred while staging:\n".to_owned().concat(
                    join_from(&lines, 0, "\n").as_str(),
                )
            },
            GitOutcome::NothingStaged => "No staged changes to commit. Use 'git add' to stage files first.".to_owned(),
            GitOutcome::Committed(message) => "Successfully committed changes with message:\n".to_owned().concat(
                message.as_str(),
            ),
            GitOutcome::CommitFailed(why) => "Failed to commit: ".to_owned().concat(why.as_str()),
            GitOutcome::Branches(listing) => {
                let lines = mark_branches(&split_lines(listing.as_str()));
                assert(lines.deep_view().skip(0) =~= lines.deep_view());
                "Available branches:\n".to_owned().concat(join_from(&lines, 0, "\n").as_str())
            },
            GitOutcome::BranchCreated(branch) => "Created and switched to new branch: ".to_owned().concat(
                branch.as_str(),
            ),
            GitOutcome::BranchFailed(why) => "Failed to create branch: ".to_owned().concat(
                why.as_str(),
            ),
            GitOutcome::Switched(branch) => "Switched to branch: ".to_owned().concat(
                branch.as_str(),
            ),
            GitOutcome::SwitchFailed(why) => "Failed to switch branches: ".to_owned().concat(
                why.as_str(),
            ),
            GitOutcome::Merged(branch) => "Successfully merged branch: ".to_owned().concat(
                branch.as_str(),
            ),
            GitOutcome::MergeFailed(why) => "Failed to merge branch: ".to_owned().concat(
                why.as_str(),
            ),
            GitOutcome::Pushed => "Successfully pushed changes to remote".to_owned(),
            GitOutcome::PushFailed(why) => "Failed to push changes: ".to_owned().concat(
                why.as_str(),
            ),
            GitOutcome::Pulled => "Successfully pulled changes from remote".to_owned(),
            GitOutcome::PullFailed(why) => "Failed to pull changes: ".to_owned().concat(
                why.as_str(),
            ),
            GitOutcome::Unknown(word) => unknown_reply(word.as_str()),
        }
    }
}

/// The instructions that frame a request for a commit message.
pub const COMMIT_PROMPT: &'static str = "You are a helpful assistant that generates clear and concise git commit messages. You analyze git diffs and create conventional commit messages that follow best practices. Focus on describing WHAT changed and WHY, being specific but concise. Use the conventional commits format: type(scope): Detailed description\n\nTypes: feat, fix, docs, style, refactor, test, chore\nExample: feat(auth): add password reset functionality";

/// What the user says when a commit message is asked for.
pub open spec fn commit_content(diff: Seq<char>) -> Seq<char> {
    "Generate a commit message for these changes. If you can't determine the changes clearly, respond with 'NEED_MORE_CONTEXT':\n\n"@
        + diff
}

/// The request for a commit message for `diff`.
pub fn commit_request(diff: &str) -> (r: ChatRequest)
    ensures
        r@ == single_turn(COMMIT_PROMPT@, commit_content(diff@)),
{
    ChatRequest::from_user(
        COMMIT_PROMPT.to_owned(),
        "Generate a commit message for these changes. If you can't determine the changes clearly, respond with 'NEED_MORE_CONTEXT':\n\n".to_owned().concat(
            diff,
        ),
    )
}

/// How a commit goes on once the staged diff is known.
#[derive(Debug, PartialEq)]
pub enum CommitPlan {
    /// Nothing is staged: there is nothing to commit.
    NothingStaged,
    /// Commit with this message.
    Commit(String),
    /// Ask the text service for a message first, with this request.
    AskForMessage(ChatRequest),
}

/// Plans a commit from the staged diff and the message that the user gave,
/// if any.
///
/// An empty diff means that nothing is staged. A message from the user
/// stands. Without one, a diff over the size limit gets the large-update
/// message, and any other diff is put to the text service.
pub fn plan_commit(diff: &str, given: Option<String>) -> (r: CommitPlan)
    ensures
        diff@.len() == 0 ==> r == CommitPlan::NothingStaged,
        diff@.len() > 0 ==> match given {
            Some(message) => r == CommitPlan::Commit(message),
            None => if diff.len() > MAX_DIFF_SIZE {
                r matches CommitPlan::Commit(m) && m@ == large_update_text(
                    match_count(diff@, "diff --git"@),
                )
            } else {
                r matches CommitPlan::AskForMessage(q) && q@ == single_turn(
                    COMMIT_PROMPT@,
                    commit_content(diff@),
                )
            },
        },
{
    if diff.is_empty() {
        return CommitPlan::NothingStaged;
    }
    match given {
        Some(message) => CommitPlan::Commit(message),
        None => match commit_message_without_service(diff) {
            Some(message) => CommitPlan::Commit(message),
            None => CommitPlan::AskForMessage(commit_request(diff)),
        },
    }
}

/// What came of staging files: all staged where nothing failed, else the
/// failures.
pub fn staging_outcome(files: Vec<String>, failures: Vec<(String, String)>) -> (r: GitOutcome)
    ensures
        failures@.len() == 0 ==> r == GitOutcome::Staged(files),
        failures@.len() > 0 ==> r == GitOutcome::StagingFailed(failures),
{
    if failures.len() == 0 {
        GitOutcome::Staged(files)
    } else {
        GitOutcome::StagingFailed(failures)
    }
}

/// A step that git either carries out or complains about.
#[derive(Debug, Clone, Copy, PartialEq, Eq, Structural)]
pub enum GitStep {
    ChangeDir,
    Commit,
    CreateBranch,
    Checkout,
    Merge,
    Push,
    Pull,
}

/// What came of a step: `subject` is what the step was about (the new
/// directory, the commit message, the branch; nothing for push and pull),
/// and `complaint` is what went wrong, if anything did.
pub fn step_outcome(step: GitStep, subject: String, complaint: Option<String>) -> (r: GitOutcome)
    ensures
        r == match (step, complaint) {
            (GitStep::ChangeDir, None) => GitOutcome::DirChanged(subject),
            (GitStep::ChangeDir, Some(why)) => GitOutcome::DirRefused(why),
            (GitStep::Commit, None) => GitOutcome::Committed(subject),
            (GitStep::Commit, Some(why)) => GitOutcome::CommitFailed(why),
            (GitStep::CreateBranch, None) => GitOutcome::BranchCreated(subject),
            (GitStep::CreateBranch, Some(why)) => GitOutcome::BranchFailed(why),
            (GitStep::Checkout, None) => GitOutcome::Switched(subject),
            (GitStep::Checkout, Some(why)) => GitOutcome::SwitchFailed(why),
            (GitStep::Merge, None) => GitOutcome::Merged(subject),
            (GitStep::Merge, Some(why)) => GitOutcome::MergeFailed(why),
            (GitStep::Push, None) => GitOutcome::Pushed,
            (GitStep::Push, Some(why)) => GitOutcome::PushFailed(why),
            (GitStep::Pull, None) => GitOutcome::Pulled,
            (GitStep::Pull, Some(why)) => GitOutcome::PullFailed(why),
        },
{
    match (step, complaint) {
        (GitStep::ChangeDir, None) => GitOutcome::DirChanged(subject),
        (GitStep::ChangeDir, Some(why)) => GitOutcome::DirRefused(why),
        (GitStep::Commit, None) => GitOutcome::Committed(subject),
        (GitStep::Commit, Some(why)) => GitOutcome::CommitFailed(why),
        (GitStep::CreateBranch, None) => GitOutcome::BranchCreated(subject),
        (GitStep::CreateBranch, Some(why)) => GitOutcome::BranchFailed(why),
        (GitStep::Checkout, None) => GitOutcome::Switched(subject),
        (GitStep::Checkout, Some(why)) => GitOutcome::SwitchFailed(why),
        (GitStep::Merge, None) => GitOutcome::Merged(subject),
        (GitStep::Merge, Some(why)) => GitOutcome::MergeFailed(why),
        (GitStep::Push, None) => GitOutcome::Pushed,
        (GitStep::Push, Some(why)) => GitOutcome::PushFailed(why),
        (GitStep::Pull, None) => GitOutcome::Pulled,
        (GitStep::Pull, Some(why)) => GitOutcome::PullFailed(why),
    }
}

/// The git assistant: its configuration and the directory it works in.
pub struct GitAssistantAgent {
    config: AgentConfig,
    working_dir: String,
}

impl GitAssistantAgent {
    /// The assistant's configuration.
    pub closed spec fn config(&self) -> AgentConfigView {
        self.config@
    }

    /// The directory that the assistant works in.
    pub closed spec fn working_dir(&self) -> Seq<char> {
        self.working_dir@
    }

    /// An assistant that works in the current directory.
    pub fn new(config: AgentConfig) -> (r: Self)
        ensures
            r.config() == config@,
            r.working_dir() == "."@,
    {
        Self { config, working_dir: ".".to_owned() }
    }

    /// A copy of the assistant's configuration.
    pub fn get_config(&self) -> (r: AgentConfig)
        ensures
            r@ == self.config(),
    {
        self.config.clone()
    }

    /// The directory that the assistant works in.
    pub fn get_working_dir(&self) -> (r: &str)
        ensures
            r@ == self.working_dir(),
    {
        self.working_dir.as_str()
    }

    /// Makes `path` the working directory, given what the file system says
    /// of it. A path that is not there, or is no directory, is refused with
    /// a `ValidationError`, and the working directory stays.
    pub fn set_working_dir(&mut self, path: &str, present: bool, directory: bool) -> (r: Result<
        (),
        Error,
    >)
        ensures
            final(self).config() == old(self).config(),
            !present ==> {
                &&& r matches Err(Error::ValidationError(w)) && w@ == "Directory does not exist: "@
                    + path@
                &&& final(self).working_dir() == old(self).working_dir()
            },
            present && !directory ==> {
                &&& r matches Err(Error::ValidationError(w)) && w@ == "Path is not a directory: "@
                    + path@
                &&& final(self).working_dir() == old(self).working_dir()
            },
            present && directory ==> r is Ok && final(self).working_dir() == path@,
    {
        if !present {
            return Err(
                Error::ValidationError("Directory does not exist: ".to_owned().concat(path)),
            );
        }
        if !directory {
            return Err(Error::ValidationError("Path is not a directory: ".to_owned().concat(path)));
        }
        self.working_dir = path.to_owned();
        Ok(())
    }
}

} // verus!
