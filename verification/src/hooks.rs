//! What the hook decides: given the commit message and the name of the
//! checked-out branch, whether the message stays as it is, gets the branch's
//! ticket id in front, or contradicts the branch.

use crate::pattern::{capture_group, captured_text, opt_view, pattern_compiles, rejection_text};
use crate::text::{blank, is_blank, joined, same_text, starts_with, uppercased};
use crate::ticket::{is_ticket, is_ticket_id};
use vstd::prelude::*;

verus! {

/// Finds the ticket id at the front of an uppercased branch name, after an
/// optional `SCOPE/` segment. The id is the second group.
pub const BRANCH_PATTERN: &'static str = "^([A-Z]+/)?([A-Z]+-[0-9]+)";

/// Finds a ticket id at the front of a message, followed by an optional
/// colon and one space. The id is the first group.
pub const MESSAGE_PATTERN: &'static str = "^([A-Z]+-[0-9]+):? ";

/// How a run ended when it did not fail.
#[derive(Debug)]
pub enum Outcome {
    /// The message holds nothing but white space.
    EmptyMessage,
    /// The message belongs to a fixup or squash commit.
    FixupOrSquash,
    /// The branch name carries no ticket id.
    NonPrefixedBranch,
    /// The message already starts with the branch's ticket id.
    AlreadyPrefixed,
    /// The ticket id was put in front; `message` is the new text.
    PrefixAdded { message: String },
}

/// Why a run failed.
#[derive(Debug)]
pub enum HookError {
    /// No branch name could be determined.
    BranchUnknown,
    /// The regular expression engine rejected one of the two patterns.
    InvalidPattern(regex::Error),
    /// The message starts with a ticket id other than the branch's.
    PrefixMismatch { existing: String, desired: String },
}

/// An [`Outcome`] over characters.
pub enum OutcomeModel {
    EmptyMessage,
    FixupOrSquash,
    NonPrefixedBranch,
    AlreadyPrefixed,
    PrefixAdded { message: Seq<char> },
}

/// A [`HookError`] over characters.
pub enum ErrorModel {
    BranchUnknown,
    InvalidPattern,
    PrefixMismatch { existing: Seq<char>, desired: Seq<char> },
}

impl View for Outcome {
    type V = OutcomeModel;

    open spec fn view(&self) -> OutcomeModel {
        match self {
            Outcome::EmptyMessage => OutcomeModel::EmptyMessage,
            Outcome::FixupOrSquash => OutcomeModel::FixupOrSquash,
            Outcome::NonPrefixedBranch => OutcomeModel::NonPrefixedBranch,
            Outcome::AlreadyPrefixed => OutcomeModel::AlreadyPrefixed,
            Outcome::PrefixAdded { message } => OutcomeModel::PrefixAdded { message: message@ },
        }
    }
}

impl View for HookError {
    type V = ErrorModel;

    open spec fn view(&self) -> ErrorModel {
        match self {
            HookError::BranchUnknown => ErrorModel::BranchUnknown,
            HookError::InvalidPattern(_) => ErrorModel::InvalidPattern,
            HookError::PrefixMismatch { existing, desired } => ErrorModel::PrefixMismatch {
                existing: existing@,
                desired: desired@,
            },
        }
    }
}

/// The result of a run over characters.
pub open spec fn result_view(r: Result<Outcome, HookError>) -> Result<OutcomeModel, ErrorModel> {
    match r {
        Ok(outcome) => Ok(outcome@),
        Err(error) => Err(error@),
    }
}

/// The result of a search for a ticket id over characters.
pub open spec fn lookup_view(r: Result<Option<String>, HookError>) -> Result<
    Option<Seq<char>>,
    ErrorModel,
> {
    match r {
        Ok(found) => Ok(opt_view(found)),
        Err(error) => Err(error@),
    }
}

/// The characters of an optional string slice.
pub open spec fn name_view(name: Option<&str>) -> Option<Seq<char>> {
    match name {
        Some(n) => Some(n@),
        None => None,
    }
}

/// The text that opens the message of a fixup commit.
pub open spec fn fixup_marker() -> Seq<char> {
    seq!['f', 'i', 'x', 'u', 'p', '!']
}

/// The text that opens the message of a squash commit.
pub open spec fn squash_marker() -> Seq<char> {
    seq!['s', 'q', 'u', 'a', 's', 'h', '!']
}

/// What stands between the ticket id and the message it is put in front of.
pub open spec fn separator() -> Seq<char> {
    seq![':', ' ']
}

/// A message that begins with `fixup!` or `squash!`.
pub open spec fn is_autosquash(message: Seq<char>) -> bool {
    fixup_marker().is_prefix_of(message) || squash_marker().is_prefix_of(message)
}

/// A message is examined against the branch unless it is blank or belongs to
/// a fixup or squash commit.
pub open spec fn wants_branch(message: Seq<char>) -> bool {
    !is_blank(message) && !is_autosquash(message)
}

/// What a search with `pattern` for group `group` gives: an error where the
/// engine rejects the pattern, else the text of the group, if any.
pub open spec fn lookup(pattern: Seq<char>, haystack: Seq<char>, group: nat) -> Result<
    Option<Seq<char>>,
    ErrorModel,
> {
    if pattern_compiles(pattern) {
        Ok(captured_text(pattern, haystack, group))
    } else {
        Err(ErrorModel::InvalidPattern)
    }
}

/// What is kept of a text found in a branch name: the text itself where it
/// is a ticket id, else nothing.
pub open spec fn ticket_only(found: Option<Seq<char>>) -> Option<Seq<char>> {
    match found {
        Some(id) if is_ticket(id) => Some(id),
        _ => None,
    }
}

/// The ticket id that a branch name asks for: the second group of
/// [`BRANCH_PATTERN`] on the uppercased name, as far as it is a ticket id.
pub open spec fn branch_lookup(branch: Seq<char>) -> Result<Option<Seq<char>>, ErrorModel> {
    match lookup(BRANCH_PATTERN@, uppercased(branch), 2) {
        Ok(found) => Ok(ticket_only(found)),
        Err(error) => Err(error),
    }
}

/// The ticket id that a message already starts with: the first group of
/// [`MESSAGE_PATTERN`] on the message as it stands.
pub open spec fn message_lookup(message: Seq<char>) -> Result<Option<Seq<char>>, ErrorModel> {
    lookup(MESSAGE_PATTERN@, message, 1)
}

/// `message` with the ticket id `prefix` in front.
pub open spec fn with_prefix(prefix: Seq<char>, message: Seq<char>) -> Seq<char> {
    prefix + separator() + message
}

/// What becomes of a message on a branch that asks for `desired`, when the
/// message starts with the ticket id `existing`, or with none.
pub open spec fn reconcile_model(
    message: Seq<char>,
    desired: Seq<char>,
    existing: Option<Seq<char>>,
) -> Result<OutcomeModel, ErrorModel> {
    match existing {
        Some(found) => if found == desired {
            Ok(OutcomeModel::AlreadyPrefixed)
        } else {
            Err(ErrorModel::PrefixMismatch { existing: found, desired })
        },
        None => Ok(OutcomeModel::PrefixAdded { message: with_prefix(desired, message) }),
    }
}

/// The whole decision. `branch` is `None` where no branch name could be
/// determined.
pub open spec fn hook_model(message: Seq<char>, branch: Option<Seq<char>>) -> Result<
    OutcomeModel,
    ErrorModel,
> {
    if is_blank(message) {
        Ok(OutcomeModel::EmptyMessage)
    } else if is_autosquash(message) {
        Ok(OutcomeModel::FixupOrSquash)
    } else {
        match branch {
            None => Err(ErrorModel::BranchUnknown),
            Some(name) => match branch_lookup(name) {
                Err(error) => Err(error),
                Ok(None) => Ok(OutcomeModel::NonPrefixedBranch),
                Ok(Some(desired)) => match message_lookup(message) {
                    Err(error) => Err(error),
                    Ok(existing) => reconcile_model(message, desired, existing),
                },
            },
        }
    }
}

/// What the message file holds after a run on `message` that ended in
/// `result`: the new text where a prefix was added, else the message as it
/// was.
pub open spec fn content_after(message: Seq<char>, result: Result<OutcomeModel, ErrorModel>) -> Seq<
    char,
> {
    match result {
        Ok(OutcomeModel::PrefixAdded { message: rewritten }) => rewritten,
        _ => message,
    }
}

/// The line that tells the user how a run ended; a run on a blank message
/// tells nothing.
pub open spec fn notice_model(outcome: OutcomeModel) -> Option<Seq<char>> {
    match outcome {
        OutcomeModel::EmptyMessage => None,
        OutcomeModel::FixupOrSquash => Some(
            "commit-msg-hook: fixup or squash commit; no action."@,
        ),
        OutcomeModel::NonPrefixedBranch => Some(
            "commit-msg-hook: on non-prefixed branch; no action."@,
        ),
        OutcomeModel::AlreadyPrefixed => Some(
            "commit-msg-hook: message already prefixed correctly; no action."@,
        ),
        OutcomeModel::PrefixAdded { .. } => Some("commit-msg-hook: prefix added successfully"@),
    }
}

/// The line that names two ticket ids that contradict each other.
pub open spec fn mismatch_text(existing: Seq<char>, desired: Seq<char>) -> Seq<char> {
    "commit-msg-hook: the message prefix '"@ + existing
        + "' does not match the branch prefix '"@ + desired + "'"@
}

impl Outcome {
    /// The text to write to the message file, where the run changed it.
    pub fn rewritten(&self) -> (r: Option<&str>)
        ensures
            match self@ {
                OutcomeModel::PrefixAdded { message } => name_view(r) == Some(message),
                _ => r is None,
            },
    {
        match self {
            Outcome::PrefixAdded { message } => Some(message.as_str()),
            _ => None,
        }
    }

    /// The line that tells the user how the run ended, if there is one.
    pub fn notice(&self) -> (r: Option<&'static str>)
        ensures
            name_view(r) == notice_model(self@),
    {
        match self {
            Outcome::EmptyMessage => None,
            Outcome::FixupOrSquash => Some("commit-msg-hook: fixup or squash commit; no action."),
            Outcome::NonPrefixedBranch => Some(
                "commit-msg-hook: on non-prefixed branch; no action.",
            ),
            Outcome::AlreadyPrefixed => Some(
                "commit-msg-hook: message already prefixed correctly; no action.",
            ),
            Outcome::PrefixAdded { .. } => Some("commit-msg-hook: prefix added successfully"),
        }
    }
}

impl HookError {
    /// The line that tells the user why the run failed. For a rejected
    /// pattern it is the engine's own description.
    pub fn message(&self) -> (r: String)
        ensures
            match self@ {
                ErrorModel::BranchUnknown => r@
                    == "commit-msg-hook: failed to determine branch name."@,
                ErrorModel::InvalidPattern => true,
                ErrorModel::PrefixMismatch { existing, desired } => r@ == mismatch_text(
                    existing,
                    desired,
                ),
            },
    {
        match self {
            HookError::BranchUnknown => String::from_str(
                "commit-msg-hook: failed to determine branch name.",
            ),
            HookError::InvalidPattern(error) => rejection_text(error),
            HookError::PrefixMismatch { existing, desired } => {
                let mut line = String::from_str("commit-msg-hook: the message prefix '");
                line.append(existing.as_str());
                line.append("' does not match the branch prefix '");
                line.append(desired.as_str());
                line.append("'");
                line
            },
        }
    }
}

/// Whether `message` begins with `fixup!` or `squash!`.
pub fn is_fixup_or_squash(message: &str) -> (r: bool)
    ensures
        r == is_autosquash(message@),
{
    proof {
        reveal_strlit("fixup!");
        reveal_strlit("squash!");
        assert("fixup!"@ =~= fixup_marker());
        assert("squash!"@ =~= squash_marker());
    }
    starts_with(message, "fixup!") || starts_with(message, "squash!")
}

/// Whether the branch name is needed to decide about `message`. Where it is
/// not, [`run_hook`] succeeds whatever it is given as the branch.
pub fn needs_branch(message: &str) -> (r: bool)
    ensures
        r == wants_branch(message@),
{
    !blank(message) && !is_fixup_or_squash(message)
}

/// Searches `haystack` with the regular expression `pattern` and gives the
/// text of capture group `group` in the leftmost match.
pub fn search(pattern: &str, haystack: &str, group: usize) -> (r: Result<Option<String>, HookError>)
    ensures
        lookup_view(r) == lookup(pattern@, haystack@, group as nat),
{
    match capture_group(pattern, haystack, group) {
        Err(error) => Err(HookError::InvalidPattern(error)),
        Ok(found) => Ok(found),
    }
}

/// Keeps `found` where it is a ticket id.
pub fn ticket_or_none(found: Option<String>) -> (r: Option<String>)
    ensures
        opt_view(r) == ticket_only(opt_view(found)),
{
    match found {
        Some(id) => {
            if is_ticket_id(id.as_str()) {
                Some(id)
            } else {
                None
            }
        },
        None => None,
    }
}

/// The ticket id that `branch` asks for, if it carries one. The name is
/// uppercased and searched with [`BRANCH_PATTERN`]; what the engine finds is
/// taken only where it is a ticket id, so that every prefix derived here is
/// one.
pub fn desired_prefix(branch: &str) -> (r: Result<Option<String>, HookError>)
    ensures
        lookup_view(r) == branch_lookup(branch@),
{
    let upper = branch.to_uppercase();
    match search(BRANCH_PATTERN, upper.as_str(), 2) {
        Ok(found) => Ok(ticket_or_none(found)),
        Err(error) => Err(error),
    }
}

/// The ticket id that `message` starts with, if it starts with one: what
/// [`MESSAGE_PATTERN`] finds in the message as it stands.
pub fn existing_prefix(message: &str) -> (r: Result<Option<String>, HookError>)
    ensures
        lookup_view(r) == message_lookup(message@),
{
    search(MESSAGE_PATTERN, message, 1)
}

/// `message` with `prefix`, a colon and a space in front.
pub fn prefixed_message(prefix: &str, message: &str) -> (r: String)
    ensures
        r@ == with_prefix(prefix@, message@),
{
    proof {
        reveal_strlit(": ");
        assert(": "@ =~= separator());
    }
    let head = joined(prefix, ": ");
    joined(head.as_str(), message)
}

/// Settles `message` against the ticket id `desired` of the branch, given the
/// ticket id `existing` that the message starts with, if any.
pub fn reconcile(message: &str, desired: &str, existing: Option<&str>) -> (r: Result<
    Outcome,
    HookError,
>)
    ensures
        result_view(r) == reconcile_model(message@, desired@, name_view(existing)),
{
    match existing {
        Some(found) => {
            if same_text(found, desired) {
                Ok(Outcome::AlreadyPrefixed)
            } else {
                Err(
                    HookError::PrefixMismatch {
                        existing: String::from_str(found),
                        desired: String::from_str(desired),
                    },
                )
            }
        },
        None => Ok(Outcome::PrefixAdded { message: prefixed_message(desired, message) }),
    }
}

/// Decides what becomes of `message` on the branch `branch`; `None` stands
/// for a branch name that could not be determined.
pub fn run_hook(message: &str, branch: Option<&str>) -> (r: Result<Outcome, HookError>)
    ensures
        result_view(r) == hook_model(message@, name_view(branch)),
{
    if blank(message) {
        return Ok(Outcome::EmptyMessage);
    }
    if is_fixup_or_squash(message) {
        return Ok(Outcome::FixupOrSquash);
    }
    let name = match branch {
        Some(name) => name,
        None => {
            return Err(HookError::BranchUnknown);
        },
    };
    let desired = match desired_prefix(name) {
        Err(error) => {
            return Err(error);
        },
        Ok(None) => {
            return Ok(Outcome::NonPrefixedBranch);
        },
        Ok(Some(desired)) => desired,
    };
    match existing_prefix(message) {
        Err(error) => Err(error),
        Ok(Some(existing)) => reconcile(message, desired.as_str(), Some(existing.as_str())),
        Ok(None) => reconcile(message, desired.as_str(), None),
    }
}

} // verus!
