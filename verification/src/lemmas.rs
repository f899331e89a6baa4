//! What holds of every run of the hook.

use crate::hooks::{
    branch_lookup, content_after, fixup_marker, hook_model, is_autosquash, message_lookup,
    squash_marker, wants_branch, with_prefix, ErrorModel, OutcomeModel, BRANCH_PATTERN,
};
use crate::pattern::{captured_text, pattern_compiles};
use crate::text::uppercased;
use crate::ticket::{is_capital, is_ticket, is_ticket_at};
use vstd::prelude::*;

verus! {

/// The ticket id derived from a branch name is the `LETTERS-DIGITS` group
/// that the branch pattern finds in the uppercased name, and nothing else is
/// derived: `prefix` is derived from `branch` exactly when the engine accepts
/// the pattern, its second group on the uppercased name holds `prefix`, and
/// `prefix` is a ticket id.
pub proof fn lemma_derived_prefix(branch: Seq<char>, prefix: Seq<char>)
    ensures
        branch_lookup(branch) == Ok::<Option<Seq<char>>, ErrorModel>(Some(prefix)) <==> {
            &&& pattern_compiles(BRANCH_PATTERN@)
            &&& captured_text(BRANCH_PATTERN@, uppercased(branch), 2) == Some(prefix)
            &&& is_ticket(prefix)
        },
{
}

/// The case of a branch name's letters does not matter: two names with the
/// same uppercase form ask for the same ticket id.
pub proof fn lemma_branch_case_ignored(first: Seq<char>, second: Seq<char>)
    requires
        uppercased(first) == uppercased(second),
    ensures
        branch_lookup(first) == branch_lookup(second),
        forall|message: Seq<char>|
            hook_model(message, Some(first)) == hook_model(message, Some(second)),
{
}

/// On a branch whose name carries no ticket id the run succeeds and the
/// message stays as it was.
pub proof fn lemma_plain_branch_changes_nothing(message: Seq<char>, branch: Seq<char>)
    requires
        branch_lookup(branch) == Ok::<Option<Seq<char>>, ErrorModel>(None),
    ensures
        hook_model(message, Some(branch)) is Ok,
        content_after(message, hook_model(message, Some(branch))) == message,
{
}

/// A message that already starts with the branch's ticket id is left alone,
/// and so a second run on what the first run left sees the same message,
/// ends as the first did and changes nothing either.
pub proof fn lemma_second_run_changes_nothing(
    message: Seq<char>,
    branch: Seq<char>,
    prefix: Seq<char>,
)
    requires
        branch_lookup(branch) == Ok::<Option<Seq<char>>, ErrorModel>(Some(prefix)),
        message_lookup(message) == Ok::<Option<Seq<char>>, ErrorModel>(Some(prefix)),
    ensures
        hook_model(message, Some(branch)) is Ok,
        wants_branch(message) ==> hook_model(message, Some(branch)) == Ok::<
            OutcomeModel,
            ErrorModel,
        >(OutcomeModel::AlreadyPrefixed),
        content_after(message, hook_model(message, Some(branch))) == message,
        ({
            let after = content_after(message, hook_model(message, Some(branch)));
            &&& hook_model(after, Some(branch)) == hook_model(message, Some(branch))
            &&& content_after(after, hook_model(after, Some(branch))) == message
        }),
{
}

/// A message that begins with `fixup!` or `squash!` is never touched and the
/// run succeeds, whatever the branch is and whether it is known at all.
pub proof fn lemma_autosquash_untouched(message: Seq<char>, branch: Option<Seq<char>>)
    requires
        is_autosquash(message),
    ensures
        hook_model(message, branch) is Ok,
        content_after(message, hook_model(message, branch)) == message,
{
}

/// Where the branch is not needed to decide about a message, the run
/// succeeds without looking at it.
pub proof fn lemma_branch_unused(message: Seq<char>, branch: Option<Seq<char>>)
    requires
        !wants_branch(message),
    ensures
        hook_model(message, branch) is Ok,
        hook_model(message, branch) == hook_model(message, None),
{
}

/// A run that fails leaves the message as it was.
pub proof fn lemma_failure_changes_nothing(message: Seq<char>, branch: Option<Seq<char>>)
    requires
        hook_model(message, branch) is Err,
    ensures
        content_after(message, hook_model(message, branch)) == message,
{
}

/// The run fails for want of a branch name exactly when the message is one
/// that is examined against the branch and no name could be determined.
pub proof fn lemma_branch_unknown(message: Seq<char>, branch: Option<Seq<char>>)
    ensures
        hook_model(message, branch) == Err::<OutcomeModel, ErrorModel>(ErrorModel::BranchUnknown)
            <==> wants_branch(message) && branch is None,
{
}

/// The run fails over contradicting ticket ids exactly when the message is
/// examined against the branch, the branch asks for `desired`, and the
/// message starts with another ticket id, `existing`. The error names both,
/// and the one it names for the branch is a ticket id.
pub proof fn lemma_mismatch(
    message: Seq<char>,
    branch: Seq<char>,
    existing: Seq<char>,
    desired: Seq<char>,
)
    ensures
        hook_model(message, Some(branch)) == Err::<OutcomeModel, ErrorModel>(
            ErrorModel::PrefixMismatch { existing, desired },
        ) <==> {
            &&& wants_branch(message)
            &&& branch_lookup(branch) == Ok::<Option<Seq<char>>, ErrorModel>(Some(desired))
            &&& message_lookup(message) == Ok::<Option<Seq<char>>, ErrorModel>(Some(existing))
            &&& existing != desired
        },
        branch_lookup(branch) == Ok::<Option<Seq<char>>, ErrorModel>(Some(desired))
            ==> is_ticket(desired),
{
}

/// An added prefix makes the message longer, so a run that adds one does
/// change the message.
pub proof fn lemma_added_prefix_changes_message(message: Seq<char>, branch: Option<Seq<char>>)
    requires
        hook_model(message, branch) matches Ok(OutcomeModel::PrefixAdded { .. }),
    ensures
        content_after(message, hook_model(message, branch)).len() > message.len(),
        content_after(message, hook_model(message, branch)) != message,
{
}

/// A message with a ticket id put in front begins with a capital letter, so
/// no later run takes it for the message of a fixup or squash commit.
pub proof fn lemma_prefixed_is_no_autosquash(prefix: Seq<char>, message: Seq<char>)
    requires
        is_ticket(prefix),
    ensures
        !is_autosquash(with_prefix(prefix, message)),
{
    let dash = choose|dash: int| is_ticket_at(prefix, dash);
    let whole = with_prefix(prefix, message);
    assert(whole[0] == prefix[0]);
    assert(is_capital(prefix[0]));
    if fixup_marker().is_prefix_of(whole) {
        assert(whole.subrange(0, fixup_marker().len() as int)[0] == fixup_marker()[0]);
    }
    if squash_marker().is_prefix_of(whole) {
        assert(whole.subrange(0, squash_marker().len() as int)[0] == squash_marker()[0]);
    }
}

/// The message changes in one way only: a message that is neither blank nor
/// a fixup or squash message and starts with no ticket id gets the ticket id
/// of the branch, a colon and a space in front, and keeps all of its own
/// text behind them.
pub proof fn lemma_change_is_prefix(message: Seq<char>, branch: Option<Seq<char>>)
    requires
        content_after(message, hook_model(message, branch)) != message,
    ensures
        wants_branch(message),
        message_lookup(message) == Ok::<Option<Seq<char>>, ErrorModel>(None),
        branch matches Some(name) && branch_lookup(name) matches Ok(Some(prefix)) && {
            &&& is_ticket(prefix)
            &&& content_after(message, hook_model(message, branch)) == with_prefix(
                prefix,
                message,
            )
            &&& hook_model(message, branch) == Ok::<OutcomeModel, ErrorModel>(
                OutcomeModel::PrefixAdded { message: with_prefix(prefix, message) },
            )
        },
{
}

} // verus!
