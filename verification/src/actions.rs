use vstd::prelude::*;

use crate::types::Reply;

verus! {

/// What `str::trim` leaves of a string: the characters with leading
/// and trailing whitespace removed. Internal whitespace stays.
pub uninterp spec fn trim_of(s: Seq<char>) -> Seq<char>;

/// Relies on str::trim: returns the string without leading and
/// trailing whitespace; the result depends on the characters alone.
#[verifier::external_body]
fn trim(s: &str) -> (r: &str)
    ensures
        r@ == trim_of(s@),
{
    s.trim()
}

/// A nickname is valid when, after trimming leading and trailing
/// whitespace, between 1 and 32 characters remain.
pub open spec fn valid_nickname(s: Seq<char>) -> bool {
    1 <= trim_of(s).len() <= 32
}

pub fn is_valid_nickname(nickname: &str) -> (r: bool)
    ensures
        r == valid_nickname(nickname@),
{
    let trimmed = trim(nickname);
    let n = trimmed.unicode_len();
    1 <= n && n <= 32
}

pub open spec fn permission_denied_message_spec() -> Seq<char> {
    "You do not have permission to use this command."@
}

pub open spec fn invalid_nickname_message_spec(nickname: Seq<char>) -> Seq<char> {
    nickname + " is not a valid nickname."@
}

/// The gates a rename must pass before the target is even searched
/// for: the invoker holds the renamer role, and the requested nickname
/// is valid. Returns the ephemeral reply that ends the command when a
/// gate fails, or `None` when the search may proceed.
pub fn rename_precheck(has_renamer_role: bool, nickname: &str) -> (r: Option<Reply>)
    ensures
        r is None <==> has_renamer_role && valid_nickname(nickname@),
        r matches Some(rep) ==> rep.ephemeral,
        !has_renamer_role ==> (r matches Some(rep)
            && rep.text@ == permission_denied_message_spec()),
        has_renamer_role && !valid_nickname(nickname@) ==> (r matches Some(rep)
            && rep.text@ == invalid_nickname_message_spec(nickname@)),
{
    if !has_renamer_role {
        return Some(Reply {
            text: String::from_str("You do not have permission to use this command."),
            ephemeral: true,
        });
    }
    if !is_valid_nickname(nickname) {
        return Some(Reply {
            text: String::from_str(nickname).concat(" is not a valid nickname."),
            ephemeral: true,
        });
    }
    None
}

pub open spec fn no_users_message_spec(username: Seq<char>) -> Seq<char> {
    "Search for '"@ + username + "' found no users."@
}

pub open spec fn too_many_message_spec(username: Seq<char>) -> Seq<char> {
    "Search for '"@ + username + "' found too many users. Specify exactly one user for `username`."@
}

pub open spec fn rename_success_message_spec(actor: Seq<char>, target: Seq<char>, nickname: Seq<char>) -> Seq<char> {
    actor + " set "@ + target + "'s nickname to "@ + nickname + "."@
}

/// Law: the zero-match and many-match outcomes of a target search
/// carry distinct messages, whatever the search string was. (The
/// one-match success message is told apart by being the only
/// broadcast reply.)
pub proof fn lemma_search_messages_distinct(username: Seq<char>)
    ensures
        no_users_message_spec(username) != too_many_message_spec(username),
{
    reveal_strlit("' found no users.");
    reveal_strlit("' found too many users. Specify exactly one user for `username`.");
    assert(no_users_message_spec(username).len() != too_many_message_spec(username).len());
}

/// The final step of a rename: how the member search went, and what is
/// reported. `proceed` is true exactly when the search found a single
/// match — the one case in which the member at index 0 is renamed and
/// the success is broadcast; zero matches and two or more matches each
/// end the command with their own ephemeral message and no mutation.
pub struct RenamePlan {
    pub reply: Reply,
    pub proceed: bool,
}

/// Decides the outcome of a rename from the names of the members the
/// target search matched. `actor` is the invoker's display name,
/// `username` the search string, `nickname` the validated new
/// nickname, `targets` the matched members' display names in search
/// order.
pub fn plan_rename(actor: &str, username: &str, nickname: &str, targets: &Vec<String>)
    -> (r: RenamePlan)
    ensures
        r.proceed <==> targets@.len() == 1,
        targets@.len() == 0 ==> r.reply.ephemeral
            && r.reply.text@ == no_users_message_spec(username@),
        targets@.len() == 1 ==> !r.reply.ephemeral
            && r.reply.text@ == rename_success_message_spec(actor@, targets@[0]@, nickname@),
        targets@.len() >= 2 ==> r.reply.ephemeral
            && r.reply.text@ == too_many_message_spec(username@),
{
    if targets.len() == 0 {
        RenamePlan {
            reply: Reply {
                text: String::from_str("Search for '")
                    .concat(username)
                    .concat("' found no users."),
                ephemeral: true,
            },
            proceed: false,
        }
    } else if targets.len() == 1 {
        RenamePlan {
            reply: Reply {
                text: String::from_str(actor)
                    .concat(" set ")
                    .concat(targets[0].as_str())
                    .concat("'s nickname to ")
                    .concat(nickname)
                    .concat("."),
                ephemeral: false,
            },
            proceed: true,
        }
    } else {
        RenamePlan {
            reply: Reply {
                text: String::from_str("Search for '")
                    .concat(username)
                    .concat("' found too many users. Specify exactly one user for `username`."),
                ephemeral: true,
            },
            proceed: false,
        }
    }
}

/// What an opt-in or opt-out command does once the allow role is
/// resolved: whether the invoker's role set changes, and the ephemeral
/// reply sent either way.
pub struct MembershipPlan {
    pub change: bool,
    pub message: String,
}

/// Opting in: the allow role is added exactly when the invoker does
/// not already hold it.
pub fn plan_allow(has_allow_role: bool) -> (r: MembershipPlan)
    ensures
        r.change == !has_allow_role,
        !has_allow_role ==> r.message@ == "Successfully allowed nickname changes."@,
        has_allow_role ==> r.message@ == "You are already allowing nickname changes."@,
{
    if !has_allow_role {
        MembershipPlan {
            change: true,
            message: String::from_str("Successfully allowed nickname changes."),
        }
    } else {
        MembershipPlan {
            change: false,
            message: String::from_str("You are already allowing nickname changes."),
        }
    }
}

/// Opting out: the allow role is removed exactly when the invoker
/// holds it.
pub fn plan_disallow(has_allow_role: bool) -> (r: MembershipPlan)
    ensures
        r.change == has_allow_role,
        has_allow_role ==> r.message@ == "Successfully disallowed nickname changes."@,
        !has_allow_role ==> r.message@ == "You are already disallowing nickname changes."@,
{
    if has_allow_role {
        MembershipPlan {
            change: true,
            message: String::from_str("Successfully disallowed nickname changes."),
        }
    } else {
        MembershipPlan {
            change: false,
            message: String::from_str("You are already disallowing nickname changes."),
        }
    }
}

} // verus!
