//! Who may use the privileged commands.
use vstd::prelude::*;

verus! {

/// The one guild whose members are trusted.
pub const FRIEND_GUILD: u64 = 136_220_994_812_641_280;

/// Accepts a message sent in the trusted guild; refuses one sent elsewhere or
/// outside any guild, with the reason shown to the user.
pub fn is_friend(guild: Option<u64>) -> (r: Result<(), String>)
    ensures
        r is Ok <==> guild == Some(FRIEND_GUILD),
        r is Err ==> r->Err_0@ == "You don't have permission to use that command!"@,
{
    match guild {
        Some(id) if id == FRIEND_GUILD => Ok(()),
        _ => Err(String::from_str("You don't have permission to use that command!")),
    }
}

} // verus!
