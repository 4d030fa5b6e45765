//! The chat room: how a message is shown, and who receives it.
use vstd::prelude::*;
use crate::text::{decimal_int, push_decimal_u64, push_str};

verus! {

/// How a user's message is shown to the others.
pub open spec fn chat_line_spec(user_id: int, msg: Seq<char>) -> Seq<char> {
    "<用户#"@ + decimal_int(user_id) + ">: "@ + msg
}

/// How a user's message is shown to the others: `<用户#{id}>: {msg}`.
pub fn chat_line(user_id: usize, msg: &str) -> (r: String)
    ensures
        r@ == chat_line_spec(user_id as int, msg@),
{
    let mut r = String::new();
    push_str(&mut r, "<用户#");
    push_decimal_u64(&mut r, user_id as u64);
    push_str(&mut r, ">: ");
    push_str(&mut r, msg);
    r
}

/// Holds of every user but `sender`.
pub open spec fn not_sender(sender: usize) -> spec_fn(usize) -> bool {
    |u: usize| u != sender
}

/// The users that receive a message sent by `sender`: every connected user
/// but the sender, in the order given.
pub open spec fn receivers_spec(sender: usize, users: Seq<usize>) -> Seq<usize> {
    users.filter(not_sender(sender))
}

/// The users that receive a message sent by `sender`.
pub fn broadcast_targets(sender: usize, users: &Vec<usize>) -> (r: Vec<usize>)
    ensures
        r@ == receivers_spec(sender, users@),
{
    let mut r: Vec<usize> = Vec::new();
    let mut i: usize = 0;
    while i < users.len()
        invariant
            i <= users@.len(),
            r@ == users@.take(i as int).filter(not_sender(sender)),
        decreases users@.len() - i,
    {
        reveal_with_fuel(Seq::<_>::filter, 1);
        let u = users[i];
        if u != sender {
            r.push(u);
        }
        assert(users@.take(i + 1).drop_last() =~= users@.take(i as int));
        i += 1;
    }
    assert(users@.take(users@.len() as int) =~= users@);
    r
}

/// No one receives back their own message, and every other user receives it.
pub proof fn lemma_receivers(sender: usize, users: Seq<usize>, u: usize)
    ensures
        receivers_spec(sender, users).contains(u) <==> (u != sender && users.contains(u)),
{
    let f = not_sender(sender);
    let out = users.filter(f);
    if out.contains(u) {
        users.lemma_filter_contains_rev(f, u);
        let j = choose|j: int| 0 <= j < out.len() && out[j] == u;
        users.lemma_filter_pred(f, j);
    }
    if u != sender && users.contains(u) {
        let i = choose|i: int| 0 <= i < users.len() && users[i] == u;
        users.lemma_filter_contains(f, i);
    }
}

} // verus!
