//! Notifications: who is told when a check does not succeed.

use vstd::prelude::*;
use vstd::string::*;
use crate::checker::structs::CheckerResult;

pub mod email;
pub mod error;
pub mod file;

verus! {

/// Something that can deliver the result of a check. Delivery failures are
/// the notifier's own business: it reports them and returns.
pub trait Notifier {
    fn notify(&self, exec_result: &CheckerResult);
}

/// The places `0, 1, ..` of the first `n` notifiers of a list, in list order.
pub open spec fn places(n: nat) -> Seq<usize> {
    Seq::new(n, |i: int| i as usize)
}

/// Hands `exec_result` to every notifier of `notifiers`, one after the
/// other in list order, each exactly once. A notifier that cannot deliver
/// holds up none of the others. Returns the places of the notifiers that
/// were told, in the order in which they were.
pub fn notify_all<N: Notifier>(notifiers: &Vec<N>, exec_result: &CheckerResult) -> (told: Vec<
    usize,
>)
    ensures
        told@ == places(notifiers@.len()),
{
    let mut told: Vec<usize> = Vec::new();
    let mut i: usize = 0;
    while i < notifiers.len()
        invariant
            i <= notifiers@.len(),
            told@ == places(i as nat),
        decreases notifiers@.len() - i,
    {
        notifiers[i].notify(exec_result);
        told.push(i);
        assert(told@ =~= places((i + 1) as nat));
        i = i + 1;
    }
    told
}

/// The channels a notification can go through.
#[derive(Clone, Copy, Debug, PartialEq, Eq, Structural)]
pub enum NotificationType {
    Email,
}

impl NotificationType {
    /// The word that names this channel.
    pub open spec fn spec_name(self) -> Seq<char> {
        match self {
            NotificationType::Email => "email"@,
        }
    }

    /// The word that names this channel.
    pub fn name(&self) -> (name: &'static str)
        ensures
            name@ == self.spec_name(),
    {
        match self {
            NotificationType::Email => "email",
        }
    }

    /// The word that names this channel, as an owned string.
    pub fn to_string(&self) -> (text: String)
        ensures
            text@ == self.spec_name(),
    {
        String::from_str(self.name())
    }
}

} // verus!
