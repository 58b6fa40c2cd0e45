//! The outbound channel registry: configured notification channels tagged
//! with capability roles, random selection of a channel for a role, and the
//! planning of the sends that one decided notification requires.

use vstd::prelude::*;
use crate::solve::{Solve, SolveView};
use crate::text::{first_blood_body, first_blood_body_spec, solve_body, solve_body_spec};

verus! {

/// A capability tag on an outbound channel: which notification categories it
/// may receive.
#[derive(Clone, Copy, PartialEq, Eq, Structural, Debug)]
pub enum Role {
    /// First-blood announcements.
    FirstBlood,
    /// Regular solve announcements.
    Solve,
}

/// One configured outbound channel: an endpoint identity, its credential and
/// the set of roles it serves. Immutable for the process lifetime.
pub struct Channel {
    /// The endpoint's numeric identity.
    pub id: u64,
    /// The endpoint's credential.
    pub token: String,
    /// The roles this channel may serve.
    pub roles: Vec<Role>,
}

/// The mathematical value of a [`Channel`].
pub ghost struct ChannelView {
    pub id: u64,
    pub token: Seq<char>,
    pub roles: Seq<Role>,
}

impl View for Channel {
    type V = ChannelView;

    open spec fn view(&self) -> ChannelView {
        ChannelView { id: self.id, token: self.token@, roles: self.roles@ }
    }
}

impl Channel {
    /// Whether this channel serves the given role.
    pub fn serves(&self, role: Role) -> (r: bool)
        ensures
            r == self@.roles.contains(role),
    {
        let mut i: usize = 0;
        while i < self.roles.len()
            invariant
                i <= self.roles@.len(),
                forall|j: int| 0 <= j < i ==> self.roles@[j] != role,
            decreases self.roles@.len() - i,
        {
            if self.roles[i] == role {
                return true;
            }
            i += 1;
        }
        false
    }
}

/// Relies on `rand::Rng::random_range` over `0..n`: returns a value drawn
/// from that range, which is nonempty because `n > 0`.
#[verifier::external_body]
fn pick_index(n: usize) -> (r: usize)
    requires
        n > 0,
    ensures
        r < n,
{
    rand::Rng::random_range(&mut rand::rng(), 0..n)
}

/// The channel at index `j` of the registry, as a mathematical value.
pub open spec fn channel_at(reg: &Registry, j: int) -> ChannelView {
    reg.channels@[j]@
}

/// Whether the notification is addressed to the given channel.
pub open spec fn addressed_to(n: NotificationView, c: ChannelView) -> bool {
    n.channel_id == c.id && n.channel_token == c.token
}

/// A planned send: the channel to address and the body to deliver.
pub struct Notification {
    /// The target channel's endpoint identity.
    pub channel_id: u64,
    /// The target channel's credential.
    pub channel_token: String,
    /// The text body to deliver.
    pub body: String,
    /// Whether this send is the first-blood announcement.
    pub first_blood: bool,
}

/// The mathematical value of a [`Notification`].
pub ghost struct NotificationView {
    pub channel_id: u64,
    pub channel_token: Seq<char>,
    pub body: Seq<char>,
    pub first_blood: bool,
}

impl View for Notification {
    type V = NotificationView;

    open spec fn view(&self) -> NotificationView {
        NotificationView {
            channel_id: self.channel_id,
            channel_token: self.channel_token@,
            body: self.body@,
            first_blood: self.first_blood,
        }
    }
}

/// A planned send is well formed for the registry and solve it came from: it
/// is addressed to a configured channel serving the send's category and
/// carries that category's body for the solve.
pub open spec fn send_ok(reg: &Registry, n: NotificationView, s: SolveView) -> bool {
    if n.first_blood {
        n.body == first_blood_body_spec(s) && exists|j: int|
            0 <= j < reg.channels@.len() && (#[trigger] channel_at(reg, j)).roles.contains(
                Role::FirstBlood,
            ) && addressed_to(n, channel_at(reg, j))
    } else {
        n.body == solve_body_spec(s) && exists|j: int|
            0 <= j < reg.channels@.len() && (#[trigger] channel_at(reg, j)).roles.contains(
                Role::Solve,
            ) && addressed_to(n, channel_at(reg, j))
    }
}

/// Holds the configured outbound channels; selection is stateless and
/// side-effect-free.
pub struct Registry {
    /// The configured channels, loaded once at startup.
    pub channels: Vec<Channel>,
}

impl Registry {
    /// Whether some configured channel serves the role.
    pub open spec fn some_serves(&self, role: Role) -> bool {
        exists|j: int|
            0 <= j < self.channels@.len() && (#[trigger] channel_at(self, j)).roles.contains(role)
    }

    /// Wraps the configured channel list.
    pub fn new(channels: Vec<Channel>) -> (r: Registry)
        ensures
            r.channels == channels,
    {
        Registry { channels }
    }

    /// Returns the index of one configured channel serving `role`, chosen at
    /// random among all matches, or nothing when no channel serves it.
    pub fn pick(&self, role: Role) -> (r: Option<usize>)
        ensures
            (r is Some) == self.some_serves(role),
            r matches Some(i) ==> i < self.channels@.len() && channel_at(self, i as int)
                .roles.contains(role),
    {
        let mut candidates: Vec<usize> = Vec::new();
        let mut i: usize = 0;
        while i < self.channels.len()
            invariant
                i <= self.channels@.len(),
                forall|k: int|
                    0 <= k < candidates@.len() ==> (#[trigger] candidates@[k]) < self
                        .channels@.len() && channel_at(self, candidates@[k] as int).roles.contains(
                        role,
                    ),
                (exists|j: int|
                    0 <= j < i && (#[trigger] channel_at(self, j)).roles.contains(role))
                    ==> candidates@.len() > 0,
            decreases self.channels@.len() - i,
        {
            if self.channels[i].serves(role) {
                candidates.push(i);
            }
            i += 1;
        }
        if candidates.len() == 0 {
            proof {
                assert(!self.some_serves(role));
            }
            None
        } else {
            let k = pick_index(candidates.len());
            let chosen = candidates[k];
            proof {
                assert(channel_at(self, chosen as int).roles.contains(role));
            }
            Some(chosen)
        }
    }

    /// Plans the sends for one decided notification, per the dispatch rule:
    /// a first blood goes to a first-blood-capable channel when one is
    /// configured (silently skipped otherwise); and unless that very channel
    /// also serves regular announcements, a regular send is planned too, so
    /// first-blood solves are never excluded from the general feed; a
    /// non-first-blood solve gets one regular send when a capable channel is
    /// configured.
    pub fn plan_dispatch(&self, is_first_blood: bool, solve: &Solve) -> (r: Vec<Notification>)
        ensures
            r@.len() <= 2,
            forall|k: int| 0 <= k < r@.len() ==> send_ok(self, #[trigger] r@[k]@, solve@),
            !is_first_blood ==> r@.len() == (if self.some_serves(Role::Solve) {
                1int
            } else {
                0int
            }) && (forall|k: int| 0 <= k < r@.len() ==> !(#[trigger] r@[k]@).first_blood),
            is_first_blood && !self.some_serves(Role::FirstBlood) ==> r@.len() == (
            if self.some_serves(Role::Solve) {
                1int
            } else {
                0int
            }) && (forall|k: int| 0 <= k < r@.len() ==> !(#[trigger] r@[k]@).first_blood),
            is_first_blood && self.some_serves(Role::FirstBlood) ==> r@.len() >= 1
                && r@[0]@.first_blood && (exists|j: int|
                0 <= j < self.channels@.len() && (#[trigger] channel_at(self, j)).roles.contains(
                    Role::FirstBlood,
                ) && addressed_to(r@[0]@, channel_at(self, j)) && (channel_at(self, j)
                    .roles.contains(Role::Solve) ==> r@.len() == 1) && (!channel_at(self, j)
                    .roles.contains(Role::Solve) ==> r@.len() == (
                if self.some_serves(Role::Solve) {
                    2int
                } else {
                    1int
                }) && (r@.len() == 2 ==> !r@[1]@.first_blood))),
    {
        let mut out: Vec<Notification> = Vec::new();
        if is_first_blood {
            match self.pick(Role::FirstBlood) {
                Some(i) => {
                    let ghost j = i as int;
                    let covered = self.channels[i].serves(Role::Solve);
                    out.push(
                        Notification {
                            channel_id: self.channels[i].id,
                            channel_token: String::from_str(self.channels[i].token.as_str()),
                            body: first_blood_body(solve),
                            first_blood: true,
                        },
                    );
                    if !covered {
                        match self.pick(Role::Solve) {
                            Some(s) => {
                                out.push(
                                    Notification {
                                        channel_id: self.channels[s].id,
                                        channel_token: String::from_str(
                                            self.channels[s].token.as_str(),
                                        ),
                                        body: solve_body(solve),
                                        first_blood: false,
                                    },
                                );
                            },
                            None => {},
                        }
                    }
                    proof {
                        assert(addressed_to(out@[0]@, channel_at(self, j)));
                    }
                },
                None => {
                    match self.pick(Role::Solve) {
                        Some(s) => {
                            out.push(
                                Notification {
                                    channel_id: self.channels[s].id,
                                    channel_token: String::from_str(self.channels[s].token.as_str()),
                                    body: solve_body(solve),
                                    first_blood: false,
                                },
                            );
                        },
                        None => {},
                    }
                },
            }
        } else {
            match self.pick(Role::Solve) {
                Some(s) => {
                    out.push(
                        Notification {
                            channel_id: self.channels[s].id,
                            channel_token: String::from_str(self.channels[s].token.as_str()),
                            body: solve_body(solve),
                            first_blood: false,
                        },
                    );
                },
                None => {},
            }
        }
        out
    }
}

} // verus!
