//! The channel registry: configured channels and the live and moderated
//! subsets resolved from the chat platform's answers.

use vstd::prelude::*;
use crate::text::same_text;

verus! {

/// A channel, named by its platform identity and its login name.
#[derive(Debug, Clone, PartialEq, Eq)]
pub struct Channel {
    pub user_id: String,
    pub name: String,
}

/// The configured channels, in configuration order. Identities need not be
/// unique.
#[derive(Debug, Clone, Default, PartialEq, Eq)]
pub struct Channels(pub Vec<Channel>);

/// The platform's answer on one channel's stream: whose it is and whether it
/// is live right now.
#[derive(Debug, Clone, PartialEq, Eq)]
pub struct StreamStatus {
    pub user_id: String,
    pub user_login: String,
    pub live: bool,
}

impl Channel {
    /// A field-by-field copy.
    pub fn copied(&self) -> (r: Channel)
        ensures
            r == *self,
    {
        Channel { user_id: self.user_id.clone(), name: self.name.clone() }
    }
}

/// Some channel of `channels` has identity `id`.
pub open spec fn has_identity(channels: Seq<Channel>, id: Seq<char>) -> bool {
    exists|j: int| 0 <= j < channels.len() && (#[trigger] channels[j]).user_id@ == id
}

/// The configured channels whose stream is live, in the order of the
/// statuses.
pub open spec fn live_channels_spec(configured: Seq<Channel>, statuses: Seq<StreamStatus>) -> Seq<Channel>
    decreases statuses.len(),
{
    if statuses.len() == 0 {
        Seq::empty()
    } else {
        let rest = live_channels_spec(configured, statuses.drop_last());
        let s = statuses.last();
        if s.live && has_identity(configured, s.user_id@) {
            rest.push(Channel { user_id: s.user_id, name: s.user_login })
        } else {
            rest
        }
    }
}

/// The channels of `moderated`, in their order, whose identity also occurs in
/// `live`.
pub open spec fn moderated_live_spec(live: Seq<Channel>, moderated: Seq<Channel>) -> Seq<Channel>
    decreases moderated.len(),
{
    if moderated.len() == 0 {
        Seq::empty()
    } else {
        let rest = moderated_live_spec(live, moderated.drop_last());
        let c = moderated.last();
        if has_identity(live, c.user_id@) {
            rest.push(c)
        } else {
            rest
        }
    }
}

/// Whether some channel of `live` has identity `id`.
pub fn contains_identity(live: &Vec<Channel>, id: &str) -> (r: bool)
    ensures
        r == has_identity(live@, id@),
{
    let mut j: usize = 0;
    while j < live.len()
        invariant
            j <= live@.len(),
            forall|k: int| 0 <= k < j ==> (#[trigger] live@[k]).user_id@ != id@,
        decreases live@.len() - j,
    {
        if same_text(live[j].user_id.as_str(), id) {
            assert(live@[j as int].user_id@ == id@);
            return true;
        }
        j = j + 1;
    }
    false
}

/// The target set of an announcement: each channel of `moderated` whose
/// identity occurs among the `live` channels, in the order of `moderated`.
pub fn moderated_live_channels(live: &Vec<Channel>, moderated: &Vec<Channel>) -> (r: Vec<Channel>)
    ensures
        r@ == moderated_live_spec(live@, moderated@),
{
    let mut out: Vec<Channel> = Vec::new();
    let mut i: usize = 0;
    while i < moderated.len()
        invariant
            i <= moderated@.len(),
            out@ == moderated_live_spec(live@, moderated@.subrange(0, i as int)),
        decreases moderated@.len() - i,
    {
        let c = &moderated[i];
        proof {
            assert(moderated@.subrange(0, i + 1).drop_last() =~= moderated@.subrange(0, i as int));
        }
        if contains_identity(live, c.user_id.as_str()) {
            out.push(c.copied());
        }
        i = i + 1;
    }
    assert(moderated@.subrange(0, moderated@.len() as int) =~= moderated@);
    out
}

/// A channel is a target exactly when it is one of the moderated channels
/// and some live channel has its identity; identity, not the whole record,
/// decides.
pub proof fn lemma_targets_are_moderated_and_live(live: Seq<Channel>, moderated: Seq<Channel>, c: Channel)
    ensures
        moderated_live_spec(live, moderated).contains(c) <==> (moderated.contains(c) && has_identity(
            live,
            c.user_id@,
        )),
    decreases moderated.len(),
{
    if moderated.len() > 0 {
        let init = moderated.drop_last();
        lemma_targets_are_moderated_and_live(live, init, c);
        assert(moderated =~= init.push(moderated.last()));
        if moderated.contains(c) && !init.contains(c) {
            let j = choose|j: int| 0 <= j < moderated.len() && moderated[j] == c;
            assert(j == moderated.len() - 1);
        }
        if init.contains(c) {
            let j = choose|j: int| 0 <= j < init.len() && init[j] == c;
            assert(moderated[j] == c);
        }
        let rest = moderated_live_spec(live, init);
        if has_identity(live, moderated.last().user_id@) {
            assert(moderated_live_spec(live, moderated) == rest.push(moderated.last()));
            if rest.push(moderated.last()).contains(c) && !rest.contains(c) {
                let j = choose|j: int| 0 <= j < rest.len() + 1 && rest.push(moderated.last())[j] == c;
                assert(j == rest.len());
            }
            if rest.contains(c) {
                let j = choose|j: int| 0 <= j < rest.len() && rest[j] == c;
                assert(rest.push(moderated.last())[j] == c);
            }
            if c == moderated.last() {
                assert(rest.push(moderated.last())[rest.len() as int] == c);
            }
        }
    }
}

impl Channels {
    /// The identities of the configured channels, in order.
    pub fn user_ids(&self) -> (r: Vec<String>)
        ensures
            r@.len() == self.0@.len(),
            forall|i: int| 0 <= i < r@.len() ==> #[trigger] r@[i] == self.0@[i].user_id,
    {
        let mut out: Vec<String> = Vec::new();
        let mut i: usize = 0;
        while i < self.0.len()
            invariant
                i <= self.0@.len(),
                out@.len() == i,
                forall|k: int| 0 <= k < i ==> #[trigger] out@[k] == self.0@[k].user_id,
            decreases self.0@.len() - i,
        {
            out.push(self.0[i].user_id.clone());
            i = i + 1;
        }
        out
    }

    /// The configured channels whose stream the statuses report live, in the
    /// order of the statuses.
    pub fn get_live_channels(&self, statuses: &Vec<StreamStatus>) -> (r: Vec<Channel>)
        ensures
            r@ == live_channels_spec(self.0@, statuses@),
    {
        let mut out: Vec<Channel> = Vec::new();
        let mut i: usize = 0;
        while i < statuses.len()
            invariant
                i <= statuses@.len(),
                out@ == live_channels_spec(self.0@, statuses@.subrange(0, i as int)),
            decreases statuses@.len() - i,
        {
            let s = &statuses[i];
            proof {
                assert(statuses@.subrange(0, i + 1).drop_last() =~= statuses@.subrange(0, i as int));
            }
            if s.live && contains_identity(&self.0, s.user_id.as_str()) {
                out.push(Channel { user_id: s.user_id.clone(), name: s.user_login.clone() });
            }
            i = i + 1;
        }
        assert(statuses@.subrange(0, statuses@.len() as int) =~= statuses@);
        out
    }

    /// The configured channels that are moderated by the bot and live, given
    /// the platform's stream statuses for the configured channels and the
    /// channels the bot moderates.
    pub fn get_moderated_live_channels(
        &self,
        statuses: &Vec<StreamStatus>,
        moderated: &Vec<Channel>,
    ) -> (r: Vec<Channel>)
        ensures
            r@ == moderated_live_spec(live_channels_spec(self.0@, statuses@), moderated@),
    {
        let live = self.get_live_channels(statuses);
        moderated_live_channels(&live, moderated)
    }
}

} // verus!
