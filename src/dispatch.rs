//! The announcement dispatcher: the two texts sent for a donation and the
//! batch of sends to every target channel, each attempted and logged on its
//! own.

use vstd::prelude::*;
use vstd::string::*;
use crate::channels::Channel;
use crate::tiltify::TiltifyDonation;

verus! {

/// The short command-style message for a donation of `value`.
pub open spec fn donation_message_spec(value: Seq<char>) -> Seq<char> {
    "!donation_received "@ + value
}

/// How the announcement names the donor.
pub open spec fn donor_label(name: Option<String>) -> Seq<char> {
    match name {
        Some(n) => n@,
        None => "an anonymous user"@,
    }
}

/// The human-readable announcement of a donation of `value` by `donor`.
pub open spec fn announcement_spec(value: Seq<char>, donor: Seq<char>) -> Seq<char> {
    "A donation of $"@ + value + " has been made by "@ + donor + "!"@
}

/// `part` occurs in `whole` as a contiguous run.
pub open spec fn contains_text(whole: Seq<char>, part: Seq<char>) -> bool {
    exists|i: int| 0 <= i <= whole.len() - part.len() && #[trigger] whole.subrange(i, i + part.len()) == part
}

/// The short message sent for `donation`.
pub fn donation_message(donation: &TiltifyDonation) -> (r: String)
    ensures
        r@ == donation_message_spec(donation.amount.value@),
{
    let mut s = String::from_str("!donation_received ");
    s.append(donation.amount.value.as_str());
    s
}

/// The announcement sent for `donation`.
pub fn donation_announcement(donation: &TiltifyDonation) -> (r: String)
    ensures
        r@ == announcement_spec(donation.amount.value@, donor_label(donation.name)),
{
    let mut s = String::from_str("A donation of $");
    s.append(donation.amount.value.as_str());
    s.append(" has been made by ");
    match &donation.name {
        Some(n) => s.append(n.as_str()),
        None => s.append("an anonymous user"),
    }
    s.append("!");
    s
}

/// The announcement always names the donor, and a donation without a donor
/// name is announced as made by an anonymous user.
pub proof fn lemma_announcement_names_donor(value: Seq<char>, name: Option<String>)
    ensures
        contains_text(announcement_spec(value, donor_label(name)), donor_label(name)),
        name is None ==> donor_label(name) == "an anonymous user"@,
        name is Some ==> donor_label(name) == name->Some_0@,
{
    reveal_strlit("A donation of $");
    reveal_strlit(" has been made by ");
    let donor = donor_label(name);
    let whole = announcement_spec(value, donor);
    let i: int = 15 + value.len() as int + 18;
    assert(whole.subrange(i, i + donor.len() as int) =~= donor);
}

/// Which of the two chat actions a send is.
#[derive(Clone, Copy, Debug, PartialEq, Eq, Structural)]
pub enum SendKind {
    Message,
    Announcement,
}

/// One outbound chat action: a text of some kind for one channel.
#[derive(Clone, Debug, PartialEq, Eq)]
pub struct ChatSend {
    pub channel: Channel,
    pub kind: SendKind,
    pub text: String,
}

/// What was attempted for one send, and whether it was delivered.
#[derive(Clone, Debug, PartialEq, Eq)]
pub struct SendRecord {
    pub channel_id: String,
    pub kind: SendKind,
    pub delivered: bool,
}

/// The sends for one donation, in order, and the record of those attempted
/// so far. Send `j` goes to target `j / 2`: first the message, then the
/// announcement.
#[derive(Clone, Debug)]
pub struct DispatchBatch {
    pub targets: Vec<Channel>,
    pub sends: Vec<ChatSend>,
    pub log: Vec<SendRecord>,
}

/// Send `j` is the one planned for the targets and texts.
pub open spec fn is_planned_send(
    targets: Seq<Channel>,
    message: Seq<char>,
    announcement: Seq<char>,
    j: int,
    send: ChatSend,
) -> bool {
    &&& send.channel == targets[j / 2]
    &&& if j % 2 == 0 {
        send.kind == SendKind::Message && send.text@ == message
    } else {
        send.kind == SendKind::Announcement && send.text@ == announcement
    }
}

/// The record of an attempt at `send`.
pub open spec fn record_of(send: ChatSend, delivered: bool) -> SendRecord {
    SendRecord { channel_id: send.channel.user_id, kind: send.kind, delivered }
}

impl DispatchBatch {
    /// Every record so far belongs to the send of its position.
    pub open spec fn wf(&self) -> bool {
        &&& self.sends@.len() == 2 * self.targets@.len()
        &&& self.log@.len() <= self.sends@.len()
        &&& forall|j: int|
            0 <= j < self.log@.len() ==> (#[trigger] self.log@[j]).channel_id == self.sends@[j].channel.user_id
                && self.log@[j].kind == self.sends@[j].kind
    }

    /// `next` is this batch after its pending send was attempted with the
    /// given outcome.
    pub open spec fn recorded_as(self, next: DispatchBatch, delivered: bool) -> bool {
        &&& next.targets == self.targets
        &&& next.sends == self.sends
        &&& next.log@ == self.log@.push(record_of(self.sends@[self.log@.len() as int], delivered))
    }

    /// The index of the send to attempt next, if any remains.
    pub open spec fn pending(&self) -> Option<int> {
        if self.log@.len() < self.sends@.len() {
            Some(self.log@.len() as int)
        } else {
            None
        }
    }

    /// The batch for a donation: a message and an announcement for each
    /// target, in target order, nothing attempted yet.
    pub fn new(donation: &TiltifyDonation, targets: Vec<Channel>) -> (r: DispatchBatch)
        ensures
            r.wf(),
            r.targets@ == targets@,
            r.log@.len() == 0,
            r.sends@.len() == 2 * targets@.len(),
            forall|j: int|
                0 <= j < r.sends@.len() ==> is_planned_send(
                    targets@,
                    donation_message_spec(donation.amount.value@),
                    announcement_spec(donation.amount.value@, donor_label(donation.name)),
                    j,
                    #[trigger] r.sends@[j],
                ),
    {
        let message = donation_message(donation);
        let announcement = donation_announcement(donation);
        let mut sends: Vec<ChatSend> = Vec::new();
        let mut i: usize = 0;
        while i < targets.len()
            invariant
                i <= targets@.len(),
                sends@.len() == 2 * i,
                forall|j: int|
                    0 <= j < sends@.len() ==> is_planned_send(
                        targets@,
                        message@,
                        announcement@,
                        j,
                        #[trigger] sends@[j],
                    ),
            decreases targets@.len() - i,
        {
            let c = &targets[i];
            sends.push(ChatSend { channel: c.copied(), kind: SendKind::Message, text: message.clone() });
            sends.push(
                ChatSend { channel: c.copied(), kind: SendKind::Announcement, text: announcement.clone() },
            );
            proof {
                let n = 2 * i as int;
                assert(n / 2 == i as int && n % 2 == 0);
                assert((n + 1) / 2 == i as int && (n + 1) % 2 == 1);
                assert(is_planned_send(targets@, message@, announcement@, n, sends@[n]));
                assert(is_planned_send(targets@, message@, announcement@, n + 1, sends@[n + 1]));
            }
            i = i + 1;
        }
        DispatchBatch { targets, sends, log: Vec::new() }
    }

    /// The index of the send to attempt next, if any remains.
    pub fn next_index(&self) -> (r: Option<usize>)
        ensures
            r matches Some(k) ==> self.pending() == Some(k as int),
            r is None ==> self.pending() is None,
    {
        if self.log.len() < self.sends.len() {
            Some(self.log.len())
        } else {
            None
        }
    }

    /// Records the outcome of the pending send.
    pub fn record(&mut self, delivered: bool)
        requires
            old(self).wf(),
            old(self).log@.len() < old(self).sends@.len(),
        ensures
            old(self).recorded_as(*final(self), delivered),
            final(self).wf(),
    {
        let k = self.log.len();
        let s = &self.sends[k];
        let rec = SendRecord { channel_id: s.channel.user_id.clone(), kind: s.kind, delivered };
        self.log.push(rec);
    }

    /// Whether every send has been attempted.
    pub fn is_complete(&self) -> (r: bool)
        ensures
            r == (self.pending() is None),
    {
        self.log.len() >= self.sends.len()
    }
}

/// A failed send does not end the batch: the attempt is recorded under its
/// channel and kind, and the same later sends remain to be attempted as after
/// a delivered one.
pub proof fn lemma_failure_does_not_stop_batch(b: DispatchBatch, failed: DispatchBatch, delivered: DispatchBatch)
    requires
        b.wf(),
        b.log@.len() < b.sends@.len(),
        b.recorded_as(failed, false),
        b.recorded_as(delivered, true),
    ensures
        failed.wf(),
        failed.sends == b.sends,
        failed.pending() == delivered.pending(),
        failed.log@.last() == record_of(b.sends@[b.log@.len() as int], false),
        b.log@.len() + 1 < b.sends@.len() ==> failed.pending() == Some(b.log@.len() + 1int),
{
    assert forall|j: int| 0 <= j < failed.log@.len() implies (#[trigger] failed.log@[j]).channel_id
        == failed.sends@[j].channel.user_id && failed.log@[j].kind == failed.sends@[j].kind by {
        if j < b.log@.len() {
            assert(failed.log@[j] == b.log@[j]);
        }
    }
}

/// Once a batch is complete, each target has had both its sends attempted
/// and recorded, whatever their outcomes.
pub proof fn lemma_complete_batch_attempted_every_target(b: DispatchBatch, i: int)
    requires
        b.wf(),
        b.pending() is None,
        0 <= i < b.targets@.len(),
    ensures
        b.log@[2 * i].channel_id == b.sends@[2 * i].channel.user_id,
        b.log@[2 * i].kind == b.sends@[2 * i].kind,
        b.log@[2 * i + 1].channel_id == b.sends@[2 * i + 1].channel.user_id,
        b.log@[2 * i + 1].kind == b.sends@[2 * i + 1].kind,
{
    assert(b.log@[2 * i].channel_id == b.sends@[2 * i].channel.user_id);
    assert(b.log@[2 * i + 1].channel_id == b.sends@[2 * i + 1].channel.user_id);
}

} // verus!
