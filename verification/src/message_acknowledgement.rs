use vstd::prelude::*;

use crate::ids::random_u64;

verus! {

/// Identifies a message that asks to be acknowledged.
#[derive(Debug, Clone, Copy, PartialEq, Eq, Structural)]
pub struct AckId(pub u64);

impl Default for AckId {
    /// A fresh identifier drawn at random; any `u64` may come back.
    fn default() -> Self {
        Self(random_u64())
    }
}

/// What travels between server and players: content that asks to be acknowledged, content that
/// does not, and the acknowledgement of earlier content.
#[derive(Debug)]
pub enum Message<MessageContent> {
    AckReply(AckId),
    Ack((AckId, MessageContent)),
    NoAck(MessageContent),
}

/// The message to send for `message_content`: one asking for acknowledgement, under a fresh
/// identifier, when `needs_ack`.
pub fn new_message<MessageContent>(message_content: MessageContent, needs_ack: bool) -> (r: Message<
    MessageContent,
>)
    ensures
        needs_ack ==> (r matches Message::Ack((_, c)) && c == message_content),
        !needs_ack ==> r == Message::NoAck(message_content),
{
    match needs_ack {
        true => Message::Ack((AckId::default(), message_content)),
        false => Message::NoAck(message_content),
    }
}

/// What to do with a queued message when the queue is sent.
#[derive(Debug, Clone, Copy, PartialEq, Eq, Structural)]
pub enum ResendDecision {
    /// It was sent too recently: leave it queued.
    Wait,
    /// Send it and keep it queued until it is acknowledged.
    SendAndKeep,
    /// Send it and forget it.
    SendAndDrop,
}

/// The decision for a queued message, given whether it was sent less than one resend interval
/// ago.
pub open spec fn spec_resend_decision<MessageContent>(
    message: Message<MessageContent>,
    sent_recently: bool,
) -> ResendDecision {
    if sent_recently {
        ResendDecision::Wait
    } else if message is Ack {
        ResendDecision::SendAndKeep
    } else {
        ResendDecision::SendAndDrop
    }
}

/// Decides what sending the queue does with `message`: a message sent within the resend
/// interval waits; any other is sent, and stays queued only when it awaits acknowledgement.
pub fn resend_decision<MessageContent>(message: &Message<MessageContent>, sent_recently: bool) -> (r:
    ResendDecision)
    ensures
        r == spec_resend_decision(*message, sent_recently),
{
    if sent_recently {
        return ResendDecision::Wait;
    }
    if matches!(message, Message::Ack(_)) {
        ResendDecision::SendAndKeep
    } else {
        ResendDecision::SendAndDrop
    }
}

/// Whether a queued message stays queued once `ack_id` has been acknowledged: only messages that
/// await an acknowledgement under another identifier do.
pub open spec fn stays_after_ack<MessageContent>(message: Message<MessageContent>, ack_id: AckId) -> bool {
    match message {
        Message::Ack((id, _)) => id != ack_id,
        _ => false,
    }
}

/// The queue entries that stay queued once `ack_id` has been acknowledged, in their order.
pub open spec fn kept_after_ack<MessageContent, Addr, Time>(
    messages: Seq<(Message<MessageContent>, Addr, Option<Time>)>,
    ack_id: AckId,
) -> Seq<(Message<MessageContent>, Addr, Option<Time>)>
    decreases messages.len(),
{
    if messages.len() == 0 {
        seq![]
    } else {
        let rest = kept_after_ack(messages.drop_last(), ack_id);
        if stays_after_ack(messages.last().0, ack_id) {
            rest.push(messages.last())
        } else {
            rest
        }
    }
}

/// Removes from the queue the message acknowledged under `ack_id`, together with every message
/// that awaits no acknowledgement.
pub fn remove_acknowledged<MessageContent, Addr, Time>(
    messages: &mut Vec<(Message<MessageContent>, Addr, Option<Time>)>,
    ack_id: AckId,
)
    ensures
        final(messages)@ == kept_after_ack(old(messages)@, ack_id),
{
    let mut rest: Vec<(Message<MessageContent>, Addr, Option<Time>)> = Vec::new();
    std::mem::swap(messages, &mut rest);
    let ghost all = rest@;
    let ghost mut taken: int = 0;
    while rest.len() > 0
        invariant
            0 <= taken <= all.len(),
            rest@ == all.subrange(taken, all.len() as int),
            messages@ == kept_after_ack(all.take(taken), ack_id),
        decreases rest@.len(),
    {
        let entry = rest.remove(0);
        assert(entry == all[taken]);
        assert(all.take(taken + 1).drop_last() =~= all.take(taken));
        let keep = match &entry.0 {
            Message::Ack((id, _)) => *id != ack_id,
            _ => false,
        };
        if keep {
            messages.push(entry);
        }
        proof {
            taken = taken + 1;
        }
        assert(rest@ =~= all.subrange(taken, all.len() as int));
    }
    assert(all.take(all.len() as int) =~= all);
}

/// What a received message asks of the receiver.
#[derive(Debug)]
pub enum ReceiveAction<MessageContent> {
    /// An acknowledgement: drop the acknowledged message from the queue and read on.
    Acknowledged(AckId),
    /// Content to hand over, after replying with the acknowledgement when one is asked for.
    Deliver { content: MessageContent, reply: Option<AckId> },
}

/// Decides what a received message asks for.
pub fn on_receive<MessageContent>(message: Message<MessageContent>) -> (r: ReceiveAction<MessageContent>)
    ensures
        match message {
            Message::AckReply(id) => r == ReceiveAction::<MessageContent>::Acknowledged(id),
            Message::Ack((id, content)) => r == ReceiveAction::Deliver { content, reply: Some(id) },
            Message::NoAck(content) => r == ReceiveAction::Deliver { content, reply: None },
        },
{
    match message {
        Message::AckReply(ack_id) => ReceiveAction::Acknowledged(ack_id),
        Message::Ack((ack_id, content)) => ReceiveAction::Deliver { content, reply: Some(ack_id) },
        Message::NoAck(content) => ReceiveAction::Deliver { content, reply: None },
    }
}

/// A message awaiting acknowledgement is sent again and again until its acknowledgement comes;
/// one that awaits none is sent once and then forgotten.
pub proof fn lemma_acknowledged_delivery<MessageContent>(
    message: Message<MessageContent>,
    ack_id: AckId,
)
    ensures
        message is Ack ==> spec_resend_decision(message, false) == ResendDecision::SendAndKeep,
        message is NoAck ==> spec_resend_decision(message, false) == ResendDecision::SendAndDrop,
        spec_resend_decision(message, true) == ResendDecision::Wait,
        (message matches Message::Ack((id, _)) && id == ack_id) ==> !stays_after_ack(
            message,
            ack_id,
        ),
        (message matches Message::Ack((id, _)) && id != ack_id) ==> stays_after_ack(
            message,
            ack_id,
        ),
{
}

/// Taking in the acknowledgement of `ack_id` keeps, in their order, exactly the queued messages
/// that still await an acknowledgement under another identifier, whether or not they have been
/// sent yet; everything else leaves the queue.
pub proof fn lemma_acknowledgement_keeps_other_awaited<MessageContent, Addr, Time>(
    messages: Seq<(Message<MessageContent>, Addr, Option<Time>)>,
    ack_id: AckId,
)
    ensures
        forall|i: int|
            0 <= i < messages.len() && ((#[trigger] messages[i]).0 matches Message::Ack((id, _))
                && id != ack_id) ==> kept_after_ack(messages, ack_id).contains(messages[i]),
        forall|k: int|
            0 <= k < kept_after_ack(messages, ack_id).len() ==> {
                let entry = #[trigger] kept_after_ack(messages, ack_id)[k];
                &&& entry.0 matches Message::Ack((id, _)) && id != ack_id
                &&& messages.contains(entry)
            },
        kept_after_ack(messages, ack_id).len() <= messages.len(),
    decreases messages.len(),
{
    if messages.len() > 0 {
        let front = messages.drop_last();
        lemma_acknowledgement_keeps_other_awaited(front, ack_id);
        let rest = kept_after_ack(front, ack_id);
        let kept = kept_after_ack(messages, ack_id);
        assert forall|i: int|
            0 <= i < messages.len() && ((#[trigger] messages[i]).0 matches Message::Ack((id, _))
                && id != ack_id) implies kept.contains(messages[i]) by {
            if i < front.len() {
                assert(front[i] == messages[i]);
                assert(rest.contains(front[i]));
                let k = choose|k: int| 0 <= k < rest.len() && rest[k] == front[i];
                assert(kept[k] == rest[k]);
            } else {
                assert(kept[kept.len() - 1] == messages[i]);
            }
        }
        assert forall|k: int| 0 <= k < kept.len() implies {
            let entry = #[trigger] kept[k];
            &&& entry.0 matches Message::Ack((id, _)) && id != ack_id
            &&& messages.contains(entry)
        } by {
            if k < rest.len() {
                assert(kept[k] == rest[k]);
                let e = rest[k];
                assert(front.contains(e));
                let j = choose|j: int| 0 <= j < front.len() && front[j] == e;
                assert(messages[j] == e);
            } else {
                assert(kept[k] == messages[messages.len() - 1]);
            }
        }
    }
}

} // verus!
