use vstd::prelude::*;

verus! {

/// A group as callers see it: its opaque id and when it was created
/// (nanoseconds since the epoch).
#[derive(Clone, Debug, PartialEq, Eq)]
pub struct Group {
    pub group_id: Vec<u8>,
    pub created_at_ns: i64,
}

/// An account in a group, with the installations (devices) of that account
/// that are currently members.
#[derive(Clone, Debug, PartialEq, Eq)]
pub struct GroupMember {
    pub account_address: String,
    pub installation_ids: Vec<Vec<u8>>,
}

/// What a stored group message carries: application content, or a
/// protocol-level membership change.
#[derive(Clone, Copy, Debug, PartialEq, Eq, Structural)]
pub enum MessageKind {
    Application,
    MembershipChange,
}

/// A message as the local store holds it.
#[derive(Clone, Debug, PartialEq, Eq)]
pub struct StoredMessage {
    pub id: Vec<u8>,
    pub group_id: Vec<u8>,
    pub decrypted_message_bytes: Vec<u8>,
    pub sent_at_ns: i64,
    pub kind: MessageKind,
    pub sender_installation_id: Vec<u8>,
    pub sender_account_address: String,
}

/// A delivered application message as callers see it.
#[derive(Clone, Debug, PartialEq, Eq)]
pub struct Message {
    pub id: Vec<u8>,
    pub sent_at_ns: i64,
    pub group_id: Vec<u8>,
    pub sender_account_address: String,
    pub content_bytes: Vec<u8>,
}

/// The caller's view of a stored message.
pub open spec fn message_of(m: StoredMessage) -> Message {
    Message {
        id: m.id,
        sent_at_ns: m.sent_at_ns,
        group_id: m.group_id,
        sender_account_address: m.sender_account_address,
        content_bytes: m.decrypted_message_bytes,
    }
}

impl From<StoredMessage> for Message {
    fn from(m: StoredMessage) -> (r: Message)
        ensures
            r == message_of(m),
    {
        Message {
            id: m.id,
            sent_at_ns: m.sent_at_ns,
            group_id: m.group_id,
            sender_account_address: m.sender_account_address,
            content_bytes: m.decrypted_message_bytes,
        }
    }
}

impl vstd::std_specs::convert::FromSpecImpl<StoredMessage> for Message {
    open spec fn obeys_from_spec() -> bool {
        true
    }

    open spec fn from_spec(m: StoredMessage) -> Message {
        message_of(m)
    }
}

/// Whether timestamp `t` lies strictly after `after` and strictly before
/// `before`, an absent bound admitting every timestamp.
pub open spec fn within(t: i64, after: Option<i64>, before: Option<i64>) -> bool {
    &&& match after {
        Some(a) => a < t,
        None => true,
    }
    &&& match before {
        Some(b) => t < b,
        None => true,
    }
}

/// The first `limit` items of `s`; an absent or negative limit keeps all.
pub open spec fn capped<A>(s: Seq<A>, limit: Option<i64>) -> Seq<A> {
    match limit {
        Some(l) => if 0 <= l < s.len() {
            s.take(l as int)
        } else {
            s
        },
        None => s,
    }
}

/// The groups of `s` created within the window, in their order in `s`.
pub open spec fn groups_in_window(s: Seq<Group>, after: Option<i64>, before: Option<i64>) -> Seq<
    Group,
>
    decreases s.len(),
{
    if s.len() == 0 {
        Seq::empty()
    } else {
        let rest = groups_in_window(s.drop_last(), after, before);
        if within(s.last().created_at_ns, after, before) {
            rest.push(s.last())
        } else {
            rest
        }
    }
}

/// The application messages of `s` sent within the window, in their order
/// in `s`, as callers see them.
pub open spec fn messages_in_window(
    s: Seq<StoredMessage>,
    after: Option<i64>,
    before: Option<i64>,
) -> Seq<Message>
    decreases s.len(),
{
    if s.len() == 0 {
        Seq::empty()
    } else {
        let rest = messages_in_window(s.drop_last(), after, before);
        let m = s.last();
        if m.kind == MessageKind::Application && within(m.sent_at_ns, after, before) {
            rest.push(message_of(m))
        } else {
            rest
        }
    }
}

/// What listing groups returns for the locally known groups `s`.
pub open spec fn listed_groups(
    s: Seq<Group>,
    after: Option<i64>,
    before: Option<i64>,
    limit: Option<i64>,
) -> Seq<Group> {
    capped(groups_in_window(s, after, before), limit)
}

/// What listing messages returns for the stored messages `s` of a group.
pub open spec fn listed_messages(
    s: Seq<StoredMessage>,
    before: Option<i64>,
    after: Option<i64>,
    limit: Option<i64>,
) -> Seq<Message> {
    capped(messages_in_window(s, after, before), limit)
}

fn in_window(t: i64, after: Option<i64>, before: Option<i64>) -> (r: bool)
    ensures
        r == within(t, after, before),
{
    let after_ok = match after {
        Some(a) => a < t,
        None => true,
    };
    let before_ok = match before {
        Some(b) => t < b,
        None => true,
    };
    after_ok && before_ok
}

fn cap<A>(v: &mut Vec<A>, limit: Option<i64>)
    ensures
        final(v)@ == capped(old(v)@, limit),
{
    if let Some(l) = limit {
        if 0 <= l && (l as u64) < (v.len() as u64) {
            v.truncate(l as usize);
        }
    }
}

/// Selects, from the locally known groups, those created strictly after
/// `created_after_ns` and strictly before `created_before_ns`, keeping their
/// order, and at most `limit` of them.
pub fn select_groups(
    groups: Vec<Group>,
    created_after_ns: Option<i64>,
    created_before_ns: Option<i64>,
    limit: Option<i64>,
) -> (r: Vec<Group>)
    ensures
        r@ == listed_groups(groups@, created_after_ns, created_before_ns, limit),
{
    let ghost s = groups@;
    let mut r: Vec<Group> = Vec::new();
    for g in it: groups.into_iter()
        invariant
            it.seq() == s,
            r@ == groups_in_window(s.take(it.index() as int), created_after_ns, created_before_ns),
    {
        proof {
            assert(s.take(it.index() as int + 1).drop_last() =~= s.take(it.index() as int));
        }
        if in_window(g.created_at_ns, created_after_ns, created_before_ns) {
            r.push(g);
        }
    }
    proof {
        assert(s.take(s.len() as int) =~= s);
    }
    cap(&mut r, limit);
    r
}

/// Selects, from a group's stored messages, the application messages sent
/// strictly after `sent_after_ns` and strictly before `sent_before_ns`,
/// keeping their order, and at most `limit` of them.
pub fn select_messages(
    stored: Vec<StoredMessage>,
    sent_before_ns: Option<i64>,
    sent_after_ns: Option<i64>,
    limit: Option<i64>,
) -> (r: Vec<Message>)
    ensures
        r@ == listed_messages(stored@, sent_before_ns, sent_after_ns, limit),
{
    let ghost s = stored@;
    let mut r: Vec<Message> = Vec::new();
    for m in it: stored.into_iter()
        invariant
            it.seq() == s,
            r@ == messages_in_window(s.take(it.index() as int), sent_after_ns, sent_before_ns),
    {
        proof {
            assert(s.take(it.index() as int + 1).drop_last() =~= s.take(it.index() as int));
        }
        let keep = match m.kind {
            MessageKind::Application => in_window(m.sent_at_ns, sent_after_ns, sent_before_ns),
            MessageKind::MembershipChange => false,
        };
        if keep {
            r.push(Message::from(m));
        }
    }
    proof {
        assert(s.take(s.len() as int) =~= s);
    }
    cap(&mut r, limit);
    r
}

/// Every message that listing returns was sent within the requested window:
/// strictly after `sent_after_ns` and strictly before `sent_before_ns`,
/// whatever the limit.
pub proof fn lemma_listed_messages_within_window(
    s: Seq<StoredMessage>,
    sent_before_ns: Option<i64>,
    sent_after_ns: Option<i64>,
    limit: Option<i64>,
)
    ensures
        forall|i: int|
            0 <= i < listed_messages(s, sent_before_ns, sent_after_ns, limit).len() ==> within(
                #[trigger] listed_messages(s, sent_before_ns, sent_after_ns, limit)[i].sent_at_ns,
                sent_after_ns,
                sent_before_ns,
            ),
{
    lemma_messages_in_window_sound(s, sent_after_ns, sent_before_ns);
}

proof fn lemma_messages_in_window_sound(
    s: Seq<StoredMessage>,
    after: Option<i64>,
    before: Option<i64>,
)
    ensures
        forall|i: int|
            0 <= i < messages_in_window(s, after, before).len() ==> within(
                #[trigger] messages_in_window(s, after, before)[i].sent_at_ns,
                after,
                before,
            ),
    decreases s.len(),
{
    if s.len() > 0 {
        lemma_messages_in_window_sound(s.drop_last(), after, before);
        let rest = messages_in_window(s.drop_last(), after, before);
        let r = messages_in_window(s, after, before);
        assert forall|i: int| 0 <= i < r.len() implies within(r[i].sent_at_ns, after, before) by {
            if i < rest.len() {
                assert(r[i] == rest[i]);
            }
        }
    }
}

/// Listing messages after time `t` leaves out every message sent at or
/// before `t`: the lower bound is exclusive.
pub proof fn lemma_sent_after_is_exclusive(
    s: Seq<StoredMessage>,
    sent_before_ns: Option<i64>,
    t: i64,
    limit: Option<i64>,
)
    ensures
        forall|i: int|
            0 <= i < listed_messages(s, sent_before_ns, Some(t), limit).len() ==> t
                < #[trigger] listed_messages(s, sent_before_ns, Some(t), limit)[i].sent_at_ns,
{
    lemma_listed_messages_within_window(s, sent_before_ns, Some(t), limit);
}

/// Without a limit, every stored application message sent within the window
/// is listed.
pub proof fn lemma_window_is_complete(
    s: Seq<StoredMessage>,
    sent_before_ns: Option<i64>,
    sent_after_ns: Option<i64>,
    k: int,
)
    requires
        0 <= k < s.len(),
        s[k].kind == MessageKind::Application,
        within(s[k].sent_at_ns, sent_after_ns, sent_before_ns),
    ensures
        listed_messages(s, sent_before_ns, sent_after_ns, None).contains(message_of(s[k])),
    decreases s.len(),
{
    let r = messages_in_window(s, sent_after_ns, sent_before_ns);
    if k == s.len() - 1 {
        assert(r[r.len() - 1] == message_of(s[k]));
    } else {
        lemma_window_is_complete(s.drop_last(), sent_before_ns, sent_after_ns, k);
        let rest = messages_in_window(s.drop_last(), sent_after_ns, sent_before_ns);
        let j = choose|j: int| 0 <= j < rest.len() && rest[j] == message_of(s[k]);
        assert(r[j] == message_of(s[k]));
    }
}

/// Listing groups with no bounds and no limit returns every locally known
/// group, in order; a store with no groups lists none.
pub proof fn lemma_unfiltered_groups_are_all(s: Seq<Group>)
    ensures
        listed_groups(s, None, None, None) == s,
        s.len() == 0 ==> listed_groups(s, None, None, None).len() == 0,
    decreases s.len(),
{
    if s.len() > 0 {
        lemma_unfiltered_groups_are_all(s.drop_last());
        assert(s.drop_last().push(s.last()) =~= s);
    }
}

} // verus!
