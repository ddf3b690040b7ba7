//! The enum registry: immutable tables mapping literal tags to enum variants,
//! one per enum domain, with an exact, case-sensitive lookup. A miss returns
//! an error carrying the offending tag and the full table, so every call site
//! reports the same allowed-value set.
use vstd::prelude::*;

verus! {

/// The kind of an inbound delivery, as signalled by the provider's
/// message-type header. Unmatched header values are an error, never a
/// silent fallback.
#[derive(Debug, PartialEq, Eq, Structural, Clone, Copy)]
pub enum MessageType {
    Notification,
    SubscriptionConfirmation,
    UnsubscribeConfirmation,
}

/// The state of a monitored alarm, parsed from its fixed literal tag.
#[derive(Debug, PartialEq, Eq, Structural, Clone, Copy)]
pub enum AlarmState {
    Okay,
    Alarm,
    InsufficientData,
}

/// A failed registry lookup: the offending raw value together with the full
/// legal mapping of the domain, so a precise diagnostic can be rendered.
#[derive(Debug, Clone)]
pub struct ParseEnumError<V> {
    pub value: String,
    pub mapping: Vec<(String, V)>,
}

pub type EnumResult<T> = Result<T, ParseEnumError<T>>;

/// First match of `tag` among the `(tag, variant)` pairs of a table.
pub open spec fn tag_lookup<V>(table: Seq<(Seq<char>, V)>, tag: Seq<char>) -> Option<V>
    decreases table.len(),
{
    if table.len() == 0 {
        None
    } else if table[0].0 == tag {
        Some(table[0].1)
    } else {
        tag_lookup(table.drop_first(), tag)
    }
}

/// The tags of a table, in table order.
pub open spec fn table_tags<V>(table: Seq<(Seq<char>, V)>) -> Seq<Seq<char>> {
    table.map_values(|p: (Seq<char>, V)| p.0)
}

/// Abstraction of an executable table: each key replaced by its view.
pub open spec fn pairs_view<V>(table: Seq<(String, V)>) -> Seq<(Seq<char>, V)> {
    table.map_values(|p: (String, V)| (p.0@, p.1))
}

/// The message-type domain.
pub open spec fn message_type_table() -> Seq<(Seq<char>, MessageType)> {
    seq![
        ("Notification"@, MessageType::Notification),
        ("SubscriptionConfirmation"@, MessageType::SubscriptionConfirmation),
        ("UnsubscribeConfirmation"@, MessageType::UnsubscribeConfirmation),
    ]
}

/// The alarm-state domain.
pub open spec fn alarm_state_table() -> Seq<(Seq<char>, AlarmState)> {
    seq![
        ("OK"@, AlarmState::Okay),
        ("ALARM"@, AlarmState::Alarm),
        ("INSUFFICIENT_DATA"@, AlarmState::InsufficientData),
    ]
}

/// Builds the message-type table.
pub fn message_type_mapping() -> (t: Vec<(String, MessageType)>)
    ensures
        pairs_view(t@) == message_type_table(),
{
    let mut t: Vec<(String, MessageType)> = Vec::new();
    t.push((String::from_str("Notification"), MessageType::Notification));
    t.push((String::from_str("SubscriptionConfirmation"), MessageType::SubscriptionConfirmation));
    t.push((String::from_str("UnsubscribeConfirmation"), MessageType::UnsubscribeConfirmation));
    proof {
        assert(pairs_view(t@) =~= message_type_table());
    }
    t
}

/// Builds the alarm-state table.
pub fn alarm_state_mapping() -> (t: Vec<(String, AlarmState)>)
    ensures
        pairs_view(t@) == alarm_state_table(),
{
    let mut t: Vec<(String, AlarmState)> = Vec::new();
    t.push((String::from_str("OK"), AlarmState::Okay));
    t.push((String::from_str("ALARM"), AlarmState::Alarm));
    t.push((String::from_str("INSUFFICIENT_DATA"), AlarmState::InsufficientData));
    proof {
        assert(pairs_view(t@) =~= alarm_state_table());
    }
    t
}

/// Exact, case-sensitive lookup of `tag` in `table`. On a miss the error
/// carries the offending tag and the whole table.
pub fn lookup<V: Copy>(table: Vec<(String, V)>, tag: &str) -> (r: Result<V, ParseEnumError<V>>)
    ensures
        match r {
            Ok(v) => tag_lookup(pairs_view(table@), tag@) == Some(v),
            Err(e) => tag_lookup(pairs_view(table@), tag@) is None && e.value@ == tag@
                && pairs_view(e.mapping@) == pairs_view(table@),
        },
{
    let tag_string = String::from_str(tag);
    let ghost m = pairs_view(table@);
    proof {
        assert(m.skip(0) =~= m);
    }
    let mut i: usize = 0;
    while i < table.len()
        invariant
            i <= table@.len(),
            m == pairs_view(table@),
            tag_string@ == tag@,
            tag_lookup(m, tag@) == tag_lookup(m.skip(i as int), tag@),
        decreases table@.len() - i,
    {
        proof {
            assert(m.skip(i as int)[0] == m[i as int]);
        }
        if table[i].0 == tag_string {
            return Ok(table[i].1);
        }
        proof {
            assert(m.skip(i as int).drop_first() =~= m.skip(i as int + 1));
        }
        i += 1;
    }
    proof {
        assert(m.skip(table@.len() as int) =~= Seq::<(Seq<char>, V)>::empty());
    }
    Err(ParseEnumError { value: tag_string, mapping: table })
}

impl MessageType {
    /// Registry lookup in the message-type domain, discarding the diagnostic.
    pub fn from_string(msg_type: &str) -> (r: Option<MessageType>)
        ensures
            r == tag_lookup(message_type_table(), msg_type@),
    {
        match Self::from_str(msg_type) {
            Ok(m) => Some(m),
            Err(_) => None,
        }
    }

    /// Registry lookup in the message-type domain.
    pub fn from_str(msg_type: &str) -> (r: EnumResult<MessageType>)
        ensures
            match r {
                Ok(v) => tag_lookup(message_type_table(), msg_type@) == Some(v),
                Err(e) => tag_lookup(message_type_table(), msg_type@) is None
                    && e.value@ == msg_type@
                    && pairs_view(e.mapping@) == message_type_table(),
            },
    {
        lookup(message_type_mapping(), msg_type)
    }
}

impl AlarmState {
    /// Registry lookup in the alarm-state domain.
    pub fn from_str(state: &str) -> (r: EnumResult<AlarmState>)
        ensures
            match r {
                Ok(v) => tag_lookup(alarm_state_table(), state@) == Some(v),
                Err(e) => tag_lookup(alarm_state_table(), state@) is None
                    && e.value@ == state@
                    && pairs_view(e.mapping@) == alarm_state_table(),
            },
    {
        lookup(alarm_state_mapping(), state)
    }
}

/// Classifies a request by the value of its message-type header. An absent
/// header is a miss with an empty offending value, not a panic.
pub fn classify(header_value: Option<&str>) -> (r: EnumResult<MessageType>)
    ensures
        match header_value {
            Some(h) => match r {
                Ok(v) => tag_lookup(message_type_table(), h@) == Some(v),
                Err(e) => tag_lookup(message_type_table(), h@) is None && e.value@ == h@
                    && pairs_view(e.mapping@) == message_type_table(),
            },
            None => r matches Err(e) && e.value@ == Seq::<char>::empty()
                && pairs_view(e.mapping@) == message_type_table(),
        },
{
    match header_value {
        Some(h) => MessageType::from_str(h),
        None => Err(ParseEnumError { value: String::new(), mapping: message_type_mapping() }),
    }
}

/// Every literal tag of the message-type domain maps to its variant, and
/// every other string misses.
pub proof fn lemma_message_type_registry_exact(tag: Seq<char>)
    ensures
        tag_lookup(message_type_table(), tag) == (if tag == "Notification"@ {
            Some(MessageType::Notification)
        } else if tag == "SubscriptionConfirmation"@ {
            Some(MessageType::SubscriptionConfirmation)
        } else if tag == "UnsubscribeConfirmation"@ {
            Some(MessageType::UnsubscribeConfirmation)
        } else {
            None::<MessageType>
        }),
{
    reveal_with_fuel(tag_lookup, 5);
    let t = message_type_table();
    assert(t.drop_first() =~= seq![
        ("SubscriptionConfirmation"@, MessageType::SubscriptionConfirmation),
        ("UnsubscribeConfirmation"@, MessageType::UnsubscribeConfirmation),
    ]);
    assert(t.drop_first().drop_first() =~= seq![
        ("UnsubscribeConfirmation"@, MessageType::UnsubscribeConfirmation),
    ]);
    assert(t.drop_first().drop_first().drop_first() =~= Seq::<(Seq<char>, MessageType)>::empty());
    assert(tag_lookup(t.drop_first().drop_first().drop_first(), tag) is None);
}

/// Every literal tag of the alarm-state domain maps to its variant, and
/// every other string misses.
pub proof fn lemma_alarm_state_registry_exact(tag: Seq<char>)
    ensures
        tag_lookup(alarm_state_table(), tag) == (if tag == "OK"@ {
            Some(AlarmState::Okay)
        } else if tag == "ALARM"@ {
            Some(AlarmState::Alarm)
        } else if tag == "INSUFFICIENT_DATA"@ {
            Some(AlarmState::InsufficientData)
        } else {
            None::<AlarmState>
        }),
{
    reveal_with_fuel(tag_lookup, 5);
    let t = alarm_state_table();
    assert(t.drop_first() =~= seq![
        ("ALARM"@, AlarmState::Alarm),
        ("INSUFFICIENT_DATA"@, AlarmState::InsufficientData),
    ]);
    assert(t.drop_first().drop_first() =~= seq![
        ("INSUFFICIENT_DATA"@, AlarmState::InsufficientData),
    ]);
    assert(t.drop_first().drop_first().drop_first() =~= Seq::<(Seq<char>, AlarmState)>::empty());
    assert(tag_lookup(t.drop_first().drop_first().drop_first(), tag) is None);
}

} // verus!
