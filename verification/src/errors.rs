//! The error model: a closed set of failure kinds threaded through
//! classification, envelope decoding and the confirmation handshake, each
//! with a verified human-readable rendering.
use vstd::prelude::*;

use crate::digits::dec_str;
use crate::digits::u16_to_string;
use crate::registry::MessageType;
use crate::registry::ParseEnumError;
use crate::registry::pairs_view;
use crate::registry::table_tags;

verus! {

/// A JSON decode failure: the decoder's message, and the offending field
/// where one is known.
#[derive(Debug, Clone)]
pub struct JsonError {
    pub message: String,
    pub path: Option<String>,
}

/// The failure kinds that reach the request boundary.
#[derive(Debug)]
pub enum CloudwatchNotifierError {
    Io(String),
    Json(JsonError),
    EnumParse(ParseEnumError<MessageType>),
    AutoSubscriptionError(String),
    AutoSubscriptionBadStatus(String, u16),
}

/// The tags of a domain joined for display, separated by " | ".
pub open spec fn join_tags(tags: Seq<Seq<char>>) -> Seq<char>
    decreases tags.len(),
{
    if tags.len() == 0 {
        Seq::empty()
    } else if tags.len() == 1 {
        tags[0]
    } else {
        join_tags(tags.drop_last()) + " | "@ + tags.last()
    }
}

/// The diagnostic for a registry miss: the offending value and the full
/// allowed-value list.
pub open spec fn enum_error_render(value: Seq<char>, tags: Seq<Seq<char>>) -> Seq<char> {
    "'"@ + value + "' does not match allowed enum values: "@ + join_tags(tags)
}

impl<V> ParseEnumError<V> {
    pub open spec fn render_spec(self) -> Seq<char> {
        enum_error_render(self.value@, table_tags(pairs_view(self.mapping@)))
    }

    /// Renders the miss with the full allowed-value list of its domain.
    pub fn render(&self) -> (r: String)
        ensures
            r@ == self.render_spec(),
    {
        let ghost tags = table_tags(pairs_view(self.mapping@));
        let mut s = String::from_str("'");
        s.append(self.value.as_str());
        s.append("' does not match allowed enum values: ");
        let ghost prefix = s@;
        proof {
            assert(tags.take(0) =~= Seq::<Seq<char>>::empty());
            assert(prefix + join_tags(tags.take(0)) =~= prefix);
        }
        let mut i: usize = 0;
        while i < self.mapping.len()
            invariant
                i <= self.mapping@.len(),
                tags == table_tags(pairs_view(self.mapping@)),
                tags.len() == self.mapping@.len(),
                s@ == prefix + join_tags(tags.take(i as int)),
            decreases self.mapping@.len() - i,
        {
            if i > 0 {
                s.append(" | ");
            }
            s.append(self.mapping[i].0.as_str());
            proof {
                assert(tags[i as int] == self.mapping@[i as int].0@);
                assert(tags.take(i + 1).drop_last() =~= tags.take(i as int));
                assert(tags.take(i + 1).last() == tags[i as int]);
                if i == 0 {
                    assert(s@ =~= prefix + join_tags(tags.take(1)));
                } else {
                    assert(s@ =~= prefix + join_tags(tags.take(i + 1)));
                }
            }
            i += 1;
        }
        proof {
            assert(tags.take(self.mapping@.len() as int) =~= tags);
        }
        s
    }
}

impl CloudwatchNotifierError {
    pub open spec fn render_spec(self) -> Seq<char> {
        match self {
            CloudwatchNotifierError::Io(m) => "IO error: "@ + m@,
            CloudwatchNotifierError::Json(e) => "JSON error: "@ + e.message@,
            CloudwatchNotifierError::EnumParse(e) => e.render_spec(),
            CloudwatchNotifierError::AutoSubscriptionError(m) => "Failed to auto-subscribe: "@
                + m@,
            CloudwatchNotifierError::AutoSubscriptionBadStatus(url, code) =>
                "Failed to auto-subscribe using "@ + url@ + ", got status code "@ + dec_str(
                code as nat,
            ) + " "@,
        }
    }

    /// Renders the failure for diagnostics.
    pub fn render(&self) -> (r: String)
        ensures
            r@ == self.render_spec(),
    {
        match self {
            CloudwatchNotifierError::Io(m) => {
                let mut s = String::from_str("IO error: ");
                s.append(m.as_str());
                s
            },
            CloudwatchNotifierError::Json(e) => {
                let mut s = String::from_str("JSON error: ");
                s.append(e.message.as_str());
                s
            },
            CloudwatchNotifierError::EnumParse(e) => e.render(),
            CloudwatchNotifierError::AutoSubscriptionError(m) => {
                let mut s = String::from_str("Failed to auto-subscribe: ");
                s.append(m.as_str());
                s
            },
            CloudwatchNotifierError::AutoSubscriptionBadStatus(url, code) => {
                let mut s = String::from_str("Failed to auto-subscribe using ");
                s.append(url.as_str());
                s.append(", got status code ");
                let code_str = u16_to_string(*code);
                s.append(code_str.as_str());
                s.append(" ");
                s
            },
        }
    }
}

} // verus!
