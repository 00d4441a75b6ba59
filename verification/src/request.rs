//! The outbound request: chat messages, canonical serialization, and the
//! free-text time-constraint heuristics for deep research.

use vstd::prelude::*;
use vstd::string::*;

use crate::text::{push_char, seq_contains, str_contains};

verus! {

/// One chat message of the outbound conversation.
#[derive(Debug)]
pub struct Message {
    pub role: String,
    pub content: String,
}

/// The mathematical model of a [`Message`].
#[verifier::ext_equal]
pub struct MessageModel {
    pub role: Seq<char>,
    pub content: Seq<char>,
}

impl View for Message {
    type V = MessageModel;

    open spec fn view(&self) -> MessageModel {
        MessageModel { role: self.role@, content: self.content@ }
    }
}

/// The models of a message list.
pub open spec fn messages_model(v: Seq<Message>) -> Seq<MessageModel> {
    v.map_values(|m: Message| m@)
}

/// How one character is written inside a canonical string literal:
/// backslash, quote, and the common control characters get an escape, and
/// every other character stands for itself.
pub open spec fn esc_char(c: char) -> Seq<char> {
    if c == '\\' {
        seq!['\\', '\\']
    } else if c == '"' {
        seq!['\\', '"']
    } else if c == '\n' {
        seq!['\\', 'n']
    } else if c == '\r' {
        seq!['\\', 'r']
    } else if c == '\t' {
        seq!['\\', 't']
    } else {
        seq![c]
    }
}

/// The canonical escaping of a whole string.
pub open spec fn esc_str(s: Seq<char>) -> Seq<char>
    decreases s.len(),
{
    if s.len() == 0 {
        Seq::empty()
    } else {
        esc_char(s[0]) + esc_str(s.drop_first())
    }
}

/// Escaping one more character on the right appends its escape.
pub proof fn lemma_esc_str_snoc(s: Seq<char>, c: char)
    ensures
        esc_str(s.push(c)) == esc_str(s) + esc_char(c),
    decreases s.len(),
{
    if s.len() == 0 {
        let p = s.push(c);
        assert(p.len() == 1);
        assert(p[0] == c);
        assert(p.drop_first() =~= Seq::<char>::empty());
        assert(esc_str(p.drop_first()) =~= Seq::<char>::empty());
        assert(esc_str(p) == esc_char(c) + esc_str(p.drop_first()));
        assert(esc_str(s) =~= Seq::<char>::empty());
        assert(esc_str(s.push(c)) =~= esc_str(s) + esc_char(c));
    } else {
        assert(s.push(c).drop_first() =~= s.drop_first().push(c));
        lemma_esc_str_snoc(s.drop_first(), c);
        assert(esc_str(s.push(c)) =~= esc_str(s) + esc_char(c));
    }
}

/// One message in canonical form: a JSON-shaped object with `role` and
/// `content`, both escaped.
pub open spec fn canonical_message(m: MessageModel) -> Seq<char> {
    "{\"role\":\""@ + esc_str(m.role) + "\",\"content\":\""@ + esc_str(m.content) + "\"}"@
}

/// The remaining messages of a canonical list, each preceded by a comma.
pub open spec fn canonical_tail(msgs: Seq<MessageModel>) -> Seq<char>
    decreases msgs.len(),
{
    if msgs.len() == 0 {
        Seq::empty()
    } else {
        ","@ + canonical_message(msgs[0]) + canonical_tail(msgs.drop_first())
    }
}

/// A whole message list in canonical form: a JSON-shaped array of the
/// messages, in order.  This text is the cache key for a call.
pub open spec fn canonical_messages(msgs: Seq<MessageModel>) -> Seq<char> {
    if msgs.len() == 0 {
        "[]"@
    } else {
        "["@ + canonical_message(msgs[0]) + canonical_tail(msgs.drop_first()) + "]"@
    }
}

/// Appends the canonical escaping of `s` to `out`.
fn escape_into(out: &mut String, s: &str)
    ensures
        final(out)@ == old(out)@ + esc_str(s@),
{
    let n = s.unicode_len();
    proof {
        assert(s@.subrange(0, 0) =~= Seq::empty());
        assert(esc_str(s@.subrange(0, 0)) =~= Seq::<char>::empty());
        assert(out@ =~= out@ + esc_str(s@.subrange(0, 0)));
    }
    for i in 0..n
        invariant
            n == s@.len(),
            out@ == old(out)@ + esc_str(s@.subrange(0, i as int)),
    {
        let c = s.get_char(i);
        if c == '\\' {
            proof {
                reveal_strlit("\\\\");
            }
            out.append("\\\\");
        } else if c == '"' {
            proof {
                reveal_strlit("\\\"");
            }
            out.append("\\\"");
        } else if c == '\n' {
            proof {
                reveal_strlit("\\n");
            }
            out.append("\\n");
        } else if c == '\r' {
            proof {
                reveal_strlit("\\r");
            }
            out.append("\\r");
        } else if c == '\t' {
            proof {
                reveal_strlit("\\t");
            }
            out.append("\\t");
        } else {
            push_char(out, c);
        }
        proof {
            assert(s@.subrange(0, i + 1) =~= s@.subrange(0, i as int).push(s@[i as int]));
            lemma_esc_str_snoc(s@.subrange(0, i as int), s@[i as int]);
            assert(out@ =~= old(out)@ + esc_str(s@.subrange(0, i + 1)));
        }
    }
    proof {
        assert(s@.subrange(0, s@.len() as int) =~= s@);
    }
}

/// Appends one canonical message to `out`.
fn message_into(out: &mut String, m: &Message)
    ensures
        final(out)@ == old(out)@ + canonical_message(m@),
{
    out.append("{\"role\":\"");
    escape_into(out, m.role.as_str());
    out.append("\",\"content\":\"");
    escape_into(out, m.content.as_str());
    out.append("\"}");
    proof {
        assert(final(out)@ =~= old(out)@ + canonical_message(m@));
    }
}

/// The canonical serialization of a message list, used as the text of a
/// cache query.
pub fn serialize_messages(msgs: &Vec<Message>) -> (r: String)
    ensures
        r@ == canonical_messages(messages_model(msgs@)),
{
    let ghost gm = messages_model(msgs@);
    let mut out = String::new();
    if msgs.len() == 0 {
        out.append("[]");
        proof {
            assert(out@ =~= canonical_messages(gm));
        }
        return out;
    }
    out.append("[");
    message_into(&mut out, &msgs[0]);
    let n = msgs.len();
    for i in 1..n
        invariant
            n == msgs@.len(),
            n >= 1,
            gm == messages_model(msgs@),
            out@ == "["@ + canonical_message(gm[0]) + canonical_head_tail(gm, i as int),
    {
        proof {
            assert(gm.subrange(1, i as int).push(gm[i as int]) =~= gm.subrange(1, i + 1));
            lemma_canonical_tail_snoc(gm.subrange(1, i as int), gm[i as int]);
        }
        out.append(",");
        message_into(&mut out, &msgs[i]);
        proof {
            assert(out@ =~= "["@ + canonical_message(gm[0]) + canonical_head_tail(gm, i + 1));
        }
    }
    out.append("]");
    proof {
        assert(gm.subrange(1, gm.len() as int) =~= gm.drop_first());
        assert(out@ =~= canonical_messages(gm));
    }
    out
}

/// The canonical form of messages `1 .. i`, each preceded by a comma.
pub open spec fn canonical_head_tail(msgs: Seq<MessageModel>, i: int) -> Seq<char> {
    canonical_tail(msgs.subrange(1, i))
}

/// Serializing one more message appends a comma and its canonical form.
pub proof fn lemma_canonical_tail_snoc(msgs: Seq<MessageModel>, m: MessageModel)
    ensures
        canonical_tail(msgs.push(m)) == canonical_tail(msgs) + ","@ + canonical_message(m),
    decreases msgs.len(),
{
    if msgs.len() == 0 {
        let p = msgs.push(m);
        assert(p.len() == 1);
        assert(p[0] == m);
        assert(p.drop_first() =~= Seq::<MessageModel>::empty());
        assert(canonical_tail(p.drop_first()) =~= Seq::<char>::empty());
        assert(canonical_tail(p) == ","@ + canonical_message(m) + canonical_tail(p.drop_first()));
        assert(canonical_tail(msgs) =~= Seq::<char>::empty());
        assert(canonical_tail(msgs.push(m)) =~= canonical_tail(msgs) + ","@ + canonical_message(
            m,
        ));
    } else {
        assert(msgs.push(m).drop_first() =~= msgs.drop_first().push(m));
        lemma_canonical_tail_snoc(msgs.drop_first(), m);
        assert(canonical_tail(msgs.push(m)) =~= canonical_tail(msgs) + ","@ + canonical_message(
            m,
        ));
    }
}

/// The recency filter the deep-research variant derives from a free-text
/// time constraint: mention of "recent" or "latest" narrows the search to
/// the last week, mention of "year" to the last month, and anything else
/// leaves the filter unset.
pub open spec fn spec_derived_recency(tc: Seq<char>) -> Option<Seq<char>> {
    if seq_contains(tc, "recent"@) || seq_contains(tc, "latest"@) {
        Some("week"@)
    } else if seq_contains(tc, "year"@) {
        Some("month"@)
    } else {
        None
    }
}

/// Derives the search recency filter from a free-text time constraint.
pub fn derive_recency(time_constraint: &str) -> (r: Option<String>)
    ensures
        match r {
            Some(s) => spec_derived_recency(time_constraint@) == Some(s@),
            None => spec_derived_recency(time_constraint@) is None,
        },
{
    if str_contains(time_constraint, "recent") || str_contains(time_constraint, "latest") {
        Some(String::from_str("week"))
    } else if str_contains(time_constraint, "year") {
        Some(String::from_str("month"))
    } else {
        None
    }
}

/// The fixed sampling temperature of the deep-research variant, in tenths:
/// low, for more factual output.
pub const DEEP_RESEARCH_TEMPERATURE_TENTHS: u8 = 2;

/// The bounded output length of the deep-research variant.
pub const DEEP_RESEARCH_MAX_TOKENS: u32 = 4000;

/// The multi-iteration search hint of the deep-research variant.
pub const DEEP_RESEARCH_SEARCH_ITERATIONS: u32 = 10;

/// What the deep-research variant hands the gateway beside its messages:
/// the free-text time constraint the recency filter is derived from.
#[derive(Debug)]
pub struct ResearchOptions {
    pub time_constraint: String,
}

/// Everything the transport needs for one outbound call.
///
/// The sampling fields are set only by the deep-research variant; the
/// temperature is carried in tenths, so `2` stands for `0.2`.
#[derive(Debug)]
pub struct OutboundRequest {
    pub model: String,
    pub messages: Vec<Message>,
    pub search_recency_filter: Option<String>,
    pub temperature_tenths: Option<u8>,
    pub max_tokens: Option<u32>,
    pub search_iterations: Option<u32>,
}

/// The mathematical model of an [`OutboundRequest`].
#[verifier::ext_equal]
pub struct OutboundRequestModel {
    pub model: Seq<char>,
    pub messages: Seq<MessageModel>,
    pub search_recency_filter: Option<Seq<char>>,
    pub temperature_tenths: Option<u8>,
    pub max_tokens: Option<u32>,
    pub search_iterations: Option<u32>,
}

impl View for OutboundRequest {
    type V = OutboundRequestModel;

    open spec fn view(&self) -> OutboundRequestModel {
        OutboundRequestModel {
            model: self.model@,
            messages: messages_model(self.messages@),
            search_recency_filter: match self.search_recency_filter {
                Some(s) => Some(s@),
                None => None,
            },
            temperature_tenths: self.temperature_tenths,
            max_tokens: self.max_tokens,
            search_iterations: self.search_iterations,
        }
    }
}

} // verus!
