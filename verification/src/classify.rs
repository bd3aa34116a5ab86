//! The poll-loop classifier: decides, for one message, whether it is a
//! command, a structured task envelope, a routing-tag mention, or nothing.
//!
//! Classification order, first match wins:
//! 1. a command literal occurring in the text;
//! 2. a brace-framed JSON envelope `{"assigned_to": .., "input": ..}` naming
//!    a known agent (brace-framed text that is not valid JSON is classified
//!    as malformed and dropped permanently, never retried);
//! 3. a case-insensitive routing tag whose agent is not the sender itself,
//!    with the prompt being the trimmed remainder after the tag;
//! 4. otherwise the message is left unmatched.

use vstd::prelude::*;
use vstd::string::StrSliceExecFns;

use crate::text::{
    contains_sub, eq_ci, find_from, find_sub, spec_trim, str_eq, str_eq_ci, trim_str,
};

verus! {

/// A routing tag recognized in free text (such as an at-mention or a
/// command-style alias), and the display name of the agent it addresses.
#[derive(Debug, Clone)]
pub struct AgentTag {
    pub agent: String,
    pub tag: String,
}

/// What parsing a message body as a task envelope yields.
#[derive(Debug, Clone)]
pub enum EnvelopeParse {
    /// The text is a JSON object with a string `assigned_to`; `input` is the
    /// envelope's input field, stringified when it is not already a string.
    Envelope { assigned_to: String, input: String },
    /// The text is valid JSON but not an object with a string `assigned_to`.
    OtherJson,
    /// The text is not valid JSON.
    Invalid,
}

/// The mathematical value of an [`EnvelopeParse`].
pub enum EnvelopeParseView {
    Envelope { assigned_to: Seq<char>, input: Seq<char> },
    OtherJson,
    Invalid,
}

impl View for EnvelopeParse {
    type V = EnvelopeParseView;

    closed spec fn view(&self) -> EnvelopeParseView {
        match self {
            EnvelopeParse::Envelope { assigned_to, input } => EnvelopeParseView::Envelope {
                assigned_to: assigned_to@,
                input: input@,
            },
            EnvelopeParse::OtherJson => EnvelopeParseView::OtherJson,
            EnvelopeParse::Invalid => EnvelopeParseView::Invalid,
        }
    }
}

/// What the JSON parser yields on a given text; a function of the text alone.
pub uninterp spec fn envelope_of(s: Seq<char>) -> EnvelopeParseView;

/// Relies on serde_json: `from_str` parses the text into a JSON value,
/// `Value::get` and `Value::as_str` read the `assigned_to` and `input`
/// fields, and `to_string` renders a non-string `input` back to JSON text
/// (a missing `input` reads as JSON `null` and so renders as `"null"`).
/// The result depends on the text alone.
#[verifier::external_body]
fn parse_envelope(text: &str) -> (r: EnvelopeParse)
    ensures
        r@ == envelope_of(text@),
{
    let v = match serde_json::from_str::<serde_json::Value>(text) {
        Ok(v) => v,
        Err(_) => return EnvelopeParse::Invalid,
    };
    let t = match v.get("assigned_to") { Some(t) => t.as_str(), None => None };
    let assigned_to = match t { Some(t) => t.to_string(), None => return EnvelopeParse::OtherJson };
    let raw = v.get("input").unwrap_or(&serde_json::Value::Null);
    let input = match raw.as_str() {
        Some(s) => s.to_string(),
        None => serde_json::to_string(raw).unwrap_or_default(),
    };
    EnvelopeParse::Envelope { assigned_to, input }
}

/// How one message was classified.
#[derive(Debug, Clone)]
pub enum Classification {
    /// The text holds the command literal at `index`; handled locally and
    /// always marked processed, whatever the command's outcome.
    Command { index: usize },
    /// A structured envelope naming a known agent: dispatch `prompt` to
    /// `agent`.
    Envelope { agent: String, prompt: String },
    /// Brace-framed text that is not valid JSON: marked processed and
    /// dropped, so it is never reprocessed.
    MalformedEnvelope,
    /// A routing-tag mention: dispatch `prompt` to `agent`.
    Mention { agent: String, prompt: String },
    /// No rule matched; the message stays unprocessed.
    Unmatched,
}

/// Whether the trimmed text is framed like a JSON object.
pub open spec fn is_braced(t: Seq<char>) -> bool {
    t.len() >= 1 && t[0] == '{' && t[t.len() - 1] == '}'
}

/// The first command literal occurring in `t`, searching from index `i`.
pub open spec fn first_command_from(t: Seq<char>, commands: Seq<String>, i: int) -> Option<int>
    decreases commands.len() - i
        when 0 <= i <= commands.len()
{
    if i >= commands.len() {
        None
    } else if contains_sub(t, commands[i]@, false) {
        Some(i)
    } else {
        first_command_from(t, commands, i + 1)
    }
}

/// The first known agent whose display name matches `name` under ASCII case
/// folding, searching from index `i`.
pub open spec fn known_agent_from(agents: Seq<AgentTag>, name: Seq<char>, i: int) -> Option<int>
    decreases agents.len() - i
        when 0 <= i <= agents.len()
{
    if i >= agents.len() {
        None
    } else if eq_ci(agents[i].agent@, name) {
        Some(i)
    } else {
        known_agent_from(agents, name, i + 1)
    }
}

/// The first agent whose tag occurs in `t` (case-insensitively) and who is
/// not the sender itself, searching from index `i`.
pub open spec fn first_mention_from(
    t: Seq<char>,
    sender: Seq<char>,
    agents: Seq<AgentTag>,
    i: int,
) -> Option<int>
    decreases agents.len() - i
        when 0 <= i <= agents.len()
{
    if i >= agents.len() {
        None
    } else if contains_sub(t, agents[i].tag@, true) && sender != agents[i].agent@ {
        Some(i)
    } else {
        first_mention_from(t, sender, agents, i + 1)
    }
}

/// The prompt carried by a mention: everything after the tag's first
/// occurrence, trimmed.
pub open spec fn after_tag(t: Seq<char>, tag: Seq<char>) -> Seq<char> {
    match find_from(t, tag, 0, true) {
        Some(p) => spec_trim(t.subrange(p + tag.len(), t.len() as int)),
        None => spec_trim(t),
    }
}

/// What classifying `c` must be for the message text, sender, and parse
/// result, given the known tags and command literals.
pub open spec fn classification_ok(
    text: Seq<char>,
    sender: Seq<char>,
    parsed: EnvelopeParseView,
    agents: Seq<AgentTag>,
    commands: Seq<String>,
    c: Classification,
) -> bool {
    let t = spec_trim(text);
    match first_command_from(t, commands, 0) {
        Some(ix) => c matches Classification::Command { index } && index == ix,
        None => if is_braced(t) {
            match parsed {
                EnvelopeParseView::Envelope { assigned_to, input } => {
                    if known_agent_from(agents, assigned_to, 0) is Some {
                        c matches Classification::Envelope { agent, prompt }
                            && agent@ == assigned_to && prompt@ == input
                    } else {
                        mention_ok(t, sender, agents, c)
                    }
                },
                EnvelopeParseView::OtherJson => mention_ok(t, sender, agents, c),
                EnvelopeParseView::Invalid => c is MalformedEnvelope,
            }
        } else {
            mention_ok(t, sender, agents, c)
        },
    }
}

/// The mention / no-match tail of the classification order.
pub open spec fn mention_ok(
    t: Seq<char>,
    sender: Seq<char>,
    agents: Seq<AgentTag>,
    c: Classification,
) -> bool {
    match first_mention_from(t, sender, agents, 0) {
        Some(j) => c matches Classification::Mention { agent, prompt }
            && agent@ == agents[j].agent@
            && prompt@ == after_tag(t, agents[j].tag@),
        None => c is Unmatched,
    }
}

/// Classifies a message given an already-obtained envelope parse; verified
/// for every possible parse value.
pub fn classify_parsed(
    text: &str,
    sender: &str,
    parsed: EnvelopeParse,
    agents: &Vec<AgentTag>,
    commands: &Vec<String>,
) -> (c: Classification)
    ensures
        classification_ok(text@, sender@, parsed@, agents@, commands@, c),
{
    let t = trim_str(text);
    let mut i: usize = 0;
    while i < commands.len()
        invariant
            t@ == spec_trim(text@),
            i <= commands@.len(),
            first_command_from(t@, commands@, 0) == first_command_from(t@, commands@, i as int),
        decreases commands@.len() - i,
    {
        if find_sub(t, commands[i].as_str(), false).is_some() {
            return Classification::Command { index: i };
        }
        i += 1;
    }
    let n = t.unicode_len();
    let braced = n >= 1 && t.get_char(0) == '{' && t.get_char(n - 1) == '}';
    if braced {
        match parsed {
            EnvelopeParse::Envelope { assigned_to, input } => {
                let mut j: usize = 0;
                while j < agents.len()
                    invariant
                        t@ == spec_trim(text@),
                        first_command_from(t@, commands@, 0) is None,
                        is_braced(t@),
                        parsed@ == (EnvelopeParseView::Envelope {
                            assigned_to: assigned_to@,
                            input: input@,
                        }),
                        j <= agents@.len(),
                        known_agent_from(agents@, assigned_to@, 0)
                            == known_agent_from(agents@, assigned_to@, j as int),
                    decreases agents@.len() - j,
                {
                    if str_eq_ci(agents[j].agent.as_str(), assigned_to.as_str()) {
                        return Classification::Envelope { agent: assigned_to, prompt: input };
                    }
                    j += 1;
                }
                classify_mention(t, sender, agents)
            },
            EnvelopeParse::OtherJson => classify_mention(t, sender, agents),
            EnvelopeParse::Invalid => Classification::MalformedEnvelope,
        }
    } else {
        classify_mention(t, sender, agents)
    }
}

/// The mention / no-match tail of the classifier, on the trimmed text.
fn classify_mention(t: &str, sender: &str, agents: &Vec<AgentTag>) -> (c: Classification)
    ensures
        mention_ok(t@, sender@, agents@, c),
{
    let n = t.unicode_len();
    let mut j: usize = 0;
    while j < agents.len()
        invariant
            n == t@.len(),
            j <= agents@.len(),
            first_mention_from(t@, sender@, agents@, 0)
                == first_mention_from(t@, sender@, agents@, j as int),
        decreases agents@.len() - j,
    {
        let tag = &agents[j].tag;
        match find_sub(t, tag.as_str(), true) {
            Some(p) => {
                if !str_eq(sender, agents[j].agent.as_str()) {
                    proof {
                        crate::text::lemma_find_from_props(t@, tag@, 0, true);
                    }
                    let taglen = tag.as_str().unicode_len();
                    let rest = t.substring_char(p + taglen, n);
                    let prompt = trim_str(rest).to_owned();
                    let agent = agents[j].agent.clone();
                    proof {
                        assert(t@.subrange(p + taglen, n as int)
                            == t@.subrange(p as int + tag@.len(), t@.len() as int));
                    }
                    return Classification::Mention { agent, prompt };
                }
            },
            None => {},
        }
        j += 1;
    }
    Classification::Unmatched
}

/// The prompt carried by a tagged message: everything after the trigger's
/// first case-insensitive occurrence, trimmed — or the whole text trimmed
/// when the trigger does not occur.
pub fn extract_prompt(text: &str, trigger: &str) -> (r: String)
    ensures
        r@ == after_tag(text@, trigger@),
{
    let n = text.unicode_len();
    match find_sub(text, trigger, true) {
        Some(p) => {
            proof {
                crate::text::lemma_find_from_props(text@, trigger@, 0, true);
            }
            let m = trigger.unicode_len();
            trim_str(text.substring_char(p + m, n)).to_owned()
        },
        None => trim_str(text).to_owned(),
    }
}

/// Classifies one message body: trims it, parses it as an envelope when it
/// is brace-framed, and applies the classification order.
pub fn classify(
    text: &str,
    sender: &str,
    agents: &Vec<AgentTag>,
    commands: &Vec<String>,
) -> (c: Classification)
    ensures
        classification_ok(
            text@,
            sender@,
            envelope_of(spec_trim(text@)),
            agents@,
            commands@,
            c,
        ),
{
    let t = trim_str(text);
    let n = t.unicode_len();
    let braced = n >= 1 && t.get_char(0) == '{' && t.get_char(n - 1) == '}';
    let parsed = if braced {
        parse_envelope(t)
    } else {
        // never consulted: the classification reads the parse only on
        // brace-framed text
        EnvelopeParse::Invalid
    };
    classify_parsed(text, sender, parsed, agents, commands)
}

} // verus!
