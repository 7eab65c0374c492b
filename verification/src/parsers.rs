//! Prompt input parsing: role-tagged messages, the plain-text parser,
//! and detection of structured (JSON) versus plain-text input.

pub mod json;

use vstd::prelude::*;
use vstd::string::*;

use crate::error::ParseError;
use crate::strutil::trim_start_spec;

verus! {

/// A chat message: a free-form role and its text content.
#[derive(Debug, Clone)]
pub struct Message {
    /// The role of the message (e.g., "system", "user", "assistant").
    pub role: String,
    /// The content of the message.
    pub content: String,
}

/// The mathematical value of a `Message`: both fields as character
/// sequences.
pub ghost struct MessageView {
    pub role: Seq<char>,
    pub content: Seq<char>,
}

impl View for Message {
    type V = MessageView;

    open spec fn view(&self) -> MessageView {
        MessageView { role: self.role@, content: self.content@ }
    }
}

/// The values of a sequence of messages.
pub open spec fn messages_view(ms: Seq<Message>) -> Seq<MessageView> {
    ms.map_values(|m: Message| m@)
}

/// Parser for plain text input: the entire input becomes a single
/// message with role `user`. It never fails, also on empty input.
pub struct TextParser;

impl TextParser {
    /// Create a new text parser.
    pub fn new() -> (p: Self) {
        TextParser
    }

    /// Wraps the whole input, verbatim, as one `user`-role message.
    pub fn parse(&self, input: &str) -> (r: Result<Vec<Message>, ParseError>)
        ensures
            r is Ok,
            messages_view(r->Ok_0@) =~= seq![
                MessageView { role: "user"@, content: input@ },
            ],
    {
        let m = Message { role: "user".to_owned(), content: input.to_owned() };
        let msgs = vec![m];
        Ok(msgs)
    }
}

impl Default for TextParser {
    fn default() -> (r: TextParser) {
        TextParser::new()
    }
}

/// Whether the input, after leading ASCII whitespace, starts with `{`
/// or `[` and is therefore treated as structured chat JSON.
pub open spec fn looks_structured(s: Seq<char>) -> bool {
    let t = trim_start_spec(s);
    t.len() > 0 && (t[0] == '{' || t[0] == '[')
}

/// Detects whether `input` should go to the structured parser.
pub fn input_looks_structured(input: &str) -> (r: bool)
    ensures
        r == looks_structured(input@),
{
    let n = input.unicode_len();
    let mut i: usize = 0;
    while i < n
        invariant
            i <= n,
            n == input@.len(),
            forall|j: int| 0 <= j < i ==> crate::strutil::is_ascii_ws(input@[j]),
        decreases n - i,
    {
        let c = input.get_char(i);
        if !(c == ' ' || c == '\t' || c == '\n' || c == '\r') {
            proof {
                crate::strutil::lemma_trim_start_skips(input@, i as int);
            }
            return c == '{' || c == '[';
        }
        i = i + 1;
    }
    proof {
        crate::strutil::lemma_trim_start_skips(input@, n as int);
    }
    false
}

} // verus!
