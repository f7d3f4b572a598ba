//! Gathering the answer to one prompt from the messages that arrive: the
//! text of the assistant's messages, up to the message that ends the run.

use crate::errors::{ClaudeSDKError, ErrorValue};
use crate::messages::{blocks_text, Message, MessageView, ResultMessage};
use crate::text::{concat_all, views};
use vstd::prelude::*;
use vstd::string::StrSliceExecFns;
use vstd::string::StringExecFns;

verus! {

/// The text gathered so far.
pub struct ResponseCollector {
    parts: Vec<String>,
}

/// What gathering has come to after one more item.
#[derive(Debug)]
pub enum CollectStep {
    /// The run goes on.
    Continue,
    /// The run has ended: all the text, and the message that ended it.
    Done(String, ResultMessage),
    /// An item was a failure.
    Failed(ClaudeSDKError),
}

/// The text that a message adds: that of an assistant's message, if it has any.
pub open spec fn added_text(message: MessageView) -> Option<Seq<char>> {
    match message {
        MessageView::Assistant { content, .. } => if blocks_text(content).len() > 0 {
            Some(blocks_text(content))
        } else {
            None
        },
        _ => None,
    }
}

/// Whether the run of a one-shot query has ended. What the stream yields
/// after the message that ends the run is not passed on.
pub struct RunGate {
    ended: bool,
}

impl RunGate {
    /// Whether the message that ends the run was let through.
    pub closed spec fn ended(&self) -> bool {
        self.ended
    }

    /// A run that has not ended: everything passes.
    pub fn new() -> (r: Self)
        ensures
            !r.ended(),
    {
        RunGate { ended: false }
    }

    /// Whether the item is passed on: every item up to and with the message
    /// that ends the run, and none after it.
    pub fn passes(&mut self, item: &Result<Message, ClaudeSDKError>) -> (r: bool)
        ensures
            r == !old(self).ended(),
            final(self).ended() == (old(self).ended() || item matches Ok(Message::Result(_))),
    {
        if self.ended {
            return false;
        }
        match item {
            Ok(Message::Result(_)) => {
                self.ended = true;
            },
            _ => {},
        }
        true
    }
}

impl View for ResponseCollector {
    type V = Seq<Seq<char>>;

    closed spec fn view(&self) -> Seq<Seq<char>> {
        views(self.parts@)
    }
}

impl ResponseCollector {
    /// Nothing gathered yet.
    pub fn new() -> (r: Self)
        ensures
            r@ == Seq::<Seq<char>>::empty(),
    {
        let r = ResponseCollector { parts: Vec::new() };
        proof {
            assert(r@ =~= Seq::<Seq<char>>::empty());
        }
        r
    }

    /// Takes the next item of the stream. A failure ends the gathering with
    /// that failure. The message that ends the run ends it with all the text
    /// gathered. An assistant's message adds its text, if it has any; any
    /// other message adds nothing.
    pub fn accept(&mut self, item: Result<Message, ClaudeSDKError>) -> (r: CollectStep)
        ensures
            match item {
                Err(e) => r matches CollectStep::Failed(f) && f == e && final(self)@ == old(self)@,
                Ok(Message::Result(m)) => {
                    &&& r matches CollectStep::Done(text, result)
                    &&& text@ == concat_all(old(self)@)
                    &&& result == m
                    &&& final(self)@ == old(self)@
                },
                Ok(message) => r is Continue && final(self)@ == match added_text(message@) {
                    Some(text) => old(self)@.push(text),
                    None => old(self)@,
                },
            },
    {
        match item {
            Err(e) => CollectStep::Failed(e),
            Ok(Message::Result(result)) => {
                let text = self.text();
                CollectStep::Done(text, result)
            },
            Ok(Message::Assistant(message)) => {
                let text = message.text();
                if text.as_str().unicode_len() > 0 {
                    let ghost before = self.parts@;
                    self.parts.push(text);
                    proof {
                        assert(views(self.parts@) =~= views(before).push(text@));
                    }
                }
                CollectStep::Continue
            },
            Ok(_) => CollectStep::Continue,
        }
    }

    /// All the text gathered so far.
    pub fn text(&self) -> (r: String)
        ensures
            r@ == concat_all(self@),
    {
        let mut out = String::new();
        let mut i: usize = 0;
        proof {
            assert(views(self.parts@).subrange(0, 0) =~= Seq::empty());
        }
        while i < self.parts.len()
            invariant
                0 <= i <= self.parts.len(),
                out@ == concat_all(views(self.parts@).subrange(0, i as int)),
            decreases self.parts.len() - i,
        {
            proof {
                let t = views(self.parts@).subrange(0, i as int + 1);
                assert(t.drop_last() =~= views(self.parts@).subrange(0, i as int));
                assert(t.last() == self.parts@[i as int]@);
            }
            out.append(self.parts[i].as_str());
            i += 1;
        }
        proof {
            assert(views(self.parts@).subrange(0, self.parts.len() as int) =~= views(
                self.parts@,
            ));
        }
        out
    }

    /// The failure of a stream that ended before the run did.
    pub fn closed_without_result() -> (r: ClaudeSDKError)
        ensures
            r@ == (ErrorValue::Internal { message: "Connection closed without result"@ }),
    {
        ClaudeSDKError::internal("Connection closed without result")
    }

    /// The failure of a one-shot query whose stream ended before the run did.
    pub fn completed_without_result() -> (r: ClaudeSDKError)
        ensures
            r@ == (ErrorValue::Internal { message: "Query completed without result message"@ }),
    {
        ClaudeSDKError::internal("Query completed without result message")
    }
}

} // verus!
