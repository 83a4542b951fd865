//! Compiler diagnostics: a batch of messages that is reported as one error.

use vstd::prelude::*;
use vstd::string::StringExecFns;

verus! {

/// One message of the compiler.
#[derive(Debug)]
pub struct DiagnosticItem {
    pub message: String,
}

/// A batch of compiler messages. A batch is never empty: it can only be
/// made of at least one item.
#[derive(Debug)]
pub struct Diagnostic {
    items: Vec<DiagnosticItem>,
}

/// The messages `messages[0]`, .., `messages[n - 1]`, one per line.
pub open spec fn lines(messages: Seq<Seq<char>>, n: nat) -> Seq<char>
    decreases n,
{
    if n == 0 {
        Seq::empty()
    } else if n == 1 {
        messages[0]
    } else {
        lines(messages, (n - 1) as nat) + "\n"@ + messages[n - 1]
    }
}

impl View for DiagnosticItem {
    type V = Seq<char>;

    open spec fn view(&self) -> Seq<char> {
        self.message@
    }
}

impl View for Diagnostic {
    type V = Seq<Seq<char>>;

    /// The messages of the batch, in order.
    closed spec fn view(&self) -> Seq<Seq<char>> {
        Seq::new(self.items@.len(), |i: int| self.items@[i]@)
    }
}

/// The messages of `items`, in order.
pub open spec fn messages_of(items: Seq<DiagnosticItem>) -> Seq<Seq<char>> {
    Seq::new(items.len(), |i: int| items[i]@)
}

impl Diagnostic {
    #[verifier::type_invariant]
    spec fn holds_an_item(self) -> bool {
        self.items@.len() > 0
    }

    /// The batch as it is shown: every message, one per line.
    pub open spec fn rendered(&self) -> Seq<char> {
        lines(self@, self@.len())
    }

    /// Makes a batch of `items`, or `None` where there are none.
    pub fn new(items: Vec<DiagnosticItem>) -> (batch: Option<Diagnostic>)
        ensures
            items@.len() == 0 <==> batch is None,
            batch matches Some(d) ==> d@ == messages_of(items@),
    {
        if items.len() == 0 {
            None
        } else {
            Some(Diagnostic { items })
        }
    }

    /// The items of the batch: at least one.
    pub fn items(&self) -> (items: &Vec<DiagnosticItem>)
        ensures
            items@.len() > 0,
            self@ == messages_of(items@),
    {
        proof {
            use_type_invariant(self);
        }
        &self.items
    }

    /// The message of the first item.
    pub fn first_message(&self) -> (message: &str)
        ensures
            self@.len() > 0,
            message@ == self@[0],
    {
        proof {
            use_type_invariant(self);
        }
        self.items[0].message.as_str()
    }

    /// Renders the batch: every message, one per line.
    pub fn render(&self) -> (text: String)
        ensures
            text@ == self.rendered(),
    {
        let mut text = String::new();
        let n: usize = self.items.len();
        let mut i: usize = 0;
        while i < n
            invariant
                n == self.items@.len(),
                i <= n,
                text@ == lines(self@, i as nat),
            decreases n - i,
        {
            if i > 0 {
                text.append("\n");
            }
            text.append(self.items[i].message.as_str());
            i = i + 1;
        }
        text
    }
}

} // verus!
