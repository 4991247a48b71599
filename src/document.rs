//! The shared document: one text, read and replaced whole.
use vstd::prelude::*;

verus! {

/// The document that a run of whole-document replacements, applied in order to
/// `initial`, leaves behind.
pub open spec fn after_replaces(initial: Seq<char>, payloads: Seq<Seq<char>>) -> Seq<char> {
    payloads.fold_left(initial, |_doc: Seq<char>, p: Seq<char>| p)
}

/// After any run of replacements, a read returns the payload of the last one (the
/// initial text if there was none): never a mixture of several payloads.
pub proof fn lemma_read_after_replaces(initial: Seq<char>, payloads: Seq<Seq<char>>)
    ensures
        payloads.len() == 0 ==> after_replaces(initial, payloads) == initial,
        payloads.len() > 0 ==> after_replaces(initial, payloads) == payloads.last(),
        after_replaces(initial, payloads) == initial || payloads.contains(
            after_replaces(initial, payloads),
        ),
{
    if payloads.len() > 0 {
        assert(payloads[payloads.len() - 1] == payloads.last());
    }
}

/// The canonical text of the shared document.
pub struct DocumentStore {
    text: String,
}

impl View for DocumentStore {
    type V = Seq<char>;

    closed spec fn view(&self) -> Seq<char> {
        self.text@
    }
}

impl DocumentStore {
    /// A store holding `initial`, the text found in durable storage at start.
    pub fn new(initial: String) -> (r: DocumentStore)
        ensures
            r@ == initial@,
    {
        DocumentStore { text: initial }
    }

    /// The whole current document.
    pub fn read(&self) -> (r: String)
        ensures
            r@ == self@,
    {
        self.text.clone()
    }

    /// Overwrites the whole document with `text`.
    pub fn replace(&mut self, text: String)
        ensures
            final(self)@ == text@,
            final(self)@ == after_replaces(old(self)@, seq![text@]),
    {
        self.text = text;
        proof {
            let ps = seq![text@];
            assert(ps.drop_last() =~= Seq::<Seq<char>>::empty());
        }
    }
}

} // verus!
