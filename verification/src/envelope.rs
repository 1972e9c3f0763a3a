//! The envelope that every bridge message travels in, and the transaction body built from it.
use vstd::prelude::*;

verus! {

/// A message in its wire form: the URL that names its schema and its encoded fields.
#[derive(Clone, Debug, PartialEq, Eq)]
pub struct Any {
    pub type_url: String,
    pub value: Vec<u8>,
}

/// What an [`Any`] holds.
#[verifier::ext_equal]
pub struct AnyView {
    pub type_url: Seq<char>,
    pub value: Seq<u8>,
}

impl View for Any {
    type V = AnyView;

    open spec fn view(&self) -> AnyView {
        AnyView { type_url: self.type_url@, value: self.value@ }
    }
}

/// The body of a transaction that has not been signed: its messages, in order.
#[derive(Clone, Debug, PartialEq, Eq)]
pub struct UnsignedTx {
    pub messages: Vec<Any>,
}

impl View for UnsignedTx {
    type V = Seq<AnyView>;

    open spec fn view(&self) -> Seq<AnyView> {
        Seq::new(self.messages@.len(), |i: int| self.messages@[i]@)
    }
}

impl UnsignedTx {
    /// A body without messages.
    pub fn new() -> (tx: UnsignedTx)
        ensures
            tx@ == Seq::<AnyView>::empty(),
    {
        UnsignedTx { messages: Vec::new() }
    }

    /// Appends `msg` behind the messages already there.
    pub fn add_msg(&mut self, msg: Any)
        ensures
            final(self)@ == old(self)@.push(msg@),
    {
        self.messages.push(msg);
    }
}

} // verus!
