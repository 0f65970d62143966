//! The closed set of value kinds a remote-store entry can carry.

use vstd::prelude::*;

verus! {

/// One entry value as fetched from the remote store. The store is loosely
/// typed: an entry is a boolean, a number, or a piece of text, and nothing
/// else is representable here. A numeric payload is carried opaquely as the
/// 64-bit pattern handed over by the transport; the core routes it through
/// untouched and never interprets it as a quantity, so the kind check is the
/// only thing extraction ever asks of it.
#[derive(Clone, Debug)]
pub enum Value {
    Bool(bool),
    Number(u64),
    Text(String),
}

/// Mathematical image of a [`Value`]: text is abstracted to its character
/// sequence, the other payloads are plain values already.
pub enum ValueView {
    Bool(bool),
    Number(u64),
    Text(Seq<char>),
}

impl View for Value {
    type V = ValueView;

    open spec fn view(&self) -> ValueView {
        match self {
            Value::Bool(b) => ValueView::Bool(*b),
            Value::Number(n) => ValueView::Number(*n),
            Value::Text(s) => ValueView::Text(s@),
        }
    }
}

} // verus!
