//! The per-domain handler abstraction. A handler declares the domain it
//! serves and turns the bare type and payload of an incoming envelope into
//! the bare type and payload of the response, or reports that the payload
//! decodes into no variant of its domain's union.

use vstd::prelude::*;
use crate::envelope::{Payload, PayloadModel};

verus! {

/// One domain's action handler. `receive_action` is the orchestration step:
/// decode the envelope's bare type and payload into the domain's tagged
/// union, apply the domain's transition, re-encode the response. It returns
/// `None` when the payload decodes into no variant, and the dispatcher then
/// degrades to the no-operation envelope.
pub trait ActionHandler: Sized {
    /// The domain identifier this handler is registered under.
    spec fn spec_domain(&self) -> Seq<char>;

    /// What `receive_action` yields: the response's bare type and payload,
    /// or `None` when the incoming payload fails to decode.
    spec fn spec_receive(&self, bare: Seq<char>, payload: PayloadModel) -> Option<
        (Seq<char>, PayloadModel),
    >;

    /// The constant domain identifier; must match the domain segment of the
    /// composite tags this handler is meant to receive.
    fn domain(&self) -> (r: String)
        ensures
            r@ == self.spec_domain(),
    ;

    /// Decodes, handles and re-encodes one action; `None` signals a decode
    /// failure and never a panic.
    fn receive_action(&self, bare: &str, payload: &Payload) -> (r: Option<(String, Payload)>)
        ensures
            match r {
                Some(p) => self.spec_receive(bare@, payload@) == Some((p.0@, p.1@)),
                None => self.spec_receive(bare@, payload@) is None,
            },
    ;
}

} // verus!
