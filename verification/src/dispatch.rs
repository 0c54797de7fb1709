//! The dispatcher: an immutable registry of domain handlers, built once by
//! explicit registration, and a routing step that extracts the domain from an
//! envelope's composite tag, delegates to the registered handler, and rewraps
//! the response under the domain-qualified tag. Every failure — malformed
//! tag, unknown domain, undecodable payload — degrades to the fixed
//! no-operation envelope; dispatch never panics.

use vstd::prelude::*;
use crate::codec::{decode_domain_and_type, decode_tag_spec, encode_tag, encode_tag_spec, tag_wf,
    tag_well_formed};
use crate::envelope::{no_op_model, no_operation_envelope, Envelope, EnvelopeModel};
use crate::handler::ActionHandler;

verus! {

/// Some handler in the registry serves domain `d`.
pub open spec fn has_handler<H: ActionHandler>(hs: Seq<H>, d: Seq<char>) -> bool {
    exists|i: int| 0 <= i < hs.len() && hs[i].spec_domain() == d
}

/// The handler serving domain `d`; unique in a well-formed registry.
pub open spec fn handler_for<H: ActionHandler>(hs: Seq<H>, d: Seq<char>) -> H {
    hs[choose|i: int| 0 <= i < hs.len() && hs[i].spec_domain() == d]
}

/// What dispatching an envelope against a registry yields: the no-operation
/// envelope when the tag is malformed, the domain is unregistered or the
/// payload fails to decode; otherwise the handler's response rewrapped under
/// the domain-qualified tag.
pub open spec fn spec_dispatch<H: ActionHandler>(hs: Seq<H>, env: EnvelopeModel) -> EnvelopeModel {
    if !tag_wf(env.tag) {
        no_op_model()
    } else {
        let d = decode_tag_spec(env.tag).0;
        let t = decode_tag_spec(env.tag).1;
        if !has_handler(hs, d) {
            no_op_model()
        } else {
            match handler_for(hs, d).spec_receive(t, env.payload) {
                Some(resp) => EnvelopeModel { tag: encode_tag_spec(d, resp.0), payload: resp.1 },
                None => no_op_model(),
            }
        }
    }
}

/// The router: owns the registry, which is built by `register` at start-up
/// and only read by `dispatch` thereafter.
pub struct Dispatcher<H: ActionHandler> {
    handlers: Vec<H>,
}

impl<H: ActionHandler> Dispatcher<H> {
    /// The registered handlers, in registration order.
    pub closed spec fn registry(&self) -> Seq<H> {
        self.handlers@
    }

    /// Registry well-formedness: no two handlers share a domain.
    pub open spec fn wf(&self) -> bool {
        forall|i: int, j: int|
            0 <= i < j < self.registry().len() ==> #[trigger] self.registry()[i].spec_domain()
                != #[trigger] self.registry()[j].spec_domain()
    }

    /// Builds an empty registry.
    pub fn new() -> (r: Dispatcher<H>)
        ensures
            r.wf(),
            r.registry() == Seq::<H>::empty(),
    {
        Dispatcher { handlers: Vec::new() }
    }

    /// Inserts a handler under its own domain. A duplicate domain is
    /// rejected: the first registration wins, the registry is unchanged and
    /// `false` comes back.
    pub fn register(&mut self, h: H) -> (r: bool)
        requires
            old(self).wf(),
        ensures
            final(self).wf(),
            r == !has_handler(old(self).registry(), h.spec_domain()),
            r ==> final(self).registry() == old(self).registry().push(h),
            !r ==> final(self).registry() == old(self).registry(),
    {
        let d = h.domain();
        let n = self.handlers.len();
        let mut i: usize = 0;
        while i < n
            invariant
                i <= n,
                n == self.handlers.len(),
                self.handlers@ == old(self).handlers@,
                old(self).wf(),
                d@ == h.spec_domain(),
                forall|j: int| 0 <= j < i ==> #[trigger] self.handlers@[j].spec_domain() != d@,
            decreases n - i,
        {
            let existing = &self.handlers[i];
            if existing.domain() == d {
                proof {
                    assert(0 <= (i as int) < old(self).registry().len()
                        && old(self).registry()[i as int].spec_domain() == h.spec_domain());
                }
                return false;
            }
            i += 1;
        }
        proof {
            if has_handler(old(self).registry(), h.spec_domain()) {
                let k = choose|k: int|
                    0 <= k < old(self).registry().len() && old(self).registry()[k].spec_domain()
                        == h.spec_domain();
                assert(self.handlers@[k].spec_domain() != d@);
            }
        }
        self.handlers.push(h);
        proof {
            let hs = self.handlers@;
            assert forall|i2: int, j2: int| 0 <= i2 < j2 < hs.len() implies #[trigger] hs[i2].spec_domain() != #[trigger] hs[j2].spec_domain() by {
                if j2 < hs.len() - 1 {
                    assert(old(self).registry()[i2].spec_domain()
                        != old(self).registry()[j2].spec_domain());
                } else {
                    assert(old(self).handlers@[i2].spec_domain() != d@);
                }
            }
        }
        true
    }

    /// Routes one envelope and never fails the call: whatever cannot be
    /// routed or decoded degrades to the no-operation envelope.
    pub fn dispatch(&self, env: &Envelope) -> (r: Envelope)
        requires
            self.wf(),
        ensures
            r@ == spec_dispatch(self.registry(), env@),
    {
        if !tag_well_formed(env.tag.as_str()) {
            return no_operation_envelope();
        }
        let (d, t) = decode_domain_and_type(env.tag.as_str());
        let n = self.handlers.len();
        let mut i: usize = 0;
        while i < n
            invariant
                i <= n,
                n == self.handlers.len(),
                self.wf(),
                tag_wf(env@.tag),
                d@ == decode_tag_spec(env@.tag).0,
                t@ == decode_tag_spec(env@.tag).1,
                forall|j: int| 0 <= j < i ==> #[trigger] self.handlers@[j].spec_domain() != d@,
            decreases n - i,
        {
            let h = &self.handlers[i];
            if h.domain() == d {
                proof {
                    assert(has_handler(self.registry(), d@));
                    let i0 = choose|k: int|
                        0 <= k < self.registry().len() && self.registry()[k].spec_domain() == d@;
                    if i0 < i as int {
                        assert(self.handlers@[i0].spec_domain() != d@);
                    } else if i0 > i as int {
                        assert(self.registry()[i as int].spec_domain()
                            != self.registry()[i0].spec_domain());
                    }
                    assert(handler_for(self.registry(), d@) == self.handlers@[i as int]);
                }
                match h.receive_action(t.as_str(), &env.payload) {
                    Some(resp) => {
                        return Envelope {
                            tag: encode_tag(d.as_str(), resp.0.as_str()),
                            payload: resp.1,
                        };
                    },
                    None => {
                        return no_operation_envelope();
                    },
                }
            }
            i += 1;
        }
        no_operation_envelope()
    }

}

/// Law: an envelope that cannot be routed — its tag is malformed, or no
/// registered handler serves its domain — always dispatches to exactly the
/// no-operation envelope.
pub proof fn lemma_dispatch_unrouted<H: ActionHandler>(hs: Seq<H>, env: EnvelopeModel)
    requires
        !tag_wf(env.tag) || !has_handler(hs, decode_tag_spec(env.tag).0),
    ensures
        spec_dispatch(hs, env) == no_op_model(),
{
}

/// Law: a routed envelope whose payload decodes into no variant of its
/// domain's union dispatches to the no-operation envelope — never to a
/// fault.
pub proof fn lemma_dispatch_decode_failure<H: ActionHandler>(hs: Seq<H>, env: EnvelopeModel)
    requires
        tag_wf(env.tag),
        has_handler(hs, decode_tag_spec(env.tag).0),
        handler_for(hs, decode_tag_spec(env.tag).0).spec_receive(
            decode_tag_spec(env.tag).1,
            env.payload,
        ) is None,
    ensures
        spec_dispatch(hs, env) == no_op_model(),
{
}

/// Law: the response is a function of the registry and the envelope alone,
/// so dispatching the same envelope twice against the same registry yields
/// identical responses — no hidden state changes on any path, failure paths
/// included.
pub proof fn lemma_dispatch_repeatable<H: ActionHandler>(
    hs: Seq<H>,
    env: EnvelopeModel,
    r1: EnvelopeModel,
    r2: EnvelopeModel,
)
    requires
        r1 == spec_dispatch(hs, env),
        r2 == spec_dispatch(hs, env),
    ensures
        r1 == r2,
{
}

} // verus!
