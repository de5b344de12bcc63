use vstd::prelude::*;
use crate::types::Endpoint;

verus! {

/// One round of the generator's mixing: fold the high half in, then multiply.
pub open spec fn mix(x: u32) -> u32 {
    (((x ^ (x >> 16u32)) as int * 0x45d9f3b) % 0x1_0000_0000) as u32
}

/// The keyed hash of an endpoint pair under `nonce`.
pub open spec fn isn_hash(nonce: u32, local: Endpoint, remote: Endpoint) -> u32 {
    let h1 = mix(nonce ^ local.addr);
    let h2 = mix(h1 ^ (local.port as u32));
    let h3 = mix(h2 ^ remote.addr);
    mix(h3 ^ (remote.port as u32))
}

/// The initial sequence number the generator gives next.
pub open spec fn isn_of(g: IsnGenerator, local: Endpoint, remote: Endpoint) -> u32 {
    ((isn_hash(g.nonce, local, remote) + g.counter) % 0x1_0000_0000) as u32
}

/// Initial sequence numbers keyed by the endpoint pair and a secret nonce,
/// offset by a counter so that repeated pairs get fresh values.
#[derive(Clone, Copy, Debug, PartialEq, Eq, Structural)]
pub struct IsnGenerator {
    pub nonce: u32,
    pub counter: u16,
}

fn mix_exec(x: u32) -> (r: u32)
    ensures
        r == mix(x),
{
    let y = x ^ (x >> 16u32);
    y.wrapping_mul(0x45d9f3b)
}

impl IsnGenerator {
    pub open spec fn new_spec(nonce: u32) -> IsnGenerator {
        IsnGenerator { nonce, counter: 0 }
    }

    pub fn new(nonce: u32) -> (r: IsnGenerator)
        ensures
            r == IsnGenerator::new_spec(nonce),
    {
        IsnGenerator { nonce, counter: 0 }
    }

    pub fn generate(&mut self, local: &Endpoint, remote: &Endpoint) -> (r: u32)
        ensures
            r == isn_of(*old(self), *local, *remote),
            final(self).nonce == old(self).nonce,
            final(self).counter == (old(self).counter + 1) % 0x1_0000,
    {
        let h1 = mix_exec(self.nonce ^ local.addr);
        let h2 = mix_exec(h1 ^ (local.port as u32));
        let h3 = mix_exec(h2 ^ remote.addr);
        let h = mix_exec(h3 ^ (remote.port as u32));
        let isn = h.wrapping_add(self.counter as u32);
        self.counter = self.counter.wrapping_add(1);
        isn
    }
}

} // verus!
