//! Tuples of up to sixteen values: they encode, decode and stand as request
//! parameters member by member, in order.
use vstd::prelude::*;
use vstd::seq_lib::lemma_concat_associative;
use crate::encode::{Decode, Encode};
use crate::packet::{Packet, packet_bytes};
use crate::to_params::ToParams;

verus! {

impl Encode for () {
    open spec fn encoding(&self) -> Seq<u8> {
        Seq::empty()
    }

    fn encode(&self, buf: &mut Packet) {
        assert(packet_bytes(*buf) =~= packet_bytes(*old(buf)) + Encode::encoding(self));
    }
}

impl<A: Encode> Encode for (A,) {
    open spec fn encoding(&self) -> Seq<u8> {
        self.0.encoding()
    }

    fn encode(&self, buf: &mut Packet) {
        self.0.encode(buf);
    }
}

impl<A: Encode, B: Encode> Encode for (A, B) {
    open spec fn encoding(&self) -> Seq<u8> {
        self.0.encoding()
            + self.1.encoding()
    }

    fn encode(&self, buf: &mut Packet) {
        self.0.encode(buf);
        let ghost mut done = self.0.encoding();
        self.1.encode(buf);
        proof {
            lemma_concat_associative(packet_bytes(*old(buf)), done, self.1.encoding());
            done = done + self.1.encoding();
        }
    }
}

impl<A: Encode, B: Encode, C: Encode> Encode for (A, B, C) {
    open spec fn encoding(&self) -> Seq<u8> {
        self.0.encoding()
            + self.1.encoding()
            + self.2.encoding()
    }

    fn encode(&self, buf: &mut Packet) {
        self.0.encode(buf);
        let ghost mut done = self.0.encoding();
        self.1.encode(buf);
        proof {
            lemma_concat_associative(packet_bytes(*old(buf)), done, self.1.encoding());
            done = done + self.1.encoding();
        }
        self.2.encode(buf);
        proof {
            lemma_concat_associative(packet_bytes(*old(buf)), done, self.2.encoding());
            done = done + self.2.encoding();
        }
    }
}

impl<A: Encode, B: Encode, C: Encode, D: Encode> Encode for (A, B, C, D) {
    open spec fn encoding(&self) -> Seq<u8> {
        self.0.encoding()
            + self.1.encoding()
            + self.2.encoding()
            + self.3.encoding()
    }

    fn encode(&self, buf: &mut Packet) {
        self.0.encode(buf);
        let ghost mut done = self.0.encoding();
        self.1.encode(buf);
        proof {
            lemma_concat_associative(packet_bytes(*old(buf)), done, self.1.encoding());
            done = done + self.1.encoding();
        }
        self.2.encode(buf);
        proof {
            lemma_concat_associative(packet_bytes(*old(buf)), done, self.2.encoding());
            done = done + self.2.encoding();
        }
        self.3.encode(buf);
        proof {
            lemma_concat_associative(packet_bytes(*old(buf)), done, self.3.encoding());
            done = done + self.3.encoding();
        }
    }
}

impl<A: Encode, B: Encode, C: Encode, D: Encode, E: Encode> Encode for (A, B, C, D, E) {
    open spec fn encoding(&self) -> Seq<u8> {
        self.0.encoding()
            + self.1.encoding()
            + self.2.encoding()
            + self.3.encoding()
            + self.4.encoding()
    }

    fn encode(&self, buf: &mut Packet) {
        self.0.encode(buf);
        let ghost mut done = self.0.encoding();
        self.1.encode(buf);
        proof {
            lemma_concat_associative(packet_bytes(*old(buf)), done, self.1.encoding());
            done = done + self.1.encoding();
        }
        self.2.encode(buf);
        proof {
            lemma_concat_associative(packet_bytes(*old(buf)), done, self.2.encoding());
            done = done + self.2.encoding();
        }
        self.3.encode(buf);
        proof {
            lemma_concat_associative(packet_bytes(*old(buf)), done, self.3.encoding());
            done = done + self.3.encoding();
        }
        self.4.encode(buf);
        proof {
            lemma_concat_associative(packet_bytes(*old(buf)), done, self.4.encoding());
            done = done + self.4.encoding();
        }
    }
}

impl<A: Encode, B: Encode, C: Encode, D: Encode, E: Encode, F: Encode> Encode for (A, B, C, D, E, F) {
    open spec fn encoding(&self) -> Seq<u8> {
        self.0.encoding()
            + self.1.encoding()
            + self.2.encoding()
            + self.3.encoding()
            + self.4.encoding()
            + self.5.encoding()
    }

    fn encode(&self, buf: &mut Packet) {
        self.0.encode(buf);
        let ghost mut done = self.0.encoding();
        self.1.encode(buf);
        proof {
            lemma_concat_associative(packet_bytes(*old(buf)), done, self.1.encoding());
            done = done + self.1.encoding();
        }
        self.2.encode(buf);
        proof {
            lemma_concat_associative(packet_bytes(*old(buf)), done, self.2.encoding());
            done = done + self.2.encoding();
        }
        self.3.encode(buf);
        proof {
            lemma_concat_associative(packet_bytes(*old(buf)), done, self.3.encoding());
            done = done + self.3.encoding();
        }
        self.4.encode(buf);
        proof {
            lemma_concat_associative(packet_bytes(*old(buf)), done, self.4.encoding());
            done = done + self.4.encoding();
        }
        self.5.encode(buf);
        proof {
            lemma_concat_associative(packet_bytes(*old(buf)), done, self.5.encoding());
            done = done + self.5.encoding();
        }
    }
}

impl<
    A: Encode,
    B: Encode,
    C: Encode,
    D: Encode,
    E: Encode,
    F: Encode,
    G: Encode,
> Encode for (A, B, C, D, E, F, G) {
    open spec fn encoding(&self) -> Seq<u8> {
        self.0.encoding()
            + self.1.encoding()
            + self.2.encoding()
            + self.3.encoding()
            + self.4.encoding()
            + self.5.encoding()
            + self.6.encoding()
    }

    fn encode(&self, buf: &mut Packet) {
        self.0.encode(buf);
        let ghost mut done = self.0.encoding();
        self.1.encode(buf);
        proof {
            lemma_concat_associative(packet_bytes(*old(buf)), done, self.1.encoding());
            done = done + self.1.encoding();
        }
        self.2.encode(buf);
        proof {
            lemma_concat_associative(packet_bytes(*old(buf)), done, self.2.encoding());
            done = done + self.2.encoding();
        }
        self.3.encode(buf);
        proof {
            lemma_concat_associative(packet_bytes(*old(buf)), done, self.3.encoding());
            done = done + self.3.encoding();
        }
        self.4.encode(buf);
        proof {
            lemma_concat_associative(packet_bytes(*old(buf)), done, self.4.encoding());
            done = done + self.4.encoding();
        }
        self.5.encode(buf);
        proof {
            lemma_concat_associative(packet_bytes(*old(buf)), done, self.5.encoding());
            done = done + self.5.encoding();
        }
        self.6.encode(buf);
        proof {
            lemma_concat_associative(packet_bytes(*old(buf)), done, self.6.encoding());
            done = done + self.6.encoding();
        }
    }
}

impl<
    A: Encode,
    B: Encode,
    C: Encode,
    D: Encode,
    E: Encode,
    F: Encode,
    G: Encode,
    H: Encode,
> Encode for (A, B, C, D, E, F, G, H) {
    open spec fn encoding(&self) -> Seq<u8> {
        self.0.encoding()
            + self.1.encoding()
            + self.2.encoding()
            + self.3.encoding()
            + self.4.encoding()
            + self.5.encoding()
            + self.6.encoding()
            + self.7.encoding()
    }

    #[verifier::spinoff_prover]
    #[verifier::rlimit(40)]
    fn encode(&self, buf: &mut Packet) {
        self.0.encode(buf);
        let ghost mut done = self.0.encoding();
        self.1.encode(buf);
        proof {
            lemma_concat_associative(packet_bytes(*old(buf)), done, self.1.encoding());
            done = done + self.1.encoding();
        }
        self.2.encode(buf);
        proof {
            lemma_concat_associative(packet_bytes(*old(buf)), done, self.2.encoding());
            done = done + self.2.encoding();
        }
        self.3.encode(buf);
        proof {
            lemma_concat_associative(packet_bytes(*old(buf)), done, self.3.encoding());
            done = done + self.3.encoding();
        }
        self.4.encode(buf);
        proof {
            lemma_concat_associative(packet_bytes(*old(buf)), done, self.4.encoding());
            done = done + self.4.encoding();
        }
        self.5.encode(buf);
        proof {
            lemma_concat_associative(packet_bytes(*old(buf)), done, self.5.encoding());
            done = done + self.5.encoding();
        }
        self.6.encode(buf);
        proof {
            lemma_concat_associative(packet_bytes(*old(buf)), done, self.6.encoding());
            done = done + self.6.encoding();
        }
        self.7.encode(buf);
        proof {
            lemma_concat_associative(packet_bytes(*old(buf)), done, self.7.encoding());
            done = done + self.7.encoding();
        }
    }
}

impl<
    A: Encode,
    B: Encode,
    C: Encode,
    D: Encode,
    E: Encode,
    F: Encode,
    G: Encode,
    H: Encode,
    I: Encode,
> Encode for (A, B, C, D, E, F, G, H, I) {
    open spec fn encoding(&self) -> Seq<u8> {
        self.0.encoding()
            + self.1.encoding()
            + self.2.encoding()
            + self.3.encoding()
            + self.4.encoding()
            + self.5.encoding()
            + self.6.encoding()
            + self.7.encoding()
            + self.8.encoding()
    }

    #[verifier::spinoff_prover]
    #[verifier::rlimit(40)]
    fn encode(&self, buf: &mut Packet) {
        self.0.encode(buf);
        let ghost mut done = self.0.encoding();
        self.1.encode(buf);
        proof {
            lemma_concat_associative(packet_bytes(*old(buf)), done, self.1.encoding());
            done = done + self.1.encoding();
        }
        self.2.encode(buf);
        proof {
            lemma_concat_associative(packet_bytes(*old(buf)), done, self.2.encoding());
            done = done + self.2.encoding();
        }
        self.3.encode(buf);
        proof {
            lemma_concat_associative(packet_bytes(*old(buf)), done, self.3.encoding());
            done = done + self.3.encoding();
        }
        self.4.encode(buf);
        proof {
            lemma_concat_associative(packet_bytes(*old(buf)), done, self.4.encoding());
            done = done + self.4.encoding();
        }
        self.5.encode(buf);
        proof {
            lemma_concat_associative(packet_bytes(*old(buf)), done, self.5.encoding());
            done = done + self.5.encoding();
        }
        self.6.encode(buf);
        proof {
            lemma_concat_associative(packet_bytes(*old(buf)), done, self.6.encoding());
            done = done + self.6.encoding();
        }
        self.7.encode(buf);
        proof {
            lemma_concat_associative(packet_bytes(*old(buf)), done, self.7.encoding());
            done = done + self.7.encoding();
        }
        self.8.encode(buf);
        proof {
            lemma_concat_associative(packet_bytes(*old(buf)), done, self.8.encoding());
            done = done + self.8.encoding();
        }
    }
}

impl<
    A: Encode,
    B: Encode,
    C: Encode,
    D: Encode,
    E: Encode,
    F: Encode,
    G: Encode,
    H: Encode,
    I: Encode,
    J: Encode,
> Encode for (A, B, C, D, E, F, G, H, I, J) {
    open spec fn encoding(&self) -> Seq<u8> {
        self.0.encoding()
            + self.1.encoding()
            + self.2.encoding()
            + self.3.encoding()
            + self.4.encoding()
            + self.5.encoding()
            + self.6.encoding()
            + self.7.encoding()
            + self.8.encoding()
            + self.9.encoding()
    }

    #[verifier::spinoff_prover]
    #[verifier::rlimit(40)]
    fn encode(&self, buf: &mut Packet) {
        self.0.encode(buf);
        let ghost mut done = self.0.encoding();
        self.1.encode(buf);
        proof {
            lemma_concat_associative(packet_bytes(*old(buf)), done, self.1.encoding());
            done = done + self.1.encoding();
        }
        self.2.encode(buf);
        proof {
            lemma_concat_associative(packet_bytes(*old(buf)), done, self.2.encoding());
            done = done + self.2.encoding();
        }
        self.3.encode(buf);
        proof {
            lemma_concat_associative(packet_bytes(*old(buf)), done, self.3.encoding());
            done = done + self.3.encoding();
        }
        self.4.encode(buf);
        proof {
            lemma_concat_associative(packet_bytes(*old(buf)), done, self.4.encoding());
            done = done + self.4.encoding();
        }
        self.5.encode(buf);
        proof {
            lemma_concat_associative(packet_bytes(*old(buf)), done, self.5.encoding());
            done = done + self.5.encoding();
        }
        self.6.encode(buf);
        proof {
            lemma_concat_associative(packet_bytes(*old(buf)), done, self.6.encoding());
            done = done + self.6.encoding();
        }
        self.7.encode(buf);
        proof {
            lemma_concat_associative(packet_bytes(*old(buf)), done, self.7.encoding());
            done = done + self.7.encoding();
        }
        self.8.encode(buf);
        proof {
            lemma_concat_associative(packet_bytes(*old(buf)), done, self.8.encoding());
            done = done + self.8.encoding();
        }
        self.9.encode(buf);
        proof {
            lemma_concat_associative(packet_bytes(*old(buf)), done, self.9.encoding());
            done = done + self.9.encoding();
        }
    }
}

impl<
    A: Encode,
    B: Encode,
    C: Encode,
    D: Encode,
    E: Encode,
    F: Encode,
    G: Encode,
    H: Encode,
    I: Encode,
    J: Encode,
    K: Encode,
> Encode for (A, B, C, D, E, F, G, H, I, J, K) {
    open spec fn encoding(&self) -> Seq<u8> {
        self.0.encoding()
            + self.1.encoding()
            + self.2.encoding()
            + self.3.encoding()
            + self.4.encoding()
            + self.5.encoding()
            + self.6.encoding()
            + self.7.encoding()
            + self.8.encoding()
            + self.9.encoding()
            + self.10.encoding()
    }

    #[verifier::spinoff_prover]
    #[verifier::rlimit(40)]
    fn encode(&self, buf: &mut Packet) {
        self.0.encode(buf);
        let ghost mut done = self.0.encoding();
        self.1.encode(buf);
        proof {
            lemma_concat_associative(packet_bytes(*old(buf)), done, self.1.encoding());
            done = done + self.1.encoding();
        }
        self.2.encode(buf);
        proof {
            lemma_concat_associative(packet_bytes(*old(buf)), done, self.2.encoding());
            done = done + self.2.encoding();
        }
        self.3.encode(buf);
        proof {
            lemma_concat_associative(packet_bytes(*old(buf)), done, self.3.encoding());
            done = done + self.3.encoding();
        }
        self.4.encode(buf);
        proof {
            lemma_concat_associative(packet_bytes(*old(buf)), done, self.4.encoding());
            done = done + self.4.encoding();
        }
        self.5.encode(buf);
        proof {
            lemma_concat_associative(packet_bytes(*old(buf)), done, self.5.encoding());
            done = done + self.5.encoding();
        }
        self.6.encode(buf);
        proof {
            lemma_concat_associative(packet_bytes(*old(buf)), done, self.6.encoding());
            done = done + self.6.encoding();
        }
        self.7.encode(buf);
        proof {
            lemma_concat_associative(packet_bytes(*old(buf)), done, self.7.encoding());
            done = done + self.7.encoding();
        }
        self.8.encode(buf);
        proof {
            lemma_concat_associative(packet_bytes(*old(buf)), done, self.8.encoding());
            done = done + self.8.encoding();
        }
        self.9.encode(buf);
        proof {
            lemma_concat_associative(packet_bytes(*old(buf)), done, self.9.encoding());
            done = done + self.9.encoding();
        }
        self.10.encode(buf);
        proof {
            lemma_concat_associative(packet_bytes(*old(buf)), done, self.10.encoding());
            done = done + self.10.encoding();
        }
    }
}

impl<
    A: Encode,
    B: Encode,
    C: Encode,
    D: Encode,
    E: Encode,
    F: Encode,
    G: Encode,
    H: Encode,
    I: Encode,
    J: Encode,
    K: Encode,
    L: Encode,
> Encode for (A, B, C, D, E, F, G, H, I, J, K, L) {
    open spec fn encoding(&self) -> Seq<u8> {
        self.0.encoding()
            + self.1.encoding()
            + self.2.encoding()
            + self.3.encoding()
            + self.4.encoding()
            + self.5.encoding()
            + self.6.encoding()
            + self.7.encoding()
            + self.8.encoding()
            + self.9.encoding()
            + self.10.encoding()
            + self.11.encoding()
    }

    #[verifier::spinoff_prover]
    #[verifier::rlimit(40)]
    fn encode(&self, buf: &mut Packet) {
        self.0.encode(buf);
        let ghost mut done = self.0.encoding();
        self.1.encode(buf);
        proof {
            lemma_concat_associative(packet_bytes(*old(buf)), done, self.1.encoding());
            done = done + self.1.encoding();
        }
        self.2.encode(buf);
        proof {
            lemma_concat_associative(packet_bytes(*old(buf)), done, self.2.encoding());
            done = done + self.2.encoding();
        }
        self.3.encode(buf);
        proof {
            lemma_concat_associative(packet_bytes(*old(buf)), done, self.3.encoding());
            done = done + self.3.encoding();
        }
        self.4.encode(buf);
        proof {
            lemma_concat_associative(packet_bytes(*old(buf)), done, self.4.encoding());
            done = done + self.4.encoding();
        }
        self.5.encode(buf);
        proof {
            lemma_concat_associative(packet_bytes(*old(buf)), done, self.5.encoding());
            done = done + self.5.encoding();
        }
        self.6.encode(buf);
        proof {
            lemma_concat_associative(packet_bytes(*old(buf)), done, self.6.encoding());
            done = done + self.6.encoding();
        }
        self.7.encode(buf);
        proof {
            lemma_concat_associative(packet_bytes(*old(buf)), done, self.7.encoding());
            done = done + self.7.encoding();
        }
        self.8.encode(buf);
        proof {
            lemma_concat_associative(packet_bytes(*old(buf)), done, self.8.encoding());
            done = done + self.8.encoding();
        }
        self.9.encode(buf);
        proof {
            lemma_concat_associative(packet_bytes(*old(buf)), done, self.9.encoding());
            done = done + self.9.encoding();
        }
        self.10.encode(buf);
        proof {
            lemma_concat_associative(packet_bytes(*old(buf)), done, self.10.encoding());
            done = done + self.10.encoding();
        }
        self.11.encode(buf);
        proof {
            lemma_concat_associative(packet_bytes(*old(buf)), done, self.11.encoding());
            done = done + self.11.encoding();
        }
    }
}

impl<
    A: Encode,
    B: Encode,
    C: Encode,
    D: Encode,
    E: Encode,
    F: Encode,
    G: Encode,
    H: Encode,
    I: Encode,
    J: Encode,
    K: Encode,
    L: Encode,
    M: Encode,
> Encode for (A, B, C, D, E, F, G, H, I, J, K, L, M) {
    open spec fn encoding(&self) -> Seq<u8> {
        self.0.encoding()
            + self.1.encoding()
            + self.2.encoding()
            + self.3.encoding()
            + self.4.encoding()
            + self.5.encoding()
            + self.6.encoding()
            + self.7.encoding()
            + self.8.encoding()
            + self.9.encoding()
            + self.10.encoding()
            + self.11.encoding()
            + self.12.encoding()
    }

    #[verifier::spinoff_prover]
    #[verifier::rlimit(40)]
    fn encode(&self, buf: &mut Packet) {
        self.0.encode(buf);
        let ghost mut done = self.0.encoding();
        self.1.encode(buf);
        proof {
            lemma_concat_associative(packet_bytes(*old(buf)), done, self.1.encoding());
            done = done + self.1.encoding();
        }
        self.2.encode(buf);
        proof {
            lemma_concat_associative(packet_bytes(*old(buf)), done, self.2.encoding());
            done = done + self.2.encoding();
        }
        self.3.encode(buf);
        proof {
            lemma_concat_associative(packet_bytes(*old(buf)), done, self.3.encoding());
            done = done + self.3.encoding();
        }
        self.4.encode(buf);
        proof {
            lemma_concat_associative(packet_bytes(*old(buf)), done, self.4.encoding());
            done = done + self.4.encoding();
        }
        self.5.encode(buf);
        proof {
            lemma_concat_associative(packet_bytes(*old(buf)), done, self.5.encoding());
            done = done + self.5.encoding();
        }
        self.6.encode(buf);
        proof {
            lemma_concat_associative(packet_bytes(*old(buf)), done, self.6.encoding());
            done = done + self.6.encoding();
        }
        self.7.encode(buf);
        proof {
            lemma_concat_associative(packet_bytes(*old(buf)), done, self.7.encoding());
            done = done + self.7.encoding();
        }
        self.8.encode(buf);
        proof {
            lemma_concat_associative(packet_bytes(*old(buf)), done, self.8.encoding());
            done = done + self.8.encoding();
        }
        self.9.encode(buf);
        proof {
            lemma_concat_associative(packet_bytes(*old(buf)), done, self.9.encoding());
            done = done + self.9.encoding();
        }
        self.10.encode(buf);
        proof {
            lemma_concat_associative(packet_bytes(*old(buf)), done, self.10.encoding());
            done = done + self.10.encoding();
        }
        self.11.encode(buf);
        proof {
            lemma_concat_associative(packet_bytes(*old(buf)), done, self.11.encoding());
            done = done + self.11.encoding();
        }
        self.12.encode(buf);
        proof {
            lemma_concat_associative(packet_bytes(*old(buf)), done, self.12.encoding());
            done = done + self.12.encoding();
        }
    }
}

impl<
    A: Encode,
    B: Encode,
    C: Encode,
    D: Encode,
    E: Encode,
    F: Encode,
    G: Encode,
    H: Encode,
    I: Encode,
    J: Encode,
    K: Encode,
    L: Encode,
    M: Encode,
    N: Encode,
> Encode for (A, B, C, D, E, F, G, H, I, J, K, L, M, N) {
    open spec fn encoding(&self) -> Seq<u8> {
        self.0.encoding()
            + self.1.encoding()
            + self.2.encoding()
            + self.3.encoding()
            + self.4.encoding()
            + self.5.encoding()
            + self.6.encoding()
            + self.7.encoding()
            + self.8.encoding()
            + self.9.encoding()
            + self.10.encoding()
            + self.11.encoding()
            + self.12.encoding()
            + self.13.encoding()
    }

    #[verifier::spinoff_prover]
    #[verifier::rlimit(40)]
    fn encode(&self, buf: &mut Packet) {
        self.0.encode(buf);
        let ghost mut done = self.0.encoding();
        self.1.encode(buf);
        proof {
            lemma_concat_associative(packet_bytes(*old(buf)), done, self.1.encoding());
            done = done + self.1.encoding();
        }
        self.2.encode(buf);
        proof {
            lemma_concat_associative(packet_bytes(*old(buf)), done, self.2.encoding());
            done = done + self.2.encoding();
        }
        self.3.encode(buf);
        proof {
            lemma_concat_associative(packet_bytes(*old(buf)), done, self.3.encoding());
            done = done + self.3.encoding();
        }
        self.4.encode(buf);
        proof {
            lemma_concat_associative(packet_bytes(*old(buf)), done, self.4.encoding());
            done = done + self.4.encoding();
        }
        self.5.encode(buf);
        proof {
            lemma_concat_associative(packet_bytes(*old(buf)), done, self.5.encoding());
            done = done + self.5.encoding();
        }
        self.6.encode(buf);
        proof {
            lemma_concat_associative(packet_bytes(*old(buf)), done, self.6.encoding());
            done = done + self.6.encoding();
        }
        self.7.encode(buf);
        proof {
            lemma_concat_associative(packet_bytes(*old(buf)), done, self.7.encoding());
            done = done + self.7.encoding();
        }
        self.8.encode(buf);
        proof {
            lemma_concat_associative(packet_bytes(*old(buf)), done, self.8.encoding());
            done = done + self.8.encoding();
        }
        self.9.encode(buf);
        proof {
            lemma_concat_associative(packet_bytes(*old(buf)), done, self.9.encoding());
            done = done + self.9.encoding();
        }
        self.10.encode(buf);
        proof {
            lemma_concat_associative(packet_bytes(*old(buf)), done, self.10.encoding());
            done = done + self.10.encoding();
        }
        self.11.encode(buf);
        proof {
            lemma_concat_associative(packet_bytes(*old(buf)), done, self.11.encoding());
            done = done + self.11.encoding();
        }
        self.12.encode(buf);
        proof {
            lemma_concat_associative(packet_bytes(*old(buf)), done, self.12.encoding());
            done = done + self.12.encoding();
        }
        self.13.encode(buf);
        proof {
            lemma_concat_associative(packet_bytes(*old(buf)), done, self.13.encoding());
            done = done + self.13.encoding();
        }
    }
}

impl<
    A: Encode,
    B: Encode,
    C: Encode,
    D: Encode,
    E: Encode,
    F: Encode,
    G: Encode,
    H: Encode,
    I: Encode,
    J: Encode,
    K: Encode,
    L: Encode,
    M: Encode,
    N: Encode,
    O: Encode,
> Encode for (A, B, C, D, E, F, G, H, I, J, K, L, M, N, O) {
    open spec fn encoding(&self) -> Seq<u8> {
        self.0.encoding()
            + self.1.encoding()
            + self.2.encoding()
            + self.3.encoding()
            + self.4.encoding()
            + self.5.encoding()
            + self.6.encoding()
            + self.7.encoding()
            + self.8.encoding()
            + self.9.encoding()
            + self.10.encoding()
            + self.11.encoding()
            + self.12.encoding()
            + self.13.encoding()
            + self.14.encoding()
    }

    #[verifier::spinoff_prover]
    #[verifier::rlimit(40)]
    fn encode(&self, buf: &mut Packet) {
        self.0.encode(buf);
        let ghost mut done = self.0.encoding();
        self.1.encode(buf);
        proof {
            lemma_concat_associative(packet_bytes(*old(buf)), done, self.1.encoding());
            done = done + self.1.encoding();
        }
        self.2.encode(buf);
        proof {
            lemma_concat_associative(packet_bytes(*old(buf)), done, self.2.encoding());
            done = done + self.2.encoding();
        }
        self.3.encode(buf);
        proof {
            lemma_concat_associative(packet_bytes(*old(buf)), done, self.3.encoding());
            done = done + self.3.encoding();
        }
        self.4.encode(buf);
        proof {
            lemma_concat_associative(packet_bytes(*old(buf)), done, self.4.encoding());
            done = done + self.4.encoding();
        }
        self.5.encode(buf);
        proof {
            lemma_concat_associative(packet_bytes(*old(buf)), done, self.5.encoding());
            done = done + self.5.encoding();
        }
        self.6.encode(buf);
        proof {
            lemma_concat_associative(packet_bytes(*old(buf)), done, self.6.encoding());
            done = done + self.6.encoding();
        }
        self.7.encode(buf);
        proof {
            lemma_concat_associative(packet_bytes(*old(buf)), done, self.7.encoding());
            done = done + self.7.encoding();
        }
        self.8.encode(buf);
        proof {
            lemma_concat_associative(packet_bytes(*old(buf)), done, self.8.encoding());
            done = done + self.8.encoding();
        }
        self.9.encode(buf);
        proof {
            lemma_concat_associative(packet_bytes(*old(buf)), done, self.9.encoding());
            done = done + self.9.encoding();
        }
        self.10.encode(buf);
        proof {
            lemma_concat_associative(packet_bytes(*old(buf)), done, self.10.encoding());
            done = done + self.10.encoding();
        }
        self.11.encode(buf);
        proof {
            lemma_concat_associative(packet_bytes(*old(buf)), done, self.11.encoding());
            done = done + self.11.encoding();
        }
        self.12.encode(buf);
        proof {
            lemma_concat_associative(packet_bytes(*old(buf)), done, self.12.encoding());
            done = done + self.12.encoding();
        }
        self.13.encode(buf);
        proof {
            lemma_concat_associative(packet_bytes(*old(buf)), done, self.13.encoding());
            done = done + self.13.encoding();
        }
        self.14.encode(buf);
        proof {
            lemma_concat_associative(packet_bytes(*old(buf)), done, self.14.encoding());
            done = done + self.14.encoding();
        }
    }
}

impl<
    A: Encode,
    B: Encode,
    C: Encode,
    D: Encode,
    E: Encode,
    F: Encode,
    G: Encode,
    H: Encode,
    I: Encode,
    J: Encode,
    K: Encode,
    L: Encode,
    M: Encode,
    N: Encode,
    O: Encode,
    P: Encode,
> Encode for (A, B, C, D, E, F, G, H, I, J, K, L, M, N, O, P) {
    open spec fn encoding(&self) -> Seq<u8> {
        self.0.encoding()
            + self.1.encoding()
            + self.2.encoding()
            + self.3.encoding()
            + self.4.encoding()
            + self.5.encoding()
            + self.6.encoding()
            + self.7.encoding()
            + self.8.encoding()
            + self.9.encoding()
            + self.10.encoding()
            + self.11.encoding()
            + self.12.encoding()
            + self.13.encoding()
            + self.14.encoding()
            + self.15.encoding()
    }

    #[verifier::spinoff_prover]
    #[verifier::rlimit(40)]
    fn encode(&self, buf: &mut Packet) {
        self.0.encode(buf);
        let ghost mut done = self.0.encoding();
        self.1.encode(buf);
        proof {
            lemma_concat_associative(packet_bytes(*old(buf)), done, self.1.encoding());
            done = done + self.1.encoding();
        }
        self.2.encode(buf);
        proof {
            lemma_concat_associative(packet_bytes(*old(buf)), done, self.2.encoding());
            done = done + self.2.encoding();
        }
        self.3.encode(buf);
        proof {
            lemma_concat_associative(packet_bytes(*old(buf)), done, self.3.encoding());
            done = done + self.3.encoding();
        }
        self.4.encode(buf);
        proof {
            lemma_concat_associative(packet_bytes(*old(buf)), done, self.4.encoding());
            done = done + self.4.encoding();
        }
        self.5.encode(buf);
        proof {
            lemma_concat_associative(packet_bytes(*old(buf)), done, self.5.encoding());
            done = done + self.5.encoding();
        }
        self.6.encode(buf);
        proof {
            lemma_concat_associative(packet_bytes(*old(buf)), done, self.6.encoding());
            done = done + self.6.encoding();
        }
        self.7.encode(buf);
        proof {
            lemma_concat_associative(packet_bytes(*old(buf)), done, self.7.encoding());
            done = done + self.7.encoding();
        }
        self.8.encode(buf);
        proof {
            lemma_concat_associative(packet_bytes(*old(buf)), done, self.8.encoding());
            done = done + self.8.encoding();
        }
        self.9.encode(buf);
        proof {
            lemma_concat_associative(packet_bytes(*old(buf)), done, self.9.encoding());
            done = done + self.9.encoding();
        }
        self.10.encode(buf);
        proof {
            lemma_concat_associative(packet_bytes(*old(buf)), done, self.10.encoding());
            done = done + self.10.encoding();
        }
        self.11.encode(buf);
        proof {
            lemma_concat_associative(packet_bytes(*old(buf)), done, self.11.encoding());
            done = done + self.11.encoding();
        }
        self.12.encode(buf);
        proof {
            lemma_concat_associative(packet_bytes(*old(buf)), done, self.12.encoding());
            done = done + self.12.encoding();
        }
        self.13.encode(buf);
        proof {
            lemma_concat_associative(packet_bytes(*old(buf)), done, self.13.encoding());
            done = done + self.13.encoding();
        }
        self.14.encode(buf);
        proof {
            lemma_concat_associative(packet_bytes(*old(buf)), done, self.14.encoding());
            done = done + self.14.encoding();
        }
        self.15.encode(buf);
        proof {
            lemma_concat_associative(packet_bytes(*old(buf)), done, self.15.encoding());
            done = done + self.15.encoding();
        }
    }
}


impl Decode for () {
    open spec fn decode_len() -> nat {
        0
    }

    open spec fn decodable(bytes: Seq<u8>) -> bool {
        true
    }

    open spec fn decoded(bytes: Seq<u8>) -> Self {
        ()
    }

    fn decode(buf: &mut &[u8]) -> (r: Self) {
        let ghost start = buf@;
        assert(buf@ =~= start.skip(0));
        ()
    }
}

impl<A: Decode> Decode for (A,) {
    open spec fn decode_len() -> nat {
        A::decode_len()
    }

    open spec fn decodable(bytes: Seq<u8>) -> bool {
        A::decodable(bytes)
    }

    open spec fn decoded(bytes: Seq<u8>) -> Self {
        (A::decoded(bytes),)
    }

    fn decode(buf: &mut &[u8]) -> (r: Self) {
        let ghost start = buf@;
        let v0 = A::decode(buf);
        (v0,)
    }
}

impl<A: Decode, B: Decode> Decode for (A, B) {
    open spec fn decode_len() -> nat {
        A::decode_len()
            + B::decode_len()
    }

    open spec fn decodable(bytes: Seq<u8>) -> bool {
        let at_b = bytes.skip(A::decode_len() as int);
        A::decodable(bytes)
        && B::decodable(at_b)
    }

    open spec fn decoded(bytes: Seq<u8>) -> Self {
        let at_b = bytes.skip(A::decode_len() as int);
        (
            A::decoded(bytes),
            B::decoded(at_b),
        )
    }

    fn decode(buf: &mut &[u8]) -> (r: Self) {
        let ghost start = buf@;
        let v0 = A::decode(buf);
        let v1 = B::decode(buf);
        assert(buf@ =~= start.skip(Self::decode_len() as int));
        (v0, v1)
    }
}

impl<A: Decode, B: Decode, C: Decode> Decode for (A, B, C) {
    open spec fn decode_len() -> nat {
        A::decode_len()
            + B::decode_len()
            + C::decode_len()
    }

    open spec fn decodable(bytes: Seq<u8>) -> bool {
        let at_b = bytes.skip(A::decode_len() as int);
        let at_c = at_b.skip(B::decode_len() as int);
        A::decodable(bytes)
        && B::decodable(at_b)
        && C::decodable(at_c)
    }

    open spec fn decoded(bytes: Seq<u8>) -> Self {
        let at_b = bytes.skip(A::decode_len() as int);
        let at_c = at_b.skip(B::decode_len() as int);
        (
            A::decoded(bytes),
            B::decoded(at_b),
            C::decoded(at_c),
        )
    }

    fn decode(buf: &mut &[u8]) -> (r: Self) {
        let ghost start = buf@;
        let v0 = A::decode(buf);
        let v1 = B::decode(buf);
        let v2 = C::decode(buf);
        assert(buf@ =~= start.skip(Self::decode_len() as int));
        (v0, v1, v2)
    }
}

impl<A: Decode, B: Decode, C: Decode, D: Decode> Decode for (A, B, C, D) {
    open spec fn decode_len() -> nat {
        A::decode_len()
            + B::decode_len()
            + C::decode_len()
            + D::decode_len()
    }

    open spec fn decodable(bytes: Seq<u8>) -> bool {
        let at_b = bytes.skip(A::decode_len() as int);
        let at_c = at_b.skip(B::decode_len() as int);
        let at_d = at_c.skip(C::decode_len() as int);
        A::decodable(bytes)
        && B::decodable(at_b)
        && C::decodable(at_c)
        && D::decodable(at_d)
    }

    open spec fn decoded(bytes: Seq<u8>) -> Self {
        let at_b = bytes.skip(A::decode_len() as int);
        let at_c = at_b.skip(B::decode_len() as int);
        let at_d = at_c.skip(C::decode_len() as int);
        (
            A::decoded(bytes),
            B::decoded(at_b),
            C::decoded(at_c),
            D::decoded(at_d),
        )
    }

    fn decode(buf: &mut &[u8]) -> (r: Self) {
        let ghost start = buf@;
        let v0 = A::decode(buf);
        let v1 = B::decode(buf);
        let v2 = C::decode(buf);
        let v3 = D::decode(buf);
        assert(buf@ =~= start.skip(Self::decode_len() as int));
        (v0, v1, v2, v3)
    }
}

impl<A: Decode, B: Decode, C: Decode, D: Decode, E: Decode> Decode for (A, B, C, D, E) {
    open spec fn decode_len() -> nat {
        A::decode_len()
            + B::decode_len()
            + C::decode_len()
            + D::decode_len()
            + E::decode_len()
    }

    open spec fn decodable(bytes: Seq<u8>) -> bool {
        let at_b = bytes.skip(A::decode_len() as int);
        let at_c = at_b.skip(B::decode_len() as int);
        let at_d = at_c.skip(C::decode_len() as int);
        let at_e = at_d.skip(D::decode_len() as int);
        A::decodable(bytes)
        && B::decodable(at_b)
        && C::decodable(at_c)
        && D::decodable(at_d)
        && E::decodable(at_e)
    }

    open spec fn decoded(bytes: Seq<u8>) -> Self {
        let at_b = bytes.skip(A::decode_len() as int);
        let at_c = at_b.skip(B::decode_len() as int);
        let at_d = at_c.skip(C::decode_len() as int);
        let at_e = at_d.skip(D::decode_len() as int);
        (
            A::decoded(bytes),
            B::decoded(at_b),
            C::decoded(at_c),
            D::decoded(at_d),
            E::decoded(at_e),
        )
    }

    fn decode(buf: &mut &[u8]) -> (r: Self) {
        let ghost start = buf@;
        let v0 = A::decode(buf);
        let v1 = B::decode(buf);
        let v2 = C::decode(buf);
        let v3 = D::decode(buf);
        let v4 = E::decode(buf);
        assert(buf@ =~= start.skip(Self::decode_len() as int));
        (v0, v1, v2, v3, v4)
    }
}

impl<A: Decode, B: Decode, C: Decode, D: Decode, E: Decode, F: Decode> Decode for (A, B, C, D, E, F) {
    open spec fn decode_len() -> nat {
        A::decode_len()
            + B::decode_len()
            + C::decode_len()
            + D::decode_len()
            + E::decode_len()
            + F::decode_len()
    }

    open spec fn decodable(bytes: Seq<u8>) -> bool {
        let at_b = bytes.skip(A::decode_len() as int);
        let at_c = at_b.skip(B::decode_len() as int);
        let at_d = at_c.skip(C::decode_len() as int);
        let at_e = at_d.skip(D::decode_len() as int);
        let at_f = at_e.skip(E::decode_len() as int);
        A::decodable(bytes)
        && B::decodable(at_b)
        && C::decodable(at_c)
        && D::decodable(at_d)
        && E::decodable(at_e)
        && F::decodable(at_f)
    }

    open spec fn decoded(bytes: Seq<u8>) -> Self {
        let at_b = bytes.skip(A::decode_len() as int);
        let at_c = at_b.skip(B::decode_len() as int);
        let at_d = at_c.skip(C::decode_len() as int);
        let at_e = at_d.skip(D::decode_len() as int);
        let at_f = at_e.skip(E::decode_len() as int);
        (
            A::decoded(bytes),
            B::decoded(at_b),
            C::decoded(at_c),
            D::decoded(at_d),
            E::decoded(at_e),
            F::decoded(at_f),
        )
    }

    fn decode(buf: &mut &[u8]) -> (r: Self) {
        let ghost start = buf@;
        let v0 = A::decode(buf);
        let v1 = B::decode(buf);
        let v2 = C::decode(buf);
        let v3 = D::decode(buf);
        let v4 = E::decode(buf);
        let v5 = F::decode(buf);
        assert(buf@ =~= start.skip(Self::decode_len() as int));
        (v0, v1, v2, v3, v4, v5)
    }
}

impl<
    A: Decode,
    B: Decode,
    C: Decode,
    D: Decode,
    E: Decode,
    F: Decode,
    G: Decode,
> Decode for (A, B, C, D, E, F, G) {
    open spec fn decode_len() -> nat {
        A::decode_len()
            + B::decode_len()
            + C::decode_len()
            + D::decode_len()
            + E::decode_len()
            + F::decode_len()
            + G::decode_len()
    }

    open spec fn decodable(bytes: Seq<u8>) -> bool {
        let at_b = bytes.skip(A::decode_len() as int);
        let at_c = at_b.skip(B::decode_len() as int);
        let at_d = at_c.skip(C::decode_len() as int);
        let at_e = at_d.skip(D::decode_len() as int);
        let at_f = at_e.skip(E::decode_len() as int);
        let at_g = at_f.skip(F::decode_len() as int);
        A::decodable(bytes)
        && B::decodable(at_b)
        && C::decodable(at_c)
        && D::decodable(at_d)
        && E::decodable(at_e)
        && F::decodable(at_f)
        && G::decodable(at_g)
    }

    open spec fn decoded(bytes: Seq<u8>) -> Self {
        let at_b = bytes.skip(A::decode_len() as int);
        let at_c = at_b.skip(B::decode_len() as int);
        let at_d = at_c.skip(C::decode_len() as int);
        let at_e = at_d.skip(D::decode_len() as int);
        let at_f = at_e.skip(E::decode_len() as int);
        let at_g = at_f.skip(F::decode_len() as int);
        (
            A::decoded(bytes),
            B::decoded(at_b),
            C::decoded(at_c),
            D::decoded(at_d),
            E::decoded(at_e),
            F::decoded(at_f),
            G::decoded(at_g),
        )
    }

    fn decode(buf: &mut &[u8]) -> (r: Self) {
        let ghost start = buf@;
        let v0 = A::decode(buf);
        let v1 = B::decode(buf);
        let v2 = C::decode(buf);
        let v3 = D::decode(buf);
        let v4 = E::decode(buf);
        let v5 = F::decode(buf);
        let v6 = G::decode(buf);
        assert(buf@ =~= start.skip(Self::decode_len() as int));
        (v0, v1, v2, v3, v4, v5, v6)
    }
}

impl<
    A: Decode,
    B: Decode,
    C: Decode,
    D: Decode,
    E: Decode,
    F: Decode,
    G: Decode,
    H: Decode,
> Decode for (A, B, C, D, E, F, G, H) {
    open spec fn decode_len() -> nat {
        A::decode_len()
            + B::decode_len()
            + C::decode_len()
            + D::decode_len()
            + E::decode_len()
            + F::decode_len()
            + G::decode_len()
            + H::decode_len()
    }

    open spec fn decodable(bytes: Seq<u8>) -> bool {
        let at_b = bytes.skip(A::decode_len() as int);
        let at_c = at_b.skip(B::decode_len() as int);
        let at_d = at_c.skip(C::decode_len() as int);
        let at_e = at_d.skip(D::decode_len() as int);
        let at_f = at_e.skip(E::decode_len() as int);
        let at_g = at_f.skip(F::decode_len() as int);
        let at_h = at_g.skip(G::decode_len() as int);
        A::decodable(bytes)
        && B::decodable(at_b)
        && C::decodable(at_c)
        && D::decodable(at_d)
        && E::decodable(at_e)
        && F::decodable(at_f)
        && G::decodable(at_g)
        && H::decodable(at_h)
    }

    open spec fn decoded(bytes: Seq<u8>) -> Self {
        let at_b = bytes.skip(A::decode_len() as int);
        let at_c = at_b.skip(B::decode_len() as int);
        let at_d = at_c.skip(C::decode_len() as int);
        let at_e = at_d.skip(D::decode_len() as int);
        let at_f = at_e.skip(E::decode_len() as int);
        let at_g = at_f.skip(F::decode_len() as int);
        let at_h = at_g.skip(G::decode_len() as int);
        (
            A::decoded(bytes),
            B::decoded(at_b),
            C::decoded(at_c),
            D::decoded(at_d),
            E::decoded(at_e),
            F::decoded(at_f),
            G::decoded(at_g),
            H::decoded(at_h),
        )
    }

    #[verifier::spinoff_prover]
    #[verifier::rlimit(40)]
    fn decode(buf: &mut &[u8]) -> (r: Self) {
        let ghost start = buf@;
        let v0 = A::decode(buf);
        let v1 = B::decode(buf);
        let v2 = C::decode(buf);
        let v3 = D::decode(buf);
        let v4 = E::decode(buf);
        let v5 = F::decode(buf);
        let v6 = G::decode(buf);
        let v7 = H::decode(buf);
        assert(buf@ =~= start.skip(Self::decode_len() as int));
        (v0, v1, v2, v3, v4, v5, v6, v7)
    }
}

impl<
    A: Decode,
    B: Decode,
    C: Decode,
    D: Decode,
    E: Decode,
    F: Decode,
    G: Decode,
    H: Decode,
    I: Decode,
> Decode for (A, B, C, D, E, F, G, H, I) {
    open spec fn decode_len() -> nat {
        A::decode_len()
            + B::decode_len()
            + C::decode_len()
            + D::decode_len()
            + E::decode_len()
            + F::decode_len()
            + G::decode_len()
            + H::decode_len()
            + I::decode_len()
    }

    open spec fn decodable(bytes: Seq<u8>) -> bool {
        let at_b = bytes.skip(A::decode_len() as int);
        let at_c = at_b.skip(B::decode_len() as int);
        let at_d = at_c.skip(C::decode_len() as int);
        let at_e = at_d.skip(D::decode_len() as int);
        let at_f = at_e.skip(E::decode_len() as int);
        let at_g = at_f.skip(F::decode_len() as int);
        let at_h = at_g.skip(G::decode_len() as int);
        let at_i = at_h.skip(H::decode_len() as int);
        A::decodable(bytes)
        && B::decodable(at_b)
        && C::decodable(at_c)
        && D::decodable(at_d)
        && E::decodable(at_e)
        && F::decodable(at_f)
        && G::decodable(at_g)
        && H::decodable(at_h)
        && I::decodable(at_i)
    }

    open spec fn decoded(bytes: Seq<u8>) -> Self {
        let at_b = bytes.skip(A::decode_len() as int);
        let at_c = at_b.skip(B::decode_len() as int);
        let at_d = at_c.skip(C::decode_len() as int);
        let at_e = at_d.skip(D::decode_len() as int);
        let at_f = at_e.skip(E::decode_len() as int);
        let at_g = at_f.skip(F::decode_len() as int);
        let at_h = at_g.skip(G::decode_len() as int);
        let at_i = at_h.skip(H::decode_len() as int);
        (
            A::decoded(bytes),
            B::decoded(at_b),
            C::decoded(at_c),
            D::decoded(at_d),
            E::decoded(at_e),
            F::decoded(at_f),
            G::decoded(at_g),
            H::decoded(at_h),
            I::decoded(at_i),
        )
    }

    #[verifier::spinoff_prover]
    #[verifier::rlimit(40)]
    fn decode(buf: &mut &[u8]) -> (r: Self) {
        let ghost start = buf@;
        let v0 = A::decode(buf);
        let v1 = B::decode(buf);
        let v2 = C::decode(buf);
        let v3 = D::decode(buf);
        let v4 = E::decode(buf);
        let v5 = F::decode(buf);
        let v6 = G::decode(buf);
        let v7 = H::decode(buf);
        let v8 = I::decode(buf);
        assert(buf@ =~= start.skip(Self::decode_len() as int));
        (v0, v1, v2, v3, v4, v5, v6, v7, v8)
    }
}

impl<
    A: Decode,
    B: Decode,
    C: Decode,
    D: Decode,
    E: Decode,
    F: Decode,
    G: Decode,
    H: Decode,
    I: Decode,
    J: Decode,
> Decode for (A, B, C, D, E, F, G, H, I, J) {
    open spec fn decode_len() -> nat {
        A::decode_len()
            + B::decode_len()
            + C::decode_len()
            + D::decode_len()
            + E::decode_len()
            + F::decode_len()
            + G::decode_len()
            + H::decode_len()
            + I::decode_len()
            + J::decode_len()
    }

    open spec fn decodable(bytes: Seq<u8>) -> bool {
        let at_b = bytes.skip(A::decode_len() as int);
        let at_c = at_b.skip(B::decode_len() as int);
        let at_d = at_c.skip(C::decode_len() as int);
        let at_e = at_d.skip(D::decode_len() as int);
        let at_f = at_e.skip(E::decode_len() as int);
        let at_g = at_f.skip(F::decode_len() as int);
        let at_h = at_g.skip(G::decode_len() as int);
        let at_i = at_h.skip(H::decode_len() as int);
        let at_j = at_i.skip(I::decode_len() as int);
        A::decodable(bytes)
        && B::decodable(at_b)
        && C::decodable(at_c)
        && D::decodable(at_d)
        && E::decodable(at_e)
        && F::decodable(at_f)
        && G::decodable(at_g)
        && H::decodable(at_h)
        && I::decodable(at_i)
        && J::decodable(at_j)
    }

    open spec fn decoded(bytes: Seq<u8>) -> Self {
        let at_b = bytes.skip(A::decode_len() as int);
        let at_c = at_b.skip(B::decode_len() as int);
        let at_d = at_c.skip(C::decode_len() as int);
        let at_e = at_d.skip(D::decode_len() as int);
        let at_f = at_e.skip(E::decode_len() as int);
        let at_g = at_f.skip(F::decode_len() as int);
        let at_h = at_g.skip(G::decode_len() as int);
        let at_i = at_h.skip(H::decode_len() as int);
        let at_j = at_i.skip(I::decode_len() as int);
        (
            A::decoded(bytes),
            B::decoded(at_b),
            C::decoded(at_c),
            D::decoded(at_d),
            E::decoded(at_e),
            F::decoded(at_f),
            G::decoded(at_g),
            H::decoded(at_h),
            I::decoded(at_i),
            J::decoded(at_j),
        )
    }

    #[verifier::spinoff_prover]
    #[verifier::rlimit(40)]
    fn decode(buf: &mut &[u8]) -> (r: Self) {
        let ghost start = buf@;
        let v0 = A::decode(buf);
        let v1 = B::decode(buf);
        let v2 = C::decode(buf);
        let v3 = D::decode(buf);
        let v4 = E::decode(buf);
        let v5 = F::decode(buf);
        let v6 = G::decode(buf);
        let v7 = H::decode(buf);
        let v8 = I::decode(buf);
        let v9 = J::decode(buf);
        assert(buf@ =~= start.skip(Self::decode_len() as int));
        (v0, v1, v2, v3, v4, v5, v6, v7, v8, v9)
    }
}

impl<
    A: Decode,
    B: Decode,
    C: Decode,
    D: Decode,
    E: Decode,
    F: Decode,
    G: Decode,
    H: Decode,
    I: Decode,
    J: Decode,
    K: Decode,
> Decode for (A, B, C, D, E, F, G, H, I, J, K) {
    open spec fn decode_len() -> nat {
        A::decode_len()
            + B::decode_len()
            + C::decode_len()
            + D::decode_len()
            + E::decode_len()
            + F::decode_len()
            + G::decode_len()
            + H::decode_len()
            + I::decode_len()
            + J::decode_len()
            + K::decode_len()
    }

    open spec fn decodable(bytes: Seq<u8>) -> bool {
        let at_b = bytes.skip(A::decode_len() as int);
        let at_c = at_b.skip(B::decode_len() as int);
        let at_d = at_c.skip(C::decode_len() as int);
        let at_e = at_d.skip(D::decode_len() as int);
        let at_f = at_e.skip(E::decode_len() as int);
        let at_g = at_f.skip(F::decode_len() as int);
        let at_h = at_g.skip(G::decode_len() as int);
        let at_i = at_h.skip(H::decode_len() as int);
        let at_j = at_i.skip(I::decode_len() as int);
        let at_k = at_j.skip(J::decode_len() as int);
        A::decodable(bytes)
        && B::decodable(at_b)
        && C::decodable(at_c)
        && D::decodable(at_d)
        && E::decodable(at_e)
        && F::decodable(at_f)
        && G::decodable(at_g)
        && H::decodable(at_h)
        && I::decodable(at_i)
        && J::decodable(at_j)
        && K::decodable(at_k)
    }

    open spec fn decoded(bytes: Seq<u8>) -> Self {
        let at_b = bytes.skip(A::decode_len() as int);
        let at_c = at_b.skip(B::decode_len() as int);
        let at_d = at_c.skip(C::decode_len() as int);
        let at_e = at_d.skip(D::decode_len() as int);
        let at_f = at_e.skip(E::decode_len() as int);
        let at_g = at_f.skip(F::decode_len() as int);
        let at_h = at_g.skip(G::decode_len() as int);
        let at_i = at_h.skip(H::decode_len() as int);
        let at_j = at_i.skip(I::decode_len() as int);
        let at_k = at_j.skip(J::decode_len() as int);
        (
            A::decoded(bytes),
            B::decoded(at_b),
            C::decoded(at_c),
            D::decoded(at_d),
            E::decoded(at_e),
            F::decoded(at_f),
            G::decoded(at_g),
            H::decoded(at_h),
            I::decoded(at_i),
            J::decoded(at_j),
            K::decoded(at_k),
        )
    }

    #[verifier::spinoff_prover]
    #[verifier::rlimit(40)]
    fn decode(buf: &mut &[u8]) -> (r: Self) {
        let ghost start = buf@;
        let v0 = A::decode(buf);
        let v1 = B::decode(buf);
        let v2 = C::decode(buf);
        let v3 = D::decode(buf);
        let v4 = E::decode(buf);
        let v5 = F::decode(buf);
        let v6 = G::decode(buf);
        let v7 = H::decode(buf);
        let v8 = I::decode(buf);
        let v9 = J::decode(buf);
        let v10 = K::decode(buf);
        assert(buf@ =~= start.skip(Self::decode_len() as int));
        (v0, v1, v2, v3, v4, v5, v6, v7, v8, v9, v10)
    }
}

impl<
    A: Decode,
    B: Decode,
    C: Decode,
    D: Decode,
    E: Decode,
    F: Decode,
    G: Decode,
    H: Decode,
    I: Decode,
    J: Decode,
    K: Decode,
    L: Decode,
> Decode for (A, B, C, D, E, F, G, H, I, J, K, L) {
    open spec fn decode_len() -> nat {
        A::decode_len()
            + B::decode_len()
            + C::decode_len()
            + D::decode_len()
            + E::decode_len()
            + F::decode_len()
            + G::decode_len()
            + H::decode_len()
            + I::decode_len()
            + J::decode_len()
            + K::decode_len()
            + L::decode_len()
    }

    open spec fn decodable(bytes: Seq<u8>) -> bool {
        let at_b = bytes.skip(A::decode_len() as int);
        let at_c = at_b.skip(B::decode_len() as int);
        let at_d = at_c.skip(C::decode_len() as int);
        let at_e = at_d.skip(D::decode_len() as int);
        let at_f = at_e.skip(E::decode_len() as int);
        let at_g = at_f.skip(F::decode_len() as int);
        let at_h = at_g.skip(G::decode_len() as int);
        let at_i = at_h.skip(H::decode_len() as int);
        let at_j = at_i.skip(I::decode_len() as int);
        let at_k = at_j.skip(J::decode_len() as int);
        let at_l = at_k.skip(K::decode_len() as int);
        A::decodable(bytes)
        && B::decodable(at_b)
        && C::decodable(at_c)
        && D::decodable(at_d)
        && E::decodable(at_e)
        && F::decodable(at_f)
        && G::decodable(at_g)
        && H::decodable(at_h)
        && I::decodable(at_i)
        && J::decodable(at_j)
        && K::decodable(at_k)
        && L::decodable(at_l)
    }

    open spec fn decoded(bytes: Seq<u8>) -> Self {
        let at_b = bytes.skip(A::decode_len() as int);
        let at_c = at_b.skip(B::decode_len() as int);
        let at_d = at_c.skip(C::decode_len() as int);
        let at_e = at_d.skip(D::decode_len() as int);
        let at_f = at_e.skip(E::decode_len() as int);
        let at_g = at_f.skip(F::decode_len() as int);
        let at_h = at_g.skip(G::decode_len() as int);
        let at_i = at_h.skip(H::decode_len() as int);
        let at_j = at_i.skip(I::decode_len() as int);
        let at_k = at_j.skip(J::decode_len() as int);
        let at_l = at_k.skip(K::decode_len() as int);
        (
            A::decoded(bytes),
            B::decoded(at_b),
            C::decoded(at_c),
            D::decoded(at_d),
            E::decoded(at_e),
            F::decoded(at_f),
            G::decoded(at_g),
            H::decoded(at_h),
            I::decoded(at_i),
            J::decoded(at_j),
            K::decoded(at_k),
            L::decoded(at_l),
        )
    }

    #[verifier::spinoff_prover]
    #[verifier::rlimit(40)]
    fn decode(buf: &mut &[u8]) -> (r: Self) {
        let ghost start = buf@;
        let v0 = A::decode(buf);
        let v1 = B::decode(buf);
        let v2 = C::decode(buf);
        let v3 = D::decode(buf);
        let v4 = E::decode(buf);
        let v5 = F::decode(buf);
        let v6 = G::decode(buf);
        let v7 = H::decode(buf);
        let v8 = I::decode(buf);
        let v9 = J::decode(buf);
        let v10 = K::decode(buf);
        let v11 = L::decode(buf);
        assert(buf@ =~= start.skip(Self::decode_len() as int));
        (v0, v1, v2, v3, v4, v5, v6, v7, v8, v9, v10, v11)
    }
}

impl<
    A: Decode,
    B: Decode,
    C: Decode,
    D: Decode,
    E: Decode,
    F: Decode,
    G: Decode,
    H: Decode,
    I: Decode,
    J: Decode,
    K: Decode,
    L: Decode,
    M: Decode,
> Decode for (A, B, C, D, E, F, G, H, I, J, K, L, M) {
    open spec fn decode_len() -> nat {
        A::decode_len()
            + B::decode_len()
            + C::decode_len()
            + D::decode_len()
            + E::decode_len()
            + F::decode_len()
            + G::decode_len()
            + H::decode_len()
            + I::decode_len()
            + J::decode_len()
            + K::decode_len()
            + L::decode_len()
            + M::decode_len()
    }

    open spec fn decodable(bytes: Seq<u8>) -> bool {
        let at_b = bytes.skip(A::decode_len() as int);
        let at_c = at_b.skip(B::decode_len() as int);
        let at_d = at_c.skip(C::decode_len() as int);
        let at_e = at_d.skip(D::decode_len() as int);
        let at_f = at_e.skip(E::decode_len() as int);
        let at_g = at_f.skip(F::decode_len() as int);
        let at_h = at_g.skip(G::decode_len() as int);
        let at_i = at_h.skip(H::decode_len() as int);
        let at_j = at_i.skip(I::decode_len() as int);
        let at_k = at_j.skip(J::decode_len() as int);
        let at_l = at_k.skip(K::decode_len() as int);
        let at_m = at_l.skip(L::decode_len() as int);
        A::decodable(bytes)
        && B::decodable(at_b)
        && C::decodable(at_c)
        && D::decodable(at_d)
        && E::decodable(at_e)
        && F::decodable(at_f)
        && G::decodable(at_g)
        && H::decodable(at_h)
        && I::decodable(at_i)
        && J::decodable(at_j)
        && K::decodable(at_k)
        && L::decodable(at_l)
        && M::decodable(at_m)
    }

    open spec fn decoded(bytes: Seq<u8>) -> Self {
        let at_b = bytes.skip(A::decode_len() as int);
        let at_c = at_b.skip(B::decode_len() as int);
        let at_d = at_c.skip(C::decode_len() as int);
        let at_e = at_d.skip(D::decode_len() as int);
        let at_f = at_e.skip(E::decode_len() as int);
        let at_g = at_f.skip(F::decode_len() as int);
        let at_h = at_g.skip(G::decode_len() as int);
        let at_i = at_h.skip(H::decode_len() as int);
        let at_j = at_i.skip(I::decode_len() as int);
        let at_k = at_j.skip(J::decode_len() as int);
        let at_l = at_k.skip(K::decode_len() as int);
        let at_m = at_l.skip(L::decode_len() as int);
        (
            A::decoded(bytes),
            B::decoded(at_b),
            C::decoded(at_c),
            D::decoded(at_d),
            E::decoded(at_e),
            F::decoded(at_f),
            G::decoded(at_g),
            H::decoded(at_h),
            I::decoded(at_i),
            J::decoded(at_j),
            K::decoded(at_k),
            L::decoded(at_l),
            M::decoded(at_m),
        )
    }

    #[verifier::spinoff_prover]
    #[verifier::rlimit(40)]
    fn decode(buf: &mut &[u8]) -> (r: Self) {
        let ghost start = buf@;
        let v0 = A::decode(buf);
        let v1 = B::decode(buf);
        let v2 = C::decode(buf);
        let v3 = D::decode(buf);
        let v4 = E::decode(buf);
        let v5 = F::decode(buf);
        let v6 = G::decode(buf);
        let v7 = H::decode(buf);
        let v8 = I::decode(buf);
        let v9 = J::decode(buf);
        let v10 = K::decode(buf);
        let v11 = L::decode(buf);
        let v12 = M::decode(buf);
        assert(buf@ =~= start.skip(Self::decode_len() as int));
        (v0, v1, v2, v3, v4, v5, v6, v7, v8, v9, v10, v11, v12)
    }
}

impl<
    A: Decode,
    B: Decode,
    C: Decode,
    D: Decode,
    E: Decode,
    F: Decode,
    G: Decode,
    H: Decode,
    I: Decode,
    J: Decode,
    K: Decode,
    L: Decode,
    M: Decode,
    N: Decode,
> Decode for (A, B, C, D, E, F, G, H, I, J, K, L, M, N) {
    open spec fn decode_len() -> nat {
        A::decode_len()
            + B::decode_len()
            + C::decode_len()
            + D::decode_len()
            + E::decode_len()
            + F::decode_len()
            + G::decode_len()
            + H::decode_len()
            + I::decode_len()
            + J::decode_len()
            + K::decode_len()
            + L::decode_len()
            + M::decode_len()
            + N::decode_len()
    }

    open spec fn decodable(bytes: Seq<u8>) -> bool {
        let at_b = bytes.skip(A::decode_len() as int);
        let at_c = at_b.skip(B::decode_len() as int);
        let at_d = at_c.skip(C::decode_len() as int);
        let at_e = at_d.skip(D::decode_len() as int);
        let at_f = at_e.skip(E::decode_len() as int);
        let at_g = at_f.skip(F::decode_len() as int);
        let at_h = at_g.skip(G::decode_len() as int);
        let at_i = at_h.skip(H::decode_len() as int);
        let at_j = at_i.skip(I::decode_len() as int);
        let at_k = at_j.skip(J::decode_len() as int);
        let at_l = at_k.skip(K::decode_len() as int);
        let at_m = at_l.skip(L::decode_len() as int);
        let at_n = at_m.skip(M::decode_len() as int);
        A::decodable(bytes)
        && B::decodable(at_b)
        && C::decodable(at_c)
        && D::decodable(at_d)
        && E::decodable(at_e)
        && F::decodable(at_f)
        && G::decodable(at_g)
        && H::decodable(at_h)
        && I::decodable(at_i)
        && J::decodable(at_j)
        && K::decodable(at_k)
        && L::decodable(at_l)
        && M::decodable(at_m)
        && N::decodable(at_n)
    }

    open spec fn decoded(bytes: Seq<u8>) -> Self {
        let at_b = bytes.skip(A::decode_len() as int);
        let at_c = at_b.skip(B::decode_len() as int);
        let at_d = at_c.skip(C::decode_len() as int);
        let at_e = at_d.skip(D::decode_len() as int);
        let at_f = at_e.skip(E::decode_len() as int);
        let at_g = at_f.skip(F::decode_len() as int);
        let at_h = at_g.skip(G::decode_len() as int);
        let at_i = at_h.skip(H::decode_len() as int);
        let at_j = at_i.skip(I::decode_len() as int);
        let at_k = at_j.skip(J::decode_len() as int);
        let at_l = at_k.skip(K::decode_len() as int);
        let at_m = at_l.skip(L::decode_len() as int);
        let at_n = at_m.skip(M::decode_len() as int);
        (
            A::decoded(bytes),
            B::decoded(at_b),
            C::decoded(at_c),
            D::decoded(at_d),
            E::decoded(at_e),
            F::decoded(at_f),
            G::decoded(at_g),
            H::decoded(at_h),
            I::decoded(at_i),
            J::decoded(at_j),
            K::decoded(at_k),
            L::decoded(at_l),
            M::decoded(at_m),
            N::decoded(at_n),
        )
    }

    #[verifier::spinoff_prover]
    #[verifier::rlimit(40)]
    fn decode(buf: &mut &[u8]) -> (r: Self) {
        let ghost start = buf@;
        let v0 = A::decode(buf);
        let v1 = B::decode(buf);
        let v2 = C::decode(buf);
        let v3 = D::decode(buf);
        let v4 = E::decode(buf);
        let v5 = F::decode(buf);
        let v6 = G::decode(buf);
        let v7 = H::decode(buf);
        let v8 = I::decode(buf);
        let v9 = J::decode(buf);
        let v10 = K::decode(buf);
        let v11 = L::decode(buf);
        let v12 = M::decode(buf);
        let v13 = N::decode(buf);
        assert(buf@ =~= start.skip(Self::decode_len() as int));
        (v0, v1, v2, v3, v4, v5, v6, v7, v8, v9, v10, v11, v12, v13)
    }
}

impl<
    A: Decode,
    B: Decode,
    C: Decode,
    D: Decode,
    E: Decode,
    F: Decode,
    G: Decode,
    H: Decode,
    I: Decode,
    J: Decode,
    K: Decode,
    L: Decode,
    M: Decode,
    N: Decode,
    O: Decode,
> Decode for (A, B, C, D, E, F, G, H, I, J, K, L, M, N, O) {
    open spec fn decode_len() -> nat {
        A::decode_len()
            + B::decode_len()
            + C::decode_len()
            + D::decode_len()
            + E::decode_len()
            + F::decode_len()
            + G::decode_len()
            + H::decode_len()
            + I::decode_len()
            + J::decode_len()
            + K::decode_len()
            + L::decode_len()
            + M::decode_len()
            + N::decode_len()
            + O::decode_len()
    }

    open spec fn decodable(bytes: Seq<u8>) -> bool {
        let at_b = bytes.skip(A::decode_len() as int);
        let at_c = at_b.skip(B::decode_len() as int);
        let at_d = at_c.skip(C::decode_len() as int);
        let at_e = at_d.skip(D::decode_len() as int);
        let at_f = at_e.skip(E::decode_len() as int);
        let at_g = at_f.skip(F::decode_len() as int);
        let at_h = at_g.skip(G::decode_len() as int);
        let at_i = at_h.skip(H::decode_len() as int);
        let at_j = at_i.skip(I::decode_len() as int);
        let at_k = at_j.skip(J::decode_len() as int);
        let at_l = at_k.skip(K::decode_len() as int);
        let at_m = at_l.skip(L::decode_len() as int);
        let at_n = at_m.skip(M::decode_len() as int);
        let at_o = at_n.skip(N::decode_len() as int);
        A::decodable(bytes)
        && B::decodable(at_b)
        && C::decodable(at_c)
        && D::decodable(at_d)
        && E::decodable(at_e)
        && F::decodable(at_f)
        && G::decodable(at_g)
        && H::decodable(at_h)
        && I::decodable(at_i)
        && J::decodable(at_j)
        && K::decodable(at_k)
        && L::decodable(at_l)
        && M::decodable(at_m)
        && N::decodable(at_n)
        && O::decodable(at_o)
    }

    open spec fn decoded(bytes: Seq<u8>) -> Self {
        let at_b = bytes.skip(A::decode_len() as int);
        let at_c = at_b.skip(B::decode_len() as int);
        let at_d = at_c.skip(C::decode_len() as int);
        let at_e = at_d.skip(D::decode_len() as int);
        let at_f = at_e.skip(E::decode_len() as int);
        let at_g = at_f.skip(F::decode_len() as int);
        let at_h = at_g.skip(G::decode_len() as int);
        let at_i = at_h.skip(H::decode_len() as int);
        let at_j = at_i.skip(I::decode_len() as int);
        let at_k = at_j.skip(J::decode_len() as int);
        let at_l = at_k.skip(K::decode_len() as int);
        let at_m = at_l.skip(L::decode_len() as int);
        let at_n = at_m.skip(M::decode_len() as int);
        let at_o = at_n.skip(N::decode_len() as int);
        (
            A::decoded(bytes),
            B::decoded(at_b),
            C::decoded(at_c),
            D::decoded(at_d),
            E::decoded(at_e),
            F::decoded(at_f),
            G::decoded(at_g),
            H::decoded(at_h),
            I::decoded(at_i),
            J::decoded(at_j),
            K::decoded(at_k),
            L::decoded(at_l),
            M::decoded(at_m),
            N::decoded(at_n),
            O::decoded(at_o),
        )
    }

    #[verifier::spinoff_prover]
    #[verifier::rlimit(40)]
    fn decode(buf: &mut &[u8]) -> (r: Self) {
        let ghost start = buf@;
        let v0 = A::decode(buf);
        let v1 = B::decode(buf);
        let v2 = C::decode(buf);
        let v3 = D::decode(buf);
        let v4 = E::decode(buf);
        let v5 = F::decode(buf);
        let v6 = G::decode(buf);
        let v7 = H::decode(buf);
        let v8 = I::decode(buf);
        let v9 = J::decode(buf);
        let v10 = K::decode(buf);
        let v11 = L::decode(buf);
        let v12 = M::decode(buf);
        let v13 = N::decode(buf);
        let v14 = O::decode(buf);
        assert(buf@ =~= start.skip(Self::decode_len() as int));
        (v0, v1, v2, v3, v4, v5, v6, v7, v8, v9, v10, v11, v12, v13, v14)
    }
}

impl<
    A: Decode,
    B: Decode,
    C: Decode,
    D: Decode,
    E: Decode,
    F: Decode,
    G: Decode,
    H: Decode,
    I: Decode,
    J: Decode,
    K: Decode,
    L: Decode,
    M: Decode,
    N: Decode,
    O: Decode,
    P: Decode,
> Decode for (A, B, C, D, E, F, G, H, I, J, K, L, M, N, O, P) {
    open spec fn decode_len() -> nat {
        A::decode_len()
            + B::decode_len()
            + C::decode_len()
            + D::decode_len()
            + E::decode_len()
            + F::decode_len()
            + G::decode_len()
            + H::decode_len()
            + I::decode_len()
            + J::decode_len()
            + K::decode_len()
            + L::decode_len()
            + M::decode_len()
            + N::decode_len()
            + O::decode_len()
            + P::decode_len()
    }

    open spec fn decodable(bytes: Seq<u8>) -> bool {
        let at_b = bytes.skip(A::decode_len() as int);
        let at_c = at_b.skip(B::decode_len() as int);
        let at_d = at_c.skip(C::decode_len() as int);
        let at_e = at_d.skip(D::decode_len() as int);
        let at_f = at_e.skip(E::decode_len() as int);
        let at_g = at_f.skip(F::decode_len() as int);
        let at_h = at_g.skip(G::decode_len() as int);
        let at_i = at_h.skip(H::decode_len() as int);
        let at_j = at_i.skip(I::decode_len() as int);
        let at_k = at_j.skip(J::decode_len() as int);
        let at_l = at_k.skip(K::decode_len() as int);
        let at_m = at_l.skip(L::decode_len() as int);
        let at_n = at_m.skip(M::decode_len() as int);
        let at_o = at_n.skip(N::decode_len() as int);
        let at_p = at_o.skip(O::decode_len() as int);
        A::decodable(bytes)
        && B::decodable(at_b)
        && C::decodable(at_c)
        && D::decodable(at_d)
        && E::decodable(at_e)
        && F::decodable(at_f)
        && G::decodable(at_g)
        && H::decodable(at_h)
        && I::decodable(at_i)
        && J::decodable(at_j)
        && K::decodable(at_k)
        && L::decodable(at_l)
        && M::decodable(at_m)
        && N::decodable(at_n)
        && O::decodable(at_o)
        && P::decodable(at_p)
    }

    open spec fn decoded(bytes: Seq<u8>) -> Self {
        let at_b = bytes.skip(A::decode_len() as int);
        let at_c = at_b.skip(B::decode_len() as int);
        let at_d = at_c.skip(C::decode_len() as int);
        let at_e = at_d.skip(D::decode_len() as int);
        let at_f = at_e.skip(E::decode_len() as int);
        let at_g = at_f.skip(F::decode_len() as int);
        let at_h = at_g.skip(G::decode_len() as int);
        let at_i = at_h.skip(H::decode_len() as int);
        let at_j = at_i.skip(I::decode_len() as int);
        let at_k = at_j.skip(J::decode_len() as int);
        let at_l = at_k.skip(K::decode_len() as int);
        let at_m = at_l.skip(L::decode_len() as int);
        let at_n = at_m.skip(M::decode_len() as int);
        let at_o = at_n.skip(N::decode_len() as int);
        let at_p = at_o.skip(O::decode_len() as int);
        (
            A::decoded(bytes),
            B::decoded(at_b),
            C::decoded(at_c),
            D::decoded(at_d),
            E::decoded(at_e),
            F::decoded(at_f),
            G::decoded(at_g),
            H::decoded(at_h),
            I::decoded(at_i),
            J::decoded(at_j),
            K::decoded(at_k),
            L::decoded(at_l),
            M::decoded(at_m),
            N::decoded(at_n),
            O::decoded(at_o),
            P::decoded(at_p),
        )
    }

    #[verifier::spinoff_prover]
    #[verifier::rlimit(40)]
    fn decode(buf: &mut &[u8]) -> (r: Self) {
        let ghost start = buf@;
        let v0 = A::decode(buf);
        let v1 = B::decode(buf);
        let v2 = C::decode(buf);
        let v3 = D::decode(buf);
        let v4 = E::decode(buf);
        let v5 = F::decode(buf);
        let v6 = G::decode(buf);
        let v7 = H::decode(buf);
        let v8 = I::decode(buf);
        let v9 = J::decode(buf);
        let v10 = K::decode(buf);
        let v11 = L::decode(buf);
        let v12 = M::decode(buf);
        let v13 = N::decode(buf);
        let v14 = O::decode(buf);
        let v15 = P::decode(buf);
        assert(buf@ =~= start.skip(Self::decode_len() as int));
        (v0, v1, v2, v3, v4, v5, v6, v7, v8, v9, v10, v11, v12, v13, v14, v15)
    }
}


impl ToParams for () {
    open spec fn encoding(&self) -> Seq<u8> {
        Seq::empty()
    }

    fn encode(&self, buf: &mut Packet) {
        assert(packet_bytes(*buf) =~= packet_bytes(*old(buf)) + ToParams::encoding(self));
    }
}

impl<A: ToParams> ToParams for (A,) {
    open spec fn encoding(&self) -> Seq<u8> {
        self.0.encoding()
    }

    fn encode(&self, buf: &mut Packet) {
        self.0.encode(buf);
    }
}

impl<A: ToParams, B: ToParams> ToParams for (A, B) {
    open spec fn encoding(&self) -> Seq<u8> {
        self.0.encoding()
            + self.1.encoding()
    }

    fn encode(&self, buf: &mut Packet) {
        self.0.encode(buf);
        let ghost mut done = self.0.encoding();
        self.1.encode(buf);
        proof {
            lemma_concat_associative(packet_bytes(*old(buf)), done, self.1.encoding());
            done = done + self.1.encoding();
        }
    }
}

impl<A: ToParams, B: ToParams, C: ToParams> ToParams for (A, B, C) {
    open spec fn encoding(&self) -> Seq<u8> {
        self.0.encoding()
            + self.1.encoding()
            + self.2.encoding()
    }

    fn encode(&self, buf: &mut Packet) {
        self.0.encode(buf);
        let ghost mut done = self.0.encoding();
        self.1.encode(buf);
        proof {
            lemma_concat_associative(packet_bytes(*old(buf)), done, self.1.encoding());
            done = done + self.1.encoding();
        }
        self.2.encode(buf);
        proof {
            lemma_concat_associative(packet_bytes(*old(buf)), done, self.2.encoding());
            done = done + self.2.encoding();
        }
    }
}

impl<A: ToParams, B: ToParams, C: ToParams, D: ToParams> ToParams for (A, B, C, D) {
    open spec fn encoding(&self) -> Seq<u8> {
        self.0.encoding()
            + self.1.encoding()
            + self.2.encoding()
            + self.3.encoding()
    }

    fn encode(&self, buf: &mut Packet) {
        self.0.encode(buf);
        let ghost mut done = self.0.encoding();
        self.1.encode(buf);
        proof {
            lemma_concat_associative(packet_bytes(*old(buf)), done, self.1.encoding());
            done = done + self.1.encoding();
        }
        self.2.encode(buf);
        proof {
            lemma_concat_associative(packet_bytes(*old(buf)), done, self.2.encoding());
            done = done + self.2.encoding();
        }
        self.3.encode(buf);
        proof {
            lemma_concat_associative(packet_bytes(*old(buf)), done, self.3.encoding());
            done = done + self.3.encoding();
        }
    }
}

impl<A: ToParams, B: ToParams, C: ToParams, D: ToParams, E: ToParams> ToParams for (A, B, C, D, E) {
    open spec fn encoding(&self) -> Seq<u8> {
        self.0.encoding()
            + self.1.encoding()
            + self.2.encoding()
            + self.3.encoding()
            + self.4.encoding()
    }

    fn encode(&self, buf: &mut Packet) {
        self.0.encode(buf);
        let ghost mut done = self.0.encoding();
        self.1.encode(buf);
        proof {
            lemma_concat_associative(packet_bytes(*old(buf)), done, self.1.encoding());
            done = done + self.1.encoding();
        }
        self.2.encode(buf);
        proof {
            lemma_concat_associative(packet_bytes(*old(buf)), done, self.2.encoding());
            done = done + self.2.encoding();
        }
        self.3.encode(buf);
        proof {
            lemma_concat_associative(packet_bytes(*old(buf)), done, self.3.encoding());
            done = done + self.3.encoding();
        }
        self.4.encode(buf);
        proof {
            lemma_concat_associative(packet_bytes(*old(buf)), done, self.4.encoding());
            done = done + self.4.encoding();
        }
    }
}

impl<A: ToParams, B: ToParams, C: ToParams, D: ToParams, E: ToParams, F: ToParams> ToParams for (A, B, C, D, E, F) {
    open spec fn encoding(&self) -> Seq<u8> {
        self.0.encoding()
            + self.1.encoding()
            + self.2.encoding()
            + self.3.encoding()
            + self.4.encoding()
            + self.5.encoding()
    }

    fn encode(&self, buf: &mut Packet) {
        self.0.encode(buf);
        let ghost mut done = self.0.encoding();
        self.1.encode(buf);
        proof {
            lemma_concat_associative(packet_bytes(*old(buf)), done, self.1.encoding());
            done = done + self.1.encoding();
        }
        self.2.encode(buf);
        proof {
            lemma_concat_associative(packet_bytes(*old(buf)), done, self.2.encoding());
            done = done + self.2.encoding();
        }
        self.3.encode(buf);
        proof {
            lemma_concat_associative(packet_bytes(*old(buf)), done, self.3.encoding());
            done = done + self.3.encoding();
        }
        self.4.encode(buf);
        proof {
            lemma_concat_associative(packet_bytes(*old(buf)), done, self.4.encoding());
            done = done + self.4.encoding();
        }
        self.5.encode(buf);
        proof {
            lemma_concat_associative(packet_bytes(*old(buf)), done, self.5.encoding());
            done = done + self.5.encoding();
        }
    }
}

impl<
    A: ToParams,
    B: ToParams,
    C: ToParams,
    D: ToParams,
    E: ToParams,
    F: ToParams,
    G: ToParams,
> ToParams for (A, B, C, D, E, F, G) {
    open spec fn encoding(&self) -> Seq<u8> {
        self.0.encoding()
            + self.1.encoding()
            + self.2.encoding()
            + self.3.encoding()
            + self.4.encoding()
            + self.5.encoding()
            + self.6.encoding()
    }

    fn encode(&self, buf: &mut Packet) {
        self.0.encode(buf);
        let ghost mut done = self.0.encoding();
        self.1.encode(buf);
        proof {
            lemma_concat_associative(packet_bytes(*old(buf)), done, self.1.encoding());
            done = done + self.1.encoding();
        }
        self.2.encode(buf);
        proof {
            lemma_concat_associative(packet_bytes(*old(buf)), done, self.2.encoding());
            done = done + self.2.encoding();
        }
        self.3.encode(buf);
        proof {
            lemma_concat_associative(packet_bytes(*old(buf)), done, self.3.encoding());
            done = done + self.3.encoding();
        }
        self.4.encode(buf);
        proof {
            lemma_concat_associative(packet_bytes(*old(buf)), done, self.4.encoding());
            done = done + self.4.encoding();
        }
        self.5.encode(buf);
        proof {
            lemma_concat_associative(packet_bytes(*old(buf)), done, self.5.encoding());
            done = done + self.5.encoding();
        }
        self.6.encode(buf);
        proof {
            lemma_concat_associative(packet_bytes(*old(buf)), done, self.6.encoding());
            done = done + self.6.encoding();
        }
    }
}

impl<
    A: ToParams,
    B: ToParams,
    C: ToParams,
    D: ToParams,
    E: ToParams,
    F: ToParams,
    G: ToParams,
    H: ToParams,
> ToParams for (A, B, C, D, E, F, G, H) {
    open spec fn encoding(&self) -> Seq<u8> {
        self.0.encoding()
            + self.1.encoding()
            + self.2.encoding()
            + self.3.encoding()
            + self.4.encoding()
            + self.5.encoding()
            + self.6.encoding()
            + self.7.encoding()
    }

    #[verifier::spinoff_prover]
    #[verifier::rlimit(40)]
    fn encode(&self, buf: &mut Packet) {
        self.0.encode(buf);
        let ghost mut done = self.0.encoding();
        self.1.encode(buf);
        proof {
            lemma_concat_associative(packet_bytes(*old(buf)), done, self.1.encoding());
            done = done + self.1.encoding();
        }
        self.2.encode(buf);
        proof {
            lemma_concat_associative(packet_bytes(*old(buf)), done, self.2.encoding());
            done = done + self.2.encoding();
        }
        self.3.encode(buf);
        proof {
            lemma_concat_associative(packet_bytes(*old(buf)), done, self.3.encoding());
            done = done + self.3.encoding();
        }
        self.4.encode(buf);
        proof {
            lemma_concat_associative(packet_bytes(*old(buf)), done, self.4.encoding());
            done = done + self.4.encoding();
        }
        self.5.encode(buf);
        proof {
            lemma_concat_associative(packet_bytes(*old(buf)), done, self.5.encoding());
            done = done + self.5.encoding();
        }
        self.6.encode(buf);
        proof {
            lemma_concat_associative(packet_bytes(*old(buf)), done, self.6.encoding());
            done = done + self.6.encoding();
        }
        self.7.encode(buf);
        proof {
            lemma_concat_associative(packet_bytes(*old(buf)), done, self.7.encoding());
            done = done + self.7.encoding();
        }
    }
}

impl<
    A: ToParams,
    B: ToParams,
    C: ToParams,
    D: ToParams,
    E: ToParams,
    F: ToParams,
    G: ToParams,
    H: ToParams,
    I: ToParams,
> ToParams for (A, B, C, D, E, F, G, H, I) {
    open spec fn encoding(&self) -> Seq<u8> {
        self.0.encoding()
            + self.1.encoding()
            + self.2.encoding()
            + self.3.encoding()
            + self.4.encoding()
            + self.5.encoding()
            + self.6.encoding()
            + self.7.encoding()
            + self.8.encoding()
    }

    #[verifier::spinoff_prover]
    #[verifier::rlimit(40)]
    fn encode(&self, buf: &mut Packet) {
        self.0.encode(buf);
        let ghost mut done = self.0.encoding();
        self.1.encode(buf);
        proof {
            lemma_concat_associative(packet_bytes(*old(buf)), done, self.1.encoding());
            done = done + self.1.encoding();
        }
        self.2.encode(buf);
        proof {
            lemma_concat_associative(packet_bytes(*old(buf)), done, self.2.encoding());
            done = done + self.2.encoding();
        }
        self.3.encode(buf);
        proof {
            lemma_concat_associative(packet_bytes(*old(buf)), done, self.3.encoding());
            done = done + self.3.encoding();
        }
        self.4.encode(buf);
        proof {
            lemma_concat_associative(packet_bytes(*old(buf)), done, self.4.encoding());
            done = done + self.4.encoding();
        }
        self.5.encode(buf);
        proof {
            lemma_concat_associative(packet_bytes(*old(buf)), done, self.5.encoding());
            done = done + self.5.encoding();
        }
        self.6.encode(buf);
        proof {
            lemma_concat_associative(packet_bytes(*old(buf)), done, self.6.encoding());
            done = done + self.6.encoding();
        }
        self.7.encode(buf);
        proof {
            lemma_concat_associative(packet_bytes(*old(buf)), done, self.7.encoding());
            done = done + self.7.encoding();
        }
        self.8.encode(buf);
        proof {
            lemma_concat_associative(packet_bytes(*old(buf)), done, self.8.encoding());
            done = done + self.8.encoding();
        }
    }
}

impl<
    A: ToParams,
    B: ToParams,
    C: ToParams,
    D: ToParams,
    E: ToParams,
    F: ToParams,
    G: ToParams,
    H: ToParams,
    I: ToParams,
    J: ToParams,
> ToParams for (A, B, C, D, E, F, G, H, I, J) {
    open spec fn encoding(&self) -> Seq<u8> {
        self.0.encoding()
            + self.1.encoding()
            + self.2.encoding()
            + self.3.encoding()
            + self.4.encoding()
            + self.5.encoding()
            + self.6.encoding()
            + self.7.encoding()
            + self.8.encoding()
            + self.9.encoding()
    }

    #[verifier::spinoff_prover]
    #[verifier::rlimit(40)]
    fn encode(&self, buf: &mut Packet) {
        self.0.encode(buf);
        let ghost mut done = self.0.encoding();
        self.1.encode(buf);
        proof {
            lemma_concat_associative(packet_bytes(*old(buf)), done, self.1.encoding());
            done = done + self.1.encoding();
        }
        self.2.encode(buf);
        proof {
            lemma_concat_associative(packet_bytes(*old(buf)), done, self.2.encoding());
            done = done + self.2.encoding();
        }
        self.3.encode(buf);
        proof {
            lemma_concat_associative(packet_bytes(*old(buf)), done, self.3.encoding());
            done = done + self.3.encoding();
        }
        self.4.encode(buf);
        proof {
            lemma_concat_associative(packet_bytes(*old(buf)), done, self.4.encoding());
            done = done + self.4.encoding();
        }
        self.5.encode(buf);
        proof {
            lemma_concat_associative(packet_bytes(*old(buf)), done, self.5.encoding());
            done = done + self.5.encoding();
        }
        self.6.encode(buf);
        proof {
            lemma_concat_associative(packet_bytes(*old(buf)), done, self.6.encoding());
            done = done + self.6.encoding();
        }
        self.7.encode(buf);
        proof {
            lemma_concat_associative(packet_bytes(*old(buf)), done, self.7.encoding());
            done = done + self.7.encoding();
        }
        self.8.encode(buf);
        proof {
            lemma_concat_associative(packet_bytes(*old(buf)), done, self.8.encoding());
            done = done + self.8.encoding();
        }
        self.9.encode(buf);
        proof {
            lemma_concat_associative(packet_bytes(*old(buf)), done, self.9.encoding());
            done = done + self.9.encoding();
        }
    }
}

impl<
    A: ToParams,
    B: ToParams,
    C: ToParams,
    D: ToParams,
    E: ToParams,
    F: ToParams,
    G: ToParams,
    H: ToParams,
    I: ToParams,
    J: ToParams,
    K: ToParams,
> ToParams for (A, B, C, D, E, F, G, H, I, J, K) {
    open spec fn encoding(&self) -> Seq<u8> {
        self.0.encoding()
            + self.1.encoding()
            + self.2.encoding()
            + self.3.encoding()
            + self.4.encoding()
            + self.5.encoding()
            + self.6.encoding()
            + self.7.encoding()
            + self.8.encoding()
            + self.9.encoding()
            + self.10.encoding()
    }

    #[verifier::spinoff_prover]
    #[verifier::rlimit(40)]
    fn encode(&self, buf: &mut Packet) {
        self.0.encode(buf);
        let ghost mut done = self.0.encoding();
        self.1.encode(buf);
        proof {
            lemma_concat_associative(packet_bytes(*old(buf)), done, self.1.encoding());
            done = done + self.1.encoding();
        }
        self.2.encode(buf);
        proof {
            lemma_concat_associative(packet_bytes(*old(buf)), done, self.2.encoding());
            done = done + self.2.encoding();
        }
        self.3.encode(buf);
        proof {
            lemma_concat_associative(packet_bytes(*old(buf)), done, self.3.encoding());
            done = done + self.3.encoding();
        }
        self.4.encode(buf);
        proof {
            lemma_concat_associative(packet_bytes(*old(buf)), done, self.4.encoding());
            done = done + self.4.encoding();
        }
        self.5.encode(buf);
        proof {
            lemma_concat_associative(packet_bytes(*old(buf)), done, self.5.encoding());
            done = done + self.5.encoding();
        }
        self.6.encode(buf);
        proof {
            lemma_concat_associative(packet_bytes(*old(buf)), done, self.6.encoding());
            done = done + self.6.encoding();
        }
        self.7.encode(buf);
        proof {
            lemma_concat_associative(packet_bytes(*old(buf)), done, self.7.encoding());
            done = done + self.7.encoding();
        }
        self.8.encode(buf);
        proof {
            lemma_concat_associative(packet_bytes(*old(buf)), done, self.8.encoding());
            done = done + self.8.encoding();
        }
        self.9.encode(buf);
        proof {
            lemma_concat_associative(packet_bytes(*old(buf)), done, self.9.encoding());
            done = done + self.9.encoding();
        }
        self.10.encode(buf);
        proof {
            lemma_concat_associative(packet_bytes(*old(buf)), done, self.10.encoding());
            done = done + self.10.encoding();
        }
    }
}

impl<
    A: ToParams,
    B: ToParams,
    C: ToParams,
    D: ToParams,
    E: ToParams,
    F: ToParams,
    G: ToParams,
    H: ToParams,
    I: ToParams,
    J: ToParams,
    K: ToParams,
    L: ToParams,
> ToParams for (A, B, C, D, E, F, G, H, I, J, K, L) {
    open spec fn encoding(&self) -> Seq<u8> {
        self.0.encoding()
            + self.1.encoding()
            + self.2.encoding()
            + self.3.encoding()
            + self.4.encoding()
            + self.5.encoding()
            + self.6.encoding()
            + self.7.encoding()
            + self.8.encoding()
            + self.9.encoding()
            + self.10.encoding()
            + self.11.encoding()
    }

    #[verifier::spinoff_prover]
    #[verifier::rlimit(40)]
    fn encode(&self, buf: &mut Packet) {
        self.0.encode(buf);
        let ghost mut done = self.0.encoding();
        self.1.encode(buf);
        proof {
            lemma_concat_associative(packet_bytes(*old(buf)), done, self.1.encoding());
            done = done + self.1.encoding();
        }
        self.2.encode(buf);
        proof {
            lemma_concat_associative(packet_bytes(*old(buf)), done, self.2.encoding());
            done = done + self.2.encoding();
        }
        self.3.encode(buf);
        proof {
            lemma_concat_associative(packet_bytes(*old(buf)), done, self.3.encoding());
            done = done + self.3.encoding();
        }
        self.4.encode(buf);
        proof {
            lemma_concat_associative(packet_bytes(*old(buf)), done, self.4.encoding());
            done = done + self.4.encoding();
        }
        self.5.encode(buf);
        proof {
            lemma_concat_associative(packet_bytes(*old(buf)), done, self.5.encoding());
            done = done + self.5.encoding();
        }
        self.6.encode(buf);
        proof {
            lemma_concat_associative(packet_bytes(*old(buf)), done, self.6.encoding());
            done = done + self.6.encoding();
        }
        self.7.encode(buf);
        proof {
            lemma_concat_associative(packet_bytes(*old(buf)), done, self.7.encoding());
            done = done + self.7.encoding();
        }
        self.8.encode(buf);
        proof {
            lemma_concat_associative(packet_bytes(*old(buf)), done, self.8.encoding());
            done = done + self.8.encoding();
        }
        self.9.encode(buf);
        proof {
            lemma_concat_associative(packet_bytes(*old(buf)), done, self.9.encoding());
            done = done + self.9.encoding();
        }
        self.10.encode(buf);
        proof {
            lemma_concat_associative(packet_bytes(*old(buf)), done, self.10.encoding());
            done = done + self.10.encoding();
        }
        self.11.encode(buf);
        proof {
            lemma_concat_associative(packet_bytes(*old(buf)), done, self.11.encoding());
            done = done + self.11.encoding();
        }
    }
}

impl<
    A: ToParams,
    B: ToParams,
    C: ToParams,
    D: ToParams,
    E: ToParams,
    F: ToParams,
    G: ToParams,
    H: ToParams,
    I: ToParams,
    J: ToParams,
    K: ToParams,
    L: ToParams,
    M: ToParams,
> ToParams for (A, B, C, D, E, F, G, H, I, J, K, L, M) {
    open spec fn encoding(&self) -> Seq<u8> {
        self.0.encoding()
            + self.1.encoding()
            + self.2.encoding()
            + self.3.encoding()
            + self.4.encoding()
            + self.5.encoding()
            + self.6.encoding()
            + self.7.encoding()
            + self.8.encoding()
            + self.9.encoding()
            + self.10.encoding()
            + self.11.encoding()
            + self.12.encoding()
    }

    #[verifier::spinoff_prover]
    #[verifier::rlimit(40)]
    fn encode(&self, buf: &mut Packet) {
        self.0.encode(buf);
        let ghost mut done = self.0.encoding();
        self.1.encode(buf);
        proof {
            lemma_concat_associative(packet_bytes(*old(buf)), done, self.1.encoding());
            done = done + self.1.encoding();
        }
        self.2.encode(buf);
        proof {
            lemma_concat_associative(packet_bytes(*old(buf)), done, self.2.encoding());
            done = done + self.2.encoding();
        }
        self.3.encode(buf);
        proof {
            lemma_concat_associative(packet_bytes(*old(buf)), done, self.3.encoding());
            done = done + self.3.encoding();
        }
        self.4.encode(buf);
        proof {
            lemma_concat_associative(packet_bytes(*old(buf)), done, self.4.encoding());
            done = done + self.4.encoding();
        }
        self.5.encode(buf);
        proof {
            lemma_concat_associative(packet_bytes(*old(buf)), done, self.5.encoding());
            done = done + self.5.encoding();
        }
        self.6.encode(buf);
        proof {
            lemma_concat_associative(packet_bytes(*old(buf)), done, self.6.encoding());
            done = done + self.6.encoding();
        }
        self.7.encode(buf);
        proof {
            lemma_concat_associative(packet_bytes(*old(buf)), done, self.7.encoding());
            done = done + self.7.encoding();
        }
        self.8.encode(buf);
        proof {
            lemma_concat_associative(packet_bytes(*old(buf)), done, self.8.encoding());
            done = done + self.8.encoding();
        }
        self.9.encode(buf);
        proof {
            lemma_concat_associative(packet_bytes(*old(buf)), done, self.9.encoding());
            done = done + self.9.encoding();
        }
        self.10.encode(buf);
        proof {
            lemma_concat_associative(packet_bytes(*old(buf)), done, self.10.encoding());
            done = done + self.10.encoding();
        }
        self.11.encode(buf);
        proof {
            lemma_concat_associative(packet_bytes(*old(buf)), done, self.11.encoding());
            done = done + self.11.encoding();
        }
        self.12.encode(buf);
        proof {
            lemma_concat_associative(packet_bytes(*old(buf)), done, self.12.encoding());
            done = done + self.12.encoding();
        }
    }
}

impl<
    A: ToParams,
    B: ToParams,
    C: ToParams,
    D: ToParams,
    E: ToParams,
    F: ToParams,
    G: ToParams,
    H: ToParams,
    I: ToParams,
    J: ToParams,
    K: ToParams,
    L: ToParams,
    M: ToParams,
    N: ToParams,
> ToParams for (A, B, C, D, E, F, G, H, I, J, K, L, M, N) {
    open spec fn encoding(&self) -> Seq<u8> {
        self.0.encoding()
            + self.1.encoding()
            + self.2.encoding()
            + self.3.encoding()
            + self.4.encoding()
            + self.5.encoding()
            + self.6.encoding()
            + self.7.encoding()
            + self.8.encoding()
            + self.9.encoding()
            + self.10.encoding()
            + self.11.encoding()
            + self.12.encoding()
            + self.13.encoding()
    }

    #[verifier::spinoff_prover]
    #[verifier::rlimit(40)]
    fn encode(&self, buf: &mut Packet) {
        self.0.encode(buf);
        let ghost mut done = self.0.encoding();
        self.1.encode(buf);
        proof {
            lemma_concat_associative(packet_bytes(*old(buf)), done, self.1.encoding());
            done = done + self.1.encoding();
        }
        self.2.encode(buf);
        proof {
            lemma_concat_associative(packet_bytes(*old(buf)), done, self.2.encoding());
            done = done + self.2.encoding();
        }
        self.3.encode(buf);
        proof {
            lemma_concat_associative(packet_bytes(*old(buf)), done, self.3.encoding());
            done = done + self.3.encoding();
        }
        self.4.encode(buf);
        proof {
            lemma_concat_associative(packet_bytes(*old(buf)), done, self.4.encoding());
            done = done + self.4.encoding();
        }
        self.5.encode(buf);
        proof {
            lemma_concat_associative(packet_bytes(*old(buf)), done, self.5.encoding());
            done = done + self.5.encoding();
        }
        self.6.encode(buf);
        proof {
            lemma_concat_associative(packet_bytes(*old(buf)), done, self.6.encoding());
            done = done + self.6.encoding();
        }
        self.7.encode(buf);
        proof {
            lemma_concat_associative(packet_bytes(*old(buf)), done, self.7.encoding());
            done = done + self.7.encoding();
        }
        self.8.encode(buf);
        proof {
            lemma_concat_associative(packet_bytes(*old(buf)), done, self.8.encoding());
            done = done + self.8.encoding();
        }
        self.9.encode(buf);
        proof {
            lemma_concat_associative(packet_bytes(*old(buf)), done, self.9.encoding());
            done = done + self.9.encoding();
        }
        self.10.encode(buf);
        proof {
            lemma_concat_associative(packet_bytes(*old(buf)), done, self.10.encoding());
            done = done + self.10.encoding();
        }
        self.11.encode(buf);
        proof {
            lemma_concat_associative(packet_bytes(*old(buf)), done, self.11.encoding());
            done = done + self.11.encoding();
        }
        self.12.encode(buf);
        proof {
            lemma_concat_associative(packet_bytes(*old(buf)), done, self.12.encoding());
            done = done + self.12.encoding();
        }
        self.13.encode(buf);
        proof {
            lemma_concat_associative(packet_bytes(*old(buf)), done, self.13.encoding());
            done = done + self.13.encoding();
        }
    }
}

impl<
    A: ToParams,
    B: ToParams,
    C: ToParams,
    D: ToParams,
    E: ToParams,
    F: ToParams,
    G: ToParams,
    H: ToParams,
    I: ToParams,
    J: ToParams,
    K: ToParams,
    L: ToParams,
    M: ToParams,
    N: ToParams,
    O: ToParams,
> ToParams for (A, B, C, D, E, F, G, H, I, J, K, L, M, N, O) {
    open spec fn encoding(&self) -> Seq<u8> {
        self.0.encoding()
            + self.1.encoding()
            + self.2.encoding()
            + self.3.encoding()
            + self.4.encoding()
            + self.5.encoding()
            + self.6.encoding()
            + self.7.encoding()
            + self.8.encoding()
            + self.9.encoding()
            + self.10.encoding()
            + self.11.encoding()
            + self.12.encoding()
            + self.13.encoding()
            + self.14.encoding()
    }

    #[verifier::spinoff_prover]
    #[verifier::rlimit(40)]
    fn encode(&self, buf: &mut Packet) {
        self.0.encode(buf);
        let ghost mut done = self.0.encoding();
        self.1.encode(buf);
        proof {
            lemma_concat_associative(packet_bytes(*old(buf)), done, self.1.encoding());
            done = done + self.1.encoding();
        }
        self.2.encode(buf);
        proof {
            lemma_concat_associative(packet_bytes(*old(buf)), done, self.2.encoding());
            done = done + self.2.encoding();
        }
        self.3.encode(buf);
        proof {
            lemma_concat_associative(packet_bytes(*old(buf)), done, self.3.encoding());
            done = done + self.3.encoding();
        }
        self.4.encode(buf);
        proof {
            lemma_concat_associative(packet_bytes(*old(buf)), done, self.4.encoding());
            done = done + self.4.encoding();
        }
        self.5.encode(buf);
        proof {
            lemma_concat_associative(packet_bytes(*old(buf)), done, self.5.encoding());
            done = done + self.5.encoding();
        }
        self.6.encode(buf);
        proof {
            lemma_concat_associative(packet_bytes(*old(buf)), done, self.6.encoding());
            done = done + self.6.encoding();
        }
        self.7.encode(buf);
        proof {
            lemma_concat_associative(packet_bytes(*old(buf)), done, self.7.encoding());
            done = done + self.7.encoding();
        }
        self.8.encode(buf);
        proof {
            lemma_concat_associative(packet_bytes(*old(buf)), done, self.8.encoding());
            done = done + self.8.encoding();
        }
        self.9.encode(buf);
        proof {
            lemma_concat_associative(packet_bytes(*old(buf)), done, self.9.encoding());
            done = done + self.9.encoding();
        }
        self.10.encode(buf);
        proof {
            lemma_concat_associative(packet_bytes(*old(buf)), done, self.10.encoding());
            done = done + self.10.encoding();
        }
        self.11.encode(buf);
        proof {
            lemma_concat_associative(packet_bytes(*old(buf)), done, self.11.encoding());
            done = done + self.11.encoding();
        }
        self.12.encode(buf);
        proof {
            lemma_concat_associative(packet_bytes(*old(buf)), done, self.12.encoding());
            done = done + self.12.encoding();
        }
        self.13.encode(buf);
        proof {
            lemma_concat_associative(packet_bytes(*old(buf)), done, self.13.encoding());
            done = done + self.13.encoding();
        }
        self.14.encode(buf);
        proof {
            lemma_concat_associative(packet_bytes(*old(buf)), done, self.14.encoding());
            done = done + self.14.encoding();
        }
    }
}

impl<
    A: ToParams,
    B: ToParams,
    C: ToParams,
    D: ToParams,
    E: ToParams,
    F: ToParams,
    G: ToParams,
    H: ToParams,
    I: ToParams,
    J: ToParams,
    K: ToParams,
    L: ToParams,
    M: ToParams,
    N: ToParams,
    O: ToParams,
    P: ToParams,
> ToParams for (A, B, C, D, E, F, G, H, I, J, K, L, M, N, O, P) {
    open spec fn encoding(&self) -> Seq<u8> {
        self.0.encoding()
            + self.1.encoding()
            + self.2.encoding()
            + self.3.encoding()
            + self.4.encoding()
            + self.5.encoding()
            + self.6.encoding()
            + self.7.encoding()
            + self.8.encoding()
            + self.9.encoding()
            + self.10.encoding()
            + self.11.encoding()
            + self.12.encoding()
            + self.13.encoding()
            + self.14.encoding()
            + self.15.encoding()
    }

    #[verifier::spinoff_prover]
    #[verifier::rlimit(40)]
    fn encode(&self, buf: &mut Packet) {
        self.0.encode(buf);
        let ghost mut done = self.0.encoding();
        self.1.encode(buf);
        proof {
            lemma_concat_associative(packet_bytes(*old(buf)), done, self.1.encoding());
            done = done + self.1.encoding();
        }
        self.2.encode(buf);
        proof {
            lemma_concat_associative(packet_bytes(*old(buf)), done, self.2.encoding());
            done = done + self.2.encoding();
        }
        self.3.encode(buf);
        proof {
            lemma_concat_associative(packet_bytes(*old(buf)), done, self.3.encoding());
            done = done + self.3.encoding();
        }
        self.4.encode(buf);
        proof {
            lemma_concat_associative(packet_bytes(*old(buf)), done, self.4.encoding());
            done = done + self.4.encoding();
        }
        self.5.encode(buf);
        proof {
            lemma_concat_associative(packet_bytes(*old(buf)), done, self.5.encoding());
            done = done + self.5.encoding();
        }
        self.6.encode(buf);
        proof {
            lemma_concat_associative(packet_bytes(*old(buf)), done, self.6.encoding());
            done = done + self.6.encoding();
        }
        self.7.encode(buf);
        proof {
            lemma_concat_associative(packet_bytes(*old(buf)), done, self.7.encoding());
            done = done + self.7.encoding();
        }
        self.8.encode(buf);
        proof {
            lemma_concat_associative(packet_bytes(*old(buf)), done, self.8.encoding());
            done = done + self.8.encoding();
        }
        self.9.encode(buf);
        proof {
            lemma_concat_associative(packet_bytes(*old(buf)), done, self.9.encoding());
            done = done + self.9.encoding();
        }
        self.10.encode(buf);
        proof {
            lemma_concat_associative(packet_bytes(*old(buf)), done, self.10.encoding());
            done = done + self.10.encoding();
        }
        self.11.encode(buf);
        proof {
            lemma_concat_associative(packet_bytes(*old(buf)), done, self.11.encoding());
            done = done + self.11.encoding();
        }
        self.12.encode(buf);
        proof {
            lemma_concat_associative(packet_bytes(*old(buf)), done, self.12.encoding());
            done = done + self.12.encoding();
        }
        self.13.encode(buf);
        proof {
            lemma_concat_associative(packet_bytes(*old(buf)), done, self.13.encoding());
            done = done + self.13.encoding();
        }
        self.14.encode(buf);
        proof {
            lemma_concat_associative(packet_bytes(*old(buf)), done, self.14.encoding());
            done = done + self.14.encoding();
        }
        self.15.encode(buf);
        proof {
            lemma_concat_associative(packet_bytes(*old(buf)), done, self.15.encoding());
            done = done + self.15.encoding();
        }
    }
}


} // verus!
