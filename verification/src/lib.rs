//! A bounded, layer-shared output buffer for building network packets,
//! together with the capability traits that protocol layers implement to
//! serialize themselves into it and to parse themselves back out of raw
//! bytes.

use vstd::prelude::*;

pub mod dns;
pub mod parse;
mod wire;

pub use parse::ParseError;

verus! {

use vstd::slice::slice_subrange;

/// A bounded output buffer that every protocol layer of an outgoing packet
/// writes into.
///
/// The buffer has a fixed maximum capacity chosen at construction; an append
/// that would exceed it fails without changing the contents. Already written
/// regions can be overwritten in place, which is how an outer layer patches
/// header fields (lengths, checksums) it only knows after an inner layer has
/// been written.
pub struct TxPacket {
    data: Vec<u8>,
    capacity: usize,
}

impl TxPacket {
    /// The bytes written so far.
    pub closed spec fn bytes(&self) -> Seq<u8> {
        self.data@
    }

    /// The fixed maximum number of bytes this buffer will ever hold.
    pub closed spec fn cap(&self) -> int {
        self.capacity as int
    }

    /// The written length never exceeds the capacity.
    pub open spec fn inv(&self) -> bool {
        self.bytes().len() <= self.cap()
    }

    /// An empty buffer that will accept at most `max_len` bytes.
    pub fn new(max_len: usize) -> (r: TxPacket)
        ensures
            r.inv(),
            r.bytes() == Seq::<u8>::empty(),
            r.cap() == max_len,
    {
        TxPacket { data: Vec::new(), capacity: max_len }
    }

    /// Builds the single buffer for a whole layered packet, sized to the
    /// packet's encoded length, and lets the packet write itself out. Because
    /// the capacity is exactly the encoded length, the write cannot fail and
    /// the buffer comes back exactly full.
    pub fn write_out<T: WriteOut>(packet: T) -> (r: Result<TxPacket, ()>)
        requires
            packet.wf(),
        ensures
            match r {
                Ok(tx) => {
                    &&& tx.inv()
                    &&& tx.bytes() == packet.encoding()
                    &&& tx.cap() == packet.encoding().len()
                },
                Err(()) => false,
            },
    {
        let mut tx_packet = TxPacket::new(packet.len());
        match packet.write_out(&mut tx_packet) {
            Ok(()) => Ok(tx_packet),
            Err(()) => Err(()),
        }
    }

    /// Consumes the buffer, yielding the finished byte sequence for
    /// transmission.
    ///
    /// Relies on `Vec::into_boxed_slice`: the boxed slice holds exactly the
    /// vector's bytes.
    #[verifier::external_body]
    pub fn into_boxed_slice(self) -> (r: Box<[u8]>)
        ensures
            r@ == self.bytes(),
    {
        self.data.into_boxed_slice()
    }

    /// Appends `bytes`, returning the offset where they start, or fails
    /// without changing the buffer when the remaining capacity is too small.
    pub fn push_bytes(&mut self, bytes: &[u8]) -> (r: Result<usize, ()>)
        requires
            old(self).inv(),
        ensures
            final(self).inv(),
            final(self).cap() == old(self).cap(),
            match r {
                Ok(index) => {
                    &&& index == old(self).bytes().len()
                    &&& old(self).bytes().len() + bytes@.len() <= old(self).cap()
                    &&& final(self).bytes() == old(self).bytes() + bytes@
                },
                Err(()) => {
                    &&& old(self).bytes().len() + bytes@.len() > old(self).cap()
                    &&& final(self).bytes() == old(self).bytes()
                },
            },
    {
        if self.capacity - self.data.len() < bytes.len() {
            Err(())
        } else {
            let index = self.data.len();
            let mut i: usize = 0;
            while i < bytes.len()
                invariant
                    i <= bytes@.len(),
                    self.data@ == old(self).data@ + bytes@.subrange(0, i as int),
                    self.capacity == old(self).capacity,
                    old(self).data@.len() + bytes@.len() <= self.capacity,
                decreases bytes@.len() - i,
            {
                self.data.push(bytes[i]);
                i = i + 1;
            }
            proof {
                assert(bytes@.subrange(0, bytes@.len() as int) =~= bytes@);
            }
            Ok(index)
        }
    }

    /// Appends a single byte; same failure contract as `push_bytes`.
    pub fn push_byte(&mut self, value: u8) -> (r: Result<usize, ()>)
        requires
            old(self).inv(),
        ensures
            final(self).inv(),
            final(self).cap() == old(self).cap(),
            match r {
                Ok(index) => {
                    &&& index == old(self).bytes().len()
                    &&& old(self).bytes().len() + 1 <= old(self).cap()
                    &&& final(self).bytes() == old(self).bytes() + seq![value]
                },
                Err(()) => {
                    &&& old(self).bytes().len() + 1 > old(self).cap()
                    &&& final(self).bytes() == old(self).bytes()
                },
            },
    {
        if self.capacity - self.data.len() < 1 {
            Err(())
        } else {
            let index = self.data.len();
            self.data.push(value);
            proof {
                assert(self.data@ =~= old(self).data@ + seq![value]);
            }
            Ok(index)
        }
    }

    /// Appends a 16-bit value in network (big-endian) order; same failure
    /// contract as `push_bytes`.
    pub fn push_u16(&mut self, value: u16) -> (r: Result<usize, ()>)
        requires
            old(self).inv(),
        ensures
            final(self).inv(),
            final(self).cap() == old(self).cap(),
            match r {
                Ok(index) => {
                    &&& index == old(self).bytes().len()
                    &&& old(self).bytes().len() + 2 <= old(self).cap()
                    &&& final(self).bytes() == old(self).bytes() + wire::u16_be_bytes(value)
                },
                Err(()) => {
                    &&& old(self).bytes().len() + 2 > old(self).cap()
                    &&& final(self).bytes() == old(self).bytes()
                },
            },
    {
        let bytes = wire::be_u16_vec(value);
        self.push_bytes(bytes.as_slice())
    }

    /// Appends a 32-bit value in network (big-endian) order; same failure
    /// contract as `push_bytes`.
    pub fn push_u32(&mut self, value: u32) -> (r: Result<usize, ()>)
        requires
            old(self).inv(),
        ensures
            final(self).inv(),
            final(self).cap() == old(self).cap(),
            match r {
                Ok(index) => {
                    &&& index == old(self).bytes().len()
                    &&& old(self).bytes().len() + 4 <= old(self).cap()
                    &&& final(self).bytes() == old(self).bytes() + wire::u32_be_bytes(value)
                },
                Err(()) => {
                    &&& old(self).bytes().len() + 4 > old(self).cap()
                    &&& final(self).bytes() == old(self).bytes()
                },
            },
    {
        let bytes = wire::be_u32_vec(value);
        self.push_bytes(bytes.as_slice())
    }

    /// The already-written byte range `[index, index + len)`.
    pub fn get_bytes(&self, index: usize, len: usize) -> (r: &[u8])
        requires
            index + len <= self.bytes().len(),
        ensures
            r@ == self.bytes().subrange(index as int, index + len),
    {
        proof {
            vstd::std_specs::vec::axiom_spec_len(&self.data);
        }
        slice_subrange(self.data.as_slice(), index, index + len)
    }

    /// Overwrites the already-written range starting at `index` with `bytes`,
    /// leaving the length unchanged. This is the backpatch primitive.
    pub fn set_bytes(&mut self, index: usize, bytes: &[u8])
        requires
            old(self).inv(),
            index + bytes@.len() <= old(self).bytes().len(),
        ensures
            final(self).inv(),
            final(self).cap() == old(self).cap(),
            final(self).bytes().len() == old(self).bytes().len(),
            final(self).bytes() == old(self).bytes().subrange(0, index as int) + bytes@
                + old(self).bytes().subrange(
                index + bytes@.len(),
                old(self).bytes().len() as int,
            ),
    {
        let mut i: usize = 0;
        while i < bytes.len()
            invariant
                i <= bytes@.len(),
                index + bytes@.len() <= old(self).data@.len(),
                self.data@.len() == old(self).data@.len(),
                self.capacity == old(self).capacity,
                forall|j: int|
                    0 <= j < old(self).data@.len() && !(index <= j < index + i)
                        ==> self.data@[j] == old(self).data@[j],
                forall|j: int| 0 <= j < i ==> self.data@[index + j] == bytes@[j],
            decreases bytes@.len() - i,
        {
            proof {
                vstd::std_specs::vec::axiom_spec_len(&self.data);
            }
            self.data[index + i] = bytes[i];
            i = i + 1;
        }
        proof {
            assert(self.data@ =~= old(self).data@.subrange(0, index as int) + bytes@
                + old(self).data@.subrange(index + bytes@.len(), old(self).data@.len() as int));
        }
    }

    /// Overwrites the 16-bit field at `index` with `value` in network order;
    /// reading the patched range back yields exactly `value`.
    pub fn set_u16(&mut self, index: usize, value: u16)
        requires
            old(self).inv(),
            index + 2 <= old(self).bytes().len(),
        ensures
            final(self).inv(),
            final(self).cap() == old(self).cap(),
            final(self).bytes().len() == old(self).bytes().len(),
            final(self).bytes() == old(self).bytes().subrange(0, index as int)
                + wire::u16_be_bytes(value) + old(self).bytes().subrange(
                index + 2,
                old(self).bytes().len() as int,
            ),
            wire::read_u16_at(final(self).bytes(), index as int) == value,
    {
        let bytes = wire::be_u16_vec(value);
        self.set_bytes(index, bytes.as_slice());
        proof {
            wire::lemma_u16_be_round_trip(value);
        }
    }

    /// Read-modify-write of the 16-bit field at `index`: decodes it, applies
    /// `f`, and patches the result back in, leaving the length unchanged.
    pub fn update_u16<F: FnOnce(u16) -> u16>(&mut self, index: usize, f: F)
        requires
            old(self).inv(),
            index + 2 <= old(self).bytes().len(),
            call_requires(f, (wire::read_u16_at(old(self).bytes(), index as int),)),
        ensures
            final(self).inv(),
            final(self).cap() == old(self).cap(),
            final(self).bytes().len() == old(self).bytes().len(),
            exists|v: u16|
                {
                    &&& #[trigger] call_ensures(
                        f,
                        (wire::read_u16_at(old(self).bytes(), index as int),),
                        v,
                    )
                    &&& final(self).bytes() == old(self).bytes().subrange(0, index as int)
                        + wire::u16_be_bytes(v) + old(self).bytes().subrange(
                        index + 2,
                        old(self).bytes().len() as int,
                    )
                    &&& wire::read_u16_at(final(self).bytes(), index as int) == v
                },
    {
        let value = wire::be_read_u16(self.get_bytes(index, 2));
        let value = f(value);
        self.set_u16(index, value);
    }
}

/// The serialization capability: a protocol packet type that can report its
/// exact encoded length and write itself, header first, then its wrapped
/// payload, into the shared output buffer, backpatching any header fields it
/// only knows afterwards.
pub trait WriteOut {
    /// The values this layer knows how to encode.
    spec fn wf(&self) -> bool;

    /// The exact bytes this layer (with everything it wraps) writes.
    spec fn encoding(&self) -> Seq<u8>;

    /// The exact number of bytes `write_out` will append.
    fn len(&self) -> (r: usize)
        requires
            self.wf(),
        ensures
            r == self.encoding().len(),
    ;

    /// Appends this layer's encoding to the buffer. It fails only when the
    /// remaining capacity cannot hold the whole encoding; the capacity itself
    /// never changes, and bytes written before the failure stay in place.
    fn write_out(&self, packet: &mut TxPacket) -> (r: Result<(), ()>)
        requires
            self.wf(),
            old(packet).inv(),
        ensures
            final(packet).inv(),
            final(packet).cap() == old(packet).cap(),
            match r {
                Ok(()) => final(packet).bytes() == old(packet).bytes() + self.encoding(),
                Err(()) => old(packet).bytes().len() + self.encoding().len() > old(
                    packet,
                ).cap(),
            },
    ;
}

} // verus!
