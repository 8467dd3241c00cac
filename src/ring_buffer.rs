use vstd::prelude::*;

verus! {

/// The number of bytes the buffer holds when it is full: of its 256 slots one
/// is always kept free, to tell a full buffer from an empty one.
pub const BUFFER_CAPACITY: usize = 255;

/// A fixed-capacity single-producer/single-consumer byte queue: the receive
/// interrupt pushes, the main loop pops.
pub struct UARTBuffer {
    buffer: [u8; 256],
    pos_in: u8,
    pos_out: u8,
}

/// The queue after a push: the byte is appended unless the queue is full.
pub open spec fn push_model(q: Seq<u8>, byte: u8) -> (Seq<u8>, bool) {
    if q.len() >= BUFFER_CAPACITY {
        (q, false)
    } else {
        (q.push(byte), true)
    }
}

/// The queue after a pop, and the byte popped: the oldest byte, if any.
pub open spec fn pop_model(q: Seq<u8>) -> (Seq<u8>, Option<u8>) {
    if q.len() == 0 {
        (q, None)
    } else {
        (q.drop_first(), Some(q[0]))
    }
}

/// Runs a sequence of operations on an empty queue: `Some(b)` pushes `b`,
/// `None` pops. Returns the queue left over, the bytes that pops returned, and
/// the bytes that pushes accepted, each in order.
pub open spec fn replay(ops: Seq<Option<u8>>) -> (Seq<u8>, Seq<u8>, Seq<u8>)
    decreases ops.len(),
{
    if ops.len() == 0 {
        (seq![], seq![], seq![])
    } else {
        let (q, popped, accepted) = replay(ops.drop_last());
        match ops.last() {
            Some(b) => {
                let (q2, ok) = push_model(q, b);
                (q2, popped, if ok { accepted.push(b) } else { accepted })
            },
            None => {
                let (q2, out) = pop_model(q);
                (q2, if let Some(x) = out { popped.push(x) } else { popped }, accepted)
            },
        }
    }
}

/// Bytes leave the buffer in the order in which they were accepted: after any
/// interleaving of pushes and pops from empty, the bytes popped, followed by
/// those still pending, are exactly the bytes that pushes accepted.
pub proof fn lemma_fifo_order(ops: Seq<Option<u8>>)
    ensures
        replay(ops).1 + replay(ops).0 == replay(ops).2,
        replay(ops).0.len() <= BUFFER_CAPACITY,
    decreases ops.len(),
{
    if ops.len() == 0 {
        assert(replay(ops).1 + replay(ops).0 =~= replay(ops).2);
    } else {
        lemma_fifo_order(ops.drop_last());
        let (q, popped, accepted) = replay(ops.drop_last());
        match ops.last() {
            Some(b) => {
                if q.len() < BUFFER_CAPACITY {
                    assert(popped + q.push(b) =~= (popped + q).push(b));
                }
            },
            None => {
                if q.len() > 0 {
                    assert(popped.push(q[0]) + q.drop_first() =~= popped + q);
                }
            },
        }
    }
}

impl View for UARTBuffer {
    type V = Seq<u8>;

    /// The pending bytes, oldest first.
    closed spec fn view(&self) -> Seq<u8> {
        let len = (self.pos_in as int - self.pos_out as int) % 256;
        Seq::new(len as nat, |i: int| self.buffer[(self.pos_out as int + i) % 256])
    }
}

impl UARTBuffer {
    /// Creates an empty buffer
    pub fn new() -> (r: Self)
        ensures
            r@ == Seq::<u8>::empty(),
    {
        let r = UARTBuffer { buffer: [0u8; 256], pos_in: 0, pos_out: 0 };
        assert(r@ =~= Seq::<u8>::empty());
        r
    }

    /// The number of pending bytes
    pub fn available(&self) -> (r: u8)
        ensures
            r as nat == self@.len(),
    {
        self.pos_in.wrapping_sub(self.pos_out)
    }

    /// Appends a byte; returns false and drops the byte if the buffer is full
    pub fn push(&mut self, byte: u8) -> (r: bool)
        ensures
            (final(self)@, r) == push_model(old(self)@, byte),
    {
        if self.pos_in.wrapping_add(1) == self.pos_out {
            false
        } else {
            let ghost q = self@;
            self.buffer[self.pos_in as usize] = byte;
            self.pos_in = self.pos_in.wrapping_add(1);
            assert(self@ =~= q.push(byte));
            true
        }
    }

    /// Removes and returns the oldest pending byte, if any
    pub fn pop(&mut self) -> (r: Option<u8>)
        ensures
            (final(self)@, r) == pop_model(old(self)@),
    {
        if self.pos_in == self.pos_out {
            return None;
        }
        let ghost q = self@;
        let b = self.buffer[self.pos_out as usize];
        self.pos_out = self.pos_out.wrapping_add(1);
        assert(self@ =~= q.drop_first());
        Some(b)
    }
}

} // verus!
