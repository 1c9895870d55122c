//! Serial console device: keeps everything the guest wrote.
use vstd::prelude::*;

verus! {

/// A serial port that records guest output.
pub struct SerialPort {
    buffer: Vec<u8>,
}

impl SerialPort {
    /// Everything the guest has written so far.
    pub closed spec fn spec_buffer(&self) -> Seq<u8> {
        self.buffer@
    }

    /// A port with an empty buffer.
    pub fn new() -> (p: Self)
        ensures
            p.spec_buffer() == Seq::<u8>::empty(),
    {
        SerialPort { buffer: Vec::new() }
    }

    /// Records `data` written by the guest (the host echoes it to its own output).
    pub fn write(&mut self, data: &[u8])
        ensures
            final(self).spec_buffer() == old(self).spec_buffer() + data@,
    {
        let mut i: usize = 0;
        while i < data.len()
            invariant
                i <= data.len(),
                self.spec_buffer() == old(self).spec_buffer() + data@.take(i as int),
            decreases data.len() - i,
        {
            self.buffer.push(data[i]);
            i = i + 1;
            assert(data@.take(i as int) == data@.take((i - 1) as int).push(data@[i - 1]));
        }
        assert(data@.take(data.len() as int) == data@);
    }

    /// A copy of the buffer.
    pub fn buffer_snapshot(&self) -> (v: Vec<u8>)
        ensures
            v@ == self.spec_buffer(),
    {
        self.buffer.clone()
    }
}

/// The bytes of `writes`, one write after another.
pub open spec fn concat_writes(writes: Seq<Seq<u8>>) -> Seq<u8>
    decreases writes.len(),
{
    if writes.len() == 0 {
        Seq::empty()
    } else {
        concat_writes(writes.drop_last()) + writes.last()
    }
}

/// Over any number of writes the buffer keeps every byte in order: when each buffer in
/// `buffers` is the one before it after a `write` of the matching entry of `writes` (as
/// `write` ensures), the last buffer is the first followed by all the writes.
pub proof fn law_serial_keeps_all_writes(buffers: Seq<Seq<u8>>, writes: Seq<Seq<u8>>)
    requires
        buffers.len() == writes.len() + 1,
        forall|i: int| 0 <= i < writes.len() ==> #[trigger] buffers[i + 1] == buffers[i] + writes[i],
    ensures
        buffers.last() == buffers[0] + concat_writes(writes),
    decreases writes.len(),
{
    if writes.len() == 0 {
        assert(buffers[0] + concat_writes(writes) =~= buffers[0]);
    } else {
        let n = writes.len() as int;
        let bs = buffers.drop_last();
        let ws = writes.drop_last();
        assert forall|i: int| 0 <= i < ws.len() implies #[trigger] bs[i + 1] == bs[i] + ws[i] by {
            assert(buffers[i + 1] == buffers[i] + writes[i]);
        }
        law_serial_keeps_all_writes(bs, ws);
        assert(buffers[n] == buffers[n - 1] + writes[n - 1]);
        assert(buffers.last() =~= buffers[0] + (concat_writes(ws) + writes.last()));
    }
}

impl Default for SerialPort {
    fn default() -> (p: Self)
        ensures
            p.spec_buffer() == Seq::<u8>::empty(),
    {
        Self::new()
    }
}

} // verus!
