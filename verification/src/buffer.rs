//! Fixed-capacity block of interleaved multichannel samples.
//!
//! A block is filled once (up to `block_size` frames of `channels` samples
//! each) and then drained one sample at a time through a read cursor.  The
//! storage is allocated once with the block's capacity, so an audio thread
//! never has to allocate while the block stays within it.

use vstd::prelude::*;
use vstd::std_specs::iter::IteratorSpec;

verus! {

/// Contiguous audio block buffer managing multichannel sample storage.
pub struct BlockBuffer<T> {
    data: Vec<T>,
    read_index: usize,
    block_size: u16,
    channels: u16,
}

impl<T> BlockBuffer<T> {
    /// The samples written into the block since it was created or cleared,
    /// interleaved by channel.
    pub closed spec fn samples(&self) -> Seq<T> {
        self.data@
    }

    /// Index of the next sample that `pop` hands out.
    pub closed spec fn cursor(&self) -> nat {
        self.read_index as nat
    }

    /// Number of frames the block holds when full.
    pub closed spec fn block_frames(&self) -> nat {
        self.block_size as nat
    }

    /// Number of interleaved channels of a frame.
    pub closed spec fn channel_count(&self) -> nat {
        self.channels as nat
    }

    /// Number of samples the block holds when full.
    pub open spec fn sample_capacity(&self) -> nat {
        self.block_frames() * self.channel_count()
    }

    /// The samples written but not read yet.
    pub open spec fn unread(&self) -> Seq<T> {
        self.samples().subrange(self.cursor() as int, self.samples().len() as int)
    }

    /// Well-formedness: at least one channel, a capacity that fits the
    /// 16-bit size arithmetic, never more samples than the capacity, and a
    /// cursor that never passes the written samples.
    pub open spec fn wf(&self) -> bool {
        &&& self.channel_count() > 0
        &&& self.sample_capacity() <= u16::MAX
        &&& self.samples().len() <= self.sample_capacity()
        &&& self.cursor() <= self.samples().len()
    }

    /// Creates an empty block of `block_size` frames of `channels` samples.
    pub fn new(block_size: u16, channels: u16) -> (buf: Self)
        requires
            channels > 0,
            block_size * channels <= u16::MAX,
        ensures
            buf.wf(),
            buf.samples() == Seq::<T>::empty(),
            buf.cursor() == 0,
            buf.block_frames() == block_size,
            buf.channel_count() == channels,
    {
        let capacity: u16 = block_size * channels;
        BlockBuffer { data: Vec::with_capacity(capacity as usize), read_index: 0, block_size, channels }
    }

    /// Number of complete frames written into the block.
    pub fn frames_count(&self) -> (n: usize)
        requires
            self.wf(),
        ensures
            n == self.samples().len() / self.channel_count(),
    {
        self.data.len() / (self.channels as usize)
    }

    /// Number of samples the block holds when full.
    pub fn capacity(&self) -> (n: usize)
        requires
            self.wf(),
        ensures
            n == self.sample_capacity(),
    {
        let capacity: u16 = self.block_size * self.channels;
        capacity as usize
    }

    /// Index of the next sample to be read.
    pub fn read_index(&self) -> (i: usize)
        ensures
            i == self.cursor(),
    {
        self.read_index
    }

    /// Number of interleaved channels.
    pub fn channels(&self) -> (c: u16)
        ensures
            c == self.channel_count(),
    {
        self.channels
    }

    /// The written samples, interleaved by channel.
    pub fn as_slice(&self) -> (s: &[T])
        ensures
            s@ == self.samples(),
    {
        self.data.as_slice()
    }

    /// The written samples, for in-place processing; whatever is written
    /// through the slice becomes the block's samples.
    pub fn as_mut_slice(&mut self) -> (s: &mut [T])
        requires
            old(self).wf(),
        ensures
            s@ == old(self).samples(),
            final(self).samples() == final(s)@,
            final(self).cursor() == old(self).cursor(),
            final(self).block_frames() == old(self).block_frames(),
            final(self).channel_count() == old(self).channel_count(),
    {
        self.data.as_mut_slice()
    }

    /// Appends one sample to the block.
    pub fn push(&mut self, sample: T)
        requires
            old(self).wf(),
            old(self).samples().len() < old(self).sample_capacity(),
        ensures
            final(self).wf(),
            final(self).samples() == old(self).samples().push(sample),
            final(self).cursor() == old(self).cursor(),
            final(self).block_frames() == old(self).block_frames(),
            final(self).channel_count() == old(self).channel_count(),
    {
        self.data.push(sample);
    }

    /// Empties the block and rewinds the read cursor.
    pub fn clear(&mut self)
        requires
            old(self).wf(),
        ensures
            final(self).wf(),
            final(self).samples() == Seq::<T>::empty(),
            final(self).cursor() == 0,
            final(self).block_frames() == old(self).block_frames(),
            final(self).channel_count() == old(self).channel_count(),
    {
        self.data.clear();
        self.read_index = 0;
    }

    /// Whether every written sample has been read.
    pub fn is_exhausted(&self) -> (b: bool)
        ensures
            b == (self.cursor() >= self.samples().len()),
    {
        self.read_index >= self.data.len()
    }

    /// Whether no sample has been written.
    pub fn is_empty(&self) -> (b: bool)
        ensures
            b == (self.samples().len() == 0),
    {
        self.data.len() == 0
    }
}

impl<T: Copy> BlockBuffer<T> {
    /// Reads the sample under the cursor and advances the cursor.
    pub fn pop(&mut self) -> (sample: T)
        requires
            old(self).wf(),
            old(self).cursor() < old(self).samples().len(),
        ensures
            final(self).wf(),
            sample == old(self).samples()[old(self).cursor() as int],
            sample == old(self).unread()[0],
            final(self).unread() == old(self).unread().drop_first(),
            final(self).cursor() == old(self).cursor() + 1,
            final(self).samples() == old(self).samples(),
            final(self).block_frames() == old(self).block_frames(),
            final(self).channel_count() == old(self).channel_count(),
    {
        let sample = self.data[self.read_index];
        self.read_index = self.read_index + 1;
        sample
    }

    /// Pulls samples from `iter` into the block until it holds as many
    /// samples as its capacity or the iterator runs dry.
    pub fn fill_from_iter<I: Iterator<Item = T>>(&mut self, iter: &mut I)
        requires
            old(self).wf(),
            (*old(iter)).obeys_prophetic_iter_laws() ==> old(self).samples().len() + min_nat(
                old(self).sample_capacity(),
                (*old(iter)).remaining().len(),
            ) <= old(self).sample_capacity(),
            !(*old(iter)).obeys_prophetic_iter_laws() ==> old(self).samples().len() == 0,
        ensures
            final(self).wf(),
            final(self).cursor() == old(self).cursor(),
            final(self).block_frames() == old(self).block_frames(),
            final(self).channel_count() == old(self).channel_count(),
            final(self).samples().len() >= old(self).samples().len(),
            final(self).samples().subrange(0, old(self).samples().len() as int) == old(
                self,
            ).samples(),
            (*final(iter)).obeys_prophetic_iter_laws() == (*old(iter)).obeys_prophetic_iter_laws(),
            (*old(iter)).obeys_prophetic_iter_laws() ==> ({
                let taken = min_nat(old(self).sample_capacity(), (*old(iter)).remaining().len());
                &&& final(self).samples() == old(self).samples() + (*old(iter)).remaining().take(
                    taken as int,
                )
                &&& (*final(iter)).remaining() == (*old(iter)).remaining().skip(taken as int)
            }),
    {
        let cap = self.capacity();
        let ghost start = self.data@;
        let ghost rem = (*iter).remaining();
        let ghost obeys = (*iter).obeys_prophetic_iter_laws();
        let mut count: usize = 0;
        while count < cap
            invariant
                self.wf(),
                cap == self.sample_capacity(),
                count <= cap,
                self.cursor() == old(self).cursor(),
                self.block_frames() == old(self).block_frames(),
                self.channel_count() == old(self).channel_count(),
                start == old(self).samples(),
                rem == (*old(iter)).remaining(),
                obeys == (*old(iter)).obeys_prophetic_iter_laws(),
                (*iter).obeys_prophetic_iter_laws() == obeys,
                self.samples().len() == start.len() + count,
                self.samples().subrange(0, start.len() as int) == start,
                obeys ==> count <= rem.len(),
                obeys ==> start.len() + min_nat(cap as nat, rem.len()) <= cap,
                !obeys ==> start.len() == 0,
                obeys ==> self.samples() == start + rem.take(count as int),
                obeys ==> (*iter).remaining() == rem.skip(count as int),
            decreases cap - count,
        {
            match iter.next() {
                Some(sample) => {
                    proof {
                        if obeys {
                            assert(rem.skip(count as int).len() > 0);
                            assert(count < rem.len());
                            assert(rem.take(count as int).push(rem[count as int]) =~= rem.take(
                                count as int + 1,
                            ));
                            assert(rem.skip(count as int).drop_first() =~= rem.skip(
                                count as int + 1,
                            ));
                        }
                    }
                    self.push(sample);
                    count = count + 1;
                    proof {
                        if obeys {
                            assert(self.samples() =~= start + rem.take(count as int));
                        }
                        assert(self.samples().subrange(0, start.len() as int) =~= start);
                    }
                },
                None => {
                    proof {
                        if obeys {
                            assert(count == rem.len());
                            assert(min_nat(cap as nat, rem.len()) == count);
                        }
                    }
                    return ;
                },
            }
        }
        proof {
            if obeys {
                assert(min_nat(cap as nat, rem.len()) == count);
            }
        }
    }
}

/// A well-formed block never holds more complete frames than its block
/// size, and its complete frames never hold more samples than were written.
pub proof fn lemma_frames_within_block<T>(b: BlockBuffer<T>)
    requires
        b.wf(),
    ensures
        b.samples().len() / b.channel_count() <= b.block_frames(),
        (b.samples().len() / b.channel_count()) * b.channel_count() <= b.samples().len(),
{
    let len = b.samples().len() as int;
    let ch = b.channel_count() as int;
    let frames = b.block_frames() as int;
    assert(len / ch <= frames) by (nonlinear_arith)
        requires
            0 <= len <= frames * ch,
            ch > 0,
            frames >= 0,
    ;
    assert((len / ch) * ch <= len) by (nonlinear_arith)
        requires
            0 <= len,
            ch > 0,
    ;
}

/// A pushed sample is read after every sample that was still unread: the
/// block behaves as a first-in first-out queue between a `push` and the
/// `pop`s that follow.
pub proof fn lemma_push_reads_back<T>(before: BlockBuffer<T>, after: BlockBuffer<T>, sample: T)
    requires
        before.wf(),
        after.samples() == before.samples().push(sample),
        after.cursor() == before.cursor(),
    ensures
        after.unread() == before.unread().push(sample),
{
    assert(after.unread() =~= before.unread().push(sample));
}

/// The smaller of two natural numbers.
pub open spec fn min_nat(a: nat, b: nat) -> nat {
    if a <= b {
        a
    } else {
        b
    }
}

} // verus!
