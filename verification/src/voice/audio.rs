//! Audio constants and the capture ring buffer.
//!
//! The microphone callback writes samples into a fixed-capacity ring
//! buffer; the main loop reads the most recent samples back out.
use vstd::prelude::*;

verus! {

/// Sample rate of all voice processing (VAD, STT), in Hz.
pub const SAMPLE_RATE: u32 = 16_000;

/// Samples per VAD frame (512 samples at 16 kHz = 32 ms).
pub const VAD_FRAME_SAMPLES: usize = 512;

/// Channels: mono.
pub const CHANNELS: u16 = 1;

/// Seconds of audio the capture ring buffer holds.
pub const CAPTURE_BUFFER_SECS: u32 = 30;

/// Ring buffer capacity for `secs` seconds of audio at `SAMPLE_RATE`.
pub fn capture_capacity(secs: u32) -> (r: usize)
    requires
        secs * SAMPLE_RATE <= usize::MAX,
    ensures
        r == secs * SAMPLE_RATE,
{
    (secs as usize) * (SAMPLE_RATE as usize)
}

/// The last `n` elements of `s` (all of `s` when it is shorter).
pub open spec fn last_n<T>(s: Seq<T>, n: int) -> Seq<T> {
    if s.len() <= n {
        s
    } else {
        s.skip(s.len() - n)
    }
}

/// Ring buffer of audio samples with a fixed capacity.
///
/// The write position advances monotonically; once full, each new sample
/// replaces the oldest one.
pub struct AudioRingBuffer<T> {
    buffer: Vec<T>,
    write_pos: usize,
    capacity: usize,
    /// Total samples written (monotonically increasing).
    total_written: u64,
}

impl<T: Copy> AudioRingBuffer<T> {
    /// The buffer's internal consistency.
    pub closed spec fn wf(&self) -> bool {
        &&& self.buffer@.len() <= self.capacity
        &&& self.buffer@.len() == if self.total_written < self.capacity {
            self.total_written as int
        } else {
            self.capacity as int
        }
        &&& if self.buffer@.len() < self.capacity {
            self.write_pos == self.buffer@.len()
        } else {
            self.capacity == 0 || self.write_pos < self.capacity
        }
        &&& self.capacity == 0 ==> self.write_pos == 0
    }

    /// The samples held, oldest first: the last `capacity` samples written.
    pub closed spec fn contents(&self) -> Seq<T> {
        if self.buffer@.len() < self.capacity {
            self.buffer@
        } else {
            self.buffer@.skip(self.write_pos as int) + self.buffer@.take(self.write_pos as int)
        }
    }

    /// The number of samples the buffer holds at most.
    pub closed spec fn spec_capacity(&self) -> nat {
        self.capacity as nat
    }

    /// The number of samples written since creation.
    pub closed spec fn written(&self) -> nat {
        self.total_written as nat
    }

    proof fn lemma_contents_len(&self)
        requires
            self.wf(),
        ensures
            self.contents().len() == self.buffer@.len(),
            self.contents().len() <= self.capacity,
            self.contents().len() == if self.written() < self.capacity {
                self.written() as int
            } else {
                self.capacity as int
            },
    {
    }

    /// An empty buffer that holds at most `capacity` samples.
    pub fn new(capacity: usize) -> (r: Self)
        ensures
            r.wf(),
            r.contents() == Seq::<T>::empty(),
            r.spec_capacity() == capacity,
            r.written() == 0,
    {
        AudioRingBuffer { buffer: Vec::new(), write_pos: 0, capacity, total_written: 0 }
    }

    /// Appends `samples`; once full, each new sample replaces the oldest.
    pub fn write(&mut self, samples: &[T])
        requires
            old(self).wf(),
            old(self).spec_capacity() > 0 || samples@.len() == 0,
            old(self).written() + samples@.len() <= u64::MAX,
        ensures
            final(self).wf(),
            final(self).contents() == last_n(
                old(self).contents() + samples@,
                old(self).spec_capacity() as int,
            ),
            final(self).spec_capacity() == old(self).spec_capacity(),
            final(self).written() == old(self).written() + samples@.len(),
    {
        let ghost start = self.contents();
        let ghost total0 = self.total_written;
        proof {
            self.lemma_contents_len();
        }
        let mut i: usize = 0;
        while i < samples.len()
            invariant
                i <= samples@.len(),
                self.capacity == old(self).capacity,
                self.total_written == total0,
                total0 == old(self).total_written,
                self.capacity > 0 || samples@.len() == 0,
                self.buffer@.len() <= self.capacity,
                self.buffer@.len() == if total0 + i < self.capacity {
                    total0 + i
                } else {
                    self.capacity as int
                },
                if self.buffer@.len() < self.capacity {
                    self.write_pos == self.buffer@.len()
                } else {
                    self.capacity == 0 || self.write_pos < self.capacity
                },
                self.capacity == 0 ==> self.write_pos == 0,
                self.contents() == last_n(start + samples@.take(i as int), self.capacity as int),
            decreases samples@.len() - i,
        {
            let s = samples[i];
            let ghost before = self.contents();
            let ghost b = self.buffer@;
            let ghost w = self.write_pos as int;
            let ghost cap = self.capacity as int;
            let ghost prefix = start + samples@.take(i as int);
            if self.buffer.len() < self.capacity {
                self.buffer.push(s);
            } else {
                self.buffer.set(self.write_pos, s);
            }
            proof {
                lemma_next_pos(w, cap);
            }
            self.write_pos = (self.write_pos + 1) % self.capacity;
            proof {
                assert(start + samples@.take(i + 1) =~= prefix.push(s));
                lemma_last_n_push(prefix, s, cap);
                if b.len() == cap {
                    lemma_rotate(b, w, s, cap);
                } else {
                    assert(self.contents() =~= before.push(s));
                }
            }
            i = i + 1;
        }
        assert(samples@.take(samples@.len() as int) =~= samples@);
        self.total_written = self.total_written + samples.len() as u64;
    }

    /// The most recent `count` samples, oldest first; fewer when fewer are
    /// held.
    pub fn read_last(&self, count: usize) -> (r: Vec<T>)
        requires
            self.wf(),
        ensures
            r@ == last_n(self.contents(), count as int),
    {
        proof {
            self.lemma_contents_len();
        }
        let available: usize = if self.total_written < self.capacity as u64 {
            self.total_written as usize
        } else {
            self.capacity
        };
        let n = if count < available {
            count
        } else {
            available
        };
        let start = if self.write_pos >= n {
            self.write_pos - n
        } else {
            self.capacity - (n - self.write_pos)
        };
        let ghost c = self.contents();
        let ghost want = last_n(c, count as int);
        assert(want.len() == n);
        let mut out: Vec<T> = Vec::new();
        let mut i: usize = 0;
        while i < n
            invariant
                self.wf(),
                c == self.contents(),
                c.len() == self.buffer@.len(),
                available == self.buffer@.len(),
                n == if count < available {
                    count as int
                } else {
                    available as int
                },
                start == if self.write_pos >= n {
                    self.write_pos - n
                } else {
                    self.capacity - (n - self.write_pos)
                },
                want == last_n(c, count as int),
                want.len() == n,
                i <= n,
                out@ == want.take(i as int),
            decreases n - i,
        {
            let idx = if i < self.capacity - start {
                start + i
            } else {
                i - (self.capacity - start)
            };
            proof {
                let len = self.buffer@.len() as int;
                assert(want[i as int] == c[len - n + i]);
                if len < self.capacity {
                    assert(c == self.buffer@);
                    assert(idx == len - n + i);
                } else {
                    lemma_ring_read(
                        self.buffer@,
                        self.write_pos as int,
                        self.capacity as int,
                        n as int,
                        start as int,
                        i as int,
                        idx as int,
                    );
                }
            }
            out.push(self.buffer[idx]);
            assert(out@ =~= want.take(i + 1));
            i = i + 1;
        }
        assert(out@ =~= want);
        out
    }

    /// The number of samples the buffer holds at most.
    pub fn capacity(&self) -> (r: usize)
        ensures
            r == self.spec_capacity(),
    {
        self.capacity
    }

    /// Total samples written since creation.
    pub fn total_written(&self) -> (r: u64)
        ensures
            r == self.written(),
    {
        self.total_written
    }
}

/// Advancing a write position inside a ring of `cap` slots.
proof fn lemma_next_pos(w: int, cap: int)
    requires
        0 <= w < cap,
    ensures
        (w + 1) % cap == if w + 1 < cap {
            w + 1
        } else {
            0
        },
{
    if w + 1 < cap {
        vstd::arithmetic::div_mod::lemma_small_mod((w + 1) as nat, cap as nat);
    } else {
        vstd::arithmetic::div_mod::lemma_mod_self_0(cap);
    }
}

/// In a full ring, replacing the oldest sample (at the write position) and
/// advancing the write position drops the oldest sample and appends the new.
proof fn lemma_rotate<T>(b: Seq<T>, w: int, s: T, cap: int)
    requires
        cap > 0,
        b.len() == cap,
        0 <= w < cap,
    ensures
        ({
            let b2 = b.update(w, s);
            let w2 = (w + 1) % cap;
            b2.skip(w2) + b2.take(w2)
        }) == last_n((b.skip(w) + b.take(w)).push(s), cap),
{
    let b2 = b.update(w, s);
    let c = b.skip(w) + b.take(w);
    let want = last_n(c.push(s), cap);
    assert(want =~= c.push(s).skip(1));
    lemma_next_pos(w, cap);
    if w + 1 < cap {
        assert(b2.skip(w + 1) + b2.take(w + 1) =~= want);
    } else {
        assert(b2.skip(0) + b2.take(0) =~= want);
    }
}

/// Appending one element then keeping the last `n` is the same as keeping
/// the last `n`, appending, and keeping the last `n` again.
proof fn lemma_last_n_push<T>(x: Seq<T>, s: T, n: int)
    requires
        n >= 0,
    ensures
        last_n(last_n(x, n).push(s), n) == last_n(x.push(s), n),
{
    if x.len() <= n {
    } else {
        assert(last_n(x, n).push(s) =~= x.push(s).skip(x.len() - n));
        assert(last_n(x.push(s).skip(x.len() - n), n) =~= last_n(x.push(s), n));
    }
}

/// Reading position `i` of the last `n` samples of a full ring whose write
/// position is `w` lands on buffer index `idx`.
proof fn lemma_ring_read<T>(b: Seq<T>, w: int, cap: int, n: int, start: int, i: int, idx: int)
    requires
        cap > 0,
        b.len() == cap,
        0 <= w < cap,
        0 <= n <= cap,
        0 <= i < n,
        start == if w >= n {
            w - n
        } else {
            cap - (n - w)
        },
        idx == if i < cap - start {
            start + i
        } else {
            i - (cap - start)
        },
    ensures
        0 <= idx < cap,
        (b.skip(w) + b.take(w))[cap - n + i] == b[idx],
{
    let c = b.skip(w) + b.take(w);
    let k = cap - n + i;
    if k < cap - w {
        assert(c[k] == b[w + k]);
    } else {
        assert(c[k] == b[k - (cap - w)]);
    }
}

/// What is read back right after a write of at least `n` samples, `n`
/// within the capacity, is the last `n` samples of that write: nothing older
/// shows through.
pub proof fn law_read_after_write<T>(held: Seq<T>, written: Seq<T>, capacity: int, n: int)
    requires
        0 <= n <= capacity,
        n <= written.len(),
    ensures
        last_n(last_n(held + written, capacity), n) == last_n(written, n),
{
    let all = held + written;
    let kept = last_n(all, capacity);
    assert(last_n(kept, n) =~= last_n(all, n));
    assert(last_n(all, n) =~= last_n(written, n));
}

/// All the samples of the writes `ws`, in write order.
pub open spec fn concat_writes<T>(ws: Seq<Seq<T>>) -> Seq<T>
    decreases ws.len(),
{
    if ws.len() == 0 {
        Seq::empty()
    } else {
        concat_writes(ws.drop_last()) + ws.last()
    }
}

/// What a buffer of capacity `capacity` holds after the writes `ws`,
/// starting empty, each write keeping the last `capacity` samples (as
/// `AudioRingBuffer::write` states).
pub open spec fn after_writes<T>(capacity: int, ws: Seq<Seq<T>>) -> Seq<T>
    decreases ws.len(),
{
    if ws.len() == 0 {
        Seq::empty()
    } else {
        last_n(after_writes(capacity, ws.drop_last()) + ws.last(), capacity)
    }
}

/// Keeping the last `c` samples before appending changes nothing about the
/// last `c` samples after.
proof fn lemma_last_n_append<T>(x: Seq<T>, w: Seq<T>, c: int)
    requires
        c >= 0,
    ensures
        last_n(last_n(x, c) + w, c) == last_n(x + w, c),
{
    if x.len() > c {
        let y = last_n(x, c) + w;
        assert(last_n(y, c) =~= last_n(x + w, c));
    }
}

/// However the samples are split into writes, a buffer of capacity
/// `capacity` holds the last `capacity` samples written, in write order,
/// and reading the last `k` gives the last `min(k, capacity)` of them.
pub proof fn law_writes_keep_latest<T>(capacity: int, ws: Seq<Seq<T>>, k: int)
    requires
        capacity >= 0,
        k >= 0,
    ensures
        after_writes(capacity, ws) == last_n(concat_writes(ws), capacity),
        last_n(after_writes(capacity, ws), k) == last_n(
            concat_writes(ws),
            if k < capacity {
                k
            } else {
                capacity
            },
        ),
    decreases ws.len(),
{
    if ws.len() > 0 {
        law_writes_keep_latest(capacity, ws.drop_last(), k);
        lemma_last_n_append(concat_writes(ws.drop_last()), ws.last(), capacity);
    }
    let all = concat_writes(ws);
    if k < capacity {
        assert(last_n(last_n(all, capacity), k) =~= last_n(all, k));
    } else {
        assert(last_n(last_n(all, capacity), k) =~= last_n(all, capacity));
    }
}

} // verus!
