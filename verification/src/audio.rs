//! The window of sound that drives the map.
//!
//! Every frame on its way to the output device is copied into a ring of the
//! most recent ones. The bands are read off a transform of that ring. Samples
//! are single-precision numbers; here they are only moved about, so they are
//! carried as their bit patterns.
use vstd::prelude::*;

verus! {

/// Number of frequency bands, and of building layers on the map.
pub const BINS: usize = 16;

/// Length of the window the bands are read from, in frames.
pub const WINDOW: usize = 1024;

/// A window of silence.
pub open spec fn silence() -> Seq<u32> {
    Seq::new(WINDOW as nat, |i: int| 0u32)
}

/// Ring of the most recent mono frames.
#[derive(Debug)]
pub struct Spectrum {
    pub samples: Vec<u32>,
    pub write: usize,
}

impl View for Spectrum {
    type V = Seq<u32>;

    /// The window in chronological order, oldest first.
    open spec fn view(&self) -> Seq<u32> {
        self.samples@.skip(self.write as int) + self.samples@.take(self.write as int)
    }
}

impl Spectrum {
    /// Whether the ring is whole and written to inside it.
    pub open spec fn valid(&self) -> bool {
        self.samples@.len() == WINDOW && self.write < WINDOW
    }

    /// A ring of silence.
    pub fn new() -> (r: Spectrum)
        ensures
            r.valid(),
            r@ == silence(),
    {
        let samples: Vec<u32> = vec![0u32; WINDOW];
        let r = Spectrum { samples, write: 0 };
        proof {
            assert(r@ =~= silence());
        }
        r
    }

    /// Takes one frame in, in place of the oldest.
    pub fn push(&mut self, sample: u32)
        requires
            old(self).valid(),
        ensures
            final(self).valid(),
            final(self)@ == old(self)@.drop_first().push(sample),
    {
        let write: usize = self.write;
        self.samples.set(write, sample);
        self.write = (write + 1) % WINDOW;
        proof {
            assert(self@ =~= old(self)@.drop_first().push(sample));
        }
    }

    /// Copies the window out in chronological order, oldest first.
    pub fn snapshot(&self) -> (r: Vec<u32>)
        requires
            self.valid(),
        ensures
            r@ == self@,
            r@.len() == WINDOW,
    {
        let mut out: Vec<u32> = Vec::new();
        let mut index: usize = self.write;
        while index < WINDOW
            invariant
                self.valid(),
                self.write <= index <= WINDOW,
                out@ == self.samples@.subrange(self.write as int, index as int),
            decreases WINDOW - index,
        {
            out.push(self.samples[index]);
            index = index + 1;
            proof {
                assert(out@ =~= self.samples@.subrange(self.write as int, index as int));
            }
        }
        let mut index: usize = 0;
        proof {
            assert(out@ =~= self.samples@.skip(self.write as int) + self.samples@.take(0));
        }
        while index < self.write
            invariant
                self.valid(),
                index <= self.write,
                out@ == self.samples@.skip(self.write as int) + self.samples@.take(index as int),
            decreases self.write - index,
        {
            out.push(self.samples[index]);
            index = index + 1;
            proof {
                assert(out@ =~= self.samples@.skip(self.write as int) + self.samples@.take(
                    index as int,
                ));
            }
        }
        out
    }

    /// Forgets everything that was heard.
    pub fn clear(&mut self)
        requires
            old(self).valid(),
        ensures
            final(self).valid(),
            final(self)@ == silence(),
    {
        self.samples = vec![0u32; WINDOW];
        self.write = 0;
        proof {
            assert(self@ =~= silence());
        }
    }
}

/// The window after a run of frames has been pushed onto silence.
pub open spec fn heard(frames: Seq<u32>) -> Seq<u32>
    decreases frames.len(),
{
    if frames.len() == 0 {
        silence()
    } else {
        heard(frames.drop_last()).drop_first().push(frames.last())
    }
}

/// The window always holds the newest frames in the order they came, with
/// silence before them while fewer than a window's worth have.
pub proof fn the_window_holds_the_newest_frames(frames: Seq<u32>)
    ensures
        heard(frames) == (silence() + frames).skip(frames.len() as int),
        heard(frames).len() == WINDOW,
        frames.len() >= WINDOW ==> heard(frames) == frames.skip(frames.len() - WINDOW),
    decreases frames.len(),
{
    if frames.len() > 0 {
        the_window_holds_the_newest_frames(frames.drop_last());
    }
    assert(heard(frames) =~= (silence() + frames).skip(frames.len() as int));
    if frames.len() >= WINDOW {
        assert(heard(frames) =~= frames.skip(frames.len() - WINDOW));
    }
}

/// Gathers interleaved samples into mono frames.
#[derive(Debug)]
pub struct Tap {
    /// How many samples of the frame at hand have come.
    pub frame_len: u16,
}

impl Tap {
    /// Whether there is room to count one more sample.
    pub open spec fn valid(&self) -> bool {
        self.frame_len < u16::MAX
    }

    /// A tap at the start of a frame.
    pub fn new() -> (r: Tap)
        ensures
            r.valid(),
            r.frame_len == 0,
    {
        Tap { frame_len: 0 }
    }

    /// Counts one sample of a source with this many channels. Where it
    /// completes a frame, returns how many samples the frame has, which is what
    /// their sum is divided by.
    pub fn next(&mut self, channels: u16) -> (r: Option<u16>)
        requires
            old(self).valid(),
            channels > 0,
        ensures
            final(self).valid(),
            r == if old(self).frame_len + 1 >= channels {
                Some((old(self).frame_len + 1) as u16)
            } else {
                None
            },
            final(self).frame_len == if old(self).frame_len + 1 >= channels {
                0
            } else {
                old(self).frame_len + 1
            },
    {
        self.frame_len = self.frame_len + 1;
        if self.frame_len >= channels {
            let len: u16 = self.frame_len;
            self.frame_len = 0;
            Some(len)
        } else {
            None
        }
    }
}

/// How many frames are complete, and how far into the next one the tap is,
/// after a number of samples of a source whose channels do not change.
pub open spec fn tapped(samples: nat, channels: nat) -> (nat, nat)
    decreases samples,
{
    if samples == 0 {
        (0, 0)
    } else {
        let (frames, len) = tapped((samples - 1) as nat, channels);
        if len + 1 >= channels {
            (frames + 1, 0)
        } else {
            (frames, len + 1)
        }
    }
}

/// One frame is pushed for every `channels` samples, and no sample is left out
/// of the frame it belongs to.
pub proof fn a_frame_is_a_sample_of_each_channel(samples: nat, channels: nat)
    requires
        channels > 0,
    ensures
        ({
            let (frames, len) = tapped(samples, channels);
            &&& samples == frames * channels + len
            &&& len < channels
        }),
    decreases samples,
{
    if samples > 0 {
        a_frame_is_a_sample_of_each_channel((samples - 1) as nat, channels);
        let (frames, len) = tapped((samples - 1) as nat, channels);
        assert((frames + 1) * channels == frames * channels + channels) by (nonlinear_arith);
    }
}

/// How many of the transform's bins one band takes up.
pub const BINS_PER_BAND: usize = 32;

/// The bins of the transform a band is averaged over: from the first up to, and
/// not counting, the second.
pub fn band_bins(band: usize) -> (r: (usize, usize))
    requires
        band < BINS,
    ensures
        r.0 == band * (WINDOW as int / 2 / BINS as int),
        r.1 == (band + 1) * (WINDOW as int / 2 / BINS as int),
{
    (band * BINS_PER_BAND, (band + 1) * BINS_PER_BAND)
}

/// The bands take up the lower half of the transform, each bin in exactly one
/// of them.
pub proof fn every_bin_is_in_one_band(bin: int)
    requires
        0 <= bin < WINDOW as int / 2,
    ensures
        exists|band: int|
            0 <= band < BINS && #[trigger] (band * BINS_PER_BAND) <= bin < (band + 1)
                * BINS_PER_BAND,
        forall|a: int, b: int|
            #[trigger] (a * BINS_PER_BAND) <= bin < (a + 1) * BINS_PER_BAND && #[trigger] (b
                * BINS_PER_BAND) <= bin < (b + 1) * BINS_PER_BAND ==> a == b,
        BINS * BINS_PER_BAND == WINDOW as int / 2,
{
    let band = bin / BINS_PER_BAND as int;
    assert(band * BINS_PER_BAND <= bin < (band + 1) * BINS_PER_BAND);
}

/// Silence is a window of zeros.
pub proof fn silence_is_a_window_of_zeros(i: int)
    requires
        0 <= i < 1024,
    ensures
        silence().len() == 1024,
        silence()[i] == 0,
{
}

/// A frame that is heard is the newest in the window, and moves every other one
/// towards the oldest by one place.
pub proof fn a_frame_moves_the_window_on(frames: Seq<u32>, frame: u32, i: int)
    requires
        0 <= i < 1023,
    ensures
        heard(Seq::empty()) == silence(),
        heard(frames.push(frame)).len() == 1024,
        heard(frames.push(frame))[1023] == frame,
        heard(frames.push(frame))[i] == heard(frames)[i + 1],
{
    the_window_holds_the_newest_frames(frames);
    assert(frames.push(frame).drop_last() =~= frames);
}

/// The ring is read from the oldest frame on: what stands at the place to be
/// written next is the oldest, and what was written last is the newest.
pub proof fn the_ring_is_read_from_the_oldest(spectrum: Spectrum, i: int)
    requires
        spectrum.valid(),
        0 <= i < 1024,
    ensures
        spectrum.samples@.len() == 1024,
        spectrum@.len() == 1024,
        spectrum.write + i < 1024 ==> spectrum@[i] == spectrum.samples@[spectrum.write + i],
        spectrum.write + i >= 1024 ==> spectrum@[i] == spectrum.samples@[spectrum.write + i - 1024],
{
}

} // verus!
