//! The frequency bands that the visualiser reads out of a spectrum.

use vstd::prelude::*;

verus! {

/// The number of samples in one analysis frame, which is the length of the
/// transform that turns a frame into a spectrum.
pub const FRAME_LEN: usize = 1024;

/// The number of spectrum bins that the shaders are given room for.
pub const SPECTRUM_BINS: usize = 512;

/// The number of bytes that one spectrum bin takes on the GPU.
pub const BYTES_PER_BIN: u64 = 4;

/// The three bands that drive the picture.
#[derive(Clone, Copy, PartialEq, Eq, Debug, Structural)]
pub enum Band {
    Bass,
    Mid,
    High,
}

/// First bin of a band.
pub open spec fn band_start(band: Band) -> nat {
    match band {
        Band::Bass => 0,
        Band::Mid => 5,
        Band::High => 50,
    }
}

/// One past the last bin of a band.
pub open spec fn band_end(band: Band) -> nat {
    match band {
        Band::Bass => 5,
        Band::Mid => 50,
        Band::High => 200,
    }
}

/// The number of bins that every band lies within.
pub open spec fn bands_end() -> nat {
    band_end(Band::High)
}

impl Band {
    /// First bin of the band.
    pub fn start(self) -> (s: usize)
        ensures
            s == band_start(self),
    {
        match self {
            Band::Bass => 0,
            Band::Mid => 5,
            Band::High => 50,
        }
    }

    /// One past the last bin of the band.
    pub fn end(self) -> (e: usize)
        ensures
            e == band_end(self),
    {
        match self {
            Band::Bass => 5,
            Band::Mid => 50,
            Band::High => 200,
        }
    }

    /// The number of bins in the band, by which their sum is divided to
    /// give the band's level.
    pub fn width(self) -> (w: usize)
        ensures
            w == band_end(self) - band_start(self),
            w > 0,
    {
        self.end() - self.start()
    }
}

/// Whether a spectrum of `len` bins reaches far enough for every band.
pub fn covers_bands(len: usize) -> (b: bool)
    ensures
        b == (len >= bands_end()),
{
    len >= Band::High.end()
}

/// The bins of `spectrum` that belong to `band`, in order.
pub fn band_bins<T: Copy>(spectrum: &[T], band: Band) -> (bins: Vec<T>)
    requires
        spectrum@.len() >= bands_end(),
    ensures
        bins@ == spectrum@.subrange(band_start(band) as int, band_end(band) as int),
{
    let start = band.start();
    let end = band.end();
    let mut bins: Vec<T> = Vec::new();
    let mut i = start;
    while i < end
        invariant
            start <= i <= end,
            end <= spectrum@.len(),
            start == band_start(band),
            end == band_end(band),
            bins@ == spectrum@.subrange(start as int, i as int),
        decreases end - i,
    {
        bins.push(spectrum[i]);
        i = i + 1;
        assert(bins@ =~= spectrum@.subrange(start as int, i as int));
    }
    bins
}

/// The size in bytes of the GPU buffer that holds a spectrum.
pub fn spectrum_buffer_bytes() -> (n: u64)
    ensures
        n == SPECTRUM_BINS * BYTES_PER_BIN,
{
    SPECTRUM_BINS as u64 * BYTES_PER_BIN
}

/// The bands lie side by side from the first bin on: each starts where the
/// one below it ends, none is empty, and together they cover the bins
/// `0 .. bands_end()` exactly once.
pub proof fn lemma_bands_partition(bin: nat)
    requires
        bin < bands_end(),
    ensures
        band_start(Band::Bass) == 0,
        band_start(Band::Mid) == 5,
        band_start(Band::High) == 50,
        band_end(Band::High) == 200,
        band_end(Band::Bass) == band_start(Band::Mid),
        band_end(Band::Mid) == band_start(Band::High),
        forall|b: Band| band_start(b) < #[trigger] band_end(b),
        exists|b: Band| band_start(b) <= bin < #[trigger] band_end(b),
        forall|b1: Band, b2: Band|
            band_start(b1) <= bin < #[trigger] band_end(b1) && band_start(b2) <= bin
                < #[trigger] band_end(b2) ==> b1 == b2,
{
    if bin < 5 {
        assert(band_start(Band::Bass) <= bin < band_end(Band::Bass));
    } else if bin < 50 {
        assert(band_start(Band::Mid) <= bin < band_end(Band::Mid));
    } else {
        assert(band_start(Band::High) <= bin < band_end(Band::High));
    }
}

} // verus!
