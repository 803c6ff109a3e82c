use vstd::prelude::*;

verus! {

/// FFT window function type.
#[derive(Debug, Clone, Copy, PartialEq, Eq, Structural)]
pub enum WindowType {
    Hann,
    Hamming,
    BlackmanHarris,
}

impl Default for WindowType {
    fn default() -> (r: Self)
        ensures
            r == WindowType::Hann,
    {
        WindowType::Hann
    }
}

/// How to merge FFT bins when several of them map to one display bar.
#[derive(Debug, Clone, Copy, PartialEq, Eq, Structural)]
pub enum BinMergeMode {
    Max,
    Average,
}

impl Default for BinMergeMode {
    fn default() -> (r: Self)
        ensures
            r == BinMergeMode::Max,
    {
        BinMergeMode::Max
    }
}

/// Frequency (Hz) above which FFT bins are not shown, when a settings file
/// does not name one.
pub fn default_freq_cutoff() -> (hz: u32)
    ensures
        hz == 18000,
{
    18000
}

/// Whether bars are spread logarithmically, when a settings file does not say.
pub fn default_log_spread() -> (spread: bool)
    ensures
        !spread,
{
    false
}

} // verus!
