use vstd::prelude::*;

verus! {

/// How far a bar sinks in one frame without a higher input.
pub const BAR_DECAY: i16 = 7;

/// How far a peak marker sinks in one frame without a higher input.
pub const PEAK_DECAY: i16 = 2;

/// The input that frame `new_values` offers at position `i`: `None` when no
/// frame arrived, else the byte at `i`, or 0 past the end of the frame.
pub open spec fn input_at(new_values: Option<Seq<u8>>, i: int) -> Option<int> {
    match new_values {
        Some(v) => Some(if 0 <= i < v.len() { v[i] as int } else { 0 }),
        None => None,
    }
}

/// One frame of falloff for one level: a strictly higher input replaces the
/// level, otherwise it sinks by `decay`, never below zero.
pub open spec fn next_level(level: int, input: Option<int>, decay: int) -> int {
    if input is Some && level < input->0 {
        input->0
    } else if level - decay > 0 {
        level - decay
    } else {
        0
    }
}

/// The level after `frames` frames in which no spectrum frame arrived.
pub open spec fn silent_level(level: int, decay: int, frames: nat) -> int
    decreases frames,
{
    if frames == 0 {
        level
    } else {
        silent_level(next_level(level, None, decay), decay, (frames - 1) as nat)
    }
}

/// Law: across `frames` frames in which no spectrum frame arrives, a level
/// sinks by `decay` per frame and stops at zero.
pub proof fn lemma_silent_decay(level: int, decay: int, frames: nat)
    requires
        decay >= 0,
    ensures
        silent_level(level, decay, frames) == if frames == 0 {
            level
        } else if level - decay * frames > 0 {
            level - decay * frames
        } else {
            0
        },
    decreases frames,
{
    if frames > 0 {
        let next = next_level(level, None, decay);
        lemma_silent_decay(next, decay, (frames - 1) as nat);
        assert(decay * frames == decay + decay * (frames - 1)) by (nonlinear_arith);
        assert(decay * (frames - 1) >= 0) by (nonlinear_arith)
            requires
                decay >= 0,
                frames >= 1,
        ;
    }
}

/// Law: a display whose levels lie within 0..=255 shows no bar after 37
/// silent frames and no peak marker after 128.
pub proof fn lemma_display_clears(level: int)
    requires
        0 <= level <= 255,
    ensures
        silent_level(level, BAR_DECAY as int, 37) == 0,
        silent_level(level, PEAK_DECAY as int, 128) == 0,
{
    lemma_silent_decay(level, BAR_DECAY as int, 37);
    lemma_silent_decay(level, PEAK_DECAY as int, 128);
}

/// Law: the settings preview that loads what the taskbar display published
/// shows exactly the taskbar display's levels, when both have the same size.
pub proof fn lemma_publish_then_load(preview: Seq<i16>, published: Seq<i16>)
    requires
        preview.len() == published.len(),
    ensures
        overlaid(preview, published) == published,
{
    assert(overlaid(preview, published) =~= published);
}

/// Every level of `levels` lies in the range that a byte input can produce.
pub open spec fn all_in_byte_range(levels: Seq<i16>) -> bool {
    forall|i: int| 0 <= i < levels.len() ==> 0 <= #[trigger] levels[i] <= 255
}

/// Every level of `levels` can sink by `decay` without leaving `i16`.
pub open spec fn can_sink(levels: Seq<i16>, decay: int) -> bool {
    forall|i: int| 0 <= i < levels.len() ==> #[trigger] levels[i] - decay >= i16::MIN
}

/// `next` is `levels` after one frame with input `new_values`.
pub open spec fn stepped(levels: Seq<i16>, next: Seq<i16>, new_values: Option<Seq<u8>>, decay: int) -> bool {
    &&& next.len() == levels.len()
    &&& forall|i: int|
        0 <= i < levels.len() ==> #[trigger] next[i] as int == next_level(
            levels[i] as int,
            input_at(new_values, i),
            decay,
        )
}

/// `levels` with its first `min(levels.len(), source.len())` entries taken
/// from `source`.
pub open spec fn overlaid(levels: Seq<i16>, source: Seq<i16>) -> Seq<i16> {
    Seq::new(levels.len(), |i: int| if i < source.len() { source[i] } else { levels[i] })
}

/// The bar heights and peak markers of a spectrum display, one entry per
/// display position (left channel first, then right channel).
pub struct Falloff {
    data_size: usize,
    vis_falloff: Vec<i16>,
    vis_peak_falloff: Vec<i16>,
}

impl Falloff {
    /// Both level arrays hold exactly one entry per display position.
    #[verifier::type_invariant]
    spec fn wf(&self) -> bool {
        &&& self.vis_falloff@.len() == self.data_size
        &&& self.vis_peak_falloff@.len() == self.data_size
    }

    /// The number of display positions.
    pub closed spec fn size(&self) -> nat {
        self.data_size as nat
    }

    /// The bar heights, one per display position.
    pub closed spec fn bar_levels(&self) -> Seq<i16> {
        self.vis_falloff@
    }

    /// The peak markers, one per display position.
    pub closed spec fn peak_levels(&self) -> Seq<i16> {
        self.vis_peak_falloff@
    }

    /// A display of `data_size` positions, all at zero.
    pub fn new(data_size: usize) -> (f: Self)
        ensures
            f.size() == data_size,
            f.bar_levels() == Seq::new(data_size as nat, |i: int| 0i16),
            f.peak_levels() == Seq::new(data_size as nat, |i: int| 0i16),
    {
        let mut bars: Vec<i16> = Vec::new();
        let mut peaks: Vec<i16> = Vec::new();
        let mut i: usize = 0;
        while i < data_size
            invariant
                i <= data_size,
                bars@ == Seq::new(i as nat, |j: int| 0i16),
                peaks@ == Seq::new(i as nat, |j: int| 0i16),
            decreases data_size - i,
        {
            bars.push(0);
            peaks.push(0);
            i = i + 1;
        }
        Falloff { data_size, vis_falloff: bars, vis_peak_falloff: peaks }
    }

    /// The number of display positions.
    pub fn data_size(&self) -> (n: usize)
        ensures
            n == self.size(),
            self.bar_levels().len() == n,
            self.peak_levels().len() == n,
    {
        proof {
            use_type_invariant(self);
        }
        self.data_size
    }

    /// The bar heights, one per display position.
    pub fn bars(&self) -> (b: &[i16])
        ensures
            b@ == self.bar_levels(),
    {
        self.vis_falloff.as_slice()
    }

    /// The peak markers, one per display position.
    pub fn peaks(&self) -> (p: &[i16])
        ensures
            p@ == self.peak_levels(),
    {
        self.vis_peak_falloff.as_slice()
    }

    /// Advances the display by one frame. For every position `i`, with
    /// `value` the byte of `new_values` at `i` (0 past its end): a bar lower
    /// than `value` jumps to it, any other bar sinks by 7 and a peak marker
    /// by 2, neither below zero. Without a frame everything sinks.
    pub fn update_falloff(&mut self, new_values: Option<&[u8]>)
        requires
            can_sink(old(self).bar_levels(), BAR_DECAY as int),
            can_sink(old(self).peak_levels(), PEAK_DECAY as int),
        ensures
            final(self).size() == old(self).size(),
            stepped(
                old(self).bar_levels(),
                final(self).bar_levels(),
                match new_values {
                    Some(v) => Some(v@),
                    None => None,
                },
                BAR_DECAY as int,
            ),
            stepped(
                old(self).peak_levels(),
                final(self).peak_levels(),
                match new_values {
                    Some(v) => Some(v@),
                    None => None,
                },
                PEAK_DECAY as int,
            ),
            all_in_byte_range(old(self).bar_levels()) ==> all_in_byte_range(final(self).bar_levels()),
            all_in_byte_range(old(self).peak_levels()) ==> all_in_byte_range(
                final(self).peak_levels(),
            ),
    {
        proof {
            use_type_invariant(&*self);
        }
        let ghost input = match new_values {
            Some(v) => Some(v@),
            None => None,
        };
        let n = self.data_size;
        let mut bars: Vec<i16> = Vec::new();
        let mut peaks: Vec<i16> = Vec::new();
        let mut i: usize = 0;
        while i < n
            invariant
                self.vis_falloff@.len() == n,
                self.vis_peak_falloff@.len() == n,
                i <= n,
                bars@.len() == i,
                peaks@.len() == i,
                can_sink(self.vis_falloff@, BAR_DECAY as int),
                can_sink(self.vis_peak_falloff@, PEAK_DECAY as int),
                input == match new_values {
                    Some(v) => Some(v@),
                    None => None::<Seq<u8>>,
                },
                forall|j: int|
                    0 <= j < i ==> #[trigger] bars@[j] as int == next_level(
                        self.vis_falloff@[j] as int,
                        input_at(input, j),
                        BAR_DECAY as int,
                    ),
                forall|j: int|
                    0 <= j < i ==> #[trigger] peaks@[j] as int == next_level(
                        self.vis_peak_falloff@[j] as int,
                        input_at(input, j),
                        PEAK_DECAY as int,
                    ),
            decreases n - i,
        {
            let value: i16 = match new_values {
                Some(v) => if i < v.len() {
                    v[i] as i16
                } else {
                    0
                },
                None => 0,
            };
            let bar = self.vis_falloff[i];
            let new_bar: i16 = if new_values.is_some() && bar < value {
                value
            } else if bar - BAR_DECAY > 0 {
                bar - BAR_DECAY
            } else {
                0
            };
            bars.push(new_bar);
            let peak = self.vis_peak_falloff[i];
            let new_peak: i16 = if new_values.is_some() && peak < value {
                value
            } else if peak - PEAK_DECAY > 0 {
                peak - PEAK_DECAY
            } else {
                0
            };
            peaks.push(new_peak);
            i = i + 1;
        }
        *self = Falloff { data_size: n, vis_falloff: bars, vis_peak_falloff: peaks };
    }

    /// Takes the levels that `shared` holds: as many leading entries of each
    /// array as both sides have; the rest stay as they were.
    pub fn load_shared(&mut self, shared: &SharedFalloff)
        ensures
            final(self).size() == old(self).size(),
            final(self).bar_levels() == overlaid(old(self).bar_levels(), shared.falloff@),
            final(self).peak_levels() == overlaid(old(self).peak_levels(), shared.peaks@),
    {
        proof {
            use_type_invariant(&*self);
        }
        let n = self.data_size;
        let bars = overlay(self.vis_falloff.as_slice(), shared.falloff.as_slice());
        let peaks = overlay(self.vis_peak_falloff.as_slice(), shared.peaks.as_slice());
        *self = Falloff { data_size: n, vis_falloff: bars, vis_peak_falloff: peaks };
    }
}

/// `levels` with its leading entries replaced by those of `source`, as many
/// as both have.
fn overlay(levels: &[i16], source: &[i16]) -> (r: Vec<i16>)
    ensures
        r@ == overlaid(levels@, source@),
{
    let mut r: Vec<i16> = Vec::new();
    let mut i: usize = 0;
    while i < levels.len()
        invariant
            i <= levels@.len(),
            r@.len() == i,
            forall|j: int|
                0 <= j < i ==> #[trigger] r@[j] == if j < source@.len() {
                    source@[j]
                } else {
                    levels@[j]
                },
        decreases levels.len() - i,
    {
        if i < source.len() {
            r.push(source[i]);
        } else {
            r.push(levels[i]);
        }
        i = i + 1;
    }
    assert(r@ =~= overlaid(levels@, source@));
    r
}

/// The levels of the taskbar display, published for the settings preview.
pub struct SharedFalloff {
    pub falloff: Vec<i16>,
    pub peaks: Vec<i16>,
}

impl SharedFalloff {
    /// Nothing published yet.
    pub fn new() -> (s: Self)
        ensures
            s.falloff@.len() == 0,
            s.peaks@.len() == 0,
    {
        SharedFalloff { falloff: Vec::new(), peaks: Vec::new() }
    }

    /// Replaces what is published by the current levels of `display`.
    pub fn store(&mut self, display: &Falloff)
        ensures
            final(self).falloff@ == display.bar_levels(),
            final(self).peaks@ == display.peak_levels(),
    {
        self.falloff.clear();
        self.falloff.extend_from_slice(display.bars());
        self.peaks.clear();
        self.peaks.extend_from_slice(display.peaks());
        assert(self.falloff@ =~= display.bar_levels());
        assert(self.peaks@ =~= display.peak_levels());
    }
}

} // verus!
