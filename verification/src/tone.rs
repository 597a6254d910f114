//! A phase-continuous oscillator that renders into interleaved output buffers.
//!
//! The player counts frames modulo the sample rate and decides which slots of a buffer
//! are written. The value of a frame comes from the caller's tone source, a function
//! of the phase and the settings; in mix mode the caller's blend combines it with what
//! a slot holds.

use crate::config::TonePlayerConfig;
use vstd::arithmetic::div_mod::{
    lemma_add_mod_noop,
    lemma_add_mod_noop_right,
    lemma_fundamental_div_mod,
    lemma_fundamental_div_mod_converse,
    lemma_mod_self_0,
    lemma_small_mod,
};
use vstd::prelude::*;

verus! {

/// The phase `frames` frames after `phase`: frames are counted modulo the sample rate.
pub open spec fn phase_after(phase: nat, frames: nat, sample_rate: nat) -> nat
    recommends
        sample_rate > 0,
{
    (phase + frames) % sample_rate
}

/// What a slot holds after `value` is written to it: `value` itself, or in mix mode a
/// blend of what it held and `value`.
pub open spec fn slot_written<T, Blend: Fn(T, T) -> T>(
    mix: bool,
    blend: Blend,
    before: T,
    value: T,
    after: T,
) -> bool {
    if mix {
        blend.ensures((before, value), after)
    } else {
        after == value
    }
}

/// `after` is `before` rendered by a player with the settings `config` that starts
/// at phase `start`, where `values` are the values of the successive frames.
///
/// There is one value for each whole frame of `channels` slots. The value of frame `j`
/// is what the tone source gives for the settings and the phase `j + 1` frames after
/// `start`, and it is written to every slot of that frame. Slots behind the last whole
/// frame keep what they held.
pub open spec fn rendered<T, Tone: Fn(u32, TonePlayerConfig) -> T, Blend: Fn(T, T) -> T>(
    config: TonePlayerConfig,
    start: nat,
    tone: Tone,
    blend: Blend,
    before: Seq<T>,
    values: Seq<T>,
    after: Seq<T>,
) -> bool
    recommends
        config.sample_rate() > 0,
        config.channels() > 0,
{
    &&& after.len() == before.len()
    &&& values.len() == before.len() / (config.channels() as nat)
    &&& forall|j: int|
        0 <= j < values.len() ==> tone.ensures(
            (phase_after(start, (j + 1) as nat, config.sample_rate() as nat) as u32, config),
            #[trigger] values[j],
        )
    &&& forall|i: int|
        0 <= i < after.len() ==> if i / (config.channels() as int) < values.len() {
            slot_written(
                config.mix(),
                blend,
                before[i],
                values[i / (config.channels() as int)],
                #[trigger] after[i],
            )
        } else {
            after[i] == before[i]
        }
}

/// The phase always lies below the sample rate.
pub proof fn lemma_phase_in_range(phase: nat, frames: nat, sample_rate: nat)
    requires
        sample_rate > 0,
    ensures
        phase_after(phase, frames, sample_rate) < sample_rate,
{
}

/// The phase wraps every `sample_rate` frames: one full period later it is the same,
/// so the frame rendered then has the phase of the frame rendered now.
pub proof fn lemma_phase_wraps(phase: nat, frames: nat, sample_rate: nat)
    requires
        sample_rate > 0,
    ensures
        phase_after(phase, frames + sample_rate, sample_rate) == phase_after(
            phase,
            frames,
            sample_rate,
        ),
{
    lemma_add_mod_noop((phase + frames) as int, sample_rate as int, sample_rate as int);
    lemma_mod_self_0(sample_rate as int);
    lemma_add_mod_noop((phase + frames) as int, 0, sample_rate as int);
}

/// The phase is continuous across buffers: advancing by two runs of frames is
/// advancing by their sum.
pub proof fn lemma_phase_continues(phase: nat, first: nat, second: nat, sample_rate: nat)
    requires
        sample_rate > 0,
    ensures
        phase_after(phase_after(phase, first, sample_rate), second, sample_rate) == phase_after(
            phase,
            first + second,
            sample_rate,
        ),
{
    lemma_add_mod_noop((phase + first) as int, second as int, sample_rate as int);
    lemma_add_mod_noop(
        ((phase + first) % sample_rate) as int,
        second as int,
        sample_rate as int,
    );
    lemma_small_mod((phase + first) % sample_rate, sample_rate);
}

/// One player replacing and then another mixing into the same buffer leave, in every
/// slot of a whole frame, the blend of the two values that the players gave that
/// frame: the first is what the first player alone leaves there. Slots behind the last
/// whole frame keep what they held before both.
pub proof fn lemma_layers_blend<
    T,
    ToneA: Fn(u32, TonePlayerConfig) -> T,
    ToneB: Fn(u32, TonePlayerConfig) -> T,
    BlendA: Fn(T, T) -> T,
    BlendB: Fn(T, T) -> T,
>(
    config_a: TonePlayerConfig,
    start_a: nat,
    tone_a: ToneA,
    blend_a: BlendA,
    values_a: Seq<T>,
    config_b: TonePlayerConfig,
    start_b: nat,
    tone_b: ToneB,
    blend_b: BlendB,
    values_b: Seq<T>,
    before: Seq<T>,
    base: Seq<T>,
    layered: Seq<T>,
)
    requires
        config_a.channels() > 0,
        config_a.channels() == config_b.channels(),
        !config_a.mix(),
        config_b.mix(),
        rendered(config_a, start_a, tone_a, blend_a, before, values_a, base),
        rendered(config_b, start_b, tone_b, blend_b, base, values_b, layered),
    ensures
        layered.len() == before.len(),
        values_a.len() == values_b.len(),
        forall|i: int|
            0 <= i < layered.len() ==> if i / (config_a.channels() as int) < values_a.len() {
                &&& base[i] == values_a[i / (config_a.channels() as int)]
                &&& blend_b.ensures(
                    (
                        values_a[i / (config_a.channels() as int)],
                        values_b[i / (config_a.channels() as int)],
                    ),
                    #[trigger] layered[i],
                )
            } else {
                layered[i] == before[i]
            },
{
    assert forall|i: int| 0 <= i < layered.len() implies if i / (config_a.channels() as int)
        < values_a.len() {
        &&& base[i] == values_a[i / (config_a.channels() as int)]
        &&& blend_b.ensures(
            (
                values_a[i / (config_a.channels() as int)],
                values_b[i / (config_a.channels() as int)],
            ),
            #[trigger] layered[i],
        )
    } else {
        layered[i] == before[i]
    } by {
        assert(base[i] == base[i]);
    }
}

/// An oscillator: its settings and its phase.
pub struct TonePlayer {
    config: TonePlayerConfig,
    phase: u32,
}

impl TonePlayer {
    #[verifier::type_invariant]
    spec fn phase_in_range(&self) -> bool {
        self.phase < self.config.sample_rate()
    }

    /// The player's settings.
    pub closed spec fn spec_config(&self) -> TonePlayerConfig {
        self.config
    }

    /// The number of frames rendered so far, modulo the sample rate.
    pub closed spec fn spec_phase(&self) -> u32 {
        self.phase
    }

    /// A player with these settings that has rendered nothing yet.
    pub fn with_config(config: TonePlayerConfig) -> (player: Self)
        ensures
            player.config() == config,
            player.phase() == 0,
    {
        // Validated settings have a sample rate above zero, so phase zero is in range.
        let _rate: u32 = config.sample_rate();
        TonePlayer { config, phase: 0 }
    }

    /// The player's settings.
    #[verifier::when_used_as_spec(spec_config)]
    pub fn config(&self) -> (config: TonePlayerConfig)
        ensures
            config == self.spec_config(),
    {
        self.config
    }

    /// The number of frames rendered so far, modulo the sample rate.
    #[verifier::when_used_as_spec(spec_phase)]
    pub fn phase(&self) -> (phase: u32)
        ensures
            phase == self.spec_phase(),
            phase < self.config().sample_rate(),
    {
        proof {
            use_type_invariant(self);
        }
        self.phase
    }

    /// Renders the tone into `buffer`, a run of frames of `channels` slots each.
    ///
    /// For each whole frame in turn the phase advances by one, `tone` gives the frame's
    /// value for that phase and the player's settings, and the value goes to every slot
    /// of the frame: in mix mode blended by `blend` with what the slot holds, else in
    /// its place. Slots behind the last whole frame are left alone and do not advance
    /// the phase.
    pub fn fill_buffer<T: Copy, Tone: Fn(u32, TonePlayerConfig) -> T, Blend: Fn(T, T) -> T>(
        &mut self,
        buffer: &mut [T],
        tone: Tone,
        blend: Blend,
    )
        requires
            forall|phase: u32|
                phase < old(self).config().sample_rate() ==> tone.requires(
                    (phase, old(self).config()),
                ),
            old(self).config().mix() ==> forall|held: T, value: T| blend.requires((held, value)),
        ensures
            final(self).config() == old(self).config(),
            final(self).phase() == phase_after(
                old(self).phase() as nat,
                old(buffer)@.len() / (old(self).config().channels() as nat),
                old(self).config().sample_rate() as nat,
            ),
            exists|values: Seq<T>|
                rendered(
                    old(self).config(),
                    old(self).phase() as nat,
                    tone,
                    blend,
                    old(buffer)@,
                    values,
                    final(buffer)@,
                ),
    {
        proof {
            use_type_invariant(&*self);
        }
        let config: TonePlayerConfig = self.config;
        let channels: usize = self.config.channels();
        let rate: u32 = self.config.sample_rate();
        let mix: bool = self.config.mix();
        let len: usize = buffer.len();
        let frames: usize = len / channels;
        let ghost start: nat = self.phase as nat;
        let ghost width: int = channels as int;
        let ghost values: Seq<T> = Seq::empty();
        let mut phase: u32 = self.phase;
        let mut frame: usize = 0;
        let mut at: usize = 0;
        proof {
            lemma_fundamental_div_mod(buffer@.len() as int, width);
            lemma_small_mod(start, rate as nat);
        }
        while frame < frames
            invariant
                channels > 0,
                width == channels,
                rate > 0,
                frame <= frames,
                frames == old(buffer)@.len() / (channels as nat),
                frames * channels <= len,
                at == frame * channels,
                len == buffer@.len(),
                len == old(buffer)@.len(),
                phase < rate,
                phase == phase_after(start, frame as nat, rate as nat),
                values.len() == frame,
                config == old(self).config(),
                rate == config.sample_rate(),
                channels == config.channels(),
                mix == config.mix(),
                forall|p: u32| p < rate ==> tone.requires((p, config)),
                mix ==> forall|held: T, value: T| blend.requires((held, value)),
                forall|j: int|
                    0 <= j < frame ==> tone.ensures(
                        (phase_after(start, (j + 1) as nat, rate as nat) as u32, config),
                        #[trigger] values[j],
                    ),
                forall|i: int|
                    0 <= i < at ==> slot_written(
                        mix,
                        blend,
                        old(buffer)@[i],
                        values[i / width],
                        #[trigger] buffer@[i],
                    ),
                forall|i: int| at <= i < buffer@.len() ==> #[trigger] buffer@[i] == old(buffer)@[i],
            decreases frames - frame,
        {
            proof {
                lemma_add_mod_noop_right(1, (start + frame) as int, rate as int);
                assert((frame + 1) * channels == frame * channels + channels)
                    by (nonlinear_arith);
                assert((frame + 1) * channels <= frames * channels) by (nonlinear_arith)
                    requires
                        frame + 1 <= frames,
                ;
            }
            phase = (phase + 1) % rate;
            let value: T = tone(phase, config);
            let ghost previous: Seq<T> = values;
            proof {
                values = values.push(value);
                assert forall|i: int| 0 <= i < at implies slot_written(
                    mix,
                    blend,
                    old(buffer)@[i],
                    values[i / width],
                    #[trigger] buffer@[i],
                ) by {
                    lemma_slot_frame(i, width, frame as int);
                    assert(values[i / width] == previous[i / width]);
                }
            }
            let mut channel: usize = 0;
            while channel < channels
                invariant
                    channel <= channels,
                    width == channels,
                    channels > 0,
                    at == frame * channels,
                    at + channels <= len,
                    len == buffer@.len(),
                    len == old(buffer)@.len(),
                    values == previous.push(value),
                    previous.len() == frame,
                    mix ==> forall|held: T, value: T| blend.requires((held, value)),
                    forall|i: int|
                        0 <= i < at + channel ==> slot_written(
                            mix,
                            blend,
                            old(buffer)@[i],
                            values[i / width],
                            #[trigger] buffer@[i],
                        ),
                    forall|i: int|
                        at + channel <= i < buffer@.len() ==> #[trigger] buffer@[i] == old(
                            buffer,
                        )@[i],
                decreases channels - channel,
            {
                let slot: usize = at + channel;
                proof {
                    lemma_fundamental_div_mod_converse(
                        slot as int,
                        width,
                        frame as int,
                        channel as int,
                    );
                }
                if mix {
                    let blended: T = blend(buffer[slot], value);
                    buffer[slot] = blended;
                } else {
                    buffer[slot] = value;
                }
                channel += 1;
            }
            at += channels;
            frame += 1;
        }
        self.phase = phase;
        proof {
            assert forall|i: int| 0 <= i < buffer@.len() implies if i / width < values.len() {
                slot_written(mix, blend, old(buffer)@[i], values[i / width], #[trigger] buffer@[i])
            } else {
                buffer@[i] == old(buffer)@[i]
            } by {
                lemma_slot_frame(i, width, frames as int);
            }
            assert(rendered(
                old(self).config(),
                old(self).phase() as nat,
                tone,
                blend,
                old(buffer)@,
                values,
                buffer@,
            ));
        }
    }
}

/// A slot lies before the first slot of frame `frames` exactly if its own frame does.
proof fn lemma_slot_frame(slot: int, width: int, frames: int)
    requires
        0 <= slot,
        0 < width,
        0 <= frames,
    ensures
        slot < frames * width <==> slot / width < frames,
        0 <= slot / width,
{
    lemma_fundamental_div_mod(slot, width);
    assert(slot < frames * width <==> slot / width < frames) by (nonlinear_arith)
        requires
            slot == width * (slot / width) + slot % width,
            0 <= slot % width < width,
            0 < width,
    ;
    assert(0 <= slot / width) by (nonlinear_arith)
        requires
            slot == width * (slot / width) + slot % width,
            0 <= slot % width < width,
            0 <= slot,
            0 < width,
    ;
}

} // verus!
