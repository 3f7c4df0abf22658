//! The TIA's two audio channels: 4-bit volume, 5-bit frequency divider and a
//! waveform selector driving a pair of polynomial counters.
//!
//! On every control write the channel first generates the samples due up to
//! "now" with the old settings, then applies the write.

use crate::clocks;
use vstd::prelude::*;

verus! {

/// One 8-bit sample as handed to the host's audio queue.
pub type PlaybackType = u8;

/// Clocks the 4-bit polynomial counter: the recurrence feeding bit 3 from
/// the waveform select and the current counter states.
pub open spec fn spec_poly4(audio_ctrl: u8, poly5_state: u8, poly4_state: u8) -> u8 {
    let i = (0 == audio_ctrl & 0xF) || ((0 == audio_ctrl & 0xC) && (((poly4_state & 0x3) != 0x3)
        && (0 != poly4_state & 0x3) && ((poly4_state & 0xF) != 0xA))) || (((audio_ctrl & 0xC)
        == 0xC) && (0 != poly4_state & 0xC) && (0 == poly4_state & 0x2)) || (((audio_ctrl & 0xC)
        == 0x4) && (0 == poly4_state & 0x8)) || (((audio_ctrl & 0xC) == 0x8) && (0 == poly5_state
        & 0x1));
    ((0x7 ^ (poly4_state >> 1u8)) | (if i {
        8u8
    } else {
        0u8
    })) as u8
}

/// Clocks the 5-bit polynomial counter.
pub open spec fn spec_poly5(audio_ctrl: u8, poly5_state: u8, poly4_state: u8) -> u8 {
    let in_5 = (0 == audio_ctrl & 0xF) || (((0 != audio_ctrl & 0x3) || ((poly4_state & 0xF)
        == 0xA)) && (0 == poly5_state & 0x1F)) || !((((0 != audio_ctrl & 0x3) || (0
        == poly4_state & 0x1)) && ((0 == poly5_state & 0x8) || (0 == audio_ctrl & 0x3))) ^ (0
        != poly5_state & 0x1));
    ((poly5_state >> 1u8) | (if in_5 {
        16u8
    } else {
        0u8
    })) as u8
}

/// Whether this poly-5 state lets the poly-4 counter clock.
pub open spec fn spec_poly5clk(audio_ctrl: u8, poly5_state: u8) -> bool {
    (((audio_ctrl & 0x3) != 0x2) || (0x2 == (poly5_state & 0x1E))) && (((audio_ctrl & 0x3) != 0x3)
        || (0 != poly5_state & 0x1))
}

/// One audio tick of a channel: when the divider position hits a multiple of
/// `freq + 1`, the counters clock; the new counter pair is returned.
pub open spec fn spec_chan_step(wave_form: u8, freq: u8, poly4: u8, poly5: u8, pos: u32) -> (
    u8,
    u8,
) {
    if pos % (freq + 1) as u32 == 0 {
        let np5 = spec_poly5(wave_form, poly5, poly4);
        let np4 = if spec_poly5clk(wave_form, poly5) {
            spec_poly4(wave_form, poly5, poly4)
        } else {
            poly4
        };
        (np4, np5)
    } else {
        (poly4, poly5)
    }
}

/// The sample a channel emits: volume-scaled when poly-4's low bit is set.
pub open spec fn spec_sample(poly4: u8, volume: u8) -> u8 {
    if poly4 & 1 != 0 {
        ((volume & 0xF) * 0x7) as u8
    } else {
        0
    }
}

/// `len` audio ticks of one channel: the samples emitted and the final
/// (poly4, poly5, divider position) state.
pub open spec fn spec_channel(
    wave_form: u8,
    freq: u8,
    volume: u8,
    poly4: u8,
    poly5: u8,
    pos: u32,
    len: nat,
) -> (Seq<u8>, (u8, u8, u32))
    decreases len,
{
    if len == 0 {
        (Seq::empty(), (poly4, poly5, pos))
    } else {
        let step = spec_chan_step(wave_form, freq, poly4, poly5, pos);
        let npos = if pos == u32::MAX {
            0u32
        } else {
            (pos + 1) as u32
        };
        let rest = spec_channel(wave_form, freq, volume, step.0, step.1, npos, (len - 1) as nat);
        (seq![spec_sample(step.0, volume)] + rest.0, rest.1)
    }
}

/// A channel emits exactly one sample per audio tick.
pub proof fn lemma_spec_channel_len(
    wave_form: u8,
    freq: u8,
    volume: u8,
    poly4: u8,
    poly5: u8,
    pos: u32,
    len: nat,
)
    ensures
        spec_channel(wave_form, freq, volume, poly4, poly5, pos, len).0.len() == len,
    decreases len,
{
    if len > 0 {
        let step = spec_chan_step(wave_form, freq, poly4, poly5, pos);
        let npos = if pos == u32::MAX {
            0u32
        } else {
            (pos + 1) as u32
        };
        lemma_spec_channel_len(wave_form, freq, volume, step.0, step.1, npos, (len - 1) as nat);
    }
}

/// Left and right sample streams merged into one stereo stream.
pub open spec fn spec_interleave(a: Seq<u8>, b: Seq<u8>) -> Seq<u8>
    decreases a.len(),
{
    if a.len() == 0 || b.len() == 0 {
        Seq::empty()
    } else {
        seq![a[0], b[0]] + spec_interleave(a.skip(1), b.skip(1))
    }
}

pub struct TiaSound {
    pub realtime: bool,
    pub volume: Vec<u8>,
    pub freq: Vec<u8>,
    pub poly4state: Vec<u8>,
    pub poly5state: Vec<u8>,
    pub wave_form: Vec<u8>,
    pub freq_pos: Vec<u32>,
    pub last_update_time: clocks::ClockType,
    pub working_stream: Vec<PlaybackType>,
}

impl TiaSound {
    pub const CPU_CLOCK_RATE: u32 = 3570000;

    pub const SAMPLERATE: u16 = 32050;

    pub const CHANNELS: u8 = 2;

    pub const FREQ_DATA_MASK: u8 = 0x1F;

    pub const BITS: u8 = 8;

    pub open spec fn wf(self) -> bool {
        &&& self.volume@.len() == 2
        &&& self.freq@.len() == 2
        &&& self.poly4state@.len() == 2
        &&& self.poly5state@.len() == 2
        &&& self.wave_form@.len() == 2
        &&& self.freq_pos@.len() == 2
    }

    pub fn new(realtime: bool) -> (r: Self)
        ensures
            r.wf(),
            r.realtime == realtime,
            r.volume@ == seq![0u8, 0u8],
            r.freq@ == seq![0u8, 0u8],
            r.poly4state@ == seq![0u8, 0u8],
            r.poly5state@ == seq![0u8, 0u8],
            r.wave_form@ == seq![0u8, 0u8],
            r.freq_pos@ == seq![0u32, 0u32],
            r.last_update_time == 0,
            r.working_stream@ == Seq::<u8>::empty(),
    {
        let mut volume: Vec<u8> = Vec::new();
        volume.push(0);
        volume.push(0);
        let mut freq: Vec<u8> = Vec::new();
        freq.push(0);
        freq.push(0);
        let mut poly4state: Vec<u8> = Vec::new();
        poly4state.push(0);
        poly4state.push(0);
        let mut poly5state: Vec<u8> = Vec::new();
        poly5state.push(0);
        poly5state.push(0);
        let mut wave_form: Vec<u8> = Vec::new();
        wave_form.push(0);
        wave_form.push(0);
        let mut freq_pos: Vec<u32> = Vec::new();
        freq_pos.push(0);
        freq_pos.push(0);
        assert(volume@ =~= seq![0u8, 0u8]);
        assert(freq@ =~= seq![0u8, 0u8]);
        assert(poly4state@ =~= seq![0u8, 0u8]);
        assert(poly5state@ =~= seq![0u8, 0u8]);
        assert(wave_form@ =~= seq![0u8, 0u8]);
        assert(freq_pos@ =~= seq![0u32, 0u32]);
        Self {
            realtime,
            volume,
            freq,
            poly4state,
            poly5state,
            wave_form,
            freq_pos,
            last_update_time: 0,
            working_stream: Vec::new(),
        }
    }

    /// Clocks the 4-bit polynomial counter once.
    pub fn poly4(audio_ctrl: u8, poly5_state: u8, poly4_state: u8) -> (r: u8)
        ensures
            r == spec_poly4(audio_ctrl, poly5_state, poly4_state),
    {
        let i = (0 == audio_ctrl & 0xF) || ((0 == audio_ctrl & 0xC) && (((poly4_state & 0x3)
            != 0x3) && (0 != poly4_state & 0x3) && ((poly4_state & 0xF) != 0xA))) || (((audio_ctrl
            & 0xC) == 0xC) && (0 != poly4_state & 0xC) && (0 == poly4_state & 0x2)) || (((
        audio_ctrl & 0xC) == 0x4) && (0 == poly4_state & 0x8)) || (((audio_ctrl & 0xC) == 0x8) && (
        0 == poly5_state & 0x1));
        (0x7 ^ (poly4_state >> 1u8)) | (if i {
            8u8
        } else {
            0u8
        })
    }

    /// Clocks the 5-bit polynomial counter once.
    pub fn poly5(audio_ctrl: u8, poly5_state: u8, poly4_state: u8) -> (r: u8)
        ensures
            r == spec_poly5(audio_ctrl, poly5_state, poly4_state),
    {
        let in_5 = (0 == audio_ctrl & 0xF) || (((0 != audio_ctrl & 0x3) || ((poly4_state & 0xF)
            == 0xA)) && (0 == poly5_state & 0x1F)) || !((((0 != audio_ctrl & 0x3) || (0
            == poly4_state & 0x1)) && ((0 == poly5_state & 0x8) || (0 == audio_ctrl & 0x3))) ^ (0
            != poly5_state & 0x1));
        (poly5_state >> 1u8) | (if in_5 {
            16u8
        } else {
            0u8
        })
    }

    /// Whether poly-5's state lets poly-4 clock this tick.
    pub fn poly5clk(audio_ctrl: u8, poly5_state: u8) -> (r: bool)
        ensures
            r == spec_poly5clk(audio_ctrl, poly5_state),
    {
        (((audio_ctrl & 0x3) != 0x2) || (0x2 == (poly5_state & 0x1E))) && (((audio_ctrl & 0x3)
            != 0x3) || (0 != poly5_state & 0x1))
    }

    /// Generates `length` samples for one channel, advancing its counters.
    pub fn get_channel_data(&mut self, channel: u8, length: u16) -> (stream: Vec<u8>)
        requires
            old(self).wf(),
            channel < 2,
        ensures
            final(self).wf(),
            ({
                let r = spec_channel(
                    old(self).wave_form@[channel as int],
                    old(self).freq@[channel as int],
                    old(self).volume@[channel as int],
                    old(self).poly4state@[channel as int],
                    old(self).poly5state@[channel as int],
                    old(self).freq_pos@[channel as int],
                    length as nat,
                );
                &&& stream@ == r.0
                &&& final(self).poly4state@ == old(self).poly4state@.update(
                    channel as int,
                    r.1.0,
                )
                &&& final(self).poly5state@ == old(self).poly5state@.update(
                    channel as int,
                    r.1.1,
                )
                &&& final(self).freq_pos@ == old(self).freq_pos@.update(channel as int, r.1.2)
            }),
            *final(self) == (TiaSound {
                poly4state: final(self).poly4state,
                poly5state: final(self).poly5state,
                freq_pos: final(self).freq_pos,
                ..*old(self)
            }),
    {
        let ch = channel as usize;
        let wave_form = self.wave_form[ch];
        let freq = self.freq[ch];
        let volume = self.volume[ch];
        let mut poly4 = self.poly4state[ch];
        let mut poly5 = self.poly5state[ch];
        let mut pos = self.freq_pos[ch];
        let mut stream: Vec<u8> = Vec::new();
        let ghost total = spec_channel(
            wave_form,
            freq,
            volume,
            poly4,
            poly5,
            pos,
            length as nat,
        );
        proof {
            assert(Seq::<u8>::empty() + total.0 =~= total.0);
        }
        let mut i: u16 = 0;
        while i < length
            invariant
                i <= length,
                stream@.len() == i,
                ({
                    let rest = spec_channel(
                        wave_form,
                        freq,
                        volume,
                        poly4,
                        poly5,
                        pos,
                        (length - i) as nat,
                    );
                    total.0 == stream@ + rest.0 && total.1 == rest.1
                }),
            decreases length - i,
        {
            let ghost rest_pre = spec_channel(
                wave_form,
                freq,
                volume,
                poly4,
                poly5,
                pos,
                (length - i) as nat,
            );
            if pos % (freq as u32 + 1) == 0 {
                let next_poly5 = Self::poly5(wave_form, poly5, poly4);
                if Self::poly5clk(wave_form, poly5) {
                    poly4 = Self::poly4(wave_form, poly5, poly4);
                }
                poly5 = next_poly5;
            }
            if 0 != poly4 & 1 {
                let v4 = volume & 0xF;
                assert(v4 <= 0xF) by (bit_vector)
                    requires
                        v4 == volume & 0xF,
                ;
                stream.push(v4 * 0x7);
            } else {
                stream.push(0);
            }
            pos = if pos == u32::MAX {
                0
            } else {
                pos + 1
            };
            proof {
                let rest_post = spec_channel(
                    wave_form,
                    freq,
                    volume,
                    poly4,
                    poly5,
                    pos,
                    (length - i - 1) as nat,
                );
                assert(rest_pre.0 =~= seq![stream@[stream@.len() - 1]] + rest_post.0);
                assert(stream@ + rest_post.0 =~= stream@.drop_last() + rest_pre.0);
            }
            i = i + 1;
        }
        self.poly4state.set(ch, poly4);
        self.poly5state.set(ch, poly5);
        self.freq_pos.set(ch, pos);
        assert(stream@ + Seq::<u8>::empty() =~= stream@);
        stream
    }

    /// The sound state `(poly4s, poly5s, divider positions, queued samples,
    /// last update tick)` after generating every sample due between the last
    /// update and `ticks` with the current settings. Passive (non-realtime)
    /// channels generate nothing.
    pub open spec fn spec_sound_state_after(self, ticks: u64) -> (
        Seq<u8>,
        Seq<u8>,
        Seq<u32>,
        Seq<u8>,
        u64,
    ) {
        if !self.realtime {
            (
                self.poly4state@,
                self.poly5state@,
                self.freq_pos@,
                self.working_stream@,
                self.last_update_time,
            )
        } else {
            let gap = ticks - self.last_update_time;
            let num = ((32050 * gap) / 3570000) % 0x10000;
            let r0 = spec_channel(
                self.wave_form@[0],
                self.freq@[0],
                self.volume@[0],
                self.poly4state@[0],
                self.poly5state@[0],
                self.freq_pos@[0],
                num as nat,
            );
            let r1 = spec_channel(
                self.wave_form@[1],
                self.freq@[1],
                self.volume@[1],
                self.poly4state@[1],
                self.poly5state@[1],
                self.freq_pos@[1],
                num as nat,
            );
            (
                seq![r0.1.0, r1.1.0],
                seq![r0.1.1, r1.1.1],
                seq![r0.1.2, r1.1.2],
                self.working_stream@ + spec_interleave(r0.0, r1.0),
                (self.last_update_time + (num * 3570000) / 32050) as u64,
            )
        }
    }

    /// The relation every audio write and poll step leaves behind: the sound
    /// state caught up to `ticks`, everything else untouched.
    pub open spec fn sound_caught_up(pre: TiaSound, post: TiaSound, ticks: u64) -> bool {
        let after = pre.spec_sound_state_after(ticks);
        &&& post.poly4state@ == after.0
        &&& post.poly5state@ == after.1
        &&& post.freq_pos@ == after.2
        &&& post.working_stream@ == after.3
        &&& post.last_update_time == after.4
        &&& post.realtime == pre.realtime
        &&& post.volume@ == pre.volume@
        &&& post.freq@ == pre.freq@
        &&& post.wave_form@ == pre.wave_form@
    }

    /// Generates the samples due from the last update to "now" using the
    /// current (pre-write) settings and queues them as interleaved stereo.
    pub fn pre_write_generate_sound(&mut self, clock: &clocks::Clock)
        requires
            old(self).wf(),
            old(self).last_update_time <= clock.ticks,
            clock.ticks <= 0x0001_0000_0000_0000,
        ensures
            final(self).wf(),
            Self::sound_caught_up(*old(self), *final(self), clock.ticks),
            final(self).last_update_time <= clock.ticks,
    {
        if !self.realtime {
            return ;
        }
        let audio_ticks: u64 = clock.ticks - self.last_update_time;
        let num64: u64 = (32050u64 * audio_ticks) / 3570000;
        let num: u16 = (num64 % 0x10000) as u16;
        proof {
            lemma_spec_channel_len(
                self.wave_form@[0],
                self.freq@[0],
                self.volume@[0],
                self.poly4state@[0],
                self.poly5state@[0],
                self.freq_pos@[0],
                num as nat,
            );
            lemma_spec_channel_len(
                self.wave_form@[1],
                self.freq@[1],
                self.volume@[1],
                self.poly4state@[1],
                self.poly5state@[1],
                self.freq_pos@[1],
                num as nat,
            );
        }
        let ch0 = self.get_channel_data(0, num);
        let ch1 = self.get_channel_data(1, num);
        let ghost s0 = ch0@;
        let ghost s1 = ch1@;
        let ghost base = self.working_stream@;
        let ghost pre_loop = *self;
        proof {
            assert(base + spec_interleave(s0, s1) =~= (base + Seq::<u8>::empty()) + spec_interleave(
                s0.skip(0),
                s1.skip(0),
            )) by {
                assert(s0.skip(0) =~= s0);
                assert(s1.skip(0) =~= s1);
                assert(base + Seq::<u8>::empty() =~= base);
            }
        }
        let mut i: usize = 0;
        while i < num as usize
            invariant
                i <= num,
                s0.len() == num && s1.len() == num,
                self.working_stream@.len() == base.len() + 2 * i,
                base + spec_interleave(s0, s1) == self.working_stream@ + spec_interleave(
                    s0.skip(i as int),
                    s1.skip(i as int),
                ),
                ch0@ == s0 && ch1@ == s1,
                *self == (TiaSound { working_stream: self.working_stream, ..pre_loop }),
            decreases num - i,
        {
            let ghost pre_stream = self.working_stream@;
            self.working_stream.push(ch0[i]);
            self.working_stream.push(ch1[i]);
            proof {
                let a = s0.skip(i as int);
                let b = s1.skip(i as int);
                assert(a.len() > 0 && b.len() > 0);
                assert(a[0] == s0[i as int] && b[0] == s1[i as int]);
                assert(spec_interleave(a, b) == seq![a[0], b[0]] + spec_interleave(
                    a.skip(1),
                    b.skip(1),
                ));
                assert(a.skip(1) =~= s0.skip(i + 1));
                assert(b.skip(1) =~= s1.skip(i + 1));
                assert(self.working_stream@ + spec_interleave(s0.skip(i + 1), s1.skip(i + 1))
                    =~= pre_stream + spec_interleave(a, b));
            }
            i = i + 1;
        }
        proof {
            assert(spec_interleave(s0.skip(num as int), s1.skip(num as int)) == Seq::<u8>::empty());
            assert(self.working_stream@ + Seq::<u8>::empty() =~= self.working_stream@);
        }
        proof {
            let after = old(self).spec_sound_state_after(clock.ticks);
            assert(self.poly4state@ =~= after.0);
            assert(self.poly5state@ =~= after.1);
            assert(self.freq_pos@ =~= after.2);
        }
        let add: u64 = ((num as u64) * 3570000) / 32050;
        proof {
            let gap = clock.ticks - self.last_update_time;
            assert(num64 == (32050 * gap) / 3570000);
            assert(num <= num64);
            assert(num64 * 3570000 <= 32050 * gap) by (nonlinear_arith)
                requires
                    num64 == (32050 * gap) / 3570000 && gap >= 0,
            ;
            assert((num as u64) * 3570000 <= num64 * 3570000) by (nonlinear_arith)
                requires
                    num <= num64,
            ;
            assert(((num as u64) * 3570000) / 32050 <= (32050 * gap) / 32050) by (nonlinear_arith)
                requires
                    (num as u64) * 3570000 <= 32050 * gap,
            ;
            assert((32050 * gap) / 32050 == gap) by (nonlinear_arith);
        }
        self.last_update_time = self.last_update_time + add;
    }

    /// Writes the channel-0 waveform select, after catching up the stream.
    pub fn write_audio_ctrl_0(&mut self, clock: &clocks::Clock, address: u16, data: u8)
        requires
            old(self).wf(),
            old(self).last_update_time <= clock.ticks,
            clock.ticks <= 0x0001_0000_0000_0000,
        ensures
            final(self).wf(),
            final(self).last_update_time <= clock.ticks,
            ({
                let after = old(self).spec_sound_state_after(clock.ticks);
                &&& final(self).poly4state@ == after.0
                &&& final(self).poly5state@ == after.1
                &&& final(self).freq_pos@ == after.2
                &&& final(self).working_stream@ == after.3
                &&& final(self).last_update_time == after.4
            }),
            final(self).realtime == old(self).realtime,
            final(self).volume@ == old(self).volume@,
            final(self).freq@ == old(self).freq@,
            final(self).wave_form@ == old(self).wave_form@.update(0, data),
    {
        self.pre_write_generate_sound(clock);
        self.wave_form.set(0, data);
    }

    /// Writes the channel-1 waveform select, after catching up the stream.
    pub fn write_audio_ctrl_1(&mut self, clock: &clocks::Clock, address: u16, data: u8)
        requires
            old(self).wf(),
            old(self).last_update_time <= clock.ticks,
            clock.ticks <= 0x0001_0000_0000_0000,
        ensures
            final(self).wf(),
            final(self).last_update_time <= clock.ticks,
            ({
                let after = old(self).spec_sound_state_after(clock.ticks);
                &&& final(self).poly4state@ == after.0
                &&& final(self).poly5state@ == after.1
                &&& final(self).freq_pos@ == after.2
                &&& final(self).working_stream@ == after.3
                &&& final(self).last_update_time == after.4
            }),
            final(self).realtime == old(self).realtime,
            final(self).volume@ == old(self).volume@,
            final(self).freq@ == old(self).freq@,
            final(self).wave_form@ == old(self).wave_form@.update(1, data),
    {
        self.pre_write_generate_sound(clock);
        self.wave_form.set(1, data);
    }

    /// Writes the channel-0 frequency divider (five bits).
    pub fn write_audio_freq_0(&mut self, clock: &clocks::Clock, address: u16, data: u8)
        requires
            old(self).wf(),
            old(self).last_update_time <= clock.ticks,
            clock.ticks <= 0x0001_0000_0000_0000,
        ensures
            final(self).wf(),
            final(self).last_update_time <= clock.ticks,
            ({
                let after = old(self).spec_sound_state_after(clock.ticks);
                &&& final(self).poly4state@ == after.0
                &&& final(self).poly5state@ == after.1
                &&& final(self).freq_pos@ == after.2
                &&& final(self).working_stream@ == after.3
                &&& final(self).last_update_time == after.4
            }),
            final(self).realtime == old(self).realtime,
            final(self).volume@ == old(self).volume@,
            final(self).freq@ == old(self).freq@.update(0, data & 0x1F),
            final(self).wave_form@ == old(self).wave_form@,
    {
        self.pre_write_generate_sound(clock);
        self.freq.set(0, data & Self::FREQ_DATA_MASK);
    }

    /// Writes the channel-1 frequency divider (five bits).
    pub fn write_audio_freq_1(&mut self, clock: &clocks::Clock, address: u16, data: u8)
        requires
            old(self).wf(),
            old(self).last_update_time <= clock.ticks,
            clock.ticks <= 0x0001_0000_0000_0000,
        ensures
            final(self).wf(),
            final(self).last_update_time <= clock.ticks,
            ({
                let after = old(self).spec_sound_state_after(clock.ticks);
                &&& final(self).poly4state@ == after.0
                &&& final(self).poly5state@ == after.1
                &&& final(self).freq_pos@ == after.2
                &&& final(self).working_stream@ == after.3
                &&& final(self).last_update_time == after.4
            }),
            final(self).realtime == old(self).realtime,
            final(self).volume@ == old(self).volume@,
            final(self).freq@ == old(self).freq@.update(1, data & 0x1F),
            final(self).wave_form@ == old(self).wave_form@,
    {
        self.pre_write_generate_sound(clock);
        self.freq.set(1, data & Self::FREQ_DATA_MASK);
    }

    /// Writes the channel-0 volume, after catching up the stream.
    pub fn write_audio_vol_0(&mut self, clock: &clocks::Clock, address: u16, data: u8)
        requires
            old(self).wf(),
            old(self).last_update_time <= clock.ticks,
            clock.ticks <= 0x0001_0000_0000_0000,
        ensures
            final(self).wf(),
            final(self).last_update_time <= clock.ticks,
            ({
                let after = old(self).spec_sound_state_after(clock.ticks);
                &&& final(self).poly4state@ == after.0
                &&& final(self).poly5state@ == after.1
                &&& final(self).freq_pos@ == after.2
                &&& final(self).working_stream@ == after.3
                &&& final(self).last_update_time == after.4
            }),
            final(self).realtime == old(self).realtime,
            final(self).volume@ == old(self).volume@.update(0, data),
            final(self).freq@ == old(self).freq@,
            final(self).wave_form@ == old(self).wave_form@,
    {
        self.pre_write_generate_sound(clock);
        self.volume.set(0, data);
        self.post_write_generate_sound();
    }

    /// Writes the channel-1 volume, after catching up the stream.
    pub fn write_audio_vol_1(&mut self, clock: &clocks::Clock, address: u16, data: u8)
        requires
            old(self).wf(),
            old(self).last_update_time <= clock.ticks,
            clock.ticks <= 0x0001_0000_0000_0000,
        ensures
            final(self).wf(),
            final(self).last_update_time <= clock.ticks,
            ({
                let after = old(self).spec_sound_state_after(clock.ticks);
                &&& final(self).poly4state@ == after.0
                &&& final(self).poly5state@ == after.1
                &&& final(self).freq_pos@ == after.2
                &&& final(self).working_stream@ == after.3
                &&& final(self).last_update_time == after.4
            }),
            final(self).realtime == old(self).realtime,
            final(self).volume@ == old(self).volume@.update(1, data),
            final(self).freq@ == old(self).freq@,
            final(self).wave_form@ == old(self).wave_form@,
    {
        self.pre_write_generate_sound(clock);
        self.volume.set(1, data);
        self.post_write_generate_sound();
    }

    fn post_write_generate_sound(&mut self)
        ensures
            *final(self) == *old(self),
    {
    }

    /// Polls the channel: catches the sound state up to "now".
    pub fn step(&mut self, clock: &clocks::Clock)
        requires
            old(self).wf(),
            old(self).last_update_time <= clock.ticks,
            clock.ticks <= 0x0001_0000_0000_0000,
        ensures
            final(self).wf(),
            Self::sound_caught_up(*old(self), *final(self), clock.ticks),
            final(self).last_update_time <= clock.ticks,
    {
        self.pre_write_generate_sound(clock);
    }

    /// Hands the host up to `2 * length` queued stereo samples, oldest first.
    pub fn get_next_audio_chunk(&mut self, length: u32) -> (stream: Vec<PlaybackType>)
        ensures
            stream@ == old(self).working_stream@.take(
                if 2 * length <= old(self).working_stream@.len() {
                    2 * length as int
                } else {
                    old(self).working_stream@.len() as int
                },
            ),
            final(self).working_stream@ == old(self).working_stream@.skip(stream@.len() as int),
            *final(self) == (TiaSound { working_stream: final(self).working_stream, ..*old(self) }),
    {
        let avail = self.working_stream.len();
        let two_len: u64 = 2 * (length as u64);
        let want: usize = if two_len <= avail as u64 {
            two_len as usize
        } else {
            avail
        };
        let mut stream: Vec<u8> = Vec::new();
        let mut i: usize = 0;
        while i < want
            invariant
                i <= want,
                want <= self.working_stream@.len(),
                stream@ == self.working_stream@.take(i as int),
            decreases want - i,
        {
            stream.push(self.working_stream[i]);
            assert(stream@ =~= self.working_stream@.take(i + 1 as int));
            i = i + 1;
        }
        let mut rest: Vec<u8> = Vec::new();
        let mut j: usize = want;
        while j < avail
            invariant
                want <= j <= avail,
                avail == self.working_stream@.len(),
                rest@ == self.working_stream@.subrange(want as int, j as int),
            decreases avail - j,
        {
            rest.push(self.working_stream[j]);
            assert(rest@ =~= self.working_stream@.subrange(want as int, j + 1 as int));
            j = j + 1;
        }
        assert(rest@ =~= self.working_stream@.skip(want as int));
        self.working_stream = rest;
        stream
    }
}

} // verus!
