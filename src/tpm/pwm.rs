use vstd::prelude::*;

use core::marker::PhantomData;

use super::{
    channel_count, channel_slot, configure_for_pwm, disable_channel, enable_timer,
    ensure_clock_active, set_channel_value, set_timer_mod_value, with_channel_control,
    with_channel_value, with_modulo, with_timer_clock, with_timer_sc, Timer, TimerPin, Tpm0, Tpm1,
    Tpm2, CNSC_EDGE_PWM, CNSC_MODE_BITS, SC_COUNTING, timer_gate,
};
use crate::mux::{mux_field, set_alternate, with_alternate, Alternate};
use crate::pins::{enable_port_clock, pin_slot_of, port_gate, with_port_clock, Pin};
use crate::registers::{wr, Reg, RegWrite, RegisterFile, Registers, TpmChannelRegs};

verus! {

/// Counter modulo used for PWM: the counter runs from 0 to 0xFFFE.
pub const PWM_MODULO: u16 = 0xFFFE;

/// The register file with channels `0..upto` of timer `t` disabled.
pub open spec fn channels_disabled(f: RegisterFile, t: nat, upto: nat) -> RegisterFile {
    RegisterFile {
        tpm_channels: Seq::new(
            f.tpm_channels.len(),
            |i: int|
                if channel_slot(t, 0) <= i < channel_slot(t, upto) {
                    TpmChannelRegs { csc: 0, ..f.tpm_channels[i] }
                } else {
                    f.tpm_channels[i]
                },
        ),
        ..f
    }
}

/// The register file after timer `t` is set up for PWM: clock on, counter
/// stopped, modulo set, every channel disabled, counter started.
pub open spec fn pwm_started(f: RegisterFile, t: nat) -> RegisterFile {
    let stopped = with_modulo(with_timer_sc(with_timer_clock(f, t), t, 0), t, PWM_MODULO);
    with_timer_sc(channels_disabled(stopped, t, channel_count(t)), t, SC_COUNTING)
}

/// The writes that disable channels `0..n` of timer `t`, in channel order.
pub open spec fn disable_writes(t: nat, n: nat) -> Seq<RegWrite> {
    Seq::new(n, |c: int| wr(Reg::TpmCnsc(channel_slot(t, c as nat) as usize), 0))
}

/// The writes that set up timer `t` for PWM, starting from `f`, in order:
/// clock on, counter stopped, modulo, every channel disabled, and the
/// counter restarted last.
pub open spec fn pwm_writes(f: RegisterFile, t: nat) -> Seq<RegWrite> {
    seq![
        wr(Reg::SimScgc6, f.scgc6 | timer_gate(t)),
        wr(Reg::TpmSc(t as usize), 0),
        wr(Reg::TpmMod(t as usize), PWM_MODULO as u32),
    ] + disable_writes(t, channel_count(t)) + seq![wr(Reg::TpmSc(t as usize), SC_COUNTING)]
}

/// The register file after channel `ch` of timer `t` is bound to pin
/// (`port`, `index`) with function `a`: port clock on, pin routed, channel
/// disabled.
pub open spec fn channel_disabled_on_pin(
    f: RegisterFile,
    t: nat,
    ch: nat,
    port: nat,
    index: nat,
    a: Alternate,
) -> RegisterFile {
    with_channel_control(with_alternate(with_port_clock(f, port), port, index, a), t, ch, 0)
}

/// The writes that bind channel `ch` of timer `t` to pin (`port`, `index`),
/// starting from `f`: port clock, multiplexer, then the channel disabled.
pub open spec fn bind_writes(f: RegisterFile, t: nat, ch: nat, port: nat, index: nat, a: Alternate) -> Seq<RegWrite> {
    seq![
        wr(Reg::SimScgc5, f.scgc5 | port_gate(port)),
        wr(Reg::PortPcrMux(pin_slot_of(port, index) as usize), mux_field(a) as u32),
        wr(Reg::TpmCnsc(channel_slot(t, ch) as usize), 0),
    ]
}

/// The register file after a disabled channel is given a zero compare value
/// and then edge-aligned PWM mode.
pub open spec fn channel_enabled(f: RegisterFile, t: nat, ch: nat) -> RegisterFile {
    with_channel_control(with_channel_value(f, t, ch, 0), t, ch, CNSC_EDGE_PWM)
}

/// The writes that reprogram a disabled channel: compare value zeroed,
/// then edge-aligned PWM selected.
pub open spec fn enable_writes(t: nat, ch: nat) -> Seq<RegWrite> {
    seq![
        wr(Reg::TpmCnv(channel_slot(t, ch) as usize), 0),
        wr(Reg::TpmCnsc(channel_slot(t, ch) as usize), CNSC_EDGE_PWM),
    ]
}

/// The channel's mode and edge bits read back clear: its disable has taken
/// effect.
pub open spec fn mode_cleared(f: RegisterFile, t: nat, ch: nat) -> bool {
    f.tpm_channels[channel_slot(t, ch)].csc & CNSC_MODE_BITS == 0
}

/// The channel's mode and edge bits read back as edge-aligned PWM.
pub open spec fn mode_is_pwm(f: RegisterFile, t: nat, ch: nat) -> bool {
    f.tpm_channels[channel_slot(t, ch)].csc & CNSC_MODE_BITS == CNSC_EDGE_PWM
}

/// A timer set up for PWM; [`Pwm::split`] hands out its channels.
pub struct Pwm<T> {
    _timer: T,
}

impl<T> Pwm<T> {
    /// The timer token held.
    pub closed spec fn timer(&self) -> T {
        self._timer
    }
}

impl<T: Timer> Pwm<T> {
    /// Sets up `timer` for PWM: switches on its clock, stops the counter,
    /// sets the modulo, disables every channel and starts the counter.
    pub fn new(regs: &mut Registers, timer: T) -> (r: Self)
        requires
            old(regs).wf(),
        ensures
            final(regs).wf(),
            final(regs)@ == pwm_started(old(regs)@, T::timer()),
            final(regs).log@ == old(regs).log@ + pwm_writes(old(regs)@, T::timer()),
            r.timer() == timer,
    {
        let t = T::index();
        let ghost log0 = regs.log@;
        ensure_clock_active::<T>(regs);
        enable_timer::<T>(regs, false);
        set_timer_mod_value::<T>(regs, PWM_MODULO);
        let ghost stopped = regs@;
        let ghost log1 = regs.log@;
        let count: u32 = if t == 0 {
            6
        } else {
            2
        };
        let mut c: u32 = 0;
        proof {
            assert(regs@.tpm_channels =~= channels_disabled(stopped, T::timer(), 0).tpm_channels);
            assert(regs@ =~~= channels_disabled(stopped, T::timer(), 0));
            assert(regs.log@ =~= log1 + disable_writes(T::timer(), 0));
        }
        while c < count
            invariant
                regs.wf(),
                t == T::timer(),
                t < 3,
                count == channel_count(T::timer()),
                c <= count,
                stopped.tpm_channels.len() == 18,
                regs@ == channels_disabled(stopped, T::timer(), c as nat),
                regs.log@ == log1 + disable_writes(T::timer(), c as nat),
            decreases count - c,
        {
            disable_channel::<T>(regs, c);
            proof {
                assert(regs.log@ =~= log1 + disable_writes(T::timer(), (c + 1) as nat));
                let next = channels_disabled(stopped, T::timer(), (c + 1) as nat);
                assert(regs@.tpm_channels =~= next.tpm_channels);
                assert(regs@ =~~= next);
            }
            c = c + 1;
        }
        enable_timer::<T>(regs, true);
        proof {
            assert(regs.log@ =~= log0 + pwm_writes(old(regs)@, T::timer()));
        }
        Pwm { _timer: timer }
    }
}

/// The six channels of TPM0.
pub struct HexChannels<'t, T: Timer> {
    pub channel0: Channel<'t, T, 0>,
    pub channel1: Channel<'t, T, 1>,
    pub channel2: Channel<'t, T, 2>,
    pub channel3: Channel<'t, T, 3>,
    pub channel4: Channel<'t, T, 4>,
    pub channel5: Channel<'t, T, 5>,
}

/// The two channels of TPM1 or TPM2.
pub struct DualChannels<'t, T: Timer> {
    pub channel0: Channel<'t, T, 0>,
    pub channel1: Channel<'t, T, 1>,
}

/// Channel `N` of a timer running PWM, not yet bound to a pin. Only
/// [`Pwm::split`] makes them, one for each channel the timer has.
pub struct Channel<'t, T: Timer, const N: u32> {
    _timer: PhantomData<&'t T>,
}

impl<'t, T: Timer, const N: u32> Channel<'t, T, N> {
    #[verifier::type_invariant]
    spec fn inv(self) -> bool {
        N < channel_count(T::timer())
    }

    fn new() -> (r: Self)
        requires
            N < channel_count(T::timer()),
    {
        Channel { _timer: PhantomData }
    }

    /// The channel number, which names a channel that the timer has.
    pub fn number(&self) -> (r: u32)
        ensures
            r == N,
            N < channel_count(T::timer()),
    {
        proof {
            use_type_invariant(self);
        }
        N
    }
}

impl Pwm<Tpm0> {
    /// Hands out the six channels, for as long as the timer is borrowed.
    pub fn split<'t>(&'t mut self) -> HexChannels<'t, Tpm0> {
        HexChannels {
            channel0: Channel::new(),
            channel1: Channel::new(),
            channel2: Channel::new(),
            channel3: Channel::new(),
            channel4: Channel::new(),
            channel5: Channel::new(),
        }
    }
}

impl Pwm<Tpm1> {
    /// Hands out the two channels, for as long as the timer is borrowed.
    pub fn split<'t>(&'t mut self) -> DualChannels<'t, Tpm1> {
        DualChannels { channel0: Channel::new(), channel1: Channel::new() }
    }
}

impl Pwm<Tpm2> {
    /// Hands out the two channels, for as long as the timer is borrowed.
    pub fn split<'t>(&'t mut self) -> DualChannels<'t, Tpm2> {
        DualChannels { channel0: Channel::new(), channel1: Channel::new() }
    }
}

impl<'t, T: Timer, const N: u32> Channel<'t, T, N> {
    /// Binds this channel to `pin`: switches on the pin's port clock, routes
    /// the pin to the timer and disables the channel. The disable takes a
    /// few timer clocks to take effect; once
    /// [`ChannelSetup::is_disabled`] reports it, [`ChannelSetup::enable`]
    /// reprograms the channel.
    pub fn use_with<P: Pin + TimerPin<T, N>>(self, regs: &mut Registers, pin: P) -> (r: ChannelSetup<'t, P, T, N>)
        requires
            old(regs).wf(),
        ensures
            final(regs).wf(),
            final(regs)@ == channel_disabled_on_pin(
                old(regs)@,
                T::timer(),
                N as nat,
                P::port(),
                P::pin(),
                P::timer_alternate(),
            ),
            final(regs).log@ == old(regs).log@ + bind_writes(
                old(regs)@,
                T::timer(),
                N as nat,
                P::port(),
                P::pin(),
                P::timer_alternate(),
            ),
            r.token() == pin,
    {
        proof {
            use_type_invariant(&self);
        }
        let ghost log0 = regs.log@;
        enable_port_clock(regs, &pin);
        set_alternate(regs, &pin, P::timer_alt());
        disable_channel::<T>(regs, N);
        proof {
            assert(regs.log@ =~= log0 + bind_writes(
                old(regs)@,
                T::timer(),
                N as nat,
                P::port(),
                P::pin(),
                P::timer_alternate(),
            ));
        }
        ChannelSetup { pin, _timer: PhantomData }
    }
}

/// Channel `N` bound to pin `P` and disabled, waiting for the disable to
/// take effect before it is reprogrammed.
pub struct ChannelSetup<'t, P, T: Timer, const N: u32> {
    pin: P,
    _timer: PhantomData<&'t T>,
}

impl<'t, P, T: Timer, const N: u32> ChannelSetup<'t, P, T, N> {
    #[verifier::type_invariant]
    spec fn inv(self) -> bool {
        N < channel_count(T::timer())
    }

    /// The channel number, which names a channel that the timer has.
    pub fn number(&self) -> (r: u32)
        ensures
            r == N,
            N < channel_count(T::timer()),
    {
        proof {
            use_type_invariant(self);
        }
        N
    }

    /// The pin token held.
    pub closed spec fn token(&self) -> P {
        self.pin
    }

    /// Whether the channel's mode and edge bits read back clear.
    pub fn is_disabled(&self, regs: &Registers) -> (r: bool)
        requires
            regs.wf(),
        ensures
            r == mode_cleared(regs@, T::timer(), N as nat),
    {
        proof {
            use_type_invariant(self);
        }
        let i = T::index() * 6 + N as usize;
        regs.tpm_channels[i].csc & CNSC_MODE_BITS == 0
    }

    /// Reprograms the disabled channel: zeroes its compare value, then
    /// selects edge-aligned PWM. The duty cycle starts at zero; the new mode
    /// takes effect once [`ActiveChannel::is_enabled`] reports it.
    pub fn enable(self, regs: &mut Registers) -> (r: ActiveChannel<'t, P, T, N>)
        requires
            old(regs).wf(),
            mode_cleared(old(regs)@, T::timer(), N as nat),
        ensures
            final(regs).wf(),
            final(regs)@ == channel_enabled(old(regs)@, T::timer(), N as nat),
            final(regs).log@ == old(regs).log@ + enable_writes(T::timer(), N as nat),
            r.token() == self.token(),
    {
        proof {
            use_type_invariant(&self);
        }
        let ghost log0 = regs.log@;
        set_channel_value::<T>(regs, N, 0);
        configure_for_pwm::<T>(regs, N);
        proof {
            assert(regs.log@ =~= log0 + enable_writes(T::timer(), N as nat));
        }
        ActiveChannel { pin: self.pin, _timer: PhantomData }
    }
}

/// Channel `N` of a timer driving a PWM signal on pin `P`.
pub struct ActiveChannel<'t, P, T: Timer, const N: u32> {
    pin: P,
    _timer: PhantomData<&'t T>,
}

impl<'t, P, T: Timer, const N: u32> ActiveChannel<'t, P, T, N> {
    #[verifier::type_invariant]
    spec fn inv(self) -> bool {
        N < channel_count(T::timer())
    }

    /// The channel number, which names a channel that the timer has.
    pub fn number(&self) -> (r: u32)
        ensures
            r == N,
            N < channel_count(T::timer()),
    {
        proof {
            use_type_invariant(self);
        }
        N
    }

    /// The pin token held.
    pub closed spec fn token(&self) -> P {
        self.pin
    }

    /// Unbinds the channel and gives back the pin token.
    pub fn release(self) -> (r: (Channel<'t, T, N>, P))
        ensures
            r.1 == self.token(),
    {
        proof {
            use_type_invariant(&self);
        }
        (Channel::new(), self.pin)
    }
}

impl<'t, P: Pin + TimerPin<T, N>, T: Timer, const N: u32> ActiveChannel<'t, P, T, N> {
    /// Whether the channel's mode and edge bits read back as edge-aligned
    /// PWM.
    pub fn is_enabled(&self, regs: &Registers) -> (r: bool)
        requires
            regs.wf(),
        ensures
            r == mode_is_pwm(regs@, T::timer(), N as nat),
    {
        proof {
            use_type_invariant(self);
        }
        let i = T::index() * 6 + N as usize;
        regs.tpm_channels[i].csc & CNSC_MODE_BITS == CNSC_EDGE_PWM
    }

    /// The largest duty cycle value.
    pub fn max_duty_cycle(&self) -> (r: u16)
        ensures
            r == u16::MAX,
    {
        u16::MAX
    }

    /// Sets the channel's compare value to `duty`.
    pub fn set_duty_cycle(&mut self, regs: &mut Registers, duty: u16)
        requires
            old(regs).wf(),
        ensures
            final(regs).wf(),
            final(regs)@ == with_channel_value(old(regs)@, T::timer(), N as nat, duty),
            final(regs).log@ == old(regs).log@.push(
                wr(Reg::TpmCnv(channel_slot(T::timer(), N as nat) as usize), duty as u32),
            ),
    {
        proof {
            use_type_invariant(&*self);
        }
        set_channel_value::<T>(regs, N, duty);
    }
}

} // verus!
