use vstd::prelude::*;
use crate::apu::AudioChannel;
use crate::error::NesError;

verus! {

/// Where the console plays its sound. The console sends no samples: it
/// says how each channel is to sound, and the sink makes the waves.
pub trait NesAudio {
    /// Switches a channel on or off.
    fn enable_channel(&mut self, channel: AudioChannel, enabled: bool) -> Result<(), NesError>;

    /// Changes how a pulse channel sounds. `duty_cycle` is in eighths of a
    /// period (1, 2, 4 or 6), `volume` in fifteenths of full volume (0 to
    /// 15), `freq` in hertz. What is `None` stays as it is.
    fn update_pulse(
        &mut self,
        pulse: AudioChannel,
        duty_cycle: Option<u8>,
        volume: Option<u8>,
        freq: Option<u16>,
    ) -> Result<(), NesError>;

    /// Changes the frequency of the triangle channel, in hertz, or mutes
    /// and unmutes it. What is `None` stays as it is.
    fn update_triangle(&mut self, freq: Option<u16>, mute: Option<bool>) -> Result<(), NesError>;
}

/// A loudspeaker that plays nothing.
pub struct NoAudio;

impl NesAudio for NoAudio {
    fn enable_channel(&mut self, channel: AudioChannel, enabled: bool) -> (res: Result<
        (),
        NesError,
    >)
        ensures
            res == Ok::<(), NesError>(()),
    {
        Ok(())
    }

    fn update_pulse(
        &mut self,
        pulse: AudioChannel,
        duty_cycle: Option<u8>,
        volume: Option<u8>,
        freq: Option<u16>,
    ) -> (res: Result<(), NesError>)
        ensures
            res == Ok::<(), NesError>(()),
    {
        Ok(())
    }

    fn update_triangle(&mut self, freq: Option<u16>, mute: Option<bool>) -> (res: Result<
        (),
        NesError,
    >)
        ensures
            res == Ok::<(), NesError>(()),
    {
        Ok(())
    }
}

} // verus!
