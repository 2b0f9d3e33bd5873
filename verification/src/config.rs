//! The application configuration consumed by the engine.

use vstd::prelude::*;

verus! {

/// The application configuration: which serial port to read, at what
/// rate, and the audio outputs the device switcher cycles through.
/// Loading and saving the file it lives in happens outside the library;
/// the engine consumes the values as they stand here.
#[derive(Debug, PartialEq)]
pub struct Config {
    pub com_port: usize,
    pub baud_rate: usize,
    pub audio_devices: Vec<String>,
}

impl Config {
    /// First-touch initialization hook; the configuration needs none.
    pub fn init(&self) {
    }
}

impl Clone for Config {
    /// An exact copy of the configuration.
    fn clone(&self) -> (r: Self)
        ensures
            r.com_port == self.com_port,
            r.baud_rate == self.baud_rate,
            r.audio_devices.deep_view() == self.audio_devices.deep_view(),
    {
        let mut devices: Vec<String> = Vec::new();
        let mut i: usize = 0;
        while i < self.audio_devices.len()
            invariant
                i <= self.audio_devices.len(),
                devices.deep_view() == self.audio_devices.deep_view().take(i as int),
            decreases self.audio_devices.len() - i,
        {
            assert(self.audio_devices.deep_view()[i as int] == self.audio_devices@[i as int]@);
            devices.push(self.audio_devices[i].clone());
            i = i + 1;
            proof {
                let dv = self.audio_devices.deep_view();
                assert(dv.take(i as int) =~= dv.take(i - 1).push(dv[i - 1]));
                assert(devices.deep_view() =~= dv.take(i as int));
            }
        }
        proof {
            let dv = self.audio_devices.deep_view();
            assert(dv.take(self.audio_devices.len() as int) =~= dv);
        }
        Config {
            com_port: self.com_port,
            baud_rate: self.baud_rate,
            audio_devices: devices,
        }
    }
}

impl Default for Config {
    /// The configuration written on first start: serial port eight at
    /// 9600 baud, cycling between the two usual outputs.
    fn default() -> (r: Config)
        ensures
            r.com_port == 8,
            r.baud_rate == 9600,
            r.audio_devices.deep_view() == seq!["Speakers"@, "Headphones"@],
    {
        let mut audio_devices: Vec<String> = Vec::new();
        audio_devices.push("Speakers".to_owned());
        audio_devices.push("Headphones".to_owned());
        proof {
            assert(audio_devices.deep_view() =~= seq!["Speakers"@, "Headphones"@]);
        }
        Config { com_port: 8, baud_rate: 9600, audio_devices }
    }
}

} // verus!
