//! Audio input devices.
use vstd::prelude::*;

verus! {

broadcast use vstd::string::group_string_axioms;

/// Audio device information.
#[derive(Debug, Clone, PartialEq, Eq)]
pub struct AudioDevice {
    /// Device identifier (the device name).
    pub id: String,
    /// Human-readable device name.
    pub name: String,
    /// Whether this device can be used as input.
    pub is_input: bool,
    /// Whether this device can be used as output.
    pub is_output: bool,
    /// Sample rate in Hz (if available).
    pub sample_rate: Option<u32>,
    /// Number of channels (if available).
    pub channels: Option<u32>,
}

/// What the audio host reported for one input device: its name (none when it
/// could not be read) and its default input format (sample rate, channels), if any.
#[derive(Debug, Clone, PartialEq, Eq)]
pub struct InputDeviceProbe {
    pub name: Option<String>,
    pub default_format: Option<(u32, u16)>,
}

/// Device manager for listing available audio devices.
pub struct DeviceManager;

/// The device entry listed for a probe with a readable name.
pub open spec fn device_listed_for(d: AudioDevice, p: InputDeviceProbe) -> bool {
    &&& p.name matches Some(n)
    &&& d.id@ == n@
    &&& d.name@ == n@
    &&& d.is_input
    &&& !d.is_output
    &&& d.sample_rate == (match p.default_format {
        Some((rate, _)) => Some(rate),
        None => None,
    })
    &&& d.channels == (match p.default_format {
        Some((_, ch)) => Some(ch as u32),
        None => None,
    })
}

/// The probes whose device name could be read, in order.
pub open spec fn named_probes(probes: Seq<InputDeviceProbe>) -> Seq<InputDeviceProbe> {
    probes.filter(|p: InputDeviceProbe| p.name is Some)
}

impl DeviceManager {
    /// Lists the input devices the host reported, skipping those whose name
    /// cannot be read; an error when none is left.
    pub fn input_devices_from(probes: &Vec<InputDeviceProbe>) -> (r: Result<Vec<AudioDevice>, String>)
        ensures
            match r {
                Ok(devices) => {
                    &&& devices@.len() == named_probes(probes@).len()
                    &&& devices@.len() > 0
                    &&& forall|i: int|
                        0 <= i < devices@.len() ==> device_listed_for(
                            #[trigger] devices@[i],
                            named_probes(probes@)[i],
                        )
                },
                Err(m) => named_probes(probes@).len() == 0 && m@ == "No input devices found"@,
            },
    {
        let mut devices: Vec<AudioDevice> = Vec::new();
        let mut i: usize = 0;
        while i < probes.len()
            invariant
                i <= probes@.len(),
                devices@.len() == named_probes(probes@.take(i as int)).len(),
                forall|k: int|
                    0 <= k < devices@.len() ==> device_listed_for(
                        #[trigger] devices@[k],
                        named_probes(probes@.take(i as int))[k],
                    ),
            decreases probes@.len() - i,
        {
            let p = &probes[i];
            proof {
                assert(probes@.take(i + 1).drop_last() =~= probes@.take(i as int));
                reveal_with_fuel(Seq::filter, 1);
            }
            match &p.name {
                Some(name) => {
                    let (sample_rate, channels) = match p.default_format {
                        Some((rate, ch)) => (Some(rate), Some(ch as u32)),
                        None => (None, None),
                    };
                    devices.push(
                        AudioDevice {
                            id: name.clone(),
                            name: name.clone(),
                            is_input: true,
                            is_output: false,
                            sample_rate,
                            channels,
                        },
                    );
                },
                None => {},
            }
            i = i + 1;
        }
        assert(probes@.take(probes@.len() as int) =~= probes@);
        if devices.len() == 0 {
            return Err(String::from_str("No input devices found"));
        }
        Ok(devices)
    }
}

} // verus!
