use vstd::prelude::*;
use vstd::string::*;

use crate::fps::{decimal, decimal_string};

pub mod debug;
pub mod settings;

verus! {

pub const MAX_AUDIO_LATENCY_MICROS: u32 = 40_000;
pub const MIN_AUDIO_LATENCY_MICROS: u32 = 8_000;

/// The player's audio settings.
#[derive(Debug, Clone, Hash)]
pub struct AudioSettings {
    pub volume: u8,
    pub output_device: Option<String>,
    /// In microseconds.
    pub latency_micros: u32,
}

/// The latency that a stored latency turns into: itself when it lies in the
/// supported range (the maximum excluded), else the default.
pub open spec fn spec_sanitized_latency(latency_micros: u32) -> u32 {
    if MIN_AUDIO_LATENCY_MICROS <= latency_micros < MAX_AUDIO_LATENCY_MICROS {
        latency_micros
    } else {
        16_000
    }
}

/// A stored latency inside the supported range (from the minimum up to, not
/// including, the maximum) is read back as it is; only one outside the range
/// is replaced, by the 16 ms default. Reading back twice changes nothing more.
pub proof fn lemma_supported_latency_kept(latency_micros: u32)
    ensures
        8_000 <= latency_micros < 40_000 ==> spec_sanitized_latency(latency_micros) == latency_micros,
        !(8_000 <= latency_micros < 40_000) ==> spec_sanitized_latency(latency_micros) == 16_000,
        8_000 <= spec_sanitized_latency(latency_micros) < 40_000,
        spec_sanitized_latency(spec_sanitized_latency(latency_micros)) == spec_sanitized_latency(latency_micros),
{
}

/// Whether `names[i]` is the first name equal to `want`.
pub open spec fn first_named(names: Seq<String>, want: Seq<char>, i: int) -> bool {
    &&& 0 <= i < names.len()
    &&& names[i]@ == want
    &&& forall|j: int| 0 <= j < i ==> (#[trigger] names[j])@ != want
}

impl AudioSettings {
    /// The latency used when none is stored: 16 ms.
    pub fn default_latency_micros() -> (latency: u32)
        ensures
            latency == 16_000,
    {
        16_000
    }

    /// The latency a stored value is read as; see [`spec_sanitized_latency`].
    pub fn sanitized_latency_micros(latency_micros: u32) -> (latency: u32)
        ensures
            latency == spec_sanitized_latency(latency_micros),
            MIN_AUDIO_LATENCY_MICROS <= latency < MAX_AUDIO_LATENCY_MICROS,
    {
        if MIN_AUDIO_LATENCY_MICROS <= latency_micros && latency_micros < MAX_AUDIO_LATENCY_MICROS {
            latency_micros
        } else {
            Self::default_latency_micros()
        }
    }

    /// Picks the output device among the available ones, the system's default
    /// first: the selected one when it is available, else the default, which
    /// then becomes the selected one. Returns its position.
    pub fn get_selected_device(&mut self, available_device_names: &Vec<String>) -> (chosen: usize)
        requires
            available_device_names@.len() > 0,
        ensures
            chosen < available_device_names@.len(),
            match old(self).output_device {
                Some(want) => if exists|i: int| first_named(available_device_names@, want@, i) {
                    first_named(available_device_names@, want@, chosen as int)
                } else {
                    chosen == 0
                },
                None => chosen == 0,
            },
            final(self).output_device == Some(available_device_names@[chosen as int]),
            final(self).volume == old(self).volume,
            final(self).latency_micros == old(self).latency_micros,
    {
        let chosen: usize = match &self.output_device {
            Some(want) => match position_of(available_device_names, want) {
                Some(i) => i,
                None => 0,
            },
            None => 0,
        };
        self.output_device = Some(available_device_names[chosen].clone());
        chosen
    }
}

/// The position of the first name equal to `want`.
fn position_of(names: &Vec<String>, want: &String) -> (r: Option<usize>)
    ensures
        match r {
            Some(i) => first_named(names@, want@, i as int),
            None => forall|k: int| !first_named(names@, want@, k),
        },
{
    let n = names.len();
    let mut i: usize = 0;
    while i < n
        invariant
            n == names@.len(),
            i <= n,
            forall|j: int| 0 <= j < i ==> (#[trigger] names@[j])@ != want@,
        decreases n - i,
    {
        if names[i] == *want {
            return Some(i);
        }
        i = i + 1;
    }
    None
}

/// The order output devices are offered in: the system's default first, then
/// every other device in the order the system lists them.
pub fn available_device_order(default_id: u32, device_ids: &Vec<u32>) -> (order: Vec<u32>)
    ensures
        order@ == seq![default_id] + device_ids@.filter(|id: u32| id != default_id),
{
    let mut order: Vec<u32> = Vec::new();
    order.push(default_id);
    let n = device_ids.len();
    let mut i: usize = 0;
    while i < n
        invariant
            n == device_ids@.len(),
            i <= n,
            order@ == seq![default_id] + device_ids@.take(i as int).filter(|id: u32| id != default_id),
        decreases n - i,
    {
        proof {
            assert(device_ids@.take(i as int + 1).drop_last() =~= device_ids@.take(i as int));
            reveal_with_fuel(Seq::<u32>::filter, 1);
        }
        if device_ids[i] != default_id {
            order.push(device_ids[i]);
        }
        i = i + 1;
    }
    proof {
        assert(device_ids@.take(n as int) =~= device_ids@);
    }
    order
}

/// The name an output device is shown under: a fixed one for the system's
/// default device, else the name the system reports, else `No name (<id>)`.
pub fn device_display_name(device_id: u32, is_system_default: bool, reported_name: Option<String>) -> (name: String)
    ensures
        is_system_default ==> name@ == "Systems default speaker"@,
        !is_system_default && reported_name is Some ==> name == reported_name->Some_0,
        !is_system_default && reported_name is None ==> name@ == "No name ("@ + decimal(device_id as nat) + ")"@,
{
    if is_system_default {
        String::from_str("Systems default speaker")
    } else {
        match reported_name {
            Some(n) => n,
            None => {
                let mut name = String::from_str("No name (");
                let digits = decimal_string(device_id as u64);
                name.append(digits.as_str());
                name.append(")");
                name
            },
        }
    }
}

/// The latency, in whole milliseconds, of an output buffer of `frames`
/// samples per channel (wrapping like a cast to a byte).
pub fn frames_to_latency(frames: u32, channel_count: u8, sample_rate: u32) -> (latency: u8)
    requires
        channel_count > 0,
        sample_rate > 0,
    ensures
        latency == ((frames as u64 * 1000) / (channel_count as u64 * sample_rate as u64)) as u8,
{
    let c = channel_count as u64;
    let r = sample_rate as u64;
    assert(0 < c * r <= 255 * 4294967295) by (nonlinear_arith)
        requires
            0 < c <= 255,
            0 < r <= 4294967295,
    ;
    let divisor: u64 = c * r;
    let millis: u64 = (frames as u64 * 1_000) / divisor;
    (#[verifier::truncate] (millis as u8))
}

} // verus!
