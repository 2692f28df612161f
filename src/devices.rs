use vstd::prelude::*;

verus! {

/// Flag of a device that can be used.
pub const DEVICE_ENABLED: u32 = 1;

/// What the audio engine reports of one output device.
#[derive(Clone, Debug)]
pub struct DeviceInfo {
    pub driver: String,
    pub name: String,
    pub flags: u32,
}

pub open spec fn is_enabled(d: DeviceInfo) -> bool {
    d.flags & DEVICE_ENABLED != 0
}

/// The `(driver, name)` pairs of the enabled devices, in order.
pub open spec fn enabled_devices(devices: Seq<DeviceInfo>) -> Seq<(String, String)>
    decreases devices.len(),
{
    if devices.len() == 0 {
        Seq::empty()
    } else if is_enabled(devices.last()) {
        enabled_devices(devices.drop_last()).push((devices.last().driver, devices.last().name))
    } else {
        enabled_devices(devices.drop_last())
    }
}

/// The volume of streams in the engine's units (0 to 10000) for a
/// volume in percent, which is capped at 100.
pub open spec fn spec_stream_volume(volume: int) -> int {
    if volume < 100 {
        volume * 100
    } else {
        10000
    }
}

/// The engine's description of an error code.
pub open spec fn error_description(code: i32) -> Seq<char> {
    match code {
        1 => "Memory error"@,
        2 => "Can't open the file"@,
        3 => "Can't find a free/valid driver"@,
        4 => "The sample buffer was lost"@,
        5 => "Invalid handle"@,
        6 => "Unsupported sample format"@,
        7 => "Invalid position"@,
        8 => "BASS_Init has not been successfully called"@,
        9 => "BASS_Start has not been successfully called"@,
        10 => "SSL/HTTPS support isn't available"@,
        14 => "Already initialized/paused/whatever"@,
        17 => "File does not contain audio"@,
        18 => "Can't get a free channel"@,
        19 => "An illegal type was specified"@,
        20 => "An illegal parameter was specified"@,
        21 => "No 3D support"@,
        22 => "No EAX support"@,
        23 => "Illegal device number"@,
        24 => "Not playing"@,
        25 => "Illegal sample rate"@,
        27 => "The stream is not a file stream"@,
        29 => "No hardware voices available"@,
        31 => "The MOD music has no sequence data"@,
        32 => "No internet connection could be opened"@,
        33 => "Couldn't create the file"@,
        34 => "Effects are not available"@,
        37 => "Requested data/action is not available"@,
        38 => "The channel is/isn't a \"decoding channel\""@,
        39 => "A sufficient DirectX version is not installed"@,
        40 => "Connection timed out"@,
        41 => "Unsupported file format"@,
        42 => "Unavailable speaker"@,
        43 => "Invalid BASS version (used by add-ons)"@,
        44 => "Codec is not available/supported"@,
        45 => "The channel/file has ended"@,
        46 => "The device is busy"@,
        47 => "Unstreamable file"@,
        _ => "Unknown"@,
    }
}

/// The `(driver, name)` pairs of the devices that can be used.
pub fn list_audio_devices(devices: &Vec<DeviceInfo>) -> (r: Vec<(String, String)>)
    ensures
        r@ == enabled_devices(devices@),
{
    let mut r: Vec<(String, String)> = Vec::new();
    let mut i: usize = 0;
    while i < devices.len()
        invariant
            i <= devices@.len(),
            r@ == enabled_devices(devices@.take(i as int)),
        decreases devices@.len() - i,
    {
        proof {
            assert(devices@.take(i + 1).drop_last() =~= devices@.take(i as int));
            assert(devices@.take(i + 1).last() == devices@[i as int]);
        }
        let d = &devices[i];
        if d.flags & DEVICE_ENABLED != 0 {
            r.push((d.driver.clone(), d.name.clone()));
        }
        i = i + 1;
    }
    assert(devices@.take(devices@.len() as int) =~= devices@);
    r
}

/// The engine's number of the device whose driver is `driver`: devices are
/// numbered from 1 in the order given; an empty or unknown driver selects
/// device 1.
pub fn find_device_index(devices: &Vec<DeviceInfo>, driver: &String) -> (r: u32)
    requires
        devices@.len() < u32::MAX,
    ensures
        driver@.len() == 0 ==> r == 1,
        driver@.len() > 0 && (exists|k: int|
            0 <= k < devices@.len() && (#[trigger] devices@[k]).driver@ == driver@) ==> {
            &&& 1 <= r <= devices@.len()
            &&& devices@[r - 1].driver@ == driver@
            &&& forall|k: int| 0 <= k < r - 1 ==> (#[trigger] devices@[k]).driver@ != driver@
        },
        (forall|k: int| 0 <= k < devices@.len() ==> (#[trigger] devices@[k]).driver@ != driver@)
            ==> r == 1,
{
    let text = driver.as_str();
    if text.unicode_len() == 0 {
        return 1;
    }
    let mut i: usize = 0;
    while i < devices.len()
        invariant
            i <= devices@.len() < u32::MAX,
            driver@.len() > 0,
            forall|k: int| 0 <= k < i ==> (#[trigger] devices@[k]).driver@ != driver@,
        decreases devices@.len() - i,
    {
        if devices[i].driver == *driver {
            return (i + 1) as u32;
        }
        i = i + 1;
    }
    1
}

/// The volume of streams in the engine's units for `volume` percent.
pub fn stream_volume(volume: u32) -> (r: u32)
    ensures
        r == spec_stream_volume(volume as int),
{
    if volume < 100 {
        volume * 100
    } else {
        10000
    }
}

/// The engine's description of the error `code`.
pub fn error_text(code: i32) -> (r: &'static str)
    ensures
        r@ == error_description(code),
{
    match code {
        1 => "Memory error",
        2 => "Can't open the file",
        3 => "Can't find a free/valid driver",
        4 => "The sample buffer was lost",
        5 => "Invalid handle",
        6 => "Unsupported sample format",
        7 => "Invalid position",
        8 => "BASS_Init has not been successfully called",
        9 => "BASS_Start has not been successfully called",
        10 => "SSL/HTTPS support isn't available",
        14 => "Already initialized/paused/whatever",
        17 => "File does not contain audio",
        18 => "Can't get a free channel",
        19 => "An illegal type was specified",
        20 => "An illegal parameter was specified",
        21 => "No 3D support",
        22 => "No EAX support",
        23 => "Illegal device number",
        24 => "Not playing",
        25 => "Illegal sample rate",
        27 => "The stream is not a file stream",
        29 => "No hardware voices available",
        31 => "The MOD music has no sequence data",
        32 => "No internet connection could be opened",
        33 => "Couldn't create the file",
        34 => "Effects are not available",
        37 => "Requested data/action is not available",
        38 => "The channel is/isn't a \"decoding channel\"",
        39 => "A sufficient DirectX version is not installed",
        40 => "Connection timed out",
        41 => "Unsupported file format",
        42 => "Unavailable speaker",
        43 => "Invalid BASS version (used by add-ons)",
        44 => "Codec is not available/supported",
        45 => "The channel/file has ended",
        46 => "The device is busy",
        47 => "Unstreamable file",
        _ => "Unknown",
    }
}

} // verus!
