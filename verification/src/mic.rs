//! Choosing the microphone to sing into, and noticing when it stops
//! delivering sound.
use vstd::prelude::*;
use crate::display::AppConfig;
use crate::text::{contains, contains_text, lowercase_of, owned, to_lowercase};

verus! {

/// An input device as the audio host describes it.
#[derive(Clone, Debug)]
pub struct MicDevice {
    /// The name shown for it.
    pub name: String,
    /// Its default sample rate; none when the host gives it no default
    /// input configuration.
    pub sample_rate: Option<u32>,
    /// It is connected over Bluetooth.
    pub bluetooth: bool,
}

/// Parts of a device name that mark a virtual or monitoring device.
pub open spec fn virtual_patterns() -> Seq<Seq<char>> {
    seq![
        "jack audio connection kit"@,
        "monitor of"@,
        "loopback"@,
        "virtual"@,
        "null"@,
        "zoom"@,
    ]
}

/// A device is virtual when its lowercased name contains one of the
/// patterns.
pub open spec fn is_virtual_spec(name: Seq<char>) -> bool {
    exists|i: int|
        0 <= i < virtual_patterns().len() && #[trigger] contains_text(
            lowercase_of(name),
            virtual_patterns()[i],
        )
}

/// Whether a device with this name is virtual.
pub fn is_virtual_name(name: &str) -> (r: bool)
    ensures
        r == is_virtual_spec(name@),
{
    let lower = to_lowercase(name);
    let l = lower.as_str();
    let hit = contains(l, "jack audio connection kit") || contains(l, "monitor of") || contains(
        l,
        "loopback",
    ) || contains(l, "virtual") || contains(l, "null") || contains(l, "zoom");
    proof {
        let p = virtual_patterns();
        if hit {
        } else {
            assert forall|i: int| 0 <= i < p.len() implies !#[trigger] contains_text(
                lowercase_of(name@),
                p[i],
            ) by {
                if i == 0 {
                } else if i == 1 {
                } else if i == 2 {
                } else if i == 3 {
                } else if i == 4 {
                } else {
                    assert(i == 5);
                }
            }
        }
        if hit {
            if contains_text(l@, "jack audio connection kit"@) {
                assert(contains_text(lowercase_of(name@), p[0]));
            } else if contains_text(l@, "monitor of"@) {
                assert(contains_text(lowercase_of(name@), p[1]));
            } else if contains_text(l@, "loopback"@) {
                assert(contains_text(lowercase_of(name@), p[2]));
            } else if contains_text(l@, "virtual"@) {
                assert(contains_text(lowercase_of(name@), p[3]));
            } else if contains_text(l@, "null"@) {
                assert(contains_text(lowercase_of(name@), p[4]));
            } else {
                assert(contains_text(lowercase_of(name@), p[5]));
            }
        }
    }
    hit
}

/// The names of the devices a singer may pick from: the ones that are not
/// virtual, in the host's order.
pub open spec fn pickable_names(devices: Seq<MicDevice>) -> Seq<Seq<char>>
    decreases devices.len(),
{
    if devices.len() == 0 {
        seq![]
    } else {
        let rest = pickable_names(devices.drop_last());
        if is_virtual_spec(devices.last().name@) {
            rest
        } else {
            rest.push(devices.last().name@)
        }
    }
}

/// The names of the devices a singer may pick from.
pub fn available_devices(devices: &Vec<MicDevice>) -> (out: Vec<String>)
    ensures
        out@.map_values(|s: String| s@) == pickable_names(devices@),
{
    let mut out: Vec<String> = Vec::new();
    let mut i: usize = 0;
    while i < devices.len()
        invariant
            i <= devices@.len(),
            out@.map_values(|s: String| s@) == pickable_names(devices@.subrange(0, i as int)),
        decreases devices@.len() - i,
    {
        let d = &devices[i];
        proof {
            let pre = devices@.subrange(0, i + 1);
            assert(pre.drop_last() =~= devices@.subrange(0, i as int));
            assert(pre.last() == devices@[i as int]);
        }
        if !is_virtual_name(d.name.as_str()) {
            let n = crate::text::owned(d.name.as_str());
            let ghost before = out@;
            out.push(n);
            assert(out@.map_values(|s: String| s@) =~= before.map_values(|s: String| s@).push(
                n@,
            ));
        }
        i = i + 1;
    }
    assert(devices@.subrange(0, devices@.len() as int) =~= devices@);
    out
}

/// A device the automatic choice may take: it has a default input
/// configuration and is not virtual.
pub open spec fn usable(d: MicDevice) -> bool {
    d.sample_rate is Some && !is_virtual_spec(d.name@)
}

/// `a` is a better microphone than `b`: wired before Bluetooth, then the
/// higher sample rate.
pub open spec fn better(a: MicDevice, b: MicDevice) -> bool {
    if a.bluetooth != b.bluetooth {
        !a.bluetooth
    } else {
        a.sample_rate.unwrap() > b.sample_rate.unwrap()
    }
}

/// The automatic choice among the first `n` devices: the first usable one
/// that no later usable one is better than.
pub open spec fn auto_pick(devices: Seq<MicDevice>, n: int) -> Option<int>
    decreases n,
{
    if n <= 0 {
        None
    } else {
        let before = auto_pick(devices, n - 1);
        let d = devices[n - 1];
        if !usable(d) {
            before
        } else {
            match before {
                None => Some(n - 1),
                Some(k) => if better(d, devices[k]) {
                    Some(n - 1)
                } else {
                    before
                },
            }
        }
    }
}

/// Where the search for the named device stops, from position `i` on: the
/// first device of that name that is virtual or has a configuration.
pub open spec fn named_stop(devices: Seq<MicDevice>, name: Seq<char>, i: int) -> Option<int>
    decreases devices.len() - i,
{
    if i < 0 || i >= devices.len() {
        None
    } else if devices[i].name@ == name && (is_virtual_spec(devices[i].name@)
        || devices[i].sample_rate is Some) {
        Some(i)
    } else {
        named_stop(devices, name, i + 1)
    }
}

/// The microphone used: the preferred one when a device of that name has a
/// configuration and is not virtual (the first such stop decides), else the
/// automatic choice.
pub open spec fn select_spec(devices: Seq<MicDevice>, preferred: Option<Seq<char>>) -> Option<int> {
    match preferred {
        Some(p) => match named_stop(devices, p, 0) {
            Some(i) => if is_virtual_spec(devices[i].name@) {
                auto_pick(devices, devices.len() as int)
            } else {
                Some(i)
            },
            None => auto_pick(devices, devices.len() as int),
        },
        None => auto_pick(devices, devices.len() as int),
    }
}

fn find_named(devices: &Vec<MicDevice>, name: &str) -> (r: Option<usize>)
    ensures
        r matches Some(i) ==> i < devices@.len() && named_stop(devices@, name@, 0) == Some(
            i as int,
        ),
        r is None ==> named_stop(devices@, name@, 0) is None,
{
    let mut i: usize = 0;
    while i < devices.len()
        invariant
            i <= devices@.len(),
            named_stop(devices@, name@, 0) == named_stop(devices@, name@, i as int),
        decreases devices@.len() - i,
    {
        let d = &devices[i];
        if crate::text::same_text(d.name.as_str(), name) {
            let v = is_virtual_name(d.name.as_str());
            if v || d.sample_rate.is_some() {
                return Some(i);
            }
        }
        i = i + 1;
    }
    None
}

fn auto_select(devices: &Vec<MicDevice>) -> (r: Option<usize>)
    ensures
        r matches Some(i) ==> auto_pick(devices@, devices@.len() as int) == Some(i as int),
        r is None ==> auto_pick(devices@, devices@.len() as int) is None,
{
    let mut best: Option<usize> = None;
    let mut i: usize = 0;
    while i < devices.len()
        invariant
            i <= devices@.len(),
            match best {
                Some(k) => auto_pick(devices@, i as int) == Some(k as int) && k < i,
                None => auto_pick(devices@, i as int) is None,
            },
        decreases devices@.len() - i,
    {
        let d = &devices[i];
        let virt = is_virtual_name(d.name.as_str());
        match d.sample_rate {
            None => {},
            Some(sr) => {
                if !virt {
                    match best {
                        None => {
                            best = Some(i);
                        },
                        Some(k) => {
                            let b = &devices[k];
                            let beats = if d.bluetooth != b.bluetooth {
                                !d.bluetooth
                            } else {
                                match b.sample_rate {
                                    Some(bsr) => sr > bsr,
                                    None => true,
                                }
                            };
                            proof {
                                assert(usable(devices@[k as int])) by {
                                    lemma_auto_pick_usable(devices@, i as int);
                                }
                            }
                            if beats {
                                best = Some(i);
                            }
                        },
                    }
                }
            },
        }
        i = i + 1;
    }
    best
}

/// The automatic choice, when there is one, is a usable device among the
/// first `n`.
pub proof fn lemma_auto_pick_usable(devices: Seq<MicDevice>, n: int)
    requires
        n <= devices.len(),
    ensures
        auto_pick(devices, n) matches Some(k) ==> 0 <= k < n && usable(devices[k]),
    decreases n,
{
    if n > 0 {
        lemma_auto_pick_usable(devices, n - 1);
    }
}

/// The preferred device's name, when there is one.
pub open spec fn preferred_name(preferred: Option<&str>) -> Option<Seq<char>> {
    match preferred {
        Some(p) => Some(p@),
        None => None,
    }
}

/// Chooses the microphone: its position among the devices, or none when
/// no device can be used.
pub fn select_device(devices: &Vec<MicDevice>, preferred: Option<&str>) -> (r: Option<usize>)
    ensures
        r matches Some(i) ==> select_spec(devices@, preferred_name(preferred)) == Some(
            i as int,
        ),
        r is None ==> select_spec(devices@, preferred_name(preferred)) is None,
{
    match preferred {
        Some(p) => {
            match find_named(devices, p) {
                Some(i) => {
                    if !is_virtual_name(devices[i].name.as_str()) {
                        return Some(i);
                    }
                },
                None => {},
            }
        },
        None => {},
    }
    auto_select(devices)
}

/// The automatic choice is a usable device, and no usable device is a
/// better microphone; there is a choice exactly when some device is usable.
pub proof fn law_auto_pick_is_best(devices: Seq<MicDevice>, n: int)
    requires
        0 <= n <= devices.len(),
    ensures
        auto_pick(devices, n) is Some <==> exists|j: int| 0 <= j < n && usable(#[trigger] devices[j]),
        auto_pick(devices, n) matches Some(k) ==> usable(devices[k]) && forall|j: int|
            0 <= j < n && usable(#[trigger] devices[j]) ==> !better(devices[j], devices[k]),
    decreases n,
{
    if n > 0 {
        law_auto_pick_is_best(devices, n - 1);
        lemma_auto_pick_usable(devices, n - 1);
        let d = devices[n - 1];
        match auto_pick(devices, n - 1) {
            None => {},
            Some(k) => {
                if usable(d) && better(d, devices[k]) {
                    assert forall|j: int| 0 <= j < n && usable(#[trigger] devices[j]) implies !better(
                        devices[j],
                        d,
                    ) by {
                        if j < n - 1 {
                            assert(!better(devices[j], devices[k]));
                        }
                    }
                }
            },
        }
    }
}

/// The first position from `i` on at which `names` holds `name`.
pub open spec fn position_from(names: Seq<String>, name: Seq<char>, i: int) -> Option<int>
    decreases names.len() - i,
{
    if i < 0 || i >= names.len() {
        None
    } else if names[i]@ == name {
        Some(i)
    } else {
        position_from(names, name, i + 1)
    }
}

/// The device to switch to from `current`: the one after it among the
/// pickable names, going round, or the first when `current` is not among
/// them; none when there is nothing else to switch to.
pub open spec fn next_device_spec(names: Seq<String>, current: Seq<char>) -> Option<int> {
    if names.len() <= 1 {
        None
    } else {
        match position_from(names, current, 0) {
            Some(i) => Some((i + 1) % (names.len() as int)),
            None => Some(0),
        }
    }
}

/// Picks the microphone to switch to.
pub fn next_device(names: &Vec<String>, current: &str) -> (r: Option<usize>)
    ensures
        match r {
            Some(k) => next_device_spec(names@, current@) == Some(k as int),
            None => next_device_spec(names@, current@) is None,
        },
{
    let n = names.len();
    if n <= 1 {
        return None;
    }
    let mut i: usize = 0;
    while i < n
        invariant
            i <= n == names@.len(),
            n > 1,
            position_from(names@, current@, 0) == position_from(names@, current@, i as int),
        decreases n - i,
    {
        if crate::text::same_text(names[i].as_str(), current) {
            proof {
                assert(position_from(names@, current@, i as int) == Some(i as int));
                if i + 1 < n {
                    vstd::arithmetic::div_mod::lemma_small_mod((i + 1) as nat, n as nat);
                } else {
                    vstd::arithmetic::div_mod::lemma_mod_self_0(n as int);
                }
            }
            return Some(if i + 1 < n {
                i + 1
            } else {
                0
            });
        }
        i = i + 1;
    }
    Some(0)
}

/// Switching goes round the list: from the device first listed at position
/// `i` it moves to position `i + 1`, and from the last back to the first,
/// so repeated switching reaches every device. A name not in the list
/// switches to the first; a list of one device or none has nothing to
/// switch to.
pub proof fn law_next_device_goes_round(names: Seq<String>, current: Seq<char>, i: int)
    requires
        0 <= i < names.len(),
        names[i]@ == current,
        forall|j: int| 0 <= j < i ==> (#[trigger] names[j])@ != current,
    ensures
        names.len() <= 1 ==> next_device_spec(names, current) is None,
        names.len() > 1 && i + 1 < names.len() ==> next_device_spec(names, current) == Some(i + 1),
        names.len() > 1 && i + 1 == names.len() ==> next_device_spec(names, current) == Some(0int),
{
    lemma_position_first(names, current, 0, i);
    if i + 1 < names.len() {
        vstd::arithmetic::div_mod::lemma_small_mod((i + 1) as nat, names.len() as nat);
    } else {
        vstd::arithmetic::div_mod::lemma_mod_self_0(names.len() as int);
    }
}

/// A current name that no device has switches to the first device.
pub proof fn law_next_device_unknown_name(names: Seq<String>, current: Seq<char>)
    requires
        names.len() > 1,
        forall|j: int| 0 <= j < names.len() ==> (#[trigger] names[j])@ != current,
    ensures
        next_device_spec(names, current) == Some(0int),
{
    lemma_position_absent(names, current, 0);
}

proof fn lemma_position_first(names: Seq<String>, current: Seq<char>, from: int, i: int)
    requires
        0 <= from <= i < names.len(),
        names[i]@ == current,
        forall|j: int| from <= j < i ==> (#[trigger] names[j])@ != current,
    ensures
        position_from(names, current, from) == Some(i),
    decreases i - from,
{
    if from < i {
        lemma_position_first(names, current, from + 1, i);
    }
}

proof fn lemma_position_absent(names: Seq<String>, current: Seq<char>, from: int)
    requires
        0 <= from,
        forall|j: int| from <= j < names.len() ==> (#[trigger] names[j])@ != current,
    ensures
        position_from(names, current, from) is None,
    decreases names.len() - from,
{
    if from < names.len() {
        lemma_position_absent(names, current, from + 1);
    }
}

/// The saved microphone is used when it can be: if the first device of
/// that name that is virtual or has a configuration is a non-virtual one
/// with a configuration, it is the one chosen, whether wired or Bluetooth
/// and whatever its sample rate.
pub proof fn law_preferred_device_used(devices: Seq<MicDevice>, p: Seq<char>, i: int)
    requires
        0 <= i < devices.len(),
        devices[i].name@ == p,
        devices[i].sample_rate is Some,
        !is_virtual_spec(p),
        forall|j: int|
            0 <= j < i && (#[trigger] devices[j]).name@ == p ==> devices[j].sample_rate is None
                && !is_virtual_spec(p),
    ensures
        select_spec(devices, Some(p)) == Some(i),
{
    lemma_named_stop_first(devices, p, 0, i);
}

/// Without a usable device of the saved name, the automatic choice decides.
pub proof fn law_missing_preferred_device_falls_back(devices: Seq<MicDevice>, p: Seq<char>)
    requires
        forall|j: int|
            0 <= j < devices.len() && (#[trigger] devices[j]).name@ == p ==> devices[j].sample_rate
                is None || is_virtual_spec(p),
    ensures
        select_spec(devices, Some(p)) == auto_pick(devices, devices.len() as int),
{
    lemma_named_stop_bad(devices, p, 0);
}

proof fn lemma_named_stop_first(devices: Seq<MicDevice>, p: Seq<char>, from: int, i: int)
    requires
        0 <= from <= i < devices.len(),
        devices[i].name@ == p,
        devices[i].sample_rate is Some,
        forall|j: int|
            from <= j < i && (#[trigger] devices[j]).name@ == p ==> devices[j].sample_rate is None
                && !is_virtual_spec(p),
    ensures
        named_stop(devices, p, from) == Some(i),
    decreases i - from,
{
    if from < i {
        lemma_named_stop_first(devices, p, from + 1, i);
    }
}

proof fn lemma_named_stop_bad(devices: Seq<MicDevice>, p: Seq<char>, from: int)
    requires
        0 <= from,
        forall|j: int|
            0 <= j < devices.len() && (#[trigger] devices[j]).name@ == p ==> devices[j].sample_rate
                is None || is_virtual_spec(p),
    ensures
        named_stop(devices, p, from) matches Some(k) ==> is_virtual_spec(devices[k].name@),
    decreases devices.len() - from,
{
    if from < devices.len() {
        lemma_named_stop_bad(devices, p, from + 1);
    }
}

/// The microphone in use: whether it listens, its name, and what the health
/// check has seen of its sample count.
#[derive(Clone, Debug)]
pub struct MicrophoneCapture {
    pub active: bool,
    pub device_name: String,
    /// The sample count seen at the last check.
    pub last_checked_count: u64,
    /// How many checks in a row saw no new samples.
    pub stale_ticks: u32,
}

/// After this many checks without new samples the microphone counts as
/// lost.
pub open spec fn stale_threshold() -> int {
    60
}

impl MicrophoneCapture {
    /// A microphone just opened: it listens when its stream started.
    pub fn started(device_name: String, has_stream: bool) -> (m: MicrophoneCapture)
        ensures
            m.active == has_stream,
            m.device_name == device_name,
            m.last_checked_count == 0,
            m.stale_ticks == 0,
    {
        MicrophoneCapture { active: has_stream, device_name, last_checked_count: 0, stale_ticks: 0 }
    }

    /// The microphone reopened after it was lost: listening when its stream
    /// started, and shown as disconnected when it did not.
    pub fn recovered(device_name: String, has_stream: bool) -> (m: MicrophoneCapture)
        ensures
            m.active == has_stream,
            has_stream ==> m.device_name == device_name,
            !has_stream ==> m.device_name@ == "(disconnected)"@,
            m.last_checked_count == 0,
            m.stale_ticks == 0,
    {
        if has_stream {
            MicrophoneCapture::started(device_name, true)
        } else {
            MicrophoneCapture::started(owned("(disconnected)"), false)
        }
    }

    /// Turns listening on or off and records the new state in the settings;
    /// returns it.
    pub fn toggle(&mut self, config: &mut AppConfig) -> (now: bool)
        ensures
            now == !old(self).active,
            *final(self) == (MicrophoneCapture { active: now, ..*old(self) }),
            *final(config) == (AppConfig { mic_active: Some(now), ..*old(config) }),
    {
        let now = config.toggle_mic(self.active);
        self.active = now;
        now
    }

    /// Switches to the microphone that was opened as `device_name`: it
    /// listens only when the one before listened and its stream started, and
    /// the settings remember it as the preferred one.
    pub fn switch_to(&mut self, config: &mut AppConfig, device_name: String, has_stream: bool)
        ensures
            final(self).active == (old(self).active && has_stream),
            final(self).device_name == device_name,
            final(self).last_checked_count == 0,
            final(self).stale_ticks == 0,
            *final(config) == (AppConfig { preferred_mic: Some(device_name), ..*old(config) }),
    {
        let was_active = self.active;
        config.remember_mic(device_name.clone());
        *self = MicrophoneCapture::started(device_name, has_stream);
        self.active = was_active && has_stream;
    }

    /// One check of the microphone, given whether it has a stream, whether
    /// the stream reported an error, and how many samples it has delivered in
    /// all. A microphone that does not listen or has no stream is healthy;
    /// one with a stream error is not; otherwise it is healthy until sixty
    /// checks in a row have seen the same count.
    pub fn check_health(&mut self, has_stream: bool, stream_error: bool, count: u64) -> (healthy:
        bool)
        requires
            old(self).stale_ticks < u32::MAX,
        ensures
            final(self).active == old(self).active,
            final(self).device_name == old(self).device_name,
            !old(self).active || !has_stream ==> healthy && final(self).last_checked_count == old(
                self,
            ).last_checked_count && final(self).stale_ticks == old(self).stale_ticks,
            old(self).active && has_stream && stream_error ==> !healthy
                && final(self).last_checked_count == old(self).last_checked_count
                && final(self).stale_ticks == old(self).stale_ticks,
            old(self).active && has_stream && !stream_error && count == old(self).last_checked_count
                ==> {
                &&& final(self).stale_ticks == old(self).stale_ticks + 1
                &&& final(self).last_checked_count == old(self).last_checked_count
            },
            old(self).active && has_stream && !stream_error && count != old(self).last_checked_count
                ==> {
                &&& final(self).stale_ticks == 0
                &&& final(self).last_checked_count == count
            },
            old(self).active && has_stream && !stream_error ==> healthy == (final(self).stale_ticks
                < stale_threshold()),
    {
        if !self.active || !has_stream {
            return true;
        }
        if stream_error {
            return false;
        }
        if count == self.last_checked_count {
            self.stale_ticks = self.stale_ticks + 1;
        } else {
            self.stale_ticks = 0;
            self.last_checked_count = count;
        }
        self.stale_ticks < 60
    }
}

} // verus!
