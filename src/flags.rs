//! Status flags reported by the station and by its hub.

use vstd::prelude::*;

use crate::error::DecodeError;

verus! {

/// Mask of the sensor status bit that reports a failed lightning sensor.
pub const LIGHTNING_FAILURE_MASK: u32 = 0x1;
/// Mask of the sensor status bit that reports lightning sensor noise.
pub const LIGHTNING_NOISE_MASK: u32 = 0x2;
/// Mask of the sensor status bit that reports a lightning disturber.
pub const LIGHTNING_DISTURBER_MASK: u32 = 0x4;
/// Mask of the sensor status bit that reports a failed pressure sensor.
pub const PRESSURE_FAILED_MASK: u32 = 0x8;
/// Mask of the sensor status bit that reports a failed temperature sensor.
pub const TEMPERATURE_FAILED_MASK: u32 = 0x10;
/// Mask of the sensor status bit that reports a failed humidity sensor.
pub const HUMIDITY_FAILED_MASK: u32 = 0x20;
/// Mask of the sensor status bit that reports a failed wind sensor.
pub const WIND_FAILED_MASK: u32 = 0x40;
/// Mask of the sensor status bit that reports a failed precipitation sensor.
pub const PRECIP_FAILED_MASK: u32 = 0x80;
/// Mask of the sensor status bit that reports a failed irradiance sensor.
pub const IRRADIANCE_FAILED_MASK: u32 = 0x100;
/// Mask of the sensor status bit that reports a depleted power booster.
pub const POWER_BOOSTER_DEPLETED_MASK: u32 = 0x8000;
/// Mask of the sensor status bit that reports the power booster on shore power.
pub const POWER_BOOSTER_SHORE_POWER_MASK: u32 = 0x10000;

/// The conditions that a station reports in its sensor status field, one per bit.
#[derive(Debug, Clone, Copy, PartialEq, Eq, Structural)]
pub struct SensorStatus {
    pub lightning_failure: bool,
    pub lightning_noise: bool,
    pub lightning_disturber: bool,
    pub pressure_failed: bool,
    pub temperature_failed: bool,
    pub humidity_failed: bool,
    pub wind_failed: bool,
    pub precip_failed: bool,
    pub irradiance_failed: bool,
    pub power_booster_depleted: bool,
    pub power_booster_shore_power: bool,
}

/// Whether any bit of `mask` is set in `field`.
pub open spec fn has_bit(field: u32, mask: u32) -> bool {
    field & mask != 0
}

impl SensorStatus {
    /// The status that a sensor status field describes; bits without a meaning are ignored.
    pub open spec fn of_field(field: u32) -> SensorStatus {
        SensorStatus {
            lightning_failure: has_bit(field, LIGHTNING_FAILURE_MASK),
            lightning_noise: has_bit(field, LIGHTNING_NOISE_MASK),
            lightning_disturber: has_bit(field, LIGHTNING_DISTURBER_MASK),
            pressure_failed: has_bit(field, PRESSURE_FAILED_MASK),
            temperature_failed: has_bit(field, TEMPERATURE_FAILED_MASK),
            humidity_failed: has_bit(field, HUMIDITY_FAILED_MASK),
            wind_failed: has_bit(field, WIND_FAILED_MASK),
            precip_failed: has_bit(field, PRECIP_FAILED_MASK),
            irradiance_failed: has_bit(field, IRRADIANCE_FAILED_MASK),
            power_booster_depleted: has_bit(field, POWER_BOOSTER_DEPLETED_MASK),
            power_booster_shore_power: has_bit(field, POWER_BOOSTER_SHORE_POWER_MASK),
        }
    }
}

impl From<u32> for SensorStatus {
    fn from(field: u32) -> Self {
        SensorStatus {
            lightning_failure: field & LIGHTNING_FAILURE_MASK != 0,
            lightning_noise: field & LIGHTNING_NOISE_MASK != 0,
            lightning_disturber: field & LIGHTNING_DISTURBER_MASK != 0,
            pressure_failed: field & PRESSURE_FAILED_MASK != 0,
            temperature_failed: field & TEMPERATURE_FAILED_MASK != 0,
            humidity_failed: field & HUMIDITY_FAILED_MASK != 0,
            wind_failed: field & WIND_FAILED_MASK != 0,
            precip_failed: field & PRECIP_FAILED_MASK != 0,
            irradiance_failed: field & IRRADIANCE_FAILED_MASK != 0,
            power_booster_depleted: field & POWER_BOOSTER_DEPLETED_MASK != 0,
            power_booster_shore_power: field & POWER_BOOSTER_SHORE_POWER_MASK != 0,
        }
    }
}

impl vstd::std_specs::convert::FromSpecImpl<u32> for SensorStatus {
    open spec fn obeys_from_spec() -> bool {
        true
    }

    open spec fn from_spec(field: u32) -> Self {
        SensorStatus::of_field(field)
    }
}

/// The labels of a comma-separated list, in order; an empty list has one empty label.
pub open spec fn split_labels(s: Seq<char>) -> Seq<Seq<char>>
    decreases s.len(),
{
    if s.len() == 0 {
        seq![Seq::empty()]
    } else {
        let before = split_labels(s.drop_last());
        if s.last() == ',' {
            before.push(Seq::empty())
        } else {
            before.update(before.len() - 1, before.last().push(s.last()))
        }
    }
}

pub open spec fn brownout_label() -> Seq<char> {
    seq!['B', 'O', 'R']
}

pub open spec fn pin_label() -> Seq<char> {
    seq!['P', 'I', 'N']
}

pub open spec fn power_on_label() -> Seq<char> {
    seq!['P', 'O', 'R']
}

pub open spec fn software_label() -> Seq<char> {
    seq!['S', 'F', 'T']
}

pub open spec fn watchdog_label() -> Seq<char> {
    seq!['W', 'D', 'G']
}

pub open spec fn window_watchdog_label() -> Seq<char> {
    seq!['W', 'W', 'D']
}

pub open spec fn low_power_label() -> Seq<char> {
    seq!['L', 'P', 'W']
}

pub open spec fn hard_fault_label() -> Seq<char> {
    seq!['H', 'R', 'D', 'F', 'L', 'T']
}

/// Whether `label` names one of the reset causes.
pub open spec fn is_reset_label(label: Seq<char>) -> bool {
    ||| label == brownout_label()
    ||| label == pin_label()
    ||| label == power_on_label()
    ||| label == software_label()
    ||| label == watchdog_label()
    ||| label == window_watchdog_label()
    ||| label == low_power_label()
    ||| label == hard_fault_label()
}

/// Whether every label of `labels` names a reset cause.
pub open spec fn all_reset_labels(labels: Seq<Seq<char>>) -> bool {
    forall|k: int| 0 <= k < labels.len() ==> is_reset_label(#[trigger] labels[k])
}

/// `labels[k]` is the first label of `labels` that names no reset cause.
pub open spec fn is_first_unknown(labels: Seq<Seq<char>>, k: int) -> bool {
    &&& 0 <= k < labels.len()
    &&& !is_reset_label(labels[k])
    &&& forall|j: int| 0 <= j < k ==> is_reset_label(#[trigger] labels[j])
}

/// `e` is the error for the first label of `s` that names no reset cause.
pub open spec fn is_reset_label_error(s: Seq<char>, e: DecodeError) -> bool {
    exists|k: int|
        {
            &&& is_first_unknown(split_labels(s), k)
            &&& e matches DecodeError::UnrecognizedResetFlag { label }
            &&& label@ == split_labels(s)[k]
        }
}

/// The causes of the hub's last reset, one flag per cause.
#[derive(Debug, Clone, Copy, PartialEq, Eq, Structural)]
pub struct ResetFlags {
    pub brownout: bool,
    pub pin: bool,
    pub power_on: bool,
    pub software: bool,
    pub watchdog: bool,
    pub window_watchdog: bool,
    pub low_power: bool,
    pub hard_fault: bool,
}

impl ResetFlags {
    /// The flags of the causes that `labels` lists.
    pub open spec fn of_labels(labels: Seq<Seq<char>>) -> ResetFlags {
        ResetFlags {
            brownout: labels.contains(brownout_label()),
            pin: labels.contains(pin_label()),
            power_on: labels.contains(power_on_label()),
            software: labels.contains(software_label()),
            watchdog: labels.contains(watchdog_label()),
            window_watchdog: labels.contains(window_watchdog_label()),
            low_power: labels.contains(low_power_label()),
            hard_fault: labels.contains(hard_fault_label()),
        }
    }

    /// The flags with one more label listed.
    pub open spec fn with_label(self, label: Seq<char>) -> ResetFlags {
        ResetFlags {
            brownout: self.brownout || label == brownout_label(),
            pin: self.pin || label == pin_label(),
            power_on: self.power_on || label == power_on_label(),
            software: self.software || label == software_label(),
            watchdog: self.watchdog || label == watchdog_label(),
            window_watchdog: self.window_watchdog || label == window_watchdog_label(),
            low_power: self.low_power || label == low_power_label(),
            hard_fault: self.hard_fault || label == hard_fault_label(),
        }
    }

    /// No cause flagged.
    pub fn none() -> (r: ResetFlags)
        ensures
            r == ResetFlags::of_labels(Seq::empty()),
    {
        ResetFlags {
            brownout: false,
            pin: false,
            power_on: false,
            software: false,
            watchdog: false,
            window_watchdog: false,
            low_power: false,
            hard_fault: false,
        }
    }

    proof fn lemma_of_labels_push(labels: Seq<Seq<char>>, label: Seq<char>)
        ensures
            ResetFlags::of_labels(labels.push(label)) == ResetFlags::of_labels(labels).with_label(
                label,
            ),
    {
        let pushed = labels.push(label);
        assert forall|x: Seq<char>| pushed.contains(x) == (labels.contains(x) || x == label) by {
            if labels.contains(x) {
                let k = choose|k: int| 0 <= k < labels.len() && labels[k] == x;
                assert(pushed[k] == x);
            }
            if x == label {
                assert(pushed[labels.len() as int] == x);
            }
            if pushed.contains(x) {
                let k = choose|k: int| 0 <= k < pushed.len() && pushed[k] == x;
                if k < labels.len() {
                    assert(labels[k] == x);
                }
            }
        }
    }

    /// The flags with `label` added, or `None` where it names no cause.
    fn label_flags(label: &Vec<char>, flags: ResetFlags) -> (r: Option<ResetFlags>)
        ensures
            r is Some <==> is_reset_label(label@),
            r matches Some(next) ==> next == flags.with_label(label@),
    {
        let mut next = flags;
        if same_chars(label, &['B', 'O', 'R']) {
            next.brownout = true;
        } else if same_chars(label, &['P', 'I', 'N']) {
            next.pin = true;
        } else if same_chars(label, &['P', 'O', 'R']) {
            next.power_on = true;
        } else if same_chars(label, &['S', 'F', 'T']) {
            next.software = true;
        } else if same_chars(label, &['W', 'D', 'G']) {
            next.watchdog = true;
        } else if same_chars(label, &['W', 'W', 'D']) {
            next.window_watchdog = true;
        } else if same_chars(label, &['L', 'P', 'W']) {
            next.low_power = true;
        } else if same_chars(label, &['H', 'R', 'D', 'F', 'L', 'T']) {
            next.hard_fault = true;
        } else {
            return None;
        }
        Some(next)
    }

    /// Decodes a comma-separated list of reset labels. The list is rejected at its
    /// first label that names no cause (an empty label included).
    pub fn parse(s: &str) -> (r: Result<ResetFlags, DecodeError>)
        ensures
            r is Ok <==> all_reset_labels(split_labels(s@)),
            r matches Ok(flags) ==> flags == ResetFlags::of_labels(split_labels(s@)),
            r matches Err(e) ==> is_reset_label_error(s@, e),
    {
        let n = s.unicode_len();
        let mut flags = ResetFlags::none();
        let mut label: Vec<char> = Vec::new();
        let mut start: usize = 0;
        let mut i: usize = 0;
        assert(s@.subrange(0, 0) =~= Seq::<char>::empty());
        while i < n
            invariant
                n == s@.len(),
                i <= n,
                start <= i,
                label@ == s@.subrange(start as int, i as int),
                split_labels(s@.subrange(0, i as int)).len() >= 1,
                split_labels(s@.subrange(0, i as int)).last() == label@,
                all_reset_labels(split_labels(s@.subrange(0, i as int)).drop_last()),
                flags == ResetFlags::of_labels(split_labels(s@.subrange(0, i as int)).drop_last()),
            decreases n - i,
        {
            let c = s.get_char(i);
            let ghost before = split_labels(s@.subrange(0, i as int));
            let ghost prefix = s@.subrange(0, i + 1);
            assert(prefix.drop_last() =~= s@.subrange(0, i as int));
            assert(prefix.last() == c);
            if c == ',' {
                match Self::label_flags(&label, flags) {
                    Some(next) => {
                        proof {
                            Self::lemma_of_labels_push(before.drop_last(), label@);
                            assert(before.drop_last().push(label@) =~= before);
                            assert(split_labels(prefix).drop_last() =~= before);
                        }
                        flags = next;
                    },
                    None => {
                        let text = s.substring_char(start, i).to_owned();
                        proof {
                            let k = before.len() - 1;
                            lemma_split_labels_keep(s@, i as int, n as int);
                            assert(s@.subrange(0, n as int) =~= s@);
                            let all = split_labels(s@);
                            assert(all[k] == label@);
                            assert forall|j: int| 0 <= j < k implies is_reset_label(
                                #[trigger] all[j],
                            ) by {
                                assert(before.drop_last()[j] == before[j]);
                            }
                            assert(is_first_unknown(all, k));
                        }
                        return Err(DecodeError::UnrecognizedResetFlag { label: text });
                    },
                }
                label = Vec::new();
                start = i + 1;
                assert(label@ =~= s@.subrange(start as int, i + 1));
            } else {
                label.push(c);
                assert(label@ =~= s@.subrange(start as int, i + 1));
                assert(split_labels(prefix).drop_last() =~= before.drop_last());
            }
            i = i + 1;
        }
        assert(s@.subrange(0, n as int) =~= s@);
        let ghost labels = split_labels(s@);
        match Self::label_flags(&label, flags) {
            Some(next) => {
                proof {
                    Self::lemma_of_labels_push(labels.drop_last(), label@);
                    assert(labels.drop_last().push(label@) =~= labels);
                }
                Ok(next)
            },
            None => {
                let text = s.substring_char(start, n).to_owned();
                assert forall|j: int| 0 <= j < labels.len() - 1 implies is_reset_label(
                    #[trigger] labels[j],
                ) by {
                    assert(labels.drop_last()[j] == labels[j]);
                }
                assert(is_first_unknown(labels, labels.len() - 1));
                Err(DecodeError::UnrecognizedResetFlag { label: text })
            },
        }
    }
}

impl std::str::FromStr for ResetFlags {
    type Err = DecodeError;

    fn from_str(s: &str) -> (r: Result<ResetFlags, DecodeError>)
        ensures
            r is Ok <==> all_reset_labels(split_labels(s@)),
            r matches Ok(flags) ==> flags == ResetFlags::of_labels(split_labels(s@)),
            r matches Err(e) ==> is_reset_label_error(s@, e),
    {
        ResetFlags::parse(s)
    }
}

/// Whether `label` holds exactly the characters of `expected`.
fn same_chars(label: &Vec<char>, expected: &[char]) -> (r: bool)
    ensures
        r == (label@ == expected@),
{
    if label.len() != expected.len() {
        return false;
    }
    let mut i: usize = 0;
    while i < label.len()
        invariant
            label@.len() == expected@.len(),
            i <= label@.len(),
            forall|j: int| 0 <= j < i ==> label@[j] == expected@[j],
        decreases label@.len() - i,
    {
        if label[i] != expected[i] {
            return false;
        }
        i = i + 1;
    }
    assert(label@ =~= expected@);
    true
}

/// Past a comma at `i`, the labels that end before it stay as they are.
proof fn lemma_split_labels_keep(s: Seq<char>, i: int, j: int)
    requires
        0 <= i < j <= s.len(),
        s[i] == ',',
    ensures
        split_labels(s.subrange(0, j)).len() > split_labels(s.subrange(0, i)).len(),
        forall|k: int|
            0 <= k < split_labels(s.subrange(0, i)).len() ==> split_labels(s.subrange(0, j))[k]
                == split_labels(s.subrange(0, i))[k],
    decreases j - i,
{
    assert(s.subrange(0, j).drop_last() =~= s.subrange(0, j - 1));
    if j > i + 1 {
        lemma_split_labels_keep(s, i, j - 1);
    }
}

} // verus!
