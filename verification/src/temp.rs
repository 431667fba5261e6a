use crate::celsius::Celsius;
use vstd::prelude::*;

verus! {

/// A sensor's label together with the temperature it reported.
#[derive(Clone, Debug)]
pub struct ComponentTemperature {
    pub label: String,
    pub temperature: Celsius,
}

/// What a `ComponentTemperature` stands for: the label as a sequence of
/// characters, and the temperature.
pub struct Reading {
    pub label: Seq<char>,
    pub temperature: Celsius,
}

impl View for ComponentTemperature {
    type V = Reading;

    open spec fn view(&self) -> Reading {
        Reading { label: self.label@, temperature: self.temperature }
    }
}

impl DeepView for ComponentTemperature {
    type V = Reading;

    open spec fn deep_view(&self) -> Reading {
        self@
    }
}

/// `pattern` stands in `text` from position `at` on.
pub open spec fn occurs_at(text: Seq<char>, pattern: Seq<char>, at: int) -> bool {
    &&& 0 <= at
    &&& at + pattern.len() <= text.len()
    &&& text.subrange(at, at + pattern.len()) == pattern
}

/// `text` starts with `pattern`.
pub open spec fn begins_with(text: Seq<char>, pattern: Seq<char>) -> bool {
    occurs_at(text, pattern, 0)
}

/// `pattern` stands somewhere in `text`.
pub open spec fn contains(text: Seq<char>, pattern: Seq<char>) -> bool {
    exists|at: int| occurs_at(text, pattern, at)
}

/// The labels of the sensors that report the temperature of the CPU die:
/// they start with `PMU` and hold `tdie`, in exactly this spelling.
pub open spec fn is_die_label(label: Seq<char>) -> bool {
    begins_with(label, "PMU"@) && contains(label, "tdie"@)
}

/// The characters of `text`, in order.
fn chars_of(text: &str) -> (chars: Vec<char>)
    ensures
        chars@ == text@,
{
    let mut chars: Vec<char> = Vec::new();
    for c in it: text.chars()
        invariant
            chars@ == it.seq().take(it.index()),
            it.seq() == text@,
    {
        chars.push(c);
    }
    chars
}

/// Compares `pattern` with the characters of `text` from `at` on.
fn matches_at(text: &Vec<char>, pattern: &Vec<char>, at: usize) -> (found: bool)
    ensures
        found == occurs_at(text@, pattern@, at as int),
{
    if pattern.len() > text.len() || at > text.len() - pattern.len() {
        return false;
    }
    let mut k: usize = 0;
    while k < pattern.len()
        invariant
            k <= pattern.len(),
            at + pattern.len() <= text.len(),
            forall|j: int| 0 <= j < k ==> text[at + j] == pattern[j],
        decreases pattern.len() - k,
    {
        if text[at + k] != pattern[k] {
            proof {
                let part = text@.subrange(at as int, at + pattern.len());
                assert(part[k as int] != pattern@[k as int]);
            }
            return false;
        }
        k += 1;
    }
    assert(text@.subrange(at as int, at + pattern.len()) =~= pattern@);
    true
}

/// Looks for `pattern` at every position of `text`.
fn occurs_in(text: &Vec<char>, pattern: &Vec<char>) -> (found: bool)
    ensures
        found == contains(text@, pattern@),
{
    if pattern.len() > text.len() {
        return false;
    }
    let last: usize = text.len() - pattern.len();
    let mut at: usize = 0;
    while at < last
        invariant
            at <= last,
            forall|i: int| 0 <= i < at ==> !occurs_at(text@, pattern@, i),
        decreases last - at,
    {
        if matches_at(text, pattern, at) {
            return true;
        }
        at += 1;
    }
    matches_at(text, pattern, last)
}

/// Whether `label` names a sensor of the CPU die.
pub fn is_die_sensor(label: &str) -> (die: bool)
    ensures
        die == is_die_label(label@),
{
    let text = chars_of(label);
    let prefix = chars_of("PMU");
    let marker = chars_of("tdie");
    matches_at(&text, &prefix, 0) && occurs_in(&text, &marker)
}

/// The reading that a scan of the first `count` readings keeps: the first
/// die sensor, replaced by each later die sensor whose temperature exceeds
/// that of the one kept so far.
pub open spec fn hottest_among(readings: Seq<Reading>, count: nat) -> Option<int>
    decreases count,
{
    if count == 0 {
        None
    } else {
        let last = count - 1;
        let kept = hottest_among(readings, last as nat);
        if !is_die_label(readings[last].label) {
            kept
        } else {
            match kept {
                None => Some(last),
                Some(best) => if readings[last].temperature.exceeds(readings[best].temperature) {
                    Some(last)
                } else {
                    kept
                },
            }
        }
    }
}

/// The position of the hottest die sensor in `readings`, if there is one.
pub open spec fn hottest_index(readings: Seq<Reading>) -> Option<int> {
    hottest_among(readings, readings.len())
}

/// The hottest die sensor in `readings`, if there is one.
pub open spec fn hottest(readings: Seq<Reading>) -> Option<Reading> {
    match hottest_index(readings) {
        Some(best) => Some(readings[best]),
        None => None,
    }
}

/// Picks the hottest die sensor out of `readings`.
///
/// The readings are taken in order. The first die sensor is kept until a
/// later one reports a strictly higher temperature, so of several equally
/// hot sensors the first wins, and a reading that is not a number never
/// replaces another.
pub fn hottest_die_sensor(readings: &[ComponentTemperature]) -> (found: Option<
    ComponentTemperature,
>)
    ensures
        found.deep_view() == hottest(readings.deep_view()),
        found is None <==> forall|i: int|
            0 <= i < readings.len() ==> !is_die_label(#[trigger] readings[i].label@),
{
    let ghost all = readings.deep_view();
    let mut best: Option<usize> = None;
    let mut i: usize = 0;
    while i < readings.len()
        invariant
            i <= readings.len(),
            all == readings.deep_view(),
            match best {
                Some(b) => b < i && hottest_among(all, i as nat) == Some(b as int),
                None => hottest_among(all, i as nat) is None,
            },
        decreases readings.len() - i,
    {
        if is_die_sensor(readings[i].label.as_str()) {
            match best {
                None => {
                    best = Some(i);
                },
                Some(b) => {
                    if readings[i].temperature.warmer_than(&readings[b].temperature) {
                        best = Some(i);
                    }
                },
            }
        }
        i += 1;
    }
    proof {
        lemma_none_without_die_sensor(all);
        if best is None {
            assert forall|i: int| 0 <= i < readings.len() implies !is_die_label(
                #[trigger] readings[i].label@,
            ) by {
                assert(all[i].label == readings[i].label@);
            }
        } else {
            let b = best->0 as int;
            assert(all[b].label == readings[b].label@);
        }
    }
    match best {
        Some(b) => Some(
            ComponentTemperature {
                label: readings[b].label.clone(),
                temperature: readings[b].temperature,
            },
        ),
        None => None,
    }
}

/// A scan keeps a position below `count`, and that of a die sensor; it keeps
/// nothing exactly when the first `count` readings hold no die sensor.
pub proof fn lemma_hottest_among_is_die_sensor(readings: Seq<Reading>, count: nat)
    requires
        count <= readings.len(),
    ensures
        hottest_among(readings, count) matches Some(best) ==> 0 <= best < count && is_die_label(
            readings[best].label,
        ),
        hottest_among(readings, count) is None <==> forall|i: int|
            0 <= i < count ==> !is_die_label(#[trigger] readings[i].label),
    decreases count,
{
    if count > 0 {
        lemma_hottest_among_is_die_sensor(readings, (count - 1) as nat);
    }
}

/// Without a die sensor among the readings there is no result, and only then.
pub proof fn lemma_none_without_die_sensor(readings: Seq<Reading>)
    ensures
        hottest(readings) is None <==> forall|i: int|
            0 <= i < readings.len() ==> !is_die_label(#[trigger] readings[i].label),
        hottest(readings) matches Some(r) ==> is_die_label(r.label),
{
    lemma_hottest_among_is_die_sensor(readings, readings.len());
}

/// Position `i` of `readings` holds a die sensor.
pub open spec fn die_sensor_at(readings: Seq<Reading>, i: int) -> bool {
    0 <= i < readings.len() && is_die_label(readings[i].label)
}

/// What a scan of the first `count` readings keeps is not exceeded by any
/// die sensor among them.
pub proof fn lemma_scan_keeps_unexceeded(readings: Seq<Reading>, count: nat)
    requires
        count <= readings.len(),
    ensures
        hottest_among(readings, count) matches Some(best) ==> forall|j: int|
            0 <= j < count && #[trigger] die_sensor_at(readings, j)
                ==> !readings[j].temperature.exceeds(readings[best].temperature),
    decreases count,
{
    if count > 0 {
        lemma_scan_keeps_unexceeded(readings, (count - 1) as nat);
        lemma_hottest_among_is_die_sensor(readings, (count - 1) as nat);
    }
}

/// No die sensor reports a temperature that exceeds that of the result.
pub proof fn lemma_hottest_is_unexceeded(readings: Seq<Reading>)
    ensures
        hottest(readings) matches Some(r) ==> forall|j: int| #[trigger]
            die_sensor_at(readings, j) ==> !readings[j].temperature.exceeds(r.temperature),
{
    lemma_scan_keeps_unexceeded(readings, readings.len());
}

/// Where the die sensors among the first `count` readings all report
/// numbers, a scan keeps the first of those with the highest temperature.
pub proof fn lemma_scan_keeps_first_maximum(readings: Seq<Reading>, count: nat)
    requires
        count <= readings.len(),
        forall|i: int|
            0 <= i < count && #[trigger] die_sensor_at(readings, i)
                ==> !readings[i].temperature.nan(),
    ensures
        hottest_among(readings, count) matches Some(best) ==> {
            &&& forall|j: int|
                0 <= j < count && #[trigger] die_sensor_at(readings, j)
                    ==> readings[j].temperature.ordinal() <= readings[best].temperature.ordinal()
            &&& forall|j: int|
                0 <= j < best && #[trigger] die_sensor_at(readings, j)
                    ==> readings[j].temperature.ordinal() < readings[best].temperature.ordinal()
        },
    decreases count,
{
    if count > 0 {
        lemma_scan_keeps_first_maximum(readings, (count - 1) as nat);
        lemma_hottest_among_is_die_sensor(readings, (count - 1) as nat);
        lemma_hottest_among_is_die_sensor(readings, count);
        match hottest_among(readings, (count - 1) as nat) {
            Some(kept) => {
                assert(die_sensor_at(readings, kept));
            },
            None => {},
        }
    }
}

/// With at least one die sensor, and numbers from all of them, the result is
/// the die sensor with the highest temperature; of several equally hot ones
/// it is the first.
pub proof fn lemma_hottest_is_first_maximum(readings: Seq<Reading>)
    requires
        exists|i: int| die_sensor_at(readings, i),
        forall|i: int| #[trigger] die_sensor_at(readings, i) ==> !readings[i].temperature.nan(),
    ensures
        hottest_index(readings) matches Some(best) && {
            &&& die_sensor_at(readings, best)
            &&& hottest(readings) == Some(readings[best])
            &&& forall|j: int| #[trigger]
                die_sensor_at(readings, j) ==> readings[j].temperature.ordinal()
                    <= readings[best].temperature.ordinal()
            &&& forall|j: int|
                j < best && #[trigger] die_sensor_at(readings, j)
                    ==> readings[j].temperature.ordinal() < readings[best].temperature.ordinal()
        },
{
    lemma_hottest_among_is_die_sensor(readings, readings.len());
    lemma_scan_keeps_first_maximum(readings, readings.len());
    let i = choose|i: int| die_sensor_at(readings, i);
    assert(is_die_label(readings[i].label));
}

/// `sysinfo::Components`: the list of hardware sensors as it was read at one
/// moment. Opaque here.
#[verifier::external_type_specification]
#[verifier::external_body]
pub struct ExComponents(sysinfo::Components);

/// `sysinfo::Component`: one hardware sensor of such a list. Opaque here.
#[verifier::external_type_specification]
#[verifier::external_body]
pub struct ExComponent(sysinfo::Component);

/// The label that a sensor carries.
pub uninterp spec fn sensor_label(component: sysinfo::Component) -> Seq<char>;

/// The temperature that a sensor carries, as the bit pattern of the
/// single-precision number, or `None` where the platform gave none.
pub uninterp spec fn sensor_reading(component: sysinfo::Component) -> Option<u32>;

/// `sysinfo::Components::new_with_refreshed_list` asks the operating system
/// for its sensors. Nothing is claimed of what it finds.
pub assume_specification[ sysinfo::Components::new_with_refreshed_list ]() -> (components:
    sysinfo::Components)
;

/// `sysinfo::Components::list` lends the sensors out as a slice. Nothing is
/// claimed of it.
pub assume_specification[ sysinfo::Components::list ](components: &sysinfo::Components) -> (list:
    &[sysinfo::Component])
;

/// `sysinfo::Component::label` returns the label stored in the sensor.
pub assume_specification[ sysinfo::Component::label ](component: &sysinfo::Component) -> (label:
    &str)
    ensures
        label@ == sensor_label(*component),
;

/// `sysinfo::Component::temperature` returns the temperature stored in the
/// sensor, if it has one. The number is handed on as its bit pattern
/// (`to_bits`), unchanged.
#[verifier::external_body]
fn reported_temperature(component: &sysinfo::Component) -> (reading: Option<Celsius>)
    ensures
        reading is Some <==> sensor_reading(*component) is Some,
        reading matches Some(t) ==> sensor_reading(*component) == Some(t.bits),
{
    component.temperature().map(|t| Celsius { bits: t.to_bits() })
}

/// What a sensor contributes to the readings: its label and temperature, if
/// it has a temperature.
pub open spec fn reading_of(component: sysinfo::Component) -> Option<Reading> {
    match sensor_reading(component) {
        Some(bits) => Some(
            Reading { label: sensor_label(component), temperature: Celsius { bits } },
        ),
        None => None,
    }
}

/// The readings of the sensors in `list` that have a temperature, in the
/// order of the list.
pub open spec fn available_readings(list: Seq<sysinfo::Component>) -> Seq<Reading>
    decreases list.len(),
{
    if list.len() == 0 {
        Seq::empty()
    } else {
        let before = available_readings(list.drop_last());
        match reading_of(list.last()) {
            Some(reading) => before.push(reading),
            None => before,
        }
    }
}

/// Takes label and temperature from each sensor that has a temperature.
pub fn collect_readings(list: &[sysinfo::Component]) -> (readings: Vec<ComponentTemperature>)
    ensures
        readings.deep_view() == available_readings(list@),
{
    let mut readings: Vec<ComponentTemperature> = Vec::new();
    let mut i: usize = 0;
    while i < list.len()
        invariant
            i <= list.len(),
            readings.deep_view() == available_readings(list@.take(i as int)),
        decreases list.len() - i,
    {
        let component = &list[i];
        let ghost before = readings.deep_view();
        proof {
            assert(list@.take(i + 1).drop_last() == list@.take(i as int));
        }
        if let Some(temperature) = reported_temperature(component) {
            let label = component.label().to_owned();
            readings.push(ComponentTemperature { label, temperature });
            assert(readings.deep_view() == before.push(reading_of(*component)->0));
        }
        i += 1;
    }
    assert(list@.take(list.len() as int) == list@);
    readings
}

/// Picks the hottest die sensor out of a list of sensors: of those that have
/// a temperature, the one that `hottest` describes.
pub fn hottest_component(list: &[sysinfo::Component]) -> (found: Option<ComponentTemperature>)
    ensures
        found.deep_view() == hottest(available_readings(list@)),
{
    let readings = collect_readings(list);
    hottest_die_sensor(readings.as_slice())
}

/// Reads the temperature of the CPU die.
///
/// Asks the operating system for its sensors, anew at each call, and picks
/// the hottest die sensor among those that report a temperature. `None`
/// means that there is no such sensor, which is no error. Which sensors
/// there are is for the machine to say, so all that holds of every answer
/// is that it comes from a die sensor; `hottest_component` says which one
/// it is for each list of sensors.
pub fn get_cpu_temperature() -> (found: Option<ComponentTemperature>)
    ensures
        found matches Some(reading) ==> is_die_label(reading.label@),
{
    let components = sysinfo::Components::new_with_refreshed_list();
    let list = components.list();
    let found = hottest_component(list);
    proof {
        lemma_none_without_die_sensor(available_readings(list@));
    }
    found
}

} // verus!
