use crate::errors::ControlError;
use crate::fixed::{
    div_trunc, div_trunc_i128, div_trunc_i64, in_range, lemma_div_trunc_bound,
    lemma_div_trunc_nonneg, lemma_mul_bound, mul_wide, FX_MAX, SCALE,
};
use vstd::arithmetic::mul::lemma_mul_nonnegative;
use vstd::prelude::*;
use vstd::string::StringExecFns;

verus! {

/// The outside-air fraction estimated for the air handler, in thousandths:
/// zero when the temperature differential vanishes, and otherwise the
/// temperature-derived estimate raised to at least the commanded damper
/// floor.
pub open spec fn spec_percent_oa(
    mixed_air_temp: int,
    return_air_temp: int,
    outside_air_temp: int,
    damper_cmd: int,
) -> int {
    if outside_air_temp == return_air_temp {
        0
    } else {
        let raw = div_trunc(
            (mixed_air_temp - return_air_temp) * (SCALE as int),
            outside_air_temp - return_air_temp,
        );
        let floor = div_trunc(damper_cmd, 100);
        if floor > raw {
            floor
        } else {
            raw
        }
    }
}

/// Estimates the air handler's outside-air fraction from the mixed-air,
/// return-air and outside-air temperatures and the commanded outside-air
/// damper position (in thousandths of a percent).  When the outside-air and
/// return-air temperatures coincide the temperature-based estimate is
/// undefined and the defined fallback of zero is returned; otherwise the
/// temperature-derived estimate is returned, but never less than the
/// commanded damper floor, which is an enforced lower bound on outside-air
/// delivery.  Out-of-range inputs are rejected.
pub fn calculate_ahu_percent_oa(
    mixed_air_temp: i64,
    return_air_temp: i64,
    outside_air_temp: i64,
    ahu_outside_air_damper_cmd: i64,
) -> (r: Result<i64, ControlError>)
    ensures
        r is Ok <==> (in_range(mixed_air_temp as int) && in_range(return_air_temp as int)
            && in_range(outside_air_temp as int) && in_range(ahu_outside_air_damper_cmd as int)),
        r is Ok ==> r->Ok_0 as int == spec_percent_oa(
            mixed_air_temp as int,
            return_air_temp as int,
            outside_air_temp as int,
            ahu_outside_air_damper_cmd as int,
        ),
        r is Err ==> r->Err_0 == ControlError::InvalidInput,
{
    if mixed_air_temp < -FX_MAX || mixed_air_temp > FX_MAX || return_air_temp < -FX_MAX
        || return_air_temp > FX_MAX || outside_air_temp < -FX_MAX || outside_air_temp > FX_MAX
        || ahu_outside_air_damper_cmd < -FX_MAX || ahu_outside_air_damper_cmd > FX_MAX {
        return Err(ControlError::InvalidInput);
    }
    if outside_air_temp == return_air_temp {
        return Ok(0);
    }
    let numerator: i64 = (mixed_air_temp - return_air_temp) * SCALE;
    let raw: i64 = div_trunc_i64(numerator, outside_air_temp - return_air_temp);
    let floor: i64 = div_trunc_i64(ahu_outside_air_damper_cmd, 100);
    if floor > raw {
        Ok(floor)
    } else {
        Ok(raw)
    }
}

/// The per-zone ventilation parameters: area and its outdoor-air rate,
/// per-person outdoor-air rate, the zone's flow limits (all in
/// thousandths), and its occupant count.
#[derive(Clone, Copy, Debug, PartialEq, Eq, Structural)]
pub struct Zone {
    pub az_sqft: i64,
    pub ra_cfm_per_sqft: i64,
    pub rp_cfm_per_person: i64,
    pub cfm_min: i64,
    pub cfm_max: i64,
    pub people_count: i32,
}

impl Zone {
    /// A zone is valid when its area is positive, its rates and occupant
    /// count are non-negative, its flow limits are ordered, and every
    /// quantity is in range.
    pub open spec fn valid(self) -> bool {
        &&& 0 < self.az_sqft <= FX_MAX
        &&& 0 <= self.ra_cfm_per_sqft <= FX_MAX
        &&& 0 <= self.rp_cfm_per_person <= FX_MAX
        &&& in_range(self.cfm_min as int)
        &&& in_range(self.cfm_max as int)
        &&& self.cfm_min <= self.cfm_max
        &&& 0 <= self.people_count
    }

    /// Builds a zone, rejecting any parameter set that is not valid.
    pub fn new(
        az_sqft: i64,
        ra_cfm_per_sqft: i64,
        rp_cfm_per_person: i64,
        cfm_min: i64,
        cfm_max: i64,
        people_count: i32,
    ) -> (r: Result<Zone, ControlError>)
        ensures
            r is Ok <==> (Zone {
                az_sqft,
                ra_cfm_per_sqft,
                rp_cfm_per_person,
                cfm_min,
                cfm_max,
                people_count,
            }).valid(),
            r is Ok ==> r->Ok_0 == (Zone {
                az_sqft,
                ra_cfm_per_sqft,
                rp_cfm_per_person,
                cfm_min,
                cfm_max,
                people_count,
            }),
            r is Err ==> r->Err_0 == ControlError::InvalidInput,
    {
        if az_sqft <= 0 || az_sqft > FX_MAX || ra_cfm_per_sqft < 0 || ra_cfm_per_sqft > FX_MAX
            || rp_cfm_per_person < 0 || rp_cfm_per_person > FX_MAX || cfm_min < -FX_MAX
            || cfm_min > FX_MAX || cfm_max < -FX_MAX || cfm_max > FX_MAX || cfm_min > cfm_max
            || people_count < 0 {
            return Err(ControlError::InvalidInput);
        }
        Ok(Zone { az_sqft, ra_cfm_per_sqft, rp_cfm_per_person, cfm_min, cfm_max, people_count })
    }
}

/// The shared ventilation standards: the zone air distribution
/// effectiveness (in thousandths, within `(0, 1]`) and the carbon-dioxide
/// supplementary limits, which are carried but not consumed by the
/// ventilation formula.
#[derive(Clone, Copy, Debug, PartialEq, Eq, Structural)]
pub struct AshraeStandards {
    pub ez: i64,
    pub co2_sf_per_person: i64,
    pub people_limit_for_co2: i32,
    pub area_limit_for_co2: i32,
}

impl AshraeStandards {
    pub open spec fn valid(self) -> bool {
        &&& 0 < self.ez <= SCALE
        &&& 0 <= self.co2_sf_per_person <= FX_MAX
        &&& 0 <= self.people_limit_for_co2
        &&& 0 <= self.area_limit_for_co2
    }

    /// Builds a standards record, rejecting an effectiveness outside
    /// `(0, 1]` or any negative limit.
    pub fn new(
        ez: i64,
        co2_sf_per_person: i64,
        people_limit_for_co2: i32,
        area_limit_for_co2: i32,
    ) -> (r: Result<AshraeStandards, ControlError>)
        ensures
            r is Ok <==> (AshraeStandards {
                ez,
                co2_sf_per_person,
                people_limit_for_co2,
                area_limit_for_co2,
            }).valid(),
            r is Ok ==> r->Ok_0 == (AshraeStandards {
                ez,
                co2_sf_per_person,
                people_limit_for_co2,
                area_limit_for_co2,
            }),
            r is Err ==> r->Err_0 == ControlError::InvalidInput,
    {
        if ez <= 0 || ez > SCALE || co2_sf_per_person < 0 || co2_sf_per_person > FX_MAX
            || people_limit_for_co2 < 0 || area_limit_for_co2 < 0 {
            return Err(ControlError::InvalidInput);
        }
        Ok(AshraeStandards { ez, co2_sf_per_person, people_limit_for_co2, area_limit_for_co2 })
    }
}

/// The breathing-zone outdoor airflow of a zone, in thousandths of a cfm:
/// `(rp * people + ra * area) / ez` in fixed point, each product of two
/// thousandths-scaled factors scaled back down and the division by the
/// effectiveness scaled up.
pub open spec fn spec_breathing_zone_oa(zone: Zone, ez: int) -> int {
    div_trunc(
        (zone.rp_cfm_per_person * zone.people_count + div_trunc(
            zone.ra_cfm_per_sqft * zone.az_sqft,
            SCALE as int,
        )) * (SCALE as int),
        ez,
    )
}

/// The minimum flow setpoint of a zone for a system-wide outside-air
/// fraction: the breathing-zone outdoor airflow divided by the fraction.
pub open spec fn spec_zone_flow_setpoint(zone: Zone, ez: int, percent_oa: int) -> int {
    div_trunc(spec_breathing_zone_oa(zone, ez) * (SCALE as int), percent_oa)
}

/// The flow-setpoint entry reported for a zone: the setpoint itself when
/// representable, and the explicit no-setpoint marker when not.
pub open spec fn spec_zone_flow_opt(zone: Zone, ez: int, percent_oa: int) -> Option<i64> {
    if in_range(spec_zone_flow_setpoint(zone, ez, percent_oa)) {
        Some(spec_zone_flow_setpoint(zone, ez, percent_oa) as i64)
    } else {
        None
    }
}

/// The breathing-zone outdoor airflow, wide enough never to overflow.
fn breathing_zone_oa_wide(zone: &Zone, effectiveness: i64) -> (r: i128)
    requires
        zone.valid(),
        0 < effectiveness <= SCALE,
    ensures
        r == spec_breathing_zone_oa(*zone, effectiveness as int),
        0 <= r <= 0x10_0000_0000_0000_0000_0000i128,
{
    let people_part: i128 = mul_wide(zone.rp_cfm_per_person, zone.people_count as i64);
    let area_product: i128 = mul_wide(zone.ra_cfm_per_sqft, zone.az_sqft);
    proof {
        lemma_mul_nonnegative(zone.rp_cfm_per_person as int, zone.people_count as int);
        lemma_mul_nonnegative(zone.ra_cfm_per_sqft as int, zone.az_sqft as int);
        lemma_mul_bound(
            zone.rp_cfm_per_person as int,
            zone.people_count as int,
            FX_MAX as int,
            0x8000_0000,
        );
        lemma_mul_bound(zone.ra_cfm_per_sqft as int, zone.az_sqft as int, FX_MAX as int, FX_MAX as int);
    }
    let area_part: i128 = div_trunc_i128(area_product, SCALE as i128);
    proof {
        lemma_div_trunc_nonneg(area_product as int, SCALE as int);
        lemma_div_trunc_bound(area_product as int, SCALE as int, FX_MAX as int * FX_MAX as int);
    }
    let numerator: i128 = (people_part + area_part) * (SCALE as i128);
    let result: i128 = div_trunc_i128(numerator, effectiveness as i128);
    proof {
        lemma_div_trunc_nonneg(numerator as int, effectiveness as int);
        lemma_div_trunc_bound(numerator as int, effectiveness as int, numerator as int);
    }
    result
}

/// The breathing-zone outdoor airflow required by a zone under the given
/// zone air distribution effectiveness, or the no-setpoint marker when the
/// value leaves the representable range.
pub fn breathing_zone_oa(zone: &Zone, effectiveness: i64) -> (r: Option<i64>)
    requires
        zone.valid(),
        0 < effectiveness <= SCALE,
    ensures
        r is Some <==> in_range(spec_breathing_zone_oa(*zone, effectiveness as int)),
        r is Some ==> r->0 as int == spec_breathing_zone_oa(*zone, effectiveness as int),
        r is None <==> spec_breathing_zone_oa(*zone, effectiveness as int) > FX_MAX as int,
{
    let wide: i128 = breathing_zone_oa_wide(zone, effectiveness);
    if wide > FX_MAX as i128 {
        None
    } else {
        Some(wide as i64)
    }
}

/// The minimum flow setpoint of a zone under the given effectiveness and
/// outside-air fraction, or the no-setpoint marker when the value leaves
/// the representable range.
pub fn zone_flow_setpoint(zone: &Zone, effectiveness: i64, percent_oa: i64) -> (r: Option<i64>)
    requires
        zone.valid(),
        0 < effectiveness <= SCALE,
        percent_oa != 0,
        in_range(percent_oa as int),
    ensures
        r == spec_zone_flow_opt(*zone, effectiveness as int, percent_oa as int),
{
    let wide: i128 = breathing_zone_oa_wide(zone, effectiveness);
    proof {
        lemma_mul_bound(wide as int, SCALE as int, 0x10_0000_0000_0000_0000_0000, 1000);
    }
    let scaled: i128 = wide * (SCALE as i128);
    let setpoint: i128 = div_trunc_i128(scaled, percent_oa as i128);
    if setpoint < -(FX_MAX as i128) || setpoint > FX_MAX as i128 {
        None
    } else {
        Some(setpoint as i64)
    }
}

/// Pairwise distinctness of the zone ids of an association sequence.
pub open spec fn ids_unique(s: Seq<(String, Zone)>) -> bool {
    forall|i: int, j: int| 0 <= i < j < s.len() ==> (#[trigger] s[i]).0@ != (#[trigger] s[j]).0@
}

/// The mapping from zone id to zone that an association sequence holds;
/// later entries shadow earlier ones, so on a sequence with distinct ids
/// every entry is reachable.
pub open spec fn map_of_zones(s: Seq<(String, Zone)>) -> Map<Seq<char>, Zone>
    decreases s.len(),
{
    if s.len() == 0 {
        Map::empty()
    } else {
        map_of_zones(s.drop_last()).insert(s.last().0@, s.last().1)
    }
}

/// Dropping the last entry keeps the remaining ids distinct.
proof fn lemma_ids_unique_prefix(s: Seq<(String, Zone)>)
    requires
        ids_unique(s),
        s.len() > 0,
    ensures
        ids_unique(s.drop_last()),
{
    let prefix = s.drop_last();
    assert forall|i: int, j: int| 0 <= i < j < prefix.len() implies (#[trigger] prefix[i]).0@ != (
    #[trigger] prefix[j]).0@ by {
        assert(prefix[i] == s[i]);
        assert(prefix[j] == s[j]);
    }
}

/// A key is in the map exactly when some entry of the sequence bears it.
pub proof fn lemma_map_of_zones_contains(s: Seq<(String, Zone)>, k: Seq<char>)
    ensures
        map_of_zones(s).contains_key(k) <==> exists|i: int|
            0 <= i < s.len() && (#[trigger] s[i]).0@ == k,
    decreases s.len(),
{
    if s.len() == 0 {
    } else {
        let prefix = s.drop_last();
        lemma_map_of_zones_contains(prefix, k);
        if s.last().0@ == k {
            assert((s[s.len() - 1]).0@ == k);
        } else {
            if exists|i: int| 0 <= i < prefix.len() && (#[trigger] prefix[i]).0@ == k {
                let i = choose|i: int| 0 <= i < prefix.len() && (#[trigger] prefix[i]).0@ == k;
                assert((s[i]).0@ == k);
            }
            if exists|i: int| 0 <= i < s.len() && (#[trigger] s[i]).0@ == k {
                let i = choose|i: int| 0 <= i < s.len() && (#[trigger] s[i]).0@ == k;
                assert(i < s.len() - 1);
                assert((prefix[i]).0@ == k);
            }
        }
    }
}

/// On a sequence with distinct ids, the map sends each entry's id to that
/// entry's zone.
pub proof fn lemma_map_of_zones_index(s: Seq<(String, Zone)>, i: int)
    requires
        ids_unique(s),
        0 <= i < s.len(),
    ensures
        map_of_zones(s).contains_key((s[i]).0@),
        map_of_zones(s)[(s[i]).0@] == (s[i]).1,
    decreases s.len(),
{
    if i == s.len() - 1 {
    } else {
        let prefix = s.drop_last();
        lemma_ids_unique_prefix(s);
        assert(prefix[i] == s[i]);
        lemma_map_of_zones_index(prefix, i);
        assert((s[i]).0@ != (s[s.len() - 1]).0@);
    }
}

/// Replacing the entry at `i` by one with the same id turns the map into
/// an insert at that id.
pub proof fn lemma_map_of_zones_update(s: Seq<(String, Zone)>, i: int, name: String, zone: Zone)
    requires
        ids_unique(s),
        0 <= i < s.len(),
        (s[i]).0@ == name@,
    ensures
        map_of_zones(s.update(i, (name, zone))) == map_of_zones(s).insert(name@, zone),
    decreases s.len(),
{
    let t = s.update(i, (name, zone));
    if i == s.len() - 1 {
        assert(t.drop_last() =~= s.drop_last());
        assert(t.last() == (name, zone));
        assert(map_of_zones(t) == map_of_zones(s.drop_last()).insert(name@, zone));
        assert(map_of_zones(s.drop_last()).insert((s.last()).0@, (s.last()).1).insert(name@, zone)
            =~= map_of_zones(s.drop_last()).insert(name@, zone));
    } else {
        let prefix = s.drop_last();
        lemma_ids_unique_prefix(s);
        assert(prefix[i] == s[i]);
        lemma_map_of_zones_update(prefix, i, name, zone);
        assert(t.drop_last() =~= prefix.update(i, (name, zone)));
        assert(t.last() == s.last());
        assert((s[i]).0@ != (s[s.len() - 1]).0@);
        assert(map_of_zones(prefix).insert(name@, zone).insert((s.last()).0@, (s.last()).1)
            =~= map_of_zones(prefix).insert((s.last()).0@, (s.last()).1).insert(name@, zone));
    }
}

/// Appending an entry turns the map into an insert at its id.
pub proof fn lemma_map_of_zones_push(s: Seq<(String, Zone)>, name: String, zone: Zone)
    ensures
        map_of_zones(s.push((name, zone))) == map_of_zones(s).insert(name@, zone),
{
    let t = s.push((name, zone));
    assert(t.drop_last() =~= s);
    assert(t.last() == (name, zone));
}

/// The system-level configuration: the registry of zones, addressed by
/// id, and the shared ventilation standards.
pub struct SystemConfig {
    pub zones: Vec<(String, Zone)>,
    pub ashrae_standards: AshraeStandards,
}

impl SystemConfig {
    /// Internal invariant: zone ids are distinct, every zone is valid and
    /// the standards record is valid.
    pub open spec fn wf(self) -> bool {
        &&& ids_unique(self.zones@)
        &&& forall|i: int| 0 <= i < self.zones@.len() ==> (#[trigger] self.zones@[i]).1.valid()
        &&& self.ashrae_standards.valid()
    }

    /// The registry viewed as a mapping from zone id to zone.
    pub open spec fn zones_map(self) -> Map<Seq<char>, Zone> {
        map_of_zones(self.zones@)
    }

    /// Creates an empty registry under the given standards, rejecting an
    /// invalid standards record.
    pub fn new(ashrae_standards: AshraeStandards) -> (r: Result<SystemConfig, ControlError>)
        ensures
            r is Ok <==> ashrae_standards.valid(),
            r is Ok ==> r->Ok_0.wf() && r->Ok_0.zones@.len() == 0 && r->Ok_0.zones_map()
                == Map::<Seq<char>, Zone>::empty() && r->Ok_0.ashrae_standards == ashrae_standards,
            r is Err ==> r->Err_0 == ControlError::InvalidInput,
    {
        if ashrae_standards.ez <= 0 || ashrae_standards.ez > SCALE
            || ashrae_standards.co2_sf_per_person < 0 || ashrae_standards.co2_sf_per_person
            > FX_MAX || ashrae_standards.people_limit_for_co2 < 0
            || ashrae_standards.area_limit_for_co2 < 0 {
            return Err(ControlError::InvalidInput);
        }
        Ok(SystemConfig { zones: Vec::new(), ashrae_standards })
    }

    /// The index of the entry bearing the given id, if any.
    fn find_zone(&self, zone_name: &String) -> (r: Option<usize>)
        ensures
            match r {
                Some(i) => i < self.zones@.len() && (self.zones@[i as int]).0@ == zone_name@,
                None => forall|i: int|
                    0 <= i < self.zones@.len() ==> (#[trigger] self.zones@[i]).0@ != zone_name@,
            },
    {
        let n = self.zones.len();
        let mut idx: usize = 0;
        while idx < n
            invariant
                idx <= n,
                n == self.zones@.len(),
                forall|i: int| 0 <= i < idx ==> (#[trigger] self.zones@[i]).0@ != zone_name@,
            decreases n - idx,
        {
            if self.zones[idx].0 == *zone_name {
                return Some(idx);
            }
            idx += 1;
        }
        None
    }

    /// Inserts the zone under the id, or fully replaces the zone already
    /// held under it; an invalid zone is rejected and the registry left
    /// unchanged.
    pub fn upsert_zone(&mut self, zone_name: String, zone: Zone) -> (r: Result<(), ControlError>)
        requires
            old(self).wf(),
        ensures
            final(self).wf(),
            r is Ok <==> zone.valid(),
            r is Ok ==> final(self).zones_map() == old(self).zones_map().insert(zone_name@, zone)
                && final(self).ashrae_standards == old(self).ashrae_standards,
            r is Err ==> *final(self) == *old(self) && r->Err_0 == ControlError::InvalidInput,
    {
        if zone.az_sqft <= 0 || zone.az_sqft > FX_MAX || zone.ra_cfm_per_sqft < 0
            || zone.ra_cfm_per_sqft > FX_MAX || zone.rp_cfm_per_person < 0
            || zone.rp_cfm_per_person > FX_MAX || zone.cfm_min < -FX_MAX || zone.cfm_min > FX_MAX
            || zone.cfm_max < -FX_MAX || zone.cfm_max > FX_MAX || zone.cfm_min > zone.cfm_max
            || zone.people_count < 0 {
            return Err(ControlError::InvalidInput);
        }
        match self.find_zone(&zone_name) {
            Some(idx) => {
                proof {
                    lemma_map_of_zones_update(self.zones@, idx as int, zone_name, zone);
                }
                self.zones.set(idx, (zone_name, zone));
                proof {
                    assert forall|i: int, j: int|
                        0 <= i < j < self.zones@.len() implies (#[trigger] self.zones@[i]).0@ != (
                    #[trigger] self.zones@[j]).0@ by {
                        assert((old(self).zones@[i]).0@ != (old(self).zones@[j]).0@);
                    }
                }
                Ok(())
            },
            None => {
                proof {
                    lemma_map_of_zones_push(self.zones@, zone_name, zone);
                }
                self.zones.push((zone_name, zone));
                proof {
                    assert forall|i: int, j: int|
                        0 <= i < j < self.zones@.len() implies (#[trigger] self.zones@[i]).0@ != (
                    #[trigger] self.zones@[j]).0@ by {
                        if j < self.zones@.len() - 1 {
                            assert((old(self).zones@[i]).0@ != (old(self).zones@[j]).0@);
                        } else {
                            assert((old(self).zones@[i]).0@ != zone_name@);
                        }
                    }
                }
                Ok(())
            },
        }
    }

    /// Updates the occupant count of the zone held under the id, in
    /// place.  A negative count is rejected as invalid; an unknown id is
    /// reported as not found; either way the registry is left unchanged.
    pub fn update_occupancy(&mut self, zone_name: &String, new_count: i32) -> (r: Result<
        (),
        ControlError,
    >)
        requires
            old(self).wf(),
        ensures
            final(self).wf(),
            r is Ok <==> (0 <= new_count && old(self).zones_map().contains_key(zone_name@)),
            new_count < 0 ==> r is Err && r->Err_0 == ControlError::InvalidInput,
            0 <= new_count && !old(self).zones_map().contains_key(zone_name@) ==> r is Err
                && r->Err_0 == ControlError::NotFound,
            r is Err ==> *final(self) == *old(self),
            r is Ok ==> final(self).zones_map() == old(self).zones_map().insert(
                zone_name@,
                (Zone { people_count: new_count, ..old(self).zones_map()[zone_name@] }),
            ) && final(self).ashrae_standards == old(self).ashrae_standards,
    {
        if new_count < 0 {
            return Err(ControlError::InvalidInput);
        }
        match self.find_zone(zone_name) {
            Some(idx) => {
                proof {
                    lemma_map_of_zones_index(self.zones@, idx as int);
                }
                let name_again = self.zones[idx].0.clone();
                let mut zone = self.zones[idx].1;
                zone.people_count = new_count;
                proof {
                    lemma_map_of_zones_update(self.zones@, idx as int, name_again, zone);
                }
                self.zones.set(idx, (name_again, zone));
                proof {
                    assert forall|i: int, j: int|
                        0 <= i < j < self.zones@.len() implies (#[trigger] self.zones@[i]).0@ != (
                    #[trigger] self.zones@[j]).0@ by {
                        assert((old(self).zones@[i]).0@ != (old(self).zones@[j]).0@);
                    }
                }
                Ok(())
            },
            None => {
                proof {
                    lemma_map_of_zones_contains(self.zones@, zone_name@);
                }
                Err(ControlError::NotFound)
            },
        }
    }

    /// The zone held under the id, if any.
    pub fn get_zone(&self, zone_name: &String) -> (r: Option<Zone>)
        requires
            self.wf(),
        ensures
            r is Some <==> self.zones_map().contains_key(zone_name@),
            r is Some ==> r->0 == self.zones_map()[zone_name@],
    {
        match self.find_zone(zone_name) {
            Some(idx) => {
                proof {
                    lemma_map_of_zones_index(self.zones@, idx as int);
                }
                Some(self.zones[idx].1)
            },
            None => {
                proof {
                    lemma_map_of_zones_contains(self.zones@, zone_name@);
                }
                None
            },
        }
    }

    /// Computes, for every zone of the registry, its minimum flow
    /// setpoint under the given system-wide outside-air fraction: one
    /// entry per zone, each independent of the others.  A fraction of
    /// exactly zero leaves the setpoints undefined and is rejected as
    /// such; an out-of-range fraction is rejected as invalid.
    pub fn calculate_vav_flow_setpoints(&self, percent_oa: i64) -> (r: Result<
        Vec<(String, Option<i64>)>,
        ControlError,
    >)
        requires
            self.wf(),
        ensures
            r is Ok <==> (in_range(percent_oa as int) && percent_oa != 0),
            !in_range(percent_oa as int) ==> r is Err && r->Err_0 == ControlError::InvalidInput,
            in_range(percent_oa as int) && percent_oa == 0 ==> r is Err && r->Err_0
                == ControlError::ZeroOutsideAirFraction,
            r is Ok ==> r->Ok_0@.len() == self.zones@.len() && forall|i: int|
                0 <= i < self.zones@.len() ==> (#[trigger] r->Ok_0@[i]).0@ == (self.zones@[i]).0@
                    && (r->Ok_0@[i]).1 == spec_zone_flow_opt(
                    (self.zones@[i]).1,
                    self.ashrae_standards.ez as int,
                    percent_oa as int,
                ),
    {
        if percent_oa < -FX_MAX || percent_oa > FX_MAX {
            return Err(ControlError::InvalidInput);
        }
        if percent_oa == 0 {
            return Err(ControlError::ZeroOutsideAirFraction);
        }
        let n = self.zones.len();
        let mut setpoints: Vec<(String, Option<i64>)> = Vec::new();
        let mut idx: usize = 0;
        while idx < n
            invariant
                idx <= n,
                n == self.zones@.len(),
                self.wf(),
                in_range(percent_oa as int),
                percent_oa != 0,
                setpoints@.len() == idx,
                forall|i: int|
                    0 <= i < idx ==> (#[trigger] setpoints@[i]).0@ == (self.zones@[i]).0@ && (
                    setpoints@[i]).1 == spec_zone_flow_opt(
                        (self.zones@[i]).1,
                        self.ashrae_standards.ez as int,
                        percent_oa as int,
                    ),
            decreases n - idx,
        {
            let name = self.zones[idx].0.clone();
            let setpoint = zone_flow_setpoint(
                &self.zones[idx].1,
                self.ashrae_standards.ez,
                percent_oa,
            );
            setpoints.push((name, setpoint));
            idx += 1;
        }
        Ok(setpoints)
    }
}

/// A human-readable version banner for the configuration interface.
pub fn version() -> (r: String)
    ensures
        r@ == "Version 1.0 of HVAC System Configurations"@,
{
    String::from_str("Version 1.0 of HVAC System Configurations")
}

} // verus!
