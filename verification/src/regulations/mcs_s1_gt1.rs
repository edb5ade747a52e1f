//! The GT class rule set.
//!
//! Shares the five-phase structure of the prototype class but differs in
//! thresholds and in a few categorical rules: its tech-budget audit scans
//! every field whose name mentions the techpool marker instead of a fixed
//! list, it bans certain chassis and panel materials with the offending
//! value in the reason, and it scans all part names for a forbidden
//! suspension type.

use vstd::prelude::*;
use vstd::string::StringExecFns;
use crate::record::{CarData, spec_get, spec_get_millis, record_contains_sub, not_numeric_reason};
use crate::numeric::{
    parse_millis, parse_millis_exec, trunc_of, div_trunc, lemma_parse_millis_bounds,
    MILLIS_PER_UNIT,
};
use crate::strutil::{contains_sub, str_contains, str_eq};
use crate::regulations::{
    Regulations, reports, first_fail, usize_eq_check, usize_gt_check, round_lt_check,
    round_gt_check, floor_gt_check, millis_gt_check, tenths_lt_check, trunc_ne_check,
    value_is_check, value_not_check, value_lacks_check, prefix_check, seats_check,
    displacement_check, quality_scan_check, check_usize_eq, check_usize_gt, check_round_lt,
    check_round_gt, check_floor_gt, check_millis_gt, check_tenths_lt, check_trunc_eq,
    check_value_is, check_value_not, check_value_lacks, check_prefix, check_seats,
    check_displacement, check_quality_scan,
};

verus! {

/// The GT competition class.
#[allow(non_camel_case_types)]
#[derive(Default)]
pub struct MCS_S1_GT1;

/// Tech-budget audit as a blanket scan: every field whose name mentions
/// the techpool marker must read as exactly 5, probed in record order.
pub open spec fn techpool_scan(ps: Seq<(Seq<char>, Seq<char>)>) -> Option<Seq<char>>
    decreases ps.len(),
{
    if ps.len() == 0 {
        None
    } else if contains_sub(ps[0].0, "Techpool"@) {
        match parse_millis(ps[0].1) {
            None => Some(not_numeric_reason()),
            Some(n) => if trunc_of(n, MILLIS_PER_UNIT as int) != 5 {
                Some("Techpool must be 5!"@)
            } else {
                techpool_scan(ps.drop_first())
            },
        }
    } else {
        techpool_scan(ps.drop_first())
    }
}

pub open spec fn tech_pool_verdict(ps: Seq<(Seq<char>, Seq<char>)>) -> Option<Seq<char>> {
    techpool_scan(ps)
}

/// Chassis-material rule: glued or carbon constructions are banned, and
/// the reason names the offending material.
pub open spec fn chassis_material_verdict(ps: Seq<(Seq<char>, Seq<char>)>) -> Option<Seq<char>> {
    match spec_get(ps, "Chassis Material"@) {
        Err(e) => Some(e),
        Ok(v) => if contains_sub(v, "Glued"@) || contains_sub(v, "Carbon"@) {
            Some("Chassis material cannot be "@ + v)
        } else {
            None
        },
    }
}

/// Panel-material rule: carbon panels are banned, the reason naming the
/// offending material.
pub open spec fn panel_material_verdict(ps: Seq<(Seq<char>, Seq<char>)>) -> Option<Seq<char>> {
    match spec_get(ps, "Panel Material"@) {
        Err(e) => Some(e),
        Ok(v) => if contains_sub(v, "Carbon"@) {
            Some("Panel material cannot be "@ + v)
        } else {
            None
        },
    }
}

/// Metadata/eligibility audit: body family, year stamps, seats, the broad
/// quality-slider scan, material bans, and the suspension part ban.
pub open spec fn other_verdict(ps: Seq<(Seq<char>, Seq<char>)>) -> Option<Seq<char>> {
    first_fail(
        prefix_check(ps, "Body Name"@, "LMP"@, false, "Incorrect body!"@),
        first_fail(
            usize_eq_check(ps, "Variant Year"@, 1995, "Engine year must be 1995!"@),
            first_fail(
                usize_eq_check(ps, "Engine Family Year"@, 1995, "Engine year must be 1995!"@),
                first_fail(
                    usize_eq_check(ps, "Trim Year"@, 1995, "Body year must be 1995!"@),
                    first_fail(
                        usize_eq_check(ps, "Model Year"@, 1995, "Body year must be 1995!"@),
                        first_fail(
                            seats_check(ps, "Must not have small seats!"@),
                            first_fail(
                                quality_scan_check(
                                    ps,
                                    false,
                                    -10,
                                    10,
                                    "Quality sliders may not be more than +/- 10!"@,
                                ),
                                first_fail(
                                    chassis_material_verdict(ps),
                                    first_fail(
                                        panel_material_verdict(ps),
                                        if record_contains_sub(ps, "Pushrod"@) {
                                            Some("Pushrod suspension not allowed!"@)
                                        } else {
                                            None
                                        },
                                    ),
                                ),
                            ),
                        ),
                    ),
                ),
            ),
        ),
    )
}

/// Performance-envelope audit with the GT thresholds.
pub open spec fn stats_verdict(ps: Seq<(Seq<char>, Seq<char>)>) -> Option<Seq<char>> {
    first_fail(
        round_lt_check(ps, "Safety Rating"@, 55_000, "Safety rating must be at least 50.0!"@),
        first_fail(
            round_gt_check(
                ps,
                "Trim Economy"@,
                15_600,
                "Fuel economy must be 15.6 liters / 100km or better!"@,
            ),
            first_fail(
                floor_gt_check(ps, "Rear Downforce"@, 250_000, "Too much rear downforce!"@),
                floor_gt_check(ps, "Front Downforce"@, 250_000, "Too much front downforce!"@),
            ),
        ),
    )
}

/// Banned-component audit: the same three rules as the prototype class.
pub open spec fn banned_parts_verdict(ps: Seq<(Seq<char>, Seq<char>)>) -> Option<Seq<char>> {
    first_fail(
        value_is_check(ps, "Active Aero"@, "None"@, "Active aero is not allowed!"@),
        first_fail(
            value_lacks_check(
                ps,
                "Gearbox Type"@,
                "Adv"@,
                "Only manual and automatic transmissions allowed!"@,
            ),
            value_is_check(
                ps,
                "Differential Type"@,
                "Geared LSD"@,
                "Geared LSD is required! If you want to tune it, use a racing differential in BeamNG."@,
            ),
        ),
    )
}

/// Powertrain rules on the forced-induction path; `aspiration` is the
/// already-read aspiration value.
pub open spec fn turbo_verdict(ps: Seq<(Seq<char>, Seq<char>)>, aspiration: Seq<char>) -> Option<
    Seq<char>,
> {
    first_fail(
        if contains_sub(aspiration, "Twin"@) || contains_sub(aspiration, "Quad"@) {
            Some("Twin/Quad turbo setups not allowed!"@)
        } else {
            None
        },
        first_fail(
            usize_gt_check(ps, "Cylinder Count"@, 8, "Can't have more than 8 cylinders!"@),
            first_fail(
                value_not_check(ps, "Intake"@, "Race"@, "Intake manifold can't be race!"@),
                first_fail(
                    trunc_ne_check(ps, "Variant Aspiration Quality"@, 0, "Turbo quality must be 0!"@),
                    first_fail(
                        displacement_check(ps, 1_700, "Displacement cannot be more than 1.7L!"@),
                        first_fail(
                            millis_gt_check(ps, "Peak Boost"@, 1_860, "Peak boost cannot be more than 2.06 bar!"@),
                            first_fail(
                                millis_gt_check(ps, "Compressor Size 1"@, 90_000, "Turbo compressor size too big!"@),
                                first_fail(
                                    millis_gt_check(ps, "Turbine Size 1"@, 75_000, "Turbine size too big!"@),
                                    first_fail(
                                        tenths_lt_check(ps, "Engine Reliability"@, 550, "Engine reliability is too low!"@),
                                        quality_scan_check(
                                            ps,
                                            true,
                                            -5,
                                            5,
                                            "Engine quality sliders may not be more than +/- 5!"@,
                                        ),
                                    ),
                                ),
                            ),
                        ),
                    ),
                ),
            ),
        ),
    )
}

/// Displacement rules on the naturally-aspirated path: a hard cap, and a
/// race-header ban above the lower displacement bound.
pub open spec fn natural_displacement_verdict(ps: Seq<(Seq<char>, Seq<char>)>) -> Option<
    Seq<char>,
> {
    match spec_get_millis(ps, "Family Displacement"@) {
        Err(e) => Some(e),
        Ok(a) => if a > 4_500 {
            Some("Displacement cannot be more than 3.5L!"@)
        } else {
            match spec_get_millis(ps, "Variant Displacement"@) {
                Err(e) => Some(e),
                Ok(b) => if b > 4_500 {
                    Some("Displacement cannot be more than 3.5L!"@)
                } else if (a > 3_300 || b > 3_300) && record_contains_sub(ps, "Tubular Race"@) {
                    Some("Not allowed race headers when your engine is bigger than 3.3L!"@)
                } else {
                    None
                },
            }
        },
    }
}

/// Powertrain rules on the naturally-aspirated path.
pub open spec fn natural_verdict(ps: Seq<(Seq<char>, Seq<char>)>) -> Option<Seq<char>> {
    first_fail(
        natural_displacement_verdict(ps),
        tenths_lt_check(ps, "Engine Reliability"@, 450, "Engine reliability is too low!"@),
    )
}

/// Powertrain audit: fuel rules, then the branch on forced induction.
pub open spec fn engine_verdict(ps: Seq<(Seq<char>, Seq<char>)>) -> Option<Seq<char>> {
    first_fail(
        value_not_check(ps, "Leaded Fuel"@, "TRUE"@, "Running leaded fuel!"@),
        first_fail(
            usize_eq_check(ps, "Fuel Octane"@, 98, "Running the wrong fuel octane!"@),
            match spec_get(ps, "Aspiration"@) {
                Err(e) => Some(e),
                Ok(v) => if v != "None"@ {
                    turbo_verdict(ps, v)
                } else {
                    natural_verdict(ps)
                },
            },
        ),
    )
}

/// The whole rule set, phases in order.
pub open spec fn gt1_verdict(ps: Seq<(Seq<char>, Seq<char>)>) -> Option<Seq<char>> {
    first_fail(
        tech_pool_verdict(ps),
        first_fail(
            other_verdict(ps),
            first_fail(
                stats_verdict(ps),
                first_fail(banned_parts_verdict(ps), engine_verdict(ps)),
            ),
        ),
    )
}

impl Regulations for MCS_S1_GT1 {
    open spec fn verdict(&self, ps: Seq<(Seq<char>, Seq<char>)>) -> Option<Seq<char>> {
        gt1_verdict(ps)
    }

    fn check(&self, car_data: CarData) -> (r: Result<(), String>) {
        self.check_tech_pool(&car_data)?;
        self.check_other(&car_data)?;
        self.check_stats(&car_data)?;
        self.check_banned_parts(&car_data)?;
        self.check_engine(&car_data)?;
        Ok(())
    }
}

impl MCS_S1_GT1 {
    /// Tech-budget audit, reported as [`tech_pool_verdict`] says.
    pub fn check_tech_pool(&self, car_data: &CarData) -> (r: Result<(), String>)
        ensures
            reports(r, tech_pool_verdict(car_data@)),
    {
        let ghost full = car_data@;
        proof {
            assert(full.skip(0) =~= full);
        }
        let n = car_data.len();
        let mut i: usize = 0;
        while i < n
            invariant
                n == car_data@.len(),
                full == car_data@,
                i <= n,
                techpool_scan(full) == techpool_scan(full.skip(i as int)),
            decreases n - i,
        {
            proof {
                assert(full.skip(i as int)[0] == full[i as int]);
                assert(full.skip(i as int).drop_first() =~= full.skip(i as int + 1));
            }
            let key = car_data.key_at(i);
            if str_contains(key.as_str(), "Techpool") {
                match parse_millis_exec(car_data.value_at(i).as_str()) {
                    None => {
                        return Err("invalid float literal".to_owned());
                    },
                    Some(v) => {
                        proof {
                            lemma_parse_millis_bounds(full[i as int].1);
                        }
                        let t = div_trunc(v, MILLIS_PER_UNIT);
                        if t != 5 {
                            return Err("Techpool must be 5!".to_owned());
                        }
                    },
                }
            }
            i += 1;
        }
        proof {
            assert(full.skip(n as int) =~= Seq::<(Seq<char>, Seq<char>)>::empty());
        }
        Ok(())
    }

    /// Metadata/eligibility audit, reported as [`other_verdict`] says.
    pub fn check_other(&self, car_data: &CarData) -> (r: Result<(), String>)
        ensures
            reports(r, other_verdict(car_data@)),
    {
        check_prefix(car_data, "Body Name", "LMP", false, "Incorrect body!")?;
        check_usize_eq(car_data, "Variant Year", 1995, "Engine year must be 1995!")?;
        check_usize_eq(car_data, "Engine Family Year", 1995, "Engine year must be 1995!")?;
        check_usize_eq(car_data, "Trim Year", 1995, "Body year must be 1995!")?;
        check_usize_eq(car_data, "Model Year", 1995, "Body year must be 1995!")?;
        check_seats(car_data, "Must not have small seats!")?;
        check_quality_scan(car_data, false, -10, 10, "Quality sliders may not be more than +/- 10!")?;
        let cmat = match car_data.get("Chassis Material") {
            Err(m) => {
                return Err(m);
            },
            Ok(v) => v,
        };
        if str_contains(cmat.as_str(), "Glued") || str_contains(cmat.as_str(), "Carbon") {
            let mut msg = "Chassis material cannot be ".to_owned();
            msg.append(cmat.as_str());
            return Err(msg);
        }
        let pmat = match car_data.get("Panel Material") {
            Err(m) => {
                return Err(m);
            },
            Ok(v) => v,
        };
        if str_contains(pmat.as_str(), "Carbon") {
            let mut msg = "Panel material cannot be ".to_owned();
            msg.append(pmat.as_str());
            return Err(msg);
        }
        if car_data.contains_part("Pushrod") {
            return Err("Pushrod suspension not allowed!".to_owned());
        }
        Ok(())
    }

    /// Performance-envelope audit, reported as [`stats_verdict`] says.
    pub fn check_stats(&self, car_data: &CarData) -> (r: Result<(), String>)
        ensures
            reports(r, stats_verdict(car_data@)),
    {
        check_round_lt(car_data, "Safety Rating", 55_000, "Safety rating must be at least 50.0!")?;
        check_round_gt(
            car_data,
            "Trim Economy",
            15_600,
            "Fuel economy must be 15.6 liters / 100km or better!",
        )?;
        check_floor_gt(car_data, "Rear Downforce", 250_000, "Too much rear downforce!")?;
        check_floor_gt(car_data, "Front Downforce", 250_000, "Too much front downforce!")?;
        Ok(())
    }

    /// Banned-component audit, reported as [`banned_parts_verdict`] says.
    pub fn check_banned_parts(&self, car_data: &CarData) -> (r: Result<(), String>)
        ensures
            reports(r, banned_parts_verdict(car_data@)),
    {
        check_value_is(car_data, "Active Aero", "None", "Active aero is not allowed!")?;
        check_value_lacks(
            car_data,
            "Gearbox Type",
            "Adv",
            "Only manual and automatic transmissions allowed!",
        )?;
        check_value_is(
            car_data,
            "Differential Type",
            "Geared LSD",
            "Geared LSD is required! If you want to tune it, use a racing differential in BeamNG.",
        )?;
        Ok(())
    }

    /// Powertrain audit, reported as [`engine_verdict`] says.
    pub fn check_engine(&self, car_data: &CarData) -> (r: Result<(), String>)
        ensures
            reports(r, engine_verdict(car_data@)),
    {
        check_value_not(car_data, "Leaded Fuel", "TRUE", "Running leaded fuel!")?;
        check_usize_eq(car_data, "Fuel Octane", 98, "Running the wrong fuel octane!")?;
        let aspiration = match car_data.get("Aspiration") {
            Err(m) => {
                return Err(m);
            },
            Ok(v) => v,
        };
        if !str_eq(aspiration.as_str(), "None") {
            // Forced induction.
            if str_contains(aspiration.as_str(), "Twin") || str_contains(
                aspiration.as_str(),
                "Quad",
            ) {
                return Err("Twin/Quad turbo setups not allowed!".to_owned());
            }
            check_usize_gt(car_data, "Cylinder Count", 8, "Can't have more than 8 cylinders!")?;
            check_value_not(car_data, "Intake", "Race", "Intake manifold can't be race!")?;
            check_trunc_eq(car_data, "Variant Aspiration Quality", 0, "Turbo quality must be 0!")?;
            check_displacement(car_data, 1_700, "Displacement cannot be more than 1.7L!")?;
            check_millis_gt(car_data, "Peak Boost", 1_860, "Peak boost cannot be more than 2.06 bar!")?;
            check_millis_gt(car_data, "Compressor Size 1", 90_000, "Turbo compressor size too big!")?;
            check_millis_gt(car_data, "Turbine Size 1", 75_000, "Turbine size too big!")?;
            check_tenths_lt(car_data, "Engine Reliability", 550, "Engine reliability is too low!")?;
            check_quality_scan(
                car_data,
                true,
                -5,
                5,
                "Engine quality sliders may not be more than +/- 5!",
            )?;
        } else {
            // No forced induction.
            let a = match car_data.get_millis("Family Displacement") {
                Err(m) => {
                    return Err(m);
                },
                Ok(v) => v,
            };
            if a > 4_500 {
                return Err("Displacement cannot be more than 3.5L!".to_owned());
            }
            let b = match car_data.get_millis("Variant Displacement") {
                Err(m) => {
                    return Err(m);
                },
                Ok(v) => v,
            };
            if b > 4_500 {
                return Err("Displacement cannot be more than 3.5L!".to_owned());
            }
            if a > 3_300 || b > 3_300 {
                if car_data.contains_part("Tubular Race") {
                    return Err(
                        "Not allowed race headers when your engine is bigger than 3.3L!".to_owned(),
                    );
                }
            }
            check_tenths_lt(car_data, "Engine Reliability", 450, "Engine reliability is too low!")?;
        }
        Ok(())
    }
}

/// A record is compliant exactly when all five phases pass: composing the
/// phases loses no check and adds none.
pub proof fn lemma_gt1_compliant_iff_phases(ps: Seq<(Seq<char>, Seq<char>)>)
    ensures
        gt1_verdict(ps) is None <==> (tech_pool_verdict(ps) is None && other_verdict(ps) is None
            && stats_verdict(ps) is None && banned_parts_verdict(ps) is None && engine_verdict(ps)
            is None),
{
}

/// The first phase to fail fixes the outcome: the reason it gives is the
/// one returned, and the phases ordered after it cannot change that.
pub proof fn lemma_gt1_first_failure_wins(ps: Seq<(Seq<char>, Seq<char>)>, m: Seq<char>)
    ensures
        tech_pool_verdict(ps) == Some(m) ==> gt1_verdict(ps) == Some(m),
        tech_pool_verdict(ps) is None && other_verdict(ps) == Some(m) ==> gt1_verdict(ps) == Some(
            m,
        ),
        tech_pool_verdict(ps) is None && other_verdict(ps) is None && stats_verdict(ps) == Some(m)
            ==> gt1_verdict(ps) == Some(m),
        tech_pool_verdict(ps) is None && other_verdict(ps) is None && stats_verdict(ps) is None
            && banned_parts_verdict(ps) == Some(m) ==> gt1_verdict(ps) == Some(m),
        tech_pool_verdict(ps) is None && other_verdict(ps) is None && stats_verdict(ps) is None
            && banned_parts_verdict(ps) is None && engine_verdict(ps) == Some(m) ==> gt1_verdict(
            ps,
        ) == Some(m),
{
}

/// The verdict is a pure function of the record's contents: two records
/// holding the same fields get the same verdict, so re-evaluating an
/// unmodified record cannot change the outcome.
pub proof fn lemma_gt1_deterministic(
    ps1: Seq<(Seq<char>, Seq<char>)>,
    ps2: Seq<(Seq<char>, Seq<char>)>,
)
    requires
        ps1 == ps2,
    ensures
        gt1_verdict(ps1) == gt1_verdict(ps2),
{
}

} // verus!
