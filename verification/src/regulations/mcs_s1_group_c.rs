//! The prototype/endurance class rule set.
//!
//! Five ordered phases: tech-budget audit over a fixed list of named
//! investment fields, metadata/eligibility audit, performance-envelope
//! audit, banned-component audit, and the powertrain audit that branches on
//! forced induction.

use vstd::prelude::*;
use crate::record::{CarData, spec_get};
use crate::strutil::str_eq;
use crate::regulations::{
    Regulations, reports, first_fail, usize_eq_check, round_lt_check, round_gt_check,
    floor_gt_check, millis_gt_check, tenths_lt_check, trunc_ne_check, value_is_check,
    value_lacks_check, prefix_check, seats_check, displacement_check, quality_scan_check,
    check_usize_eq, check_round_lt, check_round_gt, check_floor_gt, check_millis_gt,
    check_tenths_lt, check_trunc_eq, check_value_is, check_value_lacks, check_prefix,
    check_seats, check_displacement, check_quality_scan,
};

verus! {

/// The prototype/endurance competition class.
#[allow(non_camel_case_types)]
#[derive(Default)]
pub struct MCS_S1_Group_C;

/// Tech-budget audit: every named investment field must equal its exact
/// per-field target.
pub open spec fn tech_pool_verdict(ps: Seq<(Seq<char>, Seq<char>)>) -> Option<Seq<char>> {
    first_fail(
        usize_eq_check(ps, "Trim Interior Techpool"@, 5, "Trim interior techpool must be 5!"@),
        first_fail(
            usize_eq_check(ps, "Variant Top End Techpool"@, 5, "Variant top end techpool must be 5!"@),
            first_fail(
                usize_eq_check(ps, "Variant Bottom End Techpool"@, 5, "Variant bottom end techpool must be 5!"@),
                first_fail(
                    usize_eq_check(ps, "Family Top End Techpool"@, 5, "Family top end techpool must be 5!"@),
                    first_fail(
                        usize_eq_check(ps, "Variant Exhaust Techpool"@, 5, "Variant exhaust techpool must be 5!"@),
                        first_fail(
                            usize_eq_check(ps, "Family Techpool"@, 5, "Family techpool must be 5!"@),
                            first_fail(
                                usize_eq_check(ps, "Model Chassis Techpool"@, 7, "Model chassis techpool must be 7!"@),
                                first_fail(
                                    usize_eq_check(ps, "Trim Assist Techpool"@, 5, "Trim assist techpool must be 5!"@),
                                    first_fail(
                                        usize_eq_check(ps, "Trim Body Techpool"@, 6, "Trim body techpool must be 5!"@),
                                        first_fail(
                                            usize_eq_check(ps, "Trim Chassis Techpool"@, 7, "Trim chassis techpool must be 7!"@),
                                            first_fail(
                                                usize_eq_check(ps, "Trim Brake Techpool"@, 5, "Trim brake techpool must be 5!"@),
                                                first_fail(
                                                    usize_eq_check(ps, "Variant Fuel System Techpool"@, 5, "Variant fuel system techpool must be 5!"@),
                                                    first_fail(
                                                        usize_eq_check(ps, "Model Body Techpool"@, 6, "Model body techpool must be 6!"@),
                                                        first_fail(
                                                            usize_eq_check(ps, "Trim Tyre Techpool"@, 7, "Trim Tyre techpool must be 7!"@),
                                                            first_fail(
                                                                usize_eq_check(ps, "Variant Aspiration Techpool"@, 5, "Variant aspiration techpool must be 5!"@),
                                                                first_fail(
                                                                    usize_eq_check(ps, "Trim Drivetrain Techpool"@, 6, "Trim drivetrain techpool must be 6!"@),
                                                                    first_fail(
                                                                        usize_eq_check(ps, "Trim Fixture Techpool"@, 5, "Trim fixture techpool must be 5!"@),
                                                                        first_fail(
                                                                            usize_eq_check(ps, "Trim Suspension Techpool"@, 5, "Trim suspension techpool must be 5!"@),
                                                                            first_fail(
                                                                                usize_eq_check(ps, "Variant Family Techpool"@, 5, "Variant family techpool must be 5!"@),
                                                                                first_fail(
                                                                                    usize_eq_check(ps, "Trim Aerodynamics Techpool"@, 8, "Trim aerodynamics techpool must be 8!"@),
                                                                                    usize_eq_check(ps, "Trim Safety Techpool"@, 5, "Trim safety techpool must be 5!"@),
                                                                                ),
                                                                            ),
                                                                        ),
                                                                    ),
                                                                ),
                                                            ),
                                                        ),
                                                    ),
                                                ),
                                            ),
                                        ),
                                    ),
                                ),
                            ),
                        ),
                    ),
                ),
            ),
        ),
    )
}

/// Metadata/eligibility audit: body family, competition year stamps, and
/// the small-seat ban.
pub open spec fn other_verdict(ps: Seq<(Seq<char>, Seq<char>)>) -> Option<Seq<char>> {
    first_fail(
        prefix_check(ps, "Body Name"@, "LMP"@, true, "Incorrect body!"@),
        first_fail(
            usize_eq_check(ps, "Variant Year"@, 1995, "Engine year must be 1995!"@),
            first_fail(
                usize_eq_check(ps, "Engine Family Year"@, 1995, "Engine year must be 1995!"@),
                first_fail(
                    usize_eq_check(ps, "Trim Year"@, 1995, "Body year must be 1995!"@),
                    first_fail(
                        usize_eq_check(ps, "Model Year"@, 1995, "Body year must be 1995!"@),
                        seats_check(ps, "Must not have small seats!"@),
                    ),
                ),
            ),
        ),
    )
}

/// Performance-envelope audit: rounded safety and economy bounds, floored
/// downforce caps.
pub open spec fn stats_verdict(ps: Seq<(Seq<char>, Seq<char>)>) -> Option<Seq<char>> {
    first_fail(
        round_lt_check(ps, "Safety Rating"@, 50_000, "Safety rating must be at least 50.0!"@),
        first_fail(
            round_gt_check(
                ps,
                "Trim Economy"@,
                23_500,
                "Fuel economy must be 23.5 liters / 100km or better!"@,
            ),
            first_fail(
                floor_gt_check(ps, "Rear Downforce"@, 850_000, "Too much rear downforce!"@),
                floor_gt_check(ps, "Front Downforce"@, 850_000, "Too much front downforce!"@),
            ),
        ),
    )
}

/// Banned-component audit: active aero, advanced gearboxes, and the
/// required differential.
pub open spec fn banned_parts_verdict(ps: Seq<(Seq<char>, Seq<char>)>) -> Option<Seq<char>> {
    first_fail(
        value_is_check(ps, "Active Aero"@, "None"@, "Active aero is not allowed!"@),
        first_fail(
            value_lacks_check(
                ps,
                "Gearbox Type"@,
                "Adv"@,
                "Only manual and automatic transmissions allowed!"@,
            ),
            value_is_check(
                ps,
                "Differential Type"@,
                "Geared LSD"@,
                "Geared LSD is required! If you want to tune it, use a racing differential in BeamNG."@,
            ),
        ),
    )
}

/// Powertrain rules on the forced-induction path.
pub open spec fn turbo_verdict(ps: Seq<(Seq<char>, Seq<char>)>) -> Option<Seq<char>> {
    first_fail(
        trunc_ne_check(ps, "Variant Aspiration Quality"@, 0, "Turbo quality must be 0!"@),
        first_fail(
            displacement_check(ps, 1_600, "Displacement cannot be more than 1.6L!"@),
            first_fail(
                millis_gt_check(ps, "Peak Boost"@, 2_060, "Peak boost cannot be more than 2.06 bar!"@),
                first_fail(
                    millis_gt_check(ps, "Compressor Size 1"@, 90_000, "Turbo compressor size too big!"@),
                    first_fail(
                        millis_gt_check(ps, "Turbine Size 1"@, 75_000, "Turbine size too big!"@),
                        tenths_lt_check(ps, "Engine Reliability"@, 550, "Engine reliability is too low!"@),
                    ),
                ),
            ),
        ),
    )
}

/// Powertrain rules on the naturally-aspirated path.
pub open spec fn natural_verdict(ps: Seq<(Seq<char>, Seq<char>)>) -> Option<Seq<char>> {
    first_fail(
        displacement_check(ps, 3_800, "Displacement cannot be more than 3.8L!"@),
        tenths_lt_check(ps, "Engine Reliability"@, 400, "Engine reliability is too low!"@),
    )
}

/// The muffler rule: neither muffler slot may read `None`, probed in
/// order.
pub open spec fn muffler_verdict(ps: Seq<(Seq<char>, Seq<char>)>) -> Option<Seq<char>> {
    match spec_get(ps, "Muffler 1"@) {
        Err(e) => Some(e),
        Ok(m1) => if m1 == "None"@ {
            Some("Mufflers cannot be None!"@)
        } else {
            match spec_get(ps, "Muffler 2"@) {
                Err(e) => Some(e),
                Ok(m2) => if m2 == "None"@ {
                    Some("Mufflers cannot be None!"@)
                } else {
                    None
                },
            }
        },
    }
}

/// Powertrain audit: fuel rules, the quality-slider scan, mufflers, then
/// the branch on forced induction.
pub open spec fn engine_verdict(ps: Seq<(Seq<char>, Seq<char>)>) -> Option<Seq<char>> {
    first_fail(
        value_is_check(ps, "Leaded Fuel"@, "TRUE"@, "Not running leaded fuel!"@),
        first_fail(
            usize_eq_check(ps, "Fuel Octane"@, 110, "Running the wrong fuel octane!"@),
            first_fail(
                quality_scan_check(
                    ps,
                    true,
                    -5,
                    5,
                    "Engine quality sliders may not be more than +/- 5!"@,
                ),
                first_fail(
                    muffler_verdict(ps),
                    match spec_get(ps, "Aspiration"@) {
                        Err(e) => Some(e),
                        Ok(v) => if v != "None"@ {
                            turbo_verdict(ps)
                        } else {
                            natural_verdict(ps)
                        },
                    },
                ),
            ),
        ),
    )
}

/// The whole rule set, phases in order.
pub open spec fn group_c_verdict(ps: Seq<(Seq<char>, Seq<char>)>) -> Option<Seq<char>> {
    first_fail(
        tech_pool_verdict(ps),
        first_fail(
            other_verdict(ps),
            first_fail(
                stats_verdict(ps),
                first_fail(banned_parts_verdict(ps), engine_verdict(ps)),
            ),
        ),
    )
}

impl Regulations for MCS_S1_Group_C {
    open spec fn verdict(&self, ps: Seq<(Seq<char>, Seq<char>)>) -> Option<Seq<char>> {
        group_c_verdict(ps)
    }

    fn check(&self, car_data: CarData) -> (r: Result<(), String>) {
        self.check_tech_pool(&car_data)?;
        self.check_other(&car_data)?;
        self.check_stats(&car_data)?;
        self.check_banned_parts(&car_data)?;
        self.check_engine(&car_data)?;
        Ok(())
    }
}

impl MCS_S1_Group_C {
    /// Tech-budget audit, reported as [`tech_pool_verdict`] says.
    pub fn check_tech_pool(&self, car_data: &CarData) -> (r: Result<(), String>)
        ensures
            reports(r, tech_pool_verdict(car_data@)),
    {
        check_usize_eq(car_data, "Trim Interior Techpool", 5, "Trim interior techpool must be 5!")?;
        check_usize_eq(car_data, "Variant Top End Techpool", 5, "Variant top end techpool must be 5!")?;
        check_usize_eq(car_data, "Variant Bottom End Techpool", 5, "Variant bottom end techpool must be 5!")?;
        check_usize_eq(car_data, "Family Top End Techpool", 5, "Family top end techpool must be 5!")?;
        check_usize_eq(car_data, "Variant Exhaust Techpool", 5, "Variant exhaust techpool must be 5!")?;
        check_usize_eq(car_data, "Family Techpool", 5, "Family techpool must be 5!")?;
        check_usize_eq(car_data, "Model Chassis Techpool", 7, "Model chassis techpool must be 7!")?;
        check_usize_eq(car_data, "Trim Assist Techpool", 5, "Trim assist techpool must be 5!")?;
        check_usize_eq(car_data, "Trim Body Techpool", 6, "Trim body techpool must be 5!")?;
        check_usize_eq(car_data, "Trim Chassis Techpool", 7, "Trim chassis techpool must be 7!")?;
        check_usize_eq(car_data, "Trim Brake Techpool", 5, "Trim brake techpool must be 5!")?;
        check_usize_eq(car_data, "Variant Fuel System Techpool", 5, "Variant fuel system techpool must be 5!")?;
        check_usize_eq(car_data, "Model Body Techpool", 6, "Model body techpool must be 6!")?;
        check_usize_eq(car_data, "Trim Tyre Techpool", 7, "Trim Tyre techpool must be 7!")?;
        check_usize_eq(car_data, "Variant Aspiration Techpool", 5, "Variant aspiration techpool must be 5!")?;
        check_usize_eq(car_data, "Trim Drivetrain Techpool", 6, "Trim drivetrain techpool must be 6!")?;
        check_usize_eq(car_data, "Trim Fixture Techpool", 5, "Trim fixture techpool must be 5!")?;
        check_usize_eq(car_data, "Trim Suspension Techpool", 5, "Trim suspension techpool must be 5!")?;
        check_usize_eq(car_data, "Variant Family Techpool", 5, "Variant family techpool must be 5!")?;
        check_usize_eq(car_data, "Trim Aerodynamics Techpool", 8, "Trim aerodynamics techpool must be 8!")?;
        check_usize_eq(car_data, "Trim Safety Techpool", 5, "Trim safety techpool must be 5!")?;
        Ok(())
    }

    /// Metadata/eligibility audit, reported as [`other_verdict`] says.
    pub fn check_other(&self, car_data: &CarData) -> (r: Result<(), String>)
        ensures
            reports(r, other_verdict(car_data@)),
    {
        check_prefix(car_data, "Body Name", "LMP", true, "Incorrect body!")?;
        check_usize_eq(car_data, "Variant Year", 1995, "Engine year must be 1995!")?;
        check_usize_eq(car_data, "Engine Family Year", 1995, "Engine year must be 1995!")?;
        check_usize_eq(car_data, "Trim Year", 1995, "Body year must be 1995!")?;
        check_usize_eq(car_data, "Model Year", 1995, "Body year must be 1995!")?;
        check_seats(car_data, "Must not have small seats!")?;
        Ok(())
    }

    /// Performance-envelope audit, reported as [`stats_verdict`] says.
    pub fn check_stats(&self, car_data: &CarData) -> (r: Result<(), String>)
        ensures
            reports(r, stats_verdict(car_data@)),
    {
        check_round_lt(car_data, "Safety Rating", 50_000, "Safety rating must be at least 50.0!")?;
        check_round_gt(
            car_data,
            "Trim Economy",
            23_500,
            "Fuel economy must be 23.5 liters / 100km or better!",
        )?;
        check_floor_gt(car_data, "Rear Downforce", 850_000, "Too much rear downforce!")?;
        check_floor_gt(car_data, "Front Downforce", 850_000, "Too much front downforce!")?;
        Ok(())
    }

    /// Banned-component audit, reported as [`banned_parts_verdict`] says.
    pub fn check_banned_parts(&self, car_data: &CarData) -> (r: Result<(), String>)
        ensures
            reports(r, banned_parts_verdict(car_data@)),
    {
        check_value_is(car_data, "Active Aero", "None", "Active aero is not allowed!")?;
        check_value_lacks(
            car_data,
            "Gearbox Type",
            "Adv",
            "Only manual and automatic transmissions allowed!",
        )?;
        check_value_is(
            car_data,
            "Differential Type",
            "Geared LSD",
            "Geared LSD is required! If you want to tune it, use a racing differential in BeamNG.",
        )?;
        Ok(())
    }

    /// Powertrain audit, reported as [`engine_verdict`] says.
    pub fn check_engine(&self, car_data: &CarData) -> (r: Result<(), String>)
        ensures
            reports(r, engine_verdict(car_data@)),
    {
        check_value_is(car_data, "Leaded Fuel", "TRUE", "Not running leaded fuel!")?;
        check_usize_eq(car_data, "Fuel Octane", 110, "Running the wrong fuel octane!")?;
        check_quality_scan(
            car_data,
            true,
            -5,
            5,
            "Engine quality sliders may not be more than +/- 5!",
        )?;
        let m1 = match car_data.get("Muffler 1") {
            Err(m) => {
                return Err(m);
            },
            Ok(v) => v,
        };
        if str_eq(m1.as_str(), "None") {
            return Err("Mufflers cannot be None!".to_owned());
        }
        let m2 = match car_data.get("Muffler 2") {
            Err(m) => {
                return Err(m);
            },
            Ok(v) => v,
        };
        if str_eq(m2.as_str(), "None") {
            return Err("Mufflers cannot be None!".to_owned());
        }
        let aspiration = match car_data.get("Aspiration") {
            Err(m) => {
                return Err(m);
            },
            Ok(v) => v,
        };
        if !str_eq(aspiration.as_str(), "None") {
            // Forced induction.
            check_trunc_eq(car_data, "Variant Aspiration Quality", 0, "Turbo quality must be 0!")?;
            check_displacement(car_data, 1_600, "Displacement cannot be more than 1.6L!")?;
            check_millis_gt(car_data, "Peak Boost", 2_060, "Peak boost cannot be more than 2.06 bar!")?;
            check_millis_gt(car_data, "Compressor Size 1", 90_000, "Turbo compressor size too big!")?;
            check_millis_gt(car_data, "Turbine Size 1", 75_000, "Turbine size too big!")?;
            check_tenths_lt(car_data, "Engine Reliability", 550, "Engine reliability is too low!")?;
        } else {
            // No forced induction.
            check_displacement(car_data, 3_800, "Displacement cannot be more than 3.8L!")?;
            check_tenths_lt(car_data, "Engine Reliability", 400, "Engine reliability is too low!")?;
        }
        Ok(())
    }
}

/// A record is compliant exactly when all five phases pass: composing the
/// phases loses no check and adds none.
pub proof fn lemma_group_c_compliant_iff_phases(ps: Seq<(Seq<char>, Seq<char>)>)
    ensures
        group_c_verdict(ps) is None <==> (tech_pool_verdict(ps) is None && other_verdict(ps)
            is None && stats_verdict(ps) is None && banned_parts_verdict(ps) is None
            && engine_verdict(ps) is None),
{
}

/// The first phase to fail fixes the outcome: the reason it gives is the
/// one returned, and the phases ordered after it cannot change that.
pub proof fn lemma_group_c_first_failure_wins(ps: Seq<(Seq<char>, Seq<char>)>, m: Seq<char>)
    ensures
        tech_pool_verdict(ps) == Some(m) ==> group_c_verdict(ps) == Some(m),
        tech_pool_verdict(ps) is None && other_verdict(ps) == Some(m) ==> group_c_verdict(ps)
            == Some(m),
        tech_pool_verdict(ps) is None && other_verdict(ps) is None && stats_verdict(ps) == Some(m)
            ==> group_c_verdict(ps) == Some(m),
        tech_pool_verdict(ps) is None && other_verdict(ps) is None && stats_verdict(ps) is None
            && banned_parts_verdict(ps) == Some(m) ==> group_c_verdict(ps) == Some(m),
        tech_pool_verdict(ps) is None && other_verdict(ps) is None && stats_verdict(ps) is None
            && banned_parts_verdict(ps) is None && engine_verdict(ps) == Some(m)
            ==> group_c_verdict(ps) == Some(m),
{
}

/// The verdict is a pure function of the record's contents: two records
/// holding the same fields get the same verdict, so re-evaluating an
/// unmodified record cannot change the outcome.
pub proof fn lemma_group_c_deterministic(
    ps1: Seq<(Seq<char>, Seq<char>)>,
    ps2: Seq<(Seq<char>, Seq<char>)>,
)
    requires
        ps1 == ps2,
    ensures
        group_c_verdict(ps1) == group_c_verdict(ps2),
{
}

} // verus!
