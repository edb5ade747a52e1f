use car_checker::CarData;
use car_checker::regulations::Regulations;
use car_checker::regulations::mcs_s1_gt1::MCS_S1_GT1;

fn base_fields() -> Vec<(String, String)> {
    let fields: &[(&str, &str)] = &[
        ("Trim Interior Techpool", "5"),
        ("Variant Top End Techpool", "5"),
        ("Family Techpool", "5"),
        ("Trim Body Techpool", "5"),
        ("Trim Safety Techpool", "5"),
        ("Body Name", "GT Street"),
        ("Variant Year", "1995"),
        ("Engine Family Year", "1995"),
        ("Trim Year", "1995"),
        ("Model Year", "1995"),
        ("Small 1st Row Seats", "0"),
        ("Small 2nd Row Seats", "0"),
        ("Small 3rd Row Seats", "0"),
        ("Chassis Material", "Steel"),
        ("Panel Material", "Aluminium"),
        ("Front Suspension", "Double Wishbone"),
        ("Safety Rating", "60"),
        ("Trim Economy", "12"),
        ("Rear Downforce", "200"),
        ("Front Downforce", "200"),
        ("Active Aero", "None"),
        ("Gearbox Type", "Manual"),
        ("Differential Type", "Geared LSD"),
        ("Leaded Fuel", "FALSE"),
        ("Fuel Octane", "98"),
        ("Variant Aspiration Quality", "0"),
        ("Aspiration", "None"),
        ("Family Displacement", "3.0"),
        ("Variant Displacement", "3.0"),
        ("Engine Reliability", "50"),
    ];
    fields.iter().map(|(k, v)| (k.to_string(), v.to_string())).collect()
}

fn with(fields: Vec<(String, String)>, key: &str, value: &str) -> Vec<(String, String)> {
    let mut out: Vec<(String, String)> = fields
        .into_iter()
        .filter(|(k, _)| k != key)
        .collect();
    out.push((key.to_string(), value.to_string()));
    out
}

fn check(fields: Vec<(String, String)>) -> Result<(), String> {
    MCS_S1_GT1::default().check(CarData::from_pairs(fields))
}

#[test]
fn gt1_compliant_record_passes() {
    assert_eq!(check(base_fields()), Ok(()));
}

#[test]
fn gt1_techpool_scan_requires_five_everywhere() {
    assert_eq!(
        check(with(base_fields(), "Trim Body Techpool", "6")),
        Err("Techpool must be 5!".to_string())
    );
    assert_eq!(
        check(with(base_fields(), "Family Techpool", "many")),
        Err("invalid float literal".to_string())
    );
}

#[test]
fn gt1_first_violated_check_is_reported() {
    // The techpool scan runs first: its failure masks the broken body rule.
    let fields = with(with(base_fields(), "Trim Body Techpool", "6"), "Body Name", "LMP Proto");
    assert_eq!(check(fields), Err("Techpool must be 5!".to_string()));
    // With the techpool fixed, the body rule is the first failure.
    assert_eq!(
        check(with(base_fields(), "Body Name", "LMP Proto")),
        Err("Incorrect body!".to_string())
    );
}

#[test]
fn gt1_quality_sliders_allow_ten() {
    let mut fields = with(base_fields(), "Variant Aspiration Quality", "10");
    fields.push(("Trim Interior Quality".to_string(), "-10".to_string()));
    assert_eq!(check(fields), Ok(()));
    assert_eq!(
        check(with(base_fields(), "Variant Aspiration Quality", "11")),
        Err("Quality sliders may not be more than +/- 10!".to_string())
    );
}

#[test]
fn gt1_material_bans_name_the_material() {
    assert_eq!(
        check(with(base_fields(), "Chassis Material", "Glued Aluminium")),
        Err("Chassis material cannot be Glued Aluminium".to_string())
    );
    assert_eq!(
        check(with(base_fields(), "Panel Material", "Carbon Fibre")),
        Err("Panel material cannot be Carbon Fibre".to_string())
    );
}

#[test]
fn gt1_pushrod_suspension_is_banned() {
    assert_eq!(
        check(with(base_fields(), "Front Suspension", "Pushrod")),
        Err("Pushrod suspension not allowed!".to_string())
    );
}

#[test]
fn gt1_safety_threshold_is_fifty_five() {
    // 54.4 rounds to 54 and fails; 54.6 rounds to 55 and passes.
    assert_eq!(
        check(with(base_fields(), "Safety Rating", "54.4")),
        Err("Safety rating must be at least 50.0!".to_string())
    );
    assert_eq!(check(with(base_fields(), "Safety Rating", "54.6")), Ok(()));
}

#[test]
fn gt1_leaded_fuel_is_banned() {
    assert_eq!(
        check(with(base_fields(), "Leaded Fuel", "TRUE")),
        Err("Running leaded fuel!".to_string())
    );
}

#[test]
fn gt1_natural_displacement_rules() {
    assert_eq!(
        check(with(base_fields(), "Family Displacement", "4.6")),
        Err("Displacement cannot be more than 3.5L!".to_string())
    );
    // Above 3.3 litres, race headers are banned.
    let fields = with(
        with(
            with(base_fields(), "Family Displacement", "3.5"),
            "Variant Displacement",
            "3.5",
        ),
        "Exhaust Headers",
        "Tubular Race",
    );
    assert_eq!(
        check(fields),
        Err("Not allowed race headers when your engine is bigger than 3.3L!".to_string())
    );
    // The same headers are fine on a smaller engine.
    assert_eq!(
        check(with(base_fields(), "Exhaust Headers", "Tubular Race")),
        Ok(())
    );
}

#[test]
fn gt1_turbo_path_rules() {
    let turbo = with(
        with(
            with(
                with(
                    with(
                        with(
                            with(
                                with(base_fields(), "Aspiration", "Single Turbo"),
                                "Cylinder Count",
                                "8",
                            ),
                            "Intake",
                            "Standard",
                        ),
                        "Family Displacement",
                        "1.6",
                    ),
                    "Variant Displacement",
                    "1.6",
                ),
                "Peak Boost",
                "1.8",
            ),
            "Compressor Size 1",
            "85",
        ),
        "Turbine Size 1",
        "70",
    );
    let ok = with(turbo.clone(), "Engine Reliability", "55");
    assert_eq!(check(ok), Ok(()));
    assert_eq!(
        check(with(turbo.clone(), "Aspiration", "Twin Turbo")),
        Err("Twin/Quad turbo setups not allowed!".to_string())
    );
    assert_eq!(
        check(with(turbo.clone(), "Cylinder Count", "10")),
        Err("Can't have more than 8 cylinders!".to_string())
    );
    assert_eq!(
        check(with(turbo.clone(), "Intake", "Race")),
        Err("Intake manifold can't be race!".to_string())
    );
    let slow = with(with(turbo, "Engine Reliability", "54.9"), "Peak Boost", "1.8");
    assert_eq!(check(slow), Err("Engine reliability is too low!".to_string()));
}

#[test]
fn gt1_natural_reliability_boundary_is_inclusive() {
    // 44.95 -> 449.5 -> 450 -> 45.0 meets the 45.0 minimum.
    assert_eq!(check(with(base_fields(), "Engine Reliability", "44.95")), Ok(()));
    // 44.94 -> 449.4 -> 449 -> 44.9 does not.
    assert_eq!(
        check(with(base_fields(), "Engine Reliability", "44.94")),
        Err("Engine reliability is too low!".to_string())
    );
}

#[test]
fn gt1_idempotent_evaluation() {
    let fields = base_fields();
    assert_eq!(check(fields.clone()), check(fields));
}
