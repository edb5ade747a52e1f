use car_checker::CarData;
use car_checker::regulations::Regulations;
use car_checker::regulations::mcs_s1_group_c::MCS_S1_Group_C;

fn base_fields() -> Vec<(String, String)> {
    let fields: &[(&str, &str)] = &[
        ("Trim Interior Techpool", "5"),
        ("Variant Top End Techpool", "5"),
        ("Variant Bottom End Techpool", "5"),
        ("Family Top End Techpool", "5"),
        ("Variant Exhaust Techpool", "5"),
        ("Family Techpool", "5"),
        ("Model Chassis Techpool", "7"),
        ("Trim Assist Techpool", "5"),
        ("Trim Body Techpool", "6"),
        ("Trim Chassis Techpool", "7"),
        ("Trim Brake Techpool", "5"),
        ("Variant Fuel System Techpool", "5"),
        ("Model Body Techpool", "6"),
        ("Trim Tyre Techpool", "7"),
        ("Variant Aspiration Techpool", "5"),
        ("Trim Drivetrain Techpool", "6"),
        ("Trim Fixture Techpool", "5"),
        ("Trim Suspension Techpool", "5"),
        ("Variant Family Techpool", "5"),
        ("Trim Aerodynamics Techpool", "8"),
        ("Trim Safety Techpool", "5"),
        ("Body Name", "LMP Proto"),
        ("Variant Year", "1995"),
        ("Engine Family Year", "1995"),
        ("Trim Year", "1995"),
        ("Model Year", "1995"),
        ("Small 1st Row Seats", "0"),
        ("Small 2nd Row Seats", "0"),
        ("Small 3rd Row Seats", "0"),
        ("Safety Rating", "55"),
        ("Trim Economy", "20"),
        ("Rear Downforce", "800"),
        ("Front Downforce", "800"),
        ("Active Aero", "None"),
        ("Gearbox Type", "Manual"),
        ("Differential Type", "Geared LSD"),
        ("Leaded Fuel", "TRUE"),
        ("Fuel Octane", "110"),
        ("Variant Aspiration Quality", "0"),
        ("Muffler 1", "Standard"),
        ("Muffler 2", "Reverse Flow"),
        ("Aspiration", "None"),
        ("Family Displacement", "3.0"),
        ("Variant Displacement", "3.0"),
        ("Engine Reliability", "55"),
    ];
    fields.iter().map(|(k, v)| (k.to_string(), v.to_string())).collect()
}

fn with(fields: Vec<(String, String)>, key: &str, value: &str) -> Vec<(String, String)> {
    let mut out: Vec<(String, String)> = fields
        .into_iter()
        .filter(|(k, _)| k != key)
        .collect();
    out.push((key.to_string(), value.to_string()));
    out
}

fn without(fields: Vec<(String, String)>, key: &str) -> Vec<(String, String)> {
    fields.into_iter().filter(|(k, _)| k != key).collect()
}

fn check(fields: Vec<(String, String)>) -> Result<(), String> {
    MCS_S1_Group_C::default().check(CarData::from_pairs(fields))
}

#[test]
fn compliant_record_passes() {
    assert_eq!(check(base_fields()), Ok(()));
}

#[test]
fn first_violated_check_is_reported() {
    // A wrong techpool value fails in the first phase, whatever the later
    // phases would say about the also-broken gearbox.
    let fields = with(
        with(base_fields(), "Model Chassis Techpool", "5"),
        "Gearbox Type",
        "Adv Manual",
    );
    assert_eq!(check(fields), Err("Model chassis techpool must be 7!".to_string()));
    // With the techpool restored, the gearbox rule is the first failure.
    let fields = with(base_fields(), "Gearbox Type", "Adv Manual");
    assert_eq!(
        check(fields),
        Err("Only manual and automatic transmissions allowed!".to_string())
    );
}

#[test]
fn safety_rating_rounds_before_compare() {
    // 49.6 rounds to 50 and passes the minimum-50 rule.
    assert_eq!(check(with(base_fields(), "Safety Rating", "49.6")), Ok(()));
    // 49.4 rounds to 49 and fails.
    assert_eq!(
        check(with(base_fields(), "Safety Rating", "49.4")),
        Err("Safety rating must be at least 50.0!".to_string())
    );
}

#[test]
fn downforce_floors_before_compare() {
    // floor(850.9) = 850 is not above the 850 cap.
    assert_eq!(check(with(base_fields(), "Rear Downforce", "850.9")), Ok(()));
    // floor(851.0) = 851 is.
    assert_eq!(
        check(with(base_fields(), "Rear Downforce", "851.0")),
        Err("Too much rear downforce!".to_string())
    );
    assert_eq!(
        check(with(base_fields(), "Front Downforce", "851.0")),
        Err("Too much front downforce!".to_string())
    );
}

#[test]
fn reliability_scaled_rounding_is_boundary_inclusive() {
    // Forced induction asks for reliability >= 55.0 after the two-step
    // rounding: 54.96 -> 549.6 -> 550 -> 55.0 passes.
    let turbo = with(
        with(
            with(
                with(
                    with(
                        with(
                            with(base_fields(), "Aspiration", "Turbo"),
                            "Family Displacement",
                            "1.5",
                        ),
                        "Variant Displacement",
                        "1.5",
                    ),
                    "Peak Boost",
                    "1.9",
                ),
                "Compressor Size 1",
                "80",
            ),
            "Turbine Size 1",
            "70",
        ),
        "Engine Reliability",
        "54.96",
    );
    assert_eq!(check(turbo.clone()), Ok(()));
    // 54.94 -> 549.4 -> 549 -> 54.9 fails the same rule.
    assert_eq!(
        check(with(turbo, "Engine Reliability", "54.94")),
        Err("Engine reliability is too low!".to_string())
    );
}

#[test]
fn quality_slider_scan_bounds_are_inclusive() {
    // A matched slider at 6 leaves the +/-5 band.
    assert_eq!(
        check(with(base_fields(), "Variant Aspiration Quality", "6")),
        Err("Engine quality sliders may not be more than +/- 5!".to_string())
    );
    // Sliders exactly at -5 and 5 stay inside it.
    let mut fields = with(base_fields(), "Variant Aspiration Quality", "5");
    fields.push(("Variant Intercooler Quality".to_string(), "-5".to_string()));
    assert_eq!(check(fields), Ok(()));
}

#[test]
fn evaluation_is_idempotent() {
    let fields = base_fields();
    let first = check(fields.clone());
    let second = check(fields);
    assert_eq!(first, second);
    let bad = with(base_fields(), "Fuel Octane", "98");
    let first = check(bad.clone());
    let second = check(bad);
    assert_eq!(first, second);
}

#[test]
fn missing_safety_rating_fails_structurally() {
    // Tech-budget and metadata pass; the performance phase trips over the
    // absent field and reports it like any other first failure.
    assert_eq!(
        check(without(base_fields(), "Safety Rating")),
        Err("Expected value not found!".to_string())
    );
}

#[test]
fn turbo_quality_offset_must_be_zero() {
    // With forced induction, a quality offset of 1 fails no matter what
    // the displacement and boost figures hold.
    let fields = with(
        with(
            with(base_fields(), "Aspiration", "Turbo"),
            "Variant Aspiration Quality",
            "1",
        ),
        "Family Displacement",
        "9.9",
    );
    assert_eq!(check(fields), Err("Turbo quality must be 0!".to_string()));
}

#[test]
fn natural_displacement_cap_applies() {
    assert_eq!(
        check(with(base_fields(), "Family Displacement", "3.9")),
        Err("Displacement cannot be more than 3.8L!".to_string())
    );
    assert_eq!(
        check(with(base_fields(), "Variant Displacement", "3.81")),
        Err("Displacement cannot be more than 3.8L!".to_string())
    );
}

#[test]
fn mufflers_cannot_be_none() {
    assert_eq!(
        check(with(base_fields(), "Muffler 2", "None")),
        Err("Mufflers cannot be None!".to_string())
    );
}

#[test]
fn small_seats_are_rejected() {
    assert_eq!(
        check(with(base_fields(), "Small 2nd Row Seats", "1")),
        Err("Must not have small seats!".to_string())
    );
}

#[test]
fn wrong_body_family_is_rejected() {
    assert_eq!(
        check(with(base_fields(), "Body Name", "GT Coupe")),
        Err("Incorrect body!".to_string())
    );
}

#[test]
fn unparseable_techpool_value_is_non_numeric() {
    assert_eq!(
        check(with(base_fields(), "Family Techpool", "lots")),
        Err("invalid float literal".to_string())
    );
}

#[test]
fn each_rule_reports_its_own_reason() {
    assert_eq!(
        check(with(base_fields(), "Trim Economy", "24")),
        Err("Fuel economy must be 23.5 liters / 100km or better!".to_string())
    );
    assert_eq!(
        check(with(base_fields(), "Active Aero", "Roof Wing")),
        Err("Active aero is not allowed!".to_string())
    );
    assert_eq!(
        check(with(base_fields(), "Differential Type", "Open")),
        Err("Geared LSD is required! If you want to tune it, use a racing differential in BeamNG.".to_string())
    );
    assert_eq!(
        check(with(base_fields(), "Leaded Fuel", "FALSE")),
        Err("Not running leaded fuel!".to_string())
    );
    assert_eq!(
        check(with(base_fields(), "Fuel Octane", "98")),
        Err("Running the wrong fuel octane!".to_string())
    );
    assert_eq!(
        check(with(base_fields(), "Variant Year", "1996")),
        Err("Engine year must be 1995!".to_string())
    );
}

#[test]
fn economy_rounds_before_compare() {
    // 23.5 itself rounds up to 24 and fails the 23.5 ceiling.
    assert_eq!(
        check(with(base_fields(), "Trim Economy", "23.5")),
        Err("Fuel economy must be 23.5 liters / 100km or better!".to_string())
    );
    // 23.4 rounds down to 23 and passes.
    assert_eq!(check(with(base_fields(), "Trim Economy", "23.4")), Ok(()));
}

#[test]
fn csv_submission_end_to_end() {
    // A decoded export missing most fields fails structurally at the first
    // audit that reads an absent field.
    let text = "Trim Interior Techpool,Body Name\n5,LMP Proto\n".to_string();
    let cd = car_checker::from_utf8_string(text).expect("csv should decode");
    assert_eq!(
        MCS_S1_Group_C::default().check(cd),
        Err("Expected value not found!".to_string())
    );
}

#[test]
fn turbo_peak_boost_cap_applies() {
    let turbo = with(
        with(
            with(
                with(
                    with(
                        with(base_fields(), "Aspiration", "Turbo"),
                        "Family Displacement",
                        "1.5",
                    ),
                    "Variant Displacement",
                    "1.5",
                ),
                "Peak Boost",
                "2.07",
            ),
            "Compressor Size 1",
            "80",
        ),
        "Turbine Size 1",
        "70",
    );
    assert_eq!(
        check(turbo),
        Err("Peak boost cannot be more than 2.06 bar!".to_string())
    );
}
