use car_checker::CarData;
use car_checker::from_utf8_string;

fn build(fields: &[(&str, &str)]) -> CarData {
    let pairs: Vec<(String, String)> = fields
        .iter()
        .map(|(k, v)| (k.to_string(), v.to_string()))
        .collect();
    CarData::from_pairs(pairs)
}

#[test]
fn get_returns_stored_value() {
    let cd = build(&[("Body Name", "LMP Proto"), ("Trim Year", "1995")]);
    assert_eq!(cd.get("Body Name"), Ok("LMP Proto".to_string()));
    assert_eq!(cd.get("Trim Year"), Ok("1995".to_string()));
}

#[test]
fn get_missing_field_reports_missing() {
    let cd = build(&[("Body Name", "LMP Proto")]);
    assert_eq!(cd.get("Safety Rating"), Err("Expected value not found!".to_string()));
}

#[test]
fn from_pairs_keeps_first_occurrence() {
    let cd = build(&[("A", "1"), ("A", "2"), ("B", "3")]);
    assert_eq!(cd.get("A"), Ok("1".to_string()));
    assert_eq!(cd.get("B"), Ok("3".to_string()));
    assert_eq!(cd.len(), 2);
}

#[test]
fn get_usize_truncates_toward_zero() {
    let cd = build(&[("X", "5.9"), ("Y", "-3"), ("Z", "7")]);
    assert_eq!(cd.get_usize("X"), Ok(5));
    assert_eq!(cd.get_usize("Y"), Ok(0));
    assert_eq!(cd.get_usize("Z"), Ok(7));
}

#[test]
fn get_usize_rejects_non_numeric() {
    let cd = build(&[("X", "abc"), ("Y", ""), ("W", "1.2.3")]);
    assert_eq!(cd.get_usize("X"), Err("invalid float literal".to_string()));
    assert_eq!(cd.get_usize("Y"), Err("invalid float literal".to_string()));
    assert_eq!(cd.get_usize("W"), Err("invalid float literal".to_string()));
}

#[test]
fn get_millis_reads_fixed_point() {
    let cd = build(&[
        ("A", "54.96"),
        ("B", "-5"),
        ("C", ".5"),
        ("D", "2."),
        ("E", "+1.25"),
    ]);
    assert_eq!(cd.get_millis("A"), Ok(54_960));
    assert_eq!(cd.get_millis("B"), Ok(-5_000));
    assert_eq!(cd.get_millis("C"), Ok(500));
    assert_eq!(cd.get_millis("D"), Ok(2_000));
    assert_eq!(cd.get_millis("E"), Ok(1_250));
}

#[test]
fn get_millis_ignores_digits_past_the_third() {
    let cd = build(&[("A", "1.2345"), ("B", "-1.2345")]);
    assert_eq!(cd.get_millis("A"), Ok(1_234));
    assert_eq!(cd.get_millis("B"), Ok(-1_234));
}

#[test]
fn contains_part_scans_values() {
    let cd = build(&[("Front Suspension", "Pushrod Setup"), ("Rear Suspension", "Multilink")]);
    assert!(cd.contains_part("Pushrod"));
    assert!(cd.contains_part("Multilink"));
    assert!(!cd.contains_part("Wishbone"));
    assert!(!cd.contains_part("Suspension"));
}

#[test]
fn get_cost_sums_the_two_cost_fields() {
    let cd = build(&[("Trim Total Costs", "1000.5"), ("Engine Total Cost", "2000")]);
    assert_eq!(cd.get_cost(), Ok(3000));
}

#[test]
fn get_cost_reports_missing_field() {
    let cd = build(&[("Trim Total Costs", "1000")]);
    assert_eq!(cd.get_cost(), Err("Expected value not found!".to_string()));
}

#[test]
fn from_utf8_string_reads_first_row() {
    let text = "Body Name,Trim Year\nLMP Proto,1995\n".to_string();
    let cd = from_utf8_string(text).expect("csv should decode");
    assert_eq!(cd.get("Body Name"), Ok("LMP Proto".to_string()));
    assert_eq!(cd.get("Trim Year"), Ok("1995".to_string()));
}

#[test]
fn from_utf8_string_empty_input_gives_empty_record() {
    let cd = from_utf8_string(String::new()).expect("empty csv should decode");
    assert_eq!(cd.len(), 0);
    assert_eq!(cd.get("A"), Err("Expected value not found!".to_string()));
}
