use watchmedo::battery::{
    battery_from_power_line, battery_from_power_rows, battery_from_status_code,
    battery_from_status_name, battery_from_status_rows, charge_text, power_rows, status_rows,
    ParsedStatusRow, LABEL_CHARGING, LABEL_FULL, LABEL_LOW, LABEL_ON_BATTERY, LABEL_UNKNOWN,
    LOW_CHARGE, STATUS_CODE_CHARGING,
};

fn bytes(text: &str) -> Vec<u8> {
    text.as_bytes().to_vec()
}

#[test]
fn battery_constants() {
    assert_eq!(STATUS_CODE_CHARGING, 2);
    assert_eq!(LOW_CHARGE, 2000);
    let labels = [LABEL_CHARGING, LABEL_ON_BATTERY, LABEL_LOW, LABEL_FULL, LABEL_UNKNOWN];
    for (i, label) in labels.iter().enumerate() {
        assert!(!label.is_empty());
        for other in &labels[i + 1..] {
            assert_ne!(label, other);
        }
    }
}

#[test]
fn status_code_two_is_charging() {
    let battery = battery_from_status_code(2, 500);
    assert_eq!(battery.percentage, 500);
    assert!(battery.is_charging);
    assert_eq!(battery.status, LABEL_CHARGING);
}

#[test]
fn other_status_codes_are_on_battery_or_low() {
    let battery = battery_from_status_code(1, 8500);
    assert!(!battery.is_charging);
    assert_eq!(battery.status, LABEL_ON_BATTERY);
    assert_eq!(battery_from_status_code(1, 2001).status, LABEL_ON_BATTERY);
    assert_eq!(battery_from_status_code(1, 2000).status, LABEL_LOW);
    assert_eq!(battery_from_status_code(0, 0).status, LABEL_LOW);
    assert_eq!(battery_from_status_code(3, 10000).percentage, 10000);
}

#[test]
fn status_table_rows() {
    let report = bytes("BatteryStatus  EstimatedChargeRemaining  \r\n2              85                        \r\n\r\n");
    let rows = status_rows(&report);
    assert_eq!(rows.len(), 1);
    assert_eq!(rows[0].status, b"2");
    assert_eq!(rows[0].charge, b"85");
}

#[test]
fn status_table_skips_heading_and_short_lines() {
    let report = bytes("1 2\nonly\n\n 3\t4 5\n6 7");
    let rows = status_rows(&report);
    assert_eq!(rows.len(), 2);
    assert_eq!((rows[0].status.as_slice(), rows[0].charge.as_slice()), (&b"3"[..], &b"4"[..]));
    assert_eq!((rows[1].status.as_slice(), rows[1].charge.as_slice()), (&b"6"[..], &b"7"[..]));
    assert!(status_rows(&bytes("2 85")).is_empty());
    assert!(status_rows(&bytes("")).is_empty());
    assert!(status_rows(&bytes("heading\n")).is_empty());
}

#[test]
fn status_table_entry_is_the_first_complete_row() {
    let row = |status, percentage| ParsedStatusRow { status, percentage };
    assert!(battery_from_status_rows(&Vec::new()).is_none());
    assert!(battery_from_status_rows(&vec![row(None, Some(1)), row(Some(2), None)]).is_none());
    let battery = battery_from_status_rows(&vec![
        row(None, Some(100)),
        row(Some(1), Some(1500)),
        row(Some(2), Some(9000)),
    ])
    .unwrap();
    assert_eq!(battery.percentage, 1500);
    assert!(!battery.is_charging);
    assert_eq!(battery.status, LABEL_LOW);
}

#[test]
fn battery_status_names() {
    let battery = battery_from_status_name(&bytes("Charging\n"), 4200);
    assert!(battery.is_charging);
    assert_eq!(battery.status, LABEL_CHARGING);
    assert_eq!(battery.percentage, 4200);

    let battery = battery_from_status_name(&bytes("Discharging"), 4200);
    assert!(!battery.is_charging);
    assert_eq!(battery.status, LABEL_ON_BATTERY);

    let battery = battery_from_status_name(&bytes("  Full \n"), 10000);
    assert!(battery.is_charging);
    assert_eq!(battery.status, LABEL_FULL);

    for name in ["Not charging", "Unknown", "", "charging", "Full.", "Char ging", "\n"] {
        let battery = battery_from_status_name(&bytes(name), 1);
        assert!(!battery.is_charging);
        assert_eq!(battery.status, LABEL_UNKNOWN);
    }
}

#[test]
fn charge_text_stands_between_tabulator_and_percent_sign() {
    assert_eq!(
        charge_text(&bytes(" -InternalBattery-0 (id=1234567)\t85%; discharging; 5:23 remaining")),
        Some(bytes("85"))
    );
    assert_eq!(charge_text(&bytes("a\tb\t 7.5 %\t9%")), Some(bytes("7.5")));
    assert_eq!(charge_text(&bytes("\t%")), Some(bytes("")));
    assert_eq!(charge_text(&bytes("no sign\there")), None);
    assert_eq!(charge_text(&bytes("85% and then\ta tabulator")), None);
    assert_eq!(charge_text(&bytes("")), None);
}

#[test]
fn power_report_rows() {
    let report = bytes(
        "Now drawing from 'Battery Power'\n -InternalBattery-0 (id=1234567)\t85%; discharging; 5:23 remaining present: true\n -Other-1\t50%; charging\n -InternalBattery-1 no charge here\n",
    );
    let rows = power_rows(&report);
    assert_eq!(rows.len(), 1);
    assert_eq!(rows[0].charge, b"85");
    assert!(rows[0].line.starts_with(b" -InternalBattery-0"));
    assert!(power_rows(&bytes("")).is_empty());
}

#[test]
fn power_lines() {
    let line = bytes(" -InternalBattery-0 (id=1234567)\t85%; discharging; 5:23 remaining");
    let battery = battery_from_power_line(&line, 8500);
    assert!(!battery.is_charging);
    assert_eq!(battery.status, LABEL_ON_BATTERY);
    assert_eq!(battery.percentage, 8500);

    let line = bytes(" -InternalBattery-0 (id=1234567)\t60%; charging; 1:10 remaining");
    let battery = battery_from_power_line(&line, 6000);
    assert!(battery.is_charging);
    assert_eq!(battery.status, LABEL_CHARGING);

    let line = bytes(" -InternalBattery-0 (id=1234567)\t100%; charged; 0:00 remaining");
    let battery = battery_from_power_line(&line, 10000);
    assert!(!battery.is_charging);
    assert_eq!(battery.status, LABEL_FULL);
}

#[test]
fn power_report_entry_is_the_first_row_with_a_charge() {
    let report = bytes(
        " -InternalBattery-0\tn/a%; charging\n -InternalBattery-1\t40%; discharging\n -InternalBattery-2\t90%; charged\n",
    );
    let rows = power_rows(&report);
    assert_eq!(rows.len(), 3);
    assert!(battery_from_power_rows(&rows, &vec![None, None, None]).is_none());
    assert!(battery_from_power_rows(&rows, &Vec::new()).is_none());
    let battery = battery_from_power_rows(&rows, &vec![None, Some(4000), Some(9000)]).unwrap();
    assert_eq!(battery.percentage, 4000);
    assert!(!battery.is_charging);
    assert_eq!(battery.status, LABEL_ON_BATTERY);
    let battery = battery_from_power_rows(&rows, &vec![Some(1)]).unwrap();
    assert!(battery.is_charging);
    assert_eq!(battery.status, LABEL_CHARGING);
}
