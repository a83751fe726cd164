//! The battery entry of a snapshot, made from what a platform reports.
//!
//! One platform prints a table of status codes and charges, one keeps a
//! status name in a file, one prints a power report with a line for the
//! battery. The caller runs the tool or reads the file and hands the bytes
//! over; it gets back the pieces of text that hold numbers, reads the
//! numbers, and hands them over again for the entry.

use crate::report::{
    contains_part, copy_range, fields_of, find_first, find_last_before, has_part, holds_pieces,
    lines_of, split_fields, split_lines, trim, trim_of,
};
use crate::snapshot::BatteryInfo;
use vstd::prelude::*;
use vstd::utf8::encode_utf8;

verus! {

/// The status code that stands for a battery that is being charged.
pub const STATUS_CODE_CHARGING: u32 = 2;

/// The charge, in hundredths of a percent, above which a battery that is not
/// being charged does not count as low.
pub const LOW_CHARGE: u32 = 2000;

/// The label of a battery that is being charged.
pub const LABEL_CHARGING: &'static str = "充电中";

/// The label of a battery that is in use.
pub const LABEL_ON_BATTERY: &'static str = "使用电池";

/// The label of a battery that is in use and low.
pub const LABEL_LOW: &'static str = "电量低";

/// The label of a battery that is full.
pub const LABEL_FULL: &'static str = "已充满";

/// The label of a battery in a state that has no label of its own.
pub const LABEL_UNKNOWN: &'static str = "未知";

/// The byte that follows the charge in a power report.
pub const PERCENT_SIGN: u8 = 37;

/// The byte that stands before the charge in a power report.
pub const TABULATOR: u8 = 9;

/// The label for a status code and a charge.
pub open spec fn label_of_status_code(status: u32, percentage: u32) -> Seq<char> {
    if status == STATUS_CODE_CHARGING {
        LABEL_CHARGING@
    } else if percentage > LOW_CHARGE {
        LABEL_ON_BATTERY@
    } else {
        LABEL_LOW@
    }
}

/// The battery entry for a status code and a charge in hundredths of a
/// percent: the battery is being charged under the code for it, and
/// otherwise in use, low where the charge is not above `LOW_CHARGE`.
pub fn battery_from_status_code(status: u32, percentage: u32) -> (battery: BatteryInfo)
    ensures
        battery.percentage == percentage,
        battery.is_charging == (status == STATUS_CODE_CHARGING),
        battery.status@ == label_of_status_code(status, percentage),
{
    let is_charging = status == STATUS_CODE_CHARGING;
    let label = if is_charging {
        LABEL_CHARGING
    } else if percentage > LOW_CHARGE {
        LABEL_ON_BATTERY
    } else {
        LABEL_LOW
    };
    BatteryInfo { percentage, is_charging, status: String::from_str(label) }
}

/// One row of a status table: the text of the status code and the text of
/// the charge.
#[derive(Debug)]
pub struct StatusRow {
    pub status: Vec<u8>,
    pub charge: Vec<u8>,
}

/// The first two fields of a line, where it has two.
pub open spec fn row_of(line: Seq<u8>) -> Option<(Seq<u8>, Seq<u8>)> {
    if fields_of(line).len() >= 2 {
        Some((fields_of(line)[0], fields_of(line)[1]))
    } else {
        None
    }
}

/// The rows of some lines: the first two fields of every line that has two.
pub open spec fn rows_of(lines: Seq<Seq<u8>>) -> Seq<(Seq<u8>, Seq<u8>)>
    decreases lines.len(),
{
    if lines.len() == 0 {
        Seq::empty()
    } else {
        match row_of(lines.last()) {
            Some(row) => rows_of(lines.drop_last()).push(row),
            None => rows_of(lines.drop_last()),
        }
    }
}

/// The rows of a status table: those of its lines after the first, which is
/// the heading.
pub open spec fn status_rows_of(report: Seq<u8>) -> Seq<(Seq<u8>, Seq<u8>)> {
    if lines_of(report).len() < 2 {
        Seq::empty()
    } else {
        rows_of(lines_of(report).skip(1))
    }
}

/// The rows of a status table, in their order.
pub fn status_rows(report: &Vec<u8>) -> (rows: Vec<StatusRow>)
    ensures
        rows.len() == status_rows_of(report@).len(),
        forall|i: int|
            0 <= i < rows.len() ==> (#[trigger] rows[i]).status@ == status_rows_of(report@)[i].0
                && rows[i].charge@ == status_rows_of(report@)[i].1,
{
    let lines = split_lines(report);
    let ghost all = lines_of(report@);
    let mut rows: Vec<StatusRow> = Vec::new();
    if lines.len() < 2 {
        return rows;
    }
    let mut i: usize = 1;
    assert(all.subrange(1, 1) =~= Seq::<Seq<u8>>::empty());
    while i < lines.len()
        invariant
            1 <= i <= lines.len(),
            holds_pieces(lines@, all),
            rows.len() == rows_of(all.subrange(1, i as int)).len(),
            forall|k: int|
                0 <= k < rows.len() ==> (#[trigger] rows[k]).status@ == rows_of(
                    all.subrange(1, i as int),
                )[k].0 && rows[k].charge@ == rows_of(all.subrange(1, i as int))[k].1,
        decreases lines.len() - i,
    {
        proof {
            assert(all.subrange(1, i + 1).drop_last() =~= all.subrange(1, i as int));
            assert(all.subrange(1, i + 1).last() == all[i as int]);
            assert(lines@[i as int]@ == all[i as int]);
        }
        let mut fields = split_fields(&lines[i]);
        if fields.len() >= 2 {
            let charge = fields.remove(1);
            let status = fields.remove(0);
            rows.push(StatusRow { status, charge });
        }
        i += 1;
    }
    assert(all.subrange(1, lines.len() as int) =~= all.skip(1));
    rows
}

/// One row of a status table after its numbers were read: the status code
/// and the charge in hundredths of a percent, each where the text was a
/// number.
#[derive(Clone, Copy, Debug, PartialEq, Eq, Structural)]
pub struct ParsedStatusRow {
    pub status: Option<u32>,
    pub percentage: Option<u32>,
}

/// The first row of which both numbers could be read.
pub open spec fn first_complete(rows: Seq<ParsedStatusRow>) -> Option<(u32, u32)>
    decreases rows.len(),
{
    if rows.len() == 0 {
        None
    } else if rows[0].status is Some && rows[0].percentage is Some {
        Some((rows[0].status->0, rows[0].percentage->0))
    } else {
        first_complete(rows.drop_first())
    }
}

/// The battery entry for a status table: that of the first row of which
/// both numbers could be read, none where there is no such row.
pub fn battery_from_status_rows(rows: &Vec<ParsedStatusRow>) -> (battery: Option<BatteryInfo>)
    ensures
        match first_complete(rows@) {
            Some(row) => battery matches Some(entry) && entry.percentage == row.1
                && entry.is_charging == (row.0 == STATUS_CODE_CHARGING) && entry.status@
                == label_of_status_code(row.0, row.1),
            None => battery is None,
        },
{
    let mut i: usize = 0;
    assert(rows@.skip(0) =~= rows@);
    while i < rows.len()
        invariant
            i <= rows.len(),
            first_complete(rows@) == first_complete(rows@.skip(i as int)),
        decreases rows.len() - i,
    {
        proof {
            assert(rows@.skip(i as int)[0] == rows@[i as int]);
            assert(rows@.skip(i as int).drop_first() =~= rows@.skip(i + 1));
        }
        match (rows[i].status, rows[i].percentage) {
            (Some(status), Some(percentage)) => {
                return Some(battery_from_status_code(status, percentage));
            },
            _ => {},
        }
        i += 1;
    }
    None
}

/// The UTF-8 bytes of a status name or of a word of a power report.
pub open spec fn bytes_of(word: Seq<char>) -> Seq<u8> {
    encode_utf8(word)
}

/// The label for a status name.
pub open spec fn label_of_status_name(name: Seq<u8>) -> Seq<char> {
    if name == bytes_of("Charging"@) {
        LABEL_CHARGING@
    } else if name == bytes_of("Discharging"@) {
        LABEL_ON_BATTERY@
    } else if name == bytes_of("Full"@) {
        LABEL_FULL@
    } else {
        LABEL_UNKNOWN@
    }
}

/// Whether a text is a word, byte for byte.
fn is_name(text: &Vec<u8>, word: &str) -> (same: bool)
    ensures
        same == (text@ == bytes_of(word@)),
{
    let bytes = word.as_bytes();
    if text.len() != bytes.len() {
        return false;
    }
    let mut i: usize = 0;
    while i < text.len()
        invariant
            i <= text.len(),
            text.len() == bytes@.len(),
            bytes@ == bytes_of(word@),
            forall|k: int| 0 <= k < i ==> text[k] == bytes[k],
        decreases text.len() - i,
    {
        if text[i] != bytes[i] {
            return false;
        }
        i += 1;
    }
    assert(text@ =~= bytes@);
    true
}

/// The battery entry for the status that a status file holds and a charge
/// in hundredths of a percent. The space around the name does not count. The
/// names `Charging` and `Full` count as charging; every name but these two
/// and `Discharging` is labelled unknown.
pub fn battery_from_status_name(status: &Vec<u8>, percentage: u32) -> (battery: BatteryInfo)
    ensures
        battery.percentage == percentage,
        battery.is_charging == (trim_of(status@) == bytes_of("Charging"@) || trim_of(status@)
            == bytes_of("Full"@)),
        battery.status@ == label_of_status_name(trim_of(status@)),
{
    let name = trim(status);
    let charging = is_name(&name, "Charging");
    let discharging = is_name(&name, "Discharging");
    let full = is_name(&name, "Full");
    let label = if charging {
        LABEL_CHARGING
    } else if discharging {
        LABEL_ON_BATTERY
    } else if full {
        LABEL_FULL
    } else {
        LABEL_UNKNOWN
    };
    BatteryInfo { percentage, is_charging: charging || full, status: String::from_str(label) }
}

/// A line of a power report is the line of the battery: it names the
/// internal battery.
pub open spec fn is_battery_line_of(line: Seq<u8>) -> bool {
    has_part(line, bytes_of("InternalBattery"@))
}

/// The text of the charge in a line of a power report: what stands between
/// the last tabulator before the first percent sign and that sign, without
/// the space around it; none where the line has no percent sign or no
/// tabulator before it.
pub open spec fn charge_text_of(line: Seq<u8>) -> Option<Seq<u8>> {
    match line.index_of_first(PERCENT_SIGN) {
        Some(sign) => match line.take(sign).index_of_last(TABULATOR) {
            Some(tab) => Some(trim_of(line.subrange(tab + 1, sign))),
            None => None,
        },
        None => None,
    }
}

/// The text of the charge in a line of a power report.
pub fn charge_text(line: &Vec<u8>) -> (text: Option<Vec<u8>>)
    ensures
        match text {
            Some(found) => charge_text_of(line@) == Some(found@),
            None => charge_text_of(line@) is None,
        },
{
    match find_first(line, PERCENT_SIGN) {
        Some(sign) => {
            proof {
                line@.index_of_first_ensures(PERCENT_SIGN);
            }
            match find_last_before(line, TABULATOR, sign) {
                Some(tab) => {
                    proof {
                        line@.take(sign as int).index_of_last_ensures(TABULATOR);
                    }
                    let between = copy_range(line, tab + 1, sign);
                    Some(trim(&between))
                },
                None => None,
            }
        },
        None => None,
    }
}

/// One line of a power report that tells of the battery, with the text of
/// the charge in it.
#[derive(Debug)]
pub struct PowerRow {
    pub line: Vec<u8>,
    pub charge: Vec<u8>,
}

/// The text of the charge in a line, where the line is that of the battery
/// and holds a charge.
pub open spec fn power_row_of(line: Seq<u8>) -> Option<Seq<u8>> {
    if is_battery_line_of(line) {
        charge_text_of(line)
    } else {
        None
    }
}

/// The rows of some lines of a power report: every line of the battery that
/// holds a charge, with the text of the charge.
pub open spec fn power_rows_of(lines: Seq<Seq<u8>>) -> Seq<(Seq<u8>, Seq<u8>)>
    decreases lines.len(),
{
    if lines.len() == 0 {
        Seq::empty()
    } else {
        match power_row_of(lines.last()) {
            Some(charge) => power_rows_of(lines.drop_last()).push((lines.last(), charge)),
            None => power_rows_of(lines.drop_last()),
        }
    }
}

/// The rows of a power report, in their order.
pub fn power_rows(report: &Vec<u8>) -> (rows: Vec<PowerRow>)
    ensures
        rows.len() == power_rows_of(lines_of(report@)).len(),
        forall|i: int|
            0 <= i < rows.len() ==> (#[trigger] rows[i]).line@ == power_rows_of(
                lines_of(report@),
            )[i].0 && rows[i].charge@ == power_rows_of(lines_of(report@))[i].1,
{
    let lines = split_lines(report);
    let ghost all = lines_of(report@);
    let mut rows: Vec<PowerRow> = Vec::new();
    let mut i: usize = 0;
    assert(all.take(0) =~= Seq::<Seq<u8>>::empty());
    while i < lines.len()
        invariant
            i <= lines.len(),
            holds_pieces(lines@, all),
            rows.len() == power_rows_of(all.take(i as int)).len(),
            forall|k: int|
                0 <= k < rows.len() ==> (#[trigger] rows[k]).line@ == power_rows_of(
                    all.take(i as int),
                )[k].0 && rows[k].charge@ == power_rows_of(all.take(i as int))[k].1,
        decreases lines.len() - i,
    {
        proof {
            assert(all.take(i + 1).drop_last() =~= all.take(i as int));
            assert(all.take(i + 1).last() == all[i as int]);
            assert(lines@[i as int]@ == all[i as int]);
        }
        if contains_part(&lines[i], "InternalBattery".as_bytes()) {
            match charge_text(&lines[i]) {
                Some(charge) => {
                    let line = copy_range(&lines[i], 0, lines[i].len());
                    assert(line@ =~= all[i as int]);
                    rows.push(PowerRow { line, charge });
                },
                None => {},
            }
        }
        i += 1;
    }
    assert(all.take(lines.len() as int) =~= all);
    rows
}

/// A line of a power report tells of a battery that is being charged: it
/// says `charging` and does not say `discharging`.
pub open spec fn line_tells_charging(line: Seq<u8>) -> bool {
    has_part(line, bytes_of("charging"@)) && !has_part(line, bytes_of("discharging"@))
}

/// The label for a line of a power report.
pub open spec fn label_of_power_line(line: Seq<u8>) -> Seq<char> {
    if has_part(line, bytes_of("charged"@)) {
        LABEL_FULL@
    } else if line_tells_charging(line) {
        LABEL_CHARGING@
    } else {
        LABEL_ON_BATTERY@
    }
}

/// The battery entry for a line of a power report and a charge in
/// hundredths of a percent. A line that says `charged` is labelled full
/// whether it counts as charging or not.
pub fn battery_from_power_line(line: &Vec<u8>, percentage: u32) -> (battery: BatteryInfo)
    ensures
        battery.percentage == percentage,
        battery.is_charging == line_tells_charging(line@),
        battery.status@ == label_of_power_line(line@),
{
    let is_charging = contains_part(line, "charging".as_bytes()) && !contains_part(
        line,
        "discharging".as_bytes(),
    );
    let label = if contains_part(line, "charged".as_bytes()) {
        LABEL_FULL
    } else if is_charging {
        LABEL_CHARGING
    } else {
        LABEL_ON_BATTERY
    };
    BatteryInfo { percentage, is_charging, status: String::from_str(label) }
}

/// The first row whose charge could be read, with the charge.
pub open spec fn first_read(rows: Seq<PowerRow>, charges: Seq<Option<u32>>) -> Option<
    (Seq<u8>, u32),
>
    decreases rows.len(),
{
    if rows.len() == 0 || charges.len() == 0 {
        None
    } else if charges[0] is Some {
        Some((rows[0].line@, charges[0]->0))
    } else {
        first_read(rows.drop_first(), charges.drop_first())
    }
}

/// The battery entry for a power report, given its rows and, for each row
/// in turn, the charge in hundredths of a percent where its text was a
/// number: the entry for the first row whose charge could be read, none
/// where there is no such row.
pub fn battery_from_power_rows(rows: &Vec<PowerRow>, charges: &Vec<Option<u32>>) -> (battery: Option<
    BatteryInfo,
>)
    ensures
        match first_read(rows@, charges@) {
            Some(row) => battery matches Some(entry) && entry.percentage == row.1
                && entry.is_charging == line_tells_charging(row.0) && entry.status@
                == label_of_power_line(row.0),
            None => battery is None,
        },
{
    let mut i: usize = 0;
    assert(rows@.skip(0) =~= rows@);
    assert(charges@.skip(0) =~= charges@);
    while i < rows.len() && i < charges.len()
        invariant
            i <= rows.len(),
            i <= charges.len(),
            first_read(rows@, charges@) == first_read(
                rows@.skip(i as int),
                charges@.skip(i as int),
            ),
        decreases rows.len() - i,
    {
        proof {
            assert(rows@.skip(i as int)[0] == rows@[i as int]);
            assert(charges@.skip(i as int)[0] == charges@[i as int]);
            assert(rows@.skip(i as int).drop_first() =~= rows@.skip(i + 1));
            assert(charges@.skip(i as int).drop_first() =~= charges@.skip(i + 1));
        }
        match charges[i] {
            Some(percentage) => {
                return Some(battery_from_power_line(&rows[i].line, percentage));
            },
            None => {},
        }
        i += 1;
    }
    None
}

} // verus!
