//! How the status tools shape what they print.
use vstd::prelude::*;
use crate::battery::{BatteryInfoName, BatteryStatus};
use crate::text::{copy_text, same_text};
use crate::timestamp::{AsTimestamp, Seconds, Timestamp, decimal, decimal_signed, digits, signed_digits, timestamp_of, timestamp_text};
use vstd::string::StringExecFns;

verus! {

/// How the fields of an output are written.
#[derive(Clone, Copy, Debug, PartialEq, Eq, Structural)]
pub enum FormatOutputType {
    /// The numbers as they were read.
    Raw,
    /// The numbers in their usual units, without the units' symbols.
    NoSymbols,
    /// The numbers in their usual units, with the units' symbols.
    Formatted,
}

/// The way of writing that a text names.
pub open spec fn format_named(s: Seq<char>) -> Option<FormatOutputType> {
    if s == "raw"@ {
        Some(FormatOutputType::Raw)
    } else if s == "no_symbols"@ {
        Some(FormatOutputType::NoSymbols)
    } else if s == "formatted"@ {
        Some(FormatOutputType::Formatted)
    } else {
        None
    }
}

impl FormatOutputType {
    /// The way of writing that `s` names, or a message that names `s` where
    /// it names none.
    pub fn from_str(s: &str) -> (r: Result<FormatOutputType, String>)
        ensures
            r is Ok <==> format_named(s@).is_some(),
            r matches Ok(f) ==> format_named(s@) == Some(f),
            r matches Err(e) ==> e@ == "Invalid format-output type: "@ + s@,
    {
        if same_text(s, "raw") {
            Ok(FormatOutputType::Raw)
        } else if same_text(s, "no_symbols") {
            Ok(FormatOutputType::NoSymbols)
        } else if same_text(s, "formatted") {
            Ok(FormatOutputType::Formatted)
        } else {
            Err(String::from_str("Invalid format-output type: ").concat(s))
        }
    }
}

/// A charge or current in thousands of its unit, rounded towards zero.
pub open spec fn amps_of(micro_amps: int) -> int {
    if micro_amps >= 0 {
        micro_amps / 1000
    } else {
        -((-micro_amps) / 1000)
    }
}

/// A charge or current given in millionths, in thousandths, rounded towards
/// zero.
pub fn as_amps(micro_amps: i32) -> (r: i32)
    ensures
        r == amps_of(micro_amps as int),
{
    micro_amps / 1000
}

/// What one field of an output holds.
#[derive(Clone, Debug, PartialEq, Eq)]
pub enum FieldValue {
    I32(i32),
    U64(u64),
    String(String),
    Timestamp(Timestamp),
}

/// The mathematical value of a [`FieldValue`].
pub ghost enum Shown {
    I32(i32),
    U64(u64),
    Text(Seq<char>),
    Timestamp(Timestamp),
}

impl View for FieldValue {
    type V = Shown;

    open spec fn view(&self) -> Shown {
        match self {
            FieldValue::I32(n) => Shown::I32(*n),
            FieldValue::U64(n) => Shown::U64(*n),
            FieldValue::String(s) => Shown::Text(s@),
            FieldValue::Timestamp(t) => Shown::Timestamp(*t),
        }
    }
}

/// One field of an output: what it is called and what it holds.
#[derive(Clone, Debug, PartialEq, Eq)]
pub struct Field<'a> {
    pub label: &'a str,
    pub value: FieldValue,
}

/// The fields of an output and what stands between them when they are
/// written in one line.
pub struct Output<'a> {
    pub fields: Vec<Field<'a>>,
    pub separator: Option<&'a str>,
}

/// What was read about a battery for one kind of information. The capacity
/// is not among them: it is a fraction and is handled where fractions are.
#[derive(Clone, Copy, Debug, PartialEq, Eq, Structural)]
pub enum Reading {
    ChargeNow(i32),
    ChargeFull(i32),
    CurrentNow(i32),
    TimeRemaining { status: BatteryStatus, seconds: Seconds },
    Status(BatteryStatus),
}

/// The text of what a field holds.
pub open spec fn value_text(v: Shown) -> Seq<char> {
    match v {
        Shown::I32(n) => signed_digits(n as int),
        Shown::U64(n) => digits(n as nat),
        Shown::Text(s) => s,
        Shown::Timestamp(t) => timestamp_text(t),
    }
}

/// The texts of `parts` in one line, with `separator` between each two.
pub open spec fn joined(parts: Seq<Seq<char>>, separator: Seq<char>) -> Seq<char>
    decreases parts.len(),
{
    if parts.len() == 0 {
        Seq::empty()
    } else if parts.len() == 1 {
        parts[0]
    } else {
        joined(parts.drop_last(), separator) + separator + parts.last()
    }
}

/// The time that is shown as remaining: what was worked out while the
/// battery charges or discharges, nothing in any other state.
pub open spec fn shown_remaining(status: BatteryStatus, seconds: Seconds) -> Seconds {
    match status {
        BatteryStatus::Charging | BatteryStatus::Discharging => seconds,
        _ => 0,
    }
}

/// What is shown for a reading. Raw output shows the number as it was read.
/// Output without symbols shows charge and current in thousands of their
/// unit, but the present charge as it was read, and the time as a timestamp.
/// Formatted output adds the unit.
pub open spec fn shown(reading: Reading, format: FormatOutputType) -> Shown {
    match reading {
        Reading::ChargeNow(v) => match format {
            FormatOutputType::Raw => Shown::I32(v),
            FormatOutputType::NoSymbols => Shown::I32(v),
            FormatOutputType::Formatted => Shown::Text(signed_digits(amps_of(v as int)) + "mAh"@),
        },
        Reading::ChargeFull(v) => match format {
            FormatOutputType::Raw => Shown::I32(v),
            FormatOutputType::NoSymbols => Shown::I32(amps_of(v as int) as i32),
            FormatOutputType::Formatted => Shown::Text(signed_digits(amps_of(v as int)) + "mAh"@),
        },
        Reading::CurrentNow(v) => match format {
            FormatOutputType::Raw => Shown::I32(v),
            FormatOutputType::NoSymbols => Shown::I32(amps_of(v as int) as i32),
            FormatOutputType::Formatted => Shown::Text(signed_digits(amps_of(v as int)) + "mA"@),
        },
        Reading::TimeRemaining { status, seconds } => match format {
            FormatOutputType::Raw => Shown::U64(shown_remaining(status, seconds)),
            FormatOutputType::NoSymbols => Shown::Timestamp(timestamp_of(shown_remaining(status, seconds) as nat)),
            FormatOutputType::Formatted => Shown::Text(
                timestamp_text(timestamp_of(shown_remaining(status, seconds) as nat)),
            ),
        },
        Reading::Status(status) => Shown::Text(status.text()),
    }
}

/// The kind of information that a reading is about.
pub open spec fn info_of(reading: Reading) -> BatteryInfoName {
    match reading {
        Reading::ChargeNow(_) => BatteryInfoName::ChargeNow,
        Reading::ChargeFull(_) => BatteryInfoName::ChargeFull,
        Reading::CurrentNow(_) => BatteryInfoName::CurrentNow,
        Reading::TimeRemaining { .. } => BatteryInfoName::TimeRemaining,
        Reading::Status(_) => BatteryInfoName::Status,
    }
}

impl Reading {
    /// The kind of information that the reading is about.
    pub fn info_name(&self) -> (r: BatteryInfoName)
        ensures
            r == info_of(*self),
    {
        match self {
            Reading::ChargeNow(_) => BatteryInfoName::ChargeNow,
            Reading::ChargeFull(_) => BatteryInfoName::ChargeFull,
            Reading::CurrentNow(_) => BatteryInfoName::CurrentNow,
            Reading::TimeRemaining { .. } => BatteryInfoName::TimeRemaining,
            Reading::Status(_) => BatteryInfoName::Status,
        }
    }

    /// What is shown for the reading in the given way of writing.
    pub fn field_value(&self, format: FormatOutputType) -> (r: FieldValue)
        ensures
            r@ == shown(*self, format),
    {
        match *self {
            Reading::ChargeNow(v) => match format {
                FormatOutputType::Raw => FieldValue::I32(v),
                FormatOutputType::NoSymbols => FieldValue::I32(v),
                FormatOutputType::Formatted => FieldValue::String(decimal_signed(as_amps(v)).concat("mAh")),
            },
            Reading::ChargeFull(v) => match format {
                FormatOutputType::Raw => FieldValue::I32(v),
                FormatOutputType::NoSymbols => FieldValue::I32(as_amps(v)),
                FormatOutputType::Formatted => FieldValue::String(decimal_signed(as_amps(v)).concat("mAh")),
            },
            Reading::CurrentNow(v) => match format {
                FormatOutputType::Raw => FieldValue::I32(v),
                FormatOutputType::NoSymbols => FieldValue::I32(as_amps(v)),
                FormatOutputType::Formatted => FieldValue::String(decimal_signed(as_amps(v)).concat("mA")),
            },
            Reading::TimeRemaining { status, seconds } => {
                let value: Seconds = match status {
                    BatteryStatus::Charging | BatteryStatus::Discharging => seconds,
                    _ => 0,
                };
                match format {
                    FormatOutputType::Raw => FieldValue::U64(value),
                    FormatOutputType::NoSymbols => FieldValue::Timestamp(value.as_timestamp()),
                    FormatOutputType::Formatted => FieldValue::String(value.as_timestamp().to_string()),
                }
            },
            Reading::Status(status) => FieldValue::String(copy_text(status.as_str())),
        }
    }
}

impl FieldValue {
    /// The text of what the field holds.
    pub fn to_string(&self) -> (r: String)
        ensures
            r@ == value_text(self@),
    {
        match self {
            FieldValue::I32(n) => decimal_signed(*n),
            FieldValue::U64(n) => decimal(*n),
            FieldValue::String(s) => s.clone(),
            FieldValue::Timestamp(t) => t.to_string(),
        }
    }
}

impl<'a> Field<'a> {
    /// A field called `label` that holds `value`.
    pub fn new(label: &'a str, value: FieldValue) -> (r: Field<'a>)
        ensures
            r.label@ == label@,
            r.value == value,
    {
        Field { label, value }
    }
}

/// The texts of what the fields hold, in their order.
pub open spec fn field_texts(fields: Seq<Field>) -> Seq<Seq<char>> {
    Seq::new(fields.len(), |i: int| value_text(fields[i].value@))
}

impl<'a> Output<'a> {
    /// An output of `fields`, written with `separator` between them.
    pub fn new(fields: Vec<Field<'a>>, separator: Option<&'a str>) -> (r: Output<'a>)
        ensures
            r.fields == fields,
            r.separator == separator,
    {
        Output { fields, separator }
    }

    /// The output in one line: the text of each field, with the separator
    /// between each two.
    pub fn to_string(&self) -> (r: String)
        requires
            self.separator.is_some(),
        ensures
            r@ == joined(field_texts(self.fields@), self.separator.unwrap()@),
    {
        let separator = match self.separator {
            Some(s) => s,
            None => "",
        };
        let mut out = String::new();
        let mut i: usize = 0;
        assert(field_texts(self.fields@).take(0) =~= Seq::<Seq<char>>::empty());
        while i < self.fields.len()
            invariant
                i <= self.fields@.len(),
                separator@ == self.separator.unwrap()@,
                out@ == joined(field_texts(self.fields@).take(i as int), separator@),
            decreases self.fields@.len() - i,
        {
            let ghost upto = field_texts(self.fields@).take(i + 1);
            assert(upto.drop_last() =~= field_texts(self.fields@).take(i as int));
            assert(upto.last() == value_text(self.fields@[i as int].value@));
            let text = self.fields[i].value.to_string();
            if i > 0 {
                out.append(separator);
            } else {
                assert(upto[0] == upto.last());
                assert(out@ + text@ =~= text@);
            }
            out.append(text.as_str());
            i += 1;
        }
        assert(field_texts(self.fields@).take(self.fields@.len() as int) =~= field_texts(self.fields@));
        out
    }
}

} // verus!
