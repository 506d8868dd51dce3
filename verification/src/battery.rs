//! The batteries of the machine as the kernel lists them: their names, the
//! kinds of information about them and the states they can be in.
use vstd::prelude::*;
use crate::text::{
    copy_text, has_prefix, i32_named, keep_with_prefix, parse_i32, parse_u8, rest_after, same_text, texts, trim_end,
    u8_named, with_prefix, without_trailing_space,
};
use crate::error::Error;

verus! {

/// A charge in microampere hours.
pub type MicroAmpHours = i32;

/// A current in microamperes.
pub type MicroAmp = i32;

/// The batteries found, and the name of the one used where none is asked for.
pub struct Batteries {
    pub main_battery_name: String,
    pub items: Vec<Battery>,
}

/// One battery.
pub struct Battery {
    /// The directory of the battery's files.
    pub path: String,
    /// The battery's name, such as `BAT0`.
    pub name: String,
    /// The charge of the full battery.
    pub charge_full: MicroAmpHours,
}

/// The kinds of information about a battery.
#[derive(Clone, Copy, Debug, PartialEq, Eq, Structural)]
pub enum BatteryInfoName {
    ChargeFull,
    ChargeNow,
    Capacity,
    CurrentNow,
    Status,
    TimeRemaining,
}

/// The states of a battery.
#[derive(Clone, Copy, Debug, PartialEq, Eq, Structural)]
pub enum BatteryStatus {
    Unknown,
    Charging,
    Discharging,
    NotCharging,
    Full,
}

/// What was read about one battery: where it stands, its name, and the text
/// of its full charge.
pub struct BatteryFiles {
    pub path: String,
    pub name: String,
    pub charge_full: String,
}

/// The names of batteries among `names`, in their order: those that start
/// with `BAT`.
pub open spec fn battery_names(names: Seq<Seq<char>>) -> Seq<Seq<char>> {
    with_prefix(names, "BAT"@)
}

/// The number of a battery: what follows `BAT` in its name, read as an
/// unsigned 8-bit integer.
pub open spec fn battery_number(name: Seq<char>) -> Option<u8> {
    if "BAT"@.is_prefix_of(name) {
        u8_named(name.skip("BAT"@.len() as int))
    } else {
        None
    }
}

/// Whether the main battery can be told among `names`: where more than one
/// battery is named, each has a number.
pub open spec fn can_tell_main(names: Seq<Seq<char>>) -> bool {
    battery_names(names).len() > 1 ==> forall|i: int|
        0 <= i < battery_names(names).len() ==> battery_number(#[trigger] battery_names(names)[i]).is_some()
}

/// The number of the battery `name`, if it is a battery's name and has one.
pub fn number_of_battery(name: &str) -> (r: Option<u8>)
    ensures
        r == battery_number(name@),
{
    match rest_after(name, "BAT") {
        Some(rest) => parse_u8(rest),
        None => None,
    }
}

/// Whether the main battery can be told among `names`.
pub fn main_can_be_told(names: &Vec<String>) -> (r: bool)
    ensures
        r == can_tell_main(texts(*names)),
{
    let batteries = keep_with_prefix(names, "BAT");
    if batteries.len() <= 1 {
        return true;
    }
    let mut i: usize = 0;
    while i < batteries.len()
        invariant
            i <= batteries@.len(),
            batteries@.len() > 1,
            texts(batteries) == battery_names(texts(*names)),
            forall|j: int| 0 <= j < i ==> battery_number(#[trigger] texts(batteries)[j]).is_some(),
        decreases batteries@.len() - i,
    {
        assert(texts(batteries)[i as int] == batteries@[i as int]@);
        if number_of_battery(batteries[i].as_str()).is_none() {
            assert(battery_number(battery_names(texts(*names))[i as int]).is_none());
            return false;
        }
        i += 1;
    }
    true
}

/// The name of the main battery among the names found under the path of the
/// batteries: the only battery where there is one, else one with the lowest
/// number. Without any battery the answer is the error that names the path.
pub fn get_main_battery_name(names: &Vec<String>) -> (r: Result<String, Error>)
    requires
        can_tell_main(texts(*names)),
    ensures
        match r {
            Ok(name) => is_main_among(texts(*names), name@),
            Err(e) => {
                &&& battery_names(texts(*names)).len() == 0
                &&& e matches Error::NoBatteriesFound { path } && path@ == "/sys/class/power_supply"@
            },
        },
{
    let batteries = keep_with_prefix(names, "BAT");
    if batteries.len() == 0 {
        return Err(Error::NoBatteriesFound { path: copy_text("/sys/class/power_supply") });
    }
    assert(texts(batteries)[0] == batteries@[0]@);
    if batteries.len() == 1 {
        return Ok(copy_text(batteries[0].as_str()));
    }
    let mut best: usize = 0;
    let mut lowest: u8 = match number_of_battery(batteries[0].as_str()) {
        Some(n) => n,
        None => 0,
    };
    let mut i: usize = 1;
    while i < batteries.len()
        invariant
            1 <= i <= batteries@.len(),
            best < i,
            texts(batteries) == battery_names(texts(*names)),
            can_tell_main(texts(*names)),
            batteries@.len() > 1,
            battery_number(batteries@[best as int]@) == Some(lowest),
            forall|j: int| 0 <= j < i ==> lowest <= battery_number(#[trigger] texts(batteries)[j]).unwrap(),
        decreases batteries@.len() - i,
    {
        assert(texts(batteries)[i as int] == batteries@[i as int]@);
        match number_of_battery(batteries[i].as_str()) {
            Some(n) => {
                if n < lowest {
                    lowest = n;
                    best = i;
                }
            },
            None => {},
        }
        i += 1;
    }
    assert(texts(batteries)[best as int] == batteries@[best as int]@);
    Ok(copy_text(batteries[best].as_str()))
}

/// The value of a battery: its path, its name and its full charge.
pub open spec fn battery_view(b: Battery) -> (Seq<char>, Seq<char>, int) {
    (b.path@, b.name@, b.charge_full as int)
}

/// The full charge that the text of an entry spells, white space at its end
/// set aside.
pub open spec fn full_charge_of(entry: BatteryFiles) -> Option<i32> {
    i32_named(without_trailing_space(entry.charge_full@))
}

/// The batteries that `found` describes, in their order: for each entry with
/// a battery's name its path, its name and the full charge that its text
/// spells.
pub open spec fn batteries_of(found: Seq<BatteryFiles>) -> Seq<(Seq<char>, Seq<char>, int)>
    decreases found.len(),
{
    if found.len() == 0 {
        Seq::empty()
    } else if "BAT"@.is_prefix_of(found.last().name@) && full_charge_of(found.last()).is_some() {
        batteries_of(found.drop_last()).push(
            (found.last().path@, found.last().name@, full_charge_of(found.last()).unwrap() as int),
        )
    } else {
        batteries_of(found.drop_last())
    }
}

/// Whether entry `i` of `found` is a battery whose full charge cannot be
/// read.
pub open spec fn unreadable_at(found: Seq<BatteryFiles>, i: int) -> bool {
    "BAT"@.is_prefix_of(found[i].name@) && full_charge_of(found[i]).is_none()
}

/// Whether the full charge of every battery of `found` can be read.
pub open spec fn all_readable(found: Seq<BatteryFiles>) -> bool {
    forall|i: int| 0 <= i < found.len() ==> !unreadable_at(found, i)
}

/// Whether the batteries of `found` can be made or refused without more ado:
/// a full charge cannot be read, or the main battery can be told.
pub open spec fn can_be_made(found: Seq<BatteryFiles>) -> bool {
    all_readable(found) ==> can_tell_main(names_of(found))
}

/// What makes `name` the main battery among `names`: it is a battery's name
/// among them, the only one or one with the lowest number.
pub open spec fn is_main_among(names: Seq<Seq<char>>, name: Seq<char>) -> bool {
    let all = battery_names(names);
    &&& all.contains(name)
    &&& all.len() == 1 || forall|i: int|
        0 <= i < all.len() ==> battery_number(name).unwrap() <= battery_number(#[trigger] all[i]).unwrap()
}

/// The names of the entries of `found`, in their order.
pub open spec fn names_of(found: Seq<BatteryFiles>) -> Seq<Seq<char>> {
    Seq::new(found.len(), |i: int| found[i].name@)
}

impl Battery {
    /// The charge that the battery's charge file spells, white space at its
    /// end set aside, or the error that names the text where it spells no
    /// number.
    pub fn get_charge_now(&self, contents: &str) -> (r: Result<MicroAmpHours, Error>)
        ensures
            number_read(without_trailing_space(contents@), r),
    {
        read_number(contents)
    }

    /// The current that the battery's current file spells, white space at
    /// its end set aside, or the error that names the text where it spells
    /// no number.
    pub fn get_current_now(&self, contents: &str) -> (r: Result<MicroAmp, Error>)
        ensures
            number_read(without_trailing_space(contents@), r),
    {
        read_number(contents)
    }

    /// The charge of the full battery.
    pub fn get_charge_full(&self) -> (r: MicroAmpHours)
        ensures
            r == self.charge_full,
    {
        self.charge_full
    }

    /// The state that the battery's status file spells, white space at its
    /// end set aside, or the error that names the text where it spells none.
    pub fn get_status(&self, contents: &str) -> (r: Result<BatteryStatus, Error>)
        ensures
            r is Ok <==> status_named(without_trailing_space(contents@)).is_some(),
            r matches Ok(s) ==> status_named(without_trailing_space(contents@)) == Some(s),
            r matches Err(e) ==> e matches Error::InvalidBatteryStatus { status } && status@
                == without_trailing_space(contents@),
    {
        BatteryStatus::from_str(trim_end(contents))
    }
}

/// What makes `r` the reading of `contents` as a number: the signed 32-bit
/// integer that the text spells, or the error that names the text.
pub open spec fn number_read(contents: Seq<char>, r: Result<i32, Error>) -> bool {
    match r {
        Ok(n) => i32_named(contents) == Some(n),
        Err(e) => {
            &&& i32_named(contents).is_none()
            &&& e matches Error::ParseInt { text } && text@ == contents
        },
    }
}

/// Reads the contents of a file as a signed 32-bit integer, white space at
/// their end set aside.
pub fn read_number(contents: &str) -> (r: Result<i32, Error>)
    ensures
        number_read(without_trailing_space(contents@), r),
{
    let text = trim_end(contents);
    match parse_i32(text) {
        Some(n) => Ok(n),
        None => Err(Error::ParseInt { text: copy_text(text) }),
    }
}

impl Batteries {
    /// Whether `init` can be called on `found`.
    pub fn can_init(found: &Vec<BatteryFiles>) -> (r: bool)
        ensures
            r == can_be_made(found@),
    {
        let mut names: Vec<String> = Vec::new();
        let mut i: usize = 0;
        assert(texts(names) =~= names_of(found@).take(0));
        while i < found.len()
            invariant
                i <= found@.len(),
                forall|j: int| 0 <= j < i ==> !unreadable_at(found@, j),
                texts(names) == names_of(found@).take(i as int),
            decreases found@.len() - i,
        {
            let entry = &found[i];
            if has_prefix(entry.name.as_str(), "BAT") && parse_i32(trim_end(entry.charge_full.as_str())).is_none() {
                assert(unreadable_at(found@, i as int));
                return true;
            }
            let ghost named = texts(names);
            names.push(copy_text(entry.name.as_str()));
            assert(texts(names) =~= named.push(entry.name@));
            assert(texts(names) =~= names_of(found@).take(i + 1));
            i += 1;
        }
        assert(names_of(found@).take(found@.len() as int) =~= names_of(found@));
        main_can_be_told(&names)
    }

    /// The batteries that `found` describes, with the main battery's name:
    /// the only battery's, or that of one with the lowest number. The first
    /// battery whose full charge cannot be read ends the work with the error
    /// that names its text; without any battery the answer is the error that
    /// names the path of the batteries.
    pub fn init(found: &Vec<BatteryFiles>) -> (r: Result<Batteries, Error>)
        requires
            can_be_made(found@),
        ensures
            match r {
                Ok(b) => {
                    &&& all_readable(found@)
                    &&& b.items@.len() > 0
                    &&& Seq::new(b.items@.len(), |i: int| battery_view(b.items@[i])) == batteries_of(found@)
                    &&& is_main_among(names_of(found@), b.main_battery_name@)
                },
                Err(Error::ParseInt { text }) => exists|i: int|
                    0 <= i < found@.len() && unreadable_at(found@, i) && text@ == without_trailing_space(
                        (#[trigger] found@[i]).charge_full@,
                    ) && forall|j: int| 0 <= j < i ==> !unreadable_at(found@, j),
                Err(Error::NoBatteriesFound { path }) => {
                    &&& battery_names(names_of(found@)).len() == 0
                    &&& path@ == "/sys/class/power_supply"@
                },
                Err(_) => false,
            },
    {
        let mut items: Vec<Battery> = Vec::new();
        let mut names: Vec<String> = Vec::new();
        let mut i: usize = 0;
        assert(found@.take(0) =~= Seq::<BatteryFiles>::empty());
        assert(Seq::new(items@.len(), |k: int| battery_view(items@[k])) =~= batteries_of(found@.take(0)));
        assert(texts(names) =~= names_of(found@).take(0));
        while i < found.len()
            invariant
                i <= found@.len(),
                forall|j: int| 0 <= j < i ==> !unreadable_at(found@, j),
                Seq::new(items@.len(), |k: int| battery_view(items@[k])) == batteries_of(found@.take(i as int)),
                texts(names) == names_of(found@).take(i as int),
            decreases found@.len() - i,
        {
            let ghost upto = found@.take(i + 1);
            let ghost before = Seq::new(items@.len(), |k: int| battery_view(items@[k]));
            assert(upto.drop_last() =~= found@.take(i as int));
            assert(upto.last() == found@[i as int]);
            let entry = &found[i];
            if has_prefix(entry.name.as_str(), "BAT") {
                let text = trim_end(entry.charge_full.as_str());
                let charge_full = match parse_i32(text) {
                    Some(n) => n,
                    None => {
                        return Err(Error::ParseInt { text: copy_text(text) });
                    },
                };
                items.push(
                    Battery {
                        path: copy_text(entry.path.as_str()),
                        name: copy_text(entry.name.as_str()),
                        charge_full,
                    },
                );
                assert(Seq::new(items@.len(), |k: int| battery_view(items@[k])) =~= before.push(
                    (entry.path@, entry.name@, charge_full as int),
                ));
            }
            let ghost named = texts(names);
            names.push(copy_text(entry.name.as_str()));
            assert(texts(names) =~= named.push(entry.name@));
            assert(texts(names) =~= names_of(found@).take(i + 1));
            i += 1;
        }
        assert(found@.take(found@.len() as int) =~= found@);
        assert(names_of(found@).take(found@.len() as int) =~= names_of(found@));
        proof {
            lemma_batteries_are_named(found@);
        }
        if items.len() == 0 {
            Err(Error::NoBatteriesFound { path: copy_text("/sys/class/power_supply") })
        } else {
            match get_main_battery_name(&names) {
                Ok(main_battery_name) => Ok(Batteries { main_battery_name, items }),
                Err(e) => Err(e),
            }
        }
    }

    /// The battery used where none is asked for: the first with the main
    /// battery's name.
    pub fn get_main_battery(&self) -> (r: Option<&Battery>)
        ensures
            found_at(self.items@, self.main_battery_name@, r),
    {
        self.get_battery(self.main_battery_name.as_str())
    }

    /// The first battery with the name `battery_name`.
    pub fn get_battery(&self, battery_name: &str) -> (r: Option<&Battery>)
        ensures
            found_at(self.items@, battery_name@, r),
    {
        let mut i: usize = 0;
        while i < self.items.len()
            invariant
                i <= self.items@.len(),
                forall|j: int| 0 <= j < i ==> (#[trigger] self.items@[j]).name@ != battery_name@,
            decreases self.items@.len() - i,
        {
            if same_text(self.items[i].name.as_str(), battery_name) {
                return Some(&self.items[i]);
            }
            i += 1;
        }
        None
    }
}

/// What makes `r` the answer to a search for `name` in `items`: the first
/// battery with that name, or nothing where no battery has it.
pub open spec fn found_at(items: Seq<Battery>, name: Seq<char>, r: Option<&Battery>) -> bool {
    match r {
        Some(b) => exists|i: int|
            0 <= i < items.len() && items[i] == *b && b.name@ == name && forall|j: int|
                0 <= j < i ==> (#[trigger] items[j]).name@ != name,
        None => forall|j: int| 0 <= j < items.len() ==> (#[trigger] items[j]).name@ != name,
    }
}

/// The state that a text names.
pub open spec fn status_named(s: Seq<char>) -> Option<BatteryStatus> {
    if s == "Unknown"@ {
        Some(BatteryStatus::Unknown)
    } else if s == "Charging"@ {
        Some(BatteryStatus::Charging)
    } else if s == "Discharging"@ {
        Some(BatteryStatus::Discharging)
    } else if s == "Not charging"@ {
        Some(BatteryStatus::NotCharging)
    } else if s == "Full"@ {
        Some(BatteryStatus::Full)
    } else {
        None
    }
}

/// The kind of information that a text names, by its own name or another
/// that is in use for it.
pub open spec fn info_named(s: Seq<char>) -> Option<BatteryInfoName> {
    if s == "charge_now"@ || s == "charge"@ {
        Some(BatteryInfoName::ChargeNow)
    } else if s == "capacity"@ || s == "charge_percentage"@ || s == "percentage"@ || s == "percent"@ {
        Some(BatteryInfoName::Capacity)
    } else if s == "charge_full"@ {
        Some(BatteryInfoName::ChargeFull)
    } else if s == "current_now"@ || s == "current"@ {
        Some(BatteryInfoName::CurrentNow)
    } else if s == "time_remaining"@ || s == "remaining"@ || s == "time"@ {
        Some(BatteryInfoName::TimeRemaining)
    } else if s == "status"@ {
        Some(BatteryInfoName::Status)
    } else {
        None
    }
}

impl BatteryStatus {
    /// The text of the state as the kernel writes it.
    pub open spec fn text(self) -> Seq<char> {
        match self {
            BatteryStatus::Full => "Full"@,
            BatteryStatus::Charging => "Charging"@,
            BatteryStatus::Discharging => "Discharging"@,
            BatteryStatus::NotCharging => "Not charging"@,
            BatteryStatus::Unknown => "Unknown"@,
        }
    }

    /// The text of the state as the kernel writes it.
    pub fn as_str(&self) -> (r: &'static str)
        ensures
            r@ == self.text(),
    {
        match self {
            BatteryStatus::Full => "Full",
            BatteryStatus::Charging => "Charging",
            BatteryStatus::Discharging => "Discharging",
            BatteryStatus::NotCharging => "Not charging",
            BatteryStatus::Unknown => "Unknown",
        }
    }

    /// The state that `s` names, or the error that names `s` where it names
    /// none.
    pub fn from_str(s: &str) -> (r: Result<BatteryStatus, Error>)
        ensures
            r is Ok <==> status_named(s@).is_some(),
            r matches Ok(b) ==> status_named(s@) == Some(b),
            r matches Err(e) ==> e matches Error::InvalidBatteryStatus { status } && status@ == s@,
    {
        if same_text(s, "Unknown") {
            Ok(BatteryStatus::Unknown)
        } else if same_text(s, "Charging") {
            Ok(BatteryStatus::Charging)
        } else if same_text(s, "Discharging") {
            Ok(BatteryStatus::Discharging)
        } else if same_text(s, "Not charging") {
            Ok(BatteryStatus::NotCharging)
        } else if same_text(s, "Full") {
            Ok(BatteryStatus::Full)
        } else {
            Err(Error::InvalidBatteryStatus { status: copy_text(s) })
        }
    }
}

impl BatteryInfoName {
    /// The name of the kind of information.
    pub open spec fn text(self) -> Seq<char> {
        match self {
            BatteryInfoName::ChargeFull => "charge_full"@,
            BatteryInfoName::ChargeNow => "charge_now"@,
            BatteryInfoName::Capacity => "capacity"@,
            BatteryInfoName::CurrentNow => "current_now"@,
            BatteryInfoName::Status => "status"@,
            BatteryInfoName::TimeRemaining => "time_remaining"@,
        }
    }

    /// The name of the kind of information.
    pub fn as_str(&self) -> (r: &'static str)
        ensures
            r@ == self.text(),
    {
        match self {
            BatteryInfoName::ChargeFull => "charge_full",
            BatteryInfoName::ChargeNow => "charge_now",
            BatteryInfoName::Capacity => "capacity",
            BatteryInfoName::CurrentNow => "current_now",
            BatteryInfoName::Status => "status",
            BatteryInfoName::TimeRemaining => "time_remaining",
        }
    }

    /// The kind of information that `s` names, or the error that names `s`
    /// where it names none.
    pub fn from_str(s: &str) -> (r: Result<BatteryInfoName, Error>)
        ensures
            r is Ok <==> info_named(s@).is_some(),
            r matches Ok(b) ==> info_named(s@) == Some(b),
            r matches Err(e) ==> e matches Error::InvalidInfoName { name } && name@ == s@,
    {
        if same_text(s, "charge_now") || same_text(s, "charge") {
            Ok(BatteryInfoName::ChargeNow)
        } else if same_text(s, "capacity") || same_text(s, "charge_percentage") || same_text(s, "percentage")
            || same_text(s, "percent") {
            Ok(BatteryInfoName::Capacity)
        } else if same_text(s, "charge_full") {
            Ok(BatteryInfoName::ChargeFull)
        } else if same_text(s, "current_now") || same_text(s, "current") {
            Ok(BatteryInfoName::CurrentNow)
        } else if same_text(s, "time_remaining") || same_text(s, "remaining") || same_text(s, "time") {
            Ok(BatteryInfoName::TimeRemaining)
        } else if same_text(s, "status") {
            Ok(BatteryInfoName::Status)
        } else {
            Err(Error::InvalidInfoName { name: copy_text(s) })
        }
    }
}

/// The texts of a list of string slices, in order.
pub open spec fn slice_texts(v: Seq<&'static str>) -> Seq<Seq<char>> {
    Seq::new(v.len(), |i: int| v[i]@)
}

/// The names of the files whose changes matter for `name`. The full charge
/// never changes, so nothing is watched for it.
pub open spec fn watched_files(name: BatteryInfoName) -> Seq<Seq<char>> {
    match name {
        BatteryInfoName::ChargeFull => seq![],
        BatteryInfoName::ChargeNow => seq!["charge_now"@],
        BatteryInfoName::Capacity => seq!["charge_now"@],
        BatteryInfoName::CurrentNow => seq!["current_now"@],
        BatteryInfoName::Status => seq!["status"@],
        BatteryInfoName::TimeRemaining => seq!["charge_now"@, "current_now"@],
    }
}

/// The files whose changes matter for a kind of information.
pub trait BatteryInfoNameExt {
    /// The names of the files to watch, as texts.
    spec fn watched(&self) -> Seq<Seq<char>>;

    /// The names of the files to watch.
    fn files_to_watch(&self) -> (r: Vec<&'static str>)
        ensures
            slice_texts(r@) == self.watched(),
    ;
}

impl BatteryInfoNameExt for BatteryInfoName {
    open spec fn watched(&self) -> Seq<Seq<char>> {
        watched_files(*self)
    }

    fn files_to_watch(&self) -> (r: Vec<&'static str>) {
        let mut out: Vec<&'static str> = Vec::new();
        match self {
            BatteryInfoName::ChargeFull => {},
            BatteryInfoName::ChargeNow => {
                out.push("charge_now");
            },
            BatteryInfoName::Capacity => {
                out.push("charge_now");
            },
            BatteryInfoName::CurrentNow => {
                out.push("current_now");
            },
            BatteryInfoName::Status => {
                out.push("status");
            },
            BatteryInfoName::TimeRemaining => {
                out.push("charge_now");
                out.push("current_now");
            },
        }
        assert(slice_texts(out@) =~= watched_files(*self));
        out
    }
}

/// Whether one of `names` has `file` among its watched files.
pub open spec fn is_watched(names: Seq<BatteryInfoName>, file: Seq<char>) -> bool {
    exists|i: int| 0 <= i < names.len() && watched_files(#[trigger] names[i]).contains(file)
}

/// Adds `file` to `list` unless it is there.
fn add_file(list: &mut Vec<&'static str>, file: &'static str)
    requires
        slice_texts(old(list)@).no_duplicates(),
    ensures
        slice_texts(final(list)@).no_duplicates(),
        forall|f: Seq<char>|
            #![trigger slice_texts(final(list)@).contains(f)]
            slice_texts(final(list)@).contains(f) <==> slice_texts(old(list)@).contains(f) || f == file@,
{
    let ghost before = slice_texts(list@);
    if !holds(list, file) {
        list.push(file);
        assert(slice_texts(list@) =~= before.push(file@));
        assert(slice_texts(list@)[before.len() as int] == file@);
    }
    assert forall|f: Seq<char>| slice_texts(list@).contains(f) <==> before.contains(f) || f == file@ by {
        vstd::seq_lib::lemma_seq_contains_after_push(before, file@, f);
    }
}

/// Adds each of `files` to `list` unless it is there.
fn add_files(list: &mut Vec<&'static str>, files: &Vec<&'static str>)
    requires
        slice_texts(old(list)@).no_duplicates(),
    ensures
        slice_texts(final(list)@).no_duplicates(),
        forall|f: Seq<char>|
            #![trigger slice_texts(final(list)@).contains(f)]
            slice_texts(final(list)@).contains(f) <==> slice_texts(old(list)@).contains(f) || slice_texts(
                files@,
            ).contains(f),
{
    let ghost start = slice_texts(list@);
    let mut j: usize = 0;
    while j < files.len()
        invariant
            j <= files@.len(),
            slice_texts(list@).no_duplicates(),
            forall|f: Seq<char>|
                #![trigger slice_texts(list@).contains(f)]
                slice_texts(list@).contains(f) <==> start.contains(f) || slice_texts(files@).take(j as int).contains(
                    f,
                ),
        decreases files@.len() - j,
    {
        let ghost upto = slice_texts(files@).take(j + 1);
        let ghost prior = slice_texts(files@).take(j as int);
        let ghost mid = slice_texts(list@);
        assert(upto =~= prior.push(files@[j as int]@));
        add_file(list, files[j]);
        assert forall|f: Seq<char>| slice_texts(list@).contains(f) <==> start.contains(f) || upto.contains(f) by {
            assert(slice_texts(list@).contains(f) <==> mid.contains(f) || f == files@[j as int]@);
            assert(mid.contains(f) <==> start.contains(f) || prior.contains(f));
            vstd::seq_lib::lemma_seq_contains_after_push(prior, files@[j as int]@, f);
        }
        j += 1;
    }
    assert(slice_texts(files@).take(files@.len() as int) =~= slice_texts(files@));
}

/// The files to watch for all of `names` together: each file that one of the
/// names asks for, once.
pub fn files_for(names: &Vec<BatteryInfoName>) -> (r: Vec<&'static str>)
    ensures
        slice_texts(r@).no_duplicates(),
        forall|file: Seq<char>| slice_texts(r@).contains(file) <==> is_watched(names@, file),
{
    let mut out: Vec<&'static str> = Vec::new();
    let mut i: usize = 0;
    while i < names.len()
        invariant
            i <= names@.len(),
            slice_texts(out@).no_duplicates(),
            forall|file: Seq<char>|
                #![trigger slice_texts(out@).contains(file)]
                slice_texts(out@).contains(file) <==> is_watched(names@.take(i as int), file),
        decreases names@.len() - i,
    {
        let files = names[i].files_to_watch();
        let ghost mid = slice_texts(out@);
        add_files(&mut out, &files);
        proof {
            let upto = names@.take(i + 1);
            let prior = names@.take(i as int);
            assert forall|file: Seq<char>| slice_texts(out@).contains(file) <==> is_watched(upto, file) by {
                assert(slice_texts(out@).contains(file) <==> mid.contains(file) || slice_texts(files@).contains(file));
                assert(mid.contains(file) <==> is_watched(prior, file));
                assert(slice_texts(files@) == watched_files(names@[i as int]));
                if is_watched(prior, file) {
                    let x = choose|x: int| 0 <= x < prior.len() && watched_files(#[trigger] prior[x]).contains(file);
                    assert(upto[x] == prior[x]);
                    assert(watched_files(upto[x]).contains(file));
                }
                if watched_files(names@[i as int]).contains(file) {
                    assert(upto[i as int] == names@[i as int]);
                    assert(watched_files(upto[i as int]).contains(file));
                }
                if is_watched(upto, file) {
                    let x = choose|x: int| 0 <= x < upto.len() && watched_files(#[trigger] upto[x]).contains(file);
                    if x < i {
                        assert(prior[x] == upto[x]);
                        assert(watched_files(prior[x]).contains(file));
                    }
                }
            }
        }
        i += 1;
    }
    assert(names@.take(names@.len() as int) =~= names@);
    out
}

/// Whether `file` is among `list`.
fn holds(list: &Vec<&'static str>, file: &str) -> (r: bool)
    ensures
        r == slice_texts(list@).contains(file@),
{
    let mut i: usize = 0;
    while i < list.len()
        invariant
            i <= list@.len(),
            forall|j: int| 0 <= j < i ==> list@[j]@ != file@,
        decreases list@.len() - i,
    {
        if same_text(list[i], file) {
            assert(slice_texts(list@)[i as int] == file@);
            return true;
        }
        i += 1;
    }
    assert(forall|j: int| 0 <= j < slice_texts(list@).len() ==> slice_texts(list@)[j] != file@);
    false
}

/// Where the full charge of every battery can be read, there are as many
/// batteries as names of batteries.
pub proof fn lemma_batteries_are_named(found: Seq<BatteryFiles>)
    requires
        forall|i: int| 0 <= i < found.len() ==> !unreadable_at(found, i),
    ensures
        batteries_of(found).len() == battery_names(names_of(found)).len(),
    decreases found.len(),
{
    if found.len() > 0 {
        let rest = found.drop_last();
        assert forall|i: int| 0 <= i < rest.len() implies !unreadable_at(rest, i) by {
            assert(!unreadable_at(found, i));
        }
        lemma_batteries_are_named(rest);
        assert(names_of(found).drop_last() =~= names_of(rest));
        assert(names_of(found).last() == found.last().name@);
        assert(!unreadable_at(found, found.len() - 1));
    }
}

/// The text of a state names that state and no other: reading what
/// `as_str` wrote gives the state back.
pub proof fn lemma_status_text_round_trip(status: BatteryStatus)
    ensures
        status_named(status.text()) == Some(status),
{
    reveal_strlit("Unknown");
    reveal_strlit("Charging");
    reveal_strlit("Discharging");
    reveal_strlit("Not charging");
    reveal_strlit("Full");
    assert("Unknown"@.len() == 7);
    assert("Charging"@.len() == 8);
    assert("Discharging"@.len() == 11);
    assert("Not charging"@.len() == 12);
    assert("Full"@.len() == 4);
}

/// The name of a kind of information names that kind and no other: reading
/// what `as_str` wrote gives the kind back.
pub proof fn lemma_info_text_round_trip(name: BatteryInfoName)
    ensures
        info_named(name.text()) == Some(name),
{
    reveal_strlit("charge_now");
    reveal_strlit("charge");
    reveal_strlit("capacity");
    reveal_strlit("charge_percentage");
    reveal_strlit("percentage");
    reveal_strlit("percent");
    reveal_strlit("charge_full");
    reveal_strlit("current_now");
    reveal_strlit("current");
    reveal_strlit("time_remaining");
    reveal_strlit("remaining");
    reveal_strlit("time");
    reveal_strlit("status");
    assert("charge_now"@.len() == 10);
    assert("charge"@.len() == 6);
    assert("capacity"@.len() == 8);
    assert("charge_percentage"@.len() == 17);
    assert("percentage"@.len() == 10);
    assert("percent"@.len() == 7);
    assert("charge_full"@.len() == 11);
    assert("current_now"@.len() == 11);
    assert("current"@.len() == 7);
    assert("time_remaining"@.len() == 14);
    assert("remaining"@.len() == 9);
    assert("time"@.len() == 4);
    assert("status"@.len() == 6);
    assert("charge_now"@[0] == 'c' && "percentage"@[0] == 'p');
    assert("charge_full"@[1] == 'h' && "current_now"@[1] == 'u');
    assert("status"@[0] == 's' && "charge"@[0] == 'c');
    assert("capacity"@[0] == 'c');
}

} // verus!
