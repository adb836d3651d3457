use vstd::prelude::*;

verus! {

/// What the holiday calendar says of one day.
#[derive(Debug, Clone, PartialEq, Eq)]
pub struct HolidayInfo {
    pub holiday: bool,
    pub name: String,
    pub wage: i64,
    pub date: String,
    pub rest: i64,
}

/// The holiday calendar of a year: each entry is keyed by the day as
/// `MM-DD`; no two entries share a key.
#[derive(Debug, Clone, PartialEq, Eq)]
pub struct HolidayResult {
    pub code: i64,
    pub holiday: Vec<(String, HolidayInfo)>,
}

/// The decimal digit `d` as a character.
pub open spec fn digit_char(d: int) -> char {
    "0123456789"@[d]
}

/// A number below 100 written with two digits.
pub open spec fn two_digits(n: int) -> Seq<char> {
    seq![digit_char(n / 10), digit_char(n % 10)]
}

/// The key of a day in the calendar: `MM-DD`.
pub open spec fn day_key(month: int, day: int) -> Seq<char> {
    two_digits(month) + seq!['-'] + two_digits(day)
}

fn write_two_digits(n: u32) -> (r: String)
    requires
        n < 100,
    ensures
        r@ == two_digits(n as int),
{
    let digits = "0123456789";
    proof {
        reveal_strlit("0123456789");
    }
    let hi = (n / 10) as usize;
    let lo = (n % 10) as usize;
    let r = digits.substring_char(hi, hi + 1).to_string().concat(
        digits.substring_char(lo, lo + 1),
    );
    assert(r@ =~= two_digits(n as int));
    r
}

/// The calendar key of `month`/`day`, as `MM-DD`.
pub fn holiday_key(month: u32, day: u32) -> (r: String)
    requires
        1 <= month <= 12,
        1 <= day <= 31,
    ensures
        r@ == day_key(month as int, day as int),
{
    let r = write_two_digits(month).concat("-").concat(write_two_digits(day).as_str());
    proof {
        reveal_strlit("-");
    }
    assert(r@ =~= day_key(month as int, day as int));
    r
}

impl HolidayResult {
    /// The entry of the calendar whose key is `key`, if there is one.
    pub fn lookup(&self, key: &String) -> (r: Option<&HolidayInfo>)
        ensures
            r matches Some(h) ==> exists|i: int|
                0 <= i < self.holiday@.len() && self.holiday@[i].0@ == key@ && &self.holiday@[i].1
                    == h,
            r is None ==> forall|i: int|
                0 <= i < self.holiday@.len() ==> self.holiday@[i].0@ != key@,
    {
        let mut i: usize = 0;
        while i < self.holiday.len()
            invariant
                i <= self.holiday@.len(),
                forall|j: int| 0 <= j < i ==> self.holiday@[j].0@ != key@,
            decreases self.holiday@.len() - i,
        {
            if self.holiday[i].0 == *key {
                return Some(&self.holiday[i].1);
            }
            i = i + 1;
        }
        None
    }
}

/// What the calendar says of `month`/`day`, if the day is in it.
pub fn get_holiday_info(
    calendar: &HolidayResult,
    month: u32,
    day: u32,
) -> (r: Option<&HolidayInfo>)
    requires
        1 <= month <= 12,
        1 <= day <= 31,
    ensures
        r matches Some(h) ==> exists|i: int|
            0 <= i < calendar.holiday@.len() && calendar.holiday@[i].0@ == day_key(
                month as int,
                day as int,
            ) && &calendar.holiday@[i].1 == h,
        r is None ==> forall|i: int|
            0 <= i < calendar.holiday@.len() ==> calendar.holiday@[i].0@ != day_key(
                month as int,
                day as int,
            ),
{
    let key = holiday_key(month, day);
    calendar.lookup(&key)
}

} // verus!
