use vstd::prelude::*;
use crate::path::FsPath;
use crate::scanner::{digit_slot, fits_template, fits_template_at, is_digit};

verus! {

/// chrono's calendar date, carried opaque.
#[verifier::external_type_specification]
#[verifier::external_body]
pub struct ExNaiveDate(chrono::NaiveDate);

pub open spec fn is_leap_year(y: int) -> bool {
    (y % 4 == 0 && y % 100 != 0) || y % 400 == 0
}

pub open spec fn days_in_month(y: int, m: int) -> int {
    if m == 2 {
        if is_leap_year(y) { 29 } else { 28 }
    } else if m == 4 || m == 6 || m == 9 || m == 11 {
        30
    } else {
        31
    }
}

/// A day of the proleptic Gregorian calendar.
pub open spec fn is_calendar_date(y: int, m: int, d: int) -> bool {
    1 <= m <= 12 && 1 <= d <= days_in_month(y, m)
}

/// Relies on chrono's `NaiveDate::from_ymd_opt`: `None` exactly when the day does not
/// exist, the month or day is out of range, or the year is out of chrono's range
/// (which holds every year of four digits).
pub assume_specification[ chrono::NaiveDate::from_ymd_opt ](year: i32, month: u32, day: u32) -> (r: Option<chrono::NaiveDate>)
    ensures
        0 <= year <= 9999 ==> (r is Some <==> is_calendar_date(year as int, month as int, day as int)),
;

/// How many bytes of a file's head are inspected.
pub const HEAD_LEN: usize = 30;

/// `NNNN.NN.NN NN:NN:NN ` (year, month, day, time, one space).
pub open spec fn header_template() -> Seq<u8> {
    seq![78, 78, 78, 78, 46, 78, 78, 46, 78, 78, 32, 78, 78, 58, 78, 78, 58, 78, 78, 32]
}

pub fn header_template_bytes() -> (r: Vec<u8>)
    ensures
        r@ == header_template(),
{
    let r = vec![78, 78, 78, 78, 46, 78, 78, 46, 78, 78, 32, 78, 78, 58, 78, 78, 58, 78, 78, 32];
    assert(r@ =~= header_template());
    r
}

/// A header line starts at `p`: at the start of the window or just after a line feed,
/// and wholly inside the window of `HEAD_LEN` bytes.
pub open spec fn header_at(b: Seq<u8>, p: int) -> bool {
    &&& 0 <= p
    &&& p + 20 <= HEAD_LEN
    &&& p + 20 <= b.len()
    &&& (p == 0 || b[p - 1] == 10)
    &&& fits_template(b.subrange(p, p + 20), header_template())
}

/// The leftmost header start at or after `p`.
pub open spec fn first_header_from(b: Seq<u8>, p: int) -> Option<int>
    decreases HEAD_LEN - p,
{
    if p < 0 || p + 20 > HEAD_LEN {
        None
    } else if header_at(b, p) {
        Some(p)
    } else {
        first_header_from(b, p + 1)
    }
}

proof fn lemma_first_header_is_header(b: Seq<u8>, q: int)
    ensures
        first_header_from(b, q) matches Some(p) ==> header_at(b, p),
    decreases HEAD_LEN - q,
{
    if q >= 0 && q + 20 <= HEAD_LEN && !header_at(b, q) {
        lemma_first_header_is_header(b, q + 1);
    }
}

pub open spec fn digit_value(b: u8) -> int {
    b - 48
}

pub open spec fn two_digits(b: Seq<u8>, i: int) -> int {
    10 * digit_value(b[i]) + digit_value(b[i + 1])
}

/// The (year, month, day) written in the header that starts at `p`.
pub open spec fn date_at(b: Seq<u8>, p: int) -> (int, int, int) {
    (100 * two_digits(b, p) + two_digits(b, p + 2), two_digits(b, p + 5), two_digits(b, p + 8))
}

/// The date of the first header line of a file's head, if it has one.
pub open spec fn header_date(head: Seq<u8>) -> Option<(int, int, int)> {
    match first_header_from(head, 0) {
        Some(p) => Some(date_at(head, p)),
        None => None,
    }
}

/// A calendar date.
#[derive(Clone, Copy, Debug, PartialEq, Eq, Structural)]
pub struct LogDate {
    pub year: i32,
    pub month: u32,
    pub day: u32,
}

impl LogDate {
    /// A real day of a four-digit year.
    pub open spec fn wf(self) -> bool {
        0 <= self.year <= 9999 && is_calendar_date(self.year as int, self.month as int, self.day as int)
    }

    pub open spec fn ymd(self) -> (int, int, int) {
        (self.year as int, self.month as int, self.day as int)
    }
}

/// Why a file's head could not be classified.
#[derive(Clone, Copy, Debug, PartialEq, Eq, Structural)]
pub enum ClassifyError {
    /// The file holds fewer than `HEAD_LEN` bytes.
    Truncated,
    /// The header names a day that does not exist.
    InvalidDate { year: i32, month: u32, day: u32 },
}

/// A log file whose date was read from its content.
pub struct VRCLogfile {
    pub path: FsPath,
    pub date: LogDate,
}

/// The leftmost start of a header line within the first `HEAD_LEN` bytes of `head`.
pub fn find_header(head: &[u8]) -> (r: Option<usize>)
    ensures
        r matches Some(p) ==> first_header_from(head@, 0) == Some(p as int),
        r is None ==> first_header_from(head@, 0) is None,
{
    let t = header_template_bytes();
    let n = head.len();
    let mut p: usize = 0;
    while p + 20 <= HEAD_LEN
        invariant
            p + 20 <= HEAD_LEN + 1,
            n == head@.len(),
            t@ == header_template(),
            first_header_from(head@, 0) == first_header_from(head@, p as int),
        decreases HEAD_LEN - p,
    {
        if p + 20 <= n {
            let at_line_start = p == 0 || head[p - 1] == 10;
            if at_line_start && fits_template_at(head, p, &t) {
                return Some(p);
            }
        }
        p = p + 1;
    }
    None
}

pub fn digit_value_of(b: u8) -> (r: u32)
    requires
        is_digit(b),
    ensures
        r as int == digit_value(b),
        r <= 9,
{
    (b - 48) as u32
}

pub fn two_digits_at(b: &[u8], i: usize) -> (r: u32)
    requires
        i + 1 < b@.len(),
        is_digit(b@[i as int]),
        is_digit(b@[i + 1]),
    ensures
        r as int == two_digits(b@, i as int),
        r <= 99,
{
    10 * digit_value_of(b[i]) + digit_value_of(b[i + 1])
}

impl VRCLogfile {
    /// The head is short, or its header names a day that does not exist.
    pub open spec fn classifies_to_error(head: Seq<u8>) -> bool {
        head.len() < HEAD_LEN || (header_date(head) matches Some((y, m, d)) && !is_calendar_date(y, m, d))
    }

    /// The head has no header line: the file is no log file.
    pub open spec fn classifies_to_none(head: Seq<u8>) -> bool {
        head.len() >= HEAD_LEN && header_date(head) is None
    }

    /// The head's header names a real day.
    pub open spec fn classifies_to_date(head: Seq<u8>) -> bool {
        head.len() >= HEAD_LEN && (header_date(head) matches Some((y, m, d)) && is_calendar_date(y, m, d))
    }

    /// The day that the head's header names.
    pub open spec fn header_log_date(head: Seq<u8>) -> LogDate {
        let (y, m, d) = header_date(head).unwrap();
        LogDate { year: y as i32, month: m as u32, day: d as u32 }
    }

    /// Classifies the file at `path` by the head read from it: a dated record when a
    /// header line names a real day, no record when no header line is found, and an
    /// error when the head is short or the day does not exist.
    pub fn new(path: FsPath, head: &[u8]) -> (r: Result<Option<VRCLogfile>, ClassifyError>)
        ensures
            match r {
                Err(ClassifyError::Truncated) => head@.len() < HEAD_LEN,
                Err(ClassifyError::InvalidDate { year, month, day }) => {
                    &&& head@.len() >= HEAD_LEN
                    &&& header_date(head@) == Some((year as int, month as int, day as int))
                    &&& !is_calendar_date(year as int, month as int, day as int)
                },
                Ok(None) => head@.len() >= HEAD_LEN && header_date(head@) is None,
                Ok(Some(f)) => {
                    &&& head@.len() >= HEAD_LEN
                    &&& header_date(head@) == Some(f.date.ymd())
                    &&& f.date.wf()
                    &&& f.path@ == path@
                },
            },
    {
        if head.len() < HEAD_LEN {
            return Err(ClassifyError::Truncated);
        }
        let p = match find_header(head) {
            Some(p) => p,
            None => return Ok(None),
        };
        proof {
            lemma_first_header_is_header(head@, 0);
            let w = head@.subrange(p as int, p + 20);
            let t = header_template();
            assert(header_at(head@, p as int));
            assert(t[0] == digit_slot() && t[1] == digit_slot() && t[2] == digit_slot() && t[3] == digit_slot());
            assert(t[5] == digit_slot() && t[6] == digit_slot() && t[8] == digit_slot() && t[9] == digit_slot());
            assert(is_digit(w[0]) && is_digit(w[1]) && is_digit(w[2]) && is_digit(w[3]));
            assert(is_digit(w[5]) && is_digit(w[6]) && is_digit(w[8]) && is_digit(w[9]));
        }
        let year = (100 * two_digits_at(head, p) + two_digits_at(head, p + 2)) as i32;
        let month = two_digits_at(head, p + 5);
        let day = two_digits_at(head, p + 8);
        let date = LogDate { year, month, day };
        match chrono::NaiveDate::from_ymd_opt(year, month, day) {
            Some(_) => Ok(Some(VRCLogfile { path, date })),
            None => Err(ClassifyError::InvalidDate { year, month, day }),
        }
    }
}

} // verus!
