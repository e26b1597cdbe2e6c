//! Date/time option resolution for the locale-aware formatting objects.
//!
//! The engine-facing code reads the raw option properties from a script
//! object and hands them over as plain optional byte strings; the
//! resolution logic here decides which error applies and which fields get
//! the default `"numeric"` value.

use vstd::prelude::*;

verus! {

/// A type error raised while resolving options.
#[derive(Debug, PartialEq, Eq)]
pub struct TypeError {
    /// What went wrong.
    pub message: &'static str,
}

/// A range error raised while reading an option value.
#[derive(Debug, PartialEq, Eq)]
pub struct RangeError {
    /// What went wrong.
    pub message: &'static str,
}

/// The `required` and `defaults` arguments of the date/time option
/// resolution. `required` and `defaults` differ only in their `any` and
/// `all` readings, so both share the `AnyAll` variant.
#[derive(Debug, Clone, Copy, PartialEq, Eq, Structural)]
pub enum DateTimeReqs {
    /// Date components.
    Date,
    /// Time components.
    Time,
    /// Any component suffices, or all components apply.
    AnyAll,
}

/// The option properties the resolution reads and writes, as plain
/// optional byte strings. An absent property reads as `None`.
#[derive(Debug, PartialEq, Eq)]
pub struct DateTimeOptions {
    /// The `weekday` property.
    pub weekday: Option<Vec<u8>>,
    /// The `year` property.
    pub year: Option<Vec<u8>>,
    /// The `month` property.
    pub month: Option<Vec<u8>>,
    /// The `day` property.
    pub day: Option<Vec<u8>>,
    /// The `dayPeriod` property.
    pub day_period: Option<Vec<u8>>,
    /// The `hour` property.
    pub hour: Option<Vec<u8>>,
    /// The `minute` property.
    pub minute: Option<Vec<u8>>,
    /// The `second` property.
    pub second: Option<Vec<u8>>,
    /// The `fractionalSecondDigits` property.
    pub fractional_second_digits: Option<Vec<u8>>,
    /// The `dateStyle` property.
    pub date_style: Option<Vec<u8>>,
    /// The `timeStyle` property.
    pub time_style: Option<Vec<u8>>,
}

/// The byte string `"numeric"`.
pub open spec fn numeric_value() -> Seq<u8> {
    seq![110u8, 117u8, 109u8, 101u8, 114u8, 105u8, 99u8]
}

/// Whether the request asks for date components.
pub open spec fn wants_date(r: DateTimeReqs) -> bool {
    r == DateTimeReqs::Date || r == DateTimeReqs::AnyAll
}

/// Whether the request asks for time components.
pub open spec fn wants_time(r: DateTimeReqs) -> bool {
    r == DateTimeReqs::Time || r == DateTimeReqs::AnyAll
}

/// Whether some requested date component is present.
pub open spec fn has_date_fields(o: DateTimeOptions) -> bool {
    o.weekday is Some || o.year is Some || o.month is Some || o.day is Some
}

/// Whether some requested time component is present.
pub open spec fn has_time_fields(o: DateTimeOptions) -> bool {
    o.day_period is Some || o.hour is Some || o.minute is Some || o.second is Some
        || o.fractional_second_digits is Some
}

/// Whether the defaults apply: no requested component and neither style
/// property is present.
pub open spec fn needs_defaults(o: DateTimeOptions, required: DateTimeReqs) -> bool {
    &&& !(wants_date(required) && has_date_fields(o))
    &&& !(wants_time(required) && has_time_fields(o))
    &&& o.date_style is None
    &&& o.time_style is None
}

/// A field after resolution: set to `"numeric"` when the defaults apply
/// to it, unchanged otherwise.
pub open spec fn numeric_or_same(newv: Option<Vec<u8>>, origv: Option<Vec<u8>>, set: bool)
    -> bool {
    if set {
        newv matches Some(v) && v@ == numeric_value()
    } else {
        newv == origv
    }
}

/// Resolves the date/time options: rejects a style property that
/// contradicts the required components, and fills the component defaults
/// in exactly when no requested component was given.
pub fn to_date_time_options(
    options: DateTimeOptions,
    required: DateTimeReqs,
    defaults: DateTimeReqs,
) -> (r: Result<DateTimeOptions, TypeError>)
    ensures
        (r is Err) <==> ((required == DateTimeReqs::Date && options.time_style is Some) || (
        required == DateTimeReqs::Time && options.date_style is Some)),
        r matches Ok(out) ==> {
            let set_date = needs_defaults(options, required) && wants_date(defaults);
            let set_time = needs_defaults(options, required) && wants_time(defaults);
            &&& out.weekday == options.weekday
            &&& out.day_period == options.day_period
            &&& out.fractional_second_digits == options.fractional_second_digits
            &&& out.date_style == options.date_style
            &&& out.time_style == options.time_style
            &&& numeric_or_same(out.year, options.year, set_date)
            &&& numeric_or_same(out.month, options.month, set_date)
            &&& numeric_or_same(out.day, options.day, set_date)
            &&& numeric_or_same(out.hour, options.hour, set_time)
            &&& numeric_or_same(out.minute, options.minute, set_time)
            &&& numeric_or_same(out.second, options.second, set_time)
        },
{
    let mut need_defaults = true;
    if required == DateTimeReqs::Date || required == DateTimeReqs::AnyAll {
        if options.weekday.is_some() || options.year.is_some() || options.month.is_some()
            || options.day.is_some() {
            need_defaults = false;
        }
    }
    if required == DateTimeReqs::Time || required == DateTimeReqs::AnyAll {
        if options.day_period.is_some() || options.hour.is_some() || options.minute.is_some()
            || options.second.is_some() || options.fractional_second_digits.is_some() {
            need_defaults = false;
        }
    }
    if options.date_style.is_some() || options.time_style.is_some() {
        need_defaults = false;
    }
    if required == DateTimeReqs::Date && options.time_style.is_some() {
        return Err(TypeError { message: "'date' is required, but timeStyle was defined" });
    }
    if required == DateTimeReqs::Time && options.date_style.is_some() {
        return Err(TypeError { message: "'time' is required, but dateStyle was defined" });
    }
    let set_date = need_defaults && (defaults == DateTimeReqs::Date || defaults
        == DateTimeReqs::AnyAll);
    let set_time = need_defaults && (defaults == DateTimeReqs::Time || defaults
        == DateTimeReqs::AnyAll);
    let DateTimeOptions {
        weekday,
        year,
        month,
        day,
        day_period,
        hour,
        minute,
        second,
        fractional_second_digits,
        date_style,
        time_style,
    } = options;
    let year = if set_date {
        let v: Vec<u8> = vec![110u8, 117u8, 109u8, 101u8, 114u8, 105u8, 99u8];
        proof {
            assert(v@ =~= numeric_value());
        }
        Some(v)
    } else {
        year
    };
    let month = if set_date {
        let v: Vec<u8> = vec![110u8, 117u8, 109u8, 101u8, 114u8, 105u8, 99u8];
        proof {
            assert(v@ =~= numeric_value());
        }
        Some(v)
    } else {
        month
    };
    let day = if set_date {
        let v: Vec<u8> = vec![110u8, 117u8, 109u8, 101u8, 114u8, 105u8, 99u8];
        proof {
            assert(v@ =~= numeric_value());
        }
        Some(v)
    } else {
        day
    };
    let hour = if set_time {
        let v: Vec<u8> = vec![110u8, 117u8, 109u8, 101u8, 114u8, 105u8, 99u8];
        proof {
            assert(v@ =~= numeric_value());
        }
        Some(v)
    } else {
        hour
    };
    let minute = if set_time {
        let v: Vec<u8> = vec![110u8, 117u8, 109u8, 101u8, 114u8, 105u8, 99u8];
        proof {
            assert(v@ =~= numeric_value());
        }
        Some(v)
    } else {
        minute
    };
    let second = if set_time {
        let v: Vec<u8> = vec![110u8, 117u8, 109u8, 101u8, 114u8, 105u8, 99u8];
        proof {
            assert(v@ =~= numeric_value());
        }
        Some(v)
    } else {
        second
    };
    Ok(
        DateTimeOptions {
            weekday,
            year,
            month,
            day,
            day_period,
            hour,
            minute,
            second,
            fractional_second_digits,
            date_style,
            time_style,
        },
    )
}

/// The hour-cycle preference a formatting object can be asked for. The
/// `h24` cycle is not offered.
#[derive(Debug, Clone, Copy, PartialEq, Eq, Structural)]
pub enum HourCycle {
    /// Hours 0 to 11.
    H11,
    /// Hours 1 to 12.
    H12,
    /// Hours 0 to 23.
    H23,
}

/// The byte string `"h11"`.
pub open spec fn hc11_text() -> Seq<u8> {
    seq![104u8, 49u8, 49u8]
}

/// The byte string `"h12"`.
pub open spec fn hc12_text() -> Seq<u8> {
    seq![104u8, 49u8, 50u8]
}

/// The byte string `"h23"`.
pub open spec fn hc23_text() -> Seq<u8> {
    seq![104u8, 50u8, 51u8]
}

impl HourCycle {
    /// Reads an hour cycle from its textual option value: exactly `h11`,
    /// `h12` or `h23` are accepted.
    pub fn from_value(value: &Vec<u8>) -> (r: Result<HourCycle, RangeError>)
        ensures
            value@ == hc11_text() ==> r == Ok::<HourCycle, RangeError>(HourCycle::H11),
            value@ == hc12_text() ==> r == Ok::<HourCycle, RangeError>(HourCycle::H12),
            value@ == hc23_text() ==> r == Ok::<HourCycle, RangeError>(HourCycle::H23),
            (value@ != hc11_text() && value@ != hc12_text() && value@ != hc23_text()) ==> (r
                is Err),
    {
        if value.len() == 3 && value[0] == 104 && value[1] == 49 && value[2] == 49 {
            proof {
                assert(value@ =~= hc11_text());
            }
            Ok(HourCycle::H11)
        } else if value.len() == 3 && value[0] == 104 && value[1] == 49 && value[2] == 50 {
            proof {
                assert(value@ =~= hc12_text());
            }
            Ok(HourCycle::H12)
        } else if value.len() == 3 && value[0] == 104 && value[1] == 50 && value[2] == 51 {
            proof {
                assert(value@ =~= hc23_text());
            }
            Ok(HourCycle::H23)
        } else {
            proof {
                if value@ == hc11_text() {
                    assert(value@.len() == 3 && value@[0] == 104 && value@[1] == 49 && value@[2]
                        == 49);
                }
                if value@ == hc12_text() {
                    assert(value@.len() == 3 && value@[0] == 104 && value@[1] == 49 && value@[2]
                        == 50);
                }
                if value@ == hc23_text() {
                    assert(value@.len() == 3 && value@[0] == 104 && value@[1] == 50 && value@[2]
                        == 51);
                }
            }
            Err(RangeError { message: "provided hour cycle was not 'h11', 'h12' or 'h23'" })
        }
    }
}

} // verus!
