use vstd::prelude::*;

verus! {

/// The fields of a date and time, as plain values.
pub struct DateTimeModel {
    pub seconds: u8,
    pub minutes: u8,
    pub hours: u8,
    pub day: u8,
    pub month: u8,
    pub year: u16,
}

/// A calendar date and time of day.
#[derive(Clone, Copy, Debug)]
pub struct DateTime {
    seconds: u8,
    minutes: u8,
    hours: u8,
    day: u8,
    month: u8,
    year: u16,
}

impl View for DateTime {
    type V = DateTimeModel;

    closed spec fn view(&self) -> DateTimeModel {
        DateTimeModel {
            seconds: self.seconds,
            minutes: self.minutes,
            hours: self.hours,
            day: self.day,
            month: self.month,
            year: self.year,
        }
    }
}

/// Errors of the date and time setters.
#[derive(Clone, Copy, Debug, PartialEq, Eq, Structural)]
pub enum DateTimeErrors {
    WrongValue,
}

impl DateTime {
    /// Midnight of the first of January 1970.
    pub fn new() -> (r: Self)
        ensures
            r@ == (DateTimeModel { seconds: 0, minutes: 0, hours: 0, day: 1, month: 1, year: 1970 }),
    {
        DateTime { seconds: 0u8, minutes: 0u8, hours: 0u8, day: 1u8, month: 1u8, year: 1970u16 }
    }

    pub fn seconds(self, seconds: u8) -> (r: Self)
        ensures
            r@ == (DateTimeModel { seconds, ..self@ }),
    {
        DateTime { seconds, ..self }
    }

    pub fn minutes(self, minutes: u8) -> (r: Self)
        ensures
            r@ == (DateTimeModel { minutes, ..self@ }),
    {
        DateTime { minutes, ..self }
    }

    pub fn hours(self, hours: u8) -> (r: Self)
        ensures
            r@ == (DateTimeModel { hours, ..self@ }),
    {
        DateTime { hours, ..self }
    }

    pub fn day(self, day: u8) -> (r: Self)
        ensures
            r@ == (DateTimeModel { day, ..self@ }),
    {
        DateTime { day, ..self }
    }

    pub fn month(self, month: u8) -> (r: Self)
        ensures
            r@ == (DateTimeModel { month, ..self@ }),
    {
        DateTime { month, ..self }
    }

    pub fn year(self, year: u16) -> (r: Self)
        ensures
            r@ == (DateTimeModel { year, ..self@ }),
    {
        DateTime { year, ..self }
    }
}


/// A calendar date and time that can be read and set field by field.
pub trait DateTimeTrait {
    type Error;

    /// Read the seconds.
    fn get_seconds(&self) -> Result<u8, Self::Error>;

    /// Read the minutes.
    fn get_minutes(&self) -> Result<u8, Self::Error>;

    /// Read the hours.
    fn get_hours(&self) -> Result<u8, Self::Error>;

    /// Read the day of the month [1-31].
    fn get_day(&self) -> Result<u8, Self::Error>;

    /// Read the month [1-12].
    fn get_month(&self) -> Result<u8, Self::Error>;

    /// Read the year (e.g. 2000).
    fn get_year(&self) -> Result<u16, Self::Error>;

    /// Set the seconds [0-59].
    fn set_seconds(&mut self, seconds: u8) -> Result<(), Self::Error>;

    /// Set the minutes [0-59].
    fn set_minutes(&mut self, minutes: u8) -> Result<(), Self::Error>;

    /// Set the hours [0-23].
    fn set_hours(&mut self, hours: u8) -> Result<(), Self::Error>;

    /// Set the day of the month [1-31].
    fn set_day(&mut self, day: u8) -> Result<(), Self::Error>;

    /// Set the month [1-12].
    fn set_month(&mut self, month: u8) -> Result<(), Self::Error>;

    /// Set the year, 1970 or later.
    fn set_year(&mut self, year: u16) -> Result<(), Self::Error>;
}

impl DateTimeTrait for DateTime {
    type Error = DateTimeErrors;

    fn get_seconds(&self) -> (r: Result<u8, DateTimeErrors>)
        ensures
            r == Ok::<u8, DateTimeErrors>(self@.seconds),
    {
        Ok(self.seconds)
    }

    fn get_minutes(&self) -> (r: Result<u8, DateTimeErrors>)
        ensures
            r == Ok::<u8, DateTimeErrors>(self@.minutes),
    {
        Ok(self.minutes)
    }

    fn get_hours(&self) -> (r: Result<u8, DateTimeErrors>)
        ensures
            r == Ok::<u8, DateTimeErrors>(self@.hours),
    {
        Ok(self.hours)
    }

    fn get_day(&self) -> (r: Result<u8, DateTimeErrors>)
        ensures
            r == Ok::<u8, DateTimeErrors>(self@.day),
    {
        Ok(self.day)
    }

    fn get_month(&self) -> (r: Result<u8, DateTimeErrors>)
        ensures
            r == Ok::<u8, DateTimeErrors>(self@.month),
    {
        Ok(self.month)
    }

    fn get_year(&self) -> (r: Result<u16, DateTimeErrors>)
        ensures
            r == Ok::<u16, DateTimeErrors>(self@.year),
    {
        Ok(self.year)
    }

    fn set_seconds(&mut self, seconds: u8) -> (r: Result<(), DateTimeErrors>)
        ensures
            seconds > 59 ==> r == Err::<(), DateTimeErrors>(DateTimeErrors::WrongValue)
                && final(self)@ == old(self)@,
            seconds <= 59 ==> r is Ok && final(self)@ == (DateTimeModel { seconds, ..old(self)@ }),
    {
        if seconds > 59 {
            return Err(DateTimeErrors::WrongValue);
        }
        self.seconds = seconds;
        Ok(())
    }

    fn set_minutes(&mut self, minutes: u8) -> (r: Result<(), DateTimeErrors>)
        ensures
            minutes > 59 ==> r == Err::<(), DateTimeErrors>(DateTimeErrors::WrongValue)
                && final(self)@ == old(self)@,
            minutes <= 59 ==> r is Ok && final(self)@ == (DateTimeModel { minutes, ..old(self)@ }),
    {
        if minutes > 59 {
            return Err(DateTimeErrors::WrongValue);
        }
        self.minutes = minutes;
        Ok(())
    }

    fn set_hours(&mut self, hours: u8) -> (r: Result<(), DateTimeErrors>)
        ensures
            hours > 23 ==> r == Err::<(), DateTimeErrors>(DateTimeErrors::WrongValue)
                && final(self)@ == old(self)@,
            hours <= 23 ==> r is Ok && final(self)@ == (DateTimeModel { hours, ..old(self)@ }),
    {
        if hours > 23 {
            return Err(DateTimeErrors::WrongValue);
        }
        self.hours = hours;
        Ok(())
    }

    fn set_day(&mut self, day: u8) -> (r: Result<(), DateTimeErrors>)
        ensures
            !(1 <= day <= 31) ==> r == Err::<(), DateTimeErrors>(DateTimeErrors::WrongValue)
                && final(self)@ == old(self)@,
            1 <= day <= 31 ==> r is Ok && final(self)@ == (DateTimeModel { day, ..old(self)@ }),
    {
        if day > 31 || day == 0 {
            return Err(DateTimeErrors::WrongValue);
        }
        self.day = day;
        Ok(())
    }

    fn set_month(&mut self, month: u8) -> (r: Result<(), DateTimeErrors>)
        ensures
            !(1 <= month <= 12) ==> r == Err::<(), DateTimeErrors>(DateTimeErrors::WrongValue)
                && final(self)@ == old(self)@,
            1 <= month <= 12 ==> r is Ok && final(self)@ == (DateTimeModel { month, ..old(self)@ }),
    {
        if month > 12 || month == 0 {
            return Err(DateTimeErrors::WrongValue);
        }
        self.month = month;
        Ok(())
    }

    fn set_year(&mut self, year: u16) -> (r: Result<(), DateTimeErrors>)
        ensures
            year < 1970 ==> r == Err::<(), DateTimeErrors>(DateTimeErrors::WrongValue)
                && final(self)@ == old(self)@,
            year >= 1970 ==> r is Ok && final(self)@ == (DateTimeModel { year, ..old(self)@ }),
    {
        if year < 1970 {
            return Err(DateTimeErrors::WrongValue);
        }
        self.year = year;
        Ok(())
    }
}

} // verus!
