//! Diagnostic codes attached to compile errors.
use vstd::prelude::*;

verus! {

/// How serious a diagnostic code is.
#[derive(Debug, Clone, Copy, PartialEq, Eq, Structural, Hash)]
pub enum Severity {
    Error,
    Warning,
}

/// Stable identifiers of the diagnostics the compiler reports: `E0xxx` for
/// lexical errors, `E1xxx` for syntax errors, `E2xxx` for type errors.
#[derive(Debug, Clone, Copy, PartialEq, Eq, Structural, Hash)]
pub enum ErrorCode {
    E0001,
    E0002,
    E0003,
    E0004,
    E0005,
    E0006,
    E0007,
    E0008,
    E0009,
    E0010,
    E1005,
    E1013,
    E2002,
    E2003,
    E2004,
    E2005,
    E2006,
    E2007,
    E2008,
    E2009,
    E2010,
    E2011,
    E2012,
    E2013,
    E2014,
    E2015,
    E2016,
    E2017,
    E2018,
    E2019,
    E2020,
    E2021,
    E2022,
    E2023,
    E2024,
    E2025,
    E2026,
    E2027,
    E2028,
    E2029,
    E2030,
    E2031,
    E2032,
}

/// The printed form of a code, such as `E2023`.
pub open spec fn code_text(code: ErrorCode) -> Seq<char> {
    match code {
        ErrorCode::E0001 => "E0001"@,
        ErrorCode::E0002 => "E0002"@,
        ErrorCode::E0003 => "E0003"@,
        ErrorCode::E0004 => "E0004"@,
        ErrorCode::E0005 => "E0005"@,
        ErrorCode::E0006 => "E0006"@,
        ErrorCode::E0007 => "E0007"@,
        ErrorCode::E0008 => "E0008"@,
        ErrorCode::E0009 => "E0009"@,
        ErrorCode::E0010 => "E0010"@,
        ErrorCode::E1005 => "E1005"@,
        ErrorCode::E1013 => "E1013"@,
        ErrorCode::E2002 => "E2002"@,
        ErrorCode::E2003 => "E2003"@,
        ErrorCode::E2004 => "E2004"@,
        ErrorCode::E2005 => "E2005"@,
        ErrorCode::E2006 => "E2006"@,
        ErrorCode::E2007 => "E2007"@,
        ErrorCode::E2008 => "E2008"@,
        ErrorCode::E2009 => "E2009"@,
        ErrorCode::E2010 => "E2010"@,
        ErrorCode::E2011 => "E2011"@,
        ErrorCode::E2012 => "E2012"@,
        ErrorCode::E2013 => "E2013"@,
        ErrorCode::E2014 => "E2014"@,
        ErrorCode::E2015 => "E2015"@,
        ErrorCode::E2016 => "E2016"@,
        ErrorCode::E2017 => "E2017"@,
        ErrorCode::E2018 => "E2018"@,
        ErrorCode::E2019 => "E2019"@,
        ErrorCode::E2020 => "E2020"@,
        ErrorCode::E2021 => "E2021"@,
        ErrorCode::E2022 => "E2022"@,
        ErrorCode::E2023 => "E2023"@,
        ErrorCode::E2024 => "E2024"@,
        ErrorCode::E2025 => "E2025"@,
        ErrorCode::E2026 => "E2026"@,
        ErrorCode::E2027 => "E2027"@,
        ErrorCode::E2028 => "E2028"@,
        ErrorCode::E2029 => "E2029"@,
        ErrorCode::E2030 => "E2030"@,
        ErrorCode::E2031 => "E2031"@,
        ErrorCode::E2032 => "E2032"@,
    }
}

/// Warnings are the codes that do not stop compilation; every other code is an error.
pub open spec fn code_severity(code: ErrorCode) -> Severity {
    match code {
        ErrorCode::E1013 => Severity::Warning,
        _ => Severity::Error,
    }
}

impl ErrorCode {
    /// The printed form of the code.
    pub fn code(&self) -> (s: &'static str)
        ensures
            s@ == code_text(*self),
    {
        match self {
            ErrorCode::E0001 => "E0001",
            ErrorCode::E0002 => "E0002",
            ErrorCode::E0003 => "E0003",
            ErrorCode::E0004 => "E0004",
            ErrorCode::E0005 => "E0005",
            ErrorCode::E0006 => "E0006",
            ErrorCode::E0007 => "E0007",
            ErrorCode::E0008 => "E0008",
            ErrorCode::E0009 => "E0009",
            ErrorCode::E0010 => "E0010",
            ErrorCode::E1005 => "E1005",
            ErrorCode::E1013 => "E1013",
            ErrorCode::E2002 => "E2002",
            ErrorCode::E2003 => "E2003",
            ErrorCode::E2004 => "E2004",
            ErrorCode::E2005 => "E2005",
            ErrorCode::E2006 => "E2006",
            ErrorCode::E2007 => "E2007",
            ErrorCode::E2008 => "E2008",
            ErrorCode::E2009 => "E2009",
            ErrorCode::E2010 => "E2010",
            ErrorCode::E2011 => "E2011",
            ErrorCode::E2012 => "E2012",
            ErrorCode::E2013 => "E2013",
            ErrorCode::E2014 => "E2014",
            ErrorCode::E2015 => "E2015",
            ErrorCode::E2016 => "E2016",
            ErrorCode::E2017 => "E2017",
            ErrorCode::E2018 => "E2018",
            ErrorCode::E2019 => "E2019",
            ErrorCode::E2020 => "E2020",
            ErrorCode::E2021 => "E2021",
            ErrorCode::E2022 => "E2022",
            ErrorCode::E2023 => "E2023",
            ErrorCode::E2024 => "E2024",
            ErrorCode::E2025 => "E2025",
            ErrorCode::E2026 => "E2026",
            ErrorCode::E2027 => "E2027",
            ErrorCode::E2028 => "E2028",
            ErrorCode::E2029 => "E2029",
            ErrorCode::E2030 => "E2030",
            ErrorCode::E2031 => "E2031",
            ErrorCode::E2032 => "E2032",
        }
    }

    /// The severity of the code.
    pub fn severity(&self) -> (s: Severity)
        ensures
            s == code_severity(*self),
    {
        match self {
            ErrorCode::E1013 => Severity::Warning,
            _ => Severity::Error,
        }
    }
}

} // verus!
