use vstd::prelude::*;
use crate::text::{i64_text, int_text};

verus! {

/// Sentinel value for optional fields that have not been computed.
pub const UNKNOWN: i64 = -1;

/// Error raised when constructing an invalid [`SourceLocation`].
#[derive(Debug, Clone, Copy, PartialEq, Eq, Structural)]
pub enum SourceLocationError {
    InvalidLine(i32),
    InvalidColumn(i32),
    InvalidOffset(i64),
    InvalidIndex(i32),
    InvalidUtf8Offset(i64),
    InvalidCodePointOffset(i64),
    OffsetTooLarge(i64),
}

/// Source position within a compilation unit, ordered by `offset`.
#[derive(Debug, Clone, Copy, PartialEq, Eq, Structural, Hash)]
pub struct SourceLocation {
    line: i32,
    column: i32,
    offset: i64,
    index: i32,
    utf8_offset: i64,
    code_point_offset: i64,
}

/// The outcome of validating the given fields: each failure carries the
/// offending value, and success yields a location holding exactly those fields.
pub open spec fn validated(
    res: Result<SourceLocation, SourceLocationError>,
    line: i32,
    column: i32,
    offset: i64,
    index: i32,
    utf8_offset: i64,
    code_point_offset: i64,
) -> bool {
    if line < 1 {
        res == Err::<SourceLocation, SourceLocationError>(SourceLocationError::InvalidLine(line))
    } else if column < 1 {
        res == Err::<SourceLocation, SourceLocationError>(SourceLocationError::InvalidColumn(column))
    } else if offset < 0 {
        res == Err::<SourceLocation, SourceLocationError>(SourceLocationError::InvalidOffset(offset))
    } else if index < 0 {
        res == Err::<SourceLocation, SourceLocationError>(SourceLocationError::InvalidIndex(index))
    } else if utf8_offset != UNKNOWN && utf8_offset < 0 {
        res == Err::<SourceLocation, SourceLocationError>(
            SourceLocationError::InvalidUtf8Offset(utf8_offset),
        )
    } else if code_point_offset != UNKNOWN && code_point_offset < 0 {
        res == Err::<SourceLocation, SourceLocationError>(
            SourceLocationError::InvalidCodePointOffset(code_point_offset),
        )
    } else {
        res matches Ok(loc) && loc.has_fields(line, column, offset, index, utf8_offset, code_point_offset)
    }
}

/// The printed form of a location: `line L:column C`.
pub open spec fn location_text(l: SourceLocation) -> Seq<char> {
    "line "@ + int_text(l.spec_line() as int) + ":column "@ + int_text(l.spec_column() as int)
}

/// The printed form of a validation failure.
pub open spec fn location_error_text(e: SourceLocationError) -> Seq<char> {
    match e {
        SourceLocationError::InvalidLine(v) => "line must be >= 1 (1-based), got: "@ + int_text(v as int),
        SourceLocationError::InvalidColumn(v) => "column must be >= 1 (1-based), got: "@ + int_text(v as int),
        SourceLocationError::InvalidOffset(v) => "offset must be >= 0, got: "@ + int_text(v as int),
        SourceLocationError::InvalidIndex(v) => "index must be >= 0, got: "@ + int_text(v as int),
        SourceLocationError::InvalidUtf8Offset(v) => "utf8Offset must be >= 0 or UNKNOWN, got: "@ + int_text(v as int),
        SourceLocationError::InvalidCodePointOffset(v) => "codePointOffset must be >= 0 or UNKNOWN, got: "@
            + int_text(v as int),
        SourceLocationError::OffsetTooLarge(v) => "offset "@ + int_text(v as int) + " does not fit into an i32 index"@,
    }
}

fn prefixed_number(prefix: &str, v: i64) -> (s: String)
    ensures
        s@ == prefix@ + int_text(v as int),
{
    let mut s = String::from_str(prefix);
    let digits = i64_text(v);
    s.append(digits.as_str());
    s
}

impl SourceLocationError {
    /// The printed form of the failure.
    pub fn to_text(&self) -> (s: String)
        ensures
            s@ == location_error_text(*self),
    {
        match self {
            SourceLocationError::InvalidLine(v) => prefixed_number("line must be >= 1 (1-based), got: ", *v as i64),
            SourceLocationError::InvalidColumn(v) => prefixed_number("column must be >= 1 (1-based), got: ", *v as i64),
            SourceLocationError::InvalidOffset(v) => prefixed_number("offset must be >= 0, got: ", *v),
            SourceLocationError::InvalidIndex(v) => prefixed_number("index must be >= 0, got: ", *v as i64),
            SourceLocationError::InvalidUtf8Offset(v) => prefixed_number("utf8Offset must be >= 0 or UNKNOWN, got: ", *v),
            SourceLocationError::InvalidCodePointOffset(v) => prefixed_number(
                "codePointOffset must be >= 0 or UNKNOWN, got: ",
                *v,
            ),
            SourceLocationError::OffsetTooLarge(v) => {
                let mut s = prefixed_number("offset ", *v);
                s.append(" does not fit into an i32 index");
                s
            },
        }
    }
}

impl SourceLocation {
    pub closed spec fn spec_line(self) -> i32 {
        self.line
    }

    pub closed spec fn spec_column(self) -> i32 {
        self.column
    }

    pub closed spec fn spec_offset(self) -> i64 {
        self.offset
    }

    pub closed spec fn spec_index(self) -> i32 {
        self.index
    }

    pub closed spec fn spec_utf8_offset(self) -> i64 {
        self.utf8_offset
    }

    pub closed spec fn spec_code_point_offset(self) -> i64 {
        self.code_point_offset
    }

    /// The location whose fields are exactly the given values.
    pub open spec fn has_fields(
        self,
        line: i32,
        column: i32,
        offset: i64,
        index: i32,
        utf8_offset: i64,
        code_point_offset: i64,
    ) -> bool {
        &&& self.spec_line() == line
        &&& self.spec_column() == column
        &&& self.spec_offset() == offset
        &&& self.spec_index() == index
        &&& self.spec_utf8_offset() == utf8_offset
        &&& self.spec_code_point_offset() == code_point_offset
    }

    /// The location with exactly the given fields.
    pub closed spec fn spec_from(
        line: i32,
        column: i32,
        offset: i64,
        index: i32,
        utf8_offset: i64,
        code_point_offset: i64,
    ) -> Self {
        SourceLocation { line, column, offset, index, utf8_offset, code_point_offset }
    }

    /// A location has the given fields exactly when it is the one built from them.
    pub proof fn lemma_spec_from(
        l: Self,
        line: i32,
        column: i32,
        offset: i64,
        index: i32,
        utf8_offset: i64,
        code_point_offset: i64,
    )
        ensures
            l.has_fields(line, column, offset, index, utf8_offset, code_point_offset) <==> l == Self::spec_from(
                line,
                column,
                offset,
                index,
                utf8_offset,
                code_point_offset,
            ),
    {
    }

    /// A location is valid when every 1-based field is at least 1, every 0-based
    /// field is nonnegative and the optional offsets are nonnegative or `UNKNOWN`.
    pub open spec fn valid(self) -> bool {
        &&& self.spec_line() >= 1
        &&& self.spec_column() >= 1
        &&& self.spec_offset() >= 0
        &&& self.spec_index() >= 0
        &&& (self.spec_utf8_offset() == UNKNOWN || self.spec_utf8_offset() >= 0)
        &&& (self.spec_code_point_offset() == UNKNOWN || self.spec_code_point_offset() >= 0)
    }

    /// Validates all fields and builds the location.
    pub fn try_new(
        line: i32,
        column: i32,
        offset: i64,
        index: i32,
        utf8_offset: i64,
        code_point_offset: i64,
    ) -> (res: Result<Self, SourceLocationError>)
        ensures
            validated(res, line, column, offset, index, utf8_offset, code_point_offset),
    {
        if line < 1 {
            return Err(SourceLocationError::InvalidLine(line));
        }
        if column < 1 {
            return Err(SourceLocationError::InvalidColumn(column));
        }
        if offset < 0 {
            return Err(SourceLocationError::InvalidOffset(offset));
        }
        if index < 0 {
            return Err(SourceLocationError::InvalidIndex(index));
        }
        if utf8_offset != UNKNOWN && utf8_offset < 0 {
            return Err(SourceLocationError::InvalidUtf8Offset(utf8_offset));
        }
        if code_point_offset != UNKNOWN && code_point_offset < 0 {
            return Err(SourceLocationError::InvalidCodePointOffset(code_point_offset));
        }
        Ok(Self { line, column, offset, index, utf8_offset, code_point_offset })
    }

    /// Builds a location from line, column and offset; `index` is the offset
    /// itself, which must fit in an `i32`, and the optional offsets are `UNKNOWN`.
    pub fn create(line: i32, column: i32, offset: i64) -> (res: Result<Self, SourceLocationError>)
        ensures
            (offset < i32::MIN || offset > i32::MAX) ==> res == Err::<Self, SourceLocationError>(
                SourceLocationError::OffsetTooLarge(offset),
            ),
            (i32::MIN <= offset <= i32::MAX) ==> validated(
                res,
                line,
                column,
                offset,
                offset as i32,
                UNKNOWN,
                UNKNOWN,
            ),
    {
        if offset < i32::MIN as i64 || offset > i32::MAX as i64 {
            return Err(SourceLocationError::OffsetTooLarge(offset));
        }
        let index = offset as i32;
        Self::try_new(line, column, offset, index, UNKNOWN, UNKNOWN)
    }

    /// Builds a location with every offset variant given explicitly.
    pub fn create_full(
        line: i32,
        column: i32,
        offset: i64,
        index: i32,
        utf8_offset: i64,
        code_point_offset: i64,
    ) -> (res: Result<Self, SourceLocationError>)
        ensures
            validated(res, line, column, offset, index, utf8_offset, code_point_offset),
    {
        Self::try_new(line, column, offset, index, utf8_offset, code_point_offset)
    }

    /// Line number (1-based).
    pub fn line(&self) -> (r: i32)
        ensures
            r == self.spec_line(),
    {
        self.line
    }

    /// Column number (1-based).
    pub fn column(&self) -> (r: i32)
        ensures
            r == self.spec_column(),
    {
        self.column
    }

    /// Byte offset (0-based).
    pub fn offset(&self) -> (r: i64)
        ensures
            r == self.spec_offset(),
    {
        self.offset
    }

    /// Character index (0-based).
    pub fn index(&self) -> (r: i32)
        ensures
            r == self.spec_index(),
    {
        self.index
    }

    /// UTF-8 offset, or `UNKNOWN`.
    pub fn utf8_offset(&self) -> (r: i64)
        ensures
            r == self.spec_utf8_offset(),
    {
        self.utf8_offset
    }

    /// Code-point offset, or `UNKNOWN`.
    pub fn code_point_offset(&self) -> (r: i64)
        ensures
            r == self.spec_code_point_offset(),
    {
        self.code_point_offset
    }

    /// A copy with a new UTF-8 offset.
    pub fn with_utf8_offset(&self, new_utf8_offset: i64) -> (r: Self)
        ensures
            r.has_fields(
                self.spec_line(),
                self.spec_column(),
                self.spec_offset(),
                self.spec_index(),
                new_utf8_offset,
                self.spec_code_point_offset(),
            ),
    {
        Self { utf8_offset: new_utf8_offset, ..*self }
    }

    /// A copy with a new code-point offset.
    pub fn with_code_point_offset(&self, cp_offset: i64) -> (r: Self)
        ensures
            r.has_fields(
                self.spec_line(),
                self.spec_column(),
                self.spec_offset(),
                self.spec_index(),
                self.spec_utf8_offset(),
                cp_offset,
            ),
    {
        Self { code_point_offset: cp_offset, ..*self }
    }

    /// The printed form of the location: `line L:column C`.
    pub fn to_text(&self) -> (s: String)
        ensures
            s@ == location_text(*self),
    {
        let mut s = prefixed_number("line ", self.line as i64);
        let column = prefixed_number(":column ", self.column as i64);
        s.append(column.as_str());
        s
    }

    /// Whether the UTF-8 offset has been computed.
    pub fn has_utf8_offset(&self) -> (r: bool)
        ensures
            r == (self.spec_utf8_offset() != UNKNOWN),
    {
        self.utf8_offset != UNKNOWN
    }

    /// Whether the code-point offset has been computed.
    pub fn has_code_point_offset(&self) -> (r: bool)
        ensures
            r == (self.spec_code_point_offset() != UNKNOWN),
    {
        self.code_point_offset != UNKNOWN
    }
}

/// The default location is the start of a file: line 1, column 1, offset 0,
/// with the optional offsets unknown.
impl Default for SourceLocation {
    fn default() -> (r: Self)
        ensures
            r.has_fields(1, 1, 0, 0, UNKNOWN, UNKNOWN),
    {
        Self { line: 1, column: 1, offset: 0, index: 0, utf8_offset: UNKNOWN, code_point_offset: UNKNOWN }
    }
}

} // verus!
