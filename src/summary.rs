use vstd::prelude::*;

verus! {

/// One cell of a summary table.
#[derive(Clone, Debug, Default, PartialEq, Eq, PartialOrd, Ord, Hash)]
pub struct SummaryTableCell {
    /// The cell's content.
    pub data: String,
    /// Whether it is a header cell; defaults to false.
    pub header: Option<bool>,
    /// How many columns it spans; defaults to 1.
    pub colspan: Option<usize>,
    /// How many rows it spans; defaults to 1.
    pub rowspan: Option<usize>,
}

/// A span, 1 when absent.
pub open spec fn span_or_one(v: Option<usize>) -> usize {
    match v {
        Some(n) => n,
        None => 1,
    }
}

impl SummaryTableCell {
    /// Whether the cell renders as a header.
    pub fn is_header(&self) -> (r: bool)
        ensures
            r == crate::exec::flag_or(self.header, false),
    {
        match self.header {
            Some(b) => b,
            None => false,
        }
    }

    /// The columns the cell spans.
    pub fn column_span(&self) -> (r: usize)
        ensures
            r == span_or_one(self.colspan),
    {
        match self.colspan {
            Some(n) => n,
            None => 1,
        }
    }

    /// The rows the cell spans.
    pub fn row_span(&self) -> (r: usize)
        ensures
            r == span_or_one(self.rowspan),
    {
        match self.rowspan {
            Some(n) => n,
            None => 1,
        }
    }
}

/// Size attributes of a summary image, in pixels.
#[derive(Clone, Copy, Debug, Default, PartialEq, Eq, PartialOrd, Ord, Hash)]
pub struct SummaryImageOptions {
    /// The width, when given.
    pub width: Option<usize>,
    /// The height, when given.
    pub height: Option<usize>,
}

/// How the summary buffer is written out.
#[derive(Clone, Copy, Debug, Default, PartialEq, Eq, PartialOrd, Ord, Hash)]
pub struct SummaryWriteOptions {
    /// Replace the file's content instead of appending; defaults to false.
    pub overwrite: Option<bool>,
}

impl SummaryWriteOptions {
    /// Whether the write replaces the file's content.
    pub fn overwrites(&self) -> (r: bool)
        ensures
            r == crate::exec::flag_or(self.overwrite, false),
    {
        match self.overwrite {
            Some(b) => b,
            None => false,
        }
    }
}

/// The rows of a summary table.
#[derive(Clone, Debug, Default, PartialEq, Eq, PartialOrd, Ord, Hash)]
pub struct SummaryTable(pub Vec<Vec<SummaryTableCell>>);

} // verus!
